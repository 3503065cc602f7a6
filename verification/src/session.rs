//! The per-connection session state machine. A session walks one client
//! connection through Greeting, optional Authentication, Command,
//! Connecting, and Relay, and decides, for each frame the driver has read,
//! the exact reply bytes, the next stage, and the error the session ends
//! with, if any. The driver does the reading, writing, connecting, and
//! relaying; every decision is made here.

use vstd::prelude::*;

use crate::codec::{
    decode_address, spec_command_reply, spec_decode_address, AddrDecode, DecodeError,
};
use crate::wire::{spec_method_byte, AddressSpec, Command, Method, ReplyStatus};

verus! {

/// The stage a session is in. `Address` is the point inside the command
/// exchange where the header was accepted and the destination address is
/// still to be read; `Connecting` is the point where the destination is
/// known and the outbound connection is being attempted.
#[derive(Clone, Copy, Debug, PartialEq, Eq, Structural)]
pub enum Stage {
    Greeting,
    Auth,
    Command,
    Address,
    Connecting,
    Relay,
    Closed,
}

/// Why a session ended before a successful relay.
#[derive(Clone, Copy, Debug, PartialEq, Eq, Structural)]
pub enum SessionError {
    FramingViolation,
    ProtocolVersionMismatch,
    NoAcceptableMethod,
    AuthenticationFailed,
    UnsupportedCommand,
    UnsupportedAddressType,
    UpstreamUnreachable,
    TransportIOError,
}

/// How many bytes each relay direction moved and which side closed
/// first. Informational only: no decision branches on it.
#[derive(Clone, Copy, Debug, PartialEq, Eq, Structural)]
pub struct RelayResult {
    pub client_to_upstream: u64,
    pub upstream_to_client: u64,
    pub client_closed_first: bool,
}

/// The method the server selects from an offered list: username/password
/// when offered, else no authentication when offered, else none.
pub open spec fn spec_select_method(methods: Seq<u8>) -> Method {
    if methods.contains(0x02u8) {
        Method::Passwd
    } else if methods.contains(0x00u8) {
        Method::NoAuth
    } else {
        Method::Error
    }
}

/// A list that offers username/password authentication has it selected,
/// wherever in the list it stands and whatever else is offered.
pub proof fn lemma_passwd_preferred(methods: Seq<u8>)
    requires
        methods.contains(0x02u8),
    ensures
        spec_select_method(methods) == Method::Passwd,
{
}

/// A list that offers neither no-auth nor username/password leaves the
/// server with no acceptable method.
pub proof fn lemma_no_acceptable_method(methods: Seq<u8>)
    requires
        !methods.contains(0x00u8),
        !methods.contains(0x02u8),
    ensures
        spec_select_method(methods) == Method::Error,
{
}

/// Selects the authentication method from the offered list.
pub fn select_method(methods: &Vec<u8>) -> (r: Method)
    ensures
        r == spec_select_method(methods@),
{
    let mut has_passwd = false;
    let mut has_noauth = false;
    let mut i: usize = 0;
    while i < methods.len()
        invariant
            i <= methods@.len(),
            has_passwd <==> (exists|j: int| 0 <= j < i && methods@[j] == 0x02u8),
            has_noauth <==> (exists|j: int| 0 <= j < i && methods@[j] == 0x00u8),
        decreases methods@.len() - i,
    {
        let m = methods[i];
        if m == 0x02 {
            has_passwd = true;
        }
        if m == 0x00 {
            has_noauth = true;
        }
        i = i + 1;
    }
    if has_passwd {
        Method::Passwd
    } else if has_noauth {
        Method::NoAuth
    } else {
        Method::Error
    }
}

/// Compares two byte strings for equality of content.
pub fn bytes_eq(a: &Vec<u8>, b: &Vec<u8>) -> (r: bool)
    ensures
        r <==> a@ == b@,
{
    if a.len() != b.len() {
        return false;
    }
    let mut i: usize = 0;
    while i < a.len()
        invariant
            i <= a@.len(),
            a@.len() == b@.len(),
            forall|j: int| 0 <= j < i ==> a@[j] == b@[j],
        decreases a@.len() - i,
    {
        if a[i] != b[i] {
            return false;
        }
        i = i + 1;
    }
    proof {
        assert(a@ =~= b@);
    }
    true
}

/// One client connection's protocol state: the stage reached, the fixed
/// protocol version, the configured credential the session accepts, and
/// the destination once the command exchange has produced one.
pub struct Session {
    pub stage: Stage,
    pub version: u8,
    pub username: Vec<u8>,
    pub password: Vec<u8>,
    pub target: Option<AddressSpec>,
}

impl Session {
    /// The parts of a session that no step changes: the protocol version
    /// and the configured credential.
    pub open spec fn same_config(self, other: Session) -> bool {
        &&& self.version == other.version
        &&& self.username@ == other.username@
        &&& self.password@ == other.password@
    }

    /// A fresh session for one accepted connection, awaiting the
    /// greeting, with the credential it will accept.
    pub fn new(username: Vec<u8>, password: Vec<u8>) -> (r: Session)
        ensures
            r.stage is Greeting,
            r.version == 5,
            r.username@ == username@,
            r.password@ == password@,
            r.target is None,
    {
        Session { stage: Stage::Greeting, version: 5, username, password, target: None }
    }

    /// Whether a version byte is the session's. A greeting that fails
    /// this is answered without the method list being read at all.
    pub fn version_ok(&self, v: u8) -> (r: bool)
        ensures
            r == (v == self.version),
    {
        v == self.version
    }

    /// Handles the greeting: the client's version byte and offered method
    /// list. Returns the two-byte negotiation reply, always sent, and the
    /// terminal error if no method was acceptable. A version other than 5
    /// selects no method, but the reply is still owed before closing.
    /// A selected username/password method moves the session to the
    /// authentication subnegotiation; no-auth moves straight to command.
    pub fn step_greeting(&mut self, ver: u8, methods: &Vec<u8>) -> (r: (
        Vec<u8>,
        Option<SessionError>,
    ))
        requires
            old(self).stage is Greeting,
        ensures
            old(self).same_config(*final(self)),
            ({
                let chosen = if ver != old(self).version {
                    Method::Error
                } else {
                    spec_select_method(methods@)
                };
                &&& r.0@ == seq![old(self).version, spec_method_byte(chosen)]
                &&& (chosen is Error ==> final(self).stage is Closed && r.1 == Some(
                    SessionError::NoAcceptableMethod,
                ))
                &&& (chosen is Passwd ==> final(self).stage is Auth && r.1 is None)
                &&& (chosen is NoAuth ==> final(self).stage is Command && r.1 is None)
            }),
    {
        let chosen = if ver != self.version {
            Method::Error
        } else {
            select_method(methods)
        };
        let mut reply: Vec<u8> = Vec::new();
        reply.push(self.version);
        reply.push(chosen.byte());
        assert(reply@ =~= seq![self.version, spec_method_byte(chosen)]);
        match chosen {
            Method::Error => {
                self.stage = Stage::Closed;
                (reply, Some(SessionError::NoAcceptableMethod))
            },
            Method::Passwd => {
                self.stage = Stage::Auth;
                (reply, None)
            },
            Method::NoAuth => {
                self.stage = Stage::Command;
                (reply, None)
            },
        }
    }

    /// Handles the username/password subnegotiation: the auth-version
    /// byte the client sent (echoed in the reply, not validated) and the
    /// two fields. Returns the two-byte auth reply. A zero-length field
    /// is a framing violation, not an empty credential; a wrong pair
    /// fails authentication; the configured pair proceeds to command.
    pub fn step_auth(&mut self, aver: u8, username: &Vec<u8>, password: &Vec<u8>) -> (r: (
        Vec<u8>,
        Option<SessionError>,
    ))
        requires
            old(self).stage is Auth,
        ensures
            old(self).same_config(*final(self)),
            ({
                if username@.len() == 0 || password@.len() == 0 {
                    &&& r.0@ == seq![aver, 0xffu8]
                    &&& final(self).stage is Closed
                    &&& r.1 == Some(SessionError::FramingViolation)
                } else if username@ == old(self).username@ && password@ == old(
                    self,
                ).password@ {
                    &&& r.0@ == seq![aver, 0x00u8]
                    &&& final(self).stage is Command
                    &&& r.1 is None
                } else {
                    &&& r.0@ == seq![aver, 0xffu8]
                    &&& final(self).stage is Closed
                    &&& r.1 == Some(SessionError::AuthenticationFailed)
                }
            }),
    {
        let mut reply: Vec<u8> = Vec::new();
        reply.push(aver);
        if username.len() == 0 || password.len() == 0 {
            reply.push(0xff);
            assert(reply@ =~= seq![aver, 0xffu8]);
            self.stage = Stage::Closed;
            (reply, Some(SessionError::FramingViolation))
        } else if bytes_eq(username, &self.username) && bytes_eq(password, &self.password) {
            reply.push(0x00);
            assert(reply@ =~= seq![aver, 0x00u8]);
            self.stage = Stage::Command;
            (reply, None)
        } else {
            reply.push(0xff);
            assert(reply@ =~= seq![aver, 0xffu8]);
            self.stage = Stage::Closed;
            (reply, Some(SessionError::AuthenticationFailed))
        }
    }

    /// Handles the fixed command header: version, command, and reserved
    /// bytes. A version other than the session's is answered with the
    /// rule-set reply; a command other than connect with the unsupported
    /// command reply; a connect command is answered with nothing yet —
    /// the destination address is read next.
    pub fn step_command_header(&mut self, ver: u8, cmd: u8) -> (r: (
        Option<Vec<u8>>,
        Option<SessionError>,
    ))
        requires
            old(self).stage is Command,
        ensures
            old(self).same_config(*final(self)),
            ver != old(self).version ==> {
                &&& r.0 matches Some(v) && v@ == spec_command_reply(
                    old(self).version,
                    ReplyStatus::RuleSetNotAllowed,
                )
                &&& final(self).stage is Closed
                &&& r.1 == Some(SessionError::ProtocolVersionMismatch)
            },
            ver == old(self).version && cmd != 0x01 ==> {
                &&& r.0 matches Some(v) && v@ == spec_command_reply(
                    old(self).version,
                    ReplyStatus::CommandUnsupported,
                )
                &&& final(self).stage is Closed
                &&& r.1 == Some(SessionError::UnsupportedCommand)
            },
            ver == old(self).version && cmd == 0x01 ==> {
                &&& r.0 is None
                &&& r.1 is None
                &&& final(self).stage is Address
            },
    {
        if ver != self.version {
            let reply = crate::codec::encode_command_reply(
                self.version,
                ReplyStatus::RuleSetNotAllowed,
            );
            self.stage = Stage::Closed;
            return (Some(reply), Some(SessionError::ProtocolVersionMismatch));
        }
        match Command::from_byte(cmd) {
            Command::Connect => {
                self.stage = Stage::Address;
                (None, None)
            },
            Command::Unsupported => {
                let reply = crate::codec::encode_command_reply(
                    self.version,
                    ReplyStatus::CommandUnsupported,
                );
                self.stage = Stage::Closed;
                (Some(reply), Some(SessionError::UnsupportedCommand))
            },
        }
    }

    /// Handles the destination address bytes of a connect command. A
    /// decoded, supported address is kept as the target and the outbound
    /// connection is attempted next; an unsupported address type is
    /// answered with its reply; a zero-length domain name is a framing
    /// violation answered with the rule-set reply; a truncated address is
    /// a framing violation with no reply owed.
    pub fn step_command_address(&mut self, bytes: &Vec<u8>) -> (r: (
        Option<Vec<u8>>,
        Option<SessionError>,
    ))
        requires
            old(self).stage is Address,
        ensures
            old(self).same_config(*final(self)),
            ({
                let d = spec_decode_address(bytes@);
                &&& (d matches AddrDecode::Done { addr, .. } ==> (if !(addr is Unsupported) {
                    &&& r.0 is None
                    &&& r.1 is None
                    &&& final(self).stage is Connecting
                    &&& (final(self).target matches Some(t) && t@ == addr && t@.wf())
                } else {
                    &&& (r.0 matches Some(v) && v@ == spec_command_reply(
                        old(self).version,
                        ReplyStatus::AddrTypeUnsupported,
                    ))
                    &&& final(self).stage is Closed
                    &&& r.1 == Some(SessionError::UnsupportedAddressType)
                }))
                &&& (d is EmptyField ==> {
                    &&& r.0 matches Some(v) && v@ == spec_command_reply(
                        old(self).version,
                        ReplyStatus::RuleSetNotAllowed,
                    )
                    &&& final(self).stage is Closed
                    &&& r.1 == Some(SessionError::FramingViolation)
                })
                &&& (d is Truncated ==> {
                    &&& r.0 is None
                    &&& final(self).stage is Closed
                    &&& r.1 == Some(SessionError::FramingViolation)
                })
            }),
    {
        match decode_address(bytes) {
            Ok((addr, _used)) => match addr {
                AddressSpec::Unsupported => {
                    let reply = crate::codec::encode_command_reply(
                        self.version,
                        ReplyStatus::AddrTypeUnsupported,
                    );
                    self.stage = Stage::Closed;
                    (Some(reply), Some(SessionError::UnsupportedAddressType))
                },
                _ => {
                    self.target = Some(addr);
                    self.stage = Stage::Connecting;
                    (None, None)
                },
            },
            Err(DecodeError::EmptyField) => {
                let reply = crate::codec::encode_command_reply(
                    self.version,
                    ReplyStatus::RuleSetNotAllowed,
                );
                self.stage = Stage::Closed;
                (Some(reply), Some(SessionError::FramingViolation))
            },
            Err(DecodeError::Truncated) => {
                self.stage = Stage::Closed;
                (None, Some(SessionError::FramingViolation))
            },
        }
    }

    /// Records the outcome of the outbound connection attempt. Success is
    /// answered with the succeeded reply and the session enters the relay
    /// phase; failure with the connection-refused reply and the session
    /// closes.
    pub fn step_connect(&mut self, connected: bool) -> (r: (Vec<u8>, Option<SessionError>))
        requires
            old(self).stage is Connecting,
        ensures
            old(self).same_config(*final(self)),
            connected ==> {
                &&& r.0@ == spec_command_reply(old(self).version, ReplyStatus::Succeeded)
                &&& final(self).stage is Relay
                &&& r.1 is None
            },
            !connected ==> {
                &&& r.0@ == spec_command_reply(old(self).version, ReplyStatus::ConnectionRefused)
                &&& final(self).stage is Closed
                &&& r.1 == Some(SessionError::UpstreamUnreachable)
            },
    {
        if connected {
            let reply = crate::codec::encode_command_reply(self.version, ReplyStatus::Succeeded);
            self.stage = Stage::Relay;
            (reply, None)
        } else {
            let reply = crate::codec::encode_command_reply(
                self.version,
                ReplyStatus::ConnectionRefused,
            );
            self.stage = Stage::Closed;
            (reply, Some(SessionError::UpstreamUnreachable))
        }
    }

    /// Records that the relay phase has ended, cleanly or not: the
    /// session is closed either way, and the relay's outcome is kept for
    /// observation only.
    pub fn step_relay_done(&mut self, _result: &RelayResult)
        requires
            old(self).stage is Relay,
        ensures
            old(self).same_config(*final(self)),
            final(self).stage is Closed,
    {
        self.stage = Stage::Closed;
    }

    /// Records that the client vanished or the transport failed where no
    /// reply is owed: the session closes silently with a transport error.
    pub fn step_disconnected(&mut self) -> (r: SessionError)
        ensures
            old(self).same_config(*final(self)),
            final(self).stage is Closed,
            r == SessionError::TransportIOError,
    {
        self.stage = Stage::Closed;
        SessionError::TransportIOError
    }
}

} // verus!
