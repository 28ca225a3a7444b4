use vstd::prelude::*;

verus! {

/// Status code carried by a websocket close frame.
#[derive(Debug, Clone, Copy, PartialEq, Eq, Structural)]
pub enum CloseCode {
    /// 1000: normal closure.
    Normal,
    /// 1001: the endpoint is going away.
    Away,
    /// 1002: protocol error.
    Protocol,
    /// 1003: the endpoint received data it cannot accept.
    Unsupported,
    /// 1005: no status code was present.
    Status,
    /// 1006: the connection closed abnormally.
    Abnormal,
    /// 1007: the payload was inconsistent with its type.
    Invalid,
    /// 1008: a policy was violated.
    Policy,
    /// 1009: the message was too big.
    Size,
    /// 1010: an extension was expected by the client.
    Extension,
    /// 1011: unexpected condition on the server.
    Error,
    /// 1012: the service is restarting.
    Restart,
    /// 1013: temporary overload, try again later.
    Again,
    /// 1015: TLS handshake failure.
    Tls,
    /// 1016..=2999: reserved for future versions of the protocol.
    Reserved(u16),
    /// 3000..=3999: registered with IANA.
    Iana(u16),
    /// 4000..=4999: private use by libraries and applications.
    Library(u16),
    /// Any other value: not a valid close code.
    Bad(u16),
}

/// The close code that a numeric status denotes.
pub open spec fn spec_close_code_of(n: u16) -> CloseCode {
    if n == 1000 { CloseCode::Normal }
    else if n == 1001 { CloseCode::Away }
    else if n == 1002 { CloseCode::Protocol }
    else if n == 1003 { CloseCode::Unsupported }
    else if n == 1005 { CloseCode::Status }
    else if n == 1006 { CloseCode::Abnormal }
    else if n == 1007 { CloseCode::Invalid }
    else if n == 1008 { CloseCode::Policy }
    else if n == 1009 { CloseCode::Size }
    else if n == 1010 { CloseCode::Extension }
    else if n == 1011 { CloseCode::Error }
    else if n == 1012 { CloseCode::Restart }
    else if n == 1013 { CloseCode::Again }
    else if n == 1015 { CloseCode::Tls }
    else if 1016 <= n <= 2999 { CloseCode::Reserved(n) }
    else if 3000 <= n <= 3999 { CloseCode::Iana(n) }
    else if 4000 <= n <= 4999 { CloseCode::Library(n) }
    else { CloseCode::Bad(n) }
}

/// The numeric status that a close code carries on the wire.
pub open spec fn spec_close_code_value(code: CloseCode) -> u16 {
    match code {
        CloseCode::Normal => 1000,
        CloseCode::Away => 1001,
        CloseCode::Protocol => 1002,
        CloseCode::Unsupported => 1003,
        CloseCode::Status => 1005,
        CloseCode::Abnormal => 1006,
        CloseCode::Invalid => 1007,
        CloseCode::Policy => 1008,
        CloseCode::Size => 1009,
        CloseCode::Extension => 1010,
        CloseCode::Error => 1011,
        CloseCode::Restart => 1012,
        CloseCode::Again => 1013,
        CloseCode::Tls => 1015,
        CloseCode::Reserved(n) => n,
        CloseCode::Iana(n) => n,
        CloseCode::Library(n) => n,
        CloseCode::Bad(n) => n,
    }
}

impl CloseCode {
    /// Classifies a numeric close status.
    pub fn from_u16(n: u16) -> (code: CloseCode)
        ensures
            code == spec_close_code_of(n),
    {
        match n {
            1000 => CloseCode::Normal,
            1001 => CloseCode::Away,
            1002 => CloseCode::Protocol,
            1003 => CloseCode::Unsupported,
            1005 => CloseCode::Status,
            1006 => CloseCode::Abnormal,
            1007 => CloseCode::Invalid,
            1008 => CloseCode::Policy,
            1009 => CloseCode::Size,
            1010 => CloseCode::Extension,
            1011 => CloseCode::Error,
            1012 => CloseCode::Restart,
            1013 => CloseCode::Again,
            1015 => CloseCode::Tls,
            1016..=2999 => CloseCode::Reserved(n),
            3000..=3999 => CloseCode::Iana(n),
            4000..=4999 => CloseCode::Library(n),
            _ => CloseCode::Bad(n),
        }
    }

    /// The numeric status of this close code.
    pub fn to_u16(&self) -> (n: u16)
        ensures
            n == spec_close_code_value(*self),
    {
        match *self {
            CloseCode::Normal => 1000,
            CloseCode::Away => 1001,
            CloseCode::Protocol => 1002,
            CloseCode::Unsupported => 1003,
            CloseCode::Status => 1005,
            CloseCode::Abnormal => 1006,
            CloseCode::Invalid => 1007,
            CloseCode::Policy => 1008,
            CloseCode::Size => 1009,
            CloseCode::Extension => 1010,
            CloseCode::Error => 1011,
            CloseCode::Restart => 1012,
            CloseCode::Again => 1013,
            CloseCode::Tls => 1015,
            CloseCode::Reserved(n) => n,
            CloseCode::Iana(n) => n,
            CloseCode::Library(n) => n,
            CloseCode::Bad(n) => n,
        }
    }
}

impl From<u16> for CloseCode {
    fn from(n: u16) -> (code: CloseCode) {
        CloseCode::from_u16(n)
    }
}

impl vstd::std_specs::convert::FromSpecImpl<u16> for CloseCode {
    open spec fn obeys_from_spec() -> bool {
        true
    }

    open spec fn from_spec(n: u16) -> CloseCode {
        spec_close_code_of(n)
    }
}

impl From<CloseCode> for u16 {
    fn from(code: CloseCode) -> (n: u16) {
        code.to_u16()
    }
}

impl vstd::std_specs::convert::FromSpecImpl<CloseCode> for u16 {
    open spec fn obeys_from_spec() -> bool {
        true
    }

    open spec fn from_spec(code: CloseCode) -> u16 {
        spec_close_code_value(code)
    }
}

/// Reading the status of the close code that a status denotes gives that
/// status back: no numeric status is lost by the classification.
pub proof fn lemma_close_code_roundtrip(n: u16)
    ensures
        spec_close_code_value(spec_close_code_of(n)) == n,
{
}

/// Classifying the status of a classified code gives the same code again.
pub proof fn lemma_close_code_canonical(n: u16)
    ensures
        spec_close_code_of(spec_close_code_value(spec_close_code_of(n))) == spec_close_code_of(n),
{
}

/// Two statuses denote the same close code only when they are equal.
pub proof fn lemma_close_code_injective(a: u16, b: u16)
    requires
        spec_close_code_of(a) == spec_close_code_of(b),
    ensures
        a == b,
{
    lemma_close_code_roundtrip(a);
    lemma_close_code_roundtrip(b);
}

/// The named close codes carry the statuses registered for them, and each
/// range of unnamed statuses keeps its status in its own kind of code.
pub proof fn lemma_close_code_table(n: u16)
    ensures
        spec_close_code_value(CloseCode::Normal) == 1000,
        spec_close_code_value(CloseCode::Away) == 1001,
        spec_close_code_value(CloseCode::Protocol) == 1002,
        spec_close_code_value(CloseCode::Unsupported) == 1003,
        spec_close_code_value(CloseCode::Status) == 1005,
        spec_close_code_value(CloseCode::Abnormal) == 1006,
        spec_close_code_value(CloseCode::Invalid) == 1007,
        spec_close_code_value(CloseCode::Policy) == 1008,
        spec_close_code_value(CloseCode::Size) == 1009,
        spec_close_code_value(CloseCode::Extension) == 1010,
        spec_close_code_value(CloseCode::Error) == 1011,
        spec_close_code_value(CloseCode::Restart) == 1012,
        spec_close_code_value(CloseCode::Again) == 1013,
        spec_close_code_value(CloseCode::Tls) == 1015,
        1016 <= n <= 2999 <==> spec_close_code_of(n) == CloseCode::Reserved(n),
        3000 <= n <= 3999 <==> spec_close_code_of(n) == CloseCode::Iana(n),
        4000 <= n <= 4999 <==> spec_close_code_of(n) == CloseCode::Library(n),
        (n < 1000 || n == 1004 || n == 1014 || n >= 5000) <==> spec_close_code_of(n) == CloseCode::Bad(n),
{
}

/// A message exchanged with the websocket server.
#[derive(Debug, Clone, PartialEq, Eq)]
pub enum Message {
    /// A text frame.
    Text(String),
    /// A binary frame.
    Binary(Vec<u8>),
    /// A ping frame with its payload.
    Ping(Vec<u8>),
    /// A pong frame with its payload.
    Pong(Vec<u8>),
    /// A close frame with its status and reason.
    Close(CloseCode, String),
}

/// The mathematical content of a [`Message`].
pub enum MessageView {
    Text(Seq<char>),
    Binary(Seq<u8>),
    Ping(Seq<u8>),
    Pong(Seq<u8>),
    Close(CloseCode, Seq<char>),
}

impl View for Message {
    type V = MessageView;

    open spec fn view(&self) -> MessageView {
        match self {
            Message::Text(t) => MessageView::Text(t@),
            Message::Binary(b) => MessageView::Binary(b@),
            Message::Ping(b) => MessageView::Ping(b@),
            Message::Pong(b) => MessageView::Pong(b@),
            Message::Close(code, reason) => MessageView::Close(*code, reason@),
        }
    }
}

} // verus!
