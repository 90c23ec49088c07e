use vstd::prelude::*;

verus! {

/// What can go wrong. Each variant has a stable code and a fixed text for the user, neither of
/// which holds secrets or internal detail; `Other` carries a text of its own.
#[derive(Debug, Clone, PartialEq, Eq)]
pub enum AppError {
    /// The target is not an IPv4 address that can be dialled (loopback, link-local, broadcast,
    /// multicast, reserved and unspecified addresses are not).
    InvalidPeerIp,
    /// The target is this machine's own ZeroTier address.
    SelfConnection,
    /// A connection is open or being opened; a second one is refused.
    AlreadyConnected,
    /// The TCP connection was not made in time.
    ConnectTimeout,
    /// The TCP connection was refused or failed otherwise.
    ConnectFailed,
    /// The listening port could not be bound.
    BindFailed,
    /// A message is longer than 1 MiB.
    ProtocolMessageTooLarge,
    /// A length prefix is 0.
    ProtocolInvalidLength,
    /// A message body is not UTF-8.
    ProtocolInvalidUtf8,
    /// A message body is not the JSON of a message.
    ProtocolInvalidJson,
    /// A message is of another protocol version.
    ProtocolVersionMismatch,
    /// A hello does not pass its checks.
    InvalidHello,
    /// No hello came in time.
    HandshakeTimeout,
    /// The peer closed the connection, between frames or within one.
    ConnectionClosed,
    /// Three pings in a row were not answered.
    HeartbeatTimeout,
    /// A background network task failed.
    NetworkTaskFailed,
    /// Anything else (configuration, system calls), with its text.
    Other(String),
}

/// The fixed text that the user is shown for an error.
pub open spec fn user_text_of(e: AppError) -> Seq<char> {
    match e {
        AppError::InvalidPeerIp => "不是有效的 IPv4 地址"@,
        AppError::SelfConnection => "不能连接本机自己的 ZeroTier IP"@,
        AppError::AlreadyConnected => "已有活动连接，请先断开"@,
        AppError::ConnectTimeout => "无法连接，请确认对方程序已经启动。"@,
        AppError::ConnectFailed => "对方没有运行 ClipLink，或被防火墙阻止。"@,
        AppError::BindFailed => "本机监听启动失败，请确认 45888 端口未被占用。"@,
        AppError::ProtocolMessageTooLarge => "对方发送的消息超过 1 MiB 上限，连接已关闭。"@,
        AppError::ProtocolInvalidLength => "协议错误：消息长度非法，连接已关闭。"@,
        AppError::ProtocolInvalidUtf8 => "协议错误：消息不是合法 UTF-8，连接已关闭。"@,
        AppError::ProtocolInvalidJson => "协议错误：消息无法解析，连接已关闭。"@,
        AppError::ProtocolVersionMismatch => "双方版本不兼容，请更新 ClipLink。"@,
        AppError::InvalidHello => "与对方的设备信息校验不一致，请重试。"@,
        AppError::HandshakeTimeout => "无法连接，请确认对方程序已经启动。"@,
        AppError::ConnectionClosed => "连接已中断。"@,
        AppError::HeartbeatTimeout => "连接已中断。"@,
        AppError::NetworkTaskFailed => "连接任务异常退出，请重试。"@,
        AppError::Other(s) => s@,
    }
}

/// The stable code of an error, for logs and events.
pub open spec fn code_of(e: AppError) -> Seq<char> {
    match e {
        AppError::InvalidPeerIp => "invalid_peer_ip"@,
        AppError::SelfConnection => "self_connection"@,
        AppError::AlreadyConnected => "already_connected"@,
        AppError::ConnectTimeout => "connect_timeout"@,
        AppError::ConnectFailed => "connect_failed"@,
        AppError::BindFailed => "bind_failed"@,
        AppError::ProtocolMessageTooLarge => "protocol_message_too_large"@,
        AppError::ProtocolInvalidLength => "protocol_invalid_length"@,
        AppError::ProtocolInvalidUtf8 => "protocol_invalid_utf8"@,
        AppError::ProtocolInvalidJson => "protocol_invalid_json"@,
        AppError::ProtocolVersionMismatch => "protocol_version_mismatch"@,
        AppError::InvalidHello => "invalid_hello"@,
        AppError::HandshakeTimeout => "handshake_timeout"@,
        AppError::ConnectionClosed => "connection_closed"@,
        AppError::HeartbeatTimeout => "heartbeat_timeout"@,
        AppError::NetworkTaskFailed => "network_task_failed"@,
        AppError::Other(_) => "other"@,
    }
}

/// Whether a result is the error `Other` with the given text.
pub open spec fn is_other<T>(r: Result<T, AppError>, text: Seq<char>) -> bool {
    r matches Err(AppError::Other(s)) && s@ == text
}

impl vstd::std_specs::convert::FromSpecImpl<String> for AppError {
    open spec fn obeys_from_spec() -> bool {
        true
    }

    open spec fn from_spec(s: String) -> AppError {
        AppError::Other(s)
    }
}

impl From<String> for AppError {
    fn from(s: String) -> (r: AppError) {
        AppError::Other(s)
    }
}

impl AppError {
    pub fn new(msg: &str) -> (r: AppError)
        ensures
            r matches AppError::Other(s) && s@ == msg@,
    {
        AppError::Other(msg.to_string())
    }

    pub fn user_text(&self) -> (r: String)
        ensures
            r@ == user_text_of(*self),
    {
        match self {
            AppError::InvalidPeerIp => "不是有效的 IPv4 地址".to_string(),
            AppError::SelfConnection => "不能连接本机自己的 ZeroTier IP".to_string(),
            AppError::AlreadyConnected => "已有活动连接，请先断开".to_string(),
            AppError::ConnectTimeout => "无法连接，请确认对方程序已经启动。".to_string(),
            AppError::ConnectFailed => "对方没有运行 ClipLink，或被防火墙阻止。".to_string(),
            AppError::BindFailed => "本机监听启动失败，请确认 45888 端口未被占用。".to_string(),
            AppError::ProtocolMessageTooLarge => "对方发送的消息超过 1 MiB 上限，连接已关闭。".to_string(),
            AppError::ProtocolInvalidLength => "协议错误：消息长度非法，连接已关闭。".to_string(),
            AppError::ProtocolInvalidUtf8 => "协议错误：消息不是合法 UTF-8，连接已关闭。".to_string(),
            AppError::ProtocolInvalidJson => "协议错误：消息无法解析，连接已关闭。".to_string(),
            AppError::ProtocolVersionMismatch => "双方版本不兼容，请更新 ClipLink。".to_string(),
            AppError::InvalidHello => "与对方的设备信息校验不一致，请重试。".to_string(),
            AppError::HandshakeTimeout => "无法连接，请确认对方程序已经启动。".to_string(),
            AppError::ConnectionClosed => "连接已中断。".to_string(),
            AppError::HeartbeatTimeout => "连接已中断。".to_string(),
            AppError::NetworkTaskFailed => "连接任务异常退出，请重试。".to_string(),
            AppError::Other(s) => s.clone(),
        }
    }

    pub fn code(&self) -> (r: &'static str)
        ensures
            r@ == code_of(*self),
    {
        match self {
            AppError::InvalidPeerIp => "invalid_peer_ip",
            AppError::SelfConnection => "self_connection",
            AppError::AlreadyConnected => "already_connected",
            AppError::ConnectTimeout => "connect_timeout",
            AppError::ConnectFailed => "connect_failed",
            AppError::BindFailed => "bind_failed",
            AppError::ProtocolMessageTooLarge => "protocol_message_too_large",
            AppError::ProtocolInvalidLength => "protocol_invalid_length",
            AppError::ProtocolInvalidUtf8 => "protocol_invalid_utf8",
            AppError::ProtocolInvalidJson => "protocol_invalid_json",
            AppError::ProtocolVersionMismatch => "protocol_version_mismatch",
            AppError::InvalidHello => "invalid_hello",
            AppError::HandshakeTimeout => "handshake_timeout",
            AppError::ConnectionClosed => "connection_closed",
            AppError::HeartbeatTimeout => "heartbeat_timeout",
            AppError::NetworkTaskFailed => "network_task_failed",
            AppError::Other(_) => "other",
        }
    }
}

/// No two kinds of error have the same code.
pub proof fn codes_tell_errors_apart(a: AppError, b: AppError)
    requires
        code_of(a) == code_of(b),
    ensures
        a == b || (a is Other && b is Other),
{
    reveal_strlit("invalid_peer_ip");
    reveal_strlit("self_connection");
    reveal_strlit("already_connected");
    reveal_strlit("connect_timeout");
    reveal_strlit("connect_failed");
    reveal_strlit("bind_failed");
    reveal_strlit("protocol_message_too_large");
    reveal_strlit("protocol_invalid_length");
    reveal_strlit("protocol_invalid_utf8");
    reveal_strlit("protocol_invalid_json");
    reveal_strlit("protocol_version_mismatch");
    reveal_strlit("invalid_hello");
    reveal_strlit("handshake_timeout");
    reveal_strlit("connection_closed");
    reveal_strlit("heartbeat_timeout");
    reveal_strlit("network_task_failed");
    reveal_strlit("other");
    assert("invalid_peer_ip"@.len() == 15 && "self_connection"@.len() == 15
        && "connect_timeout"@.len() == 15);
    assert("already_connected"@.len() == 17 && "handshake_timeout"@.len() == 17
        && "connection_closed"@.len() == 17 && "heartbeat_timeout"@.len() == 17);
    assert("protocol_invalid_utf8"@.len() == 21 && "protocol_invalid_json"@.len() == 21);
    assert("connect_failed"@.len() == 14 && "bind_failed"@.len() == 11
        && "protocol_message_too_large"@.len() == 26 && "protocol_invalid_length"@.len() == 23);
    assert("protocol_version_mismatch"@.len() == 25 && "invalid_hello"@.len() == 13
        && "network_task_failed"@.len() == 19 && "other"@.len() == 5);
    assert("invalid_peer_ip"@[0] != "self_connection"@[0]);
    assert("invalid_peer_ip"@[0] != "connect_timeout"@[0]);
    assert("self_connection"@[0] != "connect_timeout"@[0]);
    assert("already_connected"@[0] != "handshake_timeout"@[0]);
    assert("already_connected"@[0] != "connection_closed"@[0]);
    assert("already_connected"@[0] != "heartbeat_timeout"@[0]);
    assert("handshake_timeout"@[0] != "connection_closed"@[0]);
    assert("handshake_timeout"@[1] != "heartbeat_timeout"@[1]);
    assert("connection_closed"@[0] != "heartbeat_timeout"@[0]);
    assert("protocol_invalid_utf8"@[17] != "protocol_invalid_json"@[17]);
}

/// An error that carries a text of its own shows that text, under the code for such errors.
pub proof fn other_errors_show_their_text(s: String)
    ensures
        user_text_of(AppError::Other(s)) == s@,
        code_of(AppError::Other(s)) == "other"@,
{
}

/// What the user reads: a connection that cannot be made in time is told in the same words whether
/// the dialling or the hello took too long, one that broke in the same words whether the peer closed
/// it or fell silent, and every other failure in words of its own.
pub proof fn texts_for_the_user()
    ensures
        user_text_of(AppError::ConnectTimeout) == "无法连接，请确认对方程序已经启动。"@,
        user_text_of(AppError::HandshakeTimeout) == user_text_of(AppError::ConnectTimeout),
        user_text_of(AppError::ConnectionClosed) == "连接已中断。"@,
        user_text_of(AppError::HeartbeatTimeout) == user_text_of(AppError::ConnectionClosed),
        user_text_of(AppError::ConnectFailed) == "对方没有运行 ClipLink，或被防火墙阻止。"@,
        user_text_of(AppError::InvalidPeerIp) == "不是有效的 IPv4 地址"@,
        user_text_of(AppError::SelfConnection) == "不能连接本机自己的 ZeroTier IP"@,
        user_text_of(AppError::AlreadyConnected) == "已有活动连接，请先断开"@,
        user_text_of(AppError::BindFailed) == "本机监听启动失败，请确认 45888 端口未被占用。"@,
        user_text_of(AppError::ProtocolVersionMismatch) == "双方版本不兼容，请更新 ClipLink。"@,
        user_text_of(AppError::InvalidHello) == "与对方的设备信息校验不一致，请重试。"@,
        user_text_of(AppError::NetworkTaskFailed) == "连接任务异常退出，请重试。"@,
        user_text_of(AppError::ProtocolMessageTooLarge)
            == "对方发送的消息超过 1 MiB 上限，连接已关闭。"@,
        user_text_of(AppError::ProtocolInvalidLength) == "协议错误：消息长度非法，连接已关闭。"@,
        user_text_of(AppError::ProtocolInvalidUtf8)
            == "协议错误：消息不是合法 UTF-8，连接已关闭。"@,
        user_text_of(AppError::ProtocolInvalidJson) == "协议错误：消息无法解析，连接已关闭。"@,
{
}

/// A result is an error with a text of its own exactly where it is that error with that text.
pub proof fn errors_with_a_text<T>(r: Result<T, AppError>, text: Seq<char>)
    ensures
        is_other(r, text) <==> (r matches Err(e) && (e matches AppError::Other(s) && s@ == text)),
        r is Ok ==> !is_other(r, text),
{
}

} // verus!
