use cliplink::error::AppError;

#[test]
fn error_serializes_to_stable_text() {
    let json = serde_json::to_string(&AppError::ConnectTimeout.user_text()).unwrap();
    assert_eq!(json, "\"无法连接，请确认对方程序已经启动。\"");
    assert_eq!(AppError::HeartbeatTimeout.code(), "heartbeat_timeout");
    assert_eq!(
        AppError::AlreadyConnected.user_text(),
        "已有活动连接，请先断开"
    );
    let other = AppError::new("保存配置文件失败: x");
    assert_eq!(other.code(), "other");
    assert_eq!(other.user_text(), "保存配置文件失败: x");
}

#[test]
fn every_code() {
    let all = [
        (AppError::InvalidPeerIp, "invalid_peer_ip"),
        (AppError::SelfConnection, "self_connection"),
        (AppError::AlreadyConnected, "already_connected"),
        (AppError::ConnectTimeout, "connect_timeout"),
        (AppError::ConnectFailed, "connect_failed"),
        (AppError::BindFailed, "bind_failed"),
        (AppError::ProtocolMessageTooLarge, "protocol_message_too_large"),
        (AppError::ProtocolInvalidLength, "protocol_invalid_length"),
        (AppError::ProtocolInvalidUtf8, "protocol_invalid_utf8"),
        (AppError::ProtocolInvalidJson, "protocol_invalid_json"),
        (AppError::ProtocolVersionMismatch, "protocol_version_mismatch"),
        (AppError::InvalidHello, "invalid_hello"),
        (AppError::HandshakeTimeout, "handshake_timeout"),
        (AppError::ConnectionClosed, "connection_closed"),
        (AppError::HeartbeatTimeout, "heartbeat_timeout"),
        (AppError::NetworkTaskFailed, "network_task_failed"),
        (AppError::from("x".to_string()), "other"),
    ];
    for (e, code) in all {
        assert_eq!(e.code(), code);
        assert!(!e.user_text().is_empty());
    }
    assert_eq!(AppError::InvalidPeerIp.user_text(), "不是有效的 IPv4 地址");
}
