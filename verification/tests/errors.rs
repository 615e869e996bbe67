use media_control_lib::error::{HyprlandIpcErrorKind, MediaControlError, MpvIpcErrorKind};
use media_control_lib::hyprland::HyprlandError;

#[test]
fn mpv_ipc_error_kind_display() {
    assert_eq!(MpvIpcErrorKind::NoSocket.to_string(), "no mpv IPC socket found");
    assert_eq!(MpvIpcErrorKind::ConnectionFailed.to_string(), "connection failed");
}

#[test]
fn hyprland_error_kind_display() {
    assert_eq!(
        HyprlandIpcErrorKind::ConnectionFailed.to_string(),
        "failed to connect to Hyprland socket"
    );
    assert_eq!(HyprlandIpcErrorKind::IoFailed.to_string(), "Hyprland socket I/O failed");
    assert_eq!(
        HyprlandIpcErrorKind::ParseError.to_string(),
        "failed to parse Hyprland response"
    );
    assert_eq!(HyprlandIpcErrorKind::SocketNotFound.to_string(), "Hyprland socket not found");
    assert_eq!(HyprlandIpcErrorKind::Rejected.to_string(), "Hyprland rejected command");
}

#[test]
fn hyprland_write_failed_bridges_to_io_failed_kind() {
    let io_err = std::io::Error::new(std::io::ErrorKind::BrokenPipe, "write boom");
    let err = MediaControlError::from_hyprland(HyprlandError::WriteFailed(io_err));
    match err {
        MediaControlError::HyprlandIpc { kind, source } => {
            assert_eq!(kind, HyprlandIpcErrorKind::IoFailed);
            let src = source.expect("io::Error source must be preserved");
            assert_eq!(src.kind(), std::io::ErrorKind::BrokenPipe);
            assert!(src.to_string().contains("write boom"));
        }
        other => panic!("expected HyprlandIpc, got {other:?}"),
    }
}

#[test]
fn hyprland_read_failed_bridges_to_io_failed_kind() {
    let io_err = std::io::Error::new(std::io::ErrorKind::UnexpectedEof, "read boom");
    let err = MediaControlError::from_hyprland(HyprlandError::ReadFailed(io_err));
    match err {
        MediaControlError::HyprlandIpc { kind, source } => {
            assert_eq!(kind, HyprlandIpcErrorKind::IoFailed);
            let src = source.expect("io::Error source must be preserved");
            assert_eq!(src.kind(), std::io::ErrorKind::UnexpectedEof);
            assert!(src.to_string().contains("read boom"));
        }
        other => panic!("expected HyprlandIpc, got {other:?}"),
    }
}

#[test]
fn hyprland_connection_failed_still_bridges_to_connection_failed_kind() {
    let io_err = std::io::Error::new(std::io::ErrorKind::ConnectionRefused, "no connect");
    let err = MediaControlError::from_hyprland(HyprlandError::ConnectionFailed(io_err));
    match err {
        MediaControlError::HyprlandIpc { kind, source } => {
            assert_eq!(kind, HyprlandIpcErrorKind::ConnectionFailed);
            let src = source.expect("io::Error source must be preserved");
            assert_eq!(src.kind(), std::io::ErrorKind::ConnectionRefused);
        }
        other => panic!("expected HyprlandIpc, got {other:?}"),
    }
}

#[test]
fn rejected_command_bridges_to_rejected_kind() {
    let err = MediaControlError::from_hyprland(HyprlandError::CommandFailed("x".to_string()));
    assert!(matches!(
        err,
        MediaControlError::HyprlandIpc { kind: HyprlandIpcErrorKind::Rejected, source: Some(_) }
    ));
}

#[test]
fn missing_env_bridges_to_socket_not_found() {
    let err = MediaControlError::from_hyprland(HyprlandError::MissingEnvVar("XDG_RUNTIME_DIR"));
    match err {
        MediaControlError::HyprlandIpc { kind, source } => {
            assert_eq!(kind, HyprlandIpcErrorKind::SocketNotFound);
            assert!(source.unwrap().to_string().contains("XDG_RUNTIME_DIR"));
        }
        other => panic!("expected HyprlandIpc, got {other:?}"),
    }
}

#[test]
fn mpv_error_constructors() {
    match MediaControlError::mpv_no_socket() {
        MediaControlError::MpvIpc { kind, message } => {
            assert_eq!(kind, MpvIpcErrorKind::NoSocket);
            assert!(message.contains("/tmp/mpv-shim"));
        }
        other => panic!("unexpected {other:?}"),
    }
    match MediaControlError::mpv_connection_failed("boom".to_string()) {
        MediaControlError::MpvIpc { kind, message } => {
            assert_eq!(kind, MpvIpcErrorKind::ConnectionFailed);
            assert_eq!(message, "boom");
        }
        other => panic!("unexpected {other:?}"),
    }
    assert!(matches!(
        MediaControlError::invalid_argument("bad".to_string()),
        MediaControlError::InvalidArgument(m) if m == "bad"
    ));
}

#[test]
fn json_failure_bridges_to_json_variant() {
    let e = serde_json::from_str::<serde_json::Value>("{").unwrap_err();
    let err = MediaControlError::from_hyprland(HyprlandError::JsonParseFailed(e));
    assert!(matches!(err, MediaControlError::Json(_)));
}

#[test]
fn no_live_instance_bridges_to_socket_not_found() {
    let err = MediaControlError::from_hyprland(HyprlandError::NoLiveInstance);
    assert!(matches!(
        err,
        MediaControlError::HyprlandIpc { kind: HyprlandIpcErrorKind::SocketNotFound, source: Some(_) }
    ));
}

#[test]
fn error_is_send_sync() {
    fn assert_send_sync<T: Send + Sync>() {}
    assert_send_sync::<MediaControlError>();
}

#[test]
fn env_errors_name_the_variable() {
    match MediaControlError::from_hyprland(HyprlandError::MissingEnvVar("HYPRLAND_INSTANCE_SIGNATURE")) {
        MediaControlError::HyprlandIpc { source: Some(e), .. } => {
            assert_eq!(e.to_string(), "missing environment variable: HYPRLAND_INSTANCE_SIGNATURE");
            assert_eq!(e.kind(), std::io::ErrorKind::NotFound);
        }
        other => panic!("unexpected {other:?}"),
    }
    match MediaControlError::from_hyprland(HyprlandError::InvalidEnvVar("XDG_RUNTIME_DIR")) {
        MediaControlError::HyprlandIpc { source: Some(e), .. } => {
            assert_eq!(e.to_string(), "invalid environment variable: XDG_RUNTIME_DIR");
            assert_eq!(e.kind(), std::io::ErrorKind::Other);
        }
        other => panic!("unexpected {other:?}"),
    }
}
