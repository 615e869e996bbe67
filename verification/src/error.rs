//! The unified error type returned by command-level APIs, and the mapping of
//! Hyprland transport errors into it.
use vstd::prelude::*;

use crate::config::ConfigError;
use crate::hyprland::HyprlandError;
use crate::text::{push_str, string_from_chars, string_of};

verus! {

/// Specific kinds of mpv IPC errors.
#[derive(Debug, Clone, Copy, PartialEq, Eq, Structural)]
#[non_exhaustive]
pub enum MpvIpcErrorKind {
    /// No valid mpv IPC socket found.
    NoSocket,
    /// Connection failed on all socket paths.
    ConnectionFailed,
}

/// Display text of an mpv IPC error kind.
pub open spec fn mpv_kind_text(k: MpvIpcErrorKind) -> Seq<char> {
    match k {
        MpvIpcErrorKind::NoSocket => "no mpv IPC socket found"@,
        MpvIpcErrorKind::ConnectionFailed => "connection failed"@,
    }
}

impl MpvIpcErrorKind {
    /// The human-readable description of this kind.
    #[allow(clippy::inherent_to_string)]
    pub fn to_string(&self) -> (s: String)
        ensures
            s@ == mpv_kind_text(*self),
    {
        match self {
            MpvIpcErrorKind::NoSocket => string_of("no mpv IPC socket found"),
            MpvIpcErrorKind::ConnectionFailed => string_of("connection failed"),
        }
    }
}

/// Specific kinds of Hyprland IPC errors.
#[derive(Debug, Clone, Copy, PartialEq, Eq, Structural)]
#[non_exhaustive]
pub enum HyprlandIpcErrorKind {
    /// Failed to connect to the Hyprland socket.
    ConnectionFailed,
    /// I/O failure on an already-established socket.
    IoFailed,
    /// Failed to parse a response from Hyprland.
    ParseError,
    /// Socket path not found.
    SocketNotFound,
    /// Hyprland replied with a non-OK status.
    Rejected,
}

/// Display text of a Hyprland IPC error kind.
pub open spec fn hyprland_kind_text(k: HyprlandIpcErrorKind) -> Seq<char> {
    match k {
        HyprlandIpcErrorKind::ConnectionFailed => "failed to connect to Hyprland socket"@,
        HyprlandIpcErrorKind::IoFailed => "Hyprland socket I/O failed"@,
        HyprlandIpcErrorKind::ParseError => "failed to parse Hyprland response"@,
        HyprlandIpcErrorKind::SocketNotFound => "Hyprland socket not found"@,
        HyprlandIpcErrorKind::Rejected => "Hyprland rejected command"@,
    }
}

impl HyprlandIpcErrorKind {
    /// The human-readable description of this kind.
    #[allow(clippy::inherent_to_string)]
    pub fn to_string(&self) -> (s: String)
        ensures
            s@ == hyprland_kind_text(*self),
    {
        match self {
            HyprlandIpcErrorKind::ConnectionFailed => string_of(
                "failed to connect to Hyprland socket",
            ),
            HyprlandIpcErrorKind::IoFailed => string_of("Hyprland socket I/O failed"),
            HyprlandIpcErrorKind::ParseError => string_of("failed to parse Hyprland response"),
            HyprlandIpcErrorKind::SocketNotFound => string_of("Hyprland socket not found"),
            HyprlandIpcErrorKind::Rejected => string_of("Hyprland rejected command"),
        }
    }
}

/// Errors that can occur during media control operations.
#[derive(Debug)]
#[non_exhaustive]
pub enum MediaControlError {
    /// Hyprland IPC communication error.
    HyprlandIpc { kind: HyprlandIpcErrorKind, source: Option<std::io::Error> },
    /// Configuration error.
    Config(ConfigError),
    /// No matching media window found.
    WindowNotFound,
    /// mpv IPC communication error, with actionable detail.
    MpvIpc { kind: MpvIpcErrorKind, message: String },
    /// General I/O error.
    Io(std::io::Error),
    /// Regex compilation error.
    Regex(regex::Error),
    /// JSON parsing error.
    Json(serde_json::Error),
    /// TOML parsing error.
    Toml(toml::de::Error),
    /// Invalid argument supplied by the caller, rejected before any IPC.
    InvalidArgument(String),
}

/// The message given when no mpv socket answers.
pub open spec fn no_socket_message() -> Seq<char> {
    "no mpv IPC socket found (tried $MPV_IPC_SOCKET, /tmp/mpv-shim, /tmp/mpvctl-jshim)"@
}

/// The message of an `io::Error`: what its `Display` (`to_string`) shows.
pub uninterp spec fn io_error_message(e: std::io::Error) -> Seq<char>;

/// Builds `std::io::Error::new(ErrorKind::NotFound, msg)`; its message is
/// `msg` (an error built from a payload displays the payload). Its kind is
/// not stated: `ErrorKind` is not in the model.
#[verifier::external_body]
fn io_error_not_found(msg: String) -> (r: std::io::Error)
    ensures
        io_error_message(r) == msg@,
{
    std::io::Error::new(std::io::ErrorKind::NotFound, msg)
}

/// Builds `std::io::Error::other(msg)`; its message is `msg`. Its kind
/// (`Other`) is not stated: `ErrorKind` is not in the model.
#[verifier::external_body]
fn io_error_other(msg: String) -> (r: std::io::Error)
    ensures
        io_error_message(r) == msg@,
{
    std::io::Error::other(msg)
}

/// The error kind a Hyprland transport error maps to (`None` for a JSON
/// failure, which maps to the `Json` variant).
pub open spec fn hyprland_error_kind(e: HyprlandError) -> Option<HyprlandIpcErrorKind> {
    match e {
        HyprlandError::MissingEnvVar(_) => Some(HyprlandIpcErrorKind::SocketNotFound),
        HyprlandError::InvalidEnvVar(_) => Some(HyprlandIpcErrorKind::SocketNotFound),
        HyprlandError::ConnectionFailed(_) => Some(HyprlandIpcErrorKind::ConnectionFailed),
        HyprlandError::WriteFailed(_) => Some(HyprlandIpcErrorKind::IoFailed),
        HyprlandError::ReadFailed(_) => Some(HyprlandIpcErrorKind::IoFailed),
        HyprlandError::JsonParseFailed(_) => None,
        HyprlandError::CommandFailed(_) => Some(HyprlandIpcErrorKind::Rejected),
        HyprlandError::NoLiveInstance => Some(HyprlandIpcErrorKind::SocketNotFound),
    }
}

/// The message of the `io::Error` that describes a transport error which
/// carries none of its own.
pub open spec fn source_message(err: HyprlandError) -> Seq<char> {
    match err {
        HyprlandError::MissingEnvVar(name) => "missing environment variable: "@ + name@,
        HyprlandError::InvalidEnvVar(name) => "invalid environment variable: "@ + name@,
        HyprlandError::CommandFailed(msg) => msg@,
        _ => "no reachable Hyprland instance found in $XDG_RUNTIME_DIR/hypr/"@,
    }
}

impl MediaControlError {
    /// Map a Hyprland transport error into the unified error: connect
    /// failures, mid-stream I/O failures, rejected commands and missing or
    /// invalid environment all become `HyprlandIpc` with the matching kind
    /// and the underlying `io::Error` (or one describing the variable or the
    /// rejection) as source; JSON failures become `Json`, keeping the parser
    /// error.
    pub fn from_hyprland(err: HyprlandError) -> (r: Self)
        ensures
            match hyprland_error_kind(err) {
                Some(k) => r matches MediaControlError::HyprlandIpc { kind, source }
                    && kind == k && source is Some,
                None => r is Json,
            },
            (err is ConnectionFailed || err is WriteFailed || err is ReadFailed) ==> (
            r matches MediaControlError::HyprlandIpc { source, .. } && source == match err {
                HyprlandError::ConnectionFailed(e) => Some(e),
                HyprlandError::WriteFailed(e) => Some(e),
                HyprlandError::ReadFailed(e) => Some(e),
                _ => None,
            }),
            err is JsonParseFailed ==> r == MediaControlError::Json(err->JsonParseFailed_0),
            (err is MissingEnvVar || err is InvalidEnvVar || err is CommandFailed
                || err is NoLiveInstance) ==> (r matches MediaControlError::HyprlandIpc {
                source: Some(e),
                ..
            } && io_error_message(e) == source_message(err)),
    {
        match err {
            HyprlandError::MissingEnvVar(name) => {
                let mut m: Vec<char> = Vec::new();
                push_str(&mut m, "missing environment variable: ");
                push_str(&mut m, name);
                MediaControlError::HyprlandIpc {
                    kind: HyprlandIpcErrorKind::SocketNotFound,
                    source: Some(io_error_not_found(string_from_chars(&m))),
                }
            },
            HyprlandError::InvalidEnvVar(name) => {
                let mut m: Vec<char> = Vec::new();
                push_str(&mut m, "invalid environment variable: ");
                push_str(&mut m, name);
                MediaControlError::HyprlandIpc {
                    kind: HyprlandIpcErrorKind::SocketNotFound,
                    source: Some(io_error_other(string_from_chars(&m))),
                }
            },
            HyprlandError::ConnectionFailed(e) => MediaControlError::HyprlandIpc {
                kind: HyprlandIpcErrorKind::ConnectionFailed,
                source: Some(e),
            },
            HyprlandError::WriteFailed(e) => MediaControlError::HyprlandIpc {
                kind: HyprlandIpcErrorKind::IoFailed,
                source: Some(e),
            },
            HyprlandError::ReadFailed(e) => MediaControlError::HyprlandIpc {
                kind: HyprlandIpcErrorKind::IoFailed,
                source: Some(e),
            },
            HyprlandError::JsonParseFailed(e) => MediaControlError::Json(e),
            HyprlandError::CommandFailed(msg) => MediaControlError::HyprlandIpc {
                kind: HyprlandIpcErrorKind::Rejected,
                source: Some(io_error_other(msg)),
            },
            HyprlandError::NoLiveInstance => MediaControlError::HyprlandIpc {
                kind: HyprlandIpcErrorKind::SocketNotFound,
                source: Some(
                    io_error_other(
                        string_of("no reachable Hyprland instance found in $XDG_RUNTIME_DIR/hypr/"),
                    ),
                ),
            },
        }
    }

    /// Create an mpv IPC no-socket error.
    pub fn mpv_no_socket() -> (r: Self)
        ensures
            r matches MediaControlError::MpvIpc { kind, message } && kind
                == MpvIpcErrorKind::NoSocket && message@ == no_socket_message(),
    {
        MediaControlError::MpvIpc {
            kind: MpvIpcErrorKind::NoSocket,
            message: string_of(
                "no mpv IPC socket found (tried $MPV_IPC_SOCKET, /tmp/mpv-shim, /tmp/mpvctl-jshim)",
            ),
        }
    }

    /// Create an mpv IPC connection-failed error.
    pub fn mpv_connection_failed(msg: String) -> (r: Self)
        ensures
            r matches MediaControlError::MpvIpc { kind, message } && kind
                == MpvIpcErrorKind::ConnectionFailed && message@ == msg@,
    {
        MediaControlError::MpvIpc { kind: MpvIpcErrorKind::ConnectionFailed, message: msg }
    }

    /// Create an invalid-argument error for input that failed pre-IPC
    /// validation.
    pub fn invalid_argument(msg: String) -> (r: Self)
        ensures
            r matches MediaControlError::InvalidArgument(m) && m@ == msg@,
    {
        MediaControlError::InvalidArgument(msg)
    }
}

} // verus!
