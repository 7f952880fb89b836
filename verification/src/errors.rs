//! Error type of the library: its messages and its classification for MCP
//! responses.
use crate::text::string_of;
use std::path::PathBuf;
use vstd::prelude::*;

verus! {

/// Error type for all wtp-mcp operations.
#[derive(Debug)]
pub enum WtpMcpError {
    /// The `wtp` binary could not be located.
    BinaryNotFound {
        /// Details about the lookup failure.
        message: String,
    },
    /// A `wtp` command exited with a non-zero status.
    CommandFailed {
        /// Exit code returned by the command.
        exit_code: i32,
        /// Human-readable summary of the failure.
        message: String,
        /// Standard error captured from the command.
        stderr: String,
    },
    /// Failed to parse `wtp` output into structured data.
    ParseError {
        /// Summary of the parse failure.
        message: String,
        /// Raw output that failed to parse.
        raw_output: String,
    },
    /// Operation blocked by security policy.
    PolicyViolation {
        /// Policy violation details.
        message: String,
    },
    /// Failed to download a required artifact (such as `wtp`).
    DownloadFailed {
        /// Summary of the download failure.
        message: String,
    },
    /// Configuration is invalid or inconsistent.
    ConfigError {
        /// Summary of the configuration error.
        message: String,
    },
    /// Failed to read a config file from disk.
    ConfigRead {
        /// Path to the config file.
        path: PathBuf,
        /// Underlying IO error.
        source: std::io::Error,
    },
    /// Failed to parse a config file.
    ConfigParse {
        /// Path to the config file.
        path: PathBuf,
        /// Underlying TOML parse error.
        source: toml::de::Error,
    },
    /// Unhandled IO error from filesystem or process operations.
    Io(std::io::Error),
}

/// Convenience result alias for wtp-mcp operations.
pub type Result<T> = std::result::Result<T, WtpMcpError>;

/// The JSON-RPC error class that an error is reported under.
#[derive(Debug, Clone, Copy, PartialEq, Eq, Structural)]
pub enum ErrorClass {
    /// JSON-RPC internal error.
    InternalError,
    /// JSON-RPC parse error.
    ParseError,
    /// JSON-RPC invalid request.
    InvalidRequest,
    /// JSON-RPC invalid params.
    InvalidParams,
}

/// Structured details attached to an error report.
#[derive(Debug, Clone)]
pub enum ErrorDetails {
    /// Exit code and standard error of a failed command.
    Command {
        /// Exit code of the command.
        exit_code: i32,
        /// Standard error of the command.
        stderr: String,
    },
    /// Output that could not be parsed.
    RawOutput {
        /// The unparsed output.
        raw_output: String,
    },
}

/// The class each error variant is reported under.
pub open spec fn class_of(e: WtpMcpError) -> ErrorClass {
    match e {
        WtpMcpError::ParseError { .. } => ErrorClass::ParseError,
        WtpMcpError::PolicyViolation { .. } => ErrorClass::InvalidRequest,
        WtpMcpError::ConfigError { .. } => ErrorClass::InvalidParams,
        WtpMcpError::ConfigParse { .. } => ErrorClass::InvalidParams,
        _ => ErrorClass::InternalError,
    }
}

/// The decimal digit `d` (`0` to `9`).
pub open spec fn digit_char(d: nat) -> char {
    if d == 0 {
        '0'
    } else if d == 1 {
        '1'
    } else if d == 2 {
        '2'
    } else if d == 3 {
        '3'
    } else if d == 4 {
        '4'
    } else if d == 5 {
        '5'
    } else if d == 6 {
        '6'
    } else if d == 7 {
        '7'
    } else if d == 8 {
        '8'
    } else {
        '9'
    }
}

/// The decimal digits of `n`, most significant first, without leading zeros.
pub open spec fn digits(n: nat) -> Seq<char>
    decreases n,
{
    if n < 10 {
        seq![digit_char(n)]
    } else {
        digits(n / 10) + seq![digit_char(n % 10)]
    }
}

/// `n` in decimal notation, with a leading `-` when it is negative
/// (`i32`'s `Display`).
pub open spec fn decimal(n: int) -> Seq<char> {
    if n < 0 {
        seq!['-'] + digits((-n) as nat)
    } else {
        digits(n as nat)
    }
}

fn digit(d: u64) -> (c: char)
    requires
        d < 10,
    ensures
        c == digit_char(d as nat),
{
    if d == 0 {
        '0'
    } else if d == 1 {
        '1'
    } else if d == 2 {
        '2'
    } else if d == 3 {
        '3'
    } else if d == 4 {
        '4'
    } else if d == 5 {
        '5'
    } else if d == 6 {
        '6'
    } else if d == 7 {
        '7'
    } else if d == 8 {
        '8'
    } else {
        '9'
    }
}

fn push_digits(m: u64, out: &mut Vec<char>)
    ensures
        final(out)@ == old(out)@ + digits(m as nat),
    decreases m,
{
    if m >= 10 {
        push_digits(m / 10, out);
    }
    out.push(digit(m % 10));
    assert(final(out)@ =~= old(out)@ + digits(m as nat)) by {
        if m >= 10 {
            assert(digits(m as nat) == digits((m / 10) as nat) + seq![digit_char((m % 10) as nat)]);
        }
    }
}

/// `n` in decimal notation.
pub fn decimal_text(n: i32) -> (s: String)
    ensures
        s@ == decimal(n as int),
{
    let mut out: Vec<char> = Vec::new();
    if n < 0 {
        out.push('-');
        let m: u64 = (0i64 - n as i64) as u64;
        push_digits(m, &mut out);
    } else {
        push_digits(n as u64, &mut out);
    }
    string_of(&out)
}

/// Renders a path with `Path::display`.  Nothing is stated of the text.
#[verifier::external_body]
fn path_text(p: &PathBuf) -> String {
    format!("{}", p.display())
}

/// Renders an I/O error with its `Display` impl.  Nothing is stated of the
/// text: for an operating-system error it comes from the platform.
#[verifier::external_body]
pub(crate) fn io_error_text(e: &std::io::Error) -> String {
    format!("{}", e)
}

/// Renders a TOML parse error with the `Display` impl of `toml::de::Error`.
/// Nothing is stated of the text.
#[verifier::external_body]
fn toml_error_text(e: &toml::de::Error) -> String {
    format!("{}", e)
}

/// The user-facing message of `e`.  The messages of a configuration read or
/// parse failure and of an I/O error include `path`, the rendered path of
/// the configuration file, and `cause`, the rendered underlying error; the
/// other messages use only the error's own fields.
pub open spec fn message_of(e: WtpMcpError, path: Seq<char>, cause: Seq<char>) -> Seq<char> {
    match e {
        WtpMcpError::BinaryNotFound { message } => "wtp binary not found: "@ + message@,
        WtpMcpError::CommandFailed { exit_code, message, .. } => "wtp command failed (exit "@
            + decimal(exit_code as int) + "): "@ + message@,
        WtpMcpError::ParseError { message, .. } => "failed to parse wtp output: "@ + message@,
        WtpMcpError::PolicyViolation { message } => "policy violation: "@ + message@,
        WtpMcpError::DownloadFailed { message } => "download failed: "@ + message@,
        WtpMcpError::ConfigError { message } => "configuration error: "@ + message@,
        WtpMcpError::ConfigRead { .. } => "failed to read config file at "@ + path + ": "@ + cause,
        WtpMcpError::ConfigParse { .. } => "failed to parse config file at "@ + path + ": "@
            + cause,
        WtpMcpError::Io(_) => "IO error: "@ + cause,
    }
}

impl WtpMcpError {
    /// The message of the error, given the rendered path of the configuration
    /// file and the rendered underlying error (used by the configuration and
    /// I/O variants, ignored by the others).
    pub fn render_message(&self, path: &str, cause: &str) -> (m: String)
        ensures
            m@ == message_of(*self, path@, cause@),
    {
        match self {
            WtpMcpError::BinaryNotFound { message } => {
                let mut m = String::from_str("wtp binary not found: ");
                m.append(message.as_str());
                m
            },
            WtpMcpError::CommandFailed { exit_code, message, .. } => {
                let mut m = String::from_str("wtp command failed (exit ");
                let code = decimal_text(*exit_code);
                m.append(code.as_str());
                m.append("): ");
                m.append(message.as_str());
                m
            },
            WtpMcpError::ParseError { message, .. } => {
                let mut m = String::from_str("failed to parse wtp output: ");
                m.append(message.as_str());
                m
            },
            WtpMcpError::PolicyViolation { message } => {
                let mut m = String::from_str("policy violation: ");
                m.append(message.as_str());
                m
            },
            WtpMcpError::DownloadFailed { message } => {
                let mut m = String::from_str("download failed: ");
                m.append(message.as_str());
                m
            },
            WtpMcpError::ConfigError { message } => {
                let mut m = String::from_str("configuration error: ");
                m.append(message.as_str());
                m
            },
            WtpMcpError::ConfigRead { .. } => {
                let mut m = String::from_str("failed to read config file at ");
                m.append(path);
                m.append(": ");
                m.append(cause);
                m
            },
            WtpMcpError::ConfigParse { .. } => {
                let mut m = String::from_str("failed to parse config file at ");
                m.append(path);
                m.append(": ");
                m.append(cause);
                m
            },
            WtpMcpError::Io(_) => {
                let mut m = String::from_str("IO error: ");
                m.append(cause);
                m
            },
        }
    }

    /// The user-facing message of the error: `render_message` with the
    /// configuration path rendered by `Path::display` and the underlying
    /// error rendered by its `Display` impl.  For the variants that carry
    /// neither, the message is fixed by the error's fields alone.
    pub fn message(&self) -> (m: String)
        ensures
            exists|path: Seq<char>, cause: Seq<char>| m@ == message_of(*self, path, cause),
    {
        let (path, cause) = match self {
            WtpMcpError::ConfigRead { path, source } => (path_text(path), io_error_text(source)),
            WtpMcpError::ConfigParse { path, source } => (path_text(path), toml_error_text(source)),
            WtpMcpError::Io(e) => (String::new(), io_error_text(e)),
            _ => (String::new(), String::new()),
        };
        self.render_message(path.as_str(), cause.as_str())
    }

    /// The JSON-RPC error class of this error.
    pub fn error_class(&self) -> (c: ErrorClass)
        ensures
            c == class_of(*self),
    {
        match self {
            WtpMcpError::BinaryNotFound { .. } => ErrorClass::InternalError,
            WtpMcpError::CommandFailed { .. } => ErrorClass::InternalError,
            WtpMcpError::ParseError { .. } => ErrorClass::ParseError,
            WtpMcpError::PolicyViolation { .. } => ErrorClass::InvalidRequest,
            WtpMcpError::DownloadFailed { .. } => ErrorClass::InternalError,
            WtpMcpError::ConfigError { .. } => ErrorClass::InvalidParams,
            WtpMcpError::ConfigRead { .. } => ErrorClass::InternalError,
            WtpMcpError::ConfigParse { .. } => ErrorClass::InvalidParams,
            WtpMcpError::Io(_) => ErrorClass::InternalError,
        }
    }

    /// Structured details for the report: the exit code and standard error of
    /// a failed command, the raw output of a parse failure, none otherwise.
    pub fn error_details(&self) -> (d: Option<ErrorDetails>)
        ensures
            match *self {
                WtpMcpError::CommandFailed { exit_code, stderr, .. } => d matches Some(
                    ErrorDetails::Command { exit_code: c, stderr: s },
                ) && c == exit_code && s@ == stderr@,
                WtpMcpError::ParseError { raw_output, .. } => d matches Some(
                    ErrorDetails::RawOutput { raw_output: r },
                ) && r@ == raw_output@,
                _ => d is None,
            },
    {
        match self {
            WtpMcpError::CommandFailed { exit_code, stderr, .. } => Some(
                ErrorDetails::Command { exit_code: *exit_code, stderr: stderr.clone() },
            ),
            WtpMcpError::ParseError { raw_output, .. } => Some(
                ErrorDetails::RawOutput { raw_output: raw_output.clone() },
            ),
            _ => None,
        }
    }
}

} // verus!
