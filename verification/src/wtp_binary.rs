//! The `wtp` binary: where it is taken from, and what its version output says.
use crate::errors::{io_error_text, Result, WtpMcpError};
use crate::text::{chars_of, copy_range, has_prefix, starts_with, string_of, trim, trimmed};
use crate::wtp_runner::CommandOutput;
use std::path::PathBuf;
use vstd::prelude::*;

verus! {

/// Resolved `wtp` binary path and optional version metadata.
#[derive(Debug, Clone)]
pub struct WtpBinary {
    /// Filesystem path to the executable.
    pub path: PathBuf,
    /// Cached version string if known.
    pub version: Option<String>,
}

/// A filesystem location that was examined for the `wtp` binary.
#[derive(Debug, Clone)]
pub struct BinaryProbe {
    /// The location.
    pub path: PathBuf,
    /// There is an executable file at the location.
    pub executable: bool,
}

/// Message of the error returned when no binary is found.
pub open spec fn binary_not_found_message() -> Seq<char> {
    "wtp binary not found in config path, cache directory, or PATH"@
}

/// The location chosen: the configured path when it is executable, else the
/// cache location when it is executable, else the match found on `PATH`.
pub open spec fn chosen_path(
    config: Option<BinaryProbe>,
    cache: Option<BinaryProbe>,
    search: Option<PathBuf>,
) -> Option<PathBuf> {
    if config matches Some(p) && p.executable {
        Some(config->0.path)
    } else if cache matches Some(p) && p.executable {
        Some(cache->0.path)
    } else {
        search
    }
}

/// The version that `wtp --version` prints: the trimmed output, without a
/// leading `wtp ` and the whitespace after it.
pub open spec fn version_text(output: Seq<char>) -> Seq<char> {
    let t = trim(output);
    if starts_with(t, "wtp "@) {
        trim(t.subrange(4, t.len() as int))
    } else {
        t
    }
}

/// Parse the output of `wtp --version` (`wtp 1.2.3` or just `1.2.3`).
pub fn parse_version(output: &str) -> (r: Option<String>)
    ensures
        r matches Some(v) && v@ == version_text(output@),
{
    let chars = chars_of(output);
    let t = trimmed(&chars);
    let prefix = chars_of("wtp ");
    proof {
        reveal_strlit("wtp ");
    }
    if has_prefix(&t, &prefix) {
        let rest = copy_range(&t, 4, t.len());
        let v = trimmed(&rest);
        Some(string_of(&v))
    } else {
        Some(string_of(&t))
    }
}

impl WtpBinary {
    /// Choose the binary from what was found at the configured path, in the
    /// cache directory, and on `PATH`, in that order of preference.
    pub fn select(config: Option<BinaryProbe>, cache: Option<BinaryProbe>, search: Option<PathBuf>) -> (r: Result<WtpBinary>)
        ensures
            match chosen_path(config, cache, search) {
                Some(p) => r matches Ok(b) && b.path == p && b.version is None,
                None => r matches Err(WtpMcpError::BinaryNotFound { message }) && message@
                    == binary_not_found_message(),
            },
    {
        if let Some(p) = config {
            if p.executable {
                return Ok(WtpBinary { path: p.path, version: None });
            }
        }
        if let Some(p) = cache {
            if p.executable {
                return Ok(WtpBinary { path: p.path, version: None });
            }
        }
        match search {
            Some(path) => Ok(WtpBinary { path, version: None }),
            None => Err(
                WtpMcpError::BinaryNotFound {
                    message: String::from_str(
                        "wtp binary not found in config path, cache directory, or PATH",
                    ),
                },
            ),
        }
    }

    /// The error for a `wtp --version` that could not be started: a command
    /// failure with exit code `-1`, no standard error, and a message naming
    /// the cause.
    pub fn version_launch_failure(e: &std::io::Error) -> (r: WtpMcpError)
        ensures
            r matches WtpMcpError::CommandFailed { exit_code, message, stderr } && exit_code == -1
                && stderr@.len() == 0 && exists|t: Seq<char>|
                message@ == "failed to execute wtp --version: "@ + t,
    {
        let t = io_error_text(e);
        let mut message = String::from_str("failed to execute wtp --version: ");
        message.append(t.as_str());
        assert(message@ == "failed to execute wtp --version: "@ + t@);
        WtpMcpError::CommandFailed { exit_code: -1, message, stderr: String::new() }
    }

    /// The version reported by a run of `wtp --version`: a command failure
    /// when it exited non-zero, otherwise the parsed version.
    pub fn version_from_output(output: CommandOutput) -> (r: Result<String>)
        ensures
            output.exit_code != 0 ==> (r matches Err(
                WtpMcpError::CommandFailed { exit_code, message, stderr },
            ) && exit_code == output.exit_code && message@ == "wtp --version failed"@ && stderr
                == output.stderr),
            output.exit_code == 0 ==> (r matches Ok(v) && v@ == version_text(output.stdout@)),
    {
        if output.exit_code != 0 {
            return Err(
                WtpMcpError::CommandFailed {
                    exit_code: output.exit_code,
                    message: String::from_str("wtp --version failed"),
                    stderr: output.stderr,
                },
            );
        }
        match parse_version(output.stdout.as_str()) {
            Some(v) => Ok(v),
            None => Err(
                WtpMcpError::ParseError {
                    message: String::from_str("failed to parse version output"),
                    raw_output: output.stdout,
                },
            ),
        }
    }
}

} // verus!
