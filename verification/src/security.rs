//! Policy enforcement for hooks and branch deletion.
use crate::config::SecurityPolicy;
use crate::errors::{Result, WtpMcpError};
use vstd::prelude::*;

verus! {

/// Security policy guard used by tools to validate operations.
#[derive(Debug, Clone, Copy)]
pub struct PolicyGuard {
    /// Whether `.wtp.yml` hooks are allowed to run.
    pub allow_hooks: bool,
    /// Whether branch deletion is allowed.
    pub allow_branch_delete: bool,
}

/// What was found at `<repo root>/.wtp.yml`.
#[derive(Debug)]
pub enum WtpYmlState {
    /// There is no such file.
    Missing,
    /// The file exists but could not be read.
    Unreadable(std::io::Error),
    /// The file was read but is not valid `.wtp.yml` YAML.
    Invalid {
        /// The YAML parser's description of the problem.
        error: String,
        /// The file contents.
        contents: String,
    },
    /// The file was parsed; `has_hooks` tells whether it sets a `hooks` value.
    Parsed {
        /// The file configures hooks.
        has_hooks: bool,
    },
}

/// Message of the error returned when hooks are configured but not allowed.
pub open spec fn hooks_blocked_message() -> Seq<char> {
    "Hooks are configured in .wtp.yml but hooks are not allowed by security policy"@
}

/// Message of the error returned when branch deletion is not allowed.
pub open spec fn branch_delete_blocked_message() -> Seq<char> {
    "Branch deletion is not allowed by security policy"@
}

/// Prefix of the message of the error returned for an invalid `.wtp.yml`.
pub open spec fn invalid_wtp_yml_prefix() -> Seq<char> {
    "Failed to parse .wtp.yml: "@
}

/// The error for a forbidden branch deletion.
pub fn branch_delete_blocked() -> (e: WtpMcpError)
    ensures
        e matches WtpMcpError::PolicyViolation { message } && message@
            == branch_delete_blocked_message(),
{
    WtpMcpError::PolicyViolation {
        message: String::from_str("Branch deletion is not allowed by security policy"),
    }
}

impl PolicyGuard {
    /// Construct a guard from the loaded security policy.
    pub fn from_config(security: &SecurityPolicy) -> (g: Self)
        ensures
            g.allow_hooks == security.allow_hooks,
            g.allow_branch_delete == security.allow_branch_delete,
    {
        PolicyGuard {
            allow_hooks: security.allow_hooks,
            allow_branch_delete: security.allow_branch_delete,
        }
    }

    /// Validate that hooks are allowed (or not configured) for the repo,
    /// given what was found at `.wtp.yml`.
    ///
    /// Allowed hooks pass whatever the file holds.  Otherwise a missing file
    /// or one without hooks passes, an unreadable file is an I/O error, an
    /// invalid one a parse error carrying its contents, and one with hooks a
    /// policy violation.
    pub fn check_hooks(&self, wtp_yml: WtpYmlState) -> (r: Result<()>)
        ensures
            self.allow_hooks ==> r is Ok,
            !self.allow_hooks ==> match wtp_yml {
                WtpYmlState::Missing => r is Ok,
                WtpYmlState::Unreadable(e) => r matches Err(WtpMcpError::Io(e2)) && e2 == e,
                WtpYmlState::Invalid { error, contents } => r matches Err(
                    WtpMcpError::ParseError { message, raw_output },
                ) && message@ == invalid_wtp_yml_prefix() + error@ && raw_output@ == contents@,
                WtpYmlState::Parsed { has_hooks } => if has_hooks {
                    r matches Err(WtpMcpError::PolicyViolation { message }) && message@
                        == hooks_blocked_message()
                } else {
                    r is Ok
                },
            },
    {
        if self.allow_hooks {
            return Ok(());
        }
        match wtp_yml {
            WtpYmlState::Missing => Ok(()),
            WtpYmlState::Unreadable(e) => Err(WtpMcpError::Io(e)),
            WtpYmlState::Invalid { error, contents } => {
                let mut message = String::from_str("Failed to parse .wtp.yml: ");
                message.append(error.as_str());
                Err(WtpMcpError::ParseError { message, raw_output: contents })
            },
            WtpYmlState::Parsed { has_hooks } => {
                if has_hooks {
                    Err(
                        WtpMcpError::PolicyViolation {
                            message: String::from_str(
                                "Hooks are configured in .wtp.yml but hooks are not allowed by security policy",
                            ),
                        },
                    )
                } else {
                    Ok(())
                }
            },
        }
    }

    /// Validate that branch deletion is allowed when requested: the request
    /// fails exactly when deletion is requested and the policy forbids it.
    pub fn check_branch_delete(&self, with_branch: bool) -> (r: Result<()>)
        ensures
            r is Ok <==> (!with_branch || self.allow_branch_delete),
            r matches Err(e) ==> e matches WtpMcpError::PolicyViolation { message } && message@
                == branch_delete_blocked_message(),
    {
        if !with_branch {
            return Ok(());
        }
        if self.allow_branch_delete {
            return Ok(());
        }
        Err(branch_delete_blocked())
    }
}

} // verus!
