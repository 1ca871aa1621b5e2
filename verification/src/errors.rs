//! The error and warning records that the application's commands answer with.

use vstd::prelude::*;
use vstd::string::*;

verus! {

/// How serious a reported problem is.
#[derive(Clone, Copy, Debug, PartialEq, Eq, Structural)]
pub enum Severity {
    Info,
    Warning,
    Error,
    Fatal,
}

/// What the user interface should offer after a problem.
#[derive(Clone, Copy, Debug, PartialEq, Eq, Structural)]
pub enum Action {
    NoAction,
    RetrySameAction,
    GoToSettings,
    ReloadCurrentPage,
    BackToHome,
    CloseDialog,
}

/// A failed command: a stable code, a human-readable message and how to react.
#[derive(Debug)]
pub struct CommandError {
    pub code: String,
    pub message: String,
    pub severity: Severity,
    pub recoverable: bool,
    pub action: Action,
}

/// A non-fatal remark attached to a successful command.
#[derive(Debug)]
pub struct CommandWarning {
    pub code: String,
    pub message: String,
    pub severity: Severity,
    pub recoverable: bool,
    pub action: Action,
}

/// `e` carries exactly these code, message, severity, recoverability and action.
pub open spec fn error_is(
    e: CommandError,
    code: Seq<char>,
    message: Seq<char>,
    severity: Severity,
    recoverable: bool,
    action: Action,
) -> bool {
    &&& e.code@ == code
    &&& e.message@ == message
    &&& e.severity == severity
    &&& e.recoverable == recoverable
    &&& e.action == action
}

/// `w` carries exactly these code, message, severity, recoverability and action.
pub open spec fn warning_is(
    w: CommandWarning,
    code: Seq<char>,
    message: Seq<char>,
    severity: Severity,
    recoverable: bool,
    action: Action,
) -> bool {
    &&& w.code@ == code
    &&& w.message@ == message
    &&& w.severity == severity
    &&& w.recoverable == recoverable
    &&& w.action == action
}

/// Builds a [`CommandError`] from its parts.
pub fn command_error(
    code: &str,
    message: String,
    severity: Severity,
    recoverable: bool,
    action: Action,
) -> (e: CommandError)
    ensures
        error_is(e, code@, message@, severity, recoverable, action),
{
    CommandError { code: String::from_str(code), message, severity, recoverable, action }
}

/// Builds a [`CommandError`] whose message is a fixed text.
pub fn fixed_error(
    code: &str,
    message: &str,
    severity: Severity,
    recoverable: bool,
    action: Action,
) -> (e: CommandError)
    ensures
        error_is(e, code@, message@, severity, recoverable, action),
{
    command_error(code, String::from_str(message), severity, recoverable, action)
}

/// Builds a [`CommandError`] whose message is `prefix` followed by `detail`.
pub fn detailed_error(
    code: &str,
    prefix: &str,
    detail: &str,
    severity: Severity,
    recoverable: bool,
    action: Action,
) -> (e: CommandError)
    ensures
        error_is(e, code@, prefix@ + detail@, severity, recoverable, action),
{
    let mut message = String::from_str(prefix);
    message.append(detail);
    command_error(code, message, severity, recoverable, action)
}

/// Builds a [`CommandWarning`] from its parts.
pub fn command_warning(
    code: &str,
    message: String,
    severity: Severity,
    recoverable: bool,
    action: Action,
) -> (w: CommandWarning)
    ensures
        warning_is(w, code@, message@, severity, recoverable, action),
{
    CommandWarning { code: String::from_str(code), message, severity, recoverable, action }
}

} // verus!
