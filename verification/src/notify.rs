//! Greeting, log levels, and desktop notifications.
use vstd::prelude::*;
use crate::text::same_text;

verus! {

/// notify-rust's error, carried through as it is.
#[verifier::external_type_specification]
#[verifier::external_body]
pub struct ExNotifyError(notify_rust::error::Error);

/// A desktop notification: its title (the summary line) and its text.
pub struct DesktopNotice {
    pub summary: String,
    pub body: String,
}

impl DesktopNotice {
    /// The notification titled `title` that reads `body`.
    pub fn new(title: &str, body: &str) -> (n: DesktopNotice)
        ensures
            n.summary@ == title@,
            n.body@ == body@,
    {
        DesktopNotice { summary: title.to_owned(), body: body.to_owned() }
    }
}

/// notify-rust: builds a `Notification` (`Notification::new`, then
/// `summary` and `body` set to the notice's two texts) and calls `show`,
/// which hands it to the desktop's notification service. Whether that
/// succeeds depends on the desktop, so nothing is stated of the result;
/// the handle `show` gives back is dropped.
#[verifier::external_body]
fn show_notice(n: &DesktopNotice) -> (r: Result<(), notify_rust::error::Error>) {
    notify_rust::Notification::new()
        .summary(n.summary.as_str())
        .body(n.body.as_str())
        .show()
        .map(|_handle| ())
}

/// notify-rust: the message of an error (its `Display`); not stated.
#[verifier::external_body]
fn notify_error_text(e: &notify_rust::error::Error) -> (s: String) {
    e.to_string()
}

/// Shows `notice` on the desktop; a failure comes back as its message.
pub fn show_desktop_notice(notice: &DesktopNotice) -> Result<(), String> {
    match show_notice(notice) {
        Ok(()) => Ok(()),
        Err(e) => Err(notify_error_text(&e)),
    }
}

/// Shows a desktop notification titled `title` that reads `body`, through
/// the desktop's notification service; a failure comes back as its message.
pub fn show_notification_no_handle(title: &str, body: &str) -> Result<(), String> {
    let notice = DesktopNotice::new(title, body);
    show_desktop_notice(&notice)
}

/// The greeting for `name`.
pub open spec fn greeting(name: Seq<char>) -> Seq<char> {
    "Hello, "@ + name + "! You've been greeted from Rust!"@
}

/// Greets `name`.
pub fn greet(name: &str) -> (s: String)
    ensures
        s@ == greeting(name@),
{
    "Hello, ".to_owned().concat(name).concat("! You've been greeted from Rust!")
}

/// The level a message from the front end is logged at.
#[derive(Debug, Clone, Copy, PartialEq, Eq, Structural)]
pub enum LogLevel {
    Error,
    Warn,
    Info,
    Debug,
    Trace,
}

/// The level named by `level`: `error`, `warn` or `warning`, `debug`,
/// `trace`; anything else, and no name at all, is `info`.
pub open spec fn log_level_spec(level: Option<Seq<char>>) -> LogLevel {
    match level {
        Some(l) => if l == "error"@ {
            LogLevel::Error
        } else if l == "warn"@ || l == "warning"@ {
            LogLevel::Warn
        } else if l == "debug"@ {
            LogLevel::Debug
        } else if l == "trace"@ {
            LogLevel::Trace
        } else {
            LogLevel::Info
        },
        None => LogLevel::Info,
    }
}

/// The level at which a front-end message is logged.
pub fn log_level(level: Option<&str>) -> (l: LogLevel)
    ensures
        l == log_level_spec(
            match level {
                Some(s) => Some(s@),
                None => None,
            },
        ),
{
    match level {
        Some(l) => {
            if same_text(l, "error") {
                LogLevel::Error
            } else if same_text(l, "warn") || same_text(l, "warning") {
                LogLevel::Warn
            } else if same_text(l, "debug") {
                LogLevel::Debug
            } else if same_text(l, "trace") {
                LogLevel::Trace
            } else {
                LogLevel::Info
            }
        },
        None => LogLevel::Info,
    }
}

} // verus!
