//! Status messages, toast notifications and the error modal.

use vstd::prelude::*;
use std::time::{Duration, Instant};

verus! {

/// Status message shown in the footer.
#[derive(Debug, Clone)]
pub struct StatusMessage {
    pub text: String,
    pub is_error: bool,
}

/// Severity of a toast notification.
#[derive(Debug, Clone, Copy, PartialEq, Eq, Structural)]
pub enum NotificationLevel {
    Info,
    Warning,
    Error,
}

#[verifier::external_type_specification]
#[verifier::external_body]
pub struct ExInstant(Instant);

/// The current time.
///
/// Calls `Instant::now`; nothing is stated of the instant it returns.
#[verifier::external_body]
fn instant_now() -> Instant {
    Instant::now()
}

/// Whole milliseconds elapsed since `start`.
///
/// Calls `Instant::elapsed` and converts the duration with `as_millis`;
/// the time that has passed is not stated.
#[verifier::external_body]
fn elapsed_millis(start: &Instant) -> u128 {
    start.elapsed().as_millis()
}

/// What `Duration::from_secs` returns for `secs`.
pub uninterp spec fn duration_of_secs(secs: u64) -> Duration;

/// A duration of `secs` seconds.
///
/// Calls `Duration::from_secs`; its result is named `duration_of_secs(secs)`.
#[verifier::external_body]
fn duration_from_secs(secs: u64) -> (r: Duration)
    ensures
        r == duration_of_secs(secs),
{
    Duration::from_secs(secs)
}

/// Toast notification that disappears after a while.
#[derive(Debug)]
pub struct Notification {
    pub text: String,
    pub level: NotificationLevel,
    pub created_at: Instant,
}

/// Seconds a notification of the given level stays on screen: errors stay
/// longest.
pub open spec fn dismiss_secs_of(level: NotificationLevel) -> u64 {
    match level {
        NotificationLevel::Info => 3,
        NotificationLevel::Warning => 5,
        NotificationLevel::Error => 8,
    }
}

impl Notification {
    fn new(text: &str, level: NotificationLevel) -> (r: Notification)
        ensures
            r.text@ == text@,
            r.level == level,
    {
        Notification { text: text.to_owned(), level, created_at: instant_now() }
    }

    pub fn info(text: &str) -> (r: Notification)
        ensures
            r.text@ == text@,
            r.level == NotificationLevel::Info,
    {
        Self::new(text, NotificationLevel::Info)
    }

    pub fn warning(text: &str) -> (r: Notification)
        ensures
            r.text@ == text@,
            r.level == NotificationLevel::Warning,
    {
        Self::new(text, NotificationLevel::Warning)
    }

    pub fn error(text: &str) -> (r: Notification)
        ensures
            r.text@ == text@,
            r.level == NotificationLevel::Error,
    {
        Self::new(text, NotificationLevel::Error)
    }

    /// Seconds before auto-dismiss.
    pub fn dismiss_secs(&self) -> (r: u64)
        ensures
            r == dismiss_secs_of(self.level),
    {
        match self.level {
            NotificationLevel::Info => 3,
            NotificationLevel::Warning => 5,
            NotificationLevel::Error => 8,
        }
    }

    /// Duration before auto-dismiss (errors stay longer).
    pub fn dismiss_duration(&self) -> (r: Duration)
        ensures
            r == duration_of_secs(dismiss_secs_of(self.level)),
    {
        duration_from_secs(self.dismiss_secs())
    }

    /// Whether a notification that has been shown for `elapsed_ms`
    /// milliseconds should go.
    pub fn should_dismiss_after(&self, elapsed_ms: u128) -> (r: bool)
        ensures
            r == (elapsed_ms >= dismiss_secs_of(self.level) as int * 1000),
    {
        elapsed_ms >= (self.dismiss_secs() as u128) * 1000
    }

    /// Whether the notification has been shown for its whole duration:
    /// `should_dismiss_after` applied to the milliseconds elapsed since it
    /// was created, which depend on the clock.
    pub fn should_dismiss(&self) -> (r: bool) {
        let elapsed = elapsed_millis(&self.created_at);
        self.should_dismiss_after(elapsed)
    }
}

/// Modal error popup that stays until dismissed.
#[derive(Debug, Clone)]
pub struct ErrorModal {
    pub title: String,
    pub message: String,
}

} // verus!
