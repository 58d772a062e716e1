//! How a request to a source is retried: after each attempt, whether to
//! read the answer, give up, or wait and try again.
use vstd::prelude::*;

use super::{SourceConfig, SourceError};
use crate::text::{push_text, string_of_str};

verus! {

/// What one attempt of a request came to.
pub enum FetchOutcome {
    /// The server answered with a success status.
    Success,
    /// The server answered with another status: its code and its text as
    /// the HTTP library writes it (such as `404 Not Found`).
    Status { code: u16, text: String },
    /// The request failed before an answer, with this message.
    Transport(String),
}

/// What to do after an attempt.
pub enum RetryStep {
    /// Read the answer: the request succeeded.
    Read,
    /// Stop with this error.
    Fail(SourceError),
    /// Pause this many times for the configured delay, then go on.
    Wait(u32),
}

/// The state of a request being retried.
pub struct Retry {
    attempts: u32,
    max_retries: u32,
    retry_delay: u64,
    not_found_is_final: bool,
    last_error: Option<SourceError>,
}

impl Retry {
    /// Attempts made so far.
    pub closed spec fn attempts(&self) -> nat {
        self.attempts as nat
    }

    /// Attempts allowed.
    pub closed spec fn max_retries(&self) -> nat {
        self.max_retries as nat
    }

    /// The pause between attempts, in milliseconds.
    pub closed spec fn retry_delay(&self) -> u64 {
        self.retry_delay
    }

    /// Whether a `404` answer ends the request at once.
    pub closed spec fn not_found_is_final(&self) -> bool {
        self.not_found_is_final
    }

    /// The error of the last failed attempt, if any failed.
    pub closed spec fn last_error(&self) -> Option<SourceError> {
        self.last_error
    }

    /// No more attempts are made than allowed.
    pub closed spec fn wf(&self) -> bool {
        self.attempts <= self.max_retries
    }

    /// A request is never tried more often than configured.
    pub proof fn lemma_attempts_bounded(&self)
        requires
            self.wf(),
        ensures
            self.attempts() <= self.max_retries(),
    {
    }

    /// A request about to be tried, with the attempts and delay of
    /// `config`; `not_found_is_final` says whether a `404` ends it.
    pub fn start(config: &SourceConfig, not_found_is_final: bool) -> (r: Retry)
        ensures
            r.wf(),
            r.attempts() == 0,
            r.max_retries() == config.max_retries,
            r.retry_delay() == config.retry_delay,
            r.not_found_is_final() == not_found_is_final,
            r.last_error() is None,
    {
        Retry {
            attempts: 0,
            max_retries: config.max_retries,
            retry_delay: config.retry_delay,
            not_found_is_final,
            last_error: None,
        }
    }

    /// Whether another attempt is to be made.
    pub fn should_fetch(&self) -> (b: bool)
        requires
            self.wf(),
        ensures
            b == (self.attempts() < self.max_retries()),
    {
        self.attempts < self.max_retries
    }

    /// The pause between attempts, in milliseconds.
    pub fn delay(&self) -> (d: u64)
        ensures
            d == self.retry_delay(),
    {
        self.retry_delay
    }

    /// What to do after an attempt that came to `outcome`: read a success;
    /// stop at a `404` where that is final; otherwise remember the failure
    /// (a rate limit for `429`, a network error `HTTP <status>` for another
    /// status, the message of a failed request) and pause, twice after a
    /// `429`, once otherwise.
    pub fn on_outcome(&mut self, outcome: FetchOutcome) -> (step: RetryStep)
        requires
            old(self).wf(),
            old(self).attempts() < old(self).max_retries(),
        ensures
            final(self).wf(),
            final(self).attempts() == old(self).attempts() + 1,
            final(self).max_retries() == old(self).max_retries(),
            final(self).retry_delay() == old(self).retry_delay(),
            final(self).not_found_is_final() == old(self).not_found_is_final(),
            match outcome {
                FetchOutcome::Success => step is Read && final(self).last_error()
                    == old(self).last_error(),
                FetchOutcome::Status { code, text } => if code == 404
                    && old(self).not_found_is_final() {
                    step matches RetryStep::Fail(e) && e is NotFound
                } else if code == 429 {
                    step == RetryStep::Wait(2) && final(self).last_error()
                        == Some(SourceError::RateLimit { retry_after: None })
                } else {
                    step == RetryStep::Wait(1) && (final(self).last_error() matches Some(
                        SourceError::Network(m),
                    ) && m@ == "HTTP "@ + text@)
                },
                FetchOutcome::Transport(msg) => step == RetryStep::Wait(1)
                    && final(self).last_error() == Some(SourceError::Network(msg)),
            },
    {
        self.attempts = self.attempts + 1;
        match outcome {
            FetchOutcome::Success => RetryStep::Read,
            FetchOutcome::Status { code, text } => {
                if code == 404 && self.not_found_is_final {
                    RetryStep::Fail(SourceError::NotFound)
                } else if code == 429 {
                    self.last_error = Some(SourceError::RateLimit { retry_after: None });
                    RetryStep::Wait(2)
                } else {
                    let mut m = String::new();
                    push_text(&mut m, "HTTP ");
                    push_text(&mut m, text.as_str());
                    self.last_error = Some(SourceError::Network(m));
                    RetryStep::Wait(1)
                }
            },
            FetchOutcome::Transport(msg) => {
                self.last_error = Some(SourceError::Network(msg));
                RetryStep::Wait(1)
            },
        }
    }

    /// The error a request ends with when its attempts are spent: that of
    /// the last failed attempt, or `Max retries exceeded` where none was
    /// made.
    pub fn give_up(self) -> (e: SourceError)
        ensures
            match self.last_error() {
                Some(last) => e == last,
                None => e matches SourceError::Network(m) && m@ == "Max retries exceeded"@,
            },
    {
        match self.last_error {
            Some(e) => e,
            None => SourceError::Network(string_of_str("Max retries exceeded")),
        }
    }
}

} // verus!
