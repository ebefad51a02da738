//! Completion polling for POSIX asynchronous I/O control blocks.
//!
//! The status that `aio_error` reports for a request is read into the
//! library's own `AioStatus`; the decision of whether to keep waiting is
//! verified against it.
mod status;
mod poll;

pub use status::{lemma_settled_exactly_when_not_in_progress, AioStatus};
pub use poll::{
    in_progress_errno, lemma_poll_outcome_is_first_settled, lemma_poll_outcome_unfolds,
    lemma_poll_waits_then_finishes, lemma_step_hands_back_status, poll_actions, poll_once, poll_outcome, poll_step, step_action,
    PollAction, POLL_INTERVAL_MS,
};
