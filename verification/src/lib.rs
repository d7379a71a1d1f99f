//! Cooperative cancellation for long-running operations.
mod cancel;

pub use cancel::{lemma_opt_out_is_silent, CancelCheck, NeverCancel};
