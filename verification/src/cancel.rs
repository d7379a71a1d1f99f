//! Cooperative cancellation for long-running compress/decompress operations.
use vstd::prelude::*;

verus! {

/// A cooperative cancellation check, polled periodically while a long
/// operation runs; the operation stops as soon as the check fires.
///
/// Any `Fn() -> bool` that is `Send + Sync` implements `CancelCheck`, so the
/// common case is a closure over an atomic flag or a deadline.
pub trait CancelCheck: Send + Sync {
    /// Whether some poll of this check can ever report `true`. Unless an
    /// implementation says otherwise, it may.
    open spec fn can_fire(&self) -> bool {
        true
    }

    /// Whether this check may be polled at all (a closure's precondition).
    /// Unless an implementation says otherwise, it always may.
    open spec fn pollable(&self) -> bool {
        true
    }

    /// Returns `true` to cancel the operation as soon as possible.
    fn is_cancelled(&self) -> (cancelled: bool)
        requires
            self.pollable(),
        ensures
            cancelled ==> self.can_fire(),
    ;

    /// Returns `false` if this check can never fire, letting callers skip
    /// storing it. The default is `true`.
    fn may_cancel(&self) -> (may: bool)
        ensures
            !may ==> !self.can_fire(),
        default_ensures
            may,
    {
        true
    }
}

/// A [`CancelCheck`] that never cancels: a zero-cost opt-out of cooperative
/// cancellation.
#[derive(Clone, Copy, Debug, PartialEq, Eq, Structural, Hash)]
pub struct NeverCancel;

impl Default for NeverCancel {
    fn default() -> (n: NeverCancel)
        ensures
            n == NeverCancel,
    {
        NeverCancel
    }
}

impl CancelCheck for NeverCancel {
    open spec fn can_fire(&self) -> bool {
        false
    }

    open spec fn pollable(&self) -> bool {
        true
    }

    /// Never fires.
    fn is_cancelled(&self) -> (cancelled: bool)
        ensures
            !cancelled,
    {
        false
    }

    /// Reports that this check can never fire.
    fn may_cancel(&self) -> (may: bool)
        ensures
            !may,
    {
        false
    }
}

/// Any `Fn() -> bool` that is `Send + Sync` is a check: it fires when the
/// closure returns `true`, and it keeps the default `may_cancel`.
///
/// Verified code polls a closure through a function generic over the
/// closure's type, whose `requires` gives `call_requires(*f, ())`: there
/// `f.pollable()` is that precondition.
impl<F: Fn() -> bool + Send + Sync> CancelCheck for F {
    open spec fn can_fire(&self) -> bool {
        call_ensures(*self, (), true)
    }

    open spec fn pollable(&self) -> bool {
        call_requires(*self, ())
    }

    /// Polls the closure: the check fires exactly when the closure says so.
    fn is_cancelled(&self) -> (cancelled: bool)
        ensures
            call_ensures(*self, (), cancelled),
    {
        self()
    }
}

/// A check that cannot fire, as one whose `may_cancel` has answered `false`
/// is known not to, is never cancelled: every poll of its `is_cancelled`
/// answers `false`.
pub proof fn lemma_opt_out_is_silent<C: CancelCheck>(check: &C, cancelled: bool)
    requires
        !check.can_fire(),
        call_ensures(<C as CancelCheck>::is_cancelled, (check,), cancelled),
    ensures
        !cancelled,
{
}

} // verus!
