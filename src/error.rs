use vstd::prelude::*;

verus! {

/// Error returned by calls wrapped in a breaker.
#[derive(Debug)]
pub enum Error<E> {
    /// The wrapped call was made, while closed or half-open, and failed with this error.
    Inner(E),
    /// The breaker was open: the call was not made.
    Rejected,
}

/// Decides whether an error of a wrapped call counts as a failure.
pub trait ErrorPredicate<E> {
    /// The predicate can be asked about any error.
    spec fn is_total(&self) -> bool;

    fn is_err(&self, err: &E) -> bool
        requires
            self.is_total(),
    ;
}

impl<F, E> ErrorPredicate<E> for F where F: Fn(&E) -> bool {
    open spec fn is_total(&self) -> bool {
        forall|err: &E| #[trigger] self.requires((err,))
    }

    fn is_err(&self, err: &E) -> bool {
        self(err)
    }
}

/// Counts every error as a failure.
#[derive(Debug)]
pub struct AnyError;

impl<E> ErrorPredicate<E> for AnyError {
    open spec fn is_total(&self) -> bool {
        true
    }

    fn is_err(&self, _err: &E) -> bool {
        true
    }
}

} // verus!
