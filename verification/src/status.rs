use vstd::prelude::*;

verus! {

/// What `aio_error` reports about one asynchronous request.
#[derive(Clone, Copy, Debug, PartialEq, Eq, Structural)]
pub enum AioStatus {
    /// The request finished without error.
    Complete,
    /// The request has not finished yet (`EINPROGRESS`).
    InProgress,
    /// The request finished with the given errno.
    Failed(i32),
    /// An error that carries no errno (nix builds these for path and string
    /// conversions; `AioCb::error` never reports one).
    Other,
}

impl AioStatus {
    /// The request has finished, one way or another.
    pub open spec fn settled(self) -> bool {
        !(self is InProgress)
    }

    /// Whether the request has finished, one way or another.
    pub fn is_settled(&self) -> (r: bool)
        ensures
            r == self.settled(),
            r <==> !(*self is InProgress),
    {
        match self {
            AioStatus::InProgress => false,
            _ => true,
        }
    }
}

/// Only `InProgress` keeps a request open: `Complete`, `Other` and a failure
/// with any errno at all are final.
pub proof fn lemma_settled_exactly_when_not_in_progress(status: AioStatus)
    ensures
        status.settled() <==> !(status is InProgress),
        !AioStatus::InProgress.settled(),
        AioStatus::Complete.settled(),
        AioStatus::Other.settled(),
        forall|e: i32| #[trigger] AioStatus::Failed(e).settled(),
{
}

} // verus!
