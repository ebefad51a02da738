use vstd::prelude::*;

use nix::sys::aio::AioCb;

use crate::status::AioStatus;

verus! {

#[verifier::external_type_specification]
#[verifier::external_body]
pub struct ExAioCb<'a>(AioCb<'a>);

/// How long to wait, in milliseconds, before asking again about a request
/// that is still in progress.
pub const POLL_INTERVAL_MS: u64 = 10;

/// The errno value of `EINPROGRESS` that libc gives for Linux on x86, x86-64,
/// arm, aarch64, powerpc, riscv and s390x.
pub open spec fn in_progress_errno() -> i32 {
    115
}

/// What to do after one look at a request.
#[derive(Clone, Copy, Debug, PartialEq, Eq, Structural)]
pub enum PollAction {
    /// Stop polling: the request has finished with this status.
    Finished(AioStatus),
    /// Wait this many milliseconds, then ask again.
    Wait(u64),
}

/// The action that one look at a request with status `status` leads to.
pub open spec fn step_action(status: AioStatus) -> PollAction {
    if status.settled() {
        PollAction::Finished(status)
    } else {
        PollAction::Wait(POLL_INTERVAL_MS)
    }
}

/// Reads the request's current status with `AioCb::error`, which asks the
/// operating system (`aio_error`). `Ok(())` becomes `Complete`, the errno
/// `EINPROGRESS` becomes `InProgress`, any other errno `e` becomes
/// `Failed(e)`, and an error without an errno becomes `Other`.
/// Every error `AioCb::error` builds is an `Error::Sys` (from the errno that
/// `aio_error` returns, or from `errno` when it returns -1), so the result is
/// never `Other`; and since the `EINPROGRESS` variant is matched first and
/// the variants of `Errno` have distinct values, `Failed` never carries the
/// value of `EINPROGRESS`. Which of the other statuses comes back is not
/// stated: it depends on how far the operating system has got with the
/// request.
#[verifier::external_body]
fn read_status(aiocb: &mut AioCb) -> (status: AioStatus)
    ensures
        !(status is Other),
        status matches AioStatus::Failed(e) ==> e != in_progress_errno(),
{
    match aiocb.error() {
        Ok(()) => AioStatus::Complete,
        Err(nix::Error::Sys(nix::errno::Errno::EINPROGRESS)) => AioStatus::InProgress,
        Err(nix::Error::Sys(e)) => AioStatus::Failed(e as i32),
        Err(_) => AioStatus::Other,
    }
}

/// One round of polling: a settled status is the answer, an unsettled one
/// means waiting `POLL_INTERVAL_MS` milliseconds and asking again.
pub fn poll_step(status: AioStatus) -> (a: PollAction)
    ensures
        a == step_action(status),
        a matches PollAction::Finished(s) ==> s == status,
        a is Finished <==> !(status is InProgress),
        a matches PollAction::Wait(ms) ==> ms == POLL_INTERVAL_MS,
{
    if status.is_settled() {
        PollAction::Finished(status)
    } else {
        PollAction::Wait(POLL_INTERVAL_MS)
    }
}

/// Looks once at the request: `Finished` with its status when it has
/// finished, and otherwise the wait of `POLL_INTERVAL_MS` milliseconds
/// before the next look. A finished status is `Complete` or `Failed` with
/// an errno other than that of `EINPROGRESS`, never `Other`.
pub fn poll_once(aiocb: &mut AioCb) -> (a: PollAction)
    ensures
        a matches PollAction::Finished(s) ==> s.settled() && !(s is Other) && (s matches AioStatus::Failed(e) ==> e != in_progress_errno()),
        a matches PollAction::Wait(ms) ==> ms == POLL_INTERVAL_MS,
{
    let status = read_status(aiocb);
    poll_step(status)
}

/// One look hands back exactly the status it was given when that status is
/// final (for every errno a failure carries), and otherwise waits
/// `POLL_INTERVAL_MS`, that is 10, milliseconds.
pub proof fn lemma_step_hands_back_status(status: AioStatus)
    ensures
        step_action(status) matches PollAction::Finished(s) ==> s == status,
        step_action(status) is Finished <==> !(status is InProgress),
        step_action(status) matches PollAction::Wait(ms) ==> ms == 10,
        status is InProgress ==> step_action(status) == PollAction::Wait(10),
        forall|e: i32| #[trigger] step_action(AioStatus::Failed(e)) == PollAction::Finished(AioStatus::Failed(e)),
        step_action(AioStatus::Complete) == PollAction::Finished(AioStatus::Complete),
{
}

/// The actions that polling takes when the request reports the statuses
/// `observed` in turn, up to and including the one at which it stops.
pub open spec fn poll_actions(observed: Seq<AioStatus>) -> Seq<PollAction>
    decreases observed.len(),
{
    if observed.len() == 0 {
        Seq::empty()
    } else if observed[0].settled() {
        seq![step_action(observed[0])]
    } else {
        seq![step_action(observed[0])] + poll_actions(observed.drop_first())
    }
}

/// When the first status that is not in progress is the one at index `k`,
/// polling waits `POLL_INTERVAL_MS` milliseconds exactly `k` times, once after
/// each earlier look and never after the last, and then finishes with that
/// status.
pub proof fn lemma_poll_waits_then_finishes(observed: Seq<AioStatus>, k: int)
    requires
        0 <= k < observed.len(),
        observed[k].settled(),
        forall|j: int| 0 <= j < k ==> !(#[trigger] observed[j]).settled(),
    ensures
        poll_actions(observed).len() == k + 1,
        forall|j: int| 0 <= j < k ==> #[trigger] poll_actions(observed)[j] == PollAction::Wait(POLL_INTERVAL_MS),
        poll_actions(observed)[k] == PollAction::Finished(observed[k]),
    decreases k,
{
    if k > 0 {
        let rest = observed.drop_first();
        assert(!observed[0].settled());
        assert forall|j: int| 0 <= j < k - 1 implies !(#[trigger] rest[j]).settled() by {
            assert(rest[j] == observed[j + 1]);
        }
        assert(rest[k - 1] == observed[k]);
        lemma_poll_waits_then_finishes(rest, k - 1);
        let acts = poll_actions(observed);
        assert(acts == seq![step_action(observed[0])] + poll_actions(rest));
        assert forall|j: int| 0 <= j < k implies #[trigger] acts[j] == PollAction::Wait(POLL_INTERVAL_MS) by {
            if j > 0 {
                assert(acts[j] == poll_actions(rest)[j - 1]);
            }
        }
        assert(acts[k] == poll_actions(rest)[k - 1]);
    }
}

/// The status at which polling stops when the request reports the statuses
/// `observed` in turn; `None` when every one of them is still in progress.
pub open spec fn poll_outcome(observed: Seq<AioStatus>) -> Option<AioStatus>
    decreases observed.len(),
{
    if observed.len() == 0 {
        None
    } else if observed[0].settled() {
        Some(observed[0])
    } else {
        poll_outcome(observed.drop_first())
    }
}

/// Polling ends at the first status that is not in progress, and hands it
/// back unchanged; it never ends on an in-progress status.
pub proof fn lemma_poll_outcome_is_first_settled(observed: Seq<AioStatus>)
    ensures
        poll_outcome(observed) matches Some(s) ==> exists|i: int|
            #![trigger observed[i]]
            0 <= i < observed.len() && observed[i] == s && s.settled() && (forall|j: int|
                0 <= j < i ==> !(#[trigger] observed[j]).settled()),
        poll_outcome(observed) is None <==> (forall|j: int|
            0 <= j < observed.len() ==> !(#[trigger] observed[j]).settled()),
    decreases observed.len(),
{
    if observed.len() > 0 {
        let rest = observed.drop_first();
        lemma_poll_outcome_is_first_settled(rest);
        if !observed[0].settled() {
            if let Some(s) = poll_outcome(rest) {
                let k = choose|k: int|
                    #![trigger rest[k]]
                    0 <= k < rest.len() && rest[k] == s && s.settled() && (forall|j: int|
                        0 <= j < k ==> !(#[trigger] rest[j]).settled());
                assert(observed[k + 1] == s);
                assert forall|j: int| 0 <= j < k + 1 implies !(#[trigger] observed[j]).settled() by {
                    if j > 0 {
                        assert(observed[j] == rest[j - 1]);
                    }
                }
            } else {
                assert forall|j: int| 0 <= j < observed.len() implies !(#[trigger] observed[j]).settled() by {
                    if j > 0 {
                        assert(observed[j] == rest[j - 1]);
                    }
                }
            }
        }
    }
}

/// One round of polling followed by the rest: when `poll_step` finishes on
/// the first observed status, that is where polling stops; when it says to
/// wait, polling goes on as if the first observation had not been made.
pub proof fn lemma_poll_outcome_unfolds(first: AioStatus, rest: Seq<AioStatus>)
    ensures
        poll_outcome(seq![first] + rest) == (match step_action(first) {
            PollAction::Finished(s) => Some(s),
            PollAction::Wait(_) => poll_outcome(rest),
        }),
{
    let observed = seq![first] + rest;
    assert(observed[0] == first);
    assert(observed.drop_first() =~= rest);
}

} // verus!
