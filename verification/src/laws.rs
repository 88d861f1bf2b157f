use vstd::prelude::*;

use crate::auth::{
    ActionModel, AuthError, EventModel, LoginResult, PhaseModel, QrStateModel, is_terminal_phase,
    start_spec, step,
};
use crate::store::TokenModel;

verus! {

// ---------------------------------------------------------------------------
// Traces: where a run of the flow ends up and what it asks for on the way
// ---------------------------------------------------------------------------
/// The phase the flow stands in after consuming `events` from `p`.
pub open spec fn phase_after(p: PhaseModel, events: Seq<EventModel>) -> PhaseModel
    decreases events.len(),
{
    if events.len() == 0 {
        p
    } else {
        phase_after(step(p, events[0]).0, events.drop_first())
    }
}

/// The actions the flow asks for while consuming `events` from `p`, one per
/// event, in order.
pub open spec fn actions_along(p: PhaseModel, events: Seq<EventModel>) -> Seq<ActionModel>
    decreases events.len(),
{
    if events.len() == 0 {
        Seq::empty()
    } else {
        seq![step(p, events[0]).1] + actions_along(step(p, events[0]).0, events.drop_first())
    }
}

/// The actions that belong to the interactive QR flow.
pub open spec fn is_qr_action(a: ActionModel) -> bool {
    ||| a is FetchQr
    ||| a is SaveImageAndPoll
    ||| a is Poll
    ||| a is QrLogin
    ||| a is DeviceLockLogin
}

/// The phases the token fast path can pass through.
pub open spec fn on_token_path(p: PhaseModel) -> bool {
    ||| p is AwaitToken
    ||| p is AwaitFinalize
    ||| p is Done
    ||| p is Failed
}

proof fn lemma_actions_len(p: PhaseModel, events: Seq<EventModel>)
    ensures
        actions_along(p, events).len() == events.len(),
    decreases events.len(),
{
    if events.len() > 0 {
        lemma_actions_len(step(p, events[0]).0, events.drop_first());
    }
}

/// From any phase of the token fast path, no sequence of events ever makes
/// the flow ask for a QR action: the interactive flow is never entered.
pub proof fn lemma_token_path_never_qr(p: PhaseModel, events: Seq<EventModel>)
    requires
        on_token_path(p),
    ensures
        on_token_path(phase_after(p, events)),
        actions_along(p, events).len() == events.len(),
        forall|i: int|
            0 <= i < events.len() ==> !is_qr_action(#[trigger] actions_along(p, events)[i]),
    decreases events.len(),
{
    lemma_actions_len(p, events);
    if events.len() > 0 {
        let p1 = step(p, events[0]).0;
        let a1 = step(p, events[0]).1;
        assert(on_token_path(p1) && !is_qr_action(a1));
        lemma_token_path_never_qr(p1, events.drop_first());
        assert forall|i: int|
            0 <= i < events.len() implies !is_qr_action(
            #[trigger] actions_along(p, events)[i],
        ) by {
            if i > 0 {
                assert(actions_along(p, events)[i] == actions_along(p1, events.drop_first())[i
                    - 1]);
            }
        }
    }
}

/// A stored token takes the fast path: the first action is the token login,
/// and whatever the connection answers from then on, the flow never asks for
/// any QR action.
pub proof fn lemma_stored_token_skips_qr(t: TokenModel, events: Seq<EventModel>)
    ensures
        start_spec(Some(t)).1 == (ActionModel::TokenLogin { token: t }),
        !is_qr_action(start_spec(Some(t)).1),
        forall|i: int|
            0 <= i < events.len() ==> !is_qr_action(
                #[trigger] actions_along(start_spec(Some(t)).0, events)[i],
            ),
{
    lemma_token_path_never_qr(start_spec(Some(t)).0, events);
}

/// Without a stored token the very first action is to fetch a QR challenge:
/// the interactive flow is entered before anything else happens.
pub proof fn lemma_absent_token_enters_qr()
    ensures
        start_spec(None).1 == ActionModel::FetchQr,
        start_spec(None).0 == (PhaseModel::AwaitFetch { sig: Seq::<u8>::empty() }),
{
}

/// Both terminal phases absorb every further event and ask for nothing more.
/// In particular, once the flow has succeeded the QR flow cannot run again,
/// and once it has failed no token is ever persisted.
pub proof fn lemma_terminal_is_absorbing(p: PhaseModel, events: Seq<EventModel>)
    requires
        is_terminal_phase(p),
    ensures
        phase_after(p, events) == p,
        actions_along(p, events).len() == events.len(),
        forall|i: int|
            0 <= i < events.len() ==> (#[trigger] actions_along(p, events)[i])
                == ActionModel::Idle,
    decreases events.len(),
{
    lemma_actions_len(p, events);
    if events.len() > 0 {
        assert(step(p, events[0]).0 == p && step(p, events[0]).1 == ActionModel::Idle);
        lemma_terminal_is_absorbing(p, events.drop_first());
        assert forall|i: int|
            0 <= i < events.len() implies (#[trigger] actions_along(p, events)[i])
            == ActionModel::Idle by {
            if i > 0 {
                assert(actions_along(p, events)[i] == actions_along(p, events.drop_first())[i - 1]);
            }
        }
    }
}

/// A token is persisted only on the one transition that ends the flow in
/// success: finalization answered, and the flow is then done.
pub proof fn lemma_persist_only_on_success(p: PhaseModel, e: EventModel)
    ensures
        step(p, e).1 is PersistToken ==> p is AwaitFinalize && e is Finalized && step(p, e).0
            is Done,
{
}

/// However long the run and whatever the connection answers, the flow asks
/// to persist a token at most once: persisting ends the flow in success, and
/// a finished flow asks for nothing more. With `lemma_absent_token_enters_qr`
/// this pins the shape of an interactive startup: the QR flow is entered
/// once, and completes at most once.
pub proof fn lemma_persist_at_most_once(p: PhaseModel, events: Seq<EventModel>)
    ensures
        forall|i: int, j: int|
            0 <= i < j < events.len() && (#[trigger] actions_along(p, events)[i])
                is PersistToken ==> !((#[trigger] actions_along(p, events)[j]) is PersistToken),
    decreases events.len(),
{
    if events.len() > 0 {
        let p1 = step(p, events[0]).0;
        let a1 = step(p, events[0]).1;
        lemma_actions_len(p, events);
        lemma_actions_len(p1, events.drop_first());
        lemma_persist_at_most_once(p1, events.drop_first());
        assert forall|i: int, j: int|
            0 <= i < j < events.len() && (#[trigger] actions_along(p, events)[i])
                is PersistToken implies !((#[trigger] actions_along(p, events)[j])
            is PersistToken) by {
            assert(actions_along(p, events)[j] == actions_along(p1, events.drop_first())[j - 1]);
            if i == 0 {
                lemma_persist_only_on_success(p, events[0]);
                lemma_terminal_is_absorbing(p1, events.drop_first());
            } else {
                assert(actions_along(p, events)[i] == actions_along(p1, events.drop_first())[i
                    - 1]);
            }
        }
    }
}

/// A canceled challenge ends the flow at once in terminal failure; the one
/// action is the fatal report, never a token persist. With
/// `lemma_terminal_is_absorbing`, no token is persisted afterwards either.
pub proof fn lemma_canceled_is_fatal(p: PhaseModel)
    requires
        p is AwaitFetch || p is AwaitPoll,
    ensures
        step(p, EventModel::Qr { state: QrStateModel::Canceled }).0 == (PhaseModel::Failed {
            error: AuthError::Canceled,
        }),
        step(p, EventModel::Qr { state: QrStateModel::Canceled }).1 == (ActionModel::Abort {
            error: AuthError::Canceled,
        }),
{
}

/// An expired challenge is re-fetched, and the fresh challenge supersedes the
/// held signature wholesale: on the timeout itself nothing is polled, and the
/// poll that follows the fresh challenge carries the fresh signature, never
/// the superseded one.
pub proof fn lemma_timeout_replaces_signature(
    sig: Seq<u8>,
    image_data: Seq<u8>,
    fresh: Seq<u8>,
)
    ensures
        step(PhaseModel::AwaitPoll { sig }, EventModel::Qr { state: QrStateModel::Timeout }) == ((
            PhaseModel::AwaitFetch { sig },
            ActionModel::FetchQr,
        )),
        step(
            PhaseModel::AwaitFetch { sig },
            EventModel::Qr { state: QrStateModel::ImageFetch { image_data, sig: fresh } },
        ) == ((
            PhaseModel::AwaitPoll { sig: fresh },
            ActionModel::SaveImageAndPoll { image_data, sig: fresh },
        )),
{
}

/// Every poll the flow ever asks for carries the signature in force: either
/// the one already held (while the challenge is pending) or the one the fresh
/// challenge just delivered. A superseded signature is never polled with.
pub proof fn lemma_poll_uses_signature_in_force(p: PhaseModel, e: EventModel, s: Seq<u8>)
    ensures
        step(p, e).1 == (ActionModel::Poll { sig: s }) ==> (p == (PhaseModel::AwaitFetch {
            sig: s,
        }) || p == (PhaseModel::AwaitPoll { sig: s })),
        (forall|image_data: Seq<u8>|
            step(p, e).1 == (ActionModel::SaveImageAndPoll { image_data, sig: s }) ==> e == (
            EventModel::Qr { state: QrStateModel::ImageFetch { image_data, sig: s } })),
{
}

/// The device-lock sub-challenge costs exactly one additional login call:
/// the flow asks for the one extra round trip, and whatever that answers,
/// the next step is finalization, never a second device-lock call.
pub proof fn lemma_device_lock_one_extra_login(result: LoginResult)
    ensures
        step(PhaseModel::AwaitLogin, EventModel::Login { result: LoginResult::DeviceLockLogin })
            == ((PhaseModel::AwaitDeviceLock, ActionModel::DeviceLockLogin)),
        step(PhaseModel::AwaitDeviceLock, EventModel::Login { result }) == ((
            PhaseModel::AwaitFinalize,
            ActionModel::Finalize,
        )),
{
}

} // verus!
