use vstd::prelude::*;

use crate::bridge::{BridgeState, Readiness, Slot, POLL_LIMIT};
use crate::json::{json_quote, lemma_literal_round_trip, literal_text};

verus! {

/// The state after a fetch that the editor answers with the text it was
/// built from.
pub open spec fn fetch_after_bootstrap(s: BridgeState, initial: Seq<char>) -> BridgeState {
    s.fetched(true, Some(literal_text(json_quote(initial))))
}

/// For any text, the editor that the bootstrap literal builds holds exactly
/// that text, and a fetch of it, once the editor is ready, leaves exactly
/// that text in the snapshot.
pub proof fn lemma_bootstrap_then_fetch(s: BridgeState, initial: Seq<char>)
    requires
        s.readiness == Readiness::Ready,
        s.slot == Slot::Occupied,
    ensures
        literal_text(json_quote(initial)) == initial,
        fetch_after_bootstrap(s, initial).stored == initial,
{
    lemma_literal_round_trip(initial);
}

/// `Ready` is absorbing: no operation leaves it, and only a probe that
/// reports ready, while the poll runs, enters it.
pub proof fn lemma_ready_absorbing(
    s: BridgeState,
    probe_ready: bool,
    check_ready: bool,
    content: Option<Seq<char>>,
    payload: Seq<char>,
    confirmed: bool,
)
    requires
        s.wf(),
    ensures
        s.readiness == Readiness::Ready ==> {
            &&& s.mounted().readiness == Readiness::Ready
            &&& s.probed(probe_ready).readiness == Readiness::Ready
            &&& s.fetched(check_ready, content).readiness == Readiness::Ready
            &&& s.pushed(payload, confirmed).readiness == Readiness::Ready
            &&& s.disposed().readiness == Readiness::Ready
        },
        s.readiness != Readiness::Ready ==> {
            &&& s.mounted().readiness != Readiness::Ready
            &&& s.fetched(check_ready, content).readiness != Readiness::Ready
            &&& s.pushed(payload, confirmed).readiness != Readiness::Ready
            &&& s.disposed().readiness != Readiness::Ready
            &&& (s.probed(probe_ready).readiness == Readiness::Ready <==> s.polling && probe_ready)
        },
{
}

/// Once the poll has used up its probes without a ready answer, no
/// operation makes the editor ready and none starts the poll again.
pub proof fn lemma_timeout_is_final(
    s: BridgeState,
    probe_ready: bool,
    check_ready: bool,
    content: Option<Seq<char>>,
    payload: Seq<char>,
    confirmed: bool,
)
    requires
        s.wf(),
        s.attempts == POLL_LIMIT,
        s.readiness != Readiness::Ready,
    ensures
        !s.polling,
        s.mounted() == s,
        s.probed(probe_ready) == s,
        s.fetched(check_ready, content) == s,
        s.pushed(payload, confirmed) == s,
        s.disposed().readiness != Readiness::Ready,
        !s.disposed().polling,
{
}

/// A fetch while the editor is not ready leaves the snapshot as it was.
pub proof fn lemma_fetch_needs_ready(s: BridgeState, check_ready: bool, content: Option<Seq<char>>)
    requires
        s.readiness != Readiness::Ready,
    ensures
        s.fetched(check_ready, content).stored == s.stored,
{
}

/// A push that reports failure leaves the whole state, snapshot included, as
/// it was; one that reports success leaves exactly the pushed text in the
/// snapshot, whatever it held before.
pub proof fn lemma_push_outcome(s: BridgeState, payload: Seq<char>, confirmed: bool)
    ensures
        !s.push_succeeds(confirmed) ==> s.pushed(payload, confirmed) == s,
        s.push_succeeds(confirmed) ==> s.pushed(payload, confirmed).stored == payload,
        !s.push_succeeds(false),
{
}

/// Disposing twice is the same as disposing once, and the slot is no
/// longer occupied after the first.
pub proof fn lemma_dispose_twice(s: BridgeState)
    ensures
        s.disposed().slot != Slot::Occupied,
        s.disposed().disposed() == s.disposed(),
{
}

} // verus!
