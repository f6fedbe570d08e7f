use vstd::prelude::*;
use crate::history::{decide, redirect, Decision, HistoryModel};
use crate::topology::output_in;

verus! {

/// One focus event handled to the end: the decision, followed, where the
/// decision asks for it, by the redirection over `outputs`. Returns the new
/// state and the workspaces switched to.
pub open spec fn step(
    h: HistoryModel,
    mirror: Seq<char>,
    topo: Map<Seq<char>, Seq<char>>,
    event: (Seq<char>, Seq<char>),
    outputs: Seq<Option<Seq<char>>>,
) -> (HistoryModel, Seq<Seq<char>>) {
    let (h1, d) = decide(h, mirror, topo, event.0, event.1);
    match d {
        Decision::Suppressed => (h1, seq![]),
        Decision::Commands(c) => (h1, c),
        Decision::QueryOutputs => redirect(h1, event.1, outputs),
    }
}

/// A sequence of (current, previous) focus events handled in order; returns
/// the final state and every workspace switched to.
pub open spec fn run(
    h: HistoryModel,
    mirror: Seq<char>,
    topo: Map<Seq<char>, Seq<char>>,
    events: Seq<(Seq<char>, Seq<char>)>,
    outputs: Seq<Option<Seq<char>>>,
) -> (HistoryModel, Seq<Seq<char>>)
    decreases events.len(),
{
    if events.len() == 0 {
        (h, seq![])
    } else {
        let before = run(h, mirror, topo, events.drop_last(), outputs);
        let last = step(before.0, mirror, topo, events.last(), outputs);
        (last.0, before.1 + last.1)
    }
}

/// While `n` events of our own are expected, any `k <= n` events are each
/// suppressed without reaching the decision: nothing is switched to, nothing
/// parked changes, and `n - k` remain to be suppressed.
pub proof fn lemma_suppressed_run(
    h: HistoryModel,
    mirror: Seq<char>,
    topo: Map<Seq<char>, Seq<char>>,
    events: Seq<(Seq<char>, Seq<char>)>,
    outputs: Seq<Option<Seq<char>>>,
)
    requires
        events.len() <= h.suppress_count,
    ensures
        run(h, mirror, topo, events, outputs) == (
        HistoryModel { parked: h.parked, suppress_count: (h.suppress_count - events.len()) as nat },
        Seq::<Seq<char>>::empty(),
        ),
        forall|k: int|
            0 <= k < events.len() ==> (#[trigger] decide(
                run(h, mirror, topo, events.take(k), outputs).0,
                mirror,
                topo,
                events[k].0,
                events[k].1,
            )).1 is Suppressed,
    decreases events.len(),
{
    if events.len() > 0 {
        let init = events.drop_last();
        lemma_suppressed_run(h, mirror, topo, init, outputs);
        assert(run(h, mirror, topo, events, outputs).1 =~= Seq::<Seq<char>>::empty());
        assert forall|k: int| 0 <= k < events.len() implies (#[trigger] decide(
            run(h, mirror, topo, events.take(k), outputs).0,
            mirror,
            topo,
            events[k].0,
            events[k].1,
        )).1 is Suppressed by {
            if k < init.len() {
                assert(init.take(k) == events.take(k));
                assert(init[k] == events[k]);
            } else {
                assert(init == events.take(k));
            }
        }
    }
}

/// Suppression is exact: an event handled while nothing is to be suppressed
/// that switches to `n` workspaces (other than the toggle back from the mirror, which the window
/// manager's own history drives) leaves exactly `n` events to suppress. The
/// next `n` events are then each suppressed, and after them none remains.
pub proof fn lemma_suppression_exact(
    h: HistoryModel,
    mirror: Seq<char>,
    topo: Map<Seq<char>, Seq<char>>,
    event: (Seq<char>, Seq<char>),
    outputs: Seq<Option<Seq<char>>>,
    later: Seq<(Seq<char>, Seq<char>)>,
)
    requires
        h.suppress_count == 0,
        !(event.0 == mirror && h.parked is Some),
        later.len() == step(h, mirror, topo, event, outputs).1.len(),
    ensures
        step(h, mirror, topo, event, outputs).0.suppress_count == later.len(),
        run(step(h, mirror, topo, event, outputs).0, mirror, topo, later, outputs) == (
        HistoryModel {
            parked: step(h, mirror, topo, event, outputs).0.parked,
            suppress_count: 0,
        },
        Seq::<Seq<char>>::empty(),
        ),
        forall|k: int|
            0 <= k < later.len() ==> (#[trigger] decide(
                run(step(h, mirror, topo, event, outputs).0, mirror, topo, later.take(k), outputs).0,
                mirror,
                topo,
                later[k].0,
                later[k].1,
            )).1 is Suppressed,
{
    lemma_suppressed_run(step(h, mirror, topo, event, outputs).0, mirror, topo, later, outputs);
}

/// Parking undoes itself: from nothing parked, arriving on the mirror from
/// `prev`, then the events of our own, then going to `prev` itself leaves
/// nothing parked, provided `prev` is the mirror or shares its output.
pub proof fn lemma_parking_returns(
    h: HistoryModel,
    mirror: Seq<char>,
    topo: Map<Seq<char>, Seq<char>>,
    prev: Seq<char>,
    outputs: Seq<Option<Seq<char>>>,
    ours: Seq<(Seq<char>, Seq<char>)>,
    before_back: Seq<char>,
)
    requires
        h.parked is None,
        h.suppress_count == 0,
        prev == mirror || output_in(topo, prev) == output_in(topo, mirror),
        ours.len() == step(h, mirror, topo, (mirror, prev), outputs).0.suppress_count,
    ensures
        ({
            let s1 = step(h, mirror, topo, (mirror, prev), outputs).0;
            let s2 = run(s1, mirror, topo, ours, outputs).0;
            step(s2, mirror, topo, (prev, before_back), outputs).0.parked is None
        }),
{
    let s1 = step(h, mirror, topo, (mirror, prev), outputs).0;
    lemma_suppressed_run(s1, mirror, topo, ours, outputs);
}

/// With a single output there is no secondary monitor: arriving on the
/// mirror with nothing parked switches nowhere and changes nothing.
pub proof fn lemma_single_output_no_op(
    h: HistoryModel,
    mirror: Seq<char>,
    topo: Map<Seq<char>, Seq<char>>,
    prev: Seq<char>,
    outputs: Seq<Option<Seq<char>>>,
)
    requires
        h.parked is None,
        h.suppress_count == 0,
        outputs.len() == 1,
    ensures
        step(h, mirror, topo, (mirror, prev), outputs) == (h, Seq::<Seq<char>>::empty()),
{
}

/// The pass-through: going straight to `cur` on the mirror's output while
/// something is parked switches to the mirror first and then to `cur`,
/// expects exactly those two events back, and clears what was parked.
pub proof fn lemma_pass_through_order(
    h: HistoryModel,
    mirror: Seq<char>,
    topo: Map<Seq<char>, Seq<char>>,
    cur: Seq<char>,
    prev: Seq<char>,
    outputs: Seq<Option<Seq<char>>>,
)
    requires
        h.suppress_count == 0,
        h.parked is Some,
        cur != mirror,
        output_in(topo, cur) == output_in(topo, mirror),
    ensures
        step(h, mirror, topo, (cur, prev), outputs) == (
        HistoryModel { parked: None, suppress_count: 2 },
        seq![mirror, cur],
        ),
{
}

} // verus!
