use vstd::prelude::*;
use crate::topology::{output_in, TopologySnapshot};

verus! {

/// A focus change as the window manager reports it: the workspace now
/// focused and the one focused just before.
pub struct FocusEvent {
    pub current: String,
    pub previous: String,
}

/// The redirection state in mathematical terms.
pub struct HistoryModel {
    /// The workspace to return to when the user toggles back to the mirror.
    pub parked: Option<Seq<char>>,
    /// How many coming focus events were caused by this machine's own commands.
    pub suppress_count: nat,
}

/// What the event loop is to do after one focus event.
pub enum Decision {
    /// The event came from one of our own commands: nothing to do.
    Suppressed,
    /// Switch to each of these workspaces, in order.
    Commands(Seq<Seq<char>>),
    /// The user arrived on the mirror: query the outputs and let
    /// `redirect_from_mirror` decide.
    QueryOutputs,
}

/// What the event loop is to do after one focus event.
pub enum Action {
    /// The event came from one of our own commands: nothing to do.
    Suppressed,
    /// Switch to each of these workspaces, in order; possibly none.
    Commands(Vec<String>),
    /// The user arrived on the mirror workspace with nothing parked: query
    /// each output's current workspace and hand the list to
    /// `WorkspaceHistory::redirect_from_mirror`.
    QueryOutputs,
}

pub open spec fn names_view(v: Seq<String>) -> Seq<Seq<char>> {
    v.map_values(|s: String| s@)
}

impl View for Action {
    type V = Decision;

    open spec fn view(&self) -> Decision {
        match self {
            Action::Suppressed => Decision::Suppressed,
            Action::Commands(v) => Decision::Commands(names_view(v@)),
            Action::QueryOutputs => Decision::QueryOutputs,
        }
    }
}

/// The decision taken on the focus event `cur` (previously `prev`), given
/// the mirror workspace and the topology snapshot.
pub open spec fn decide(
    h: HistoryModel,
    mirror: Seq<char>,
    topo: Map<Seq<char>, Seq<char>>,
    cur: Seq<char>,
    prev: Seq<char>,
) -> (HistoryModel, Decision) {
    if h.suppress_count > 0 {
        (HistoryModel { suppress_count: (h.suppress_count - 1) as nat, ..h }, Decision::Suppressed)
    } else if cur == mirror {
        match h.parked {
            Some(p) => (HistoryModel { parked: None, ..h }, Decision::Commands(seq![p])),
            None => (h, Decision::QueryOutputs),
        }
    } else if h.parked is Some && output_in(topo, cur) == output_in(topo, mirror) {
        (HistoryModel { parked: None, suppress_count: 2 }, Decision::Commands(seq![mirror, cur]))
    } else {
        (h, Decision::Commands(seq![]))
    }
}

/// The redirection through the mirror, once the outputs are known: each
/// entry of `outputs` is the workspace an output displays, the secondary
/// output listed last. With no secondary output, or one that displays no
/// workspace, nothing happens.
pub open spec fn redirect(
    h: HistoryModel,
    prev: Seq<char>,
    outputs: Seq<Option<Seq<char>>>,
) -> (HistoryModel, Seq<Seq<char>>) {
    if outputs.len() >= 2 && outputs.last() is Some {
        (
            HistoryModel { parked: Some(prev), suppress_count: h.suppress_count + 1 },
            seq![outputs.last()->Some_0],
        )
    } else {
        (h, seq![])
    }
}

pub open spec fn outputs_view(v: Seq<Option<String>>) -> Seq<Option<Seq<char>>> {
    v.map_values(|o: Option<String>| match o {
        Some(s) => Some(s@),
        None => None,
    })
}

/// The redirection state: what is parked, and how many of our own focus
/// events are still to come.
pub struct WorkspaceHistory {
    pub parked: Option<String>,
    pub suppress_count: u8,
}

impl View for WorkspaceHistory {
    type V = HistoryModel;

    open spec fn view(&self) -> HistoryModel {
        HistoryModel {
            parked: match self.parked {
                Some(p) => Some(p@),
                None => None,
            },
            suppress_count: self.suppress_count as nat,
        }
    }
}

impl WorkspaceHistory {
    /// Nothing parked, nothing to suppress.
    pub fn new() -> (r: WorkspaceHistory)
        ensures
            r@ == (HistoryModel { parked: None, suppress_count: 0 }),
    {
        WorkspaceHistory { parked: None, suppress_count: 0 }
    }

    /// The suppression gate: `false`, and one fewer event to suppress, while
    /// events of our own are still expected; `true` once none is.
    pub fn should_consider(&mut self) -> (r: bool)
        ensures
            r == (old(self).suppress_count == 0),
            final(self).parked == old(self).parked,
            final(self).suppress_count == if r {
                old(self).suppress_count
            } else {
                (old(self).suppress_count - 1) as u8
            },
    {
        if self.suppress_count > 0 {
            self.suppress_count -= 1;
            return false;
        }
        true
    }

    /// Handles one focus event and says what the event loop is to do.
    pub fn handle(
        &mut self,
        mirror: &String,
        topology: &TopologySnapshot,
        event: &FocusEvent,
    ) -> (r: Action)
        ensures
            (final(self)@, r@) == decide(
                old(self)@,
                mirror@,
                topology@,
                event.current@,
                event.previous@,
            ),
    {
        if !self.should_consider() {
            return Action::Suppressed;
        }
        let mut commands: Vec<String> = Vec::new();
        if event.current == *mirror {
            match &self.parked {
                Some(p) => {
                    commands.push(p.clone());
                    self.parked = None;
                },
                None => {
                    return Action::QueryOutputs;
                },
            }
            assert(names_view(commands@) == seq![old(self)@.parked->Some_0]);
        } else if self.parked.is_some() && topology.same_output(&event.current, mirror) {
            self.suppress_count = 2;
            commands.push(mirror.clone());
            commands.push(event.current.clone());
            self.parked = None;
            assert(names_view(commands@) == seq![mirror@, event.current@]);
        } else {
            assert(names_view(commands@) == Seq::<Seq<char>>::empty());
        }
        Action::Commands(commands)
    }

    /// Redirects from the mirror to the workspace that the secondary output
    /// displays. `outputs` holds, for each output in the window manager's
    /// order, the workspace it displays; `prev` is the workspace the user
    /// left for the mirror, parked until they toggle back. Returns the
    /// workspaces to switch to.
    pub fn redirect_from_mirror(
        &mut self,
        prev: &String,
        outputs: &Vec<Option<String>>,
    ) -> (r: Vec<String>)
        requires
            old(self).suppress_count < 255,
        ensures
            (final(self)@, names_view(r@)) == redirect(old(self)@, prev@, outputs_view(outputs@)),
    {
        let mut commands: Vec<String> = Vec::new();
        let n = outputs.len();
        if n < 2 {
            assert(names_view(commands@) == Seq::<Seq<char>>::empty());
            return commands;
        }
        match &outputs[n - 1] {
            Some(ws) => {
                self.suppress_count += 1;
                commands.push(ws.clone());
                self.parked = Some(prev.clone());
                assert(names_view(commands@) == seq![ws@]);
            },
            None => {
                assert(names_view(commands@) == Seq::<Seq<char>>::empty());
            },
        }
        commands
    }
}

} // verus!
