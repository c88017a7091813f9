//! The application state machine: Preload, then Preprocessing, then Running.
use vstd::prelude::*;
use crate::maps::MapPreprocessor;

verus! {

/// The stages of the application, in the order they are entered.
#[derive(Clone, Copy, Debug, PartialEq, Eq, Structural)]
pub enum AppState {
    Preload,
    Preprocessing,
    Running,
}

/// Every stage, in order: each run passes through a prefix of this.
pub open spec fn full_run() -> Seq<AppState> {
    seq![AppState::Preload, AppState::Preprocessing, AppState::Running]
}

/// The stage after `s`; Running is final.
pub open spec fn next_state(s: AppState) -> AppState {
    match s {
        AppState::Preload => AppState::Preprocessing,
        AppState::Preprocessing => AppState::Running,
        AppState::Running => AppState::Running,
    }
}

/// The current stage, with the stages entered so far as a ghost record.
pub struct StateMachine {
    pub state: AppState,
    pub visited: Ghost<Seq<AppState>>,
}

impl StateMachine {
    /// The stages entered so far are a nonempty prefix of `full_run()` that
    /// ends with the current stage.
    pub open spec fn wf(&self) -> bool {
        &&& 1 <= self.visited@.len() <= 3
        &&& self.visited@ == full_run().take(self.visited@.len() as int)
        &&& self.visited@.last() == self.state
    }

    /// The machine at Preload.
    pub fn new() -> (r: Self)
        ensures
            r.wf(),
            r.state == AppState::Preload,
            r.visited@ == seq![AppState::Preload],
    {
        let ghost start = seq![AppState::Preload];
        let r = StateMachine { state: AppState::Preload, visited: Ghost(start) };
        assert(r.visited@ =~= full_run().take(1));
        r
    }

    /// The current stage.
    pub fn current_state(&self) -> (r: AppState)
        ensures
            r == self.state,
    {
        self.state
    }

    /// Moves to the next stage; Running stays Running.
    pub fn advance(&mut self)
        requires
            old(self).wf(),
        ensures
            final(self).wf(),
            final(self).state == next_state(old(self).state),
            final(self).visited@ == if old(self).state == AppState::Running {
                old(self).visited@
            } else {
                old(self).visited@.push(next_state(old(self).state))
            },
    {
        let ghost v = self.visited@;
        match self.state {
            AppState::Preload => {
                self.state = AppState::Preprocessing;
            },
            AppState::Preprocessing => {
                self.state = AppState::Running;
            },
            AppState::Running => {},
        }
        proof {
            if v.last() != AppState::Running {
                let n = v.len() as int;
                assert(n < 3) by {
                    if n == 3 {
                        assert(v.last() == full_run()[2]);
                    }
                }
                assert(v[n - 1] == full_run()[n - 1]);
                self.visited = Ghost(v.push(self.state));
                assert(self.visited@ =~= full_run().take(n + 1));
            }
        }
    }

    /// Called once the loads of both maps have been issued: Preload moves to
    /// Preprocessing; any other stage stays.
    pub fn image_preload(&mut self)
        requires
            old(self).wf(),
        ensures
            final(self).wf(),
            final(self).state == if old(self).state == AppState::Preload {
                AppState::Preprocessing
            } else {
                old(self).state
            },
    {
        if self.state == AppState::Preload {
            self.advance();
        }
    }

    /// Called each frame while preprocessing: Preprocessing moves to Running
    /// once both maps are processed; otherwise the stage stays.
    pub fn image_preprocess(&mut self, maps: &MapPreprocessor)
        requires
            old(self).wf(),
        ensures
            final(self).wf(),
            final(self).state == if old(self).state == AppState::Preprocessing && maps.plain_loaded
                && maps.traffic_loaded {
                AppState::Running
            } else {
                old(self).state
            },
    {
        if self.state == AppState::Preprocessing && maps.is_ready() {
            self.advance();
        }
    }
}

/// The stages entered over any run form a prefix of Preload, Preprocessing,
/// Running: none is repeated and none is skipped.
pub proof fn lemma_run_is_linear(m: StateMachine)
    requires
        m.wf(),
    ensures
        m.visited@.len() <= 3,
        m.visited@[0] == AppState::Preload,
        forall|i: int| 0 <= i < m.visited@.len() - 1 ==> #[trigger] m.visited@[i + 1] == next_state(m.visited@[i]),
        forall|i: int, j: int| 0 <= i < j < m.visited@.len() ==> #[trigger] m.visited@[i] != #[trigger] m.visited@[j],
{
    let v = m.visited@;
    assert(v[0] == full_run()[0]);
    assert forall|i: int| 0 <= i < v.len() - 1 implies #[trigger] v[i + 1] == next_state(v[i]) by {
        assert(v[i] == full_run()[i]);
        assert(v[i + 1] == full_run()[i + 1]);
    }
    assert forall|i: int, j: int| 0 <= i < j < v.len() implies #[trigger] v[i] != #[trigger] v[j] by {
        assert(v[i] == full_run()[i]);
        assert(v[j] == full_run()[j]);
    }
}

} // verus!
