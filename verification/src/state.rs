//! The load-phase gate: a machine that only moves forward, with the handlers
//! that run when a phase is entered and the callbacks that run each frame
//! while it lasts.

use vstd::prelude::*;

verus! {

/// The coarse phase that decides which per-frame logic may run.
#[derive(Clone, Copy, Debug, PartialEq, Eq, Hash, Structural)]
pub enum LoadState {
    /// Assets are still being fetched; nothing of the scene exists yet.
    Loading,
    /// Every requested asset is resolvable.
    Ready,
    /// The game proper is running.
    InGame,
}

impl LoadState {
    /// Position of the phase in the fixed order `Loading < Ready < InGame`.
    pub open spec fn rank(self) -> nat {
        match self {
            LoadState::Loading => 0,
            LoadState::Ready => 1,
            LoadState::InGame => 2,
        }
    }

    /// Whether `next` is the phase that directly follows `self`.
    pub open spec fn followed_by(self, next: LoadState) -> bool {
        next.rank() == self.rank() + 1
    }

    /// The name of the phase.
    pub open spec fn name_text(self) -> Seq<char> {
        match self {
            LoadState::Loading => "Loading"@,
            LoadState::Ready => "Ready"@,
            LoadState::InGame => "InGame"@,
        }
    }

    /// The name of the phase.
    pub fn name(self) -> (name: &'static str)
        ensures
            name@ == self.name_text(),
    {
        match self {
            LoadState::Loading => "Loading",
            LoadState::Ready => "Ready",
            LoadState::InGame => "InGame",
        }
    }

    /// Decides whether `next` directly follows `self` in the forward order.
    pub fn precedes(self, next: LoadState) -> (b: bool)
        ensures
            b == self.followed_by(next),
    {
        match (self, next) {
            (LoadState::Loading, LoadState::Ready) => true,
            (LoadState::Ready, LoadState::InGame) => true,
            _ => false,
        }
    }
}

/// One run of an enter-handler: which handler, for the entry into which phase.
#[derive(Clone, Copy, Debug, PartialEq, Eq, Hash)]
pub struct Dispatch<H> {
    pub state: LoadState,
    pub handler: H,
}

/// The warning that a refused transition comes with: `to` does not directly
/// follow `from`. The machine is as it was; the host may log the warning.
#[derive(Clone, Copy, Debug, PartialEq, Eq, Hash, Structural)]
pub struct TransitionWarning {
    pub from: LoadState,
    pub to: LoadState,
}

impl TransitionWarning {
    /// The text of the warning.
    pub open spec fn text(self) -> Seq<char> {
        "refused the transition from "@ + self.from.name_text() + " to "@ + self.to.name_text()
    }

    /// The warning as a line for the host's log.
    pub fn message(&self) -> (message: String)
        ensures
            message@ == self.text(),
    {
        let mut message: String = String::from_str("refused the transition from ");
        message.append(self.from.name());
        message.append(" to ");
        message.append(self.to.name());
        message
    }
}

/// What a machine holds, as mathematical sequences.
pub struct MachineView<H> {
    pub current: LoadState,
    /// Handlers to run on entering `Ready`, in the order of their registration.
    pub enter_ready: Seq<H>,
    /// Handlers to run on entering `InGame`, in the order of their registration.
    pub enter_in_game: Seq<H>,
    /// Callbacks to run each frame while in `Ready`.
    pub frame_ready: Seq<H>,
    /// Callbacks to run each frame while in `InGame`.
    pub frame_in_game: Seq<H>,
    /// Every run of an enter-handler so far, oldest first.
    pub fired: Seq<Dispatch<H>>,
}

impl<H> MachineView<H> {
    /// The machine before anything was registered: in `Loading`, nothing fired.
    pub open spec fn initial() -> MachineView<H> {
        MachineView {
            current: LoadState::Loading,
            enter_ready: Seq::empty(),
            enter_in_game: Seq::empty(),
            frame_ready: Seq::empty(),
            frame_in_game: Seq::empty(),
            fired: Seq::empty(),
        }
    }

    /// The handlers registered for the entry into `state`. `Loading` is never
    /// entered, so it has none.
    pub open spec fn enter_handlers(self, state: LoadState) -> Seq<H> {
        match state {
            LoadState::Loading => Seq::empty(),
            LoadState::Ready => self.enter_ready,
            LoadState::InGame => self.enter_in_game,
        }
    }

    /// The callbacks registered for the frames spent in `state`. Nothing runs
    /// per frame during `Loading`.
    pub open spec fn frame_callbacks(self, state: LoadState) -> Seq<H> {
        match state {
            LoadState::Loading => Seq::empty(),
            LoadState::Ready => self.frame_ready,
            LoadState::InGame => self.frame_in_game,
        }
    }

    /// The runs that the entry into `state` consists of: each of its handlers
    /// once, in the order of registration.
    pub open spec fn dispatches(self, state: LoadState) -> Seq<Dispatch<H>> {
        Seq::new(
            self.enter_handlers(state).len(),
            |i: int| Dispatch { state, handler: self.enter_handlers(state)[i] },
        )
    }

    /// The runs that have happened by the time the machine is in `state`: those
    /// of every phase entered on the way, in the order of the phases.
    pub open spec fn trace_up_to(self, state: LoadState) -> Seq<Dispatch<H>> {
        match state {
            LoadState::Loading => Seq::empty(),
            LoadState::Ready => self.dispatches(LoadState::Ready),
            LoadState::InGame => self.dispatches(LoadState::Ready) + self.dispatches(
                LoadState::InGame,
            ),
        }
    }

    /// A machine is well formed when what has fired is exactly what the phases
    /// entered so far call for.
    pub open spec fn wf(self) -> bool {
        self.fired == self.trace_up_to(self.current)
    }

    /// Whether registrations are still taken: until the first transition.
    pub open spec fn open_for_registration(self, state: LoadState) -> bool {
        self.current == LoadState::Loading && state != LoadState::Loading
    }

    /// The machine after `handler` has been registered for the entry into `state`.
    pub open spec fn with_enter(self, state: LoadState, handler: H) -> MachineView<H> {
        match state {
            LoadState::Loading => self,
            LoadState::Ready => MachineView { enter_ready: self.enter_ready.push(handler), ..self },
            LoadState::InGame => MachineView {
                enter_in_game: self.enter_in_game.push(handler),
                ..self
            },
        }
    }

    /// The machine after `callback` has been registered for the frames in `state`.
    pub open spec fn with_frame(self, state: LoadState, callback: H) -> MachineView<H> {
        match state {
            LoadState::Loading => self,
            LoadState::Ready => MachineView { frame_ready: self.frame_ready.push(callback), ..self },
            LoadState::InGame => MachineView {
                frame_in_game: self.frame_in_game.push(callback),
                ..self
            },
        }
    }

    /// The machine after a transition to `next` was asked for: entered, with
    /// its handlers fired, where `next` directly follows the current phase;
    /// unchanged where it does not.
    pub open spec fn step(self, next: LoadState) -> MachineView<H> {
        if self.current.followed_by(next) {
            MachineView { current: next, fired: self.fired + self.dispatches(next), ..self }
        } else {
            self
        }
    }

    /// The machine after the transitions `attempts` were asked for, one after another.
    pub open spec fn run(self, attempts: Seq<LoadState>) -> MachineView<H>
        decreases attempts.len(),
    {
        if attempts.len() == 0 {
            self
        } else {
            self.run(attempts.drop_last()).step(attempts.last())
        }
    }

    /// Run through the phases in order, from a machine that has not left
    /// `Loading`, each enter-handler fires exactly once: the log holds the
    /// handlers of `Ready` in the order of their registration, then those of
    /// `InGame` in theirs, and nothing else.
    pub proof fn lemma_forward_sequence(self)
        requires
            self.current == LoadState::Loading,
            self.wf(),
        ensures
            ({
                let end = self.step(LoadState::Ready).step(LoadState::InGame);
                &&& end.current == LoadState::InGame
                &&& end.wf()
                &&& end.fired == self.dispatches(LoadState::Ready) + self.dispatches(
                    LoadState::InGame,
                )
                &&& end.fired.len() == self.enter_ready.len() + self.enter_in_game.len()
                &&& forall|i: int|
                    0 <= i < self.enter_ready.len() ==> #[trigger] end.fired[i] == (Dispatch {
                        state: LoadState::Ready,
                        handler: self.enter_ready[i],
                    })
                &&& forall|j: int|
                    0 <= j < self.enter_in_game.len() ==> #[trigger] end.fired[self.enter_ready.len()
                        + j] == (Dispatch { state: LoadState::InGame, handler: self.enter_in_game[j] })
            }),
    {
        let mid = self.step(LoadState::Ready);
        let end = mid.step(LoadState::InGame);
        assert(self.fired =~= Seq::<Dispatch<H>>::empty());
        assert(mid.fired =~= self.dispatches(LoadState::Ready));
        assert(mid.dispatches(LoadState::InGame) =~= self.dispatches(LoadState::InGame));
        assert(end.fired =~= self.dispatches(LoadState::Ready) + self.dispatches(LoadState::InGame));
    }

    /// A transition that does not lead to the directly following phase leaves
    /// the machine as it was: a step back, the phase at hand again, or a phase
    /// skipped.
    pub proof fn lemma_refused_transition(self, next: LoadState)
        requires
            next.rank() <= self.current.rank() || next.rank() > self.current.rank() + 1,
        ensures
            !self.current.followed_by(next),
            self.step(next) == self,
    {
    }

    /// Whatever transitions are asked for, in whatever order: the machine stays
    /// well formed, its registrations stay as they were, it never moves back,
    /// and no handler has fired for a phase that was not entered.
    pub proof fn lemma_any_sequence(self, attempts: Seq<LoadState>)
        requires
            self.wf(),
        ensures
            ({
                let end = self.run(attempts);
                &&& end.wf()
                &&& end.enter_ready == self.enter_ready
                &&& end.enter_in_game == self.enter_in_game
                &&& end.frame_ready == self.frame_ready
                &&& end.frame_in_game == self.frame_in_game
                &&& end.current.rank() >= self.current.rank()
                &&& forall|k: int|
                    0 <= k < end.fired.len() ==> 1 <= (#[trigger] end.fired[k]).state.rank()
                        <= end.current.rank()
            }),
        decreases attempts.len(),
    {
        if attempts.len() > 0 {
            let before = self.run(attempts.drop_last());
            self.lemma_any_sequence(attempts.drop_last());
            let end = before.step(attempts.last());
            if before.current.followed_by(attempts.last()) {
                assert(end.fired =~= end.trace_up_to(end.current));
            }
        }
    }
}

/// The state machine of the bootstrap. `H` names the handlers and callbacks;
/// the machine decides which of them run and when, the caller runs them.
#[derive(Clone, Debug)]
pub struct StateMachine<H> {
    current: LoadState,
    enter_ready: Vec<H>,
    enter_in_game: Vec<H>,
    frame_ready: Vec<H>,
    frame_in_game: Vec<H>,
    fired: Vec<Dispatch<H>>,
}

impl<H> View for StateMachine<H> {
    type V = MachineView<H>;

    closed spec fn view(&self) -> MachineView<H> {
        MachineView {
            current: self.current,
            enter_ready: self.enter_ready@,
            enter_in_game: self.enter_in_game@,
            frame_ready: self.frame_ready@,
            frame_in_game: self.frame_in_game@,
            fired: self.fired@,
        }
    }
}

/// Copies a list of handlers.
fn copy_handlers<H: Copy>(handlers: &Vec<H>) -> (copy: Vec<H>)
    ensures
        copy@ == handlers@,
{
    let mut copy: Vec<H> = Vec::new();
    let mut i: usize = 0;
    while i < handlers.len()
        invariant
            i <= handlers@.len(),
            copy@ == handlers@.take(i as int),
        decreases handlers@.len() - i,
    {
        copy.push(handlers[i]);
        i += 1;
        assert(copy@ =~= handlers@.take(i as int));
    }
    assert(handlers@.take(handlers@.len() as int) =~= handlers@);
    copy
}

impl<H: Copy> StateMachine<H> {
    /// A machine in `Loading`, with nothing registered and nothing fired.
    pub fn new() -> (machine: StateMachine<H>)
        ensures
            machine@ == MachineView::<H>::initial(),
            machine@.wf(),
    {
        StateMachine {
            current: LoadState::Loading,
            enter_ready: Vec::new(),
            enter_in_game: Vec::new(),
            frame_ready: Vec::new(),
            frame_in_game: Vec::new(),
            fired: Vec::new(),
        }
    }

    /// The phase that the machine is in.
    pub fn current_state(&self) -> (state: LoadState)
        ensures
            state == self@.current,
    {
        self.current
    }

    /// Registers `handler` to run when `state` is entered, after the handlers
    /// registered for it before.
    ///
    /// Registrations are taken until the first transition, and for every phase
    /// but `Loading`, which is never entered. A registration that is not taken
    /// changes nothing; the result says whether it was taken.
    pub fn on_enter(&mut self, state: LoadState, handler: H) -> (taken: bool)
        requires
            old(self)@.wf(),
        ensures
            taken == old(self)@.open_for_registration(state),
            taken ==> final(self)@ == old(self)@.with_enter(state, handler),
            !taken ==> final(self)@ == old(self)@,
            final(self)@.wf(),
    {
        match (self.current, state) {
            (LoadState::Loading, LoadState::Ready) => {
                self.enter_ready.push(handler);
                true
            },
            (LoadState::Loading, LoadState::InGame) => {
                self.enter_in_game.push(handler);
                true
            },
            _ => false,
        }
    }

    /// Registers `callback` to run each frame while the machine is in `state`,
    /// after the callbacks registered for it before.
    ///
    /// Registrations are taken until the first transition, and for every phase
    /// but `Loading`, during which nothing runs per frame. A registration that
    /// is not taken changes nothing; the result says whether it was taken.
    pub fn on_frame(&mut self, state: LoadState, callback: H) -> (taken: bool)
        requires
            old(self)@.wf(),
        ensures
            taken == old(self)@.open_for_registration(state),
            taken ==> final(self)@ == old(self)@.with_frame(state, callback),
            !taken ==> final(self)@ == old(self)@,
            final(self)@.wf(),
    {
        match (self.current, state) {
            (LoadState::Loading, LoadState::Ready) => {
                self.frame_ready.push(callback);
                true
            },
            (LoadState::Loading, LoadState::InGame) => {
                self.frame_in_game.push(callback);
                true
            },
            _ => false,
        }
    }

    /// Asks for the transition to `next`.
    ///
    /// Where `next` directly follows the current phase, the machine enters it,
    /// records one run of each handler registered for it, and returns those
    /// handlers in the order of registration, for the caller to run before it
    /// does anything else. Otherwise (a step back, a phase skipped, the phase
    /// the machine is in) nothing changes and the result is the warning.
    pub fn transition_to(&mut self, next: LoadState) -> (outcome: Result<Vec<H>, TransitionWarning>)
        requires
            old(self)@.wf(),
        ensures
            final(self)@ == old(self)@.step(next),
            final(self)@.wf(),
            match outcome {
                Ok(handlers) => old(self)@.current.followed_by(next) && handlers@ == old(
                    self,
                )@.enter_handlers(next),
                Err(warning) => !old(self)@.current.followed_by(next) && warning
                    == (TransitionWarning { from: old(self)@.current, to: next }) && final(self)@
                    == old(self)@,
            },
    {
        if !self.current.precedes(next) {
            return Err(TransitionWarning { from: self.current, to: next });
        }
        let handlers: Vec<H> = match next {
            LoadState::InGame => copy_handlers(&self.enter_in_game),
            _ => copy_handlers(&self.enter_ready),
        };
        let ghost before = self@;
        let mut i: usize = 0;
        while i < handlers.len()
            invariant
                i <= handlers@.len(),
                handlers@ == before.enter_handlers(next),
                self@ == (MachineView {
                    fired: before.fired + before.dispatches(next).take(i as int),
                    ..before
                }),
            decreases handlers@.len() - i,
        {
            self.fired.push(Dispatch { state: next, handler: handlers[i] });
            i += 1;
            assert(self@.fired =~= before.fired + before.dispatches(next).take(i as int));
        }
        self.current = next;
        proof {
            assert(before.dispatches(next).take(handlers@.len() as int) =~= before.dispatches(next));
            assert(self@.fired =~= self@.trace_up_to(next));
        }
        Ok(handlers)
    }

    /// The callbacks to run in this frame: those registered for the current
    /// phase, in the order of registration. During `Loading` there are none.
    pub fn frame_callbacks(&self) -> (callbacks: Vec<H>)
        ensures
            callbacks@ == self@.frame_callbacks(self@.current),
            self@.current == LoadState::Loading ==> callbacks@.len() == 0,
    {
        match self.current {
            LoadState::Loading => Vec::new(),
            LoadState::Ready => copy_handlers(&self.frame_ready),
            LoadState::InGame => copy_handlers(&self.frame_in_game),
        }
    }

    /// Every run of an enter-handler so far, oldest first.
    pub fn fired(&self) -> (log: Vec<Dispatch<H>>)
        ensures
            log@ == self@.fired,
    {
        let mut log: Vec<Dispatch<H>> = Vec::new();
        let mut i: usize = 0;
        while i < self.fired.len()
            invariant
                i <= self.fired@.len(),
                self@.fired == self.fired@,
                log@ == self.fired@.take(i as int),
            decreases self.fired@.len() - i,
        {
            let entry = &self.fired[i];
            log.push(Dispatch { state: entry.state, handler: entry.handler });
            i += 1;
            assert(log@ =~= self.fired@.take(i as int));
        }
        assert(self.fired@.take(self.fired@.len() as int) =~= self.fired@);
        log
    }
}

} // verus!
