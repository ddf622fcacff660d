//! The bootstrap sequencer: it owns the state machine, the scene registry and
//! the overlay text, builds the scene when the assets are there, and runs the
//! per-frame updaters while the machine lets them.

use crate::controller::{frame_displacement, update_controller, ControllerCommand};
use crate::input::InputState;
use crate::mesh::{MeshAsset, TriMesh};
use crate::overlay::{overlay_line, Diagnostics, DisplayText};
use crate::scene::{
    floor_body, floor_outcome, floor_shape, populate, BodyHandle, ConfigError, MaterialHandle,
    SceneRegistry, SceneView,
};
use crate::state::{LoadState, MachineView, StateMachine, TransitionWarning};
use crate::units::{Displacement, Scalar};
use vstd::prelude::*;

verus! {

/// The pieces of bootstrap logic that the sequencer runs.
#[derive(Clone, Copy, Debug, PartialEq, Eq, Hash, Structural)]
pub enum Callback {
    /// The scene builder.
    BuildScene,
    /// The kinematic controller updater.
    UpdateController,
    /// The diagnostics overlay updater.
    UpdateOverlay,
}

/// Why a transition of the sequencer did not happen.
#[derive(Clone, Copy, Debug, PartialEq, Eq, Hash, Structural)]
pub enum BootstrapError {
    /// The phase asked for does not directly follow the current one. Not fatal:
    /// the host logs the warning and goes on.
    Rejected(TransitionWarning),
    /// The scene cannot be built. Fatal: the host ends the process.
    Config(ConfigError),
}

/// The input of one frame.
#[derive(Clone, Copy, Debug, PartialEq, Eq, Hash, Structural)]
pub struct Frame {
    /// The keys held and the keys that went down.
    pub input: InputState,
    /// Time since the last frame, in millionths of a second.
    pub dt_micros: u32,
    /// The smoothed samples of the diagnostics source.
    pub diagnostics: Diagnostics,
    /// The unsmoothed time of the last frame, shown where no smoothed frame
    /// time is to be had.
    pub delta: Scalar,
}

/// The wiring of the bootstrap: the scene builder runs on the entry into
/// `Ready`; the two updaters run each frame spent in `Ready`, the controller
/// first.
pub open spec fn wiring(current: LoadState) -> MachineView<Callback> {
    let bare = MachineView {
        current,
        enter_ready: seq![Callback::BuildScene],
        enter_in_game: Seq::empty(),
        frame_ready: seq![Callback::UpdateController, Callback::UpdateOverlay],
        frame_in_game: Seq::empty(),
        fired: Seq::empty(),
    };
    MachineView { fired: bare.trace_up_to(current), ..bare }
}

/// Position of the character among the bodies of the scene.
pub open spec fn character_index() -> int {
    3
}

/// What a sequencer holds.
pub struct SequencerView {
    pub state: LoadState,
    /// The floor's collision shape, once the scene has been built.
    pub floor: Option<TriMesh>,
    pub scene: SceneView,
    pub overlay: Seq<char>,
}

impl SequencerView {
    /// A sequencer is well formed when its scene is empty for as long as it is
    /// in `Loading`, and from then on is the scene as it was built around the
    /// floor shape, but for the pending displacement of the character.
    pub open spec fn wf(self) -> bool {
        match self.floor {
            None => self.state == LoadState::Loading && self.scene == SceneView::empty(),
            Some(shape) => self.state != LoadState::Loading && shape.wf()
                && self.scene.bodies.len() == 4 && self.scene == SceneView::empty().populated(
                shape,
            ).with_pending(character_index(), self.scene.bodies[character_index()].pending),
        }
    }

    /// The sequencer after a transition to `next` was asked for, the asset
    /// pipeline having resolved the floor mesh to `floor`.
    ///
    /// A transition out of order changes nothing. On the entry into `Ready`
    /// the scene builder runs: where it cannot build, nothing changes either.
    pub open spec fn step(self, next: LoadState, floor: Option<MeshAsset>) -> SequencerView {
        if !self.state.followed_by(next) {
            self
        } else if next == LoadState::Ready {
            match floor_outcome(floor) {
                Ok(shape) => SequencerView {
                    state: next,
                    floor: Some(shape),
                    scene: self.scene.populated(shape),
                    ..self
                },
                Err(_) => self,
            }
        } else {
            SequencerView { state: next, ..self }
        }
    }

    /// What asking for the transition to `next` returns.
    pub open spec fn step_outcome(self, next: LoadState, floor: Option<MeshAsset>) -> Result<
        (),
        BootstrapError,
    > {
        if !self.state.followed_by(next) {
            Err(BootstrapError::Rejected(TransitionWarning { from: self.state, to: next }))
        } else if next == LoadState::Ready {
            match floor_outcome(floor) {
                Ok(_) => Ok(()),
                Err(e) => Err(BootstrapError::Config(e)),
            }
        } else {
            Ok(())
        }
    }

    /// Whether the per-frame updaters run in the current phase.
    pub open spec fn gated_in(self) -> bool {
        self.state == LoadState::Ready
    }

    /// The sequencer after the frame `frame`: while the updaters are gated in,
    /// the character's pending displacement and the overlay text are rewritten;
    /// otherwise nothing changes.
    pub open spec fn after_frame(self, frame: Frame) -> SequencerView {
        if self.gated_in() {
            SequencerView {
                scene: self.scene.with_pending(
                    character_index(),
                    Some(frame_command(frame).displacement),
                ),
                overlay: overlay_line(frame.diagnostics, frame.delta),
                ..self
            }
        } else {
            self
        }
    }

    /// Whether the body at `i` is the floor that the scene was built around.
    pub open spec fn is_floor(self, i: int) -> bool {
        0 <= i < self.scene.bodies.len() && self.scene.bodies[i] == floor_body(
            self.floor->0,
            MaterialHandle { index: 0 },
        )
    }

    /// However often the completion signal arrives, and whatever else is asked
    /// for in between, a well-formed sequencer stays well formed: its scene is
    /// built at most once.
    pub proof fn lemma_step_preserves_wf(self, next: LoadState, floor: Option<MeshAsset>)
        requires
            self.wf(),
        ensures
            self.step(next, floor).wf(),
            self.step(next, floor).state.rank() >= self.state.rank(),
    {
        let after = self.step(next, floor);
        if self.state.followed_by(next) && next == LoadState::Ready {
            match floor_outcome(floor) {
                Ok(shape) => {
                    floor->0.lemma_shape();
                    let built = SceneView::empty().populated(shape);
                    assert(after.scene == built);
                    assert(built.bodies.len() == 4);
                    assert(built.with_pending(character_index(), built.bodies[character_index()].pending).bodies
                        =~= built.bodies);
                },
                Err(_) => {},
            }
        }
    }

    /// A completion signal that arrives again, after the scene has been built,
    /// changes nothing: the floor is not spawned a second time, whatever mesh
    /// comes with the signal.
    pub proof fn lemma_duplicate_signal(self, floor: Option<MeshAsset>)
        requires
            self.wf(),
            self.state != LoadState::Loading,
        ensures
            self.step(LoadState::Ready, floor) == self,
            self.step_outcome(LoadState::Ready, floor) == Err::<(), BootstrapError>(
                BootstrapError::Rejected(
                    TransitionWarning { from: self.state, to: LoadState::Ready },
                ),
            ),
    {
    }

    /// Two completion signals in a row, from the start: the second leaves the
    /// scene that the first has built, with its one floor.
    pub proof fn lemma_signal_twice(self, first: Option<MeshAsset>, second: Option<MeshAsset>)
        requires
            self.wf(),
            self.state == LoadState::Loading,
            floor_outcome(first) is Ok,
        ensures
            self.step(LoadState::Ready, first).step(LoadState::Ready, second) == self.step(
                LoadState::Ready,
                first,
            ),
            self.step(LoadState::Ready, first).scene == SceneView::empty().populated(
                floor_outcome(first)->Ok_0,
            ),
    {
    }

    /// A well-formed sequencer with a scene holds exactly one floor and
    /// exactly one kinematically controlled body, the character.
    pub proof fn lemma_scene_census(self)
        requires
            self.wf(),
            self.state != LoadState::Loading,
        ensures
            self.scene.sole_controlled(character_index()),
            self.scene.has_sole_controlled(),
            self.scene.controlled_index() == character_index(),
            self.is_floor(0),
            forall|i: int| self.is_floor(i) ==> i == 0,
    {
        let shape = self.floor->0;
        let built = SceneView::empty().populated(shape);
        assert(self.scene.bodies[0] == built.bodies[0]);
        assert(self.scene.bodies[1] == built.bodies[1]);
        assert(self.scene.bodies[2] == built.bodies[2]);
        assert(self.scene.bodies[3].kind == built.bodies[3].kind);
        assert(self.scene.controlled_at(character_index()));
        assert forall|j: int| self.scene.controlled_at(j) implies j == character_index() by {
            if j == 0 {
            } else if j == 1 {
            } else if j == 2 {
            }
        }
        assert(self.scene.sole_controlled(character_index()));
        let chosen = self.scene.controlled_index();
        assert(self.scene.sole_controlled(chosen));
    }

    /// While the sequencer is in `Loading`, a frame changes nothing: neither
    /// updater runs before the assets are there.
    pub proof fn lemma_no_update_while_loading(self, frame: Frame)
        requires
            self.state == LoadState::Loading,
        ensures
            self.after_frame(frame) == self,
    {
    }
}

/// The command that the controller updater makes of a frame.
pub open spec fn frame_command(frame: Frame) -> ControllerCommand {
    let d = frame_displacement(frame.input, frame.dt_micros as int, 0);
    ControllerCommand { displacement: Displacement { x: d.0 as i128, y: d.1 as i128, z: d.2 as i128 } }
}

/// The bootstrap sequencer.
#[derive(Clone, Debug)]
pub struct Sequencer {
    machine: StateMachine<Callback>,
    floor: Option<TriMesh>,
    registry: SceneRegistry,
    overlay: DisplayText,
}

impl View for Sequencer {
    type V = SequencerView;

    closed spec fn view(&self) -> SequencerView {
        SequencerView {
            state: self.machine@.current,
            floor: self.floor,
            scene: self.registry@,
            overlay: self.overlay@,
        }
    }
}

impl Sequencer {
    /// The machine is wired as the bootstrap asks, and what the sequencer holds
    /// is well formed.
    pub closed spec fn wf(&self) -> bool {
        &&& self.machine@ == wiring(self.machine@.current)
        &&& self@.wf()
    }

    /// Well-formedness of the sequencer includes that of what it holds.
    pub proof fn lemma_wf(&self)
        requires
            self.wf(),
        ensures
            self@.wf(),
    {
    }

    /// A sequencer at the start of the process: in `Loading`, with an empty
    /// scene and the overlay showing its label.
    pub fn new() -> (sequencer: Sequencer)
        ensures
            sequencer.wf(),
            sequencer@ == (SequencerView {
                state: LoadState::Loading,
                floor: None,
                scene: SceneView::empty(),
                overlay: "This text changes in the bottom right"@,
            }),
    {
        let mut machine: StateMachine<Callback> = StateMachine::new();
        machine.on_enter(LoadState::Ready, Callback::BuildScene);
        machine.on_frame(LoadState::Ready, Callback::UpdateController);
        machine.on_frame(LoadState::Ready, Callback::UpdateOverlay);
        proof {
            let w = wiring(LoadState::Loading);
            assert(machine@.enter_ready =~= w.enter_ready);
            assert(machine@.frame_ready =~= w.frame_ready);
            assert(machine@.fired =~= w.fired);
        }
        Sequencer { machine, floor: None, registry: SceneRegistry::new(), overlay: DisplayText::new() }
    }

    /// The phase that the sequencer is in.
    pub fn current_state(&self) -> (state: LoadState)
        ensures
            state == self@.state,
    {
        self.machine.current_state()
    }

    /// The scene.
    pub fn registry(&self) -> (registry: &SceneRegistry)
        ensures
            registry@ == self@.scene,
    {
        &self.registry
    }

    /// The overlay text.
    pub fn overlay(&self) -> (text: &DisplayText)
        ensures
            text@ == self@.overlay,
    {
        &self.overlay
    }

    /// Asks for the transition to `next`; `floor` is the floor mesh as far as
    /// the asset pipeline has resolved it.
    ///
    /// A phase that does not directly follow the current one is refused with
    /// the warning. On the entry into `Ready` the scene builder runs before
    /// the call returns; where the floor mesh is unresolved or yields no
    /// collision shape, the result is the configuration error. Whenever the
    /// result is an error, the sequencer is as it was.
    pub fn transition_to(&mut self, next: LoadState, floor: Option<&MeshAsset>) -> (outcome: Result<
        (),
        BootstrapError,
    >)
        requires
            old(self).wf(),
        ensures
            final(self).wf(),
            final(self)@ == old(self)@.step(
                next,
                match floor {
                    Some(mesh) => Some(*mesh),
                    None => None,
                },
            ),
            outcome == old(self)@.step_outcome(
                next,
                match floor {
                    Some(mesh) => Some(*mesh),
                    None => None,
                },
            ),
            outcome is Err ==> final(self)@ == old(self)@,
    {
        let current: LoadState = self.machine.current_state();
        if !current.precedes(next) {
            return Err(BootstrapError::Rejected(TransitionWarning { from: current, to: next }));
        }
        let shape: Option<TriMesh> = match next {
            LoadState::Ready => match floor_shape(floor) {
                Ok(shape) => Some(shape),
                Err(e) => {
                    return Err(BootstrapError::Config(e));
                },
            },
            _ => None,
        };
        let ghost spec_floor: Option<MeshAsset> = match floor {
            Some(mesh) => Some(*mesh),
            None => None,
        };
        let ghost before = self@;
        proof {
            assert(wiring(current).wf());
        }
        let handlers: Vec<Callback> = match self.machine.transition_to(next) {
            Ok(handlers) => handlers,
            Err(_) => Vec::new(),
        };
        proof {
            assert(self.machine@.fired =~= wiring(next).fired);
            assert(self.machine@ == wiring(next));
        }
        let mut i: usize = 0;
        while i < handlers.len()
            invariant
                i <= handlers@.len(),
                handlers@ == wiring(current).enter_handlers(next),
                current.followed_by(next),
                next == LoadState::Ready ==> shape is Some && floor_outcome(spec_floor) == Ok::<
                    TriMesh,
                    ConfigError,
                >(shape->0),
                self.machine@ == wiring(next),
                self.overlay@ == before.overlay,
                before.wf(),
                before.state == current,
                self.floor == (if i == 0 {
                    before.floor
                } else {
                    shape
                }),
                self.registry@ == (if i == 0 {
                    before.scene
                } else {
                    before.scene.populated(shape->0)
                }),
            decreases handlers@.len() - i,
        {
            match handlers[i] {
                Callback::BuildScene => {
                    if let Some(derived) = shape {
                        populate(&mut self.registry, derived);
                        self.floor = Some(derived);
                    }
                },
                _ => {},
            }
            i += 1;
        }
        proof {
            before.lemma_step_preserves_wf(next, spec_floor);
        }
        Ok(())
    }

    /// The completion signal of the asset pipeline: asks for the transition
    /// into `Ready` with the floor mesh as far as it has been resolved.
    ///
    /// A signal that arrives again is refused with the warning and builds
    /// nothing: the scene is built at most once.
    pub fn assets_loaded(&mut self, floor: Option<&MeshAsset>) -> (outcome: Result<(), BootstrapError>)
        requires
            old(self).wf(),
        ensures
            final(self).wf(),
            final(self)@ == old(self)@.step(
                LoadState::Ready,
                match floor {
                    Some(mesh) => Some(*mesh),
                    None => None,
                },
            ),
            outcome == old(self)@.step_outcome(
                LoadState::Ready,
                match floor {
                    Some(mesh) => Some(*mesh),
                    None => None,
                },
            ),
            old(self)@.state != LoadState::Loading ==> final(self)@ == old(self)@,
    {
        self.transition_to(LoadState::Ready, floor)
    }

    /// Runs one frame: each callback registered for the current phase, in the
    /// order of registration.
    ///
    /// In `Ready` these are the controller updater, which writes this frame's
    /// displacement into the character's pending slot, and the overlay
    /// updater, which rewrites the overlay text; the result is the controller's
    /// command. In the other phases nothing runs, nothing changes and the
    /// result is `None`.
    pub fn frame(&mut self, frame: &Frame) -> (command: Option<ControllerCommand>)
        requires
            old(self).wf(),
        ensures
            final(self).wf(),
            final(self)@ == old(self)@.after_frame(*frame),
            command == (if old(self)@.gated_in() {
                Some(frame_command(*frame))
            } else {
                None
            }),
    {
        let ghost before = self@;
        let callbacks: Vec<Callback> = self.machine.frame_callbacks();
        let mut command: Option<ControllerCommand> = None;
        let mut i: usize = 0;
        proof {
            if before.state != LoadState::Loading {
                before.lemma_scene_census();
            }
        }
        while i < callbacks.len()
            invariant
                i <= callbacks@.len(),
                callbacks@ == wiring(before.state).frame_callbacks(before.state),
                before.wf(),
                self.machine@ == wiring(before.state),
                self.floor == before.floor,
                before.state != LoadState::Loading ==> before.scene.controlled_index()
                    == character_index() && before.scene.has_sole_controlled(),
                i == 0 ==> command is None && self.registry@ == before.scene,
                i >= 1 ==> command == Some(frame_command(*frame)) && self.registry@
                    == before.scene.with_pending(
                    character_index(),
                    Some(frame_command(*frame).displacement),
                ),
                i <= 1 ==> self.overlay@ == before.overlay,
                i >= 2 ==> self.overlay@ == overlay_line(frame.diagnostics, frame.delta),
            decreases callbacks@.len() - i,
        {
            match callbacks[i] {
                Callback::UpdateController => {
                    let made = update_controller(&mut self.registry, &frame.input, frame.dt_micros);
                    command = Some(made);
                },
                Callback::UpdateOverlay => {
                    self.overlay.update(&frame.diagnostics, frame.delta);
                },
                Callback::BuildScene => {},
            }
            i += 1;
        }
        proof {
            if before.gated_in() {
                let shape = before.floor->0;
                let built = SceneView::empty().populated(shape);
                let pending = Some(frame_command(*frame).displacement);
                assert(self.registry@.bodies.len() == 4);
                assert(self.registry@.bodies[character_index()].pending == pending);
                assert(built.with_pending(character_index(), pending).bodies
                    =~= before.scene.with_pending(character_index(), pending).bodies);
            }
        }
        command
    }

    /// Hands the character's pending displacement to the physics collaborator
    /// and empties the slot. Before the scene is built there is none.
    pub fn take_command(&mut self) -> (taken: Option<Displacement>)
        requires
            old(self).wf(),
        ensures
            final(self).wf(),
            old(self)@.state == LoadState::Loading ==> taken is None && final(self)@ == old(self)@,
            old(self)@.state != LoadState::Loading ==> taken == old(self)@.scene.bodies[character_index()].pending
                && final(self)@ == (SequencerView {
                scene: old(self)@.scene.with_pending(character_index(), None),
                ..old(self)@
            }),
    {
        let ghost before = self@;
        let taken = self.registry.take_pending(BodyHandle { index: 3 });
        proof {
            if before.state != LoadState::Loading {
                let shape = before.floor->0;
                let built = SceneView::empty().populated(shape);
                assert(built.with_pending(character_index(), None).bodies =~= before.scene.with_pending(
                    character_index(),
                    None,
                ).bodies);
            }
        }
        taken
    }
}

} // verus!
