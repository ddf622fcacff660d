use scene_bootstrap::state::{Dispatch, LoadState, StateMachine, TransitionWarning};

fn wired() -> StateMachine<u32> {
    let mut machine: StateMachine<u32> = StateMachine::new();
    assert!(machine.on_enter(LoadState::Ready, 10));
    assert!(machine.on_enter(LoadState::Ready, 11));
    assert!(machine.on_enter(LoadState::InGame, 20));
    assert!(machine.on_frame(LoadState::Ready, 30));
    assert!(machine.on_frame(LoadState::InGame, 40));
    assert!(machine.on_frame(LoadState::InGame, 41));
    machine
}

#[test]
fn ready_follows_loading() {
    assert!(LoadState::Loading.precedes(LoadState::Ready));
    assert!(LoadState::Ready.precedes(LoadState::InGame));
    assert!(!LoadState::Loading.precedes(LoadState::InGame));
    assert!(!LoadState::Loading.precedes(LoadState::Loading));
    assert!(!LoadState::Ready.precedes(LoadState::Loading));
    assert!(!LoadState::Ready.precedes(LoadState::Ready));
    assert!(!LoadState::InGame.precedes(LoadState::Loading));
    assert!(!LoadState::InGame.precedes(LoadState::Ready));
    assert!(!LoadState::InGame.precedes(LoadState::InGame));
}

#[test]
fn new_machine_is_loading_and_silent() {
    let machine: StateMachine<u32> = StateMachine::new();
    assert_eq!(machine.current_state(), LoadState::Loading);
    assert!(machine.fired().is_empty());
    assert!(machine.frame_callbacks().is_empty());
}

#[test]
fn forward_sequence_fires_each_handler_once_in_order() {
    let mut machine = wired();
    assert_eq!(machine.transition_to(LoadState::Ready), Ok(vec![10, 11]));
    assert_eq!(machine.current_state(), LoadState::Ready);
    assert_eq!(
        machine.fired(),
        vec![
            Dispatch { state: LoadState::Ready, handler: 10 },
            Dispatch { state: LoadState::Ready, handler: 11 },
        ]
    );
    assert_eq!(machine.transition_to(LoadState::InGame), Ok(vec![20]));
    assert_eq!(machine.current_state(), LoadState::InGame);
    assert_eq!(
        machine.fired(),
        vec![
            Dispatch { state: LoadState::Ready, handler: 10 },
            Dispatch { state: LoadState::Ready, handler: 11 },
            Dispatch { state: LoadState::InGame, handler: 20 },
        ]
    );
}

#[test]
fn backward_transition_is_refused_with_a_warning() {
    let mut machine = wired();
    machine.transition_to(LoadState::Ready).unwrap();
    let fired_before = machine.fired();
    assert_eq!(
        machine.transition_to(LoadState::Loading),
        Err(TransitionWarning { from: LoadState::Ready, to: LoadState::Loading })
    );
    assert_eq!(machine.current_state(), LoadState::Ready);
    assert_eq!(machine.fired(), fired_before);
}

#[test]
fn skipped_transition_is_refused_with_a_warning() {
    let mut machine = wired();
    assert_eq!(
        machine.transition_to(LoadState::InGame),
        Err(TransitionWarning { from: LoadState::Loading, to: LoadState::InGame })
    );
    assert_eq!(machine.current_state(), LoadState::Loading);
    assert!(machine.fired().is_empty());
}

#[test]
fn repeated_transition_is_refused_and_fires_nothing_again() {
    let mut machine = wired();
    machine.transition_to(LoadState::Ready).unwrap();
    assert_eq!(
        machine.transition_to(LoadState::Ready),
        Err(TransitionWarning { from: LoadState::Ready, to: LoadState::Ready })
    );
    assert_eq!(machine.fired().len(), 2);
    machine.transition_to(LoadState::InGame).unwrap();
    assert_eq!(
        machine.transition_to(LoadState::InGame),
        Err(TransitionWarning { from: LoadState::InGame, to: LoadState::InGame })
    );
    assert_eq!(
        machine.transition_to(LoadState::Ready),
        Err(TransitionWarning { from: LoadState::InGame, to: LoadState::Ready })
    );
    assert_eq!(machine.fired().len(), 3);
    assert_eq!(machine.current_state(), LoadState::InGame);
}

#[test]
fn frame_callbacks_follow_the_current_state() {
    let mut machine = wired();
    assert_eq!(machine.frame_callbacks(), Vec::<u32>::new());
    machine.transition_to(LoadState::Ready).unwrap();
    assert_eq!(machine.frame_callbacks(), vec![30]);
    machine.transition_to(LoadState::InGame).unwrap();
    assert_eq!(machine.frame_callbacks(), vec![40, 41]);
}

#[test]
fn nothing_is_registered_for_loading() {
    let mut machine: StateMachine<u32> = StateMachine::new();
    assert!(!machine.on_enter(LoadState::Loading, 1));
    assert!(!machine.on_frame(LoadState::Loading, 2));
    assert!(machine.frame_callbacks().is_empty());
    assert_eq!(machine.transition_to(LoadState::Ready), Ok(vec![]));
    assert!(machine.fired().is_empty());
}

#[test]
fn registration_closes_with_the_first_transition() {
    let mut machine = wired();
    machine.transition_to(LoadState::Ready).unwrap();
    assert!(!machine.on_enter(LoadState::InGame, 99));
    assert!(!machine.on_frame(LoadState::Ready, 98));
    assert_eq!(machine.frame_callbacks(), vec![30]);
    assert_eq!(machine.transition_to(LoadState::InGame), Ok(vec![20]));
}

#[test]
fn warning_message_names_both_states() {
    let warning = TransitionWarning { from: LoadState::Ready, to: LoadState::Loading };
    assert_eq!(warning.message(), "refused the transition from Ready to Loading");
    assert_eq!(LoadState::InGame.name(), "InGame");
}
