use asset_gate::app_state::{transition, AppState, InvalidTransition};
use asset_gate::gate::{asset_names, resolve_assets, Gate, Handle};
use asset_gate::load_state::{group_load_state, LoadState};

fn handle(id: u64) -> Handle {
    Handle { id }
}

#[test]
fn two_handle_scenario() {
    // Request handles A and B; while both are loading the load gate takes no
    // action; once both are loaded the next tick builds the bundle {A, B}
    // and moves the state to Game exactly once.
    let a = handle(7);
    let b = handle(8);
    let mut gate = Gate::new();
    gate.start_loading(vec![a, b]);
    assert_eq!(gate.app_state, AppState::Load);
    assert_eq!(gate.bundle, None);

    gate.check_loading(&vec![LoadState::Loading, LoadState::Loading]);
    assert_eq!(gate.app_state, AppState::Load);
    assert_eq!(gate.pending, Some(vec![a, b]));
    assert_eq!(gate.bundle, None);

    gate.check_loading(&vec![LoadState::Loaded, LoadState::Loaded]);
    assert_eq!(gate.app_state, AppState::Game);
    assert_eq!(gate.pending, None);
    assert_eq!(gate.bundle, Some(vec![a, b]));

    // A further tick changes nothing: the transition happened once.
    gate.check_loading(&vec![]);
    assert_eq!(gate.app_state, AppState::Game);
    assert_eq!(gate.bundle, Some(vec![a, b]));
}

#[test]
fn bundle_absent_until_game() {
    let mut gate = Gate::new();
    assert_eq!(gate.bundle, None);
    gate.start_loading(vec![handle(1), handle(2), handle(3)]);
    assert_eq!(gate.bundle, None);

    gate.check_loading(&vec![LoadState::Loaded, LoadState::Loading, LoadState::Loaded]);
    assert_eq!(gate.app_state, AppState::Load);
    assert_eq!(gate.bundle, None);

    gate.check_loading(&vec![LoadState::Loaded, LoadState::Loaded, LoadState::Loaded]);
    assert_eq!(gate.app_state, AppState::Game);
    assert_eq!(gate.bundle, Some(vec![handle(1), handle(2), handle(3)]));
}

#[test]
fn failed_handle_never_transitions() {
    // Regression for the known defect: a handle that failed (or was never
    // started) keeps the load gate polling forever.
    let mut gate = Gate::new();
    gate.start_loading(vec![handle(1), handle(2)]);
    for _ in 0..5 {
        gate.check_loading(&vec![LoadState::Loaded, LoadState::Failed]);
        assert_eq!(gate.app_state, AppState::Load);
        assert_eq!(gate.bundle, None);
    }
    for _ in 0..5 {
        gate.check_loading(&vec![LoadState::NotLoaded, LoadState::Loaded]);
        assert_eq!(gate.app_state, AppState::Load);
        assert_eq!(gate.bundle, None);
    }
    assert_eq!(gate.pending, Some(vec![handle(1), handle(2)]));
}

#[test]
fn empty_batch_transitions_at_once() {
    // The edge case of a batch of zero requests: there is nothing to wait
    // for, so the first tick transitions.
    let mut gate = Gate::new();
    gate.start_loading(vec![]);
    gate.check_loading(&vec![]);
    assert_eq!(gate.app_state, AppState::Game);
    assert_eq!(gate.bundle, Some(vec![]));
}

#[test]
fn gate_without_batch_stays_put() {
    // Before the loader has recorded a batch there is nothing to resolve.
    let mut gate = Gate::new();
    gate.check_loading(&vec![]);
    assert_eq!(gate.app_state, AppState::Load);
    assert_eq!(gate.bundle, None);
    assert_eq!(gate.pending, None);
}

#[test]
fn aggregate_is_loaded_only_when_all_are() {
    assert_eq!(group_load_state(&vec![]), LoadState::Loaded);
    assert_eq!(group_load_state(&vec![LoadState::Loaded]), LoadState::Loaded);
    assert_eq!(
        group_load_state(&vec![LoadState::Loaded, LoadState::Loaded]),
        LoadState::Loaded
    );
    assert_eq!(
        group_load_state(&vec![LoadState::Loaded, LoadState::Loading]),
        LoadState::Loading
    );
}

#[test]
fn aggregate_reports_first_blocked_member() {
    // A member that is Failed or NotLoaded decides the aggregate at once;
    // a member that is merely Loading does not outweigh it.
    assert_eq!(
        group_load_state(&vec![LoadState::Loading, LoadState::Failed]),
        LoadState::Failed
    );
    assert_eq!(
        group_load_state(&vec![LoadState::Loaded, LoadState::NotLoaded, LoadState::Failed]),
        LoadState::NotLoaded
    );
    assert_eq!(
        group_load_state(&vec![LoadState::Failed, LoadState::NotLoaded]),
        LoadState::Failed
    );
    assert_eq!(
        group_load_state(&vec![LoadState::Loading, LoadState::Loaded]),
        LoadState::Loading
    );
}

#[test]
fn transition_table() {
    assert_eq!(transition(AppState::Load, AppState::Game), Ok(AppState::Game));
    assert_eq!(
        transition(AppState::Game, AppState::Load),
        Err(InvalidTransition)
    );
    assert_eq!(
        transition(AppState::Load, AppState::Load),
        Err(InvalidTransition)
    );
    assert_eq!(
        transition(AppState::Game, AppState::Game),
        Err(InvalidTransition)
    );
}

#[test]
fn standard_batch_names_and_resolution() {
    let names = asset_names();
    assert_eq!(names.len(), 3);
    assert_eq!(names[0], "textures/player.png");
    assert_eq!(names[1], "textures/tree.png");
    assert_eq!(names[2], "audio/background.ogg");

    let bundle = vec![handle(10), handle(20), handle(30)];
    let (textures, audio) = resolve_assets(&bundle);
    assert_eq!(textures.player, handle(10));
    assert_eq!(textures.tree, handle(20));
    assert_eq!(audio.background, handle(30));
}

#[test]
fn load_state_labels() {
    assert_eq!(LoadState::NotLoaded.label(), "NotLoaded");
    assert_eq!(LoadState::Loading.label(), "Loading");
    assert_eq!(LoadState::Loaded.label(), "Loaded");
    assert_eq!(LoadState::Failed.label(), "Failed");
}
