//! The loader and the load-state gate.
//!
//! The load gate owns the shared context of the polling state machine. The
//! loader records one batch of requested handles as the pending-load set;
//! each tick the load gate is handed the observed load states of that batch and
//! decides whether to resolve the bundle and move the application to
//! `Game`.

use vstd::prelude::*;

verus! {

use crate::app_state::AppState;
use crate::app_state::transition;
use crate::load_state::LoadState;
use crate::load_state::all_loaded;
use crate::load_state::group_load_state;

/// An opaque reference to an asset load request, issued once by the
/// external asset service and compared for equality only.
#[derive(Clone, Copy, Debug, PartialEq, Eq, Hash, Structural)]
pub struct Handle {
    /// The service's identifier for the request.
    pub id: u64,
}

/// The texture resources, resolved from the standard batch.
#[derive(Clone, Copy, Debug, PartialEq, Eq, Structural)]
pub struct TextureAssets {
    /// The player texture.
    pub player: Handle,
    /// The tree texture.
    pub tree: Handle,
}

/// The audio resources, resolved from the standard batch.
#[derive(Clone, Copy, Debug, PartialEq, Eq, Structural)]
pub struct AudioAssets {
    /// The background track.
    pub background: Handle,
}

/// The shared context of the polling state machine: the application
/// phase, the pending-load set, and the resolved asset bundle.
#[verifier::ext_equal]
pub struct Gate {
    /// The active application phase.
    pub app_state: AppState,
    /// The batch of handles whose loads are still being polled, in
    /// request order; present only while the application is in `Load`.
    pub pending: Option<Vec<Handle>>,
    /// The resolved handles of the batch, in request order; present
    /// exactly while the application is in `Game`.
    pub bundle: Option<Vec<Handle>>,
}

/// One tick of the load gate on an observation of the pending handles' load
/// states: from `Load` with a pending batch whose every member is
/// `Loaded`, resolve the bundle from the batch, discard the pending set
/// and move to `Game`, as one atomic step; in every other case, change
/// nothing.
pub open spec fn gate_after_tick(g: Gate, states: Seq<LoadState>) -> Gate {
    match g.pending {
        Some(p) => if g.app_state == AppState::Load && all_loaded(states) {
            Gate { app_state: AppState::Game, pending: None, bundle: Some(p) }
        } else {
            g
        },
        None => g,
    }
}

/// The load gate's state after a run of ticks, one observation per tick, in
/// order.
pub open spec fn gate_after_ticks(g: Gate, obs: Seq<Seq<LoadState>>) -> Gate
    decreases obs.len(),
{
    if obs.len() == 0 {
        g
    } else {
        gate_after_ticks(gate_after_tick(g, obs[0]), obs.drop_first())
    }
}

/// The number of application-state transitions the load gate makes over a run
/// of ticks.
pub open spec fn transition_count(g: Gate, obs: Seq<Seq<LoadState>>) -> nat
    decreases obs.len(),
{
    if obs.len() == 0 {
        0
    } else {
        let g1 = gate_after_tick(g, obs[0]);
        (if g1.app_state != g.app_state { 1nat } else { 0nat })
            + transition_count(g1, obs.drop_first())
    }
}

impl Gate {
    /// Well-formedness: the resolved bundle exists exactly while the
    /// application state is `Game`, and the pending-load set exists only
    /// while it is `Load`.
    pub open spec fn wf(self) -> bool {
        &&& (self.bundle is Some <==> self.app_state == AppState::Game)
        &&& (self.pending is Some ==> self.app_state == AppState::Load)
    }

    /// A fresh gate: in `Load`, with no batch requested and no bundle.
    pub fn new() -> (g: Gate)
        ensures
            g.wf(),
            g.app_state == AppState::Load,
            g.pending is None,
            g.bundle is None,
    {
        Gate { app_state: AppState::Load, pending: None, bundle: None }
    }

    /// The loader's step on entering `Load`: record the handles that the
    /// external asset service returned for one batch of requests, in
    /// request order, as the pending-load set.
    pub fn start_loading(&mut self, handles: Vec<Handle>)
        requires
            old(self).wf(),
            old(self).app_state == AppState::Load,
            old(self).pending is None,
        ensures
            final(self).wf(),
            final(self).app_state == AppState::Load,
            final(self).pending == Some(handles),
            final(self).bundle is None,
    {
        self.pending = Some(handles);
    }

    /// One tick of the load gate. `states` are the observed load states of the
    /// pending handles, in request order. When their aggregate is
    /// `Loaded`, the bundle is built from the pending batch, the pending
    /// set is discarded and the application state moves to `Game`, as one
    /// step; otherwise nothing changes and the load gate is polled again next
    /// tick.
    pub fn check_loading(&mut self, states: &Vec<LoadState>)
        requires
            old(self).wf(),
            old(self).pending matches Some(p) ==> states@.len() == p@.len(),
        ensures
            final(self).wf(),
            *final(self) == gate_after_tick(*old(self), states@),
    {
        let agg = group_load_state(states);
        if agg == LoadState::Loaded {
            if let Some(handles) = self.pending.take() {
                if let Ok(next) = transition(self.app_state, AppState::Game) {
                    self.app_state = next;
                }
                self.bundle = Some(handles);
            }
        }
    }
}

/// The standard batch's asset names, in request order: the player
/// texture, the tree texture, and the background audio track.
pub fn asset_names() -> (r: Vec<String>)
    ensures
        r@.len() == 3,
        r@[0]@ == "textures/player.png"@,
        r@[1]@ == "textures/tree.png"@,
        r@[2]@ == "audio/background.ogg"@,
{
    let mut names: Vec<String> = Vec::new();
    names.push(String::from_str("textures/player.png"));
    names.push(String::from_str("textures/tree.png"));
    names.push(String::from_str("audio/background.ogg"));
    names
}

/// Resolve the three handles of the standard batch into the typed texture
/// and audio resources, by their position in request order.
pub fn resolve_assets(bundle: &Vec<Handle>) -> (r: (TextureAssets, AudioAssets))
    requires
        bundle@.len() == 3,
    ensures
        r.0 == (TextureAssets { player: bundle@[0], tree: bundle@[1] }),
        r.1 == (AudioAssets { background: bundle@[2] }),
{
    let textures = TextureAssets { player: bundle[0], tree: bundle[1] };
    let audio = AudioAssets { background: bundle[2] };
    (textures, audio)
}

/// One tick preserves well-formedness: the resolved bundle is absent in
/// `Load` and present exactly in `Game`. A tick changes the load gate only by
/// the one transition, on which the bundle is populated with the whole
/// pending batch.
pub proof fn lemma_tick_preserves_wf(g: Gate, states: Seq<LoadState>)
    requires
        g.wf(),
    ensures
        gate_after_tick(g, states).wf(),
        gate_after_tick(g, states) != g ==> {
            &&& g.app_state == AppState::Load
            &&& g.pending is Some
            &&& all_loaded(states)
            &&& gate_after_tick(g, states).app_state == AppState::Game
            &&& gate_after_tick(g, states).pending is None
            &&& gate_after_tick(g, states).bundle == g.pending
        },
{
}

/// `Game` is terminal: a gate that has reached `Game` is unchanged by any
/// further run of ticks, and makes no further transition.
pub proof fn lemma_game_terminal(g: Gate, obs: Seq<Seq<LoadState>>)
    requires
        g.wf(),
        g.app_state == AppState::Game,
    ensures
        gate_after_ticks(g, obs) == g,
        transition_count(g, obs) == 0,
    decreases obs.len(),
{
    if obs.len() > 0 {
        assert(gate_after_tick(g, obs[0]) == g);
        lemma_game_terminal(g, obs.drop_first());
    }
}

/// Over any run of ticks that starts in `Load` with a pending batch, the
/// gate transitions exactly once when some observation reports every
/// handle `Loaded`, and never otherwise.
pub proof fn lemma_transitions_exactly_once(g: Gate, obs: Seq<Seq<LoadState>>)
    requires
        g.wf(),
        g.app_state == AppState::Load,
        g.pending is Some,
    ensures
        transition_count(g, obs) <= 1,
        transition_count(g, obs) == 1 <==> exists|i: int|
            0 <= i < obs.len() && all_loaded(obs[i]),
    decreases obs.len(),
{
    if obs.len() > 0 {
        let g1 = gate_after_tick(g, obs[0]);
        if all_loaded(obs[0]) {
            lemma_tick_preserves_wf(g, obs[0]);
            lemma_game_terminal(g1, obs.drop_first());
            assert(transition_count(g, obs) == 1);
            assert(0 <= 0 < obs.len() && all_loaded(obs[0]));
        } else {
            assert(g1 == g);
            lemma_transitions_exactly_once(g, obs.drop_first());
            assert((exists|i: int| 0 <= i < obs.len() && all_loaded(obs[i]))
                <==> (exists|j: int|
                    0 <= j < obs.drop_first().len() && all_loaded(obs.drop_first()[j]))) by {
                if exists|i: int| 0 <= i < obs.len() && all_loaded(obs[i]) {
                    let i = choose|i: int| 0 <= i < obs.len() && all_loaded(obs[i]);
                    assert(i != 0);
                    assert(0 <= i - 1 < obs.drop_first().len()
                        && all_loaded(obs.drop_first()[i - 1]));
                }
                if exists|j: int| 0 <= j < obs.drop_first().len()
                    && all_loaded(obs.drop_first()[j]) {
                    let j = choose|j: int| 0 <= j < obs.drop_first().len()
                        && all_loaded(obs.drop_first()[j]);
                    assert(0 <= j + 1 < obs.len() && all_loaded(obs[j + 1]));
                }
            }
        }
    }
}

/// A batch observation in which some handle is `Failed` or `NotLoaded`
/// never makes the load gate transition: such a handle is indistinguishable
/// from one that is still loading.
pub proof fn lemma_no_transition_on_blocked_handle(g: Gate, states: Seq<LoadState>, i: int)
    requires
        0 <= i < states.len(),
        states[i] == LoadState::Failed || states[i] == LoadState::NotLoaded,
    ensures
        gate_after_tick(g, states) == g,
{
    assert(states[i] != LoadState::Loaded);
    assert(!all_loaded(states));
}

} // verus!
