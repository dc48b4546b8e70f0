//! Lifecycle status of a single asset load request, and the aggregate
//! status of a batch.

use vstd::prelude::*;

verus! {

/// Lifecycle status of one asset load request, as reported by the external
/// asset service each time it is polled.
#[derive(Clone, Copy, Debug, PartialEq, Eq, Structural)]
pub enum LoadState {
    /// The load has not been started.
    NotLoaded,
    /// The load is in progress.
    Loading,
    /// The asset is fully loaded.
    Loaded,
    /// The load failed.
    Failed,
}

/// Every state in the batch is `Loaded`.
pub open spec fn all_loaded(states: Seq<LoadState>) -> bool {
    forall|i: int| 0 <= i < states.len() ==> states[i] == LoadState::Loaded
}

/// The aggregate status of a batch: the state of the first member that is
/// `Failed` or `NotLoaded`, if any; otherwise `Loading` if any member is
/// still `Loading`; otherwise `Loaded`. An empty batch is `Loaded`.
pub open spec fn aggregate_load_state(states: Seq<LoadState>) -> LoadState
    decreases states.len(),
{
    if states.len() == 0 {
        LoadState::Loaded
    } else {
        match states[0] {
            LoadState::Failed => LoadState::Failed,
            LoadState::NotLoaded => LoadState::NotLoaded,
            LoadState::Loading => match aggregate_load_state(states.drop_first()) {
                LoadState::Failed => LoadState::Failed,
                LoadState::NotLoaded => LoadState::NotLoaded,
                _ => LoadState::Loading,
            },
            LoadState::Loaded => aggregate_load_state(states.drop_first()),
        }
    }
}

/// The aggregate status of a batch is `Loaded` exactly when every member
/// of the batch is `Loaded`.
pub proof fn lemma_aggregate_loaded_iff_all_loaded(states: Seq<LoadState>)
    ensures
        aggregate_load_state(states) == LoadState::Loaded <==> all_loaded(states),
    decreases states.len(),
{
    if states.len() > 0 {
        lemma_aggregate_loaded_iff_all_loaded(states.drop_first());
        assert(states[0] == LoadState::Loaded && all_loaded(states.drop_first())
            ==> all_loaded(states)) by {
            if states[0] == LoadState::Loaded && all_loaded(states.drop_first()) {
                assert forall|i: int| 0 <= i < states.len() implies
                    states[i] == LoadState::Loaded by {
                    if i > 0 {
                        assert(states.drop_first()[i - 1] == LoadState::Loaded);
                    }
                }
            }
        }
        assert(all_loaded(states) ==> all_loaded(states.drop_first())) by {
            if all_loaded(states) {
                assert forall|i: int| 0 <= i < states.drop_first().len() implies
                    states.drop_first()[i] == LoadState::Loaded by {
                    assert(states[i + 1] == LoadState::Loaded);
                }
            }
        }
    }
}

impl LoadState {
    /// The status name, for diagnostics.
    pub fn label(self) -> (r: String)
        ensures
            self == LoadState::NotLoaded ==> r@ == "NotLoaded"@,
            self == LoadState::Loading ==> r@ == "Loading"@,
            self == LoadState::Loaded ==> r@ == "Loaded"@,
            self == LoadState::Failed ==> r@ == "Failed"@,
    {
        match self {
            LoadState::NotLoaded => String::from_str("NotLoaded"),
            LoadState::Loading => String::from_str("Loading"),
            LoadState::Loaded => String::from_str("Loaded"),
            LoadState::Failed => String::from_str("Failed"),
        }
    }
}

/// The aggregate status of a batch of observed load states; `Loaded` only
/// when every member is `Loaded`.
pub fn group_load_state(states: &Vec<LoadState>) -> (r: LoadState)
    ensures
        r == aggregate_load_state(states@),
        r == LoadState::Loaded <==> all_loaded(states@),
{
    let mut agg = LoadState::Loaded;
    let mut k: usize = states.len();
    while k > 0
        invariant
            k <= states@.len(),
            agg == aggregate_load_state(states@.skip(k as int)),
        decreases k,
    {
        k -= 1;
        agg = match states[k] {
            LoadState::Failed => LoadState::Failed,
            LoadState::NotLoaded => LoadState::NotLoaded,
            LoadState::Loading => match agg {
                LoadState::Failed => LoadState::Failed,
                LoadState::NotLoaded => LoadState::NotLoaded,
                _ => LoadState::Loading,
            },
            LoadState::Loaded => agg,
        };
        proof {
            assert(states@.skip(k as int).drop_first() =~= states@.skip(k as int + 1));
            assert(states@.skip(k as int)[0] == states@[k as int]);
        }
    }
    proof {
        assert(states@.skip(0) =~= states@);
        lemma_aggregate_loaded_iff_all_loaded(states@);
    }
    agg
}

} // verus!
