//! The operations of the engine.
//!
//! Each operation is a function of the persisted state and of the call: its
//! contract names the state it leaves and the answer it gives as one
//! outcome, so two runs on the same state and call cannot differ.
//!
//! [`execute`] first folds the call's content into the entropy pool and only
//! then looks at the call, so a call that is refused still moves the pool. A
//! refused call changes nothing else.
use crate::dp::{laplace, spec_laplace};
use crate::error::ContractError;
use crate::fixed_point::{decimal_text, fixed_from_str, parsed_fixed, Fixed, ONE_BITS};
use crate::msg::{
    ExecuteAnswer, ExecuteAnswerView, ExecuteMsg, ExecuteMsgView, InstantiateMsg, QueryAnswer,
    QueryAnswerView, QueryMsg, ResponseStatus,
};
use crate::random::{
    get_random_number_generator, lemma_advanced_twice, supply_more_entropy, with_more_entropy,
    Generator, GeneratorView,
};
use crate::state::{
    budget_of, config_of, get_budget_remaining, get_config, get_stats, lemma_budget_round_trip,
    lemma_config_round_trip, lemma_stats_round_trip, set_budget_remaining, set_config, set_stats,
    stats_after, stats_of, viewed, with_budget, with_config, with_stats, Config, ConfigView,
    Stats, Store, StoreView,
};
use vstd::prelude::*;

verus! {

/// Whether a string is the decimal notation of a number above zero.
pub open spec fn is_positive_number(text: Seq<char>) -> bool {
    match parsed_fixed(text) {
        Ok(number) => number@ > 0,
        Err(_) => false,
    }
}

/// What creating an engine comes to: the given configuration, the whole
/// budget, no observation, and the pool moved on by the call's content.
/// Parameters that are not numbers above zero leave the store as it was.
pub open spec fn instantiate_outcome(
    store: StoreView,
    sender: Seq<u8>,
    epsilon: Seq<char>,
    privacy_budget: Seq<char>,
    fresh_entropy: Seq<u8>,
) -> (StoreView, Result<(), ContractError>) {
    match (parsed_fixed(epsilon), parsed_fixed(privacy_budget)) {
        (Ok(epsilon), Ok(privacy_budget)) => if epsilon@ > 0 && privacy_budget@ > 0 {
            let config = ConfigView { admin: sender, epsilon, privacy_budget };
            let filled = with_stats(
                with_budget(with_config(store, config), privacy_budget),
                Stats::spec_empty(),
            );
            (with_more_entropy(filled, fresh_entropy), Ok(()))
        } else {
            (store, Err(ContractError::InvalidNumber))
        },
        _ => (store, Err(ContractError::InvalidNumber)),
    }
}

/// What submitting an observation comes to. The value must be a number, the
/// statistics must be readable, and the count must have room for one more.
pub open spec fn add_observation_outcome(store: StoreView, value: Seq<char>) -> (
    StoreView,
    Result<ExecuteAnswerView, ContractError>,
) {
    match parsed_fixed(value) {
        Err(e) => (store, Err(e)),
        Ok(fixed_value) => match stats_of(store) {
            Err(e) => (store, Err(e)),
            Ok(stats) => match stats.spec_observe(fixed_value) {
                None => (store, Err(ContractError::Arithmetic)),
                Some(next) => (
                    with_stats(store, next),
                    Ok(ExecuteAnswerView::AddObservation { status: ResponseStatus::Success }),
                ),
            },
        },
    }
}

/// What a query may work with, or why it is refused. The checks come in this
/// order: the caller is the administrator, there is data, there is budget.
pub open spec fn query_authorization(store: StoreView, sender: Seq<u8>) -> Result<
    (ConfigView, Stats, Fixed),
    ContractError,
> {
    match config_of(store) {
        Err(e) => Err(e),
        Ok(config) => if sender != config.admin {
            Err(ContractError::Unauthorized)
        } else {
            match stats_of(store) {
                Err(e) => Err(e),
                Ok(stats) => if stats.count == 0 {
                    Err(ContractError::NoData)
                } else {
                    match budget_of(store) {
                        Err(e) => Err(e),
                        Ok(budget) => if budget@ <= 0 {
                            Err(ContractError::BudgetExhausted)
                        } else {
                            Ok((config, stats, budget))
                        },
                    }
                },
            }
        },
    }
}

/// How many words of the stream a query draws: `per_query` where it gets as
/// far as drawing noise, none where it is refused before.
pub open spec fn words_drawn(store: StoreView, sender: Seq<u8>, per_query: nat) -> nat {
    match query_authorization(store, sender) {
        Ok((config, _, _)) => if config.epsilon@ == 0 {
            0
        } else {
            per_query
        },
        Err(_) => 0,
    }
}

/// The scale of the noise for a query of the given sensitivity: the
/// sensitivity over epsilon.
#[verifier::opaque]
pub open spec fn noise_scale(sensitivity: Fixed, epsilon: Fixed) -> Fixed {
    sensitivity.spec_wrapping_div(epsilon)
}

/// A count with noise added.
pub open spec fn noisy_count(count: u32, noise: Fixed) -> Fixed {
    Fixed::spec_from_u32(count).spec_wrapping_add(noise)
}

/// The quotient of the noisy sum by the noisy count, or nothing where the
/// noisy count is zero.
#[verifier::opaque]
pub open spec fn noisy_mean(stats: Stats, sum_noise: Fixed, count_noise: Fixed) -> Option<Fixed> {
    let fuzzy_sum = stats.sum.spec_wrapping_add(sum_noise.spec_widen());
    let fuzzy_count = noisy_count(stats.count, count_noise).spec_widen();
    if fuzzy_count@ == 0 {
        None
    } else {
        Some(fuzzy_sum.spec_wrapping_div(fuzzy_count).spec_narrow())
    }
}

/// What a count query comes to. The sensitivity of a count is one; the query
/// costs epsilon.
pub open spec fn fuzzy_count_outcome(store: StoreView, sender: Seq<u8>, rng: GeneratorView) -> (
    StoreView,
    Result<ExecuteAnswerView, ContractError>,
) {
    match query_authorization(store, sender) {
        Err(e) => (store, Err(e)),
        Ok((config, stats, budget)) => if config.epsilon@ == 0 {
            (store, Err(ContractError::Arithmetic))
        } else {
            match spec_laplace(rng, noise_scale(Fixed { bits: ONE_BITS }, config.epsilon)) {
                None => (store, Err(ContractError::Arithmetic)),
                Some(noise) => (
                    with_budget(store, budget.spec_wrapping_sub(config.epsilon)),
                    Ok(
                        ExecuteAnswerView::FuzzyCount {
                            count: decimal_text(noisy_count(stats.count, noise).bits),
                        },
                    ),
                ),
            }
        },
    }
}

/// What a mean query comes to. The sensitivity of the sum is the width of
/// the observed range and that of the count is one; the noise of the sum is
/// drawn first. The query costs twice epsilon.
pub open spec fn fuzzy_mean_outcome(store: StoreView, sender: Seq<u8>, rng: GeneratorView) -> (
    StoreView,
    Result<ExecuteAnswerView, ContractError>,
) {
    match query_authorization(store, sender) {
        Err(e) => (store, Err(e)),
        Ok((config, stats, budget)) => if config.epsilon@ == 0 {
            (store, Err(ContractError::Arithmetic))
        } else {
            let range = stats.upper_bound.spec_wrapping_sub(stats.lower_bound);
            match (
                spec_laplace(rng, noise_scale(range, config.epsilon)),
                spec_laplace(rng.advanced(2), noise_scale(Fixed { bits: ONE_BITS }, config.epsilon)),
            ) {
                (Some(sum_noise), Some(count_noise)) => match noisy_mean(
                    stats,
                    sum_noise,
                    count_noise,
                ) {
                    None => (store, Err(ContractError::Arithmetic)),
                    Some(mean) => (
                        with_budget(
                            store,
                            budget.spec_wrapping_sub(config.epsilon.spec_wrapping_double()),
                        ),
                        Ok(ExecuteAnswerView::FuzzyMean { mean: decimal_text(mean.bits) }),
                    ),
                },
                _ => (store, Err(ContractError::Arithmetic)),
            }
        },
    }
}

/// What a reset comes to: the whole budget again, and no observation.
pub open spec fn reset_outcome(store: StoreView, sender: Seq<u8>) -> (
    StoreView,
    Result<ExecuteAnswerView, ContractError>,
) {
    match config_of(store) {
        Err(e) => (store, Err(e)),
        Ok(config) => if sender != config.admin {
            (store, Err(ContractError::Unauthorized))
        } else {
            (
                with_stats(with_budget(store, config.privacy_budget), Stats::spec_empty()),
                Ok(ExecuteAnswerView::Reset { status: ResponseStatus::Success }),
            )
        },
    }
}

/// What a call comes to. The pool moves first; the operation then works on
/// the store with the new pool, and its noise comes from the generator that
/// the new pool keys.
pub open spec fn execute_outcome(
    store: StoreView,
    sender: Seq<u8>,
    msg: ExecuteMsgView,
    fresh_entropy: Seq<u8>,
) -> (StoreView, Result<ExecuteAnswerView, ContractError>) {
    let stirred = with_more_entropy(store, fresh_entropy);
    let rng = GeneratorView::of_store(stirred);
    match msg {
        ExecuteMsgView::AddObservation { value, .. } => add_observation_outcome(stirred, value),
        ExecuteMsgView::FuzzyCount { .. } => fuzzy_count_outcome(stirred, sender, rng),
        ExecuteMsgView::FuzzyMean { .. } => fuzzy_mean_outcome(stirred, sender, rng),
        ExecuteMsgView::Reset { .. } => reset_outcome(stirred, sender),
    }
}

/// The answer to a query.
pub open spec fn query_outcome(store: StoreView, msg: QueryMsg) -> Result<
    QueryAnswerView,
    ContractError,
> {
    match msg {
        QueryMsg::GetEpsilon {} => match config_of(store) {
            Err(e) => Err(e),
            Ok(config) => Ok(
                QueryAnswerView::GetEpsilon { epsilon: decimal_text(config.epsilon.bits) },
            ),
        },
    }
}

/// Whether two byte strings are the same.
fn same_bytes(a: &Vec<u8>, b: &Vec<u8>) -> (same: bool)
    ensures
        same == (a@ == b@),
{
    if a.len() != b.len() {
        return false;
    }
    let mut i: usize = 0;
    while i < a.len()
        invariant
            i <= a@.len(),
            a@.len() == b@.len(),
            a@.take(i as int) == b@.take(i as int),
        decreases a@.len() - i,
    {
        if a[i] != b[i] {
            return false;
        }
        assert(a@.take(i + 1) =~= a@.take(i as int).push(a@[i as int]));
        assert(b@.take(i + 1) =~= b@.take(i as int).push(b@[i as int]));
        i = i + 1;
    }
    assert(a@.take(i as int) =~= a@);
    assert(b@.take(i as int) =~= b@);
    true
}

/// Creates the engine in `store` for the administrator `sender`: persists the
/// configuration, the whole budget and empty statistics, then folds
/// `fresh_entropy`, the content of the call, into the pool.
///
/// Epsilon and the budget must both be numbers above zero. Where either is
/// not a number, or is zero or negative, the call is refused with
/// `InvalidNumber` and the store is left as it was: no engine comes to exist
/// with an epsilon or a budget that is not above zero.
pub fn instantiate(
    store: &mut Store,
    sender: Vec<u8>,
    msg: InstantiateMsg,
    fresh_entropy: &[u8],
) -> (r: Result<(), ContractError>)
    ensures
        r == instantiate_outcome(
            old(store)@,
            sender@,
            msg.epsilon@,
            msg.privacy_budget@,
            fresh_entropy@,
        ).1,
        final(store)@ == instantiate_outcome(
            old(store)@,
            sender@,
            msg.epsilon@,
            msg.privacy_budget@,
            fresh_entropy@,
        ).0,
        r is Err ==> final(store)@ == old(store)@,
        r is Ok <==> is_positive_number(msg.epsilon@) && is_positive_number(msg.privacy_budget@),
        r is Err ==> r == Err::<(), ContractError>(ContractError::InvalidNumber),
        r is Ok ==> ({
            &&& config_of(final(store)@) matches Ok(config)
            &&& config.wf()
            &&& config.admin == sender@
            &&& budget_of(final(store)@) == Ok::<Fixed, ContractError>(config.privacy_budget)
            &&& stats_of(final(store)@) == Ok::<Stats, ContractError>(Stats::spec_empty())
        }),
{
    proof {
        if instantiate_outcome(
            old(store)@,
            sender@,
            msg.epsilon@,
            msg.privacy_budget@,
            fresh_entropy@,
        ).1 is Ok {
            lemma_instantiate_fills_the_store(
                old(store)@,
                sender@,
                msg.epsilon@,
                msg.privacy_budget@,
                fresh_entropy@,
            );
        }
    }
    let epsilon = match fixed_from_str(msg.epsilon) {
        Ok(value) => value,
        Err(e) => {
            return Err(e);
        },
    };
    let privacy_budget = match fixed_from_str(msg.privacy_budget) {
        Ok(value) => value,
        Err(e) => {
            return Err(e);
        },
    };
    let config = match Config::new(sender, epsilon, privacy_budget) {
        Ok(config) => config,
        Err(e) => {
            return Err(e);
        },
    };
    let _ = set_config(store, config);
    let _ = set_budget_remaining(store, privacy_budget);
    let _ = set_stats(store, Stats::empty());
    let _ = supply_more_entropy(store, fresh_entropy);
    Ok(())
}

/// Handles one call: folds `fresh_entropy`, the content of the call, into
/// the pool, then carries out the operation that `msg` names on behalf of
/// `sender`. A call that is refused leaves the configuration, the statistics
/// and the budget as they were; the pool has moved all the same.
pub fn execute(
    store: &mut Store,
    sender: &Vec<u8>,
    msg: ExecuteMsg,
    fresh_entropy: &[u8],
) -> (r: Result<ExecuteAnswer, ContractError>)
    ensures
        viewed(r) == execute_outcome(old(store)@, sender@, msg@, fresh_entropy@).1,
        final(store)@ == execute_outcome(old(store)@, sender@, msg@, fresh_entropy@).0,
        r is Err ==> final(store)@ == with_more_entropy(old(store)@, fresh_entropy@),
{
    let _ = supply_more_entropy(store, fresh_entropy);
    let mut rng = get_random_number_generator(store);
    match msg {
        ExecuteMsg::AddObservation { value, .. } => try_add_observation(store, value),
        ExecuteMsg::FuzzyCount { .. } => try_fuzzy_count(store, sender, &mut rng),
        ExecuteMsg::FuzzyMean { .. } => try_fuzzy_mean(store, sender, &mut rng),
        ExecuteMsg::Reset { .. } => try_reset(store, sender),
    }
}

/// Takes one observation into the statistics. Anyone may call this. The
/// first observation after a reset sets the count to one and the sum and
/// both bounds to the value; a later one raises the count, adds to the sum
/// and widens the bounds to include the value.
pub fn try_add_observation(
    store: &mut Store,
    value: String,
) -> (r: Result<ExecuteAnswer, ContractError>)
    ensures
        viewed(r) == add_observation_outcome(old(store)@, value@).1,
        final(store)@ == add_observation_outcome(old(store)@, value@).0,
        r is Err ==> final(store)@ == old(store)@,
{
    let fixed_value = match fixed_from_str(value) {
        Ok(fixed_value) => fixed_value,
        Err(e) => {
            return Err(e);
        },
    };
    let stats = match get_stats(store) {
        Ok(stats) => stats,
        Err(e) => {
            return Err(e);
        },
    };
    let next = match stats.observe(fixed_value) {
        Some(next) => next,
        None => {
            return Err(ContractError::Arithmetic);
        },
    };
    let _ = set_stats(store, next);
    Ok(ExecuteAnswer::AddObservation { status: ResponseStatus::Success })
}

/// Checks that a query may go ahead and reads what it works with. It is
/// refused with `Unauthorized` where the caller is not the administrator,
/// else with `NoData` where nothing was observed, else with
/// `BudgetExhausted` where no budget is left.
pub fn authorize_query(
    store: &Store,
    sender: &Vec<u8>,
) -> (r: Result<(Config, Stats, Fixed), ContractError>)
    ensures
        match query_authorization(store@, sender@) {
            Ok((config, stats, budget)) => r matches Ok(granted) && granted.0@ == config
                && granted.1 == stats && granted.2 == budget,
            Err(e) => r matches Err(x) && x == e,
        },
{
    let config = match get_config(store) {
        Ok(config) => config,
        Err(e) => {
            return Err(e);
        },
    };
    if !same_bytes(sender, &config.admin) {
        return Err(ContractError::Unauthorized);
    }
    let stats = match get_stats(store) {
        Ok(stats) => stats,
        Err(e) => {
            return Err(e);
        },
    };
    if stats.count == 0 {
        return Err(ContractError::NoData);
    }
    let budget_remaining = match get_budget_remaining(store) {
        Ok(budget_remaining) => budget_remaining,
        Err(e) => {
            return Err(e);
        },
    };
    if budget_remaining.bits <= 0 {
        return Err(ContractError::BudgetExhausted);
    }
    Ok((config, stats, budget_remaining))
}

/// The scale of the noise for a query of the given sensitivity: the
/// sensitivity over epsilon, rounded toward zero to a multiple of `2^-32`.
pub fn noise_scale_of(sensitivity: Fixed, epsilon: Fixed) -> (scale: Fixed)
    requires
        epsilon@ != 0,
    ensures
        scale == noise_scale(sensitivity, epsilon),
{
    proof {
        reveal(noise_scale);
    }
    sensitivity.wrapping_div(epsilon)
}

/// The count with noise added.
pub fn fuzzy_count_of(count: u32, noise: Fixed) -> (fuzzy_count: Fixed)
    ensures
        fuzzy_count == noisy_count(count, noise),
{
    Fixed::from_u32(count).wrapping_add(noise)
}

/// The mean with noise: the sum with its noise, divided by the count with
/// its noise. There is none where the noisy count is zero.
pub fn fuzzy_mean_of(
    stats: Stats,
    sum_noise: Fixed,
    count_noise: Fixed,
) -> (fuzzy_mean: Option<Fixed>)
    ensures
        fuzzy_mean == noisy_mean(stats, sum_noise, count_noise),
{
    proof {
        reveal(noisy_mean);
    }
    let fuzzy_sum = stats.sum.wrapping_add(sum_noise.widen());
    let fuzzy_count = fuzzy_count_of(stats.count, count_noise).widen();
    if fuzzy_count.bits == 0 {
        None
    } else {
        Some(fuzzy_sum.wrapping_div(fuzzy_count).narrow())
    }
}

/// Answers with the count of the observations plus Laplace noise of scale
/// one over epsilon, and takes epsilon from the budget. Only the
/// administrator may ask, only when there is data, and only while budget is
/// left. The call is refused with `Arithmetic` where a draw has no
/// logarithm, or where epsilon is zero, which it is in no engine that
/// [`instantiate`] made. A refused call leaves the store as it was. The
/// noise takes two words from the generator.
pub fn try_fuzzy_count(
    store: &mut Store,
    sender: &Vec<u8>,
    rng: &mut Generator,
) -> (r: Result<ExecuteAnswer, ContractError>)
    ensures
        viewed(r) == fuzzy_count_outcome(old(store)@, sender@, old(rng)@).1,
        final(store)@ == fuzzy_count_outcome(old(store)@, sender@, old(rng)@).0,
        final(rng)@ == old(rng)@.advanced(words_drawn(old(store)@, sender@, 2)),
        r is Err ==> final(store)@ == old(store)@,
{
    let (config, stats, budget_remaining) = match authorize_query(store, sender) {
        Ok(granted) => granted,
        Err(e) => {
            return Err(e);
        },
    };
    let epsilon = config.epsilon;
    if epsilon.bits == 0 {
        return Err(ContractError::Arithmetic);
    }
    let scale = noise_scale_of(Fixed::one(), epsilon);
    let noise = match laplace(rng, scale) {
        Some(noise) => noise,
        None => {
            return Err(ContractError::Arithmetic);
        },
    };
    let fuzzy_count = fuzzy_count_of(stats.count, noise);
    let _ = set_budget_remaining(store, budget_remaining.wrapping_sub(epsilon));
    Ok(ExecuteAnswer::FuzzyCount { count: fuzzy_count.to_string() })
}

/// Answers with the noisy sum of the observations divided by their noisy
/// count, and takes twice epsilon from the budget. The noise of the sum has
/// the scale of the observed range over epsilon, that of the count the scale
/// one over epsilon. Only the administrator may ask, only when there is data,
/// and only while budget is left. The call is refused with `Arithmetic`
/// where a draw has no logarithm or the noisy count is zero, or where
/// epsilon is zero, which it is in no engine that [`instantiate`] made. A
/// refused call leaves the store as it was. The two noises take four words
/// from the generator.
pub fn try_fuzzy_mean(
    store: &mut Store,
    sender: &Vec<u8>,
    rng: &mut Generator,
) -> (r: Result<ExecuteAnswer, ContractError>)
    ensures
        viewed(r) == fuzzy_mean_outcome(old(store)@, sender@, old(rng)@).1,
        final(store)@ == fuzzy_mean_outcome(old(store)@, sender@, old(rng)@).0,
        final(rng)@ == old(rng)@.advanced(words_drawn(old(store)@, sender@, 4)),
        r is Err ==> final(store)@ == old(store)@,
{
    let (config, stats, budget_remaining) = match authorize_query(store, sender) {
        Ok(granted) => granted,
        Err(e) => {
            return Err(e);
        },
    };
    let epsilon = config.epsilon;
    if epsilon.bits == 0 {
        return Err(ContractError::Arithmetic);
    }
    let sensitivity = stats.upper_bound.wrapping_sub(stats.lower_bound);
    let sum_noise = laplace(rng, noise_scale_of(sensitivity, epsilon));
    let count_noise = laplace(rng, noise_scale_of(Fixed::one(), epsilon));
    proof {
        lemma_advanced_twice(old(rng)@, 2, 2);
    }
    let fuzzy_mean = match (sum_noise, count_noise) {
        (Some(sum_noise), Some(count_noise)) => match fuzzy_mean_of(stats, sum_noise, count_noise) {
            Some(fuzzy_mean) => fuzzy_mean,
            None => {
                return Err(ContractError::Arithmetic);
            },
        },
        _ => {
            return Err(ContractError::Arithmetic);
        },
    };
    let _ = set_budget_remaining(
        store,
        budget_remaining.wrapping_sub(epsilon.wrapping_double()),
    );
    Ok(ExecuteAnswer::FuzzyMean { mean: fuzzy_mean.to_string() })
}

/// Restores the whole budget and forgets the observations. Only the
/// administrator may ask; anyone else is refused with `Unauthorized` and the
/// store is left as it was.
pub fn try_reset(store: &mut Store, sender: &Vec<u8>) -> (r: Result<ExecuteAnswer, ContractError>)
    ensures
        viewed(r) == reset_outcome(old(store)@, sender@).1,
        final(store)@ == reset_outcome(old(store)@, sender@).0,
        r is Err ==> final(store)@ == old(store)@,
{
    let config = match get_config(store) {
        Ok(config) => config,
        Err(e) => {
            return Err(e);
        },
    };
    if !same_bytes(sender, &config.admin) {
        return Err(ContractError::Unauthorized);
    }
    let _ = set_budget_remaining(store, config.privacy_budget);
    let _ = set_stats(store, Stats::empty());
    Ok(ExecuteAnswer::Reset { status: ResponseStatus::Success })
}

/// Answers a query. The store is only read.
pub fn query(store: &Store, msg: QueryMsg) -> (r: Result<QueryAnswer, ContractError>)
    ensures
        viewed(r) == query_outcome(store@, msg),
{
    match msg {
        QueryMsg::GetEpsilon {} => query_get_epsilon(store),
    }
}

/// The epsilon that the engine was created with, in decimal notation.
pub fn query_get_epsilon(store: &Store) -> (r: Result<QueryAnswer, ContractError>)
    ensures
        viewed(r) == query_outcome(store@, QueryMsg::GetEpsilon {}),
{
    let config = match get_config(store) {
        Ok(config) => config,
        Err(e) => {
            return Err(e);
        },
    };
    Ok(QueryAnswer::GetEpsilon { epsilon: config.epsilon.to_string() })
}


/// A call that is refused leaves the configuration, the statistics and the
/// budget as they were. Whether it is refused or not, the configuration
/// stays and the pool becomes the digest of the old pool followed by the
/// content of the call.
pub proof fn lemma_refused_call_moves_only_the_pool(
    store: StoreView,
    sender: Seq<u8>,
    msg: ExecuteMsgView,
    fresh_entropy: Seq<u8>,
)
    ensures
        ({
            let after = execute_outcome(store, sender, msg, fresh_entropy);
            &&& after.0.entropy_pool == with_more_entropy(store, fresh_entropy).entropy_pool
            &&& after.0.config == store.config
            &&& after.1 is Err ==> after.0.stats == store.stats && after.0.budget_remaining
                == store.budget_remaining
        }),
{
}

/// Between two resets the budget never grows: an observation leaves it as it
/// was, and a query that is answered takes its cost from it. This holds for
/// an epsilon above zero, which every engine that [`instantiate`] made has,
/// as long as taking twice epsilon for a mean does not wrap below the least
/// number.
pub proof fn lemma_budget_never_increases(
    store: StoreView,
    sender: Seq<u8>,
    msg: ExecuteMsgView,
    fresh_entropy: Seq<u8>,
)
    requires
        !(msg is Reset),
        config_of(store) matches Ok(config) && config.epsilon@ > 0,
        budget_of(store) is Ok,
        msg is FuzzyMean && execute_outcome(store, sender, msg, fresh_entropy).1 is Ok ==> 2
            * config_of(store)->Ok_0.epsilon@ - budget_of(store)->Ok_0@ <= 0x8000_0000_0000_0000,
    ensures
        budget_of(execute_outcome(store, sender, msg, fresh_entropy).0) matches Ok(after)
            && after@ <= budget_of(store)->Ok_0@,
{
    let stirred = with_more_entropy(store, fresh_entropy);
    let config = config_of(store)->Ok_0;
    let budget = budget_of(store)->Ok_0;
    let after = execute_outcome(store, sender, msg, fresh_entropy);
    if after.1 is Ok {
        match msg {
            ExecuteMsgView::FuzzyCount { .. } => {
                lemma_budget_round_trip(stirred, budget.spec_wrapping_sub(config.epsilon));
            },
            ExecuteMsgView::FuzzyMean { .. } => {
                lemma_budget_round_trip(
                    stirred,
                    budget.spec_wrapping_sub(config.epsilon.spec_wrapping_double()),
                );
            },
            _ => {},
        }
    }
}

/// A reset that is carried out leaves the whole budget and no observation.
pub proof fn lemma_reset_restores(store: StoreView, sender: Seq<u8>, fresh_entropy: Seq<u8>)
    requires
        config_of(store) matches Ok(config) && config.admin == sender,
    ensures
        ({
            let msg = ExecuteMsgView::Reset { padding: Seq::empty() };
            let after = execute_outcome(store, sender, msg, fresh_entropy);
            &&& after.1 == Ok::<ExecuteAnswerView, ContractError>(
                ExecuteAnswerView::Reset { status: ResponseStatus::Success },
            )
            &&& budget_of(after.0) == Ok::<Fixed, ContractError>(
                config_of(store)->Ok_0.privacy_budget,
            )
            &&& stats_of(after.0) == Ok::<Stats, ContractError>(Stats::spec_empty())
        }),
{
    let stirred = with_more_entropy(store, fresh_entropy);
    let config = config_of(store)->Ok_0;
    lemma_budget_round_trip(stirred, config.privacy_budget);
    lemma_stats_round_trip(with_budget(stirred, config.privacy_budget), Stats::spec_empty());
}

/// A reset right after a reset changes neither the statistics nor the
/// budget: two resets in a row leave what one leaves. Only the pool moves.
pub proof fn lemma_reset_idempotent(
    store: StoreView,
    sender: Seq<u8>,
    padding1: Seq<char>,
    fresh_entropy1: Seq<u8>,
    padding2: Seq<char>,
    fresh_entropy2: Seq<u8>,
)
    ensures
        ({
            let once = execute_outcome(
                store,
                sender,
                ExecuteMsgView::Reset { padding: padding1 },
                fresh_entropy1,
            );
            let twice = execute_outcome(
                once.0,
                sender,
                ExecuteMsgView::Reset { padding: padding2 },
                fresh_entropy2,
            );
            &&& twice.1 == once.1
            &&& twice.0.stats == once.0.stats
            &&& twice.0.budget_remaining == once.0.budget_remaining
            &&& twice.0.config == once.0.config
        }),
{
}


/// A new engine holds the configuration it was given, the whole budget and
/// no observation, and its epsilon and its budget are above zero.
pub proof fn lemma_instantiate_fills_the_store(
    store: StoreView,
    sender: Seq<u8>,
    epsilon: Seq<char>,
    privacy_budget: Seq<char>,
    fresh_entropy: Seq<u8>,
)
    requires
        instantiate_outcome(store, sender, epsilon, privacy_budget, fresh_entropy).1 is Ok,
    ensures
        ({
            let after = instantiate_outcome(store, sender, epsilon, privacy_budget, fresh_entropy).0;
            &&& config_of(after) matches Ok(config) && config.wf() && config.admin == sender
                && Ok::<Fixed, ContractError>(config.epsilon) == parsed_fixed(epsilon) && Ok::<
                Fixed,
                ContractError,
            >(config.privacy_budget) == parsed_fixed(privacy_budget)
            &&& budget_of(after) == parsed_fixed(privacy_budget)
            &&& budget_of(after)->Ok_0@ > 0
            &&& stats_of(after) == Ok::<Stats, ContractError>(Stats::spec_empty())
        }),
{
    let config = ConfigView {
        admin: sender,
        epsilon: parsed_fixed(epsilon)->Ok_0,
        privacy_budget: parsed_fixed(privacy_budget)->Ok_0,
    };
    let with_the_config = with_config(store, config);
    let with_the_budget = with_budget(with_the_config, config.privacy_budget);
    lemma_config_round_trip(store, config);
    lemma_budget_round_trip(with_the_config, config.privacy_budget);
    lemma_stats_round_trip(with_the_budget, Stats::spec_empty());
}

/// The statistics stay well formed: whatever the call, if they were well
/// formed before it they are after it.
pub proof fn lemma_statistics_stay_well_formed(
    store: StoreView,
    sender: Seq<u8>,
    msg: ExecuteMsgView,
    fresh_entropy: Seq<u8>,
)
    requires
        stats_of(store) matches Ok(stats) && stats.wf(),
    ensures
        stats_of(execute_outcome(store, sender, msg, fresh_entropy).0) matches Ok(stats)
            && stats.wf(),
{
    let stirred = with_more_entropy(store, fresh_entropy);
    let before = stats_of(store)->Ok_0;
    let after = execute_outcome(store, sender, msg, fresh_entropy);
    if after.1 is Ok {
        match msg {
            ExecuteMsgView::AddObservation { value, .. } => {
                let next = before.spec_observe(parsed_fixed(value)->Ok_0)->Some_0;
                lemma_stats_round_trip(stirred, next);
            },
            ExecuteMsgView::Reset { .. } => {
                let config = config_of(store)->Ok_0;
                lemma_stats_round_trip(
                    with_budget(stirred, config.privacy_budget),
                    Stats::spec_empty(),
                );
            },
            _ => {},
        }
    }
}


/// An observation that is accepted extends the history of the statistics:
/// where the statistics were those of `values` observed in order, they are
/// now those of `values` followed by the new value. So the bounds that
/// [`crate::state::lemma_range_invariant`] speaks of are those of all the
/// observations accepted since the last reset.
pub proof fn lemma_observation_extends_the_history(
    store: StoreView,
    sender: Seq<u8>,
    value: Seq<char>,
    padding: Seq<char>,
    fresh_entropy: Seq<u8>,
    values: Seq<Fixed>,
)
    requires
        stats_of(store) matches Ok(stats) && stats_after(values) == Some(stats),
        execute_outcome(
            store,
            sender,
            ExecuteMsgView::AddObservation { value, padding },
            fresh_entropy,
        ).1 is Ok,
    ensures
        parsed_fixed(value) matches Ok(fixed_value) && stats_of(
            execute_outcome(
                store,
                sender,
                ExecuteMsgView::AddObservation { value, padding },
                fresh_entropy,
            ).0,
        ) matches Ok(stats) && stats_after(values.push(fixed_value)) == Some(stats),
{
    let stirred = with_more_entropy(store, fresh_entropy);
    let fixed_value = parsed_fixed(value)->Ok_0;
    let next = stats_of(store)->Ok_0.spec_observe(fixed_value)->Some_0;
    lemma_stats_round_trip(stirred, next);
    assert(values.push(fixed_value).drop_last() =~= values);
}

/// One call: who makes it, what it asks for, and its content for the pool.
pub struct CallView {
    pub sender: Seq<u8>,
    pub msg: ExecuteMsgView,
    pub fresh_entropy: Seq<u8>,
}

/// The store that a sequence of calls leaves, each call working on what the
/// one before it left. It is a function of the first store and of the calls:
/// the same calls on the same store leave the same store.
pub open spec fn store_after(store: StoreView, calls: Seq<CallView>) -> StoreView
    decreases calls.len(),
{
    if calls.len() == 0 {
        store
    } else {
        let call = calls.last();
        execute_outcome(
            store_after(store, calls.drop_last()),
            call.sender,
            call.msg,
            call.fresh_entropy,
        ).0
    }
}

/// The answers that a sequence of calls gets, in the order of the calls.
pub open spec fn answers_to(store: StoreView, calls: Seq<CallView>) -> Seq<
    Result<ExecuteAnswerView, ContractError>,
>
    decreases calls.len(),
{
    if calls.len() == 0 {
        Seq::empty()
    } else {
        let call = calls.last();
        answers_to(store, calls.drop_last()).push(
            execute_outcome(
                store_after(store, calls.drop_last()),
                call.sender,
                call.msg,
                call.fresh_entropy,
            ).1,
        )
    }
}

/// Two runs agree: the same calls in the same order, made on stores that
/// hold the same bytes, leave stores that hold the same bytes and get the
/// same answers.
pub proof fn lemma_same_calls_same_outcome(
    first: StoreView,
    second: StoreView,
    first_calls: Seq<CallView>,
    second_calls: Seq<CallView>,
)
    requires
        first == second,
        first_calls.len() == second_calls.len(),
        forall|i: int| 0 <= i < first_calls.len() ==> first_calls[i] == second_calls[i],
    ensures
        store_after(first, first_calls) == store_after(second, second_calls),
        answers_to(first, first_calls) == answers_to(second, second_calls),
{
    assert(first_calls =~= second_calls);
}

/// Whether the cost of every mean that the calls are answered fits: taking
/// twice epsilon from the budget does not wrap below the least number.
pub open spec fn mean_costs_fit(store: StoreView, calls: Seq<CallView>) -> bool
    decreases calls.len(),
{
    if calls.len() == 0 {
        true
    } else {
        let call = calls.last();
        let before = store_after(store, calls.drop_last());
        &&& mean_costs_fit(store, calls.drop_last())
        &&& call.msg is FuzzyMean && execute_outcome(
            before,
            call.sender,
            call.msg,
            call.fresh_entropy,
        ).1 is Ok ==> 2 * config_of(before)->Ok_0.epsilon@ - budget_of(before)->Ok_0@
            <= 0x8000_0000_0000_0000
    }
}

/// Over any sequence of calls without a reset the budget does not grow, and
/// the configuration stays.
pub proof fn lemma_budget_never_increases_over_calls(store: StoreView, calls: Seq<CallView>)
    requires
        config_of(store) matches Ok(config) && config.epsilon@ > 0,
        budget_of(store) is Ok,
        forall|i: int| 0 <= i < calls.len() ==> !((#[trigger] calls[i]).msg is Reset),
        mean_costs_fit(store, calls),
    ensures
        config_of(store_after(store, calls)) == config_of(store),
        budget_of(store_after(store, calls)) matches Ok(after) && after@ <= budget_of(
            store,
        )->Ok_0@,
    decreases calls.len(),
{
    if calls.len() > 0 {
        let earlier = calls.drop_last();
        let call = calls.last();
        assert forall|i: int| 0 <= i < earlier.len() implies !((#[trigger] earlier[i]).msg
            is Reset) by {
            assert(earlier[i] == calls[i]);
        }
        lemma_budget_never_increases_over_calls(store, earlier);
        let before = store_after(store, earlier);
        assert(!(call.msg is Reset)) by {
            assert(calls[calls.len() - 1] == call);
        }
        lemma_refused_call_moves_only_the_pool(before, call.sender, call.msg, call.fresh_entropy);
        lemma_budget_never_increases(before, call.sender, call.msg, call.fresh_entropy);
    }
}


/// No call changes the configuration: whatever the calls, the store holds
/// the configuration it held before them.
pub proof fn lemma_configuration_never_changes(store: StoreView, calls: Seq<CallView>)
    ensures
        store_after(store, calls).config == store.config,
        config_of(store_after(store, calls)) == config_of(store),
    decreases calls.len(),
{
    if calls.len() > 0 {
        let call = calls.last();
        lemma_configuration_never_changes(store, calls.drop_last());
        lemma_refused_call_moves_only_the_pool(
            store_after(store, calls.drop_last()),
            call.sender,
            call.msg,
            call.fresh_entropy,
        );
    }
}

/// An engine that [`instantiate`] made keeps an epsilon and a privacy budget
/// above zero, and whatever calls follow, resets among them or not, the
/// budget that remains never passes the privacy budget. Between two resets
/// it never grows, as [`lemma_budget_never_increases_over_calls`] says; the
/// one premise left is that the cost of every mean fits.
pub proof fn lemma_budget_stays_within_the_privacy_budget(
    store: StoreView,
    sender: Seq<u8>,
    epsilon: Seq<char>,
    privacy_budget: Seq<char>,
    fresh_entropy: Seq<u8>,
    calls: Seq<CallView>,
)
    requires
        instantiate_outcome(store, sender, epsilon, privacy_budget, fresh_entropy).1 is Ok,
        mean_costs_fit(
            instantiate_outcome(store, sender, epsilon, privacy_budget, fresh_entropy).0,
            calls,
        ),
    ensures
        ({
            let created = instantiate_outcome(
                store,
                sender,
                epsilon,
                privacy_budget,
                fresh_entropy,
            ).0;
            let after = store_after(created, calls);
            &&& config_of(after) matches Ok(config)
            &&& config.wf()
            &&& config_of(after) == config_of(created)
            &&& budget_of(after) matches Ok(remaining)
            &&& remaining@ <= config.privacy_budget@
        }),
    decreases calls.len(),
{
    let created = instantiate_outcome(store, sender, epsilon, privacy_budget, fresh_entropy).0;
    lemma_instantiate_fills_the_store(store, sender, epsilon, privacy_budget, fresh_entropy);
    if calls.len() > 0 {
        let earlier = calls.drop_last();
        let call = calls.last();
        lemma_budget_stays_within_the_privacy_budget(
            store,
            sender,
            epsilon,
            privacy_budget,
            fresh_entropy,
            earlier,
        );
        let before = store_after(created, earlier);
        lemma_refused_call_moves_only_the_pool(before, call.sender, call.msg, call.fresh_entropy);
        if call.msg is Reset {
            if execute_outcome(before, call.sender, call.msg, call.fresh_entropy).1 is Ok {
                lemma_budget_round_trip(
                    with_more_entropy(before, call.fresh_entropy),
                    config_of(before)->Ok_0.privacy_budget,
                );
            }
        } else {
            lemma_budget_never_increases(before, call.sender, call.msg, call.fresh_entropy);
        }
    }
}

} // verus!
