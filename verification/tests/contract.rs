use private_stats::contract::{
    execute, fuzzy_count_of, fuzzy_mean_of, authorize_query, instantiate, query, query_get_epsilon,
    try_add_observation, try_fuzzy_count, try_fuzzy_mean, try_reset,
};
use private_stats::error::ContractError;
use private_stats::fixed_point::{Fixed, WideFixed, ONE_BITS};
use private_stats::msg::{
    ExecuteAnswer, ExecuteMsg, InstantiateMsg, QueryAnswer, QueryMsg, ResponseStatus,
};
use private_stats::random::{get_random_number_generator, Generator};
use private_stats::state::{
    get_budget_remaining, get_config, get_stats, set_budget_remaining, set_config, set_stats,
    Config, Stats, Store,
};
use rand::{RngCore, SeedableRng};
use rand_chacha::ChaChaRng;
use sha2::{Digest, Sha256};
use substrate_fixed::transcendental::ln;
use substrate_fixed::types::{I32F32, I64F64};

fn num(n: i64) -> Fixed {
    Fixed::from_bits(n * ONE_BITS)
}

fn admin() -> Vec<u8> {
    b"admin".to_vec()
}

fn stranger() -> Vec<u8> {
    b"stranger".to_vec()
}

fn engine(epsilon: &str, privacy_budget: &str) -> Store {
    let mut store = Store::new();
    let msg = InstantiateMsg {
        epsilon: epsilon.to_string(),
        privacy_budget: privacy_budget.to_string(),
        entropy: "some entropy".to_string(),
    };
    assert_eq!(instantiate(&mut store, admin(), msg, b"instantiate"), Ok(()));
    store
}

fn observe(store: &mut Store, value: &str, entropy: &[u8]) -> Result<ExecuteAnswer, ContractError> {
    let msg = ExecuteMsg::AddObservation { value: value.to_string(), padding: String::new() };
    execute(store, &stranger(), msg, entropy)
}

fn fuzzy_count(store: &mut Store, sender: &Vec<u8>, entropy: &[u8]) -> Result<ExecuteAnswer, ContractError> {
    execute(store, sender, ExecuteMsg::FuzzyCount { padding: "xx".to_string() }, entropy)
}

fn fuzzy_mean(store: &mut Store, sender: &Vec<u8>, entropy: &[u8]) -> Result<ExecuteAnswer, ContractError> {
    execute(store, sender, ExecuteMsg::FuzzyMean { padding: String::new() }, entropy)
}

fn reset(store: &mut Store, sender: &Vec<u8>, entropy: &[u8]) -> Result<ExecuteAnswer, ContractError> {
    execute(store, sender, ExecuteMsg::Reset { padding: "pad".to_string() }, entropy)
}

fn pool_after(pool: Option<[u8; 32]>, entropy: &[u8]) -> [u8; 32] {
    let mut hasher = Sha256::new();
    hasher.update(pool.unwrap_or([0u8; 32]));
    hasher.update(entropy);
    hasher.finalize().into()
}

fn uniform_of_the_crates(rng: &mut ChaChaRng) -> I32F32 {
    let numerator = rng.next_u32();
    let ratio = I64F64::from_num(numerator) / I64F64::from_num(u32::MAX);
    I32F32::from_num(ratio)
}

fn laplace_of_the_crates(rng: &mut ChaChaRng, scale: I32F32) -> I32F32 {
    let e1: I32F32 = (-scale) * ln::<I32F32, I32F32>(uniform_of_the_crates(rng)).unwrap();
    let e2: I32F32 = (-scale) * ln::<I32F32, I32F32>(uniform_of_the_crates(rng)).unwrap();
    e1 - e2
}

#[test]
fn instantiate_persists_the_configuration_the_budget_and_empty_statistics() {
    let store = engine("1", "10");
    assert_eq!(
        get_config(&store),
        Ok(Config { admin: admin(), epsilon: num(1), privacy_budget: num(10) })
    );
    assert_eq!(get_budget_remaining(&store), Ok(num(10)));
    assert_eq!(get_stats(&store), Ok(Stats::empty()));
    assert_eq!(store.entropy_pool, Some(pool_after(None, b"instantiate")));
}

#[test]
fn instantiate_refuses_what_is_not_a_number() {
    let mut store = Store::new();
    let msg = InstantiateMsg {
        epsilon: "one".to_string(),
        privacy_budget: "10".to_string(),
        entropy: String::new(),
    };
    assert_eq!(instantiate(&mut store, admin(), msg, b"x"), Err(ContractError::InvalidNumber));
    assert_eq!(store, Store::new());
    let msg = InstantiateMsg {
        epsilon: "1".to_string(),
        privacy_budget: "".to_string(),
        entropy: String::new(),
    };
    assert_eq!(instantiate(&mut store, admin(), msg, b"x"), Err(ContractError::InvalidNumber));
    assert_eq!(store, Store::new());
}

#[test]
fn the_whole_course_of_an_engine() {
    let mut store = engine("1", "10");
    assert_eq!(
        observe(&mut store, "5", b"call 1"),
        Ok(ExecuteAnswer::AddObservation { status: ResponseStatus::Success })
    );
    assert_eq!(
        observe(&mut store, "7", b"call 2"),
        Ok(ExecuteAnswer::AddObservation { status: ResponseStatus::Success })
    );
    assert_eq!(
        get_stats(&store),
        Ok(Stats {
            count: 2,
            sum: WideFixed::from_bits(12i128 << 64),
            upper_bound: num(7),
            lower_bound: num(5),
        })
    );
    assert_eq!(get_budget_remaining(&store), Ok(num(10)));

    let answer = fuzzy_count(&mut store, &admin(), b"call 3").unwrap();
    let count = match answer {
        ExecuteAnswer::FuzzyCount { count } => count,
        other => panic!("a count was asked for and {:?} came back", other),
    };
    let value: f64 = count.parse().unwrap();
    assert!((value - 2.0).abs() < 40.0, "the noisy count came out as {}", value);
    assert_eq!(get_budget_remaining(&store), Ok(num(9)));
    assert_eq!(get_stats(&store).unwrap().count, 2);

    assert_eq!(
        reset(&mut store, &admin(), b"call 4"),
        Ok(ExecuteAnswer::Reset { status: ResponseStatus::Success })
    );
    assert_eq!(get_budget_remaining(&store), Ok(num(10)));
    assert_eq!(get_stats(&store), Ok(Stats::empty()));
    assert_eq!(get_stats(&store).unwrap().count, 0);
}

#[test]
fn anyone_may_add_an_observation() {
    let mut store = engine("1", "10");
    let msg = ExecuteMsg::AddObservation { value: "2.5".to_string(), padding: String::new() };
    assert!(execute(&mut store, &stranger(), msg.clone(), b"a").is_ok());
    assert!(execute(&mut store, &admin(), msg, b"b").is_ok());
    assert_eq!(get_stats(&store).unwrap().count, 2);
    assert_eq!(get_stats(&store).unwrap().sum, WideFixed::from_bits(5i128 << 64));
}

#[test]
fn an_observation_that_is_not_a_number_is_refused() {
    let mut store = engine("1", "10");
    observe(&mut store, "5", b"a").unwrap();
    let before = store.clone();
    assert_eq!(observe(&mut store, "five", b"b"), Err(ContractError::InvalidNumber));
    assert_eq!(store.stats, before.stats);
    assert_eq!(store.budget_remaining, before.budget_remaining);
    assert_eq!(store.config, before.config);
    assert_eq!(store.entropy_pool, Some(pool_after(before.entropy_pool, b"b")));
}

#[test]
fn the_padding_is_never_looked_at() {
    let mut plain = engine("1", "10");
    let mut padded = engine("1", "10");
    let msg = ExecuteMsg::AddObservation { value: "5".to_string(), padding: String::new() };
    execute(&mut plain, &admin(), msg, b"same").unwrap();
    let msg = ExecuteMsg::AddObservation { value: "5".to_string(), padding: "*".repeat(100) };
    execute(&mut padded, &admin(), msg, b"same").unwrap();
    assert_eq!(plain, padded);
    assert_eq!(
        execute(&mut plain, &admin(), ExecuteMsg::FuzzyCount { padding: String::new() }, b"q"),
        execute(&mut padded, &admin(), ExecuteMsg::FuzzyCount { padding: "!!".to_string() }, b"q")
    );
}

#[test]
fn queries_are_for_the_administrator_only() {
    let mut store = engine("1", "10");
    observe(&mut store, "5", b"a").unwrap();
    assert_eq!(fuzzy_count(&mut store, &stranger(), b"b"), Err(ContractError::Unauthorized));
    assert_eq!(fuzzy_mean(&mut store, &stranger(), b"c"), Err(ContractError::Unauthorized));
    assert_eq!(reset(&mut store, &stranger(), b"d"), Err(ContractError::Unauthorized));
    assert_eq!(fuzzy_count(&mut store, &b"admi".to_vec(), b"e"), Err(ContractError::Unauthorized));
    assert_eq!(fuzzy_count(&mut store, &b"admin2".to_vec(), b"f"), Err(ContractError::Unauthorized));
    assert_eq!(fuzzy_count(&mut store, &vec![], b"g"), Err(ContractError::Unauthorized));
}

#[test]
fn a_refused_call_moves_only_the_pool() {
    let mut store = engine("1", "10");
    observe(&mut store, "5", b"a").unwrap();
    observe(&mut store, "7", b"b").unwrap();
    fuzzy_count(&mut store, &admin(), b"c").unwrap();
    for (n, call) in [
        ExecuteMsg::FuzzyCount { padding: String::new() },
        ExecuteMsg::FuzzyMean { padding: String::new() },
        ExecuteMsg::Reset { padding: String::new() },
    ]
    .into_iter()
    .enumerate()
    {
        let before = store.clone();
        let entropy = [n as u8; 4];
        assert_eq!(execute(&mut store, &stranger(), call, &entropy), Err(ContractError::Unauthorized));
        assert_eq!(store.stats, before.stats);
        assert_eq!(store.budget_remaining, before.budget_remaining);
        assert_eq!(store.config, before.config);
        assert_ne!(store.entropy_pool, before.entropy_pool);
        assert_eq!(store.entropy_pool, Some(pool_after(before.entropy_pool, &entropy)));
    }
}

#[test]
fn queries_need_data() {
    let mut store = engine("1", "10");
    let before = store.clone();
    assert_eq!(fuzzy_count(&mut store, &admin(), b"a"), Err(ContractError::NoData));
    assert_eq!(fuzzy_mean(&mut store, &admin(), b"b"), Err(ContractError::NoData));
    assert_eq!(store.stats, before.stats);
    assert_eq!(store.budget_remaining, before.budget_remaining);
    assert_ne!(store.entropy_pool, before.entropy_pool);
}

#[test]
fn queries_need_budget() {
    let mut store = engine("1", "10");
    observe(&mut store, "5", b"a").unwrap();
    set_budget_remaining(&mut store, num(0)).unwrap();
    let before = store.clone();
    assert_eq!(fuzzy_count(&mut store, &admin(), b"b"), Err(ContractError::BudgetExhausted));
    assert_eq!(fuzzy_mean(&mut store, &admin(), b"c"), Err(ContractError::BudgetExhausted));
    set_budget_remaining(&mut store, Fixed::from_bits(-1)).unwrap();
    assert_eq!(fuzzy_count(&mut store, &admin(), b"d"), Err(ContractError::BudgetExhausted));
    assert_eq!(store.stats, before.stats);
    // The smallest positive budget is still a budget.
    set_budget_remaining(&mut store, Fixed::from_bits(1)).unwrap();
    assert!(fuzzy_count(&mut store, &admin(), b"e").is_ok());
}

#[test]
fn the_checks_come_in_order() {
    // No data and no budget: the stranger is told that they are a stranger,
    // the administrator that there is no data.
    let mut store = engine("1", "10");
    set_budget_remaining(&mut store, num(0)).unwrap();
    assert_eq!(fuzzy_count(&mut store, &stranger(), b"a"), Err(ContractError::Unauthorized));
    assert_eq!(fuzzy_count(&mut store, &admin(), b"b"), Err(ContractError::NoData));
    assert_eq!(fuzzy_mean(&mut store, &admin(), b"c"), Err(ContractError::NoData));
    // Data and no budget.
    observe(&mut store, "5", b"d").unwrap();
    assert_eq!(fuzzy_count(&mut store, &admin(), b"e"), Err(ContractError::BudgetExhausted));
    assert_eq!(fuzzy_mean(&mut store, &admin(), b"f"), Err(ContractError::BudgetExhausted));
}

#[test]
fn a_missing_slot_is_a_storage_error() {
    let mut store = Store::new();
    assert_eq!(observe(&mut store, "5", b"a"), Err(ContractError::StorageDecodeError));
    assert_eq!(fuzzy_count(&mut store, &admin(), b"b"), Err(ContractError::StorageDecodeError));
    assert_eq!(reset(&mut store, &admin(), b"c"), Err(ContractError::StorageDecodeError));
    assert_eq!(query(&store, QueryMsg::GetEpsilon {}), Err(ContractError::StorageDecodeError));
    let mut store = engine("1", "10");
    observe(&mut store, "5", b"d").unwrap();
    store.budget_remaining = None;
    assert_eq!(fuzzy_count(&mut store, &admin(), b"e"), Err(ContractError::StorageDecodeError));
    store.stats = None;
    assert_eq!(fuzzy_mean(&mut store, &admin(), b"f"), Err(ContractError::StorageDecodeError));
    assert_eq!(observe(&mut store, "5", b"g"), Err(ContractError::StorageDecodeError));
}

#[test]
fn an_epsilon_of_zero_has_no_noise_scale() {
    // No engine is created with such an epsilon: the store is filled by hand.
    let mut store = Store::new();
    let config = Config { admin: admin(), epsilon: num(0), privacy_budget: num(10) };
    set_config(&mut store, config).unwrap();
    set_budget_remaining(&mut store, num(10)).unwrap();
    set_stats(&mut store, Stats::empty()).unwrap();
    observe(&mut store, "5", b"a").unwrap();
    let before = store.clone();
    assert_eq!(fuzzy_count(&mut store, &admin(), b"b"), Err(ContractError::Arithmetic));
    assert_eq!(fuzzy_mean(&mut store, &admin(), b"c"), Err(ContractError::Arithmetic));
    assert_eq!(store.stats, before.stats);
    assert_eq!(store.budget_remaining, before.budget_remaining);
}

#[test]
fn a_full_count_refuses_observations() {
    let mut store = engine("1", "10");
    let full = Stats {
        count: u32::MAX,
        sum: WideFixed::from_bits(0),
        upper_bound: num(1),
        lower_bound: num(0),
    };
    set_stats(&mut store, full).unwrap();
    assert_eq!(observe(&mut store, "1", b"a"), Err(ContractError::Arithmetic));
    assert_eq!(get_stats(&store), Ok(full));
}

#[test]
fn the_noisy_count_is_the_count_plus_laplace_noise() {
    let mut store = engine("0.5", "10");
    for (i, value) in ["5", "7", "6"].iter().enumerate() {
        observe(&mut store, value, &[i as u8]).unwrap();
    }
    let pool = pool_after(store.entropy_pool, b"count");
    let mut rng = ChaChaRng::from_seed(pool);
    let epsilon = I32F32::from_bits(1 << 31);
    let noise = laplace_of_the_crates(&mut rng, I32F32::from_num(1) / epsilon);
    let expected = I32F32::from_num(3u32) + noise;
    assert_eq!(
        fuzzy_count(&mut store, &admin(), b"count"),
        Ok(ExecuteAnswer::FuzzyCount { count: expected.to_string() })
    );
    assert_eq!(get_budget_remaining(&store), Ok(Fixed::from_bits(19 << 31)));
    assert_eq!(store.entropy_pool, Some(pool));
}

#[test]
fn the_noisy_mean_is_the_noisy_sum_over_the_noisy_count() {
    let mut store = engine("2", "10");
    for (i, value) in ["5", "7", "6", "10.5"].iter().enumerate() {
        observe(&mut store, value, &[i as u8]).unwrap();
    }
    let stats = get_stats(&store).unwrap();
    let pool = pool_after(store.entropy_pool, b"mean");
    let mut rng = ChaChaRng::from_seed(pool);
    let epsilon = I32F32::from_num(2);
    let upper = I32F32::from_bits(stats.upper_bound.to_bits());
    let lower = I32F32::from_bits(stats.lower_bound.to_bits());
    let sum_noise = laplace_of_the_crates(&mut rng, (upper - lower) / epsilon);
    let fuzzy_sum = I64F64::from_bits(stats.sum.to_bits()) + I64F64::from_num(sum_noise);
    let noise = laplace_of_the_crates(&mut rng, I32F32::from_num(1) / epsilon);
    let fuzzy_count = I64F64::from_num(I32F32::from_num(stats.count) + noise);
    let expected = I32F32::from_num(fuzzy_sum / fuzzy_count);
    assert_eq!(
        fuzzy_mean(&mut store, &admin(), b"mean"),
        Ok(ExecuteAnswer::FuzzyMean { mean: expected.to_string() })
    );
    assert_eq!(get_budget_remaining(&store), Ok(num(6)));
    assert_eq!(get_stats(&store), Ok(stats));
}

#[test]
fn a_count_costs_epsilon_and_a_mean_twice_epsilon() {
    let mut store = engine("0.25", "3");
    observe(&mut store, "1", b"a").unwrap();
    observe(&mut store, "2", b"b").unwrap();
    fuzzy_count(&mut store, &admin(), b"c").unwrap();
    assert_eq!(get_budget_remaining(&store), Ok(Fixed::from_bits(11 << 30)));
    fuzzy_mean(&mut store, &admin(), b"d").unwrap();
    assert_eq!(get_budget_remaining(&store), Ok(Fixed::from_bits(9 << 30)));
    observe(&mut store, "3", b"e").unwrap();
    assert_eq!(get_budget_remaining(&store), Ok(Fixed::from_bits(9 << 30)));
}

#[test]
fn the_budget_never_grows_until_a_reset() {
    let mut store = engine("1", "10");
    let mut last = get_budget_remaining(&store).unwrap();
    for i in 0..30u8 {
        let call = match i % 4 {
            0 => ExecuteMsg::AddObservation { value: format!("{}", i), padding: String::new() },
            1 => ExecuteMsg::FuzzyCount { padding: String::new() },
            2 => ExecuteMsg::FuzzyMean { padding: String::new() },
            _ => ExecuteMsg::FuzzyCount { padding: String::new() },
        };
        let sender = if i % 5 == 0 { stranger() } else { admin() };
        let _ = execute(&mut store, &sender, call, &[i]);
        let now = get_budget_remaining(&store).unwrap();
        assert!(now.to_bits() <= last.to_bits());
        last = now;
    }
    assert!(last.to_bits() <= 0);
    assert_eq!(
        reset(&mut store, &admin(), b"reset"),
        Ok(ExecuteAnswer::Reset { status: ResponseStatus::Success })
    );
    assert_eq!(get_budget_remaining(&store), Ok(num(10)));
}

#[test]
fn the_budget_runs_out() {
    let mut store = engine("1", "3");
    observe(&mut store, "5", b"a").unwrap();
    observe(&mut store, "6", b"b").unwrap();
    assert!(fuzzy_count(&mut store, &admin(), b"c").is_ok());
    assert!(fuzzy_mean(&mut store, &admin(), b"d").is_ok());
    assert_eq!(get_budget_remaining(&store), Ok(num(0)));
    assert_eq!(fuzzy_count(&mut store, &admin(), b"e"), Err(ContractError::BudgetExhausted));
    assert_eq!(fuzzy_mean(&mut store, &admin(), b"f"), Err(ContractError::BudgetExhausted));
    assert!(observe(&mut store, "7", b"g").is_ok());
    reset(&mut store, &admin(), b"h").unwrap();
    assert_eq!(fuzzy_count(&mut store, &admin(), b"i"), Err(ContractError::NoData));
    observe(&mut store, "7", b"j").unwrap();
    assert!(fuzzy_count(&mut store, &admin(), b"k").is_ok());
    assert_eq!(get_budget_remaining(&store), Ok(num(2)));
}

#[test]
fn a_mean_may_take_the_budget_below_zero() {
    let mut store = engine("1", "1");
    observe(&mut store, "5", b"a").unwrap();
    assert!(fuzzy_mean(&mut store, &admin(), b"b").is_ok());
    assert_eq!(get_budget_remaining(&store), Ok(num(-1)));
    assert_eq!(fuzzy_count(&mut store, &admin(), b"c"), Err(ContractError::BudgetExhausted));
}

#[test]
fn two_resets_leave_what_one_leaves() {
    let mut store = engine("1", "10");
    observe(&mut store, "5", b"a").unwrap();
    fuzzy_count(&mut store, &admin(), b"b").unwrap();
    reset(&mut store, &admin(), b"c").unwrap();
    let once = store.clone();
    assert_eq!(
        reset(&mut store, &admin(), b"d"),
        Ok(ExecuteAnswer::Reset { status: ResponseStatus::Success })
    );
    assert_eq!(store.stats, once.stats);
    assert_eq!(store.budget_remaining, once.budget_remaining);
    assert_eq!(store.config, once.config);
    assert_ne!(store.entropy_pool, once.entropy_pool);
    assert_eq!(get_stats(&store), Ok(Stats::empty()));
    assert_eq!(get_budget_remaining(&store), Ok(num(10)));
}

#[test]
fn a_reset_forgets_the_bounds() {
    let mut store = engine("1", "10");
    observe(&mut store, "100", b"a").unwrap();
    observe(&mut store, "-100", b"b").unwrap();
    reset(&mut store, &admin(), b"c").unwrap();
    observe(&mut store, "3", b"d").unwrap();
    assert_eq!(
        get_stats(&store),
        Ok(Stats {
            count: 1,
            sum: WideFixed::from_bits(3i128 << 64),
            upper_bound: num(3),
            lower_bound: num(3),
        })
    );
}

#[test]
fn the_same_calls_give_the_same_state_and_answers() {
    let run = || {
        let mut store = engine("0.75", "20");
        let mut answers = Vec::new();
        for i in 0..40u8 {
            let call = match i % 7 {
                0 | 1 | 2 => ExecuteMsg::AddObservation {
                    value: format!("{}.{}", i, i),
                    padding: String::new(),
                },
                3 => ExecuteMsg::FuzzyCount { padding: String::new() },
                4 => ExecuteMsg::FuzzyMean { padding: String::new() },
                5 => ExecuteMsg::AddObservation { value: "oops".to_string(), padding: String::new() },
                _ => ExecuteMsg::Reset { padding: String::new() },
            };
            let sender = if i % 3 == 0 { stranger() } else { admin() };
            answers.push(execute(&mut store, &sender, call, &[i, i, i]));
        }
        (store, answers)
    };
    let (first_store, first_answers) = run();
    let (second_store, second_answers) = run();
    assert_eq!(first_store, second_store);
    assert_eq!(first_answers, second_answers);
    assert!(first_answers.iter().any(|a| matches!(a, Ok(ExecuteAnswer::FuzzyCount { .. }))));
    assert!(first_answers.iter().any(|a| matches!(a, Ok(ExecuteAnswer::FuzzyMean { .. }))));
}

#[test]
fn the_noise_of_a_call_depends_on_its_content() {
    let mut first = engine("1", "10");
    let mut second = engine("1", "10");
    observe(&mut first, "5", b"a").unwrap();
    observe(&mut second, "5", b"a").unwrap();
    let one = fuzzy_count(&mut first, &admin(), b"one call").unwrap();
    let other = fuzzy_count(&mut second, &admin(), b"another call").unwrap();
    assert_ne!(one, other);
    assert_ne!(first.entropy_pool, second.entropy_pool);
    assert_eq!(first.budget_remaining, second.budget_remaining);
}

#[test]
fn the_operations_can_be_called_one_by_one() {
    let mut store = engine("1", "10");
    assert_eq!(
        try_add_observation(&mut store, "5".to_string()),
        Ok(ExecuteAnswer::AddObservation { status: ResponseStatus::Success })
    );
    let pool = store.entropy_pool;
    let mut rng = get_random_number_generator(&store);
    assert_eq!(
        try_fuzzy_count(&mut store, &stranger(), &mut rng),
        Err(ContractError::Unauthorized)
    );
    assert_eq!(rng.position, 0);
    assert!(try_fuzzy_count(&mut store, &admin(), &mut rng).is_ok());
    assert_eq!(rng.position, 2);
    assert!(try_fuzzy_mean(&mut store, &admin(), &mut rng).is_ok());
    assert_eq!(rng.position, 6);
    assert_eq!(get_budget_remaining(&store), Ok(num(7)));
    assert_eq!(try_reset(&mut store, &stranger()), Err(ContractError::Unauthorized));
    assert_eq!(
        try_reset(&mut store, &admin()),
        Ok(ExecuteAnswer::Reset { status: ResponseStatus::Success })
    );
    assert_eq!(get_budget_remaining(&store), Ok(num(10)));
    // Called on their own, the operations leave the pool alone.
    assert_eq!(store.entropy_pool, pool);
}

#[test]
fn a_mean_draws_the_noise_of_the_sum_first() {
    let mut store = engine("1", "10");
    try_add_observation(&mut store, "2".to_string()).unwrap();
    try_add_observation(&mut store, "4".to_string()).unwrap();
    let seed = [5u8; 32];
    let mut theirs = ChaChaRng::from_seed(seed);
    let sum_noise = laplace_of_the_crates(&mut theirs, I32F32::from_num(2));
    let count_noise = laplace_of_the_crates(&mut theirs, I32F32::from_num(1));
    let expected = fuzzy_mean_of(
        get_stats(&store).unwrap(),
        Fixed::from_bits(sum_noise.to_bits()),
        Fixed::from_bits(count_noise.to_bits()),
    )
    .unwrap();
    let mut rng = Generator { seed, position: 0 };
    assert_eq!(
        try_fuzzy_mean(&mut store, &admin(), &mut rng),
        Ok(ExecuteAnswer::FuzzyMean { mean: expected.to_string() })
    );
}

#[test]
fn a_query_is_granted_what_it_works_with() {
    let mut store = engine("1", "10");
    assert_eq!(authorize_query(&store, &stranger()), Err(ContractError::Unauthorized));
    assert_eq!(authorize_query(&store, &admin()), Err(ContractError::NoData));
    try_add_observation(&mut store, "5".to_string()).unwrap();
    let config = Config { admin: admin(), epsilon: num(1), privacy_budget: num(10) };
    assert_eq!(
        authorize_query(&store, &admin()),
        Ok((config, get_stats(&store).unwrap(), num(10)))
    );
    set_budget_remaining(&mut store, num(0)).unwrap();
    assert_eq!(authorize_query(&store, &admin()), Err(ContractError::BudgetExhausted));
}

#[test]
fn noisy_counts_and_means_of_given_noise() {
    assert_eq!(fuzzy_count_of(2, num(3)), num(5));
    assert_eq!(fuzzy_count_of(2, num(-3)), num(-1));
    assert_eq!(fuzzy_count_of(0, Fixed::from_bits(7)), Fixed::from_bits(7));
    let stats = Stats {
        count: 2,
        sum: WideFixed::from_bits(12i128 << 64),
        upper_bound: num(7),
        lower_bound: num(5),
    };
    // (12 + 0) / (2 + 0) = 6
    assert_eq!(fuzzy_mean_of(stats, num(0), num(0)), Some(num(6)));
    // (12 + 3) / (2 + 1) = 5
    assert_eq!(fuzzy_mean_of(stats, num(3), num(1)), Some(num(5)));
    // (12 - 2) / (2 + 2) = 2.5
    assert_eq!(fuzzy_mean_of(stats, num(-2), num(2)), Some(Fixed::from_bits(5 << 31)));
    // (12 + 1) / (2 - 4) = -6.5
    assert_eq!(fuzzy_mean_of(stats, num(1), num(-4)), Some(Fixed::from_bits(-(13 << 31))));
}

#[test]
fn no_mean_where_the_noisy_count_is_zero() {
    let stats = Stats {
        count: 2,
        sum: WideFixed::from_bits(12i128 << 64),
        upper_bound: num(7),
        lower_bound: num(5),
    };
    assert_eq!(fuzzy_mean_of(stats, num(1), num(-2)), None);
    assert!(fuzzy_mean_of(stats, num(1), Fixed::from_bits(-2 * ONE_BITS + 1)).is_some());
}

#[test]
fn a_large_count_wraps_in_the_noisy_count() {
    assert_eq!(fuzzy_count_of(0x8000_0000, num(0)), Fixed::from_bits(i64::MIN));
    assert_eq!(fuzzy_count_of(u32::MAX, num(0)), num(-1));
}

#[test]
fn epsilon_can_be_queried() {
    let store = engine("0.5", "10");
    assert_eq!(
        query(&store, QueryMsg::GetEpsilon {}),
        Ok(QueryAnswer::GetEpsilon { epsilon: "0.5".to_string() })
    );
    assert_eq!(
        query_get_epsilon(&store),
        Ok(QueryAnswer::GetEpsilon { epsilon: "0.5".to_string() })
    );
    let before = store.clone();
    let _ = query(&store, QueryMsg::GetEpsilon {});
    assert_eq!(store, before);
    let store = engine("1", "10");
    assert_eq!(
        query(&store, QueryMsg::GetEpsilon {}),
        Ok(QueryAnswer::GetEpsilon { epsilon: "1".to_string() })
    );
}

#[test]
fn a_large_epsilon_can_make_a_mean_raise_the_budget() {
    // Twice this epsilon does not fit, so the cost of a mean wraps.
    let mut store = Store::new();
    let config = Config { admin: admin(), epsilon: num(2_000_000_000), privacy_budget: num(1) };
    set_config(&mut store, config).unwrap();
    set_budget_remaining(&mut store, num(1)).unwrap();
    set_stats(&mut store, Stats::empty()).unwrap();
    observe(&mut store, "5", b"a").unwrap();
    observe(&mut store, "6", b"b").unwrap();
    let mut raised = false;
    for i in 0..20u8 {
        set_budget_remaining(&mut store, num(1)).unwrap();
        if fuzzy_mean(&mut store, &admin(), &[i]).is_ok() {
            let expected = num(1).wrapping_sub(num(2_000_000_000).wrapping_double());
            assert_eq!(get_budget_remaining(&store), Ok(expected));
            assert!(expected.to_bits() > num(1).to_bits());
            raised = true;
        }
    }
    assert!(raised);
}

#[test]
fn instantiate_refuses_an_epsilon_that_is_not_above_zero() {
    for epsilon in ["0", "-1", "0.0", "-0", "-0.0000000001", "0.00000000000001", "-2147483648"] {
        let mut store = Store::new();
        let msg = InstantiateMsg {
            epsilon: epsilon.to_string(),
            privacy_budget: "10".to_string(),
            entropy: String::new(),
        };
        assert_eq!(
            instantiate(&mut store, admin(), msg, b"x"),
            Err(ContractError::InvalidNumber),
            "for an epsilon of {:?}",
            epsilon
        );
        assert_eq!(store, Store::new());
    }
}

#[test]
fn instantiate_refuses_a_budget_that_is_not_above_zero() {
    for privacy_budget in ["0", "-3", "0.0", "-0", "-0.5"] {
        let mut store = Store::new();
        let msg = InstantiateMsg {
            epsilon: "1".to_string(),
            privacy_budget: privacy_budget.to_string(),
            entropy: String::new(),
        };
        assert_eq!(
            instantiate(&mut store, admin(), msg, b"x"),
            Err(ContractError::InvalidNumber),
            "for a budget of {:?}",
            privacy_budget
        );
        assert_eq!(store, Store::new());
    }
}

#[test]
fn a_refused_instantiate_leaves_an_engine_that_exists() {
    let mut store = engine("1", "10");
    observe(&mut store, "5", b"a").unwrap();
    let before = store.clone();
    let msg = InstantiateMsg {
        epsilon: "0".to_string(),
        privacy_budget: "10".to_string(),
        entropy: String::new(),
    };
    assert_eq!(instantiate(&mut store, stranger(), msg, b"x"), Err(ContractError::InvalidNumber));
    assert_eq!(store, before);
}

#[test]
fn instantiate_accepts_the_smallest_numbers_above_zero() {
    let mut store = Store::new();
    let msg = InstantiateMsg {
        epsilon: "0.0000000003".to_string(),
        privacy_budget: "0.0000000003".to_string(),
        entropy: String::new(),
    };
    assert_eq!(instantiate(&mut store, admin(), msg, b"x"), Ok(()));
    let config = get_config(&store).unwrap();
    assert_eq!(config.epsilon, Fixed::from_bits(1));
    assert_eq!(config.privacy_budget, Fixed::from_bits(1));
    assert_eq!(get_budget_remaining(&store), Ok(Fixed::from_bits(1)));
}

#[test]
fn every_engine_has_an_epsilon_and_a_budget_above_zero() {
    for epsilon in ["1", "0.5", "-1", "0", "2147483647", "x", "3.25", "-0.25"] {
        for privacy_budget in ["10", "0", "-10", "0.125", "", "7"] {
            let mut store = Store::new();
            let msg = InstantiateMsg {
                epsilon: epsilon.to_string(),
                privacy_budget: privacy_budget.to_string(),
                entropy: String::new(),
            };
            match instantiate(&mut store, admin(), msg, b"x") {
                Ok(()) => {
                    let config = get_config(&store).unwrap();
                    assert!(config.epsilon.to_bits() > 0);
                    assert!(config.privacy_budget.to_bits() > 0);
                    assert!(get_budget_remaining(&store).unwrap().to_bits() > 0);
                }
                Err(e) => {
                    assert_eq!(e, ContractError::InvalidNumber);
                    assert_eq!(store, Store::new());
                }
            }
        }
    }
}
