//! The persisted state and its byte forms.
//!
//! The engine keeps four slots between calls: the configuration, the
//! statistics, the budget that remains and the entropy pool. A slot holds a
//! number as its big-endian bytes, so that what is persisted does not depend
//! on the machine. [`Store`] is those four slots; whoever owns the real
//! key-value storage fills a `Store` before a call and writes it back after.
use crate::error::ContractError;
use crate::fixed_point::{
    byte_vec_to_fixed, byte_vec_to_fixed64, decoded_fixed, decoded_wide, fixed_be_bytes,
    fixed_from_bytes, lemma_fixed_round_trip, lemma_wide_round_trip, wide_be_bytes, Fixed,
    WideFixed,
};
use vstd::prelude::*;

verus! {

/// A result with its value replaced by the value's view.
pub open spec fn viewed<T: View>(r: Result<T, ContractError>) -> Result<T::V, ContractError> {
    match r {
        Ok(value) => Ok(value@),
        Err(e) => Err(e),
    }
}

/// The configuration as it is persisted.
#[derive(Clone, Debug, PartialEq)]
pub struct StoredConfig {
    /// The administrator's identity.
    pub admin: Vec<u8>,
    /// The eight bytes of epsilon.
    pub epsilon: Vec<u8>,
    /// The eight bytes of the privacy budget.
    pub privacy_budget: Vec<u8>,
}

/// The configuration: fixed when the engine is created, with an epsilon and
/// a privacy budget above zero.
#[derive(Clone, Debug, PartialEq)]
pub struct Config {
    /// The administrator's identity.
    pub admin: Vec<u8>,
    /// The privacy loss of one count query.
    pub epsilon: Fixed,
    /// The budget that a reset restores.
    pub privacy_budget: Fixed,
}

/// The statistics as they are persisted.
#[derive(Clone, Debug, PartialEq)]
pub struct StoredStats {
    pub count: u32,
    /// The sixteen bytes of the sum.
    pub sum: Vec<u8>,
    /// The eight bytes of the upper bound.
    pub upper_bound: Vec<u8>,
    /// The eight bytes of the lower bound.
    pub lower_bound: Vec<u8>,
}

/// The running statistics of the observations submitted since the last reset.
#[derive(Clone, Copy, Debug, PartialEq, Eq, Structural)]
pub struct Stats {
    /// How many observations were submitted.
    pub count: u32,
    /// Their sum, wrapped on overflow.
    pub sum: WideFixed,
    /// The largest of them.
    pub upper_bound: Fixed,
    /// The smallest of them.
    pub lower_bound: Fixed,
}

/// The four persisted slots. A slot that was never written, or whose bytes
/// could not be read, is `None`.
#[derive(Clone, Debug, PartialEq)]
pub struct Store {
    pub config: Option<StoredConfig>,
    pub stats: Option<StoredStats>,
    /// The eight bytes of the budget that remains.
    pub budget_remaining: Option<Vec<u8>>,
    pub entropy_pool: Option<[u8; 32]>,
}

/// A [`StoredConfig`] with its bytes as sequences.
pub struct StoredConfigView {
    pub admin: Seq<u8>,
    pub epsilon: Seq<u8>,
    pub privacy_budget: Seq<u8>,
}

/// A [`Config`] with its bytes as a sequence.
pub struct ConfigView {
    pub admin: Seq<u8>,
    pub epsilon: Fixed,
    pub privacy_budget: Fixed,
}

/// A [`StoredStats`] with its bytes as sequences.
pub struct StoredStatsView {
    pub count: u32,
    pub sum: Seq<u8>,
    pub upper_bound: Seq<u8>,
    pub lower_bound: Seq<u8>,
}

/// A [`Store`] with its bytes as sequences.
pub struct StoreView {
    pub config: Option<StoredConfigView>,
    pub stats: Option<StoredStatsView>,
    pub budget_remaining: Option<Seq<u8>>,
    pub entropy_pool: Option<Seq<u8>>,
}

impl View for StoredConfig {
    type V = StoredConfigView;

    open spec fn view(&self) -> StoredConfigView {
        StoredConfigView {
            admin: self.admin@,
            epsilon: self.epsilon@,
            privacy_budget: self.privacy_budget@,
        }
    }
}

impl View for Config {
    type V = ConfigView;

    open spec fn view(&self) -> ConfigView {
        ConfigView {
            admin: self.admin@,
            epsilon: self.epsilon,
            privacy_budget: self.privacy_budget,
        }
    }
}

impl View for StoredStats {
    type V = StoredStatsView;

    open spec fn view(&self) -> StoredStatsView {
        StoredStatsView {
            count: self.count,
            sum: self.sum@,
            upper_bound: self.upper_bound@,
            lower_bound: self.lower_bound@,
        }
    }
}

impl View for Stats {
    type V = Stats;

    open spec fn view(&self) -> Stats {
        *self
    }
}

impl View for Store {
    type V = StoreView;

    open spec fn view(&self) -> StoreView {
        StoreView {
            config: match self.config {
                Some(c) => Some(c@),
                None => None,
            },
            stats: match self.stats {
                Some(s) => Some(s@),
                None => None,
            },
            budget_remaining: match self.budget_remaining {
                Some(b) => Some(b@),
                None => None,
            },
            entropy_pool: match self.entropy_pool {
                Some(p) => Some(p@),
                None => None,
            },
        }
    }
}

impl ConfigView {
    /// What a configuration must satisfy: epsilon and the privacy budget are
    /// both above zero.
    pub open spec fn wf(self) -> bool {
        self.epsilon@ > 0 && self.privacy_budget@ > 0
    }
}

/// The configuration that a persisted form stands for. Numbers that are not
/// eight bytes long are refused.
pub open spec fn humanized_config(stored: StoredConfigView) -> Result<ConfigView, ContractError> {
    match (decoded_fixed(stored.epsilon), decoded_fixed(stored.privacy_budget)) {
        (Ok(epsilon), Ok(privacy_budget)) => Ok(
            ConfigView { admin: stored.admin, epsilon, privacy_budget },
        ),
        _ => Err(ContractError::StorageDecodeError),
    }
}

/// The persisted form of a configuration.
pub open spec fn stored_config(config: ConfigView) -> StoredConfigView {
    StoredConfigView {
        admin: config.admin,
        epsilon: fixed_be_bytes(config.epsilon),
        privacy_budget: fixed_be_bytes(config.privacy_budget),
    }
}

/// The statistics that a persisted form stands for. A sum that is not
/// sixteen bytes long, or a bound that is not eight, is refused.
pub open spec fn humanized_stats(stored: StoredStatsView) -> Result<Stats, ContractError> {
    match (
        decoded_wide(stored.sum),
        decoded_fixed(stored.upper_bound),
        decoded_fixed(stored.lower_bound),
    ) {
        (Ok(sum), Ok(upper_bound), Ok(lower_bound)) => Ok(
            Stats { count: stored.count, sum, upper_bound, lower_bound },
        ),
        _ => Err(ContractError::StorageDecodeError),
    }
}

/// The persisted form of the statistics.
pub open spec fn stored_stats(stats: Stats) -> StoredStatsView {
    StoredStatsView {
        count: stats.count,
        sum: wide_be_bytes(stats.sum),
        upper_bound: fixed_be_bytes(stats.upper_bound),
        lower_bound: fixed_be_bytes(stats.lower_bound),
    }
}

/// A copy of the bytes.
fn copy_bytes(bytes: &Vec<u8>) -> (copy: Vec<u8>)
    ensures
        copy@ == bytes@,
{
    let mut copy: Vec<u8> = Vec::new();
    let mut i: usize = 0;
    while i < bytes.len()
        invariant
            i <= bytes@.len(),
            copy@ == bytes@.take(i as int),
        decreases bytes@.len() - i,
    {
        copy.push(bytes[i]);
        i = i + 1;
    }
    proof {
        assert(bytes@.take(i as int) =~= bytes@);
    }
    copy
}

impl StoredConfig {
    /// Decodes the persisted form.
    pub fn into_humanized(self) -> (r: Result<Config, ContractError>)
        ensures
            viewed(r) == humanized_config(self@),
    {
        let epsilon = match byte_vec_to_fixed(self.epsilon) {
            Ok(value) => value,
            Err(e) => {
                return Err(e);
            },
        };
        let privacy_budget = match byte_vec_to_fixed(self.privacy_budget) {
            Ok(value) => value,
            Err(e) => {
                return Err(e);
            },
        };
        Ok(Config { admin: self.admin, epsilon, privacy_budget })
    }

    /// A copy of the persisted form.
    pub fn duplicate(&self) -> (copy: StoredConfig)
        ensures
            copy@ == self@,
    {
        StoredConfig {
            admin: copy_bytes(&self.admin),
            epsilon: copy_bytes(&self.epsilon),
            privacy_budget: copy_bytes(&self.privacy_budget),
        }
    }
}

impl Config {
    /// A configuration, where epsilon and the privacy budget are both above
    /// zero. Any other pair is refused with `InvalidNumber`.
    pub fn new(admin: Vec<u8>, epsilon: Fixed, privacy_budget: Fixed) -> (r: Result<
        Config,
        ContractError,
    >)
        ensures
            epsilon@ > 0 && privacy_budget@ > 0 ==> viewed(r) == Ok::<ConfigView, ContractError>(
                ConfigView { admin: admin@, epsilon, privacy_budget },
            ),
            !(epsilon@ > 0 && privacy_budget@ > 0) ==> viewed(r) == Err::<
                ConfigView,
                ContractError,
            >(ContractError::InvalidNumber),
            r matches Ok(config) ==> config@.wf(),
    {
        if epsilon.bits > 0 && privacy_budget.bits > 0 {
            Ok(Config { admin, epsilon, privacy_budget })
        } else {
            Err(ContractError::InvalidNumber)
        }
    }

    /// Encodes the configuration for persisting. This never fails.
    pub fn into_stored(self) -> (r: Result<StoredConfig, ContractError>)
        ensures
            viewed(r) == Ok::<StoredConfigView, ContractError>(stored_config(self@)),
    {
        Ok(
            StoredConfig {
                admin: self.admin,
                epsilon: self.epsilon.to_be_bytes(),
                privacy_budget: self.privacy_budget.to_be_bytes(),
            },
        )
    }
}

impl StoredStats {
    /// Decodes the persisted form.
    pub fn into_humanized(self) -> (r: Result<Stats, ContractError>)
        ensures
            r == humanized_stats(self@),
    {
        let sum = match byte_vec_to_fixed64(self.sum) {
            Ok(value) => value,
            Err(e) => {
                return Err(e);
            },
        };
        let upper_bound = match byte_vec_to_fixed(self.upper_bound) {
            Ok(value) => value,
            Err(e) => {
                return Err(e);
            },
        };
        let lower_bound = match byte_vec_to_fixed(self.lower_bound) {
            Ok(value) => value,
            Err(e) => {
                return Err(e);
            },
        };
        Ok(Stats { count: self.count, sum, upper_bound, lower_bound })
    }

    /// A copy of the persisted form.
    pub fn duplicate(&self) -> (copy: StoredStats)
        ensures
            copy@ == self@,
    {
        StoredStats {
            count: self.count,
            sum: copy_bytes(&self.sum),
            upper_bound: copy_bytes(&self.upper_bound),
            lower_bound: copy_bytes(&self.lower_bound),
        }
    }
}

impl Stats {
    /// The statistics of no observations: a count and a sum of zero, and
    /// for bounds the sentinels.
    pub open spec fn spec_empty() -> Stats {
        Stats {
            count: 0,
            sum: WideFixed { bits: 0 },
            upper_bound: Fixed { bits: 0 },
            lower_bound: Fixed::spec_from_u32(u32::MAX),
        }
    }

    /// The statistics after one more observation, or nothing where the count
    /// is already the largest it can be. The first observation sets both
    /// bounds and the sum; a later one adds to the sum and widens the bounds
    /// where it lies outside them.
    pub open spec fn spec_observe(self, value: Fixed) -> Option<Stats> {
        if self.count == 0 {
            Some(Stats { count: 1, sum: value.spec_widen(), upper_bound: value, lower_bound: value })
        } else if self.count == u32::MAX {
            None
        } else {
            Some(
                Stats {
                    count: (self.count + 1) as u32,
                    sum: self.sum.spec_wrapping_add(value.spec_widen()),
                    upper_bound: if value@ > self.upper_bound@ {
                        value
                    } else {
                        self.upper_bound
                    },
                    lower_bound: if value@ < self.lower_bound@ {
                        value
                    } else {
                        self.lower_bound
                    },
                },
            )
        }
    }

    /// What the type promises: with no observation the sum and the bounds are
    /// those of [`Stats::spec_empty`], and with any the lower bound is not
    /// above the upper one.
    pub open spec fn wf(&self) -> bool {
        &&& self.count == 0 ==> *self == Stats::spec_empty()
        &&& self.count > 0 ==> self.lower_bound@ <= self.upper_bound@
    }

    /// The statistics of no observations. The lower sentinel is the whole
    /// number `2^32 - 1` wrapped into a [`Fixed`], which is minus one.
    pub fn empty() -> (r: Stats)
        ensures
            r == Stats::spec_empty(),
            r.wf(),
            r.lower_bound@ == -0x1_0000_0000,
    {
        Stats {
            count: 0,
            sum: WideFixed::zero(),
            upper_bound: Fixed::zero(),
            lower_bound: Fixed::from_u32(u32::MAX),
        }
    }

    /// Takes one more observation into the statistics. Nothing is returned
    /// where the count is already the largest it can be.
    pub fn observe(self, value: Fixed) -> (r: Option<Stats>)
        ensures
            r == self.spec_observe(value),
            self.wf() ==> (r matches Some(next) ==> next.wf() && next.count == self.count + 1),
            r is None <==> self.count == u32::MAX,
    {
        if self.count == 0 {
            Some(Stats { count: 1, sum: value.widen(), upper_bound: value, lower_bound: value })
        } else if self.count == u32::MAX {
            None
        } else {
            let upper_bound = if value.bits > self.upper_bound.bits {
                value
            } else {
                self.upper_bound
            };
            let lower_bound = if value.bits < self.lower_bound.bits {
                value
            } else {
                self.lower_bound
            };
            Some(
                Stats {
                    count: self.count + 1,
                    sum: self.sum.wrapping_add(value.widen()),
                    upper_bound,
                    lower_bound,
                },
            )
        }
    }

    /// Encodes the statistics for persisting. This never fails.
    pub fn into_stored(self) -> (r: Result<StoredStats, ContractError>)
        ensures
            viewed(r) == Ok::<StoredStatsView, ContractError>(stored_stats(self)),
    {
        Ok(
            StoredStats {
                count: self.count,
                sum: self.sum.to_be_bytes(),
                upper_bound: self.upper_bound.to_be_bytes(),
                lower_bound: self.lower_bound.to_be_bytes(),
            },
        )
    }
}

/// What reading the configuration slot gives.
pub open spec fn config_of(store: StoreView) -> Result<ConfigView, ContractError> {
    match store.config {
        Some(stored) => humanized_config(stored),
        None => Err(ContractError::StorageDecodeError),
    }
}

/// What reading the statistics slot gives.
pub open spec fn stats_of(store: StoreView) -> Result<Stats, ContractError> {
    match store.stats {
        Some(stored) => humanized_stats(stored),
        None => Err(ContractError::StorageDecodeError),
    }
}

/// What reading the budget slot gives.
pub open spec fn budget_of(store: StoreView) -> Result<Fixed, ContractError> {
    match store.budget_remaining {
        Some(bytes) => decoded_fixed(bytes),
        None => Err(ContractError::StorageDecodeError),
    }
}

/// The store with another configuration slot.
pub open spec fn with_config(store: StoreView, config: ConfigView) -> StoreView {
    StoreView { config: Some(stored_config(config)), ..store }
}

/// The store with another statistics slot.
pub open spec fn with_stats(store: StoreView, stats: Stats) -> StoreView {
    StoreView { stats: Some(stored_stats(stats)), ..store }
}

/// The store with another budget slot.
pub open spec fn with_budget(store: StoreView, remaining: Fixed) -> StoreView {
    StoreView { budget_remaining: Some(fixed_be_bytes(remaining)), ..store }
}

impl Store {
    /// A store in which nothing was written yet.
    pub fn new() -> (store: Store)
        ensures
            store@ == (StoreView {
                config: None,
                stats: None,
                budget_remaining: None,
                entropy_pool: None,
            }),
    {
        Store { config: None, stats: None, budget_remaining: None, entropy_pool: None }
    }
}

/// Writes a slot.
pub fn set_bin_data<T>(slot: &mut Option<T>, data: T)
    ensures
        *final(slot) == Some(data),
{
    *slot = Some(data);
}

/// Reads a slot. A slot that holds nothing is refused.
pub fn get_bin_data<T>(slot: &Option<T>) -> (r: Result<&T, ContractError>)
    ensures
        match *slot {
            Some(data) => r == Ok::<&T, ContractError>(&data),
            None => r == Err::<&T, ContractError>(ContractError::StorageDecodeError),
        },
{
    match slot {
        Some(data) => Ok(data),
        None => Err(ContractError::StorageDecodeError),
    }
}

/// Persists the configuration. This never fails.
pub fn set_config(store: &mut Store, config: Config) -> (r: Result<(), ContractError>)
    ensures
        r is Ok,
        final(store)@ == with_config(old(store)@, config@),
{
    let stored = match config.into_stored() {
        Ok(stored) => stored,
        Err(e) => {
            return Err(e);
        },
    };
    set_bin_data(&mut store.config, stored);
    Ok(())
}

/// Reads the configuration. A slot that is missing or ill-formed is refused
/// with `StorageDecodeError`.
pub fn get_config(store: &Store) -> (r: Result<Config, ContractError>)
    ensures
        viewed(r) == config_of(store@),
{
    let stored = match get_bin_data(&store.config) {
        Ok(stored) => stored,
        Err(e) => {
            return Err(e);
        },
    };
    stored.duplicate().into_humanized()
}

/// Persists the statistics. This never fails.
pub fn set_stats(store: &mut Store, stats: Stats) -> (r: Result<(), ContractError>)
    ensures
        r is Ok,
        final(store)@ == with_stats(old(store)@, stats),
{
    let stored = match stats.into_stored() {
        Ok(stored) => stored,
        Err(e) => {
            return Err(e);
        },
    };
    set_bin_data(&mut store.stats, stored);
    Ok(())
}

/// Reads the statistics. A slot that is missing or ill-formed is refused
/// with `StorageDecodeError`.
pub fn get_stats(store: &Store) -> (r: Result<Stats, ContractError>)
    ensures
        r == stats_of(store@),
{
    let stored = match get_bin_data(&store.stats) {
        Ok(stored) => stored,
        Err(e) => {
            return Err(e);
        },
    };
    stored.duplicate().into_humanized()
}

/// Persists the budget that remains. This never fails.
pub fn set_budget_remaining(
    store: &mut Store,
    remaining: Fixed,
) -> (r: Result<(), ContractError>)
    ensures
        r is Ok,
        final(store)@ == with_budget(old(store)@, remaining),
{
    set_bin_data(&mut store.budget_remaining, remaining.to_be_bytes());
    Ok(())
}

/// Reads the budget that remains. A slot that is missing or ill-formed is
/// refused with `StorageDecodeError`.
pub fn get_budget_remaining(store: &Store) -> (r: Result<Fixed, ContractError>)
    ensures
        r == budget_of(store@),
{
    let stored = match get_bin_data(&store.budget_remaining) {
        Ok(stored) => stored,
        Err(e) => {
            return Err(e);
        },
    };
    fixed_from_bytes(stored)
}

/// What was persisted is what is read back.
pub proof fn lemma_config_round_trip(store: StoreView, config: ConfigView)
    ensures
        config_of(with_config(store, config)) == Ok::<ConfigView, ContractError>(config),
{
    lemma_fixed_round_trip(config.epsilon);
    lemma_fixed_round_trip(config.privacy_budget);
}

/// What was persisted is what is read back.
pub proof fn lemma_stats_round_trip(store: StoreView, stats: Stats)
    ensures
        stats_of(with_stats(store, stats)) == Ok::<Stats, ContractError>(stats),
{
    lemma_wide_round_trip(stats.sum);
    lemma_fixed_round_trip(stats.upper_bound);
    lemma_fixed_round_trip(stats.lower_bound);
}

/// What was persisted is what is read back.
pub proof fn lemma_budget_round_trip(store: StoreView, remaining: Fixed)
    ensures
        budget_of(with_budget(store, remaining)) == Ok::<Fixed, ContractError>(remaining),
{
    lemma_fixed_round_trip(remaining);
}


/// The statistics after `values` were observed in order, starting from none,
/// or nothing where there are more of them than the count can hold.
pub open spec fn stats_after(values: Seq<Fixed>) -> Option<Stats>
    decreases values.len(),
{
    if values.len() == 0 {
        Some(Stats::spec_empty())
    } else {
        match stats_after(values.drop_last()) {
            Some(stats) => stats.spec_observe(values.last()),
            None => None,
        }
    }
}

/// After one observation or more, the count is their number, every one of
/// them lies between the bounds, and each bound is one of them: the bounds
/// are the least and the greatest value observed.
pub proof fn lemma_range_invariant(values: Seq<Fixed>)
    requires
        1 <= values.len() <= u32::MAX,
    ensures
        stats_after(values) matches Some(stats) && {
            &&& stats.wf()
            &&& stats.count == values.len()
            &&& forall|i: int|
                0 <= i < values.len() ==> stats.lower_bound@ <= (#[trigger] values[i])@
                    <= stats.upper_bound@
            &&& exists|i: int| 0 <= i < values.len() && #[trigger] values[i] == stats.lower_bound
            &&& exists|i: int| 0 <= i < values.len() && #[trigger] values[i] == stats.upper_bound
        },
    decreases values.len(),
{
    let earlier = values.drop_last();
    let last = values.last();
    if values.len() == 1 {
        assert(earlier.len() == 0);
        assert(values[0] == last);
    } else {
        lemma_range_invariant(earlier);
        let before = stats_after(earlier)->Some_0;
        let stats = before.spec_observe(last)->Some_0;
        assert forall|i: int| 0 <= i < values.len() implies stats.lower_bound@ <= (
        #[trigger] values[i])@ <= stats.upper_bound@ by {
            if i < earlier.len() {
                assert(values[i] == earlier[i]);
            }
        }
        let low = choose|i: int| 0 <= i < earlier.len() && #[trigger] earlier[i] == before.lower_bound;
        let high = choose|i: int|
            0 <= i < earlier.len() && #[trigger] earlier[i] == before.upper_bound;
        assert(values[low] == earlier[low]);
        assert(values[high] == earlier[high]);
        assert(values[values.len() - 1] == last);
    }
}

} // verus!
