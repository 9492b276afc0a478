//! The poller: merges what one cycle fetched and decides the rebalance.
use vstd::prelude::*;

use crate::error::Error;
use crate::time_range::{refreshed, MongoData, TickWeight, TimeRange, TimeRangeView, TokenInfo};
use crate::wide::Uint256;

verus! {

/// One instruction of a rebalance: a tick range and its weight, for a
/// position that `token_id` names (zero when it is not minted yet).
#[derive(Clone, Copy, Debug, PartialEq, Eq, Structural)]
pub struct CellarTickInfo {
    pub token_id: Uint256,
    pub tick_upper: i32,
    pub tick_lower: i32,
    pub weight: u32,
}

/// The instruction for one weighted range.
pub open spec fn tick_info_of(t: TickWeight) -> CellarTickInfo {
    CellarTickInfo {
        token_id: Uint256 { hi: 0, lo: 0 },
        tick_upper: t.upper_bound,
        tick_lower: t.lower_bound,
        weight: t.weight,
    }
}

/// Holds of a range that carries liquidity.
pub open spec fn positive_weight() -> spec_fn(TickWeight) -> bool {
    |t: TickWeight| t.weight > 0
}

/// The ranges with a weight above zero, in their order.
pub open spec fn weighted_ranges(s: Seq<TickWeight>) -> Seq<TickWeight> {
    s.filter(positive_weight())
}

/// The instructions for a sequence of ranges, one for one.
pub open spec fn infos_of(s: Seq<TickWeight>) -> Seq<CellarTickInfo> {
    s.map_values(|t: TickWeight| tick_info_of(t))
}

/// The instructions submitted for a prediction: one for each range of
/// positive weight, in the reverse of the prediction's order.
pub open spec fn submitted(s: Seq<TickWeight>) -> Seq<CellarTickInfo> {
    infos_of(weighted_ranges(s)).reverse()
}

pub fn from_tick_weight(tick_weight: TickWeight) -> (r: CellarTickInfo)
    ensures
        r == tick_info_of(tick_weight),
{
    CellarTickInfo {
        token_id: Uint256::zero(),
        tick_upper: tick_weight.upper_bound,
        tick_lower: tick_weight.lower_bound,
        weight: tick_weight.weight,
    }
}

/// The instructions to submit for the given ranges: zero-weight ranges are
/// dropped and the rest are submitted last first.
pub fn rebalance_instructions(ranges: &Vec<TickWeight>) -> (r: Vec<CellarTickInfo>)
    ensures
        r@ == submitted(ranges@),
{
    let mut kept: Vec<CellarTickInfo> = Vec::new();
    let mut i: usize = 0;
    while i < ranges.len()
        invariant
            i <= ranges@.len(),
            kept@ == infos_of(weighted_ranges(ranges@.take(i as int))),
        decreases ranges@.len() - i,
    {
        let t = ranges[i];
        proof {
            assert(ranges@.take(i + 1) =~= ranges@.take(i as int).push(t));
            ranges@.take(i as int).lemma_filter_push(t, positive_weight());
        }
        if t.weight > 0 {
            kept.push(from_tick_weight(t));
            assert(kept@ =~= infos_of(weighted_ranges(ranges@.take(i + 1))));
        }
        i += 1;
    }
    assert(ranges@.take(i as int) =~= ranges@);
    let ghost ordered = kept@;
    let mut out: Vec<CellarTickInfo> = Vec::new();
    let mut j: usize = kept.len();
    while j > 0
        invariant
            j <= kept@.len(),
            kept@ == ordered,
            out@.len() == ordered.len() - j,
            forall|m: int| 0 <= m < out@.len() ==> out@[m] == ordered[ordered.len() - 1 - m],
        decreases j,
    {
        j -= 1;
        out.push(kept[j]);
    }
    assert(out@ =~= ordered.reverse());
    out
}

/// Gas price limits and the last observed price, in wei.
#[derive(Clone, Copy, Debug)]
pub struct CellarGas {
    pub max_gas_price: Uint256,
    /// `None` until the oracle has answered once.
    pub current_gas: Option<Uint256>,
}

/// The handle on the managed position's contract.
#[derive(Clone, Copy, Debug)]
pub struct ContractState {
    pub address: [u8; 20],
    /// The last gas price pushed in, to annotate outgoing transactions.
    pub gas_price: Option<Uint256>,
}

/// What a read of the contract's state returns.
#[derive(Clone, Copy, Debug, PartialEq, Eq, Structural)]
pub struct ContractStateUpdate {}

/// The poller's settings for one cellar.
#[derive(Debug)]
pub struct CellarConfig {
    pub duration_ms: u64,
    pub pair_id: Uint256,
    pub pair_database: String,
    pub token_0: TokenInfo,
    pub token_1: TokenInfo,
    pub weight_factor: u32,
    pub max_gas_price_gwei: u64,
    pub cellar_address: [u8; 20],
    pub pool_address: [u8; 20],
}

/// Where the prediction store is.
#[derive(Debug)]
pub struct MongoSection {
    pub host: String,
}

/// A price in gwei, in wei.
pub fn gwei_to_wei(gwei: u64) -> (r: Uint256)
    ensures
        r.value() == gwei as nat * 1_000_000_000,
{
    Uint256::from_u128(gwei as u128 * 1_000_000_000u128)
}

/// What the app is to do at the end of a cycle.
#[derive(Debug)]
pub enum CycleAction {
    /// A fetch failed: nothing was merged, the error is to be logged.
    Skip(Error),
    /// Dry run: the state was merged and nothing is to be submitted.
    DryRun,
    /// Submit one rebalance with these instructions, in this order.
    Rebalance(Vec<CellarTickInfo>),
}

/// Collects a pair's prediction, the gas price and the contract's state,
/// and decides the rebalance.
#[derive(Debug)]
pub struct Poller {
    pub poll_interval_ms: u64,
    pub time_range: TimeRange,
    pub cellar_gas: CellarGas,
    pub contract_state: ContractState,
    /// Compute every cycle but submit nothing.
    pub dry_run: bool,
}

/// What a `Poller` holds.
pub ghost struct PollerView {
    pub poll_interval_ms: u64,
    pub time_range: TimeRangeView,
    pub cellar_gas: CellarGas,
    pub contract_state: ContractState,
    pub dry_run: bool,
}

impl View for Poller {
    type V = PollerView;

    open spec fn view(&self) -> PollerView {
        PollerView {
            poll_interval_ms: self.poll_interval_ms,
            time_range: self.time_range@,
            cellar_gas: self.cellar_gas,
            contract_state: self.contract_state,
            dry_run: self.dry_run,
        }
    }
}

/// The poller after a cycle's results were merged in.
pub open spec fn merged(p: PollerView, tr: TimeRangeView, gas: Uint256) -> PollerView {
    PollerView {
        time_range: tr,
        cellar_gas: CellarGas { current_gas: Some(gas), ..p.cellar_gas },
        contract_state: ContractState { gas_price: Some(gas), ..p.contract_state },
        ..p
    }
}

/// The instructions to submit from a merged state, `None` in a dry run.
pub open spec fn decision(p: PollerView) -> Option<Seq<CellarTickInfo>> {
    if p.dry_run {
        None
    } else {
        Some(submitted(p.time_range.tick_weights))
    }
}

/// `a` is the action that `decision` asks for.
pub open spec fn acts_on(a: CycleAction, d: Option<Seq<CellarTickInfo>>) -> bool {
    match d {
        None => a is DryRun,
        Some(s) => a is Rebalance && a->Rebalance_0@ == s,
    }
}

impl Poller {
    /// A poller for one cellar. `tick_spacing` is what the pool's contract
    /// answered at start-up; `dry_run` suppresses every submission.
    pub fn new(cellar: &CellarConfig, mongo: &MongoSection, tick_spacing: i32, dry_run: bool) -> (r:
        Result<Poller, Error>)
        ensures
            r.is_ok(),
            r->Ok_0.poll_interval_ms == cellar.duration_ms,
            r->Ok_0.time_range@.time.is_none(),
            r->Ok_0.time_range@.previous_update.is_none(),
            r->Ok_0.time_range@.pair_id == cellar.pair_id,
            r->Ok_0.time_range@.token_info == (cellar.token_0, cellar.token_1),
            r->Ok_0.time_range@.weight_factor == cellar.weight_factor,
            r->Ok_0.time_range@.tick_weights.len() == 0,
            r->Ok_0.time_range@.monogo_uri == mongo.host@,
            r->Ok_0.time_range@.pair_database == cellar.pair_database@,
            r->Ok_0.time_range@.tick_spacing == tick_spacing,
            r->Ok_0.cellar_gas.max_gas_price.value() == cellar.max_gas_price_gwei as nat * 1_000_000_000,
            r->Ok_0.cellar_gas.current_gas.is_none(),
            r->Ok_0.contract_state.address == cellar.cellar_address,
            r->Ok_0.contract_state.gas_price.is_none(),
            r->Ok_0.dry_run == dry_run,
    {
        Ok(Poller {
            poll_interval_ms: cellar.duration_ms,
            time_range: TimeRange {
                time: None,
                previous_update: None,
                pair_id: cellar.pair_id,
                token_info: (cellar.token_0.clone(), cellar.token_1.clone()),
                weight_factor: cellar.weight_factor,
                tick_weights: Vec::new(),
                monogo_uri: mongo.host.clone(),
                pair_database: cellar.pair_database.clone(),
                tick_spacing,
            },
            cellar_gas: CellarGas {
                max_gas_price: gwei_to_wei(cellar.max_gas_price_gwei),
                current_gas: None,
            },
            contract_state: ContractState { address: cellar.cellar_address, gas_price: None },
            dry_run,
        })
    }

    /// The poller's prediction window refreshed with the store's latest
    /// record; the poller itself is left as it is.
    pub fn poll_time_range(&self, latest: Option<MongoData>) -> (r: Result<TimeRange, Error>)
        ensures
            match refreshed(self.time_range@, latest) {
                Ok(w) => r.is_ok() && r->Ok_0@ == w,
                Err(k) => r.is_err() && r->Err_0.kind == k,
            },
    {
        let mut time_range = self.time_range.clone();
        match time_range.poll(latest) {
            Ok(()) => Ok(time_range),
            Err(e) => Err(e),
        }
    }

    /// Reading the contract's state needs nothing beyond the handle.
    pub fn poll_contract_state(&self) -> (r: Result<ContractStateUpdate, Error>)
        ensures
            r.is_ok(),
    {
        Ok(ContractStateUpdate {})
    }

    /// Merges one cycle's results: the new window replaces the old one and
    /// the gas price is recorded in both places that hold it.
    pub fn update_poller(&mut self, time_range: TimeRange, gas: Uint256, _contract_state: ContractStateUpdate)
        ensures
            final(self)@ == merged(old(self)@, time_range@, gas),
    {
        self.cellar_gas.current_gas = Some(gas);
        self.contract_state.gas_price = Some(gas);
        self.time_range = time_range;
    }

    /// The rebalance that the current state asks for.
    pub fn decide_rebalance(&self) -> (r: CycleAction)
        ensures
            acts_on(r, decision(self@)),
    {
        if self.dry_run {
            CycleAction::DryRun
        } else {
            CycleAction::Rebalance(rebalance_instructions(&self.time_range.tick_weights))
        }
    }

    /// One cycle, given what its three fetches returned. Where any failed,
    /// nothing is merged and the cycle is skipped with the first error in
    /// the order of the arguments; else the results are merged and the
    /// rebalance is decided on the merged state.
    pub fn poll(
        &mut self,
        time_range: Result<TimeRange, Error>,
        gas: Result<Uint256, Error>,
        contract_state: Result<ContractStateUpdate, Error>,
    ) -> (r: CycleAction)
        ensures
            match (time_range, gas, contract_state) {
                (Ok(tr), Ok(g), Ok(_)) => {
                    &&& final(self)@ == merged(old(self)@, tr@, g)
                    &&& acts_on(r, decision(final(self)@))
                },
                _ => {
                    &&& final(self)@ == old(self)@
                    &&& r is Skip
                    &&& r->Skip_0 == first_error(time_range, gas, contract_state)
                },
            },
    {
        match time_range {
            Err(e) => CycleAction::Skip(e),
            Ok(tr) => match gas {
                Err(e) => CycleAction::Skip(e),
                Ok(g) => match contract_state {
                    Err(e) => CycleAction::Skip(e),
                    Ok(cs) => {
                        self.update_poller(tr, g, cs);
                        self.decide_rebalance()
                    },
                },
            },
        }
    }
}

/// The first error among a cycle's three results.
pub open spec fn first_error(
    time_range: Result<TimeRange, Error>,
    gas: Result<Uint256, Error>,
    contract_state: Result<ContractStateUpdate, Error>,
) -> Error {
    match time_range {
        Err(e) => e,
        Ok(_) => match gas {
            Err(e) => e,
            Ok(_) => contract_state->Err_0,
        },
    }
}

/// How many of the ranges carry a weight above zero.
pub open spec fn count_weighted(s: Seq<TickWeight>) -> nat
    decreases s.len(),
{
    if s.len() == 0 {
        0
    } else {
        count_weighted(s.drop_last()) + if s.last().weight > 0 {
            1nat
        } else {
            0nat
        }
    }
}

proof fn lemma_weighted_len(s: Seq<TickWeight>)
    ensures
        weighted_ranges(s).len() == count_weighted(s),
    decreases s.len(),
{
    if s.len() > 0 {
        lemma_weighted_len(s.drop_last());
        assert(s =~= s.drop_last().push(s.last()));
        s.drop_last().lemma_filter_push(s.last(), positive_weight());
    }
}

/// Zero-weight ranges are dropped: as many instructions are submitted as
/// there are ranges of positive weight, and none of them has weight zero.
pub proof fn lemma_zero_weight_filtering(s: Seq<TickWeight>)
    ensures
        submitted(s).len() == count_weighted(s),
        forall|i: int| 0 <= i < submitted(s).len() ==> submitted(s)[i].weight != 0,
{
    lemma_weighted_len(s);
    assert forall|i: int| 0 <= i < submitted(s).len() implies submitted(s)[i].weight != 0 by {
        let w = weighted_ranges(s);
        s.lemma_filter_pred(positive_weight(), w.len() - 1 - i);
    }
}

/// The instructions go out in the exact reverse of the order of the
/// ranges of positive weight.
pub proof fn lemma_order_inversion(s: Seq<TickWeight>)
    ensures
        submitted(s).len() == weighted_ranges(s).len(),
        forall|i: int|
            0 <= i < submitted(s).len() ==> submitted(s)[i] == tick_info_of(
                weighted_ranges(s)[weighted_ranges(s).len() - 1 - i],
            ),
{
}

/// The decision reads the ranges and the dry-run setting alone: two states
/// that agree on those decide alike, whatever gas price each holds, also
/// when one has none yet.
pub proof fn lemma_gas_absence(p: PollerView, q: PollerView)
    requires
        p.time_range == q.time_range,
        p.dry_run == q.dry_run,
    ensures
        decision(p) == decision(q),
{
}

/// The state after a run of successful cycles, one per pair of a fetched
/// window and a gas price.
pub open spec fn after_cycles(p: PollerView, windows: Seq<TimeRangeView>, gases: Seq<Uint256>) -> PollerView
    decreases windows.len(),
{
    if windows.len() == 0 || gases.len() == 0 {
        p
    } else {
        merged(
            after_cycles(p, windows.drop_last(), gases.drop_last()),
            windows.last(),
            gases.last(),
        )
    }
}

proof fn lemma_cycles_keep_dry_run(p: PollerView, windows: Seq<TimeRangeView>, gases: Seq<Uint256>)
    ensures
        after_cycles(p, windows, gases).dry_run == p.dry_run,
    decreases windows.len(),
{
    if windows.len() > 0 && gases.len() > 0 {
        lemma_cycles_keep_dry_run(p, windows.drop_last(), gases.drop_last());
    }
}

/// In a dry run no cycle ever asks for a submission, while each cycle
/// still records its window and its gas price.
pub proof fn lemma_dry_run_never_submits(p: PollerView, windows: Seq<TimeRangeView>, gases: Seq<Uint256>)
    requires
        p.dry_run,
        windows.len() == gases.len(),
    ensures
        forall|k: int|
            0 <= k <= windows.len() ==> decision(
                #[trigger] after_cycles(p, windows.take(k), gases.take(k)),
            ) is None,
        forall|k: int|
            0 < k <= windows.len() ==> {
                let q = #[trigger] after_cycles(p, windows.take(k), gases.take(k));
                &&& q.time_range == windows[k - 1]
                &&& q.cellar_gas.current_gas == Some(gases[k - 1])
            },
    decreases windows.len(),
{
    if windows.len() > 0 {
        let n = windows.len() as int;
        lemma_dry_run_never_submits(p, windows.drop_last(), gases.drop_last());
        assert forall|k: int| 0 <= k <= n implies decision(
            #[trigger] after_cycles(p, windows.take(k), gases.take(k)),
        ) is None by {
            lemma_cycles_keep_dry_run(p, windows.take(k), gases.take(k));
        }
        assert forall|k: int| 0 < k <= n implies {
            let q = #[trigger] after_cycles(p, windows.take(k), gases.take(k));
            &&& q.time_range == windows[k - 1]
            &&& q.cellar_gas.current_gas == Some(gases[k - 1])
        } by {
            if k < n {
                assert(windows.take(k) =~= windows.drop_last().take(k));
                assert(gases.take(k) =~= gases.drop_last().take(k));
            }
        }
    }
}

} // verus!
