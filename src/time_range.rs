//! The latest liquidity-range prediction for one pair, in tick space.
use vstd::prelude::*;

use crate::error::{Error, ErrorKind};
use crate::wide::Uint256;

verus! {

/// One side of the traded pair.
#[derive(Debug)]
pub struct TokenInfo {
    pub symbol: String,
    pub address: [u8; 20],
    pub decimals: u8,
}

impl Clone for TokenInfo {
    fn clone(&self) -> (r: TokenInfo)
        ensures
            r == *self,
    {
        TokenInfo { symbol: self.symbol.clone(), address: self.address, decimals: self.decimals }
    }
}

impl Default for TokenInfo {
    fn default() -> (r: TokenInfo)
        ensures
            r.symbol@.len() == 0,
            forall|i: int| 0 <= i < 20 ==> r.address@[i] == 0u8,
            r.decimals == 0,
    {
        TokenInfo { symbol: String::new(), address: [0u8; 20], decimals: 0 }
    }
}

/// A price range in tick space with the weight of liquidity placed in it.
#[derive(Clone, Copy, Debug, PartialEq, Eq, Structural)]
pub struct TickWeight {
    pub upper_bound: i32,
    pub lower_bound: i32,
    pub weight: u32,
}

/// A prediction record as the store hands it over, its bounds already
/// mapped to ticks and its weights to integer units.
#[derive(Clone, Debug)]
pub struct MongoData {
    /// Milliseconds since the Unix epoch; `None` where the record's
    /// timestamp could not be read.
    pub created_timestamp: Option<i64>,
    pub pair_id: Uint256,
    pub symbol: String,
    pub tick_weights: Vec<TickWeight>,
}

/// The latest prediction for the pair this window is configured for.
#[derive(Debug)]
pub struct TimeRange {
    /// Timestamp of the latest prediction, in milliseconds since the epoch.
    pub time: Option<i64>,
    /// Timestamp of the prediction before it.
    pub previous_update: Option<i64>,
    pub pair_id: Uint256,
    pub token_info: (TokenInfo, TokenInfo),
    /// Multiplier turning fractional weights into integer weight units.
    pub weight_factor: u32,
    pub tick_weights: Vec<TickWeight>,
    pub monogo_uri: String,
    pub pair_database: String,
    pub tick_spacing: i32,
}

/// What a `TimeRange` holds, with its sequences as mathematical values.
pub ghost struct TimeRangeView {
    pub time: Option<i64>,
    pub previous_update: Option<i64>,
    pub pair_id: Uint256,
    pub token_info: (TokenInfo, TokenInfo),
    pub weight_factor: u32,
    pub tick_weights: Seq<TickWeight>,
    pub monogo_uri: Seq<char>,
    pub pair_database: Seq<char>,
    pub tick_spacing: i32,
}

impl View for TimeRange {
    type V = TimeRangeView;

    open spec fn view(&self) -> TimeRangeView {
        TimeRangeView {
            time: self.time,
            previous_update: self.previous_update,
            pair_id: self.pair_id,
            token_info: self.token_info,
            weight_factor: self.weight_factor,
            tick_weights: self.tick_weights@,
            monogo_uri: self.monogo_uri@,
            pair_database: self.pair_database@,
            tick_spacing: self.tick_spacing,
        }
    }
}

impl Clone for TimeRange {
    fn clone(&self) -> (r: TimeRange)
        ensures
            r@ == self@,
    {
        let mut ranges: Vec<TickWeight> = Vec::new();
        let mut i: usize = 0;
        while i < self.tick_weights.len()
            invariant
                i <= self.tick_weights@.len(),
                ranges@ == self.tick_weights@.take(i as int),
            decreases self.tick_weights@.len() - i,
        {
            ranges.push(self.tick_weights[i]);
            assert(self.tick_weights@.take(i + 1) =~= self.tick_weights@.take(i as int).push(
                self.tick_weights@[i as int],
            ));
            i += 1;
        }
        assert(self.tick_weights@.take(i as int) =~= self.tick_weights@);
        TimeRange {
            time: self.time,
            previous_update: self.previous_update,
            pair_id: self.pair_id,
            token_info: (self.token_info.0.clone(), self.token_info.1.clone()),
            weight_factor: self.weight_factor,
            tick_weights: ranges,
            monogo_uri: self.monogo_uri.clone(),
            pair_database: self.pair_database.clone(),
            tick_spacing: self.tick_spacing,
        }
    }
}

/// Every range has its lower bound at or below its upper bound.
pub open spec fn ranges_well_formed(s: Seq<TickWeight>) -> bool {
    forall|i: int| 0 <= i < s.len() ==> s[i].lower_bound <= s[i].upper_bound
}

/// A record that may replace the window: its timestamp could be read, it is
/// for the window's pair, and its ranges are well formed.
pub open spec fn record_acceptable(w: TimeRangeView, rec: MongoData) -> bool {
    &&& rec.created_timestamp.is_some()
    &&& rec.pair_id == w.pair_id
    &&& ranges_well_formed(rec.tick_weights@)
}

/// The window after an acceptable record replaced its prediction.
pub open spec fn with_prediction(w: TimeRangeView, rec: MongoData) -> TimeRangeView {
    TimeRangeView { time: rec.created_timestamp, previous_update: w.time, tick_weights: rec.tick_weights@, ..w }
}

/// The window after a refresh with what the store returned, or the kind of
/// error that the refresh fails with.
pub open spec fn refreshed(w: TimeRangeView, latest: Option<MongoData>) -> Result<
    TimeRangeView,
    ErrorKind,
> {
    match latest {
        None => Ok(w),
        Some(rec) => if record_acceptable(w, rec) {
            Ok(with_prediction(w, rec))
        } else {
            Err(ErrorKind::Malformed)
        },
    }
}

impl Default for TimeRange {
    fn default() -> (r: TimeRange)
        ensures
            r.time.is_none(),
            r.previous_update.is_none(),
            r.pair_id.value() == 0,
            r.weight_factor == 100,
            r.tick_weights@.len() == 0,
            r.monogo_uri@ == "mongodb://localhost:27017/?directconnection=true"@,
            r.tick_spacing == 0,
    {
        TimeRange {
            time: None,
            previous_update: None,
            pair_id: Uint256::zero(),
            token_info: (TokenInfo::default(), TokenInfo::default()),
            weight_factor: 100,
            tick_weights: Vec::new(),
            monogo_uri: String::from_str("mongodb://localhost:27017/?directconnection=true"),
            pair_database: String::new(),
            tick_spacing: 0,
        }
    }
}

/// Checks that every range has its lower bound at or below its upper bound.
fn check_ranges(ranges: &Vec<TickWeight>) -> (r: bool)
    ensures
        r == ranges_well_formed(ranges@),
{
    let mut i: usize = 0;
    while i < ranges.len()
        invariant
            i <= ranges@.len(),
            ranges_well_formed(ranges@.take(i as int)),
        decreases ranges@.len() - i,
    {
        if ranges[i].lower_bound > ranges[i].upper_bound {
            assert(ranges@[i as int].lower_bound > ranges@[i as int].upper_bound);
            return false;
        }
        assert(ranges@.take(i + 1) =~= ranges@.take(i as int).push(ranges@[i as int]));
        i += 1;
    }
    assert(ranges@.take(i as int) =~= ranges@);
    true
}

impl TimeRange {
    pub fn new(
        time: Option<i64>,
        previous_update: Option<i64>,
        pair_id: Uint256,
        weight_factor: u32,
        tick_weights: Vec<TickWeight>,
        token_0_info: TokenInfo,
        token_1_info: TokenInfo,
        monogo_uri: String,
    ) -> (r: TimeRange)
        ensures
            r.time == time,
            r.previous_update == previous_update,
            r.pair_id == pair_id,
            r.weight_factor == weight_factor,
            r.tick_weights@ == tick_weights@,
            r.token_info == (token_0_info, token_1_info),
            r.monogo_uri@ == monogo_uri@,
            r.pair_database@.len() == 0,
            r.tick_spacing == 0,
    {
        TimeRange {
            time,
            previous_update,
            pair_id,
            weight_factor,
            tick_weights,
            token_info: (token_0_info, token_1_info),
            monogo_uri,
            pair_database: String::new(),
            tick_spacing: 0,
        }
    }

    /// Takes in the latest record of the prediction store, `None` where the
    /// store holds none. An empty store leaves the window as it is. An
    /// acceptable record replaces the ranges wholesale, in the record's
    /// order, and moves the current timestamp to `previous_update`. A record
    /// that is not acceptable fails the refresh and leaves the window as it
    /// is.
    pub fn poll(&mut self, latest: Option<MongoData>) -> (r: Result<(), Error>)
        ensures
            match refreshed(old(self)@, latest) {
                Ok(w) => r.is_ok() && final(self)@ == w,
                Err(k) => r.is_err() && r->Err_0.kind == k && final(self)@ == old(self)@,
            },
    {
        match latest {
            None => Ok(()),
            Some(rec) => {
                let ok = rec.created_timestamp.is_some() && rec.pair_id == self.pair_id
                    && check_ranges(&rec.tick_weights);
                if !ok {
                    return Err(Error::from_kind(ErrorKind::Malformed));
                }
                self.previous_update = self.time;
                self.time = rec.created_timestamp;
                self.tick_weights = rec.tick_weights;
                Ok(())
            },
        }
    }
}

/// A refresh is a function of the window and the record: equal windows
/// refreshed with the same record give equal windows, whose ranges are the
/// record's ranges exactly, in the record's order.
pub proof fn lemma_refresh_deterministic(a: TimeRangeView, b: TimeRangeView, latest: Option<MongoData>)
    requires
        a == b,
    ensures
        refreshed(a, latest) == refreshed(b, latest),
        latest is Some && refreshed(a, latest) is Ok ==> refreshed(a, latest)->Ok_0.tick_weights
            == latest->Some_0.tick_weights@,
{
}

/// An empty store is no error: the refresh succeeds and leaves the ranges
/// and the timestamps as they were.
pub proof fn lemma_empty_store(w: TimeRangeView)
    ensures
        refreshed(w, None) == Ok::<TimeRangeView, ErrorKind>(w),
{
}

} // verus!
