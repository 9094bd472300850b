//! The day-keyed ledger rows, in their persisted and in-memory shapes, and
//! the verified passages between them.

use vstd::prelude::*;

use crate::clock::{now_moment, Moment};

verus! {

/// One persisted row: the durable state of a single calendar day.
#[derive(Debug, Clone)]
pub struct JsonState {
    /// Calendar date of the day this row describes.
    pub date: String,
    /// Weekday label for that date.
    pub dotw: String,
    /// Cumulative check-in count as of this row's last update.
    pub last_count: i32,
    /// `last_count` minus the previous day's count.
    pub count_since_yesterday: i32,
    /// Time of day of the latest check-in recorded on this row.
    pub last_time: String,
}

/// The persisted ledger: one row per day with activity, oldest first.
#[derive(Debug, Clone)]
pub struct JsonData {
    pub state: Vec<JsonState>,
}

/// One in-memory row: a day's state plus what is carried over from the
/// previous entry for display.
#[derive(Debug, Clone)]
pub struct AppState {
    /// Date of the entry immediately preceding this one.
    pub last_date: String,
    /// Calendar date of the day this row describes.
    pub date: String,
    /// Weekday label for that date.
    pub dotw: String,
    /// Cumulative check-in count as of this row's last update.
    pub counter: i32,
    /// `counter` minus the previous day's count.
    pub count_since_yesterday: i32,
    /// Time of day of the latest check-in recorded on this row.
    pub time: String,
    /// Time of day of the check-in before the latest one.
    pub last_time: String,
}

/// The in-memory ledger: one row per day with activity, oldest first.
#[derive(Debug, Clone)]
pub struct AppData {
    pub state: Vec<AppState>,
}

/// A usable ledger: at least the seed row is present, counts are never
/// negative, and the cumulative count never decreases from one row to the
/// next.
pub open spec fn ledger_wf(s: Seq<AppState>) -> bool {
    &&& s.len() >= 1
    &&& forall|i: int| 0 <= i < s.len() ==> #[trigger] s[i].counter >= 0
    &&& forall|i: int, j: int| 0 <= i <= j < s.len() ==> #[trigger] s[i].counter <= #[trigger] s[j].counter
}

impl AppData {
    /// The ledger invariant, on the whole in-memory sequence.
    pub open spec fn wf(&self) -> bool {
        ledger_wf(self.state@)
    }
}

/// Check the ledger invariant at run time.  Persisted state is loaded from
/// disk and must not be trusted blindly: a caller that needs a usable
/// ledger checks it here and treats a failure as storage corruption.
pub fn ledger_ok(data: &AppData) -> (b: bool)
    ensures
        b == data.wf(),
{
    let n = data.state.len();
    if n == 0 {
        return false;
    }
    if data.state[0].counter < 0 {
        return false;
    }
    let mut k: usize = 1;
    while k < n
        invariant
            1 <= k <= n,
            n == data.state@.len(),
            forall|i: int| 0 <= i < k ==> #[trigger] data.state@[i].counter >= 0,
            forall|i: int, j: int|
                0 <= i <= j < k ==> #[trigger] data.state@[i].counter
                    <= #[trigger] data.state@[j].counter,
        decreases n - k,
    {
        if data.state[k].counter < data.state[k - 1].counter {
            return false;
        }
        k += 1;
    }
    true
}

/// Serialize-shape projection of the ledger: one persisted row per
/// in-memory row, each keeping the date, weekday, counts and latest time,
/// and dropping the carried-over display fields.
pub fn to_json(data: &AppData) -> (j: JsonData)
    ensures
        j.state@.len() == data.state@.len(),
        forall|i: int|
            0 <= i < data.state@.len() ==> (#[trigger] j.state@[i].date@ == data.state@[i].date@
                && j.state@[i].dotw@ == data.state@[i].dotw@ && j.state@[i].last_count
                == data.state@[i].counter && j.state@[i].count_since_yesterday
                == data.state@[i].count_since_yesterday && j.state@[i].last_time@
                == data.state@[i].time@),
{
    let mut out: Vec<JsonState> = Vec::new();
    let mut k: usize = 0;
    while k < data.state.len()
        invariant
            k <= data.state@.len(),
            out@.len() == k,
            forall|i: int|
                0 <= i < k ==> (#[trigger] out@[i].date@ == data.state@[i].date@ && out@[i].dotw@
                    == data.state@[i].dotw@ && out@[i].last_count == data.state@[i].counter
                    && out@[i].count_since_yesterday == data.state@[i].count_since_yesterday
                    && out@[i].last_time@ == data.state@[i].time@),
        decreases data.state@.len() - k,
    {
        let e = &data.state[k];
        out.push(
            JsonState {
                date: e.date.clone(),
                dotw: e.dotw.clone(),
                last_count: e.counter,
                count_since_yesterday: e.count_since_yesterday,
                last_time: e.time.clone(),
            },
        );
        k += 1;
    }
    JsonData { state: out }
}

/// Rebuild the in-memory ledger from its persisted shape: each row's date
/// doubles as its own previous date, and the stored latest time fills both
/// time fields, exactly as a freshly loaded history is displayed.
pub fn from_json(j: &JsonData) -> (d: AppData)
    ensures
        d.state@.len() == j.state@.len(),
        forall|i: int|
            0 <= i < j.state@.len() ==> (#[trigger] d.state@[i].date@ == j.state@[i].date@
                && d.state@[i].last_date@ == j.state@[i].date@ && d.state@[i].counter
                == j.state@[i].last_count && d.state@[i].count_since_yesterday
                == j.state@[i].count_since_yesterday && d.state@[i].dotw@ == j.state@[i].dotw@
                && d.state@[i].time@ == j.state@[i].last_time@ && d.state@[i].last_time@
                == j.state@[i].last_time@),
{
    let mut out: Vec<AppState> = Vec::new();
    let mut k: usize = 0;
    while k < j.state.len()
        invariant
            k <= j.state@.len(),
            out@.len() == k,
            forall|i: int|
                0 <= i < k ==> (#[trigger] out@[i].date@ == j.state@[i].date@ && out@[i].last_date@
                    == j.state@[i].date@ && out@[i].counter == j.state@[i].last_count
                    && out@[i].count_since_yesterday == j.state@[i].count_since_yesterday
                    && out@[i].dotw@ == j.state@[i].dotw@ && out@[i].time@ == j.state@[i].last_time@
                    && out@[i].last_time@ == j.state@[i].last_time@),
        decreases j.state@.len() - k,
    {
        let e = &j.state[k];
        out.push(
            AppState {
                date: e.date.clone(),
                last_date: e.date.clone(),
                counter: e.last_count,
                count_since_yesterday: e.count_since_yesterday,
                dotw: e.dotw.clone(),
                time: e.last_time.clone(),
                last_time: e.last_time.clone(),
            },
        );
        k += 1;
    }
    AppData { state: out }
}

/// The seed row a fresh ledger starts with: dated at `now`, both counts 0.
pub fn seed_state(now: &Moment) -> (r: JsonState)
    ensures
        r.date@ == now.date@,
        r.dotw@ == now.dotw@,
        r.last_count == 0,
        r.count_since_yesterday == 0,
        r.last_time@ == now.time@,
{
    JsonState {
        date: now.date.clone(),
        dotw: now.dotw.clone(),
        last_count: 0,
        count_since_yesterday: 0,
        last_time: now.time.clone(),
    }
}

impl Default for JsonState {
    /// A seed row dated at the instant of the call.
    fn default() -> (r: Self)
        ensures
            r.last_count == 0,
            r.count_since_yesterday == 0,
    {
        let now = now_moment();
        seed_state(&now)
    }
}

impl Default for JsonData {
    /// A fresh one-row ledger, seeded at the instant of the call.
    fn default() -> (r: Self)
        ensures
            r.state@.len() == 1,
            r.state@[0].last_count == 0,
            r.state@[0].count_since_yesterday == 0,
    {
        let mut state: Vec<JsonState> = Vec::new();
        state.push(JsonState::default());
        JsonData { state }
    }
}

/// The bootstrap rule: persisted state, where storage held any, is taken
/// as it stands; missing storage yields a ledger of exactly one seed row,
/// dated today, with counter 0 and delta 0.
pub fn bootstrap_data(loaded: Option<JsonData>, now: &Moment) -> (r: JsonData)
    ensures
        loaded matches Some(d) ==> r == d,
        loaded is None ==> (r.state@.len() == 1 && r.state@[0].date@ == now.date@
            && r.state@[0].dotw@ == now.dotw@ && r.state@[0].last_count == 0
            && r.state@[0].count_since_yesterday == 0 && r.state@[0].last_time@ == now.time@),
{
    match loaded {
        Some(d) => d,
        None => {
            let mut state: Vec<JsonState> = Vec::new();
            state.push(seed_state(now));
            JsonData { state }
        },
    }
}

} // verus!
