//! The check-in gate and the daily ledger fold.
//!
//! `can_user_enter` decides, from a session's stored marker, whether a new
//! check-in attempt is allowed now or denied until the cooldown elapses.
//! `record_visit` folds one allowed check-in into the day-keyed ledger and
//! builds the reply; `blocked_response` projects the untouched ledger tail
//! into the reply a denied attempt receives.

use vstd::prelude::*;

use crate::clock::{parse_rfc3339_seconds, rfc3339_epoch, Moment};
use crate::data::{ledger_wf, AppData, AppState};

verus! {

/// Seconds in the fixed cooldown window: a session may pass at most once
/// per 22 hours.
pub const COOLDOWN_SECONDS: i64 = 22 * 60 * 60;

/// What one cooldown decision asks of the caller: whether the visit is
/// allowed, and the marker to store into the session when the cooldown arms
/// itself.
pub struct GateStep {
    pub allowed: bool,
    pub arm: Option<String>,
}

impl GateStep {
    /// The decision reduced to its model: the verdict, and the armed
    /// marker's characters where one is to be stored.
    pub open spec fn model(&self) -> (bool, Option<Seq<char>>) {
        (
            self.allowed,
            match self.arm {
                Some(s) => Some(s@),
                None => None,
            },
        )
    }
}

/// The characters of a stored marker, where one is present.
pub open spec fn marker_view(m: Option<String>) -> Option<Seq<char>> {
    match m {
        Some(s) => Some(s@),
        None => None,
    }
}

/// What the cooldown decides and stores, given the session's marker and
/// the current instant.  No marker: the cooldown arms itself with the
/// current instant, and this very attempt is denied.  An unreadable
/// marker: denied, nothing stored.  A readable marker: allowed exactly
/// when at least the cooldown window has elapsed since the marked instant,
/// and the marker is never re-armed, so the next window still measures
/// from the session's first contact.
pub open spec fn gate_spec(marker: Option<Seq<char>>, now_epoch: int, now_rfc: Seq<char>) -> (
    bool,
    Option<Seq<char>>,
) {
    match marker {
        None => (false, Some(now_rfc)),
        Some(s) => match rfc3339_epoch(s) {
            None => (false, None),
            Some(t) => (now_epoch - t >= COOLDOWN_SECONDS, None),
        },
    }
}

/// Decide one check-in attempt for a session.  `marker` is the session's
/// stored marker as the session store returned it; the caller must store
/// `arm` back into the session where it is `Some`, and only then.
pub fn can_user_enter(marker: &Option<String>, now: &Moment) -> (r: GateStep)
    ensures
        r.model() == gate_spec(marker_view(*marker), now.epoch_seconds as int, now.rfc3339@),
{
    match marker {
        None => GateStep { allowed: false, arm: Some(now.rfc3339.clone()) },
        Some(s) => match parse_rfc3339_seconds(s.as_str()) {
            None => GateStep { allowed: false, arm: None },
            Some(t) => {
                let allowed: bool = (now.epoch_seconds as i128) - (t as i128) >= (
                COOLDOWN_SECONDS as i128);
                GateStep { allowed, arm: None }
            },
        },
    }
}

/// Cooldown law: a session with no marker is denied and armed with the
/// current instant, whatever that instant is; an attempt made before the
/// cooldown window has passed since the armed instant is denied; an attempt
/// made after it is allowed.  The hypothesis on the marker is what the
/// clock guarantees of one it wrote: the stored characters parse back to
/// within 30 seconds of the armed instant (the rendering rounds a
/// sub-minute zone offset to the minute), so the two verdicts are owed only
/// outside that slack.
pub proof fn lemma_cooldown_arm_then_deny(
    arm_rfc: Seq<char>,
    arm_epoch: i64,
    e2: i64,
    r2: Seq<char>,
    e3: i64,
    r3: Seq<char>,
)
    ensures
        gate_spec(None, arm_epoch as int, arm_rfc) == (false, Some(arm_rfc)),
        (rfc3339_epoch(arm_rfc) matches Some(t) && -30 <= arm_epoch - t <= 30 && e2 - arm_epoch
            < COOLDOWN_SECONDS - 30) ==> gate_spec(Some(arm_rfc), e2 as int, r2) == (
        false,
        None::<Seq<char>>,
        ),
        (rfc3339_epoch(arm_rfc) matches Some(t) && -30 <= arm_epoch - t <= 30 && e3 - arm_epoch
            >= COOLDOWN_SECONDS + 30) ==> gate_spec(Some(arm_rfc), e3 as int, r3) == (
        true,
        None::<Seq<char>>,
        ),
{
}

/// What a successful check-in returns for display.
pub struct SuccessResponse {
    pub message: String,
    pub time: String,
    pub last_time: String,
    pub counter: i32,
}

/// What a denied check-in returns for display: a read-only projection of
/// the ledger's tail.
pub struct BlockedResponse {
    pub message: String,
    pub current_count: i32,
    pub last_time: String,
}

/// The reply shape used for authentication outcomes.
pub struct Response {
    pub title: String,
    pub message: String,
}

/// The display form of one instant: `time - dotw, date`.
pub open spec fn stamp_of(time: Seq<char>, dotw: Seq<char>, date: Seq<char>) -> Seq<char> {
    time + (" - ")@ + dotw + (", ")@ + date
}

/// Build the display form of one instant.
pub fn stamp(time: &str, dotw: &str, date: &str) -> (r: String)
    ensures
        r@ == stamp_of(time@, dotw@, date@),
{
    let mut r = time.to_owned();
    r.append(" - ");
    r.append(dotw);
    r.append(", ");
    r.append(date);
    r
}

/// Index of the row used as "yesterday" in a ledger of `n` rows: the row
/// before the last, or the last row itself when it stands alone — the
/// degenerate fallback that makes the delta collapse to 0 on a one-row
/// ledger instead of erroring.
pub open spec fn yesterday_index(n: int) -> int {
    if n != 1 {
        n - 2
    } else {
        0
    }
}

/// The cumulative count one more check-in on ledger `s` records.
pub open spec fn next_counter(s: Seq<AppState>) -> int {
    s.last().counter + 1
}

/// Whether a visit at `now` lands on the calendar day of the ledger's tail
/// row — merged in place — or on a new day — appended.
pub open spec fn same_day(s: Seq<AppState>, now: Moment) -> bool {
    now.date@ == s.last().date@
}

/// The "count since yesterday" a check-in at `now` on ledger `s` records:
/// the new count minus the count of the "yesterday" row.  On a one-row
/// ledger a same-day visit still has no previous day at all, and the delta
/// collapses to 0; a visit that rolls the single row over makes that row
/// the previous day, and the delta is measured against it.
pub open spec fn next_delta(s: Seq<AppState>, now: Moment) -> int {
    if s.len() == 1 && same_day(s, now) {
        0
    } else {
        next_counter(s) - s[yesterday_index(s.len() as int)].counter
    }
}

/// One same-day check-in seen at the ledger level: every row but the tail
/// is kept, the length is kept, and the tail's count goes up by exactly 1.
pub open spec fn same_day_step(pre: Seq<AppState>, post: Seq<AppState>) -> bool {
    &&& pre.len() >= 1
    &&& post.len() == pre.len()
    &&& post.last().counter == pre.last().counter + 1
    &&& forall|i: int| 0 <= i < pre.len() - 1 ==> post[i] == pre[i]
}

/// Fold one allowed check-in into the ledger and build the reply.  The tail
/// row's count goes up by 1; the recorded delta measures against the row
/// the ledger held as "yesterday" before this call, and collapses to 0
/// where a one-row ledger merges in place — no previous day exists there.
/// A visit on the tail
/// row's own day is merged into it in place — its date, previous date and
/// weekday stand untouched — and a visit on a new day appends a row that
/// carries the old tail's date forward as its previous date.
pub fn record_visit(data: &mut AppData, now: &Moment) -> (s: SuccessResponse)
    requires
        old(data).wf(),
        old(data).state@.last().counter < i32::MAX,
    ensures
        final(data).wf(),
        same_day(old(data).state@, *now) ==> final(data).state@.len() == old(data).state@.len(),
        same_day(old(data).state@, *now) ==> forall|i: int|
            0 <= i < old(data).state@.len() - 1 ==> final(data).state@[i] == old(data).state@[i],
        same_day(old(data).state@, *now) ==> (final(data).state@.last().date@ == old(
            data,
        ).state@.last().date@ && final(data).state@.last().last_date@ == old(
            data,
        ).state@.last().last_date@ && final(data).state@.last().dotw@ == old(
            data,
        ).state@.last().dotw@),
        !same_day(old(data).state@, *now) ==> final(data).state@.len() == old(data).state@.len()
            + 1,
        !same_day(old(data).state@, *now) ==> forall|i: int|
            0 <= i < old(data).state@.len() ==> final(data).state@[i] == old(data).state@[i],
        !same_day(old(data).state@, *now) ==> (final(data).state@.last().date@ == now.date@
            && final(data).state@.last().last_date@ == old(data).state@.last().date@
            && final(data).state@.last().dotw@ == now.dotw@),
        final(data).state@.last().counter == next_counter(old(data).state@),
        final(data).state@.last().count_since_yesterday == next_delta(old(data).state@, *now),
        final(data).state@.last().time@ == now.time@,
        final(data).state@.last().last_time@ == old(data).state@.last().time@,
        s.counter == next_counter(old(data).state@),
        s.time@ == stamp_of(now.time@, now.dotw@, now.date@),
        s.last_time@ == stamp_of(
            old(data).state@.last().time@,
            old(data).state@.last().dotw@,
            old(data).state@.last().date@,
        ),
        s.message@ == ("Success, you can now close this page, or check out other data below.")@,
        same_day(old(data).state@, *now) ==> same_day_step(old(data).state@, final(data).state@),
{
    let n = data.state.len();
    let yi: usize = if n != 1 {
        n - 2
    } else {
        0
    };
    let cur_counter = data.state[n - 1].counter;
    let new_counter = cur_counter + 1;
    let delta: i32 = if n == 1 && now.date == data.state[0].date {
        0
    } else {
        new_counter - data.state[yi].counter
    };
    let success = SuccessResponse {
        message: String::from_str(
            "Success, you can now close this page, or check out other data below.",
        ),
        time: stamp(now.time.as_str(), now.dotw.as_str(), now.date.as_str()),
        last_time: stamp(
            data.state[n - 1].time.as_str(),
            data.state[n - 1].dotw.as_str(),
            data.state[n - 1].date.as_str(),
        ),
        counter: new_counter,
    };
    if now.date == data.state[n - 1].date {
        let old_row = data.state.pop().unwrap();
        let row = AppState {
            last_date: old_row.last_date,
            date: old_row.date,
            dotw: old_row.dotw,
            counter: new_counter,
            count_since_yesterday: delta,
            time: now.time.clone(),
            last_time: old_row.time,
        };
        data.state.push(row);
    } else {
        let row = AppState {
            last_date: data.state[n - 1].date.clone(),
            date: now.date.clone(),
            dotw: now.dotw.clone(),
            counter: new_counter,
            count_since_yesterday: delta,
            time: now.time.clone(),
            last_time: data.state[n - 1].time.clone(),
        };
        data.state.push(row);
    }
    success
}

/// Project the untouched tail of the ledger into the "already checked in"
/// reply.  Read-only: no ledger mutation belongs to a denied attempt.
pub fn blocked_response(data: &AppData) -> (r: BlockedResponse)
    requires
        data.state@.len() >= 1,
    ensures
        r.current_count == data.state@.last().counter,
        r.last_time@ == stamp_of(
            data.state@.last().time@,
            data.state@.last().dotw@,
            data.state@.last().date@,
        ),
        r.message@ == ("You've already checked in, come back tomorrow!")@,
{
    let n = data.state.len();
    BlockedResponse {
        message: String::from_str("You've already checked in, come back tomorrow!"),
        current_count: data.state[n - 1].counter,
        last_time: stamp(
            data.state[n - 1].time.as_str(),
            data.state[n - 1].dotw.as_str(),
            data.state[n - 1].date.as_str(),
        ),
    }
}

/// Idempotent day key, and no lost updates: along any chain of same-day
/// check-ins the ledger's length never grows, and each step raises the tail
/// count by exactly 1, so a chain of steps ends with the starting count
/// plus the number of steps — whatever order the serialized calls took.
pub proof fn lemma_same_day_chain(chain: Seq<Seq<AppState>>)
    requires
        chain.len() >= 1,
        forall|k: int| 0 <= k < chain.len() - 1 ==> #[trigger] same_day_step(
            chain[k],
            chain[k + 1],
        ),
    ensures
        chain.last().len() == chain[0].len(),
        chain.last().last().counter == chain[0].last().counter + chain.len() - 1,
    decreases chain.len(),
{
    if chain.len() > 1 {
        let prefix = chain.drop_last();
        assert forall|k: int| 0 <= k < prefix.len() - 1 implies #[trigger] same_day_step(
            prefix[k],
            prefix[k + 1],
        ) by {
            assert(prefix[k] == chain[k]);
            assert(prefix[k + 1] == chain[k + 1]);
            assert(same_day_step(chain[k], chain[k + 1]));
        }
        lemma_same_day_chain(prefix);
        let last_step: int = chain.len() - 2;
        assert(same_day_step(chain[last_step], chain[last_step + 1]));
        assert(prefix.last() == chain[last_step]);
        assert(chain.last() == chain[last_step + 1]);
    }
}

/// Day rollover: a check-in on a new day records the tail's count plus 1,
/// and the recorded delta is exactly 1 where the row before the tail
/// carries the same count as the tail — in particular on a one-row ledger,
/// whose single row becomes the previous day, and after a day in which no
/// visit landed.
pub proof fn lemma_day_rollover(s: Seq<AppState>, now: Moment)
    requires
        ledger_wf(s),
        !same_day(s, now),
        s.len() == 1 || s[s.len() - 2].counter == s.last().counter,
    ensures
        next_counter(s) == s.last().counter + 1,
        next_delta(s, now) == 1,
{
}

} // verus!
