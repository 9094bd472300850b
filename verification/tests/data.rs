use qr_checkin::clock::Moment;
use qr_checkin::data::{
    bootstrap_data, from_json, seed_state, to_json, AppData, AppState, JsonData, JsonState,
};

fn moment(date: &str, time: &str, dotw: &str) -> Moment {
    Moment {
        date: date.to_string(),
        time: time.to_string(),
        dotw: dotw.to_string(),
        rfc3339: String::new(),
        epoch_seconds: 0,
    }
}

fn json_row(date: &str, dotw: &str, last_count: i32, delta: i32, last_time: &str) -> JsonState {
    JsonState {
        date: date.to_string(),
        dotw: dotw.to_string(),
        last_count,
        count_since_yesterday: delta,
        last_time: last_time.to_string(),
    }
}

#[test]
fn bootstrap_from_missing_storage_seeds_one_zero_row() {
    let now = moment("2024-03-04", "08:00:00", "Mon");
    let d = bootstrap_data(None, &now);
    assert_eq!(d.state.len(), 1);
    assert_eq!(d.state[0].last_count, 0);
    assert_eq!(d.state[0].count_since_yesterday, 0);
    assert_eq!(d.state[0].date, "2024-03-04");
    assert_eq!(d.state[0].dotw, "Mon");
    assert_eq!(d.state[0].last_time, "08:00:00");
}

#[test]
fn bootstrap_keeps_loaded_storage_as_it_stands() {
    let loaded = JsonData {
        state: vec![
            json_row("2024-03-03", "Sun", 2, 0, "07:00:00"),
            json_row("2024-03-04", "Mon", 5, 3, "08:00:00"),
        ],
    };
    let now = moment("2024-03-05", "09:00:00", "Tue");
    let d = bootstrap_data(Some(loaded), &now);
    assert_eq!(d.state.len(), 2);
    assert_eq!(d.state[0].last_count, 2);
    assert_eq!(d.state[1].date, "2024-03-04");
}

#[test]
fn seed_row_is_dated_now_with_zero_counts() {
    let now = moment("2024-12-31", "23:59:59", "Tue");
    let r = seed_state(&now);
    assert_eq!(r.date, "2024-12-31");
    assert_eq!(r.dotw, "Tue");
    assert_eq!(r.last_count, 0);
    assert_eq!(r.count_since_yesterday, 0);
    assert_eq!(r.last_time, "23:59:59");
}

#[test]
fn default_ledger_is_one_zero_row_dated_today() {
    let d = JsonData::default();
    assert_eq!(d.state.len(), 1);
    assert_eq!(d.state[0].last_count, 0);
    assert_eq!(d.state[0].count_since_yesterday, 0);
    let today = chrono::Local::now().date_naive().to_string();
    assert_eq!(d.state[0].date, today);
}

#[test]
fn loaded_rows_fill_both_time_and_date_fields() {
    let j = JsonData {
        state: vec![json_row("2024-03-04", "Mon", 5, 3, "08:00:00")],
    };
    let d = from_json(&j);
    assert_eq!(d.state.len(), 1);
    assert_eq!(d.state[0].date, "2024-03-04");
    assert_eq!(d.state[0].last_date, "2024-03-04");
    assert_eq!(d.state[0].counter, 5);
    assert_eq!(d.state[0].count_since_yesterday, 3);
    assert_eq!(d.state[0].dotw, "Mon");
    assert_eq!(d.state[0].time, "08:00:00");
    assert_eq!(d.state[0].last_time, "08:00:00");
}

#[test]
fn persisted_rows_keep_counts_dates_and_latest_time() {
    let d = AppData {
        state: vec![AppState {
            last_date: "2024-03-03".to_string(),
            date: "2024-03-04".to_string(),
            dotw: "Mon".to_string(),
            counter: 6,
            count_since_yesterday: 4,
            time: "09:00:00".to_string(),
            last_time: "08:00:00".to_string(),
        }],
    };
    let j = to_json(&d);
    assert_eq!(j.state.len(), 1);
    assert_eq!(j.state[0].date, "2024-03-04");
    assert_eq!(j.state[0].dotw, "Mon");
    assert_eq!(j.state[0].last_count, 6);
    assert_eq!(j.state[0].count_since_yesterday, 4);
    assert_eq!(j.state[0].last_time, "09:00:00");
}

#[test]
fn persist_then_load_round_trips_the_displayed_history() {
    let j = JsonData {
        state: vec![
            json_row("2024-03-03", "Sun", 2, 0, "07:00:00"),
            json_row("2024-03-04", "Mon", 5, 3, "08:00:00"),
        ],
    };
    let back = to_json(&from_json(&j));
    assert_eq!(back.state.len(), 2);
    for (a, b) in back.state.iter().zip(j.state.iter()) {
        assert_eq!(a.date, b.date);
        assert_eq!(a.dotw, b.dotw);
        assert_eq!(a.last_count, b.last_count);
        assert_eq!(a.count_since_yesterday, b.count_since_yesterday);
        assert_eq!(a.last_time, b.last_time);
    }
}
