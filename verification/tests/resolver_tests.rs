use etax::date::Date;
use etax::resolver::{
    resolve, start_walk, LookupOutcome, RateEntry, ResolveError, WalkStep,
};

fn entry(year: u32, month: u32, day: u32, mid: u64) -> RateEntry {
    RateEntry { effective_date: Date { year, month, day }, mid }
}

#[test]
fn test_exchange_rate() {
    // 2021-02-26 is the latest published date at or before 2021-03-01; the
    // weekend gap (02-27, 02-28) is skipped, and so is the query date itself.
    let table = vec![entry(2021, 2, 25, 37000), entry(2021, 2, 26, 37247)];
    assert_eq!(
        resolve(&table, "03/01/21"),
        Ok(("2021-02-26".to_string(), 37247))
    );
}

#[test]
fn test_resolve_never_returns_query_date() {
    // A rate published for the query date itself is not available yet.
    let table = vec![entry(2021, 3, 1, 40000), entry(2021, 2, 26, 37247)];
    assert_eq!(
        resolve(&table, "03/01/21"),
        Ok(("2021-02-26".to_string(), 37247))
    );
}

#[test]
fn test_resolve_invalid_date() {
    let table = vec![entry(2021, 2, 26, 37247)];
    assert_eq!(resolve(&table, "2021-03-01"), Err(ResolveError::InvalidDate));
    assert_eq!(resolve(&table, "13/01/21"), Err(ResolveError::InvalidDate));
    assert_eq!(resolve(&table, "02/30/21"), Err(ResolveError::InvalidDate));
    assert_eq!(resolve(&table, ""), Err(ResolveError::InvalidDate));
}

#[test]
fn test_resolve_rate_unavailable_on_empty_table() {
    let table: Vec<RateEntry> = Vec::new();
    assert_eq!(resolve(&table, "03/01/21"), Err(ResolveError::RateUnavailable));
}

#[test]
fn test_resolve_lookback_bound() {
    // 2021-02-19 is the tenth day before 2021-03-01: still reached.
    let table = vec![entry(2021, 2, 19, 35000)];
    assert_eq!(
        resolve(&table, "03/01/21"),
        Ok(("2021-02-19".to_string(), 35000))
    );
    // One day further back is beyond the bound.
    let table = vec![entry(2021, 2, 18, 35000)];
    assert_eq!(resolve(&table, "03/01/21"), Err(ResolveError::RateUnavailable));
}

#[test]
fn test_walk_starts_one_day_earlier() {
    let w = start_walk("03/01/21").unwrap();
    assert_eq!(w.query_date(), "2021-02-28");
}

#[test]
fn test_walk_crosses_year_boundary() {
    let w = start_walk("01/01/21").unwrap();
    assert_eq!(w.query_date(), "2020-12-31");
}

#[test]
fn test_walk_handles_leap_day() {
    let w = start_walk("03/01/20").unwrap();
    assert_eq!(w.query_date(), "2020-02-29");
}

#[test]
fn test_walk_handles_leap_century_year() {
    // 2000 is a leap year by the four-hundred-year rule.
    let w = start_walk("03/01/00").unwrap();
    assert_eq!(w.query_date(), "2000-02-29");
}

#[test]
fn test_walk_crosses_month_boundary() {
    let w = start_walk("08/01/21").unwrap();
    assert_eq!(w.query_date(), "2021-07-31");
}

#[test]
fn test_walk_invalid_date() {
    assert!(matches!(start_walk("garbage"), Err(ResolveError::InvalidDate)));
}

#[test]
fn test_walk_found_after_gap() {
    let w = start_walk("03/01/21").unwrap();
    let w = match w.step(LookupOutcome::NoRate) {
        WalkStep::Continue(w) => w,
        other => panic!("expected the walk to continue, got {:?}", other),
    };
    assert_eq!(w.query_date(), "2021-02-27");
    match w.step(LookupOutcome::Found(37247)) {
        WalkStep::Done(date, rate) => {
            assert_eq!(date, "2021-02-27");
            assert_eq!(rate, 37247);
        }
        other => panic!("expected the walk to finish, got {:?}", other),
    }
}

#[test]
fn test_walk_transport_failure_is_fatal() {
    let w = start_walk("03/01/21").unwrap();
    assert_eq!(
        w.step(LookupOutcome::TransportFailure),
        WalkStep::Failed(ResolveError::LookupFailed)
    );
}

#[test]
fn test_walk_exhausts_its_bound() {
    let mut w = start_walk("03/01/21").unwrap();
    let mut queried = 1;
    loop {
        match w.step(LookupOutcome::NoRate) {
            WalkStep::Continue(next) => {
                w = next;
                queried += 1;
            }
            WalkStep::Failed(e) => {
                assert_eq!(e, ResolveError::RateUnavailable);
                break;
            }
            WalkStep::Done(date, rate) => panic!("unexpected rate {} on {}", rate, date),
        }
    }
    assert_eq!(queried, 10);
}
