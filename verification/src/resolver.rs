//! The rate resolver: a bounded backward date search for the most recent
//! published exchange rate strictly before a transaction date.
//!
//! The rate published "for" a date is only available after that date closes,
//! so the search starts one day before the query date and steps backward, one
//! calendar day at a time, until a rate is found or
//! [`MAX_LOOKBACK_DAYS`] days are exhausted.
//!
//! Two entry points share the same walk.  [`resolve`] runs it against an
//! in-memory rate table.  [`RateWalk`] exposes it one step at a time, so a
//! caller that queries a remote rate source can perform the lookups itself
//! and feed each outcome back in; every decision of that loop is made here.
//!
//! Rates are exact decimals with four fractional digits, held as integers:
//! `37247` stands for a rate of `3.7247`.

use vstd::prelude::*;

use crate::date::{date_le, date_lt, date_of_mmddyy, iso_seq, parse_mmddyy, prev_date, Date};

verus! {

/// How many calendar days the backward search may step before it gives up
/// with `RateUnavailable`.
pub const MAX_LOOKBACK_DAYS: u64 = 10;

/// One published rate: the date it is effective for and its value, scaled by
/// ten thousand.
#[derive(Clone, Copy, Debug, PartialEq, Eq, Structural)]
pub struct RateEntry {
    pub effective_date: Date,
    pub mid: u64,
}

/// Why no rate was resolved.
#[derive(Clone, Copy, Debug, PartialEq, Eq, Structural)]
pub enum ResolveError {
    /// The transaction date was not a parseable `mm/dd/yy` date.
    InvalidDate,
    /// The backward search exhausted its day bound without finding a rate.
    RateUnavailable,
    /// A lookup failed at the transport level; the walk stops rather than
    /// treating the day as a gap.
    LookupFailed,
}

/// The rate the table publishes for exactly the date `d`, if any (the first
/// matching entry).
pub open spec fn table_lookup(t: Seq<RateEntry>, d: Date) -> Option<u64>
    decreases t.len(),
{
    if t.len() == 0 {
        None
    } else if t.first().effective_date == d {
        Some(t.first().mid)
    } else {
        table_lookup(t.drop_first(), d)
    }
}

/// The backward walk over a rate table: starting strictly before `d`, the
/// first date with a published rate among the next `fuel` earlier days.
pub open spec fn walk_spec(t: Seq<RateEntry>, d: Date, fuel: nat) -> Option<(Date, u64)>
    decreases fuel,
{
    if fuel == 0 {
        None
    } else {
        let p = prev_date(d);
        match table_lookup(t, p) {
            Some(r) => Some((p, r)),
            None => walk_spec(t, p, (fuel - 1) as nat),
        }
    }
}

/// Looks `d` up in the rate table, exactly as [`table_lookup`] describes.
pub fn lookup(table: &Vec<RateEntry>, d: &Date) -> (r: Option<u64>)
    ensures
        r == table_lookup(table@, *d),
{
    let mut i: usize = 0;
    proof {
        assert(table@.subrange(0, table@.len() as int) =~= table@);
    }
    while i < table.len()
        invariant
            i <= table.len(),
            table_lookup(table@.subrange(i as int, table@.len() as int), *d) == table_lookup(
                table@,
                *d,
            ),
        decreases table.len() - i,
    {
        let ghost suffix = table@.subrange(i as int, table@.len() as int);
        proof {
            assert(suffix.first() == table@[i as int]);
            assert(suffix.drop_first() =~= table@.subrange(i + 1, table@.len() as int));
        }
        if table[i].effective_date == *d {
            return Some(table[i].mid);
        }
        i += 1;
    }
    None
}

/// Resolves a raw `mm/dd/yy` transaction date against a rate table: the rate
/// effective on the most recent date strictly before the transaction date,
/// with that date in ISO form.  Fails with `InvalidDate` exactly when the
/// date does not parse, and with `RateUnavailable` exactly when no rate is
/// published in the [`MAX_LOOKBACK_DAYS`] days before the transaction date.
pub fn resolve(table: &Vec<RateEntry>, transaction_date: &str) -> (r: Result<
    (String, u64),
    ResolveError,
>)
    ensures
        match date_of_mmddyy(transaction_date@) {
            None => r == Err::<(String, u64), ResolveError>(ResolveError::InvalidDate),
            Some(q) => match walk_spec(table@, q, MAX_LOOKBACK_DAYS as nat) {
                Some((d, rate)) => r matches Ok(p) && p.0@ == iso_seq(d) && p.1 == rate && date_lt(
                    d,
                    q,
                ),
                None => r == Err::<(String, u64), ResolveError>(ResolveError::RateUnavailable),
            },
        },
{
    let q: Date = match parse_mmddyy(transaction_date) {
        Some(d) => d,
        None => {
            return Err(ResolveError::InvalidDate);
        },
    };
    let mut cur: Date = q;
    let mut i: u64 = 0;
    while i < MAX_LOOKBACK_DAYS
        invariant
            i <= MAX_LOOKBACK_DAYS,
            date_of_mmddyy(transaction_date@) == Some(q),
            cur.wf(),
            date_le(cur, q),
            q.wf(),
            1969 <= q.year <= 2068,
            cur.year + i >= q.year,
            walk_spec(table@, cur, (MAX_LOOKBACK_DAYS - i) as nat) == walk_spec(
                table@,
                q,
                MAX_LOOKBACK_DAYS as nat,
            ),
        decreases MAX_LOOKBACK_DAYS - i,
    {
        let p: Date = cur.prev_day();
        match lookup(table, &p) {
            Some(rate) => {
                proof {
                    assert(walk_spec(table@, cur, (MAX_LOOKBACK_DAYS - i) as nat) == Some(
                        (p, rate),
                    ));
                    assert(date_lt(p, q));
                }
                return Ok((p.to_iso_string(), rate));
            },
            None => {
                cur = p;
                i = i + 1;
            },
        }
    }
    Err(ResolveError::RateUnavailable)
}

/// What one remote lookup of the walk's current date reported.
#[derive(Clone, Copy, Debug, PartialEq, Eq, Structural)]
pub enum LookupOutcome {
    /// The source published a rate for the date (scaled by ten thousand).
    Found(u64),
    /// The source has no rate for the date (a holiday or weekend gap).
    NoRate,
    /// The lookup failed at the transport level.
    TransportFailure,
}

/// An in-progress backward walk whose lookups the caller performs.  The
/// caller asks for [`RateWalk::query_date`], looks that date up, and hands
/// the outcome to [`RateWalk::step`].
#[derive(Clone, Copy, Debug, PartialEq, Eq, Structural)]
pub struct RateWalk {
    /// The transaction date the walk started from.
    pub query: Date,
    /// The date to look up next; always strictly earlier than `query`.
    pub current: Date,
    /// How many further days may be tried after the current one.
    pub steps_left: u64,
}

/// What one step of the walk decided.
#[derive(Debug, PartialEq, Eq)]
pub enum WalkStep {
    /// A rate was found: its effective date in ISO form, and the rate.
    Done(String, u64),
    /// No rate yet: look up the new current date next.
    Continue(RateWalk),
    /// The walk is over without a rate.
    Failed(ResolveError),
}

impl RateWalk {
    /// The walk's invariant: both dates are valid, the current date lies
    /// strictly before the query date, and enough earlier days exist for the
    /// remaining steps.
    pub open spec fn wf(self) -> bool {
        &&& self.query.wf()
        &&& self.current.wf()
        &&& date_lt(self.current, self.query)
        &&& self.steps_left < MAX_LOOKBACK_DAYS
        &&& self.current.year > 1 + self.steps_left
    }

    /// The date the caller should look up now, in ISO form.
    pub fn query_date(&self) -> (r: String)
        requires
            self.wf(),
        ensures
            r@ == iso_seq(self.current),
    {
        self.current.to_iso_string()
    }

    /// Feeds the outcome of looking up the current date back into the walk.
    /// A found rate completes the walk with the current date — always
    /// strictly earlier than the transaction date; a transport failure stops
    /// it; a gap steps one day further back until the bound is exhausted.
    pub fn step(self, outcome: LookupOutcome) -> (r: WalkStep)
        requires
            self.wf(),
        ensures
            match outcome {
                LookupOutcome::Found(rate) => r matches WalkStep::Done(d, rr) && d@ == iso_seq(
                    self.current,
                ) && rr == rate && date_lt(self.current, self.query),
                LookupOutcome::TransportFailure => r == WalkStep::Failed(ResolveError::LookupFailed),
                LookupOutcome::NoRate => if self.steps_left == 0 {
                    r == WalkStep::Failed(ResolveError::RateUnavailable)
                } else {
                    r matches WalkStep::Continue(w) && w.wf() && w.query == self.query && w.current
                        == prev_date(self.current) && w.steps_left == self.steps_left - 1
                },
            },
    {
        match outcome {
            LookupOutcome::Found(rate) => WalkStep::Done(self.current.to_iso_string(), rate),
            LookupOutcome::TransportFailure => WalkStep::Failed(ResolveError::LookupFailed),
            LookupOutcome::NoRate => {
                if self.steps_left == 0 {
                    WalkStep::Failed(ResolveError::RateUnavailable)
                } else {
                    WalkStep::Continue(
                        RateWalk {
                            query: self.query,
                            current: self.current.prev_day(),
                            steps_left: self.steps_left - 1,
                        },
                    )
                }
            },
        }
    }
}

/// Starts a caller-driven walk from a raw `mm/dd/yy` transaction date.
/// Fails with `InvalidDate` exactly when the date does not parse; otherwise
/// the walk begins one day before the transaction date with the full
/// [`MAX_LOOKBACK_DAYS`] budget.
pub fn start_walk(transaction_date: &str) -> (r: Result<RateWalk, ResolveError>)
    ensures
        match date_of_mmddyy(transaction_date@) {
            None => r == Err::<RateWalk, ResolveError>(ResolveError::InvalidDate),
            Some(q) => r matches Ok(w) && w.wf() && w.query == q && w.current == prev_date(q)
                && w.steps_left == MAX_LOOKBACK_DAYS - 1,
        },
{
    match parse_mmddyy(transaction_date) {
        Some(q) => {
            let current: Date = q.prev_day();
            Ok(RateWalk { query: q, current, steps_left: MAX_LOOKBACK_DAYS - 1 })
        },
        None => Err(ResolveError::InvalidDate),
    }
}

} // verus!
