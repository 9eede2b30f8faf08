//! The statement scanner: a single-pass finite-state machine over a
//! document's text-show operations that recovers one dividend record.
//!
//! The machine starts in [`ScanState::SearchingDividendEntry`] and remembers
//! the last string seen there as the candidate transaction date.  On the
//! literal marker `"Dividend"` it starts looking for the ticker `"INTC"`,
//! then reads the tax amount, then the gross amount, and completes.  Reaching
//! the end of the stream before completion is an incomplete statement; a
//! non-numeric string where an amount is expected is a malformed amount.

use vstd::prelude::*;

use crate::amount::{amount_u64, parse_amount};

verus! {

/// One content operation of a document page: its operator and, where the
/// first operand is an array whose first element is a string, that string.
pub struct ContentOp {
    pub operator: String,
    pub text: Option<String>,
}

/// The scanner's search phase.
#[derive(Clone, Copy, Debug, PartialEq, Eq, Structural)]
pub enum ScanState {
    SearchingDividendEntry,
    SearchingINTCEntry,
    SearchingTaxEntry,
    SearchingGrossEntry,
}

/// One dividend event, exactly as bracketed on the statement.  Amounts are
/// in minor units (two fractional digits).
#[derive(Debug, PartialEq, Eq)]
pub struct DividendRecord {
    pub transaction_date: String,
    pub gross_us: u64,
    pub tax_us: u64,
}

/// Why a scan produced no record.  `Incomplete` carries the document
/// identifier for diagnostics.
#[derive(Debug, PartialEq, Eq)]
pub enum ParseError {
    Incomplete(String),
    MalformedAmount,
}

/// The scanner's accumulated state between tokens.
pub ghost struct ScanAcc {
    pub state: ScanState,
    pub date: Seq<char>,
    pub tax: u64,
}

/// What a scan of a token stream yields.
pub ghost enum ScanOutcome {
    Complete { date: Seq<char>, gross: u64, tax: u64 },
    MalformedAmount,
    Incomplete,
}

/// The token a content operation contributes to the scan: the string of a
/// text-show (`"TJ"`) operation, and nothing of any other operation.
pub open spec fn op_token(op: ContentOp) -> Option<Seq<char>> {
    if op.operator@ == "TJ"@ && op.text is Some {
        Some(op.text->Some_0@)
    } else {
        None
    }
}

/// The token stream of a sequence of content operations, in order.
pub open spec fn tokens_of(ops: Seq<ContentOp>) -> Seq<Seq<char>>
    decreases ops.len(),
{
    if ops.len() == 0 {
        Seq::empty()
    } else {
        match op_token(ops.first()) {
            Some(t) => seq![t] + tokens_of(ops.drop_first()),
            None => tokens_of(ops.drop_first()),
        }
    }
}

/// The scanner's starting state: no marker seen, candidate date `"N/A"`.
pub open spec fn init_acc() -> ScanAcc {
    ScanAcc { state: ScanState::SearchingDividendEntry, date: "N/A"@, tax: 0 }
}

/// The finite-state machine itself, over the bare token stream.
pub open spec fn scan_tokens(tokens: Seq<Seq<char>>, acc: ScanAcc) -> ScanOutcome
    decreases tokens.len(),
{
    if tokens.len() == 0 {
        ScanOutcome::Incomplete
    } else {
        let t = tokens.first();
        let rest = tokens.drop_first();
        match acc.state {
            ScanState::SearchingDividendEntry => if t == "Dividend"@ {
                scan_tokens(
                    rest,
                    ScanAcc { state: ScanState::SearchingINTCEntry, date: acc.date, tax: acc.tax },
                )
            } else {
                scan_tokens(rest, ScanAcc { state: acc.state, date: t, tax: acc.tax })
            },
            ScanState::SearchingINTCEntry => if t == "INTC"@ {
                scan_tokens(
                    rest,
                    ScanAcc { state: ScanState::SearchingTaxEntry, date: acc.date, tax: acc.tax },
                )
            } else {
                scan_tokens(rest, acc)
            },
            ScanState::SearchingTaxEntry => match amount_u64(t) {
                Some(v) => scan_tokens(
                    rest,
                    ScanAcc { state: ScanState::SearchingGrossEntry, date: acc.date, tax: v },
                ),
                None => ScanOutcome::MalformedAmount,
            },
            ScanState::SearchingGrossEntry => match amount_u64(t) {
                Some(g) => ScanOutcome::Complete { date: acc.date, gross: g, tax: acc.tax },
                None => ScanOutcome::MalformedAmount,
            },
        }
    }
}

/// What scanning a sequence of content operations yields.
pub open spec fn scan_spec(ops: Seq<ContentOp>) -> ScanOutcome {
    scan_tokens(tokens_of(ops), init_acc())
}

/// String equality, decided character by character.
pub fn str_eq(a: &str, b: &str) -> (r: bool)
    ensures
        r == (a@ == b@),
{
    let an: usize = a.unicode_len();
    let bn: usize = b.unicode_len();
    if an != bn {
        return false;
    }
    let mut i: usize = 0;
    while i < an
        invariant
            i <= an,
            an == a@.len(),
            an == b@.len(),
            forall|k: int| 0 <= k < i ==> a@[k] == b@[k],
        decreases an - i,
    {
        if a.get_char(i) != b.get_char(i) {
            return false;
        }
        i += 1;
    }
    proof {
        assert(a@ =~= b@);
    }
    true
}

/// Scans the content operations of one document for its first complete
/// dividend event, exactly as [`scan_spec`] describes.  `document` is only
/// carried into the `Incomplete` diagnostic.
pub fn scan(ops: &Vec<ContentOp>, document: &str) -> (r: Result<DividendRecord, ParseError>)
    ensures
        match scan_spec(ops@) {
            ScanOutcome::Complete { date, gross, tax } => r matches Ok(rec)
                && rec.transaction_date@ == date && rec.gross_us == gross && rec.tax_us == tax,
            ScanOutcome::MalformedAmount => r == Err::<DividendRecord, ParseError>(
                ParseError::MalformedAmount,
            ),
            ScanOutcome::Incomplete => r matches Err(e) && e matches ParseError::Incomplete(doc)
                && doc@ == document@,
        },
{
    let mut state = ScanState::SearchingDividendEntry;
    let mut transaction_date: String = String::from_str("N/A");
    let mut tax_us: u64 = 0;
    let mut i: usize = 0;
    proof {
        assert(ops@.subrange(0, ops@.len() as int) =~= ops@);
    }
    while i < ops.len()
        invariant
            i <= ops.len(),
            scan_tokens(
                tokens_of(ops@.subrange(i as int, ops@.len() as int)),
                ScanAcc { state: state, date: transaction_date@, tax: tax_us },
            ) == scan_spec(ops@),
        decreases ops.len() - i,
    {
        let ghost suffix = ops@.subrange(i as int, ops@.len() as int);
        proof {
            assert(suffix.first() == ops@[i as int]);
            assert(suffix.drop_first() =~= ops@.subrange(i + 1, ops@.len() as int));
        }
        let op = &ops[i];
        if str_eq(op.operator.as_str(), "TJ") {
            match &op.text {
                Some(s) => {
                    proof {
                        assert(op_token(ops@[i as int]) == Some(s@));
                        assert(tokens_of(suffix).first() == s@);
                        assert(tokens_of(suffix).drop_first() =~= tokens_of(
                            ops@.subrange(i + 1, ops@.len() as int),
                        ));
                    }
                    match state {
                        ScanState::SearchingDividendEntry => {
                            if str_eq(s.as_str(), "Dividend") {
                                state = ScanState::SearchingINTCEntry;
                            } else {
                                transaction_date = s.clone();
                            }
                        },
                        ScanState::SearchingINTCEntry => {
                            if str_eq(s.as_str(), "INTC") {
                                state = ScanState::SearchingTaxEntry;
                            }
                        },
                        ScanState::SearchingTaxEntry => {
                            match parse_amount(s.as_str()) {
                                Some(v) => {
                                    tax_us = v;
                                    state = ScanState::SearchingGrossEntry;
                                },
                                None => {
                                    return Err(ParseError::MalformedAmount);
                                },
                            }
                        },
                        ScanState::SearchingGrossEntry => {
                            match parse_amount(s.as_str()) {
                                Some(g) => {
                                    return Ok(
                                        DividendRecord {
                                            transaction_date,
                                            gross_us: g,
                                            tax_us,
                                        },
                                    );
                                },
                                None => {
                                    return Err(ParseError::MalformedAmount);
                                },
                            }
                        },
                    }
                },
                None => {
                    proof {
                        assert(op_token(ops@[i as int]) is None);
                        assert(tokens_of(suffix) == tokens_of(
                            ops@.subrange(i + 1, ops@.len() as int),
                        ));
                    }
                },
            }
        } else {
            proof {
                assert(op_token(ops@[i as int]) is None);
                assert(tokens_of(suffix) == tokens_of(ops@.subrange(i + 1, ops@.len() as int)));
            }
        }
        i += 1;
    }
    proof {
        assert(ops@.subrange(i as int, ops@.len() as int).len() == 0);
    }
    Err(ParseError::Incomplete(document.to_owned()))
}

} // verus!
