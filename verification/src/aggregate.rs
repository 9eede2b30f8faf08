//! The tax aggregator: a pure reduction of resolved transactions into two
//! home-currency totals.
//!
//! Each transaction's gross amount and withheld tax are multiplied by that
//! transaction's own exchange rate and the two series are summed.  Amounts
//! are in minor units (two fractional digits) and rates are scaled by ten
//! thousand, so the totals carry six fractional digits.

use vstd::prelude::*;

use vstd::seq_lib::group_to_multiset_ensures;

verus! {

/// The join of a dividend record and its resolved exchange rate.  Amounts
/// are in minor units; the rate is scaled by ten thousand.
#[derive(Clone, Debug, PartialEq, Eq)]
pub struct Transaction {
    pub transaction_date: String,
    pub gross_us: u64,
    pub tax_us: u64,
    pub exchange_rate_date: String,
    pub exchange_rate: u64,
}

/// One transaction's gross amount in home currency.
pub open spec fn gross_term(t: Transaction) -> int {
    t.gross_us * t.exchange_rate
}

/// One transaction's withheld tax in home currency.
pub open spec fn tax_term(t: Transaction) -> int {
    t.tax_us * t.exchange_rate
}

/// Total gross income in home currency over a transaction sequence.
pub open spec fn gross_total(s: Seq<Transaction>) -> int
    decreases s.len(),
{
    if s.len() == 0 {
        0
    } else {
        gross_total(s.drop_last()) + gross_term(s.last())
    }
}

/// Total tax withheld in home currency over a transaction sequence.
pub open spec fn tax_total(s: Seq<Transaction>) -> int
    decreases s.len(),
{
    if s.len() == 0 {
        0
    } else {
        tax_total(s.drop_last()) + tax_term(s.last())
    }
}

/// Both totals are sums of non-negative terms.
pub proof fn lemma_totals_nonneg(s: Seq<Transaction>)
    ensures
        gross_total(s) >= 0,
        tax_total(s) >= 0,
    decreases s.len(),
{
    if s.len() > 0 {
        lemma_totals_nonneg(s.drop_last());
        vstd::arithmetic::mul::lemma_mul_nonnegative(
            s.last().gross_us as int,
            s.last().exchange_rate as int,
        );
        vstd::arithmetic::mul::lemma_mul_nonnegative(
            s.last().tax_us as int,
            s.last().exchange_rate as int,
        );
    }
}

/// The totals of a prefix never exceed the totals of the whole sequence.
pub proof fn lemma_totals_prefix_le(s: Seq<Transaction>, i: int)
    requires
        0 <= i <= s.len(),
    ensures
        gross_total(s.subrange(0, i)) <= gross_total(s),
        tax_total(s.subrange(0, i)) <= tax_total(s),
    decreases s.len() - i,
{
    if i == s.len() {
        assert(s.subrange(0, i) =~= s);
    } else {
        assert(s.subrange(0, i + 1).drop_last() =~= s.subrange(0, i));
        vstd::arithmetic::mul::lemma_mul_nonnegative(
            s[i].gross_us as int,
            s[i].exchange_rate as int,
        );
        vstd::arithmetic::mul::lemma_mul_nonnegative(s[i].tax_us as int, s[i].exchange_rate as int);
        lemma_totals_prefix_le(s, i + 1);
    }
}

/// Removing one transaction removes exactly its own terms from the totals.
pub proof fn lemma_totals_remove(s: Seq<Transaction>, j: int)
    requires
        0 <= j < s.len(),
    ensures
        gross_total(s.remove(j)) + gross_term(s[j]) == gross_total(s),
        tax_total(s.remove(j)) + tax_term(s[j]) == tax_total(s),
    decreases s.len(),
{
    if j == s.len() - 1 {
        assert(s.remove(j) =~= s.drop_last());
    } else {
        assert(s.remove(j).drop_last() =~= s.drop_last().remove(j));
        assert(s.remove(j).last() == s.last());
        lemma_totals_remove(s.drop_last(), j);
    }
}

/// The totals do not depend on the order of the transactions: any two
/// sequences with the same transactions in the same multiplicities have the
/// same gross total and the same tax total.
pub proof fn lemma_totals_permutation(s1: Seq<Transaction>, s2: Seq<Transaction>)
    requires
        s1.to_multiset() == s2.to_multiset(),
    ensures
        gross_total(s1) == gross_total(s2),
        tax_total(s1) == tax_total(s2),
    decreases s1.len(),
{
    broadcast use group_to_multiset_ensures;

    if s1.len() == 0 {
        assert(s2.to_multiset().len() == 0);
    } else {
        let x = s1.last();
        assert(s1.to_multiset().count(x) > 0);
        assert(s2.contains(x));
        let j = s2.index_of(x);
        assert(s1.remove(s1.len() - 1) =~= s1.drop_last());
        assert(s1.drop_last().to_multiset() =~= s1.to_multiset().remove(x));
        assert(s2.remove(j).to_multiset() =~= s2.to_multiset().remove(x));
        lemma_totals_remove(s2, j);
        lemma_totals_permutation(s1.drop_last(), s2.remove(j));
    }
}

/// A single transaction aggregates to exactly its own converted amounts:
/// the gross total is `gross_us * exchange_rate` and the tax total is
/// `tax_us * exchange_rate`.
pub proof fn lemma_total_singleton(t: Transaction)
    ensures
        gross_total(seq![t]) == t.gross_us * t.exchange_rate,
        tax_total(seq![t]) == t.tax_us * t.exchange_rate,
{
    assert(gross_total(Seq::<Transaction>::empty()) == 0);
    assert(tax_total(Seq::<Transaction>::empty()) == 0);
    assert(seq![t].drop_last() =~= Seq::<Transaction>::empty());
    assert(seq![t].last() == t);
}

/// An empty transaction sequence aggregates to zero in both totals.
pub proof fn lemma_total_empty()
    ensures
        gross_total(Seq::<Transaction>::empty()) == 0,
        tax_total(Seq::<Transaction>::empty()) == 0,
{
}

/// Folds the transactions into `(gross income, tax paid)` in home currency,
/// each transaction converted by its own exchange rate.  The bounds only ask
/// that the mathematical totals fit the machine word.
pub fn aggregate(transactions: &Vec<Transaction>) -> (r: (u64, u64))
    requires
        gross_total(transactions@) <= u64::MAX,
        tax_total(transactions@) <= u64::MAX,
    ensures
        r.0 == gross_total(transactions@),
        r.1 == tax_total(transactions@),
{
    let mut gross: u64 = 0;
    let mut tax: u64 = 0;
    let mut i: usize = 0;
    proof {
        assert(transactions@.subrange(0, 0) =~= Seq::<Transaction>::empty());
    }
    while i < transactions.len()
        invariant
            i <= transactions.len(),
            gross_total(transactions@) <= u64::MAX,
            tax_total(transactions@) <= u64::MAX,
            gross == gross_total(transactions@.subrange(0, i as int)),
            tax == tax_total(transactions@.subrange(0, i as int)),
        decreases transactions.len() - i,
    {
        let ghost s = transactions@;
        proof {
            assert(s.subrange(0, i + 1).drop_last() =~= s.subrange(0, i as int));
            assert(s.subrange(0, i + 1).last() == s[i as int]);
            lemma_totals_prefix_le(s, i + 1);
            lemma_totals_nonneg(s.subrange(0, i as int));
        }
        let t = &transactions[i];
        gross = gross + t.gross_us * t.exchange_rate;
        tax = tax + t.tax_us * t.exchange_rate;
        i += 1;
    }
    proof {
        assert(transactions@.subrange(0, i as int) =~= transactions@);
    }
    (gross, tax)
}

} // verus!
