use etax::aggregate::{aggregate, Transaction};

fn tx(gross_us: u64, tax_us: u64, exchange_rate: u64) -> Transaction {
    Transaction {
        transaction_date: "N/A".to_string(),
        gross_us,
        tax_us,
        exchange_rate_date: "N/A".to_string(),
        exchange_rate,
    }
}

#[test]
fn test_simple_computation() {
    // gross $100.00, tax $25.00, rate 4.0000: totals 400.000000 and 100.000000
    let transactions: Vec<Transaction> = vec![tx(10000, 2500, 40000)];
    assert_eq!(aggregate(&transactions), (400_000_000, 100_000_000));
}

#[test]
fn test_computation() {
    // rates 4.0 and 3.5, gross 100/126, tax 25/10:
    // gross total 100*4 + 126*3.5 = 841.0, tax total 25*4 + 10*3.5 = 135.0
    let transactions: Vec<Transaction> = vec![tx(10000, 2500, 40000), tx(12600, 1000, 35000)];
    assert_eq!(aggregate(&transactions), (841_000_000, 135_000_000));
}

#[test]
fn test_aggregate_empty() {
    let transactions: Vec<Transaction> = Vec::new();
    assert_eq!(aggregate(&transactions), (0, 0));
}

#[test]
fn test_aggregate_singleton_scales_both_amounts() {
    let transactions = vec![tx(12345, 678, 9)];
    assert_eq!(aggregate(&transactions), (12345 * 9, 678 * 9));
}

#[test]
fn test_aggregate_order_independent() {
    let a = tx(10000, 2500, 40000);
    let b = tx(12600, 1000, 35000);
    let c = tx(7, 3, 11);
    let one = vec![a.clone(), b.clone(), c.clone()];
    let other = vec![c, a, b];
    assert_eq!(aggregate(&one), aggregate(&other));
}
