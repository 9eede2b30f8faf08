//! The full flow on one statement: scan the token stream, resolve the
//! transaction date against a rate table, aggregate the joined transaction.

use etax::aggregate::{aggregate, Transaction};
use etax::date::Date;
use etax::resolver::{resolve, RateEntry};
use etax::scanner::{scan, ContentOp};

#[test]
fn test_statement_to_totals() {
    let ops: Vec<ContentOp> = ["03/01/21", "Dividend", "INTC", "86.16", "574.42"]
        .iter()
        .map(|s| ContentOp { operator: "TJ".to_string(), text: Some(s.to_string()) })
        .collect();
    let record = scan(&ops, "statement").unwrap();
    assert_eq!(record.transaction_date, "03/01/21");

    let table = vec![RateEntry {
        effective_date: Date { year: 2021, month: 2, day: 26 },
        mid: 37247,
    }];
    let (exchange_rate_date, exchange_rate) =
        resolve(&table, &record.transaction_date).unwrap();
    assert_eq!(exchange_rate_date, "2021-02-26");

    let transactions = vec![Transaction {
        transaction_date: record.transaction_date,
        gross_us: record.gross_us,
        tax_us: record.tax_us,
        exchange_rate_date,
        exchange_rate,
    }];
    // 574.42 * 3.7247 = 2139.542174 and 86.16 * 3.7247 = 320.920152
    assert_eq!(aggregate(&transactions), (2_139_542_174, 320_920_152));
}
