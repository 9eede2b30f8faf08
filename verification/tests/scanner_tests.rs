use etax::scanner::{scan, ContentOp, DividendRecord, ParseError};

fn text_op(s: &str) -> ContentOp {
    ContentOp { operator: "TJ".to_string(), text: Some(s.to_string()) }
}

fn text_ops(tokens: &[&str]) -> Vec<ContentOp> {
    tokens.iter().map(|s| text_op(s)).collect()
}

fn record(date: &str, gross_us: u64, tax_us: u64) -> DividendRecord {
    DividendRecord { transaction_date: date.to_string(), gross_us, tax_us }
}

#[test]
fn test_scan_full_sequence() {
    let ops = text_ops(&["03/01/21", "Dividend", "INTC", "86.16", "574.42"]);
    assert_eq!(scan(&ops, "statement"), Ok(record("03/01/21", 57442, 8616)));
}

#[test]
fn test_scan_missing_gross_is_incomplete() {
    let ops = text_ops(&["03/01/21", "Dividend", "INTC", "86.16"]);
    assert_eq!(
        scan(&ops, "statement-1"),
        Err(ParseError::Incomplete("statement-1".to_string()))
    );
}

#[test]
fn test_scan_empty_stream_is_incomplete() {
    let ops: Vec<ContentOp> = Vec::new();
    assert_eq!(
        scan(&ops, "empty"),
        Err(ParseError::Incomplete("empty".to_string()))
    );
}

#[test]
fn test_scan_malformed_tax() {
    let ops = text_ops(&["03/01/21", "Dividend", "INTC", "abc", "574.42"]);
    assert_eq!(scan(&ops, "statement"), Err(ParseError::MalformedAmount));
}

#[test]
fn test_scan_malformed_gross() {
    let ops = text_ops(&["03/01/21", "Dividend", "INTC", "86.16", "12.345"]);
    assert_eq!(scan(&ops, "statement"), Err(ParseError::MalformedAmount));
}

#[test]
fn test_scan_last_date_before_marker_wins() {
    let ops = text_ops(&["01/15/21", "03/01/21", "Dividend", "INTC", "1.00", "2.00"]);
    assert_eq!(scan(&ops, "statement"), Ok(record("03/01/21", 200, 100)));
}

#[test]
fn test_scan_date_defaults_when_no_string_precedes_marker() {
    let ops = text_ops(&["Dividend", "INTC", "1", "2"]);
    assert_eq!(scan(&ops, "statement"), Ok(record("N/A", 200, 100)));
}

#[test]
fn test_scan_waits_for_ticker() {
    let ops = text_ops(&["03/01/21", "Dividend", "MSFT", "INTC", "3.00", "4.00"]);
    assert_eq!(scan(&ops, "statement"), Ok(record("03/01/21", 400, 300)));
}

#[test]
fn test_scan_ignores_other_operators_and_empty_operands() {
    let ops = vec![
        ContentOp { operator: "BT".to_string(), text: Some("Dividend".to_string()) },
        ContentOp { operator: "TJ".to_string(), text: None },
        text_op("03/01/21"),
        text_op("Dividend"),
        text_op("INTC"),
        text_op("86.16"),
        text_op("574.42"),
    ];
    assert_eq!(scan(&ops, "statement"), Ok(record("03/01/21", 57442, 8616)));
}
