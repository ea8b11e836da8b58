use gatling::report::{SimulationReport, Table};

fn pair(name: &str, value: &str) -> (String, String) {
    (name.to_string(), value.to_string())
}

#[test]
fn a_table_lists_each_name_once() {
    let mut table: Table<u64> = Table::new();
    assert!(table.get("a").is_none());
    table.insert("a".to_string(), 1);
    table.insert("b".to_string(), 2);
    table.insert("a".to_string(), 3);
    assert_eq!(table.get("a"), Some(&3));
    assert_eq!(table.get("b"), Some(&2));
    assert!(table.get("c").is_none());
    assert_eq!(table.entries(), &vec![("a".to_string(), 3), ("b".to_string(), 2)]);
}

#[test]
fn a_fresh_report_is_empty() {
    let report = SimulationReport::default();
    assert!(report.chain_id.is_none());
    assert!(report.block_number.is_none());
    assert!(report.reports.entries().is_empty());
}

#[test]
fn the_later_of_two_metrics_of_one_name_counts() {
    let mut report = SimulationReport::default();
    report.record("erc20", vec![pair("TPS", "1.5"), pair("TPB", "9"), pair("TPS", "2.5")]);
    let metrics = report.metrics_of("erc20").unwrap();
    assert_eq!(metrics.get("TPS").unwrap(), "2.5");
    assert_eq!(metrics.get("TPB").unwrap(), "9");
    assert_eq!(metrics.entries().len(), 2);
    assert!(report.metrics_of("erc721").is_none());
}

#[test]
fn a_second_report_on_a_token_replaces_the_first() {
    let mut report = SimulationReport::default();
    report.record("erc20", vec![pair("TPS", "1")]);
    report.record("erc20", vec![pair("TPB", "2")]);
    let metrics = report.metrics_of("erc20").unwrap();
    assert!(metrics.get("TPS").is_none());
    assert_eq!(metrics.get("TPB").unwrap(), "2");
    assert_eq!(report.reports.entries().len(), 1);
}
