use im_switch::util::warning_collector::WarningCollector;

#[test]
fn a_new_collector_is_empty_and_prints_nothing() {
    let collector = WarningCollector::new();
    assert!(collector.is_empty());
    assert_eq!(collector.summary_lines().len(), 0);
}

#[test]
fn warnings_from_several_callers_are_all_present_in_insertion_order() {
    let mut collector = WarningCollector::new();
    collector.add_warning(String::from("first caller: switch did not stick"));
    collector.add_warning(String::from("second caller: switch did not stick"));
    collector.add_warning(String::from("first caller: another anomaly"));
    assert!(!collector.is_empty());
    let lines = collector.summary_lines();
    assert_eq!(
        lines,
        vec![
            String::from("=== Warnings Summary ==="),
            String::from("first caller: switch did not stick"),
            String::from("second caller: switch did not stick"),
            String::from("first caller: another anomaly"),
            String::from("========================"),
        ]
    );
}

#[test]
fn adding_a_warning_keeps_every_earlier_one() {
    let mut collector = WarningCollector::new();
    collector.add_warning(String::from("kept"));
    collector.add_warning(String::from("added later"));
    let lines = collector.summary_lines();
    assert!(lines.contains(&String::from("kept")));
    assert!(lines.contains(&String::from("added later")));
}
