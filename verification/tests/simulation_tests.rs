use backtester::simulation_builder::{all_ready, trader_names};
use backtester::trader::lagged_message;

#[test]
fn traders_are_numbered() {
    assert_eq!(trader_names(2), vec!["0", "1"]);
    assert_eq!(trader_names(5), vec!["0", "1", "2", "3", "4"]);
    let names = trader_names(12);
    assert_eq!(names.len(), 12);
    assert_eq!(names[10], "10");
    assert_eq!(names[11], "11");
}

#[test]
fn trader_names_are_distinct() {
    let names = trader_names(120);
    for i in 0..names.len() {
        for j in (i + 1)..names.len() {
            assert_ne!(names[i], names[j]);
        }
    }
}

#[test]
fn runs_only_when_everything_is_ready() {
    assert!(all_ready(true, &vec![true, true, true]));
    assert!(!all_ready(false, &vec![true, true]));
    assert!(!all_ready(true, &vec![true, false, true]));
    assert!(all_ready(true, &Vec::new()));
}

#[test]
fn lag_report() {
    assert_eq!(lagged_message("3", 17), "3: lagged behind 17");
}
