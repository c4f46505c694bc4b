use devdash::app::App;
use devdash::app::LOG_CAPACITY;
use devdash::config::Config;
use devdash::storage::TimerData;
use devdash::ui::layout::add_log;

fn fresh() -> App {
    App::new(Config::default(), TimerData::default())
}

#[test]
fn log_capacity_is_ten() {
    assert_eq!(LOG_CAPACITY, 10);
}

#[test]
fn log_keeps_lines_in_order() {
    let mut app = fresh();
    app.add_log("one".to_string());
    app.add_log("two".to_string());
    app.add_log("three".to_string());
    assert_eq!(app.logs, vec!["one".to_string(), "two".to_string(), "three".to_string()]);
}

#[test]
fn log_of_ten_lines_is_full_and_whole() {
    let mut app = fresh();
    for i in 0..10 {
        app.add_log(format!("line {}", i));
    }
    assert_eq!(app.logs.len(), 10);
    assert_eq!(app.logs[0], "line 0");
    assert_eq!(app.logs[9], "line 9");
}

#[test]
fn eleventh_line_evicts_the_first() {
    let mut app = fresh();
    for i in 0..11 {
        app.add_log(format!("line {}", i));
    }
    assert_eq!(app.logs.len(), 10);
    assert!(!app.logs.contains(&"line 0".to_string()));
    let expected: Vec<String> = (1..11).map(|i| format!("line {}", i)).collect();
    assert_eq!(app.logs, expected);
}

#[test]
fn log_never_exceeds_its_capacity() {
    let mut app = fresh();
    for i in 0..137 {
        app.add_log(format!("line {}", i));
        assert!(app.logs.len() <= 10);
    }
    let expected: Vec<String> = (127..137).map(|i| format!("line {}", i)).collect();
    assert_eq!(app.logs, expected);
}

#[test]
fn add_log_changes_nothing_but_the_log() {
    let mut app = fresh();
    app.current_tab = 3;
    app.show_help = true;
    app.add_log("x".to_string());
    assert_eq!(app.current_tab, 3);
    assert!(app.show_help);
    assert!(!app.should_quit);
    assert_eq!(app.builds.len(), 0);
}

#[test]
fn free_add_log_adds_to_the_ring() {
    let mut app = fresh();
    for i in 0..12 {
        add_log(&mut app, format!("m{}", i));
    }
    assert_eq!(app.logs.len(), 10);
    assert_eq!(app.logs[0], "m2");
    assert_eq!(app.logs[9], "m11");
}

#[test]
fn an_overfull_log_loses_one_line_for_each_new_one() {
    let mut app = fresh();
    app.logs = (0..15).map(|i| format!("old {}", i)).collect();
    app.add_log("new".to_string());
    assert_eq!(app.logs.len(), 15);
    assert_eq!(app.logs[0], "old 1");
    assert_eq!(app.logs[14], "new");
}
