use devdash::json::Json;
use devdash::json::JsonError;
use devdash::modules::coverage::CoverageInfo;
use devdash::modules::coverage::CoverageModule;
use devdash::modules::coverage::FILES_KEPT;

fn segments(text: &str) -> Vec<Json> {
    match Json::parse(text) {
        Ok(Json::List(items)) => items,
        other => panic!("no list: {:?}", other),
    }
}

#[test]
fn coverage_placeholder() {
    let info = CoverageInfo::default();
    assert_eq!(info.covered_segments, 0);
    assert_eq!(info.total_segments, 0);
    assert_eq!(info.files.len(), 0);
}

#[test]
fn segments_count_where_the_first_entry_is_a_number() {
    let list = segments(r#"[[1, 3], [2, 0], [3], [null, 9], [], [0, 1], ["1", 1], [4, "7"], [5, 2.5]]"#);
    assert_eq!(CoverageModule::count_segments(&list), (6, 2));
    assert_eq!(CoverageModule::count_segments(&Vec::new()), (0, 0));
}

#[test]
fn segments_that_are_no_lists_do_not_count() {
    let list = segments(r#"[7, "x", null, {"0": 1, "1": 1}, true, [1, 1]]"#);
    assert_eq!(CoverageModule::count_segments(&list), (1, 1));
}

#[test]
fn negative_and_fractional_numbers_are_no_line_numbers() {
    let list = segments(r#"[[-1, 1], [1.5, 1], [1, -1], [1, 0.5], [18446744073709551615, 18446744073709551615]]"#);
    assert_eq!(CoverageModule::count_segments(&list), (3, 1));
}

#[test]
fn summary_counts_over_all_files_of_all_entries() {
    let text = r#"{
        "data": [
            {"files": [
                {"name": "a.rs", "segments": [[1, 1], [2, 0]]},
                {"name": "b.rs", "segments": [[1, 5]]}
            ]},
            {"totals": {}},
            {"files": [
                {"segments": null},
                {"name": "c.rs", "segments": [[7], [null, 2]]}
            ]}
        ],
        "type": "llvm.coverage.json.export"
    }"#;
    let info = CoverageModule::parse_llvm_cov(text).expect("the text is JSON");
    assert_eq!(info.total_segments, 4);
    assert_eq!(info.covered_segments, 2);
    let names: Vec<&str> = info.files.iter().map(|f| f.name.as_str()).collect();
    assert_eq!(names, vec!["a.rs", "b.rs", "unknown", "c.rs"]);
}

#[test]
fn summary_of_an_export_without_data() {
    for text in ["{}", "null", "[]", "7", r#"{"data": {}}"#, r#"{"data": []}"#, r#""data""#] {
        let info = CoverageModule::parse_llvm_cov(text).expect("the text is JSON");
        assert_eq!(info.total_segments, 0);
        assert_eq!(info.covered_segments, 0);
        assert_eq!(info.files.len(), 0);
    }
}

#[test]
fn a_text_that_is_no_json_is_refused() {
    for text in ["", "{", "{\"data\": [}", "not json", "{} {}"] {
        assert_eq!(CoverageModule::parse_llvm_cov(text).err(), Some(JsonError::Malformed));
    }
}

#[test]
fn summary_keeps_the_first_ten_files() {
    assert_eq!(FILES_KEPT, 10);
    let files: Vec<String> =
        (0..13).map(|i| format!(r#"{{"name": "f{}.rs", "segments": [[{}, {}]]}}"#, i, i, i)).collect();
    let text = format!(r#"{{"data": [{{"files": [{}]}}]}}"#, files.join(","));
    let info = CoverageModule::parse_llvm_cov(&text).expect("the text is JSON");
    assert_eq!(info.total_segments, 13);
    assert_eq!(info.covered_segments, 12);
    assert_eq!(info.files.len(), 10);
    assert_eq!(info.files[0].name, "f0.rs");
    assert_eq!(info.files[9].name, "f9.rs");
}

#[test]
fn summary_keeps_ten_files_across_entries() {
    let first: Vec<String> = (0..6).map(|i| format!(r#"{{"name": "a{}"}}"#, i)).collect();
    let second: Vec<String> = (0..6).map(|i| format!(r#"{{"name": "b{}"}}"#, i)).collect();
    let text =
        format!(r#"{{"data": [{{"files": [{}]}}, {{"files": [{}]}}]}}"#, first.join(","), second.join(","));
    let info = CoverageModule::parse_llvm_cov(&text).expect("the text is JSON");
    let names: Vec<&str> = info.files.iter().map(|f| f.name.as_str()).collect();
    assert_eq!(names, vec!["a0", "a1", "a2", "a3", "a4", "a5", "b0", "b1", "b2", "b3"]);
}

#[test]
fn summarize_takes_a_parsed_export() {
    let export = Json::parse(r#"{"data": [{"files": [{"name": "x.rs", "segments": [[3, 1], [4, 1], [5, 0]]}]}]}"#)
        .expect("the text is JSON");
    let info = CoverageModule::summarize(&export);
    assert_eq!(info.total_segments, 3);
    assert_eq!(info.covered_segments, 2);
    assert_eq!(info.files.len(), 1);
    assert_eq!(info.files[0].name, "x.rs");
}

#[test]
fn shown_name_of_a_file() {
    let named = Json::parse(r#"{"name": "src/lib.rs"}"#).expect("the text is JSON");
    assert_eq!(CoverageModule::shown_name(&named), "src/lib.rs");
    let unnamed = Json::parse(r#"{"name": 7}"#).expect("the text is JSON");
    assert_eq!(CoverageModule::shown_name(&unnamed), "unknown");
    assert_eq!(CoverageModule::shown_name(&Json::Null), "unknown");
}

#[test]
fn a_failed_run_covers_nothing() {
    let info = CoverageModule::from_run(false, r#"{"data": [{"files": [{"name": "a.rs", "segments": [[1, 1]]}]}]}"#)
        .expect("a failed run is no error");
    assert_eq!(info.total_segments, 0);
    assert_eq!(info.files.len(), 0);
    assert!(CoverageModule::from_run(false, "no json at all").is_ok());
}

#[test]
fn a_run_without_a_readable_export_is_an_error() {
    assert_eq!(CoverageModule::from_run(true, "").err(), Some(JsonError::Malformed));
    assert_eq!(CoverageModule::from_run(true, "warning: nothing ran").err(), Some(JsonError::Malformed));
}

#[test]
fn a_good_run_is_summarized() {
    let info = CoverageModule::from_run(true, r#"{"data": [{"files": [{"name": "a.rs", "segments": [[1, 1]]}]}]}"#)
        .expect("the export was read");
    assert_eq!(info.total_segments, 1);
    assert_eq!(info.covered_segments, 1);
    assert_eq!(info.files[0].name, "a.rs");
}
