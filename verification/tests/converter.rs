use rs_jsonl2x::cells::{make_plan, Cell, SheetPlan};
use rs_jsonl2x::error::RunError;
use rs_jsonl2x::json::{Field, Record};
use rs_jsonl2x::schema::infer_headers;
use rs_jsonl2x::{ingest, row_limit_ok, run};

fn lines(v: &[&str]) -> Vec<String> {
    v.iter().map(|s| s.to_string()).collect()
}

fn plan_of(v: &[&str], limit: u32) -> SheetPlan {
    let recs = ingest(&lines(v), limit).expect("ingest failed");
    make_plan(&recs)
}

fn text(s: &str) -> Option<Cell> {
    Some(Cell::Text(s.to_string()))
}

/// Runs the pipeline, panicking on error; true when a workbook came back.
fn run_some(v: &Vec<String>, sheet: &str, limit: u32) -> bool {
    match run(v, sheet, limit) {
        Ok(Some(_)) => true,
        Ok(None) => false,
        Err(e) => panic!("run failed: {:?}", e),
    }
}

/// Runs the pipeline, panicking unless it fails; hands back the error.
fn run_err(v: &Vec<String>, sheet: &str, limit: u32) -> RunError {
    match run(v, sheet, limit) {
        Err(e) => e,
        Ok(_) => panic!("run unexpectedly succeeded"),
    }
}

#[test]
fn shape_three_records() {
    let input = [r#"{"a":1,"b":"x"}"#, r#"{"a":2,"b":"y"}"#, r#"{"a":3,"b":"z"}"#];
    let plan = plan_of(&input, 65536);
    assert_eq!(plan.headers, vec!["a".to_string(), "b".to_string()]);
    assert_eq!(plan.rows.len(), 3);
    for row in &plan.rows {
        assert_eq!(row.len(), 2);
        assert!(row[0].is_some());
        assert!(row[1].is_some());
    }
    assert!(run_some(&lines(&input), "Sheet1", 65536));
}

#[test]
fn idempotent_runs_agree() {
    let input = [r#"{"a":1,"b":[true,null]}"#, r#"{"b":"t","a":2.25}"#];
    let first = plan_of(&input, 65536);
    let second = plan_of(&input, 65536);
    assert_eq!(first, second);
}

#[test]
fn truncation_ignores_lines_past_limit() {
    let input = [r#"{"a":1}"#, r#"{"a":2}"#, r#"{"a":}"#, r#"{"a":4}"#];
    let recs = ingest(&lines(&input), 2).expect("lines past the limit must not be parsed");
    assert_eq!(recs.len(), 2);
    let plan = plan_of(&input[..2], 2);
    let plan_long = {
        let recs = ingest(&lines(&input), 2).unwrap();
        make_plan(&recs)
    };
    assert_eq!(plan, plan_long);
}

#[test]
fn missing_key_leaves_cell_unwritten() {
    let input = [r#"{"a":1,"b":2}"#, r#"{"a":3}"#];
    let plan = plan_of(&input, 65536);
    assert_eq!(plan.headers, vec!["a".to_string(), "b".to_string()]);
    assert!(plan.rows[1][0].is_some());
    assert!(plan.rows[1][1].is_none());
    assert!(run_some(&lines(&input), "Sheet1", 65536));
}

#[test]
fn schema_comes_from_first_row_only() {
    let input = [r#"{"a":1,"b":2}"#, r#"{"a":1,"b":2,"c":3}"#];
    let plan = plan_of(&input, 65536);
    assert_eq!(plan.headers, vec!["a".to_string(), "b".to_string()]);
    assert_eq!(plan.rows[1].len(), 2);
}

#[test]
fn empty_input_is_a_successful_no_op() {
    let recs = ingest(&lines(&[]), 65536).expect("empty input is not an error");
    assert_eq!(recs.len(), 0);
    assert!(!run_some(&lines(&[]), "Sheet1", 65536));
}

#[test]
fn type_mapping_per_kind() {
    let input = [r#"{"s":"x","n":3.5,"i":7,"b":true,"z":null,"arr":[1,2]}"#];
    let plan = plan_of(&input, 65536);
    // serde_json iterates object keys in sorted order.
    let want: Vec<String> =
        ["arr", "b", "i", "n", "s", "z"].iter().map(|s| s.to_string()).collect();
    assert_eq!(plan.headers, want);
    let row = &plan.rows[0];
    assert_eq!(row[0], text("[1,2]"));
    assert_eq!(row[1], Some(Cell::Bool(true)));
    assert_eq!(row[2].as_ref().unwrap().float_bits(), Some(7.0f64.to_bits()));
    assert_eq!(row[3].as_ref().unwrap().float_bits(), Some(3.5f64.to_bits()));
    assert_eq!(row[4], text("x"));
    assert_eq!(row[5], text(""));
}

#[test]
fn nested_object_becomes_canonical_text() {
    let input = [r#"{"o":{"x":1,"y":[null,false]}}"#];
    let plan = plan_of(&input, 65536);
    assert_eq!(plan.rows[0][0], text(r#"{"x":1,"y":[null,false]}"#));
}

#[test]
fn negative_exponent_number() {
    let input = [r#"{"m":-2.5e3}"#];
    let plan = plan_of(&input, 65536);
    assert_eq!(plan.rows[0][0].as_ref().unwrap().float_bits(), Some((-2500.0f64).to_bits()));
}

#[test]
fn malformed_line_aborts_at_any_position() {
    for input in [
        [r#"{"a":}"#, r#"{"a":1}"#, r#"{"a":2}"#],
        [r#"{"a":1}"#, r#"{"a":}"#, r#"{"a":2}"#],
        [r#"{"a":1}"#, r#"{"a":2}"#, r#"{"a":}"#],
    ] {
        let err = ingest(&lines(&input), 65536).expect_err("malformed input must fail");
        assert!(matches!(err, RunError::Json(_)));
        let err = run_err(&lines(&input), "Sheet1", 65536);
        assert!(matches!(err, RunError::Json(_)));
    }
}

#[test]
fn row_limit_boundary() {
    assert!(row_limit_ok(65536));
    assert!(!row_limit_ok(65537));
    // Rejected before any input is read: even a malformed line changes nothing.
    let err = run_err(&lines(&[r#"{"a":}"#]), "Sheet1", 65537);
    assert!(matches!(err, RunError::Config));
    assert!(run_some(&lines(&[r#"{"a":1}"#]), "Sheet1", 65536));
}

#[test]
fn duplicate_keys_collapse_first_wins() {
    let rec = Record::Obj(vec![
        ("k".to_string(), Field::Null),
        ("k".to_string(), Field::Bool(true)),
        ("m".to_string(), Field::Bool(false)),
    ]);
    let headers = infer_headers(&rec);
    assert_eq!(headers, vec!["k".to_string(), "m".to_string()]);
    let row = rs_jsonl2x::cells::record_row(&rec, &headers);
    assert_eq!(row[0], text(""));
    assert_eq!(row[1], Some(Cell::Bool(false)));
}

#[test]
fn non_object_first_record_means_no_columns() {
    let input = [r#"42"#, r#"{"a":1}"#];
    let plan = plan_of(&input, 65536);
    assert_eq!(plan.headers.len(), 0);
    assert_eq!(plan.rows.len(), 2);
    assert_eq!(plan.rows[0].len(), 0);
    assert!(run_some(&lines(&input), "Sheet1", 65536));
}

#[test]
fn non_object_later_record_gets_an_empty_row() {
    let input = [r#"{"a":1}"#, r#"[1,2,3]"#];
    let plan = plan_of(&input, 65536);
    assert_eq!(plan.rows.len(), 2);
    assert!(plan.rows[1][0].is_none());
}

#[test]
fn sheet_name_rules() {
    let input = [r#"{"a":1}"#];
    for bad in ["", "bad[name", "bad]name", "a*b", "a?b", "a:b", "a/b", "a\\b", "'quoted",
        "quoted'", "abcdefghijklmnopqrstuvwxyzabcdef"] {
        let err = run_err(&lines(&input), bad, 65536);
        assert!(matches!(err, RunError::Xlsx(_)));
    }
    // 31 characters is the longest acceptable name.
    let ok_name = "abcdefghijklmnopqrstuvwxyzabcde";
    assert_eq!(ok_name.len(), 31);
    assert!(run_some(&lines(&input), ok_name, 65536));
}

#[test]
fn over_long_cell_string_fails_the_run() {
    let long = "x".repeat(40000);
    let line = format!(r#"{{"a":"{}"}}"#, long);
    let err = run_err(&lines(&[&line]), "Sheet1", 65536);
    assert!(matches!(err, RunError::Xlsx(_)));
    // 32767 characters still fit.
    let fit = "x".repeat(32767);
    let line = format!(r#"{{"a":"{}"}}"#, fit);
    assert!(run_some(&lines(&[&line]), "Sheet1", 65536));
}

#[test]
fn empty_header_key_writes_nothing_but_keeps_the_column() {
    let input = [r#"{"":"v","a":1}"#];
    let plan = plan_of(&input, 65536);
    assert_eq!(plan.headers, vec!["".to_string(), "a".to_string()]);
    assert_eq!(plan.rows[0][0], text("v"));
    assert!(run_some(&lines(&input), "Sheet1", 65536));
}
