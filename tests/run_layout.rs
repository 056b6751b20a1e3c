use sparrow::command::CommandLine;
use sparrow::path::{contains_parent_component, ensure_trailing_slash, ensure_trimmed_trailing_slash, is_relative, join};
use sparrow::run_id::{parse_run_listing, parse_session_listing, RunID};
use sparrow::text::{decimal, lines, replace_all, split, trim};

#[test]
fn run_id_path_joins_base_group_and_name() {
    let id = RunID::new("my_experiment", "baseline");
    assert_eq!(id.path("/data/runs"), "/data/runs/baseline/my_experiment");
    assert_eq!(id.path("/data/runs/"), "/data/runs/baseline/my_experiment");
    assert_eq!(id.display(), "baseline/my_experiment");
}

#[test]
fn run_id_new_keeps_name_and_group() {
    let id = RunID::new("n", "g");
    assert_eq!(id.name, "n");
    assert_eq!(id.group, "g");
}

#[test]
fn join_follows_unix_path_rules() {
    assert_eq!(join("a", "b"), "a/b");
    assert_eq!(join("a/", "b"), "a/b");
    assert_eq!(join("", "b"), "b");
    assert_eq!(join("a", "/etc"), "/etc");
    assert_eq!(join("a", ""), "a/");
    assert!(is_relative("conf"));
    assert!(!is_relative("/conf"));
}

#[test]
fn trailing_slashes_are_added_or_trimmed() {
    assert_eq!(ensure_trailing_slash("/src/dir"), "/src/dir/");
    assert_eq!(ensure_trimmed_trailing_slash("/src/dir///"), "/src/dir");
    assert_eq!(ensure_trimmed_trailing_slash("/src/dir"), "/src/dir");
}

#[test]
fn parent_components_are_found() {
    assert!(contains_parent_component(".."));
    assert!(contains_parent_component("a/../b"));
    assert!(contains_parent_component("a/.."));
    assert!(!contains_parent_component("a/..b/c"));
    assert!(!contains_parent_component("a.../b"));
    assert!(!contains_parent_component("code"));
}

#[test]
fn run_listing_reads_last_two_fields() {
    let runs = parse_run_listing("/out/g1/r1\n/out/g1/r2\n/out/g2/r3\n");
    let shown: Vec<String> = runs.iter().map(|r| r.display()).collect();
    assert_eq!(shown, vec!["g1/r1", "g1/r2", "g2/r3"]);
    assert!(parse_run_listing("").is_empty());
}

#[test]
fn session_listing_reads_group_and_name() {
    let out = "base/exp1: 1 windows (created Mon)\nscratch: 1 windows\nbase/exp2: 2 windows\n";
    let runs = parse_session_listing(out);
    assert_eq!(runs.len(), 2);
    assert_eq!(runs[0].group, "base");
    assert_eq!(runs[0].name, "exp1");
    assert_eq!(runs[1].name, "exp2");
}

#[test]
fn text_helpers_give_exact_values() {
    assert_eq!(decimal(0), "0");
    assert_eq!(decimal(10000), "10000");
    assert_eq!(trim("  R\n"), "R");
    assert_eq!(trim("\n"), "");
    assert_eq!(lines("a\nb\n"), vec!["a", "b"]);
    assert_eq!(lines("a\n\nb"), vec!["a", "", "b"]);
    assert_eq!(lines("a\r\nb\r"), vec!["a", "b\r"]);
    assert_eq!(trim("R\u{b}"), "R");
    assert_eq!(trim("\u{3000}R\u{85}"), "R");
    assert_eq!(split("a/b//c", '/'), vec!["a", "b", "", "c"]);
    assert_eq!(replace_all("bash {} && {}", "{}", "x"), "bash x && x");
}

#[test]
fn command_line_is_shown_quoted() {
    let mut c = CommandLine::new("find");
    c.arg("/out");
    c.args(&vec!["-type".to_string(), "d".to_string()]);
    assert_eq!(c.display(), "\"find\" \"/out\" \"-type\" \"d\"");
}

#[test]
fn sessions_with_empty_fields_are_kept() {
    let runs = parse_session_listing("g/: 1 windows\n/n: 1 windows\na/b/c: 1 windows\n");
    assert_eq!(runs.len(), 2);
    assert_eq!(runs[0].group, "g");
    assert_eq!(runs[0].name, "");
    assert_eq!(runs[1].group, "");
    assert_eq!(runs[1].name, "n");
}
