use cjuggler::cmd::{ArgError, CmdArgs, parse_u8};
use cjuggler::config::{Config, ConfigFile, ConfigFormat, get_default_config};
use cjuggler::processor::{
    ResolveError, effective_format, find_format, get_file_name, get_file_name_by_alias,
    process_line, process_lines, resolve_file, starts_with, trim,
};

fn args_with(file_name: Option<&str>, file_alias: Option<&str>) -> CmdArgs {
    CmdArgs::new(
        None,
        file_alias.map(String::from),
        file_name.map(String::from),
        None,
        None,
        None,
        None,
        false,
        None,
    )
    .unwrap()
}

fn file(alias: &str, path: &str) -> ConfigFile {
    ConfigFile { alias: String::from(alias), path: String::from(path) }
}

fn format_named(name: &str, files: Vec<ConfigFile>) -> ConfigFormat {
    ConfigFormat {
        name: String::from(name),
        sep: String::from("\t"),
        fields_no: 2,
        key_pos: 1,
        strip: false,
        comment: String::from("#"),
        files,
    }
}

fn catalog() -> Config {
    Config {
        formats: vec![
            format_named("first", vec![file("a", "/one/a"), file("b", "/one/b")]),
            format_named("second", vec![file("b", "/two/b"), file("c", "/two/c")]),
        ],
    }
}

#[test]
fn parse_u8_exact_values() {
    assert_eq!(parse_u8("0"), Some(0));
    assert_eq!(parse_u8("12"), Some(12));
    assert_eq!(parse_u8("255"), Some(255));
    assert_eq!(parse_u8("+7"), Some(7));
    assert_eq!(parse_u8("007"), Some(7));
}

#[test]
fn parse_u8_rejects_bad_text() {
    assert_eq!(parse_u8(""), None);
    assert_eq!(parse_u8("+"), None);
    assert_eq!(parse_u8("256"), None);
    assert_eq!(parse_u8("999999999999999999999"), None);
    assert_eq!(parse_u8("12a"), None);
    assert_eq!(parse_u8("-1"), None);
    assert_eq!(parse_u8(" 3"), None);
}

#[test]
fn new_applies_defaults_when_flags_absent() {
    let c = CmdArgs::new(None, None, None, None, None, None, None, false, None).unwrap();
    assert_eq!(c.format_name, "");
    assert_eq!(c.file_alias, "");
    assert_eq!(c.file_name, "");
    assert_eq!(c.separator, "\t");
    assert_eq!(c.field_no, 2);
    assert_eq!(c.key_pos, 1);
    assert_eq!(c.value_pos, 2);
    assert!(!c.strip);
    assert_eq!(c.comment, "#");
    assert!(!c.is_format_name_set());
    assert!(!c.is_file_alias_set());
    assert!(!c.is_file_name_set());
    assert!(!c.is_separator_set());
    assert!(!c.is_field_no_set());
    assert!(!c.is_key_pos_set());
    assert!(!c.is_value_pos_set());
    assert!(!c.is_strip_set());
    assert!(!c.is_comment_set());
}

#[test]
fn new_keeps_supplied_values_and_marks_them_set() {
    let c = CmdArgs::new(
        Some(String::from("fmt")),
        Some(String::from("al")),
        Some(String::from("/f")),
        Some(String::from(";")),
        Some(String::from("3")),
        Some(String::from("2")),
        Some(String::from("1")),
        true,
        Some(String::from("//")),
    )
    .unwrap();
    assert_eq!(c.format_name, "fmt");
    assert_eq!(c.file_alias, "al");
    assert_eq!(c.file_name, "/f");
    assert_eq!(c.separator, ";");
    assert_eq!(c.field_no, 3);
    assert_eq!(c.key_pos, 2);
    assert_eq!(c.value_pos, 1);
    assert!(c.strip);
    assert_eq!(c.comment, "//");
    assert!(c.is_format_name_set());
    assert!(c.is_file_alias_set());
    assert!(c.is_file_name_set());
    assert!(c.is_separator_set());
    assert!(c.is_field_no_set());
    assert!(c.is_key_pos_set());
    assert!(c.is_value_pos_set());
    assert!(c.is_strip_set());
    assert!(c.is_comment_set());
}

#[test]
fn new_reports_first_bad_integer_flag() {
    let bad = Some(String::from("x"));
    let ok = Some(String::from("1"));
    assert_eq!(
        CmdArgs::new(None, None, None, None, bad.clone(), bad.clone(), bad.clone(), false, None)
            .unwrap_err(),
        ArgError::BadFieldNo
    );
    assert_eq!(
        CmdArgs::new(None, None, None, None, ok.clone(), bad.clone(), bad.clone(), false, None)
            .unwrap_err(),
        ArgError::BadKeyPos
    );
    assert_eq!(
        CmdArgs::new(None, None, None, None, ok.clone(), ok.clone(), bad.clone(), false, None)
            .unwrap_err(),
        ArgError::BadValuePos
    );
}

#[test]
fn resolution_requires_file_or_alias() {
    let args = args_with(None, None);
    let r = resolve_file(&args, &catalog());
    assert_eq!(r.unwrap_err(), ResolveError::FileOrAliasRequired);
}

#[test]
fn explicit_file_wins_regardless_of_catalog() {
    let args = args_with(Some("/given/path"), None);
    assert_eq!(resolve_file(&args, &catalog()).unwrap(), "/given/path");
    let empty = Config { formats: Vec::new() };
    assert_eq!(resolve_file(&args, &empty).unwrap(), "/given/path");
    let both = args_with(Some("/given/path"), Some("a"));
    assert_eq!(resolve_file(&both, &catalog()).unwrap(), "/given/path");
}

#[test]
fn alias_lookup_returns_first_match_in_order() {
    let args = args_with(None, Some("c"));
    assert_eq!(resolve_file(&args, &catalog()).unwrap(), "/two/c");
    let dup = args_with(None, Some("b"));
    assert_eq!(resolve_file(&dup, &catalog()).unwrap(), "/one/b");
    assert_eq!(
        get_file_name_by_alias(&String::from("b"), &catalog()).unwrap(),
        "/one/b"
    );
    assert_eq!(get_file_name(&dup, &catalog()).unwrap(), "/one/b");
}

#[test]
fn alias_lookup_is_case_sensitive_and_exact() {
    let args = args_with(None, Some("A"));
    assert_eq!(resolve_file(&args, &catalog()).unwrap_err(), ResolveError::AliasNotFound);
    let miss = args_with(None, Some("nope"));
    assert_eq!(resolve_file(&miss, &catalog()).unwrap_err(), ResolveError::AliasNotFound);
    let empty = Config { formats: Vec::new() };
    let any = args_with(None, Some("a"));
    assert_eq!(resolve_file(&any, &empty).unwrap_err(), ResolveError::AliasNotFound);
}

#[test]
fn find_format_scans_in_declared_order() {
    let cfg = catalog();
    assert_eq!(find_format(&cfg, &String::from("first")), Some(0));
    assert_eq!(find_format(&cfg, &String::from("second")), Some(1));
    assert_eq!(find_format(&cfg, &String::from("third")), None);
}

#[test]
fn effective_format_prefers_explicit_cli_values() {
    let args = CmdArgs::new(
        Some(String::from("over")),
        None,
        None,
        Some(String::from(":")),
        Some(String::from("5")),
        None,
        None,
        true,
        None,
    )
    .unwrap();
    let base = format_named("base", vec![file("a", "/one/a")]);
    let eff = effective_format(&args, &base);
    assert_eq!(eff.name, "over");
    assert_eq!(eff.sep, ":");
    assert_eq!(eff.fields_no, 5);
    assert_eq!(eff.key_pos, 1);
    assert!(eff.strip);
    assert_eq!(eff.comment, "#");
    assert_eq!(eff.files.len(), 1);
    assert_eq!(eff.files[0].alias, "a");
    assert_eq!(eff.files[0].path, "/one/a");
}

#[test]
fn trim_removes_surrounding_whitespace() {
    assert_eq!(trim("  b:2  "), "b:2");
    assert_eq!(trim("\t a \r\n"), "a");
    assert_eq!(trim("ab"), "ab");
    assert_eq!(trim("   "), "");
    assert_eq!(trim(""), "");
}

#[test]
fn starts_with_is_exact() {
    assert!(starts_with("# x", "#"));
    assert!(!starts_with(" # x", "#"));
    assert!(starts_with("abc", ""));
    assert!(!starts_with("a", "ab"));
}

#[test]
fn process_line_strips_and_drops_comments() {
    let mut fmt = format_named("kv", Vec::new());
    fmt.strip = true;
    assert_eq!(process_line("  b:2  ", &fmt), Some(String::from("b:2")));
    assert_eq!(process_line("# comment", &fmt), None);
    assert_eq!(process_line("   # indented comment", &fmt), None);
    fmt.strip = false;
    assert_eq!(process_line("  b:2  ", &fmt), Some(String::from("  b:2  ")));
    assert_eq!(
        process_line("   # kept when not stripped", &fmt),
        Some(String::from("   # kept when not stripped"))
    );
}

#[test]
fn processing_emits_lines_in_order() {
    let mut fmt = format_named("kv", Vec::new());
    fmt.strip = true;
    let lines = vec![String::from("a:1"), String::from("# comment"), String::from("  b:2  ")];
    let out = process_lines(&lines, &fmt);
    assert_eq!(out, vec![String::from("a:1"), String::from("b:2")]);
}

#[test]
fn processing_keeps_line_boundaries_without_strip() {
    let fmt = format_named("kv", Vec::new());
    let lines = vec![String::from("x\ty"), String::from("#gone"), String::from(" kept")];
    let out = process_lines(&lines, &fmt);
    assert_eq!(out, vec![String::from("x\ty"), String::from(" kept")]);
}

#[test]
fn default_catalog_resolves_no_alias() {
    let cfg = get_default_config().unwrap();
    let args = args_with(None, Some("a"));
    assert_eq!(resolve_file(&args, &cfg).unwrap_err(), ResolveError::AliasNotFound);
}
