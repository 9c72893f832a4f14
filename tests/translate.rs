use xvc_py::options::{get_bool, get_string, names2, translate, update_cli_tuple, OptionRule};
use xvc_py::{update_cli_flag, update_cli_opt, update_targets, OptValue, Options, TranslateError};

fn strings(v: &[&str]) -> Vec<String> {
    v.iter().map(|s| s.to_string()).collect()
}

#[test]
fn options_replace_on_set() {
    let o = Options::new()
        .set("a".to_string(), OptValue::Bool(true))
        .set("a".to_string(), OptValue::Text("x".to_string()));
    assert_eq!(o.get(&"a".to_string()), Some(&OptValue::Text("x".to_string())));
    assert_eq!(o.get(&"b".to_string()), None);
}

#[test]
fn get_bool_and_string() {
    let o = Options::new()
        .set("no_commit".to_string(), OptValue::Bool(true))
        .set("name".to_string(), OptValue::Text("n".to_string()));
    assert_eq!(get_bool(&o, &strings(&["no-commit", "no_commit"])), Ok(Some(true)));
    assert_eq!(get_bool(&o, &strings(&["force"])), Ok(None));
    assert_eq!(get_string(&o, &strings(&["name"])), Ok(Some("n".to_string())));
    assert_eq!(
        get_string(&o, &strings(&["no_commit"])),
        Err(TranslateError::TypeMismatch { option: "no_commit".to_string() })
    );
}

#[test]
fn update_functions_append() {
    let o = Options::new()
        .set("f".to_string(), OptValue::Bool(true))
        .set("v".to_string(), OptValue::Text("1".to_string()))
        .set("w".to_string(), OptValue::Text("2".to_string()));
    let mut cli = strings(&["xvc"]);
    update_cli_flag(&o, &mut cli, &strings(&["f"]), &"--f".to_string()).unwrap();
    update_cli_opt(&o, &mut cli, &strings(&["v"]), &"--v".to_string()).unwrap();
    update_cli_tuple(&o, &mut cli, &"v".to_string(), &"w".to_string(), &"--vw".to_string()).unwrap();
    update_targets(&strings(&["t1", "t2"]), &mut cli);
    assert_eq!(cli, strings(&["xvc", "--f", "--v", "1", "--vw", "1", "2", "t1", "t2"]));
}

#[test]
fn failed_update_leaves_line_unchanged() {
    let o = Options::new().set("f".to_string(), OptValue::Text("x".to_string()));
    let mut cli = strings(&["xvc"]);
    let r = update_cli_flag(&o, &mut cli, &strings(&["f"]), &"--f".to_string());
    assert!(r.is_err());
    assert_eq!(cli, strings(&["xvc"]));
}

#[test]
fn translate_follows_table_order() {
    let rules = vec![
        OptionRule::value(names2("b", "bee"), "--b"),
        OptionRule::switch(names2("a", "ay"), "--a"),
    ];
    let o = Options::new()
        .set("ay".to_string(), OptValue::Bool(true))
        .set("bee".to_string(), OptValue::Text("v".to_string()));
    let mut cli = Vec::new();
    translate(&o, &rules, &mut cli).unwrap();
    assert_eq!(cli, strings(&["--b", "v", "--a"]));
}
