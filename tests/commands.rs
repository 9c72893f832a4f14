use xvc_py::{OptValue, Options, TranslateError, Xvc, XvcFile, XvcPipeline, XvcStorage};

fn session() -> Xvc {
    Xvc::new(None, None, None, None, None, None, None, None, None, None)
}

fn strings(v: &[&str]) -> Vec<String> {
    v.iter().map(|s| s.to_string()).collect()
}

fn text(o: Options, k: &str, v: &str) -> Options {
    o.set(k.to_string(), OptValue::Text(v.to_string()))
}

fn flag(o: Options, k: &str, v: bool) -> Options {
    o.set(k.to_string(), OptValue::Bool(v))
}

#[test]
fn track_with_recheck_method_and_force() {
    let f = XvcFile::new(&session());
    let opts = flag(text(Options::new(), "recheck_method", "copy"), "force", true);
    let r = f.track(&strings(&["a.txt", "b.txt"]), &opts).unwrap();
    assert_eq!(
        r,
        strings(&["xvc", "file", "track", "--recheck-method", "copy", "--force", "a.txt", "b.txt"])
    );
}

#[test]
fn storage_new_local() {
    let s = XvcStorage::init(&session());
    let opts = text(text(Options::new(), "name", "backup"), "path", "/tmp/x");
    let r = s.new_local(&opts).unwrap();
    assert_eq!(r, strings(&["xvc", "storage", "new", "local", "--name", "backup", "--path", "/tmp/x"]));
}

#[test]
fn false_switch_equals_absent_switch() {
    let f = XvcFile::new(&session());
    let t = strings(&["x"]);
    let with_false = f.track(&t, &flag(Options::new(), "force", false)).unwrap();
    let absent = f.track(&t, &Options::new()).unwrap();
    assert_eq!(with_false, absent);
    let with_false = f.remove(&t, &flag(Options::new(), "from_cache", false)).unwrap();
    assert_eq!(with_false, f.remove(&t, &Options::new()).unwrap());
}

#[test]
fn later_alias_resolves_to_same_flag() {
    let f = XvcFile::new(&session());
    let t = strings(&["d"]);
    let first = f.bring(&t, &text(Options::new(), "remote", "s3")).unwrap();
    let second = f.bring(&t, &text(Options::new(), "frm", "s3")).unwrap();
    let third = f.bring(&t, &text(Options::new(), "storage", "s3")).unwrap();
    assert_eq!(first, second);
    assert_eq!(first, third);
    assert_eq!(first, strings(&["xvc", "file", "bring", "--storage", "s3", "d"]));
}

#[test]
fn first_listed_alias_wins() {
    let f = XvcFile::new(&session());
    let opts = text(text(Options::new(), "storage", "b"), "remote", "a");
    let r = f.send(&[], &opts).unwrap();
    assert_eq!(r, strings(&["xvc", "file", "send", "--storage", "a"]));
}

#[test]
fn token_order_follows_table_not_insertion() {
    let f = XvcFile::new(&session());
    let a = flag(text(flag(Options::new(), "no_parallel", true), "text_or_binary", "text"), "force", true);
    let b = text(flag(flag(Options::new(), "force", true), "no_parallel", true), "text_or_binary", "text");
    let ra = f.carry_in(&[], &a).unwrap();
    let rb = f.carry_in(&[], &b).unwrap();
    assert_eq!(ra, rb);
    assert_eq!(
        ra,
        strings(&["xvc", "file", "carry-in", "--text-or-binary", "text", "--force", "--no-parallel"])
    );
}

#[test]
fn targets_follow_flags_in_order() {
    let f = XvcFile::new(&session());
    let r = f.hash(&strings(&["z", "a", "m"]), &text(Options::new(), "algorithm", "blake3")).unwrap();
    assert_eq!(r, strings(&["xvc", "file", "hash", "--algorithm", "blake3", "z", "a", "m"]));
}

#[test]
fn copy_and_move_put_source_before_destination() {
    let f = XvcFile::new(&session());
    let opts = flag(Options::new(), "no-recheck", true);
    let c = f.copy("src".to_string(), "dst".to_string(), &opts).unwrap();
    assert_eq!(c, strings(&["xvc", "file", "copy", "--no-recheck", "src", "dst"]));
    let m = f.mv("src".to_string(), "dst".to_string(), &Options::new()).unwrap();
    assert_eq!(m, strings(&["xvc", "file", "move", "src", "dst"]));
}

#[test]
fn no_options_no_targets_is_the_prefix() {
    let x = session();
    assert_eq!(XvcFile::new(&x).list(&[], &Options::new()).unwrap(), strings(&["xvc", "file", "list"]));
    assert_eq!(XvcStorage::init(&x).list(&Options::new()).unwrap(), strings(&["xvc", "storage", "list"]));
    assert_eq!(
        XvcPipeline::init(&x, None).step().list(&Options::new()).unwrap(),
        strings(&["xvc", "pipeline", "step", "list"])
    );
}

#[test]
fn unknown_keys_are_ignored() {
    let f = XvcFile::new(&session());
    let r = f.untrack(&[], &text(Options::new(), "colour", "blue")).unwrap();
    assert_eq!(r, strings(&["xvc", "file", "untrack"]));
}

#[test]
fn string_for_switch_is_a_type_mismatch() {
    let f = XvcFile::new(&session());
    let r = f.track(&strings(&["a"]), &text(Options::new(), "no_commit", "yes"));
    assert_eq!(r, Err(TranslateError::TypeMismatch { option: "no_commit".to_string() }));
}

#[test]
fn bool_for_string_option_is_a_type_mismatch() {
    let s = XvcStorage::init(&session());
    let r = s.new_s3(&flag(Options::new(), "bucket-name", true));
    assert_eq!(r, Err(TranslateError::TypeMismatch { option: "bucket-name".to_string() }));
}

#[test]
fn first_failing_rule_decides_the_error() {
    let f = XvcFile::new(&session());
    let opts = text(flag(Options::new(), "only_version", true), "force", "x");
    let r = f.remove(&[], &opts);
    assert_eq!(r, Err(TranslateError::TypeMismatch { option: "force".to_string() }));
}

#[test]
fn global_options_prefix() {
    let x = Xvc::new(
        Some(3),
        Some(true),
        Some(true),
        Some("/w".to_string()),
        Some(true),
        Some(false),
        Some(true),
        Some(true),
        Some("main".to_string()),
        Some("out".to_string()),
    );
    assert_eq!(
        x.cli(),
        strings(&[
            "xvc", "-vvv", "--quiet", "--debug", "-C", "/w", "--no-system-config", "--no-env-config",
            "--skip-git", "--from-ref", "main", "--to-branch", "out",
        ])
    );
    assert_eq!(x.current_dir, "/w");
    assert_eq!(session().current_dir, ".");
}

#[test]
fn verbosity_zero_gives_a_bare_dash() {
    let x = Xvc::new(Some(0), None, None, None, None, None, None, None, None, None);
    assert_eq!(x.cli(), strings(&["xvc", "-"]));
}

#[test]
fn session_commands() {
    let x = session();
    assert_eq!(x.help(), strings(&["xvc", "help"]));
    assert_eq!(
        x.init(&flag(flag(Options::new(), "no-git", true), "force", true)).unwrap(),
        strings(&["xvc", "init", "--no-git", "--force"])
    );
    assert_eq!(x.init(&flag(Options::new(), "no_git", true)).unwrap(), strings(&["xvc", "init"]));
    assert_eq!(
        x.root(&flag(Options::new(), "absolute", true)).unwrap(),
        strings(&["xvc", "root", "--absolute"])
    );
    assert_eq!(
        x.check_ignore(&strings(&["p"]), &flag(Options::new(), "details", true)).unwrap(),
        strings(&["xvc", "check-ignore", "--details", "p"])
    );
}

#[test]
fn storage_remove_and_generic() {
    let s = XvcStorage::init(&session());
    assert_eq!(
        s.remove("old", &flag(Options::new(), "help", true)).unwrap(),
        strings(&["xvc", "storage", "remove", "--help", "old"])
    );
    let opts = text(text(text(Options::new(), "max_processes", "4"), "init-command", "mkdir"), "url", "u");
    assert_eq!(
        s.new_generic(&opts).unwrap(),
        strings(&["xvc", "storage", "new", "generic", "--init", "mkdir", "--processes", "4", "--url", "u"])
    );
    assert_eq!(
        s.new_digital_ocean(&text(Options::new(), "region", "fra1")).unwrap(),
        strings(&["xvc", "storage", "new", "digital-ocean", "--region", "fra1"])
    );
}

#[test]
fn pipeline_name_goes_before_subcommand() {
    let p = XvcPipeline::init(&session(), Some("train".to_string()));
    assert_eq!(
        p.run(&Options::new()).unwrap(),
        strings(&["xvc", "pipeline", "--pipeline-name", "train", "run"])
    );
    assert_eq!(
        p.import_pipeline(&flag(text(Options::new(), "file", "p.yaml"), "overwrite", true)).unwrap(),
        strings(&["xvc", "pipeline", "--pipeline-name", "train", "import", "--file", "p.yaml", "--overwrite"])
    );
}

#[test]
fn step_dependency_pair_option() {
    let st = XvcPipeline::init(&session(), None).step();
    let both = text(text(text(Options::new(), "step_name", "s"), "sqlite_query", "select 1"), "sqlite_file", "db");
    assert_eq!(
        st.dependency(&both).unwrap(),
        strings(&["xvc", "pipeline", "step", "dependency", "--step-name", "s", "--sqlite-query", "db", "select 1"])
    );
    let one = text(Options::new(), "sqlite_file", "db");
    assert_eq!(st.dependency(&one).unwrap(), strings(&["xvc", "pipeline", "step", "dependency"]));
    let bad = flag(Options::new(), "sqlite_query", true);
    assert_eq!(
        st.dependency(&bad),
        Err(TranslateError::TypeMismatch { option: "sqlite_query".to_string() })
    );
}

#[test]
fn step_show_and_output() {
    let st = XvcPipeline::init(&session(), None).step();
    assert_eq!(
        st.show(&flag(text(Options::new(), "name", "s"), "help", true)).unwrap(),
        strings(&["xvc", "pipeline", "step", "show", "--help", "--step-name", "s"])
    );
    assert_eq!(
        st.output(&text(text(Options::new(), "metric", "m.json"), "image", "i.png")).unwrap(),
        strings(&["xvc", "pipeline", "step", "output", "--output-metric", "m.json", "--output-images", "i.png"])
    );
}
