use xvc_py::dispatch::Action;
use xvc_py::output::{log_level, render_line, LineKind, LogLevel, OutputLine};
use xvc_py::{split_command, CommandHeader, CommandKind, Dispatch, Event};

fn header(kind: CommandKind) -> CommandHeader {
    CommandHeader { quiet: false, verbosity: 0, has_from_ref: false, skip_git: false, kind }
}

fn missing() -> String {
    "needs a project".to_string()
}

fn line(kind: LineKind, text: &str) -> OutputLine {
    OutputLine { kind, text: text.to_string() }
}

#[test]
fn missing_project_reports_error_and_keeps_root_absent() {
    let mut d: Dispatch<u32> = Dispatch::start(header(CommandKind::File), None, missing());
    assert_eq!(d.next(Event::Succeeded), Action::Finish);
    let (out, root) = d.finish();
    assert!(out.output.contains("[ERROR]"));
    assert_eq!(out.output, "[ERROR] needs a project");
    assert!(!out.output.is_empty());
    assert_eq!(root, None);
}

#[test]
fn quiet_hides_missing_project_error() {
    let mut h = header(CommandKind::Storage);
    h.quiet = true;
    let mut d: Dispatch<u32> = Dispatch::start(h, None, missing());
    assert_eq!(d.next(Event::Succeeded), Action::Finish);
    assert_eq!(d.finish().0.output, "");
}

#[test]
fn init_then_root_sees_the_project() {
    let mut d: Dispatch<u32> = Dispatch::start(header(CommandKind::Init), None, missing());
    assert_eq!(d.next(Event::Succeeded), Action::Execute(CommandKind::Init));
    assert_eq!(d.next(Event::Created(7)), Action::Automate);
    assert_eq!(d.next(Event::Succeeded), Action::Finish);
    let (_, root) = d.finish();
    assert_eq!(root, Some(7));
    let mut d2 = Dispatch::start(header(CommandKind::Root), root, missing());
    assert_eq!(d2.next(Event::Succeeded), Action::Execute(CommandKind::Root));
}

#[test]
fn aliases_runs_without_project() {
    let mut d: Dispatch<u32> = Dispatch::start(header(CommandKind::Aliases), None, missing());
    assert_eq!(d.next(Event::Succeeded), Action::Execute(CommandKind::Aliases));
    assert_eq!(d.next(Event::Succeeded), Action::Finish);
}

#[test]
fn from_ref_checks_out_first_and_failure_is_reported() {
    let mut h = header(CommandKind::File);
    h.has_from_ref = true;
    let mut d = Dispatch::start(h, Some(1u32), missing());
    assert_eq!(d.next(Event::Succeeded), Action::Checkout);
    assert_eq!(d.next(Event::Failed("no such ref".to_string())), Action::Execute(CommandKind::File));
    d.output(line(LineKind::Output, "tracked"));
    assert_eq!(d.next(Event::Failed("boom".to_string())), Action::Finish);
    let (out, root) = d.finish();
    assert_eq!(out.output, "[PANIC] no such reftracked[ERROR] boom");
    assert_eq!(root, Some(1));
}

#[test]
fn skip_git_skips_automation() {
    let mut h = header(CommandKind::File);
    h.skip_git = true;
    h.verbosity = 3;
    let mut d = Dispatch::start(h, Some(1u32), missing());
    assert_eq!(d.next(Event::Succeeded), Action::Execute(CommandKind::File));
    assert_eq!(d.next(Event::Succeeded), Action::Finish);
    assert_eq!(d.finish().0.output, "[DEBUG] Command completed successfully.");
}

#[test]
fn automation_failure_aborts() {
    let mut d = Dispatch::start(header(CommandKind::Pipeline), Some(1u32), missing());
    assert_eq!(d.next(Event::Succeeded), Action::Execute(CommandKind::Pipeline));
    assert_eq!(d.next(Event::Succeeded), Action::Automate);
    assert_eq!(d.next(Event::Failed("git".to_string())), Action::Abort);
    assert_eq!(d.next(Event::Succeeded), Action::Abort);
}

#[test]
fn verbosity_maps_to_levels() {
    assert_eq!(log_level(true, 4), LogLevel::Off);
    assert_eq!(log_level(false, 0), LogLevel::Error);
    assert_eq!(log_level(false, 1), LogLevel::Warn);
    assert_eq!(log_level(false, 2), LogLevel::Info);
    assert_eq!(log_level(false, 3), LogLevel::Debug);
    assert_eq!(log_level(false, 4), LogLevel::Trace);
    assert_eq!(log_level(false, 200), LogLevel::Trace);
}

#[test]
fn lines_are_tagged_and_filtered() {
    let m = "m".to_string();
    assert_eq!(render_line(LogLevel::Error, LineKind::Output, &m), "m");
    assert_eq!(render_line(LogLevel::Error, LineKind::Error, &m), "[ERROR] m");
    assert_eq!(render_line(LogLevel::Error, LineKind::Warn, &m), "");
    assert_eq!(render_line(LogLevel::Off, LineKind::Output, &m), "");
    assert_eq!(render_line(LogLevel::Off, LineKind::Panic, &m), "[PANIC] m");
    assert_eq!(render_line(LogLevel::Info, LineKind::Info, &m), "[INFO] m");
    assert_eq!(render_line(LogLevel::Info, LineKind::Debug, &m), "");
    assert_eq!(render_line(LogLevel::Trace, LineKind::Debug, &m), "[DEBUG] m");
    assert_eq!(render_line(LogLevel::Warn, LineKind::Warn, &m), "[WARN] m");
}

#[test]
fn output_keeps_arrival_order() {
    let mut h = header(CommandKind::File);
    h.verbosity = 1;
    h.skip_git = true;
    let mut d = Dispatch::start(h, Some(1u32), missing());
    assert_eq!(d.next(Event::Succeeded), Action::Execute(CommandKind::File));
    d.output(line(LineKind::Output, "a"));
    d.output(line(LineKind::Info, "hidden"));
    d.output(line(LineKind::Warn, "w"));
    d.output(line(LineKind::Output, "b"));
    assert_eq!(d.next(Event::Succeeded), Action::Finish);
    assert_eq!(d.finish().0.output, "a[WARN] wb");
}

#[test]
fn failed_command_skips_automation() {
    let mut d = Dispatch::start(header(CommandKind::File), Some(1u32), missing());
    assert_eq!(d.next(Event::Succeeded), Action::Execute(CommandKind::File));
    d.output(line(LineKind::Output, "partial"));
    assert_eq!(d.next(Event::Failed("bad target".to_string())), Action::Finish);
    let (out, root) = d.finish();
    assert_eq!(out.output, "partial[ERROR] bad target");
    assert_eq!(root, Some(1));
}

#[test]
fn failed_init_keeps_old_root_and_skips_automation() {
    let mut d = Dispatch::start(header(CommandKind::Init), Some(4u32), missing());
    assert_eq!(d.next(Event::Succeeded), Action::Execute(CommandKind::Init));
    assert_eq!(d.next(Event::Failed("already initialized".to_string())), Action::Finish);
    let (out, root) = d.finish();
    assert_eq!(out.output, "[ERROR] already initialized");
    assert_eq!(root, Some(4));
}

#[test]
fn split_on_single_spaces() {
    assert_eq!(split_command("file unknown-subcmd"), vec!["file", "unknown-subcmd"]);
    assert_eq!(split_command("xvc  file"), vec!["xvc", "", "file"]);
    assert_eq!(split_command(""), vec![""]);
    assert_eq!(split_command("a b "), vec!["a", "b", ""]);
}
