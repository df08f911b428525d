use run_suid::chain::{authorize, Denial, Probe};
use run_suid::cli::{parse_args, CliAction};
use run_suid::perms::{is_secure, FileKind, FileStatus};
use run_suid::relay::{final_status, ChildOutcome, RelayAction, RelayState};
use run_suid::report::dry_run_line;
use run_suid::sanitize::{contains_entry, sanitized_path};
use run_suid::target::{join, sibling_target, target_file_name};

fn file(owner: u32, mode: u32) -> Probe {
    Probe::Found(FileStatus { owner, kind: FileKind::File, mode })
}

fn dir(owner: u32, mode: u32) -> Probe {
    Probe::Found(FileStatus { owner, kind: FileKind::Directory, mode })
}

fn strings(v: &[&str]) -> Vec<String> {
    v.iter().map(|s| s.to_string()).collect()
}

#[test]
fn secure_file_modes() {
    assert!(is_secure(FileKind::File, 0o4500));
    assert!(is_secure(FileKind::File, 0o4501));
    assert!(is_secure(FileKind::File, 0o4700));
    assert!(is_secure(FileKind::File, 0o104555));
    assert!(!is_secure(FileKind::File, 0o500));
    assert!(!is_secure(FileKind::File, 0o4400));
    assert!(!is_secure(FileKind::File, 0o4520));
    assert!(!is_secure(FileKind::File, 0o4100));
    assert!(!is_secure(FileKind::File, 0o4502));
}

#[test]
fn secure_dir_modes() {
    assert!(is_secure(FileKind::Directory, 0o500));
    assert!(is_secure(FileKind::Directory, 0o700));
    assert!(is_secure(FileKind::Directory, 0o555));
    assert!(is_secure(FileKind::Directory, 0o40500));
    assert!(!is_secure(FileKind::Directory, 0o400));
    assert!(!is_secure(FileKind::Directory, 0o520));
    assert!(!is_secure(FileKind::Directory, 0o502));
    assert!(!is_secure(FileKind::Directory, 0o777));
}

#[test]
fn other_kinds_never_secure() {
    assert!(!is_secure(FileKind::Other, 0o4500));
    assert!(!is_secure(FileKind::Other, 0o500));
    let st = FileStatus { owner: 0, kind: FileKind::Other, mode: 0o4500 };
    assert!(!st.is_secure());
}

#[test]
fn target_names() {
    assert_eq!(sibling_target("p", "tool"), "p/tool.run-suid");
    assert_eq!(sibling_target("p", "tool.bin"), "p/tool.run-suid.bin");
    assert_eq!(sibling_target("p", "a.b.c"), "p/a.b.run-suid.c");
    assert_eq!(sibling_target("/usr/bin/", "x"), "/usr/bin/x.run-suid");
    assert_eq!(sibling_target("", "x"), "x.run-suid");
    assert_eq!(target_file_name("tool."), "tool.run-suid.");
    assert_eq!(target_file_name(".rc"), ".run-suid.rc");
    assert_eq!(join("/a", "/b"), "/b");
}

#[test]
fn target_naming_is_deterministic() {
    assert_eq!(sibling_target("/opt/x", "a.b"), sibling_target("/opt/x", "a.b"));
}

#[test]
fn parent_denial_comes_before_target() {
    let r = authorize(1000, &file(1000, 0o4500), true, Some(&dir(1000, 0o702)), Some(&Probe::NotFound));
    assert_eq!(r, Err(Denial::PermParent));
    let r = authorize(1000, &file(1000, 0o4500), true, Some(&dir(7, 0o500)), Some(&file(9, 0o4777)));
    assert_eq!(r, Err(Denial::OwnerParent));
    let r = authorize(1000, &file(1000, 0o4520), true, Some(&dir(7, 0o702)), None);
    assert_eq!(r, Err(Denial::PermExe));
    let r = authorize(1000, &file(5, 0o4500), true, Some(&dir(7, 0o702)), None);
    assert_eq!(r, Err(Denial::OwnerExe));
    let r = authorize(1000, &file(1000, 0o4500), false, Some(&dir(1000, 0o500)), None);
    assert_eq!(r, Err(Denial::Environment));
    let r = authorize(1000, &Probe::Unreadable, true, None, None);
    assert_eq!(r, Err(Denial::Environment));
    let r = authorize(1000, &file(1000, 0o4500), true, None, None);
    assert_eq!(r, Err(Denial::Environment));
}

#[test]
fn root_bypasses_target_owner() {
    let r = authorize(0, &file(0, 0o4500), true, Some(&dir(0, 0o500)), Some(&file(1234, 0o4500)));
    assert_eq!(r, Ok(1234));
}

#[test]
fn non_root_target_owner_mismatch_denied() {
    let r = authorize(1000, &file(1000, 0o4500), true, Some(&dir(1000, 0o500)), Some(&file(1234, 0o4500)));
    assert_eq!(r, Err(Denial::OwnerTarget));
    assert_eq!(Denial::OwnerTarget.exit_code(), 38);
}

#[test]
fn target_checks() {
    let ok_exe = file(1000, 0o4500);
    let ok_dir = dir(1000, 0o500);
    let r = authorize(1000, &ok_exe, true, Some(&ok_dir), Some(&file(1000, 0o4502)));
    assert_eq!(r, Err(Denial::PermTarget));
    let r = authorize(1000, &ok_exe, true, Some(&ok_dir), Some(&dir(1000, 0o500)));
    assert_eq!(r, Err(Denial::Environment));
    let r = authorize(1000, &ok_exe, true, Some(&ok_dir), Some(&Probe::Unreadable));
    assert_eq!(r, Err(Denial::Environment));
}

#[test]
fn missing_target_exits_35() {
    let r = authorize(1000, &file(1000, 0o4500), true, Some(&dir(1000, 0o500)), Some(&Probe::NotFound));
    assert_eq!(r, Err(Denial::NoTarget));
    assert_eq!(r.unwrap_err().exit_code(), 35);
}

#[test]
fn present_target_passes_child_status() {
    let r = authorize(1000, &file(1000, 0o4500), true, Some(&dir(1000, 0o500)), Some(&file(1000, 0o4500)));
    assert_eq!(r, Ok(1000));
    assert_eq!(final_status(ChildOutcome::Exited(Some(7))), 7);
    assert_eq!(final_status(ChildOutcome::Exited(Some(0))), 0);
}

#[test]
fn exit_codes() {
    assert_eq!(Denial::Generic.exit_code(), 33);
    assert_eq!(Denial::Environment.exit_code(), 34);
    assert_eq!(Denial::NoTarget.exit_code(), 35);
    assert_eq!(Denial::OwnerExe.exit_code(), 40);
    assert_eq!(Denial::PermExe.exit_code(), 41);
    assert_eq!(Denial::OwnerParent.exit_code(), 42);
    assert_eq!(Denial::PermParent.exit_code(), 43);
    assert_eq!(Denial::PermTarget.exit_code(), 38);
}

#[test]
fn child_outcomes() {
    assert_eq!(final_status(ChildOutcome::SpawnFailed), 33);
    assert_eq!(final_status(ChildOutcome::WaitFailed), 33);
    assert_eq!(final_status(ChildOutcome::Exited(None)), 255);
    assert_eq!(final_status(ChildOutcome::Exited(Some(300))), 44);
    assert_eq!(final_status(ChildOutcome::Exited(Some(-1))), 255);
}

#[test]
fn signal_before_registration_reaches_child() {
    let mut s = RelayState::new();
    assert_eq!(s.on_signal(2), RelayAction::Queued);
    assert_eq!(s.register(4242), Some(2));
    assert_eq!(s.pending, None);
    assert_eq!(s.on_signal(15), RelayAction::Forward { pid: 4242, signal: 15 });
    assert_eq!(s.pending, None);
}

#[test]
fn signal_after_registration_forwarded() {
    let mut s = RelayState::new();
    assert_eq!(s.register(77), None);
    assert_eq!(s.on_signal(1), RelayAction::Forward { pid: 77, signal: 1 });
    assert_eq!(s.on_signal(10), RelayAction::Forward { pid: 77, signal: 10 });
    assert_eq!(s, RelayState { pending: None, child: Some(77) });
}

#[test]
fn dry_run_line_quotes_each_argument() {
    let line = dry_run_line("/opt/app/tool.run-suid", &strings(&["a b", "x\"y"]));
    assert_eq!(
        line,
        "Dry run: would have succeeded in starting the process: \"/opt/app/tool.run-suid\" \"a b\" \"x\\\"y\""
    );
    let line = dry_run_line("t", &Vec::new());
    assert_eq!(line, "Dry run: would have succeeded in starting the process: \"t\"");
}

#[test]
fn path_sanitization() {
    assert_eq!(sanitized_path(Some("/bin:/opt/custom")), "/bin");
    assert_eq!(sanitized_path(None), "/bin");
    assert_eq!(sanitized_path(Some("")), "/bin");
    assert_eq!(sanitized_path(Some("/opt:/home/u/bin")), "/bin");
    assert_eq!(
        sanitized_path(Some("/bin:/usr/bin:/usr/local/sbin:/sbin")),
        "/usr/local/sbin:/usr/bin:/sbin:/bin"
    );
    assert_eq!(sanitized_path(Some("/usr/bin/:/usr/binx:/usr/sbin")), "/usr/sbin");
}

#[test]
fn entries() {
    assert!(contains_entry("a:b:c", "b"));
    assert!(contains_entry("a:b:c", "c"));
    assert!(!contains_entry("a:bb:c", "b"));
    assert!(contains_entry("", ""));
    assert!(contains_entry("a::c", ""));
    assert!(!contains_entry("abc", "ab"));
}

#[test]
fn argument_parsing() {
    let (a, rest) = parse_args(&strings(&["-v", "--dry-run", "--", "x", "--", "-h"]));
    assert_eq!(a, CliAction::Run { verbose: true, dry_run: true });
    assert_eq!(rest, strings(&["x", "--", "-h"]));
    let (a, rest) = parse_args(&strings(&[]));
    assert_eq!(a, CliAction::Run { verbose: false, dry_run: false });
    assert!(rest.is_empty());
    let (a, _) = parse_args(&strings(&["-h", "--version"]));
    assert_eq!(a, CliAction::Usage);
    let (a, _) = parse_args(&strings(&["-h", "--help"]));
    assert_eq!(a, CliAction::FullHelp);
    let (a, _) = parse_args(&strings(&["--version", "-q"]));
    assert_eq!(a, CliAction::Version);
    let (a, _) = parse_args(&strings(&["--verbose", "-q", "--nope"]));
    assert_eq!(a, CliAction::Unexpected(1));
    let (a, rest) = parse_args(&strings(&["--", "-q"]));
    assert_eq!(a, CliAction::Run { verbose: false, dry_run: false });
    assert_eq!(rest, strings(&["-q"]));
}
