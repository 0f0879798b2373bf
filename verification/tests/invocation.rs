use feature_probe::{Invocation, Platform, Probe, Stream, DEFAULT_RUSTC, RUSTC_VARIABLE};

fn strings(items: &[&str]) -> Vec<String> {
    items.iter().map(|s| s.to_string()).collect()
}

#[test]
fn new_probe_uses_the_default_compiler() {
    let inv = Probe::new(None, Platform::Unix).invocation();
    assert_eq!(inv.program, "rustc");
    assert_eq!(DEFAULT_RUSTC, "rustc");
    assert_eq!(RUSTC_VARIABLE, "RUSTC");
}

#[test]
fn new_probe_takes_the_compiler_of_the_environment() {
    let inv = Probe::new(Some("/opt/rust/bin/rustc"), Platform::Unix).invocation();
    assert_eq!(inv.program, "/opt/rust/bin/rustc");
}

#[test]
fn empty_compiler_of_the_environment_is_kept() {
    let inv = Probe::new(Some(""), Platform::Unix).invocation();
    assert_eq!(inv.program, "");
}

#[test]
fn default_invocation_on_unix() {
    let inv = Probe::new(None, Platform::Unix).invocation();
    assert_eq!(
        inv,
        Invocation {
            program: "rustc".to_string(),
            args: strings(&["--emit=obj=/dev/null", "-"]),
            env: vec![],
            stdin: Stream::Piped,
            stdout: Stream::Null,
            stderr: Stream::Null,
        }
    );
}

#[test]
fn default_invocation_on_windows() {
    let inv = Probe::new(None, Platform::Windows).invocation();
    assert_eq!(inv.args, strings(&["--emit=obj=NUL", "-"]));
}

#[test]
fn null_device_of_each_platform() {
    assert_eq!(Platform::Unix.null_device(), "/dev/null");
    assert_eq!(Platform::Windows.null_device(), "NUL");
}

#[test]
fn build_emit_names_kind_and_null_device() {
    let mut probe = Probe::new(None, Platform::Unix);
    assert_eq!(probe.build_emit(), "--emit=obj=/dev/null");
    probe.emit("metadata");
    assert_eq!(probe.build_emit(), "--emit=metadata=/dev/null");
    let mut probe = Probe::new(None, Platform::Windows);
    probe.emit("llvm-ir");
    assert_eq!(probe.build_emit(), "--emit=llvm-ir=NUL");
}

#[test]
fn emit_changes_the_first_argument_only() {
    let mut probe = Probe::new(None, Platform::Unix);
    probe.arg("-O").emit("asm");
    assert_eq!(probe.invocation().args, strings(&["--emit=asm=/dev/null", "-", "-O"]));
}

#[test]
fn arg_appends_in_order() {
    let mut probe = Probe::new(None, Platform::Unix);
    probe.arg("--edition").arg("2018").arg("--edition");
    assert_eq!(
        probe.invocation().args,
        strings(&["--emit=obj=/dev/null", "-", "--edition", "2018", "--edition"])
    );
}

#[test]
fn args_appends_all_in_order() {
    let mut probe = Probe::new(None, Platform::Unix);
    probe.arg("first").args(&["-C", "opt-level=3"]).args(&[]).arg("last");
    assert_eq!(
        probe.invocation().args,
        strings(&["--emit=obj=/dev/null", "-", "first", "-C", "opt-level=3", "last"])
    );
}

#[test]
fn debug_adds_verbose_last_and_asks_for_backtraces() {
    let mut probe = Probe::new(None, Platform::Unix);
    probe.debug(true).arg("-O");
    let inv = probe.invocation();
    assert_eq!(inv.args, strings(&["--emit=obj=/dev/null", "-", "-O", "--verbose"]));
    assert_eq!(inv.env, vec![("RUST_BACKTRACE".to_string(), "full".to_string())]);
}

#[test]
fn debug_does_not_open_the_output_streams() {
    let mut probe = Probe::new(None, Platform::Unix);
    probe.debug(true);
    let inv = probe.invocation();
    assert_eq!(inv.stdin, Stream::Piped);
    assert_eq!(inv.stdout, Stream::Null);
    assert_eq!(inv.stderr, Stream::Null);
}

#[test]
fn debug_can_be_switched_off_again() {
    let mut probe = Probe::new(None, Platform::Unix);
    probe.debug(true).debug(false);
    let inv = probe.invocation();
    assert_eq!(inv.args, strings(&["--emit=obj=/dev/null", "-"]));
    assert!(inv.env.is_empty());
}

#[test]
fn rustc_sets_the_program() {
    let mut probe = Probe::new(Some("from-environment"), Platform::Unix);
    probe.rustc("/usr/local/bin/rustc-nightly");
    assert_eq!(probe.invocation().program, "/usr/local/bin/rustc-nightly");
}

#[test]
fn setters_leave_the_other_settings() {
    let mut probe = Probe::new(None, Platform::Windows);
    probe.arg("-O").debug(true).emit("mir").rustc("rc").retries(7);
    let inv = probe.invocation();
    assert_eq!(inv.program, "rc");
    assert_eq!(inv.args, strings(&["--emit=mir=NUL", "-", "-O", "--verbose"]));
    assert_eq!(inv.env.len(), 1);
}

#[test]
fn invocation_is_the_same_each_time() {
    let mut probe = Probe::new(None, Platform::Unix);
    probe.arg("-O").debug(true);
    assert_eq!(probe.invocation(), probe.invocation());
}

#[test]
fn clone_keeps_the_configuration() {
    let mut probe = Probe::new(Some("rc"), Platform::Unix);
    probe.arg("-O").emit("asm").debug(true);
    let copy = probe.clone();
    probe.arg("later");
    assert_eq!(copy.invocation().args, strings(&["--emit=asm=/dev/null", "-", "-O", "--verbose"]));
    assert_eq!(copy.invocation().program, "rc");
}

#[test]
fn echo_shows_the_program_when_debugging() {
    let mut probe = Probe::new(None, Platform::Unix);
    assert_eq!(probe.echo("fn main() { }"), None);
    probe.debug(true);
    assert_eq!(probe.echo("fn main() { }"), Some("probing: fn main() { }".to_string()));
    assert_eq!(probe.echo(""), Some("probing: ".to_string()));
}
