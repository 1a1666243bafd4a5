use lenvironment::doctor::DoctorCheck;

#[test]
fn titles() {
    assert_eq!(DoctorCheck::DockerInstalled.title(), "Checking Docker installation...");
    assert_eq!(DoctorCheck::DaemonRunning.title(), "Checking Docker daemon...");
    assert_eq!(DoctorCheck::MetadataWritable.title(), "Checking metadata directory...");
}

#[test]
fn passed_checks_give_no_advice() {
    for check in [
        DoctorCheck::DockerInstalled,
        DoctorCheck::DaemonRunning,
        DoctorCheck::MetadataWritable,
    ] {
        let r = check.report(true, "macos");
        assert!(r.passed);
        assert!(r.hints.is_empty());
        assert!(r.message.starts_with("✓ "));
    }
}

#[test]
fn missing_docker_is_explained() {
    let r = DoctorCheck::DockerInstalled.report(false, "linux");
    assert!(!r.passed);
    assert_eq!(r.message, "✗ Docker not installed");
    assert_eq!(r.hints.len(), 1);
    assert!(r.hints[0].starts_with("You must install Docker"));
    assert_eq!(r.hint_indent, 2);
}

#[test]
fn stopped_daemon_advice_depends_on_os() {
    let mac = DoctorCheck::DaemonRunning.report(false, "macos");
    assert_eq!(mac.message, "✗ Docker daemon not running");
    assert_eq!(mac.hints.len(), 2);
    assert_eq!(mac.hints[0], "Docker daemon must be running. If it's not, Open Docker Desktop");
    assert!(mac.hints[1].starts_with("It appears you are running macOS."));
    assert_eq!(mac.hint_indent, 4);

    let linux = DoctorCheck::DaemonRunning.report(false, "linux");
    assert_eq!(linux.hints.len(), 2);
    assert!(linux.hints[1].starts_with("It appears you are running Linux."));

    let windows = DoctorCheck::DaemonRunning.report(false, "windows");
    assert_eq!(windows.hints.len(), 1);
}

#[test]
fn metadata_messages() {
    assert_eq!(
        DoctorCheck::MetadataWritable.report(true, "linux").message,
        "✓ Metadata directory writable"
    );
    let r = DoctorCheck::MetadataWritable.report(false, "linux");
    assert_eq!(r.message, "✗ Metadata directory not writable");
    assert!(r.hints.is_empty());
}
