use lenvironment::docker::{
    detect_distro, exec_args, Distro, DockerRuntime, EnterAction, Lifecycle, ProvisionStep,
    ShellStep,
};
use lenvironment::env::Environment;
use lenvironment::provisioning::create_user;
use lenvironment::runtime::{state_from_inspect, ContainerState};
use lenvironment::LenvError;

fn strings(v: &[&str]) -> Vec<String> {
    v.iter().map(|s| s.to_string()).collect()
}

#[test]
fn distro_from_image_name() {
    assert_eq!(detect_distro("archlinux"), Distro::Arch);
    assert_eq!(detect_distro("archlinux:latest"), Distro::Arch);
    assert_eq!(detect_distro("alpine:3.20"), Distro::Alpine);
    assert_eq!(detect_distro("ubuntu:latest"), Distro::Ubuntu);
    assert_eq!(detect_distro("debian:12"), Distro::Ubuntu);
    assert_eq!(detect_distro(""), Distro::Ubuntu);
}

#[test]
fn arch_takes_precedence_over_alpine() {
    assert_eq!(detect_distro("alpine-arch"), Distro::Arch);
    assert_eq!(detect_distro("Arch"), Distro::Ubuntu);
}

#[test]
fn state_from_failed_inspect_is_missing() {
    assert_eq!(state_from_inspect(false, "running\n"), ContainerState::Missing);
}

#[test]
fn state_from_inspect_trims_status() {
    assert_eq!(state_from_inspect(true, "running\n"), ContainerState::Running);
    assert_eq!(state_from_inspect(true, "  running\t\r\n"), ContainerState::Running);
    assert_eq!(state_from_inspect(true, "\u{a0}running\u{3000}"), ContainerState::Running);
    assert_eq!(state_from_inspect(true, "running"), ContainerState::Running);
}

#[test]
fn other_status_is_stopped() {
    assert_eq!(state_from_inspect(true, "exited\n"), ContainerState::Stopped);
    assert_eq!(state_from_inspect(true, "Running"), ContainerState::Stopped);
    assert_eq!(state_from_inspect(true, "run ning"), ContainerState::Stopped);
    assert_eq!(state_from_inspect(true, ""), ContainerState::Stopped);
}

#[test]
fn state_labels() {
    assert_eq!(ContainerState::Running.label(), "running");
    assert_eq!(ContainerState::Stopped.label(), "stopped");
    assert_eq!(ContainerState::Missing.label(), "missing");
}

#[test]
fn exec_command_line() {
    assert_eq!(
        exec_args("lenv-dev", "apt update"),
        strings(&["exec", "-i", "lenv-dev", "sh", "-c", "apt update"])
    );
}

#[test]
fn run_command_line() {
    let env = Environment::new(
        "develop",
        Some("alpine"),
        &vec!["./m:/mnt".to_string(), "/x:/y".to_string()],
    )
    .unwrap();
    assert_eq!(
        DockerRuntime::run_args(&env),
        strings(&[
            "run",
            "-dit",
            "--label",
            "dev.lenv.managed=true",
            "--label",
            "dev.lenv.name=develop",
            "--name",
            "lenv-develop",
            "-v",
            "./m:/mnt",
            "-v",
            "/x:/y",
            "alpine",
            "sh",
        ])
    );
}

#[test]
fn run_command_line_without_mounts() {
    let env = Environment::new("d", None, &vec![]).unwrap();
    assert_eq!(
        DockerRuntime::run_args(&env),
        strings(&[
            "run",
            "-dit",
            "--label",
            "dev.lenv.managed=true",
            "--label",
            "dev.lenv.name=d",
            "--name",
            "lenv-d",
            "ubuntu:latest",
            "sh",
        ])
    );
}

#[test]
fn other_command_lines() {
    assert_eq!(
        DockerRuntime::inspect_args("dev"),
        strings(&["inspect", "-f", "{{.State.Status}}", "lenv-dev"])
    );
    assert_eq!(DockerRuntime::remove_args("dev"), strings(&["rm", "-f", "lenv-dev"]));
    assert_eq!(
        DockerRuntime::probe_args("lenv-dev", "/bin/bash"),
        strings(&["exec", "lenv-dev", "test", "-x", "/bin/bash"])
    );
    assert_eq!(
        DockerRuntime::attach_args("alice", "lenv-dev", "/bin/sh"),
        strings(&["exec", "-it", "-u", "alice", "lenv-dev", "/bin/sh"])
    );
}

#[test]
fn lifecycle_command_lines_and_errors() {
    assert_eq!(Lifecycle::Start.args("dev"), strings(&["start", "lenv-dev"]));
    assert_eq!(Lifecycle::Stop.args("dev"), strings(&["stop", "lenv-dev"]));
    assert_eq!(Lifecycle::Restart.args("dev"), strings(&["restart", "lenv-dev"]));
    assert_eq!(Lifecycle::Start.failure(), LenvError::StartFailed);
    assert_eq!(Lifecycle::Stop.failure(), LenvError::StopFailed);
    assert_eq!(Lifecycle::Restart.failure(), LenvError::RestartFailed);
}

#[test]
fn shell_search_probes_bash_then_sh() {
    assert_eq!(
        DockerRuntime::shell_step(&vec![]),
        Ok(ShellStep::Probe("/bin/bash".to_string()))
    );
    assert_eq!(
        DockerRuntime::shell_step(&vec![false]),
        Ok(ShellStep::Probe("/bin/sh".to_string()))
    );
}

#[test]
fn shell_search_uses_first_success() {
    assert_eq!(
        DockerRuntime::shell_step(&vec![true]),
        Ok(ShellStep::Use("/bin/bash".to_string()))
    );
    assert_eq!(
        DockerRuntime::shell_step(&vec![false, true]),
        Ok(ShellStep::Use("/bin/sh".to_string()))
    );
    assert_eq!(
        DockerRuntime::shell_step(&vec![true, true]),
        Ok(ShellStep::Use("/bin/bash".to_string()))
    );
}

#[test]
fn shell_search_gives_up() {
    assert_eq!(DockerRuntime::shell_step(&vec![false, false]), Err(LenvError::NoUsableShell));
}

#[test]
fn enter_asks_for_the_state_first() {
    assert_eq!(DockerRuntime::enter_step(None, None, &vec![]), Ok(EnterAction::QueryState));
}

#[test]
fn enter_refuses_missing() {
    assert_eq!(
        DockerRuntime::enter_step(Some(ContainerState::Missing), None, &vec![]),
        Err(LenvError::EnvironmentMissing)
    );
}

#[test]
fn enter_starts_stopped_container_before_probing() {
    assert_eq!(
        DockerRuntime::enter_step(Some(ContainerState::Stopped), None, &vec![]),
        Ok(EnterAction::Start)
    );
    assert_eq!(
        DockerRuntime::enter_step(Some(ContainerState::Stopped), Some(false), &vec![]),
        Err(LenvError::StartFailed)
    );
    assert_eq!(
        DockerRuntime::enter_step(Some(ContainerState::Stopped), Some(true), &vec![]),
        Ok(EnterAction::Probe("/bin/bash".to_string()))
    );
}

#[test]
fn enter_probes_then_attaches() {
    let running = Some(ContainerState::Running);
    assert_eq!(
        DockerRuntime::enter_step(running, None, &vec![]),
        Ok(EnterAction::Probe("/bin/bash".to_string()))
    );
    assert_eq!(
        DockerRuntime::enter_step(running, None, &vec![false]),
        Ok(EnterAction::Probe("/bin/sh".to_string()))
    );
    assert_eq!(
        DockerRuntime::enter_step(running, None, &vec![false, true]),
        Ok(EnterAction::Attach("/bin/sh".to_string()))
    );
    assert_eq!(
        DockerRuntime::enter_step(running, None, &vec![true]),
        Ok(EnterAction::Attach("/bin/bash".to_string()))
    );
    assert_eq!(
        DockerRuntime::enter_step(running, None, &vec![false, false]),
        Err(LenvError::NoUsableShell)
    );
}

#[test]
fn create_and_remove_outcomes() {
    assert_eq!(DockerRuntime::create_outcome(true), Ok(()));
    assert_eq!(DockerRuntime::create_outcome(false), Err(LenvError::CreateFailed));
    assert_eq!(DockerRuntime::remove_outcome(true), Ok(()));
    assert_eq!(DockerRuntime::remove_outcome(false), Err(LenvError::RemoveFailed));
    assert_eq!(Lifecycle::Stop.outcome(true), Ok(()));
    assert_eq!(Lifecycle::Restart.outcome(false), Err(LenvError::RestartFailed));
}

#[test]
fn list_header_is_padded() {
    assert_eq!(
        DockerRuntime::list_header(),
        format!("{:<15} {:<12} {:<25}", "NAME", "STATUS", "IMAGE")
    );
}

#[test]
fn list_row_writes_state_unpadded() {
    assert_eq!(
        DockerRuntime::list_row("develop", ContainerState::Running, "ubuntu:latest"),
        "develop         running ubuntu:latest            "
    );
    assert_eq!(
        DockerRuntime::list_row("d", ContainerState::Missing, "x"),
        format!("{:<15} {} {:<25}", "d", "missing", "x")
    );
}

#[test]
fn list_rows_never_cut() {
    let long = "a-very-long-environment-name";
    let row = DockerRuntime::list_row(long, ContainerState::Stopped, "x");
    assert_eq!(row, format!("{:<15} {} {:<25}", long, "stopped", "x"));
    assert!(row.starts_with(long));
}

#[test]
fn list_rows_count_characters() {
    assert_eq!(
        DockerRuntime::list_row("é", ContainerState::Running, "ö"),
        format!("{:<15} {} {:<25}", "é", "running", "ö")
    );
}

#[test]
fn create_user_on_ubuntu() {
    let c = "lenv-dev";
    assert_eq!(
        create_user(c, &Distro::Ubuntu, "alice"),
        vec![
            exec_args(c, "id -u alice >/dev/null 2>&1 || useradd -m -s /bin/bash alice"),
            exec_args(c, "usermod -aG sudo alice"),
            exec_args(
                c,
                "echo '%sudo ALL=(ALL:ALL) NOPASSWD: ALL' > /etc/sudoers.d/lenv && chmod 440 /etc/sudoers.d/lenv"
            ),
        ]
    );
}

#[test]
fn create_user_on_arch() {
    let c = "lenv-dev";
    assert_eq!(
        create_user(c, &Distro::Arch, "alice"),
        vec![exec_args(
            c,
            "sed -i 's/^# %wheel ALL=(ALL:ALL) NOPASSWD: ALL/%wheel ALL=(ALL:ALL) NOPASSWD: ALL/' /etc/sudoers"
        )]
    );
}

#[test]
fn create_user_on_alpine() {
    let c = "lenv-dev";
    assert_eq!(
        create_user(c, &Distro::Alpine, "bob"),
        vec![
            exec_args(c, "id -u bob >/dev/null 2>&1 || adduser -D bob"),
            exec_args(c, "addgroup bob wheel"),
            exec_args(c, "echo '%wheel ALL=(ALL) NOPASSWD:ALL ALL' >> /etc/sudoers"),
        ]
    );
}

#[test]
fn provision_plan_on_ubuntu_sanitizes_user() {
    let env = Environment::new("dev", None, &vec![]).unwrap();
    let plan = DockerRuntime::provision_plan(&env, "j.doe");
    let mut expected = vec![
        exec_args("lenv-dev", "apt update"),
        exec_args("lenv-dev", "apt install -y git sudo curl bash vim nano wget"),
    ];
    expected.extend(create_user("lenv-dev", &Distro::Ubuntu, "jdoe"));
    assert_eq!(plan, expected);
    assert_eq!(plan.len(), 5);
}

#[test]
fn provision_plan_on_arch_and_alpine() {
    let env = Environment::new("box", Some("archlinux"), &vec![]).unwrap();
    let plan = DockerRuntime::provision_plan(&env, "me");
    assert_eq!(plan.len(), 2);
    assert_eq!(
        plan[0],
        exec_args("lenv-box", "pacman -Sy --noconfirm git sudo curl bash vim nano wget")
    );
    let env = Environment::new("box", Some("alpine:3"), &vec![]).unwrap();
    let plan = DockerRuntime::provision_plan(&env, "me");
    assert_eq!(plan.len(), 4);
    assert_eq!(plan[0], exec_args("lenv-box", "apk add git sudo curl bash vim nano wget"));
    assert_eq!(plan[1], exec_args("lenv-box", "id -u me >/dev/null 2>&1 || adduser -D me"));
}

#[test]
fn provision_plan_runs_everything_in_the_container() {
    let env = Environment::new("dev", Some("alpine"), &vec![]).unwrap();
    for line in DockerRuntime::provision_plan(&env, "x") {
        assert_eq!(line.len(), 6);
        assert_eq!(&line[..5], &strings(&["exec", "-i", "lenv-dev", "sh", "-c"])[..]);
    }
}

#[test]
fn provision_runs_lines_in_order() {
    let env = Environment::new("dev", None, &vec![]).unwrap();
    let plan = DockerRuntime::provision_plan(&env, "alice");
    assert_eq!(DockerRuntime::provision_step(&plan, &vec![]), Ok(ProvisionStep::Run(0)));
    assert_eq!(DockerRuntime::provision_step(&plan, &vec![true]), Ok(ProvisionStep::Run(1)));
    assert_eq!(
        DockerRuntime::provision_step(&plan, &vec![true, true, true, true]),
        Ok(ProvisionStep::Run(4))
    );
    assert_eq!(
        DockerRuntime::provision_step(&plan, &vec![true; 5]),
        Ok(ProvisionStep::Done)
    );
}

#[test]
fn provision_stops_at_first_failure() {
    let env = Environment::new("dev", None, &vec![]).unwrap();
    let plan = DockerRuntime::provision_plan(&env, "alice");
    assert_eq!(
        DockerRuntime::provision_step(&plan, &vec![false]),
        Err(LenvError::CommandFailed("apt update".to_string()))
    );
    assert_eq!(
        DockerRuntime::provision_step(&plan, &vec![true, true, false]),
        Err(LenvError::CommandFailed(
            "id -u alice >/dev/null 2>&1 || useradd -m -s /bin/bash alice".to_string()
        ))
    );
    assert_eq!(
        DockerRuntime::provision_step(&plan, &vec![true, false, false]).map_err(|e| e.message()),
        Err("command failed: apt install -y git sudo curl bash vim nano wget".to_string())
    );
}

#[test]
fn empty_plan_is_done_at_once() {
    assert_eq!(DockerRuntime::provision_step(&vec![], &vec![]), Ok(ProvisionStep::Done));
}
