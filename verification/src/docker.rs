//! The Docker runtime: the command lines it hands to `docker`, and the
//! decisions it takes on what `docker` reports.
use vstd::prelude::*;

use crate::args::{arg_views, plan_views, push_arg, push_line, push_str_arg};
use crate::env::{mount_arg, mount_text, Environment};
use crate::error::LenvError;
use crate::provisioning::{create_user, spec_user_commands};
use crate::runtime::{container_name, spec_container_name, ContainerState};
use crate::text::{chars_of, concat2, contains_chars, contains_seq, pad_right, pad_right_exec};
use crate::validation::{sanitize_username, sanitized};

verus! {

/// The runtime that keeps each environment in a Docker container.
pub struct DockerRuntime;

/// The Linux distribution family of an image, which decides how packages
/// are installed and users created.
#[derive(Debug, Clone, Copy, PartialEq, Eq, Structural)]
pub enum Distro {
    Arch,
    Ubuntu,
    Alpine,
}

/// The distribution of `image`: Arch when its name holds `arch`, else Alpine
/// when it holds `alpine`, else Ubuntu.
pub open spec fn spec_detect_distro(image: Seq<char>) -> Distro {
    if contains_seq(image, "arch"@) {
        Distro::Arch
    } else if contains_seq(image, "alpine"@) {
        Distro::Alpine
    } else {
        Distro::Ubuntu
    }
}

/// `word` appears in `text` at some position.
pub open spec fn appears_in(word: Seq<char>, text: Seq<char>) -> bool {
    exists|i: int|
        0 <= i && i + word.len() <= text.len() && #[trigger] text.subrange(i, i + word.len())
            == word
}

/// How an image's name decides its distribution: a name holding `arch` is
/// Arch (whatever else it holds); a name holding `alpine` but not `arch` is
/// Alpine; any other name is Ubuntu.
pub proof fn lemma_distro_by_name(image: Seq<char>)
    ensures
        appears_in(seq!['a', 'r', 'c', 'h'], image) ==> spec_detect_distro(image) == Distro::Arch,
        appears_in(seq!['a', 'l', 'p', 'i', 'n', 'e'], image) && !appears_in(
            seq!['a', 'r', 'c', 'h'],
            image,
        ) ==> spec_detect_distro(image) == Distro::Alpine,
        !appears_in(seq!['a', 'l', 'p', 'i', 'n', 'e'], image) && !appears_in(
            seq!['a', 'r', 'c', 'h'],
            image,
        ) ==> spec_detect_distro(image) == Distro::Ubuntu,
        spec_detect_distro(image) == Distro::Arch ==> appears_in(seq!['a', 'r', 'c', 'h'], image),
        spec_detect_distro(image) == Distro::Alpine ==> appears_in(
            seq!['a', 'l', 'p', 'i', 'n', 'e'],
            image,
        ),
{
    reveal_strlit("arch");
    reveal_strlit("alpine");
    let arch = seq!['a', 'r', 'c', 'h'];
    let alpine = seq!['a', 'l', 'p', 'i', 'n', 'e'];
    assert("arch"@ =~= arch);
    assert("alpine"@ =~= alpine);
    assert(appears_in(arch, image) <==> contains_seq(image, "arch"@)) by {
        if appears_in(arch, image) {
            let i = choose|i: int|
                0 <= i && i + arch.len() <= image.len() && #[trigger] image.subrange(
                    i,
                    i + arch.len(),
                ) == arch;
            assert(crate::text::occurs_at(image, "arch"@, i));
        }
        if contains_seq(image, "arch"@) {
            let i = choose|i: int| crate::text::occurs_at(image, "arch"@, i);
            assert(image.subrange(i, i + arch.len()) == arch);
        }
    }
    assert(appears_in(alpine, image) <==> contains_seq(image, "alpine"@)) by {
        if appears_in(alpine, image) {
            let i = choose|i: int|
                0 <= i && i + alpine.len() <= image.len() && #[trigger] image.subrange(
                    i,
                    i + alpine.len(),
                ) == alpine;
            assert(crate::text::occurs_at(image, "alpine"@, i));
        }
        if contains_seq(image, "alpine"@) {
            let i = choose|i: int| crate::text::occurs_at(image, "alpine"@, i);
            assert(image.subrange(i, i + alpine.len()) == alpine);
        }
    }
}

/// Tells the distribution of an image from its name.
pub fn detect_distro(image: &str) -> (d: Distro)
    ensures
        d == spec_detect_distro(image@),
{
    let v = chars_of(image);
    if contains_chars(&v, &chars_of("arch")) {
        Distro::Arch
    } else if contains_chars(&v, &chars_of("alpine")) {
        Distro::Alpine
    } else {
        Distro::Ubuntu
    }
}

/// `docker exec -i CONTAINER sh -c COMMAND`, without the leading `docker`.
pub open spec fn spec_exec_args(container: Seq<char>, command: Seq<char>) -> Seq<Seq<char>> {
    seq!["exec"@, "-i"@, container, "sh"@, "-c"@, command]
}

/// Each command of `commands`, run by `sh` inside `container`.
pub open spec fn exec_invocations(container: Seq<char>, commands: Seq<Seq<char>>) -> Seq<
    Seq<Seq<char>>,
> {
    commands.map_values(|c: Seq<char>| spec_exec_args(container, c))
}

/// The arguments to `docker` that run the shell command `command` inside `container`.
pub fn exec_args(container: &str, command: &str) -> (r: Vec<String>)
    ensures
        arg_views(r@) == spec_exec_args(container@, command@),
{
    let mut r: Vec<String> = Vec::new();
    push_str_arg(&mut r, "exec");
    push_str_arg(&mut r, "-i");
    push_str_arg(&mut r, container);
    push_str_arg(&mut r, "sh");
    push_str_arg(&mut r, "-c");
    push_str_arg(&mut r, command);
    assert(arg_views(r@) =~= spec_exec_args(container@, command@));
    r
}

/// `-v HOST:CONTAINER` for each mount, in order.
pub open spec fn volume_args(mounts: Seq<(Seq<char>, Seq<char>)>) -> Seq<Seq<char>>
    decreases mounts.len(),
{
    if mounts.len() == 0 {
        seq![]
    } else {
        volume_args(mounts.drop_last()) + seq![
            "-v"@,
            mount_text(mounts.last().0, mounts.last().1),
        ]
    }
}

/// The arguments to `docker` that create the container of `env`: detached,
/// with a terminal, labelled as managed and with the environment's name,
/// named `lenv-NAME`, with each mount, from the environment's image, running `sh`.
pub open spec fn spec_run_args(
    name: Seq<char>,
    image: Seq<char>,
    mounts: Seq<(Seq<char>, Seq<char>)>,
) -> Seq<Seq<char>> {
    seq![
        "run"@,
        "-dit"@,
        "--label"@,
        "dev.lenv.managed=true"@,
        "--label"@,
        "dev.lenv.name="@ + name,
        "--name"@,
        spec_container_name(name),
    ] + volume_args(mounts) + seq![image, "sh"@]
}

/// The `(host, container)` pairs of the environment's mounts.
pub open spec fn mount_views(env: &Environment) -> Seq<(Seq<char>, Seq<char>)> {
    env.mounts@.map_values(|m: crate::env::Mount| m@)
}

/// The `docker` inspection that prints the state of the environment's container.
pub open spec fn spec_inspect_args(name: Seq<char>) -> Seq<Seq<char>> {
    seq!["inspect"@, "-f"@, "{{.State.Status}}"@, spec_container_name(name)]
}

/// The `docker` command that forcibly removes the environment's container.
pub open spec fn spec_remove_args(name: Seq<char>) -> Seq<Seq<char>> {
    seq!["rm"@, "-f"@, spec_container_name(name)]
}

/// The `docker` command that tests whether `shell` can be run inside `container`.
pub open spec fn spec_probe_args(container: Seq<char>, shell: Seq<char>) -> Seq<Seq<char>> {
    seq!["exec"@, container, "test"@, "-x"@, shell]
}

/// The `docker` command that opens `shell` interactively in `container` as `user`.
pub open spec fn spec_attach_args(user: Seq<char>, container: Seq<char>, shell: Seq<char>) -> Seq<
    Seq<char>,
> {
    seq!["exec"@, "-it"@, "-u"@, user, container, shell]
}

/// The shells tried, in order, when entering an environment.
pub open spec fn shell_candidates() -> Seq<Seq<char>> {
    seq!["/bin/bash"@, "/bin/sh"@]
}

/// A change of a container's run state.
#[derive(Debug, Clone, Copy, PartialEq, Eq, Structural)]
pub enum Lifecycle {
    Start,
    Stop,
    Restart,
}

impl Lifecycle {
    /// The `docker` subcommand that carries out this change.
    pub open spec fn spec_verb(&self) -> Seq<char> {
        match self {
            Lifecycle::Start => "start"@,
            Lifecycle::Stop => "stop"@,
            Lifecycle::Restart => "restart"@,
        }
    }

    /// The error reported when this change fails.
    pub open spec fn spec_failure(&self) -> LenvError {
        match self {
            Lifecycle::Start => LenvError::StartFailed,
            Lifecycle::Stop => LenvError::StopFailed,
            Lifecycle::Restart => LenvError::RestartFailed,
        }
    }

    /// The arguments to `docker` that carry out this change on the environment `name`.
    pub fn args(&self, name: &str) -> (r: Vec<String>)
        ensures
            arg_views(r@) == seq![self.spec_verb(), spec_container_name(name@)],
    {
        let mut r: Vec<String> = Vec::new();
        match self {
            Lifecycle::Start => push_str_arg(&mut r, "start"),
            Lifecycle::Stop => push_str_arg(&mut r, "stop"),
            Lifecycle::Restart => push_str_arg(&mut r, "restart"),
        }
        push_arg(&mut r, container_name(name));
        assert(arg_views(r@) =~= seq![self.spec_verb(), spec_container_name(name@)]);
        r
    }

    /// The result of this change, from whether `docker` succeeded.
    pub fn outcome(&self, success: bool) -> (r: Result<(), LenvError>)
        ensures
            r == (if success {
                Ok(())
            } else {
                Err(self.spec_failure())
            }),
    {
        if success {
            Ok(())
        } else {
            Err(self.failure())
        }
    }

    /// The error reported when this change fails.
    pub fn failure(&self) -> (e: LenvError)
        ensures
            e == self.spec_failure(),
    {
        match self {
            Lifecycle::Start => LenvError::StartFailed,
            Lifecycle::Stop => LenvError::StopFailed,
            Lifecycle::Restart => LenvError::RestartFailed,
        }
    }
}

/// The probes so far found `shell`: it is the first candidate whose probe succeeded.
pub open spec fn shell_found(outcomes: Seq<bool>, shell: Seq<char>) -> bool {
    exists|k: int|
        0 <= k < outcomes.len() && k < shell_candidates().len() && outcomes[k] && (forall|j: int|
            0 <= j < k ==> !outcomes[j]) && shell == shell_candidates()[k]
}

/// No probe so far succeeded, and `shell` is the next candidate to probe.
pub open spec fn shell_to_probe(outcomes: Seq<bool>, shell: Seq<char>) -> bool {
    &&& outcomes.len() < shell_candidates().len()
    &&& forall|j: int| 0 <= j < outcomes.len() ==> !outcomes[j]
    &&& shell == shell_candidates()[outcomes.len() as int]
}

/// Every candidate shell was probed, and none can be run.
pub open spec fn shells_exhausted(outcomes: Seq<bool>) -> bool {
    &&& outcomes.len() >= shell_candidates().len()
    &&& forall|j: int| 0 <= j < shell_candidates().len() ==> !outcomes[j]
}

/// What to do next while entering an environment.
#[derive(Debug, PartialEq, Eq)]
pub enum EnterAction {
    /// Ask for the state of the environment's container.
    QueryState,
    /// Start the environment's container.
    Start,
    /// Test whether this shell can be run in the container.
    Probe(String),
    /// Open this shell interactively in the container.
    Attach(String),
}

/// What to do next while looking for a shell to enter an environment with.
#[derive(Debug, PartialEq, Eq)]
pub enum ShellStep {
    /// Test whether this shell can be run in the container.
    Probe(String),
    /// Enter the environment with this shell.
    Use(String),
}

/// What to do next while running a provisioning plan.
#[derive(Debug, PartialEq, Eq)]
pub enum ProvisionStep {
    /// Run the command line with this index.
    Run(usize),
    /// Every command line ran successfully.
    Done,
}

/// The shell command of a provisioning command line: its last argument.
pub open spec fn line_command(line: Seq<Seq<char>>) -> Seq<char> {
    if line.len() > 0 {
        line.last()
    } else {
        Seq::<char>::empty()
    }
}

/// The heading row of `lenv list`: `NAME`, `STATUS` and `IMAGE`, left-aligned
/// in columns of 15, 12 and 25 characters, separated by a space.
pub open spec fn spec_list_header() -> Seq<char> {
    pad_right("NAME"@, 15) + " "@ + pad_right("STATUS"@, 12) + " "@ + pad_right("IMAGE"@, 25)
}

/// A row of `lenv list`: the name left-aligned in 15 characters, a space,
/// the state's word as it is (a state is written without regard to the
/// column width), a space, and the image left-aligned in 25 characters.
pub open spec fn spec_list_row(name: Seq<char>, state: ContainerState, image: Seq<char>) -> Seq<
    char,
> {
    pad_right(name, 15) + " "@ + state.spec_label() + " "@ + pad_right(image, 25)
}

/// When the name fits its column, the state's word starts at column 16 of a
/// row, right below the `STATUS` heading, and the image follows it after one
/// space.
pub proof fn lemma_list_row_layout(name: Seq<char>, state: ContainerState, image: Seq<char>)
    requires
        name.len() <= 15,
    ensures
        spec_list_row(name, state, image).subrange(0, name.len() as int) == name,
        spec_list_row(name, state, image).subrange(16, 16 + state.spec_label().len() as int) == state.spec_label(),
        spec_list_header().subrange(16, 22) == "STATUS"@,
        spec_list_row(name, state, image).subrange(
            17 + state.spec_label().len() as int,
            17 + state.spec_label().len() + image.len() as int,
        ) == image,
{
    reveal_strlit(" ");
    reveal_strlit("NAME");
    reveal_strlit("STATUS");
    reveal_strlit("IMAGE");
    let a = pad_right(name, 15);
    let l = state.spec_label();
    let c = pad_right(image, 25);
    assert(a.len() == 15);
    let row = spec_list_row(name, state, image);
    assert(row =~= a + " "@ + l + " "@ + c);
    assert(row.subrange(0, name.len() as int) =~= name);
    assert(row.subrange(16, 16 + l.len() as int) =~= l);
    assert(row.subrange(17 + l.len() as int, 17 + l.len() + image.len() as int) =~= image);
    let h = spec_list_header();
    assert(pad_right("NAME"@, 15).len() == 15);
    assert(h.subrange(16, 22) =~= "STATUS"@);
}

/// The packages installed in every environment, by distribution.
pub open spec fn spec_install_commands(distro: Distro) -> Seq<Seq<char>> {
    match distro {
        Distro::Arch => seq!["pacman -Sy --noconfirm git sudo curl bash vim nano wget"@],
        Distro::Ubuntu => seq!["apt update"@, "apt install -y git sudo curl bash vim nano wget"@],
        Distro::Alpine => seq!["apk add git sudo curl bash vim nano wget"@],
    }
}

/// Everything run to provision `env` for the user `username`: the package
/// installation of its distribution, then the creation of the (sanitized)
/// user, each command run by `sh` in the environment's container.
pub open spec fn spec_provision_plan(
    name: Seq<char>,
    image: Seq<char>,
    username: Seq<char>,
) -> Seq<Seq<Seq<char>>> {
    let container = spec_container_name(name);
    let distro = spec_detect_distro(image);
    exec_invocations(container, spec_install_commands(distro)) + exec_invocations(
        container,
        spec_user_commands(distro, sanitized(username)),
    )
}

/// Every command line of a provisioning plan runs a shell command with `sh`
/// inside the environment's own container.
pub proof fn lemma_provision_stays_in_container(
    name: Seq<char>,
    image: Seq<char>,
    username: Seq<char>,
    i: int,
)
    requires
        0 <= i < spec_provision_plan(name, image, username).len(),
    ensures
        exists|command: Seq<char>|
            spec_provision_plan(name, image, username)[i] == spec_exec_args(
                spec_container_name(name),
                command,
            ),
{
    let container = spec_container_name(name);
    let distro = spec_detect_distro(image);
    let a = spec_install_commands(distro);
    let b = spec_user_commands(distro, sanitized(username));
    let plan = spec_provision_plan(name, image, username);
    if i < a.len() {
        assert(plan[i] == spec_exec_args(container, a[i]));
    } else {
        assert(plan[i] == spec_exec_args(container, b[i - a.len()]));
    }
}

impl DockerRuntime {
    /// The arguments to `docker` that create the container of `env`.
    pub fn run_args(env: &Environment) -> (r: Vec<String>)
        ensures
            arg_views(r@) == spec_run_args(env.name@, env.image@, mount_views(env)),
    {
        let mut r: Vec<String> = Vec::new();
        push_str_arg(&mut r, "run");
        push_str_arg(&mut r, "-dit");
        push_str_arg(&mut r, "--label");
        push_str_arg(&mut r, "dev.lenv.managed=true");
        push_str_arg(&mut r, "--label");
        push_arg(&mut r, concat2("dev.lenv.name=", env.name.as_str()));
        push_str_arg(&mut r, "--name");
        push_arg(&mut r, container_name(env.name.as_str()));
        let ghost head = arg_views(r@);
        let ghost ms = mount_views(env);
        let mut i: usize = 0;
        while i < env.mounts.len()
            invariant
                i <= env.mounts.len(),
                ms == mount_views(env),
                arg_views(r@) == head + volume_args(ms.take(i as int)),
            decreases env.mounts.len() - i,
        {
            push_str_arg(&mut r, "-v");
            push_arg(&mut r, mount_arg(&env.mounts[i]));
            proof {
                let t = ms.take(i + 1);
                assert(t.drop_last() =~= ms.take(i as int));
                assert(t.last() == env.mounts@[i as int]@);
                assert(arg_views(r@) =~= head + volume_args(ms.take(i + 1)));
            }
            i += 1;
        }
        assert(ms.take(env.mounts.len() as int) =~= ms);
        push_arg(&mut r, crate::text::owned(env.image.as_str()));
        push_str_arg(&mut r, "sh");
        assert(arg_views(r@) =~= spec_run_args(env.name@, env.image@, ms));
        r
    }

    /// The arguments to `docker` that print the state of the environment's container.
    pub fn inspect_args(name: &str) -> (r: Vec<String>)
        ensures
            arg_views(r@) == spec_inspect_args(name@),
    {
        let mut r: Vec<String> = Vec::new();
        push_str_arg(&mut r, "inspect");
        push_str_arg(&mut r, "-f");
        push_str_arg(&mut r, "{{.State.Status}}");
        push_arg(&mut r, container_name(name));
        assert(arg_views(r@) =~= spec_inspect_args(name@));
        r
    }

    /// The arguments to `docker` that forcibly remove the environment's container.
    pub fn remove_args(name: &str) -> (r: Vec<String>)
        ensures
            arg_views(r@) == spec_remove_args(name@),
    {
        let mut r: Vec<String> = Vec::new();
        push_str_arg(&mut r, "rm");
        push_str_arg(&mut r, "-f");
        push_arg(&mut r, container_name(name));
        assert(arg_views(r@) =~= spec_remove_args(name@));
        r
    }

    /// The arguments to `docker` that test whether `shell` can be run in `container`.
    pub fn probe_args(container: &str, shell: &str) -> (r: Vec<String>)
        ensures
            arg_views(r@) == spec_probe_args(container@, shell@),
    {
        let mut r: Vec<String> = Vec::new();
        push_str_arg(&mut r, "exec");
        push_str_arg(&mut r, container);
        push_str_arg(&mut r, "test");
        push_str_arg(&mut r, "-x");
        push_str_arg(&mut r, shell);
        assert(arg_views(r@) =~= spec_probe_args(container@, shell@));
        r
    }

    /// The arguments to `docker` that open `shell` interactively in `container` as `user`.
    pub fn attach_args(user: &str, container: &str, shell: &str) -> (r: Vec<String>)
        ensures
            arg_views(r@) == spec_attach_args(user@, container@, shell@),
    {
        let mut r: Vec<String> = Vec::new();
        push_str_arg(&mut r, "exec");
        push_str_arg(&mut r, "-it");
        push_str_arg(&mut r, "-u");
        push_str_arg(&mut r, user);
        push_str_arg(&mut r, container);
        push_str_arg(&mut r, shell);
        assert(arg_views(r@) =~= spec_attach_args(user@, container@, shell@));
        r
    }

    /// Decides, from the outcomes of the shell probes made so far (in the
    /// order of the candidates `/bin/bash`, `/bin/sh`), what to do next: use
    /// the first candidate whose probe succeeded, probe the next candidate,
    /// or give up when all have failed.
    pub fn shell_step(outcomes: &Vec<bool>) -> (r: Result<ShellStep, LenvError>)
        ensures
            match r {
                Ok(ShellStep::Use(s)) => shell_found(outcomes@, s@),
                Ok(ShellStep::Probe(s)) => shell_to_probe(outcomes@, s@),
                Err(e) => shells_exhausted(outcomes@) && e == LenvError::NoUsableShell,
            },
    {
        if outcomes.len() > 0 && outcomes[0] {
            return Ok(ShellStep::Use(crate::text::owned("/bin/bash")));
        }
        if outcomes.len() > 1 && outcomes[1] {
            return Ok(ShellStep::Use(crate::text::owned("/bin/sh")));
        }
        if outcomes.len() == 0 {
            return Ok(ShellStep::Probe(crate::text::owned("/bin/bash")));
        }
        if outcomes.len() == 1 {
            return Ok(ShellStep::Probe(crate::text::owned("/bin/sh")));
        }
        Err(LenvError::NoUsableShell)
    }

    /// Decides, from the outcomes of the command lines of `plan` run so far
    /// (in order), what to do next: stop at the first line that failed,
    /// reporting its shell command; run the next line; or finish when every
    /// line succeeded.
    pub fn provision_step(plan: &Vec<Vec<String>>, outcomes: &Vec<bool>) -> (r: Result<
        ProvisionStep,
        LenvError,
    >)
        ensures
            match r {
                Ok(ProvisionStep::Run(k)) => {
                    &&& k == outcomes.len()
                    &&& k < plan.len()
                    &&& forall|j: int| 0 <= j < k ==> outcomes@[j]
                },
                Ok(ProvisionStep::Done) => {
                    &&& outcomes.len() >= plan.len()
                    &&& forall|j: int| 0 <= j < plan.len() ==> outcomes@[j]
                },
                Err(e) => exists|k: int|
                    0 <= k < outcomes.len() && k < plan.len() && !outcomes@[k] && (forall|j: int|
                        0 <= j < k ==> outcomes@[j]) && (e matches LenvError::CommandFailed(c)
                        && c@ == line_command(plan_views(plan@)[k])),
            },
    {
        let mut j: usize = 0;
        while j < outcomes.len() && j < plan.len()
            invariant
                j <= outcomes.len(),
                j <= plan.len(),
                forall|i: int| 0 <= i < j ==> outcomes@[i],
            decreases plan.len() - j,
        {
            if !outcomes[j] {
                let line = &plan[j];
                let command = if line.len() > 0 {
                    line[line.len() - 1].clone()
                } else {
                    String::new()
                };
                proof {
                    let lv = plan_views(plan@)[j as int];
                    assert(lv == arg_views(line@));
                    if line.len() > 0 {
                        assert(lv.last() == line@.last()@);
                    }
                    assert(command@ == line_command(lv));
                }
                return Err(LenvError::CommandFailed(command));
            }
            j += 1;
        }
        if outcomes.len() < plan.len() {
            Ok(ProvisionStep::Run(outcomes.len()))
        } else {
            Ok(ProvisionStep::Done)
        }
    }

    /// Decides the next step of entering an environment, from what is known
    /// so far: the state of its container once asked for, whether starting
    /// it succeeded once tried, and the outcomes of the shell probes made.
    /// The state is asked for first; a missing container is an error; a
    /// stopped one is started, and a failed start is an error; then the
    /// shells are probed in order, and the first that can be run is opened.
    pub fn enter_step(
        state: Option<ContainerState>,
        started: Option<bool>,
        probes: &Vec<bool>,
    ) -> (r: Result<EnterAction, LenvError>)
        ensures
            match state {
                None => r == Ok::<EnterAction, LenvError>(EnterAction::QueryState),
                Some(ContainerState::Missing) => r == Err::<EnterAction, LenvError>(
                    LenvError::EnvironmentMissing,
                ),
                Some(ContainerState::Stopped) if started is None => r == Ok::<
                    EnterAction,
                    LenvError,
                >(EnterAction::Start),
                Some(ContainerState::Stopped) if started == Some(false) => r == Err::<
                    EnterAction,
                    LenvError,
                >(LenvError::StartFailed),
                _ => match r {
                    Ok(EnterAction::Probe(s)) => shell_to_probe(probes@, s@),
                    Ok(EnterAction::Attach(s)) => shell_found(probes@, s@),
                    Ok(_) => false,
                    Err(e) => shells_exhausted(probes@) && e == LenvError::NoUsableShell,
                },
            },
    {
        match state {
            None => return Ok(EnterAction::QueryState),
            Some(ContainerState::Missing) => return Err(LenvError::EnvironmentMissing),
            Some(ContainerState::Stopped) => match started {
                None => return Ok(EnterAction::Start),
                Some(false) => return Err(LenvError::StartFailed),
                Some(true) => {},
            },
            Some(ContainerState::Running) => {},
        }
        match Self::shell_step(probes) {
            Ok(ShellStep::Probe(s)) => Ok(EnterAction::Probe(s)),
            Ok(ShellStep::Use(s)) => Ok(EnterAction::Attach(s)),
            Err(e) => Err(e),
        }
    }

    /// The result of creating a container, from whether `docker run` succeeded.
    pub fn create_outcome(success: bool) -> (r: Result<(), LenvError>)
        ensures
            r == (if success {
                Ok(())
            } else {
                Err(LenvError::CreateFailed)
            }),
    {
        if success {
            Ok(())
        } else {
            Err(LenvError::CreateFailed)
        }
    }

    /// The result of removing a container, from whether `docker rm` succeeded.
    pub fn remove_outcome(success: bool) -> (r: Result<(), LenvError>)
        ensures
            r == (if success {
                Ok(())
            } else {
                Err(LenvError::RemoveFailed)
            }),
    {
        if success {
            Ok(())
        } else {
            Err(LenvError::RemoveFailed)
        }
    }

    /// One row of the `lenv list` table for an environment in `state`.
    pub fn list_row(name: &str, state: ContainerState, image: &str) -> (r: String)
        ensures
            r@ == spec_list_row(name@, state, image@),
    {
        let mut r = pad_right_exec(name, 15);
        r.append(" ");
        r.append(state.label());
        r.append(" ");
        let i = pad_right_exec(image, 25);
        r.append(i.as_str());
        r
    }

    /// The heading row of the `lenv list` table.
    pub fn list_header() -> (r: String)
        ensures
            r@ == spec_list_header(),
    {
        let mut r = pad_right_exec("NAME", 15);
        r.append(" ");
        let s = pad_right_exec("STATUS", 12);
        r.append(s.as_str());
        r.append(" ");
        let i = pad_right_exec("IMAGE", 25);
        r.append(i.as_str());
        r
    }

    /// The `docker` command lines that provision `env` for the user
    /// `username`, to be run in order until one fails.
    pub fn provision_plan(env: &Environment, username: &str) -> (r: Vec<Vec<String>>)
        ensures
            plan_views(r@) == spec_provision_plan(env.name@, env.image@, username@),
    {
        let container = container_name(env.name.as_str());
        let distro = detect_distro(env.image.as_str());
        let user = sanitize_username(username);
        let mut r: Vec<Vec<String>> = Vec::new();
        match distro {
            Distro::Arch => {
                push_line(
                    &mut r,
                    exec_args(
                        container.as_str(),
                        "pacman -Sy --noconfirm git sudo curl bash vim nano wget",
                    ),
                );
            },
            Distro::Ubuntu => {
                push_line(&mut r, exec_args(container.as_str(), "apt update"));
                push_line(
                    &mut r,
                    exec_args(container.as_str(), "apt install -y git sudo curl bash vim nano wget"),
                );
            },
            Distro::Alpine => {
                push_line(
                    &mut r,
                    exec_args(container.as_str(), "apk add git sudo curl bash vim nano wget"),
                );
            },
        }
        let ghost install = plan_views(r@);
        assert(install =~= exec_invocations(container@, spec_install_commands(distro)));
        let users = create_user(container.as_str(), &distro, user.as_str());
        let ghost user_lines = plan_views(users@);
        let mut i: usize = 0;
        while i < users.len()
            invariant
                i <= users.len(),
                user_lines == plan_views(users@),
                plan_views(r@) == install + user_lines.take(i as int),
            decreases users.len() - i,
        {
            let line = crate::args::clone_line(&users[i]);
            push_line(&mut r, line);
            assert(user_lines.take(i + 1) =~= user_lines.take(i as int).push(user_lines[i as int]));
            i += 1;
        }
        assert(user_lines.take(users.len() as int) =~= user_lines);
        r
    }
}

} // verus!
