//! What every container runtime offers, and the naming and state rules
//! shared by all of them.
use vstd::prelude::*;

use crate::env::Environment;
use crate::error::LenvError;
use crate::text::{
    all_whitespace, concat2, lemma_trim_ignores_surrounding_whitespace, is_whitespace, trim, trim_end, trim_start,
    trimmed_equals,
};

verus! {

/// The prefix that marks the containers this tool manages.
pub open spec fn container_prefix() -> Seq<char> {
    "lenv-"@
}

/// The container that hosts the environment `name`.
pub open spec fn spec_container_name(name: Seq<char>) -> Seq<char> {
    container_prefix() + name
}

/// The name of the container that hosts the environment `name`: `lenv-` followed by the name.
pub fn container_name(name: &str) -> (r: String)
    ensures
        r@ == spec_container_name(name@),
{
    concat2("lenv-", name)
}

/// Distinct environments live in distinct containers.
pub proof fn lemma_container_name_injective(a: Seq<char>, b: Seq<char>)
    requires
        spec_container_name(a) == spec_container_name(b),
    ensures
        a == b,
{
    let p = container_prefix();
    assert(a =~= spec_container_name(a).subrange(p.len() as int, spec_container_name(a).len() as int));
    assert(b =~= spec_container_name(b).subrange(p.len() as int, spec_container_name(b).len() as int));
}

/// The state of an environment's container.
#[derive(Debug, Clone, Copy, PartialEq, Eq, Structural)]
pub enum ContainerState {
    /// The container is running.
    Running,
    /// The container exists but is not running.
    Stopped,
    /// There is no such container.
    Missing,
}

impl ContainerState {
    /// The word shown for this state.
    pub open spec fn spec_label(&self) -> Seq<char> {
        match self {
            ContainerState::Running => "running"@,
            ContainerState::Stopped => "stopped"@,
            ContainerState::Missing => "missing"@,
        }
    }

    /// The word shown for this state: `running`, `stopped` or `missing`.
    pub fn label(&self) -> (r: &'static str)
        ensures
            r@ == self.spec_label(),
    {
        match self {
            ContainerState::Running => "running",
            ContainerState::Stopped => "stopped",
            ContainerState::Missing => "missing",
        }
    }
}

/// The state that `docker inspect` reports: a failed inspection means there
/// is no container; otherwise the container runs exactly when the reported
/// status, without surrounding whitespace, is `running`.
pub open spec fn spec_state_from_inspect(success: bool, status: Seq<char>) -> ContainerState {
    if !success {
        ContainerState::Missing
    } else if trim(status) == "running"@ {
        ContainerState::Running
    } else {
        ContainerState::Stopped
    }
}

/// Reads the state of a container from the outcome of `docker inspect`:
/// whether the command succeeded, and the status it printed.
pub fn state_from_inspect(success: bool, status: &str) -> (r: ContainerState)
    ensures
        r == spec_state_from_inspect(success, status@),
{
    if !success {
        ContainerState::Missing
    } else if trimmed_equals(status, "running") {
        ContainerState::Running
    } else {
        ContainerState::Stopped
    }
}

/// The state read from `docker inspect` does not depend on whitespace around
/// the printed status (such as the newline it ends with).
pub proof fn lemma_state_ignores_surrounding_whitespace(
    success: bool,
    before: Seq<char>,
    status: Seq<char>,
    after: Seq<char>,
)
    requires
        all_whitespace(before),
        all_whitespace(after),
    ensures
        spec_state_from_inspect(success, before + status + after) == spec_state_from_inspect(
            success,
            status,
        ),
{
    lemma_trim_ignores_surrounding_whitespace(before, status, after);
}

/// A failed inspection means the container is missing, whatever was
/// printed; a successful one never does. A successful inspection that
/// printed exactly `running`, possibly followed by a newline, means the
/// container runs; one that printed `exited` means it is stopped.
pub proof fn lemma_inspect_outcomes(status: Seq<char>)
    ensures
        spec_state_from_inspect(false, status) == ContainerState::Missing,
        spec_state_from_inspect(true, status) != ContainerState::Missing,
        spec_state_from_inspect(true, seq!['r', 'u', 'n', 'n', 'i', 'n', 'g'])
            == ContainerState::Running,
        spec_state_from_inspect(true, seq!['r', 'u', 'n', 'n', 'i', 'n', 'g', '\n'])
            == ContainerState::Running,
        spec_state_from_inspect(true, seq!['e', 'x', 'i', 't', 'e', 'd', '\n'])
            == ContainerState::Stopped,
{
    reveal_strlit("running");
    let r = seq!['r', 'u', 'n', 'n', 'i', 'n', 'g'];
    assert("running"@ =~= r);
    assert(trim_start(r) == r);
    assert(trim_end(r) == r);
    let rn = r.push('\n');
    assert(rn =~= seq!['r', 'u', 'n', 'n', 'i', 'n', 'g', '\n']);
    assert(rn.drop_first() =~= seq!['u', 'n', 'n', 'i', 'n', 'g', '\n']);
    assert(trim_start(rn) == rn);
    assert(rn.drop_last() =~= r);
    assert(rn.len() > 0 && rn.last() == '\n');
    assert(('\n' as u32) == 10);
    assert(is_whitespace(rn.last()));
    assert(trim_end(rn) == trim_end(r));
    assert(trim(rn) == r);
    let e = seq!['e', 'x', 'i', 't', 'e', 'd', '\n'];
    assert(trim_start(e) == e);
    assert(e.drop_last() =~= seq!['e', 'x', 'i', 't', 'e', 'd']);
    assert(trim_end(seq!['e', 'x', 'i', 't', 'e', 'd']) == seq!['e', 'x', 'i', 't', 'e', 'd']);
    assert(trim(e).len() == 6);
}

/// After a successful inspection, the container runs exactly when the
/// printed status, with surrounding whitespace removed, is `running`.
pub proof fn lemma_running_exactly_when_reported(status: Seq<char>)
    ensures
        spec_state_from_inspect(true, status) == ContainerState::Running <==> trim(status)
            == seq!['r', 'u', 'n', 'n', 'i', 'n', 'g'],
        spec_state_from_inspect(true, status) == ContainerState::Stopped <==> trim(status)
            != seq!['r', 'u', 'n', 'n', 'i', 'n', 'g'],
{
    reveal_strlit("running");
    assert("running"@ =~= seq!['r', 'u', 'n', 'n', 'i', 'n', 'g']);
}

/// The operations a container runtime offers on environments.
pub trait Runtime {
    /// Creates the container of a new environment.
    fn create(&self, env: &Environment) -> Result<(), LenvError>;

    /// Opens an interactive shell in the environment, starting it first if it is stopped.
    fn enter(&self, name: &str) -> Result<(), LenvError>;

    /// Removes the environment's container.
    fn remove(&self, name: &str) -> Result<(), LenvError>;

    /// Stops the environment's container.
    fn stop(&self, name: &str) -> Result<(), LenvError>;

    /// Starts the environment's container.
    fn start(&self, name: &str) -> Result<(), LenvError>;

    /// Restarts the environment's container.
    fn restart(&self, name: &str) -> Result<(), LenvError>;

    /// The state of the environment's container.
    fn state(&self, name: &str) -> Result<ContainerState, LenvError>;

    /// Prints a table of all environments with their states and images.
    fn list(&self) -> Result<(), LenvError>;

    /// Installs basic packages in the environment and creates the user's account there.
    fn provision(&self, env: &Environment) -> Result<(), LenvError>;
}

} // verus!
