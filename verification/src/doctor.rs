//! The checks of `lenv doctor`, and what is reported for each outcome.
use vstd::prelude::*;

use crate::args::{arg_views, push_str_arg};
use crate::text::{owned, str_equals};

verus! {

/// One of the checks that `lenv doctor` runs, in this order.
#[derive(Debug, Clone, Copy, PartialEq, Eq, Structural)]
pub enum DoctorCheck {
    /// Whether the `docker` command can be run.
    DockerInstalled,
    /// Whether the Docker daemon answers.
    DaemonRunning,
    /// Whether the metadata directory can be created.
    MetadataWritable,
}

/// What is reported for one check.
#[derive(Debug, PartialEq, Eq)]
pub struct CheckReport {
    /// Whether the check passed.
    pub passed: bool,
    /// The line that closes the check.
    pub message: String,
    /// Advice printed below a failed check.
    pub hints: Vec<String>,
    /// How many spaces the advice is indented by.
    pub hint_indent: usize,
}

/// The advice for a missing Docker installation.
pub open spec fn install_hint() -> Seq<char> {
    "You must install Docker, either by installing Docker Desktop and configuring it or you can use Colima (Container on Lima (Linux Machines)) on macOS to start Docker daemon."@
}

/// The advice for a Docker daemon that does not answer.
pub open spec fn daemon_hint() -> Seq<char> {
    "Docker daemon must be running. If it's not, Open Docker Desktop"@
}

/// The extra advice for a stopped daemon on macOS.
pub open spec fn macos_hint() -> Seq<char> {
    "It appears you are running macOS. You can also use Colima to start a Docker context without the size of Docker Desktop"@
}

/// The extra advice for a stopped daemon on Linux.
pub open spec fn linux_hint() -> Seq<char> {
    "It appears you are running Linux. You can also use the Docker from your package manager, though it's not recommended"@
}

impl DoctorCheck {
    /// The line shown while the check runs.
    pub open spec fn spec_title(&self) -> Seq<char> {
        match self {
            DoctorCheck::DockerInstalled => "Checking Docker installation..."@,
            DoctorCheck::DaemonRunning => "Checking Docker daemon..."@,
            DoctorCheck::MetadataWritable => "Checking metadata directory..."@,
        }
    }

    /// The line that closes the check.
    pub open spec fn spec_message(&self, passed: bool) -> Seq<char> {
        match (self, passed) {
            (DoctorCheck::DockerInstalled, true) => "✓ Docker installed"@,
            (DoctorCheck::DockerInstalled, false) => "✗ Docker not installed"@,
            (DoctorCheck::DaemonRunning, true) => "✓ Docker daemon running"@,
            (DoctorCheck::DaemonRunning, false) => "✗ Docker daemon not running"@,
            (DoctorCheck::MetadataWritable, true) => "✓ Metadata directory writable"@,
            (DoctorCheck::MetadataWritable, false) => "✗ Metadata directory not writable"@,
        }
    }

    /// The advice given after the check, on the operating system `os`
    /// (as `std::env::consts::OS` names it).
    pub open spec fn spec_hints(&self, passed: bool, os: Seq<char>) -> Seq<Seq<char>> {
        if passed {
            seq![]
        } else {
            match self {
                DoctorCheck::DockerInstalled => seq![install_hint()],
                DoctorCheck::DaemonRunning => if os == "macos"@ {
                    seq![daemon_hint(), macos_hint()]
                } else if os == "linux"@ {
                    seq![daemon_hint(), linux_hint()]
                } else {
                    seq![daemon_hint()]
                },
                DoctorCheck::MetadataWritable => seq![],
            }
        }
    }

    /// How far the advice of this check is indented.
    pub open spec fn spec_hint_indent(&self) -> nat {
        match self {
            DoctorCheck::DockerInstalled => 2,
            _ => 4,
        }
    }

    /// The line shown while the check runs.
    pub fn title(&self) -> (r: &'static str)
        ensures
            r@ == self.spec_title(),
    {
        match self {
            DoctorCheck::DockerInstalled => "Checking Docker installation...",
            DoctorCheck::DaemonRunning => "Checking Docker daemon...",
            DoctorCheck::MetadataWritable => "Checking metadata directory...",
        }
    }

    /// What is reported when the check passed or failed, on the operating system `os`.
    pub fn report(&self, passed: bool, os: &str) -> (r: CheckReport)
        ensures
            r.passed == passed,
            r.message@ == self.spec_message(passed),
            arg_views(r.hints@) == self.spec_hints(passed, os@),
            r.hint_indent == self.spec_hint_indent(),
    {
        let message = match (self, passed) {
            (DoctorCheck::DockerInstalled, true) => owned("✓ Docker installed"),
            (DoctorCheck::DockerInstalled, false) => owned("✗ Docker not installed"),
            (DoctorCheck::DaemonRunning, true) => owned("✓ Docker daemon running"),
            (DoctorCheck::DaemonRunning, false) => owned("✗ Docker daemon not running"),
            (DoctorCheck::MetadataWritable, true) => owned("✓ Metadata directory writable"),
            (DoctorCheck::MetadataWritable, false) => owned("✗ Metadata directory not writable"),
        };
        let mut hints: Vec<String> = Vec::new();
        if !passed {
            match self {
                DoctorCheck::DockerInstalled => {
                    push_str_arg(
                        &mut hints,
                        "You must install Docker, either by installing Docker Desktop and configuring it or you can use Colima (Container on Lima (Linux Machines)) on macOS to start Docker daemon.",
                    );
                },
                DoctorCheck::DaemonRunning => {
                    push_str_arg(
                        &mut hints,
                        "Docker daemon must be running. If it's not, Open Docker Desktop",
                    );
                    if str_equals(os, "macos") {
                        push_str_arg(
                            &mut hints,
                            "It appears you are running macOS. You can also use Colima to start a Docker context without the size of Docker Desktop",
                        );
                    } else if str_equals(os, "linux") {
                        push_str_arg(
                            &mut hints,
                            "It appears you are running Linux. You can also use the Docker from your package manager, though it's not recommended",
                        );
                    }
                },
                DoctorCheck::MetadataWritable => {},
            }
        }
        let hint_indent: usize = match self {
            DoctorCheck::DockerInstalled => 2,
            _ => 4,
        };
        assert(arg_views(hints@) =~= self.spec_hints(passed, os@));
        CheckReport { passed, message, hints, hint_indent }
    }
}

/// Advice follows only a failed check, never the metadata check; a missing
/// installation gets one piece of advice; a daemon that does not answer gets
/// the daemon advice first, followed by one piece more on macOS and on Linux
/// (different for the two) and by nothing else on other systems.
pub proof fn lemma_check_hints(check: DoctorCheck, passed: bool, os: Seq<char>)
    ensures
        passed ==> check.spec_hints(passed, os).len() == 0,
        check == DoctorCheck::MetadataWritable ==> check.spec_hints(passed, os).len() == 0,
        (check == DoctorCheck::DockerInstalled && !passed) ==> check.spec_hints(passed, os).len()
            == 1,
        (check == DoctorCheck::DaemonRunning && !passed) ==> {
            &&& check.spec_hints(passed, os)[0] == daemon_hint()
            &&& check.spec_hints(passed, os).len() == (if os == seq!['m', 'a', 'c', 'o', 's']
                || os == seq!['l', 'i', 'n', 'u', 'x'] {
                2int
            } else {
                1int
            })
        },
        DoctorCheck::DaemonRunning.spec_hints(false, seq!['m', 'a', 'c', 'o', 's'])[1]
            != DoctorCheck::DaemonRunning.spec_hints(false, seq!['l', 'i', 'n', 'u', 'x'])[1],
{
    reveal_strlit("macos");
    reveal_strlit("linux");
    assert("macos"@ =~= seq!['m', 'a', 'c', 'o', 's']);
    assert("linux"@ =~= seq!['l', 'i', 'n', 'u', 'x']);
    reveal_strlit("It appears you are running macOS. You can also use Colima to start a Docker context without the size of Docker Desktop");
    reveal_strlit("It appears you are running Linux. You can also use the Docker from your package manager, though it's not recommended");
    assert(macos_hint().len() != linux_hint().len());
}

/// The closing lines of the checks tell them apart: the six (check,
/// outcome) pairs have six different lines; a line starts with `✓` exactly
/// when its check passed and with `✗` when it failed; and it names its
/// check: the line of the daemon check that passed is `✓ Docker daemon running`.
pub proof fn lemma_check_messages(a: DoctorCheck, pa: bool, b: DoctorCheck, pb: bool)
    ensures
        (a != b || pa != pb) ==> a.spec_message(pa) != b.spec_message(pb),
        a.spec_message(pa).len() > 0,
        a.spec_message(pa)[0] == (if pa {
            '\u{2713}'
        } else {
            '\u{2717}'
        }),
        DoctorCheck::DaemonRunning.spec_message(true) == seq![
            '\u{2713}',
            ' ',
            'D',
            'o',
            'c',
            'k',
            'e',
            'r',
            ' ',
            'd',
            'a',
            'e',
            'm',
            'o',
            'n',
            ' ',
            'r',
            'u',
            'n',
            'n',
            'i',
            'n',
            'g',
        ],
{
    reveal_strlit("✓ Docker installed");
    reveal_strlit("✗ Docker not installed");
    reveal_strlit("✓ Docker daemon running");
    reveal_strlit("✗ Docker daemon not running");
    reveal_strlit("✓ Metadata directory writable");
    reveal_strlit("✗ Metadata directory not writable");
    assert("✓ Docker daemon running"@ =~= seq![
        '\u{2713}',
        ' ',
        'D',
        'o',
        'c',
        'k',
        'e',
        'r',
        ' ',
        'd',
        'a',
        'e',
        'm',
        'o',
        'n',
        ' ',
        'r',
        'u',
        'n',
        'n',
        'i',
        'n',
        'g',
    ]);
    if a != b || pa != pb {
        assert(a.spec_message(pa).len() != b.spec_message(pb).len());
    }
}

} // verus!
