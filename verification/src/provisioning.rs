//! The accounts created for the user inside a new environment.
use vstd::prelude::*;

use crate::args::{plan_views, push_line};
use crate::docker::{exec_args, exec_invocations, Distro};
use crate::text::{concat2, concat3};

verus! {

/// The shell commands that give `user` an account with password-less
/// `sudo`, by distribution. On Arch only the `wheel` group is granted
/// password-less `sudo`.
pub open spec fn spec_user_commands(distro: Distro, user: Seq<char>) -> Seq<Seq<char>> {
    match distro {
        Distro::Ubuntu => seq![
            "id -u "@ + user + " >/dev/null 2>&1 || useradd -m -s /bin/bash "@ + user,
            "usermod -aG sudo "@ + user,
            "echo '%sudo ALL=(ALL:ALL) NOPASSWD: ALL' > /etc/sudoers.d/lenv && chmod 440 /etc/sudoers.d/lenv"@,
        ],
        Distro::Arch => seq![
            "sed -i 's/^# %wheel ALL=(ALL:ALL) NOPASSWD: ALL/%wheel ALL=(ALL:ALL) NOPASSWD: ALL/' /etc/sudoers"@,
        ],
        Distro::Alpine => seq![
            "id -u "@ + user + " >/dev/null 2>&1 || adduser -D "@ + user,
            "addgroup "@ + user + " wheel"@,
            "echo '%wheel ALL=(ALL) NOPASSWD:ALL ALL' >> /etc/sudoers"@,
        ],
    }
}

/// The `docker` command lines that create the account of `username` in
/// `container`, to be run in order until one fails.
pub fn create_user(container: &str, distro: &Distro, username: &str) -> (r: Vec<Vec<String>>)
    ensures
        plan_views(r@) == exec_invocations(container@, spec_user_commands(*distro, username@)),
{
    let mut r: Vec<Vec<String>> = Vec::new();
    match distro {
        Distro::Ubuntu => {
            let mut add = concat3("id -u ", username, " >/dev/null 2>&1 || useradd -m -s /bin/bash ");
            add.append(username);
            push_line(&mut r, exec_args(container, add.as_str()));
            push_line(&mut r, exec_args(container, concat2("usermod -aG sudo ", username).as_str()));
            push_line(
                &mut r,
                exec_args(
                    container,
                    "echo '%sudo ALL=(ALL:ALL) NOPASSWD: ALL' > /etc/sudoers.d/lenv && chmod 440 /etc/sudoers.d/lenv",
                ),
            );
        },
        Distro::Arch => {
            push_line(
                &mut r,
                exec_args(
                    container,
                    "sed -i 's/^# %wheel ALL=(ALL:ALL) NOPASSWD: ALL/%wheel ALL=(ALL:ALL) NOPASSWD: ALL/' /etc/sudoers",
                ),
            );
        },
        Distro::Alpine => {
            let mut add = concat3("id -u ", username, " >/dev/null 2>&1 || adduser -D ");
            add.append(username);
            push_line(&mut r, exec_args(container, add.as_str()));
            push_line(&mut r, exec_args(container, concat3("addgroup ", username, " wheel").as_str()));
            push_line(
                &mut r,
                exec_args(container, "echo '%wheel ALL=(ALL) NOPASSWD:ALL ALL' >> /etc/sudoers"),
            );
        },
    }
    assert(plan_views(r@) =~= exec_invocations(container@, spec_user_commands(*distro, username@)));
    r
}

} // verus!
