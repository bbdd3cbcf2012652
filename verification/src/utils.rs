//! Privilege routing and external-command bookkeeping: which program and
//! argument vector escalate a command to administrative rights, and how an
//! exit status maps to a reported outcome.

use vstd::prelude::*;
use crate::text::{spec_decimal_signed, i32_to_decimal};

verus! {

/// A program name together with the arguments it is to be invoked with.
#[derive(Debug)]
pub struct CommandSpec {
    pub program: String,
    pub args: Vec<String>,
}

/// A failed external command: the program, its arguments, and the exit
/// status (`None` when the process could not be spawned or was killed
/// before it could report one).
#[derive(Debug)]
pub struct CommandError {
    pub program: String,
    pub args: Vec<String>,
    pub status: Option<i32>,
}

/// Relies on std::path::Path::exists. The result probes the filesystem,
/// so nothing is promised of it.
#[verifier::external_body]
fn path_exists(path: &str) -> bool {
    std::path::Path::new(path).exists()
}

/// Whether this process runs inside a Flatpak sandbox, decided by the
/// well-known marker file the sandbox mounts at its root.
pub fn is_flatpak() -> bool {
    path_exists("/.flatpak-info")
}

/// Copy a vector of strings.
pub fn clone_strings(v: &Vec<String>) -> (r: Vec<String>)
    ensures
        r.deep_view() == v.deep_view(),
{
    let mut r: Vec<String> = Vec::new();
    let mut i: usize = 0;
    while i < v.len()
        invariant
            0 <= i <= v.len(),
            r@.len() == i,
            forall|k: int| 0 <= k < i ==> r@[k]@ == v@[k]@,
        decreases v.len() - i,
    {
        r.push(v[i].clone());
        i = i + 1;
    }
    proof {
        assert forall|k: int| 0 <= k < v@.len() implies r.deep_view()[k] == v.deep_view()[k] by {
            assert(r@[k]@ == v@[k]@);
        }
        assert(r.deep_view() =~= v.deep_view());
    }
    r
}

/// The command that runs `program args` with administrative rights.
/// Inside a sandbox the invocation first escapes to the host through
/// `flatpak-spawn --host` and escalates there with `pkexec`; outside it
/// invokes `pkexec` directly. Either way the escalation mechanism prompts
/// through the platform's authentication agent.
pub fn privileged_command(sandboxed: bool, program: &str, args: &Vec<String>) -> (r: CommandSpec)
    ensures
        sandboxed ==> r.program@ == "flatpak-spawn"@ && r.args.deep_view() == seq![
            "--host"@,
            "pkexec"@,
            program@,
        ] + args.deep_view(),
        !sandboxed ==> r.program@ == "pkexec"@ && r.args.deep_view() == seq![program@]
            + args.deep_view(),
{
    let mut v: Vec<String> = Vec::new();
    let prog: String;
    if sandboxed {
        prog = String::from_str("flatpak-spawn");
        v.push(String::from_str("--host"));
        v.push(String::from_str("pkexec"));
    } else {
        prog = String::from_str("pkexec");
    }
    v.push(String::from_str(program));
    let ghost head: Seq<Seq<char>> = if sandboxed {
        seq!["--host"@, "pkexec"@, program@]
    } else {
        seq![program@]
    };
    proof {
        assert(v@.len() == head.len());
        assert(forall|k: int| 0 <= k < v@.len() ==> v@[k]@ == head[k]);
    }
    let mut i: usize = 0;
    while i < args.len()
        invariant
            0 <= i <= args.len(),
            v@.len() == head.len() + i,
            forall|k: int| 0 <= k < head.len() ==> v@[k]@ == head[k],
            forall|k: int| 0 <= k < i ==> v@[head.len() + k]@ == args@[k]@,
        decreases args.len() - i,
    {
        v.push(args[i].clone());
        i = i + 1;
    }
    proof {
        let goal = head + args.deep_view();
        assert forall|k: int| 0 <= k < v@.len() implies v.deep_view()[k] == goal[k] by {
            if k < head.len() {
                assert(v@[k]@ == head[k]);
            } else {
                assert(v@[k]@ == args@[k - head.len()]@);
            }
        }
        assert(v.deep_view() =~= goal);
    }
    CommandSpec { program: prog, args: v }
}

/// The message a failed command is reported with.
pub open spec fn spec_command_error_message(program: Seq<char>, status: Option<i32>) -> Seq<char> {
    match status {
        Some(code) => "Command "@ + program + " failed with exit status "@ + spec_decimal_signed(
            code as int,
        ),
        None => "Failed to run command: "@ + program,
    }
}

impl CommandError {
    /// The human-readable text this failure is surfaced with.
    pub fn message(&self) -> (r: String)
        ensures
            r@ == spec_command_error_message(self.program@, self.status),
    {
        let mut r = String::new();
        match self.status {
            Some(code) => {
                r.append("Command ");
                r.append(self.program.as_str());
                r.append(" failed with exit status ");
                let d = i32_to_decimal(code);
                r.append(d.as_str());
            },
            None => {
                r.append("Failed to run command: ");
                r.append(self.program.as_str());
            },
        }
        r
    }
}

/// Map the observed exit status of `program args` to an outcome: success
/// exactly on a reported status of zero, and otherwise an error carrying
/// the program, its arguments, and the status.
pub fn command_result(program: &str, args: &Vec<String>, status: Option<i32>) -> (r: Result<
    (),
    CommandError,
>)
    ensures
        r is Ok <==> status == Some(0i32),
        r is Err ==> r->Err_0.program@ == program@ && r->Err_0.args.deep_view()
            == args.deep_view() && r->Err_0.status == status,
{
    match status {
        Some(code) => {
            if code == 0 {
                Ok(())
            } else {
                Err(
                    CommandError {
                        program: String::from_str(program),
                        args: clone_strings(args),
                        status: Some(code),
                    },
                )
            }
        },
        None => {
            Err(
                CommandError {
                    program: String::from_str(program),
                    args: clone_strings(args),
                    status: None,
                },
            )
        },
    }
}

} // verus!
