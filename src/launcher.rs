//! How a tile's shell command is started on each platform.

use vstd::prelude::*;

verus! {

/// The helper script, relative to the application's resource directory,
/// that starts a command on Linux and moves its window.
pub const LAUNCH_HELPER: &'static str = "bundled-bin/launch_and_move.sh";

/// The platform families that start commands differently.
#[derive(Clone, Copy, Debug, PartialEq, Eq)]
pub enum Platform {
    /// Through `cmd /C`.
    Windows,
    /// Through `sh -c`, handed to the bundled helper script.
    Linux,
    /// Through `sh -c`.
    Other,
}

/// A process to start: a program and its arguments.
#[derive(Clone, Debug, PartialEq, Eq)]
pub struct ProcessCall {
    pub program: String,
    pub args: Vec<String>,
}

impl View for ProcessCall {
    type V = (Seq<char>, Seq<Seq<char>>);

    open spec fn view(&self) -> (Seq<char>, Seq<Seq<char>>) {
        (self.program@, self.args.deep_view())
    }
}

/// What starting a command takes: an optional preparatory process, whose
/// outcome does not matter, then the launch itself.
#[derive(Clone, Debug, PartialEq, Eq)]
pub struct LaunchPlan {
    pub prepare: Option<ProcessCall>,
    pub launch: ProcessCall,
}

/// The process that hands `command` to the platform's shell; `helper` is the
/// path of the helper script, used on Linux only.
pub open spec fn launch_call(platform: Platform, command: Seq<char>, helper: Seq<char>) -> (
    Seq<char>,
    Seq<Seq<char>>,
) {
    match platform {
        Platform::Windows => ("cmd"@, seq!["/C"@, command]),
        Platform::Linux => (helper, seq!["sh"@, "-c"@, command]),
        Platform::Other => ("sh"@, seq!["-c"@, command]),
    }
}

/// The process run before the launch: on Linux, making the helper executable.
pub open spec fn prepare_call(platform: Platform, helper: Seq<char>) -> Option<
    (Seq<char>, Seq<Seq<char>>),
> {
    match platform {
        Platform::Linux => Some(("chmod"@, seq!["+x"@, helper])),
        _ => None,
    }
}

/// A process call with an owned copy of the program name.
fn call(program: &str, args: Vec<String>) -> (r: ProcessCall)
    ensures
        r@ == (program@, args.deep_view()),
{
    ProcessCall { program: String::from_str(program), args }
}

/// An argument list of two strings.
fn args2(a: &str, b: &str) -> (r: Vec<String>)
    ensures
        r.deep_view() == seq![a@, b@],
{
    let mut v: Vec<String> = Vec::new();
    v.push(String::from_str(a));
    v.push(String::from_str(b));
    assert(v.deep_view() =~= seq![a@, b@]);
    v
}

/// Plans the start of a shell command line: the whole string goes to the
/// shell, so its metacharacters keep their meaning.
pub fn launch_plan(platform: Platform, command: &str, helper: &str) -> (r: LaunchPlan)
    ensures
        r.launch@ == launch_call(platform, command@, helper@),
        r.prepare is Some <==> prepare_call(platform, helper@) is Some,
        r.prepare is Some ==> r.prepare->0@ == prepare_call(platform, helper@)->0,
{
    match platform {
        Platform::Windows => LaunchPlan { prepare: None, launch: call("cmd", args2("/C", command)) },
        Platform::Linux => {
            let mut args = args2("sh", "-c");
            let ghost before = args.deep_view();
            args.push(String::from_str(command));
            assert(args.deep_view() =~= before.push(command@));
            assert(args.deep_view() =~= seq!["sh"@, "-c"@, command@]);
            LaunchPlan {
                prepare: Some(call("chmod", args2("+x", helper))),
                launch: call(helper, args),
            }
        },
        Platform::Other => LaunchPlan { prepare: None, launch: call("sh", args2("-c", command)) },
    }
}

} // verus!
