//! The commands of the remote driving protocol: the lines written to the
//! driving shell, and the arguments of the platform's command-line tool.

use crate::text::{chars_of, extend_chars, string_of, texts};
use vstd::prelude::*;

verus! {

/// The rows of the pseudo-terminal that a hook-interceptor session is bound to.
pub const TERMINAL_ROWS: u16 = 24;

/// The columns of the pseudo-terminal that a hook-interceptor session is bound to.
pub const TERMINAL_COLUMNS: u16 = 80;

/// The line that has the multiplexer session `unit` print the remote environment.
pub open spec fn environment_request_line(unit: Seq<char>) -> Seq<char> {
    "tmux send-keys -t "@ + unit + " \"env\" ENTER\n"@
}

/// The line that has the multiplexer session `unit` run `script` and then leave
/// the session.
pub open spec fn injection_line(unit: Seq<char>, script: Seq<char>) -> Seq<char> {
    "tmux send-keys -t "@ + unit + " \""@ + script + "; exit\" ENTER\n"@
}

/// The line that ends the driving shell.
pub open spec fn exit_line() -> Seq<char> {
    "exit\n"@
}

/// The arguments that open the hook-interceptor session of `unit`.
pub open spec fn interceptor_args(unit: Seq<char>) -> Seq<Seq<char>> {
    seq!["debug-hooks"@, unit]
}

/// The arguments that open the driving shell on `unit`.
pub open spec fn shell_args(unit: Seq<char>) -> Seq<Seq<char>> {
    seq!["ssh"@, unit, "bash"@]
}

/// The arguments that kill the multiplexer session named after `unit`.
pub open spec fn kill_session_args(unit: Seq<char>) -> Seq<Seq<char>> {
    seq!["ssh"@, unit, "tmux"@, "kill-session"@, "-t"@, unit]
}

/// The arguments that mark the held hook of `unit` as resolved.
pub open spec fn resolve_args(unit: Seq<char>) -> Seq<Seq<char>> {
    seq!["resolve"@, unit]
}

/// The line that has the multiplexer session `unit` print the remote environment.
pub fn environment_request(unit: &str) -> (line: String)
    ensures
        line@ == environment_request_line(unit@),
{
    let mut out = chars_of("tmux send-keys -t ");
    extend_chars(&mut out, &chars_of(unit));
    extend_chars(&mut out, &chars_of(" \"env\" ENTER\n"));
    string_of(&out)
}

/// The line that has the multiplexer session `unit` run `script` and then leave
/// the session.
pub fn injection(unit: &str, script: &str) -> (line: String)
    ensures
        line@ == injection_line(unit@, script@),
{
    let mut out = chars_of("tmux send-keys -t ");
    extend_chars(&mut out, &chars_of(unit));
    extend_chars(&mut out, &chars_of(" \""));
    extend_chars(&mut out, &chars_of(script));
    extend_chars(&mut out, &chars_of("; exit\" ENTER\n"));
    string_of(&out)
}

/// The line that ends the driving shell.
pub fn exit_instruction() -> (line: String)
    ensures
        line@ == exit_line(),
{
    "exit\n".to_owned()
}

/// The arguments that open the hook-interceptor session of `unit`.
pub fn interceptor_arguments(unit: &str) -> (args: Vec<String>)
    ensures
        texts(args@) == interceptor_args(unit@),
{
    let mut args: Vec<String> = Vec::new();
    args.push("debug-hooks".to_owned());
    args.push(unit.to_owned());
    assert(texts(args@) =~= interceptor_args(unit@));
    args
}

/// The arguments that open the driving shell on `unit`.
pub fn shell_arguments(unit: &str) -> (args: Vec<String>)
    ensures
        texts(args@) == shell_args(unit@),
{
    let mut args: Vec<String> = Vec::new();
    args.push("ssh".to_owned());
    args.push(unit.to_owned());
    args.push("bash".to_owned());
    assert(texts(args@) =~= shell_args(unit@));
    args
}

/// The arguments that kill the multiplexer session named after `unit`.
pub fn kill_session_arguments(unit: &str) -> (args: Vec<String>)
    ensures
        texts(args@) == kill_session_args(unit@),
{
    let mut args: Vec<String> = Vec::new();
    args.push("ssh".to_owned());
    args.push(unit.to_owned());
    args.push("tmux".to_owned());
    args.push("kill-session".to_owned());
    args.push("-t".to_owned());
    args.push(unit.to_owned());
    assert(texts(args@) =~= kill_session_args(unit@));
    args
}

/// The arguments that mark the held hook of `unit` as resolved.
pub fn resolve_arguments(unit: &str) -> (args: Vec<String>)
    ensures
        texts(args@) == resolve_args(unit@),
{
    let mut args: Vec<String> = Vec::new();
    args.push("resolve".to_owned());
    args.push(unit.to_owned());
    assert(texts(args@) =~= resolve_args(unit@));
    args
}

} // verus!
