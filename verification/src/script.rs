//! The dispatch script synthesizer: the one shell command that installs the
//! tracing harness and runs the detected hook under it.

use crate::text::{
    chars_of, count_lines, decimal, decimal_of, extend_chars, line_count, replace_all, replaced,
    string_of,
};
use vstd::prelude::*;

verus! {

/// The number that the harness finds in place of its line-count token: its own
/// line count plus one.
pub open spec fn line_offset(harness: Seq<char>) -> nat {
    line_count(harness) + 1
}

/// The harness as it stands between the single quotes of the command: each run
/// of four spaces written as a tab escape, each double quote behind a backslash,
/// and the line-count token replaced by the line offset.
pub open spec fn embedded(harness: Seq<char>) -> Seq<char> {
    replaced(
        replaced(replaced(harness, "    "@, "\\t"@), "\""@, "\\\""@),
        "9999"@,
        decimal(line_offset(harness)),
    )
}

/// What stands before the harness in the command.
pub open spec fn script_opening() -> Seq<char> {
    "(echo $'"@
}

/// What stands between the harness and the hook's name: the two stream edits
/// that put the installation of the tracing function before either entry
/// function of the unit, and the start of the dispatch path.
pub open spec fn script_edits() -> Seq<char> {
    "';sed 's/    ops.main(/    sys.settrace(trace_function)\\n    ops.main(/' ./src/charm.py;sed 's/    main(/    sys.settrace(trace_function)\\n    main(/' ./src/charm.py;) | JUJU_DISPATCH_PATH='hooks/"@
}

/// What stands after the hook's name: the module search path and the
/// interpreter, which reads the program from its standard input.
pub open spec fn script_closing() -> Seq<char> {
    "' PYTHONPATH=lib:venv /usr/bin/env python3 -"@
}

/// The dispatch script for the hook `hook` under the harness `harness`.
pub open spec fn dispatch_script(hook: Seq<char>, harness: Seq<char>) -> Seq<char> {
    script_opening() + embedded(harness) + script_edits() + hook + script_closing()
}

/// The harness as it stands between the single quotes of the command.
pub fn embed(harness: &str) -> (out: Vec<char>)
    ensures
        out@ == embedded(harness@),
{
    let source = chars_of(harness);
    let lines: usize = count_lines(&source);
    let offset: u128 = lines as u128 + 1;
    let numeral = decimal_of(offset);
    let tabbed = replace_all(&source, &chars_of("    "), &chars_of("\\t"));
    let quoted = replace_all(&tabbed, &chars_of("\""), &chars_of("\\\""));
    replace_all(&quoted, &chars_of("9999"), &numeral)
}

/// The dispatch script for the hook `hook_name` under the harness `harness`.
pub fn synthesize(hook_name: &str, harness: &str) -> (script: String)
    ensures
        script@ == dispatch_script(hook_name@, harness@),
{
    let mut out = chars_of("(echo $'");
    let body = embed(harness);
    extend_chars(&mut out, &body);
    extend_chars(
        &mut out,
        &chars_of(
            "';sed 's/    ops.main(/    sys.settrace(trace_function)\\n    ops.main(/' ./src/charm.py;sed 's/    main(/    sys.settrace(trace_function)\\n    main(/' ./src/charm.py;) | JUJU_DISPATCH_PATH='hooks/",
        ),
    );
    extend_chars(&mut out, &chars_of(hook_name));
    extend_chars(&mut out, &chars_of("' PYTHONPATH=lib:venv /usr/bin/env python3 -"));
    string_of(&out)
}

/// Synthesis is a function of the hook's name and the harness: two scripts made
/// from the same hook and the same harness are the same text.
pub proof fn lemma_synthesis_deterministic(
    hook: Seq<char>,
    harness: Seq<char>,
    first: Seq<char>,
    second: Seq<char>,
)
    requires
        first == dispatch_script(hook, harness),
        second == dispatch_script(hook, harness),
    ensures
        first == second,
{
}

} // verus!
