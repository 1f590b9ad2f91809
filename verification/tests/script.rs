use hook_tracer::script::{embed, synthesize};

const EDITS: &str = "';sed 's/    ops.main(/    sys.settrace(trace_function)\\n    ops.main(/' ./src/charm.py;sed 's/    main(/    sys.settrace(trace_function)\\n    main(/' ./src/charm.py;) | JUJU_DISPATCH_PATH='hooks/";
const CLOSING: &str = "' PYTHONPATH=lib:venv /usr/bin/env python3 -";

const HARNESS: &str = "import sys\n\ndef trace_function(frame, event, arg):\n    if event == \"line\":\n        print(frame.f_lineno - 9999)\n    return trace_function\n";

fn by_the_standard_library(hook: &str, harness: &str) -> String {
    let lines = harness.lines().count() + 1;
    let body = harness
        .replace("    ", "\\t")
        .replace('"', "\\\"")
        .replace("9999", lines.to_string().as_str());
    format!("(echo $'{}{}{}{}", body, EDITS, hook, CLOSING)
}

fn text(chars: Vec<char>) -> String {
    chars.into_iter().collect()
}

#[test]
fn script_for_a_one_line_harness() {
    let script = synthesize("install", "x = 9999");
    assert_eq!(
        script,
        "(echo $'x = 2';sed 's/    ops.main(/    sys.settrace(trace_function)\\n    ops.main(/' ./src/charm.py;sed 's/    main(/    sys.settrace(trace_function)\\n    main(/' ./src/charm.py;) | JUJU_DISPATCH_PATH='hooks/install' PYTHONPATH=lib:venv /usr/bin/env python3 -"
    );
}

#[test]
fn script_for_an_empty_harness() {
    assert_eq!(synthesize("start", ""), format!("(echo $'{}start{}", EDITS, CLOSING));
}

#[test]
fn the_harness_is_escaped() {
    assert_eq!(text(embed("    a\n        b")), "\\ta\n\\t\\tb");
    assert_eq!(text(embed("say \"hi\"")), "say \\\"hi\\\"");
    assert_eq!(text(embed("a   b     c")), "a   b\\t c");
    assert_eq!(text(embed("")), "");
}

#[test]
fn the_line_offset_is_the_line_count_plus_one() {
    assert_eq!(text(embed("9999")), "2");
    assert_eq!(text(embed("9999\n")), "2\n");
    assert_eq!(text(embed("a\nb\n9999")), "a\nb\n4");
    assert_eq!(text(embed("a\nb\n9999\n")), "a\nb\n4\n");
    assert_eq!(text(embed("\n\n\n\n\n\n\n\n\n9999")), "\n\n\n\n\n\n\n\n\n11");
    assert_eq!(text(embed("9999 9999")), "2 2");
    let long = format!("{}9999", "\n".repeat(120));
    assert_eq!(text(embed(&long)), format!("{}122", "\n".repeat(120)));
}

#[test]
fn the_script_is_what_the_standard_library_gives() {
    for hook in ["install", "config-changed", "upgrade-charm"] {
        assert_eq!(synthesize(hook, HARNESS), by_the_standard_library(hook, HARNESS));
    }
    let script = synthesize("config-changed", HARNESS);
    assert!(script.contains("print(frame.f_lineno - 7)"));
    assert!(script.contains("\\tif event == \\\"line\\\":\n\\t\\tprint("));
    assert!(script.contains("JUJU_DISPATCH_PATH='hooks/config-changed' PYTHONPATH=lib:venv"));
}

#[test]
fn synthesis_is_deterministic() {
    let first = synthesize("config-changed", HARNESS);
    let second = synthesize("config-changed", HARNESS);
    assert_eq!(first.as_bytes(), second.as_bytes());
    assert_ne!(first, synthesize("install", HARNESS));
    assert_ne!(first, synthesize("config-changed", "x = 9999"));
}

#[test]
fn the_hook_is_named_in_the_dispatch_path_only() {
    let script = synthesize("stop", "hook_name = 9999");
    assert_eq!(script, format!("(echo $'hook_name = 2{}stop{}", EDITS, CLOSING));
}
