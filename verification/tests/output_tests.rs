use incant::output::{dotool_command, parse_output_method, type_text, wtype_steps, OutputError, OutputMethod, TypingAction, WtypeStep};

fn methods(names: &[&str]) -> Vec<String> {
    names.iter().map(|s| s.to_string()).collect()
}

#[test]
fn output_method_names() {
    assert_eq!(parse_output_method("wl-clipboard-paste"), Some(OutputMethod::WlClipboardPaste));
    assert_eq!(parse_output_method("wtype"), Some(OutputMethod::Wtype));
    assert_eq!(parse_output_method("dotool"), Some(OutputMethod::Dotool));
    assert_eq!(parse_output_method("wl-copy"), Some(OutputMethod::WlCopy));
    assert_eq!(parse_output_method("xdotool"), None);
}

/// Follows the steps of `type_text`, with `works` standing for the outcome
/// of running a method; returns the methods run and the final action.
fn drive(names: &[&str], works: impl Fn(OutputMethod) -> bool) -> (Vec<OutputMethod>, TypingAction) {
    let ms = methods(names);
    let mut run = Vec::new();
    let mut last = None;
    loop {
        match type_text(&ms, last) {
            TypingAction::Attempt(i, m) => {
                run.push(m);
                last = Some((i, works(m)));
            }
            done => return (run, done),
        }
    }
}

#[test]
fn first_working_method_wins() {
    let (run, done) = drive(&["bogus", "wtype", "dotool", "wl-copy"], |m| m == OutputMethod::Dotool);
    assert_eq!(run, vec![OutputMethod::Wtype, OutputMethod::Dotool]);
    assert_eq!(done, TypingAction::Typed(2));
}

#[test]
fn all_methods_failing_is_an_error() {
    let (run, done) = drive(&["wtype", "nope", "wl-copy"], |_| false);
    assert_eq!(run, vec![OutputMethod::Wtype, OutputMethod::WlCopy]);
    assert_eq!(done, TypingAction::Failed(OutputError::AllMethodsFailed));
}

#[test]
fn empty_list_runs_nothing() {
    assert_eq!(type_text(&[], None), TypingAction::Failed(OutputError::AllMethodsFailed));
    let (run, done) = drive(&[], |_| true);
    assert!(run.is_empty());
    assert_eq!(done, TypingAction::Failed(OutputError::AllMethodsFailed));
}

#[test]
fn unknown_name_is_skipped() {
    let ms = methods(&["bogus", "wl-copy"]);
    assert_eq!(type_text(&ms, None), TypingAction::Attempt(1, OutputMethod::WlCopy));
    assert_eq!(type_text(&ms, Some((1, true))), TypingAction::Typed(1));
    assert_eq!(type_text(&ms, Some((1, false))), TypingAction::Failed(OutputError::AllMethodsFailed));
    let (run, done) = drive(&["bogus", "wl-copy"], |_| true);
    assert_eq!(run, vec![OutputMethod::WlCopy]);
    assert_eq!(done, TypingAction::Typed(1));
}

#[test]
fn nothing_runs_after_success() {
    let (run, done) = drive(&["wtype", "wtype", "dotool"], |_| true);
    assert_eq!(run, vec![OutputMethod::Wtype]);
    assert_eq!(done, TypingAction::Typed(0));
}

#[test]
fn dropping_unknown_names_changes_nothing() {
    let works = |m| m == OutputMethod::WlCopy;
    let (a, da) = drive(&["x", "wtype", "y", "wl-copy", "z"], works);
    let (b, db) = drive(&["wtype", "wl-copy"], works);
    assert_eq!(a, b);
    assert!(matches!(da, TypingAction::Typed(_)) && matches!(db, TypingAction::Typed(_)));
}

#[test]
fn wtype_types_line_by_line() {
    let steps = wtype_steps("one\ntwo\n\nthree");
    let shown: Vec<String> = steps
        .iter()
        .map(|s| match s {
            WtypeStep::Return => "<Return>".to_string(),
            WtypeStep::Text(t) => t.clone(),
        })
        .collect();
    assert_eq!(shown, vec!["one", "<Return>", "two", "<Return>", "<Return>", "three"]);
    assert!(wtype_steps("").is_empty());
    assert_eq!(wtype_steps("\n").len(), 1);
}

#[test]
fn dotool_escapes_quotes() {
    assert_eq!(dotool_command("hello"), "type \"hello\"\n");
    assert_eq!(dotool_command("say \"hi\""), "type \"say \\\"hi\\\"\"\n");
    assert_eq!(dotool_command(""), "type \"\"\n");
}
