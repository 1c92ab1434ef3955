use vstd::prelude::*;
use crate::text::{chars_of, same_text, split_on, split_spec, strings_view};

verus! {

/// The ways of putting text into the focused window.
#[derive(Debug, Clone, Copy, PartialEq, Eq, Structural)]
pub enum OutputMethod {
    /// Clipboard paste: copy the text, send Ctrl+V, restore the clipboard.
    WlClipboardPaste,
    /// Type the text with `wtype`.
    Wtype,
    /// Type the text with `dotool`.
    Dotool,
    /// Only copy the text to the clipboard.
    WlCopy,
}

/// The method a configured name stands for, if it is a known one.
pub open spec fn output_method_named(name: Seq<char>) -> Option<OutputMethod> {
    if name == "wl-clipboard-paste"@ {
        Some(OutputMethod::WlClipboardPaste)
    } else if name == "wtype"@ {
        Some(OutputMethod::Wtype)
    } else if name == "dotool"@ {
        Some(OutputMethod::Dotool)
    } else if name == "wl-copy"@ {
        Some(OutputMethod::WlCopy)
    } else {
        None
    }
}

/// Reads a configured output method name.
pub fn parse_output_method(name: &str) -> (r: Option<OutputMethod>)
    ensures
        r == output_method_named(name@),
{
    if same_text(name, "wl-clipboard-paste") {
        Some(OutputMethod::WlClipboardPaste)
    } else if same_text(name, "wtype") {
        Some(OutputMethod::Wtype)
    } else if same_text(name, "dotool") {
        Some(OutputMethod::Dotool)
    } else if same_text(name, "wl-copy") {
        Some(OutputMethod::WlCopy)
    } else {
        None
    }
}

/// Why no text was put into the window.
#[derive(Debug, Clone, Copy, PartialEq, Eq, Structural)]
pub enum OutputError {
    AllMethodsFailed,
}

/// What to do next while putting a text into the focused window.
#[derive(Debug, Clone, Copy, PartialEq, Eq, Structural)]
pub enum TypingAction {
    /// Run the method configured at this position of the list.
    Attempt(usize, OutputMethod),
    /// The method at this position put the text in: stop.
    Typed(usize),
    /// No configured method worked.
    Failed(OutputError),
}

/// The first position at or after `from` whose name is a known method.
pub open spec fn first_known_from(ms: Seq<Seq<char>>, from: int) -> Option<int>
    decreases ms.len() - from,
{
    if from < 0 || from >= ms.len() {
        None
    } else if output_method_named(ms[from]) is Some {
        Some(from)
    } else {
        first_known_from(ms, from + 1)
    }
}

/// The next attempt from position `from` on: the first known method there,
/// or failure when none is left.
pub open spec fn next_action(ms: Seq<Seq<char>>, from: int) -> TypingAction {
    match first_known_from(ms, from) {
        Some(j) => TypingAction::Attempt(j as usize, output_method_named(ms[j]).unwrap()),
        None => TypingAction::Failed(OutputError::AllMethodsFailed),
    }
}

/// The step after `last` (the position of the previous attempt and whether it
/// worked; `None` before the first attempt).
pub open spec fn typing_step(ms: Seq<Seq<char>>, last: Option<(usize, bool)>) -> TypingAction {
    match last {
        None => next_action(ms, 0),
        Some((i, true)) => TypingAction::Typed(i),
        Some((i, false)) => next_action(ms, i + 1),
    }
}

pub proof fn lemma_first_known_from(ms: Seq<Seq<char>>, from: int)
    requires
        0 <= from,
    ensures
        match first_known_from(ms, from) {
            Some(j) => {
                &&& from <= j < ms.len()
                &&& output_method_named(ms[j]) is Some
                &&& forall|t: int| from <= t < j ==> output_method_named(#[trigger] ms[t]) is None
            },
            None => forall|t: int| from <= t < ms.len() ==> output_method_named(#[trigger] ms[t]) is None,
        },
    decreases ms.len() - from,
{
    if from < ms.len() && output_method_named(ms[from]) is None {
        lemma_first_known_from(ms, from + 1);
    }
}

fn next_known(methods: &[String], from: usize) -> (a: TypingAction)
    ensures
        a == next_action(strings_view(methods@), from as int),
{
    let ghost ms = strings_view(methods@);
    if from >= methods.len() {
        return TypingAction::Failed(OutputError::AllMethodsFailed);
    }
    let mut j = from;
    while j < methods.len()
        invariant
            from <= j <= methods@.len(),
            ms == strings_view(methods@),
            ms.len() == methods@.len(),
            first_known_from(ms, from as int) == first_known_from(ms, j as int),
        decreases methods@.len() - j,
    {
        assert(ms[j as int] == methods@[j as int]@);
        match parse_output_method(methods[j].as_str()) {
            Some(m) => {
                return TypingAction::Attempt(j, m);
            },
            None => {},
        }
        j = j + 1;
    }
    TypingAction::Failed(OutputError::AllMethodsFailed)
}

/// One step of putting a text into the focused window with the first
/// configured method that works. `last` is the previous attempt (its position
/// in `methods` and whether it worked), `None` before the first. Methods are
/// tried in the configured order, unknown names are skipped, and trying stops
/// at the first method that works.
pub fn type_text(methods: &[String], last: Option<(usize, bool)>) -> (a: TypingAction)
    ensures
        a == typing_step(strings_view(methods@), last),
{
    match last {
        None => next_known(methods, 0),
        Some((i, true)) => TypingAction::Typed(i),
        Some((i, false)) => {
            if i < methods.len() {
                next_known(methods, i + 1)
            } else {
                TypingAction::Failed(OutputError::AllMethodsFailed)
            }
        },
    }
}

/// The methods tried, and the position of the one that worked, when the
/// steps of [`type_text`] are followed from position `from` and the `k`-th
/// attempt (counting from 0) reports `ok(k)`.
pub open spec fn typing_run(ms: Seq<Seq<char>>, from: int, k: nat, ok: spec_fn(nat) -> bool) -> (Seq<OutputMethod>, Option<int>)
    decreases ms.len() - from,
{
    if from < 0 {
        (Seq::empty(), None)
    } else {
        match first_known_from(ms, from) {
            None => (Seq::empty(), None),
            Some(j) => {
                proof {
                    lemma_first_known_from(ms, from);
                }
                let m = output_method_named(ms[j]).unwrap();
                if ok(k) {
                    (seq![m], Some(j))
                } else {
                    let r = typing_run(ms, j + 1, k + 1, ok);
                    (seq![m] + r.0, r.1)
                }
            },
        }
    }
}

/// The known methods named in a list, in list order.
pub open spec fn known_methods(ms: Seq<Seq<char>>) -> Seq<OutputMethod>
    decreases ms.len(),
{
    if ms.len() == 0 {
        Seq::empty()
    } else {
        (match output_method_named(ms[0]) {
            Some(m) => seq![m],
            None => Seq::empty(),
        }) + known_methods(ms.drop_first())
    }
}

/// Candidates tried one by one, the `k`-th attempt reporting `ok(k)`: those
/// tried, up to and including the first that works, and whether one worked.
pub open spec fn until_success(s: Seq<OutputMethod>, k: nat, ok: spec_fn(nat) -> bool) -> (Seq<OutputMethod>, bool)
    decreases s.len(),
{
    if s.len() == 0 {
        (Seq::empty(), false)
    } else if ok(k) {
        (seq![s[0]], true)
    } else {
        let r = until_success(s.drop_first(), k + 1, ok);
        (seq![s[0]] + r.0, r.1)
    }
}

/// The list without the names that are not known methods.
pub open spec fn drop_unknown(ms: Seq<Seq<char>>) -> Seq<Seq<char>>
    decreases ms.len(),
{
    if ms.len() == 0 {
        Seq::empty()
    } else {
        (if output_method_named(ms[0]) is Some { seq![ms[0]] } else { Seq::empty() }) + drop_unknown(ms.drop_first())
    }
}

proof fn lemma_known_methods_step(ms: Seq<Seq<char>>, from: int)
    requires
        0 <= from < ms.len(),
    ensures
        known_methods(ms.subrange(from, ms.len() as int)) == (match output_method_named(ms[from]) {
            Some(m) => seq![m],
            None => Seq::empty(),
        }) + known_methods(ms.subrange(from + 1, ms.len() as int)),
{
    let t = ms.subrange(from, ms.len() as int);
    assert(t[0] == ms[from]);
    assert(t.drop_first() =~= ms.subrange(from + 1, ms.len() as int));
}

proof fn lemma_known_methods_skip(ms: Seq<Seq<char>>, from: int, j: int)
    requires
        0 <= from <= j <= ms.len(),
        forall|t: int| from <= t < j ==> output_method_named(#[trigger] ms[t]) is None,
    ensures
        known_methods(ms.subrange(from, ms.len() as int)) == known_methods(ms.subrange(j, ms.len() as int)),
    decreases j - from,
{
    if from < j {
        lemma_known_methods_step(ms, from);
        assert(output_method_named(ms[from]) is None);
        lemma_known_methods_skip(ms, from + 1, j);
        assert(Seq::<OutputMethod>::empty() + known_methods(ms.subrange(from + 1, ms.len() as int))
            =~= known_methods(ms.subrange(from + 1, ms.len() as int)));
    }
}

proof fn lemma_run_is_until_success(ms: Seq<Seq<char>>, from: int, k: nat, ok: spec_fn(nat) -> bool)
    requires
        0 <= from <= ms.len(),
    ensures
        typing_run(ms, from, k, ok).0 == until_success(known_methods(ms.subrange(from, ms.len() as int)), k, ok).0,
        (typing_run(ms, from, k, ok).1 is Some) == until_success(known_methods(ms.subrange(from, ms.len() as int)), k, ok).1,
    decreases ms.len() - from,
{
    lemma_first_known_from(ms, from);
    match first_known_from(ms, from) {
        None => {
            lemma_known_methods_skip(ms, from, ms.len() as int);
            assert(ms.subrange(ms.len() as int, ms.len() as int) =~= Seq::<Seq<char>>::empty());
        },
        Some(j) => {
            lemma_known_methods_skip(ms, from, j);
            lemma_known_methods_step(ms, j);
            let m = output_method_named(ms[j]).unwrap();
            let rest = known_methods(ms.subrange(j + 1, ms.len() as int));
            let s = known_methods(ms.subrange(from, ms.len() as int));
            assert(s == seq![m] + rest);
            assert(s[0] == m);
            assert(s.drop_first() =~= rest);
            if !ok(k) {
                lemma_run_is_until_success(ms, j + 1, k + 1, ok);
            }
        },
    }
}

/// Following the steps of [`type_text`], the methods tried are exactly the
/// known methods of the list, in list order, each once, up to and including
/// the first that works; the text is typed exactly when one of them works.
pub proof fn lemma_typing_tries_known_methods_in_order(ms: Seq<Seq<char>>, ok: spec_fn(nat) -> bool)
    ensures
        typing_run(ms, 0, 0, ok).0 == until_success(known_methods(ms), 0, ok).0,
        (typing_run(ms, 0, 0, ok).1 is Some) == until_success(known_methods(ms), 0, ok).1,
{
    lemma_run_is_until_success(ms, 0, 0, ok);
    assert(ms.subrange(0, ms.len() as int) =~= ms);
}

proof fn lemma_drop_unknown_keeps_known(ms: Seq<Seq<char>>)
    ensures
        known_methods(drop_unknown(ms)) == known_methods(ms),
    decreases ms.len(),
{
    if ms.len() > 0 {
        let d = drop_unknown(ms.drop_first());
        lemma_drop_unknown_keeps_known(ms.drop_first());
        if output_method_named(ms[0]) is Some {
            let x = seq![ms[0]] + d;
            assert(x[0] == ms[0]);
            assert(x.drop_first() =~= d);
        } else {
            assert(Seq::<Seq<char>>::empty() + d =~= d);
            assert(Seq::<OutputMethod>::empty() + known_methods(ms.drop_first()) =~= known_methods(ms.drop_first()));
        }
    }
}

/// Names that are not known methods change nothing: with them dropped from
/// the list the same methods are tried in the same order, and the text is
/// typed exactly when it was before.
pub proof fn lemma_unknown_names_change_nothing(ms: Seq<Seq<char>>, ok: spec_fn(nat) -> bool)
    ensures
        typing_run(drop_unknown(ms), 0, 0, ok).0 == typing_run(ms, 0, 0, ok).0,
        (typing_run(drop_unknown(ms), 0, 0, ok).1 is Some) == (typing_run(ms, 0, 0, ok).1 is Some),
{
    lemma_typing_tries_known_methods_in_order(ms, ok);
    lemma_typing_tries_known_methods_in_order(drop_unknown(ms), ok);
    lemma_drop_unknown_keeps_known(ms);
}

/// The run of [`typing_run`] takes the steps of [`type_text`]: each attempt is
/// the one [`typing_step`] names after the previous failure, and a success
/// ends the run at that position.
pub proof fn lemma_run_follows_steps(ms: Seq<Seq<char>>, from: int, k: nat, ok: spec_fn(nat) -> bool)
    requires
        0 <= from,
        ms.len() <= usize::MAX,
    ensures
        match next_action(ms, from) {
            TypingAction::Attempt(i, m) => {
                &&& typing_step(ms, Some((i, true))) == TypingAction::Typed(i)
                &&& typing_step(ms, Some((i, false))) == next_action(ms, i + 1)
                &&& typing_run(ms, from, k, ok) == if ok(k) {
                    (seq![m], Some(i as int))
                } else {
                    (seq![m] + typing_run(ms, i + 1, k + 1, ok).0, typing_run(ms, i + 1, k + 1, ok).1)
                }
            },
            _ => typing_run(ms, from, k, ok) == (Seq::<OutputMethod>::empty(), Option::<int>::None),
        },
{
    lemma_first_known_from(ms, from);
}

/// One invocation of `wtype`: press Return, or type a line of text.
pub enum WtypeStep {
    Return,
    Text(String),
}

pub ghost enum WtypeStepView {
    Return,
    Text(Seq<char>),
}

impl View for WtypeStep {
    type V = WtypeStepView;

    open spec fn view(&self) -> WtypeStepView {
        match self {
            WtypeStep::Return => WtypeStepView::Return,
            WtypeStep::Text(s) => WtypeStepView::Text(s@),
        }
    }
}

/// The `wtype` invocations that type these lines: Return between lines, and
/// each non-empty line typed as text.
pub open spec fn wtype_plan(lines: Seq<Seq<char>>) -> Seq<WtypeStepView>
    decreases lines.len(),
{
    if lines.len() == 0 {
        Seq::empty()
    } else {
        let line = lines.last();
        wtype_plan(lines.drop_last())
            + (if lines.len() > 1 { seq![WtypeStepView::Return] } else { Seq::empty() })
            + (if line.len() > 0 { seq![WtypeStepView::Text(line)] } else { Seq::empty() })
    }
}

pub open spec fn steps_view(v: Seq<WtypeStep>) -> Seq<WtypeStepView> {
    v.map_values(|s: WtypeStep| s@)
}

/// `wtype` does not handle newlines well, so text is typed line by line with
/// a Return key between lines.
pub fn wtype_steps(text: &str) -> (steps: Vec<WtypeStep>)
    ensures
        steps_view(steps@) == wtype_plan(split_spec(text@, '\n')),
{
    let lines = split_on(text, '\n');
    let ghost ls = strings_view(lines@);
    let mut steps: Vec<WtypeStep> = Vec::new();
    let mut i: usize = 0;
    while i < lines.len()
        invariant
            i <= lines@.len(),
            ls == strings_view(lines@),
            steps_view(steps@) == wtype_plan(ls.take(i as int)),
        decreases lines@.len() - i,
    {
        let ghost before = steps_view(steps@);
        if i > 0 {
            steps.push(WtypeStep::Return);
        }
        let line = &lines[i];
        if line.unicode_len() > 0 {
            steps.push(WtypeStep::Text(line.clone()));
        }
        proof {
            let t = ls.take(i + 1);
            assert(t.drop_last() =~= ls.take(i as int));
            assert(t.last() == lines@[i as int]@);
            assert(steps_view(steps@) =~= wtype_plan(t));
        }
        i = i + 1;
    }
    assert(ls.take(lines@.len() as int) =~= ls);
    steps
}

/// The text with every double quote escaped by a backslash.
pub open spec fn escape_quotes(s: Seq<char>) -> Seq<char>
    decreases s.len(),
{
    if s.len() == 0 {
        Seq::empty()
    } else {
        escape_quotes(s.drop_last()) + if s.last() == '"' { seq!['\\', '"'] } else { seq![s.last()] }
    }
}

/// The `dotool` script that types `text`.
pub open spec fn dotool_script(text: Seq<char>) -> Seq<char> {
    "type \""@ + escape_quotes(text) + "\"\n"@
}

/// The `dotool` script that types `text`: a `type` command with the text in
/// double quotes, inner quotes escaped.
pub fn dotool_command(text: &str) -> (cmd: String)
    ensures
        cmd@ == dotool_script(text@),
{
    let cs = chars_of(text);
    let mut cmd = String::from_str("type \"");
    let ghost head = "type \""@;
    let mut i: usize = 0;
    while i < cs.len()
        invariant
            i <= cs@.len(),
            cs@ == text@,
            head == "type \""@,
            cmd@ == head + escape_quotes(cs@.take(i as int)),
        decreases cs@.len() - i,
    {
        let c = cs[i];
        if c == '"' {
            cmd.push('\\');
            cmd.push('"');
        } else {
            cmd.push(c);
        }
        proof {
            let t = cs@.take(i + 1);
            assert(t.drop_last() =~= cs@.take(i as int));
            assert(t.last() == c);
        }
        i = i + 1;
        assert(cmd@ =~= head + escape_quotes(cs@.take(i as int)));
    }
    assert(cs@.take(cs@.len() as int) =~= cs@);
    cmd.append("\"\n");
    cmd
}

/// Undoes quote escaping: every backslash that stands right before a double
/// quote is removed; everything else is kept.
pub open spec fn unescape_quotes(e: Seq<char>) -> Seq<char>
    decreases e.len(),
{
    if e.len() == 0 {
        Seq::empty()
    } else if e.len() >= 2 && e.last() == '"' && e[e.len() - 2] == '\\' {
        unescape_quotes(e.subrange(0, e.len() - 2)) + seq!['"']
    } else {
        unescape_quotes(e.drop_last()) + seq![e.last()]
    }
}

/// Escaping leaves every character but the double quote alone, and removing
/// the backslash before each escaped quote gives the text back.
pub proof fn lemma_escape_quotes_round_trip(s: Seq<char>)
    ensures
        unescape_quotes(escape_quotes(s)) == s,
        !s.contains('"') ==> escape_quotes(s) == s,
    decreases s.len(),
{
    if s.len() > 0 {
        let init = s.drop_last();
        lemma_escape_quotes_round_trip(init);
        let x = escape_quotes(init);
        if s.last() == '"' {
            let e = x + seq!['\\', '"'];
            assert(e.subrange(0, e.len() - 2) =~= x);
        } else {
            let e = x + seq![s.last()];
            assert(e.drop_last() =~= x);
        }
        if !s.contains('"') {
            assert forall|k: int| 0 <= k < init.len() implies init[k] != '"' by {
                assert(init[k] == s[k]);
            }
            assert(s[s.len() - 1] == s.last());
            assert(init + seq![s.last()] =~= s);
        }
        assert(init + seq![s.last()] =~= s);
    }
}

/// In escaped text every double quote has a backslash right before it, so
/// none of them ends the quoted string early.
pub proof fn lemma_escaped_quotes_are_preceded_by_backslash(s: Seq<char>)
    ensures
        forall|i: int| 0 <= i < escape_quotes(s).len() && #[trigger] escape_quotes(s)[i] == '"' ==> i > 0 && escape_quotes(s)[i - 1] == '\\',
    decreases s.len(),
{
    if s.len() > 0 {
        let init = s.drop_last();
        lemma_escaped_quotes_are_preceded_by_backslash(init);
        let x = escape_quotes(init);
        let e = escape_quotes(s);
        let tail = if s.last() == '"' { seq!['\\', '"'] } else { seq![s.last()] };
        assert(e == x + tail);
        assert forall|i: int| 0 <= i < e.len() && #[trigger] e[i] == '"' implies i > 0 && e[i - 1] == '\\' by {
            if i < x.len() {
                assert(e[i] == x[i]);
                assert(x[i] == '"');
                assert(e[i - 1] == x[i - 1]);
            } else if i == x.len() + 1 {
                assert(e[i - 1] == tail[0]);
            } else {
                assert(e[i] == tail[0]);
            }
        }
    }
}

/// The `dotool` script is `type "`, the escaped text, `"` and a newline:
/// removing the escapes from what stands between the quotes gives the text
/// back, and a text without double quotes stands there unchanged.
pub proof fn lemma_dotool_script_carries_text(text: Seq<char>)
    ensures
        ({
            let sc = dotool_script(text);
            &&& sc.subrange(0, 6) == "type \""@
            &&& sc.subrange(sc.len() - 2, sc.len() as int) == "\"\n"@
            &&& unescape_quotes(sc.subrange(6, sc.len() - 2)) == text
            &&& forall|i: int| 6 <= i < sc.len() - 2 && #[trigger] sc[i] == '"' ==> i > 6 && sc[i - 1] == '\\'
            &&& !text.contains('"') ==> sc == "type \""@ + text + "\"\n"@
        }),
{
    reveal_strlit("type \"");
    reveal_strlit("\"\n");
    lemma_escape_quotes_round_trip(text);
    lemma_escaped_quotes_are_preceded_by_backslash(text);
    let e = escape_quotes(text);
    let sc = dotool_script(text);
    assert(sc.subrange(0, 6) =~= "type \""@);
    assert(sc.subrange(sc.len() - 2, sc.len() as int) =~= "\"\n"@);
    assert(sc.subrange(6, sc.len() - 2) =~= e);
    assert forall|i: int| 6 <= i < sc.len() - 2 && #[trigger] sc[i] == '"' implies i > 6 && sc[i - 1] == '\\' by {
        assert(sc[i] == e[i - 6]);
        assert(e[i - 6] == '"');
        if i - 6 > 0 {
            assert(sc[i - 1] == e[i - 7]);
        }
    }
}

} // verus!
