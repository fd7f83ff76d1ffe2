//! The message console: an append-only log of status lines that worker
//! threads write to and the user interface renders.

use vstd::prelude::*;

verus! {

/// One entry of the console.
#[derive(Clone, Debug)]
pub enum Print {
    EMPTY,
    MESSAGE(String),
    ERROR(String),
    DEBUG(String),
    TASK(String),
    OK(String),
}

/// Appends `message` to the console and returns the position it was stored
/// at, so that the caller can later replace it (see `update_in_console`).
pub fn print_to_console(console: &mut Vec<Print>, message: Print) -> (index: usize)
    ensures
        final(console)@ == old(console)@.push(message),
        final(console)@ == after_call(old(console)@, ConsoleCall::Print(message)),
        index == old(console)@.len(),
{
    console.push(message);
    console.len() - 1
}

/// Replaces the console entry at `index` with `message`; every other entry,
/// and the number of entries, stay as they were.
pub fn update_in_console(console: &mut Vec<Print>, message: Print, index: usize)
    requires
        index < old(console)@.len(),
    ensures
        final(console)@ == old(console)@.update(index as int, message),
        final(console)@ == after_call(old(console)@, ConsoleCall::Update(message, index as nat)),
{
    console.set(index, message);
}

/// A message written with `print_to_console` and then overwritten through the
/// index it returned leaves the console as if only the second message had
/// been printed: earlier entries are untouched.
pub proof fn lemma_print_then_update(console: Seq<Print>, first: Print, second: Print)
    ensures
        console.push(first).update(console.len() as int, second) == console.push(second),
{
    assert(console.push(first).update(console.len() as int, second) =~= console.push(second));
}

/// Two messages printed one after the other get consecutive indices, and the
/// first keeps its place after the second is printed.
pub proof fn lemma_consecutive_prints(console: Seq<Print>, first: Print, second: Print)
    ensures
        console.push(first).len() == console.len() + 1,
        console.push(first).push(second)[console.len() as int] == first,
        console.push(first).push(second)[console.len() + 1int] == second,
        console.push(first).push(second).subrange(0, console.len() as int) == console,
{
    assert(console.push(first).push(second).subrange(0, console.len() as int) =~= console);
}

/// One call on the console: a print of a message, or an update of the entry
/// at an index.
pub enum ConsoleCall {
    Print(Print),
    Update(Print, nat),
}

/// The console after one call.
pub open spec fn after_call(console: Seq<Print>, call: ConsoleCall) -> Seq<Print> {
    match call {
        ConsoleCall::Print(message) => console.push(message),
        ConsoleCall::Update(message, index) => console.update(index as int, message),
    }
}

/// The console after a sequence of calls, made in order.
pub open spec fn after_calls(console: Seq<Print>, calls: Seq<ConsoleCall>) -> Seq<Print>
    decreases calls.len(),
{
    if calls.len() == 0 {
        console
    } else {
        after_call(after_calls(console, calls.drop_last()), calls.last())
    }
}

/// The number of prints among `calls`.
pub open spec fn prints_in(calls: Seq<ConsoleCall>) -> nat
    decreases calls.len(),
{
    if calls.len() == 0 {
        0
    } else {
        prints_in(calls.drop_last()) + if calls.last() is Print { 1nat } else { 0nat }
    }
}

/// Every update in `calls` names an entry that exists when it is made, so
/// that none of the calls panics.
pub open spec fn calls_valid(console: Seq<Print>, calls: Seq<ConsoleCall>) -> bool {
    forall|j: int| 0 <= j < calls.len() ==> match #[trigger] calls[j] {
        ConsoleCall::Update(_, index) => index < after_calls(console, calls.take(j)).len(),
        ConsoleCall::Print(_) => true,
    }
}

proof fn lemma_console_length(console: Seq<Print>, calls: Seq<ConsoleCall>)
    requires
        calls_valid(console, calls),
    ensures
        after_calls(console, calls).len() == console.len() + prints_in(calls),
    decreases calls.len(),
{
    if calls.len() > 0 {
        let prefix = calls.drop_last();
        assert forall|j: int| 0 <= j < prefix.len() implies match #[trigger] prefix[j] {
            ConsoleCall::Update(_, index) => index < after_calls(console, prefix.take(j)).len(),
            ConsoleCall::Print(_) => true,
        } by {
            assert(prefix[j] == calls[j]);
            assert(prefix.take(j) =~= calls.take(j));
        }
        lemma_console_length(console, prefix);
        let last = calls.len() - 1;
        assert(calls.take(last) =~= prefix);
        assert(calls[last] == calls.last());
    }
}

proof fn lemma_prints_monotone(calls: Seq<ConsoleCall>, j: int, k: int)
    requires
        0 <= j <= k <= calls.len(),
    ensures
        prints_in(calls.take(j)) + (if j < k && calls[j] is Print { 1nat } else { 0nat }) <= prints_in(calls.take(k)),
    decreases k - j,
{
    if j < k {
        if j + 1 < k {
            lemma_prints_monotone(calls, j + 1, k);
        }
        assert(calls.take(j + 1).drop_last() =~= calls.take(j));
        assert(calls.take(j + 1).last() == calls[j]);
    }
}

/// Over any sequence of console calls that does not panic, the console never
/// shrinks and grows by exactly one entry per print. So the index returned by
/// a print (the length before it) names an existing entry after every later
/// call, and updates through it never panic.
pub proof fn lemma_console_run(console: Seq<Print>, calls: Seq<ConsoleCall>)
    requires
        calls_valid(console, calls),
    ensures
        after_calls(console, calls).len() == console.len() + prints_in(calls),
        forall|j: int, k: int| 0 <= j <= k <= calls.len() ==>
            #[trigger] after_calls(console, calls.take(j)).len()
                <= #[trigger] after_calls(console, calls.take(k)).len(),
        forall|j: int, k: int| 0 <= j < k <= calls.len() && calls[j] is Print ==>
            #[trigger] after_calls(console, calls.take(j)).len()
                < #[trigger] after_calls(console, calls.take(k)).len(),
{
    lemma_console_length(console, calls);
    assert forall|k: int| 0 <= k <= calls.len() implies
        #[trigger] after_calls(console, calls.take(k)).len() == console.len() + prints_in(calls.take(k)) by {
        assert forall|j: int| 0 <= j < calls.take(k).len() implies match #[trigger] calls.take(k)[j] {
            ConsoleCall::Update(_, index) => index < after_calls(console, calls.take(k).take(j)).len(),
            ConsoleCall::Print(_) => true,
        } by {
            assert(calls.take(k)[j] == calls[j]);
            assert(calls.take(k).take(j) =~= calls.take(j));
        }
        lemma_console_length(console, calls.take(k));
    }
    assert(calls.take(calls.len() as int) =~= calls);
    assert forall|j: int, k: int| 0 <= j <= k <= calls.len() implies
        #[trigger] after_calls(console, calls.take(j)).len()
            <= #[trigger] after_calls(console, calls.take(k)).len()
        && (j < k && calls[j] is Print ==> after_calls(console, calls.take(j)).len()
            < after_calls(console, calls.take(k)).len()) by {
        lemma_prints_monotone(calls, j, k);
    }
}

/// The colour a console tag is drawn in.
#[derive(Clone, Copy, Debug, PartialEq, Eq, Structural)]
pub enum Tone {
    White,
    Black,
    Red,
    Yellow,
    LightRed,
    Green,
}

/// How one console entry is shown: a tag in its colour, then the text.
#[derive(Clone, Debug)]
pub struct ConsoleLine {
    pub tag: String,
    pub tone: Tone,
    pub text: String,
}

/// What is shown of `entry`, as (tag, colour, text), with the interface in
/// dark or light mode and with debug output on or off; `None` when nothing
/// is shown.
pub open spec fn shown(entry: Print, dark_mode: bool, debug: bool) -> Option<(Seq<char>, Tone, Seq<char>)> {
    match entry {
        Print::EMPTY => None,
        Print::MESSAGE(s) => Some(("[MSG] "@, if dark_mode { Tone::White } else { Tone::Black }, s@)),
        Print::ERROR(s) => Some(("[ERR] "@, Tone::Red, s@)),
        Print::DEBUG(s) => if debug {
            Some(("[DBG] "@, if dark_mode { Tone::Yellow } else { Tone::LightRed }, s@))
        } else {
            None
        },
        Print::TASK(s) => Some(("[  ] "@, Tone::White, s@)),
        Print::OK(s) => Some(("[OK] "@, Tone::Green, s@)),
    }
}

pub open spec fn line_view(line: Option<ConsoleLine>) -> Option<(Seq<char>, Tone, Seq<char>)> {
    match line {
        Some(l) => Some((l.tag@, l.tone, l.text@)),
        None => None,
    }
}

/// Decides how the console shows `entry`.
pub fn console_line(entry: &Print, dark_mode: bool, debug: bool) -> (line: Option<ConsoleLine>)
    ensures
        line_view(line) == shown(*entry, dark_mode, debug),
{
    match entry {
        Print::EMPTY => None,
        Print::MESSAGE(s) => {
            let tone = if dark_mode { Tone::White } else { Tone::Black };
            Some(ConsoleLine { tag: String::from_str("[MSG] "), tone, text: s.clone() })
        },
        Print::ERROR(s) => Some(ConsoleLine { tag: String::from_str("[ERR] "), tone: Tone::Red, text: s.clone() }),
        Print::DEBUG(s) => {
            if debug {
                let tone = if dark_mode { Tone::Yellow } else { Tone::LightRed };
                Some(ConsoleLine { tag: String::from_str("[DBG] "), tone, text: s.clone() })
            } else {
                None
            }
        },
        Print::TASK(s) => Some(ConsoleLine { tag: String::from_str("[  ] "), tone: Tone::White, text: s.clone() }),
        Print::OK(s) => Some(ConsoleLine { tag: String::from_str("[OK] "), tone: Tone::Green, text: s.clone() }),
    }
}

/// Each kind of entry has its own tag, which no mode changes: errors are
/// always `[ERR] ` in red, tasks `[  ] ` in white, successes `[OK] ` in
/// green, messages `[MSG] ` and debug lines `[DBG] `. Only messages and debug
/// lines change colour with the mode (light or dark), and only debug lines
/// depend on the debug setting.
pub proof fn lemma_tags_fixed_per_kind(s: String, dark_mode: bool, debug: bool, other_dark: bool, other_debug: bool)
    ensures
        shown(Print::ERROR(s), dark_mode, debug) == Some(("[ERR] "@, Tone::Red, s@)),
        shown(Print::TASK(s), dark_mode, debug) == Some(("[  ] "@, Tone::White, s@)),
        shown(Print::OK(s), dark_mode, debug) == Some(("[OK] "@, Tone::Green, s@)),
        shown(Print::MESSAGE(s), dark_mode, debug) is Some,
        shown(Print::MESSAGE(s), dark_mode, debug).unwrap().0 == "[MSG] "@,
        shown(Print::MESSAGE(s), dark_mode, debug) == shown(Print::MESSAGE(s), dark_mode, other_debug),
        debug ==> shown(Print::DEBUG(s), dark_mode, debug).unwrap().0 == "[DBG] "@,
        shown(Print::ERROR(s), dark_mode, debug) == shown(Print::ERROR(s), other_dark, other_debug),
        shown(Print::TASK(s), dark_mode, debug) == shown(Print::TASK(s), other_dark, other_debug),
        shown(Print::OK(s), dark_mode, debug) == shown(Print::OK(s), other_dark, other_debug),
        shown(Print::EMPTY, dark_mode, debug) is None,
        dark_mode ==> shown(Print::MESSAGE(s), dark_mode, debug).unwrap().1 == Tone::White,
        !dark_mode ==> shown(Print::MESSAGE(s), dark_mode, debug).unwrap().1 == Tone::Black,
        debug && dark_mode ==> shown(Print::DEBUG(s), dark_mode, debug).unwrap().1 == Tone::Yellow,
        debug && !dark_mode ==> shown(Print::DEBUG(s), dark_mode, debug).unwrap().1 == Tone::LightRed,
{
}

/// Every entry but the empty one is shown, whatever the mode; debug entries
/// are shown exactly when debug output is on; the text shown is the entry's
/// own text.
pub proof fn lemma_what_is_shown(entry: Print, dark_mode: bool, debug: bool)
    ensures
        entry is EMPTY ==> shown(entry, dark_mode, debug) is None,
        entry is DEBUG ==> (shown(entry, dark_mode, debug) is Some <==> debug),
        !(entry is EMPTY) && !(entry is DEBUG) ==> shown(entry, dark_mode, debug) is Some,
        entry matches Print::MESSAGE(s) ==> shown(entry, dark_mode, debug).unwrap().2 == s@,
        entry matches Print::ERROR(s) ==> shown(entry, dark_mode, debug).unwrap().2 == s@,
        entry matches Print::TASK(s) ==> shown(entry, dark_mode, debug).unwrap().2 == s@,
        entry matches Print::OK(s) ==> shown(entry, dark_mode, debug).unwrap().2 == s@,
{
}

} // verus!
