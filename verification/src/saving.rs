//! Saving the recorded samples: the request that the interface sends to the
//! worker, the file name it is written to, and what the console reports.

use vstd::prelude::*;
use crate::console::{Print, print_to_console, update_in_console};

verus! {

/// What `{:?}` makes of a string: the text between double quotes, with
/// special characters escaped.
pub uninterp spec fn debug_text(s: Seq<char>) -> Seq<char>;

/// Characters that `{:?}` leaves as they are: ASCII letters, digits, space
/// and `. / _ -`.
pub open spec fn is_plain_char(c: char) -> bool {
    let n = c as u32;
    ||| 97 <= n <= 122
    ||| 65 <= n <= 90
    ||| 48 <= n <= 57
    ||| n == 32 || n == 46 || n == 47 || n == 95 || n == 45
}

pub open spec fn is_plain_text(s: Seq<char>) -> bool {
    forall|i: int| 0 <= i < s.len() ==> is_plain_char(#[trigger] s[i])
}

/// Formats `s` with `<str as Debug>::fmt` (through `format!("{:?}", ..)`).
/// The result is named by `debug_text`; for text made only of plain
/// characters it is the text itself between double quotes.
#[verifier::external_body]
fn debug_quoted(s: &str) -> (quoted: String)
    ensures
        quoted@ == debug_text(s@),
        is_plain_text(s@) ==> quoted@ == seq!['"'] + s@ + seq!['"'],
{
    format!("{:?}", s)
}

/// The text of the console line that announces a save to `path`.
pub open spec fn saving_text(path: Seq<char>) -> Seq<char> {
    "saving pulse file to "@ + debug_text(path) + " ..."@
}

/// The text of the console line that reports a finished save to `path`.
pub open spec fn saved_text(path: Seq<char>) -> Seq<char> {
    "saved pulse file to "@ + debug_text(path) + " "@
}

pub open spec fn failed_text() -> Seq<char> {
    "failed to save file"@
}

/// Announces on the console that the samples are being saved to `path`, and
/// returns the index of that line.
pub fn announce_save(console: &mut Vec<Print>, path: &String) -> (index: usize)
    ensures
        index == old(console)@.len(),
        final(console)@.len() == old(console)@.len() + 1,
        final(console)@.subrange(0, index as int) == old(console)@,
        final(console)@[index as int] matches Print::TASK(t) && t@ == saving_text(path@),
{
    let mut text = String::from_str("saving pulse file to ");
    let quoted = debug_quoted(path.as_str());
    text.append(quoted.as_str());
    text.append(" ...");
    let ghost t = text;
    let index = print_to_console(console, Print::TASK(text));
    assert(console@.subrange(0, index as int) =~= old(console)@) by {
        assert(console@ == old(console)@.push(Print::TASK(t)));
    }
    index
}

/// Reports the outcome of a save on the console. When the file was written,
/// the announcement at `index` is replaced by a line saying so; otherwise an
/// error line is added and the announcement stays.
pub fn report_save(console: &mut Vec<Print>, index: usize, path: &String, saved: bool)
    requires
        saved ==> index < old(console)@.len(),
    ensures
        saved ==> final(console)@.len() == old(console)@.len(),
        saved ==> forall|i: int| 0 <= i < old(console)@.len() && i != index
            ==> final(console)@[i] == old(console)@[i],
        saved ==> (final(console)@[index as int] matches Print::OK(t) && t@ == saved_text(path@)),
        !saved ==> final(console)@.len() == old(console)@.len() + 1,
        !saved ==> final(console)@.subrange(0, old(console)@.len() as int) == old(console)@,
        !saved ==> (final(console)@[old(console)@.len() as int] matches Print::ERROR(t)
            && t@ == failed_text()),
{
    if saved {
        let mut text = String::from_str("saved pulse file to ");
        let quoted = debug_quoted(path.as_str());
        text.append(quoted.as_str());
        text.append(" ");
        update_in_console(console, Print::OK(text), index);
    } else {
        let text = String::from_str("failed to save file");
        let ghost t = text;
        print_to_console(console, Print::ERROR(text));
        assert(console@.subrange(0, old(console)@.len() as int) =~= old(console)@) by {
            assert(console@ == old(console)@.push(Print::ERROR(t)));
        }
    }
}

/// The file name used until the interface asks for another one.
pub open spec fn default_file_path() -> Seq<char> {
    "bijou_test.csv"@
}

/// What the saving worker knows: the file the next save goes to, and
/// whether a save is due.
pub struct SaveState {
    pub path: Seq<char>,
    pub pending: bool,
}

/// The state after taking in one round's request from the interface: a file
/// name makes a save to that file due; no request changes nothing.
pub open spec fn received(state: SaveState, request: Option<Seq<char>>) -> SaveState {
    match request {
        Some(path) => SaveState { path, pending: true },
        None => state,
    }
}

/// The state after looking for a due save: nothing is due any more, and the
/// file is kept.
pub open spec fn after_take(state: SaveState) -> SaveState {
    SaveState { path: state.path, pending: false }
}

/// The file that a look for a due save hands out, if any.
pub open spec fn taken(state: SaveState) -> Option<Seq<char>> {
    if state.pending { Some(state.path) } else { None }
}

pub open spec fn request_view(request: Option<String>) -> Option<Seq<char>> {
    match request {
        Some(path) => Some(path@),
        None => None,
    }
}

/// The save requests seen by the worker that writes the samples to disk.
pub struct SaveRequests {
    file_path: String,
    acquire: bool,
}

impl View for SaveRequests {
    type V = SaveState;

    closed spec fn view(&self) -> SaveState {
        SaveState { path: self.file_path@, pending: self.acquire }
    }
}

impl SaveRequests {
    /// No save due; the file name is `bijou_test.csv`.
    pub fn new() -> (requests: Self)
        ensures
            requests@ == (SaveState { path: default_file_path(), pending: false }),
    {
        SaveRequests { file_path: String::from_str("bijou_test.csv"), acquire: false }
    }

    /// Takes in what arrived from the interface in one round; with
    /// `take_pending` right after, this makes one `round`.
    pub fn receive(&mut self, request: Option<String>)
        ensures
            final(self)@ == received(old(self)@, request_view(request)),
    {
        match request {
            Some(path) => {
                self.file_path = path;
                self.acquire = true;
            },
            None => {},
        }
    }

    /// Returns the file to save to when a save is due, and marks it done;
    /// returns `None`, changing nothing else, when no save is due.
    pub fn take_pending(&mut self) -> (due: Option<String>)
        ensures
            request_view(due) == taken(old(self)@),
            final(self)@ == after_take(old(self)@),
    {
        if self.acquire {
            self.acquire = false;
            Some(self.file_path.clone())
        } else {
            None
        }
    }
}

/// A file name received from the interface is the one the next save goes to.
pub proof fn lemma_received_path_is_saved(state: SaveState, path: Seq<char>)
    ensures
        taken(received(state, Some(path))) == Some(path),
{
}

/// A save is handed out once: looking again right after finds nothing due.
pub proof fn lemma_save_handed_out_once(state: SaveState)
    ensures
        taken(after_take(state)) is None,
        after_take(after_take(state)) == after_take(state),
{
}

/// A round without a request changes nothing.
pub proof fn lemma_no_request_no_change(state: SaveState)
    ensures
        received(state, None) == state,
{
}

/// Of two requests that arrive before a save is made, the later one wins.
pub proof fn lemma_later_request_wins(state: SaveState, first: Seq<char>, second: Seq<char>)
    ensures
        received(received(state, Some(first)), Some(second)) == received(state, Some(second)),
{
}

/// One round of the saving worker: take in the round's request, then hand
/// out the file to save to, if any. Gives the new state and what was handed
/// out.
pub open spec fn round(state: SaveState, request: Option<Seq<char>>) -> (SaveState, Option<Seq<char>>) {
    let next = received(state, request);
    (after_take(next), taken(next))
}

/// The rounds in order: the final state, and what each round handed out.
pub open spec fn rounds(state: SaveState, requests: Seq<Option<Seq<char>>>) -> (SaveState, Seq<Option<Seq<char>>>)
    decreases requests.len(),
{
    if requests.len() == 0 {
        (state, Seq::empty())
    } else {
        let (before, handed) = rounds(state, requests.drop_last());
        let (after, out) = round(before, requests.last());
        (after, handed.push(out))
    }
}

/// Over a run of rounds that starts with no save due (as a new worker
/// does), each round hands out exactly the file name it received, and
/// nothing in a round that received none: every delivered name is saved
/// once, in delivery order, and no other file is ever saved. No save is due
/// after the run.
pub proof fn lemma_run_saves_each_request_once(state: SaveState, requests: Seq<Option<Seq<char>>>)
    requires
        !state.pending,
    ensures
        rounds(state, requests).1 == requests,
        !rounds(state, requests).0.pending,
    decreases requests.len(),
{
    if requests.len() > 0 {
        lemma_run_saves_each_request_once(state, requests.drop_last());
        assert(rounds(state, requests).1 =~= requests);
    }
}

/// The console lines about a save quote the whole path they are about:
/// after their fixed opening, the `{:?}` form of the path follows in full,
/// then the fixed ending; nothing of the path is left out or changed.
pub proof fn lemma_save_lines_quote_whole_path(path: Seq<char>)
    ensures
        saving_text(path).len() == 21 + debug_text(path).len() + 4,
        saving_text(path).subrange(0, 21) == "saving pulse file to "@,
        saving_text(path).subrange(21, 21 + debug_text(path).len() as int) == debug_text(path),
        saved_text(path).len() == 20 + debug_text(path).len() + 1,
        saved_text(path).subrange(0, 20) == "saved pulse file to "@,
        saved_text(path).subrange(20, 20 + debug_text(path).len() as int) == debug_text(path),
        saved_text(path).last() == ' ',
        failed_text() == "failed to save file"@,
{
    reveal_strlit("saving pulse file to ");
    reveal_strlit(" ...");
    reveal_strlit("saved pulse file to ");
    reveal_strlit(" ");
    let q = debug_text(path);
    assert(saving_text(path).subrange(0, 21) =~= "saving pulse file to "@);
    assert(saving_text(path).subrange(21, 21 + q.len() as int) =~= q);
    assert(saved_text(path).subrange(0, 20) =~= "saved pulse file to "@);
    assert(saved_text(path).subrange(20, 20 + q.len() as int) =~= q);
}

/// A chosen file name is kept in full: the saved path starts with it, and
/// all that may follow is the `.csv` extension, which the result always
/// ends in; a name that already ends in `.csv` is kept as it is.
pub proof fn lemma_csv_path_keeps_name(path: Seq<char>)
    ensures
        csv_path(path).subrange(0, path.len() as int) == path,
        csv_path(path) == path || csv_path(path) == path + seq!['.', 'c', 's', 'v'],
        csv_path(path).len() >= 4,
        csv_path(path).subrange(csv_path(path).len() - 4, csv_path(path).len() as int)
            == seq!['.', 'c', 's', 'v'],
        path.len() >= 4 && path.subrange(path.len() - 4, path.len() as int) == seq!['.', 'c', 's', 'v']
            ==> csv_path(path) == path,
        !(path.len() >= 4 && path.subrange(path.len() - 4, path.len() as int) == seq!['.', 'c', 's', 'v'])
            ==> csv_path(path) == path + seq!['.', 'c', 's', 'v'],
{
    let full = csv_path(path);
    assert(full.subrange(0, path.len() as int) =~= path);
    if !ends_with_csv(path) {
        assert(full.subrange(full.len() - 4, full.len() as int) =~= seq!['.', 'c', 's', 'v']);
    }
}

/// The extension that saved files carry.
pub open spec fn csv_extension() -> Seq<char> {
    seq!['.', 'c', 's', 'v']
}

pub open spec fn ends_with_csv(path: Seq<char>) -> bool {
    path.len() >= 4 && path.subrange(path.len() - 4, path.len() as int) == csv_extension()
}

/// The path a chosen file name is saved under: kept when it already ends
/// in `.csv`, otherwise with `.csv` appended.
pub open spec fn csv_path(path: Seq<char>) -> Seq<char> {
    if ends_with_csv(path) { path } else { path + csv_extension() }
}

/// Gives `path` the `.csv` extension unless it already has it.
pub fn with_csv_extension(path: String) -> (full: String)
    ensures
        full@ == csv_path(path@),
{
    let n = path.as_str().unicode_len();
    let has_extension = n >= 4 && path.as_str().get_char(n - 4) == '.'
        && path.as_str().get_char(n - 3) == 'c' && path.as_str().get_char(n - 2) == 's'
        && path.as_str().get_char(n - 1) == 'v';
    proof {
        if has_extension {
            assert(path@.subrange(n - 4, n as int) =~= csv_extension());
        }
        if n >= 4 && ends_with_csv(path@) {
            assert(path@[n - 4] == path@.subrange(n - 4, n as int)[0]);
            assert(path@[n - 3] == path@.subrange(n - 4, n as int)[1]);
            assert(path@[n - 2] == path@.subrange(n - 4, n as int)[2]);
            assert(path@[n - 1] == path@.subrange(n - 4, n as int)[3]);
        }
    }
    if has_extension {
        path
    } else {
        let mut full = path;
        proof {
            reveal_strlit(".csv");
        }
        full.append(".csv");
        full
    }
}

/// What the interface sends to the worker after the file dialog: the chosen
/// file with the `.csv` extension, or the empty name when the dialog was
/// cancelled.
pub fn save_target(choice: Option<String>) -> (target: String)
    ensures
        choice matches Some(p) ==> target@ == csv_path(p@),
        choice is None ==> target@ == Seq::<char>::empty(),
{
    match choice {
        Some(path) => with_csv_extension(path),
        None => String::new(),
    }
}

/// A path made `.csv` by `with_csv_extension` stays as it is when given to it
/// again, and every such path ends in `.csv`.
pub proof fn lemma_csv_path_idempotent(path: Seq<char>)
    ensures
        ends_with_csv(csv_path(path)),
        csv_path(csv_path(path)) == csv_path(path),
{
    if !ends_with_csv(path) {
        let full = path + csv_extension();
        assert(full.subrange(full.len() - 4, full.len() as int) =~= csv_extension());
    }
}

} // verus!
