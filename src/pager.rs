//! The pager's state machine: the mode, the keys of each mode, and what the
//! screen needs after each of them.
use crate::lines::{count_lines, line_total, line_width};
use crate::search::{has_match_at_or_after, has_match_before, is_first_at_or_after, is_last_before, SearchResult};
use crate::viewport::{max_col, DisplayLines, Redraw};
use ropey::Rope;
use vstd::prelude::*;

verus! {

/// Rows of the terminal below the text: the status line and the prompt.
pub const STATUS_LINE_OFFSET: u16 = 2;

/// A key as the pager sees it.
#[derive(Clone, Copy, Debug, PartialEq, Eq, Structural)]
pub enum Key {
    /// A character key; the flag is set when Control, and no other
    /// modifier, was held.
    Char(char, bool),
    Up,
    Down,
    Left,
    Right,
    Enter,
    Esc,
    Backspace,
    Delete,
    /// Any other key.
    Other,
}

/// What a key means while the text is shown.
#[derive(Clone, Copy, Debug, PartialEq, Eq, Structural)]
pub enum Command {
    Down,
    Up,
    Left,
    Right,
    HalfPageUp,
    HalfPageDown,
    OpenSearch,
    NextMatch,
    PreviousMatch,
    Quit,
    Ignore,
}

/// Which keys the pager is reading: moves, or the characters of a query.
#[derive(Clone, Copy, Debug, PartialEq, Eq, Structural)]
pub enum Mode {
    Normal,
    SearchEntry,
}

/// What the prompt row needs.
#[derive(Clone, Copy, Debug, PartialEq, Eq, Structural)]
pub enum Prompt {
    /// Leave it as it is.
    Keep,
    /// Show `/` and the characters typed so far.
    Entry,
    /// Show `/` and the committed query, or nothing when there is none.
    Query,
    /// Blank it.
    Clear,
}

/// What the caller has to do after a key.
#[derive(Debug)]
pub struct Reaction {
    /// The mode for the next key.
    pub mode: Mode,
    pub redraw: Redraw,
    pub prompt: Prompt,
    /// A committed query: run the matcher on the file with it and hand the
    /// matches to `Pager::finish_search`, or call `Pager::search_failed`
    /// when the matcher rejects the pattern.
    pub query: Option<String>,
    /// Whether the pager is done.
    pub quit: bool,
    /// Whether the committed query was not a pattern the matcher accepts.
    pub invalid_pattern: bool,
}

pub open spec fn command_of(k: Key) -> Command {
    match k {
        Key::Down => Command::Down,
        Key::Up => Command::Up,
        Key::Left => Command::Left,
        Key::Right => Command::Right,
        Key::Esc => Command::Quit,
        Key::Char(c, ctrl) => {
            if c == 'j' {
                Command::Down
            } else if c == 'k' {
                Command::Up
            } else if c == 'h' {
                Command::Left
            } else if c == 'l' {
                Command::Right
            } else if c == 'u' && ctrl {
                Command::HalfPageUp
            } else if c == 'd' && ctrl {
                Command::HalfPageDown
            } else if c == '/' {
                Command::OpenSearch
            } else if c == 'n' {
                Command::NextMatch
            } else if c == 'N' {
                Command::PreviousMatch
            } else {
                Command::Ignore
            }
        },
        _ => Command::Ignore,
    }
}

/// A reaction that commits no query and does not quit.
pub open spec fn react(mode: Mode, redraw: Redraw, prompt: Prompt) -> Reaction {
    Reaction { mode, redraw, prompt, query: None, quit: false, invalid_pattern: false }
}

/// The viewport with the cursor back where the prompt was opened.
pub open spec fn restored(d: DisplayLines) -> DisplayLines {
    DisplayLines { cursor_row: d.cursor_pos.0, cursor_col: d.cursor_pos.1, ..d }
}

/// The line number that `N` searches before: the cursor's line counted from
/// one. A match qualifies when its line is more than one before this, so a
/// match on the line directly above the cursor is skipped.
pub open spec fn previous_probe(d: DisplayLines) -> u64 {
    d.start.saturating_add(d.cursor_row).saturating_add(1)
}

/// One key in normal mode: `d`, `s` before, `d2`, `s2` after, `r` the
/// reaction.
pub open spec fn normal_step(
    d: DisplayLines,
    s: SearchResult,
    lines: Rope,
    n: nat,
    rows: nat,
    key: Key,
    d2: DisplayLines,
    s2: SearchResult,
    r: Reaction,
) -> bool {
    match command_of(key) {
        Command::Down => d2 == d.moved_down(lines, n, rows) && s2 == s && r == react(
            Mode::Normal,
            d.down_redraw(n, rows),
            Prompt::Keep,
        ),
        Command::Up => d2 == d.moved_up(lines, n, rows) && s2 == s && r == react(
            Mode::Normal,
            d.up_redraw(),
            Prompt::Keep,
        ),
        Command::Left => d2 == d.moved_left() && s2 == s && r == react(
            Mode::Normal,
            Redraw::Cursor,
            Prompt::Keep,
        ),
        Command::Right => d2 == d.moved_right(lines) && s2 == s && r == react(
            Mode::Normal,
            Redraw::Cursor,
            Prompt::Keep,
        ),
        Command::HalfPageUp => d2 == d.jumped_up(lines, n, rows) && s2 == s && r == react(
            Mode::Normal,
            if d.up_scroll() > 0 {
                Redraw::All
            } else {
                Redraw::Cursor
            },
            Prompt::Keep,
        ),
        Command::HalfPageDown => d2 == d.jumped_down(lines, n, rows) && s2 == s && r == react(
            Mode::Normal,
            if d.down_scroll(n) > 0 {
                Redraw::All
            } else {
                Redraw::Cursor
            },
            Prompt::Keep,
        ),
        Command::OpenSearch => d2 == (DisplayLines {
            cursor_pos: (d.cursor_row, d.cursor_col),
            ..d
        }) && s2 == s && r == react(Mode::SearchEntry, Redraw::Cursor, Prompt::Entry),
        Command::NextMatch => match s.now_idx {
            Some(i) => {
                let k = ((i + 1) % (s.match_lines@.len() as int)) as usize;
                &&& s2 == (SearchResult { now_idx: Some(k), ..s })
                &&& d2 == d.at_match(lines, n, rows, s.match_lines@[k as int])
                &&& r == react(Mode::Normal, Redraw::All, Prompt::Query)
            },
            None => d2 == d && s2 == s && r == react(Mode::Normal, Redraw::Cursor, Prompt::Query),
        },
        Command::PreviousMatch => {
            if s.now_idx is Some && has_match_before(s.match_lines@, previous_probe(d)) {
                &&& s2.now_idx matches Some(i)
                &&& is_last_before(s.match_lines@, previous_probe(d), i as int)
                &&& s2 == (SearchResult { now_idx: Some(i), ..s })
                &&& d2 == d.at_match(lines, n, rows, s.match_lines@[i as int])
                &&& r == react(Mode::Normal, Redraw::All, Prompt::Query)
            } else {
                d2 == d && s2 == s && r == react(Mode::Normal, Redraw::Cursor, Prompt::Query)
            }
        },
        Command::Quit => d2 == d && s2 == s && r == (Reaction {
            mode: Mode::Normal,
            redraw: Redraw::Cursor,
            prompt: Prompt::Keep,
            query: None,
            quit: true,
            invalid_pattern: false,
        }),
        Command::Ignore => d2 == d && s2 == s && r == react(
            Mode::Normal,
            Redraw::Cursor,
            Prompt::Keep,
        ),
    }
}

/// One key while a query is typed.
pub open spec fn entry_step(
    d: DisplayLines,
    s: SearchResult,
    key: Key,
    d2: DisplayLines,
    s2: SearchResult,
    r: Reaction,
) -> bool {
    match key {
        Key::Esc => {
            &&& d2 == restored(d)
            &&& s2 == (SearchResult { word_vec: s2.word_vec, ..s })
            &&& s2.word_vec@.len() == 0
            &&& r == react(Mode::Normal, Redraw::Cursor, Prompt::Clear)
        },
        Key::Backspace | Key::Delete => {
            &&& d2 == d
            &&& s2 == (SearchResult { word_vec: s2.word_vec, ..s })
            &&& if s.word_vec@.len() > 0 {
                s2.word_vec@ == s.word_vec@.drop_last() && r == react(
                    Mode::SearchEntry,
                    Redraw::Cursor,
                    Prompt::Entry,
                )
            } else {
                s2.word_vec@ == s.word_vec@ && r == react(
                    Mode::SearchEntry,
                    Redraw::Cursor,
                    Prompt::Keep,
                )
            }
        },
        Key::Enter => {
            &&& d2 == restored(d)
            &&& if s.word_vec@.len() == 0 {
                &&& s2 == s
                &&& r == react(Mode::Normal, Redraw::Cursor, Prompt::Clear)
            } else {
                &&& s2 == (SearchResult { word: s2.word, word_vec: s2.word_vec, ..s })
                &&& s2.word@ == s.word_vec@
                &&& s2.word_vec@.len() == 0
                &&& r.mode == Mode::Normal
                &&& r.redraw == Redraw::Cursor
                &&& r.prompt == Prompt::Keep
                &&& r.query matches Some(q) && q@ == s.word_vec@
                &&& !r.quit
                &&& !r.invalid_pattern
            }
        },
        Key::Char(c, _) => {
            &&& d2 == d
            &&& s2 == (SearchResult { word_vec: s2.word_vec, ..s })
            &&& s2.word_vec@ == s.word_vec@.push(c)
            &&& r == react(Mode::SearchEntry, Redraw::Cursor, Prompt::Entry)
        },
        _ => d2 == d && s2 == s && r == react(Mode::SearchEntry, Redraw::Cursor, Prompt::Keep),
    }
}

/// Relies on `String::from_iter`: the string of the given characters, in
/// order.
#[verifier::external_body]
fn string_of_chars(v: &Vec<char>) -> (s: String)
    ensures
        s@ == v@,
{
    String::from_iter(v.iter())
}

/// What a key means while the text is shown (see `command_of`).
pub fn normal_command(key: Key) -> (c: Command)
    ensures
        c == command_of(key),
{
    match key {
        Key::Down => Command::Down,
        Key::Up => Command::Up,
        Key::Left => Command::Left,
        Key::Right => Command::Right,
        Key::Esc => Command::Quit,
        Key::Char(c, ctrl) => {
            if c == 'j' {
                Command::Down
            } else if c == 'k' {
                Command::Up
            } else if c == 'h' {
                Command::Left
            } else if c == 'l' {
                Command::Right
            } else if c == 'u' && ctrl {
                Command::HalfPageUp
            } else if c == 'd' && ctrl {
                Command::HalfPageDown
            } else if c == '/' {
                Command::OpenSearch
            } else if c == 'n' {
                Command::NextMatch
            } else if c == 'N' {
                Command::PreviousMatch
            } else {
                Command::Ignore
            }
        },
        _ => Command::Ignore,
    }
}

fn reaction(mode: Mode, redraw: Redraw, prompt: Prompt) -> (r: Reaction)
    ensures
        r == react(mode, redraw, prompt),
{
    Reaction { mode, redraw, prompt, query: None, quit: false, invalid_pattern: false }
}

/// Handles one key in normal mode (see `normal_step`).
pub fn handler_display_input_mode(
    display_lines: &mut DisplayLines,
    window_rows: u16,
    line_count: u64,
    lines: &Rope,
    key: Key,
    search_result: &mut SearchResult,
) -> (r: Reaction)
    requires
        window_rows >= 3,
        old(display_lines).wf(*lines, line_count as nat, (window_rows - STATUS_LINE_OFFSET) as nat),
        old(search_result).wf(),
    ensures
        normal_step(
            *old(display_lines),
            *old(search_result),
            *lines,
            line_count as nat,
            (window_rows - STATUS_LINE_OFFSET) as nat,
            key,
            *final(display_lines),
            *final(search_result),
            r,
        ),
        final(display_lines).wf(*lines, line_count as nat, (window_rows - STATUS_LINE_OFFSET) as nat),
        final(search_result).wf(),
{
    let rows = (window_rows - STATUS_LINE_OFFSET) as u64;
    match normal_command(key) {
        Command::Down => {
            let redraw = display_lines.move_down(lines, line_count, rows);
            reaction(Mode::Normal, redraw, Prompt::Keep)
        },
        Command::Up => {
            let redraw = display_lines.move_up(lines, line_count, rows);
            reaction(Mode::Normal, redraw, Prompt::Keep)
        },
        Command::Left => {
            display_lines.move_left(lines, line_count, rows);
            reaction(Mode::Normal, Redraw::Cursor, Prompt::Keep)
        },
        Command::Right => {
            display_lines.move_right(lines, line_count, rows);
            reaction(Mode::Normal, Redraw::Cursor, Prompt::Keep)
        },
        Command::HalfPageUp => {
            let redraw = display_lines.jump_up(lines, line_count, rows);
            reaction(Mode::Normal, redraw, Prompt::Keep)
        },
        Command::HalfPageDown => {
            let redraw = display_lines.jump_down(lines, line_count, rows);
            reaction(Mode::Normal, redraw, Prompt::Keep)
        },
        Command::OpenSearch => {
            display_lines.cursor_pos = (display_lines.cursor_row, display_lines.cursor_col);
            reaction(Mode::SearchEntry, Redraw::Cursor, Prompt::Entry)
        },
        Command::NextMatch => {
            match search_result.next() {
                Some(m) => {
                    display_lines.jump_to_match(lines, line_count, rows, m);
                    reaction(Mode::Normal, Redraw::All, Prompt::Query)
                },
                None => reaction(Mode::Normal, Redraw::Cursor, Prompt::Query),
            }
        },
        Command::PreviousMatch => {
            if search_result.now_idx.is_some() {
                let probe = display_lines.start.saturating_add(display_lines.cursor_row).saturating_add(
                    1,
                );
                match search_result.get_near_line_with_previous((probe, display_lines.cursor_pos.1)) {
                    Some(m) => {
                        display_lines.jump_to_match(lines, line_count, rows, m);
                        reaction(Mode::Normal, Redraw::All, Prompt::Query)
                    },
                    None => reaction(Mode::Normal, Redraw::Cursor, Prompt::Query),
                }
            } else {
                reaction(Mode::Normal, Redraw::Cursor, Prompt::Query)
            }
        },
        Command::Quit => Reaction {
            mode: Mode::Normal,
            redraw: Redraw::Cursor,
            prompt: Prompt::Keep,
            query: None,
            quit: true,
            invalid_pattern: false,
        },
        Command::Ignore => reaction(Mode::Normal, Redraw::Cursor, Prompt::Keep),
    }
}

/// Handles one key while a query is typed (see `entry_step`).
pub fn handler_search_word_input_mode(
    display_lines: &mut DisplayLines,
    key: Key,
    search_result: &mut SearchResult,
) -> (r: Reaction)
    ensures
        entry_step(
            *old(display_lines),
            *old(search_result),
            key,
            *final(display_lines),
            *final(search_result),
            r,
        ),
{
    match key {
        Key::Esc => {
            display_lines.cursor_row = display_lines.cursor_pos.0;
            display_lines.cursor_col = display_lines.cursor_pos.1;
            search_result.word_vec = Vec::new();
            reaction(Mode::Normal, Redraw::Cursor, Prompt::Clear)
        },
        Key::Backspace | Key::Delete => {
            if search_result.word_vec.len() > 0 {
                search_result.word_vec.pop();
                reaction(Mode::SearchEntry, Redraw::Cursor, Prompt::Entry)
            } else {
                reaction(Mode::SearchEntry, Redraw::Cursor, Prompt::Keep)
            }
        },
        Key::Enter => {
            display_lines.cursor_row = display_lines.cursor_pos.0;
            display_lines.cursor_col = display_lines.cursor_pos.1;
            if search_result.word_vec.len() == 0 {
                reaction(Mode::Normal, Redraw::Cursor, Prompt::Clear)
            } else {
                let query = string_of_chars(&search_result.word_vec);
                search_result.word = query.clone();
                search_result.word_vec = Vec::new();
                Reaction {
                    mode: Mode::Normal,
                    redraw: Redraw::Cursor,
                    prompt: Prompt::Keep,
                    query: Some(query),
                    quit: false,
                    invalid_pattern: false,
                }
            }
        },
        Key::Char(c, _) => {
            search_result.word_vec.push(c);
            reaction(Mode::SearchEntry, Redraw::Cursor, Prompt::Entry)
        },
        _ => reaction(Mode::SearchEntry, Redraw::Cursor, Prompt::Keep),
    }
}

/// The line from which a fresh search looks for its first match: the line
/// the prompt was opened on, counted from one as match lines are.
pub open spec fn search_probe(d: DisplayLines) -> u64 {
    d.start.saturating_add(d.cursor_pos.0).saturating_add(1)
}

/// Everything the pager keeps between keys.
pub struct Pager<'a> {
    /// The text.
    pub lines: Rope,
    /// How many lines the text has (see `line_total`).
    pub line_count: u64,
    /// The terminal's height: the text rows, the status line and the prompt.
    pub window_rows: u16,
    pub display: DisplayLines,
    pub search: SearchResult<'a>,
    pub mode: Mode,
}

/// One key handed to `Pager::handle_key`: `p` before, `p2` after.
pub open spec fn key_step(p: Pager, key: Key, p2: Pager, r: Reaction) -> bool {
    &&& p2.lines == p.lines
    &&& p2.line_count == p.line_count
    &&& p2.window_rows == p.window_rows
    &&& p2.mode == r.mode
    &&& p.mode == Mode::Normal ==> normal_step(
        p.display,
        p.search,
        p.lines,
        p.line_count as nat,
        p.rows(),
        key,
        p2.display,
        p2.search,
        r,
    )
    &&& p.mode == Mode::SearchEntry ==> entry_step(
        p.display,
        p.search,
        key,
        p2.display,
        p2.search,
        r,
    )
}

/// The matches of a search handed to `Pager::finish_search`: they replace
/// the old ones, with no selection, and then the first match at or after
/// the search's starting line is selected and brought to the top.
pub open spec fn search_step(p: Pager, hits: Seq<(u64, u64)>, p2: Pager, r: Reaction) -> bool {
    let probe = search_probe(p.display);
    &&& p2.lines == p.lines
    &&& p2.line_count == p.line_count
    &&& p2.window_rows == p.window_rows
    &&& p2.mode == p.mode
    &&& p2.search.match_lines@ == hits
    &&& p2.search == (SearchResult {
        match_lines: p2.search.match_lines,
        now_idx: p2.search.now_idx,
        ..p.search
    })
    &&& if hits.len() == 0 {
        &&& p2.search.now_idx is None
        &&& p2.display == p.display
        &&& r == react(p.mode, Redraw::Cursor, Prompt::Clear)
    } else if has_match_at_or_after(hits, probe) {
        &&& p2.search.now_idx matches Some(i)
        &&& is_first_at_or_after(hits, probe, i as int)
        &&& p2.display == p.display.at_match(
            p.lines,
            p.line_count as nat,
            p.rows(),
            hits[i as int],
        )
        &&& r == react(p.mode, Redraw::All, Prompt::Query)
    } else {
        &&& p2.search.now_idx is None
        &&& p2.display == p.display
        &&& r == react(p.mode, Redraw::Cursor, Prompt::Query)
    }
}

/// Whatever key is handled, the cursor stays on screen, on the line
/// `start + cursor_row` of the text, and no further right than that line's
/// last column.
pub proof fn lemma_key_keeps_cursor_on_screen(p: Pager, key: Key, p2: Pager, r: Reaction)
    requires
        p.wf(),
        key_step(p, key, p2, r),
    ensures
        p2.wf(),
        p2.display.cursor_row < p2.rows(),
        p2.display.start <= p2.display.cursor_line() <= p2.display.end,
        p2.display.cursor_line() < p2.line_count,
        p2.display.cursor_col <= max_col(line_width(p2.lines, p2.display.cursor_line() as int)),
{
    if p.mode == Mode::Normal {
        let m = match p.search.now_idx {
            Some(i) => p.search.match_lines@[((i + 1) % (p.search.match_lines@.len() as int))],
            None => (0u64, 0u64),
        };
        crate::viewport::lemma_moves_keep_view(p.display, p.lines, p.line_count as nat, p.rows(), m);
        if p2.search.now_idx is Some {
            let i = p2.search.now_idx->0;
            crate::viewport::lemma_moves_keep_view(
                p.display,
                p.lines,
                p.line_count as nat,
                p.rows(),
                p.search.match_lines@[i as int],
            );
        }
    }
}

/// Taking the matches of a search keeps the cursor on screen, on a line of
/// the text, within that line's columns. When a match is selected and its
/// line is a line of the text, the cursor is on that line, on the top row;
/// when none is selected, the viewport and the cursor stay as they were.
pub proof fn lemma_search_keeps_cursor_on_screen(p: Pager, hits: Seq<(u64, u64)>, p2: Pager, r: Reaction)
    requires
        p.wf(),
        p.mode == Mode::Normal,
        search_step(p, hits, p2, r),
    ensures
        p2.wf(),
        p2.display.cursor_row < p2.rows(),
        p2.display.start <= p2.display.cursor_line() <= p2.display.end,
        p2.display.cursor_line() < p2.line_count,
        p2.display.cursor_col <= max_col(line_width(p2.lines, p2.display.cursor_line() as int)),
        p2.search.now_idx is Some && 1 <= hits[p2.search.now_idx->0 as int].0 <= p.line_count ==> {
            &&& p2.display.cursor_row == 0
            &&& p2.display.cursor_line() == hits[p2.search.now_idx->0 as int].0 - 1
        },
        p2.search.now_idx is None ==> p2.display == p.display,
{
    if p2.search.now_idx is Some {
        let i = p2.search.now_idx->0;
        crate::viewport::lemma_moves_keep_view(
            p.display,
            p.lines,
            p.line_count as nat,
            p.rows(),
            hits[i as int],
        );
    }
}

/// Moving up with the cursor on the top row and the first line at the top
/// changes nothing at all.
pub proof fn lemma_up_at_top_changes_nothing(p: Pager, key: Key, p2: Pager, r: Reaction)
    requires
        p.wf(),
        p.mode == Mode::Normal,
        command_of(key) == Command::Up,
        p.display.start == 0,
        p.display.cursor_row == 0,
        key_step(p, key, p2, r),
    ensures
        p2 == p,
        r.redraw == Redraw::Cursor,
{
}

/// Committing a query leaves the earlier matches and the selection as they
/// were until the matcher answers, so a pattern it rejects (see
/// `Pager::search_failed`) loses nothing.
pub proof fn lemma_commit_keeps_matches_until_answered(p: Pager, p1: Pager, r1: Reaction)
    requires
        p.wf(),
        p.mode == Mode::SearchEntry,
        key_step(p, Key::Enter, p1, r1),
    ensures
        p1.mode == Mode::Normal,
        p1.search.match_lines == p.search.match_lines,
        p1.search.now_idx == p.search.now_idx,
{
}

/// A committed query for which the matcher finds nothing leaves no matches
/// and no selection, whatever the previous search had found.
pub proof fn lemma_commit_without_hits_clears(
    p: Pager,
    p1: Pager,
    r1: Reaction,
    hits: Seq<(u64, u64)>,
    p2: Pager,
    r2: Reaction,
)
    requires
        p.wf(),
        p.mode == Mode::SearchEntry,
        p.search.word_vec@.len() > 0,
        key_step(p, Key::Enter, p1, r1),
        hits.len() == 0,
        search_step(p1, hits, p2, r2),
    ensures
        r1.query is Some,
        p2.search.match_lines@.len() == 0,
        p2.search.now_idx is None,
{
}

impl<'a> Pager<'a> {
    /// How many rows of text the screen shows.
    pub open spec fn rows(self) -> nat {
        (self.window_rows - STATUS_LINE_OFFSET) as nat
    }

    /// The viewport fits the text and the screen, the selection points into
    /// the matches, and while a query is typed the cursor stays where the
    /// prompt was opened.
    pub open spec fn wf(self) -> bool {
        &&& self.window_rows >= 3
        &&& self.display.wf(self.lines, self.line_count as nat, self.rows())
        &&& self.search.wf()
        &&& self.mode == Mode::SearchEntry ==> self.display.cursor_pos == (
            self.display.cursor_row,
            self.display.cursor_col,
        )
    }

    /// A pager on `lines`, in normal mode, with the top of the text on
    /// screen, the cursor in the top left corner and no search.
    pub fn new(lines: Rope, filename: &'a str, window_rows: u16) -> (p: Pager<'a>)
        requires
            window_rows >= 3,
        ensures
            p.wf(),
            p.lines == lines,
            p.line_count == line_total(lines),
            p.window_rows == window_rows,
            p.mode == Mode::Normal,
            p.display.start == 0,
            p.display.cursor_row == 0,
            p.display.cursor_col == 0,
            p.display.cursor_pos == (0u64, 0u64),
            p.display.shadow_cursor_pos == (0u64, 0u64),
            p.search.filename == filename,
            p.search.word@.len() == 0,
            p.search.word_vec@.len() == 0,
            p.search.match_lines@.len() == 0,
            p.search.now_idx is None,
    {
        let n = count_lines(&lines);
        let rows = (window_rows - STATUS_LINE_OFFSET) as u64;
        let display = DisplayLines::new(&lines, n as u64, rows);
        Pager {
            lines,
            line_count: n as u64,
            window_rows,
            display,
            search: SearchResult::new(filename),
            mode: Mode::Normal,
        }
    }

    /// How many rows of text the screen shows.
    pub fn visible_rows(&self) -> (r: u64)
        requires
            self.wf(),
        ensures
            r == self.rows(),
    {
        (self.window_rows - STATUS_LINE_OFFSET) as u64
    }

    /// Handles one key in the current mode (see `key_step`).
    pub fn handle_key(&mut self, key: Key) -> (r: Reaction)
        requires
            old(self).wf(),
        ensures
            final(self).wf(),
            key_step(*old(self), key, *final(self), r),
    {
        let r = match self.mode {
            Mode::Normal => handler_display_input_mode(
                &mut self.display,
                self.window_rows,
                self.line_count,
                &self.lines,
                key,
                &mut self.search,
            ),
            Mode::SearchEntry => handler_search_word_input_mode(
                &mut self.display,
                key,
                &mut self.search,
            ),
        };
        self.mode = r.mode;
        r
    }

    /// Takes the matches that the matcher found for the committed query
    /// (see `search_step`); a query is committed by Enter, which returns to
    /// normal mode.
    pub fn finish_search(&mut self, hits: Vec<(u64, u64)>) -> (r: Reaction)
        requires
            old(self).wf(),
            old(self).mode == Mode::Normal,
        ensures
            final(self).wf(),
            search_step(*old(self), hits@, *final(self), r),
    {
        let empty = hits.len() == 0;
        self.search.match_lines = hits;
        self.search.now_idx = None;
        if empty {
            return reaction(self.mode, Redraw::Cursor, Prompt::Clear);
        }
        let probe = self.display.start.saturating_add(self.display.cursor_pos.0).saturating_add(1);
        let rows = self.visible_rows();
        match self.search.get_near_line((probe, self.display.cursor_pos.1)) {
            Some(m) => {
                self.display.jump_to_match(&self.lines, self.line_count, rows, m);
                reaction(self.mode, Redraw::All, Prompt::Query)
            },
            None => reaction(self.mode, Redraw::Cursor, Prompt::Query),
        }
    }
}

impl<'a> Pager<'a> {
    /// The matcher rejected the committed query: the earlier matches and
    /// the selection stay as they were, the viewport too, and the reaction
    /// asks for an invalid-pattern notice.
    pub fn search_failed(&mut self) -> (r: Reaction)
        requires
            old(self).wf(),
            old(self).mode == Mode::Normal,
        ensures
            final(self).wf(),
            *final(self) == *old(self),
            r == (Reaction {
                mode: Mode::Normal,
                redraw: Redraw::Cursor,
                prompt: Prompt::Clear,
                query: None,
                quit: false,
                invalid_pattern: true,
            }),
    {
        Reaction {
            mode: self.mode,
            redraw: Redraw::Cursor,
            prompt: Prompt::Clear,
            query: None,
            quit: false,
            invalid_pattern: true,
        }
    }
}

} // verus!
