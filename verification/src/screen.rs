//! The emulated terminal of a connection: feeding it, and its text with the
//! cursor drawn in.

use vstd::prelude::*;

use crate::text::{
    are_lines,
    chars_of,
    join,
    joined,
    joined_lines_come_back,
    lines_of,
    string_of,
    texts,
};

verus! {

/// Rows of the terminal that a connection runs in.
pub const TERMINAL_ROWS: u16 = 45;

/// Columns of the terminal that a connection runs in.
pub const TERMINAL_COLS: u16 = 180;

/// Rows that scroll off the top and are kept.
pub const TERMINAL_SCROLLBACK: usize = 10_000;

/// The terminal state that `vt100` keeps.
#[verifier::external_type_specification]
#[verifier::external_body]
pub struct ExScreen(vt100::Screen);

/// The emulator of `vt100`, which a byte stream drives.
#[verifier::external_type_specification]
#[verifier::external_body]
pub struct ExParser(vt100::Parser);

/// Rows and columns: what `vt100::Screen::size` returns.
pub uninterp spec fn screen_size(screen: vt100::Screen) -> (u16, u16);

/// Row and column of the cursor: what `vt100::Screen::cursor_position` returns.
pub uninterp spec fn screen_cursor(screen: vt100::Screen) -> (u16, u16);

/// How far the view is scrolled back: what `vt100::Screen::scrollback` returns.
pub uninterp spec fn screen_scrollback(screen: vt100::Screen) -> usize;

/// The text of each visible row, cut to `width` columns from `start` on: what
/// `vt100::Screen::rows` yields.
pub uninterp spec fn screen_rows(screen: vt100::Screen, start: u16, width: u16) -> Seq<Seq<char>>;

/// What `vt100::Parser::new` returns.
pub uninterp spec fn fresh_parser(rows: u16, cols: u16, scrollback: usize) -> vt100::Parser;

/// What `vt100::Parser::process` makes of `parser`.
pub uninterp spec fn parser_after(parser: vt100::Parser, bytes: Seq<u8>) -> vt100::Parser;

/// What `vt100::Parser::screen` returns.
pub uninterp spec fn parser_screen(parser: vt100::Parser) -> vt100::Screen;

/// The emulator of a connection that has seen exactly `seen`.
pub open spec fn emulator(seen: Seq<u8>) -> vt100::Parser {
    parser_after(fresh_parser(TERMINAL_ROWS, TERMINAL_COLS, TERMINAL_SCROLLBACK), seen)
}

/// `vt100::Screen::size`, by its name.
#[verifier::external_body]
fn size_of_screen(screen: &vt100::Screen) -> (r: (u16, u16))
    ensures
        r == screen_size(*screen),
{
    screen.size()
}

/// `vt100::Screen::cursor_position`, by its name.
#[verifier::external_body]
fn cursor_of_screen(screen: &vt100::Screen) -> (r: (u16, u16))
    ensures
        r == screen_cursor(*screen),
{
    screen.cursor_position()
}

/// `vt100::Screen::scrollback`, by its name.
#[verifier::external_body]
fn scrollback_of_screen(screen: &vt100::Screen) -> (r: usize)
    ensures
        r == screen_scrollback(*screen),
{
    screen.scrollback()
}

/// `vt100::Screen::rows`, by its name. It yields as many rows as the screen has,
/// and none of them holds a line feed. A view that is scrolled back by more rows
/// than the screen has is left out: there the subtraction in it underflows.
#[verifier::external_body]
fn rows_of_screen(screen: &vt100::Screen, start: u16, width: u16) -> (r: Vec<String>)
    requires
        screen_scrollback(*screen) <= screen_size(*screen).0,
    ensures
        texts(r@) == screen_rows(*screen, start, width),
        r@.len() == screen_size(*screen).0,
        are_lines(texts(r@)),
{
    screen.rows(start, width).collect()
}

/// `vt100::Parser::new`, by its name. The new screen has the size asked for and
/// is not scrolled back; processing no bytes leaves it as it is. A screen without
/// rows is left out: there the subtraction of one row underflows.
#[verifier::external_body]
fn new_parser(rows: u16, cols: u16, scrollback: usize) -> (r: vt100::Parser)
    requires
        1 <= rows,
    ensures
        r == fresh_parser(rows, cols, scrollback),
        r == parser_after(r, Seq::empty()),
        screen_size(parser_screen(r)) == (rows, cols),
        screen_scrollback(parser_screen(r)) == 0,
{
    vt100::Parser::new(rows, cols, scrollback)
}

/// `vt100::Parser::process`, by its name. It takes the bytes one by one, so what
/// came before and `bytes` have the effect of the two put together. No byte
/// changes the size, or scrolls back a view that is not. Only the emulators of
/// connections are let in: on parsers that were resized, or are very small or very
/// wide, the cursor or a wide character can fall outside the screen.
#[verifier::external_body]
fn process_bytes(parser: &mut vt100::Parser, bytes: &[u8])
    requires
        exists|seen: Seq<u8>| *old(parser) == #[trigger] emulator(seen),
    ensures
        *final(parser) == parser_after(*old(parser), bytes@),
        forall|seen: Seq<u8>|
            *old(parser) == #[trigger] emulator(seen) ==> *final(parser) == emulator(seen + bytes@),
        screen_size(parser_screen(*final(parser))) == screen_size(parser_screen(*old(parser))),
        screen_scrollback(parser_screen(*old(parser))) == 0 ==> screen_scrollback(
            parser_screen(*final(parser)),
        ) == 0,
{
    parser.process(bytes)
}

/// `vt100::Parser::screen`, by its name.
#[verifier::external_body]
fn screen_of_parser(parser: &vt100::Parser) -> (r: &vt100::Screen)
    ensures
        *r == parser_screen(*parser),
{
    parser.screen()
}

/// `rows` with empty rows added at the end until there are `n`.
pub open spec fn grown(rows: Seq<Seq<char>>, n: nat) -> Seq<Seq<char>> {
    if rows.len() < n {
        rows + Seq::new((n - rows.len()) as nat, |i: int| Seq::<char>::empty())
    } else {
        rows
    }
}

/// `line` with a `|` at `col`, in place of what is there, or after as many spaces
/// as it takes to get there.
pub open spec fn marked_line(line: Seq<char>, col: nat) -> Seq<char> {
    if col < line.len() {
        line.update(col as int, '|')
    } else {
        line + Seq::new((col - line.len()) as nat, |i: int| ' ') + seq!['|']
    }
}

/// `rows` with a `|` at the given place; rows are added where there are too few.
pub open spec fn marked_rows(rows: Seq<Seq<char>>, row: nat, col: nat) -> Seq<Seq<char>> {
    let tall = grown(rows, row + 1);
    tall.update(row as int, marked_line(tall[row as int], col))
}

/// The text of `height` rows or more, one per line, with the cursor drawn in
/// where there is one to show.
pub open spec fn cursor_text(
    rows: Seq<Seq<char>>,
    height: nat,
    cursor: Option<(u16, u16)>,
) -> Seq<char> {
    let base = grown(rows, height);
    joined(
        match cursor {
            Some((row, col)) => marked_rows(base, row as nat, col as nat),
            None => base,
        },
        "\n"@,
    )
}

/// The text of a screen, with the cursor drawn in if it is to be shown.
pub open spec fn screen_text(screen: vt100::Screen, show_cursor: bool) -> Seq<char> {
    let (height, width) = screen_size(screen);
    cursor_text(
        screen_rows(screen, 0, width),
        height as nat,
        if show_cursor {
            Some(screen_cursor(screen))
        } else {
            None
        },
    )
}

/// The lines of a screen: its rows, with the cursor drawn in if it is to be shown.
pub open spec fn screen_lines(screen: vt100::Screen, show_cursor: bool) -> Seq<Seq<char>> {
    let rows = screen_rows(screen, 0, screen_size(screen).1);
    if show_cursor {
        marked_rows(rows, screen_cursor(screen).0 as nat, screen_cursor(screen).1 as nat)
    } else {
        rows
    }
}

/// Drawing the cursor puts a `|` into its cell and changes no other cell; a line
/// that is too short is extended by spaces.
pub proof fn cursor_takes_one_cell(line: Seq<char>, col: nat, i: int)
    requires
        0 <= i < marked_line(line, col).len(),
    ensures
        marked_line(line, col).len() == if col < line.len() {
            line.len()
        } else {
            col + 1
        },
        i == col ==> marked_line(line, col)[i] == '|',
        i != col && i < line.len() ==> marked_line(line, col)[i] == line[i],
        i != col && i >= line.len() ==> marked_line(line, col)[i] == ' ',
{
}

/// Drawing the cursor changes no other row, and adds rows only down to its own.
pub proof fn cursor_takes_one_row(rows: Seq<Seq<char>>, row: nat, col: nat, i: int)
    requires
        0 <= i < marked_rows(rows, row, col).len(),
    ensures
        marked_rows(rows, row, col).len() == if row < rows.len() {
            rows.len()
        } else {
            row + 1
        },
        i == row && row < rows.len() ==> marked_rows(rows, row, col)[i] == marked_line(
            rows[i],
            col,
        ),
        i == row && row >= rows.len() ==> marked_rows(rows, row, col)[i] == marked_line(
            Seq::empty(),
            col,
        ),
        i != row && i < rows.len() ==> marked_rows(rows, row, col)[i] == rows[i],
        i != row && i >= rows.len() ==> marked_rows(rows, row, col)[i].len() == 0,
{
}

proof fn lemma_marked_rows_are_lines(rows: Seq<Seq<char>>, row: nat, col: nat)
    requires
        are_lines(rows),
    ensures
        are_lines(marked_rows(rows, row, col)),
{
    let marked = marked_rows(rows, row, col);
    assert forall|i: int| 0 <= i < marked.len() implies !(#[trigger] marked[i]).contains('\n') by {
        cursor_takes_one_row(rows, row, col, i);
        if marked[i].contains('\n') {
            let k = choose|k: int| 0 <= k < marked[i].len() && marked[i][k] == '\n';
            if i == row {
                let line = if row < rows.len() {
                    rows[i]
                } else {
                    Seq::empty()
                };
                cursor_takes_one_cell(line, col, k);
                assert(k < line.len() && line[k] == '\n');
                assert(rows[i].contains('\n'));
            }
        }
    }
}

proof fn lemma_lines_of_text(rows: Seq<Seq<char>>, height: nat, cursor: Option<(u16, u16)>)
    requires
        rows.len() == height,
        are_lines(rows),
        height > 0 || cursor is Some,
    ensures
        lines_of(cursor_text(rows, height, cursor)) == match cursor {
            Some((row, col)) => marked_rows(rows, row as nat, col as nat),
            None => rows,
        },
{
    match cursor {
        Some((row, col)) => {
            lemma_marked_rows_are_lines(rows, row as nat, col as nat);
            joined_lines_come_back(marked_rows(rows, row as nat, col as nat));
        },
        None => joined_lines_come_back(rows),
    }
}

/// The text of a screen has one line per row of the screen, and without the cursor
/// each line is that row. Showing the cursor changes its own line only, to reach
/// just as far as the cursor if it was shorter, and in it puts a `|` in place of
/// what stands at the cursor; a cell between the old end and the cursor is a space.
pub proof fn cursor_is_drawn_in_place(
    rows: Seq<Seq<char>>,
    height: nat,
    row: u16,
    col: u16,
    i: int,
    j: int,
)
    requires
        rows.len() == height,
        are_lines(rows),
        row < height,
    ensures
        lines_of(cursor_text(rows, height, None)) == rows,
        ({
            let plain = lines_of(cursor_text(rows, height, None));
            let drawn = lines_of(cursor_text(rows, height, Some((row, col))));
            let line = plain[row as int];
            &&& plain.len() == height
            &&& drawn.len() == height
            &&& 0 <= i < height && i != row ==> drawn[i] == plain[i]
            &&& drawn[row as int].len() == if line.len() > col + 1 {
                line.len() as int
            } else {
                col + 1
            }
            &&& drawn[row as int][col as int] == '|'
            &&& 0 <= j < drawn[row as int].len() && j != col ==> drawn[row as int][j] == if j
                < line.len() {
                line[j]
            } else {
                ' '
            }
        }),
{
    lemma_lines_of_text(rows, height, None);
    lemma_lines_of_text(rows, height, Some((row, col)));
}

fn mark_line(line: &str, col: usize) -> (r: String)
    ensures
        r@ == marked_line(line@, col as nat),
{
    let mut chars = chars_of(line);
    if col < chars.len() {
        chars.set(col, '|');
    } else {
        let ghost blanks = Seq::new((col - line@.len()) as nat, |i: int| ' ');
        while chars.len() < col
            invariant
                line@.len() <= chars.len() <= col,
                blanks == Seq::new((col - line@.len()) as nat, |i: int| ' '),
                chars@ == line@ + blanks.take(chars.len() - line@.len()),
            decreases col - chars.len(),
        {
            chars.push(' ');
        }
        assert(blanks.take(col - line@.len()) == blanks);
        chars.push('|');
        assert(chars@ == marked_line(line@, col as nat));
    }
    string_of(&chars)
}

fn grow_rows(rows: &mut Vec<String>, n: usize)
    ensures
        texts(final(rows)@) == grown(texts(old(rows)@), n as nat),
{
    let ghost before = texts(rows@);
    while rows.len() < n
        invariant
            before.len() <= rows.len(),
            before.len() <= n ==> rows.len() <= n,
            before.len() >= n ==> texts(rows@) == before,
            texts(rows@) =~= grown(before, rows.len() as nat),
        decreases n - rows.len(),
    {
        let ghost shorter = texts(rows@);
        let row = String::new();
        rows.push(row);
        assert(texts(rows@) =~= shorter.push(row@));
    }
    assert(texts(rows@) =~= grown(before, n as nat));
}

/// The rows, one per line and at least `height` of them, with the cursor drawn in
/// where there is one to show.
pub fn text_of_rows(rows: Vec<String>, height: u16, cursor: Option<(u16, u16)>) -> (r: String)
    ensures
        r@ == cursor_text(texts(rows@), height as nat, cursor),
{
    let mut rows = rows;
    grow_rows(&mut rows, height as usize);
    if let Some((row, col)) = cursor {
        let row: usize = row as usize;
        let ghost base = texts(rows@);
        grow_rows(&mut rows, row + 1);
        assert(rows@.len() == texts(rows@).len());
        let line = mark_line(rows[row].as_str(), col as usize);
        rows.set(row, line);
        assert(texts(rows@) =~= marked_rows(base, row as nat, col as nat));
    }
    join(&rows, "\n")
}

/// The text of `screen`, with a `|` where the cursor is if it is to be shown.
pub fn terminal_text_with_cursor(screen: &vt100::Screen, show_cursor: bool) -> (r: String)
    requires
        screen_scrollback(*screen) <= screen_size(*screen).0,
    ensures
        r@ == screen_text(*screen, show_cursor),
        screen_lines(*screen, false).len() == screen_size(*screen).0,
        screen_size(*screen).0 > 0 || show_cursor ==> lines_of(r@) == screen_lines(
            *screen,
            show_cursor,
        ),
{
    let (height, width) = size_of_screen(screen);
    let rows = rows_of_screen(screen, 0, width);
    let cursor = if show_cursor {
        Some(cursor_of_screen(screen))
    } else {
        None
    };
    proof {
        assert(texts(rows@).len() == rows@.len());
        if height > 0 || show_cursor {
            lemma_lines_of_text(texts(rows@), height as nat, cursor);
        }
    }
    text_of_rows(rows, height, cursor)
}

/// The text of `screen`, unless its view is scrolled back by more rows than the
/// screen has.
pub fn terminal_text_in_view(screen: &vt100::Screen, show_cursor: bool) -> (r: Option<String>)
    ensures
        if screen_scrollback(*screen) <= screen_size(*screen).0 {
            r matches Some(text) && text@ == screen_text(*screen, show_cursor)
        } else {
            r is None
        },
{
    let (height, _) = size_of_screen(screen);
    if scrollback_of_screen(screen) <= height as usize {
        Some(terminal_text_with_cursor(screen, show_cursor))
    } else {
        None
    }
}

/// The terminal of one connection. Its view is all the output that it was given.
pub struct TerminalSession {
    parser: vt100::Parser,
    seen: Ghost<Seq<u8>>,
}

impl View for TerminalSession {
    type V = Seq<u8>;

    closed spec fn view(&self) -> Seq<u8> {
        self.seen@
    }
}

impl TerminalSession {
    /// The emulator is the one that has seen the session's output, its view is not
    /// scrolled back, and it has the size that it was made with.
    #[verifier::type_invariant]
    spec fn inv(self) -> bool {
        &&& self.parser == emulator(self.seen@)
        &&& screen_scrollback(parser_screen(self.parser)) == 0
        &&& screen_size(parser_screen(self.parser)) == (TERMINAL_ROWS, TERMINAL_COLS)
    }

    /// A terminal that was given no output yet.
    pub fn new() -> (r: Self)
        ensures
            r@ == Seq::<u8>::empty(),
    {
        let parser = new_parser(TERMINAL_ROWS, TERMINAL_COLS, TERMINAL_SCROLLBACK);
        TerminalSession { parser, seen: Ghost(Seq::empty()) }
    }

    /// The terminal after it was given more output.
    pub fn process(self, bytes: &[u8]) -> (r: Self)
        ensures
            r@ == self@ + bytes@,
    {
        proof {
            use_type_invariant(&self);
        }
        let ghost seen = self.seen@;
        let mut parser = self.parser;
        process_bytes(&mut parser, bytes);
        TerminalSession { parser, seen: Ghost(seen + bytes@) }
    }

    /// The text on the terminal, with the cursor drawn in if it is to be shown. It
    /// has a line for each row.
    pub fn text(&self, show_cursor: bool) -> (r: String)
        ensures
            r@ == session_text(self@, show_cursor),
            lines_of(r@) == screen_lines(parser_screen(emulator(self@)), show_cursor),
            screen_lines(parser_screen(emulator(self@)), false).len() == TERMINAL_ROWS,
    {
        proof {
            use_type_invariant(self);
        }
        terminal_text_with_cursor(screen_of_parser(&self.parser), show_cursor)
    }
}

/// The text on a terminal that was given exactly `seen`.
pub open spec fn session_text(seen: Seq<u8>, show_cursor: bool) -> Seq<char> {
    screen_text(parser_screen(emulator(seen)), show_cursor)
}

/// The lines of a screen's text are its rows over its whole width, from the first
/// column on; showing the cursor puts a `|` at the place where the screen has it, and
/// changes neither another row nor another cell that is there.
pub proof fn screens_are_shown_whole(screen: vt100::Screen, i: int, j: int)
    requires
        screen_size(screen).0 > 0,
        screen_rows(screen, 0, screen_size(screen).1).len() == screen_size(screen).0,
        are_lines(screen_rows(screen, 0, screen_size(screen).1)),
        screen_cursor(screen).0 < screen_size(screen).0,
    ensures
        ({
            let rows = screen_rows(screen, 0, screen_size(screen).1);
            let (row, col) = screen_cursor(screen);
            let drawn = lines_of(screen_text(screen, true));
            &&& lines_of(screen_text(screen, false)) == rows
            &&& screen_lines(screen, false) == rows
            &&& screen_lines(screen, true) == drawn
            &&& drawn.len() == rows.len()
            &&& 0 <= i < rows.len() && i != row ==> drawn[i] == rows[i]
            &&& drawn[row as int].len() > col && drawn[row as int][col as int] == '|'
            &&& drawn[row as int].len() >= rows[row as int].len()
            &&& 0 <= j < rows[row as int].len() && j != col ==> drawn[row as int][j]
                == rows[row as int][j]
            &&& rows[row as int].len() <= j < drawn[row as int].len() && j != col
                ==> drawn[row as int][j] == ' '
        }),
{
    let (height, width) = screen_size(screen);
    let (row, col) = screen_cursor(screen);
    cursor_is_drawn_in_place(
        screen_rows(screen, 0, width),
        height as nat,
        row,
        col,
        i,
        j,
    );
    lemma_lines_of_text(screen_rows(screen, 0, width), height as nat, Some((row, col)));
}

/// The text of a session is that of a screen which an emulator of the connection's
/// size shows once it was given all of the output, from the first byte on.
pub proof fn sessions_show_all_their_output(seen: Seq<u8>, show_cursor: bool)
    ensures
        session_text(seen, show_cursor) == screen_text(
            parser_screen(parser_after(fresh_parser(45, 180, 10_000), seen)),
            show_cursor,
        ),
{
}

/// Where there are fewer rows than the screen is high, empty lines make up for them;
/// where there are more, none is dropped.
pub proof fn missing_rows_are_empty_lines(rows: Seq<Seq<char>>, height: nat, i: int)
    requires
        are_lines(rows),
        rows.len() > 0 || height > 0,
    ensures
        ({
            let lines = lines_of(cursor_text(rows, height, None));
            &&& lines.len() == if rows.len() > height {
                rows.len()
            } else {
                height
            }
            &&& 0 <= i < rows.len() ==> lines[i] == rows[i]
            &&& rows.len() <= i < lines.len() ==> lines[i].len() == 0
        }),
{
    let all = grown(rows, height);
    assert forall|k: int| 0 <= k < all.len() implies !(#[trigger] all[k]).contains('\n') by {
        if k < rows.len() {
            assert(all[k] == rows[k]);
        }
    }
    joined_lines_come_back(all);
}

} // verus!
