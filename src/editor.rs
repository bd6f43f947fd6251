use vstd::prelude::*;

use crate::document::Document;
use crate::row::{clamped_end, min_int, rendered, Row};
use crate::text::{decimal, decimal_string, prefix, prefix_string, space_string, spaces};

verus! {

/// Rows of the terminal kept for the status line and the message line.
pub const STATUS_LINE_HEIGHT: u16 = 2;

/// The control chord that quits the editor.
pub const QUIT_CHORD: char = 'q';

/// How long a status message stays on screen, in milliseconds.
pub const MESSAGE_TIMEOUT_MS: u128 = 5000;

/// The most characters of a file name that the status line shows.
pub const FILE_NAME_WIDTH: usize = 20;

/// A cursor or offset coordinate in document space: `y` is a row index and
/// `x` a grapheme column within that row.
#[derive(Debug, Default, Clone, Copy, PartialEq, Eq, Structural)]
pub struct Position {
    pub x: usize,
    pub y: usize,
}

/// Terminal dimensions in character cells.
#[derive(Debug, Clone, Copy, PartialEq, Eq, Structural)]
pub struct Size {
    pub width: u16,
    pub height: u16,
}

impl Size {
    /// The viewport of a terminal of `columns` by `rows` cells: the bottom
    /// rows are kept for the status and message lines.
    pub fn viewport(columns: u16, rows: u16) -> (r: Size)
        ensures
            r.width == columns,
            r.height == if rows >= STATUS_LINE_HEIGHT {
                rows - STATUS_LINE_HEIGHT
            } else {
                0
            },
    {
        Size { width: columns, height: rows.saturating_sub(STATUS_LINE_HEIGHT) }
    }
}

/// One key event, as the editor sees it.
#[derive(Debug, Clone, Copy, PartialEq, Eq, Structural)]
pub enum Key {
    Up,
    Down,
    Left,
    Right,
    PageUp,
    PageDown,
    Home,
    End,
    Ctrl(char),
    Char(char),
    Other,
}

impl Key {
    pub open spec fn spec_is_movement(self) -> bool {
        match self {
            Key::Up | Key::Down | Key::Left | Key::Right | Key::PageUp | Key::PageDown
            | Key::Home | Key::End => true,
            _ => false,
        }
    }

    /// Whether the key moves the cursor.
    #[verifier::when_used_as_spec(spec_is_movement)]
    pub fn is_movement(self) -> (r: bool)
        ensures
            r == self.spec_is_movement(),
    {
        match self {
            Key::Up | Key::Down | Key::Left | Key::Right | Key::PageUp | Key::PageDown
            | Key::Home | Key::End => true,
            _ => false,
        }
    }
}

pub open spec fn max_int(a: int, b: int) -> int {
    if a >= b {
        a
    } else {
        b
    }
}

/// Where `key` takes the cursor `(x, y)` on `doc`, before the column is
/// clamped to the destination row; `height` is the viewport height.
pub open spec fn target(doc: Document, height: int, x: int, y: int, key: Key) -> (int, int) {
    let rows = doc.line_count() as int;
    match key {
        Key::Up => (x, max_int(y - 1, 0)),
        Key::Down => (x, min_int(y + 1, rows)),
        Key::Left => if x > 0 {
            (x - 1, y)
        } else if y > 0 {
            (doc.width_of(y - 1) as int, y - 1)
        } else {
            (x, y)
        },
        Key::Right => if x < doc.width_of(y) {
            (x + 1, y)
        } else if y < rows {
            (0, y + 1)
        } else {
            (x, y)
        },
        Key::PageUp => (x, max_int(y - height / 2, 0)),
        Key::PageDown => (x, min_int(y + height / 2, rows)),
        Key::Home => (0, y),
        Key::End => (doc.width_of(y) as int, y),
        _ => (x, y),
    }
}

/// Where `key` takes the cursor `(x, y)` on `doc`: the target, with the
/// column clamped to the width of the destination row.
pub open spec fn moved(doc: Document, height: int, x: int, y: int, key: Key) -> (int, int) {
    let t = target(doc, height, x, y, key);
    (min_int(t.0, doc.width_of(t.1) as int), t.1)
}

/// The least move of a viewport offset `o` of extent `n` that brings the
/// cursor coordinate `c` into view (an empty extent scrolls just past the
/// cursor, short of the largest `usize`).
pub open spec fn scrolled(c: int, o: int, n: int) -> int {
    if c < o {
        c
    } else if c >= o + n {
        min_int(c - n + 1, usize::MAX as int)
    } else {
        o
    }
}

/// The cursor lies on a row of `doc` or just past the last one, and not
/// past the end of its row.
pub open spec fn cursor_in_document(doc: Document, p: Position) -> bool {
    &&& p.y <= doc.line_count()
    &&& p.x <= doc.width_of(p.y as int)
}

/// The cursor is inside the viewport of `size` placed at `offset`.
pub open spec fn cursor_in_view(p: Position, offset: Position, size: Size) -> bool {
    &&& offset.y <= p.y < offset.y + size.height
    &&& offset.x <= p.x < offset.x + size.width
}

fn row_width(doc: &Document, y: usize) -> (r: usize)
    ensures
        r == doc.width_of(y as int),
{
    match doc.row(y) {
        Some(row) => row.len(),
        None => 0,
    }
}

/// The viewport offset after the least scroll that shows the cursor.
fn scroll_offset(cursor: Position, offset: Position, size: Size) -> (r: Position)
    ensures
        r.y == scrolled(cursor.y as int, offset.y as int, size.height as int),
        r.x == scrolled(cursor.x as int, offset.x as int, size.width as int),
{
    let height = size.height as usize;
    let width = size.width as usize;
    let mut r = offset;
    if cursor.y < offset.y {
        r.y = cursor.y;
    } else if cursor.y - offset.y >= height {
        r.y = (cursor.y - height).saturating_add(1);
    }
    if cursor.x < offset.x {
        r.x = cursor.x;
    } else if cursor.x - offset.x >= width {
        r.x = (cursor.x - width).saturating_add(1);
    }
    r
}

/// Where the caret sits and where the viewport's top left corner lies,
/// both in document space.
#[derive(Clone, Copy)]
struct Placement {
    cursor_position: Position,
    offset: Position,
}

/// The welcome line: a marker, then the banner centred on a line of `width`
/// columns, cut to that width.
pub open spec fn welcome(banner: Seq<char>, width: int) -> Seq<char> {
    let padding = max_int(width - banner.len(), 0) / 2;
    prefix(seq!['~'] + spaces(max_int(padding - 1, 0) as nat) + banner, width)
}

/// The text of screen row `r` of the viewport of `size` placed at `offset`
/// on `doc`: the visible part of a row of the document, or past its end a
/// marker, or the welcome line on an empty document a third of the way down.
pub open spec fn screen_line(
    doc: Document,
    offset: Position,
    size: Size,
    banner: Seq<char>,
    r: int,
) -> Seq<char> {
    let index = offset.y + r;
    if index < doc.line_count() {
        rendered(doc.rows()[index].clusters(), offset.x as int, offset.x + size.width)
    } else if doc.line_count() == 0 && r == size.height / 3 {
        welcome(banner, size.width as int)
    } else {
        seq!['~']
    }
}

/// The file name as the status line shows it.
pub open spec fn name_shown(name: Option<String>) -> Seq<char> {
    match name {
        Some(n) => prefix(n@, FILE_NAME_WIDTH as int),
        None => "[No Name]"@,
    }
}

/// The status line: file name and line count on the left, the cursor's line
/// over the line count on the right, padded to and cut at `width` columns.
pub open spec fn status_line(name: Option<String>, lines: nat, cursor_y: int, width: int) -> Seq<char> {
    let left = name_shown(name) + " - "@ + decimal(lines) + " lines"@;
    let right = decimal(min_int(cursor_y + 1, usize::MAX as int) as nat) + "/"@ + decimal(lines);
    let fill = if width > left.len() + right.len() {
        spaces((width - left.len() - right.len()) as nat)
    } else {
        Seq::empty()
    };
    prefix(left + fill + right, width)
}

/// The terminal's 1-based column and row for the 0-based position `p`,
/// saturated at the largest coordinate the terminal can address.
pub open spec fn goto_of(p: Position) -> (u16, u16) {
    (min_int(p.x + 1, u16::MAX as int) as u16, min_int(p.y + 1, u16::MAX as int) as u16)
}

/// The terminal coordinates of the 0-based position `p`.
pub fn goto_coordinates(p: Position) -> (r: (u16, u16))
    ensures
        r == goto_of(p),
{
    let x = p.x.saturating_add(1);
    let y = p.y.saturating_add(1);
    let x: u16 = if x <= u16::MAX as usize {
        x as u16
    } else {
        u16::MAX
    };
    let y: u16 = if y <= u16::MAX as usize {
        y as u16
    } else {
        u16::MAX
    };
    (x, y)
}

/// The editor's state: the document, the cursor, the viewport and whether
/// it is quitting.
pub struct Editor {
    quit_flag: bool,
    size: Size,
    placement: Placement,
    document: Document,
    status_message: String,
}

impl Editor {
    #[verifier::type_invariant]
    spec fn inv(self) -> bool {
        &&& cursor_in_document(self.document, self.placement.cursor_position)
        &&& self.size.height >= 1 && self.size.width >= 1 ==> cursor_in_view(
            self.placement.cursor_position,
            self.placement.offset,
            self.size,
        )
    }

    pub closed spec fn quitting(&self) -> bool {
        self.quit_flag
    }

    pub closed spec fn viewport(&self) -> Size {
        self.size
    }

    pub closed spec fn cursor(&self) -> Position {
        self.placement.cursor_position
    }

    pub closed spec fn view_offset(&self) -> Position {
        self.placement.offset
    }

    pub closed spec fn doc(&self) -> Document {
        self.document
    }

    pub closed spec fn message(&self) -> Seq<char> {
        self.status_message@
    }

    /// An editor on `document` with a viewport of `size`, the cursor and the
    /// viewport at the top left, and `status_message` as its message.
    pub fn new(document: Document, size: Size, status_message: String) -> (r: Editor)
        ensures
            r.doc() == document,
            r.viewport() == size,
            r.cursor() == (Position { x: 0, y: 0 }),
            r.view_offset() == (Position { x: 0, y: 0 }),
            r.message() == status_message@,
            !r.quitting(),
    {
        Editor {
            quit_flag: false,
            size,
            placement: Placement {
                cursor_position: Position { x: 0, y: 0 },
                offset: Position { x: 0, y: 0 },
            },
            document,
            status_message,
        }
    }

    pub fn is_quitting(&self) -> (r: bool)
        ensures
            r == self.quitting(),
    {
        self.quit_flag
    }

    pub fn size(&self) -> (r: Size)
        ensures
            r == self.viewport(),
    {
        self.size
    }

    pub fn cursor_position(&self) -> (r: Position)
        ensures
            r == self.cursor(),
    {
        self.placement.cursor_position
    }

    pub fn offset(&self) -> (r: Position)
        ensures
            r == self.view_offset(),
    {
        self.placement.offset
    }

    pub fn document(&self) -> (r: &Document)
        ensures
            *r == self.doc(),
    {
        &self.document
    }

    /// The visible part of `row`: the columns from the viewport's left edge
    /// over the viewport's width.
    pub fn draw_row(&self, row: &Row) -> (r: String)
        ensures
            r@ == rendered(
                row.clusters(),
                self.view_offset().x as int,
                self.view_offset().x + self.viewport().width,
            ),
    {
        let width = self.size.width as usize;
        let start = self.placement.offset.x;
        let end = start.saturating_add(width);
        let length = row.len();
        assert(clamped_end(end as int, length as int) == clamped_end(start + width, length as int));
        row.render(start, end)
    }

    /// The welcome line for `banner` on this editor's viewport.
    pub fn draw_welcome_message(&self, banner: &str) -> (r: String)
        ensures
            r@ == welcome(banner@, self.viewport().width as int),
    {
        let width = self.size.width as usize;
        let len = banner.unicode_len();
        let padding = width.saturating_sub(len) / 2;
        let mut line = String::new();
        line.append("~");
        let pad = space_string(padding.saturating_sub(1));
        line.append(pad.as_str());
        line.append(banner);
        proof {
            reveal_strlit("~");
        }
        prefix_string(line.as_str(), width)
    }

    /// The text of each screen row of the viewport, from the top.
    pub fn draw_rows(&self, banner: &str) -> (r: Vec<String>)
        ensures
            r@.len() == self.viewport().height,
            forall|i: int|
                0 <= i < r@.len() ==> #[trigger] r@[i]@ == screen_line(
                    self.doc(),
                    self.view_offset(),
                    self.viewport(),
                    banner@,
                    i,
                ),
    {
        let height = self.size.height;
        let mut lines: Vec<String> = Vec::new();
        let line_count = self.document.len();
        let mut terminal_row: u16 = 0;
        while terminal_row < height
            invariant
                line_count == self.doc().line_count(),
                terminal_row <= height == self.viewport().height,
                lines@.len() == terminal_row,
                forall|i: int|
                    0 <= i < terminal_row ==> #[trigger] lines@[i]@ == screen_line(
                        self.doc(),
                        self.view_offset(),
                        self.viewport(),
                        banner@,
                        i,
                    ),
            decreases height - terminal_row,
        {
            let index = self.placement.offset.y.checked_add(terminal_row as usize);
            let row = match index {
                Some(i) => self.document.row(i),
                None => None,
            };
            let line = match row {
                Some(row) => self.draw_row(row),
                None => {
                    if self.document.is_empty() && terminal_row == height / 3 {
                        self.draw_welcome_message(banner)
                    } else {
                        proof {
                            reveal_strlit("~");
                            assert("~"@ =~= seq!['~']);
                        }
                        "~".to_owned()
                    }
                },
            };
            lines.push(line);
            terminal_row = terminal_row + 1;
        }
        lines
    }

    /// The status line for the current document and cursor.
    pub fn draw_status_bar(&self) -> (r: String)
        ensures
            r@ == status_line(
                self.doc().source_name(),
                self.doc().line_count(),
                self.cursor().y as int,
                self.viewport().width as int,
            ),
    {
        let width = self.size.width as usize;
        let lines = self.document.len();
        let mut status = match self.document.file_name() {
            Some(name) => prefix_string(name.as_str(), FILE_NAME_WIDTH),
            None => "[No Name]".to_owned(),
        };
        status.append(" - ");
        let count = decimal_string(lines);
        status.append(count.as_str());
        status.append(" lines");
        let mut indicator = decimal_string(self.placement.cursor_position.y.saturating_add(1));
        indicator.append("/");
        indicator.append(count.as_str());
        let length = status.as_str().unicode_len().saturating_add(indicator.as_str().unicode_len());
        if width > length {
            let fill = space_string(width - length);
            status.append(fill.as_str());
        }
        status.append(indicator.as_str());
        prefix_string(status.as_str(), width)
    }

    /// The message line: the status message cut to the viewport's width
    /// while it is younger than the timeout, else nothing.
    pub fn draw_message_bar(&self, elapsed_ms: u128) -> (r: String)
        ensures
            r@ == if elapsed_ms < MESSAGE_TIMEOUT_MS {
                prefix(self.message(), self.viewport().width as int)
            } else {
                Seq::empty()
            },
    {
        if elapsed_ms < MESSAGE_TIMEOUT_MS {
            prefix_string(self.status_message.as_str(), self.size.width as usize)
        } else {
            String::new()
        }
    }

    /// Where the cursor shows on screen: its position less the viewport's
    /// offset, not below zero.
    pub fn screen_cursor(&self) -> (r: Position)
        ensures
            r.x == if self.cursor().x >= self.view_offset().x {
                self.cursor().x - self.view_offset().x
            } else {
                0
            },
            r.y == if self.cursor().y >= self.view_offset().y {
                self.cursor().y - self.view_offset().y
            } else {
                0
            },
    {
        Position {
            x: self.placement.cursor_position.x.saturating_sub(self.placement.offset.x),
            y: self.placement.cursor_position.y.saturating_sub(self.placement.offset.y),
        }
    }

    /// Where `key` moves the cursor.
    fn move_cursor(&self, key: Key) -> (r: Position)
        requires
            key.is_movement(),
        ensures
            r.x == moved(self.doc(), self.viewport().height as int, self.cursor().x as int, self.cursor().y as int, key).0,
            r.y == moved(self.doc(), self.viewport().height as int, self.cursor().x as int, self.cursor().y as int, key).1,
            cursor_in_document(self.doc(), r),
    {
        proof {
            use_type_invariant(self);
        }
        let terminal_height = self.size.height as usize;
        let mut cursor_x = self.placement.cursor_position.x;
        let mut cursor_y = self.placement.cursor_position.y;
        let doc_height = self.document.len();
        let doc_width = row_width(&self.document, cursor_y);
        match key {
            Key::Up => cursor_y = cursor_y.saturating_sub(1),
            Key::Down => {
                if cursor_y < doc_height {
                    cursor_y = cursor_y + 1;
                }
            },
            Key::Left => {
                if cursor_x > 0 {
                    cursor_x = cursor_x - 1;
                } else if cursor_y > 0 {
                    cursor_y = cursor_y - 1;
                    cursor_x = row_width(&self.document, cursor_y);
                }
            },
            Key::Right => {
                if cursor_x < doc_width {
                    cursor_x = cursor_x + 1;
                } else if cursor_y < doc_height {
                    cursor_y = cursor_y + 1;
                    cursor_x = 0;
                }
            },
            Key::PageUp => cursor_y = cursor_y.saturating_sub(terminal_height / 2),
            Key::PageDown => {
                let half = terminal_height / 2;
                cursor_y = if half < doc_height - cursor_y {
                    cursor_y + half
                } else {
                    doc_height
                };
            },
            Key::Home => cursor_x = 0,
            Key::End => cursor_x = doc_width,
            _ => {},
        }
        let width = row_width(&self.document, cursor_y);
        if cursor_x > width {
            cursor_x = width;
        }
        Position { x: cursor_x, y: cursor_y }
    }

    /// Handles one key: the quit chord makes the editor quit, a movement key
    /// moves the cursor, any other key changes nothing; then the viewport
    /// scrolls as little as it must to show the cursor.
    pub fn process_keypress(&mut self, key: Key)
        ensures
            final(self).doc() == old(self).doc(),
            final(self).viewport() == old(self).viewport(),
            final(self).message() == old(self).message(),
            final(self).quitting() == (old(self).quitting() || key == Key::Ctrl(QUIT_CHORD)),
            key.is_movement() ==> final(self).cursor().x == moved(
                old(self).doc(),
                old(self).viewport().height as int,
                old(self).cursor().x as int,
                old(self).cursor().y as int,
                key,
            ).0,
            key.is_movement() ==> final(self).cursor().y == moved(
                old(self).doc(),
                old(self).viewport().height as int,
                old(self).cursor().x as int,
                old(self).cursor().y as int,
                key,
            ).1,
            !key.is_movement() ==> final(self).cursor() == old(self).cursor(),
            final(self).view_offset().y == scrolled(
                final(self).cursor().y as int,
                old(self).view_offset().y as int,
                old(self).viewport().height as int,
            ),
            final(self).view_offset().x == scrolled(
                final(self).cursor().x as int,
                old(self).view_offset().x as int,
                old(self).viewport().width as int,
            ),
            cursor_in_document(final(self).doc(), final(self).cursor()),
            final(self).viewport().height >= 1 && final(self).viewport().width >= 1
                ==> cursor_in_view(final(self).cursor(), final(self).view_offset(), final(self).viewport()),
    {
        proof {
            use_type_invariant(&*self);
        }
        if key == Key::Ctrl(QUIT_CHORD) {
            self.quit_flag = true;
        }
        let cursor = if key.is_movement() {
            self.move_cursor(key)
        } else {
            self.placement.cursor_position
        };
        let offset = scroll_offset(cursor, self.placement.offset, self.size);
        proof {
            if self.size.height >= 1 {
                lemma_scroll_shows_cursor(cursor.y as int, self.placement.offset.y as int, self.size.height as int);
            }
            if self.size.width >= 1 {
                lemma_scroll_shows_cursor(cursor.x as int, self.placement.offset.x as int, self.size.width as int);
            }
        }
        self.placement = Placement { cursor_position: cursor, offset };
    }
}

/// Scrolling keeps the cursor in view: after the least scroll, the offset
/// is at most the cursor coordinate and the cursor lies before the end of
/// the viewport, whatever the offset was.
pub proof fn lemma_scroll_shows_cursor(c: int, o: int, n: int)
    requires
        0 <= c <= usize::MAX,
        0 <= o,
        n >= 1,
    ensures
        scrolled(c, o, n) <= c < scrolled(c, o, n) + n,
{
}

/// Movement never takes the cursor out of the document: from a position on
/// a row, not past its end, or at column 0 just past the last row, every
/// key leads to such a position again.
pub proof fn lemma_moves_stay_in_document(doc: Document, height: int, x: int, y: int, key: Key)
    requires
        0 <= y <= doc.line_count(),
        0 <= x <= doc.width_of(y),
        height >= 0,
    ensures
        ({
            let q = moved(doc, height, x, y, key);
            &&& 0 <= q.1 <= doc.line_count()
            &&& 0 <= q.0 <= doc.width_of(q.1)
            &&& q.1 == doc.line_count() ==> q.0 == 0
        }),
{
}

/// Where the keys `keys`, pressed in order, take the cursor `(x, y)` on
/// `doc`; keys that do not move the cursor leave it where it is.
pub open spec fn after_keys(doc: Document, height: int, x: int, y: int, keys: Seq<Key>) -> (int, int)
    decreases keys.len(),
{
    if keys.len() == 0 {
        (x, y)
    } else {
        let p = after_keys(doc, height, x, y, keys.drop_last());
        if keys.last().is_movement() {
            moved(doc, height, p.0, p.1, keys.last())
        } else {
            p
        }
    }
}

/// Every position that movement keys reach from the top left lies on a row
/// of the document, or at column 0 just past its last row, and not past the
/// end of its row.
pub proof fn lemma_reachable_in_document(doc: Document, height: int, keys: Seq<Key>)
    requires
        height >= 0,
    ensures
        ({
            let q = after_keys(doc, height, 0, 0, keys);
            &&& 0 <= q.1 <= doc.line_count()
            &&& 0 <= q.0 <= doc.width_of(q.1)
            &&& q.1 == doc.line_count() ==> q.0 == 0
        }),
    decreases keys.len(),
{
    if keys.len() > 0 {
        lemma_reachable_in_document(doc, height, keys.drop_last());
        let p = after_keys(doc, height, 0, 0, keys.drop_last());
        if keys.last().is_movement() {
            lemma_moves_stay_in_document(doc, height, p.0, p.1, keys.last());
        }
    }
}

/// Left at the start of a row goes to the end of the row above, and Right at
/// the end of a row that is not past the document goes to the start of the
/// next row; each undoes the other.
pub proof fn lemma_wrap_between_rows(doc: Document, height: int, y: int)
    requires
        0 <= y < doc.line_count(),
        height >= 0,
    ensures
        moved(doc, height, 0, y + 1, Key::Left) == (doc.width_of(y) as int, y),
        moved(doc, height, doc.width_of(y) as int, y, Key::Right) == (0int, y + 1),
{
}

} // verus!
