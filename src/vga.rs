//! Text console driver over a 25x80 grid of volatile glyph cells.
use vstd::prelude::*;
use vstd::string::StringSliceAdditionalSpecFns;
use volatile::Volatile;

verus! {

pub const BUFFER_HEIGHT: usize = 25;

pub const BUFFER_WIDTH: usize = 80;

/// Number of glyph cells in the grid, stored row by row.
pub const BUFFER_CELLS: usize = 2000;

/// Glyph shown in place of a byte that the console cannot display.
pub const SUBSTITUTE_GLYPH: u8 = 0xfe;

pub const BACKSPACE: u8 = 0x08;

pub const BLANK_GLYPH: u8 = 0x20;

pub const NEWLINE: u8 = 0x0a;

/// Index/select port of the display's cursor position register.
pub const CURSOR_INDEX_PORT: u16 = 0x3D4;

/// Data port of the display's cursor position register.
pub const CURSOR_DATA_PORT: u16 = 0x3D5;

#[derive(Debug, Clone, Copy, PartialEq, Eq, Structural)]
pub enum Color {
    Black,
    Blue,
    Green,
    Cyan,
    Red,
    Magenta,
    Brown,
    LightGray,
    DarkGray,
    LightBlue,
    LightGreen,
    LightCyan,
    LightRed,
    Pink,
    Yellow,
    White,
}

impl Color {
    /// The 4-bit hardware code of the color.
    pub open spec fn spec_code(self) -> u8 {
        match self {
            Color::Black => 0,
            Color::Blue => 1,
            Color::Green => 2,
            Color::Cyan => 3,
            Color::Red => 4,
            Color::Magenta => 5,
            Color::Brown => 6,
            Color::LightGray => 7,
            Color::DarkGray => 8,
            Color::LightBlue => 9,
            Color::LightGreen => 10,
            Color::LightCyan => 11,
            Color::LightRed => 12,
            Color::Pink => 13,
            Color::Yellow => 14,
            Color::White => 15,
        }
    }

    pub fn code(self) -> (r: u8)
        ensures
            r == self.spec_code(),
            r < 16,
    {
        match self {
            Color::Black => 0,
            Color::Blue => 1,
            Color::Green => 2,
            Color::Cyan => 3,
            Color::Red => 4,
            Color::Magenta => 5,
            Color::Brown => 6,
            Color::LightGray => 7,
            Color::DarkGray => 8,
            Color::LightBlue => 9,
            Color::LightGreen => 10,
            Color::LightCyan => 11,
            Color::LightRed => 12,
            Color::Pink => 13,
            Color::Yellow => 14,
            Color::White => 15,
        }
    }
}

/// A cell attribute: background color in the high nibble, foreground in the low one.
#[derive(Debug, Clone, Copy, PartialEq, Eq, Structural)]
pub struct ColorCode(pub u8);

impl ColorCode {
    pub fn new(foreground: Color, background: Color) -> (r: ColorCode)
        ensures
            r.0 == background.spec_code() * 16 + foreground.spec_code(),
    {
        let fg = foreground.code();
        let bg = background.code();
        assert((bg << 4u8) | fg == bg * 16 + fg) by (bit_vector)
            requires
                fg < 16,
                bg < 16,
        ;
        ColorCode((bg << 4u8) | fg)
    }
}

/// One glyph cell of the display: a byte and its attribute.
#[derive(Debug, Clone, Copy, PartialEq, Eq, Structural)]
pub struct ScreenChar {
    pub ascii_char: u8,
    pub color_code: ColorCode,
}

#[verifier::external_type_specification]
#[verifier::external_body]
#[verifier::reject_recursive_types(T)]
pub struct ExVolatile<T: Copy>(Volatile<T>);

/// The glyph that a volatile cell holds.
pub uninterp spec fn cell_value(v: Volatile<ScreenChar>) -> ScreenChar;

/// Relies on `volatile::Volatile::new`: the new cell holds the given value.
#[verifier::external_body]
fn new_cell(c: ScreenChar) -> (r: Volatile<ScreenChar>)
    ensures
        cell_value(r) == c,
{
    Volatile::new(c)
}

/// Relies on `volatile::Volatile::read`: a volatile load of the value the cell holds.
#[verifier::external_body]
fn read_cell(v: &Volatile<ScreenChar>) -> (r: ScreenChar)
    ensures
        r == cell_value(*v),
{
    v.read()
}

/// Relies on `volatile::Volatile::write`: a volatile store, after which the cell holds `c`.
#[verifier::external_body]
fn write_cell(v: &mut Volatile<ScreenChar>, c: ScreenChar)
    ensures
        cell_value(*final(v)) == c,
{
    v.write(c)
}

/// The display memory: the cells and the hardware cursor position register.
struct Buffer {
    chars: Vec<Volatile<ScreenChar>>,
    cursor: u16,
}

impl Buffer {
    pub closed spec fn cells(&self) -> Seq<ScreenChar> {
        self.chars@.map_values(|v: Volatile<ScreenChar>| cell_value(v))
    }

    pub closed spec fn cursor(&self) -> int {
        self.cursor as int
    }

    fn filled(c: ScreenChar) -> (r: Buffer)
        ensures
            r.cells() == Seq::new(BUFFER_CELLS as nat, |i: int| c),
            r.cursor() == 0,
    {
        let mut chars: Vec<Volatile<ScreenChar>> = Vec::new();
        let mut i: usize = 0;
        while i < BUFFER_CELLS
            invariant
                i <= BUFFER_CELLS,
                chars@.len() == i,
                forall|j: int| 0 <= j < i ==> cell_value(#[trigger] chars@[j]) == c,
            decreases BUFFER_CELLS - i,
        {
            chars.push(new_cell(c));
            i = i + 1;
        }
        let r = Buffer { chars, cursor: 0 };
        assert(r.cells() =~= Seq::new(BUFFER_CELLS as nat, |i: int| c));
        r
    }

    fn read_at(&self, i: usize) -> (r: ScreenChar)
        requires
            i < self.cells().len(),
        ensures
            r == self.cells()[i as int],
    {
        read_cell(&self.chars[i])
    }

    fn write_at(&mut self, i: usize, c: ScreenChar)
        requires
            i < old(self).cells().len(),
        ensures
            final(self).cells() == old(self).cells().update(i as int, c),
            final(self).cursor() == old(self).cursor(),
    {
        write_cell(&mut self.chars[i], c);
        assert(self.cells() =~= old(self).cells().update(i as int, c));
    }

    /// Stores the linear position of column `x`, row `y` in the cursor register.
    fn update_cursor(&mut self, x: u8, y: u8)
        ensures
            final(self).cursor() == y * BUFFER_WIDTH + x,
            final(self).cells() == old(self).cells(),
    {
        assert(y as u16 * 80 <= 20400) by (nonlinear_arith)
            requires
                y <= 255,
        ;
        let pos: u16 = y as u16 * BUFFER_WIDTH as u16 + x as u16;
        self.cursor = pos;
    }
}

/// The console as a reader sees it: cursor, attribute, glyph grid and hardware cursor register.
pub ghost struct Console {
    pub row: int,
    pub col: int,
    pub color: ColorCode,
    pub cells: Seq<ScreenChar>,
    pub cursor: int,
}

/// The cursor lies on the grid; column `BUFFER_WIDTH` marks a pending wrap.
pub open spec fn console_wf(c: Console) -> bool {
    &&& 0 <= c.row < BUFFER_HEIGHT
    &&& 0 <= c.col <= BUFFER_WIDTH
    &&& c.cells.len() == BUFFER_CELLS
}

pub open spec fn cell_index(row: int, col: int) -> int {
    row * BUFFER_WIDTH + col
}

pub open spec fn blank(color: ColorCode) -> ScreenChar {
    ScreenChar { ascii_char: 0x20, color_code: color }
}

/// Bytes that the console shows as they are.
pub open spec fn is_printable(b: u8) -> bool {
    0x20 <= b <= 0x7e
}

/// `cells` with every cell of `row` blanked.
pub open spec fn clear_row_cells(cells: Seq<ScreenChar>, row: int, color: ColorCode) -> Seq<ScreenChar> {
    Seq::new(
        cells.len(),
        |i: int|
            if cell_index(row, 0) <= i < cell_index(row + 1, 0) {
                blank(color)
            } else {
                cells[i]
            },
    )
}

/// Rows 0 and 1 stay; every row from row 3 on moves up by one; the last row keeps its content.
pub open spec fn scroll_cells(cells: Seq<ScreenChar>) -> Seq<ScreenChar> {
    Seq::new(
        cells.len(),
        |i: int|
            if cell_index(2, 0) <= i < cell_index(BUFFER_HEIGHT - 1, 0) {
                cells[i + BUFFER_WIDTH]
            } else {
                cells[i]
            },
    )
}

/// Moves to column 0 of the next row, scrolling at the last row, and blanks the new row.
pub open spec fn new_line_spec(c: Console) -> Console {
    let last = c.row == BUFFER_HEIGHT - 1;
    let row = if last { c.row } else { c.row + 1 };
    let cells = if last { scroll_cells(c.cells) } else { c.cells };
    Console { row, col: 0, cells: clear_row_cells(cells, row, c.color), ..c }
}

/// Places one byte as a glyph, wrapping first when the row is full; newline starts a new line.
pub open spec fn write_byte_spec(c: Console, b: u8) -> Console {
    if b == NEWLINE {
        new_line_spec(c)
    } else {
        let d = if c.col >= BUFFER_WIDTH { new_line_spec(c) } else { c };
        let glyph = ScreenChar { ascii_char: b, color_code: d.color };
        Console { col: d.col + 1, cells: d.cells.update(cell_index(d.row, d.col), glyph), ..d }
    }
}

/// Erases backwards. From column 1 or 0 the cursor goes to the far right of the previous row
/// and the last cell of that row is blanked. On the first row nothing changes.
pub open spec fn backspace_spec(c: Console) -> Console {
    if c.row < 1 {
        c
    } else if c.col > 1 {
        Console { col: c.col - 1, cells: c.cells.update(cell_index(c.row, c.col - 1), blank(c.color)), ..c }
    } else {
        Console {
            row: c.row - 1,
            col: BUFFER_WIDTH as int,
            cells: c.cells.update(cell_index(c.row - 1, BUFFER_WIDTH - 1), blank(c.color)),
            ..c
        }
    }
}

/// One byte of a string: backspace erases, printable bytes and newline are written,
/// anything else is written as the substitution glyph.
pub open spec fn string_byte_spec(c: Console, b: u8) -> Console {
    if b == BACKSPACE {
        backspace_spec(c)
    } else if is_printable(b) || b == NEWLINE {
        write_byte_spec(c, b)
    } else {
        write_byte_spec(c, SUBSTITUTE_GLYPH)
    }
}

pub open spec fn write_bytes_spec(c: Console, bytes: Seq<u8>) -> Console
    decreases bytes.len(),
{
    if bytes.len() == 0 {
        c
    } else {
        string_byte_spec(write_bytes_spec(c, bytes.drop_last()), bytes.last())
    }
}

/// Writes the bytes, then brings the hardware cursor to the logical cursor.
pub open spec fn write_string_spec(c: Console, bytes: Seq<u8>) -> Console {
    let d = write_bytes_spec(c, bytes);
    Console { cursor: cell_index(d.row, d.col), ..d }
}

proof fn lemma_new_line_wf(c: Console)
    requires
        console_wf(c),
    ensures
        console_wf(new_line_spec(c)),
        new_line_spec(c).color == c.color,
        new_line_spec(c).cursor == c.cursor,
{
}

proof fn lemma_string_byte_wf(c: Console, b: u8)
    requires
        console_wf(c),
    ensures
        console_wf(string_byte_spec(c, b)),
        string_byte_spec(c, b).color == c.color,
        string_byte_spec(c, b).cursor == c.cursor,
{
    lemma_new_line_wf(c);
}

/// Every sequence of writes keeps the cursor on the grid, the attribute and the cursor register.
pub proof fn lemma_write_bytes_wf(c: Console, bytes: Seq<u8>)
    requires
        console_wf(c),
    ensures
        console_wf(write_bytes_spec(c, bytes)),
        write_bytes_spec(c, bytes).color == c.color,
        write_bytes_spec(c, bytes).cursor == c.cursor,
    decreases bytes.len(),
{
    if bytes.len() > 0 {
        lemma_write_bytes_wf(c, bytes.drop_last());
        lemma_string_byte_wf(write_bytes_spec(c, bytes.drop_last()), bytes.last());
    }
}

/// The console driver: logical cursor, current attribute, and the display it owns.
pub struct Writer {
    column_position: usize,
    row_position: usize,
    color_code: ColorCode,
    buffer: Buffer,
}

impl View for Writer {
    type V = Console;

    closed spec fn view(&self) -> Console {
        Console {
            row: self.row_position as int,
            col: self.column_position as int,
            color: self.color_code,
            cells: self.buffer.cells(),
            cursor: self.buffer.cursor(),
        }
    }
}

impl Writer {
    pub open spec fn wf(&self) -> bool {
        console_wf(self@)
    }

    /// A console with the cursor at the top left, light green on black, every cell blank.
    pub fn new() -> (r: Writer)
        ensures
            r.wf(),
            r@.row == 0,
            r@.col == 0,
            r@.color == ColorCode(0x0a),
            r@.cells == Seq::new(BUFFER_CELLS as nat, |i: int| blank(ColorCode(0x0a))),
            r@.cursor == 0,
    {
        let color_code = ColorCode::new(Color::LightGreen, Color::Black);
        let buffer = Buffer::filled(ScreenChar { ascii_char: BLANK_GLYPH, color_code });
        Writer { column_position: 0, row_position: 0, color_code, buffer }
    }

    /// The glyph at `row`, `col`.
    pub fn char_at(&self, row: usize, col: usize) -> (r: ScreenChar)
        requires
            self.wf(),
            row < BUFFER_HEIGHT,
            col < BUFFER_WIDTH,
        ensures
            r == self@.cells[cell_index(row as int, col as int)],
    {
        self.buffer.read_at(row * BUFFER_WIDTH + col)
    }

    pub fn row_position(&self) -> (r: usize)
        ensures
            r == self@.row,
    {
        self.row_position
    }

    pub fn column_position(&self) -> (r: usize)
        ensures
            r == self@.col,
    {
        self.column_position
    }

    /// The linear position last stored in the hardware cursor register.
    pub fn cursor_position(&self) -> (r: u16)
        ensures
            r == self@.cursor,
    {
        self.buffer.cursor
    }

    pub fn clear_row(&mut self, row: usize)
        requires
            old(self).wf(),
            row < BUFFER_HEIGHT,
        ensures
            final(self)@ == (Console {
                cells: clear_row_cells(old(self)@.cells, row as int, old(self)@.color),
                ..old(self)@
            }),
    {
        let blank_char = ScreenChar { ascii_char: BLANK_GLYPH, color_code: self.color_code };
        let start: usize = row * BUFFER_WIDTH;
        let mut col: usize = 0;
        while col < BUFFER_WIDTH
            invariant
                col <= BUFFER_WIDTH,
                start == row * BUFFER_WIDTH,
                row < BUFFER_HEIGHT,
                self.row_position == old(self).row_position,
                self.column_position == old(self).column_position,
                self.color_code == old(self).color_code,
                self.buffer.cursor() == old(self).buffer.cursor(),
                blank_char == blank(self.color_code),
                self.buffer.cells().len() == BUFFER_CELLS,
                forall|i: int|
                    0 <= i < BUFFER_CELLS ==> #[trigger] self.buffer.cells()[i] == if start <= i < start
                        + col {
                        blank_char
                    } else {
                        old(self).buffer.cells()[i]
                    },
            decreases BUFFER_WIDTH - col,
        {
            self.buffer.write_at(start + col, blank_char);
            col = col + 1;
        }
        assert(self@.cells =~= clear_row_cells(old(self)@.cells, row as int, old(self)@.color));
    }

    /// Moves every row from row 3 on up by one row; rows 0 and 1 are never written.
    fn scroll(&mut self)
        requires
            old(self).wf(),
        ensures
            final(self)@ == (Console { cells: scroll_cells(old(self)@.cells), ..old(self)@ }),
    {
        let end: usize = (BUFFER_HEIGHT - 1) * BUFFER_WIDTH;
        let mut i: usize = 2 * BUFFER_WIDTH;
        while i < end
            invariant
                2 * BUFFER_WIDTH <= i <= end,
                end == (BUFFER_HEIGHT - 1) * BUFFER_WIDTH,
                self.row_position == old(self).row_position,
                self.column_position == old(self).column_position,
                self.color_code == old(self).color_code,
                self.buffer.cursor() == old(self).buffer.cursor(),
                self.buffer.cells().len() == BUFFER_CELLS,
                forall|j: int|
                    0 <= j < BUFFER_CELLS ==> #[trigger] self.buffer.cells()[j] == if 2
                        * BUFFER_WIDTH <= j < i {
                        old(self).buffer.cells()[j + BUFFER_WIDTH]
                    } else {
                        old(self).buffer.cells()[j]
                    },
            decreases end - i,
        {
            let character = self.buffer.read_at(i + BUFFER_WIDTH);
            self.buffer.write_at(i, character);
            i = i + 1;
        }
        assert(self@.cells =~= scroll_cells(old(self)@.cells));
    }

    pub fn new_line(&mut self)
        requires
            old(self).wf(),
        ensures
            final(self)@ == new_line_spec(old(self)@),
            final(self).wf(),
    {
        if self.row_position != BUFFER_HEIGHT - 1 {
            self.row_position = self.row_position + 1;
        } else {
            self.scroll();
        }
        let row = self.row_position;
        self.clear_row(row);
        self.column_position = 0;
        proof {
            lemma_new_line_wf(old(self)@);
        }
    }

    /// Writes one byte as a glyph at the cursor; newline starts a new line.
    pub fn write_byte(&mut self, byte: u8)
        requires
            old(self).wf(),
        ensures
            final(self)@ == write_byte_spec(old(self)@, byte),
            final(self).wf(),
    {
        proof {
            lemma_string_byte_wf(old(self)@, byte);
            lemma_new_line_wf(old(self)@);
        }
        if byte == NEWLINE {
            self.new_line();
        } else {
            if self.column_position >= BUFFER_WIDTH {
                self.new_line();
            }
            let row = self.row_position;
            let col = self.column_position;
            let color_code = self.color_code;
            self.buffer.write_at(row * BUFFER_WIDTH + col, ScreenChar { ascii_char: byte, color_code });
            self.column_position = col + 1;
        }
    }

    /// Erases the glyph before the cursor; a no-op on the first row.
    pub fn backspace(&mut self)
        requires
            old(self).wf(),
        ensures
            final(self)@ == backspace_spec(old(self)@),
            final(self).wf(),
    {
        if self.row_position < 1 {
            return;
        }
        let blank_char = ScreenChar { ascii_char: BLANK_GLYPH, color_code: self.color_code };
        let row = self.row_position;
        let col = self.column_position;
        let erased: usize = if col > 1 {
            self.column_position = col - 1;
            row * BUFFER_WIDTH + col - 1
        } else {
            self.row_position = row - 1;
            self.column_position = BUFFER_WIDTH;
            (row - 1) * BUFFER_WIDTH + BUFFER_WIDTH - 1
        };
        self.buffer.write_at(erased, blank_char);
    }

    /// Writes the bytes of `s`: backspace erases, printable bytes and newline are written,
    /// every other byte shows as the substitution glyph. Then syncs the hardware cursor.
    pub fn write_string(&mut self, s: &str)
        requires
            old(self).wf(),
        ensures
            final(self)@ == write_string_spec(old(self)@, s.spec_bytes()),
            final(self).wf(),
    {
        let bytes = s.as_bytes();
        let mut i: usize = 0;
        while i < bytes.len()
            invariant
                i <= bytes@.len(),
                bytes@ == s.spec_bytes(),
                self.wf(),
                self@ == write_bytes_spec(old(self)@, bytes@.take(i as int)),
            decreases bytes@.len() - i,
        {
            let byte = bytes[i];
            proof {
                assert(bytes@.take(i + 1).drop_last() =~= bytes@.take(i as int));
            }
            if byte == BACKSPACE {
                self.backspace();
            } else if (0x20 <= byte && byte <= 0x7e) || byte == NEWLINE {
                self.write_byte(byte);
            } else {
                self.write_byte(SUBSTITUTE_GLYPH);
            }
            i = i + 1;
        }
        proof {
            assert(bytes@.take(bytes@.len() as int) =~= bytes@);
        }
        let col = self.column_position as u8;
        let row = self.row_position as u8;
        self.buffer.update_cursor(col, row);
    }
}

/// Relies on `String::from(char)`: a string that holds exactly that character.
#[verifier::external_body]
fn char_string(c: char) -> (r: String)
    ensures
        r@ == seq![c],
{
    String::from(c)
}

impl Writer {
    /// Writes the UTF-8 encoding of `c` as `write_string` does.
    pub fn write_char(&mut self, c: char)
        requires
            old(self).wf(),
        ensures
            final(self)@ == write_string_spec(old(self)@, vstd::utf8::encode_utf8(seq![c])),
            final(self).wf(),
    {
        let text = char_string(c);
        self.write_string(text.as_str());
    }
}

/// The port writes that bring the hardware cursor to linear position `pos`:
/// select the low byte register, write the low byte, select the high byte register,
/// write the high byte.
pub fn cursor_port_writes(pos: u16) -> (r: Vec<(u16, u8)>)
    ensures
        r@ == seq![
            (CURSOR_INDEX_PORT, 0x0fu8),
            (CURSOR_DATA_PORT, (pos % 256) as u8),
            (CURSOR_INDEX_PORT, 0x0eu8),
            (CURSOR_DATA_PORT, (pos / 256) as u8),
        ],
{
    let low = (pos & 0xff) as u8;
    let high = ((pos >> 8u16) & 0xff) as u8;
    assert(pos & 0xff == pos % 256) by (bit_vector);
    assert((pos >> 8u16) & 0xff == pos / 256) by (bit_vector);
    let mut r: Vec<(u16, u8)> = Vec::new();
    r.push((CURSOR_INDEX_PORT, 0x0f));
    r.push((CURSOR_DATA_PORT, low));
    r.push((CURSOR_INDEX_PORT, 0x0e));
    r.push((CURSOR_DATA_PORT, high));
    assert(r@ =~= seq![
        (CURSOR_INDEX_PORT, 0x0fu8),
        (CURSOR_DATA_PORT, (pos % 256) as u8),
        (CURSOR_INDEX_PORT, 0x0eu8),
        (CURSOR_DATA_PORT, (pos / 256) as u8),
    ]);
    r
}

/// Whatever bytes are written, the column never passes the buffer width, and a printable
/// byte written at a full row lands at column 0 of a new line.
pub proof fn lemma_column_within_width(c: Console, bytes: Seq<u8>, b: u8)
    requires
        console_wf(c),
    ensures
        write_bytes_spec(c, bytes).col <= BUFFER_WIDTH,
        console_wf(write_bytes_spec(c, bytes)),
        is_printable(b) && c.col == BUFFER_WIDTH ==> ({
            let n = new_line_spec(c);
            let d = string_byte_spec(c, b);
            &&& d.row == n.row
            &&& d.col == 1
            &&& d.cells == n.cells.update(cell_index(n.row, 0), ScreenChar { ascii_char: b, color_code: c.color })
        }),
{
    lemma_write_bytes_wf(c, bytes);
}

proof fn lemma_printable_run(c: Console, bytes: Seq<u8>, k: int)
    requires
        console_wf(c),
        c.col == 0,
        0 <= k <= bytes.len(),
        k <= BUFFER_WIDTH,
        forall|i: int| 0 <= i < bytes.len() ==> is_printable(#[trigger] bytes[i]),
    ensures
        write_bytes_spec(c, bytes.take(k)).row == c.row,
        write_bytes_spec(c, bytes.take(k)).col == k,
        write_bytes_spec(c, bytes.take(k)).color == c.color,
        console_wf(write_bytes_spec(c, bytes.take(k))),
    decreases k,
{
    if k == 0 {
        assert(bytes.take(0) =~= Seq::<u8>::empty());
    } else {
        lemma_printable_run(c, bytes, k - 1);
        assert(bytes.take(k).drop_last() =~= bytes.take(k - 1));
        assert(bytes.take(k).last() == bytes[k - 1]);
    }
}

/// Writing a full row of printable bytes from column 0 and then one more printable byte
/// puts that byte at column 0 of the next row.
pub proof fn lemma_wrap_after_full_row(c: Console, bytes: Seq<u8>)
    requires
        console_wf(c),
        c.col == 0,
        c.row < BUFFER_HEIGHT - 1,
        bytes.len() == BUFFER_WIDTH + 1,
        forall|i: int| 0 <= i < bytes.len() ==> is_printable(#[trigger] bytes[i]),
    ensures
        write_bytes_spec(c, bytes).row == c.row + 1,
        write_bytes_spec(c, bytes).col == 1,
        write_bytes_spec(c, bytes).cells[cell_index(c.row + 1, 0)] == (ScreenChar {
            ascii_char: bytes[BUFFER_WIDTH as int],
            color_code: c.color,
        }),
{
    lemma_printable_run(c, bytes, BUFFER_WIDTH as int);
    assert(bytes.drop_last() =~= bytes.take(BUFFER_WIDTH as int));
}

proof fn lemma_single_byte(c: Console, b: u8)
    ensures
        write_bytes_spec(c, seq![b]) == string_byte_spec(c, b),
{
    let bs = seq![b];
    assert(bs.drop_last() =~= Seq::<u8>::empty());
    assert(bs.last() == b);
    assert(write_bytes_spec(c, bs.drop_last()) == c);
}

/// A newline on the last row keeps rows 0 and 1, moves every later row up by one,
/// and leaves the last row blank with the cursor at its start.
pub proof fn lemma_scroll_keeps_reserved_rows(c: Console)
    requires
        console_wf(c),
        c.row == BUFFER_HEIGHT - 1,
    ensures
        ({
            let d = write_bytes_spec(c, seq![NEWLINE]);
            &&& d.row == BUFFER_HEIGHT - 1
            &&& d.col == 0
            &&& forall|i: int| 0 <= i < cell_index(2, 0) ==> d.cells[i] == c.cells[i]
            &&& forall|i: int|
                cell_index(2, 0) <= i < cell_index(BUFFER_HEIGHT - 1, 0) ==> d.cells[i]
                    == c.cells[i + BUFFER_WIDTH]
            &&& forall|i: int|
                cell_index(BUFFER_HEIGHT - 1, 0) <= i < BUFFER_CELLS ==> d.cells[i] == blank(
                    c.color,
                )
        }),
{
    lemma_single_byte(c, NEWLINE);
}

/// Backspace at column 1 below the first row moves the cursor to the end of the previous row
/// and blanks that row's last cell; on the first row it changes nothing.
pub proof fn lemma_backspace_wraps(c: Console)
    requires
        console_wf(c),
    ensures
        c.row == 0 ==> write_bytes_spec(c, seq![BACKSPACE]) == c,
        c.row >= 1 && c.col == 1 ==> write_bytes_spec(c, seq![BACKSPACE]) == (Console {
            row: c.row - 1,
            col: BUFFER_WIDTH as int,
            cells: c.cells.update(cell_index(c.row - 1, BUFFER_WIDTH - 1), blank(c.color)),
            ..c
        }),
{
    lemma_single_byte(c, BACKSPACE);
}

/// A byte that is neither printable, newline nor backspace is written as the
/// substitution glyph, and the console stays well formed.
pub proof fn lemma_substitution(c: Console, b: u8)
    requires
        console_wf(c),
        !is_printable(b),
        b != NEWLINE,
        b != BACKSPACE,
    ensures
        string_byte_spec(c, b) == write_byte_spec(c, SUBSTITUTE_GLYPH),
        console_wf(string_byte_spec(c, b)),
        ({
            let d = if c.col >= BUFFER_WIDTH { new_line_spec(c) } else { c };
            string_byte_spec(c, b).cells[cell_index(d.row, d.col)].ascii_char == SUBSTITUTE_GLYPH
        }),
{
    lemma_string_byte_wf(c, b);
    lemma_new_line_wf(c);
}

} // verus!
