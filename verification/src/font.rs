//! The large-digit font: eleven glyphs, the digits `0` to `9` and the colon,
//! each five rows of nine columns.

use vstd::prelude::*;

verus! {

/// Rows in every glyph.
pub const GLYPH_HEIGHT: usize = 5;

/// Columns in every glyph row.
pub const GLYPH_WIDTH: usize = 9;

/// The glyph that stands for anything but a digit: the colon.
pub const COLON_GLYPH: usize = 10;

/// The font as data: `font()[g][r]` is row `r` of glyph `g`. Glyphs 0 to 9
/// are the digits, glyph 10 is the colon.
pub open spec fn font() -> Seq<Seq<Seq<char>>> {
    seq![
        // 0
        seq![
            " ██████  "@,
            "██    ██ "@,
            "██    ██ "@,
            "██    ██ "@,
            " ██████  "@,
        ],
        // 1
        seq![
            "   ██    "@,
            " ████    "@,
            "   ██    "@,
            "   ██    "@,
            " ██████  "@,
        ],
        // 2
        seq![
            " ██████  "@,
            "      ██ "@,
            " ██████  "@,
            "██       "@,
            "████████ "@,
        ],
        // 3
        seq![
            " ██████  "@,
            "      ██ "@,
            " ██████  "@,
            "      ██ "@,
            " ██████  "@,
        ],
        // 4
        seq![
            "██    ██ "@,
            "██    ██ "@,
            "████████ "@,
            "      ██ "@,
            "      ██ "@,
        ],
        // 5
        seq![
            "████████ "@,
            "██       "@,
            "███████  "@,
            "      ██ "@,
            "███████  "@,
        ],
        // 6
        seq![
            " ██████  "@,
            "██       "@,
            "███████  "@,
            "██    ██ "@,
            " ██████  "@,
        ],
        // 7
        seq![
            "████████ "@,
            "      ██ "@,
            "    ██   "@,
            "  ██     "@,
            "██       "@,
        ],
        // 8
        seq![
            " ██████  "@,
            "██    ██ "@,
            " ██████  "@,
            "██    ██ "@,
            " ██████  "@,
        ],
        // 9
        seq![
            " ██████  "@,
            "██    ██ "@,
            " ███████ "@,
            "      ██ "@,
            " ██████  "@,
        ],
        // :
        seq![
            "         "@,
            "   ██    "@,
            "         "@,
            "   ██    "@,
            "         "@,
        ],
    ]
}

/// The glyph drawn for `c`: its own for a digit, the colon's for every other
/// character.
pub open spec fn glyph_of(c: char) -> int {
    if '0' <= c && c <= '9' {
        c as int - '0' as int
    } else {
        COLON_GLYPH as int
    }
}

/// Row `row` of the glyph drawn for `c`.
pub open spec fn glyph_row(c: char, row: int) -> Seq<char> {
    font()[glyph_of(c)][row]
}

/// Every row of every glyph is `GLYPH_WIDTH` characters wide.
pub proof fn lemma_glyph_rows_have_glyph_width(c: char, row: int)
    requires
        0 <= row < GLYPH_HEIGHT,
    ensures
        glyph_row(c, row).len() == GLYPH_WIDTH,
{
    reveal_strlit(" ██████  ");
    reveal_strlit("██    ██ ");
    reveal_strlit("   ██    ");
    reveal_strlit(" ████    ");
    reveal_strlit("      ██ ");
    reveal_strlit("██       ");
    reveal_strlit("████████ ");
    reveal_strlit("███████  ");
    reveal_strlit("    ██   ");
    reveal_strlit("  ██     ");
    reveal_strlit(" ███████ ");
    reveal_strlit("         ");
}

/// Computes `glyph_of`.
pub fn glyph_index(c: char) -> (glyph: usize)
    ensures
        glyph == glyph_of(c),
        glyph <= COLON_GLYPH,
{
    if c >= '0' && c <= '9' {
        (c as u32 - '0' as u32) as usize
    } else {
        COLON_GLYPH
    }
}

/// Looks one row of one glyph up in the font.
pub fn font_row(glyph: usize, row: usize) -> (line: &'static str)
    requires
        glyph <= COLON_GLYPH,
        row < GLYPH_HEIGHT,
    ensures
        line@ == font()[glyph as int][row as int],
{
    match glyph {
        0 => match row {
            0 => " ██████  ",
            1 => "██    ██ ",
            2 => "██    ██ ",
            3 => "██    ██ ",
            _ => " ██████  ",
        },
        1 => match row {
            0 => "   ██    ",
            1 => " ████    ",
            2 => "   ██    ",
            3 => "   ██    ",
            _ => " ██████  ",
        },
        2 => match row {
            0 => " ██████  ",
            1 => "      ██ ",
            2 => " ██████  ",
            3 => "██       ",
            _ => "████████ ",
        },
        3 => match row {
            0 => " ██████  ",
            1 => "      ██ ",
            2 => " ██████  ",
            3 => "      ██ ",
            _ => " ██████  ",
        },
        4 => match row {
            0 => "██    ██ ",
            1 => "██    ██ ",
            2 => "████████ ",
            3 => "      ██ ",
            _ => "      ██ ",
        },
        5 => match row {
            0 => "████████ ",
            1 => "██       ",
            2 => "███████  ",
            3 => "      ██ ",
            _ => "███████  ",
        },
        6 => match row {
            0 => " ██████  ",
            1 => "██       ",
            2 => "███████  ",
            3 => "██    ██ ",
            _ => " ██████  ",
        },
        7 => match row {
            0 => "████████ ",
            1 => "      ██ ",
            2 => "    ██   ",
            3 => "  ██     ",
            _ => "██       ",
        },
        8 => match row {
            0 => " ██████  ",
            1 => "██    ██ ",
            2 => " ██████  ",
            3 => "██    ██ ",
            _ => " ██████  ",
        },
        9 => match row {
            0 => " ██████  ",
            1 => "██    ██ ",
            2 => " ███████ ",
            3 => "      ██ ",
            _ => " ██████  ",
        },
        _ => match row {
            0 => "         ",
            1 => "   ██    ",
            2 => "         ",
            3 => "   ██    ",
            _ => "         ",
        },
    }
}

} // verus!
