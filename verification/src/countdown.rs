//! The countdown as text: a number of seconds as `MM:SS`, and a text drawn in
//! the large-digit font as five rows.

use crate::font::font_row;
use crate::font::glyph_index;
use crate::font::glyph_of;
use crate::font::glyph_row;
use crate::font::lemma_glyph_rows_have_glyph_width;
use crate::font::COLON_GLYPH;
use crate::font::GLYPH_HEIGHT;
use crate::font::GLYPH_WIDTH;
use crate::text::lemma_two_digit_text_len;
use crate::text::push_two_digits;
use crate::text::two_digit_text;
use crate::timer::PomodoroTimer;
use crate::timer::SECONDS_PER_MINUTE;
use vstd::prelude::*;
use vstd::string::StringExecFns;

verus! {

/// `total_seconds` as minutes and seconds, each padded to two digits and
/// separated by a colon. There is no hour field: from one hundred minutes on
/// the minutes take as many digits as they need.
pub open spec fn clock_text(total_seconds: nat) -> Seq<char> {
    two_digit_text(total_seconds / SECONDS_PER_MINUTE as nat) + seq![':'] + two_digit_text(
        total_seconds % SECONDS_PER_MINUTE as nat,
    )
}

/// The text of a time below one hundred minutes has exactly five characters,
/// that of a longer time has more; the colon always stands third from the
/// end, before the two digits of the seconds.
pub proof fn lemma_clock_text_shape(total_seconds: nat)
    ensures
        total_seconds < 100 * SECONDS_PER_MINUTE <==> clock_text(total_seconds).len() == 5,
        clock_text(total_seconds).len() >= 5,
        clock_text(total_seconds)[clock_text(total_seconds).len() - 3] == ':',
{
    lemma_two_digit_text_len(total_seconds / SECONDS_PER_MINUTE as nat);
    lemma_two_digit_text_len(total_seconds % SECONDS_PER_MINUTE as nat);
}

/// Row `row` of `text` drawn in the large-digit font: the rows `row` of the
/// glyphs of its characters, side by side in the order of the text.
pub open spec fn banner_row(text: Seq<char>, row: int) -> Seq<char>
    decreases text.len(),
{
    if text.len() == 0 {
        Seq::empty()
    } else {
        banner_row(text.drop_last(), row) + glyph_row(text.last(), row)
    }
}

/// Every row of a banner is `GLYPH_WIDTH` characters wide for each character
/// of the text, so all rows are equally long and those of the empty text are
/// empty.
pub proof fn lemma_banner_row_len(text: Seq<char>, row: int)
    requires
        0 <= row < GLYPH_HEIGHT,
    ensures
        banner_row(text, row).len() == GLYPH_WIDTH * text.len(),
    decreases text.len(),
{
    if text.len() > 0 {
        lemma_banner_row_len(text.drop_last(), row);
        lemma_glyph_rows_have_glyph_width(text.last(), row);
    }
}

/// The banner of a text followed by one more character is the banner of the
/// text with that character's glyph set to its right.
pub proof fn lemma_banner_row_push(text: Seq<char>, c: char, row: int)
    ensures
        banner_row(text.push(c), row) == banner_row(text, row) + glyph_row(c, row),
{
    assert(text.push(c).drop_last() =~= text);
}

impl PomodoroTimer {
    /// Formats a number of seconds as `MM:SS`.
    pub fn format_time(seconds: u64) -> (text: String)
        ensures
            text@ == clock_text(seconds as nat),
    {
        let mut text = String::new();
        push_two_digits(&mut text, seconds / SECONDS_PER_MINUTE);
        text.append(":");
        proof {
            reveal_strlit(":");
        }
        push_two_digits(&mut text, seconds % SECONDS_PER_MINUTE);
        text
    }

    /// Draws `time_str` in the large-digit font. A character that is no digit
    /// is drawn as the colon.
    pub fn get_ascii_digits(time_str: &str) -> (rows: Vec<String>)
        ensures
            rows@.len() == GLYPH_HEIGHT,
            forall|row: int|
                0 <= row < GLYPH_HEIGHT ==> (#[trigger] rows@[row])@ == banner_row(time_str@, row),
            forall|row: int|
                0 <= row < GLYPH_HEIGHT ==> (#[trigger] rows@[row])@.len() == GLYPH_WIDTH
                    * time_str@.len(),
    {
        let mut result: Vec<String> = Vec::new();
        for row in 0..GLYPH_HEIGHT
            invariant
                result@.len() == row,
                forall|r: int| 0 <= r < row ==> (#[trigger] result@[r])@ == Seq::<char>::empty(),
        {
            result.push(String::new());
        }
        for ch in it: time_str.chars()
            invariant
                it.seq() == time_str@,
                result@.len() == GLYPH_HEIGHT,
                forall|r: int|
                    0 <= r < GLYPH_HEIGHT ==> (#[trigger] result@[r])@ == banner_row(
                        time_str@.take(it.index()),
                        r,
                    ),
        {
            let glyph: usize = glyph_index(ch);
            for row in 0..GLYPH_HEIGHT
                invariant
                    glyph == glyph_of(ch),
                    glyph <= COLON_GLYPH,
                    result@.len() == GLYPH_HEIGHT,
                    forall|r: int|
                        0 <= r < row ==> (#[trigger] result@[r])@ == banner_row(
                            time_str@.take(it.index()),
                            r,
                        ) + glyph_row(ch, r),
                    forall|r: int|
                        row <= r < GLYPH_HEIGHT ==> (#[trigger] result@[r])@ == banner_row(
                            time_str@.take(it.index()),
                            r,
                        ),
            {
                result[row].append(font_row(glyph, row));
            }
            proof {
                let done = time_str@.take(it.index());
                assert(time_str@.take(it.index() + 1) =~= done.push(ch));
                assert forall|r: int| 0 <= r < GLYPH_HEIGHT implies (#[trigger] result@[r])@
                    == banner_row(time_str@.take(it.index() + 1), r) by {
                    lemma_banner_row_push(done, ch, r);
                }
            }
        }
        proof {
            assert(time_str@.take(time_str@.len() as int) =~= time_str@);
            assert forall|row: int| 0 <= row < GLYPH_HEIGHT implies (#[trigger] result@[row])@.len()
                == GLYPH_WIDTH * time_str@.len() by {
                lemma_banner_row_len(time_str@, row);
            }
        }
        result
    }
}

} // verus!
