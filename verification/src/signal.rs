//! Signal-quality glyph encoder: maps a 0-100 quality value to a short,
//! fixed-size glyph string under a chosen visual style.

use vstd::arithmetic::div_mod::lemma_div_is_ordered;
use vstd::prelude::*;
use vstd::string::StringExecFns;

verus! {

/// The visual styles a signal-quality value can be encoded in.
#[derive(Clone, Copy)]
pub enum BarStyle {
    BlockBars,
    BinaryCircles,
    BinarySquares,
    Stars,
    MiniBars,
}

/// Number of meter levels: buckets for the graduated bar, glyph slots for
/// the bracketed styles.
pub const SIGNAL_LEVELS: usize = 5;

/// The quality value clamped into 0..=100; out-of-range input is never
/// rejected.
pub open spec fn clamp_quality(q: u8) -> int {
    if q > 100 {
        100int
    } else {
        q as int
    }
}

/// How many glyph slots are filled in a bracketed meter.
pub open spec fn filled_count(q: u8) -> int {
    clamp_quality(q) * 5 / 100
}

/// The bucket a quality falls into for the graduated bar style:
/// 0..=20, 21..=40, 41..=60, 61..=80, 81..=100.
pub open spec fn bar_bucket(q: u8) -> int {
    let c = clamp_quality(q);
    if c <= 20 {
        0int
    } else if c <= 40 {
        1int
    } else if c <= 60 {
        2int
    } else if c <= 80 {
        3int
    } else {
        4int
    }
}

/// The character `c` repeated `n` times.
pub open spec fn char_repeat(c: char, n: nat) -> Seq<char>
    decreases n,
{
    if n == 0 {
        Seq::empty()
    } else {
        char_repeat(c, (n - 1) as nat).push(c)
    }
}

/// The graduated bar glyphs for one bucket: each successive string is the
/// previous one with one more bar glyph appended.
pub open spec fn block_bar_seq(bucket: int) -> Seq<char> {
    if bucket <= 0 {
        seq!['▂']
    } else if bucket == 1 {
        seq!['▂', '▄']
    } else if bucket == 2 {
        seq!['▂', '▄', '▆']
    } else if bucket == 3 {
        seq!['▂', '▄', '▆', '█']
    } else {
        seq!['▂', '▄', '▆', '█', '█']
    }
}

/// A bracketed meter: `filled` filled glyphs then the empty glyphs,
/// between '[' and ']'.
pub open spec fn bracket_seq(fc: char, ec: char, filled: int) -> Seq<char> {
    seq!['['] + char_repeat(fc, filled as nat) + char_repeat(ec, (5 - filled) as nat) + seq![']']
}

/// What `encode` returns for a quality and style.
pub open spec fn encoded_bar(q: u8, style: BarStyle) -> Seq<char> {
    match style {
        BarStyle::BlockBars => block_bar_seq(bar_bucket(q)),
        BarStyle::BinaryCircles => bracket_seq('●', '○', filled_count(q)),
        BarStyle::BinarySquares => bracket_seq('■', '□', filled_count(q)),
        BarStyle::MiniBars => bracket_seq('█', '░', filled_count(q)),
        BarStyle::Stars => bracket_seq('*', '-', filled_count(q)),
    }
}

/// The visual weight of an encoding: bars shown for the graduated style,
/// filled glyph count for the bracketed styles.
pub open spec fn glyph_weight(q: u8, style: BarStyle) -> int {
    match style {
        BarStyle::BlockBars => bar_bucket(q) + 1,
        _ => filled_count(q),
    }
}

/// Appends `count` copies of a one-character glyph to `s`.
fn append_repeated(s: &mut String, unit: &str, count: usize)
    requires
        unit@.len() == 1,
    ensures
        final(s)@ == old(s)@ + char_repeat(unit@[0], count as nat),
{
    proof {
        assert(s@ =~= old(s)@ + char_repeat(unit@[0], 0));
    }
    let mut i: usize = 0;
    while i < count
        invariant
            unit@.len() == 1,
            i <= count,
            s@ == old(s)@ + char_repeat(unit@[0], i as nat),
        decreases count - i,
    {
        s.append(unit);
        i = i + 1;
        proof {
            assert(unit@ =~= seq![unit@[0]]);
            assert(old(s)@ + char_repeat(unit@[0], i as nat) =~= old(s)@ + char_repeat(
                unit@[0],
                (i - 1) as nat,
            ) + unit@);
        }
    }
}

/// Builds one bracketed meter string.
fn bracket_bar(fc: &str, ec: &str, filled: usize) -> (r: String)
    requires
        fc@.len() == 1,
        ec@.len() == 1,
        filled <= 5,
    ensures
        r@ == bracket_seq(fc@[0], ec@[0], filled as int),
{
    let mut r = String::from_str("[");
    append_repeated(&mut r, fc, filled);
    append_repeated(&mut r, ec, 5 - filled);
    r.append("]");
    proof {
        reveal_strlit("[");
        reveal_strlit("]");
        assert(r@ =~= bracket_seq(fc@[0], ec@[0], filled as int));
    }
    r
}

/// Encodes a signal quality as a glyph string.  The quality is clamped to
/// 0..=100 first; the output is a pure function of the two arguments and
/// has a fixed size for each style.
pub fn encode(quality: u8, style: BarStyle) -> (r: String)
    ensures
        r@ == encoded_bar(quality, style),
{
    let q = if quality > 100 {
        100
    } else {
        quality
    };
    let filled: usize = q as usize * 5 / 100;
    proof {
        assert(filled == filled_count(quality));
        assert(filled <= 5) by {
            lemma_div_is_ordered(clamp_quality(quality) * 5, 500, 100);
        }
    }
    match style {
        BarStyle::BlockBars => {
            proof {
                reveal_strlit("\u{2582}");
                reveal_strlit("\u{2582}\u{2584}");
                reveal_strlit("\u{2582}\u{2584}\u{2586}");
                reveal_strlit("\u{2582}\u{2584}\u{2586}\u{2588}");
                reveal_strlit("\u{2582}\u{2584}\u{2586}\u{2588}\u{2588}");
            }
            let r: &'static str = if q <= 20 {
                "\u{2582}"
            } else if q <= 40 {
                "\u{2582}\u{2584}"
            } else if q <= 60 {
                "\u{2582}\u{2584}\u{2586}"
            } else if q <= 80 {
                "\u{2582}\u{2584}\u{2586}\u{2588}"
            } else {
                "\u{2582}\u{2584}\u{2586}\u{2588}\u{2588}"
            };
            proof {
                assert(r@ =~= block_bar_seq(bar_bucket(quality)));
            }
            r.to_owned()
        },
        BarStyle::BinaryCircles => {
            proof {
                reveal_strlit("\u{25cf}");
                reveal_strlit("\u{25cb}");
            }
            bracket_bar("\u{25cf}", "\u{25cb}", filled)
        },
        BarStyle::BinarySquares => {
            proof {
                reveal_strlit("\u{25a0}");
                reveal_strlit("\u{25a1}");
            }
            bracket_bar("\u{25a0}", "\u{25a1}", filled)
        },
        BarStyle::MiniBars => {
            proof {
                reveal_strlit("\u{2588}");
                reveal_strlit("\u{2591}");
            }
            bracket_bar("\u{2588}", "\u{2591}", filled)
        },
        BarStyle::Stars => {
            proof {
                reveal_strlit("*");
                reveal_strlit("-");
            }
            bracket_bar("*", "-", filled)
        },
    }
}

/// Law: the encoder is monotonic — a higher quality never shows a lighter
/// glyph, under every style.
pub proof fn lemma_encode_monotonic(q1: u8, q2: u8, style: BarStyle)
    requires
        q1 <= q2,
    ensures
        glyph_weight(q1, style) <= glyph_weight(q2, style),
{
    lemma_div_is_ordered(clamp_quality(q1) * 5, clamp_quality(q2) * 5, 100);
}

/// The repeated-character sequence has exactly the requested length.
pub proof fn lemma_char_repeat_len(c: char, n: nat)
    ensures
        char_repeat(c, n).len() == n,
    decreases n,
{
    if n > 0 {
        lemma_char_repeat_len(c, (n - 1) as nat);
    }
}

/// Law: the graduated bar shows one glyph more than its bucket index, so
/// its glyph count is exactly the visual weight.
pub proof fn lemma_block_bar_len(q: u8)
    ensures
        encoded_bar(q, BarStyle::BlockBars).len() == glyph_weight(q, BarStyle::BlockBars),
{
}

/// Law: every bracketed encoding has exactly the fixed number of glyph
/// slots between its two delimiters, whatever the quality.
pub proof fn lemma_bracket_len(q: u8, style: BarStyle)
    requires
        !(style is BlockBars),
    ensures
        encoded_bar(q, style).len() == SIGNAL_LEVELS + 2,
{
    lemma_div_is_ordered(0, clamp_quality(q) * 5, 100);
    lemma_div_is_ordered(clamp_quality(q) * 5, 500, 100);
    let f = filled_count(q);
    lemma_char_repeat_len('●', f as nat);
    lemma_char_repeat_len('○', (5 - f) as nat);
    lemma_char_repeat_len('■', f as nat);
    lemma_char_repeat_len('□', (5 - f) as nat);
    lemma_char_repeat_len('█', f as nat);
    lemma_char_repeat_len('░', (5 - f) as nat);
    lemma_char_repeat_len('*', f as nat);
    lemma_char_repeat_len('-', (5 - f) as nat);
}

} // verus!
