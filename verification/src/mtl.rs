//! The scan of a material library before the parser reads it.
//!
//! A line of a material library that begins with `Ka`, `Kd`, `Ks` or `Ke`
//! gives a colour by three values. The parser takes up to three words behind
//! the name and does not return where it finds fewer and all of them are
//! numbers. So a library is only parsed where every such line has three
//! words behind its name.

use vstd::prelude::*;
use crate::obj::{is_beyond_ascii, is_space, NEWLINE};

verus! {

/// The words of a line that gives a colour in full: its name and three
/// values.
pub const COLOUR_WORDS: u8 = 4;

/// How far the first word of a line has been read.
#[derive(Clone, Copy, Debug, PartialEq, Eq, Structural)]
pub enum ColourHead {
    /// Nothing but white space so far.
    Blank,
    /// The word is `K` so far.
    K,
    /// The word is `Ka`, `Kd`, `Ks` or `Ke` so far.
    Colour,
    /// The word is another one, or it is over.
    Word,
}

/// What the scan of a material library knows after some of its bytes.
#[derive(Clone, Copy, Debug, PartialEq, Eq, Structural)]
pub struct ColourScan {
    /// Every colour of the lines before this one is given in full.
    pub ok: bool,
    /// How far the first word of the line has been read.
    pub head: ColourHead,
    /// The line may give a colour: its first word is the name of one, or it
    /// begins with a byte beyond ASCII, behind which the word may begin
    /// anew.
    pub colour: bool,
    /// The byte before was white space, or the line begins here.
    pub spaced: bool,
    /// The words of the line so far that begin with an ASCII byte behind
    /// white space, which are words to the parser too; `COLOUR_WORDS` stands
    /// for as many or more.
    pub words: u8,
}

/// The scan before the first byte.
pub open spec fn colour_scan_start() -> ColourScan {
    ColourScan { ok: true, head: ColourHead::Blank, colour: false, spaced: true, words: 0 }
}

/// Does the line at hand give no colour, or give it in full? A line that is
/// nothing but the name of a colour gives none of its values.
pub open spec fn line_complete(s: ColourScan) -> bool {
    !(s.colour || s.head == ColourHead::Colour) || s.words >= COLOUR_WORDS
}

/// The scan after one more byte of the first word of a line.
pub open spec fn read_colour_head(s: ColourScan, b: u8) -> ColourScan {
    match s.head {
        ColourHead::Blank => if is_space(b) {
            s
        } else if is_beyond_ascii(b) {
            ColourScan { head: ColourHead::Word, colour: true, ..s }
        } else if b == 0x4b {
            ColourScan { head: ColourHead::K, ..s }
        } else {
            ColourScan { head: ColourHead::Word, ..s }
        },
        ColourHead::K => if b == 0x61 || b == 0x64 || b == 0x73 || b == 0x65 {
            ColourScan { head: ColourHead::Colour, ..s }
        } else {
            ColourScan { head: ColourHead::Word, ..s }
        },
        ColourHead::Colour => if is_space(b) || is_beyond_ascii(b) {
            ColourScan { head: ColourHead::Word, colour: true, ..s }
        } else {
            ColourScan { head: ColourHead::Word, ..s }
        },
        ColourHead::Word => s,
    }
}

/// The scan after one more byte.
pub open spec fn colour_scan_step(s: ColourScan, b: u8) -> ColourScan {
    if b == NEWLINE {
        ColourScan {
            ok: s.ok && line_complete(s),
            head: ColourHead::Blank,
            colour: false,
            spaced: true,
            words: 0,
        }
    } else {
        let s = read_colour_head(s, b);
        ColourScan {
            spaced: is_space(b),
            words: if s.spaced && !is_space(b) && !is_beyond_ascii(b) && s.words < COLOUR_WORDS {
                (s.words + 1) as u8
            } else {
                s.words
            },
            ..s
        }
    }
}

/// The scan after the first `n` bytes of a material library.
pub open spec fn colours_scanned(bytes: Seq<u8>, n: int) -> ColourScan
    decreases n,
{
    if n <= 0 {
        colour_scan_start()
    } else {
        colour_scan_step(colours_scanned(bytes, n - 1), bytes[n - 1])
    }
}

/// Every colour of the material library is given in full.
pub open spec fn colours_complete(bytes: Seq<u8>) -> bool {
    let s = colours_scanned(bytes, bytes.len() as int);
    s.ok && line_complete(s)
}

fn scan_colour_head(s: ColourScan, b: u8) -> (r: ColourScan)
    ensures
        r == read_colour_head(s, b),
{
    let space = b == 0x09 || b == 0x0b || b == 0x0c || b == 0x0d || b == 0x20;
    match s.head {
        ColourHead::Blank => if space {
            s
        } else if b >= 0x80 {
            ColourScan { head: ColourHead::Word, colour: true, ..s }
        } else if b == 0x4b {
            ColourScan { head: ColourHead::K, ..s }
        } else {
            ColourScan { head: ColourHead::Word, ..s }
        },
        ColourHead::K => if b == 0x61 || b == 0x64 || b == 0x73 || b == 0x65 {
            ColourScan { head: ColourHead::Colour, ..s }
        } else {
            ColourScan { head: ColourHead::Word, ..s }
        },
        ColourHead::Colour => if space || b >= 0x80 {
            ColourScan { head: ColourHead::Word, colour: true, ..s }
        } else {
            ColourScan { head: ColourHead::Word, ..s }
        },
        ColourHead::Word => s,
    }
}

fn line_is_complete(s: &ColourScan) -> (r: bool)
    ensures
        r == line_complete(*s),
{
    let colour = s.colour || match s.head {
        ColourHead::Colour => true,
        _ => false,
    };
    !colour || s.words >= COLOUR_WORDS
}

/// Takes the scan one byte further.
pub fn scan_colour_byte(s: ColourScan, b: u8) -> (r: ColourScan)
    ensures
        r == colour_scan_step(s, b),
{
    if b == NEWLINE {
        ColourScan {
            ok: s.ok && line_is_complete(&s),
            head: ColourHead::Blank,
            colour: false,
            spaced: true,
            words: 0,
        }
    } else {
        let s = scan_colour_head(s, b);
        let space = b == 0x09 || b == 0x0b || b == 0x0c || b == 0x0d || b == 0x20;
        let words: u8 = if s.spaced && !space && b < 0x80 && s.words < COLOUR_WORDS {
            s.words + 1
        } else {
            s.words
        };
        ColourScan { spaced: space, words, ..s }
    }
}

/// Is every colour of the material library given in full?
pub fn check_colours(bytes: &[u8]) -> (r: bool)
    ensures
        r == colours_complete(bytes@),
{
    let mut s = ColourScan {
        ok: true,
        head: ColourHead::Blank,
        colour: false,
        spaced: true,
        words: 0,
    };
    let mut i: usize = 0;
    while i < bytes.len()
        invariant
            i <= bytes.len(),
            s == colours_scanned(bytes@, i as int),
        decreases bytes.len() - i,
    {
        s = scan_colour_byte(s, bytes[i]);
        i = i + 1;
    }
    s.ok && line_is_complete(&s)
}

} // verus!
