//! Romanisation of Chinese text into pinyin, used to index artist names.

use vstd::prelude::*;
use crate::text::push_char;

verus! {

/// What `mandarin_to_pinyin::to_pinyin_string` returns, once its table is
/// loaded, for a text and a separator: the first reading of each character
/// the table knows (the character itself otherwise), joined by the
/// separator.
pub uninterp spec fn pinyin_string_of(text: Seq<char>, sep: Seq<char>) -> Seq<char>;

/// Whether a character has the Unicode `White_Space` property (what
/// `char::is_whitespace` and `str::trim` go by): U+0009 to U+000D, U+0020,
/// U+0085, U+00A0, U+1680, U+2000 to U+200A, U+2028, U+2029, U+202F, U+205F
/// and U+3000.
pub open spec fn white_space(c: char) -> bool {
    let u = c as u32;
    (0x9 <= u && u <= 0xD) || u == 0x20 || u == 0x85 || u == 0xA0 || u == 0x1680
        || (0x2000 <= u && u <= 0x200A) || u == 0x2028 || u == 0x2029 || u == 0x202F
        || u == 0x205F || u == 0x3000
}

/// `mandarin_to_pinyin::to_pinyin_string`, its error dropped. It fails only
/// while the crate's process-wide table is not loaded, so nothing is stated
/// of whether a result comes back; a result is the named romanisation.
#[verifier::external_body]
fn pinyin_string(text: &str, sep: &str) -> (r: Option<String>)
    ensures
        r matches Some(p) ==> p@ == pinyin_string_of(text@, sep@),
{
    mandarin_to_pinyin::to_pinyin_string(text, sep).ok()
}

/// `mandarin_to_pinyin::init_map` with the table built into the crate. It
/// fails when the table was already loaded; whether it succeeded depends on
/// the process's history and is not stated.
#[verifier::external_body]
fn load_pinyin_table() -> (loaded: bool) {
    mandarin_to_pinyin::init_map(None).is_ok()
}

/// Whether a character is white space (see `white_space`).
pub fn is_white_space(c: char) -> (b: bool)
    ensures
        b == white_space(c),
{
    let u = c as u32;
    (0x9 <= u && u <= 0xD) || u == 0x20 || u == 0x85 || u == 0xA0 || u == 0x1680
        || (0x2000 <= u && u <= 0x200A) || u == 0x2028 || u == 0x2029 || u == 0x202F
        || u == 0x205F || u == 0x3000
}

/// A text is blank when every character is white space (so trimming it
/// leaves nothing).
pub open spec fn is_blank(s: Seq<char>) -> bool {
    forall|i: int| 0 <= i < s.len() ==> white_space(#[trigger] s[i])
}

/// Whether the text is blank.
pub fn blank(text: &str) -> (b: bool)
    ensures
        b == is_blank(text@),
{
    let n = text.unicode_len();
    let mut i: usize = 0;
    while i < n
        invariant
            n == text@.len(),
            i <= n,
            forall|k: int| 0 <= k < i ==> white_space(#[trigger] text@[k]),
        decreases n - i,
    {
        if !is_white_space(text.get_char(i)) {
            return false;
        }
        i = i + 1;
    }
    true
}

/// The romanised form of a text: itself when blank, else the converted text,
/// or the text itself when no conversion came back.
pub open spec fn pinyin_of(text: Seq<char>, converted: Option<Seq<char>>) -> Seq<char> {
    if is_blank(text) {
        text
    } else {
        match converted {
            Some(p) => p,
            None => text,
        }
    }
}

/// The first character of a text as a one-character string; the NUL
/// character for an empty text.
pub open spec fn first_char_of(s: Seq<char>) -> Seq<char> {
    if s.len() > 0 {
        seq![s[0]]
    } else {
        seq!['\0']
    }
}

/// Keeps the converted text, or the text itself when conversion gave
/// nothing.
pub fn converted_or_text(text: &str, converted: Option<String>) -> (r: String)
    ensures
        r@ == (match converted {
            Some(p) => p@,
            None => text@,
        }),
{
    match converted {
        Some(p) => p,
        None => String::from_str(text),
    }
}

/// Pinyin conversion. Creating one makes sure the conversion table is
/// loaded.
#[derive(Debug, Clone, Copy)]
pub struct Pinyin;

impl Pinyin {
    /// Loads the conversion table unless it is loaded already.
    pub fn new() -> (p: Self) {
        if pinyin_string("", "").is_none() {
            let _ = load_pinyin_table();
        }
        Pinyin
    }

    /// The pinyin of a text, syllables separated by spaces. A blank text is
    /// returned as it is; so is any text when the table is not loaded.
    pub fn to_pinyin(&self, text: &str) -> (r: String)
        ensures
            is_blank(text@) ==> r@ == text@,
            !is_blank(text@) ==> (r@ == pinyin_of(text@, Some(pinyin_string_of(text@, " "@)))
                || r@ == pinyin_of(text@, None)),
    {
        if blank(text) {
            return String::from_str(text);
        }
        let converted = pinyin_string(text, " ");
        converted_or_text(text, converted)
    }

    /// The first character of the text's pinyin (see `to_pinyin`), or the
    /// NUL character when that is empty.
    pub fn first_char(&self, text: &str) -> (r: String)
        ensures
            is_blank(text@) ==> r@ == first_char_of(text@),
            !is_blank(text@) ==> (r@ == first_char_of(pinyin_string_of(text@, " "@))
                || r@ == first_char_of(text@)),
    {
        let p = self.to_pinyin(text);
        let s = p.as_str();
        let c = if s.unicode_len() > 0 { s.get_char(0) } else { '\0' };
        let mut out = String::new();
        push_char(&mut out, c);
        proof {
            assert(out@ =~= seq![c]);
        }
        out
    }
}

} // verus!
