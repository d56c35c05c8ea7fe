//! Text building blocks: decimal and hexadecimal rendering, XML escaping.

use vstd::prelude::*;

verus! {

/// Appends one character to a string (`String::push`).
#[verifier::external_body]
pub(crate) fn push_char(s: &mut String, c: char)
    ensures
        final(s)@ == old(s)@.push(c),
{
    s.push(c);
}

/// The character of a decimal digit.
pub open spec fn digit_char(d: nat) -> char {
    if d == 0 { '0' }
    else if d == 1 { '1' }
    else if d == 2 { '2' }
    else if d == 3 { '3' }
    else if d == 4 { '4' }
    else if d == 5 { '5' }
    else if d == 6 { '6' }
    else if d == 7 { '7' }
    else if d == 8 { '8' }
    else { '9' }
}

/// Decimal digits of a natural number, most significant first, no leading zeros.
pub open spec fn nat_decimal(n: nat) -> Seq<char>
    decreases n,
{
    if n < 10 {
        seq![digit_char(n)]
    } else {
        nat_decimal(n / 10).push(digit_char(n % 10))
    }
}

/// Decimal rendering of an integer, as `{}` formats it.
pub open spec fn int_decimal(x: int) -> Seq<char> {
    if x < 0 {
        seq!['-'] + nat_decimal((-x) as nat)
    } else {
        nat_decimal(x as nat)
    }
}

fn digit_to_char(d: u64) -> (c: char)
    requires
        d < 10,
    ensures
        c == digit_char(d as nat),
{
    if d == 0 { '0' }
    else if d == 1 { '1' }
    else if d == 2 { '2' }
    else if d == 3 { '3' }
    else if d == 4 { '4' }
    else if d == 5 { '5' }
    else if d == 6 { '6' }
    else if d == 7 { '7' }
    else if d == 8 { '8' }
    else { '9' }
}

/// Appends the decimal digits of `n` to `out`.
pub fn push_u64_decimal(out: &mut String, n: u64)
    ensures
        final(out)@ == old(out)@ + nat_decimal(n as nat),
    decreases n,
{
    if n < 10 {
        push_char(out, digit_to_char(n));
    } else {
        push_u64_decimal(out, n / 10);
        push_char(out, digit_to_char(n % 10));
    }
}

/// Appends the decimal rendering of `x` to `out`.
pub fn push_i64_decimal(out: &mut String, x: i64)
    ensures
        final(out)@ == old(out)@ + int_decimal(x as int),
{
    if x < 0 {
        push_char(out, '-');
        let m: u64 = if x == i64::MIN {
            9223372036854775808u64
        } else {
            (-x) as u64
        };
        push_u64_decimal(out, m);
        assert(final(out)@ =~= old(out)@ + int_decimal(x as int));
    } else {
        push_u64_decimal(out, x as u64);
    }
}

/// Decimal rendering of a signed integer (`x.to_string()`).
pub fn i64_to_string(x: i64) -> (s: String)
    ensures
        s@ == int_decimal(x as int),
{
    let mut s = String::new();
    push_i64_decimal(&mut s, x);
    assert(s@ =~= int_decimal(x as int));
    s
}


/// The escaped form of one character in XML text or attribute values.
pub open spec fn escape_char(c: char) -> Seq<char> {
    if c == '&' {
        seq!['&', 'a', 'm', 'p', ';']
    } else if c == '<' {
        seq!['&', 'l', 't', ';']
    } else if c == '>' {
        seq!['&', 'g', 't', ';']
    } else if c == '"' {
        seq!['&', 'q', 'u', 'o', 't', ';']
    } else if c == '\'' {
        seq!['&', 'a', 'p', 'o', 's', ';']
    } else {
        seq![c]
    }
}

/// The XML-escaped form of a character sequence: each character replaced by
/// its escape, in order.
pub open spec fn escape_seq(s: Seq<char>) -> Seq<char>
    decreases s.len(),
{
    if s.len() == 0 {
        Seq::empty()
    } else {
        escape_seq(s.drop_last()) + escape_char(s.last())
    }
}

/// HTML/XML escaping of `&`, `<`, `>`, `"` and `'`.
pub fn html_escape(s: &str) -> (r: String)
    ensures
        r@ == escape_seq(s@),
{
    let mut r = String::new();
    let ghost src = s@;
    for c in it: s.chars()
        invariant
            it.seq() == src,
            r@ == escape_seq(src.take(it.index())),
    {
        assert(src.take(it.index() + 1).drop_last() =~= src.take(it.index()));
        if c == '&' {
            proof { reveal_strlit("&amp;"); }
            r.append("&amp;");
        } else if c == '<' {
            proof { reveal_strlit("&lt;"); }
            r.append("&lt;");
        } else if c == '>' {
            proof { reveal_strlit("&gt;"); }
            r.append("&gt;");
        } else if c == '"' {
            proof { reveal_strlit("&quot;"); }
            r.append("&quot;");
        } else if c == '\'' {
            proof { reveal_strlit("&apos;"); }
            r.append("&apos;");
        } else {
            push_char(&mut r, c);
        }
    }
    assert(src.take(src.len() as int) =~= src);
    r
}


/// The characters that escaping replaces.
pub open spec fn is_markup_char(c: char) -> bool {
    c == '&' || c == '<' || c == '>' || c == '"' || c == '\''
}

/// Escaped text holds no `<`, `>`, `"` or `'`, so it can neither open a tag
/// nor close an attribute value.
pub proof fn lemma_escape_no_markup(s: Seq<char>)
    ensures
        forall|i: int| 0 <= i < escape_seq(s).len() ==> {
            let c = #[trigger] escape_seq(s)[i];
            c != '<' && c != '>' && c != '"' && c != '\''
        },
    decreases s.len(),
{
    if s.len() > 0 {
        lemma_escape_no_markup(s.drop_last());
        let a = escape_seq(s.drop_last());
        let b = escape_char(s.last());
        assert forall|i: int| 0 <= i < (a + b).len() implies {
            let c = #[trigger] (a + b)[i];
            c != '<' && c != '>' && c != '"' && c != '\''
        } by {
            if i >= a.len() {
                assert((a + b)[i] == b[i - a.len()]);
            } else {
                assert((a + b)[i] == a[i]);
            }
        }
    }
}

/// Text without markup characters is left as it is by escaping.
pub proof fn lemma_escape_plain(s: Seq<char>)
    requires
        forall|i: int| 0 <= i < s.len() ==> !is_markup_char(#[trigger] s[i]),
    ensures
        escape_seq(s) == s,
    decreases s.len(),
{
    if s.len() > 0 {
        lemma_escape_plain(s.drop_last());
        assert(!is_markup_char(s[s.len() - 1]));
        assert(s.drop_last() + seq![s.last()] =~= s);
    }
}

/// `s` begins with `p`.
pub open spec fn starts_with(s: Seq<char>, p: Seq<char>) -> bool {
    p.len() <= s.len() && s.take(p.len() as int) == p
}

/// Undoes XML escaping, reading from the left: each of the five entities
/// gives back its character; every other character stays.
pub open spec fn unescape_seq(s: Seq<char>) -> Seq<char>
    decreases s.len(),
{
    if s.len() == 0 {
        Seq::empty()
    } else if starts_with(s, escape_char('&')) {
        seq!['&'] + unescape_seq(s.skip(5))
    } else if starts_with(s, escape_char('<')) {
        seq!['<'] + unescape_seq(s.skip(4))
    } else if starts_with(s, escape_char('>')) {
        seq!['>'] + unescape_seq(s.skip(4))
    } else if starts_with(s, escape_char('"')) {
        seq!['"'] + unescape_seq(s.skip(6))
    } else if starts_with(s, escape_char('\'')) {
        seq!['\''] + unescape_seq(s.skip(6))
    } else {
        seq![s[0]] + unescape_seq(s.skip(1))
    }
}

/// Escaping a concatenation escapes each part.
pub proof fn lemma_escape_concat(a: Seq<char>, b: Seq<char>)
    ensures
        escape_seq(a + b) == escape_seq(a) + escape_seq(b),
    decreases b.len(),
{
    if b.len() == 0 {
        assert(a + b =~= a);
        assert(escape_seq(a) + escape_seq(b) =~= escape_seq(a));
    } else {
        lemma_escape_concat(a, b.drop_last());
        assert((a + b).drop_last() =~= a + b.drop_last());
        assert((a + b).last() == b.last());
        assert(escape_seq(a) + escape_seq(b.drop_last()) + escape_char(b.last())
            =~= escape_seq(a) + (escape_seq(b.drop_last()) + escape_char(b.last())));
    }
}

/// Unescaping reads one escaped character off the front.
proof fn lemma_unescape_step(c: char, rest: Seq<char>)
    ensures
        unescape_seq(escape_char(c) + rest) == seq![c] + unescape_seq(rest),
{
    let e = escape_char(c);
    let s = e + rest;
    assert(s.take(e.len() as int) =~= e);
    assert(s.skip(e.len() as int) =~= rest);
    if c == '&' {
    } else if c == '<' {
        assert(!starts_with(s, escape_char('&'))) by {
            if starts_with(s, escape_char('&')) {
                assert(s[1] == escape_char('&')[1]);
            }
        }
    } else if c == '>' {
        assert(!starts_with(s, escape_char('&'))) by {
            if starts_with(s, escape_char('&')) {
                assert(s[1] == escape_char('&')[1]);
            }
        }
        assert(!starts_with(s, escape_char('<'))) by {
            if starts_with(s, escape_char('<')) {
                assert(s[1] == escape_char('<')[1]);
            }
        }
    } else if c == '"' {
        assert(!starts_with(s, escape_char('&'))) by {
            if starts_with(s, escape_char('&')) {
                assert(s[1] == escape_char('&')[1]);
            }
        }
        assert(!starts_with(s, escape_char('<'))) by {
            if starts_with(s, escape_char('<')) {
                assert(s[1] == escape_char('<')[1]);
            }
        }
        assert(!starts_with(s, escape_char('>'))) by {
            if starts_with(s, escape_char('>')) {
                assert(s[1] == escape_char('>')[1]);
            }
        }
    } else if c == '\'' {
        assert(!starts_with(s, escape_char('&'))) by {
            if starts_with(s, escape_char('&')) {
                assert(s[2] == escape_char('&')[2]);
            }
        }
        assert(!starts_with(s, escape_char('<'))) by {
            if starts_with(s, escape_char('<')) {
                assert(s[1] == escape_char('<')[1]);
            }
        }
        assert(!starts_with(s, escape_char('>'))) by {
            if starts_with(s, escape_char('>')) {
                assert(s[1] == escape_char('>')[1]);
            }
        }
        assert(!starts_with(s, escape_char('"'))) by {
            if starts_with(s, escape_char('"')) {
                assert(s[1] == escape_char('"')[1]);
            }
        }
    } else {
        assert(s[0] == c);
        assert(!starts_with(s, escape_char('&'))) by {
            if starts_with(s, escape_char('&')) {
                assert(s[0] == escape_char('&')[0]);
            }
        }
        assert(!starts_with(s, escape_char('<'))) by {
            if starts_with(s, escape_char('<')) {
                assert(s[0] == escape_char('<')[0]);
            }
        }
        assert(!starts_with(s, escape_char('>'))) by {
            if starts_with(s, escape_char('>')) {
                assert(s[0] == escape_char('>')[0]);
            }
        }
        assert(!starts_with(s, escape_char('"'))) by {
            if starts_with(s, escape_char('"')) {
                assert(s[0] == escape_char('"')[0]);
            }
        }
        assert(!starts_with(s, escape_char('\''))) by {
            if starts_with(s, escape_char('\'')) {
                assert(s[0] == escape_char('\'')[0]);
            }
        }
    }
}

/// Unescaping escaped text gives the text back: escaping loses nothing.
pub proof fn lemma_unescape_escape(s: Seq<char>)
    ensures
        unescape_seq(escape_seq(s)) == s,
    decreases s.len(),
{
    if s.len() > 0 {
        let c = s[0];
        let rest = s.drop_first();
        assert(s =~= seq![c] + rest);
        lemma_escape_concat(seq![c], rest);
        assert(seq![c].drop_last() =~= Seq::<char>::empty());
        assert(seq![c].last() == c);
        assert(escape_seq(Seq::<char>::empty()) =~= Seq::<char>::empty());
        assert(escape_seq(seq![c]) == escape_seq(Seq::<char>::empty()) + escape_char(c));
        assert(escape_seq(seq![c]) =~= escape_char(c));
        lemma_unescape_step(c, escape_seq(rest));
        lemma_unescape_escape(rest);
        assert(seq![c] + rest =~= s);
    }
}

/// ASCII lowercase of one character; other characters are unchanged.
pub open spec fn ascii_lower_char(c: char) -> char {
    if 'A' <= c && c <= 'Z' {
        ((c as u32) + 32) as char
    } else {
        c
    }
}

/// ASCII uppercase of one character; other characters are unchanged.
pub open spec fn ascii_upper_char(c: char) -> char {
    if 'a' <= c && c <= 'z' {
        ((c as u32) - 32) as char
    } else {
        c
    }
}

/// Every character is in the ASCII range.
pub open spec fn all_ascii(s: Seq<char>) -> bool {
    forall|i: int| 0 <= i < s.len() ==> (s[i] as u32) < 128
}

/// What `str::to_lowercase` returns for a string: its Unicode lowercase
/// form (character by character, except that a capital sigma at the end of
/// a word becomes a final sigma).
pub uninterp spec fn lowercase_of(s: Seq<char>) -> Seq<char>;

/// Unicode lowercase conversion (`str::to_lowercase`).
///
/// The result is named by `lowercase_of`; for an ASCII-only input the
/// standard library documents that each character maps to its ASCII
/// lowercase form, one to one, which is stated here as well.
#[verifier::external_body]
pub(crate) fn to_lowercase(s: &str) -> (r: String)
    ensures
        r@ == lowercase_of(s@),
        all_ascii(s@) ==> r@ == s@.map_values(|c: char| ascii_lower_char(c)),
{
    s.to_lowercase()
}


/// Rendering of a boolean, as `{}` formats it.
pub open spec fn bool_text(b: bool) -> Seq<char> {
    if b { "true"@ } else { "false"@ }
}

/// Appends `true` or `false`.
pub fn push_bool(out: &mut String, b: bool)
    ensures
        final(out)@ == old(out)@ + bool_text(b),
{
    if b {
        out.append("true");
    } else {
        out.append("false");
    }
}

/// An XML attribute whose value is present: `prefix`, the value, a closing quote.
/// `prefix` holds the separating space, the name, `=` and the opening quote.
pub open spec fn opt_str_attr(prefix: Seq<char>, v: Option<String>) -> Seq<char> {
    match v {
        Some(x) => prefix + x@ + "\""@,
        None => Seq::empty(),
    }
}

/// As `opt_str_attr`, for an integer value written in decimal.
pub open spec fn opt_int_attr(prefix: Seq<char>, v: Option<int>) -> Seq<char> {
    match v {
        Some(x) => prefix + int_decimal(x) + "\""@,
        None => Seq::empty(),
    }
}

/// As `opt_str_attr`, for a boolean value.
pub open spec fn opt_bool_attr(prefix: Seq<char>, v: Option<bool>) -> Seq<char> {
    match v {
        Some(x) => prefix + bool_text(x) + "\""@,
        None => Seq::empty(),
    }
}

/// An optional `i32` viewed as an optional integer.
pub open spec fn opt_i32(v: Option<i32>) -> Option<int> {
    match v {
        Some(x) => Some(x as int),
        None => None,
    }
}

/// An optional `u32` viewed as an optional integer.
pub open spec fn opt_u32(v: Option<u32>) -> Option<int> {
    match v {
        Some(x) => Some(x as int),
        None => None,
    }
}

/// Appends `prefix`, the value and a closing quote when the value is present.
pub fn push_opt_str_attr(out: &mut String, prefix: &str, v: &Option<String>)
    ensures
        final(out)@ == old(out)@ + opt_str_attr(prefix@, *v),
{
    match v {
        Some(x) => {
            out.append(prefix);
            out.append(x.as_str());
            out.append("\"");
        },
        None => {
            assert(final(out)@ =~= old(out)@ + opt_str_attr(prefix@, *v));
        },
    }
}

/// Appends `prefix`, the decimal value and a closing quote when the value is present.
pub fn push_opt_i32_attr(out: &mut String, prefix: &str, v: Option<i32>)
    ensures
        final(out)@ == old(out)@ + opt_int_attr(prefix@, opt_i32(v)),
{
    match v {
        Some(x) => {
            out.append(prefix);
            push_i64_decimal(out, x as i64);
            out.append("\"");
        },
        None => {
            assert(final(out)@ =~= old(out)@ + opt_int_attr(prefix@, opt_i32(v)));
        },
    }
}

/// Appends `prefix`, the decimal value and a closing quote when the value is present.
pub fn push_opt_u32_attr(out: &mut String, prefix: &str, v: Option<u32>)
    ensures
        final(out)@ == old(out)@ + opt_int_attr(prefix@, opt_u32(v)),
{
    match v {
        Some(x) => {
            out.append(prefix);
            push_i64_decimal(out, x as i64);
            out.append("\"");
        },
        None => {
            assert(final(out)@ =~= old(out)@ + opt_int_attr(prefix@, opt_u32(v)));
        },
    }
}

/// Appends `prefix`, `true` or `false`, and a closing quote when the value is present.
pub fn push_opt_bool_attr(out: &mut String, prefix: &str, v: Option<bool>)
    ensures
        final(out)@ == old(out)@ + opt_bool_attr(prefix@, v),
{
    match v {
        Some(x) => {
            out.append(prefix);
            push_bool(out, x);
            out.append("\"");
        },
        None => {
            assert(final(out)@ =~= old(out)@ + opt_bool_attr(prefix@, v));
        },
    }
}


/// As `opt_str_attr`, with the value XML-escaped.
pub open spec fn opt_esc_attr(prefix: Seq<char>, v: Option<String>) -> Seq<char> {
    match v {
        Some(x) => prefix + escape_seq(x@) + "\""@,
        None => Seq::empty(),
    }
}

/// Appends `prefix`, the escaped value and a closing quote when the value is present.
pub fn push_opt_esc_attr(out: &mut String, prefix: &str, v: &Option<String>)
    ensures
        final(out)@ == old(out)@ + opt_esc_attr(prefix@, *v),
{
    match v {
        Some(x) => {
            out.append(prefix);
            let e = html_escape(x.as_str());
            out.append(e.as_str());
            out.append("\"");
        },
        None => {
            assert(final(out)@ =~= old(out)@ + opt_esc_attr(prefix@, *v));
        },
    }
}


/// An ASCII decimal digit.
pub open spec fn is_digit(c: char) -> bool {
    '0' <= c && c <= '9'
}

/// Every character is an ASCII decimal digit.
pub open spec fn all_digits(s: Seq<char>) -> bool {
    forall|i: int| 0 <= i < s.len() ==> is_digit(#[trigger] s[i])
}

/// The value of a string of decimal digits.
pub open spec fn digits_value(s: Seq<char>) -> nat
    decreases s.len(),
{
    if s.len() == 0 {
        0
    } else {
        digits_value(s.drop_last()) * 10 + ((s.last() as u32) - ('0' as u32)) as nat
    }
}

/// What `str::parse::<i32>` accepts and returns: an optional `+` or `-`, then
/// one or more ASCII digits whose value, with the sign, lies in the `i32`
/// range. Anything else is rejected.
pub open spec fn parse_i32_spec(s: Seq<char>) -> Option<i32> {
    let neg = s.len() > 0 && s[0] == '-';
    let signed = s.len() > 0 && (s[0] == '-' || s[0] == '+');
    let body = if signed { s.drop_first() } else { s };
    if body.len() > 0 && all_digits(body) {
        let v: int = if neg { -(digits_value(body) as int) } else { digits_value(body) as int };
        if i32::MIN <= v && v <= i32::MAX {
            Some(v as i32)
        } else {
            None
        }
    } else {
        None
    }
}

/// Extending a digit string never lowers its value.
pub proof fn lemma_digits_value_prefix(s: Seq<char>, k: int)
    requires
        0 <= k <= s.len(),
        all_digits(s),
    ensures
        digits_value(s.take(k)) <= digits_value(s),
    decreases s.len() - k,
{
    if k < s.len() {
        lemma_digits_value_prefix(s, k + 1);
        assert(s.take(k + 1).drop_last() =~= s.take(k));
        assert(is_digit(s[k]));
    } else {
        assert(s.take(k) =~= s);
    }
}

/// Parses a decimal `i32` as `str::parse::<i32>` does.
pub fn parse_i32(s: &str) -> (r: Option<i32>)
    ensures
        r == parse_i32_spec(s@),
{
    let ghost src = s@;
    let n = s.unicode_len();
    if n == 0 {
        return None;
    }
    let first = s.get_char(0);
    let neg = first == '-';
    let start: usize = if first == '-' || first == '+' { 1 } else { 0 };
    let ghost body = if start == 1 { src.drop_first() } else { src };
    assert(body =~= src.subrange(start as int, n as int));
    if start >= n {
        return None;
    }
    let limit: i64 = if neg { 2147483648 } else { 2147483647 };
    let mut acc: i64 = 0;
    let mut i = start;
    while i < n
        invariant
            src == s@,
            n == src.len(),
            start <= i <= n,
            body =~= src.subrange(start as int, n as int),
            all_digits(body.take(i - start)),
            acc as int == digits_value(body.take(i - start)),
            0 <= acc <= limit,
            limit == (if neg { 2147483648i64 } else { 2147483647i64 }),
            src.len() > 0,
            neg == (src[0] == '-'),
            start == (if src[0] == '-' || src[0] == '+' { 1usize } else { 0usize }),
            body == (if start == 1 { src.drop_first() } else { src }),
        decreases n - i,
    {
        let c = s.get_char(i);
        assert(c == body[i - start]);
        if c < '0' || c > '9' {
            assert(!is_digit(body[i - start]));
            assert(!all_digits(body));
            assert(parse_i32_spec(src) is None);
            return None;
        }
        let d: i64 = ((c as u32) - ('0' as u32)) as i64;
        assert(body.take(i - start + 1).drop_last() =~= body.take(i - start));
        assert(body.take(i - start + 1).last() == c);
        let next = acc * 10 + d;
        if next > limit {
            proof {
                assert(digits_value(body.take(i - start + 1)) == next);
                assert forall|j: int| 0 <= j < i - start + 1 implies is_digit(#[trigger] body.take(i - start + 1)[j]) by {
                    if j < i - start {
                        assert(body.take(i - start + 1)[j] == body.take(i - start)[j]);
                    }
                };
                if all_digits(body) {
                    lemma_digits_value_prefix(body, i - start + 1);
                    assert(digits_value(body) > limit);
                }
                assert(parse_i32_spec(src) is None);
            }
            return None;
        }
        acc = next;
        proof {
            assert forall|j: int| 0 <= j < i - start + 1 implies is_digit(#[trigger] body.take(i - start + 1)[j]) by {
                if j < i - start {
                    assert(body.take(i - start + 1)[j] == body.take(i - start)[j]);
                }
            };
        }
        i = i + 1;
    }
    assert(body.take(n - start) =~= body);
    if neg {
        Some((-acc) as i32)
    } else {
        Some(acc as i32)
    }
}


/// The part of `s` before the first occurrence of `sep` (all of `s` when
/// `sep` does not occur): what `s.split(sep).next()` yields.
pub open spec fn before_first(s: Seq<char>, sep: char) -> Seq<char>
    decreases s.len(),
{
    if s.len() == 0 {
        Seq::empty()
    } else if s[0] == sep {
        Seq::empty()
    } else {
        seq![s[0]] + before_first(s.drop_first(), sep)
    }
}

proof fn lemma_before_first_step(s: Seq<char>, sep: char, k: int)
    requires
        0 <= k < s.len(),
        forall|j: int| 0 <= j < k ==> s[j] != sep,
    ensures
        before_first(s, sep) == s.take(k) + before_first(s.skip(k), sep),
    decreases k,
{
    if k > 0 {
        lemma_before_first_step(s.drop_first(), sep, k - 1);
        assert(s.drop_first().skip(k - 1) =~= s.skip(k));
        assert(seq![s[0]] + s.drop_first().take(k - 1) =~= s.take(k));
    } else {
        assert(s.skip(0) =~= s);
    }
}

/// The first field of `s` split at `sep`.
pub fn first_field(s: &str, sep: char) -> (r: String)
    ensures
        r@ == before_first(s@, sep),
{
    let ghost src = s@;
    let mut r = String::new();
    let n = s.unicode_len();
    let mut i: usize = 0;
    while i < n
        invariant
            src == s@,
            n == src.len(),
            i <= n,
            r@ == src.take(i as int),
            forall|j: int| 0 <= j < i ==> src[j] != sep,
        decreases n - i,
    {
        let c = s.get_char(i);
        if c == sep {
            proof {
                lemma_before_first_step(src, sep, i as int);
                assert(src.skip(i as int)[0] == sep);
            }
            return r;
        }
        push_char(&mut r, c);
        assert(src.take(i as int + 1) =~= src.take(i as int).push(c));
        i = i + 1;
    }
    proof {
        assert(src.take(n as int) =~= src);
        if n > 0 {
            lemma_before_first_step(src, sep, n as int - 1);
            let t = src.skip(n as int - 1);
            assert(t[0] == src[n as int - 1]);
            assert(t.drop_first() =~= Seq::<char>::empty());
            assert(before_first(t.drop_first(), sep) =~= Seq::<char>::empty());
            assert(before_first(t, sep) =~= seq![src[n as int - 1]]);
        }
    }
    r
}

/// `pat` occurs in `s` at position `i`.
pub open spec fn occurs_at(s: Seq<char>, pat: Seq<char>, i: int) -> bool {
    0 <= i && i + pat.len() <= s.len() && s.subrange(i, i + pat.len()) == pat
}

/// `pat` occurs somewhere in `s` (the empty pattern occurs everywhere).
pub open spec fn contains_seq(s: Seq<char>, pat: Seq<char>) -> bool {
    exists|i: int| #[trigger] occurs_at(s, pat, i)
}

/// Whether `pat` occurs in `s` at position `i`.
pub fn matches_at(s: &str, pat: &str, i: usize) -> (b: bool)
    ensures
        b == occurs_at(s@, pat@, i as int),
{
    let n = s.unicode_len();
    let m = pat.unicode_len();
    if i > n || m > n - i {
        return false;
    }
    let mut j: usize = 0;
    while j < m
        invariant
            n == s@.len(),
            m == pat@.len(),
            i + m <= n,
            j <= m,
            forall|k: int| 0 <= k < j ==> s@[i + k] == pat@[k],
        decreases m - j,
    {
        if s.get_char(i + j) != pat.get_char(j) {
            assert(s@.subrange(i as int, i + m)[j as int] != pat@[j as int]);
            return false;
        }
        j = j + 1;
    }
    assert(s@.subrange(i as int, i + m) =~= pat@);
    true
}

/// Whether `pat` occurs in `s` (`str::contains` with a text pattern).
pub fn str_contains(s: &str, pat: &str) -> (b: bool)
    ensures
        b == contains_seq(s@, pat@),
{
    let n = s.unicode_len();
    let mut i: usize = 0;
    while i < n
        invariant
            n == s@.len(),
            i <= n,
            forall|k: int| 0 <= k < i ==> !#[trigger] occurs_at(s@, pat@, k),
        decreases n - i,
    {
        if matches_at(s, pat, i) {
            return true;
        }
        i = i + 1;
    }
    if matches_at(s, pat, n) {
        return true;
    }
    assert forall|k: int| !#[trigger] occurs_at(s@, pat@, k) by {
        if 0 <= k && k < n {
            assert(!occurs_at(s@, pat@, k));
        }
    }
    false
}

/// `s` from position `i` on, with every occurrence of `pat` (found from the
/// left, not overlapping) replaced by `rep`. An empty pattern replaces
/// nothing.
pub open spec fn replace_from(s: Seq<char>, pat: Seq<char>, rep: Seq<char>, i: int) -> Seq<char>
    decreases s.len() - i,
{
    if i < 0 || i >= s.len() {
        Seq::empty()
    } else if pat.len() > 0 && occurs_at(s, pat, i) {
        rep + replace_from(s, pat, rep, i + pat.len())
    } else {
        seq![s[i]] + replace_from(s, pat, rep, i + 1)
    }
}

/// `s` with every occurrence of `pat` replaced by `rep`, left to right
/// (`str::replace` with a non-empty text pattern).
pub open spec fn replace_all_of(s: Seq<char>, pat: Seq<char>, rep: Seq<char>) -> Seq<char> {
    replace_from(s, pat, rep, 0)
}

/// Replaces every occurrence of a non-empty `pat` in `s` by `rep`.
pub fn replace_all(s: &str, pat: &str, rep: &str) -> (r: String)
    requires
        pat@.len() > 0,
    ensures
        r@ == replace_all_of(s@, pat@, rep@),
{
    let n = s.unicode_len();
    let m = pat.unicode_len();
    let mut out = String::new();
    let mut i: usize = 0;
    while i < n
        invariant
            n == s@.len(),
            m == pat@.len(),
            m > 0,
            i <= n,
            out@ + replace_from(s@, pat@, rep@, i as int) == replace_all_of(s@, pat@, rep@),
        decreases n - i,
    {
        if matches_at(s, pat, i) {
            out.append(rep);
            assert(out@ + replace_from(s@, pat@, rep@, (i + m) as int) =~= replace_all_of(s@, pat@, rep@));
            i = i + m;
        } else {
            let c = s.get_char(i);
            push_char(&mut out, c);
            assert(out@ + replace_from(s@, pat@, rep@, i as int + 1) =~= replace_all_of(s@, pat@, rep@));
            i = i + 1;
        }
    }
    assert(out@ =~= out@ + replace_from(s@, pat@, rep@, i as int));
    out
}

/// Replacing in a text where the pattern does not occur changes nothing.
pub proof fn lemma_replace_absent(s: Seq<char>, pat: Seq<char>, rep: Seq<char>, i: int)
    requires
        0 <= i <= s.len(),
        !contains_seq(s, pat),
    ensures
        replace_from(s, pat, rep, i) == s.skip(i),
    decreases s.len() - i,
{
    if i < s.len() {
        assert(!occurs_at(s, pat, i));
        lemma_replace_absent(s, pat, rep, i + 1);
        assert(seq![s[i]] + s.skip(i + 1) =~= s.skip(i));
    } else {
        assert(s.skip(i) =~= Seq::<char>::empty());
    }
}


/// Reading from position `i` of `s` replaces as reading `s` with its first
/// `d` characters dropped, from position `i - d`.
proof fn lemma_replace_shift(s: Seq<char>, pat: Seq<char>, rep: Seq<char>, i: int, d: int)
    requires
        0 <= d <= i,
        d <= s.len(),
    ensures
        replace_from(s, pat, rep, i) == replace_from(s.skip(d), pat, rep, i - d),
    decreases s.len() - i,
{
    let t = s.skip(d);
    assert(t.len() == s.len() - d);
    if i < s.len() {
        assert(t[i - d] == s[i]);
        if i + pat.len() <= s.len() {
            assert(s.subrange(i, i + pat.len()) =~= t.subrange(i - d, i - d + pat.len()));
        }
        if pat.len() > 0 && occurs_at(s, pat, i) {
            assert(occurs_at(t, pat, i - d));
            lemma_replace_shift(s, pat, rep, i + pat.len(), d);
        } else {
            assert(!(pat.len() > 0 && occurs_at(t, pat, i - d)));
            lemma_replace_shift(s, pat, rep, i + 1, d);
        }
    } else {
        assert(replace_from(t, pat, rep, i - d) =~= Seq::<char>::empty());
    }
}

/// Where `pat` starts nowhere inside the prefix `u`, replacing leaves `u`
/// as it is.
proof fn lemma_replace_passes(u: Seq<char>, t: Seq<char>, pat: Seq<char>, rep: Seq<char>, j: int)
    requires
        0 <= j <= u.len(),
        forall|k: int| j <= k < u.len() ==> !#[trigger] occurs_at(u + t, pat, k),
    ensures
        replace_from(u + t, pat, rep, j) == u.skip(j) + replace_from(t, pat, rep, 0),
    decreases u.len() - j,
{
    let w = u + t;
    if j < u.len() {
        assert(!occurs_at(w, pat, j));
        lemma_replace_passes(u, t, pat, rep, j + 1);
        assert(w[j] == u[j]);
        assert(seq![u[j]] + u.skip(j + 1) =~= u.skip(j));
        assert(seq![u[j]] + (u.skip(j + 1) + replace_from(t, pat, rep, 0))
            =~= u.skip(j) + replace_from(t, pat, rep, 0));
    } else {
        lemma_replace_shift(w, pat, rep, u.len() as int, u.len() as int);
        assert(w.skip(u.len() as int) =~= t);
        assert(u.skip(j) =~= Seq::<char>::empty());
        assert(u.skip(j) + replace_from(t, pat, rep, 0) =~= replace_from(t, pat, rep, 0));
    }
}

/// The character decoded by the `k`-th of the five replacements that undo
/// escaping: `<`, `>`, `"`, `'`, and `&` last.
spec fn decode_order(k: int) -> char {
    if k == 0 {
        '<'
    } else if k == 1 {
        '>'
    } else if k == 2 {
        '"'
    } else if k == 3 {
        '\''
    } else {
        '&'
    }
}

/// `c` is decoded by one of the first `k` replacements.
spec fn decoded_before(c: char, k: int) -> bool {
    exists|i: int| 0 <= i < k && i < 5 && #[trigger] decode_order(i) == c
}

/// One character of escaped text after the first `k` replacements.
spec fn stage_char(c: char, k: int) -> Seq<char> {
    if decoded_before(c, k) {
        seq![c]
    } else {
        escape_char(c)
    }
}

/// Escaped text after the first `k` replacements.
spec fn stage_seq(s: Seq<char>, k: int) -> Seq<char>
    decreases s.len(),
{
    if s.len() == 0 {
        Seq::empty()
    } else {
        stage_char(s[0], k) + stage_seq(s.drop_first(), k)
    }
}

/// Undoing escaping by five text replacements, in this order: `&lt;`,
/// `&gt;`, `&quot;`, `&apos;`, and `&amp;` last.
pub open spec fn unescape_by_replace(t: Seq<char>) -> Seq<char> {
    let a = replace_all_of(t, seq!['&', 'l', 't', ';'], seq!['<']);
    let b = replace_all_of(a, seq!['&', 'g', 't', ';'], seq!['>']);
    let c = replace_all_of(b, seq!['&', 'q', 'u', 'o', 't', ';'], seq!['"']);
    let d = replace_all_of(c, seq!['&', 'a', 'p', 'o', 's', ';'], seq!['\'']);
    replace_all_of(d, seq!['&', 'a', 'm', 'p', ';'], seq!['&'])
}

proof fn lemma_decoded_before(c: char, k: int)
    requires
        0 <= k < 5,
    ensures
        decoded_before(c, k + 1) == (decoded_before(c, k) || c == decode_order(k)),
        decoded_before(c, k) ==> c != '&' && c != decode_order(k),
        decoded_before(c, k) <==> (k > 0 && c == '<') || (k > 1 && c == '>') || (k > 2 && c == '"')
            || (k > 3 && c == '\''),
{
    assert(decode_order(0) == '<');
    assert(decode_order(1) == '>');
    assert(decode_order(2) == '"');
    assert(decode_order(3) == '\'');
    assert(decode_order(4) == '&');
    if decoded_before(c, k + 1) {
        let i = choose|i: int| 0 <= i < k + 1 && i < 5 && #[trigger] decode_order(i) == c;
        if i < k {
            assert(decoded_before(c, k));
        }
    }
}

/// No replacement pattern of stage `k` starts inside a character's stage
/// form other than the pattern itself.
proof fn lemma_stage_char_no_match(c: char, k: int, t: Seq<char>)
    requires
        0 <= k < 5,
        c != decode_order(k),
    ensures
        forall|j: int| 0 <= j < stage_char(c, k).len() ==>
            !#[trigger] occurs_at(stage_char(c, k) + t, escape_char(decode_order(k)), j),
{
    lemma_decoded_before(c, k);
    let u = stage_char(c, k);
    let p = escape_char(decode_order(k));
    let w = u + t;
    assert(p[0] == '&');
    assert(p.len() >= 4);
    assert forall|j: int| 0 <= j < u.len() implies !#[trigger] occurs_at(w, p, j) by {
        if occurs_at(w, p, j) {
            assert(w.subrange(j, j + p.len())[0] == p[0]);
            assert(w.subrange(j, j + p.len())[1] == p[1]);
            assert(w.subrange(j, j + p.len())[2] == p[2]);
            assert(w[j] == u[j]);
            if j == 0 && u.len() >= 3 {
                assert(w[1] == u[1]);
                assert(w[2] == u[2]);
            }
        }
    }
}

/// The stage-`k` replacement turns stage `k` into stage `k + 1`.
proof fn lemma_stage_step(s: Seq<char>, k: int)
    requires
        0 <= k < 5,
    ensures
        replace_all_of(stage_seq(s, k), escape_char(decode_order(k)), seq![decode_order(k)])
            == stage_seq(s, k + 1),
    decreases s.len(),
{
    let p = escape_char(decode_order(k));
    let r = seq![decode_order(k)];
    if s.len() == 0 {
        assert(stage_seq(s, k) =~= Seq::<char>::empty());
    } else {
        let c = s[0];
        let rest = s.drop_first();
        let u = stage_char(c, k);
        let t = stage_seq(rest, k);
        lemma_stage_step(rest, k);
        lemma_decoded_before(c, k);
        assert(stage_seq(s, k) == u + t);
        assert(stage_seq(s, k + 1) == stage_char(c, k + 1) + stage_seq(rest, k + 1));
        if c == decode_order(k) {
            assert(u == p);
            assert((u + t).subrange(0, p.len() as int) =~= p);
            assert(occurs_at(u + t, p, 0));
            lemma_replace_shift(u + t, p, r, p.len() as int, p.len() as int);
            assert((u + t).skip(p.len() as int) =~= t);
            assert(stage_char(c, k + 1) == r);
        } else {
            lemma_stage_char_no_match(c, k, t);
            lemma_replace_passes(u, t, p, r, 0);
            assert(u.skip(0) =~= u);
            assert(stage_char(c, k + 1) == u);
        }
    }
}

/// Before any replacement, the stage form is the escaped text.
proof fn lemma_stage_start(s: Seq<char>)
    ensures
        stage_seq(s, 0) == escape_seq(s),
    decreases s.len(),
{
    if s.len() > 0 {
        let c = s[0];
        let rest = s.drop_first();
        lemma_stage_start(rest);
        lemma_decoded_before(c, 0);
        assert(s =~= seq![c] + rest);
        lemma_escape_concat(seq![c], rest);
        assert(seq![c].drop_last() =~= Seq::<char>::empty());
        assert(escape_seq(Seq::<char>::empty()) =~= Seq::<char>::empty());
        assert(escape_seq(seq![c]) =~= escape_char(c));
    }
}

/// After all five replacements, every character stands for itself.
proof fn lemma_stage_end(s: Seq<char>)
    ensures
        stage_seq(s, 5) == s,
    decreases s.len(),
{
    if s.len() > 0 {
        let c = s[0];
        lemma_stage_end(s.drop_first());
        lemma_decoded_before(c, 4);
        assert(stage_char(c, 5) =~= seq![c]);
        assert(seq![c] + s.drop_first() =~= s);
    }
}

/// Escaped text is given back by replacing `&lt;`, `&gt;`, `&quot;`,
/// `&apos;` and then `&amp;` by the characters they stand for.
pub proof fn lemma_escape_replace_round_trip(s: Seq<char>)
    ensures
        unescape_by_replace(escape_seq(s)) == s,
{
    lemma_stage_start(s);
    lemma_stage_step(s, 0);
    lemma_stage_step(s, 1);
    lemma_stage_step(s, 2);
    lemma_stage_step(s, 3);
    lemma_stage_step(s, 4);
    lemma_stage_end(s);
    assert(escape_char(decode_order(0)) =~= seq!['&', 'l', 't', ';']);
    assert(escape_char(decode_order(1)) =~= seq!['&', 'g', 't', ';']);
    assert(escape_char(decode_order(2)) =~= seq!['&', 'q', 'u', 'o', 't', ';']);
    assert(escape_char(decode_order(3)) =~= seq!['&', 'a', 'p', 'o', 's', ';']);
    assert(escape_char(decode_order(4)) =~= seq!['&', 'a', 'm', 'p', ';']);
}

/// A text contains what its left part contains.
pub broadcast proof fn lemma_contains_grows(x: Seq<char>, y: Seq<char>, p: Seq<char>)
    requires
        contains_seq(x, p),
    ensures
        #[trigger] contains_seq(x + y, p),
{
    let i = choose|i: int| #[trigger] occurs_at(x, p, i);
    assert((x + y).subrange(i, i + p.len()) =~= x.subrange(i, i + p.len()));
    assert(occurs_at(x + y, p, i));
}

/// A text contains what its right part contains.
pub broadcast proof fn lemma_contains_grows_left(x: Seq<char>, y: Seq<char>, p: Seq<char>)
    requires
        contains_seq(y, p),
    ensures
        #[trigger] contains_seq(x + y, p),
{
    let i = choose|i: int| #[trigger] occurs_at(y, p, i);
    assert((x + y).subrange(x.len() + i, x.len() + i + p.len()) =~= y.subrange(i, i + p.len()));
    assert(occurs_at(x + y, p, x.len() + i));
}

/// A text contains its right part.
pub broadcast proof fn lemma_contains_right_part(x: Seq<char>, p: Seq<char>)
    ensures
        #[trigger] contains_seq(x + p, p),
{
    assert((x + p).subrange(x.len() as int, (x.len() + p.len()) as int) =~= p);
    assert(occurs_at(x + p, p, x.len() as int));
}

/// A text begins with what its left part begins with.
pub broadcast proof fn lemma_starts_with_grows(x: Seq<char>, y: Seq<char>, p: Seq<char>)
    requires
        starts_with(x, p),
    ensures
        #[trigger] starts_with(x + y, p),
{
    assert((x + y).take(p.len() as int) =~= x.take(p.len() as int));
}

/// A text begins with itself.
pub broadcast proof fn lemma_starts_with_self(p: Seq<char>)
    ensures
        #[trigger] starts_with(p, p),
{
    assert(p.take(p.len() as int) =~= p);
}

/// `s` ends with `p`.
pub open spec fn ends_with(s: Seq<char>, p: Seq<char>) -> bool {
    p.len() <= s.len() && s.skip(s.len() - p.len()) == p
}

/// A text ends with its right part.
pub broadcast proof fn lemma_ends_with_right_part(x: Seq<char>, p: Seq<char>)
    ensures
        #[trigger] ends_with(x + p, p),
{
    assert((x + p).skip(x.len() as int) =~= p);
}

} // verus!
