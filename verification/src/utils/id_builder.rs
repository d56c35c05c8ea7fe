//! Random identifiers.
//!
//! By the birthday bound, ids of 10 hex digits suit about a hundred thousand
//! items, 12 a million, 13 to 14 ten million, and 16 or more practically any
//! number.

use vstd::prelude::*;
use crate::text::push_char;

verus! {

/// A lowercase hexadecimal digit.
pub open spec fn is_lower_hex(c: char) -> bool {
    ('0' <= c && c <= '9') || ('a' <= c && c <= 'f')
}

/// The text form of a UUID: 36 characters, hyphens at positions 8, 13, 18
/// and 23, lowercase hexadecimal digits elsewhere.
pub open spec fn is_hyphenated_uuid(s: Seq<char>) -> bool {
    &&& s.len() == 36
    &&& forall|i: int| 0 <= i < 36 ==> (if i == 8 || i == 13 || i == 18 || i == 23 {
        s[i] == '-'
    } else {
        is_lower_hex(#[trigger] s[i])
    })
}

/// A new random (version 4) UUID in its text form (`Uuid::new_v4().to_string()`).
///
/// The value is random; what is stated is the documented text format
/// (lowercase, hyphenated).
#[verifier::external_body]
pub(crate) fn new_uuid_string() -> (s: String)
    ensures
        is_hyphenated_uuid(s@),
{
    uuid::Uuid::new_v4().to_string()
}

/// The characters of `s` other than `-`, in order.
pub open spec fn without_hyphens(s: Seq<char>) -> Seq<char>
    decreases s.len(),
{
    if s.len() == 0 {
        Seq::empty()
    } else if s.last() == '-' {
        without_hyphens(s.drop_last())
    } else {
        without_hyphens(s.drop_last()).push(s.last())
    }
}

proof fn lemma_uuid_hex_prefix(s: Seq<char>, k: int)
    requires
        is_hyphenated_uuid(s),
        0 <= k <= 36,
    ensures
        without_hyphens(s.take(k)).len() == k - (if k > 23 { 4int } else if k > 18 { 3int } else if k > 13 { 2int } else if k > 8 { 1int } else { 0int }),
        forall|j: int| 0 <= j < without_hyphens(s.take(k)).len() ==> is_lower_hex(#[trigger] without_hyphens(s.take(k))[j]),
    decreases k,
{
    if k > 0 {
        lemma_uuid_hex_prefix(s, k - 1);
        assert(s.take(k).drop_last() =~= s.take(k - 1));
        let i = k - 1;
        assert(s.take(k).last() == s[i]);
        if !(i == 8 || i == 13 || i == 18 || i == 23) {
            assert(is_lower_hex(s[i]));
        }
    }
}

/// A random id of `len` lowercase hexadecimal digits (at most 32): the
/// digits of a new UUID, hyphens removed, truncated to `len`.
pub fn generate_id_by_len(len: u32) -> (id: String)
    ensures
        id@.len() == (if len <= 32 { len as int } else { 32 }),
        forall|j: int| 0 <= j < id@.len() ==> is_lower_hex(#[trigger] id@[j]),
        exists|u: Seq<char>| is_hyphenated_uuid(u) && id@ == #[trigger] without_hyphens(u).take(id@.len() as int),
{
    let u = new_uuid_string();
    let ghost src = u@;
    let mut id = String::new();
    let mut taken: u32 = 0;
    let mut i: usize = 0;
    proof {
        lemma_uuid_hex_prefix(src, 36);
        assert(src.take(36) =~= src);
    }
    while i < 36
        invariant
            src == u@,
            is_hyphenated_uuid(src),
            i <= 36,
            id@ == without_hyphens(src.take(i as int)).take(taken as int),
            taken as int == (if without_hyphens(src.take(i as int)).len() <= len as int { without_hyphens(src.take(i as int)).len() as int } else { len as int }),
        decreases 36 - i,
    {
        let c = u.get_char(i);
        proof {
            assert(src.take(i as int + 1).drop_last() =~= src.take(i as int));
            lemma_uuid_hex_prefix(src, i as int);
            lemma_uuid_hex_prefix(src, i as int + 1);
        }
        if c != '-' {
            if taken < len {
                push_char(&mut id, c);
                taken = taken + 1;
                assert(id@ =~= without_hyphens(src.take(i as int + 1)).take(taken as int));
            } else {
                assert(id@ =~= without_hyphens(src.take(i as int + 1)).take(taken as int));
            }
        } else {
            assert(without_hyphens(src.take(i as int + 1)) == without_hyphens(src.take(i as int)));
        }
        i = i + 1;
    }
    proof {
        lemma_uuid_hex_prefix(src, 36);
        assert(src.take(36) =~= src);
        assert(id@ == without_hyphens(src).take(id@.len() as int));
    }
    id
}

/// A random id of 16 hexadecimal digits, the default length.
pub fn generate_id() -> (id: String)
    ensures
        id@.len() == 16,
        forall|j: int| 0 <= j < id@.len() ==> is_lower_hex(#[trigger] id@[j]),
{
    generate_id_by_len(16)
}

/// The kinds of cover art, each with its id prefix.
#[derive(Debug, Clone, Copy, PartialEq, Eq, Structural)]
pub enum CoverArt {
    Album,
    Artist,
}

/// The id prefix of a kind of cover art.
pub open spec fn cover_prefix(c: CoverArt) -> Seq<char> {
    match c {
        CoverArt::Album => "al"@,
        CoverArt::Artist => "ar"@,
    }
}

impl CoverArt {
    /// The cover art id for `id`: the kind's prefix, `-`, then `id`.
    pub fn get_id(&self, id: &str) -> (r: String)
        ensures
            r@ == cover_prefix(*self) + "-"@ + id@,
    {
        let mut r = match self {
            CoverArt::Album => String::from_str("al"),
            CoverArt::Artist => String::from_str("ar"),
        };
        r.append("-");
        r.append(id);
        r
    }
}

/// A new cover art id of the given kind, around a fresh random id.
pub fn gen_cover_id(c: CoverArt) -> (r: String)
    ensures
        r@.len() == cover_prefix(c).len() + 17,
        r@.take(cover_prefix(c).len() as int + 1) == cover_prefix(c) + "-"@,
{
    let id = generate_id();
    let r = c.get_id(id.as_str());
    proof {
        reveal_strlit("-");
        assert((cover_prefix(c) + "-"@ + id@).take(cover_prefix(c).len() as int + 1) =~= cover_prefix(c) + "-"@);
    }
    r
}

} // verus!
