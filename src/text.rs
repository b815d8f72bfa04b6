use vstd::prelude::*;

verus! {

pub open spec fn is_ascii_upper(c: char) -> bool {
    'A' <= c && c <= 'Z'
}

/// `r` is `s` with each ASCII capital letter replaced by its small letter.
pub open spec fn is_ascii_lowering(s: Seq<char>, r: Seq<char>) -> bool {
    &&& r.len() == s.len()
    &&& forall|i: int|
        0 <= i < s.len() ==> if is_ascii_upper(#[trigger] s[i]) {
            r[i] as int == s[i] as int + 32
        } else {
            r[i] == s[i]
        }
}

pub proof fn lemma_ascii_lowering_unique(s: Seq<char>, r1: Seq<char>, r2: Seq<char>)
    requires
        is_ascii_lowering(s, r1),
        is_ascii_lowering(s, r2),
    ensures
        r1 == r2,
{
    assert forall|i: int| 0 <= i < r1.len() implies r1[i] == r2[i] by {
        if is_ascii_upper(s[i]) {
            assert(r1[i] as int == r2[i] as int);
        }
    }
    assert(r1 =~= r2);
}

/// Relies on str::to_ascii_lowercase: ASCII capitals become small letters,
/// every other character stays.
#[verifier::external_body]
pub(crate) fn ascii_lowercase(s: &str) -> (r: String)
    ensures
        is_ascii_lowering(s@, r@),
{
    s.to_ascii_lowercase()
}

/// What str::to_lowercase makes of a text: Unicode lower case, which
/// depends on the characters alone.
pub uninterp spec fn lower_of(s: Seq<char>) -> Seq<char>;

/// Relies on str::to_lowercase for the Unicode lower case of `s`.
#[verifier::external_body]
pub(crate) fn lowercase(s: &str) -> (r: String)
    ensures
        r@ == lower_of(s@),
{
    s.to_lowercase()
}

/// Relies on str::starts_with with a character pattern.
#[verifier::external_body]
pub(crate) fn starts_with_dash(s: &str) -> (r: bool)
    ensures
        r == (s@.len() > 0 && s@[0] == '-'),
{
    s.starts_with('-')
}

/// Whether two texts are the same.
pub fn same_text(a: &str, b: &str) -> (r: bool)
    ensures
        r == (a@ == b@),
{
    a.to_owned() == b.to_owned()
}

} // verus!
