use vstd::prelude::*;

verus! {

/// The lowercase form of a text, as Unicode defines it for each character.
pub uninterp spec fn lowercase(s: Seq<char>) -> Seq<char>;

/// `str::to_lowercase` of the standard library: the returned string is the
/// lowercase form of the argument. The form itself is named by `lowercase`
/// and not spelled out.
pub assume_specification[ str::to_lowercase ](s: &str) -> (res: String)
    ensures
        res@ == lowercase(s@),
;

/// Equality of string slices in the standard library: two slices are equal
/// exactly when they hold the same characters.
pub assume_specification[ <str as PartialEq>::eq ](a: &str, b: &str) -> (res: bool)
    ensures
        res == (a@ == b@),
;

/// Whether `s` begins with the protocol version, `1.0`. What follows the
/// three characters does not count.
pub open spec fn has_version_prefix(s: Seq<char>) -> bool {
    s.len() >= 3 && s.subrange(0, 3) == "1.0"@
}

/// Tells whether `s` begins with the three characters of the protocol version.
pub fn starts_with_version(s: &str) -> (res: bool)
    ensures
        res == has_version_prefix(s@),
{
    if s.unicode_len() < 3 {
        return false;
    }
    let res = s.get_char(0) == '1' && s.get_char(1) == '.' && s.get_char(2) == '0';
    proof {
        reveal_strlit("1.0");
        let head = s@.subrange(0, 3);
        assert(head[0] == s@[0] && head[1] == s@[1] && head[2] == s@[2]);
        if res {
            assert(head =~= "1.0"@);
        }
    }
    res
}

/// Tells whether two string slices hold the same characters.
pub fn same_text(a: &str, b: &str) -> (res: bool)
    ensures
        res == (a@ == b@),
{
    a.eq(b)
}

} // verus!
