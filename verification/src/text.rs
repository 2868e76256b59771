use vstd::prelude::*;

verus! {

/// The code point of `c` after ASCII lower-casing: `A`..=`Z` map to `a`..=`z`,
/// every other character stays as it is.
pub open spec fn ascii_folded(c: char) -> u32 {
    if 'A' <= c && c <= 'Z' {
        (c as u32 + 32) as u32
    } else {
        c as u32
    }
}

/// Two strings are equal up to the case of ASCII letters.
pub open spec fn ascii_case_insensitive_eq(a: Seq<char>, b: Seq<char>) -> bool {
    &&& a.len() == b.len()
    &&& forall|i: int| 0 <= i < a.len() ==> #[trigger] ascii_folded(a[i]) == ascii_folded(b[i])
}

/// Matching up to ASCII case is symmetric.
pub proof fn ascii_case_insensitive_eq_is_symmetric(a: Seq<char>, b: Seq<char>)
    ensures
        ascii_case_insensitive_eq(a, b) == ascii_case_insensitive_eq(b, a),
{
}

/// Matching up to ASCII case is transitive.
pub proof fn ascii_case_insensitive_eq_is_transitive(a: Seq<char>, b: Seq<char>, c: Seq<char>)
    requires
        ascii_case_insensitive_eq(a, b),
        ascii_case_insensitive_eq(b, c),
    ensures
        ascii_case_insensitive_eq(a, c),
{
    assert forall|i: int| 0 <= i < a.len() implies #[trigger] ascii_folded(a[i]) == ascii_folded(
        c[i],
    ) by {
        assert(ascii_folded(a[i]) == ascii_folded(b[i]));
        assert(ascii_folded(b[i]) == ascii_folded(c[i]));
    }
}

fn fold_ascii(c: char) -> (code: u32)
    ensures
        code == ascii_folded(c),
{
    if 'A' <= c && c <= 'Z' {
        c as u32 + 32
    } else {
        c as u32
    }
}

/// Checks that two strings are an ASCII case-insensitive match, as
/// `str::eq_ignore_ascii_case` does.
pub fn eq_ignore_ascii_case(a: &str, b: &str) -> (equal: bool)
    ensures
        equal == ascii_case_insensitive_eq(a@, b@),
{
    let n = a.unicode_len();
    if n != b.unicode_len() {
        return false;
    }
    for i in 0..n
        invariant
            n == a@.len(),
            n == b@.len(),
            forall|j: int| 0 <= j < i ==> #[trigger] ascii_folded(a@[j]) == ascii_folded(b@[j]),
    {
        if fold_ascii(a.get_char(i)) != fold_ascii(b.get_char(i)) {
            return false;
        }
    }
    true
}

/// Checks that two strings hold the same characters.
pub fn str_equals(a: &str, b: &str) -> (equal: bool)
    ensures
        equal == (a@ == b@),
{
    let n = a.unicode_len();
    if n != b.unicode_len() {
        return false;
    }
    for i in 0..n
        invariant
            n == a@.len(),
            n == b@.len(),
            forall|j: int| 0 <= j < i ==> a@[j] == b@[j],
    {
        if a.get_char(i) != b.get_char(i) {
            return false;
        }
    }
    assert(a@ =~= b@);
    true
}

} // verus!
