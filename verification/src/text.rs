//! Text helpers on `String` / `str` with their specifications.

use vstd::prelude::*;

verus! {

/// ASCII lower-casing of one character: `'A'..='Z'` map to `'a'..='z'`,
/// every other character is unchanged.
pub open spec fn ascii_lower_char(c: char) -> char {
    if 'A' <= c && c <= 'Z' {
        ((c as u32) + 32) as char
    } else {
        c
    }
}

/// ASCII lower-casing of a whole text.
pub open spec fn ascii_lower(s: Seq<char>) -> Seq<char> {
    s.map_values(|c: char| ascii_lower_char(c))
}

/// Lower-casing is idempotent: the text of a server name, already in lower
/// case, names the same server when converted again.
pub proof fn ascii_lower_idempotent(s: Seq<char>)
    ensures
        ascii_lower(ascii_lower(s)) == ascii_lower(s),
{
    assert(ascii_lower(ascii_lower(s)) =~= ascii_lower(s));
}

/// `str::to_ascii_lowercase`: std documents that ASCII letters `'A'` to `'Z'`
/// are mapped to `'a'` to `'z'` and every other character is left unchanged.
#[verifier::external_body]
pub(crate) fn to_ascii_lowercase(s: &str) -> (r: String)
    ensures
        r@ == ascii_lower(s@),
{
    s.to_ascii_lowercase()
}

/// `<str as PartialEq>::eq`: two texts are equal when they hold the same
/// characters.
#[verifier::external_body]
pub(crate) fn str_eq(a: &str, b: &str) -> (r: bool)
    ensures
        r == (a@ == b@),
{
    a == b
}

/// Concatenation `a + b` as a fresh `String`.
pub fn concat(a: &str, b: &str) -> (r: String)
    ensures
        r@ == a@ + b@,
{
    let mut r = String::from_str(a);
    r.append(b);
    r
}

/// Joins `a` and `b` with one `'/'` between them, as `format!("{}/{}", a, b)` does.
pub fn slash_join(a: &str, b: &str) -> (r: String)
    ensures
        r@ == a@ + seq!['/'] + b@,
{
    let mut r = String::from_str(a);
    r.append("/");
    proof {
        reveal_strlit("/");
        assert("/"@ == seq!['/']);
    }
    r.append(b);
    r
}

/// Whether the text contains the character `c`.
pub fn contains_char(s: &str, c: char) -> (r: bool)
    ensures
        r == s@.contains(c),
{
    let mut found = false;
    let ghost mut seen: int = 0;
    for x in it: s.chars()
        invariant
            it.seq() == s@,
            seen == it.index(),
            found == s@.take(seen).contains(c),
    {
        assert(x == s@[seen]);
        assert(s@.take(seen + 1) == s@.take(seen).push(x));
        if x == c {
            assert(s@.take(seen + 1)[seen] == c);
            found = true;
        } else {
            assert(s@.take(seen).push(x).contains(c) ==> s@.take(seen).contains(c)) by {
                if s@.take(seen).push(x).contains(c) {
                    let j = choose|j: int| 0 <= j < seen + 1 && s@.take(seen).push(x)[j] == c;
                    assert(s@.take(seen)[j] == c);
                }
            }
        }
        proof {
            seen = seen + 1;
        }
    }
    assert(s@.take(seen) == s@);
    found
}

/// The text of an optional `String`.
pub open spec fn opt_view(o: Option<String>) -> Option<Seq<char>> {
    match o {
        Some(s) => Some(s@),
        None => None,
    }
}

/// Clone of an optional text.
pub fn clone_opt_string(o: &Option<String>) -> (r: Option<String>)
    ensures
        r == *o,
{
    match o {
        Some(s) => Some(s.clone()),
        None => None,
    }
}

/// Clone of a list of texts.
pub fn clone_strings(v: &Vec<String>) -> (r: Vec<String>)
    ensures
        r@ == v@,
{
    let mut r: Vec<String> = Vec::new();
    for i in 0..v.len()
        invariant
            r@ == v@.take(i as int),
    {
        r.push(v[i].clone());
        assert(r@ == v@.take(i + 1));
    }
    assert(v@.take(v.len() as int) == v@);
    r
}

} // verus!
