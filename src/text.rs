//! Character-level helpers for key names.
use vstd::prelude::*;

verus! {

/// The characters of `s`, in order.
pub fn chars_of(s: &str) -> (r: Vec<char>)
    ensures
        r@ == s@,
{
    let mut r: Vec<char> = Vec::new();
    for c in it: s.chars()
        invariant
            it.seq() == s@,
            r@ == it.seq().take(it.index() as int),
    {
        r.push(c);
    }
    r
}

} // verus!

verus! {

/// The character that separates the levels of a hierarchical key.
pub const SEPARATOR: char = '/';

/// A prefix that ends with the separator names a directory-like scope:
/// it matches every key below it, and is not itself a matchable key.
pub open spec fn is_hierarchical(prefix: Seq<char>) -> bool {
    prefix.len() > 0 && prefix.last() == SEPARATOR
}

/// Whether the key `name` falls under `prefix`: every key that begins with
/// a hierarchical prefix, otherwise the key equal to the prefix alone.
pub open spec fn key_matches(prefix: Seq<char>, name: Seq<char>) -> bool {
    if is_hierarchical(prefix) {
        prefix.is_prefix_of(name)
    } else {
        name == prefix
    }
}

/// Whether `prefix` ends with the separator.
pub fn ends_with_separator(prefix: &Vec<char>) -> (r: bool)
    ensures
        r == is_hierarchical(prefix@),
{
    prefix.len() > 0 && prefix[prefix.len() - 1] == SEPARATOR
}

/// Whether `prefix` names a hierarchical scope rather than a single key.
pub fn is_scope(prefix: &str) -> (r: bool)
    ensures
        r == is_hierarchical(prefix@),
{
    ends_with_separator(&chars_of(prefix))
}

/// Whether the characters of `prefix` begin those of `name`.
pub fn starts_with(prefix: &Vec<char>, name: &Vec<char>) -> (r: bool)
    ensures
        r == prefix@.is_prefix_of(name@),
{
    if prefix.len() > name.len() {
        return false;
    }
    let mut i: usize = 0;
    while i < prefix.len()
        invariant
            prefix.len() <= name.len(),
            i <= prefix.len(),
            prefix@.take(i as int) == name@.take(i as int),
        decreases prefix.len() - i,
    {
        if prefix[i] != name[i] {
            assert(prefix@.take(prefix.len() as int)[i as int] != name@.take(prefix.len() as int)[i as int]);
            return false;
        }
        assert(prefix@.take(i + 1) =~= prefix@.take(i as int).push(prefix@[i as int]));
        assert(name@.take(i + 1) =~= name@.take(i as int).push(name@[i as int]));
        i = i + 1;
    }
    assert(prefix@.take(prefix.len() as int) =~= prefix@);
    true
}

/// Whether the key `name` falls under `prefix`, given as characters.
pub fn matches_key(prefix: &Vec<char>, name: &str) -> (r: bool)
    ensures
        r == key_matches(prefix@, name@),
{
    let name_chars = chars_of(name);
    if ends_with_separator(prefix) {
        starts_with(prefix, &name_chars)
    } else {
        let r = prefix.len() == name_chars.len() && starts_with(prefix, &name_chars);
        proof {
            if r {
                assert(name@ =~= name@.subrange(0, prefix@.len() as int));
            }
        }
        r
    }
}

/// The pattern that selects the keys under `prefix` in a SQL `LIKE`: a
/// hierarchical prefix followed by the any-suffix wildcard, or the key itself.
pub fn like_pattern(prefix: &str) -> (r: String)
    ensures
        is_hierarchical(prefix@) ==> r@ == prefix@ + seq!['%'],
        !is_hierarchical(prefix@) ==> r@ == prefix@,
{
    let chars = chars_of(prefix);
    let mut pattern = prefix.to_owned();
    if ends_with_separator(&chars) {
        pattern.append("%");
        proof {
            reveal_strlit("%");
        }
    }
    pattern
}

} // verus!
