use vstd::prelude::*;

verus! {

/// The lower-case form of a string, character sequence to character
/// sequence, as `str::to_lowercase` of the standard library computes it.
pub uninterp spec fn lowercase(s: Seq<char>) -> Seq<char>;

/// Whether `needle` stands in `hay` from position `i` on.
pub open spec fn occurs_at(hay: Seq<char>, needle: Seq<char>, i: int) -> bool {
    &&& 0 <= i
    &&& i + needle.len() <= hay.len()
    &&& hay.subrange(i, i + needle.len()) == needle
}

/// Whether `needle` occurs in `hay` as one unbroken run of characters.
pub open spec fn contains_str(hay: Seq<char>, needle: Seq<char>) -> bool {
    exists|i: int| occurs_at(hay, needle, i)
}

/// `s` without the run of `c` at its end.
pub open spec fn trim_end(s: Seq<char>, c: char) -> Seq<char>
    decreases s.len(),
{
    if s.len() > 0 && s.last() == c {
        trim_end(s.drop_last(), c)
    } else {
        s
    }
}

/// `str::to_lowercase`: the result is the lower-case form of the argument.
/// What that form is, is left to the standard library; the contract only
/// names it.
#[verifier::external_body]
pub(crate) fn to_lowercase(s: &str) -> (r: String)
    ensures
        r@ == lowercase(s@),
{
    s.to_lowercase()
}

/// `str::contains` with a string as the pattern: true exactly when the
/// pattern is a substring of `hay`.
#[verifier::external_body]
pub(crate) fn str_contains(hay: &str, needle: &str) -> (r: bool)
    ensures
        r == contains_str(hay@, needle@),
{
    hay.contains(needle)
}

/// `str::trim_end_matches` with a character as the pattern: every trailing
/// occurrence of `c` is removed, nothing else.
#[verifier::external_body]
pub(crate) fn trim_end_matches(s: &str, c: char) -> (r: &str)
    ensures
        r@ == trim_end(s@, c),
{
    s.trim_end_matches(c)
}

/// Whether one of `needles` occurs in `hay`. Characters are compared as they
/// are: callers that want to ignore case hand in lower-case strings.
pub fn contains_any(hay: &str, needles: &Vec<String>) -> (r: bool)
    ensures
        r == exists|i: int| 0 <= i < needles@.len() && contains_str(hay@, #[trigger] needles@[i]@),
{
    let mut i: usize = 0;
    while i < needles.len()
        invariant
            i <= needles.len(),
            forall|k: int| 0 <= k < i ==> !contains_str(hay@, #[trigger] needles@[k]@),
        decreases needles.len() - i,
    {
        if str_contains(hay, needles[i].as_str()) {
            return true;
        }
        i += 1;
    }
    false
}

/// The lower-case forms of `items`, in order.
pub fn lowercase_all(items: &Vec<String>) -> (r: Vec<String>)
    ensures
        r@.len() == items@.len(),
        forall|i: int| 0 <= i < items@.len() ==> (#[trigger] r@[i])@ == lowercase(items@[i]@),
{
    let mut out: Vec<String> = Vec::new();
    let mut i: usize = 0;
    while i < items.len()
        invariant
            i <= items.len(),
            out@.len() == i,
            forall|k: int| 0 <= k < i ==> (#[trigger] out@[k])@ == lowercase(items@[k]@),
        decreases items.len() - i,
    {
        out.push(to_lowercase(items[i].as_str()));
        i += 1;
    }
    out
}

/// Whether `name` holds one of `fragments`, case ignored on both sides.
pub open spec fn name_matches(name: Seq<char>, fragments: Seq<String>) -> bool {
    exists|i: int|
        0 <= i < fragments.len() && contains_str(lowercase(name), lowercase(#[trigger] fragments[i]@))
}

/// Whether `name` holds one of `fragments`, case ignored on both sides.
pub fn matches_any_fragment(name: &str, fragments: &Vec<String>) -> (r: bool)
    ensures
        r == name_matches(name@, fragments@),
{
    let lower_name = to_lowercase(name);
    let lower_fragments = lowercase_all(fragments);
    let r = contains_any(lower_name.as_str(), &lower_fragments);
    proof {
        if r {
            let i = choose|i: int|
                0 <= i < lower_fragments@.len() && contains_str(
                    lower_name@,
                    #[trigger] lower_fragments@[i]@,
                );
            assert(contains_str(lowercase(name@), lowercase(fragments@[i]@)));
        } else {
            assert forall|i: int| 0 <= i < fragments@.len() implies !contains_str(
                lowercase(name@),
                lowercase(#[trigger] fragments@[i]@),
            ) by {
                assert(lower_fragments@[i]@ == lowercase(fragments@[i]@));
            }
        }
    }
    r
}

} // verus!
