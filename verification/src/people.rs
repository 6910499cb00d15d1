//! Gamertag ⇄ XUID resolution via the Xbox Live people-search API.
use vstd::prelude::*;

use crate::error::XboxError;
use crate::models::{PeopleSearchResponse, Person, Xuid};
use crate::util::text::{chars_of, push_char};

verus! {

/// How the gamertag stands in the search query: Xbox Live encodes the gamertag
/// discriminator's `#` twice, once as `%23`, then that literal percent-sign again as `%25`,
/// giving `%2523`; every other character stands as it is.
pub open spec fn sanitized_gamertag(gamertag: Seq<char>) -> Seq<char>
    decreases gamertag.len(),
{
    if gamertag.len() == 0 {
        Seq::empty()
    } else {
        sanitized_gamertag(gamertag.drop_last()) + (if gamertag.last() == '#' {
            "%2523"@
        } else {
            seq![gamertag.last()]
        })
    }
}

/// The people-search URL for `gamertag` under `peoplehub_base_url`.
pub open spec fn search_url_for(peoplehub_base_url: Seq<char>, gamertag: Seq<char>) -> Seq<
    char,
> {
    peoplehub_base_url + "/users/me/people/search/decoration/detail?q="@ + sanitized_gamertag(
        gamertag,
    ) + "&maxItems=5"@
}

/// Builds the people-search URL for `gamertag`, rooted at `peoplehub_base_url`, asking for at
/// most five results.
pub fn search_url(peoplehub_base_url: &str, gamertag: &str) -> (r: String)
    ensures
        r@ == search_url_for(peoplehub_base_url@, gamertag@),
{
    let mut url = String::from_str(peoplehub_base_url);
    url.append("/users/me/people/search/decoration/detail?q=");
    let ghost prefix = url@;
    let cs = chars_of(gamertag);
    let mut i: usize = 0;
    while i < cs.len()
        invariant
            cs@ == gamertag@,
            i <= cs.len(),
            url@ == prefix + sanitized_gamertag(gamertag@.take(i as int)),
        decreases cs.len() - i,
    {
        let c = cs[i];
        proof {
            let t = gamertag@.take(i as int + 1);
            assert(t.drop_last() =~= gamertag@.take(i as int));
            assert(t.last() == c);
        }
        if c == '#' {
            url.append("%2523");
        } else {
            push_char(&mut url, c);
        }
        proof {
            assert(url@ =~= prefix + sanitized_gamertag(gamertag@.take(i as int + 1)));
        }
        i = i + 1;
    }
    assert(gamertag@.take(cs.len() as int) =~= gamertag@);
    url.append("&maxItems=5");
    url
}

/// Whether `c` is an upper-case ASCII letter.
pub open spec fn is_ascii_upper(c: char) -> bool {
    'A' <= c && c <= 'Z'
}

/// Whether `a` and `b` are the same character once ASCII letters are lower-cased.
pub open spec fn chars_match_ignoring_ascii_case(a: char, b: char) -> bool {
    ||| a == b
    ||| is_ascii_upper(a) && b as int == a as int + 32
    ||| is_ascii_upper(b) && a as int == b as int + 32
}

/// Whether `a` and `b` are an ASCII case-insensitive match: equal once every ASCII letter is
/// lower-cased, as `str::eq_ignore_ascii_case` decides.
pub open spec fn matches_ignoring_ascii_case(a: Seq<char>, b: Seq<char>) -> bool {
    &&& a.len() == b.len()
    &&& forall|i: int| 0 <= i < a.len() ==> chars_match_ignoring_ascii_case(#[trigger] a[i], b[i])
}

/// `c` with an upper-case ASCII letter turned into its lower-case letter, as
/// `char::to_ascii_lowercase` does; every other character stays as it is.
pub open spec fn ascii_lowercase(c: char) -> char {
    if is_ascii_upper(c) {
        ((c as u32) + 32) as char
    } else {
        c
    }
}

/// `s` with every ASCII letter lower-cased.
pub open spec fn ascii_lowercased(s: Seq<char>) -> Seq<char> {
    s.map_values(|c: char| ascii_lowercase(c))
}

/// Two characters match ignoring ASCII case exactly when lower-casing their ASCII letters
/// makes them equal.
pub proof fn lemma_chars_match_is_lowercase_equality(a: char, b: char)
    ensures
        chars_match_ignoring_ascii_case(a, b) <==> ascii_lowercase(a) == ascii_lowercase(b),
{
    assert(('A' as u32) == 65u32 && ('Z' as u32) == 90u32);
    if is_ascii_upper(a) {
        assert(65 <= a as u32 <= 90);
        assert(ascii_lowercase(a) as u32 == a as u32 + 32);
    }
    if is_ascii_upper(b) {
        assert(65 <= b as u32 <= 90);
        assert(ascii_lowercase(b) as u32 == b as u32 + 32);
    }
}

/// Two strings are an ASCII case-insensitive match exactly when lower-casing their ASCII
/// letters makes them equal, as `str::eq_ignore_ascii_case` is documented to decide: equal
/// lengths and, position by position, equal lower-cased characters.
pub proof fn lemma_match_is_lowercase_equality(a: Seq<char>, b: Seq<char>)
    ensures
        matches_ignoring_ascii_case(a, b) <==> ascii_lowercased(a) == ascii_lowercased(b),
        matches_ignoring_ascii_case(a, b) ==> a.len() == b.len() && forall|i: int|
            0 <= i < a.len() ==> ascii_lowercase(#[trigger] a[i]) == ascii_lowercase(b[i]),
{
    assert forall|i: int| 0 <= i < a.len() && i < b.len() implies (chars_match_ignoring_ascii_case(
        #[trigger] a[i],
        b[i],
    ) <==> ascii_lowercase(a[i]) == ascii_lowercase(b[i])) by {
        lemma_chars_match_is_lowercase_equality(a[i], b[i]);
    }
    if matches_ignoring_ascii_case(a, b) {
        assert(ascii_lowercased(a) =~= ascii_lowercased(b));
    }
    if ascii_lowercased(a) == ascii_lowercased(b) {
        assert(ascii_lowercased(a).len() == a.len());
        assert(ascii_lowercased(b).len() == b.len());
        assert forall|i: int| 0 <= i < a.len() implies chars_match_ignoring_ascii_case(
            #[trigger] a[i],
            b[i],
        ) by {
            assert(ascii_lowercased(a)[i] == ascii_lowercased(b)[i]);
        }
    }
}

/// Changing one character of a gamertag changes whether it matches, unless the new character
/// lower-cases to the old one.
pub proof fn lemma_match_sees_every_character(a: Seq<char>, i: int, c: char)
    requires
        0 <= i < a.len(),
        matches_ignoring_ascii_case(a, a.update(i, c)),
    ensures
        ascii_lowercase(c) == ascii_lowercase(a[i]),
{
    lemma_match_is_lowercase_equality(a, a.update(i, c));
    assert(a.update(i, c)[i] == c);
}

fn char_matches_ignoring_ascii_case(a: char, b: char) -> (r: bool)
    ensures
        r == chars_match_ignoring_ascii_case(a, b),
{
    a == b || ('A' <= a && a <= 'Z' && (b as u32) == (a as u32) + 32) || ('A' <= b && b <= 'Z'
        && (a as u32) == (b as u32) + 32)
}

/// Whether `a` and `b` are an ASCII case-insensitive match.
pub fn eq_ignore_ascii_case(a: &str, b: &str) -> (r: bool)
    ensures
        r == matches_ignoring_ascii_case(a@, b@),
{
    let xs = chars_of(a);
    let ys = chars_of(b);
    if xs.len() != ys.len() {
        return false;
    }
    let mut i: usize = 0;
    while i < xs.len()
        invariant
            xs@ == a@,
            ys@ == b@,
            xs.len() == ys.len(),
            i <= xs.len(),
            forall|j: int| 0 <= j < i ==> chars_match_ignoring_ascii_case(#[trigger] a@[j], b@[j]),
        decreases xs.len() - i,
    {
        if !char_matches_ignoring_ascii_case(xs[i], ys[i]) {
            return false;
        }
        i = i + 1;
    }
    true
}

/// Whether search result `person` is the player named `gamertag`.
pub open spec fn is_match(person: Person, gamertag: Seq<char>) -> bool {
    matches_ignoring_ascii_case(person.gamertag@, gamertag)
}

/// Picks, out of the (potentially fuzzy) people-search results, the first person whose
/// gamertag matches `gamertag` case-insensitively, and returns their XUID;
/// [`XboxError::PersonNotFound`] naming `gamertag` when none does.
pub fn find_gamertag(payload: &PeopleSearchResponse, gamertag: &str) -> (r: Result<
    Xuid,
    XboxError,
>)
    ensures
        match r {
            Ok(xuid) => exists|i: int|
                0 <= i < payload.people@.len() && is_match(payload.people@[i], gamertag@) && (
                forall|j: int| 0 <= j < i ==> !is_match(#[trigger] payload.people@[j], gamertag@))
                    && xuid.0@ == payload.people@[i].xuid@,
            Err(e) => (e matches XboxError::PersonNotFound(g) && g@ == gamertag@) && forall|
                i: int,
            |
                0 <= i < payload.people@.len() ==> !is_match(
                    #[trigger] payload.people@[i],
                    gamertag@,
                ),
        },
{
    let people = &payload.people;
    let mut i: usize = 0;
    while i < people.len()
        invariant
            people@ == payload.people@,
            i <= people.len(),
            forall|j: int| 0 <= j < i ==> !is_match(#[trigger] people@[j], gamertag@),
        decreases people.len() - i,
    {
        if eq_ignore_ascii_case(people[i].gamertag.as_str(), gamertag) {
            return Ok(Xuid(people[i].xuid.clone()));
        }
        i = i + 1;
    }
    Err(XboxError::PersonNotFound(String::from_str(gamertag)))
}

} // verus!
