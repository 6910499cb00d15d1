//! Helpers for the `xuid(123)`-wrapped player-identifier format used by several Xbox Live
//! and Halo Waypoint endpoints, alongside plain gamertags or raw XUID strings.
use vstd::prelude::*;

use crate::util::text::chars_of;

verus! {

/// Whether `c` may appear in the word before the parenthesis of a wrapped identifier
/// (an ASCII letter or digit, or `_`).
pub open spec fn is_word_char(c: char) -> bool {
    ('a' <= c && c <= 'z') || ('A' <= c && c <= 'Z') || ('0' <= c && c <= '9') || c == '_'
}

/// Whether `c` is an ASCII decimal digit.
pub open spec fn is_digit_char(c: char) -> bool {
    '0' <= c && c <= '9'
}

/// Whether `s` is a non-empty run of ASCII decimal digits, the form of a raw XUID.
pub open spec fn is_digit_string(s: Seq<char>) -> bool {
    s.len() > 0 && forall|j: int| 0 <= j < s.len() ==> is_digit_char(#[trigger] s[j])
}

/// `s` has the shape `word(digits)` with its opening parenthesis at index `open`: a non-empty
/// word of ASCII letters, digits and `_`, then `(`, a non-empty run of digits, and `)` last.
pub open spec fn wrapped_at(s: Seq<char>, open: int) -> bool {
    &&& 0 < open
    &&& open + 2 < s.len()
    &&& s[open] == '('
    &&& s[s.len() - 1] == ')'
    &&& forall|j: int| 0 <= j < open ==> is_word_char(#[trigger] s[j])
    &&& forall|j: int| open < j < s.len() - 1 ==> is_digit_char(#[trigger] s[j])
}

/// Whether `s` is a wrapped identifier such as `xuid(123)`.
pub open spec fn is_wrapped_form(s: Seq<char>) -> bool {
    exists|open: int| wrapped_at(s, open)
}

/// The digits inside the parentheses of a wrapped identifier, or `None` if `s` is not one.
pub open spec fn wrapped_digits_of(s: Seq<char>) -> Option<Seq<char>> {
    if is_wrapped_form(s) {
        let open = choose|open: int| wrapped_at(s, open);
        Some(s.subrange(open + 1, s.len() - 1))
    } else {
        None
    }
}

/// The result of [`wrap_xuid`]: `s` itself when already wrapped, else `xuid(` + `s` + `)`.
pub open spec fn wrapped_form(s: Seq<char>) -> Seq<char> {
    if is_wrapped_form(s) {
        s
    } else {
        "xuid("@ + s + ")"@
    }
}

/// The result of [`unwrap_xuid`]: the digits of a wrapped identifier, else `s` unchanged.
pub open spec fn unwrapped_form(s: Seq<char>) -> Seq<char> {
    match wrapped_digits_of(s) {
        Some(d) => d,
        None => s,
    }
}

/// The opening parenthesis of a wrapped identifier is at one place only.
pub proof fn lemma_wrapped_at_unique(s: Seq<char>, a: int, b: int)
    requires
        wrapped_at(s, a),
        wrapped_at(s, b),
    ensures
        a == b,
{
    if a < b {
        assert(is_digit_char(s[b]));
    } else if b < a {
        assert(is_digit_char(s[a]));
    }
}

proof fn lemma_wrapped_digits_at(s: Seq<char>, open: int)
    requires
        wrapped_at(s, open),
    ensures
        wrapped_digits_of(s) == Some(s.subrange(open + 1, s.len() - 1)),
{
    let o = choose|o: int| wrapped_at(s, o);
    lemma_wrapped_at_unique(s, o, open);
}

/// A digit string contains no `(`, so it is not itself a wrapped identifier.
proof fn lemma_digits_not_wrapped(d: Seq<char>)
    requires
        is_digit_string(d),
    ensures
        !is_wrapped_form(d),
{
    if is_wrapped_form(d) {
        let o = choose|o: int| wrapped_at(d, o);
        assert(is_digit_char(d[o]));
    }
}

/// Wrapping a raw XUID yields `xuid(` + digits + `)`, a wrapped identifier whose digits are
/// the raw XUID.
proof fn lemma_wrap_digits(d: Seq<char>)
    requires
        is_digit_string(d),
    ensures
        wrapped_form(d) == "xuid("@ + d + ")"@,
        wrapped_at(wrapped_form(d), 4),
        wrapped_digits_of(wrapped_form(d)) == Some(d),
{
    reveal_strlit("xuid(");
    reveal_strlit(")");
    lemma_digits_not_wrapped(d);
    let w = "xuid("@ + d + ")"@;
    assert(w.len() == d.len() + 6);
    assert forall|j: int| 0 <= j < 4 implies is_word_char(#[trigger] w[j]) by {
        assert(w[j] == "xuid("@[j]);
    }
    assert forall|j: int| 4 < j < w.len() - 1 implies is_digit_char(#[trigger] w[j]) by {
        assert(w[j] == d[j - 5]);
    }
    assert(w[4] == '(');
    assert(w[w.len() - 1] == ')');
    assert(wrapped_at(w, 4));
    lemma_wrapped_digits_at(w, 4);
    assert(w.subrange(5, w.len() - 1) =~= d);
}

/// Wrapping is idempotent on the identifiers it is meant for: an already wrapped identifier
/// and a raw XUID (a non-empty run of digits) both come out of a second wrap unchanged.
pub proof fn lemma_wrap_idempotent(s: Seq<char>)
    requires
        is_wrapped_form(s) || is_digit_string(s),
    ensures
        wrapped_form(wrapped_form(s)) == wrapped_form(s),
{
    if !is_wrapped_form(s) {
        lemma_wrap_digits(s);
    }
}

/// Unwrapping a wrapped raw XUID gives the raw XUID back.
pub proof fn lemma_unwrap_after_wrap(d: Seq<char>)
    requires
        is_digit_string(d),
    ensures
        unwrapped_form(wrapped_form(d)) == d,
{
    lemma_wrap_digits(d);
}

/// Unwrapping is idempotent: what it returns is never itself a wrapped identifier.
pub proof fn lemma_unwrap_idempotent(s: Seq<char>)
    ensures
        unwrapped_form(unwrapped_form(s)) == unwrapped_form(s),
{
    if is_wrapped_form(s) {
        let o = choose|o: int| wrapped_at(s, o);
        lemma_wrapped_digits_at(s, o);
        let d = s.subrange(o + 1, s.len() - 1);
        assert forall|j: int| 0 <= j < d.len() implies is_digit_char(#[trigger] d[j]) by {
            assert(d[j] == s[o + 1 + j]);
        }
        lemma_digits_not_wrapped(d);
    }
}

/// Wrapping what unwrapping an `xuid(digits)` identifier returns gives the identifier back.
pub proof fn lemma_wrap_after_unwrap(s: Seq<char>)
    requires
        is_wrapped_form(s),
        "xuid("@.is_prefix_of(s),
    ensures
        wrapped_form(unwrapped_form(s)) == s,
{
    reveal_strlit("xuid(");
    reveal_strlit(")");
    let o = choose|o: int| wrapped_at(s, o);
    assert(s.subrange(0, 5)[4] == '(');
    assert(s[4] == '(');
    if o < 4 {
        assert(s.subrange(0, 5)[o] == "xuid("@[o]);
        assert(s[o] == '(');
        assert(false);
    } else if o > 4 {
        assert(is_word_char(s[4]));
    }
    lemma_wrapped_digits_at(s, 4);
    let d = s.subrange(5, s.len() - 1);
    assert forall|j: int| 0 <= j < d.len() implies is_digit_char(#[trigger] d[j]) by {
        assert(d[j] == s[5 + j]);
    }
    lemma_wrap_digits(d);
    assert("xuid("@ + d + ")"@ =~= s);
}

fn word_char(c: char) -> (r: bool)
    ensures
        r == is_word_char(c),
{
    ('a' <= c && c <= 'z') || ('A' <= c && c <= 'Z') || ('0' <= c && c <= '9') || c == '_'
}

fn digit_char(c: char) -> (r: bool)
    ensures
        r == is_digit_char(c),
{
    '0' <= c && c <= '9'
}

/// Wraps a raw XUID (e.g. `"2535405290989773"`) as `xuid(2535405290989773)`, the form several
/// endpoints require in path/query parameters. If `player_id` already looks like a wrapped
/// identifier (`word(digits)`), it is returned unchanged.
pub fn wrap_xuid(player_id: &str) -> (r: String)
    ensures
        r@ == wrapped_form(player_id@),
{
    if is_wrapped(player_id) {
        String::from_str(player_id)
    } else {
        let mut r = String::from_str("xuid(");
        r.append(player_id);
        r.append(")");
        r
    }
}

/// Unwraps a wrapped identifier (`xuid(123)`) back to its raw digits (`"123"`). If `player_id`
/// is not in wrapped form, it is returned unchanged (e.g. a plain gamertag passes through).
pub fn unwrap_xuid(player_id: &str) -> (r: String)
    ensures
        r@ == unwrapped_form(player_id@),
{
    match wrapped_digits(player_id) {
        Some(digits) => String::from_str(digits),
        None => String::from_str(player_id),
    }
}

/// Whether `player_id` is a wrapped identifier (`word(digits)`).
pub fn is_wrapped(player_id: &str) -> (r: bool)
    ensures
        r == is_wrapped_form(player_id@),
{
    wrapped_digits(player_id).is_some()
}

/// If `player_id` matches `word(digits)`, returns the digits substring.
pub fn wrapped_digits(player_id: &str) -> (r: Option<&str>)
    ensures
        match r {
            Some(d) => wrapped_digits_of(player_id@) == Some(d@),
            None => wrapped_digits_of(player_id@) is None,
        },
{
    let cs = chars_of(player_id);
    let n = cs.len();
    let ghost s = player_id@;
    // Position of the first `(`.
    let mut open: usize = 0;
    while open < n && cs[open] != '('
        invariant
            s == player_id@,
            cs@ == s,
            n == s.len(),
            open <= n,
            forall|j: int| 0 <= j < open ==> s[j] != '(',
        decreases n - open,
    {
        open = open + 1;
    }
    if open == n {
        assert(!is_wrapped_form(s)) by {
            if is_wrapped_form(s) {
                let o = choose|o: int| wrapped_at(s, o);
                assert(s[o] == '(');
            }
        }
        return None;
    }
    if cs[n - 1] != ')' {
        assert(!is_wrapped_form(s));
        return None;
    }
    // The word before the parenthesis.
    if open == 0 {
        assert(!is_wrapped_form(s)) by {
            if is_wrapped_form(s) {
                let o = choose|o: int| wrapped_at(s, o);
                assert(is_word_char(s[0]));
            }
        }
        return None;
    }
    let mut i: usize = 0;
    while i < open
        invariant
            s == player_id@,
            cs@ == s,
            n == s.len(),
            open < n,
            s[open as int] == '(',
            forall|j: int| 0 <= j < open ==> s[j] != '(',
            i <= open,
            forall|j: int| 0 <= j < i ==> is_word_char(#[trigger] s[j]),
        decreases open - i,
    {
        if !word_char(cs[i]) {
            assert(!is_wrapped_form(s)) by {
                if is_wrapped_form(s) {
                    let o = choose|o: int| wrapped_at(s, o);
                    if o < open {
                        assert(s[o] == '(');
                    } else if o > open {
                        assert(is_word_char(s[open as int]));
                    } else {
                        assert(is_word_char(s[i as int]));
                    }
                }
            }
            return None;
        }
        i = i + 1;
    }
    // The digits between the parentheses.
    if open + 2 >= n {
        assert(!is_wrapped_form(s)) by {
            if is_wrapped_form(s) {
                let o = choose|o: int| wrapped_at(s, o);
                if o < open {
                    assert(s[o] == '(');
                } else if o > open {
                    assert(is_word_char(s[open as int]));
                }
            }
        }
        return None;
    }
    let mut k: usize = open + 1;
    while k < n - 1
        invariant
            s == player_id@,
            cs@ == s,
            n == s.len(),
            open + 2 < n,
            s[open as int] == '(',
            s[n - 1] == ')',
            forall|j: int| 0 <= j < open ==> is_word_char(#[trigger] s[j]),
            open + 1 <= k <= n - 1,
            forall|j: int| open < j < k ==> is_digit_char(#[trigger] s[j]),
        decreases n - 1 - k,
    {
        if !digit_char(cs[k]) {
            assert(!is_wrapped_form(s)) by {
                if is_wrapped_form(s) {
                    let o = choose|o: int| wrapped_at(s, o);
                    if o < open {
                        assert(is_digit_char(s[open as int]));
                    } else if o > open {
                        assert(is_word_char(s[open as int]));
                    } else {
                        assert(is_digit_char(s[k as int]));
                    }
                }
            }
            return None;
        }
        k = k + 1;
    }
    proof {
        assert(wrapped_at(s, open as int));
        lemma_wrapped_digits_at(s, open as int);
    }
    Some(player_id.substring_char(open + 1, n - 1))
}

} // verus!
