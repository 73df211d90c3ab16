//! Recognizing address-shaped text and building search destinations.
//!
//! Typed text counts as an address when, anywhere in it, one of the
//! schemes `http`, `https`, `ftp` or `file` is followed by `://` and a
//! remainder of at least two characters: one or more characters from a
//! broad path/query class, ending on a character from a narrower class
//! that excludes trailing punctuation such as `?`, `!` or `.`.

use vstd::prelude::*;

verus! {

/// A letter or a digit.
pub open spec fn is_alnum(c: char) -> bool {
    ||| 'A' as u32 <= c as u32 && c as u32 <= 'Z' as u32
    ||| 'a' as u32 <= c as u32 && c as u32 <= 'z' as u32
    ||| '0' as u32 <= c as u32 && c as u32 <= '9' as u32
}

/// The broad class accepted after `scheme://`: letters, digits, and the
/// path/query punctuation `- + & @ # / % ? = ~ _ | ! : , . ;`.
pub open spec fn is_body_char(c: char) -> bool {
    ||| is_alnum(c)
    ||| c == '-' || c == '+' || c == '&' || c == '@' || c == '#' || c == '/' || c == '%'
    ||| c == '?' || c == '=' || c == '~' || c == '_' || c == '|' || c == '!' || c == ':'
    ||| c == ',' || c == '.' || c == ';'
}

/// The narrow class a match must end on: the broad class without the
/// trailing-noise punctuation `? ! : , . ;`.
pub open spec fn is_tail_char(c: char) -> bool {
    ||| is_alnum(c)
    ||| c == '-' || c == '+' || c == '&' || c == '@' || c == '#' || c == '/' || c == '%'
    ||| c == '=' || c == '~' || c == '_' || c == '|'
}

/// `http://` stands at position `i` of `s`.
pub open spec fn http_at(s: Seq<char>, i: int) -> bool {
    &&& 0 <= i
    &&& i + 7 <= s.len()
    &&& s[i] == 'h'
    &&& s[i + 1] == 't'
    &&& s[i + 2] == 't'
    &&& s[i + 3] == 'p'
    &&& s[i + 4] == ':'
    &&& s[i + 5] == '/'
    &&& s[i + 6] == '/'
}

/// `https://` stands at position `i` of `s`.
pub open spec fn https_at(s: Seq<char>, i: int) -> bool {
    &&& 0 <= i
    &&& i + 8 <= s.len()
    &&& s[i] == 'h'
    &&& s[i + 1] == 't'
    &&& s[i + 2] == 't'
    &&& s[i + 3] == 'p'
    &&& s[i + 4] == 's'
    &&& s[i + 5] == ':'
    &&& s[i + 6] == '/'
    &&& s[i + 7] == '/'
}

/// `ftp://` stands at position `i` of `s`.
pub open spec fn ftp_at(s: Seq<char>, i: int) -> bool {
    &&& 0 <= i
    &&& i + 6 <= s.len()
    &&& s[i] == 'f'
    &&& s[i + 1] == 't'
    &&& s[i + 2] == 'p'
    &&& s[i + 3] == ':'
    &&& s[i + 4] == '/'
    &&& s[i + 5] == '/'
}

/// `file://` stands at position `i` of `s`.
pub open spec fn file_at(s: Seq<char>, i: int) -> bool {
    &&& 0 <= i
    &&& i + 7 <= s.len()
    &&& s[i] == 'f'
    &&& s[i + 1] == 'i'
    &&& s[i + 2] == 'l'
    &&& s[i + 3] == 'e'
    &&& s[i + 4] == ':'
    &&& s[i + 5] == '/'
    &&& s[i + 6] == '/'
}

/// Some accepted scheme followed by `://` stands at position `i` of `s`
/// and ends right before position `p`.
pub open spec fn scheme_at(s: Seq<char>, i: int, p: int) -> bool {
    ||| http_at(s, i) && p == i + 7
    ||| https_at(s, i) && p == i + 8
    ||| ftp_at(s, i) && p == i + 6
    ||| file_at(s, i) && p == i + 7
}

/// Starting at position `p`, one or more broad-class characters run up to
/// position `e - 1`, which holds a narrow-class character: the remainder
/// an address match needs after its scheme.
pub open spec fn body_match(s: Seq<char>, p: int, e: int) -> bool {
    &&& p + 2 <= e
    &&& e <= s.len()
    &&& forall|j: int| p <= j < e - 1 ==> is_body_char(#[trigger] s[j])
    &&& is_tail_char(s[e - 1])
}

/// The address pattern matches somewhere in `s`: a scheme occurrence
/// whose remainder is well formed.
pub open spec fn uri_match(s: Seq<char>) -> bool {
    exists|i: int, p: int, e: int| scheme_at(s, i, p) && body_match(s, p, e)
}

/// The fixed search endpoint a non-address query is appended to.
pub open spec fn search_prefix() -> Seq<char> {
    "https://www.google.com/search?q="@
}

/// The destination that typed text resolves to: the text itself when it
/// is address-shaped, otherwise a search query for it.
pub open spec fn resolved(t: Seq<char>) -> Seq<char> {
    if uri_match(t) {
        t
    } else {
        search_prefix() + t
    }
}

/// A narrow-class character also belongs to the broad class.
pub proof fn lemma_tail_is_body(c: char)
    ensures
        is_tail_char(c) ==> is_body_char(c),
{
}

/// Wherever some scheme occurrence is followed by a well-formed
/// remainder — in particular when the string starts with one — the
/// address pattern matches the string.
pub proof fn lemma_address_shape_matches(s: Seq<char>, i: int, p: int, e: int)
    requires
        scheme_at(s, i, p),
        body_match(s, p, e),
    ensures
        uri_match(s),
{
    assert(scheme_at(s, i, p) && body_match(s, p, e));
}

/// A string in which no accepted scheme occurs anywhere is never taken
/// for an address.
pub proof fn lemma_no_scheme_no_match(s: Seq<char>)
    requires
        forall|i: int, p: int| !scheme_at(s, i, p),
    ensures
        !uri_match(s),
{
    if uri_match(s) {
        let (i, p, e) = choose|i: int, p: int, e: int|
            scheme_at(s, i, p) && body_match(s, p, e);
        assert(!scheme_at(s, i, p));
        assert(false);
    }
}

fn check_alnum(c: char) -> (r: bool)
    ensures
        r == is_alnum(c),
{
    let u: u32 = c as u32;
    ('A' as u32 <= u && u <= 'Z' as u32) || ('a' as u32 <= u && u <= 'z' as u32) || ('0' as u32
        <= u && u <= '9' as u32)
}

fn check_body_char(c: char) -> (r: bool)
    ensures
        r == is_body_char(c),
{
    check_alnum(c) || c == '-' || c == '+' || c == '&' || c == '@' || c == '#' || c == '/' || c
        == '%' || c == '?' || c == '=' || c == '~' || c == '_' || c == '|' || c == '!' || c == ':'
        || c == ',' || c == '.' || c == ';'
}

fn check_tail_char(c: char) -> (r: bool)
    ensures
        r == is_tail_char(c),
{
    check_alnum(c) || c == '-' || c == '+' || c == '&' || c == '@' || c == '#' || c == '/' || c
        == '%' || c == '=' || c == '~' || c == '_' || c == '|'
}

/// Looks for an accepted scheme at position `i`; on success hands back
/// the position right after its `://`.
fn scheme_end_from(text: &str, i: usize, n: usize) -> (r: Option<usize>)
    requires
        n == text@.len(),
        i < n,
    ensures
        match r {
            Some(p) => scheme_at(text@, i as int, p as int) && i < p <= n,
            None => forall|p: int| !scheme_at(text@, i as int, p),
        },
{
    if n - i >= 8 && text.get_char(i) == 'h' && text.get_char(i + 1) == 't' && text.get_char(
        i + 2,
    ) == 't' && text.get_char(i + 3) == 'p' && text.get_char(i + 4) == 's' && text.get_char(i + 5)
        == ':' && text.get_char(i + 6) == '/' && text.get_char(i + 7) == '/' {
        Some(i + 8)
    } else if n - i >= 7 && text.get_char(i) == 'h' && text.get_char(i + 1) == 't'
        && text.get_char(i + 2) == 't' && text.get_char(i + 3) == 'p' && text.get_char(i + 4)
        == ':' && text.get_char(i + 5) == '/' && text.get_char(i + 6) == '/' {
        Some(i + 7)
    } else if n - i >= 7 && text.get_char(i) == 'f' && text.get_char(i + 1) == 'i'
        && text.get_char(i + 2) == 'l' && text.get_char(i + 3) == 'e' && text.get_char(i + 4)
        == ':' && text.get_char(i + 5) == '/' && text.get_char(i + 6) == '/' {
        Some(i + 7)
    } else if n - i >= 6 && text.get_char(i) == 'f' && text.get_char(i + 1) == 't'
        && text.get_char(i + 2) == 'p' && text.get_char(i + 3) == ':' && text.get_char(i + 4)
        == '/' && text.get_char(i + 5) == '/' {
        Some(i + 6)
    } else {
        None
    }
}

/// Decides whether a well-formed remainder starts at position `p`.
fn has_body_from(text: &str, p: usize, n: usize) -> (r: bool)
    requires
        n == text@.len(),
        p <= n,
    ensures
        r == exists|e: int| body_match(text@, p as int, e),
{
    let mut k: usize = p;
    loop
        invariant
            n == text@.len(),
            p <= k <= n,
            forall|j: int| p <= j < k ==> is_body_char(#[trigger] text@[j]),
            forall|t: int| p < t < k ==> !is_tail_char(#[trigger] text@[t]),
        ensures
            p <= k <= n,
            k == n || !is_body_char(text@[k as int]),
            forall|j: int| p <= j < k ==> is_body_char(#[trigger] text@[j]),
            forall|t: int| p < t < k ==> !is_tail_char(#[trigger] text@[t]),
        decreases n - k,
    {
        if k >= n {
            break ;
        }
        let c = text.get_char(k);
        if !check_body_char(c) {
            break ;
        }
        if k > p && check_tail_char(c) {
            proof {
                assert(body_match(text@, p as int, k as int + 1));
            }
            return true;
        }
        k = k + 1;
    }
    proof {
        assert forall|e: int| !(#[trigger] body_match(text@, p as int, e)) by {
            if body_match(text@, p as int, e) {
                lemma_tail_is_body(text@[e - 1]);
                if e - 1 < k {
                    assert(!is_tail_char(text@[e - 1]));
                } else if e - 1 == k {
                    assert(k < n);
                    assert(is_body_char(text@[k as int]));
                } else {
                    assert(is_body_char(text@[k as int]));
                }
            }
        }
    }
    false
}

/// Whether the typed text is address-shaped.
///
/// Returns exactly whether the address pattern matches somewhere in the
/// text: some accepted scheme, its `://`, and a remainder of at least
/// two characters from the accepted classes, ending on a narrow-class
/// character.
pub fn is_uri(text: &str) -> (r: bool)
    ensures
        r == uri_match(text@),
{
    let n: usize = text.unicode_len();
    let mut i: usize = 0;
    loop
        invariant
            n == text@.len(),
            i <= n,
            forall|i0: int, p: int, e: int|
                0 <= i0 < i ==> !(#[trigger] scheme_at(text@, i0, p) && #[trigger] body_match(
                    text@,
                    p,
                    e,
                )),
        ensures
            i >= n,
            forall|i0: int, p: int, e: int|
                0 <= i0 < i ==> !(#[trigger] scheme_at(text@, i0, p) && #[trigger] body_match(
                    text@,
                    p,
                    e,
                )),
        decreases n - i,
    {
        if i >= n {
            break ;
        }
        match scheme_end_from(text, i, n) {
            Some(p) => {
                if has_body_from(text, p, n) {
                    proof {
                        let e = choose|e: int| body_match(text@, p as int, e);
                        lemma_address_shape_matches(text@, i as int, p as int, e);
                    }
                    return true;
                }
                proof {
                    assert forall|p2: int, e: int|
                        !(#[trigger] scheme_at(text@, i as int, p2) && #[trigger] body_match(
                            text@,
                            p2,
                            e,
                        )) by {
                        if scheme_at(text@, i as int, p2) && body_match(text@, p2, e) {
                            assert(p2 == p as int);
                            assert(!body_match(text@, p as int, e));
                        }
                    }
                }
            },
            None => {},
        }
        i = i + 1;
    }
    proof {
        assert forall|i0: int, p: int, e: int|
            !(#[trigger] scheme_at(text@, i0, p) && #[trigger] body_match(text@, p, e)) by {
            if scheme_at(text@, i0, p) {
                assert(0 <= i0 && i0 + 6 <= text@.len());
            }
        }
        assert(!uri_match(text@));
    }
    false
}

/// Builds the search-engine destination for a query: the fixed endpoint
/// with the raw text appended, no encoding applied.
pub fn uri_search_with_google(text: &str) -> (r: String)
    ensures
        r@ == search_prefix() + text@,
{
    let mut s = String::from_str("https://www.google.com/search?q=");
    s.append(text);
    s
}

/// Resolves typed text to its destination: address-shaped text passes
/// through unchanged, anything else becomes a search query.
pub fn resolve(text: &str) -> (r: String)
    ensures
        r@ == resolved(text@),
{
    if is_uri(text) {
        text.to_owned()
    } else {
        uri_search_with_google(text)
    }
}

} // verus!
