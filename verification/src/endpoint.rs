//! Where a completion request is sent, and the credential that goes with it.

use vstd::prelude::*;

verus! {

/// `s` without the run of `c` at its end.
pub open spec fn strip_trailing(s: Seq<char>, c: char) -> Seq<char>
    decreases s.len(),
{
    if s.len() > 0 && s.last() == c {
        strip_trailing(s.drop_last(), c)
    } else {
        s
    }
}

/// The path of the chat-completions endpoint below a base URL.
pub open spec fn completions_path() -> Seq<char> {
    "/v1/chat/completions"@
}

/// The address a completion request for the base URL `api_url` goes to.
pub open spec fn completions_url_of(api_url: Seq<char>) -> Seq<char> {
    strip_trailing(api_url, '/') + completions_path()
}

/// The value of the `Authorization` header for the key `api_key`.
pub open spec fn bearer_of(api_key: Seq<char>) -> Seq<char> {
    "Bearer "@ + api_key
}

/// `str::trim_end_matches` with a single character as the pattern: the
/// result is the input with every repetition of `c` at its end removed.
#[verifier::external_body]
fn trim_end_matches_char(s: &str, c: char) -> (trimmed: &str)
    ensures
        trimmed@ == strip_trailing(s@, c),
{
    s.trim_end_matches(c)
}

/// The address of the chat-completions endpoint for the base URL `api_url`:
/// the base without its trailing slashes, followed by the endpoint's path.
pub fn completions_url(api_url: &str) -> (url: String)
    ensures
        url@ == completions_url_of(api_url@),
{
    let base = trim_end_matches_char(api_url, '/');
    String::from_str(base).concat("/v1/chat/completions")
}

/// The `Authorization` header value that presents `api_key` as a bearer
/// credential.
pub fn bearer_header(api_key: &str) -> (header: String)
    ensures
        header@ == bearer_of(api_key@),
{
    String::from_str("Bearer ").concat(api_key)
}

/// What stripping leaves is the part of `s` before its final run of `c`:
/// a prefix of `s` that does not end in `c`, followed in `s` by nothing
/// but `c`.
pub proof fn lemma_strip_trailing_shape(s: Seq<char>, c: char)
    ensures
        strip_trailing(s, c).len() <= s.len(),
        strip_trailing(s, c) == s.subrange(0, strip_trailing(s, c).len() as int),
        strip_trailing(s, c).len() > 0 ==> strip_trailing(s, c).last() != c,
        forall|i: int| strip_trailing(s, c).len() <= i < s.len() ==> s[i] == c,
    decreases s.len(),
{
    if s.len() > 0 && s.last() == c {
        let shorter = s.drop_last();
        lemma_strip_trailing_shape(shorter, c);
        let kept = strip_trailing(shorter, c);
        assert(kept =~= s.subrange(0, kept.len() as int));
        assert forall|i: int| kept.len() <= i < s.len() implies s[i] == c by {
            if i < shorter.len() {
                assert(shorter[i] == s[i]);
            }
        }
    } else {
        assert(s =~= s.subrange(0, s.len() as int));
    }
}

/// Only one prefix of `s` has that shape, so the shape says what
/// `strip_trailing` is.
pub proof fn lemma_strip_trailing_unique(s: Seq<char>, c: char, kept: Seq<char>)
    requires
        kept.len() <= s.len(),
        kept == s.subrange(0, kept.len() as int),
        kept.len() > 0 ==> kept.last() != c,
        forall|i: int| kept.len() <= i < s.len() ==> s[i] == c,
    ensures
        strip_trailing(s, c) == kept,
    decreases s.len(),
{
    if s.len() > 0 && s.last() == c {
        if kept.len() == s.len() {
            assert(kept.last() == s[s.len() - 1]);
        }
        let shorter = s.drop_last();
        assert(kept =~= shorter.subrange(0, kept.len() as int));
        lemma_strip_trailing_unique(shorter, c, kept);
    } else {
        if kept.len() < s.len() {
            assert(s[s.len() - 1] == c);
        }
        assert(kept =~= s);
    }
}

/// Stripping twice is stripping once.
pub proof fn lemma_strip_trailing_idempotent(s: Seq<char>, c: char)
    ensures
        strip_trailing(strip_trailing(s, c), c) == strip_trailing(s, c),
{
    lemma_strip_trailing_shape(s, c);
}

/// One more `c` at the end changes nothing of what stripping leaves.
pub proof fn lemma_strip_trailing_push(s: Seq<char>, c: char)
    ensures
        strip_trailing(s.push(c), c) == strip_trailing(s, c),
{
    assert(s.push(c).drop_last() =~= s);
}

/// A base URL and the same base with slashes added or removed at its end
/// name the same endpoint.
pub proof fn lemma_trailing_slashes_ignored(api_url: Seq<char>)
    ensures
        completions_url_of(api_url.push('/')) == completions_url_of(api_url),
        completions_url_of(strip_trailing(api_url, '/')) == completions_url_of(api_url),
{
    lemma_strip_trailing_push(api_url, '/');
    lemma_strip_trailing_idempotent(api_url, '/');
}

} // verus!
