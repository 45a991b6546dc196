use vstd::prelude::*;

verus! {

/// What base64's standard engine decodes a text into; `None` when it rejects it.
pub uninterp spec fn base64_decoded(text: Seq<char>) -> Option<Seq<u8>>;

/// The text that a byte sequence holds as UTF-8; `None` when it is not UTF-8.
pub uninterp spec fn utf8_text(bytes: Seq<u8>) -> Option<Seq<char>>;

/// Relies on `base64::decode` (standard alphabet, padded): the decoded bytes,
/// or `None` where it returns an error.
#[verifier::external_body]
fn decode_base64(text: &str) -> (r: Option<Vec<u8>>)
    ensures
        match r {
            Some(b) => base64_decoded(text@) == Some(b@),
            None => base64_decoded(text@) is None,
        },
{
    #[allow(deprecated)]
    match base64::decode(text) {
        Ok(b) => Some(b),
        Err(_) => None,
    }
}

/// Relies on `String::from_utf8`: the text the bytes encode, or `None` where
/// they are not valid UTF-8.
#[verifier::external_body]
fn text_from_utf8(bytes: Vec<u8>) -> (r: Option<String>)
    ensures
        match r {
            Some(s) => utf8_text(bytes@) == Some(s@),
            None => utf8_text(bytes@) is None,
        },
{
    match String::from_utf8(bytes) {
        Ok(s) => Some(s),
        Err(_) => None,
    }
}

/// A user name and password pair.
#[derive(Debug)]
pub struct Credentials {
    pub user: String,
    pub pass: String,
}

/// The caller that passed the authentication gate.
pub struct AuthenticatedUser {
    pub username: String,
}

/// The name of the query parameter that carries encoded credentials.
pub open spec fn token_key() -> Seq<char> {
    seq!['t', 'o', 'k', 'e', 'n', '=']
}

/// The first position at or after `i` that holds `c`, or the length when
/// there is none.
pub open spec fn next_of(q: Seq<char>, i: int, c: char) -> int
    decreases q.len() - i,
{
    if i >= q.len() {
        q.len() as int
    } else if q[i] == c {
        i
    } else {
        next_of(q, i + 1, c)
    }
}

proof fn lemma_next_of_bounds(q: Seq<char>, i: int, c: char)
    requires
        0 <= i <= q.len(),
    ensures
        i <= next_of(q, i, c) <= q.len(),
        next_of(q, i, c) < q.len() ==> q[next_of(q, i, c)] == c,
    decreases q.len() - i,
{
    if i < q.len() && q[i] != c {
        lemma_next_of_bounds(q, i + 1, c);
    }
}

/// Whether a segment of a query string is a `token=` parameter.
pub open spec fn is_token_param(seg: Seq<char>) -> bool {
    seg.len() >= token_key().len() && seg.subrange(0, token_key().len() as int) == token_key()
}

/// The value of the first `&`-separated segment of `q`, from `start` on, that
/// begins with `token=`, without that prefix.
pub open spec fn token_from(q: Seq<char>, start: int) -> Option<Seq<char>>
    decreases q.len() - start,
{
    let end = next_of(q, start, '&');
    if start < 0 || end < start || end > q.len() {
        None
    } else if is_token_param(q.subrange(start, end)) {
        Some(q.subrange(start + token_key().len(), end))
    } else if end >= q.len() {
        None
    } else {
        token_from(q, end + 1)
    }
}

/// A decoded `user:pass` text split at its first colon; without a colon the
/// whole text is the user name and the password is empty.
pub open spec fn split_of(s: Seq<char>) -> (Seq<char>, Seq<char>) {
    let i = next_of(s, 0, ':');
    if i < s.len() {
        (s.subrange(0, i), s.subrange(i + 1, s.len() as int))
    } else {
        (s, Seq::empty())
    }
}

/// The credentials that the query string `q` carries in its `token` parameter.
pub open spec fn token_credentials(q: Seq<char>) -> Option<(Seq<char>, Seq<char>)> {
    match token_from(q, 0) {
        None => None,
        Some(t) => match base64_decoded(t) {
            None => None,
            Some(b) => match utf8_text(b) {
                None => None,
                Some(s) => Some(split_of(s)),
            },
        },
    }
}

/// The credentials a request presents: its Basic header when there is one,
/// else its `token` query parameter.
pub open spec fn presented(header: Option<(Seq<char>, Seq<char>)>, q: Seq<char>) -> Option<(Seq<char>, Seq<char>)> {
    match header {
        Some(h) => Some(h),
        None => token_credentials(q),
    }
}

pub open spec fn creds_view(c: Option<Credentials>) -> Option<(Seq<char>, Seq<char>)> {
    match c {
        Some(c) => Some((c.user@, c.pass@)),
        None => None,
    }
}

fn find_char(q: &str, start: usize, n: usize, c: char) -> (r: usize)
    requires
        n == q@.len(),
        start <= n,
    ensures
        r == next_of(q@, start as int, c),
{
    let mut i = start;
    while i < n
        invariant
            n == q@.len(),
            start <= i <= n,
            next_of(q@, start as int, c) == next_of(q@, i as int, c),
        decreases n - i,
    {
        if q.get_char(i) == c {
            return i;
        }
        i = i + 1;
    }
    i
}

fn is_token_at(q: &str, start: usize, end: usize) -> (r: bool)
    requires
        start <= end <= q@.len(),
    ensures
        r == is_token_param(q@.subrange(start as int, end as int)),
{
    let key = "token=";
    proof {
        reveal_strlit("token=");
    }
    assert(key@ =~= token_key());
    if end - start < 6 {
        return false;
    }
    let mut k: usize = 0;
    while k < 6
        invariant
            start + 6 <= end <= q@.len(),
            key@ == token_key(),
            k <= 6,
            forall|j: int| 0 <= j < k ==> q@[start + j] == token_key()[j],
        decreases 6 - k,
    {
        if q.get_char(start + k) != key.get_char(k) {
            assert(q@.subrange(start as int, end as int)[k as int] != token_key()[k as int]);
            return false;
        }
        k = k + 1;
    }
    assert(q@.subrange(start as int, end as int).subrange(0, 6) =~= token_key());
    true
}

/// The value of the first `token=` parameter of a query string.
pub fn token_param(query: &str) -> (r: Option<String>)
    ensures
        match r {
            Some(t) => token_from(query@, 0) == Some(t@),
            None => token_from(query@, 0) is None,
        },
{
    let n = query.unicode_len();
    let mut start: usize = 0;
    loop
        invariant
            n == query@.len(),
            start <= n,
            token_from(query@, 0) == token_from(query@, start as int),
        decreases n - start,
    {
        let end = find_char(query, start, n, '&');
        proof {
            lemma_next_of_bounds(query@, start as int, '&');
        }
        if is_token_at(query, start, end) {
            let v = query.substring_char(start + 6, end);
            return Some(String::from_str(v));
        }
        if end >= n {
            return None;
        }
        start = end + 1;
    }
}

/// Splits a decoded `user:pass` text at its first colon.
pub fn split_credentials(s: &str) -> (r: Credentials)
    ensures
        (r.user@, r.pass@) == split_of(s@),
{
    let n = s.unicode_len();
    let i = find_char(s, 0, n, ':');
    proof {
        lemma_next_of_bounds(s@, 0, ':');
    }
    if i < n {
        Credentials {
            user: String::from_str(s.substring_char(0, i)),
            pass: String::from_str(s.substring_char(i + 1, n)),
        }
    } else {
        assert(s@.subrange(0, n as int) =~= s@);
        Credentials { user: String::from_str(s), pass: String::new() }
    }
}

/// Reads credentials from the `token` query parameter: base64 of `user:pass`.
pub fn extract_token_auth(query: &str) -> (r: Option<Credentials>)
    ensures
        creds_view(r) == token_credentials(query@),
{
    let t = match token_param(query) {
        Some(t) => t,
        None => return None,
    };
    let bytes = match decode_base64(t.as_str()) {
        Some(b) => b,
        None => return None,
    };
    let text = match text_from_utf8(bytes) {
        Some(s) => s,
        None => return None,
    };
    Some(split_credentials(text.as_str()))
}

/// The authentication gate: the presented credentials (Basic header first,
/// else the `token` parameter) must equal the configured pair.
pub fn authenticate(
    header: Option<Credentials>,
    query: &str,
    expected_user: &String,
    expected_pass: &String,
) -> (r: Option<AuthenticatedUser>)
    ensures
        r is Some <==> presented(creds_view(header), query@) == Some((expected_user@, expected_pass@)),
        r matches Some(u) ==> u.username@ == expected_user@,
{
    let creds = match header {
        Some(h) => Some(h),
        None => extract_token_auth(query),
    };
    match creds {
        Some(c) => {
            if c.user == *expected_user && c.pass == *expected_pass {
                Some(AuthenticatedUser { username: c.user })
            } else {
                None
            }
        },
        None => None,
    }
}

} // verus!
