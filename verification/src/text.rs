//! Text operations on the server URL: replacing the first occurrence of a
//! pattern, trimming trailing characters, and deriving the websocket endpoint.

use vstd::prelude::*;

verus! {

/// `pat` occurs in `s` starting at index `i`.
pub open spec fn occurs_at(s: Seq<char>, pat: Seq<char>, i: int) -> bool {
    0 <= i && i + pat.len() <= s.len() && s.subrange(i, i + pat.len()) =~= pat
}

/// `s` with the leftmost occurrence of `pat` replaced by `with`; `s` itself
/// when `pat` does not occur.
pub open spec fn replace_first(s: Seq<char>, pat: Seq<char>, with: Seq<char>) -> Seq<char>
    decreases s.len(),
{
    if s.len() < pat.len() {
        s
    } else if occurs_at(s, pat, 0) {
        with + s.subrange(pat.len() as int, s.len() as int)
    } else if s.len() == 0 {
        s
    } else {
        seq![s[0]] + replace_first(s.drop_first(), pat, with)
    }
}

/// `s` with every trailing `c` removed.
pub open spec fn trim_end(s: Seq<char>, c: char) -> Seq<char>
    decreases s.len(),
{
    if s.len() > 0 && s.last() == c {
        trim_end(s.drop_last(), c)
    } else {
        s
    }
}

/// The websocket endpoint of a Home Assistant server: the scheme `https://`
/// becomes `wss://`, then `http://` becomes `ws://` (each at its first
/// occurrence), trailing slashes go, and `/api/websocket` is appended.
pub open spec fn websocket_endpoint(url: Seq<char>) -> Seq<char> {
    trim_end(
        replace_first(replace_first(url, "https://"@, "wss://"@), "http://"@, "ws://"@),
        '/',
    ) + "/api/websocket"@
}

/// Whether `pat` occurs in `s` at index `i`, where `s` has `n` characters and
/// `pat` has `m`.
fn occurs_at_exec(s: &str, n: usize, pat: &str, m: usize, i: usize) -> (b: bool)
    requires
        n == s@.len(),
        m == pat@.len(),
        m <= n,
        i <= n - m,
    ensures
        b == occurs_at(s@, pat@, i as int),
{
    let mut k: usize = 0;
    while k < m
        invariant
            n == s@.len(),
            m == pat@.len(),
            m <= n,
            i <= n - m,
            k <= m,
            forall|j: int| 0 <= j < k ==> s@[i + j] == pat@[j],
        decreases m - k,
    {
        if s.get_char(i + k) != pat.get_char(k) {
            assert(s@.subrange(i as int, i + m)[k as int] != pat@[k as int]);
            return false;
        }
        k = k + 1;
    }
    assert(s@.subrange(i as int, i + m) =~= pat@);
    true
}

proof fn lemma_replace_first_step(s: Seq<char>, pat: Seq<char>, with: Seq<char>, i: int)
    requires
        0 <= i,
        i + pat.len() <= s.len(),
        !occurs_at(s, pat, i),
    ensures
        replace_first(s.subrange(i, s.len() as int), pat, with) == seq![s[i]]
            + replace_first(s.subrange(i + 1, s.len() as int), pat, with),
{
    let t = s.subrange(i, s.len() as int);
    assert(t.subrange(0, pat.len() as int) =~= s.subrange(i, i + pat.len()));
    assert(!occurs_at(t, pat, 0));
    if t.len() == 0 {
        assert(pat.len() == 0);
        assert(t.subrange(0, 0) =~= pat);
    }
    assert(t.drop_first() =~= s.subrange(i + 1, s.len() as int));
}

/// Replaces the leftmost occurrence of `pat` in `s` by `with`, as
/// `str::replacen(pat, with, 1)` does.
pub fn replace_first_exec(s: &str, pat: &str, with: &str) -> (res: String)
    ensures
        res@ == replace_first(s@, pat@, with@),
{
    let n = s.unicode_len();
    let m = pat.unicode_len();
    if m > n {
        return String::from_str(s);
    }
    let mut i: usize = 0;
    assert(s@.subrange(0, n as int) =~= s@);
    assert(s@.subrange(0, 0) =~= Seq::<char>::empty());
    while i <= n - m
        invariant
            n == s@.len(),
            m == pat@.len(),
            m <= n,
            i <= n - m + 1,
            i <= n,
            m > 0 || i == 0,
            replace_first(s@, pat@, with@) == s@.subrange(0, i as int) + replace_first(
                s@.subrange(i as int, n as int),
                pat@,
                with@,
            ),
        decreases n - m + 1 - i,
    {
        if occurs_at_exec(s, n, pat, m, i) {
            let ghost t = s@.subrange(i as int, n as int);
            assert(t.subrange(0, m as int) =~= s@.subrange(i as int, i + m));
            assert(t.subrange(m as int, t.len() as int) =~= s@.subrange(i + m, n as int));
            let head = s.substring_char(0, i);
            let tail = s.substring_char(i + m, n);
            let res = String::from_str(head).concat(with).concat(tail);
            assert(res@ =~= s@.subrange(0, i as int) + (with@ + s@.subrange(i + m, n as int)));
            return res;
        }
        proof {
            if m == 0 {
                assert(s@.subrange(i as int, i as int) =~= pat@);
            }
            lemma_replace_first_step(s@, pat@, with@, i as int);
            assert(s@.subrange(0, i + 1) =~= s@.subrange(0, i as int) + seq![s@[i as int]]);
        }
        i = i + 1;
    }
    assert(replace_first(s@.subrange(i as int, n as int), pat@, with@) == s@.subrange(
        i as int,
        n as int,
    ));
    assert(s@.subrange(0, i as int) + s@.subrange(i as int, n as int) =~= s@);
    String::from_str(s)
}

/// Removes every trailing `c` from `s`, as `str::trim_end_matches(c)` does.
pub fn trim_end_exec(s: &str, c: char) -> (res: String)
    ensures
        res@ == trim_end(s@, c),
{
    let n = s.unicode_len();
    let mut k: usize = n;
    assert(s@.subrange(0, n as int) =~= s@);
    while k > 0 && s.get_char(k - 1) == c
        invariant
            n == s@.len(),
            k <= n,
            trim_end(s@, c) == trim_end(s@.subrange(0, k as int), c),
        decreases k,
    {
        assert(s@.subrange(0, k as int).drop_last() =~= s@.subrange(0, k - 1));
        k = k - 1;
    }
    String::from_str(s.substring_char(0, k))
}

/// The websocket endpoint of the Home Assistant server at `url`.
pub fn websocket_url(url: &str) -> (res: String)
    ensures
        res@ == websocket_endpoint(url@),
{
    let secure = replace_first_exec(url, "https://", "wss://");
    let plain = replace_first_exec(secure.as_str(), "http://", "ws://");
    let trimmed = trim_end_exec(plain.as_str(), '/');
    trimmed.concat("/api/websocket")
}

} // verus!
