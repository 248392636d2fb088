use vstd::prelude::*;

verus! {

/// A freshly issued CSRF token.
#[derive(Debug)]
pub struct CsrfToken {
    pub token: String,
}

/// ASCII whitespace, as trimmed from cookie segments.
pub open spec fn is_ascii_ws(c: char) -> bool {
    c == ' ' || c == '\t' || c == '\r' || c == '\n'
}

/// The index of the first semicolon, or the length when there is none.
pub open spec fn first_semi(s: Seq<char>) -> nat
    decreases s.len(),
{
    if s.len() == 0 {
        0
    } else if s.first() == ';' {
        0
    } else {
        1 + first_semi(s.drop_first())
    }
}

proof fn lemma_first_semi_bound(s: Seq<char>)
    ensures
        first_semi(s) <= s.len(),
        first_semi(s) < s.len() ==> s[first_semi(s) as int] == ';',
        forall|j: int| 0 <= j < first_semi(s) ==> s[j] != ';',
    decreases s.len(),
{
    if s.len() > 0 && s.first() != ';' {
        lemma_first_semi_bound(s.drop_first());
        assert forall|j: int| 0 <= j < first_semi(s) implies s[j] != ';' by {
            if j > 0 {
                assert(s.drop_first()[j - 1] == s[j]);
            }
        }
    }
}

proof fn lemma_first_semi_at(s: Seq<char>, k: int)
    requires
        0 <= k <= s.len(),
        forall|j: int| 0 <= j < k ==> s[j] != ';',
        k == s.len() || s[k] == ';',
    ensures
        first_semi(s) == k,
    decreases k,
{
    if k > 0 {
        lemma_first_semi_at(s.drop_first(), k - 1);
    }
}

/// A cookie header split at its semicolons.
pub open spec fn split_semi(s: Seq<char>) -> Seq<Seq<char>>
    decreases s.len(),
{
    let k = first_semi(s);
    if k >= s.len() {
        seq![s]
    } else {
        seq![s.take(k as int)] + split_semi(s.skip(k as int + 1))
    }
}

/// Leading ASCII whitespace dropped.
pub open spec fn trim_front(s: Seq<char>) -> Seq<char>
    decreases s.len(),
{
    if s.len() > 0 && is_ascii_ws(s.first()) {
        trim_front(s.drop_first())
    } else {
        s
    }
}

/// Trailing ASCII whitespace dropped.
pub open spec fn trim_back(s: Seq<char>) -> Seq<char>
    decreases s.len(),
{
    if s.len() > 0 && is_ascii_ws(s.last()) {
        trim_back(s.drop_last())
    } else {
        s
    }
}

/// Surrounding ASCII whitespace dropped.
pub open spec fn trim_spec(s: Seq<char>) -> Seq<char> {
    trim_back(trim_front(s))
}

proof fn lemma_trim_front_skip(s: Seq<char>, a: int)
    requires
        0 <= a <= s.len(),
        forall|j: int| 0 <= j < a ==> is_ascii_ws(s[j]),
        a == s.len() || !is_ascii_ws(s[a]),
    ensures
        trim_front(s) == s.skip(a),
    decreases a,
{
    if a == 0 {
        assert(s.skip(0) =~= s);
    } else {
        lemma_trim_front_skip(s.drop_first(), a - 1);
        assert(s.drop_first().skip(a - 1) =~= s.skip(a));
    }
}

proof fn lemma_trim_back_take(s: Seq<char>, b: int)
    requires
        0 <= b <= s.len(),
        forall|j: int| b <= j < s.len() ==> is_ascii_ws(s[j]),
        b == 0 || !is_ascii_ws(s[b - 1]),
    ensures
        trim_back(s) == s.take(b),
    decreases s.len() - b,
{
    if b == s.len() {
        assert(s.take(b) =~= s);
    } else {
        lemma_trim_back_take(s.drop_last(), b);
        assert(s.drop_last().take(b) =~= s.take(b));
    }
}

/// What one cookie segment yields: the value after `csrf_token=` when the
/// trimmed segment starts with that prefix.
pub open spec fn segment_token_value(seg: Seq<char>) -> Option<Seq<char>> {
    let t = trim_spec(seg);
    if t.len() >= 11 && t.take(11) == "csrf_token="@ {
        Some(t.skip(11))
    } else {
        None
    }
}

/// The first segment that yields a value decides.
pub open spec fn find_token_value(segs: Seq<Seq<char>>) -> Option<Seq<char>>
    decreases segs.len(),
{
    if segs.len() == 0 {
        None
    } else if segment_token_value(segs.first()) is Some {
        segment_token_value(segs.first())
    } else {
        find_token_value(segs.drop_first())
    }
}

/// The CSRF token carried in a Cookie header value, if any.
pub open spec fn csrf_cookie_spec(cookies: Seq<char>) -> Option<Seq<char>> {
    find_token_value(split_semi(cookies))
}

fn is_ws_char(c: char) -> (r: bool)
    ensures
        r == is_ascii_ws(c),
{
    c == ' ' || c == '\t' || c == '\r' || c == '\n'
}

fn segment_value(seg: &str) -> (r: Option<String>)
    ensures
        r is Some <==> segment_token_value(seg@) is Some,
        r is Some ==> r.unwrap()@ == segment_token_value(seg@).unwrap(),
{
    let n = seg.unicode_len();
    let mut a: usize = 0;
    while a < n && is_ws_char(seg.get_char(a))
        invariant
            n == seg@.len(),
            0 <= a <= n,
            forall|j: int| 0 <= j < a ==> is_ascii_ws(seg@[j]),
        decreases n - a,
    {
        a += 1;
    }
    let mut b: usize = n;
    while b > a && is_ws_char(seg.get_char(b - 1))
        invariant
            n == seg@.len(),
            a <= b <= n,
            forall|j: int| b <= j < n ==> is_ascii_ws(seg@[j]),
            a == n || !is_ascii_ws(seg@[a as int]),
        decreases b,
    {
        b -= 1;
    }
    proof {
        lemma_trim_front_skip(seg@, a as int);
        if b == a {
            assert forall|j: int| b <= j < n implies is_ascii_ws(seg@[j]) by {}
        }
        lemma_trim_back_take(seg@.skip(a as int), b as int - a as int);
        assert(seg@.skip(a as int).take(b as int - a as int) =~= seg@.subrange(
            a as int,
            b as int,
        ));
    }
    let t = seg.substring_char(a, b);
    let tn = b - a;
    if tn >= 11 {
        let prefix = t.substring_char(0, 11);
        if crate::text::str_eq(prefix, "csrf_token=") {
            let value = t.substring_char(11, tn);
            return Some(String::from_str(value));
        }
    }
    None
}

/// Extracts the CSRF token from a Cookie header value: the first
/// `csrf_token=` entry among the semicolon-separated, whitespace-trimmed
/// cookies.
pub fn extract_csrf_from_cookie(cookies: &str) -> (r: Option<String>)
    ensures
        r is Some <==> csrf_cookie_spec(cookies@) is Some,
        r is Some ==> r.unwrap()@ == csrf_cookie_spec(cookies@).unwrap(),
    decreases cookies@.len(),
{
    let n = cookies.unicode_len();
    let mut k: usize = 0;
    while k < n && cookies.get_char(k) != ';'
        invariant
            n == cookies@.len(),
            0 <= k <= n,
            forall|j: int| 0 <= j < k ==> cookies@[j] != ';',
        decreases n - k,
    {
        k += 1;
    }
    proof {
        lemma_first_semi_at(cookies@, k as int);
    }
    let seg = cookies.substring_char(0, k);
    proof {
        assert(seg@ =~= cookies@.take(k as int));
        if k == n {
            assert(cookies@.take(k as int) =~= cookies@);
        }
        assert(split_semi(cookies@).first() == cookies@.take(k as int));
    }
    let found = segment_value(seg);
    match found {
        Some(v) => Some(v),
        None => {
            if k < n {
                let rest = cookies.substring_char(k + 1, n);
                proof {
                    assert(rest@ =~= cookies@.skip(k as int + 1));
                    assert(split_semi(cookies@).drop_first() =~= split_semi(
                        cookies@.skip(k as int + 1),
                    ));
                }
                extract_csrf_from_cookie(rest)
            } else {
                proof {
                    assert(split_semi(cookies@) =~= seq![cookies@]);
                    assert(split_semi(cookies@).drop_first() =~= Seq::<Seq<char>>::empty());
                }
                None
            }
        },
    }
}

/// Passes the X-CSRF-Token header value through.
pub fn extract_csrf_from_header(value: Option<&str>) -> (r: Option<String>)
    ensures
        r is Some <==> value is Some,
        r is Some ==> r.unwrap()@ == value.unwrap()@,
{
    match value {
        Some(v) => Some(String::from_str(v)),
        None => None,
    }
}

/// The CSRF check of state-changing requests: the cookie and header tokens
/// must both be present, equal, and non-empty.
pub fn csrf_tokens_match(cookie: &Option<String>, header: &Option<String>) -> (ok: bool)
    ensures
        ok <==> (cookie matches Some(c) && header matches Some(h) && c@ == h@ && c@.len() > 0),
{
    match (cookie, header) {
        (Some(c), Some(h)) => {
            if crate::text::str_eq(c.as_str(), h.as_str()) {
                c.as_str().unicode_len() > 0
            } else {
                false
            }
        },
        _ => false,
    }
}

} // verus!
