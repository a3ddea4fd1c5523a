//! The structured payload of the lock operation and its strict JSON codec.
//!
//! The coordinator answers a successful lock with a JSON object holding the
//! chunk identifier and the three locators the rest of the chunk cycle needs.
//! Decoding is strict: a body decodes exactly when it is the canonical
//! encoding of some well-formed response, so schema drift fails loudly
//! instead of producing a partially-populated value.
use vstd::prelude::*;

verus! {

/// The payload of a successful lock: which chunk was locked and where its
/// challenge, response and next-challenge files live.
#[derive(Clone, Debug, PartialEq, Eq)]
pub struct LockResponse {
    pub chunk_id: String,
    pub challenge_locator: String,
    pub response_locator: String,
    pub next_challenge_locator: String,
}

/// The mathematical model of a lock response: its four fields as character
/// sequences.
#[verifier::ext_equal]
pub ghost struct LockResponseView {
    pub chunk_id: Seq<char>,
    pub challenge_locator: Seq<char>,
    pub response_locator: Seq<char>,
    pub next_challenge_locator: Seq<char>,
}

impl View for LockResponse {
    type V = LockResponseView;

    open spec fn view(&self) -> LockResponseView {
        LockResponseView {
            chunk_id: self.chunk_id@,
            challenge_locator: self.challenge_locator@,
            response_locator: self.response_locator@,
            next_challenge_locator: self.next_challenge_locator@,
        }
    }
}

/// A field value is clean when it holds no quote and no backslash, so it can
/// stand verbatim inside a JSON string.
pub open spec fn json_clean(s: Seq<char>) -> bool {
    forall|i: int| 0 <= i < s.len() ==> s[i] != '"' && s[i] != '\\'
}

/// A lock response is well-formed when all four fields are clean.
pub open spec fn lock_wf(m: LockResponseView) -> bool {
    &&& json_clean(m.chunk_id)
    &&& json_clean(m.challenge_locator)
    &&& json_clean(m.response_locator)
    &&& json_clean(m.next_challenge_locator)
}

pub open spec fn key_chunk_id() -> Seq<char> {
    "{\"chunk_id\":\""@
}

pub open spec fn key_challenge_locator() -> Seq<char> {
    "\",\"challenge_locator\":\""@
}

pub open spec fn key_response_locator() -> Seq<char> {
    "\",\"response_locator\":\""@
}

pub open spec fn key_next_challenge_locator() -> Seq<char> {
    "\",\"next_challenge_locator\":\""@
}

pub open spec fn json_close() -> Seq<char> {
    "\"}"@
}

/// The canonical JSON encoding of a lock response.
pub open spec fn lock_json(m: LockResponseView) -> Seq<char> {
    key_chunk_id() + (m.chunk_id + (key_challenge_locator() + (m.challenge_locator + (
    key_response_locator() + (m.response_locator + (key_next_challenge_locator() + (
    m.next_challenge_locator + json_close())))))))
}

/// The position of the first quote at or after `i`, unless a backslash comes
/// first or the end of the sequence is reached.
pub open spec fn first_quote(s: Seq<char>, i: int) -> Option<int>
    decreases s.len() - i,
{
    if i < 0 || i >= s.len() {
        None
    } else if s[i] == '"' {
        Some(i)
    } else if s[i] == '\\' {
        None
    } else {
        first_quote(s, i + 1)
    }
}

/// What matching a fixed literal at position `i` yields: the position just
/// past it, if it is present there.
pub open spec fn spec_expect(s: Seq<char>, i: int, lit: Seq<char>) -> Option<int> {
    if i + lit.len() <= s.len() && s.subrange(i, i + lit.len()) == lit {
        Some(i + lit.len())
    } else {
        None
    }
}

/// What scanning a field value at position `i` yields: the clean value up to
/// the first quote, and that quote's position.
pub open spec fn spec_scan(s: Seq<char>, i: int) -> Option<(Seq<char>, int)> {
    match first_quote(s, i) {
        None => None,
        Some(j) => Some((s.subrange(i, j), j)),
    }
}

/// The strict decoder, at the specification level: literal keys in fixed
/// order, four scanned values, and nothing after the closing brace.
pub open spec fn spec_parse_lock(s: Seq<char>) -> Option<LockResponseView> {
    match spec_expect(s, 0, key_chunk_id()) {
        None => None,
        Some(i1) => match spec_scan(s, i1) {
            None => None,
            Some((v1, j1)) => match spec_expect(s, j1, key_challenge_locator()) {
                None => None,
                Some(i2) => match spec_scan(s, i2) {
                    None => None,
                    Some((v2, j2)) => match spec_expect(s, j2, key_response_locator()) {
                        None => None,
                        Some(i3) => match spec_scan(s, i3) {
                            None => None,
                            Some((v3, j3)) => match spec_expect(
                                s,
                                j3,
                                key_next_challenge_locator(),
                            ) {
                                None => None,
                                Some(i4) => match spec_scan(s, i4) {
                                    None => None,
                                    Some((v4, j4)) => match spec_expect(s, j4, json_close()) {
                                        None => None,
                                        Some(i5) => if i5 == s.len() {
                                            Some(
                                                LockResponseView {
                                                    chunk_id: v1,
                                                    challenge_locator: v2,
                                                    response_locator: v3,
                                                    next_challenge_locator: v4,
                                                },
                                            )
                                        } else {
                                            None
                                        },
                                    },
                                },
                            },
                        },
                    },
                },
            },
        },
    }
}

/// Matches the literal `lit` at position `i` of `s`.
fn expect_lit(s: &str, i: usize, lit: &str) -> (r: Option<usize>)
    requires
        i <= s@.len(),
    ensures
        r is Some <==> spec_expect(s@, i as int, lit@) is Some,
        r matches Some(j) ==> spec_expect(s@, i as int, lit@) == Some(j as int) && i <= j
            <= s@.len(),
{
    let n = s.unicode_len();
    let m = lit.unicode_len();
    if m > n - i {
        return None;
    }
    let mut k: usize = 0;
    while k < m
        invariant
            n == s@.len(),
            m == lit@.len(),
            i + m <= n,
            k <= m,
            forall|t: int| 0 <= t < k ==> s@[i + t] == lit@[t],
        decreases m - k,
    {
        if s.get_char(i + k) != lit.get_char(k) {
            proof {
                if s@.subrange(i as int, i + m) == lit@ {
                    assert(s@.subrange(i as int, i + m)[k as int] == s@[i + k]);
                }
            }
            return None;
        }
        k = k + 1;
    }
    proof {
        assert(s@.subrange(i as int, i + m) =~= lit@);
    }
    Some(i + m)
}

/// Scans a field value starting at position `i` of `s`: everything up to the
/// first quote, provided no backslash comes first.
fn scan_value(s: &str, i: usize) -> (r: Option<(String, usize)>)
    requires
        i <= s@.len(),
    ensures
        r is Some <==> spec_scan(s@, i as int) is Some,
        r matches Some(p) ==> spec_scan(s@, i as int) == Some((p.0@, p.1 as int)) && i <= p.1
            < s@.len(),
{
    let n = s.unicode_len();
    let mut j: usize = i;
    while j < n
        invariant
            n == s@.len(),
            i <= j <= n,
            first_quote(s@, i as int) == first_quote(s@, j as int),
        decreases n - j,
    {
        let c = s.get_char(j);
        if c == '"' {
            let v = String::from_str(s.substring_char(i, j));
            return Some((v, j));
        }
        if c == '\\' {
            return None;
        }
        j = j + 1;
    }
    None
}

proof fn lemma_concat_split(s: Seq<char>, i: int, a: Seq<char>, b: Seq<char>)
    requires
        0 <= i <= s.len(),
        s.subrange(i, s.len() as int) == a + b,
    ensures
        i + a.len() + b.len() == s.len(),
        s.subrange(i, i + a.len()) == a,
        s.subrange(i + a.len(), s.len() as int) == b,
{
    let t = s.subrange(i, s.len() as int);
    assert(t.len() == s.len() - i);
    assert(t.len() == a.len() + b.len());
    assert forall|k: int| 0 <= k < a.len() implies s.subrange(i, i + a.len())[k] == a[k] by {
        assert(t[k] == (a + b)[k]);
        assert(t[k] == s[i + k]);
        assert((a + b)[k] == a[k]);
    }
    assert(s.subrange(i, i + a.len()) =~= a);
    assert forall|k: int| 0 <= k < b.len() implies s.subrange(i + a.len(), s.len() as int)[k]
        == b[k] by {
        assert(t[a.len() + k] == s[i + a.len() + k]);
        assert((a + b)[a.len() + k] == b[k]);
    }
    assert(s.subrange(i + a.len(), s.len() as int) =~= b);
}

proof fn lemma_stitch(s: Seq<char>, i: int, mid: int, a: Seq<char>, b: Seq<char>)
    requires
        0 <= i <= mid <= s.len(),
        s.subrange(i, mid) == a,
        s.subrange(mid, s.len() as int) == b,
    ensures
        s.subrange(i, s.len() as int) == a + b,
{
    assert forall|k: int| 0 <= k < s.len() - i implies s.subrange(i, s.len() as int)[k] == (a
        + b)[k] by {
        if k < mid - i {
            assert(a[k] == s.subrange(i, mid)[k]);
            assert(s.subrange(i, mid)[k] == s[i + k]);
        } else {
            assert(b[k - (mid - i)] == s.subrange(mid, s.len() as int)[k - (mid - i)]);
            assert(s.subrange(mid, s.len() as int)[k - (mid - i)] == s[i + k]);
        }
    }
    assert(s.subrange(i, s.len() as int) =~= a + b);
}

proof fn lemma_first_quote_at(s: Seq<char>, i: int, j: int)
    requires
        0 <= i <= j < s.len(),
        s[j] == '"',
        forall|k: int| i <= k < j ==> #[trigger] s[k] != '"' && s[k] != '\\',
    ensures
        first_quote(s, i) == Some(j),
    decreases j - i,
{
    if i < j {
        assert(s[i] != '"' && s[i] != '\\');
        lemma_first_quote_at(s, i + 1, j);
    }
}

proof fn lemma_first_quote_clean(s: Seq<char>, i: int, j: int)
    requires
        0 <= i,
        first_quote(s, i) == Some(j),
    ensures
        i <= j < s.len(),
        s[j] == '"',
        forall|k: int| i <= k < j ==> #[trigger] s[k] != '"' && s[k] != '\\',
    decreases s.len() - i,
{
    if i >= s.len() {
        assert(false);
    } else if s[i] == '"' {
    } else if s[i] == '\\' {
        assert(false);
    } else {
        lemma_first_quote_clean(s, i + 1, j);
        assert forall|k: int| i <= k < j implies #[trigger] s[k] != '"' && s[k] != '\\' by {
            if k > i {
                assert(s[k] != '"' && s[k] != '\\');
            }
        }
    }
}

/// Decoding is sound: whatever the strict decoder accepts is a well-formed
/// lock response, and the body was exactly its canonical encoding.
pub proof fn lemma_parse_sound(s: Seq<char>, m: LockResponseView)
    requires
        spec_parse_lock(s) == Some(m),
    ensures
        lock_wf(m),
        s == lock_json(m),
{
    let i1 = spec_expect(s, 0, key_chunk_id())->Some_0;
    let j1 = first_quote(s, i1)->Some_0;
    let v1 = s.subrange(i1, j1);
    lemma_first_quote_clean(s, i1, j1);
    let i2 = spec_expect(s, j1, key_challenge_locator())->Some_0;
    let j2 = first_quote(s, i2)->Some_0;
    let v2 = s.subrange(i2, j2);
    lemma_first_quote_clean(s, i2, j2);
    let i3 = spec_expect(s, j2, key_response_locator())->Some_0;
    let j3 = first_quote(s, i3)->Some_0;
    let v3 = s.subrange(i3, j3);
    lemma_first_quote_clean(s, i3, j3);
    let i4 = spec_expect(s, j3, key_next_challenge_locator())->Some_0;
    let j4 = first_quote(s, i4)->Some_0;
    let v4 = s.subrange(i4, j4);
    lemma_first_quote_clean(s, i4, j4);
    let i5 = spec_expect(s, j4, json_close())->Some_0;
    assert(i5 == s.len());
    assert(m.chunk_id == v1 && m.challenge_locator == v2 && m.response_locator == v3
        && m.next_challenge_locator == v4);
    assert forall|k: int| 0 <= k < v1.len() implies #[trigger] v1[k] != '"' && v1[k] != '\\' by {
        assert(v1[k] == s[i1 + k]);
    }
    assert forall|k: int| 0 <= k < v2.len() implies #[trigger] v2[k] != '"' && v2[k] != '\\' by {
        assert(v2[k] == s[i2 + k]);
    }
    assert forall|k: int| 0 <= k < v3.len() implies #[trigger] v3[k] != '"' && v3[k] != '\\' by {
        assert(v3[k] == s[i3 + k]);
    }
    assert forall|k: int| 0 <= k < v4.len() implies #[trigger] v4[k] != '"' && v4[k] != '\\' by {
        assert(v4[k] == s[i4 + k]);
    }
    assert(lock_wf(m));
    // Stitch the segments back together, right to left.
    assert(s.subrange(j4, s.len() as int) == json_close()) by {
        assert(s.subrange(j4, j4 + json_close().len()) == json_close());
        assert(j4 + json_close().len() == s.len());
    }
    assert(s.subrange(i4, j4) == v4);
    lemma_stitch(s, i4, j4, v4, json_close());
    lemma_stitch(s, j3, i4, key_next_challenge_locator(), v4 + json_close());
    lemma_stitch(s, i3, j3, v3, key_next_challenge_locator() + (v4 + json_close()));
    lemma_stitch(
        s,
        j2,
        i3,
        key_response_locator(),
        v3 + (key_next_challenge_locator() + (v4 + json_close())),
    );
    lemma_stitch(
        s,
        i2,
        j2,
        v2,
        key_response_locator() + (v3 + (key_next_challenge_locator() + (v4 + json_close()))),
    );
    lemma_stitch(
        s,
        j1,
        i2,
        key_challenge_locator(),
        v2 + (key_response_locator() + (v3 + (key_next_challenge_locator() + (v4
            + json_close())))),
    );
    lemma_stitch(
        s,
        i1,
        j1,
        v1,
        key_challenge_locator() + (v2 + (key_response_locator() + (v3 + (
        key_next_challenge_locator() + (v4 + json_close()))))),
    );
    lemma_stitch(
        s,
        0,
        i1,
        key_chunk_id(),
        v1 + (key_challenge_locator() + (v2 + (key_response_locator() + (v3 + (
        key_next_challenge_locator() + (v4 + json_close())))))),
    );
    assert(s.subrange(0, s.len() as int) =~= s);
}

/// The decoding round trip: the canonical encoding of any well-formed lock
/// response decodes back to exactly that response.
#[verifier::rlimit(60)]
pub proof fn lemma_lock_json_round_trip(m: LockResponseView)
    requires
        lock_wf(m),
    ensures
        spec_parse_lock(lock_json(m)) == Some(m),
{
    let s = lock_json(m);
    let t1 = m.chunk_id + (key_challenge_locator() + (m.challenge_locator + (
    key_response_locator() + (m.response_locator + (key_next_challenge_locator() + (
    m.next_challenge_locator + json_close()))))));
    let t2 = key_challenge_locator() + (m.challenge_locator + (key_response_locator() + (
    m.response_locator + (key_next_challenge_locator() + (m.next_challenge_locator
        + json_close())))));
    let t3 = m.challenge_locator + (key_response_locator() + (m.response_locator + (
    key_next_challenge_locator() + (m.next_challenge_locator + json_close()))));
    let t4 = key_response_locator() + (m.response_locator + (key_next_challenge_locator() + (
    m.next_challenge_locator + json_close())));
    let t5 = m.response_locator + (key_next_challenge_locator() + (m.next_challenge_locator
        + json_close()));
    let t6 = key_next_challenge_locator() + (m.next_challenge_locator + json_close());
    let t7 = m.next_challenge_locator + json_close();
    reveal_strlit("{\"chunk_id\":\"");
    reveal_strlit("\",\"challenge_locator\":\"");
    reveal_strlit("\",\"response_locator\":\"");
    reveal_strlit("\",\"next_challenge_locator\":\"");
    reveal_strlit("\"}");
    assert(s.subrange(0, s.len() as int) =~= s);
    lemma_concat_split(s, 0, key_chunk_id(), t1);
    let i1 = key_chunk_id().len() as int;
    assert(spec_expect(s, 0, key_chunk_id()) == Some(i1));
    lemma_concat_split(s, i1, m.chunk_id, t2);
    let b1 = i1 + m.chunk_id.len();
    lemma_value_scan(s, i1, b1, m.chunk_id, t2);
    lemma_concat_split(s, b1, key_challenge_locator(), t3);
    let i2 = b1 + key_challenge_locator().len();
    assert(spec_expect(s, b1, key_challenge_locator()) == Some(i2));
    lemma_concat_split(s, i2, m.challenge_locator, t4);
    let b2 = i2 + m.challenge_locator.len();
    lemma_value_scan(s, i2, b2, m.challenge_locator, t4);
    lemma_concat_split(s, b2, key_response_locator(), t5);
    let i3 = b2 + key_response_locator().len();
    assert(spec_expect(s, b2, key_response_locator()) == Some(i3));
    lemma_concat_split(s, i3, m.response_locator, t6);
    let b3 = i3 + m.response_locator.len();
    lemma_value_scan(s, i3, b3, m.response_locator, t6);
    lemma_concat_split(s, b3, key_next_challenge_locator(), t7);
    let i4 = b3 + key_next_challenge_locator().len();
    assert(spec_expect(s, b3, key_next_challenge_locator()) == Some(i4));
    lemma_concat_split(s, i4, m.next_challenge_locator, json_close());
    let b4 = i4 + m.next_challenge_locator.len();
    lemma_value_scan(s, i4, b4, m.next_challenge_locator, json_close());
    assert(spec_expect(s, b4, json_close()) == Some(s.len() as int));
    assert(spec_parse_lock(s) == Some(
        LockResponseView {
            chunk_id: m.chunk_id,
            challenge_locator: m.challenge_locator,
            response_locator: m.response_locator,
            next_challenge_locator: m.next_challenge_locator,
        },
    ));
    assert(LockResponseView {
        chunk_id: m.chunk_id,
        challenge_locator: m.challenge_locator,
        response_locator: m.response_locator,
        next_challenge_locator: m.next_challenge_locator,
    } =~= m);
}

proof fn lemma_value_scan(s: Seq<char>, i: int, b: int, v: Seq<char>, rest: Seq<char>)
    requires
        0 <= i <= b <= s.len(),
        b == i + v.len(),
        b + rest.len() == s.len(),
        json_clean(v),
        rest.len() > 0,
        rest[0] == '"',
        s.subrange(i, b) == v,
        s.subrange(b, s.len() as int) == rest,
    ensures
        spec_scan(s, i) == Some((v, b)),
{
    assert(s[b] == rest[0]) by {
        assert(s.subrange(b, s.len() as int)[0] == s[b]);
    }
    assert forall|k: int| i <= k < b implies #[trigger] s[k] != '"' && s[k] != '\\' by {
        assert(s.subrange(i, b)[k - i] == s[k]);
        assert(v[k - i] != '"' && v[k - i] != '\\');
    }
    assert(b < s.len());
    lemma_first_quote_at(s, i, b);
}

/// Canonical encodings are injective: two well-formed lock responses with the
/// same encoding are the same response.
pub proof fn lemma_lock_json_injective(a: LockResponseView, b: LockResponseView)
    requires
        lock_wf(a),
        lock_wf(b),
        lock_json(a) == lock_json(b),
    ensures
        a == b,
{
    lemma_lock_json_round_trip(a);
    lemma_lock_json_round_trip(b);
}

impl LockResponse {
    /// Strictly decodes a lock response body. Succeeds exactly on the
    /// canonical encoding of a well-formed response, and then returns that
    /// response.
    pub fn decode(s: &str) -> (r: Option<LockResponse>)
        ensures
            r is Some <==> spec_parse_lock(s@) is Some,
            r matches Some(lr) ==> spec_parse_lock(s@) == Some(lr@),
    {
        let n = s.unicode_len();
        let i1 = match expect_lit(s, 0, "{\"chunk_id\":\"") {
            Some(x) => x,
            None => {
                return None;
            },
        };
        let (v1, j1) = match scan_value(s, i1) {
            Some(p) => p,
            None => {
                return None;
            },
        };
        let i2 = match expect_lit(s, j1, "\",\"challenge_locator\":\"") {
            Some(x) => x,
            None => {
                return None;
            },
        };
        let (v2, j2) = match scan_value(s, i2) {
            Some(p) => p,
            None => {
                return None;
            },
        };
        let i3 = match expect_lit(s, j2, "\",\"response_locator\":\"") {
            Some(x) => x,
            None => {
                return None;
            },
        };
        let (v3, j3) = match scan_value(s, i3) {
            Some(p) => p,
            None => {
                return None;
            },
        };
        let i4 = match expect_lit(s, j3, "\",\"next_challenge_locator\":\"") {
            Some(x) => x,
            None => {
                return None;
            },
        };
        let (v4, j4) = match scan_value(s, i4) {
            Some(p) => p,
            None => {
                return None;
            },
        };
        let i5 = match expect_lit(s, j4, "\"}") {
            Some(x) => x,
            None => {
                return None;
            },
        };
        if i5 != n {
            return None;
        }
        Some(
            LockResponse {
                chunk_id: v1,
                challenge_locator: v2,
                response_locator: v3,
                next_challenge_locator: v4,
            },
        )
    }

    /// Produces the canonical JSON encoding of this response.
    pub fn encode(&self) -> (r: String)
        ensures
            r@ == lock_json(self@),
    {
        let mut out = String::from_str("{\"chunk_id\":\"");
        out.append(self.chunk_id.as_str());
        out.append("\",\"challenge_locator\":\"");
        out.append(self.challenge_locator.as_str());
        out.append("\",\"response_locator\":\"");
        out.append(self.response_locator.as_str());
        out.append("\",\"next_challenge_locator\":\"");
        out.append(self.next_challenge_locator.as_str());
        out.append("\"}");
        proof {
            assert(out@ =~= lock_json(self@));
        }
        out
    }
}

} // verus!
