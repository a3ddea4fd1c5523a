//! Locator canonicalization: every `./` marker is stripped from a locator
//! before the locator is embedded in a signed or sent path.
use vstd::prelude::*;

verus! {

/// The canonical form of a locator: scan left to right, drop each `./` pair,
/// keep every other character.
pub open spec fn canon(s: Seq<char>) -> Seq<char>
    decreases s.len(),
{
    if s.len() >= 2 && s[0] == '.' && s[1] == '/' {
        canon(s.subrange(2, s.len() as int))
    } else if s.len() == 0 {
        s
    } else {
        seq![s[0]] + canon(s.subrange(1, s.len() as int))
    }
}

/// A locator is clean when no `./` marker occurs anywhere in it.
pub open spec fn is_clean(s: Seq<char>) -> bool {
    forall|i: int| 0 <= i && i + 1 < s.len() ==> !(#[trigger] s[i] == '.' && s[i + 1] == '/')
}

/// Stripping `./` markers leaves a clean locator unchanged.
pub proof fn lemma_canon_clean_identity(s: Seq<char>)
    requires
        is_clean(s),
    ensures
        canon(s) == s,
    decreases s.len(),
{
    if s.len() == 0 {
    } else if s.len() >= 2 && s[0] == '.' && s[1] == '/' {
        let i: int = 0;
        assert(!(s[i] == '.' && s[i + 1] == '/'));
    } else {
        let t = s.subrange(1, s.len() as int);
        assert forall|i: int| 0 <= i && i + 1 < t.len() implies !(#[trigger] t[i] == '.' && t[i
            + 1] == '/') by {
            assert(t[i] == s[i + 1] && t[i + 1] == s[i + 2]);
        }
        lemma_canon_clean_identity(t);
        assert(canon(s) == seq![s[0]] + t);
        assert(canon(s) =~= s);
    }
}

/// A leading `./` marker never changes the canonical form: `./foo/bar` and
/// `foo/bar` canonicalize identically.
pub proof fn lemma_canon_strips_leading_marker(s: Seq<char>)
    ensures
        canon(seq!['.', '/'] + s) == canon(s),
{
    let p = seq!['.', '/'] + s;
    assert(p.len() >= 2 && p[0] == '.' && p[1] == '/');
    assert(p.subrange(2, p.len() as int) =~= s);
}

/// Strips every `./` marker from a locator, left to right.
pub fn canonicalize_locator(locator: &str) -> (r: String)
    ensures
        r@ == canon(locator@),
{
    let n = locator.unicode_len();
    let mut out = String::new();
    let mut i: usize = 0;
    proof {
        assert(locator@.subrange(0, n as int) =~= locator@);
        assert(out@ + canon(locator@) =~= canon(locator@));
    }
    while i < n
        invariant
            n == locator@.len(),
            i <= n,
            canon(locator@) == out@ + canon(locator@.subrange(i as int, n as int)),
        decreases n - i,
    {
        let rest = Ghost(locator@.subrange(i as int, n as int));
        if i + 1 < n && locator.get_char(i) == '.' && locator.get_char(i + 1) == '/' {
            proof {
                assert(rest@[0] == '.' && rest@[1] == '/');
                assert(rest@.subrange(2, rest@.len() as int) =~= locator@.subrange(
                    i + 2,
                    n as int,
                ));
            }
            i = i + 2;
        } else {
            let piece = locator.substring_char(i, i + 1);
            proof {
                if rest@.len() >= 2 && rest@[0] == '.' && rest@[1] == '/' {
                    assert(locator@[i as int] == '.' && locator@[i + 1] == '/');
                    assert(false);
                }
                assert(rest@[0] == locator@[i as int]);
                assert(seq![rest@[0]] =~= piece@);
                assert(rest@.subrange(1, rest@.len() as int) =~= locator@.subrange(
                    i + 1,
                    n as int,
                ));
            }
            let ghost old_out = out@;
            out.append(piece);
            proof {
                assert(out@ + canon(locator@.subrange(i + 1, n as int)) =~= old_out + canon(
                    rest@,
                ));
            }
            i = i + 1;
        }
    }
    proof {
        assert(locator@.subrange(n as int, n as int) =~= Seq::<char>::empty());
        assert(canon(Seq::<char>::empty()) =~= Seq::<char>::empty());
        assert(out@ + Seq::<char>::empty() =~= out@);
    }
    out
}

} // verus!
