//! Character-level text utilities: substring search, token replacement and
//! decimal formatting, each with a full functional specification.

use vstd::prelude::*;
use vstd::string::{StrSliceExecFns, StringExecFns};

verus! {

/// The token `p` occurs in `s` starting at index `i`.
pub open spec fn token_at(s: Seq<char>, p: Seq<char>, i: int) -> bool {
    0 <= i && i + p.len() <= s.len() && s.subrange(i, i + p.len()) == p
}

/// The token `p` occurs somewhere in `s`.
pub open spec fn contains_token(s: Seq<char>, p: Seq<char>) -> bool {
    exists|i: int| token_at(s, p, i)
}

/// Index of the first occurrence of `p` in `s` at or after `from`, if any.
pub open spec fn find_from(s: Seq<char>, p: Seq<char>, from: int) -> Option<int>
    decreases s.len() - from + 1,
{
    if from < 0 || from + p.len() > s.len() {
        None
    } else if s.subrange(from, from + p.len()) == p {
        Some(from)
    } else {
        find_from(s, p, from + 1)
    }
}

/// What `find_from` returns: the least occurrence at or after `from`, or a
/// guarantee that there is none.
pub proof fn lemma_find_from_props(s: Seq<char>, p: Seq<char>, from: int)
    requires
        0 <= from,
    ensures
        match find_from(s, p, from) {
            Some(i) => from <= i && token_at(s, p, i) && (forall|j: int|
                from <= j < i ==> !token_at(s, p, j)),
            None => forall|j: int| from <= j ==> !token_at(s, p, j),
        },
    decreases s.len() - from + 1,
{
    if from + p.len() > s.len() {
        assert forall|j: int| from <= j implies !token_at(s, p, j) by {
            assert(j + p.len() > s.len());
        }
    } else if s.subrange(from, from + p.len()) == p {
    } else {
        lemma_find_from_props(s, p, from + 1);
        assert(!token_at(s, p, from));
    }
}

/// A successful search is only possible from a non-negative start.
pub proof fn lemma_find_from_some_nonneg(s: Seq<char>, p: Seq<char>, from: int)
    requires
        find_from(s, p, from) is Some,
    ensures
        0 <= from,
{
    if from < 0 {
        assert(find_from(s, p, from) is None);
    }
}

/// `s` with, from `from` on, every occurrence of `pat` replaced by `rep`,
/// scanning left to right without overlap.
pub open spec fn replace_from(s: Seq<char>, pat: Seq<char>, rep: Seq<char>, from: int) -> Seq<char>
    decreases s.len() - from,
    via replace_from_dec
{
    if pat.len() == 0 {
        s.subrange(from, s.len() as int)
    } else {
        match find_from(s, pat, from) {
            None => s.subrange(from, s.len() as int),
            Some(i) => s.subrange(from, i) + rep + replace_from(s, pat, rep, i + pat.len() as int),
        }
    }
}

#[via_fn]
proof fn replace_from_dec(s: Seq<char>, pat: Seq<char>, rep: Seq<char>, from: int) {
    if pat.len() > 0 {
        match find_from(s, pat, from) {
            Some(i) => {
                lemma_find_from_some_nonneg(s, pat, from);
                lemma_find_from_props(s, pat, from);
            },
            None => {},
        }
    }
}

/// `s` with every occurrence of `pat` replaced by `rep`.
pub open spec fn replace_all(s: Seq<char>, pat: Seq<char>, rep: Seq<char>) -> Seq<char> {
    replace_from(s, pat, rep, 0)
}

/// The character for a single decimal digit.
pub open spec fn digit_char(d: nat) -> char {
    if d == 0 {
        '0'
    } else if d == 1 {
        '1'
    } else if d == 2 {
        '2'
    } else if d == 3 {
        '3'
    } else if d == 4 {
        '4'
    } else if d == 5 {
        '5'
    } else if d == 6 {
        '6'
    } else if d == 7 {
        '7'
    } else if d == 8 {
        '8'
    } else {
        '9'
    }
}

/// The decimal representation of `n`, most significant digit first.
pub open spec fn dec_rep(n: nat) -> Seq<char>
    decreases n,
{
    if n < 10 {
        seq![digit_char(n)]
    } else {
        dec_rep(n / 10).push(digit_char(n % 10))
    }
}

/// The characters of `s`, as a vector.
pub fn str_chars(s: &str) -> (v: Vec<char>)
    ensures
        v@ == s@,
{
    let n = s.unicode_len();
    let mut v: Vec<char> = Vec::new();
    let mut i: usize = 0;
    while i < n
        invariant
            n == s@.len(),
            i <= n,
            v@ == s@.subrange(0, i as int),
        decreases n - i,
    {
        v.push(s.get_char(i));
        i = i + 1;
        proof {
            assert(v@ =~= s@.subrange(0, i as int));
        }
    }
    proof {
        assert(v@ =~= s@);
    }
    v
}

/// Whether the token `p` stands in `v` at index `i`.
fn match_at(v: &Vec<char>, p: &Vec<char>, i: usize) -> (r: bool)
    requires
        i + p@.len() <= v@.len(),
        v@.len() <= usize::MAX,
    ensures
        r == (v@.subrange(i as int, i as int + p@.len() as int) == p@),
{
    let mut j: usize = 0;
    while j < p.len()
        invariant
            i + p@.len() <= v@.len(),
            v@.len() <= usize::MAX,
            j <= p@.len(),
            forall|k: int| 0 <= k < j ==> v@[i + k] == p@[k],
        decreases p@.len() - j,
    {
        if v[i + j] != p[j] {
            proof {
                let sub = v@.subrange(i as int, i as int + p@.len() as int);
                assert(sub[j as int] == v@[i + j as int]);
                assert(sub != p@);
            }
            return false;
        }
        j = j + 1;
    }
    proof {
        assert(v@.subrange(i as int, i as int + p@.len() as int) =~= p@);
    }
    true
}

/// First occurrence of the token `p` in `v` at or after `from`.
pub fn find_token(v: &Vec<char>, p: &Vec<char>, from: usize) -> (r: Option<usize>)
    requires
        p@.len() >= 1,
    ensures
        match r {
            Some(i) => from <= i && find_from(v@, p@, from as int) == Some(i as int),
            None => find_from(v@, p@, from as int) is None,
        },
{
    let vlen = v.len();
    if p.len() > vlen {
        proof {
            assert(find_from(v@, p@, from as int) is None);
        }
        return None;
    }
    let last = vlen - p.len();
    let mut i: usize = from;
    while i <= last
        invariant
            1 <= p@.len() <= v@.len(),
            v@.len() <= usize::MAX,
            last == v@.len() - p@.len(),
            from <= i,
            find_from(v@, p@, from as int) == find_from(v@, p@, i as int),
        decreases last + 1 - i,
    {
        if match_at(v, p, i) {
            return Some(i);
        }
        proof {
            assert(find_from(v@, p@, i as int) == find_from(v@, p@, i + 1));
        }
        i = i + 1;
    }
    proof {
        assert(find_from(v@, p@, i as int) is None);
    }
    None
}

/// Whether the token `p` occurs anywhere in `v`.
pub fn contains_token_exec(v: &Vec<char>, p: &Vec<char>) -> (r: bool)
    requires
        p@.len() >= 1,
    ensures
        r == contains_token(v@, p@),
{
    proof {
        lemma_find_from_props(v@, p@, 0);
    }
    match find_token(v, p, 0) {
        Some(_) => true,
        None => {
            proof {
                assert forall|i: int| !token_at(v@, p@, i) by {
                    if 0 <= i {
                        assert(!token_at(v@, p@, i));
                    }
                }
            }
            false
        },
    }
}

/// The one-character string for a single decimal digit.
fn digit_str(d: u32) -> (r: &'static str)
    requires
        d < 10,
    ensures
        r@ == seq![digit_char(d as nat)],
{
    if d == 0 {
        let r = "0";
        proof {
            reveal_strlit("0");
            assert(r@ =~= seq![digit_char(d as nat)]);
        }
        r
    } else if d == 1 {
        let r = "1";
        proof {
            reveal_strlit("1");
            assert(r@ =~= seq![digit_char(d as nat)]);
        }
        r
    } else if d == 2 {
        let r = "2";
        proof {
            reveal_strlit("2");
            assert(r@ =~= seq![digit_char(d as nat)]);
        }
        r
    } else if d == 3 {
        let r = "3";
        proof {
            reveal_strlit("3");
            assert(r@ =~= seq![digit_char(d as nat)]);
        }
        r
    } else if d == 4 {
        let r = "4";
        proof {
            reveal_strlit("4");
            assert(r@ =~= seq![digit_char(d as nat)]);
        }
        r
    } else if d == 5 {
        let r = "5";
        proof {
            reveal_strlit("5");
            assert(r@ =~= seq![digit_char(d as nat)]);
        }
        r
    } else if d == 6 {
        let r = "6";
        proof {
            reveal_strlit("6");
            assert(r@ =~= seq![digit_char(d as nat)]);
        }
        r
    } else if d == 7 {
        let r = "7";
        proof {
            reveal_strlit("7");
            assert(r@ =~= seq![digit_char(d as nat)]);
        }
        r
    } else if d == 8 {
        let r = "8";
        proof {
            reveal_strlit("8");
            assert(r@ =~= seq![digit_char(d as nat)]);
        }
        r
    } else {
        let r = "9";
        proof {
            reveal_strlit("9");
            assert(r@ =~= seq![digit_char(d as nat)]);
        }
        r
    }
}

/// `n` written in decimal.
pub fn u32_to_dec(n: u32) -> (r: String)
    ensures
        r@ == dec_rep(n as nat),
    decreases n,
{
    if n < 10 {
        digit_str(n).to_owned()
    } else {
        proof {
            assert(n / 10 < n && n / 10 >= 1) by (nonlinear_arith)
                requires n >= 10;
        }
        let mut r = u32_to_dec(n / 10);
        r.append(digit_str(n % 10));
        proof {
            assert(r@ =~= dec_rep(n as nat));
        }
        r
    }
}

/// `s` with every occurrence of the token `pat` replaced by `rep`.
pub fn replace_token(s: &str, pat: &Vec<char>, rep: &str) -> (out: String)
    requires
        pat@.len() >= 1,
    ensures
        out@ == replace_all(s@, pat@, rep@),
{
    let v = str_chars(s);
    let n = v.len();
    let mut out = String::new();
    let mut pos: usize = 0;
    loop
        invariant
            pat@.len() >= 1,
            v@ == s@,
            n == s@.len(),
            pos <= n,
            replace_from(s@, pat@, rep@, 0) == out@ + replace_from(s@, pat@, rep@, pos as int),
        decreases n - pos,
    {
        match find_token(&v, pat, pos) {
            Some(i) => {
                proof {
                    lemma_find_from_props(s@, pat@, pos as int);
                }
                let piece = s.substring_char(pos, i);
                out.append(piece);
                out.append(rep);
                proof {
                    assert(replace_from(s@, pat@, rep@, pos as int) == s@.subrange(
                        pos as int,
                        i as int,
                    ) + rep@ + replace_from(s@, pat@, rep@, i + pat@.len()));
                    assert(replace_from(s@, pat@, rep@, 0) == out@ + replace_from(
                        s@,
                        pat@,
                        rep@,
                        i + pat@.len(),
                    ));
                }
                pos = i + pat.len();
            },
            None => {
                let piece = s.substring_char(pos, n);
                out.append(piece);
                proof {
                    assert(replace_from(s@, pat@, rep@, pos as int) == s@.subrange(
                        pos as int,
                        n as int,
                    ));
                }
                return out;
            },
        }
    }
}

} // verus!
