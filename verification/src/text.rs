//! Text helpers: decimal rendering of unsigned integers for diagnostic
//! messages, and pattern replacement in kernel templates.

use vstd::prelude::*;

verus! {

/// The ASCII digit for `d < 10`.
pub open spec fn digit_char(d: nat) -> char {
    (d + 48) as char
}

/// The shortest decimal rendering of `n`, most significant digit first.
pub open spec fn decimal_spec(n: nat) -> Seq<char>
    decreases n,
{
    if n < 10 {
        seq![digit_char(n)]
    } else {
        decimal_spec(n / 10).push(digit_char(n % 10))
    }
}

fn digit_text(d: u64) -> (s: &'static str)
    requires
        d < 10,
    ensures
        s@ == seq![digit_char(d as nat)],
{
    if d == 0 {
        proof { reveal_strlit("0"); }
        "0"
    } else if d == 1 {
        proof { reveal_strlit("1"); }
        "1"
    } else if d == 2 {
        proof { reveal_strlit("2"); }
        "2"
    } else if d == 3 {
        proof { reveal_strlit("3"); }
        "3"
    } else if d == 4 {
        proof { reveal_strlit("4"); }
        "4"
    } else if d == 5 {
        proof { reveal_strlit("5"); }
        "5"
    } else if d == 6 {
        proof { reveal_strlit("6"); }
        "6"
    } else if d == 7 {
        proof { reveal_strlit("7"); }
        "7"
    } else if d == 8 {
        proof { reveal_strlit("8"); }
        "8"
    } else {
        proof { reveal_strlit("9"); }
        "9"
    }
}

/// Render `n` in decimal.
pub fn decimal(n: u64) -> (s: String)
    ensures
        s@ == decimal_spec(n as nat),
    decreases n,
{
    if n < 10 {
        String::from_str(digit_text(n))
    } else {
        let mut s = decimal(n / 10);
        s.append(digit_text(n % 10));
        s
    }
}

/// `prefix`, the decimal rendering of `n`, then `suffix`.
pub fn framed_decimal(prefix: &str, n: u64, suffix: &str) -> (s: String)
    ensures
        s@ == prefix@ + decimal_spec(n as nat) + suffix@,
{
    let mut s = String::from_str(prefix);
    let digits = decimal(n);
    s.append(digits.as_str());
    s.append(suffix);
    s
}

/// `s` with every occurrence of the non-empty pattern `p` replaced by `t`,
/// matching from the left and never overlapping, as `str::replace` does.
pub open spec fn replace_spec(s: Seq<char>, p: Seq<char>, t: Seq<char>) -> Seq<char>
    decreases s.len(),
{
    if s.len() == 0 {
        seq![]
    } else if 0 < p.len() <= s.len() && s.subrange(0, p.len() as int) == p {
        t + replace_spec(s.subrange(p.len() as int, s.len() as int), p, t)
    } else {
        seq![s[0]] + replace_spec(s.subrange(1, s.len() as int), p, t)
    }
}

fn chars_of(s: &str) -> (v: Vec<char>)
    ensures
        v@ == s@,
{
    broadcast use vstd::string::axiom_spec_iter;

    let mut v: Vec<char> = Vec::new();
    for c in it: s.chars()
        invariant
            it.seq() == s@,
            v@ == s@.subrange(0, it.index() as int),
    {
        v.push(c);
        proof {
            assert(s@.subrange(0, it.index() + 1) =~= s@.subrange(0, it.index() as int).push(c));
        }
    }
    assert(v@ =~= s@);
    v
}

fn matches_at(s: &Vec<char>, p: &Vec<char>, i: usize) -> (b: bool)
    requires
        i <= s@.len(),
    ensures
        b == (p@.len() <= s@.len() - i && s@.subrange(i as int, i + p@.len()) == p@),
{
    let n = s.len();
    if p.len() > n - i {
        return false;
    }
    let mut k: usize = 0;
    while k < p.len()
        invariant
            n == s@.len(),
            i <= s@.len(),
            p@.len() <= s@.len() - i,
            k <= p@.len(),
            forall|j: int| 0 <= j < k ==> s@[i + j] == #[trigger] p@[j],
        decreases p@.len() - k,
    {
        if s[i + k] != p[k] {
            assert(s@.subrange(i as int, i + p@.len())[k as int] != p@[k as int]);
            return false;
        }
        k = k + 1;
    }
    assert(s@.subrange(i as int, i + p@.len()) =~= p@);
    true
}

/// Replace every occurrence of the non-empty pattern `p` in `s` by `t`.
pub fn replace_all(s: &str, p: &str, t: &str) -> (r: String)
    requires
        p@.len() > 0,
    ensures
        r@ == replace_spec(s@, p@, t@),
{
    let sc = chars_of(s);
    let pc = chars_of(p);
    let ghost n = s@.len() as int;
    let mut out = String::new();
    let mut start: usize = 0;
    let mut i: usize = 0;
    proof {
        assert(s@.subrange(0, n) =~= s@);
        assert(out@ + s@.subrange(0, 0) =~= Seq::<char>::empty());
    }
    while i < sc.len()
        invariant
            sc@ == s@,
            pc@ == p@,
            p@.len() > 0,
            n == s@.len(),
            start <= i <= n,
            out@ + s@.subrange(start as int, i as int) + replace_spec(s@.subrange(i as int, n), p@, t@)
                == replace_spec(s@, p@, t@),
        decreases n - i,
    {
        let ghost rest = s@.subrange(i as int, n);
        if matches_at(&sc, &pc, i) {
            proof {
                assert(rest.subrange(0, p@.len() as int) =~= s@.subrange(i as int, i + p@.len()));
                assert(rest.subrange(p@.len() as int, rest.len() as int) =~= s@.subrange(i + p@.len(), n));
            }
            let piece = s.substring_char(start, i);
            out.append(piece);
            out.append(t);
            i = i + pc.len();
            start = i;
            proof {
                assert(s@.subrange(start as int, i as int) =~= Seq::<char>::empty());
            }
        } else {
            proof {
                assert(rest.subrange(1, rest.len() as int) =~= s@.subrange(i + 1, n));
                if 0 < p@.len() <= rest.len() {
                    assert(rest.subrange(0, p@.len() as int) =~= s@.subrange(i as int, i + p@.len()));
                }
                assert(s@.subrange(start as int, i + 1) =~= s@.subrange(start as int, i as int) + seq![s@[i as int]]);
            }
            i = i + 1;
        }
    }
    proof {
        assert(s@.subrange(i as int, n) =~= Seq::<char>::empty());
    }
    let piece = s.substring_char(start, i);
    out.append(piece);
    out
}

} // verus!
