//! Character and string helpers: decimal rendering of integers, string
//! equality and substring search, ASCII lowercasing, left padding.
use vstd::prelude::*;
use vstd::string::StrSliceExecFns;
use vstd::string::StringExecFns;

verus! {

/// The decimal digit character for `d` (`d < 10`; `0` for larger values).
pub open spec fn digit_char(d: nat) -> char {
    if d == 0 {
        '0'
    } else if d == 1 {
        '1'
    } else if d == 2 {
        '2'
    } else if d == 3 {
        '3'
    } else if d == 4 {
        '4'
    } else if d == 5 {
        '5'
    } else if d == 6 {
        '6'
    } else if d == 7 {
        '7'
    } else if d == 8 {
        '8'
    } else if d == 9 {
        '9'
    } else {
        '0'
    }
}

/// The decimal representation of `n`, most significant digit first,
/// without leading zeros (except for `n == 0`, which is `"0"`).
pub open spec fn dec_str(n: nat) -> Seq<char>
    decreases n,
{
    if n < 10 {
        seq![digit_char(n)]
    } else {
        dec_str(n / 10) + seq![digit_char(n % 10)]
    }
}

/// A decimal representation is never empty.
pub proof fn lemma_dec_str_nonempty(n: nat)
    ensures
        dec_str(n).len() >= 1,
    decreases n,
{
    if n >= 10 {
        lemma_dec_str_nonempty(n / 10);
    }
}

pub(crate) fn digit_str(d: u64) -> (s: &'static str)
    requires
        d < 10,
    ensures
        s@ =~= seq![digit_char(d as nat)],
{
    proof {
        reveal_strlit("0");
        reveal_strlit("1");
        reveal_strlit("2");
        reveal_strlit("3");
        reveal_strlit("4");
        reveal_strlit("5");
        reveal_strlit("6");
        reveal_strlit("7");
        reveal_strlit("8");
        reveal_strlit("9");
    }
    if d == 0 {
        "0"
    } else if d == 1 {
        "1"
    } else if d == 2 {
        "2"
    } else if d == 3 {
        "3"
    } else if d == 4 {
        "4"
    } else if d == 5 {
        "5"
    } else if d == 6 {
        "6"
    } else if d == 7 {
        "7"
    } else if d == 8 {
        "8"
    } else {
        "9"
    }
}

/// Renders `n` in decimal.
pub fn u64_to_string(n: u64) -> (s: String)
    ensures
        s@ == dec_str(n as nat),
    decreases n,
{
    if n < 10 {
        String::from_str(digit_str(n))
    } else {
        let mut s = u64_to_string(n / 10);
        s.append(digit_str(n % 10));
        proof {
            assert(s@ =~= dec_str(n as nat));
        }
        s
    }
}

/// Whether two strings hold the same characters.
pub fn str_eq(a: &str, b: &str) -> (r: bool)
    ensures
        r == (a@ == b@),
{
    let alen = a.unicode_len();
    let blen = b.unicode_len();
    if alen != blen {
        proof {
            if a@ == b@ {
                assert(a@.len() == b@.len());
            }
        }
        return false;
    }
    let mut i: usize = 0;
    while i < alen
        invariant
            alen == a@.len(),
            blen == b@.len(),
            alen == blen,
            0 <= i <= alen,
            forall|j: int| 0 <= j < i ==> a@[j] == b@[j],
        decreases alen - i,
    {
        let ca = a.get_char(i);
        let cb = b.get_char(i);
        if ca != cb {
            proof {
                if a@ == b@ {
                    assert(a@[i as int] == b@[i as int]);
                }
            }
            return false;
        }
        i += 1;
    }
    proof {
        assert(a@ =~= b@);
    }
    true
}

/// Maps an ASCII capital letter to its small form and leaves every
/// other character unchanged.
pub open spec fn lower_char(c: char) -> char {
    if 'A' <= c && c <= 'Z' {
        (((c as u8) + 32) as u8) as char
    } else {
        c
    }
}

/// Executable form of [`lower_char`].
pub fn to_lower_char(c: char) -> (r: char)
    ensures
        r == lower_char(c),
{
    if 'A' <= c && c <= 'Z' {
        ((c as u8) + 32) as char
    } else {
        c
    }
}

/// The sequence with every character lowered by [`lower_char`].
pub open spec fn lower_seq(s: Seq<char>) -> Seq<char> {
    s.map_values(|c: char| lower_char(c))
}

/// Whether `n` occurs in `h` starting at position `i`.
pub open spec fn match_at(h: Seq<char>, n: Seq<char>, i: int) -> bool {
    0 <= i && i + n.len() <= h.len() && h.subrange(i, i + n.len() as int) == n
}

/// Whether `n` occurs somewhere in `h`.
pub open spec fn contains_seq(h: Seq<char>, n: Seq<char>) -> bool {
    exists|i: int| match_at(h, n, i)
}

fn contains_core(h: &str, n: &str, lower: bool) -> (r: bool)
    ensures
        r == contains_seq(if lower { lower_seq(h@) } else { h@ }, n@),
{
    let ghost hh: Seq<char> = if lower { lower_seq(h@) } else { h@ };
    let hlen = h.unicode_len();
    let nlen = n.unicode_len();
    proof {
        assert(hh.len() == h@.len());
    }
    if nlen > hlen {
        proof {
            assert forall|i: int| !match_at(hh, n@, i) by {
                if match_at(hh, n@, i) {
                    assert(i >= 0 && i + n@.len() <= hh.len());
                }
            }
        }
        return false;
    }
    let mut i: usize = 0;
    while i <= hlen - nlen
        invariant
            hh == (if lower { lower_seq(h@) } else { h@ }),
            hh.len() == h@.len(),
            hlen == h@.len(),
            nlen == n@.len(),
            nlen <= hlen,
            0 <= i <= hlen - nlen + 1,
            forall|k: int| 0 <= k < i ==> !match_at(hh, n@, k),
        decreases hlen - nlen - i + 1,
    {
        let mut j: usize = 0;
        let mut ok: bool = true;
        while j < nlen
            invariant_except_break
                ok,
                forall|t: int| 0 <= t < j ==> hh[i + t] == n@[t],
            invariant
                hh == (if lower { lower_seq(h@) } else { h@ }),
                hh.len() == h@.len(),
                hlen == h@.len(),
                nlen == n@.len(),
                nlen <= hlen,
                0 <= i <= hlen - nlen,
                0 <= j <= nlen,
            ensures
                ok ==> forall|t: int| 0 <= t < nlen ==> hh[i + t] == n@[t],
                !ok ==> !match_at(hh, n@, i as int),
            decreases nlen - j,
        {
            let mut hc = h.get_char(i + j);
            if lower {
                hc = to_lower_char(hc);
            }
            let nc = n.get_char(j);
            if hc != nc {
                ok = false;
                proof {
                    assert(hh[i + j] != n@[j as int]);
                    if match_at(hh, n@, i as int) {
                        let sub = hh.subrange(i as int, i + n@.len() as int);
                        assert(sub[j as int] == n@[j as int]);
                    }
                    assert(!match_at(hh, n@, i as int));
                }
                break;
            }
            j += 1;
        }
        if ok {
            proof {
                assert(hh.subrange(i as int, i + n@.len() as int) =~= n@);
                assert(match_at(hh, n@, i as int));
            }
            return true;
        }
        proof {
            if n@.len() == 0 {
                assert(hh.subrange(i as int, i as int) =~= n@);
                assert(match_at(hh, n@, i as int));
            }
            assert(n@.len() > 0);
        }
        i += 1;
    }
    proof {
        assert forall|k: int| !match_at(hh, n@, k) by {
            if match_at(hh, n@, k) {
                assert(0 <= k && k + n@.len() <= hh.len());
                assert(k < i);
            }
        }
    }
    false
}

/// Whether the string `n` occurs as a substring of `h`.
pub fn str_contains(h: &str, n: &str) -> (r: bool)
    ensures
        r == contains_seq(h@, n@),
{
    contains_core(h, n, false)
}

/// Whether `n` occurs as a substring of `h` once `h` is lowercased.
pub fn str_contains_lower(h: &str, n: &str) -> (r: bool)
    ensures
        r == contains_seq(lower_seq(h@), n@),
{
    contains_core(h, n, true)
}

/// `n` spaces.
pub open spec fn spaces(n: nat) -> Seq<char> {
    Seq::new(n, |i: int| ' ')
}

/// `s`, preceded by as many spaces as it takes to reach width `w`.
pub open spec fn pad_left_spec(s: Seq<char>, w: nat) -> Seq<char> {
    if s.len() >= w {
        s
    } else {
        spaces((w - s.len()) as nat) + s
    }
}

/// Right-aligns `s` in a field of `w` characters, as the width flag of a
/// format string would.
pub fn pad_left(s: &str, w: usize) -> (r: String)
    ensures
        r@ == pad_left_spec(s@, w as nat),
{
    let len = s.unicode_len();
    if len >= w {
        String::from_str(s)
    } else {
        let mut out = String::new();
        let pad = w - len;
        let mut i: usize = 0;
        while i < pad
            invariant
                0 <= i <= pad,
                out@ =~= spaces(i as nat),
            decreases pad - i,
        {
            out.append(" ");
            proof {
                reveal_strlit(" ");
                assert(out@ =~= spaces((i + 1) as nat));
            }
            i += 1;
        }
        out.append(s);
        proof {
            assert(out@ =~= pad_left_spec(s@, w as nat));
        }
        out
    }
}

} // verus!
