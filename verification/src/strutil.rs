//! Small verified string utilities shared by the capability model and the
//! session handler: equality and substring tests over character views,
//! prefix truncation at a byte budget, and decimal rendering of numbers.

use vstd::prelude::*;
use vstd::string::*;

verus! {

/// Character-for-character equality of two string slices.
pub fn str_eq(a: &str, b: &str) -> (r: bool)
    ensures
        r == (a@ == b@),
{
    let alen = a.unicode_len();
    let blen = b.unicode_len();
    if alen != blen {
        return false;
    }
    let mut i: usize = 0;
    while i < alen
        invariant
            i <= alen,
            alen == a@.len(),
            alen == b@.len(),
            forall|j: int| 0 <= j < i ==> a@[j] == b@[j],
        decreases alen - i,
    {
        if a.get_char(i) != b.get_char(i) {
            return false;
        }
        i += 1;
    }
    proof {
        assert(a@ =~= b@);
    }
    true
}

/// The needle `n` occurs in `h` starting at character position `i`.
pub open spec fn contains_at(h: Seq<char>, n: Seq<char>, i: int) -> bool {
    0 <= i && i + n.len() <= h.len() && h.subrange(i, i + n.len() as int) == n
}

/// The needle `n` occurs somewhere in `h`.
pub open spec fn spec_contains(h: Seq<char>, n: Seq<char>) -> bool {
    exists|i: int| contains_at(h, n, i)
}

fn match_at(h: &str, n: &str, at: usize) -> (r: bool)
    requires
        h@.len() <= usize::MAX,
        at + n@.len() <= h@.len(),
    ensures
        r == contains_at(h@, n@, at as int),
{
    let nlen = n.unicode_len();
    let mut k: usize = 0;
    while k < nlen
        invariant
            h@.len() <= usize::MAX,
            at + nlen <= h@.len(),
            nlen == n@.len(),
            k <= nlen,
            forall|j: int| 0 <= j < k ==> h@[at + j] == n@[j],
        decreases nlen - k,
    {
        if h.get_char(at + k) != n.get_char(k) {
            proof {
                assert(h@.subrange(at as int, at + nlen as int)[k as int] == h@[at + k]);
            }
            return false;
        }
        k += 1;
    }
    proof {
        assert(h@.subrange(at as int, at + n@.len() as int) =~= n@);
    }
    true
}

/// Substring search: whether `n` occurs anywhere in `h`.
pub fn str_contains(h: &str, n: &str) -> (r: bool)
    ensures
        r == spec_contains(h@, n@),
{
    let hlen = h.unicode_len();
    let nlen = n.unicode_len();
    if nlen > hlen {
        proof {
            assert forall|i: int| !contains_at(h@, n@, i) by {
                assert(i >= 0 ==> i + n@.len() > h@.len());
            }
        }
        return false;
    }
    if nlen == 0 {
        proof {
            assert(h@.subrange(0, 0) =~= n@);
            assert(contains_at(h@, n@, 0));
        }
        return true;
    }
    let mut i: usize = 0;
    while i <= hlen - nlen
        invariant
            0 < nlen <= hlen,
            hlen == h@.len(),
            nlen == n@.len(),
            i <= hlen - nlen + 1,
            forall|k: int| 0 <= k < i ==> !contains_at(h@, n@, k),
        decreases hlen - i,
    {
        if match_at(h, n, i) {
            return true;
        }
        i += 1;
    }
    proof {
        assert forall|k: int| !contains_at(h@, n@, k) by {
            if 0 <= k < i {
            } else {
                assert(k < 0 || k + n@.len() > h@.len());
            }
        }
    }
    false
}

/// Width in bytes of one character under UTF-8 encoding.
pub open spec fn char_utf8_width(c: char) -> int {
    if (c as u32) < 0x80 {
        1
    } else if (c as u32) < 0x800 {
        2
    } else if (c as u32) < 0x10000 {
        3
    } else {
        4
    }
}

/// How many leading characters of `s` fit in a budget of `max` bytes.
pub open spec fn cut_len(s: Seq<char>, max: int) -> int
    decreases s.len(),
{
    if s.len() == 0 {
        0
    } else if char_utf8_width(s[0]) > max {
        0
    } else {
        1 + cut_len(s.drop_first(), max - char_utf8_width(s[0]))
    }
}

/// What truncation at a byte budget yields: the whole string when it fits,
/// else the longest whole-character prefix within the budget plus an ellipsis.
pub open spec fn spec_truncate(s: Seq<char>, max: int) -> Seq<char> {
    if cut_len(s, max) == s.len() {
        s
    } else {
        s.subrange(0, cut_len(s, max)) + seq!['.', '.', '.']
    }
}

fn char_width(c: char) -> (w: usize)
    ensures
        w == char_utf8_width(c),
{
    if (c as u32) < 0x80 {
        1
    } else if (c as u32) < 0x800 {
        2
    } else if (c as u32) < 0x10000 {
        3
    } else {
        4
    }
}

/// Cut `s` down to at most `max` bytes of whole characters, appending an
/// ellipsis when anything was dropped.
pub fn truncate(s: &str, max: usize) -> (r: String)
    ensures
        r@ == spec_truncate(s@, max as int),
{
    let len = s.unicode_len();
    let mut k: usize = 0;
    let mut budget: usize = max;
    proof {
        assert(s@.skip(0) =~= s@);
    }
    loop
        invariant_except_break
            k <= len,
            len == s@.len(),
            budget <= max,
            cut_len(s@, max as int) == k + cut_len(s@.skip(k as int), budget as int),
        ensures
            k <= len,
            len == s@.len(),
            cut_len(s@, max as int) == k,
        decreases len - k,
    {
        if k >= len {
            proof {
                assert(s@.skip(k as int) =~= Seq::<char>::empty());
            }
            break;
        }
        let w = char_width(s.get_char(k));
        if w > budget {
            proof {
                assert(s@.skip(k as int)[0] == s@[k as int]);
                assert(cut_len(s@.skip(k as int), budget as int) == 0);
            }
            break;
        }
        proof {
            assert(s@.skip(k as int)[0] == s@[k as int]);
            assert(s@.skip(k as int).drop_first() =~= s@.skip(k as int + 1));
        }
        budget = budget - w;
        k += 1;
    }
    if k == len {
        s.to_owned()
    } else {
        let prefix = s.substring_char(0, k).to_owned();
        let r = prefix.concat("...");
        proof {
            reveal_strlit("...");
            assert("..."@ =~= seq!['.', '.', '.']);
            assert(r@ =~= spec_truncate(s@, max as int));
        }
        r
    }
}

/// The decimal digit character for a value below ten.
pub open spec fn dec_digit(d: int) -> char {
    if d == 0 {
        '0'
    } else if d == 1 {
        '1'
    } else if d == 2 {
        '2'
    } else if d == 3 {
        '3'
    } else if d == 4 {
        '4'
    } else if d == 5 {
        '5'
    } else if d == 6 {
        '6'
    } else if d == 7 {
        '7'
    } else if d == 8 {
        '8'
    } else {
        '9'
    }
}

/// Decimal rendering of a nonnegative number, most significant digit first.
pub open spec fn spec_dec(n: int) -> Seq<char>
    decreases n,
{
    if n < 10 {
        seq![dec_digit(n)]
    } else {
        spec_dec(n / 10).push(dec_digit(n % 10))
    }
}

fn digit_str(d: u16) -> (r: &'static str)
    requires
        d < 10,
    ensures
        r@ =~= seq![dec_digit(d as int)],
{
    proof {
        reveal_strlit("0");
        reveal_strlit("1");
        reveal_strlit("2");
        reveal_strlit("3");
        reveal_strlit("4");
        reveal_strlit("5");
        reveal_strlit("6");
        reveal_strlit("7");
        reveal_strlit("8");
        reveal_strlit("9");
    }
    match d {
        0 => "0",
        1 => "1",
        2 => "2",
        3 => "3",
        4 => "4",
        5 => "5",
        6 => "6",
        7 => "7",
        8 => "8",
        _ => "9",
    }
}

/// Render a number in decimal.
pub fn u16_to_string(n: u16) -> (r: String)
    ensures
        r@ == spec_dec(n as int),
    decreases n,
{
    if n < 10 {
        digit_str(n).to_owned()
    } else {
        let mut r = u16_to_string(n / 10);
        r.append(digit_str(n % 10));
        proof {
            assert(r@ =~= spec_dec(n as int));
        }
        r
    }
}

} // verus!
