//! Parsing the host address option: a dotted-quad string becomes the
//! four octets the listening sockets bind to. The string is split at its
//! first three dots; each piece must parse as a decimal octet, and
//! exactly four pieces must result.

use vstd::prelude::*;
use vstd::string::*;

verus! {

/// Why a host address string was rejected.
#[derive(Debug, Clone, Copy, PartialEq, Eq, Structural)]
pub enum HostIpError {
    /// A piece between dots is not a decimal number that fits an octet.
    OctetOutOfRange,
    /// The pieces do not form exactly four octets.
    InvalidHostIp,
}

impl HostIpError {
    /// A short description of the error.
    pub fn message(&self) -> (r: &'static str)
        ensures
            r@ == match *self {
                HostIpError::OctetOutOfRange => "Octet component out of range (expected u8)"@,
                HostIpError::InvalidHostIp => "Invalid host IP provided"@,
            },
    {
        match *self {
            HostIpError::OctetOutOfRange => "Octet component out of range (expected u8)",
            HostIpError::InvalidHostIp => "Invalid host IP provided",
        }
    }
}

/// Index of the first dot in `s`, or negative when there is none.
pub open spec fn spec_find_dot(s: Seq<char>) -> int
    decreases s.len(),
{
    if s.len() == 0 {
        -1
    } else if s[0] == '.' {
        0
    } else {
        let r = spec_find_dot(s.drop_first());
        if r < 0 {
            -1
        } else {
            r + 1
        }
    }
}

/// Split `s` at dots into at most `n` pieces; the last piece keeps any
/// remaining dots.
pub open spec fn spec_splitn_dots(s: Seq<char>, n: int) -> Seq<Seq<char>>
    decreases n,
{
    if n <= 1 {
        seq![s]
    } else {
        let d = spec_find_dot(s);
        if d < 0 {
            seq![s]
        } else {
            seq![s.subrange(0, d)] + spec_splitn_dots(s.skip(d + 1), n - 1)
        }
    }
}

/// Whether a character is a decimal digit.
pub open spec fn spec_is_digit(c: char) -> bool {
    48 <= c as u32 && c as u32 <= 57
}

/// Whether every character of `s` is a decimal digit.
pub open spec fn spec_all_digits(s: Seq<char>) -> bool {
    forall|i: int| 0 <= i < s.len() ==> spec_is_digit(#[trigger] s[i])
}

/// The value of a digit string, most significant digit first.
pub open spec fn spec_digits_val(s: Seq<char>) -> int
    decreases s.len(),
{
    if s.len() == 0 {
        0
    } else {
        spec_digits_val(s.drop_last()) * 10 + (s.last() as u32 - 48)
    }
}

/// The octet a piece denotes, if any: an optional leading plus sign,
/// then at least one digit, with a value no greater than the largest
/// octet.
pub open spec fn spec_parse_u8(p: Seq<char>) -> Option<u8> {
    let q = if p.len() > 0 && p[0] == '+' {
        p.drop_first()
    } else {
        p
    };
    if q.len() > 0 && spec_all_digits(q) && spec_digits_val(q) <= 255 {
        Option::Some(spec_digits_val(q) as u8)
    } else {
        Option::None
    }
}

/// What a host address string denotes: its four octets, or the error a
/// malformed piece or a wrong piece count earns.
pub open spec fn spec_host_ip(s: Seq<char>) -> Result<Seq<u8>, HostIpError> {
    let pieces = spec_splitn_dots(s, 4);
    if exists|i: int| 0 <= i < pieces.len() && spec_parse_u8(#[trigger] pieces[i]) is None {
        Err(HostIpError::OctetOutOfRange)
    } else if pieces.len() != 4 {
        Err(HostIpError::InvalidHostIp)
    } else {
        Ok(
            seq![
                spec_parse_u8(pieces[0]).unwrap(),
                spec_parse_u8(pieces[1]).unwrap(),
                spec_parse_u8(pieces[2]).unwrap(),
                spec_parse_u8(pieces[3]).unwrap(),
            ],
        )
    }
}

proof fn lemma_find_dot_at(s: Seq<char>, k: int)
    requires
        0 <= k < s.len(),
        s[k] == '.',
        forall|j: int| 0 <= j < k ==> s[j] != '.',
    ensures
        spec_find_dot(s) == k,
    decreases k,
{
    if k > 0 {
        lemma_find_dot_at(s.drop_first(), k - 1);
    }
}

proof fn lemma_find_dot_none(s: Seq<char>)
    requires
        forall|j: int| 0 <= j < s.len() ==> s[j] != '.',
    ensures
        spec_find_dot(s) == -1,
    decreases s.len(),
{
    if s.len() > 0 {
        lemma_find_dot_none(s.drop_first());
    }
}

/// Find the first dot at or after `from`, as an absolute position.
fn find_dot_from(s: &str, from: usize) -> (r: Option<usize>)
    requires
        from <= s@.len(),
    ensures
        match r {
            Option::Some(d) => from <= d < s@.len() && spec_find_dot(s@.skip(from as int)) == d
                - from,
            Option::None => spec_find_dot(s@.skip(from as int)) == -1,
        },
{
    let len = s.unicode_len();
    let mut i: usize = from;
    while i < len
        invariant
            from <= i <= len,
            len == s@.len(),
            forall|j: int| from <= j < i ==> s@[j] != '.',
        decreases len - i,
    {
        if s.get_char(i) == '.' {
            proof {
                assert forall|j: int| 0 <= j < i - from implies s@.skip(from as int)[j]
                    != '.' by {
                    assert(s@.skip(from as int)[j] == s@[from + j]);
                }
                assert(s@.skip(from as int)[i - from] == s@[i as int]);
                lemma_find_dot_at(s@.skip(from as int), i - from);
            }
            return Option::Some(i);
        }
        i += 1;
    }
    proof {
        assert forall|j: int| 0 <= j < s@.skip(from as int).len() implies s@.skip(from as int)[j]
            != '.' by {
            assert(s@.skip(from as int)[j] == s@[from + j]);
        }
        lemma_find_dot_none(s@.skip(from as int));
    }
    Option::None
}

/// Parse one piece as a decimal octet.
fn parse_u8(p: &str) -> (r: Option<u8>)
    ensures
        r == spec_parse_u8(p@),
{
    let len = p.unicode_len();
    let start: usize = if len > 0 && p.get_char(0) == '+' {
        1
    } else {
        0
    };
    let ghost q = p@.skip(start as int);
    proof {
        if start == 0 {
            assert(q =~= p@);
        } else {
            assert(q =~= p@.drop_first());
        }
    }
    if len == start {
        return Option::None;
    }
    let mut acc: u32 = 0;
    let mut i: usize = start;
    while i < len
        invariant
            start <= i <= len,
            len == p@.len(),
            start < len,
            q == p@.skip(start as int),
            q == (if p@.len() > 0 && p@[0] == '+' { p@.drop_first() } else { p@ }),
            q.len() == len - start,
            forall|j: int| start <= j < i ==> spec_is_digit(#[trigger] p@[j]),
            ({
                let pref = p@.subrange(start as int, i as int);
                (spec_digits_val(pref) <= 255 && acc == spec_digits_val(pref)) || (spec_digits_val(
                    pref,
                ) > 255 && 255 < acc <= 2559)
            }),
        decreases len - i,
    {
        let c = p.get_char(i);
        let cv = c as u32;
        if !(48 <= cv && cv <= 57) {
            proof {
                assert(q[i - start] == p@[i as int]);
                assert(!spec_all_digits(q));
            }
            return Option::None;
        }
        let d = cv - 48;
        proof {
            let pref = p@.subrange(start as int, i as int);
            let next = p@.subrange(start as int, i as int + 1);
            assert(next.drop_last() =~= pref);
            assert(next.last() == p@[i as int]);
        }
        if acc <= 255 {
            acc = acc * 10 + d;
        }
        i += 1;
    }
    proof {
        assert(p@.subrange(start as int, len as int) =~= q);
        assert forall|j: int| 0 <= j < q.len() implies spec_is_digit(#[trigger] q[j]) by {
            assert(q[j] == p@[start + j]);
        }
    }
    if acc > 255 {
        Option::None
    } else {
        Option::Some(acc as u8)
    }
}

/// Parse the host address into its four octets: the string is split at
/// its first three dots, each piece must be a decimal octet, and exactly
/// four pieces must result.
#[verifier::rlimit(50)]
pub fn host_ip(host: &str) -> (r: Result<[u8; 4], HostIpError>)
    ensures
        r is Ok <==> spec_host_ip(host@) is Ok,
        r is Ok ==> (r->Ok_0)@ == spec_host_ip(host@)->Ok_0,
        r is Err ==> r->Err_0 == spec_host_ip(host@)->Err_0,
{
    let len = host.unicode_len();
    let ghost s = host@;
    let ghost pieces = spec_splitn_dots(s, 4);
    proof {
        assert(s.skip(0) =~= s);
    }

    // Split at the first three dots; each bound is one piece.
    let d1 = find_dot_from(host, 0);
    let (bounds, nb): ([(usize, usize); 4], usize) = match d1 {
        Option::None => {
            proof {
                assert(pieces =~= seq![s]);
                assert(pieces[0] =~= s.subrange(0, len as int));
            }
            ([(0, len), (0, 0), (0, 0), (0, 0)], 1)
        },
        Option::Some(d1) => {
            let ghost tail1 = s.skip(d1 + 1);
            let ghost rest1 = spec_splitn_dots(tail1, 3);
            proof {
                assert(pieces =~= seq![s.subrange(0, d1 as int)] + rest1);
            }
            let d2 = find_dot_from(host, d1 + 1);
            match d2 {
                Option::None => {
                    proof {
                        assert(rest1 =~= seq![tail1]);
                        assert(pieces =~= seq![s.subrange(0, d1 as int), tail1]);
                        assert(tail1 =~= s.subrange(d1 + 1, len as int));
                    }
                    ([(0, d1), (d1 + 1, len), (0, 0), (0, 0)], 2)
                },
                Option::Some(d2) => {
                    let ghost tail2 = s.skip(d2 + 1);
                    let ghost rest2 = spec_splitn_dots(tail2, 2);
                    proof {
                        assert(spec_find_dot(tail1) == d2 - (d1 + 1));
                        assert(tail1.subrange(0, d2 - d1 - 1) =~= s.subrange(d1 + 1, d2 as int));
                        assert(tail1.skip(d2 - d1 as int) =~= tail2);
                        assert(rest1 =~= seq![s.subrange(d1 + 1, d2 as int)] + rest2);
                    }
                    let d3 = find_dot_from(host, d2 + 1);
                    match d3 {
                        Option::None => {
                            proof {
                                assert(rest2 =~= seq![tail2]);
                                assert(pieces =~= seq![
                                    s.subrange(0, d1 as int),
                                    s.subrange(d1 + 1, d2 as int),
                                    tail2,
                                ]);
                                assert(tail2 =~= s.subrange(d2 + 1, len as int));
                            }
                            ([(0, d1), (d1 + 1, d2), (d2 + 1, len), (0, 0)], 3)
                        },
                        Option::Some(d3) => {
                            proof {
                                assert(spec_find_dot(tail2) == d3 - (d2 + 1));
                                assert(spec_splitn_dots(tail2.skip(d3 - d2 as int), 1)
                                    =~= seq![tail2.skip(d3 - d2 as int)]);
                                assert(tail2.subrange(0, d3 - d2 - 1) =~= s.subrange(
                                    d2 + 1,
                                    d3 as int,
                                ));
                                assert(rest2 =~= seq![s.subrange(d2 + 1, d3 as int)] + seq![
                                    tail2.skip(d3 - d2 as int),
                                ]);
                                assert(tail2.skip(d3 - d2 as int) =~= s.subrange(
                                    d3 + 1,
                                    len as int,
                                ));
                                assert(pieces =~= seq![
                                    s.subrange(0, d1 as int),
                                    s.subrange(d1 + 1, d2 as int),
                                    s.subrange(d2 + 1, d3 as int),
                                    s.subrange(d3 + 1, len as int),
                                ]);
                            }
                            ([(0, d1), (d1 + 1, d2), (d2 + 1, d3), (d3 + 1, len)], 4)
                        },
                    }
                },
            }
        },
    };
    let mut octets: [u8; 4] = [0, 0, 0, 0];
    let mut k: usize = 0;
    while k < nb
        invariant
            k <= nb <= 4,
            len == s.len(),
            s == host@,
            pieces == spec_splitn_dots(s, 4),
            pieces.len() == nb,
            forall|i: int|
                0 <= i < nb ==> bounds@[i].0 <= bounds@[i].1 <= len && #[trigger] pieces[i]
                    == s.subrange(bounds@[i].0 as int, bounds@[i].1 as int),
            forall|i: int|
                0 <= i < k ==> #[trigger] spec_parse_u8(pieces[i]) == Option::Some(octets@[i]),
        decreases nb - k,
    {
        let (a, b) = bounds[k];
        let piece = host.substring_char(a, b);
        match parse_u8(piece) {
            Option::Some(v) => {
                octets[k] = v;
            },
            Option::None => {
                proof {
                    assert(spec_parse_u8(pieces[k as int]) is None);
                }
                return Err(HostIpError::OctetOutOfRange);
            },
        }
        k += 1;
    }
    if nb != 4 {
        proof {
            assert(!(exists|i: int|
                0 <= i < pieces.len() && spec_parse_u8(#[trigger] pieces[i]) is None));
        }
        return Err(HostIpError::InvalidHostIp);
    }
    proof {
        assert(!(exists|i: int|
            0 <= i < pieces.len() && spec_parse_u8(#[trigger] pieces[i]) is None));
        assert(octets@ =~= spec_host_ip(s)->Ok_0);
    }
    Ok(octets)
}

} // verus!
