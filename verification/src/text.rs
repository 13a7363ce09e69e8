//! Verified helpers for the character-level work the client does: string
//! equality, decimal rendering, URL classification and the substring scan
//! behind the dry-run gate.

use vstd::prelude::*;

verus! {

/// String-slice equality, specified over the character views.
pub fn str_eq(a: &str, b: &str) -> (r: bool)
    ensures
        r == (a@ == b@),
{
    let x: String = a.to_owned();
    let y: String = b.to_owned();
    x == y
}

/// The decimal digit character for `d` (`d < 10`).
pub open spec fn dec_digit_char(d: nat) -> char {
    if d == 0 {
        '0'
    } else if d == 1 {
        '1'
    } else if d == 2 {
        '2'
    } else if d == 3 {
        '3'
    } else if d == 4 {
        '4'
    } else if d == 5 {
        '5'
    } else if d == 6 {
        '6'
    } else if d == 7 {
        '7'
    } else if d == 8 {
        '8'
    } else {
        '9'
    }
}

/// The usual decimal rendering of `n`, most significant digit first.
pub open spec fn spec_dec(n: nat) -> Seq<char>
    decreases n,
{
    if n < 10 {
        seq![dec_digit_char(n)]
    } else {
        spec_dec(n / 10).push(dec_digit_char(n % 10))
    }
}

/// Appends the single decimal digit character for `d`.
pub fn append_digit(out: &mut String, d: usize)
    requires
        d < 10,
    ensures
        final(out)@ == old(out)@ + seq![dec_digit_char(d as nat)],
{
    match d {
        0 => {
            proof {
                reveal_strlit("0");
            }
            out.append("0");
            proof {
                assert(final(out)@ =~= old(out)@ + seq![dec_digit_char(d as nat)]);
            }
        },
        1 => {
            proof {
                reveal_strlit("1");
            }
            out.append("1");
            proof {
                assert(final(out)@ =~= old(out)@ + seq![dec_digit_char(d as nat)]);
            }
        },
        2 => {
            proof {
                reveal_strlit("2");
            }
            out.append("2");
            proof {
                assert(final(out)@ =~= old(out)@ + seq![dec_digit_char(d as nat)]);
            }
        },
        3 => {
            proof {
                reveal_strlit("3");
            }
            out.append("3");
            proof {
                assert(final(out)@ =~= old(out)@ + seq![dec_digit_char(d as nat)]);
            }
        },
        4 => {
            proof {
                reveal_strlit("4");
            }
            out.append("4");
            proof {
                assert(final(out)@ =~= old(out)@ + seq![dec_digit_char(d as nat)]);
            }
        },
        5 => {
            proof {
                reveal_strlit("5");
            }
            out.append("5");
            proof {
                assert(final(out)@ =~= old(out)@ + seq![dec_digit_char(d as nat)]);
            }
        },
        6 => {
            proof {
                reveal_strlit("6");
            }
            out.append("6");
            proof {
                assert(final(out)@ =~= old(out)@ + seq![dec_digit_char(d as nat)]);
            }
        },
        7 => {
            proof {
                reveal_strlit("7");
            }
            out.append("7");
            proof {
                assert(final(out)@ =~= old(out)@ + seq![dec_digit_char(d as nat)]);
            }
        },
        8 => {
            proof {
                reveal_strlit("8");
            }
            out.append("8");
            proof {
                assert(final(out)@ =~= old(out)@ + seq![dec_digit_char(d as nat)]);
            }
        },
        _ => {
            proof {
                reveal_strlit("9");
            }
            out.append("9");
            proof {
                assert(final(out)@ =~= old(out)@ + seq![dec_digit_char(d as nat)]);
            }
        },
    }
}

/// Appends the decimal rendering of `n` to `out`.
pub fn append_dec(out: &mut String, n: usize)
    ensures
        final(out)@ == old(out)@ + spec_dec(n as nat),
    decreases n,
{
    if n < 10 {
        append_digit(out, n);
    } else {
        append_dec(out, n / 10);
        append_digit(out, n % 10);
        proof {
            assert(final(out)@ =~= old(out)@ + spec_dec(n as nat));
        }
    }
}

/// The decimal rendering of `n` as ASCII bytes.
pub open spec fn spec_dec_bytes(n: nat) -> Seq<u8>
    decreases n,
{
    if n < 10 {
        seq![(0x30 + n) as u8]
    } else {
        spec_dec_bytes(n / 10).push((0x30 + n % 10) as u8)
    }
}

/// Appends the decimal rendering of `n` to a byte buffer.
pub fn push_dec_bytes(out: &mut Vec<u8>, n: usize)
    ensures
        final(out)@ == old(out)@ + spec_dec_bytes(n as nat),
    decreases n,
{
    if n < 10 {
        let d: u8 = (n % 10) as u8;
        out.push(0x30 + d);
        proof {
            assert(final(out)@ =~= old(out)@ + spec_dec_bytes(n as nat));
        }
    } else {
        push_dec_bytes(out, n / 10);
        let d: u8 = (n % 10) as u8;
        out.push(0x30 + d);
        proof {
            assert(final(out)@ =~= old(out)@ + spec_dec_bytes(n as nat));
        }
    }
}

/// True when the path is already a fully-qualified secure URL.
pub open spec fn spec_is_absolute(u: Seq<char>) -> bool {
    u.len() >= 8 && u.subrange(0, 8) == "https://"@
}

/// Decides whether `u` starts with the secure URL scheme prefix.
pub fn is_absolute(u: &str) -> (r: bool)
    ensures
        r == spec_is_absolute(u@),
{
    proof {
        reveal_strlit("https://");
    }
    let prefix = "https://";
    let n = u.unicode_len();
    if n < 8 {
        return false;
    }
    let mut i: usize = 0;
    while i < 8
        invariant
            0 <= i <= 8,
            u@.len() >= 8,
            prefix@ == "https://"@,
            prefix@.len() == 8,
            forall|j: int| 0 <= j < i ==> u@[j] == prefix@[j],
        decreases 8 - i,
    {
        if u.get_char(i) != prefix.get_char(i) {
            proof {
                assert(u@.subrange(0, 8)[i as int] != "https://"@[i as int]);
            }
            return false;
        }
        i += 1;
    }
    proof {
        assert(u@.subrange(0, 8) =~= "https://"@);
    }
    true
}

/// True when "graphql" occurs somewhere in `u`.
pub open spec fn spec_contains_graphql(u: Seq<char>) -> bool {
    exists|i: int| 0 <= i && i + 7 <= u.len() && #[trigger] u.subrange(i, i + 7) == "graphql"@
}

fn graphql_at(u: &str, i: usize) -> (r: bool)
    requires
        i + 7 <= u@.len(),
        u@.len() <= usize::MAX,
    ensures
        r == (u@.subrange(i as int, i as int + 7) == "graphql"@),
{
    proof {
        reveal_strlit("graphql");
    }
    let pat = "graphql";
    let mut k: usize = 0;
    while k < 7
        invariant
            0 <= k <= 7,
            i + 7 <= u@.len(),
            u@.len() <= usize::MAX,
            pat@ == "graphql"@,
            pat@.len() == 7,
            forall|j: int| 0 <= j < k ==> u@[i + j] == pat@[j],
        decreases 7 - k,
    {
        if u.get_char(i + k) != pat.get_char(k) {
            proof {
                assert(u@.subrange(i as int, i as int + 7)[k as int] != "graphql"@[k as int]);
            }
            return false;
        }
        k += 1;
    }
    proof {
        assert(u@.subrange(i as int, i as int + 7) =~= "graphql"@);
    }
    true
}

/// Scans `u` for the substring "graphql".
pub fn contains_graphql(u: &str) -> (r: bool)
    ensures
        r == spec_contains_graphql(u@),
{
    let n = u.unicode_len();
    if n < 7 {
        return false;
    }
    let mut i: usize = 0;
    while i <= n - 7
        invariant
            0 <= i <= n - 7 + 1,
            n == u@.len(),
            n >= 7,
            forall|j: int| 0 <= j < i ==> #[trigger] u@.subrange(j, j + 7) != "graphql"@,
        decreases n - i,
    {
        if graphql_at(u, i) {
            return true;
        }
        i += 1;
    }
    false
}

} // verus!
