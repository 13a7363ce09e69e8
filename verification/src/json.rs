//! A small verified JSON emitter: exactly the fragments the client's request
//! bodies are made of. Every exec builder is specified against a spec-level
//! rendering, so each operation can state the precise bytes it puts on the
//! wire.

use vstd::prelude::*;
use crate::text::dec_digit_char;

verus! {

/// The lower-case hexadecimal digit character for `d` (`d < 16`).
pub open spec fn hex_digit_char(d: nat) -> char {
    if d < 10 {
        dec_digit_char(d)
    } else if d == 10 {
        'a'
    } else if d == 11 {
        'b'
    } else if d == 12 {
        'c'
    } else if d == 13 {
        'd'
    } else if d == 14 {
        'e'
    } else {
        'f'
    }
}

/// How a single character is rendered inside a JSON string literal.
pub open spec fn json_escape_char(c: char) -> Seq<char> {
    if c == '"' {
        "\\\""@
    } else if c == '\\' {
        "\\\\"@
    } else if c == '\n' {
        "\\n"@
    } else if c == '\r' {
        "\\r"@
    } else if c == '\t' {
        "\\t"@
    } else if (c as u32) < 32 {
        "\\u00"@ + seq![hex_digit_char((c as u32 / 16) as nat), hex_digit_char((c as u32 % 16) as nat)]
    } else {
        seq![c]
    }
}

/// The body of a JSON string literal: every character escaped as needed.
pub open spec fn json_escaped(s: Seq<char>) -> Seq<char>
    decreases s.len(),
{
    if s.len() == 0 {
        Seq::empty()
    } else {
        json_escaped(s.drop_last()) + json_escape_char(s.last())
    }
}

/// A complete JSON string literal, quotes included.
pub open spec fn json_string(s: Seq<char>) -> Seq<char> {
    "\""@ + json_escaped(s) + "\""@
}

fn append_hex_digit(out: &mut String, d: u32)
    requires
        d < 16,
    ensures
        final(out)@ == old(out)@ + seq![hex_digit_char(d as nat)],
{
    if d < 10 {
        crate::text::append_digit(out, d as usize);
    } else {
        match d {
            10 => {
                proof {
                    reveal_strlit("a");
                }
                out.append("a");
            },
            11 => {
                proof {
                    reveal_strlit("b");
                }
                out.append("b");
            },
            12 => {
                proof {
                    reveal_strlit("c");
                }
                out.append("c");
            },
            13 => {
                proof {
                    reveal_strlit("d");
                }
                out.append("d");
            },
            14 => {
                proof {
                    reveal_strlit("e");
                }
                out.append("e");
            },
            _ => {
                proof {
                    reveal_strlit("f");
                }
                out.append("f");
            },
        }
        proof {
            assert(final(out)@ =~= old(out)@ + seq![hex_digit_char(d as nat)]);
        }
    }
}

/// Appends the JSON string literal for `s`, quoting and escaping it.
pub fn append_json_string(out: &mut String, s: &str)
    ensures
        final(out)@ == old(out)@ + json_string(s@),
{
    let ghost orig: Seq<char> = out@;
    out.append("\"");
    let n = s.unicode_len();
    let mut i: usize = 0;
    while i < n
        invariant
            0 <= i <= n,
            n == s@.len(),
            out@ == orig + "\""@ + json_escaped(s@.subrange(0, i as int)),
        decreases n - i,
    {
        let c = s.get_char(i);
        if c == '"' {
            out.append("\\\"");
        } else if c == '\\' {
            out.append("\\\\");
        } else if c == '\n' {
            out.append("\\n");
        } else if c == '\r' {
            out.append("\\r");
        } else if c == '\t' {
            out.append("\\t");
        } else if (c as u32) < 32 {
            out.append("\\u00");
            let v = c as u32;
            append_hex_digit(out, v / 16);
            append_hex_digit(out, v % 16);
        } else {
            let piece = s.substring_char(i, i + 1);
            proof {
                assert(piece@ =~= seq![c]);
            }
            out.append(piece);
        }
        proof {
            assert(s@.subrange(0, i + 1).drop_last() =~= s@.subrange(0, i as int));
            assert(s@.subrange(0, i + 1).last() == c);
            assert(out@ =~= orig + "\""@ + json_escaped(s@.subrange(0, i + 1)));
        }
        i += 1;
    }
    out.append("\"");
    proof {
        assert(s@.subrange(0, n as int) =~= s@);
        assert(final(out)@ =~= orig + json_string(s@));
    }
}

/// The comma-separated join of already-rendered fragments.
pub open spec fn join_comma(items: Seq<Seq<char>>) -> Seq<char>
    decreases items.len(),
{
    if items.len() == 0 {
        Seq::empty()
    } else if items.len() == 1 {
        items[0]
    } else {
        join_comma(items.drop_last()) + ","@ + items.last()
    }
}

/// Appends the fragments in `items`, separated by commas.
pub fn append_join_comma(out: &mut String, items: &Vec<String>)
    ensures
        final(out)@ == old(out)@ + join_comma(items.deep_view()),
{
    let ghost orig: Seq<char> = out@;
    let ghost dv: Seq<Seq<char>> = items.deep_view();
    let mut i: usize = 0;
    while i < items.len()
        invariant
            0 <= i <= items.len(),
            dv == items.deep_view(),
            dv.len() == items@.len(),
            forall|j: int| 0 <= j < items@.len() ==> dv[j] == items@[j]@,
            out@ == orig + join_comma(dv.subrange(0, i as int)),
        decreases items.len() - i,
    {
        if i > 0 {
            out.append(",");
        }
        out.append(items[i].as_str());
        proof {
            assert(dv.subrange(0, i + 1).drop_last() =~= dv.subrange(0, i as int));
            assert(dv.subrange(0, i + 1).last() == dv[i as int]);
            assert(out@ =~= orig + join_comma(dv.subrange(0, i + 1)));
        }
        i += 1;
    }
    proof {
        assert(dv.subrange(0, items@.len() as int) =~= dv);
    }
}

/// A JSON array of string literals.
pub open spec fn json_string_array(items: Seq<Seq<char>>) -> Seq<char> {
    "["@ + join_comma(items.map_values(|s: Seq<char>| json_string(s))) + "]"@
}

/// Appends the JSON array whose elements are the strings in `items`.
pub fn append_json_string_array(out: &mut String, items: &Vec<String>)
    ensures
        final(out)@ == old(out)@ + json_string_array(items.deep_view()),
{
    let ghost dv: Seq<Seq<char>> = items.deep_view();
    let mut rendered: Vec<String> = Vec::new();
    let mut i: usize = 0;
    while i < items.len()
        invariant
            0 <= i <= items.len(),
            dv == items.deep_view(),
            dv.len() == items@.len(),
            forall|j: int| 0 <= j < items@.len() ==> dv[j] == items@[j]@,
            rendered@.len() == i,
            forall|j: int| 0 <= j < i ==> rendered@[j]@ == json_string(dv[j]),
        decreases items.len() - i,
    {
        let mut piece = String::new();
        append_json_string(&mut piece, items[i].as_str());
        rendered.push(piece);
        i += 1;
    }
    out.append("[");
    proof {
        let mapped = dv.map_values(|s: Seq<char>| json_string(s));
        assert forall|j: int| 0 <= j < rendered@.len() implies rendered.deep_view()[j]
            == mapped[j] by {
            assert(rendered.deep_view()[j] == rendered@[j]@);
        }
        assert(rendered.deep_view() =~= mapped);
    }
    append_join_comma(out, &rendered);
    out.append("]");
    proof {
        assert(final(out)@ =~= old(out)@ + json_string_array(dv));
    }
}

/// The JSON rendering of a boolean.
pub open spec fn json_bool(b: bool) -> Seq<char> {
    if b {
        "true"@
    } else {
        "false"@
    }
}

/// Appends `true` or `false`.
pub fn append_json_bool(out: &mut String, b: bool)
    ensures
        final(out)@ == old(out)@ + json_bool(b),
{
    if b {
        out.append("true");
    } else {
        out.append("false");
    }
}

} // verus!
