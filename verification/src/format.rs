//! Text rendering of register values: decimal and `0x`-prefixed hexadecimal
//! digits, and the bracketed, quoted line the read command prints.

use vstd::prelude::*;
use crate::registers::Presentation;

verus! {

/// The digit character for a value below sixteen.
pub open spec fn digit_char(d: int) -> char {
    if d == 0 {
        '0'
    } else if d == 1 {
        '1'
    } else if d == 2 {
        '2'
    } else if d == 3 {
        '3'
    } else if d == 4 {
        '4'
    } else if d == 5 {
        '5'
    } else if d == 6 {
        '6'
    } else if d == 7 {
        '7'
    } else if d == 8 {
        '8'
    } else if d == 9 {
        '9'
    } else if d == 10 {
        'a'
    } else if d == 11 {
        'b'
    } else if d == 12 {
        'c'
    } else if d == 13 {
        'd'
    } else if d == 14 {
        'e'
    } else {
        'f'
    }
}

/// The decimal digits of a non-negative value, most significant first, with
/// no leading zero except for the value zero itself.
pub open spec fn dec_digits(n: int) -> Seq<char>
    decreases n,
{
    if n < 10 {
        seq![digit_char(n)]
    } else {
        dec_digits(n / 10) + seq![digit_char(n % 10)]
    }
}

/// The hexadecimal digits of a non-negative value, most significant first,
/// lower case, with no leading zero except for the value zero itself.
pub open spec fn hex_digits(n: int) -> Seq<char>
    decreases n,
{
    if n < 16 {
        seq![digit_char(n)]
    } else {
        hex_digits(n / 16) + seq![digit_char(n % 16)]
    }
}

/// How one register value reads under a presentation: its decimal digits, or
/// `0x` followed by its hexadecimal digits.
pub open spec fn value_text(v: u16, p: Presentation) -> Seq<char> {
    match p {
        Presentation::Dec => dec_digits(v as int),
        Presentation::Hex => seq!['0', 'x'] + hex_digits(v as int),
    }
}

/// One value as it stands in the printed line: quoted.
pub open spec fn quoted_value_text(v: u16, p: Presentation) -> Seq<char> {
    seq!['"'] + value_text(v, p) + seq!['"']
}

/// The quoted values joined with a comma and a space, in order.
pub open spec fn joined_values_text(vs: Seq<u16>, p: Presentation) -> Seq<char>
    decreases vs.len(),
{
    if vs.len() == 0 {
        Seq::empty()
    } else if vs.len() == 1 {
        quoted_value_text(vs[0], p)
    } else {
        joined_values_text(vs.drop_last(), p) + seq![',', ' '] + quoted_value_text(vs.last(), p)
    }
}

/// The whole printed line for a read result: the joined quoted values inside
/// square brackets.
pub open spec fn rendered_line(vs: Seq<u16>, p: Presentation) -> Seq<char> {
    seq!['['] + joined_values_text(vs, p) + seq![']']
}

/// A list of texts joined with a separator, in order.
pub open spec fn joined_texts(parts: Seq<Seq<char>>, separator: Seq<char>) -> Seq<char>
    decreases parts.len(),
{
    if parts.len() == 0 {
        Seq::empty()
    } else if parts.len() == 1 {
        parts[0]
    } else {
        joined_texts(parts.drop_last(), separator) + separator + parts.last()
    }
}

/// The printed line of a read result holds exactly one quoted rendered text
/// per returned value, one for each, in request order, joined with a comma
/// and a space inside square brackets.
pub proof fn lemma_line_lists_values_in_order(vs: Seq<u16>, p: Presentation)
    ensures
        ({
            let parts = vs.map_values(|v: u16| quoted_value_text(v, p));
            parts.len() == vs.len() && (forall|i: int|
                0 <= i < vs.len() ==> parts[i] == quoted_value_text(vs[i], p))
                && joined_values_text(vs, p) == joined_texts(parts, seq![',', ' '])
                && rendered_line(vs, p) == seq!['['] + joined_texts(parts, seq![',', ' '])
                + seq![']']
        }),
    decreases vs.len(),
{
    let parts = vs.map_values(|v: u16| quoted_value_text(v, p));
    if vs.len() > 1 {
        lemma_line_lists_values_in_order(vs.drop_last(), p);
        let shorter = vs.drop_last().map_values(|v: u16| quoted_value_text(v, p));
        assert(parts.drop_last() =~= shorter);
        assert(parts.last() == quoted_value_text(vs.last(), p));
    }
}

/// The one-character string for a value below sixteen.
fn digit_str(d: u16) -> (r: &'static str)
    requires
        d < 16,
    ensures
        r@ =~= seq![digit_char(d as int)],
{
    if d == 0 {
        proof {
            reveal_strlit("0");
        }
        "0"
    } else if d == 1 {
        proof {
            reveal_strlit("1");
        }
        "1"
    } else if d == 2 {
        proof {
            reveal_strlit("2");
        }
        "2"
    } else if d == 3 {
        proof {
            reveal_strlit("3");
        }
        "3"
    } else if d == 4 {
        proof {
            reveal_strlit("4");
        }
        "4"
    } else if d == 5 {
        proof {
            reveal_strlit("5");
        }
        "5"
    } else if d == 6 {
        proof {
            reveal_strlit("6");
        }
        "6"
    } else if d == 7 {
        proof {
            reveal_strlit("7");
        }
        "7"
    } else if d == 8 {
        proof {
            reveal_strlit("8");
        }
        "8"
    } else if d == 9 {
        proof {
            reveal_strlit("9");
        }
        "9"
    } else if d == 10 {
        proof {
            reveal_strlit("a");
        }
        "a"
    } else if d == 11 {
        proof {
            reveal_strlit("b");
        }
        "b"
    } else if d == 12 {
        proof {
            reveal_strlit("c");
        }
        "c"
    } else if d == 13 {
        proof {
            reveal_strlit("d");
        }
        "d"
    } else if d == 14 {
        proof {
            reveal_strlit("e");
        }
        "e"
    } else {
        proof {
            reveal_strlit("f");
        }
        "f"
    }
}

/// The decimal digits of a value as a string.
pub fn dec_string(n: u16) -> (r: String)
    ensures
        r@ == dec_digits(n as int),
    decreases n,
{
    if n < 10 {
        String::from_str(digit_str(n))
    } else {
        let mut s = dec_string(n / 10);
        s.append(digit_str(n % 10));
        s
    }
}

/// The hexadecimal digits of a value as a string, without a prefix.
pub fn hex_string(n: u16) -> (r: String)
    ensures
        r@ == hex_digits(n as int),
    decreases n,
{
    if n < 16 {
        String::from_str(digit_str(n))
    } else {
        let mut s = hex_string(n / 16);
        s.append(digit_str(n % 16));
        s
    }
}

/// One register value rendered under the requested presentation.
pub fn format_value(v: u16, p: Presentation) -> (r: String)
    ensures
        r@ == value_text(v, p),
{
    match p {
        Presentation::Dec => dec_string(v),
        Presentation::Hex => {
            proof {
                reveal_strlit("0x");
            }
            let mut s = String::from_str("0x");
            assert(s@ =~= seq!['0', 'x']);
            let digits = hex_string(v);
            s.append(digits.as_str());
            assert(s@ =~= seq!['0', 'x'] + hex_digits(v as int));
            s
        },
    }
}

/// The whole line the read command prints: every value of the result, in
/// order, quoted, joined with commas, inside square brackets.
pub fn format_registers(values: &Vec<u16>, p: Presentation) -> (r: String)
    ensures
        r@ == rendered_line(values@, p),
{
    proof {
        reveal_strlit("[");
        reveal_strlit("]");
        reveal_strlit(", ");
        reveal_strlit("\"");
    }
    let mut s = String::from_str("[");
    assert(s@ =~= seq!['['] + joined_values_text(values@.take(0), p));
    let n: usize = values.len();
    let mut i: usize = 0;
    while i < n
        invariant
            i <= n,
            n == values@.len(),
            s@ == seq!['['] + joined_values_text(values@.take(i as int), p),
        decreases n - i,
    {
        proof {
            reveal_strlit(", ");
            reveal_strlit("\"");
        }
        if i > 0 {
            s.append(", ");
        }
        s.append("\"");
        let value = format_value(values[i], p);
        s.append(value.as_str());
        s.append("\"");
        proof {
            let prefix = values@.take(i as int);
            let extended = values@.take(i + 1 as int);
            assert(extended.drop_last() =~= prefix);
            assert(extended.last() == values@[i as int]);
            if i == 0 {
                assert(s@ =~= seq!['['] + joined_values_text(extended, p));
            } else {
                assert(joined_values_text(extended, p) == joined_values_text(prefix, p)
                    + seq![',', ' '] + quoted_value_text(values@[i as int], p));
                assert(s@ =~= seq!['['] + joined_values_text(extended, p));
            }
        }
        i = i + 1;
    }
    s.append("]");
    proof {
        assert(values@.take(n as int) =~= values@);
        assert(s@ =~= rendered_line(values@, p));
    }
    s
}

} // verus!
