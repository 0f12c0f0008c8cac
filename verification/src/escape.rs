//! The characters of an SGR escape sequence.
//!
//! A sequence that switches display attributes on is written as the two
//! characters ESC `[`, the attribute codes separated by `;`, and `m`.

use vstd::prelude::*;
use crate::color::RgbColor;
use crate::decimal::{decimal, decimal_string};

verus! {

/// The characters that open every escape sequence: ESC and `[`.
pub open spec fn introducer() -> Seq<char> {
    seq!['\x1b', '[']
}

/// The character that stands between two attribute codes.
pub open spec fn separator() -> Seq<char> {
    seq![';']
}

/// The character that closes an attribute sequence.
pub open spec fn terminator() -> Seq<char> {
    seq!['m']
}

/// The sequence that switches every attribute off: ESC `[` `0` `m`.
pub open spec fn reset() -> Seq<char> {
    seq!['\x1b', '[', '0', 'm']
}

/// The parts in order, with `sep` between each two neighbours.
pub open spec fn join(parts: Seq<Seq<char>>, sep: Seq<char>) -> Seq<char>
    decreases parts.len(),
{
    if parts.len() == 0 {
        Seq::empty()
    } else if parts.len() == 1 {
        parts[0]
    } else {
        join(parts.drop_last(), sep) + sep + parts.last()
    }
}

/// The attribute sequence with the given codes.
pub open spec fn attribute_sequence(codes: Seq<Seq<char>>) -> Seq<char> {
    introducer() + join(codes, separator()) + terminator()
}

/// The characters that start the code of a 24-bit foreground colour.
pub open spec fn fg_rgb_lead() -> Seq<char> {
    seq!['3', '8', ';', '2', ';']
}

/// The characters that start the code of a 24-bit background colour.
pub open spec fn bg_rgb_lead() -> Seq<char> {
    seq!['4', '8', ';', '2', ';']
}

/// The code of a 24-bit colour: the lead, then the three channels in
/// decimal, separated by `;`.
pub open spec fn rgb_code(lead: Seq<char>, c: RgbColor) -> Seq<char> {
    lead + decimal(c.r as nat) + separator() + decimal(c.g as nat) + separator() + decimal(
        c.b as nat,
    )
}

/// The contents of each string.
pub open spec fn contents(strings: Seq<String>) -> Seq<Seq<char>> {
    strings.map_values(|s: String| s@)
}

/// Writes the code of a 24-bit colour after the given lead.
pub fn rgb_code_string(lead: &str, c: RgbColor) -> (s: String)
    ensures
        s@ == rgb_code(lead@, c),
{
    proof {
        reveal_strlit(";");
        assert(";"@ == separator());
    }
    let mut s = String::from_str(lead);
    s.append(decimal_string(c.r).as_str());
    s.append(";");
    s.append(decimal_string(c.g).as_str());
    s.append(";");
    s.append(decimal_string(c.b).as_str());
    s
}

/// Joins the codes with `;` between each two neighbours.
pub fn join_codes(codes: &Vec<String>) -> (joined: String)
    ensures
        joined@ == join(contents(codes@), separator()),
{
    let ghost parts = contents(codes@);
    let mut joined = String::new();
    let mut i: usize = 0;
    while i < codes.len()
        invariant
            i <= codes.len(),
            parts == contents(codes@),
            joined@ == join(parts.take(i as int), separator()),
        decreases codes.len() - i,
    {
        proof {
            reveal_strlit(";");
            assert(";"@ == separator());
            assert(parts.take(i + 1).drop_last() == parts.take(i as int));
            assert(parts.take(i + 1).last() == codes[i as int]@);
        }
        if i > 0 {
            joined.append(";");
        }
        joined.append(codes[i].as_str());
        i += 1;
    }
    assert(parts.take(i as int) == parts);
    joined
}

} // verus!
