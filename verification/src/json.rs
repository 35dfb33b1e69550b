//! JSON text as the CLI writes it: strings quoted and escaped the way
//! `serde_json` writes them (`"` and `\` behind a backslash, the control
//! characters as `\b`, `\t`, `\n`, `\f`, `\r` or `\u00XX`, everything else as
//! it is), and arrays of strings.
use vstd::prelude::*;
use crate::text::{chars_of, push_char, push_str, sviews};

verus! {

/// A lowercase hexadecimal digit.
pub open spec fn hex_digit(n: nat) -> char {
    if n < 10 {
        (('0' as u32) + n) as char
    } else {
        (('a' as u32) + n - 10) as char
    }
}

/// One character inside a JSON string.
pub open spec fn json_char(c: char) -> Seq<char> {
    let u = c as u32;
    if c == '"' {
        seq!['\\', '"']
    } else if c == '\\' {
        seq!['\\', '\\']
    } else if u == 8 {
        seq!['\\', 'b']
    } else if u == 9 {
        seq!['\\', 't']
    } else if u == 10 {
        seq!['\\', 'n']
    } else if u == 12 {
        seq!['\\', 'f']
    } else if u == 13 {
        seq!['\\', 'r']
    } else if u < 0x20 {
        seq!['\\', 'u', '0', '0', hex_digit((u / 16) as nat), hex_digit((u % 16) as nat)]
    } else {
        seq![c]
    }
}

/// The characters of a text inside a JSON string.
pub open spec fn json_escape(s: Seq<char>) -> Seq<char>
    decreases s.len(),
{
    if s.len() == 0 {
        Seq::empty()
    } else {
        json_escape(s.drop_last()) + json_char(s.last())
    }
}

/// A text as a JSON string.
pub open spec fn json_string(s: Seq<char>) -> Seq<char> {
    seq!['"'] + json_escape(s) + seq!['"']
}

fn hex_char(n: u32) -> (c: char)
    requires
        n < 16,
    ensures
        c == hex_digit(n as nat),
{
    if n == 0 {
        '0'
    } else if n == 1 {
        '1'
    } else if n == 2 {
        '2'
    } else if n == 3 {
        '3'
    } else if n == 4 {
        '4'
    } else if n == 5 {
        '5'
    } else if n == 6 {
        '6'
    } else if n == 7 {
        '7'
    } else if n == 8 {
        '8'
    } else if n == 9 {
        '9'
    } else if n == 10 {
        'a'
    } else if n == 11 {
        'b'
    } else if n == 12 {
        'c'
    } else if n == 13 {
        'd'
    } else if n == 14 {
        'e'
    } else {
        'f'
    }
}

fn push_json_char(out: &mut String, c: char)
    ensures
        final(out)@ == old(out)@ + json_char(c),
{
    let u = c as u32;
    let ghost o = out@;
    if c == '"' {
        push_char(out, '\\');
        push_char(out, '"');
    } else if c == '\\' {
        push_char(out, '\\');
        push_char(out, '\\');
    } else if u == 8 {
        push_char(out, '\\');
        push_char(out, 'b');
    } else if u == 9 {
        push_char(out, '\\');
        push_char(out, 't');
    } else if u == 10 {
        push_char(out, '\\');
        push_char(out, 'n');
    } else if u == 12 {
        push_char(out, '\\');
        push_char(out, 'f');
    } else if u == 13 {
        push_char(out, '\\');
        push_char(out, 'r');
    } else if u < 0x20 {
        push_char(out, '\\');
        push_char(out, 'u');
        push_char(out, '0');
        push_char(out, '0');
        push_char(out, hex_char(u / 16));
        push_char(out, hex_char(u % 16));
    } else {
        push_char(out, c);
    }
    assert(out@ =~= o + json_char(c));
}

/// Appends `s` as a JSON string.
pub fn push_json_string(out: &mut String, s: &str)
    ensures
        final(out)@ == old(out)@ + json_string(s@),
{
    let ghost o = out@;
    let cs = chars_of(s);
    push_char(out, '"');
    let mut i: usize = 0;
    while i < cs.len()
        invariant
            i <= cs@.len(),
            cs@ == s@,
            out@ == o + seq!['"'] + json_escape(cs@.take(i as int)),
        decreases cs@.len() - i,
    {
        assert(cs@.take(i + 1).drop_last() =~= cs@.take(i as int));
        push_json_char(out, cs[i]);
        assert(out@ =~= o + seq!['"'] + json_escape(cs@.take(i + 1)));
        i = i + 1;
    }
    assert(cs@.take(cs@.len() as int) =~= cs@);
    push_char(out, '"');
    assert(out@ =~= o + json_string(s@));
}

/// The JSON strings of `xs`, separated by commas.
pub open spec fn json_string_items(xs: Seq<Seq<char>>) -> Seq<char>
    decreases xs.len(),
{
    if xs.len() == 0 {
        Seq::empty()
    } else if xs.len() == 1 {
        json_string(xs[0])
    } else {
        json_string_items(xs.drop_last()) + seq![','] + json_string(xs.last())
    }
}

/// A JSON array of strings, without spaces.
pub open spec fn json_string_array(xs: Seq<Seq<char>>) -> Seq<char> {
    seq!['['] + json_string_items(xs) + seq![']']
}

/// Appends `xs` as a JSON array of strings.
pub fn push_json_string_array(out: &mut String, xs: &Vec<String>)
    ensures
        final(out)@ == old(out)@ + json_string_array(sviews(xs@)),
{
    let ghost o = out@;
    let ghost xv = sviews(xs@);
    push_char(out, '[');
    let mut i: usize = 0;
    while i < xs.len()
        invariant
            i <= xs@.len(),
            xv == sviews(xs@),
            out@ == o + seq!['['] + json_string_items(xv.take(i as int)),
        decreases xs@.len() - i,
    {
        assert(xv.take(i + 1).drop_last() =~= xv.take(i as int));
        if i > 0 {
            push_char(out, ',');
        } else {
            assert(xv.take(0) =~= Seq::<Seq<char>>::empty());
        }
        push_json_string(out, xs[i].as_str());
        proof {
            assert(xv[i as int] == xs@[i as int]@);
            if i == 0 {
                assert(xv.take(1) =~= seq![xv[0]]);
            }
        }
        assert(out@ =~= o + seq!['['] + json_string_items(xv.take(i + 1)));
        i = i + 1;
    }
    assert(xv.take(xs@.len() as int) =~= xv);
    push_char(out, ']');
    assert(out@ =~= o + json_string_array(xv));
}

} // verus!
