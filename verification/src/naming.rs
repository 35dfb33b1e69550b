//! Names derived from user input: PascalCase type names, capitalised words,
//! directory slugs and app target names.
use vstd::prelude::*;
use crate::text::{
    char_is_alphanumeric, char_to_uppercase, chars_of, push_char, push_seq, push_str,
    is_ascii_lower, spec_char_upper, spec_is_alphanumeric, spec_str_lower, str_eq, str_to_lowercase,
};

verus! {

/// The separators between the words of a name.
pub open spec fn is_name_sep(c: char) -> bool {
    c == '-' || c == '_' || c == ' '
}

/// PascalCase of `s` from a point where a word starts (`at_start`) or not:
/// separators vanish and the first character of each word is uppercased.
pub open spec fn pascal_from(s: Seq<char>, at_start: bool) -> Seq<char>
    decreases s.len(),
{
    if s.len() == 0 {
        Seq::empty()
    } else if is_name_sep(s[0]) {
        pascal_from(s.drop_first(), true)
    } else if at_start {
        spec_char_upper(s[0]) + pascal_from(s.drop_first(), false)
    } else {
        seq![s[0]] + pascal_from(s.drop_first(), false)
    }
}

/// The words of `s` (split at `-`, `_` and space, empty words dropped), each
/// with its first character uppercased, concatenated.
pub open spec fn spec_to_pascal_case(s: Seq<char>) -> Seq<char> {
    pascal_from(s, true)
}

pub fn to_pascal_case(s: &str) -> (r: String)
    ensures
        r@ == spec_to_pascal_case(s@),
{
    let cs = chars_of(s);
    let mut out = String::new();
    let mut at_start = true;
    let mut i: usize = 0;
    assert(cs@.skip(0) =~= cs@);
    while i < cs.len()
        invariant
            i <= cs@.len(),
            cs@ == s@,
            out@ + pascal_from(cs@.skip(i as int), at_start) == spec_to_pascal_case(s@),
        decreases cs@.len() - i,
    {
        let c = cs[i];
        let ghost rest = cs@.skip(i as int);
        assert(rest.drop_first() =~= cs@.skip(i + 1));
        if c == '-' || c == '_' || c == ' ' {
            at_start = true;
        } else if at_start {
            let up = char_to_uppercase(c);
            push_seq(&mut out, &up);
            at_start = false;
            assert(out@ + pascal_from(cs@.skip(i + 1), at_start) =~= spec_to_pascal_case(s@));
        } else {
            push_char(&mut out, c);
            assert(out@ + pascal_from(cs@.skip(i + 1), at_start) =~= spec_to_pascal_case(s@));
        }
        i = i + 1;
    }
    assert(cs@.skip(i as int) =~= Seq::<char>::empty());
    assert(out@ + pascal_from(cs@.skip(i as int), at_start) =~= out@);
    out
}

/// `s` with its first character uppercased.
pub open spec fn spec_capitalize(s: Seq<char>) -> Seq<char> {
    if s.len() == 0 {
        s
    } else {
        spec_char_upper(s[0]) + s.drop_first()
    }
}

/// Uppercases the first character (`debug` becomes `Debug`): an ASCII
/// lowercase letter becomes its capital, any other ASCII character stays.
pub fn capitalize_ascii(s: &str) -> (r: String)
    ensures
        r@ == spec_capitalize(s@),
        s@.len() > 0 && is_ascii_lower(s@[0]) ==> r@ == seq![((s@[0] as u32) - 32) as char] + s@.drop_first(),
        s@.len() > 0 && (s@[0] as u32) < 128 && !is_ascii_lower(s@[0]) ==> r@ == s@,
        s@.len() == 0 ==> r@.len() == 0,
{
    let cs = chars_of(s);
    let mut out = String::new();
    if cs.len() == 0 {
        return out;
    }
    let up = char_to_uppercase(cs[0]);
    push_seq(&mut out, &up);
    let mut i: usize = 1;
    while i < cs.len()
        invariant
            1 <= i <= cs@.len(),
            out@ == spec_char_upper(cs@[0]) + cs@.subrange(1, i as int),
        decreases cs@.len() - i,
    {
        push_char(&mut out, cs[i]);
        i = i + 1;
        assert(out@ =~= spec_char_upper(cs@[0]) + cs@.subrange(1, i as int));
    }
    assert(cs@.subrange(1, cs@.len() as int) =~= s@.drop_first());
    proof {
        if (s@[0] as u32) < 128 && !is_ascii_lower(s@[0]) {
            assert(s@ =~= seq![s@[0]] + s@.drop_first());
        }
    }
    out
}

/// The directory name `crepus moonshine new` creates: the lowercased name
/// with every character that is not alphanumeric replaced by `-`.
pub open spec fn spec_slug(name: Seq<char>) -> Seq<char> {
    spec_str_lower(name).map_values(
        |c: char|
            if spec_is_alphanumeric(c) {
                c
            } else {
                '-'
            },
    )
}

pub fn slug(name: &str) -> (r: String)
    ensures
        r@ == spec_slug(name@),
{
    let lower = str_to_lowercase(name);
    let cs = chars_of(lower.as_str());
    let mut out = String::new();
    let mut i: usize = 0;
    while i < cs.len()
        invariant
            i <= cs@.len(),
            cs@ == spec_str_lower(name@),
            out@ == cs@.subrange(0, i as int).map_values(
                |c: char|
                    if spec_is_alphanumeric(c) {
                        c
                    } else {
                        '-'
                    },
            ),
        decreases cs@.len() - i,
    {
        let c = cs[i];
        if char_is_alphanumeric(c) {
            push_char(&mut out, c);
        } else {
            push_char(&mut out, '-');
        }
        i = i + 1;
        assert(out@ =~= cs@.subrange(0, i as int).map_values(
            |c: char|
                if spec_is_alphanumeric(c) {
                    c
                } else {
                    '-'
                },
        ));
    }
    assert(cs@.subrange(0, cs@.len() as int) =~= cs@);
    out
}

/// The Xcode app target for a PascalCase name: `<Name>App`, except that
/// `NativeShell` (the package's own name) becomes `NativeShellHostApp`.
pub open spec fn spec_app_target_name(pascal: Seq<char>) -> Seq<char> {
    if pascal == "NativeShell"@ {
        "NativeShellHostApp"@
    } else {
        pascal + "App"@
    }
}

pub fn app_target_name(pascal: &str) -> (r: String)
    ensures
        r@ == spec_app_target_name(pascal@),
{
    if str_eq(pascal, "NativeShell") {
        String::from_str("NativeShellHostApp")
    } else {
        let mut out = String::from_str(pascal);
        push_str(&mut out, "App");
        out
    }
}


/// Inside a word nothing changes: with no separator in `s`, `pascal_from`
/// copies `s` from a point past the word's start.
proof fn lemma_pascal_keeps_tail(s: Seq<char>)
    requires
        forall|j: int| 0 <= j < s.len() ==> !is_name_sep(#[trigger] s[j]),
    ensures
        pascal_from(s, false) == s,
    decreases s.len(),
{
    if s.len() > 0 {
        lemma_pascal_keeps_tail(s.drop_first());
        assert(seq![s[0]] + s.drop_first() =~= s);
    }
}

/// A separator ends a word: what comes before it and what comes after it
/// are converted on their own, the separator itself vanishing.
proof fn lemma_pascal_splits_at_sep(a: Seq<char>, c: char, b: Seq<char>, at_start: bool)
    requires
        is_name_sep(c),
    ensures
        pascal_from(a + seq![c] + b, at_start) == pascal_from(a, at_start) + pascal_from(b, true),
    decreases a.len(),
{
    if a.len() == 0 {
        assert(a + seq![c] + b =~= seq![c] + b);
        assert((seq![c] + b).drop_first() =~= b);
    } else {
        assert((a + seq![c] + b).drop_first() =~= a.drop_first() + seq![c] + b);
        assert((a + seq![c] + b)[0] == a[0]);
        lemma_pascal_splits_at_sep(a.drop_first(), c, b, true);
        lemma_pascal_splits_at_sep(a.drop_first(), c, b, false);
    }
}

/// PascalCase of a single word uppercases its first character and keeps
/// the rest exactly as written ("myApp" becomes "MyApp"); the words of a
/// name split at a separator are converted one by one and joined, the
/// separator dropped.
pub proof fn law_pascal_case_capitalizes_each_word(s: Seq<char>, a: Seq<char>, c: char, b: Seq<char>)
    ensures
        s.len() > 0 && (forall|j: int| 0 <= j < s.len() ==> !is_name_sep(#[trigger] s[j]))
            ==> spec_to_pascal_case(s) == spec_char_upper(s[0]) + s.drop_first(),
        is_name_sep(c) ==> spec_to_pascal_case(a + seq![c] + b) == spec_to_pascal_case(a) + spec_to_pascal_case(b),
{
    if s.len() > 0 && (forall|j: int| 0 <= j < s.len() ==> !is_name_sep(#[trigger] s[j])) {
        assert(!is_name_sep(s[0]));
        assert forall|j: int| 0 <= j < s.drop_first().len() implies !is_name_sep(#[trigger] s.drop_first()[j]) by {
            assert(s.drop_first()[j] == s[j + 1]);
        }
        lemma_pascal_keeps_tail(s.drop_first());
    }
    if is_name_sep(c) {
        lemma_pascal_splits_at_sep(a, c, b, true);
    }
}

} // verus!
