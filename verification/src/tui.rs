//! `crepus tui`: which subcommand the arguments ask for, the manifest of a
//! new TUI app, and the `key = value` context files that `crepus tui preview`
//! loads next to a template, with the quote stripping their string values get.
use vstd::prelude::*;
use crate::num::{parse_i64, spec_parse_i64};
use crate::text::{
    str_eq, to_owned_string, chars_of, index_of_char, lemma_index_of_char, string_from_range, trim, trim_bounds,
};

verus! {

/// `s` without one matching pair of outer `"` or `'` quotes.
pub open spec fn spec_strip_one_outer_quote_pair(s: Seq<char>) -> Seq<char> {
    if s.len() >= 2 && ((s[0] == '"' && s.last() == '"') || (s[0] == '\'' && s.last() == '\'')) {
        s.subrange(1, s.len() - 1)
    } else {
        s
    }
}

/// Strip exactly one matching pair of `"`/`'` quotes from the outside of `s`;
/// quotes repeated inside stay.
pub fn strip_one_outer_quote_pair(s: &str) -> (r: &str)
    ensures
        r@ == spec_strip_one_outer_quote_pair(s@),
{
    let n = s.unicode_len();
    if n >= 2 {
        let first = s.get_char(0);
        let last = s.get_char(n - 1);
        if (first == '"' && last == '"') || (first == '\'' && last == '\'') {
            return s.substring_char(1, n - 1);
        }
    }
    s
}

/// A context value as far as the library reads it: the literals `true` and
/// `false`, a 64-bit integer, or other text (which the caller may read as a
/// float, and else as a string without its outer quotes).
#[derive(Debug, PartialEq, Eq)]
pub enum ContextValue {
    Bool(bool),
    Int(i64),
    Text(String),
}

pub open spec fn spec_classify(val: Seq<char>) -> (Seq<char>, Option<bool>, Option<i64>) {
    if val == "true"@ {
        (val, Some(true), None)
    } else if val == "false"@ {
        (val, Some(false), None)
    } else {
        (val, None, spec_parse_i64(val))
    }
}

/// Whether `v` is the value `spec_classify` reads from `val`.
pub open spec fn classified_as(v: ContextValue, val: Seq<char>) -> bool {
    match spec_classify(val) {
        (_, Some(b), _) => v == ContextValue::Bool(b),
        (_, None, Some(n)) => v == ContextValue::Int(n),
        (_, None, None) => v matches ContextValue::Text(t) && t@ == val,
    }
}

/// Reads a value: `true`, `false`, an `i64`, or else the text itself.
pub fn classify_value(val: &str) -> (r: ContextValue)
    ensures
        classified_as(r, val@),
{
    proof {
        reveal_strlit("true");
        reveal_strlit("false");
    }
    let cs = chars_of(val);
    if cs.len() == 4 && cs[0] == 't' && cs[1] == 'r' && cs[2] == 'u' && cs[3] == 'e' {
        assert(val@ =~= "true"@);
        return ContextValue::Bool(true);
    }
    if cs.len() == 5 && cs[0] == 'f' && cs[1] == 'a' && cs[2] == 'l' && cs[3] == 's' && cs[4]
        == 'e' {
        assert(val@ =~= "false"@);
        return ContextValue::Bool(false);
    }
    match parse_i64(val) {
        Some(n) => ContextValue::Int(n),
        None => ContextValue::Text(String::from_str(val)),
    }
}

/// What one line of a context file holds: nothing for a blank line, a
/// comment (`#` after trimming) or a line without `=`; else the trimmed key
/// before the first `=` and the trimmed value after it.
pub open spec fn spec_context_line(line: Seq<char>) -> Option<(Seq<char>, Seq<char>)> {
    let t = trim(line);
    if t.len() == 0 || t[0] == '#' {
        None
    } else {
        let e = index_of_char(t, '=');
        if e >= t.len() {
            None
        } else {
            Some((trim(t.take(e)), trim(t.skip(e + 1))))
        }
    }
}

/// Parses one context line into its key and value.
pub fn parse_context_line(line: &str) -> (r: Option<(String, ContextValue)>)
    ensures
        match (r, spec_context_line(line@)) {
            (Some((k, v)), Some((sk, sv))) => k@ == sk && classified_as(v, sv),
            (None, None) => true,
            _ => false,
        },
{
    let cs = chars_of(line);
    let (a, b) = trim_bounds(&cs, 0, cs.len());
    let ghost t = trim(line@);
    assert(cs@.subrange(0, cs@.len() as int) =~= cs@);
    if a == b || cs[a] == '#' {
        return None;
    }
    let mut e = a;
    while e < b && cs[e] != '='
        invariant
            a <= e <= b <= cs@.len(),
            forall|j: int| a <= j < e ==> cs@[j] != '=',
        decreases b - e,
    {
        e = e + 1;
    }
    proof {
        assert(t == cs@.subrange(a as int, b as int));
        assert forall|j: int| 0 <= j < e - a implies #[trigger] t[j] != '=' by {
            assert(t[j] == cs@[a + j]);
        }
        if e < b {
            assert(t[e - a] == cs@[e as int]);
        }
        lemma_index_of_char(t, '=', e - a);
    }
    if e == b {
        return None;
    }
    let (ka, kb) = trim_bounds(&cs, a, e);
    let (va, vb) = trim_bounds(&cs, e + 1, b);
    proof {
        assert(t.take(e - a) =~= cs@.subrange(a as int, e as int));
        assert(t.skip(e - a + 1) =~= cs@.subrange(e + 1, b as int));
    }
    let key = string_from_range(&cs, ka, kb);
    let val = string_from_range(&cs, va, vb);
    let v = classify_value(val.as_str());
    Some((key, v))
}

/// The entries of the lines `ls`, in order: each line that holds one.
pub open spec fn context_entries(ls: Seq<Seq<char>>) -> Seq<(Seq<char>, Seq<char>)>
    decreases ls.len(),
{
    if ls.len() == 0 {
        Seq::empty()
    } else {
        let rest = context_entries(ls.drop_last());
        match spec_context_line(ls.last()) {
            Some(e) => rest.push(e),
            None => rest,
        }
    }
}

/// All `key = value` entries of a context file, in order.
pub fn parse_context_lines(content: &str) -> (r: Vec<(String, ContextValue)>)
    ensures
        r@.len() == context_entries(crate::text::lines(content@)).len(),
        forall|i: int|
            0 <= i < r@.len() ==> {
                let e = context_entries(crate::text::lines(content@))[i];
                &&& (#[trigger] r@[i]).0@ == e.0
                &&& classified_as(r@[i].1, e.1)
            },
{
    let ls = crate::text::lines_of(content);
    let ghost sl = crate::text::lines(content@);
    let mut out: Vec<(String, ContextValue)> = Vec::new();
    let mut i: usize = 0;
    while i < ls.len()
        invariant
            ls@.len() == sl.len(),
            forall|j: int| 0 <= j < ls@.len() ==> #[trigger] ls@[j]@ == sl[j],
            i <= ls@.len(),
            out@.len() == context_entries(sl.take(i as int)).len(),
            forall|j: int|
                0 <= j < out@.len() ==> {
                    let e = context_entries(sl.take(i as int))[j];
                    &&& (#[trigger] out@[j]).0@ == e.0
                    &&& classified_as(out@[j].1, e.1)
                },
        decreases ls@.len() - i,
    {
        let parsed = parse_context_line(ls[i].as_str());
        proof {
            assert(sl.take(i + 1).drop_last() =~= sl.take(i as int));
            assert(sl.take(i + 1).last() == sl[i as int]);
        }
        match parsed {
            Some(entry) => {
                out.push(entry);
            },
            None => {},
        }
        i = i + 1;
    }
    assert(sl.take(sl.len() as int) =~= sl);
    out
}


// ── subcommands ────────────────────────────────────────────────────────────

/// What `crepus tui <args>` does.
#[derive(Clone, Debug, PartialEq, Eq)]
pub enum TuiAction {
    /// Scaffold a new app in a directory of that name.
    New(String),
    Build { release: bool },
    Run,
    /// Live-preview the template at that path.
    Preview(String),
    Usage,
}

pub open spec fn has_flag(args: Seq<String>, flag: Seq<char>) -> bool {
    exists|i: int| 0 <= i < args.len() && #[trigger] args[i]@ == flag
}

/// The action of `crepus tui`, or the usage line of a subcommand that lacks
/// its argument.
pub open spec fn spec_tui_action(args: Seq<String>) -> Result<TuiAction, Seq<char>> {
    if args.len() == 0 {
        Ok(TuiAction::Usage)
    } else if args[0]@ == "new"@ {
        if args.len() >= 2 {
            Ok(TuiAction::New(args[1]))
        } else {
            Err("Usage: crepus tui new <name>"@)
        }
    } else if args[0]@ == "build"@ {
        Ok(TuiAction::Build { release: has_flag(args, "--release"@) })
    } else if args[0]@ == "run"@ {
        Ok(TuiAction::Run)
    } else if args[0]@ == "preview"@ {
        if args.len() >= 2 {
            Ok(TuiAction::Preview(args[1]))
        } else {
            Err("Usage: crepus tui preview <file.crepus>"@)
        }
    } else {
        Ok(TuiAction::Usage)
    }
}

fn any_flag(args: &Vec<String>, flag: &str) -> (r: bool)
    ensures
        r == has_flag(args@, flag@),
{
    let mut i: usize = 0;
    while i < args.len()
        invariant
            i <= args@.len(),
            forall|j: int| 0 <= j < i ==> args@[j]@ != flag@,
        decreases args@.len() - i,
    {
        if str_eq(args[i].as_str(), flag) {
            return true;
        }
        i = i + 1;
    }
    false
}

/// Reads the arguments of `crepus tui`.
pub fn run(args: &Vec<String>) -> (r: Result<TuiAction, String>)
    ensures
        match (r, spec_tui_action(args@)) {
            (Ok(a), Ok(w)) => a == w,
            (Err(m), Err(w)) => m@ == w,
            _ => false,
        },
{
    if args.len() == 0 {
        return Ok(TuiAction::Usage);
    }
    let first = args[0].as_str();
    if str_eq(first, "new") {
        if args.len() >= 2 {
            Ok(TuiAction::New(args[1].clone()))
        } else {
            Err(to_owned_string("Usage: crepus tui new <name>"))
        }
    } else if str_eq(first, "build") {
        Ok(TuiAction::Build { release: any_flag(args, "--release") })
    } else if str_eq(first, "run") {
        Ok(TuiAction::Run)
    } else if str_eq(first, "preview") {
        if args.len() >= 2 {
            Ok(TuiAction::Preview(args[1].clone()))
        } else {
            Err(to_owned_string("Usage: crepus tui preview <file.crepus>"))
        }
    } else {
        Ok(TuiAction::Usage)
    }
}


/// One pair of matching outer quotes comes off, and only one: a text wrapped
/// in `"` or `'` gives back exactly that text, quotes inside it included.
pub proof fn law_strip_wrapped(x: Seq<char>)
    ensures
        spec_strip_one_outer_quote_pair(seq!['"'] + x + seq!['"']) == x,
        spec_strip_one_outer_quote_pair(seq!['\''] + x + seq!['\'']) == x,
{
    assert((seq!['"'] + x + seq!['"']).subrange(1, x.len() + 1 as int) =~= x);
    assert((seq!['\''] + x + seq!['\'']).subrange(1, x.len() + 1 as int) =~= x);
}

/// The `Cargo.toml` of a new TUI app named `name`.
pub open spec fn spec_tui_cargo_toml(name: Seq<char>) -> Seq<char> {
    "[package]\nname = \""@ + name + "\"\nversion = \"0.1.0\"\nedition = \"2021\"\n\n[dependencies]\ncrepuscularity-runtime = { path = \"../../crates/crepuscularity-runtime\" }\nratatui = { version = \"0.29\", default-features = false, features = [\"crossterm\"] }\ncrossterm = \"0.28\"\nanyhow = \"1.0\"\ntokio = { version = \"1.0\", features = [\"full\"] }\n"@
}

pub fn tui_cargo_toml(name: &str) -> (r: String)
    ensures
        r@ == spec_tui_cargo_toml(name@),
{
    let mut s = to_owned_string("[package]\nname = \"");
    crate::text::push_str(&mut s, name);
    crate::text::push_str(
        &mut s,
        "\"\nversion = \"0.1.0\"\nedition = \"2021\"\n\n[dependencies]\ncrepuscularity-runtime = { path = \"../../crates/crepuscularity-runtime\" }\nratatui = { version = \"0.29\", default-features = false, features = [\"crossterm\"] }\ncrossterm = \"0.28\"\nanyhow = \"1.0\"\ntokio = { version = \"1.0\", features = [\"full\"] }\n",
    );
    s
}

} // verus!
