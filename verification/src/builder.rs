//! The cargo side of the desktop dev loop: what a line of
//! `cargo build --message-format=json-diagnostic-rendered-ansi` does to the
//! outcome of a build, and which binary a crate runs after it is built.
//! Running cargo and reading its output is left to the caller.
use vstd::prelude::*;
use crate::events::BuildError;
use crate::text::{
    chars_of, index_of_char, opt_view, lemma_index_of_char, lines, lines_of, starts_with, starts_with_str, str_eq,
    string_from_range, to_owned_string, trim, trim_bounds, trim_char, trim_char_bounds, trim_string,
};

verus! {

/// A source span of a compiler message.
#[derive(Clone, Debug, PartialEq, Eq)]
pub struct MsgSpan {
    pub file_name: String,
    pub line_start: u32,
}

/// The compiler message of a `compiler-message` line.
#[derive(Clone, Debug, PartialEq, Eq)]
pub struct CompilerMsg {
    pub level: String,
    pub message: String,
    pub rendered: Option<String>,
    pub spans: Vec<MsgSpan>,
}

/// One line of cargo's JSON output, as far as the build reads it.
#[derive(Clone, Debug, PartialEq, Eq)]
pub struct CargoLine {
    pub reason: String,
    pub message: Option<CompilerMsg>,
    pub success: Option<bool>,
}

/// What a build came to: whether cargo reported success, and the errors in
/// the order cargo gave them.
#[derive(Clone, Debug, PartialEq, Eq)]
pub struct BuildOutcome {
    pub success: bool,
    pub errors: Vec<BuildError>,
}

/// The build error of an `error` message: its level, text and rendering, at
/// the file and line of its first span (an empty file and line 0 without one).
pub open spec fn is_error_of(e: BuildError, cm: CompilerMsg) -> bool {
    &&& e.level == cm.level
    &&& e.message == cm.message
    &&& e.rendered == cm.rendered
    &&& if cm.spans@.len() > 0 {
        e.file == cm.spans@[0].file_name && e.line == cm.spans@[0].line_start
    } else {
        e.file@ == Seq::<char>::empty() && e.line == 0
    }
}

impl BuildOutcome {
    /// The outcome before cargo said anything: no success, no error.
    pub fn new() -> (r: Self)
        ensures
            !r.success,
            r.errors@.len() == 0,
    {
        BuildOutcome { success: false, errors: Vec::new() }
    }

    /// Takes in one line of cargo's output. A compiler message hands back its
    /// rendering (to be shown at once) and, when its level is `error`, adds
    /// that error; `build-finished` sets the success to what cargo reported
    /// (none counts as failure); other lines change nothing.
    pub fn absorb(&mut self, line: CargoLine) -> (shown: Option<String>)
        ensures
            line.reason@ == "compiler-message"@ ==> match line.message {
                Some(cm) => {
                    &&& shown == cm.rendered
                    &&& final(self).success == old(self).success
                    &&& if cm.level@ == "error"@ {
                        &&& final(self).errors@.len() == old(self).errors@.len() + 1
                        &&& final(self).errors@.drop_last() == old(self).errors@
                        &&& is_error_of(final(self).errors@.last(), cm)
                    } else {
                        final(self).errors@ == old(self).errors@
                    }
                },
                None => shown is None && final(self).success == old(self).success && final(self).errors@
                    == old(self).errors@,
            },
            line.reason@ == "build-finished"@ ==> shown is None && final(self).success == (line.success
                == Some(true)) && final(self).errors@ == old(self).errors@,
            line.reason@ != "compiler-message"@ && line.reason@ != "build-finished"@ ==> shown is None
                && final(self).success == old(self).success && final(self).errors@ == old(self).errors@,
    {
        proof {
            reveal_strlit("compiler-message");
            reveal_strlit("build-finished");
            reveal_strlit("error");
            assert("compiler-message"@.len() != "build-finished"@.len());
        }
        if str_eq(line.reason.as_str(), "compiler-message") {
            match line.message {
                Some(cm) => {
                    let ghost cm0 = cm;
                    let shown = cm.rendered.clone();
                    if str_eq(cm.level.as_str(), "error") {
                        let CompilerMsg { level, message, rendered, spans } = cm;
                        let (file, at) = if spans.len() > 0 {
                            let first = &spans[0];
                            (first.file_name.clone(), first.line_start)
                        } else {
                            (String::new(), 0u32)
                        };
                        let e = BuildError { level, message, file, line: at, rendered };
                        let ghost before = self.errors@;
                        self.errors.push(e);
                        assert(self.errors@.drop_last() =~= before);
                    }
                    shown
                },
                None => None,
            }
        } else if str_eq(line.reason.as_str(), "build-finished") {
            self.success = match line.success {
                Some(b) => b,
                None => false,
            };
            None
        } else {
            None
        }
    }
}

// ── The binary to run ──────────────────────────────────────────────────────

/// What a line of Cargo.toml sets a name to: a (trimmed) line that starts
/// with `name` and holds `=`, whose value after the first `=` is trimmed and
/// rid of surrounding double quotes, then single quotes; an empty value sets
/// nothing.
pub open spec fn name_setting(t: Seq<char>) -> Option<Seq<char>> {
    let k = index_of_char(t, '=');
    if starts_with(t, "name"@) && k < t.len() {
        let v = trim_char(trim_char(trim(t.skip(k + 1)), '"'), '\'');
        if v.len() > 0 {
            Some(v)
        } else {
            None
        }
    } else {
        None
    }
}

/// The scan of Cargo.toml for the binary name, from the line `ls[0]` on:
/// whether the scan is in a `[[bin]]` or the `[package]` table, and the
/// package name found so far. A name in `[[bin]]` wins at once; otherwise
/// the first package name stands.
pub open spec fn bin_scan(ls: Seq<Seq<char>>, in_bin: bool, in_package: bool, pkg: Option<Seq<char>>) -> Option<
    Seq<char>,
>
    decreases ls.len(),
{
    if ls.len() == 0 {
        pkg
    } else {
        let t = trim(ls[0]);
        let rest = ls.drop_first();
        if t == "[[bin]]"@ {
            bin_scan(rest, true, false, pkg)
        } else if t.len() > 0 && t[0] == '[' {
            bin_scan(rest, false, t == "[package]"@, pkg)
        } else if (in_bin || in_package) && name_setting(t) is Some {
            if in_bin {
                name_setting(t)
            } else {
                bin_scan(
                    rest,
                    in_bin,
                    in_package,
                    if pkg is None {
                        name_setting(t)
                    } else {
                        pkg
                    },
                )
            }
        } else {
            bin_scan(rest, in_bin, in_package, pkg)
        }
    }
}

/// The binary to run: the name asked for; else, from the text of
/// Cargo.toml (when it could be read), the first `[[bin]]` name, else the
/// `[package]` name.
pub open spec fn spec_find_bin_name(cargo_toml: Option<Seq<char>>, override_name: Option<Seq<char>>) -> Option<
    Seq<char>,
> {
    match override_name {
        Some(n) => Some(n),
        None => match cargo_toml {
            Some(c) => bin_scan(lines(c), false, false, None),
            None => None,
        },
    }
}

/// The name a trimmed line sets.
fn name_of_line(t: &str) -> (r: Option<String>)
    ensures
        match r {
            Some(x) => name_setting(t@) == Some(x@),
            None => name_setting(t@) is None,
        },
{
    proof {
        reveal_strlit("name");
    }
    if !starts_with_str(t, "name") {
        return None;
    }
    let cs = chars_of(t);
    let mut k: usize = 0;
    while k < cs.len() && cs[k] != '='
        invariant
            k <= cs@.len(),
            forall|j: int| 0 <= j < k ==> #[trigger] cs@[j] != '=',
        decreases cs@.len() - k,
    {
        k = k + 1;
    }
    proof {
        lemma_index_of_char(cs@, '=', k as int);
    }
    if k == cs.len() {
        return None;
    }
    let (a, b) = trim_bounds(&cs, k + 1, cs.len());
    let (a2, b2) = trim_char_bounds(&cs, a, b, '"');
    let (a3, b3) = trim_char_bounds(&cs, a2, b2, '\'');
    proof {
        assert(cs@.subrange(k + 1, cs@.len() as int) =~= t@.skip(k + 1));
    }
    if a3 == b3 {
        return None;
    }
    Some(string_from_range(&cs, a3, b3))
}

/// The binary `crepus dev` runs after a build (see `spec_find_bin_name`).
pub fn find_bin_name(cargo_toml: Option<&str>, override_name: Option<&str>) -> (r: Option<String>)
    ensures
        match r {
            Some(x) => spec_find_bin_name(
                match cargo_toml {
                    Some(c) => Some(c@),
                    None => None,
                },
                match override_name {
                    Some(n) => Some(n@),
                    None => None,
                },
            ) == Some(x@),
            None => spec_find_bin_name(
                match cargo_toml {
                    Some(c) => Some(c@),
                    None => None,
                },
                match override_name {
                    Some(n) => Some(n@),
                    None => None,
                },
            ) is None,
        },
{
    if let Some(n) = override_name {
        return Some(to_owned_string(n));
    }
    let content = match cargo_toml {
        Some(c) => c,
        None => {
            return None;
        },
    };
    proof {
        reveal_strlit("[[bin]]");
        reveal_strlit("[package]");
    }
    let ls = lines_of(content);
    let ghost all = lines(content@);
    let mut in_bin = false;
    let mut in_package = false;
    let mut package_name: Option<String> = None;
    let mut i: usize = 0;
    assert(all.skip(0) =~= all);
    while i < ls.len()
        invariant
            i <= ls@.len(),
            ls@.len() == all.len(),
            all == lines(content@),
            override_name is None,
            cargo_toml == Some(content),
            forall|j: int| 0 <= j < ls@.len() ==> #[trigger] ls@[j]@ == all[j],
            bin_scan(all.skip(i as int), in_bin, in_package, opt_view(package_name)) == bin_scan(
                all,
                false,
                false,
                None,
            ),
        decreases ls@.len() - i,
    {
        let ghost rest = all.skip(i as int);
        assert(rest[0] == ls@[i as int]@);
        assert(rest.drop_first() =~= all.skip(i + 1));
        let t = trim_string(ls[i].as_str());
        let tcs = chars_of(t.as_str());
        if str_eq(t.as_str(), "[[bin]]") {
            in_bin = true;
            in_package = false;
        } else if tcs.len() > 0 && tcs[0] == '[' {
            in_bin = false;
            in_package = str_eq(t.as_str(), "[package]");
        } else if in_bin || in_package {
            match name_of_line(t.as_str()) {
                Some(name) => {
                    if in_bin {
                        assert(t@ == trim(rest[0]) && tcs@ == t@);
                        assert(bin_scan(rest, in_bin, in_package, opt_view(package_name)) == Some(name@));
                        return Some(name);
                    } else if package_name.is_none() {
                        package_name = Some(name);
                    }
                },
                None => {},
            }
        }
        i = i + 1;
    }
    assert(all.skip(ls@.len() as int).len() == 0);
    package_name
}

} // verus!
