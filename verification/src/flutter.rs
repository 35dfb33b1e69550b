//! The pubspec dependency block for the Flutter renderer package, and its
//! insertion under a Flutter app's `dependencies:` section.
use vstd::prelude::*;
use crate::text::{chars_of, contains, contains_str, lines, lines_of, push_spaces, push_str, seq_eq, spaces, string_from_range, trim_end, trim_end_len};

verus! {

/// The pub package name (pub.dev forbids hyphens).
pub open spec fn pub_name() -> Seq<char> {
    "crepuscularity_flutter"@
}

/// `block` lines joined, each followed by `\n`.
pub open spec fn join_nl(ls: Seq<Seq<char>>) -> Seq<char>
    decreases ls.len(),
{
    if ls.len() == 0 {
        Seq::empty()
    } else {
        join_nl(ls.drop_last()) + ls.last() + "\n"@
    }
}

/// The dependency block, indented by `base` spaces: a caret version when
/// `version` is given, else a git dependency pinned to `git_ref`.
pub open spec fn spec_dependency_block(version: Option<Seq<char>>, git_ref: Seq<char>, base: nat) -> Seq<char> {
    match version {
        Some(v) => spaces(base) + "crepuscularity_flutter: ^"@ + v + "\n"@,
        None => spaces(base) + "crepuscularity_flutter:\n"@ + spaces(base + 2) + "git:\n"@ + spaces(
            base + 4,
        ) + "url: https://github.com/tschk/crepuscularity\n"@ + spaces(base + 4) + "ref: "@
            + git_ref + "\n"@ + spaces(base + 4) + "path: plugins/crepuscularity-flutter\n"@,
    }
}

pub open spec fn ref_opt_view(o: Option<&str>) -> Option<Seq<char>> {
    match o {
        Some(s) => Some(s@),
        None => None,
    }
}

/// The pubspec dependency block, indented by `base` spaces (0 for stdout, 2
/// for insertion under `dependencies:`).
pub fn dependency_block(version: Option<&str>, git_ref: &str, base: usize) -> (r: String)
    requires
        base + 4 <= usize::MAX,
    ensures
        r@ == spec_dependency_block(ref_opt_view(version), git_ref@, base as nat),
{
    let mut out = String::new();
    push_spaces(&mut out, base);
    match version {
        Some(v) => {
            push_str(&mut out, "crepuscularity_flutter: ^");
            push_str(&mut out, v);
            push_str(&mut out, "\n");
        },
        None => {
            push_str(&mut out, "crepuscularity_flutter:\n");
            push_spaces(&mut out, base + 2);
            push_str(&mut out, "git:\n");
            push_spaces(&mut out, base + 4);
            push_str(&mut out, "url: https://github.com/tschk/crepuscularity\n");
            push_spaces(&mut out, base + 4);
            push_str(&mut out, "ref: ");
            push_str(&mut out, git_ref);
            push_str(&mut out, "\n");
            push_spaces(&mut out, base + 4);
            push_str(&mut out, "path: plugins/crepuscularity-flutter\n");
        },
    }
    out
}

/// Whether a line is the top-level `dependencies:` header (trailing
/// whitespace ignored).
pub open spec fn is_deps_line(l: Seq<char>) -> bool {
    trim_end(l) == "dependencies:"@
}

/// Index of the first `dependencies:` line, or `ls.len()`.
pub open spec fn first_deps_line(ls: Seq<Seq<char>>) -> int
    decreases ls.len(),
{
    if ls.len() == 0 {
        0
    } else if is_deps_line(ls[0]) {
        0
    } else {
        1 + first_deps_line(ls.drop_first())
    }
}

proof fn lemma_first_deps_line(ls: Seq<Seq<char>>, k: int)
    requires
        0 <= k <= ls.len(),
        forall|j: int| 0 <= j < k ==> !is_deps_line(#[trigger] ls[j]),
        k == ls.len() || is_deps_line(ls[k]),
    ensures
        first_deps_line(ls) == k,
    decreases k,
{
    if k > 0 {
        let t = ls.drop_first();
        assert forall|j: int| 0 <= j < k - 1 implies !is_deps_line(#[trigger] t[j]) by {
            assert(t[j] == ls[j + 1]);
        }
        assert(!is_deps_line(ls[0]));
        lemma_first_deps_line(t, k - 1);
    }
}

/// The source rewritten line by line with `block` right after the first
/// top-level `dependencies:` line; `None` when there is no such line. Every
/// line of the result ends in `\n`.
pub open spec fn spec_insert_under_dependencies(source: Seq<char>, block: Seq<char>) -> Option<Seq<char>> {
    let ls = lines(source);
    let k = first_deps_line(ls);
    if k < ls.len() {
        Some(join_nl(ls.take(k + 1)) + block + join_nl(ls.skip(k + 1)))
    } else {
        None
    }
}

proof fn lemma_join_nl_split(ls: Seq<Seq<char>>, i: int)
    requires
        0 <= i <= ls.len(),
    ensures
        join_nl(ls) == join_nl(ls.take(i)) + join_nl(ls.skip(i)),
    decreases ls.len(),
{
    if i == ls.len() {
        assert(ls.take(i) =~= ls);
        assert(ls.skip(i) =~= Seq::<Seq<char>>::empty());
        assert(join_nl(ls.take(i)) + join_nl(ls.skip(i)) =~= join_nl(ls));
    } else {
        lemma_join_nl_split(ls.drop_last(), i);
        assert(ls.drop_last().take(i) =~= ls.take(i));
        assert(ls.skip(i).drop_last() =~= ls.drop_last().skip(i));
        assert(ls.skip(i).last() == ls.last());
        assert(join_nl(ls.take(i)) + join_nl(ls.skip(i)) =~= join_nl(ls));
    }
}

/// Insert `block` immediately after the top-level `dependencies:` line.
pub fn insert_under_dependencies(source: &str, block: &str) -> (r: Option<String>)
    ensures
        match (r, spec_insert_under_dependencies(source@, block@)) {
            (Some(x), Some(y)) => x@ == y,
            (None, None) => true,
            _ => false,
        },
{
    let ls = lines_of(source);
    let ghost sl = lines(source@);
    let header = chars_of("dependencies:");
    let mut out = String::new();
    let mut inserted = false;
    let mut i: usize = 0;
    let ghost mut k: int = ls@.len() as int;
    while i < ls.len()
        invariant
            ls@.len() == sl.len(),
            forall|j: int| 0 <= j < ls@.len() ==> #[trigger] ls@[j]@ == sl[j],
            header@ == "dependencies:"@,
            i <= ls@.len(),
            !inserted ==> forall|j: int| 0 <= j < i ==> !is_deps_line(#[trigger] sl[j]),
            !inserted ==> out@ == join_nl(sl.take(i as int)),
            inserted ==> 0 <= k < i && is_deps_line(sl[k]) && (forall|j: int|
                0 <= j < k ==> !is_deps_line(#[trigger] sl[j])) && out@ == join_nl(
                sl.take(k + 1),
            ) + block@ + join_nl(sl.subrange(k + 1, i as int)),
        decreases ls@.len() - i,
    {
        let ghost prev = out@;
        let line = &ls[i];
        let lc = chars_of(line.as_str());
        push_str(&mut out, line.as_str());
        push_str(&mut out, "\n");
        proof {
            assert(sl.take(i + 1).drop_last() =~= sl.take(i as int));
            if inserted {
                assert(sl.subrange(k + 1, i + 1).drop_last() =~= sl.subrange(k + 1, i as int));
            }
        }
        if !inserted {
            let n = trim_end_len(&lc);
            let cut = string_from_range(&lc, 0, n);
            let cc = chars_of(cut.as_str());
            if seq_eq(&cc, &header) {
                push_str(&mut out, block);
                inserted = true;
                proof {
                    k = i as int;
                    assert(sl.subrange(k + 1, i + 1) =~= Seq::<Seq<char>>::empty());
                    assert(out@ =~= join_nl(sl.take(k + 1)) + block@ + join_nl(
                        sl.subrange(k + 1, i + 1),
                    ));
                }
            } else {
                assert(!is_deps_line(sl[i as int]));
            }
        } else {
            assert(out@ =~= join_nl(sl.take(k + 1)) + block@ + join_nl(
                sl.subrange(k + 1, i + 1),
            ));
        }
        i = i + 1;
    }
    proof {
        if inserted {
            lemma_first_deps_line(sl, k);
            assert(sl.subrange(k + 1, sl.len() as int) =~= sl.skip(k + 1));
        } else {
            lemma_first_deps_line(sl, sl.len() as int);
        }
    }
    if inserted {
        Some(out)
    } else {
        None
    }
}

/// What adding the dependency to a pubspec does.
pub enum FlutterAddPlan {
    /// The pubspec already names the package; it stays unchanged.
    AlreadyPresent,
    /// The new pubspec text.
    Updated(String),
    /// There is no top-level `dependencies:` section.
    MissingDependencies,
}

/// Decides how `crepus flutter add` rewrites `original`: unchanged when the
/// package is already named there, else the block (indented by two spaces)
/// under `dependencies:`.
pub fn plan_flutter_add(original: &str, version: Option<&str>, git_ref: &str) -> (r: FlutterAddPlan)
    ensures
        contains(original@, pub_name() + ":"@) ==> r is AlreadyPresent,
        !contains(original@, pub_name() + ":"@) ==> match spec_insert_under_dependencies(
            original@,
            spec_dependency_block(ref_opt_view(version), git_ref@, 2),
        ) {
            Some(text) => r matches FlutterAddPlan::Updated(t) && t@ == text,
            None => r is MissingDependencies,
        },
{
    let key = "crepuscularity_flutter:";
    proof {
        reveal_strlit("crepuscularity_flutter:");
        reveal_strlit("crepuscularity_flutter");
        reveal_strlit(":");
        assert(key@ =~= pub_name() + ":"@);
    }
    if contains_str(original, key) {
        return FlutterAddPlan::AlreadyPresent;
    }
    let block = dependency_block(version, git_ref, 2);
    match insert_under_dependencies(original, block.as_str()) {
        Some(text) => FlutterAddPlan::Updated(text),
        None => FlutterAddPlan::MissingDependencies,
    }
}

} // verus!
