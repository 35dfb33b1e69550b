//! `crepus benchmark`: declarative build-time comparisons. This module holds
//! the decisions of a run: its options and flags, which targets of a
//! `benchmark.toml` run and in what order, the planned steps, variable
//! expansion in step scripts, and the arithmetic of the report (step sums,
//! overhead, slowest first). Running commands, timing them and printing are
//! the executable's part.
use vstd::prelude::*;
use crate::text::{opt_view, sviews, pair_views};
use crate::text::{
    chars_of, lines, push_str, split_by_char, split_char, str_eq, string_from_range, to_owned_string,
    trim, trim_bounds, trim_string, lex_lt, lex_less, lemma_lex_irreflexive, lemma_lex_transitive,
    lemma_lex_total, lemma_lex_asymmetric, replace_all, replace_str, push_char,
};
use crate::native_ir::{join_path, path_join};
use crate::crepus_toml::{nth_parent, parent_of, path_parent};
use crate::num::{decimal, push_decimal_u128};
use vstd::utf8::{encode_utf8, is_char_boundary};

verus! {

// ── Options ────────────────────────────────────────────────────────────────

/// What a benchmark run does.
#[derive(Debug, Clone, PartialEq, Eq)]
pub struct RunOptions {
    pub config_path: Option<String>,
    pub suite_filter: Option<String>,
    pub only: Option<Vec<String>>,
    pub json_out: bool,
    pub dry_run: bool,
    pub clean: bool,
    pub repo_override: Option<String>,
    pub work_override: Option<String>,
    pub verbose: bool,
    pub measure_memory: bool,
    pub no_tui: bool,
}

/// What a benchmark check does.
#[derive(Debug, Clone, PartialEq, Eq)]
pub struct CheckOptions {
    pub config_path: Option<String>,
    pub suite_filter: Option<String>,
    pub only: Option<Vec<String>>,
    pub json_out: bool,
    pub repo_override: Option<String>,
}

/// A piece of an `--only` list, trimmed, when it is not empty.
pub open spec fn nonempty_trimmed(p: Seq<char>) -> Option<Seq<char>> {
    if trim(p).len() > 0 {
        Some(trim(p))
    } else {
        None
    }
}

/// The target ids of an `--only a,b,c` list: split at commas, trimmed,
/// empty pieces dropped.
pub open spec fn spec_id_list(s: Seq<char>) -> Seq<Seq<char>> {
    split_char(s, ',').filter_map(|p: Seq<char>| nonempty_trimmed(p))
}

/// Reads an `--only` list of target ids.
pub fn split_id_list(s: &str) -> (r: Vec<String>)
    ensures
        r@.len() == spec_id_list(s@).len(),
        forall|i: int| 0 <= i < r@.len() ==> #[trigger] r@[i]@ == spec_id_list(s@)[i],
{
    let pieces = split_by_char(s, ',');
    let ghost ps = split_char(s@, ',');
    let ghost f = |p: Seq<char>| nonempty_trimmed(p);
    let mut out: Vec<String> = Vec::new();
    let mut i: usize = 0;
    while i < pieces.len()
        invariant
            i <= pieces@.len(),
            pieces@.len() == ps.len(),
            f == (|p: Seq<char>| nonempty_trimmed(p)),
            forall|j: int| 0 <= j < pieces@.len() ==> #[trigger] pieces@[j]@ == ps[j],
            out@.len() == ps.take(i as int).filter_map(f).len(),
            forall|j: int| 0 <= j < out@.len() ==> #[trigger] out@[j]@ == ps.take(i as int).filter_map(f)[j],
        decreases pieces@.len() - i,
    {
        proof {
            assert(ps.take(i + 1).drop_last() =~= ps.take(i as int));
            assert(ps.take(i + 1).last() == pieces@[i as int]@);
        }
        let t = trim_string(pieces[i].as_str());
        if t.unicode_len() > 0 {
            out.push(t);
        }
        i = i + 1;
    }
    assert(ps.take(pieces@.len() as int) =~= ps);
    out
}

/// An optional `--only` list.
pub fn only_list(only: Option<String>) -> (r: Option<Vec<String>>)
    ensures
        only is None ==> r is None,
        only matches Some(s) ==> r matches Some(v) && v@.len() == spec_id_list(s@).len()
            && forall|i: int| 0 <= i < v@.len() ==> #[trigger] v@[i]@ == spec_id_list(s@)[i],
{
    match only {
        Some(s) => Some(split_id_list(s.as_str())),
        None => None,
    }
}

// ── `crepus benchmark [all|run] [flags]` ───────────────────────────────────

/// Drops a leading `all` or `run`, so `crepus benchmark all` is an explicit
/// full run.
pub open spec fn spec_normalize(args: Seq<Seq<char>>) -> Seq<Seq<char>> {
    if args.len() > 0 && (args[0] == "all"@ || args[0] == "run"@) {
        args.skip(1)
    } else {
        args
    }
}

/// The flags read so far while scanning benchmark arguments.
pub struct FlagScan {
    pub config: Option<Seq<char>>,
    pub suite: Option<Seq<char>>,
    pub only: Option<Seq<Seq<char>>>,
    pub json: bool,
    pub dry_run: bool,
    pub verbose: Option<bool>,
    pub memory: bool,
    pub clean: bool,
    pub repo: Option<Seq<char>>,
    pub work: Option<Seq<char>>,
    pub help: bool,
}

pub open spec fn initial_scan() -> FlagScan {
    FlagScan {
        config: None,
        suite: None,
        only: None,
        json: false,
        dry_run: false,
        verbose: None,
        memory: true,
        clean: false,
        repo: None,
        work: None,
        help: false,
    }
}

/// The argument after position `i`, if there is one.
pub open spec fn arg_after(args: Seq<Seq<char>>, i: int) -> Option<Seq<char>> {
    if i + 1 < args.len() {
        Some(args[i + 1])
    } else {
        None
    }
}

/// Reads the arguments from position `i` on: a flag that takes a value
/// takes the next argument (and a missing one clears the setting), unknown
/// arguments are skipped, and `--help` ends the scan.
pub open spec fn scan_args(args: Seq<Seq<char>>, i: int, st: FlagScan) -> FlagScan
    decreases args.len() + 1 - i,
{
    if i < 0 || i >= args.len() {
        st
    } else {
        let a = args[i];
        if a == "--config"@ || a == "-c"@ {
            scan_args(args, i + 2, FlagScan { config: arg_after(args, i), ..st })
        } else if a == "--suite"@ || a == "-s"@ {
            scan_args(args, i + 2, FlagScan { suite: arg_after(args, i), ..st })
        } else if a == "--only"@ {
            let only = match arg_after(args, i) {
                Some(v) => Some(spec_id_list(v)),
                None => st.only,
            };
            scan_args(args, i + 2, FlagScan { only: only, ..st })
        } else if a == "--json"@ {
            scan_args(args, i + 1, FlagScan { json: true, ..st })
        } else if a == "--dry-run"@ || a == "-n"@ {
            scan_args(args, i + 1, FlagScan { dry_run: true, ..st })
        } else if a == "--verbose"@ || a == "-v"@ {
            scan_args(args, i + 1, FlagScan { verbose: Some(true), ..st })
        } else if a == "--quiet"@ || a == "-q"@ {
            scan_args(args, i + 1, FlagScan { verbose: Some(false), ..st })
        } else if a == "--memory"@ {
            scan_args(args, i + 1, FlagScan { memory: true, ..st })
        } else if a == "--no-memory"@ {
            scan_args(args, i + 1, FlagScan { memory: false, ..st })
        } else if a == "--clean"@ {
            scan_args(args, i + 1, FlagScan { clean: true, ..st })
        } else if a == "--repo"@ {
            scan_args(args, i + 2, FlagScan { repo: arg_after(args, i), ..st })
        } else if a == "--work-root"@ {
            scan_args(args, i + 2, FlagScan { work: arg_after(args, i), ..st })
        } else if a == "--help"@ || a == "-h"@ {
            FlagScan { help: true, ..st }
        } else {
            scan_args(args, i + 1, st)
        }
    }
}

/// What the arguments of `crepus benchmark` ask for.
pub enum BenchmarkInvocation {
    /// Print the usage and stop.
    Help,
    /// Run with these options.
    Run(RunOptions),
}

pub open spec fn ids_view(o: Option<Vec<String>>) -> Option<Seq<Seq<char>>> {
    match o {
        Some(v) => Some(v@.map_values(|x: String| x@)),
        None => None,
    }
}

/// The options of a scan: verbose unless `--json` or `--quiet` (an explicit
/// `--verbose` after `--quiet` wins back), memory sampling unless
/// `--no-memory` came last.
pub open spec fn options_match(o: RunOptions, st: FlagScan) -> bool {
    &&& opt_view(o.config_path) == st.config
    &&& opt_view(o.suite_filter) == st.suite
    &&& ids_view(o.only) == st.only
    &&& o.json_out == st.json
    &&& o.dry_run == st.dry_run
    &&& o.clean == st.clean
    &&& opt_view(o.repo_override) == st.repo
    &&& opt_view(o.work_override) == st.work
    &&& o.verbose == (if st.json { false } else { match st.verbose { Some(v) => v, None => true } })
    &&& o.measure_memory == st.memory
    &&& !o.no_tui
}

/// The scan state held in the parser's variables.
pub open spec fn scan_of(
    config: Option<String>,
    suite: Option<String>,
    only: Option<Vec<String>>,
    json: bool,
    dry_run: bool,
    verbose: Option<bool>,
    memory: bool,
    clean: bool,
    repo: Option<String>,
    work: Option<String>,
) -> FlagScan {
    FlagScan {
        config: opt_view(config),
        suite: opt_view(suite),
        only: ids_view(only),
        json,
        dry_run,
        verbose,
        memory,
        clean,
        repo: opt_view(repo),
        work: opt_view(work),
        help: false,
    }
}

proof fn lemma_scan_end(args: Seq<Seq<char>>, i: int, st: FlagScan)
    requires
        i >= args.len(),
    ensures
        scan_args(args, i, st) == st,
{
}

fn arg_after_exec(args: &Vec<String>, i: usize) -> (r: Option<String>)
    ensures
        opt_view(r) == arg_after(args@.map_values(|x: String| x@), i as int),
{
    if i < args.len() && i + 1 < args.len() {
        Some(to_owned_string(args[i + 1].as_str()))
    } else {
        None
    }
}

/// The arguments of `crepus benchmark` without a leading `all` or `run`
/// (both mean a full run).
pub fn normalize_benchmark_invocation_args(args: &Vec<String>) -> (r: Vec<String>)
    ensures
        r@.map_values(|x: String| x@) == spec_normalize(args@.map_values(|x: String| x@)),
{
    let ghost all = args@.map_values(|x: String| x@);
    let mut rest: Vec<String> = Vec::new();
    let skip: usize = if args.len() > 0 && (str_eq(args[0].as_str(), "all") || str_eq(args[0].as_str(), "run")) {
        1
    } else {
        0
    };
    let mut k: usize = skip;
    while k < args.len()
        invariant
            skip <= k <= args@.len(),
            all == args@.map_values(|x: String| x@),
            rest@.len() == k - skip,
            forall|j: int| 0 <= j < rest@.len() ==> #[trigger] rest@[j]@ == all[j + skip],
        decreases args@.len() - k,
    {
        rest.push(to_owned_string(args[k].as_str()));
        k = k + 1;
    }
    assert(rest@.map_values(|x: String| x@) =~= spec_normalize(all));
    rest
}

/// Reads the flags of `crepus benchmark` (after a leading `all` or `run`).
pub fn parse_benchmark_args(args: &Vec<String>) -> (r: BenchmarkInvocation)
    ensures
        ({
            let st = scan_args(spec_normalize(args@.map_values(|x: String| x@)), 0, initial_scan());
            match r {
                BenchmarkInvocation::Help => st.help,
                BenchmarkInvocation::Run(o) => !st.help && options_match(o, st),
            }
        }),
{
    let ghost all = args@.map_values(|x: String| x@);
    let rest = normalize_benchmark_invocation_args(args);
    let ghost a = rest@.map_values(|x: String| x@);
    assert(a =~= spec_normalize(all));
    let mut config: Option<String> = None;
    let mut suite: Option<String> = None;
    let mut only: Option<Vec<String>> = None;
    let mut json = false;
    let mut dry_run = false;
    let mut verbose: Option<bool> = None;
    let mut memory = true;
    let mut clean = false;
    let mut repo: Option<String> = None;
    let mut work: Option<String> = None;
    let mut i: usize = 0;
    let n = rest.len();
    assert(ids_view(only) == initial_scan().only);
    while i < rest.len()
        invariant
            a == rest@.map_values(|x: String| x@),
            n == rest@.len(),
            a == spec_normalize(all),
            all == args@.map_values(|x: String| x@),
            scan_args(a, 0, initial_scan()) == scan_args(
                a,
                i as int,
                scan_of(config, suite, only, json, dry_run, verbose, memory, clean, repo, work),
            ),
        decreases rest@.len() - i,
    {
        let arg = rest[i].as_str();
        assert(a[i as int] == arg@);
        let skip2: usize = if i + 1 < n { i + 2 } else { n };
        let ghost i0 = i as int;
        let ghost st0 = scan_of(config, suite, only, json, dry_run, verbose, memory, clean, repo, work);
        proof {
            if i + 2 >= n {
                lemma_scan_end(a, i + 2, st0);
                lemma_scan_end(a, n as int, st0);
            }
        }
        if str_eq(arg, "--config") || str_eq(arg, "-c") {
            config = arg_after_exec(&rest, i);
            i = skip2;
        } else if str_eq(arg, "--suite") || str_eq(arg, "-s") {
            suite = arg_after_exec(&rest, i);
            i = skip2;
        } else if str_eq(arg, "--only") {
            match arg_after_exec(&rest, i) {
                Some(v) => {
                    let ids = split_id_list(v.as_str());
                    assert(ids@.map_values(|x: String| x@) =~= spec_id_list(v@));
                    only = Some(ids);
                },
                None => {},
            }
            i = skip2;
        } else if str_eq(arg, "--json") {
            json = true;
            i = i + 1;
        } else if str_eq(arg, "--dry-run") || str_eq(arg, "-n") {
            dry_run = true;
            i = i + 1;
        } else if str_eq(arg, "--verbose") || str_eq(arg, "-v") {
            verbose = Some(true);
            i = i + 1;
        } else if str_eq(arg, "--quiet") || str_eq(arg, "-q") {
            verbose = Some(false);
            i = i + 1;
        } else if str_eq(arg, "--memory") {
            memory = true;
            i = i + 1;
        } else if str_eq(arg, "--no-memory") {
            memory = false;
            i = i + 1;
        } else if str_eq(arg, "--clean") {
            clean = true;
            i = i + 1;
        } else if str_eq(arg, "--repo") {
            repo = arg_after_exec(&rest, i);
            i = skip2;
        } else if str_eq(arg, "--work-root") {
            work = arg_after_exec(&rest, i);
            i = skip2;
        } else if str_eq(arg, "--help") || str_eq(arg, "-h") {
            return BenchmarkInvocation::Help;
        } else {
            i = i + 1;
        }
        proof {
            let st1 = scan_of(config, suite, only, json, dry_run, verbose, memory, clean, repo, work);
            if i0 + 2 >= n {
                lemma_scan_end(a, i0 + 2, st1);
                lemma_scan_end(a, n as int, st1);
            }
            assert(scan_args(a, i0, st0) == scan_args(a, i as int, st1));
        }
    }
    let verbose_flag = if json {
        false
    } else {
        match verbose {
            Some(v) => v,
            None => true,
        }
    };
    BenchmarkInvocation::Run(RunOptions {
        config_path: config,
        suite_filter: suite,
        only,
        json_out: json,
        dry_run,
        clean,
        repo_override: repo,
        work_override: work,
        verbose: verbose_flag,
        measure_memory: memory,
        no_tui: false,
    })
}

// ── benchmark.toml ─────────────────────────────────────────────────────────

/// One shell step of a benchmark target.
#[derive(Debug, Clone, PartialEq, Eq)]
pub struct BenchStep {
    pub name: String,
    pub cwd: Option<String>,
    pub shell: String,
}

/// One benchmark target: run by a builtin (`crepus-web`, `crepus-webext`,
/// `crepus-desktop`) or by its shell steps.
#[derive(Debug, Clone, PartialEq, Eq)]
pub struct BenchTarget {
    pub suite: String,
    pub id: String,
    pub label: String,
    pub optional: bool,
    pub builtin: Option<String>,
    pub site: Option<String>,
    pub requires: Vec<String>,
    pub steps: Vec<BenchStep>,
}

/// The contents of `benchmark.toml`.
#[derive(Debug, Clone, PartialEq, Eq)]
pub struct BenchmarkFile {
    pub version: u32,
    pub work_root: Option<String>,
    pub targets: Vec<BenchTarget>,
}

/// Whether a run with `suite_filter` and `only` runs the target: the suite
/// filter (unless `all`) names its suite, and the `only` list names its id.
pub open spec fn is_selected(t: BenchTarget, suite_filter: Option<Seq<char>>, only: Option<Seq<Seq<char>>>) -> bool {
    &&& match suite_filter {
        Some(f) => f == "all"@ || t.suite@ == f,
        None => true,
    }
    &&& match only {
        Some(ids) => ids.contains(t.id@),
        None => true,
    }
}

fn contains_id(ids: &Vec<String>, id: &str) -> (r: bool)
    ensures
        r == ids@.map_values(|x: String| x@).contains(id@),
{
    let ghost v = ids@.map_values(|x: String| x@);
    let mut i: usize = 0;
    while i < ids.len()
        invariant
            i <= ids@.len(),
            v == ids@.map_values(|x: String| x@),
            forall|j: int| 0 <= j < i ==> v[j] != id@,
        decreases ids@.len() - i,
    {
        if str_eq(ids[i].as_str(), id) {
            assert(v[i as int] == id@);
            return true;
        }
        i = i + 1;
    }
    false
}

/// Whether the run selects the target.
pub fn selects(t: &BenchTarget, suite_filter: &Option<String>, only: &Option<Vec<String>>) -> (r: bool)
    ensures
        r == is_selected(*t, opt_view(*suite_filter), ids_view(*only)),
{
    proof {
        reveal_strlit("all");
    }
    let suite_ok = match suite_filter {
        Some(f) => str_eq(f.as_str(), "all") || str_eq(t.suite.as_str(), f.as_str()),
        None => true,
    };
    let only_ok = match only {
        Some(ids) => contains_id(ids, t.id.as_str()),
        None => true,
    };
    suite_ok && only_ok
}

/// The targets of one suite, in file order.
#[derive(Debug, Clone, PartialEq, Eq)]
pub struct SuitePlan {
    pub suite: String,
    pub targets: Vec<usize>,
}

/// Strictly ascending texts.
pub open spec fn ascending(v: Seq<Seq<char>>) -> bool {
    forall|i: int, j: int| 0 <= i < j < v.len() ==> lex_lt(#[trigger] v[i], #[trigger] v[j])
}

/// Where `x` goes in the ascending `sorted`: the first place holding a
/// larger text.
fn insertion_point(sorted: &Vec<String>, x: &str) -> (r: usize)
    ensures
        r <= sorted@.len(),
        forall|i: int| 0 <= i < r ==> !lex_lt(x@, #[trigger] sviews(sorted@)[i]),
        r < sorted@.len() ==> lex_lt(x@, sviews(sorted@)[r as int]),
{
    let mut i: usize = 0;
    while i < sorted.len() && !lex_less(x, sorted[i].as_str())
        invariant
            i <= sorted@.len(),
            forall|k: int| 0 <= k < i ==> !lex_lt(x@, #[trigger] sviews(sorted@)[k]),
        decreases sorted@.len() - i,
    {
        assert(sviews(sorted@)[i as int] == sorted@[i as int]@);
        i = i + 1;
    }
    if i < sorted.len() {
        assert(sviews(sorted@)[i as int] == sorted@[i as int]@);
    }
    i
}

fn has_text(v: &Vec<String>, x: &str) -> (r: bool)
    ensures
        r == sviews(v@).contains(x@),
{
    let mut i: usize = 0;
    while i < v.len()
        invariant
            i <= v@.len(),
            forall|k: int| 0 <= k < i ==> #[trigger] sviews(v@)[k] != x@,
        decreases v@.len() - i,
    {
        if str_eq(v[i].as_str(), x) {
            assert(sviews(v@)[i as int] == x@);
            return true;
        }
        i = i + 1;
    }
    false
}

/// Adds a text that is not there yet to an ascending list, keeping it
/// ascending.
pub(crate) fn insert_sorted(v: &mut Vec<String>, x: String)
    requires
        ascending(sviews(old(v)@)),
        !sviews(old(v)@).contains(x@),
    ensures
        ascending(sviews(final(v)@)),
        forall|s: Seq<char>| #[trigger] sviews(final(v)@).contains(s) == (sviews(old(v)@).contains(s) || s == x@),
{
    let ghost xv = x@;
    let ghost o = sviews(v@);
    let p = insertion_point(v, x.as_str());
    v.insert(p, x);
    proof {
        let n = sviews(v@);
        assert(n =~= o.insert(p as int, xv));
        assert forall|i: int, j: int| 0 <= i < j < n.len() implies lex_lt(#[trigger] n[i], #[trigger] n[j]) by {
            if i < p && j < p {
            } else if i < p && j == p {
                assert(o[i] != xv);
                lemma_lex_total(xv, o[i]);
            } else if i < p && j > p {
            } else if i == p {
                if j - 1 > p {
                    lemma_lex_transitive(xv, o[p as int], o[j - 1]);
                }
            } else {
            }
        }
        assert forall|s: Seq<char>| #[trigger] n.contains(s) == (o.contains(s) || s == xv) by {
            if n.contains(s) {
                let i = choose|i: int| 0 <= i < n.len() && n[i] == s;
                if i < p {
                    assert(o[i] == s);
                } else if i > p {
                    assert(o[i - 1] == s);
                }
            }
            if o.contains(s) {
                let i = choose|i: int| 0 <= i < o.len() && o[i] == s;
                if i < p {
                    assert(n[i] == s);
                } else {
                    assert(n[i + 1] == s);
                }
            }
            if s == xv {
                assert(n[p as int] == s);
            }
        }
    }
}

/// A suite of one of the first `k` targets that the run selects.
pub open spec fn suite_of_selected(targets: Seq<BenchTarget>, k: int, sf: Option<Seq<char>>, on: Option<Seq<Seq<char>>>, s: Seq<char>) -> bool {
    exists|m: int| 0 <= m < k && is_selected(#[trigger] targets[m], sf, on) && targets[m].suite@ == s
}

/// The suites of the selected targets, each once, in ascending order.
pub fn selected_suites(targets: &Vec<BenchTarget>, suite_filter: &Option<String>, only: &Option<Vec<String>>) -> (r: Vec<String>)
    ensures
        ascending(sviews(r@)),
        forall|s: Seq<char>| #[trigger] sviews(r@).contains(s) == suite_of_selected(
            targets@,
            targets@.len() as int,
            opt_view(*suite_filter),
            ids_view(*only),
            s,
        ),
{
    let ghost sf = opt_view(*suite_filter);
    let ghost on = ids_view(*only);
    let mut suites: Vec<String> = Vec::new();
    let mut k: usize = 0;
    while k < targets.len()
        invariant
            k <= targets@.len(),
            sf == opt_view(*suite_filter),
            on == ids_view(*only),
            ascending(sviews(suites@)),
            forall|s: Seq<char>| #[trigger] sviews(suites@).contains(s) == suite_of_selected(targets@, k as int, sf, on, s),
        decreases targets@.len() - k,
    {
        let t = &targets[k];
        let sel = selects(t, suite_filter, only);
        let ghost before = sviews(suites@);
        if sel && !has_text(&suites, t.suite.as_str()) {
            insert_sorted(&mut suites, to_owned_string(t.suite.as_str()));
        }
        proof {
            assert forall|s: Seq<char>| #[trigger] sviews(suites@).contains(s) == suite_of_selected(
                targets@,
                k + 1,
                sf,
                on,
                s,
            ) by {
                if suite_of_selected(targets@, k + 1, sf, on, s) {
                    let m = choose|m: int| 0 <= m < k + 1 && is_selected(#[trigger] targets@[m], sf, on)
                        && targets@[m].suite@ == s;
                    if m < k {
                        assert(suite_of_selected(targets@, k as int, sf, on, s));
                    }
                }
                if suite_of_selected(targets@, k as int, sf, on, s) {
                    let m = choose|m: int| 0 <= m < k && is_selected(#[trigger] targets@[m], sf, on)
                        && targets@[m].suite@ == s;
                    assert(0 <= m < k + 1 && is_selected(targets@[m], sf, on) && targets@[m].suite@ == s);
                }
                if sel && s == t.suite@ {
                    assert(0 <= k < k + 1 && is_selected(targets@[k as int], sf, on) && targets@[k as int].suite@ == s);
                }
            }
        }
        k = k + 1;
    }
    suites
}

/// The suite names of a plan.
pub open spec fn plan_suite_names(r: Seq<SuitePlan>) -> Seq<Seq<char>> {
    r.map_values(|p: SuitePlan| p.suite@)
}

/// The indices of the first `k` targets that the run selects in `suite`.
pub open spec fn suite_members(targets: Seq<BenchTarget>, k: int, sf: Option<Seq<char>>, on: Option<Seq<Seq<char>>>, suite: Seq<char>) -> Seq<int>
    decreases k,
{
    if k <= 0 {
        Seq::empty()
    } else {
        let prev = suite_members(targets, k - 1, sf, on, suite);
        if is_selected(targets[k - 1], sf, on) && targets[k - 1].suite@ == suite {
            prev.push(k - 1)
        } else {
            prev
        }
    }
}

/// The targets of a run grouped by suite: suites in ascending order (each
/// suite of a selected target once), and in each suite the indices of its
/// selected targets in file order.
pub fn plan_suites(targets: &Vec<BenchTarget>, suite_filter: &Option<String>, only: &Option<Vec<String>>) -> (r: Vec<SuitePlan>)
    ensures
        ascending(plan_suite_names(r@)),
        forall|s: Seq<char>| #[trigger] plan_suite_names(r@).contains(s) == suite_of_selected(
            targets@,
            targets@.len() as int,
            opt_view(*suite_filter),
            ids_view(*only),
            s,
        ),
        forall|i: int| 0 <= i < r@.len() ==> (#[trigger] r@[i]).targets@.map_values(|x: usize| x as int)
            == suite_members(targets@, targets@.len() as int, opt_view(*suite_filter), ids_view(*only), r@[i].suite@),
{
    let ghost sf = opt_view(*suite_filter);
    let ghost on = ids_view(*only);
    let suites = selected_suites(targets, suite_filter, only);
    let mut plans: Vec<SuitePlan> = Vec::new();
    let mut i: usize = 0;
    while i < suites.len()
        invariant
            i <= suites@.len(),
            sf == opt_view(*suite_filter),
            on == ids_view(*only),
            plans@.len() == i,
            forall|j: int| 0 <= j < i ==> (#[trigger] plans@[j]).suite@ == suites@[j]@,
            forall|j: int| 0 <= j < i ==> (#[trigger] plans@[j]).targets@.map_values(|x: usize| x as int)
                == suite_members(targets@, targets@.len() as int, sf, on, plans@[j].suite@),
        decreases suites@.len() - i,
    {
        let suite = suites[i].as_str();
        let mut members: Vec<usize> = Vec::new();
        let mut k: usize = 0;
        while k < targets.len()
            invariant
                k <= targets@.len(),
                sf == opt_view(*suite_filter),
                on == ids_view(*only),
                members@.map_values(|x: usize| x as int) == suite_members(targets@, k as int, sf, on, suite@),
            decreases targets@.len() - k,
        {
            let ghost before = members@.map_values(|x: usize| x as int);
            if selects(&targets[k], suite_filter, only) && str_eq(targets[k].suite.as_str(), suite) {
                members.push(k);
                assert(members@.map_values(|x: usize| x as int) =~= before.push(k as int));
            }
            k = k + 1;
        }
        plans.push(SuitePlan { suite: to_owned_string(suite), targets: members });
        i = i + 1;
    }
    proof {
        assert(plan_suite_names(plans@) =~= sviews(suites@));
    }
    plans
}

// ── Steps and results ──────────────────────────────────────────────────────

/// How many steps a target announces: two for the `crepus-webext` builtin
/// (copy the fixture, then build), one for the other builtins, else its
/// shell steps (at least one).
pub open spec fn spec_planned_step_count(t: BenchTarget) -> int {
    match t.builtin {
        Some(b) => if b@ == "crepus-webext"@ { 2 } else { 1 },
        None => if t.steps@.len() > 1 { t.steps@.len() as int } else { 1 },
    }
}

pub fn planned_step_count(t: &BenchTarget) -> (r: usize)
    ensures
        r == spec_planned_step_count(*t),
{
    match &t.builtin {
        Some(b) => if str_eq(b.as_str(), "crepus-webext") {
            2
        } else {
            1
        },
        None => if t.steps.len() > 1 {
            t.steps.len()
        } else {
            1
        },
    }
}

/// The outcome of one step.
#[derive(Debug, Clone, PartialEq, Eq)]
pub struct StepResult {
    pub name: String,
    pub duration_ms: u128,
    pub ok: bool,
    pub max_rss_kb: Option<u64>,
    pub stderr_tail: Option<String>,
}

/// The summed duration of steps.
pub open spec fn sum_durations(steps: Seq<StepResult>) -> int
    decreases steps.len(),
{
    if steps.len() == 0 {
        0
    } else {
        sum_durations(steps.drop_last()) + steps.last().duration_ms
    }
}

/// The largest peak memory reported by any step.
pub open spec fn peak_rss(steps: Seq<StepResult>) -> Option<u64>
    decreases steps.len(),
{
    if steps.len() == 0 {
        None
    } else {
        let prev = peak_rss(steps.drop_last());
        match (prev, steps.last().max_rss_kb) {
            (Some(a), Some(b)) => Some(if a >= b { a } else { b }),
            (Some(a), None) => Some(a),
            (None, x) => x,
        }
    }
}

proof fn lemma_sum_durations_nonneg(steps: Seq<StepResult>)
    ensures
        sum_durations(steps) >= 0,
    decreases steps.len(),
{
    if steps.len() > 0 {
        lemma_sum_durations_nonneg(steps.drop_last());
    }
}

proof fn lemma_sum_durations_prefix(steps: Seq<StepResult>, i: int)
    requires
        0 <= i <= steps.len(),
    ensures
        sum_durations(steps.take(i)) <= sum_durations(steps),
    decreases steps.len() - i,
{
    if i < steps.len() {
        lemma_sum_durations_prefix(steps, i + 1);
        assert(steps.take(i + 1).drop_last() =~= steps.take(i));
    } else {
        assert(steps.take(i) =~= steps);
    }
}

/// The step time sum, the overhead of the wall time beyond it (never below
/// zero), and the largest peak memory of the steps.
pub fn step_aggregates(steps: &Vec<StepResult>, wall_ms: u128) -> (r: (u128, u128, Option<u64>))
    requires
        sum_durations(steps@) <= u128::MAX,
    ensures
        r.0 == sum_durations(steps@),
        r.1 == (if wall_ms >= r.0 { wall_ms - r.0 } else { 0 }),
        r.2 == peak_rss(steps@),
{
    let mut sum: u128 = 0;
    let mut peak: Option<u64> = None;
    let mut i: usize = 0;
    while i < steps.len()
        invariant
            i <= steps@.len(),
            sum_durations(steps@) <= u128::MAX,
            sum == sum_durations(steps@.take(i as int)),
            peak == peak_rss(steps@.take(i as int)),
        decreases steps@.len() - i,
    {
        proof {
            assert(steps@.take(i + 1).drop_last() =~= steps@.take(i as int));
            assert(steps@.take(i + 1).last() == steps@[i as int]);
            lemma_sum_durations_prefix(steps@, i + 1);
        }
        sum = sum + steps[i].duration_ms;
        peak = match (peak, steps[i].max_rss_kb) {
            (Some(a), Some(b)) => Some(if a >= b { a } else { b }),
            (Some(a), None) => Some(a),
            (None, x) => x,
        };
        i = i + 1;
    }
    assert(steps@.take(steps@.len() as int) =~= steps@);
    let overhead = if wall_ms >= sum { wall_ms - sum } else { 0 };
    (sum, overhead, peak)
}

/// The report of one target.
#[derive(Debug, Clone, PartialEq, Eq)]
pub struct TargetResult {
    pub id: String,
    pub label: String,
    pub optional: bool,
    pub skipped: bool,
    pub error: Option<String>,
    pub steps: Vec<StepResult>,
    pub total_ms: u128,
    pub step_sum_ms: u128,
    pub overhead_ms: u128,
    pub peak_rss_kb: Option<u64>,
}

/// A target's report, with the step aggregates computed from its steps.
pub fn target_result(
    id: String,
    label: String,
    optional: bool,
    skipped: bool,
    error: Option<String>,
    steps: Vec<StepResult>,
    total_ms: u128,
) -> (r: TargetResult)
    requires
        sum_durations(steps@) <= u128::MAX,
    ensures
        r.id == id && r.label == label && r.optional == optional && r.skipped == skipped,
        r.error == error && r.steps == steps && r.total_ms == total_ms,
        r.step_sum_ms == sum_durations(steps@),
        r.overhead_ms == (if total_ms >= r.step_sum_ms { total_ms - r.step_sum_ms } else { 0 }),
        r.peak_rss_kb == peak_rss(steps@),
{
    let (step_sum_ms, overhead_ms, peak_rss_kb) = step_aggregates(&steps, total_ms);
    TargetResult { id, label, optional, skipped, error, steps, total_ms, step_sum_ms, overhead_ms, peak_rss_kb }
}

// ── The summary: completed targets, slowest first ──────────────────────────

/// A stable order of indices by descending key: each index once, keys never
/// increasing along the order, and equal keys in index order.
pub open spec fn is_stable_desc_order(p: Seq<int>, keys: Seq<u128>) -> bool {
    &&& p.len() == keys.len()
    &&& forall|i: int| 0 <= i < p.len() ==> 0 <= #[trigger] p[i] < keys.len()
    &&& forall|i: int, j: int| 0 <= i < j < p.len() ==> #[trigger] p[i] != #[trigger] p[j]
    &&& forall|i: int, j: int| 0 <= i < j < p.len() ==> keys[#[trigger] p[i]] > keys[#[trigger] p[j]]
        || (keys[p[i]] == keys[p[j]] && p[i] < p[j])
}

/// Indices of `keys` from the largest key to the smallest; equal keys keep
/// their order (a stable sort).
pub fn order_by_desc(keys: &Vec<u128>) -> (r: Vec<usize>)
    ensures
        is_stable_desc_order(r@.map_values(|x: usize| x as int), keys@),
{
    let mut order: Vec<usize> = Vec::new();
    let mut k: usize = 0;
    while k < keys.len()
        invariant
            k <= keys@.len(),
            order@.len() == k,
            forall|i: int| 0 <= i < k ==> 0 <= #[trigger] order@[i] < k,
            forall|i: int, j: int| 0 <= i < j < k ==> #[trigger] order@[i] != #[trigger] order@[j],
            forall|i: int, j: int| 0 <= i < j < k ==> keys@[#[trigger] order@[i] as int] > keys@[#[trigger] order@[j] as int]
                || (keys@[order@[i] as int] == keys@[order@[j] as int] && order@[i] < order@[j]),
        decreases keys@.len() - k,
    {
        // The new index goes after every index whose key is at least its key.
        let key = keys[k];
        let mut p: usize = 0;
        while p < order.len() && keys[order[p]] >= key
            invariant
                p <= order@.len(),
                order@.len() == k,
                k < keys@.len(),
                key == keys@[k as int],
                forall|i: int| 0 <= i < k ==> 0 <= #[trigger] order@[i] < k,
                forall|i: int| 0 <= i < p ==> keys@[#[trigger] order@[i] as int] >= key,
            decreases order@.len() - p,
        {
            p = p + 1;
        }
        let ghost o = order@;
        order.insert(p, k);
        proof {
            let n = order@;
            assert(n =~= o.insert(p as int, k));
            // Past the insertion point every key is smaller than the new key:
            // they follow order@[p], whose key is smaller, in descending order.
            assert forall|j: int| p < j < n.len() implies keys@[#[trigger] n[j] as int] < key by {
                if j - 1 > p {
                    assert(o[p as int] != o[j - 1]);
                }
            }
            assert forall|i: int| 0 <= i < k + 1 implies 0 <= #[trigger] n[i] < k + 1 by {
                if i < p {
                    assert(n[i] == o[i]);
                } else if i > p {
                    assert(n[i] == o[i - 1]);
                }
            }
            assert forall|i: int, j: int| 0 <= i < j < k + 1 implies #[trigger] n[i] != #[trigger] n[j] by {
                if i < p && j < p {
                } else if i < p && j == p {
                    assert(n[i] == o[i]);
                } else if i < p && j > p {
                    assert(n[i] == o[i] && n[j] == o[j - 1]);
                } else if i == p {
                    assert(n[j] == o[j - 1]);
                } else {
                    assert(n[i] == o[i - 1] && n[j] == o[j - 1]);
                }
            }
            assert forall|i: int, j: int| 0 <= i < j < k + 1 implies keys@[#[trigger] n[i] as int] > keys@[#[trigger] n[j] as int]
                || (keys@[n[i] as int] == keys@[n[j] as int] && n[i] < n[j]) by {
                if i < p && j < p {
                } else if i < p && j == p {
                    assert(n[i] == o[i]);
                    assert(keys@[o[i] as int] >= key);
                } else if i < p && j > p {
                    assert(n[i] == o[i] && n[j] == o[j - 1]);
                } else if i == p {
                    assert(n[j] == o[j - 1]);
                } else {
                    assert(n[i] == o[i - 1] && n[j] == o[j - 1]);
                }
            }
        }
        k = k + 1;
    }
    let ghost pv = order@.map_values(|x: usize| x as int);
    assert forall|i: int| 0 <= i < pv.len() implies 0 <= #[trigger] pv[i] < keys@.len() by {
        assert(pv[i] == order@[i] as int);
    }
    assert forall|i: int, j: int| 0 <= i < j < pv.len() implies #[trigger] pv[i] != #[trigger] pv[j] by {
        assert(pv[i] == order@[i] as int && pv[j] == order@[j] as int);
    }
    assert forall|i: int, j: int| 0 <= i < j < pv.len() implies keys@[#[trigger] pv[i]] > keys@[#[trigger] pv[j]]
        || (keys@[pv[i]] == keys@[pv[j]] && pv[i] < pv[j]) by {
        assert(pv[i] == order@[i] as int && pv[j] == order@[j] as int);
    }
    order
}

/// The reports of one suite.
#[derive(Debug, Clone, PartialEq, Eq)]
pub struct SuiteResult {
    pub id: String,
    pub targets: Vec<TargetResult>,
}

/// One completed target in the summary. Its share of the summed wall time
/// is computed where the report is written.
#[derive(Debug, Clone, PartialEq, Eq)]
pub struct InsightRow {
    pub suite: String,
    pub id: String,
    pub label: String,
    pub wall_ms: u128,
    pub step_sum_ms: u128,
    pub overhead_ms: u128,
    pub peak_rss_kb: Option<u64>,
}

/// Where the time of a run went.
#[derive(Debug, Clone, PartialEq, Eq)]
pub struct RunSummary {
    pub total_wall_ms_completed: u128,
    pub completed_target_count: usize,
    pub skipped_target_count: usize,
    pub by_wall_time: Vec<InsightRow>,
}

/// The first `k` completed (not skipped) targets of `ts`, as (suite, target)
/// positions.
pub open spec fn completed_of(ts: Seq<TargetResult>, si: int, k: int) -> Seq<(int, int)>
    decreases k,
{
    if k <= 0 {
        Seq::empty()
    } else {
        let prev = completed_of(ts, si, k - 1);
        if !ts[k - 1].skipped {
            prev.push((si, k - 1))
        } else {
            prev
        }
    }
}

/// The completed targets of the first `n` suites, in suite and file order.
pub open spec fn completed(suites: Seq<SuiteResult>, n: int) -> Seq<(int, int)>
    decreases n,
{
    if n <= 0 {
        Seq::empty()
    } else {
        completed(suites, n - 1) + completed_of(suites[n - 1].targets@, n - 1, suites[n - 1].targets@.len() as int)
    }
}

pub open spec fn skipped_of(ts: Seq<TargetResult>, k: int) -> int
    decreases k,
{
    if k <= 0 {
        0
    } else {
        skipped_of(ts, k - 1) + if ts[k - 1].skipped { 1int } else { 0int }
    }
}

/// How many targets of the first `n` suites were skipped.
pub open spec fn skipped(suites: Seq<SuiteResult>, n: int) -> int
    decreases n,
{
    if n <= 0 {
        0
    } else {
        skipped(suites, n - 1) + skipped_of(suites[n - 1].targets@, suites[n - 1].targets@.len() as int)
    }
}

/// The wall time of a completed target.
pub open spec fn wall_at(suites: Seq<SuiteResult>, at: (int, int)) -> u128 {
    suites[at.0].targets@[at.1].total_ms
}

pub open spec fn walls(suites: Seq<SuiteResult>, cs: Seq<(int, int)>) -> Seq<u128> {
    cs.map_values(|at: (int, int)| wall_at(suites, at))
}

pub open spec fn sum_walls(ws: Seq<u128>) -> int
    decreases ws.len(),
{
    if ws.len() == 0 {
        0
    } else {
        sum_walls(ws.drop_last()) + ws.last()
    }
}

/// The summary row of the completed target at `at`.
pub open spec fn row_of(row: InsightRow, suites: Seq<SuiteResult>, at: (int, int)) -> bool {
    let t = suites[at.0].targets@[at.1];
    &&& row.suite@ == suites[at.0].id@
    &&& row.id@ == t.id@
    &&& row.label@ == t.label@
    &&& row.wall_ms == t.total_ms
    &&& row.step_sum_ms == t.step_sum_ms
    &&& row.overhead_ms == t.overhead_ms
    &&& row.peak_rss_kb == t.peak_rss_kb
}

fn row_for(suite: &SuiteResult, t: &TargetResult) -> (r: InsightRow)
    ensures
        r.suite@ == suite.id@,
        r.id@ == t.id@,
        r.label@ == t.label@,
        r.wall_ms == t.total_ms,
        r.step_sum_ms == t.step_sum_ms,
        r.overhead_ms == t.overhead_ms,
        r.peak_rss_kb == t.peak_rss_kb,
{
    InsightRow {
        suite: to_owned_string(suite.id.as_str()),
        id: to_owned_string(t.id.as_str()),
        label: to_owned_string(t.label.as_str()),
        wall_ms: t.total_ms,
        step_sum_ms: t.step_sum_ms,
        overhead_ms: t.overhead_ms,
        peak_rss_kb: t.peak_rss_kb,
    }
}

proof fn lemma_sum_walls_prefix(ws: Seq<u128>, i: int)
    requires
        0 <= i <= ws.len(),
    ensures
        0 <= sum_walls(ws.take(i)) <= sum_walls(ws),
    decreases ws.len() - i,
{
    if i < ws.len() {
        lemma_sum_walls_prefix(ws, i + 1);
        assert(ws.take(i + 1).drop_last() =~= ws.take(i));
        lemma_sum_walls_nonneg(ws.take(i));
    } else {
        assert(ws.take(i) =~= ws);
        lemma_sum_walls_nonneg(ws);
    }
}

proof fn lemma_sum_walls_nonneg(ws: Seq<u128>)
    ensures
        sum_walls(ws) >= 0,
    decreases ws.len(),
{
    if ws.len() > 0 {
        lemma_sum_walls_nonneg(ws.drop_last());
    }
}

proof fn lemma_skipped_of_nonneg(ts: Seq<TargetResult>, a: int)
    ensures
        0 <= skipped_of(ts, a),
    decreases a,
{
    if a > 0 {
        lemma_skipped_of_nonneg(ts, a - 1);
    }
}

proof fn lemma_skipped_of_mono(ts: Seq<TargetResult>, a: int, b: int)
    requires
        0 <= a <= b,
    ensures
        0 <= skipped_of(ts, a) <= skipped_of(ts, b),
    decreases b - a,
{
    lemma_skipped_of_nonneg(ts, a);
    if a < b {
        lemma_skipped_of_mono(ts, a, b - 1);
    }
}

proof fn lemma_skipped_nonneg(sv: Seq<SuiteResult>, a: int)
    ensures
        0 <= skipped(sv, a),
    decreases a,
{
    if a > 0 {
        lemma_skipped_nonneg(sv, a - 1);
        lemma_skipped_of_nonneg(sv[a - 1].targets@, sv[a - 1].targets@.len() as int);
    }
}

proof fn lemma_skipped_mono(sv: Seq<SuiteResult>, a: int, b: int)
    requires
        0 <= a <= b,
    ensures
        0 <= skipped(sv, a) <= skipped(sv, b),
    decreases b - a,
{
    lemma_skipped_nonneg(sv, a);
    if a < b {
        lemma_skipped_mono(sv, a, b - 1);
        lemma_skipped_of_nonneg(sv[b - 1].targets@, sv[b - 1].targets@.len() as int);
    }
}

/// The summary of a run: the completed targets slowest first (ties in
/// suite and file order), their count and summed wall time, and how many
/// targets were skipped.
pub fn compute_run_summary(suites: &Vec<SuiteResult>) -> (r: RunSummary)
    requires
        sum_walls(walls(suites@, completed(suites@, suites@.len() as int))) <= u128::MAX,
        skipped(suites@, suites@.len() as int) <= usize::MAX,
    ensures
        ({
            let cs = completed(suites@, suites@.len() as int);
            &&& r.completed_target_count == cs.len()
            &&& r.skipped_target_count == skipped(suites@, suites@.len() as int)
            &&& r.total_wall_ms_completed == sum_walls(walls(suites@, cs))
            &&& r.by_wall_time@.len() == cs.len()
            &&& exists|p: Seq<int>| #[trigger] is_stable_desc_order(p, walls(suites@, cs))
                && forall|i: int| 0 <= i < cs.len() ==> row_of(#[trigger] r.by_wall_time@[i], suites@, cs[p[i]])
        }),
{
    let ghost sv = suites@;
    let ghost n = sv.len() as int;
    let mut rows: Vec<InsightRow> = Vec::new();
    let mut keys: Vec<u128> = Vec::new();
    let mut skipped_count: usize = 0;
    let mut si: usize = 0;
    while si < suites.len()
        invariant
            si <= sv.len(),
            sv == suites@,
            n == sv.len(),
            skipped(sv, n) <= usize::MAX,
            rows@.len() == completed(sv, si as int).len(),
            keys@ == walls(sv, completed(sv, si as int)),
            forall|i: int| 0 <= i < rows@.len() ==> row_of(#[trigger] rows@[i], sv, completed(sv, si as int)[i]),
            skipped_count == skipped(sv, si as int),
        decreases sv.len() - si,
    {
        let suite = &suites[si];
        let ghost base = completed(sv, si as int);
        let ghost base_skipped = skipped(sv, si as int);
        proof {
            lemma_skipped_mono(sv, si + 1, n);
        }
        let mut ti: usize = 0;
        while ti < suite.targets.len()
            invariant
                si < sv.len(),
                sv == suites@,
                n == sv.len(),
                *suite == sv[si as int],
                ti <= suite.targets@.len(),
                base == completed(sv, si as int),
                base_skipped == skipped(sv, si as int),
                base_skipped + skipped_of(suite.targets@, suite.targets@.len() as int) <= usize::MAX,
                rows@.len() == base.len() + completed_of(suite.targets@, si as int, ti as int).len(),
                keys@ == walls(sv, base + completed_of(suite.targets@, si as int, ti as int)),
                forall|i: int| 0 <= i < rows@.len() ==> row_of(#[trigger] rows@[i], sv,
                    (base + completed_of(suite.targets@, si as int, ti as int))[i]),
                skipped_count == base_skipped + skipped_of(suite.targets@, ti as int),
            decreases suite.targets@.len() - ti,
        {
            let t = &suite.targets[ti];
            let ghost before = base + completed_of(suite.targets@, si as int, ti as int);
            proof {
                lemma_skipped_of_mono(suite.targets@, ti + 1, suite.targets@.len() as int);
            }
            if t.skipped {
                skipped_count = skipped_count + 1;
                proof {
                    assert(base + completed_of(suite.targets@, si as int, ti + 1) == before);
                }
            } else {
                let row = row_for(suite, t);
                rows.push(row);
                keys.push(t.total_ms);
                proof {
                    let after = base + completed_of(suite.targets@, si as int, ti + 1);
                    assert(after =~= before.push((si as int, ti as int)));
                    assert(walls(sv, after) =~= walls(sv, before).push(t.total_ms));
                    assert forall|i: int| 0 <= i < rows@.len() implies row_of(#[trigger] rows@[i], sv, after[i]) by {
                        if i < rows@.len() - 1 {
                            assert(after[i] == before[i]);
                        }
                    }
                }
            }
            ti = ti + 1;
        }
        proof {
            assert(completed(sv, si + 1) == base + completed_of(suite.targets@, si as int, suite.targets@.len() as int));
        }
        si = si + 1;
    }
    let ghost cs = completed(sv, n);
    let ghost ws = walls(sv, cs);
    let mut total: u128 = 0;
    let mut j: usize = 0;
    while j < keys.len()
        invariant
            j <= keys@.len(),
            keys@ == ws,
            sum_walls(ws) <= u128::MAX,
            total == sum_walls(ws.take(j as int)),
        decreases keys@.len() - j,
    {
        proof {
            assert(ws.take(j + 1).drop_last() =~= ws.take(j as int));
            lemma_sum_walls_prefix(ws, j + 1);
        }
        total = total + keys[j];
        j = j + 1;
    }
    assert(ws.take(keys@.len() as int) =~= ws);
    let order = order_by_desc(&keys);
    let ghost p = order@.map_values(|x: usize| x as int);
    let mut by_wall: Vec<InsightRow> = Vec::new();
    let mut i: usize = 0;
    while i < order.len()
        invariant
            i <= order@.len(),
            p == order@.map_values(|x: usize| x as int),
            is_stable_desc_order(p, keys@),
            keys@ == ws,
            ws == walls(sv, cs),
            rows@.len() == cs.len(),
            forall|k: int| 0 <= k < rows@.len() ==> row_of(#[trigger] rows@[k], sv, cs[k]),
            by_wall@.len() == i,
            forall|k: int| 0 <= k < i ==> row_of(#[trigger] by_wall@[k], sv, cs[p[k]]),
        decreases order@.len() - i,
    {
        assert(p[i as int] == order@[i as int] as int);
        assert(0 <= p[i as int] < keys@.len());
        let ghost at = cs[p[i as int]];
        assert(row_of(rows@[p[i as int]], sv, at));
        let ghost before = by_wall@;
        let r = &rows[order[i]];
        by_wall.push(InsightRow {
            suite: to_owned_string(r.suite.as_str()),
            id: to_owned_string(r.id.as_str()),
            label: to_owned_string(r.label.as_str()),
            wall_ms: r.wall_ms,
            step_sum_ms: r.step_sum_ms,
            overhead_ms: r.overhead_ms,
            peak_rss_kb: r.peak_rss_kb,
        });
        proof {
            assert forall|k: int| 0 <= k < i + 1 implies row_of(#[trigger] by_wall@[k], sv, cs[p[k]]) by {
                if k < i {
                    assert(by_wall@[k] == before[k]);
                }
            }
        }
        i = i + 1;
    }
    RunSummary {
        total_wall_ms_completed: total,
        completed_target_count: rows.len(),
        skipped_target_count: skipped_count,
        by_wall_time: by_wall,
    }
}

// ── Step scripts and messages ──────────────────────────────────────────────

/// Every `$KEY` and `${KEY}` of a script replaced by its value, variable by
/// variable in the given order.
pub open spec fn spec_expand_vars(s: Seq<char>, vars: Seq<(Seq<char>, Seq<char>)>) -> Seq<char>
    decreases vars.len(),
{
    if vars.len() == 0 {
        s
    } else {
        let out = spec_expand_vars(s, vars.drop_last());
        let (k, v) = vars.last();
        replace_all(replace_all(out, "$"@ + k, v), "${"@ + k + "}"@, v)
    }
}

/// Expands the variables of a step script; the variables come in the order
/// in which their table is walked.
pub fn expand_vars(s: &str, vars: &Vec<(String, String)>) -> (r: String)
    ensures
        r@ == spec_expand_vars(s@, pair_views(vars@)),
{
    let ghost pv = pair_views(vars@);
    let mut out = to_owned_string(s);
    let mut i: usize = 0;
    while i < vars.len()
        invariant
            i <= vars@.len(),
            pv == pair_views(vars@),
            out@ == spec_expand_vars(s@, pv.take(i as int)),
        decreases vars@.len() - i,
    {
        proof {
            reveal_strlit("$");
            reveal_strlit("${");
            reveal_strlit("}");
            assert(pv.take(i + 1).drop_last() =~= pv.take(i as int));
            assert(pv.take(i + 1).last() == (vars@[i as int].0@, vars@[i as int].1@));
        }
        let mut plain = to_owned_string("$");
        push_str(&mut plain, vars[i].0.as_str());
        let mut braced = to_owned_string("${");
        push_str(&mut braced, vars[i].0.as_str());
        push_str(&mut braced, "}");
        let once = replace_str(out.as_str(), plain.as_str(), vars[i].1.as_str());
        out = replace_str(once.as_str(), braced.as_str(), vars[i].1.as_str());
        i = i + 1;
    }
    assert(pv.take(vars@.len() as int) =~= pv);
    out
}

/// The variables of a target's step scripts: `REPO`, `WORK`, `TARGET`.
pub fn target_vars(repo: &str, work: &str, target: &str) -> (r: Vec<(String, String)>)
    ensures
        pair_views(r@) == seq![("REPO"@, repo@), ("WORK"@, work@), ("TARGET"@, target@)],
{
    let mut r: Vec<(String, String)> = Vec::new();
    r.push((to_owned_string("REPO"), to_owned_string(repo)));
    r.push((to_owned_string("WORK"), to_owned_string(work)));
    r.push((to_owned_string("TARGET"), to_owned_string(target)));
    assert(pair_views(r@) =~= seq![("REPO"@, repo@), ("WORK"@, work@), ("TARGET"@, target@)]);
    r
}

/// At most the last 2000 bytes of an output, cut on a character boundary.
pub fn tail_str(s: &str) -> (r: String)
    requires
        encode_utf8(s@).len() <= usize::MAX,
        encode_utf8(s@).len() <= 2000 || is_char_boundary(encode_utf8(s@), encode_utf8(s@).len() - 2000),
    ensures
        encode_utf8(s@).len() <= 2000 ==> r@ == s@,
        encode_utf8(s@).len() > 2000 ==> encode_utf8(r@) == encode_utf8(s@).skip(encode_utf8(s@).len() - 2000),
{
    let n = s.len();
    assert(n as int == encode_utf8(s@).len());
    if n > 2000 {
        let (_head, tail) = s.split_at(n - 2000);
        let r = tail.to_owned();
        assert(encode_utf8(r@) == encode_utf8(tail@));
        assert(encode_utf8(tail@) =~= encode_utf8(s@).skip(n - 2000));
        r
    } else {
        s.to_owned()
    }
}

/// The output of a step worth keeping: none when it is blank, else its tail.
pub fn stderr_tail_opt(stderr: &str) -> (r: Option<String>)
    requires
        encode_utf8(stderr@).len() <= usize::MAX,
        encode_utf8(stderr@).len() <= 2000 || is_char_boundary(encode_utf8(stderr@), encode_utf8(stderr@).len() - 2000),
    ensures
        trim(stderr@).len() == 0 ==> r is None,
        trim(stderr@).len() > 0 ==> (r matches Some(t) && (encode_utf8(stderr@).len() <= 2000 ==> t@ == stderr@)
            && (encode_utf8(stderr@).len() > 2000 ==> encode_utf8(t@) == encode_utf8(stderr@).skip(
            encode_utf8(stderr@).len() - 2000,
        ))),
{
    let t = trim_string(stderr);
    if t.unicode_len() == 0 {
        None
    } else {
        Some(tail_str(stderr))
    }
}

/// The failure message of a step.
pub open spec fn spec_step_failure(name: Seq<char>, ms: u128, detail: Seq<char>) -> Seq<char> {
    "step '"@ + name + "' failed ("@ + decimal(ms as nat) + "ms): "@ + detail
}

/// What a failed step's message explains: that output went to the terminal
/// when it was streamed and nothing was captured, else the captured tail or
/// that there was none.
pub open spec fn spec_failure_detail(streamed: bool, stderr_empty: bool, tail: Option<Seq<char>>) -> Seq<char> {
    if streamed && stderr_empty {
        "(output was streamed; see above)"@
    } else {
        match tail {
            Some(t) => t,
            None => "(no output)"@,
        }
    }
}

pub fn step_failure(name: &str, ms: u128, streamed: bool, stderr_empty: bool, tail: Option<String>) -> (r: String)
    ensures
        r@ == spec_step_failure(name@, ms, spec_failure_detail(streamed, stderr_empty, opt_view(tail))),
{
    proof {
        reveal_strlit("step '");
        reveal_strlit("' failed (");
        reveal_strlit("ms): ");
        reveal_strlit("(output was streamed; see above)");
        reveal_strlit("(no output)");
    }
    let detail = if streamed && stderr_empty {
        to_owned_string("(output was streamed; see above)")
    } else {
        match tail {
            Some(t) => t,
            None => to_owned_string("(no output)"),
        }
    };
    let mut m = to_owned_string("step '");
    push_str(&mut m, name);
    push_str(&mut m, "' failed (");
    push_decimal_u128(&mut m, ms);
    push_str(&mut m, "ms): ");
    push_str(&mut m, detail.as_str());
    m
}

/// A note for a table cell: trimmed, with line breaks made spaces, and cut
/// to `max_chars` characters (the last of them `…`) when longer.
pub open spec fn spec_elide(s: Seq<char>, max_chars: nat) -> Seq<char> {
    let t = trim(s).map_values(|c: char| if c == '\n' { ' ' } else { c });
    if t.len() <= max_chars {
        t
    } else {
        t.take(if max_chars > 0 { max_chars - 1 } else { 0 }) + seq!['…']
    }
}

pub fn elide(s: &str, max_chars: usize) -> (r: String)
    ensures
        r@ == spec_elide(s@, max_chars as nat),
{
    let t = trim_string(s);
    let cs = chars_of(t.as_str());
    let ghost flat = trim(s@).map_values(|c: char| if c == '\n' { ' ' } else { c });
    let keep: usize = if cs.len() <= max_chars {
        cs.len()
    } else if max_chars > 0 {
        max_chars - 1
    } else {
        0
    };
    let mut out = String::new();
    let mut i: usize = 0;
    while i < keep
        invariant
            i <= keep <= cs@.len(),
            cs@ == trim(s@),
            flat == trim(s@).map_values(|c: char| if c == '\n' { ' ' } else { c }),
            out@ == flat.take(i as int),
        decreases keep - i,
    {
        let c = cs[i];
        if c == '\n' {
            push_char(&mut out, ' ');
        } else {
            push_char(&mut out, c);
        }
        assert(flat.take(i + 1) =~= flat.take(i as int).push(flat[i as int]));
        i = i + 1;
    }
    if cs.len() > max_chars {
        push_char(&mut out, '…');
    } else {
        assert(flat.take(keep as int) =~= flat);
    }
    out
}

/// A shell script for display: trimmed, and cut to `max` bytes with `…`
/// when longer.
pub fn elide_shell_script(s: &str, max: usize) -> (r: String)
    requires
        encode_utf8(trim(s@)).len() <= usize::MAX,
        encode_utf8(trim(s@)).len() <= max || is_char_boundary(encode_utf8(trim(s@)), max as int),
    ensures
        encode_utf8(trim(s@)).len() <= max ==> r@ == trim(s@),
        encode_utf8(trim(s@)).len() > max ==> exists|head: Seq<char>| #[trigger] encode_utf8(head)
            == encode_utf8(trim(s@)).take(max as int) && r@ == head + seq!['…'],
{
    let t = trim_string(s);
    let ts = t.as_str();
    assert(encode_utf8(ts@) == encode_utf8(trim(s@)));
    if ts.len() <= max {
        t
    } else {
        let (head, _rest) = ts.split_at(max);
        let mut r = head.to_owned();
        assert(encode_utf8(head@) == encode_utf8(head@));
        assert(encode_utf8(head@) =~= encode_utf8(trim(s@)).take(max as int));
        let ghost hv = r@;
        push_char(&mut r, '…');
        assert(encode_utf8(hv) == encode_utf8(trim(s@)).take(max as int) && r@ == hv + seq!['…']);
        r
    }
}

// ── Where a run works ──────────────────────────────────────────────────────

/// The work directory of a run: `--work-root`, else the file's
/// `settings.work_root` (default `examples/benchmarks/.work`) under the repo.
pub open spec fn spec_work_base(repo: Seq<char>, work_override: Option<Seq<char>>, work_root: Option<Seq<char>>) -> Seq<char> {
    match work_override {
        Some(w) => w,
        None => path_join(repo, match work_root {
            Some(r) => r,
            None => "examples/benchmarks/.work"@,
        }),
    }
}

pub fn work_base(repo: &str, work_override: Option<String>, work_root: Option<String>) -> (r: String)
    ensures
        r@ == spec_work_base(repo@, opt_view(work_override), opt_view(work_root)),
{
    match work_override {
        Some(w) => w,
        None => match work_root {
            Some(rel) => join_path(repo, rel.as_str()),
            None => join_path(repo, "examples/benchmarks/.work"),
        },
    }
}

/// The work directory of one target: `<work>/<suite>/<id>`.
pub fn target_dir(work: &str, t: &BenchTarget) -> (r: String)
    ensures
        r@ == path_join(path_join(work@, t.suite@), t.id@),
{
    let suite_dir = join_path(work, t.suite.as_str());
    join_path(suite_dir.as_str(), t.id.as_str())
}

/// Only version 1 of `benchmark.toml` is understood.
pub fn check_version(version: u32) -> (r: Result<(), String>)
    ensures
        r is Ok <==> version == 1,
        r matches Err(m) ==> m@ == "unsupported benchmark.toml version "@ + decimal(version as nat),
{
    if version == 1 {
        Ok(())
    } else {
        proof {
            reveal_strlit("unsupported benchmark.toml version ");
        }
        let mut m = to_owned_string("unsupported benchmark.toml version ");
        crate::num::push_decimal(&mut m, version as u64);
        Err(m)
    }
}

// ── Builtin targets ────────────────────────────────────────────────────────

/// What a builtin target runs.
#[derive(Debug, Clone, PartialEq, Eq)]
pub enum BuiltinPlan {
    /// `crepus web build --site <site> --out-dir <out>`.
    Web { site_path: String, out_dir: String },
    /// Copy the fixture to the work directory, then `crepus webext build --app <app>`.
    Webext { fixture: String, app_dir: String },
    /// `cargo build --release` in the GPUI fixture, with its target directory
    /// in the work directory.
    Desktop { crate_dir: String, cargo_toml: String, target_dir: String },
}

/// The plan of a builtin, or the error for an unknown one.
pub fn plan_builtin(builtin: &str, site: &Option<String>, repo: &str, work_dir: &str) -> (r: Result<BuiltinPlan, String>)
    ensures
        builtin@ == "crepus-web"@ ==> (r matches Ok(BuiltinPlan::Web { site_path, out_dir })
            && site_path@ == path_join(repo@, match opt_view(*site) {
                Some(x) => x,
                None => "examples/benchmarks/crepus-web"@,
            }) && out_dir@ == path_join(work_dir@, "out"@)),
        builtin@ == "crepus-webext"@ ==> (r matches Ok(BuiltinPlan::Webext { fixture, app_dir })
            && fixture@ == path_join(repo@, "examples/benchmarks/crepus-webext"@)
            && app_dir@ == path_join(work_dir@, "app"@)),
        builtin@ == "crepus-desktop"@ ==> (r matches Ok(BuiltinPlan::Desktop { crate_dir, cargo_toml, target_dir })
            && crate_dir@ == path_join(repo@, "examples/benchmarks/crepus-desktop"@)
            && cargo_toml@ == path_join(crate_dir@, "Cargo.toml"@)
            && target_dir@ == path_join(work_dir@, "cargo-target"@)),
        builtin@ != "crepus-web"@ && builtin@ != "crepus-webext"@ && builtin@ != "crepus-desktop"@
            ==> (r matches Err(m) && m@ == "unknown builtin '"@ + builtin@ + "'"@),
{
    proof {
        reveal_strlit("crepus-web");
        reveal_strlit("crepus-webext");
        reveal_strlit("crepus-desktop");
        assert("crepus-web"@.len() == 10);
        assert("crepus-webext"@.len() == 13);
        assert("crepus-desktop"@.len() == 14);
        assert("crepus-webext"@ != "crepus-web"@);
        assert("crepus-desktop"@ != "crepus-web"@);
        assert("crepus-desktop"@ != "crepus-webext"@);
    }
    if str_eq(builtin, "crepus-web") {
        let site_path = match site {
            Some(x) => join_path(repo, x.as_str()),
            None => join_path(repo, "examples/benchmarks/crepus-web"),
        };
        let out_dir = join_path(work_dir, "out");
        Ok(BuiltinPlan::Web { site_path, out_dir })
    } else if str_eq(builtin, "crepus-webext") {
        let fixture = join_path(repo, "examples/benchmarks/crepus-webext");
        let app_dir = join_path(work_dir, "app");
        Ok(BuiltinPlan::Webext { fixture, app_dir })
    } else if str_eq(builtin, "crepus-desktop") {
        let crate_dir = join_path(repo, "examples/benchmarks/crepus-desktop");
        let cargo_toml = join_path(crate_dir.as_str(), "Cargo.toml");
        let target_dir = join_path(work_dir, "cargo-target");
        Ok(BuiltinPlan::Desktop { crate_dir, cargo_toml, target_dir })
    } else {
        proof {
            reveal_strlit("unknown builtin '");
            reveal_strlit("'");
        }
        let mut m = to_owned_string("unknown builtin '");
        push_str(&mut m, builtin);
        push_str(&mut m, "'");
        Err(m)
    }
}

/// The error of a builtin step: none when it succeeded, else its output, or
/// `default` when it printed nothing.
pub fn builtin_step_error(ok: bool, combined: String, default: &str) -> (r: Option<String>)
    ensures
        ok ==> r is None,
        !ok && combined@.len() == 0 ==> (r matches Some(m) && m@ == default@),
        !ok && combined@.len() > 0 ==> r == Some(combined),
{
    if ok {
        None
    } else if combined.unicode_len() == 0 {
        Some(to_owned_string(default))
    } else {
        Some(combined)
    }
}

/// The results a dry run reports for a builtin: its steps, untimed and ok.
pub fn dry_run_results(plan: &BuiltinPlan) -> (r: Vec<StepResult>)
    ensures
        plan is Web ==> r@.len() == 1 && r@[0].name@ == "crepus web build"@,
        plan is Webext ==> r@.len() == 2 && r@[0].name@ == "sync fixture"@ && r@[1].name@ == "crepus webext build"@,
        plan is Desktop ==> r@.len() == 1 && r@[0].name@ == "cargo build --release (GPUI fixture)"@,
        forall|i: int| 0 <= i < r@.len() ==> (#[trigger] r@[i]).duration_ms == 0 && r@[i].ok
            && r@[i].max_rss_kb is None && r@[i].stderr_tail is None,
{
    let mut r: Vec<StepResult> = Vec::new();
    match plan {
        BuiltinPlan::Web { .. } => {
            r.push(StepResult { name: to_owned_string("crepus web build"), duration_ms: 0, ok: true, max_rss_kb: None, stderr_tail: None });
        },
        BuiltinPlan::Webext { .. } => {
            r.push(StepResult { name: to_owned_string("sync fixture"), duration_ms: 0, ok: true, max_rss_kb: None, stderr_tail: None });
            r.push(StepResult { name: to_owned_string("crepus webext build"), duration_ms: 0, ok: true, max_rss_kb: None, stderr_tail: None });
        },
        BuiltinPlan::Desktop { .. } => {
            r.push(StepResult {
                name: to_owned_string("cargo build --release (GPUI fixture)"),
                duration_ms: 0,
                ok: true,
                max_rss_kb: None,
                stderr_tail: None,
            });
        },
    }
    r
}

// ── Where the benchmark runs ───────────────────────────────────────────────

/// The files tried, in order, for `benchmark.toml` when no `--config` is
/// given: in the working directory, then under `examples/benchmarks`.
pub fn config_candidates(cwd: &str) -> (r: Vec<String>)
    ensures
        sviews(r@) == seq![path_join(cwd@, "benchmark.toml"@), path_join(cwd@, "examples/benchmarks/benchmark.toml"@)],
{
    let r = vec![join_path(cwd, "benchmark.toml"), join_path(cwd, "examples/benchmarks/benchmark.toml")];
    assert(sviews(r@) =~= seq![path_join(cwd@, "benchmark.toml"@), path_join(cwd@, "examples/benchmarks/benchmark.toml"@)]);
    r
}

/// The repository root: what `git rev-parse --show-toplevel` printed
/// (trimmed), when it succeeded and printed something; else the directory
/// three levels above the config file, or `.` when there is none.
pub open spec fn spec_repo_root(git_toplevel: Option<Seq<char>>, config: Seq<char>) -> Seq<char> {
    if git_toplevel is Some && trim(git_toplevel->Some_0).len() > 0 {
        trim(git_toplevel->Some_0)
    } else {
        match nth_parent(config, 3) {
            Some(p) => p,
            None => "."@,
        }
    }
}

pub fn repo_root_from(git_toplevel: Option<&str>, config: &str) -> (r: String)
    ensures
        r@ == spec_repo_root(
            match git_toplevel {
                Some(o) => Some(o@),
                None => None,
            },
            config@,
        ),
{
    if let Some(o) = git_toplevel {
        let t = trim_string(o);
        if t.unicode_len() > 0 {
            return t;
        }
    }
    let ghost n1 = nth_parent(config@, 1);
    let ghost n2 = nth_parent(config@, 2);
    let ghost n3 = nth_parent(config@, 3);
    assert(nth_parent(config@, 0) == Some(config@));
    assert(n1 == path_parent(config@));
    let p1 = match parent_of(config) {
        Some(p) => p,
        None => {
            assert(n3 is None);
            return to_owned_string(".");
        },
    };
    assert(n2 == path_parent(p1@));
    let p2 = match parent_of(p1.as_str()) {
        Some(p) => p,
        None => {
            assert(n3 is None);
            return to_owned_string(".");
        },
    };
    assert(n3 == path_parent(p2@));
    match parent_of(p2.as_str()) {
        Some(p) => p,
        None => to_owned_string("."),
    }
}

} // verus!
