//! `crepus build` over the `[[targets]]` of a manifest: which targets a
//! selector names, how each target type is built, and where its output goes.
//! Reading the manifest, rendering and writing stay with the caller.
use vstd::prelude::*;
use crate::text::{opt_view, sviews};
use crate::build_options::BuildOptions;
use crate::crepus_toml::{debug_list, first_with_id, pick_targets, push_debug_list};
use crate::dispatch::{debug_quoted, quote_debug};
use crate::native_ir::{join_path, path_join};
use crate::text::{push_str, str_eq, to_owned_string};

verus! {

/// The arguments of a manifest-driven build.
pub struct ManifestBuildArgs {
    pub options: BuildOptions,
    pub target_id: Option<String>,
    pub selector: Option<String>,
    pub manifest: Option<String>,
    pub all: bool,
}

/// The spelling a selector or a target type is compared by: the extension
/// aliases read as `webext`, `ir` as `native`.
pub open spec fn normalized(sel: Seq<char>) -> Seq<char> {
    if sel == "extension"@ || sel == "browser-extension"@ || sel == "web-extension"@ {
        "webext"@
    } else if sel == "ir"@ {
        "native"@
    } else {
        sel
    }
}

pub fn normalize_selector(selector: &str) -> (r: String)
    ensures
        r@ == normalized(selector@),
{
    if str_eq(selector, "extension") || str_eq(selector, "browser-extension") || str_eq(
        selector,
        "web-extension",
    ) {
        to_owned_string("webext")
    } else if str_eq(selector, "ir") {
        to_owned_string("native")
    } else {
        to_owned_string(selector)
    }
}

/// The indices below `n`, in order, whose type normalizes as the selector does.
pub open spec fn type_matches(types: Seq<Seq<char>>, sel: Seq<char>, n: int) -> Seq<usize>
    decreases n,
{
    if n <= 0 {
        Seq::empty()
    } else if normalized(types[n - 1]) == normalized(sel) {
        type_matches(types, sel, n - 1).push((n - 1) as usize)
    } else {
        type_matches(types, sel, n - 1)
    }
}

/// What a positional selector picks: the target with that id, else every
/// target whose type matches, else an error that lists the ids.
pub open spec fn spec_pick_by_selector(ids: Seq<Seq<char>>, types: Seq<Seq<char>>, sel: Seq<char>) -> Result<Seq<usize>, Seq<char>> {
    match first_with_id(ids, sel) {
        Some(k) => Ok(seq![k as usize]),
        None => if type_matches(types, sel, ids.len() as int).len() > 0 {
            Ok(type_matches(types, sel, ids.len() as int))
        } else {
            Err("no target id or type "@ + debug_quoted(sel) + " (ids: "@ + debug_list(ids) + ")"@)
        },
    }
}

fn matching_types(types: &Vec<String>, n: usize, sel: &str) -> (r: Vec<usize>)
    requires
        n <= types@.len(),
    ensures
        r@ == type_matches(sviews(types@), sel@, n as int),
{
    let ghost tv = sviews(types@);
    let want = normalize_selector(sel);
    let mut r: Vec<usize> = Vec::new();
    let mut i: usize = 0;
    while i < n
        invariant
            i <= n <= types@.len(),
            tv == sviews(types@),
            want@ == normalized(sel@),
            r@ == type_matches(tv, sel@, i as int),
        decreases n - i,
    {
        let t = normalize_selector(types[i].as_str());
        assert(tv[i as int] == types@[i as int]@);
        if str_eq(t.as_str(), want.as_str()) {
            r.push(i);
        }
        i = i + 1;
    }
    r
}

/// The targets a positional selector picks, by index; `ids` and `types`
/// run in step over the manifest's targets.
pub fn pick_targets_by_selector(ids: &Vec<String>, types: &Vec<String>, selector: &str) -> (r: Result<Vec<usize>, String>)
    requires
        ids@.len() == types@.len(),
    ensures
        match (r, spec_pick_by_selector(sviews(ids@), sviews(types@), selector@)) {
            (Ok(v), Ok(w)) => v@ == w,
            (Err(m), Err(w)) => m@ == w,
            _ => false,
        },
{
    match pick_targets(ids, Some(selector)) {
        Ok(v) => {
            return Ok(v);
        },
        Err(_) => {},
    }
    let picked = matching_types(types, ids.len(), selector);
    if picked.len() > 0 {
        return Ok(picked);
    }
    proof {
        reveal_strlit("no target id or type ");
        reveal_strlit(" (ids: ");
        reveal_strlit(")");
    }
    let mut m = to_owned_string("no target id or type ");
    let q = quote_debug(selector);
    push_str(&mut m, q.as_str());
    push_str(&mut m, " (ids: ");
    push_debug_list(&mut m, ids);
    push_str(&mut m, ")");
    Err(m)
}

/// The arguments that cannot go together.
pub open spec fn spec_args_conflict(target_id: bool, selector: bool, all: bool) -> Option<Seq<char>> {
    if target_id && selector {
        Some("use either --target ID or a positional selector, not both"@)
    } else if all && (target_id || selector) {
        Some("use either --all or a target selector, not both"@)
    } else {
        None
    }
}

/// Checks the build arguments before the manifest is read.
pub fn args_conflict(args: &ManifestBuildArgs) -> (r: Option<String>)
    ensures
        match (r, spec_args_conflict(args.target_id is Some, args.selector is Some, args.all)) {
            (Some(m), Some(w)) => m@ == w,
            (None, None) => true,
            _ => false,
        },
{
    if args.target_id.is_some() && args.selector.is_some() {
        Some(to_owned_string("use either --target ID or a positional selector, not both"))
    } else if args.all && (args.target_id.is_some() || args.selector.is_some()) {
        Some(to_owned_string("use either --all or a target selector, not both"))
    } else {
        None
    }
}

/// Every index below `n`, in order.
pub open spec fn all_indices(n: nat) -> Seq<usize> {
    Seq::new(n, |i: int| i as usize)
}

/// The targets of a manifest build, by index, once the manifest's targets
/// are known by id and type.
pub open spec fn spec_select(
    target_id: Option<Seq<char>>,
    selector: Option<Seq<char>>,
    all: bool,
    ids: Seq<Seq<char>>,
    types: Seq<Seq<char>>,
) -> Result<Seq<usize>, Seq<char>> {
    match spec_args_conflict(target_id is Some, selector is Some, all) {
        Some(m) => Err(m),
        None => if ids.len() == 0 {
            Err("crepus.toml has no [[targets]] entries"@)
        } else if all {
            Ok(all_indices(ids.len()))
        } else {
            match selector {
                Some(s) => spec_pick_by_selector(ids, types, s),
                None => match target_id {
                    Some(x) => match first_with_id(ids, x) {
                        Some(k) => Ok(seq![k as usize]),
                        None => Err("no target with id "@ + debug_quoted(x) + " (available: "@ + debug_list(ids) + ")"@),
                    },
                    None => Ok(all_indices(ids.len())),
                },
            }
        },
    }
}

/// The targets that `crepus build` builds, by index.
pub fn select_targets(args: &ManifestBuildArgs, ids: &Vec<String>, types: &Vec<String>) -> (r: Result<Vec<usize>, String>)
    requires
        ids@.len() == types@.len(),
    ensures
        match (r, spec_select(opt_view(args.target_id), opt_view(args.selector), args.all, sviews(ids@), sviews(types@))) {
            (Ok(v), Ok(w)) => v@ == w,
            (Err(m), Err(w)) => m@ == w,
            _ => false,
        },
{
    match args_conflict(args) {
        Some(m) => {
            return Err(m);
        },
        None => {},
    }
    if ids.len() == 0 {
        return Err(to_owned_string("crepus.toml has no [[targets]] entries"));
    }
    if args.all || (args.selector.is_none() && args.target_id.is_none()) {
        let r = pick_targets(ids, None);
        match r {
            Ok(v) => {
                assert(v@ =~= all_indices(ids@.len()));
                return Ok(v);
            },
            Err(m) => {
                return Err(m);
            },
        }
    }
    match &args.selector {
        Some(s) => pick_targets_by_selector(ids, types, s.as_str()),
        None => match &args.target_id {
            Some(x) => pick_targets(ids, Some(x.as_str())),
            None => Err(to_owned_string("")),
        },
    }
}

// ── one target ─────────────────────────────────────────────────────────────

/// How a target type is built.
#[derive(Clone, Copy, Debug, PartialEq, Eq, Structural)]
pub enum TargetKind {
    Web,
    Webext,
    Lvgl,
    Native,
    Embedded,
}

pub open spec fn spec_target_kind(t: Seq<char>) -> Result<TargetKind, Seq<char>> {
    if t == "web"@ {
        Ok(TargetKind::Web)
    } else if t == "webext"@ {
        Ok(TargetKind::Webext)
    } else if t == "lvgl"@ {
        Ok(TargetKind::Lvgl)
    } else if t == "native"@ || t == "ir"@ {
        Ok(TargetKind::Native)
    } else if t == "embedded"@ {
        Ok(TargetKind::Embedded)
    } else {
        Err("unsupported target type "@ + debug_quoted(t))
    }
}

pub fn target_kind(target_type: &str) -> (r: Result<TargetKind, String>)
    ensures
        match (r, spec_target_kind(target_type@)) {
            (Ok(k), Ok(w)) => k == w,
            (Err(m), Err(w)) => m@ == w,
            _ => false,
        },
{
    if str_eq(target_type, "web") {
        Ok(TargetKind::Web)
    } else if str_eq(target_type, "webext") {
        Ok(TargetKind::Webext)
    } else if str_eq(target_type, "lvgl") {
        Ok(TargetKind::Lvgl)
    } else if str_eq(target_type, "native") || str_eq(target_type, "ir") {
        Ok(TargetKind::Native)
    } else if str_eq(target_type, "embedded") {
        Ok(TargetKind::Embedded)
    } else {
        proof {
            reveal_strlit("unsupported target type ");
        }
        let mut m = to_owned_string("unsupported target type ");
        let q = quote_debug(target_type);
        push_str(&mut m, q.as_str());
        Err(m)
    }
}

/// The root element of an LVGL document.
#[derive(Clone, Copy, Debug, PartialEq, Eq, Structural)]
pub enum LvglRootChoice {
    Screen,
    Component,
}

pub open spec fn spec_lvgl_root(root: Option<Seq<char>>) -> Result<LvglRootChoice, Seq<char>> {
    let r = match root {
        Some(s) => s,
        None => "component"@,
    };
    if r == "screen"@ {
        Ok(LvglRootChoice::Screen)
    } else if r == "component"@ {
        Ok(LvglRootChoice::Component)
    } else {
        Err("lvgl root must be component or screen, got "@ + debug_quoted(r))
    }
}

/// Reads the `root` of an LVGL target; absent, it is `component`.
pub fn lvgl_root(root: &Option<String>) -> (r: Result<LvglRootChoice, String>)
    ensures
        match (r, spec_lvgl_root(opt_view(*root))) {
            (Ok(k), Ok(w)) => k == w,
            (Err(m), Err(w)) => m@ == w,
            _ => false,
        },
{
    let rs: &str = match root {
        Some(s) => s.as_str(),
        None => "component",
    };
    if str_eq(rs, "screen") {
        Ok(LvglRootChoice::Screen)
    } else if str_eq(rs, "component") {
        Ok(LvglRootChoice::Component)
    } else {
        proof {
            reveal_strlit("lvgl root must be component or screen, got ");
        }
        let mut m = to_owned_string("lvgl root must be component or screen, got ");
        let q = quote_debug(rs);
        push_str(&mut m, q.as_str());
        Err(m)
    }
}

/// A native target writes pretty JSON when its root is `pretty`.
pub fn native_pretty(root: &Option<String>) -> (r: bool)
    ensures
        r == (opt_view(*root) == Some("pretty"@)),
{
    match root {
        Some(s) => str_eq(s.as_str(), "pretty"),
        None => false,
    }
}

/// The template a target renders: its `template`, else its `entry` under
/// its directory, else `ui.crepus` there.
pub open spec fn spec_target_template(template: Option<Seq<char>>, entry: Option<Seq<char>>, dir: Seq<char>) -> Seq<char> {
    match template {
        Some(t) => t,
        None => match entry {
            Some(e) => path_join(dir, e),
            None => path_join(dir, "ui.crepus"@),
        },
    }
}

pub fn target_template(template: &Option<String>, entry: &Option<String>, dir: &str) -> (r: String)
    ensures
        r@ == spec_target_template(opt_view(*template), opt_view(*entry), dir@),
{
    match template {
        Some(t) => to_owned_string(t.as_str()),
        None => match entry {
            Some(e) => join_path(dir, e.as_str()),
            None => join_path(dir, "ui.crepus"),
        },
    }
}

/// Where a target's output goes: its `out`, else `dist/<id>.<ext>` under its
/// directory.
pub open spec fn spec_target_output(out: Option<Seq<char>>, dir: Seq<char>, id: Seq<char>, ext: Seq<char>) -> Seq<char> {
    match out {
        Some(o) => o,
        None => path_join(path_join(dir, "dist"@), id + "."@ + ext),
    }
}

pub fn target_output(out: &Option<String>, dir: &str, id: &str, ext: &str) -> (r: String)
    ensures
        r@ == spec_target_output(opt_view(*out), dir@, id@, ext@),
{
    match out {
        Some(o) => to_owned_string(o.as_str()),
        None => {
            proof {
                reveal_strlit(".");
            }
            let d = join_path(dir, "dist");
            let mut f = to_owned_string(id);
            push_str(&mut f, ".");
            push_str(&mut f, ext);
            join_path(d.as_str(), f.as_str())
        },
    }
}

/// An embedded target needs both a width and a height.
pub fn embedded_size(width: Option<u16>, height: Option<u16>) -> (r: Result<(u16, u16), String>)
    ensures
        match (width, height) {
            (Some(w), Some(h)) => r == Ok::<(u16, u16), String>((w, h)),
            (None, _) => r matches Err(m) && m@ == "embedded target needs width"@,
            (Some(_), None) => r matches Err(m) && m@ == "embedded target needs height"@,
        },
{
    match width {
        None => Err(to_owned_string("embedded target needs width")),
        Some(w) => match height {
            None => Err(to_owned_string("embedded target needs height")),
            Some(h) => Ok((w, h)),
        },
    }
}


/// Aliases resolve to one canonical name: normalizing twice is normalizing once.
pub proof fn law_normalize_idempotent(sel: Seq<char>)
    ensures
        normalized(normalized(sel)) == normalized(sel),
{
    reveal_strlit("webext");
    reveal_strlit("native");
    reveal_strlit("extension");
    reveal_strlit("browser-extension");
    reveal_strlit("web-extension");
    reveal_strlit("ir");
}


/// Every target whose type normalizes as the selector does is among the
/// type matches.
proof fn lemma_type_matches_has(types: Seq<Seq<char>>, sel: Seq<char>, n: int, i: int)
    requires
        0 <= i < n,
        normalized(types[i]) == normalized(sel),
    ensures
        type_matches(types, sel, n).contains(i as usize),
    decreases n,
{
    if i < n - 1 {
        lemma_type_matches_has(types, sel, n - 1, i);
        let t = type_matches(types, sel, n - 1);
        let k = choose|k: int| 0 <= k < t.len() && t[k] == i as usize;
        if normalized(types[n - 1]) == normalized(sel) {
            assert(t.push((n - 1) as usize)[k] == i as usize);
        }
    } else {
        assert(type_matches(types, sel, n).last() == i as usize);
    }
}

/// The extension aliases (`extension`, `browser-extension`,
/// `web-extension`) pick the browser-extension targets, and `ir` picks the
/// native ones: when no target has the alias as its id, every target of
/// type `webext` (or `native`) is picked.
pub proof fn law_selector_aliases_pick_their_targets(ids: Seq<Seq<char>>, types: Seq<Seq<char>>, sel: Seq<char>, i: int)
    requires
        ids.len() == types.len(),
        0 <= i < ids.len(),
        first_with_id(ids, sel) is None,
        ((sel == "extension"@ || sel == "browser-extension"@ || sel == "web-extension"@) && types[i] == "webext"@)
            || (sel == "ir"@ && types[i] == "native"@),
    ensures
        spec_pick_by_selector(ids, types, sel) is Ok,
        spec_pick_by_selector(ids, types, sel)->Ok_0.contains(i as usize),
{
    reveal_strlit("webext");
    reveal_strlit("native");
    reveal_strlit("extension");
    reveal_strlit("browser-extension");
    reveal_strlit("web-extension");
    reveal_strlit("ir");
    assert("webext"@ != "extension"@) by { assert("webext"@.len() != "extension"@.len()); }
    assert("webext"@ != "browser-extension"@) by { assert("webext"@.len() != "browser-extension"@.len()); }
    assert("webext"@ != "web-extension"@) by { assert("webext"@.len() != "web-extension"@.len()); }
    assert("webext"@ != "ir"@) by { assert("webext"@.len() != "ir"@.len()); }
    assert("native"@ != "extension"@) by { assert("native"@.len() != "extension"@.len()); }
    assert("native"@ != "browser-extension"@) by { assert("native"@.len() != "browser-extension"@.len()); }
    assert("native"@ != "web-extension"@) by { assert("native"@.len() != "web-extension"@.len()); }
    assert("native"@ != "ir"@) by { assert("native"@.len() != "ir"@.len()); }
    assert("ir"@ != "extension"@) by { assert("ir"@.len() != "extension"@.len()); }
    assert("ir"@ != "browser-extension"@) by { assert("ir"@.len() != "browser-extension"@.len()); }
    assert("ir"@ != "web-extension"@) by { assert("ir"@.len() != "web-extension"@.len()); }
    assert(normalized(types[i]) == normalized(sel));
    lemma_type_matches_has(types, sel, ids.len() as int, i);
}

} // verus!
