//! The root `crepus.toml`: its `[ios]`, `[web]` and SEO sections as plain
//! values, how target rows resolve (site directory, entry, id), choosing
//! targets by id, and finding the manifest from a directory upward.
use vstd::prelude::*;
use crate::text::{opt_view, sviews};
use crate::dispatch::{debug_quoted, quote_debug};
use crate::native_ir::{join_path, path_join};
use crate::num::{decimal, push_decimal};
use crate::text::{push_str, str_eq, to_owned_string, ascii_lowercase, to_ascii_lowercase};

verus! {

/// `[ios]`: the Xcode scheme, the XcodeGen spec and the build destination.
#[derive(Debug, Clone, PartialEq, Eq)]
pub struct IosTomlSection {
    pub scheme: String,
    pub xcodegen_spec: String,
    pub destination: String,
}

/// `[web]`: the single-site shorthand when there are no `[[targets]]`.
#[derive(Debug, Clone, PartialEq, Eq)]
pub struct WebShorthand {
    pub site: String,
    pub out: Option<String>,
    pub entry: Option<String>,
}

/// An alternate link of a page (`<link rel="alternate">`).
#[derive(Debug, Clone, PartialEq, Eq)]
pub struct SeoAlternate {
    pub href: String,
    pub hreflang: Option<String>,
    pub media: Option<String>,
    pub title: Option<String>,
    pub mime_type: Option<String>,
}

/// `robots.txt` settings of a site.
#[derive(Debug, Clone, PartialEq, Eq)]
pub struct RobotsTxtConfig {
    pub enabled: bool,
    pub user_agent: Option<String>,
    pub allow: Vec<String>,
    pub disallow: Vec<String>,
    pub sitemap: Option<String>,
}

/// The XcodeGen spec used when `[ios]` names none.
pub fn default_xcodegen_spec() -> (r: String)
    ensures
        r@ == "project.yml"@,
{
    to_owned_string("project.yml")
}

/// The destination used when `[ios]` names none.
pub fn default_ios_destination() -> (r: String)
    ensures
        r@ == "platform=iOS Simulator,name=iPhone 16,OS=latest"@,
{
    to_owned_string("platform=iOS Simulator,name=iPhone 16,OS=latest")
}

/// The site of `[web]` when it names none.
pub fn default_web_site() -> (r: String)
    ensures
        r@ == "."@,
{
    to_owned_string(".")
}

/// `robots.txt` is on unless turned off.
pub fn default_robots_enabled() -> (r: bool)
    ensures
        r,
{
    true
}

// ── Target rows ────────────────────────────────────────────────────────────

/// The directory of a target row: its `site`, else `path`, else `app`,
/// else the manifest's own directory.
pub open spec fn spec_row_site(site: Option<Seq<char>>, path: Option<Seq<char>>, app: Option<Seq<char>>) -> Seq<char> {
    match site {
        Some(s) => s,
        None => match path {
            Some(p) => p,
            None => match app {
                Some(a) => a,
                None => "."@,
            },
        },
    }
}

pub fn row_site(site: &Option<String>, path: &Option<String>, app: &Option<String>) -> (r: String)
    ensures
        r@ == spec_row_site(opt_view(*site), opt_view(*path), opt_view(*app)),
{
    match site {
        Some(s) => to_owned_string(s.as_str()),
        None => match path {
            Some(p) => to_owned_string(p.as_str()),
            None => match app {
                Some(a) => to_owned_string(a.as_str()),
                None => to_owned_string("."),
            },
        },
    }
}

/// The entry template of a web target: `index.crepus` unless a non-empty
/// one is given.
pub fn web_entry(entry: &Option<String>) -> (r: String)
    ensures
        r@ == match opt_view(*entry) {
            Some(e) => if e.len() > 0 { e } else { "index.crepus"@ },
            None => "index.crepus"@,
        },
{
    match entry {
        Some(e) => if e.unicode_len() > 0 {
            to_owned_string(e.as_str())
        } else {
            to_owned_string("index.crepus")
        },
        None => to_owned_string("index.crepus"),
    }
}

/// A path of the manifest relative to its directory, or absolute.
pub fn absolutize(base: &str, path: &str) -> (r: String)
    ensures
        r@ == path_join(base@, path@),
{
    join_path(base, path)
}

/// Whether a row's `type` names a web target (`web`, any case).
pub fn is_web_type(target_type: &str) -> (r: bool)
    ensures
        r == (ascii_lowercase(target_type@) == "web"@),
{
    let t = to_ascii_lowercase(target_type);
    str_eq(t.as_str(), "web")
}

/// `Path::file_name`: the last normal component of a path. The result is
/// named `path_file_name` and depends on the path alone.
pub uninterp spec fn path_file_name(path: Seq<char>) -> Option<Seq<char>>;

#[verifier::external_body]
pub(crate) fn file_name_of(path: &str) -> (r: Option<String>)
    ensures
        opt_view(r) == path_file_name(path@),
{
    std::path::Path::new(path).file_name().map(|s| s.to_string_lossy().into_owned())
}

/// The id of a target row without one: its directory's name, or
/// `fallback` when that is missing or empty.
pub open spec fn spec_row_id(id: Option<Seq<char>>, dir: Seq<char>, fallback: Seq<char>) -> Seq<char> {
    match id {
        Some(i) => i,
        None => match path_file_name(dir) {
            Some(n) => if n.len() > 0 { n } else { fallback },
            None => fallback,
        },
    }
}

/// The id of a web target row (`default` when nothing names it).
pub fn web_target_id(id: &Option<String>, site_dir: &str) -> (r: String)
    ensures
        r@ == spec_row_id(opt_view(*id), site_dir@, "default"@),
{
    match id {
        Some(i) => to_owned_string(i.as_str()),
        None => match file_name_of(site_dir) {
            Some(n) => if n.unicode_len() > 0 {
                n
            } else {
                to_owned_string("default")
            },
            None => to_owned_string("default"),
        },
    }
}

/// The id of the `idx`-th target row (`target-<idx>` when nothing names it).
pub fn target_id(id: &Option<String>, dir: &str, idx: usize) -> (r: String)
    ensures
        r@ == spec_row_id(opt_view(*id), dir@, "target-"@ + decimal(idx as nat)),
{
    proof {
        reveal_strlit("target-");
    }
    let mut fallback = to_owned_string("target-");
    push_decimal(&mut fallback, idx as u64);
    match id {
        Some(i) => to_owned_string(i.as_str()),
        None => match file_name_of(dir) {
            Some(n) => if n.unicode_len() > 0 {
                n
            } else {
                fallback
            },
            None => fallback,
        },
    }
}

// ── Resolving `[[targets]]` rows ───────────────────────────────────────────

/// A `[[targets]]` row as the manifest writes it (paths relative to the
/// manifest's directory, or absolute).
#[derive(Debug, Clone, PartialEq, Eq)]
pub struct TargetRow {
    pub id: Option<String>,
    pub target_type: String,
    pub site: Option<String>,
    pub path: Option<String>,
    pub app: Option<String>,
    pub out: Option<String>,
    pub entry: Option<String>,
    pub template: Option<String>,
    pub component: Option<String>,
    pub ctx: Option<String>,
    pub name: Option<String>,
    pub root: Option<String>,
    pub width: Option<u16>,
    pub height: Option<u16>,
}

/// A row with its paths under the manifest's directory, its id settled and
/// its type in lower case.
#[derive(Debug, Clone, PartialEq, Eq)]
pub struct ResolvedTarget {
    pub id: String,
    pub target_type: String,
    pub dir: String,
    pub out: Option<String>,
    pub entry: Option<String>,
    pub template: Option<String>,
    pub component: Option<String>,
    pub ctx: Option<String>,
    pub name: Option<String>,
    pub root: Option<String>,
    pub width: Option<u16>,
    pub height: Option<u16>,
}

pub open spec fn joined_opt(base: Seq<char>, p: Option<Seq<char>>) -> Option<Seq<char>> {
    match p {
        Some(x) => Some(path_join(base, x)),
        None => None,
    }
}

/// How the `idx`-th row resolves under the manifest's directory `base`.
pub open spec fn spec_resolved(base: Seq<char>, idx: nat, row: TargetRow, t: ResolvedTarget) -> bool {
    let dir = path_join(base, spec_row_site(opt_view(row.site), opt_view(row.path), opt_view(row.app)));
    &&& t.dir@ == dir
    &&& t.id@ == spec_row_id(opt_view(row.id), dir, "target-"@ + decimal(idx))
    &&& t.target_type@ == ascii_lowercase(row.target_type@)
    &&& opt_view(t.out) == joined_opt(base, opt_view(row.out))
    &&& opt_view(t.template) == joined_opt(base, opt_view(row.template))
    &&& opt_view(t.ctx) == joined_opt(base, opt_view(row.ctx))
    &&& t.entry == row.entry && t.component == row.component && t.name == row.name && t.root == row.root
    &&& t.width == row.width && t.height == row.height
}

fn join_opt(base: &str, p: &Option<String>) -> (r: Option<String>)
    ensures
        opt_view(r) == joined_opt(base@, opt_view(*p)),
{
    match p {
        Some(x) => Some(join_path(base, x.as_str())),
        None => None,
    }
}

/// Resolves the `idx`-th `[[targets]]` row of the manifest in `manifest_dir`.
pub fn resolved_target(manifest_dir: &str, idx: usize, row: &TargetRow) -> (r: ResolvedTarget)
    ensures
        spec_resolved(manifest_dir@, idx as nat, *row, r),
{
    let site = row_site(&row.site, &row.path, &row.app);
    let dir = join_path(manifest_dir, site.as_str());
    let id = target_id(&row.id, dir.as_str(), idx);
    ResolvedTarget {
        id,
        target_type: to_ascii_lowercase(row.target_type.as_str()),
        dir,
        out: join_opt(manifest_dir, &row.out),
        entry: row.entry.clone(),
        template: join_opt(manifest_dir, &row.template),
        component: row.component.clone(),
        ctx: join_opt(manifest_dir, &row.ctx),
        name: row.name.clone(),
        root: row.root.clone(),
        width: row.width,
        height: row.height,
    }
}

/// Every `[[targets]]` row, resolved, in order.
pub fn resolved_targets(manifest_dir: &str, rows: &Vec<TargetRow>) -> (r: Vec<ResolvedTarget>)
    ensures
        r@.len() == rows@.len(),
        forall|i: int| 0 <= i < rows@.len() ==> spec_resolved(manifest_dir@, i as nat, rows@[i], #[trigger] r@[i]),
{
    let mut r: Vec<ResolvedTarget> = Vec::new();
    let mut i: usize = 0;
    while i < rows.len()
        invariant
            i <= rows@.len(),
            r@.len() == i,
            forall|j: int| 0 <= j < i ==> spec_resolved(manifest_dir@, j as nat, rows@[j], #[trigger] r@[j]),
        decreases rows@.len() - i,
    {
        r.push(resolved_target(manifest_dir, i, &rows[i]));
        i = i + 1;
    }
    r
}

/// The web rows of a manifest as (id, site, out, entry): the rows whose type
/// is `web` (any case), or, when there is none, the `[web]` shorthand.
pub open spec fn spec_web_rows(rows: Seq<TargetRow>, web: Option<WebShorthand>) -> Seq<(Option<Seq<char>>, Seq<char>, Option<Seq<char>>, Option<Seq<char>>)> {
    let picked = web_rows_upto(rows, rows.len() as int);
    if picked.len() == 0 {
        match web {
            Some(w) => seq![(None, w.site@, opt_view(w.out), opt_view(w.entry))],
            None => Seq::empty(),
        }
    } else {
        picked
    }
}

pub open spec fn web_rows_upto(rows: Seq<TargetRow>, n: int) -> Seq<(Option<Seq<char>>, Seq<char>, Option<Seq<char>>, Option<Seq<char>>)>
    decreases n,
{
    if n <= 0 {
        Seq::empty()
    } else {
        let t = rows[n - 1];
        let prev = web_rows_upto(rows, n - 1);
        if ascii_lowercase(t.target_type@) == "web"@ {
            prev.push((opt_view(t.id), spec_row_site(opt_view(t.site), opt_view(t.path), opt_view(t.app)), opt_view(t.out), opt_view(t.entry)))
        } else {
            prev
        }
    }
}

pub open spec fn web_row_view(w: (Option<String>, String, Option<String>, Option<String>)) -> (Option<Seq<char>>, Seq<char>, Option<Seq<char>>, Option<Seq<char>>) {
    (opt_view(w.0), w.1@, opt_view(w.2), opt_view(w.3))
}

/// The web sites of a manifest, before their paths are resolved on disk.
pub fn web_rows(rows: &Vec<TargetRow>, web: &Option<WebShorthand>) -> (r: Vec<(Option<String>, String, Option<String>, Option<String>)>)
    ensures
        r@.map_values(|w: (Option<String>, String, Option<String>, Option<String>)| web_row_view(w)) == spec_web_rows(rows@, *web),
{
    let mut r: Vec<(Option<String>, String, Option<String>, Option<String>)> = Vec::new();
    let mut i: usize = 0;
    while i < rows.len()
        invariant
            i <= rows@.len(),
            r@.map_values(|w: (Option<String>, String, Option<String>, Option<String>)| web_row_view(w)) == web_rows_upto(rows@, i as int),
        decreases rows@.len() - i,
    {
        let t = &rows[i];
        if is_web_type(t.target_type.as_str()) {
            let ghost before = r@;
            r.push((t.id.clone(), row_site(&t.site, &t.path, &t.app), t.out.clone(), t.entry.clone()));
            assert(r@.map_values(|w: (Option<String>, String, Option<String>, Option<String>)| web_row_view(w)) =~= before.map_values(|w: (Option<String>, String, Option<String>, Option<String>)| web_row_view(w)).push(web_row_view(r@[before.len() as int])));
        }
        i = i + 1;
    }
    if r.len() == 0 {
        match web {
            Some(w) => {
                r.push((None, w.site.clone(), w.out.clone(), w.entry.clone()));
                assert(r@.map_values(|w: (Option<String>, String, Option<String>, Option<String>)| web_row_view(w)) =~= spec_web_rows(rows@, *web));
            },
            None => {},
        }
    }
    r
}

// ── Choosing targets ───────────────────────────────────────────────────────

/// `{:?}` of a list of ids: `["a", "b"]`.
pub open spec fn debug_list(ids: Seq<Seq<char>>) -> Seq<char> {
    "["@ + debug_items(ids) + "]"@
}

pub open spec fn debug_items(ids: Seq<Seq<char>>) -> Seq<char>
    decreases ids.len(),
{
    if ids.len() == 0 {
        Seq::empty()
    } else if ids.len() == 1 {
        debug_quoted(ids[0])
    } else {
        debug_items(ids.drop_last()) + ", "@ + debug_quoted(ids.last())
    }
}

pub(crate) fn push_debug_list(out: &mut String, ids: &Vec<String>)
    ensures
        final(out)@ == old(out)@ + debug_list(sviews(ids@)),
{
    proof {
        reveal_strlit("[");
        reveal_strlit("]");
    }
    let ghost o = out@;
    let ghost v = sviews(ids@);
    push_str(out, "[");
    let mut i: usize = 0;
    while i < ids.len()
        invariant
            i <= ids@.len(),
            v == sviews(ids@),
            out@ == o + "["@ + debug_items(v.take(i as int)),
        decreases ids@.len() - i,
    {
        proof {
            reveal_strlit(", ");
            assert(v.take(i + 1).drop_last() =~= v.take(i as int));
            assert(v.take(i + 1).last() == ids@[i as int]@);
        }
        if i > 0 {
            push_str(out, ", ");
        } else {
            assert(v.take(1) =~= seq![v[0]]);
        }
        let q = quote_debug(ids[i].as_str());
        push_str(out, q.as_str());
        proof {
            if i > 0 {
                assert(out@ =~= o + "["@ + (debug_items(v.take(i as int)) + ", "@ + debug_quoted(v[i as int])));
            } else {
                assert(out@ =~= o + "["@ + debug_quoted(v[0]));
            }
        }
        i = i + 1;
    }
    assert(v.take(ids@.len() as int) =~= v);
    push_str(out, "]");
    assert(out@ =~= o + debug_list(v));
}

/// The first index whose id is `id`.
pub open spec fn first_with_id(ids: Seq<Seq<char>>, id: Seq<char>) -> Option<int> {
    if exists|i: int| 0 <= i < ids.len() && ids[i] == id {
        Some(choose|i: int| 0 <= i < ids.len() && ids[i] == id && forall|j: int| 0 <= j < i ==> ids[j] != id)
    } else {
        None
    }
}

fn find_id(ids: &Vec<String>, id: &str) -> (r: Option<usize>)
    ensures
        match r {
            Some(i) => first_with_id(sviews(ids@), id@) == Some(i as int),
            None => first_with_id(sviews(ids@), id@) is None,
        },
{
    let ghost v = sviews(ids@);
    let mut i: usize = 0;
    while i < ids.len()
        invariant
            i <= ids@.len(),
            v == sviews(ids@),
            forall|j: int| 0 <= j < i ==> v[j] != id@,
        decreases ids@.len() - i,
    {
        if str_eq(ids[i].as_str(), id) {
            proof {
                assert(v[i as int] == id@);
                let k = choose|k: int| 0 <= k < v.len() && v[k] == id@ && forall|j: int| 0 <= j < k ==> v[j] != id@;
                assert(0 <= i < v.len() && v[i as int] == id@ && forall|j: int| 0 <= j < i ==> v[j] != id@);
                if k < i {
                    assert(v[k] != id@);
                } else if k > i {
                    assert(v[i as int] != id@);
                }
            }
            return Some(i);
        }
        i = i + 1;
    }
    None
}

/// The targets a build runs, by index: the one with the id asked for, or
/// all of them.
pub fn pick_targets(ids: &Vec<String>, id: Option<&str>) -> (r: Result<Vec<usize>, String>)
    ensures
        id is None ==> (r matches Ok(v) && v@.len() == ids@.len() && forall|i: int| 0 <= i < v@.len() ==> #[trigger] v@[i] == i),
        id matches Some(x) ==> match (r, first_with_id(sviews(ids@), x@)) {
            (Ok(v), Some(k)) => v@ == seq![k as usize],
            (Err(m), None) => m@ == "no target with id "@ + debug_quoted(x@) + " (available: "@ + debug_list(sviews(ids@)) + ")"@,
            _ => false,
        },
{
    match id {
        Some(x) => match find_id(ids, x) {
            Some(k) => {
                let mut v: Vec<usize> = Vec::new();
                v.push(k);
                assert(v@ =~= seq![k]);
                Ok(v)
            },
            None => {
                proof {
                    reveal_strlit("no target with id ");
                    reveal_strlit(" (available: ");
                    reveal_strlit(")");
                }
                let mut m = to_owned_string("no target with id ");
                let q = quote_debug(x);
                push_str(&mut m, q.as_str());
                push_str(&mut m, " (available: ");
                push_debug_list(&mut m, ids);
                push_str(&mut m, ")");
                Err(m)
            },
        },
        None => {
            let mut v: Vec<usize> = Vec::new();
            let mut i: usize = 0;
            while i < ids.len()
                invariant
                    i <= ids@.len(),
                    v@.len() == i,
                    forall|j: int| 0 <= j < i ==> #[trigger] v@[j] == j,
                decreases ids@.len() - i,
            {
                v.push(i);
                i = i + 1;
            }
            Ok(v)
        },
    }
}

/// The web target that `crepus web build|serve` uses: the one with the id
/// asked for, or the only one; with several and no id, the message asks for
/// `--target`.
pub fn resolve_pick(ids: &Vec<String>, id: Option<&str>) -> (r: Result<usize, String>)
    ensures
        id matches Some(x) ==> match (r, first_with_id(sviews(ids@), x@)) {
            (Ok(i), Some(k)) => i == k,
            (Err(m), None) => m@ == "no web target with id "@ + debug_quoted(x@) + " (available: "@ + debug_list(sviews(ids@)) + ")"@,
            _ => false,
        },
        id is None && ids@.len() == 1 ==> r == Ok::<usize, String>(0),
        id is None && ids@.len() != 1 ==> (r matches Err(m) && m@ == "crepus.toml defines "@ + decimal(ids@.len() as nat)
            + " web targets "@ + debug_list(sviews(ids@)) + "; pass --target ID"@),
{
    match id {
        Some(x) => match find_id(ids, x) {
            Some(k) => Ok(k),
            None => {
                proof {
                    reveal_strlit("no web target with id ");
                    reveal_strlit(" (available: ");
                    reveal_strlit(")");
                }
                let mut m = to_owned_string("no web target with id ");
                let q = quote_debug(x);
                push_str(&mut m, q.as_str());
                push_str(&mut m, " (available: ");
                push_debug_list(&mut m, ids);
                push_str(&mut m, ")");
                Err(m)
            },
        },
        None => if ids.len() == 1 {
            Ok(0)
        } else {
            proof {
                reveal_strlit("crepus.toml defines ");
                reveal_strlit(" web targets ");
                reveal_strlit("; pass --target ID");
            }
            let mut m = to_owned_string("crepus.toml defines ");
            push_decimal(&mut m, ids.len() as u64);
            push_str(&mut m, " web targets ");
            push_debug_list(&mut m, ids);
            push_str(&mut m, "; pass --target ID");
            Err(m)
        },
    }
}

// ── Finding the manifest ───────────────────────────────────────────────────

/// `Path::parent`: the path without its last component. The result is named
/// `path_parent` and depends on the path alone; it is always shorter.
pub uninterp spec fn path_parent(path: Seq<char>) -> Option<Seq<char>>;

#[verifier::external_body]
pub(crate) fn parent_of(path: &str) -> (r: Option<String>)
    ensures
        opt_view(r) == path_parent(path@),
        r matches Some(q) ==> q@.len() < path@.len(),
{
    std::path::Path::new(path).parent().map(|p| p.to_string_lossy().into_owned())
}

/// `Path::is_file`: asks the file system. Nothing is stated of the answer.
#[verifier::external_body]
fn is_file(path: &str) -> (r: bool) {
    std::path::Path::new(path).is_file()
}

/// The `k`-th parent of a path (the path itself for `k = 0`).
pub open spec fn nth_parent(path: Seq<char>, k: nat) -> Option<Seq<char>>
    decreases k,
{
    if k == 0 {
        Some(path)
    } else {
        match nth_parent(path, (k - 1) as nat) {
            Some(p) => path_parent(p),
            None => None,
        }
    }
}

/// The places that `crepus.toml` is looked for from the directory `dir`:
/// `crepus.toml` in `dir`, then in each of its ancestors up to the last one
/// that `Path::parent` gives, nearest first.
pub open spec fn is_manifest_chain(dir: Seq<char>, r: Seq<Seq<char>>) -> bool {
    &&& r.len() > 0
    &&& forall|k: int| 0 <= k < r.len() ==> (#[trigger] nth_parent(dir, k as nat)) is Some && r[k] == path_join(
        nth_parent(dir, k as nat)->Some_0,
        "crepus.toml"@,
    )
    &&& nth_parent(dir, r.len()) is None
}

pub fn manifest_candidates(dir: &str) -> (r: Vec<String>)
    ensures
        is_manifest_chain(dir@, sviews(r@)),
{
    let mut out: Vec<String> = Vec::new();
    let mut d = to_owned_string(dir);
    let ghost mut k: nat = 0;
    assert(nth_parent(dir@, 0) == Some(dir@));
    loop
        invariant
            out@.len() == k,
            nth_parent(dir@, k) == Some(d@),
            forall|j: int| 0 <= j < k ==> (#[trigger] nth_parent(dir@, j as nat)) is Some && sviews(out@)[j]
                == path_join(nth_parent(dir@, j as nat)->Some_0, "crepus.toml"@),
        decreases d@.len(),
    {
        out.push(join_path(d.as_str(), "crepus.toml"));
        proof {
            assert(sviews(out@)[k as int] == path_join(nth_parent(dir@, k)->Some_0, "crepus.toml"@));
        }
        match parent_of(d.as_str()) {
            Some(q) => {
                proof {
                    assert(nth_parent(dir@, k + 1) == Some(q@));
                    k = k + 1;
                }
                d = q;
            },
            None => {
                proof {
                    assert(nth_parent(dir@, k + 1) is None);
                }
                return out;
            },
        }
    }
}

/// The first candidate whose probe found a file, nearest first; none when
/// no probe did.
pub open spec fn spec_first_manifest(candidates: Seq<Seq<char>>, found: Seq<bool>) -> Option<Seq<char>>
    decreases candidates.len(),
{
    if candidates.len() == 0 || found.len() == 0 {
        None
    } else if found[0] {
        Some(candidates[0])
    } else {
        spec_first_manifest(candidates.drop_first(), found.drop_first())
    }
}

pub fn first_manifest(candidates: &Vec<String>, found: &Vec<bool>) -> (r: Option<String>)
    ensures
        opt_view(r) == spec_first_manifest(sviews(candidates@), found@),
{
    let ghost cv = sviews(candidates@);
    let mut i: usize = 0;
    assert(cv.skip(0) =~= cv && found@.skip(0) =~= found@);
    while i < candidates.len() && i < found.len()
        invariant
            i <= candidates@.len() && i <= found@.len(),
            cv == sviews(candidates@),
            spec_first_manifest(cv.skip(i as int), found@.skip(i as int)) == spec_first_manifest(cv, found@),
        decreases candidates@.len() - i,
    {
        assert(cv.skip(i as int).drop_first() =~= cv.skip(i + 1));
        assert(found@.skip(i as int).drop_first() =~= found@.skip(i + 1));
        if found[i] {
            return Some(candidates[i].clone());
        }
        i = i + 1;
    }
    None
}

/// Finds `crepus.toml` in `start` (or, when `start` is a file, in its
/// directory) or the nearest directory above it that has one: each place of
/// the chain (`manifest_candidates`) is probed with `Path::is_file`, and the
/// first that holds a file is returned (`first_manifest`). Which probes
/// find a file depends on the disk; what is returned is always `crepus.toml`
/// in that directory or one of its ancestors.
pub fn find_manifest_upward(start: &str) -> (r: Option<String>)
    ensures
        r matches Some(m) ==> exists|k: nat| #[trigger] nth_parent(start@, k) matches Some(d) && m@ == path_join(d, "crepus.toml"@),
        (r is None && path_parent(start@) is None) || exists|d: Seq<char>, cs: Seq<Seq<char>>, found: Seq<bool>|
            (d == start@ || path_parent(start@) == Some(d)) && #[trigger] is_manifest_chain(d, cs) && found.len()
                == cs.len() && opt_view(r) == #[trigger] spec_first_manifest(cs, found),
{
    let dir = if is_file(start) {
        match parent_of(start) {
            Some(p) => p,
            None => {
                return None;
            },
        }
    } else {
        to_owned_string(start)
    };
    let ghost shift: nat = if dir@ == start@ && nth_parent(start@, 0) == Some(dir@) { 0 } else { 1 };
    assert(nth_parent(start@, 0) == Some(start@));
    assert(nth_parent(start@, shift) == Some(dir@));
    let candidates = manifest_candidates(dir.as_str());
    let mut found: Vec<bool> = Vec::new();
    let mut i: usize = 0;
    while i < candidates.len()
        invariant
            i <= candidates@.len(),
            found@.len() == i,
        decreases candidates@.len() - i,
    {
        found.push(is_file(candidates[i].as_str()));
        i = i + 1;
    }
    let r = first_manifest(&candidates, &found);
    proof {
        lemma_first_manifest_in(sviews(candidates@), found@);
        if r is Some {
            let k = choose|k: int| 0 <= k < sviews(candidates@).len() && sviews(candidates@)[k] == r->Some_0@;
            lemma_nth_parent_add(start@, shift, k as nat);
            assert(nth_parent(start@, shift + k as nat) matches Some(d) && r->Some_0@ == path_join(d, "crepus.toml"@));
        }
        assert(is_manifest_chain(dir@, sviews(candidates@)) && found@.len() == sviews(candidates@).len());
        assert(opt_view(r) == spec_first_manifest(sviews(candidates@), found@));
    }
    r
}

proof fn lemma_first_manifest_in(c: Seq<Seq<char>>, f: Seq<bool>)
    ensures
        spec_first_manifest(c, f) matches Some(m) ==> exists|k: int| 0 <= k < c.len() && c[k] == m,
    decreases c.len(),
{
    if c.len() > 0 && f.len() > 0 && !f[0] {
        lemma_first_manifest_in(c.drop_first(), f.drop_first());
        if spec_first_manifest(c, f) is Some {
            let m = spec_first_manifest(c, f)->Some_0;
            let k = choose|k: int| 0 <= k < c.drop_first().len() && c.drop_first()[k] == m;
            assert(c[k + 1] == m);
        }
    }
}

/// Going up `a` levels and then `b` more is going up `a + b` levels.
proof fn lemma_nth_parent_add(p: Seq<char>, a: nat, b: nat)
    requires
        nth_parent(p, a) is Some,
    ensures
        nth_parent(p, a + b) == nth_parent(nth_parent(p, a)->Some_0, b),
    decreases b,
{
    if b > 0 {
        lemma_nth_parent_add(p, a, (b - 1) as nat);
        let q = nth_parent(p, a)->Some_0;
        assert(nth_parent(p, a + b) == match nth_parent(p, (a + b - 1) as nat) {
            Some(x) => path_parent(x),
            None => None,
        });
    } else {
        assert(nth_parent(nth_parent(p, a)->Some_0, 0) == nth_parent(p, a));
    }
}


/// The target picked by id has that id, and no target before it has it.
pub proof fn law_picked_target_has_id(ids: Seq<Seq<char>>, id: Seq<char>)
    ensures
        first_with_id(ids, id) matches Some(k) ==> 0 <= k < ids.len() && ids[k] == id && forall|j: int|
            0 <= j < k ==> ids[j] != id,
        first_with_id(ids, id) is None ==> forall|j: int| 0 <= j < ids.len() ==> ids[j] != id,
{
    if exists|i: int| 0 <= i < ids.len() && ids[i] == id {
        let i = choose|i: int| 0 <= i < ids.len() && ids[i] == id;
        lemma_first_index(ids, id, i);
    }
}

proof fn lemma_first_index(ids: Seq<Seq<char>>, id: Seq<char>, i: int)
    requires
        0 <= i < ids.len() && ids[i] == id,
    ensures
        exists|k: int| 0 <= k < ids.len() && ids[k] == id && forall|j: int| 0 <= j < k ==> ids[j] != id,
    decreases i,
{
    if exists|j: int| 0 <= j < i && ids[j] == id {
        let j = choose|j: int| 0 <= j < i && ids[j] == id;
        lemma_first_index(ids, id, j);
    } else {
        assert(0 <= i < ids.len() && ids[i] == id && forall|j: int| 0 <= j < i ==> ids[j] != id);
    }
}


/// A target row lives in the first directory it names, trying `site`, then
/// `path`, then `app`; the manifest's own directory is used only when the
/// row names none of them.
pub proof fn law_row_site_is_the_first_named(site: Option<Seq<char>>, path: Option<Seq<char>>, app: Option<Seq<char>>)
    ensures
        site is Some ==> spec_row_site(site, path, app) == site->0,
        site is None && path is Some ==> spec_row_site(site, path, app) == path->0,
        site is None && path is None && app is Some ==> spec_row_site(site, path, app) == app->0,
        site is None && path is None && app is None ==> spec_row_site(site, path, app) == "."@,
        spec_row_site(site, path, app) == "."@ || spec_row_site(site, path, app) == site->0
            || spec_row_site(site, path, app) == path->0 || spec_row_site(site, path, app) == app->0,
{
}

} // verus!
