//! `crepus components`: the shared UI component catalog. Which targets a
//! component has an implementation for, where each one lives, and what
//! `crepus components add` reports or refuses.
use vstd::prelude::*;
use crate::text::{opt_view, sviews};
use crate::cli::{ComponentTarget, ComponentsCommands};
use crate::dispatch::{debug_quoted, quote_debug};
use crate::text::{push_str, str_eq, to_owned_string};

verus! {

/// Explicit per-target path hints of a catalog entry.
#[derive(Debug, Clone, PartialEq, Eq)]
pub struct CatalogTargets {
    pub flutter: Option<String>,
    pub svelte: Option<String>,
    pub moonshine: Option<String>,
    pub gpui: Option<String>,
}

/// An entry of `catalog/components.json`.
#[derive(Debug, Clone, PartialEq, Eq)]
pub struct CatalogComponent {
    pub id: String,
    pub title: Option<String>,
    pub name: Option<String>,
    pub description: Option<String>,
    pub spec: Option<String>,
    pub platforms: Vec<String>,
    pub targets: CatalogTargets,
}

/// An entry of the component registry compiled into crepus.
#[derive(Debug, Clone, PartialEq, Eq)]
pub struct RegistryComponent {
    pub id: String,
    pub title: String,
    pub platforms: Vec<String>,
}

impl CatalogComponent {
    /// The name shown for an entry: its title, else its name, else its id.
    pub open spec fn spec_display_name(self) -> Seq<char> {
        match self.title {
            Some(t) => t@,
            None => match self.name {
                Some(n) => n@,
                None => self.id@,
            },
        }
    }

    pub fn display_name(&self) -> (r: String)
        ensures
            r@ == self.spec_display_name(),
    {
        match &self.title {
            Some(t) => to_owned_string(t.as_str()),
            None => match &self.name {
                Some(n) => to_owned_string(n.as_str()),
                None => to_owned_string(self.id.as_str()),
            },
        }
    }
}

pub open spec fn spec_target_key(t: ComponentTarget) -> Seq<char> {
    match t {
        ComponentTarget::Flutter => "flutter"@,
        ComponentTarget::Svelte => "svelte"@,
        ComponentTarget::Moonshine => "moonshine"@,
        ComponentTarget::Gpui => "gpui"@,
    }
}

/// The platform key of a target.
pub fn target_key(t: ComponentTarget) -> (r: &'static str)
    ensures
        r@ == spec_target_key(t),
{
    match t {
        ComponentTarget::Flutter => "flutter",
        ComponentTarget::Svelte => "svelte",
        ComponentTarget::Moonshine => "moonshine",
        ComponentTarget::Gpui => "gpui",
    }
}

/// Where the conventional implementation of a supported target lives: the
/// external `@tschk/moonshine-components` package for Moonshine, else
/// `plugins/crepuscularity-components/packages/<key>`.
pub open spec fn spec_conventional_path(t: ComponentTarget) -> Seq<char> {
    if t == ComponentTarget::Moonshine {
        "@tschk/moonshine-components"@
    } else {
        "plugins/crepuscularity-components/packages/"@ + spec_target_key(t)
    }
}

fn conventional_path(t: ComponentTarget) -> (r: String)
    ensures
        r@ == spec_conventional_path(t),
{
    if t == ComponentTarget::Moonshine {
        to_owned_string("@tschk/moonshine-components")
    } else {
        let mut p = to_owned_string("plugins/crepuscularity-components/packages/");
        push_str(&mut p, target_key(t));
        p
    }
}

/// Whether a list of platforms admits a target: an empty list admits all.
pub open spec fn spec_supports(platforms: Seq<Seq<char>>, t: ComponentTarget) -> bool {
    platforms.len() == 0 || platforms.contains(spec_target_key(t))
}

fn supports(platforms: &Vec<String>, t: ComponentTarget) -> (r: bool)
    ensures
        r == spec_supports(sviews(platforms@), t),
{
    if platforms.len() == 0 {
        return true;
    }
    let key = target_key(t);
    let ghost v = sviews(platforms@);
    let mut i: usize = 0;
    while i < platforms.len()
        invariant
            i <= platforms@.len(),
            v == sviews(platforms@),
            key@ == spec_target_key(t),
            forall|j: int| 0 <= j < i ==> v[j] != key@,
        decreases platforms@.len() - i,
    {
        if str_eq(platforms[i].as_str(), key) {
            assert(v[i as int] == key@);
            return true;
        }
        i = i + 1;
    }
    false
}

pub open spec fn spec_explicit_path(c: CatalogComponent, t: ComponentTarget) -> Option<Seq<char>> {
    match t {
        ComponentTarget::Flutter => opt_view(c.targets.flutter),
        ComponentTarget::Svelte => opt_view(c.targets.svelte),
        ComponentTarget::Moonshine => opt_view(c.targets.moonshine),
        ComponentTarget::Gpui => opt_view(c.targets.gpui),
    }
}

/// Where a catalog entry's implementation for a target lives: its explicit
/// hint, else the conventional place when the entry supports the target.
pub open spec fn spec_path_for_target(c: CatalogComponent, t: ComponentTarget) -> Option<Seq<char>> {
    match spec_explicit_path(c, t) {
        Some(p) => Some(p),
        None => if spec_supports(sviews(c.platforms@), t) {
            Some(spec_conventional_path(t))
        } else {
            None
        },
    }
}

fn copy_opt(o: &Option<String>) -> (r: Option<String>)
    ensures
        opt_view(r) == opt_view(*o),
{
    match o {
        Some(s) => Some(to_owned_string(s.as_str())),
        None => None,
    }
}

pub fn path_for_target(c: &CatalogComponent, t: ComponentTarget) -> (r: Option<String>)
    ensures
        opt_view(r) == spec_path_for_target(*c, t),
{
    let explicit = match t {
        ComponentTarget::Flutter => copy_opt(&c.targets.flutter),
        ComponentTarget::Svelte => copy_opt(&c.targets.svelte),
        ComponentTarget::Moonshine => copy_opt(&c.targets.moonshine),
        ComponentTarget::Gpui => copy_opt(&c.targets.gpui),
    };
    if explicit.is_some() {
        return explicit;
    }
    if !supports(&c.platforms, t) {
        return None;
    }
    Some(conventional_path(t))
}

/// The targets `add` looks at: the one asked for, or all four.
pub open spec fn spec_wanted(target: Option<ComponentTarget>) -> Seq<ComponentTarget> {
    match target {
        Some(t) => seq![t],
        None => seq![
            ComponentTarget::Flutter,
            ComponentTarget::Svelte,
            ComponentTarget::Moonshine,
            ComponentTarget::Gpui,
        ],
    }
}

/// Where a registry entry's implementation for a target lives.
pub open spec fn spec_registry_path(m: RegistryComponent, t: ComponentTarget) -> Option<Seq<char>> {
    if spec_supports(sviews(m.platforms@), t) {
        Some(spec_conventional_path(t))
    } else {
        None
    }
}

/// The path hints of the wanted targets, in target order: from the disk
/// catalog entry when there is one, else from the registry entry.
pub open spec fn spec_selected(
    wanted: Seq<ComponentTarget>,
    disk: Option<CatalogComponent>,
    registry: Option<RegistryComponent>,
) -> Seq<(ComponentTarget, Seq<char>)>
    decreases wanted.len(),
{
    if wanted.len() == 0 {
        Seq::empty()
    } else {
        let prev = spec_selected(wanted.drop_last(), disk, registry);
        let t = wanted.last();
        let hint = match disk {
            Some(c) => spec_path_for_target(c, t),
            None => match registry {
                Some(m) => spec_registry_path(m, t),
                None => None,
            },
        };
        match hint {
            Some(p) => prev.push((t, p)),
            None => prev,
        }
    }
}

/// What `crepus components add` shows for a known component.
#[derive(Debug, Clone, PartialEq, Eq)]
pub struct AddReport {
    pub display: String,
    pub selected: Vec<(ComponentTarget, String)>,
}

pub open spec fn selected_view(v: Seq<(ComponentTarget, String)>) -> Seq<(ComponentTarget, Seq<char>)> {
    v.map_values(|x: (ComponentTarget, String)| (x.0, x.1@))
}

/// Ids joined with `, `.
pub open spec fn joined(ids: Seq<Seq<char>>) -> Seq<char>
    decreases ids.len(),
{
    if ids.len() == 0 {
        Seq::empty()
    } else if ids.len() == 1 {
        ids[0]
    } else {
        joined(ids.drop_last()) + ", "@ + ids.last()
    }
}

fn push_joined(out: &mut String, ids: &Vec<String>)
    ensures
        final(out)@ == old(out)@ + joined(sviews(ids@)),
{
    let ghost o = out@;
    let ghost v = sviews(ids@);
    let mut i: usize = 0;
    while i < ids.len()
        invariant
            i <= ids@.len(),
            v == sviews(ids@),
            out@ == o + joined(v.take(i as int)),
        decreases ids@.len() - i,
    {
        proof {
            reveal_strlit(", ");
            assert(v.take(i + 1).drop_last() =~= v.take(i as int));
            assert(v.take(i + 1).last() == ids@[i as int]@);
        }
        if i > 0 {
            push_str(out, ", ");
        } else {
            assert(v.take(1) =~= seq![v[0]]);
        }
        push_str(out, ids[i].as_str());
        proof {
            if i > 0 {
                assert(out@ =~= o + (joined(v.take(i as int)) + ", "@ + v[i as int]));
            } else {
                assert(out@ =~= o + v[0]);
            }
        }
        i = i + 1;
    }
    assert(v.take(ids@.len() as int) =~= v);
}

pub open spec fn spec_target_debug(t: ComponentTarget) -> Seq<char> {
    match t {
        ComponentTarget::Flutter => "Flutter"@,
        ComponentTarget::Svelte => "Svelte"@,
        ComponentTarget::Moonshine => "Moonshine"@,
        ComponentTarget::Gpui => "Gpui"@,
    }
}

/// What `crepus components add <id> [--target T]` reports, given the
/// registry's entry for the id, the disk catalog's entry for it, and the
/// ids each knows: an unknown id is refused with the known ids (the
/// registry's, or the catalog's when the registry has none), and a component
/// without a path for any wanted target is refused too.
pub fn add_report(
    id: &str,
    target: Option<ComponentTarget>,
    registry: Option<RegistryComponent>,
    disk: Option<CatalogComponent>,
    registry_ids: &Vec<String>,
    catalog_ids: &Vec<String>,
) -> (r: Result<AddReport, String>)
    ensures
        registry is None && disk is None ==> (r matches Err(m) && m@ == "unknown component "@ + debug_quoted(id@)
            + "; known: "@ + joined(if registry_ids@.len() > 0 {
            sviews(registry_ids@)
        } else {
            sviews(catalog_ids@)
        })),
        registry is Some || disk is Some ==> {
            let sel = spec_selected(spec_wanted(target), disk, registry);
            match r {
                Ok(rep) => sel.len() > 0 && selected_view(rep.selected@) == sel && rep.display@ == match registry {
                    Some(m) => m.title@,
                    None => disk->Some_0.spec_display_name(),
                },
                Err(m) => sel.len() == 0 && m@ == "component "@ + debug_quoted(id@) + " has no path for target "@
                    + spec_target_debug(match target {
                    Some(t) => t,
                    None => ComponentTarget::Moonshine,
                }),
            }
        },
{
    if registry.is_none() && disk.is_none() {
        proof {
            reveal_strlit("unknown component ");
            reveal_strlit("; known: ");
        }
        let mut m = to_owned_string("unknown component ");
        let q = quote_debug(id);
        push_str(&mut m, q.as_str());
        push_str(&mut m, "; known: ");
        if registry_ids.len() > 0 {
            push_joined(&mut m, registry_ids);
        } else {
            push_joined(&mut m, catalog_ids);
        }
        return Err(m);
    }
    let display = match &registry {
        Some(m) => to_owned_string(m.title.as_str()),
        None => match &disk {
            Some(c) => c.display_name(),
            None => String::new(),
        },
    };
    let mut wanted: Vec<ComponentTarget> = Vec::new();
    match target {
        Some(t) => wanted.push(t),
        None => {
            wanted.push(ComponentTarget::Flutter);
            wanted.push(ComponentTarget::Svelte);
            wanted.push(ComponentTarget::Moonshine);
            wanted.push(ComponentTarget::Gpui);
        },
    }
    assert(wanted@ =~= spec_wanted(target));
    let ghost w = wanted@;
    let mut selected: Vec<(ComponentTarget, String)> = Vec::new();
    let mut i: usize = 0;
    while i < wanted.len()
        invariant
            i <= wanted@.len(),
            w == wanted@,
            selected_view(selected@) == spec_selected(w.take(i as int), disk, registry),
        decreases wanted@.len() - i,
    {
        let t = wanted[i];
        assert(w.take(i + 1).drop_last() =~= w.take(i as int));
        assert(w.take(i + 1).last() == t);
        let hint = match &disk {
            Some(c) => path_for_target(c, t),
            None => match &registry {
                Some(m) => if supports(&m.platforms, t) {
                    Some(conventional_path(t))
                } else {
                    None
                },
                None => None,
            },
        };
        let ghost before = selected_view(selected@);
        match hint {
            Some(p) => {
                selected.push((t, p));
                assert(selected_view(selected@) =~= before.push((t, selected@.last().1@)));
            },
            None => {},
        }
        i = i + 1;
    }
    assert(w.take(wanted@.len() as int) =~= w);
    if selected.len() == 0 {
        proof {
            reveal_strlit("component ");
            reveal_strlit(" has no path for target ");
        }
        let mut m = to_owned_string("component ");
        let q = quote_debug(id);
        push_str(&mut m, q.as_str());
        push_str(&mut m, " has no path for target ");
        push_str(&mut m, match target {
            Some(ComponentTarget::Flutter) => "Flutter",
            Some(ComponentTarget::Svelte) => "Svelte",
            Some(ComponentTarget::Gpui) => "Gpui",
            _ => "Moonshine",
        });
        return Err(m);
    }
    Ok(AddReport { display, selected })
}

/// What a `crepus components` command does.
#[derive(Debug, Clone, PartialEq, Eq)]
pub enum ComponentsAction {
    List,
    Add { id: String, target: Option<ComponentTarget> },
    Themes,
}

pub fn execute(cmd: ComponentsCommands) -> (r: ComponentsAction)
    ensures
        cmd is List ==> r is List,
        cmd is Themes ==> r is Themes,
        cmd matches ComponentsCommands::Add { id, target } ==> r == (ComponentsAction::Add { id, target }),
{
    match cmd {
        ComponentsCommands::List => ComponentsAction::List,
        ComponentsCommands::Add { id, target } => ComponentsAction::Add { id, target },
        ComponentsCommands::Themes => ComponentsAction::Themes,
    }
}

/// A theme file of the catalog: `json`, `toml`, `yaml` or `yml`.
pub fn is_theme_extension(ext: &str) -> (r: bool)
    ensures
        r == (ext@ == "json"@ || ext@ == "toml"@ || ext@ == "yaml"@ || ext@ == "yml"@),
{
    str_eq(ext, "json") || str_eq(ext, "toml") || str_eq(ext, "yaml") || str_eq(ext, "yml")
}

} // verus!
