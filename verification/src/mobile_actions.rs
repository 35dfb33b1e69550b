//! The Rust action registry of the CupboardMobile shell: which requests are
//! actions, what a request is called, the counters of the named actions,
//! where plugin requests go, and the relative paths that the filesystem
//! plugin accepts. A request is a bare action name or a JSON object.
use vstd::prelude::*;
use crate::text::{opt_view};
use crate::native_ir::{is_absolute, path_join, unix_components};
use crate::text::{
    chars_of, lemma_split_char_pieces, push_char, push_str, split_by_char, split_char, str_eq, string_from_range, to_owned_string,
};

verus! {

/// The string at `key` (or at `key.sub`) of a JSON object text: `None` when
/// the text is not a JSON object, `Some(None)` when that field is missing or
/// not a string. The result depends on its arguments alone.
pub uninterp spec fn json_field_str(input: Seq<char>, key: Seq<char>, sub: Option<Seq<char>>) -> Option<Option<Seq<char>>>;

pub open spec fn opt_opt_view(o: Option<Option<String>>) -> Option<Option<Seq<char>>> {
    match o {
        Some(x) => Some(opt_view(x)),
        None => None,
    }
}

/// `serde_json::from_str` of a request, then the string field asked for;
/// named `json_field_str`.
#[verifier::external_body]
fn parse_field_str(input: &str, key: &str, sub: Option<&str>) -> (r: Option<Option<String>>)
    ensures
        opt_opt_view(r) == json_field_str(input@, key@, match sub {
            Some(s) => Some(s@),
            None => None,
        }),
{
    match serde_json::from_str::<serde_json::Value>(input) {
        Ok(serde_json::Value::Object(map)) => {
            let field = match sub {
                Some(s) => map.get(key).and_then(|v| v.get(s)),
                None => map.get(key),
            };
            Some(field.and_then(|v| v.as_str()).map(|s| s.to_string()))
        },
        _ => None,
    }
}

/// A field of a request: a text that is not a JSON object stands for
/// `{"action": <text>}`.
pub open spec fn spec_request_field(action: Seq<char>, key: Seq<char>) -> Option<Seq<char>> {
    match json_field_str(action, key, None) {
        Some(f) => f,
        None => if key == "action"@ { Some(action) } else { None },
    }
}

/// The string field `key` of a request.
pub fn request_field(action: &str, key: &str) -> (r: Option<String>)
    ensures
        opt_view(r) == spec_request_field(action@, key@),
{
    proof {
        reveal_strlit("action");
    }
    match parse_field_str(action, key, None) {
        Some(f) => f,
        None => if str_eq(key, "action") {
            Some(to_owned_string(action))
        } else {
            None
        },
    }
}

/// The actions the registry knows.
#[derive(Debug, Clone, Copy, PartialEq, Eq, Structural)]
pub enum ActionKind {
    Sync,
    Preview,
    Plugin,
}

/// The kind of a request: a plugin request (`"kind": "plugin"`), or a
/// named action (`sync`, `preview`) by its `action` field (or the bare text).
pub open spec fn spec_action_kind(action: Seq<char>) -> Option<ActionKind> {
    if spec_request_field(action, "kind"@) == Some("plugin"@) {
        Some(ActionKind::Plugin)
    } else {
        let name = match spec_request_field(action, "action"@) {
            Some(n) => n,
            None => action,
        };
        if name == "sync"@ {
            Some(ActionKind::Sync)
        } else if name == "preview"@ {
            Some(ActionKind::Preview)
        } else {
            None
        }
    }
}

pub fn action_kind(action: &str) -> (r: Option<ActionKind>)
    ensures
        r == spec_action_kind(action@),
{
    let kind = request_field(action, "kind");
    let is_plugin = match &kind {
        Some(k) => str_eq(k.as_str(), "plugin"),
        None => false,
    };
    if is_plugin {
        return Some(ActionKind::Plugin);
    }
    let name = match request_field(action, "action") {
        Some(n) => n,
        None => to_owned_string(action),
    };
    if str_eq(name.as_str(), "sync") {
        Some(ActionKind::Sync)
    } else if str_eq(name.as_str(), "preview") {
        Some(ActionKind::Preview)
    } else {
        None
    }
}

/// Whether the registry knows the action; nothing is run.
pub fn dispatch_action(action: &str) -> (r: bool)
    ensures
        r == spec_action_kind(action@) is Some,
{
    action_kind(action).is_some()
}

/// The name a request is reported under: its `action` field; for a plugin
/// request `<capability>.<method>` (`plugin` and `action` standing in for
/// missing ones); else its `kind`, or nothing.
pub open spec fn spec_request_action_name(action: Seq<char>) -> Seq<char> {
    match spec_request_field(action, "action"@) {
        Some(a) => a,
        None => if spec_request_field(action, "kind"@) == Some("plugin"@) {
            (match spec_request_field(action, "capability"@) {
                Some(c) => c,
                None => "plugin"@,
            }) + "."@ + (match spec_request_field(action, "method"@) {
                Some(m) => m,
                None => "action"@,
            })
        } else {
            match spec_request_field(action, "kind"@) {
                Some(k) => k,
                None => Seq::empty(),
            }
        },
    }
}

pub fn request_action_name(action: &str) -> (r: String)
    ensures
        r@ == spec_request_action_name(action@),
{
    proof {
        reveal_strlit(".");
    }
    match request_field(action, "action") {
        Some(a) => a,
        None => {
            let kind = request_field(action, "kind");
            let is_plugin = match &kind {
                Some(k) => str_eq(k.as_str(), "plugin"),
                None => false,
            };
            if is_plugin {
                let mut name = match request_field(action, "capability") {
                    Some(c) => c,
                    None => to_owned_string("plugin"),
                };
                push_str(&mut name, ".");
                match request_field(action, "method") {
                    Some(m) => push_str(&mut name, m.as_str()),
                    None => push_str(&mut name, "action"),
                }
                name
            } else {
                match kind {
                    Some(k) => k,
                    None => String::new(),
                }
            }
        },
    }
}

/// The `payload.message` of a request, when it is a string.
pub open spec fn spec_payload_message(action: Seq<char>) -> Option<Seq<char>> {
    match json_field_str(action, "payload"@, Some("message"@)) {
        Some(m) => m,
        None => None,
    }
}

pub fn payload_message(action: &str) -> (r: Option<String>)
    ensures
        opt_view(r) == spec_payload_message(action@),
{
    match parse_field_str(action, "payload", Some("message")) {
        Some(m) => m,
        None => None,
    }
}

// ── The action state ───────────────────────────────────────────────────────

/// What the registry remembers between actions.
#[derive(Debug, Clone, PartialEq, Eq)]
pub struct MobileActionState {
    pub sync_count: u64,
    pub preview_count: u64,
    pub last_action: String,
    pub last_payload: Option<String>,
    pub last_result: String,
    pub last_error: Option<String>,
}

impl MobileActionState {
    /// The state before any action: nothing counted, nothing recorded.
    pub fn new() -> (r: Self)
        ensures
            r.sync_count == 0 && r.preview_count == 0,
            r.last_action@ == Seq::<char>::empty() && r.last_payload is None,
            r.last_result@ == Seq::<char>::empty() && r.last_error is None,
    {
        MobileActionState {
            sync_count: 0,
            preview_count: 0,
            last_action: String::new(),
            last_payload: None,
            last_result: String::new(),
            last_error: None,
        }
    }

    /// Runs a named action: counts it and reports its message (the
    /// payload's `message`, else `synced` / `previewed`) with the new count.
    pub fn run_named(&mut self, kind: ActionKind, message: Option<String>) -> (r: (String, u64))
        requires
            kind != ActionKind::Plugin,
            kind == ActionKind::Sync ==> old(self).sync_count < u64::MAX,
            kind == ActionKind::Preview ==> old(self).preview_count < u64::MAX,
        ensures
            kind == ActionKind::Sync ==> final(self).sync_count == old(self).sync_count + 1
                && final(self).preview_count == old(self).preview_count && r.1 == final(self).sync_count
                && r.0@ == match opt_view(message) {
                    Some(m) => m,
                    None => "synced"@,
                },
            kind == ActionKind::Preview ==> final(self).preview_count == old(self).preview_count + 1
                && final(self).sync_count == old(self).sync_count && r.1 == final(self).preview_count
                && r.0@ == match opt_view(message) {
                    Some(m) => m,
                    None => "previewed"@,
                },
            final(self).last_action == old(self).last_action,
            final(self).last_payload == old(self).last_payload,
            final(self).last_result == old(self).last_result,
            final(self).last_error == old(self).last_error,
    {
        if kind == ActionKind::Sync {
            self.sync_count = self.sync_count + 1;
            let m = match message {
                Some(m) => m,
                None => to_owned_string("synced"),
            };
            (m, self.sync_count)
        } else {
            self.preview_count = self.preview_count + 1;
            let m = match message {
                Some(m) => m,
                None => to_owned_string("previewed"),
            };
            (m, self.preview_count)
        }
    }
}

// ── Plugin requests ────────────────────────────────────────────────────────

/// The backends of plugin requests.
#[derive(Debug, Clone, Copy, PartialEq, Eq, Structural)]
pub enum PluginBackend {
    Preferences,
    Filesystem,
    Device,
    App,
}

/// Where a plugin request goes: its capability and method (both required)
/// and the backend of the capability.
pub fn plugin_route(action: &str) -> (r: Result<(PluginBackend, String, String), String>)
    ensures
        spec_request_field(action@, "capability"@) is None ==> (r matches Err(m)
            && m@ == "plugin request missing capability"@),
        spec_request_field(action@, "capability"@) is Some && spec_request_field(action@, "method"@) is None
            ==> (r matches Err(m) && m@ == "plugin request missing method"@),
        match (spec_request_field(action@, "capability"@), spec_request_field(action@, "method"@)) {
            (Some(c), Some(m)) => match r {
                Ok((b, rc, rm)) => rc@ == c && rm@ == m && (c == "preferences"@ ==> b == PluginBackend::Preferences)
                    && (c == "filesystem"@ ==> b == PluginBackend::Filesystem) && (c == "device"@ ==> b
                    == PluginBackend::Device) && (c == "app"@ ==> b == PluginBackend::App),
                Err(e) => c != "preferences"@ && c != "filesystem"@ && c != "device"@ && c != "app"@
                    && e@ == "unsupported capability: "@ + c,
            },
            _ => true,
        },
{
    proof {
        reveal_strlit("preferences");
        reveal_strlit("filesystem");
        reveal_strlit("device");
        reveal_strlit("app");
        assert("preferences"@.len() == 11 && "filesystem"@.len() == 10);
        assert("device"@.len() == 6 && "app"@.len() == 3);
    }
    let capability = match request_field(action, "capability") {
        Some(c) => c,
        None => {
            return Err(to_owned_string("plugin request missing capability"));
        },
    };
    let method = match request_field(action, "method") {
        Some(m) => m,
        None => {
            return Err(to_owned_string("plugin request missing method"));
        },
    };
    let backend = if str_eq(capability.as_str(), "preferences") {
        PluginBackend::Preferences
    } else if str_eq(capability.as_str(), "filesystem") {
        PluginBackend::Filesystem
    } else if str_eq(capability.as_str(), "device") {
        PluginBackend::Device
    } else if str_eq(capability.as_str(), "app") {
        PluginBackend::App
    } else {
        proof {
            reveal_strlit("unsupported capability: ");
        }
        let mut m = to_owned_string("unsupported capability: ");
        push_str(&mut m, capability.as_str());
        return Err(m);
    };
    Ok((backend, capability, method))
}

// ── Paths under the data root ──────────────────────────────────────────────

/// The named segments of a relative path: split at `/`, with empty and `.`
/// segments dropped (as `Path::components` skips them).
pub open spec fn named_segments(raw: Seq<char>) -> Seq<Seq<char>> {
    split_char(raw, '/').filter_map(|p: Seq<char>| named_segment(p))
}

/// A segment that names something: not empty, not `.`.
pub open spec fn named_segment(p: Seq<char>) -> Option<Seq<char>> {
    if p.len() > 0 && p != "."@ {
        Some(p)
    } else {
        None
    }
}

/// Segments joined with `/`.
pub open spec fn join_slash(ps: Seq<Seq<char>>) -> Seq<char>
    decreases ps.len(),
{
    if ps.len() == 0 {
        Seq::empty()
    } else if ps.len() == 1 {
        ps[0]
    } else {
        join_slash(ps.drop_last()) + "/"@ + ps.last()
    }
}

/// What the filesystem plugin makes of a path: absolute paths and `..`
/// segments are refused, as is a path with no named segment; otherwise its
/// named segments joined with `/`.
pub open spec fn spec_sanitize(raw: Seq<char>) -> Result<Seq<char>, Seq<char>> {
    if raw.len() > 0 && raw[0] == '/' {
        Err("absolute paths are not allowed"@)
    } else if named_segments(raw).contains(".."@) {
        Err("parent segments are not allowed"@)
    } else if named_segments(raw).len() == 0 {
        Err("path must not be empty"@)
    } else {
        Ok(join_slash(named_segments(raw)))
    }
}

pub fn sanitize_relative_path(raw: &str) -> (r: Result<String, String>)
    ensures
        match (r, spec_sanitize(raw@)) {
            (Ok(x), Ok(y)) => x@ == y,
            (Err(x), Err(y)) => x@ == y,
            _ => false,
        },
{
    proof {
        reveal_strlit(".");
        reveal_strlit("..");
        reveal_strlit("/");
    }
    let cs = chars_of(raw);
    if cs.len() > 0 && cs[0] == '/' {
        return Err(to_owned_string("absolute paths are not allowed"));
    }
    assert(!(raw@.len() > 0 && raw@[0] == '/'));
    let pieces = split_by_char(raw, '/');
    let ghost ps = split_char(raw@, '/');
    let ghost f = |p: Seq<char>| named_segment(p);
    let mut named: Vec<String> = Vec::new();
    let mut i: usize = 0;
    while i < pieces.len()
        invariant
            i <= pieces@.len(),
            pieces@.len() == ps.len(),
            f == (|p: Seq<char>| named_segment(p)),
            forall|j: int| 0 <= j < pieces@.len() ==> #[trigger] pieces@[j]@ == ps[j],
            named@.map_values(|x: String| x@) == ps.take(i as int).filter_map(f),
        decreases pieces@.len() - i,
    {
        proof {
            reveal_strlit(".");
            assert(ps.take(i + 1).drop_last() =~= ps.take(i as int));
            assert(ps.take(i + 1).last() == pieces@[i as int]@);
        }
        let p = pieces[i].as_str();
        let ghost before = named@.map_values(|x: String| x@);
        let keep = p.unicode_len() > 0 && !str_eq(p, ".");
        assert(keep == f(pieces@[i as int]@) is Some);
        if keep {
            named.push(to_owned_string(p));
            assert(named@.map_values(|x: String| x@) =~= before.push(pieces@[i as int]@));
        }
        i = i + 1;
    }
    assert(ps.take(pieces@.len() as int) =~= ps);
    let ghost nv = named@.map_values(|x: String| x@);
    assert(nv == named_segments(raw@));
    let mut k: usize = 0;
    while k < named.len()
        invariant
            k <= named@.len(),
            nv == named@.map_values(|x: String| x@),
            nv == named_segments(raw@),
            !(raw@.len() > 0 && raw@[0] == '/'),
            forall|j: int| 0 <= j < k ==> nv[j] != ".."@,
        decreases named@.len() - k,
    {
        if str_eq(named[k].as_str(), "..") {
            assert(nv[k as int] == ".."@);
            assert(nv.contains(".."@));
            return Err(to_owned_string("parent segments are not allowed"));
        }
        k = k + 1;
    }
    if named.len() == 0 {
        return Err(to_owned_string("path must not be empty"));
    }
    let mut out = String::new();
    let mut j: usize = 0;
    while j < named.len()
        invariant
            j <= named@.len(),
            nv == named@.map_values(|x: String| x@),
            out@ == join_slash(nv.take(j as int)),
        decreases named@.len() - j,
    {
        proof {
            reveal_strlit("/");
            assert(nv.take(j + 1).drop_last() =~= nv.take(j as int));
            assert(nv.take(j + 1).last() == named@[j as int]@);
        }
        if j > 0 {
            push_str(&mut out, "/");
        } else {
            assert(nv.take(1) =~= seq![nv[0]]);
        }
        push_str(&mut out, named[j].as_str());
        proof {
            if j > 0 {
                assert(out@ =~= join_slash(nv.take(j as int)) + "/"@ + named@[j as int]@);
            } else {
                assert(out@ =~= named@[0]@);
            }
        }
        j = j + 1;
    }
    assert(nv.take(named@.len() as int) =~= nv);
    Ok(out)
}

/// A data path of the filesystem plugin: the sanitized path under the data
/// root.
pub fn scoped_data_path(data_root: &str, raw: &str) -> (r: Result<String, String>)
    ensures
        match (r, spec_sanitize(raw@)) {
            (Ok(x), Ok(y)) => x@ == path_join(data_root@, y),
            (Err(x), Err(y)) => x@ == y,
            _ => false,
        },
{
    match sanitize_relative_path(raw) {
        Ok(rel) => Ok(crate::native_ir::join_path(data_root, rel.as_str())),
        Err(e) => Err(e),
    }
}

// ── laws ───────────────────────────────────────────────────────────────────

/// A segment the filesystem plugin lets through: named, not `..`, no `/`.
pub open spec fn plain_segment(p: Seq<char>) -> bool {
    p.len() > 0 && p != "."@ && p != ".."@ && forall|j: int| 0 <= j < p.len() ==> p[j] != '/'
}

/// The first segment leads the joined path.
proof fn lemma_join_slash_head(ps: Seq<Seq<char>>)
    requires
        ps.len() > 0,
    ensures
        join_slash(ps).len() >= ps[0].len(),
        forall|j: int| 0 <= j < ps[0].len() ==> join_slash(ps)[j] == ps[0][j],
    decreases ps.len(),
{
    if ps.len() > 1 {
        lemma_join_slash_head(ps.drop_last());
        assert(ps.drop_last()[0] == ps[0]);
    }
}

/// A path that the filesystem plugin accepts stays inside the data root: it
/// is relative, it is its named segments joined with `/`, and each of them is
/// a plain name (not empty, not `.` or `..`, without `/`); under the data
/// root it lands at `root/path`.
pub proof fn law_sanitized_path_stays_inside(raw: Seq<char>, root: Seq<char>)
    requires
        spec_sanitize(raw) is Ok,
    ensures
        ({
            let p = spec_sanitize(raw)->Ok_0;
            &&& p == join_slash(named_segments(raw))
            &&& forall|i: int| 0 <= i < named_segments(raw).len() ==> plain_segment(#[trigger] named_segments(raw)[i])
            &&& p.len() > 0 && p[0] != '/'
            &&& !is_absolute(p)
            &&& path_join(root, p) == (if root.len() == 0 || root.last() == '/' { root + p } else { root + "/"@ + p })
        }),
{
    reveal_strlit("..");
    reveal_strlit(".");
    reveal_strlit("/");
    let segs = named_segments(raw);
    lemma_named_segments_plain(raw);
    assert forall|i: int| 0 <= i < segs.len() implies plain_segment(#[trigger] segs[i]) by {
        assert(segs.contains(segs[i]));
    }
    lemma_join_slash_head(segs);
    assert(plain_segment(segs[0]));
    assert(segs[0][0] != '/');
}


/// Each named segment is a piece between separators: not empty, not ".",
/// without '/'.
proof fn lemma_named_segments_plain(raw: Seq<char>)
    ensures
        forall|i: int| 0 <= i < named_segments(raw).len() ==> {
            let e = #[trigger] named_segments(raw)[i];
            &&& e.len() > 0
            &&& e != "."@
            &&& forall|j: int| 0 <= j < e.len() ==> e[j] != '/'
        },
{
    let ps = split_char(raw, '/');
    let f = |p: Seq<char>| named_segment(p);
    let segs = named_segments(raw);
    lemma_split_char_pieces(raw, '/');
    assert forall|i: int| 0 <= i < segs.len() implies {
        let e = #[trigger] segs[i];
        &&& e.len() > 0
        &&& e != "."@
        &&& forall|j: int| 0 <= j < e.len() ==> e[j] != '/'
    } by {
        let e = segs[i];
        assert(segs.contains(e));
        ps.lemma_filter_map_contains(f, e);
        let t = choose|t: Seq<char>| #[trigger] ps.contains(t) && f(t) == Some(e);
        let k = choose|k: int| 0 <= k < ps.len() && ps[k] == t;
        assert(t == e);
        assert forall|j: int| 0 <= j < e.len() implies e[j] != '/' by {
            assert(ps[k][j] != '/');
        }
    }
}

/// The components of `raw` after a leading root or current-directory mark:
/// those that name something.
pub open spec fn normal_components(raw: Seq<char>) -> Seq<Seq<char>> {
    let cs = unix_components(raw);
    if cs.len() > 0 && (cs[0] == "/"@ || cs[0] == "."@) {
        cs.drop_first()
    } else {
        cs
    }
}

/// The filesystem plugin judges a path by its components as
/// `Path::components` yields them: a path led by the root is refused as
/// absolute, one with a ".." component as leaving the data root, one with
/// no named component as empty; any other path becomes its named components
/// joined with '/'.
pub proof fn law_sanitize_follows_components(raw: Seq<char>)
    ensures
        spec_sanitize(raw) == ({
            let cs = unix_components(raw);
            if cs.len() > 0 && cs[0] == "/"@ {
                Err::<Seq<char>, Seq<char>>("absolute paths are not allowed"@)
            } else if cs.contains(".."@) {
                Err("parent segments are not allowed"@)
            } else if normal_components(raw).len() == 0 {
                Err("path must not be empty"@)
            } else {
                Ok(join_slash(normal_components(raw)))
            }
        }),
{
    reveal_strlit("/");
    reveal_strlit(".");
    reveal_strlit("..");
    let segs = named_segments(raw);
    let cs = unix_components(raw);
    lemma_named_segments_plain(raw);
    if raw.len() > 0 && raw[0] == '/' {
        assert(cs[0] == "/"@);
    } else {
        assert(normal_components(raw) == segs) by {
            if segs.len() > 0 {
                assert(segs[0][0] != '/');
                assert(segs[0] != "/"@);
            }
            if raw.len() > 0 && raw[0] == '.' && (raw.len() == 1 || raw[1] == '/') {
                assert(cs.drop_first() =~= segs);
            }
        }
        assert(!(cs.len() > 0 && cs[0] == "/"@)) by {
            if raw.len() > 0 && raw[0] == '.' && (raw.len() == 1 || raw[1] == '/') {
                assert(cs[0] == "."@);
                assert("."@ != "/"@) by { assert("."@[0] != "/"@[0]); }
            } else if cs.len() > 0 {
                assert(cs[0] == segs[0]);
                assert(segs[0][0] != '/');
            }
        }
        assert(cs.contains(".."@) == segs.contains(".."@)) by {
            if segs.contains(".."@) {
                let k = choose|k: int| 0 <= k < segs.len() && segs[k] == ".."@;
                if raw.len() > 0 && raw[0] == '.' && (raw.len() == 1 || raw[1] == '/') {
                    assert(cs[k + 1] == ".."@);
                } else {
                    assert(cs[k] == ".."@);
                }
            }
            if cs.contains(".."@) {
                let k = choose|k: int| 0 <= k < cs.len() && cs[k] == ".."@;
                if raw.len() > 0 && raw[0] == '.' && (raw.len() == 1 || raw[1] == '/') {
                    if k == 0 {
                        assert("."@ != ".."@) by { assert("."@.len() != ".."@.len()); }
                    } else {
                        assert(segs[k - 1] == ".."@);
                    }
                } else {
                    assert(segs[k] == ".."@);
                }
            }
        }
    }
}

} // verus!
