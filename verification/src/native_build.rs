//! The text the native build commands read and rewrite: Gradle Kotlin DSL
//! assignments, `crepus.toml`/`project.yml` values, `simctl` device listings,
//! and the SDK/destination names of iOS builds.
use vstd::prelude::*;
use crate::text::{opt_view};
use crate::text::{
    chars_of, contains, contains_str, first_some, lemma_first_some, lines, lines_of, push_str,
    starts_with, string_from_range, trim, trim_bounds, trim_char, trim_char_bounds, trim_start,
    trimmed_after_prefix,
};

verus! {

/// Where an iOS build runs.
#[derive(Clone, Copy, Debug, PartialEq, Eq, Structural)]
pub enum IosBuildTarget {
    Simulator,
    Device,
}

impl IosBuildTarget {
    /// The `xcodebuild -sdk` name.
    pub fn sdk(self) -> (r: &'static str)
        ensures
            r@ == (match self {
                IosBuildTarget::Simulator => "iphonesimulator"@,
                IosBuildTarget::Device => "iphoneos"@,
            }),
    {
        match self {
            IosBuildTarget::Simulator => "iphonesimulator",
            IosBuildTarget::Device => "iphoneos",
        }
    }

    /// The `xcodebuild -destination` value.
    pub fn destination(self) -> (r: &'static str)
        ensures
            r@ == (match self {
                IosBuildTarget::Simulator => "generic/platform=iOS Simulator"@,
                IosBuildTarget::Device => "generic/platform=iOS"@,
            }),
    {
        match self {
            IosBuildTarget::Simulator => "generic/platform=iOS Simulator",
            IosBuildTarget::Device => "generic/platform=iOS",
        }
    }
}

// ── key = "value" lines ─────────────────────────────────────────────────────

/// The value of a `key = value` line: the trimmed line starts with `key`,
/// then (after spaces) `=`; the value is the rest, trimmed, without its
/// surrounding `"` characters.
pub open spec fn spec_kv_line(line: Seq<char>, key: Seq<char>) -> Option<Seq<char>> {
    let t = trim(line);
    if starts_with(t, key) {
        let rest = trim_start(t.skip(key.len() as int));
        if rest.len() > 0 && rest[0] == '=' {
            Some(trim_char(trim(rest.drop_first()), '"'))
        } else {
            None
        }
    } else {
        None
    }
}

pub open spec fn kv_line_fn(key: Seq<char>) -> spec_fn(Seq<char>) -> Option<Seq<char>> {
    |l: Seq<char>| spec_kv_line(l, key)
}

/// The value of the first `key = value` line of `src`.
pub open spec fn spec_kv_value(src: Seq<char>, key: Seq<char>) -> Option<Seq<char>> {
    first_some(lines(src), kv_line_fn(key))
}

pub fn kv_line(line: &str, key: &str) -> (r: Option<String>)
    ensures
        match (r, spec_kv_line(line@, key@)) {
            (Some(x), Some(y)) => x@ == y,
            (None, None) => true,
            _ => false,
        },
{
    match trimmed_after_prefix(line, key) {
        None => None,
        Some((cs, a, b)) => {
            let (ra, rb) = trim_bounds(&cs, a, b);
            if ra == b || cs[ra] != '=' {
                return None;
            }
            let ghost rest = cs@.subrange(ra as int, b as int);
            assert(rest.drop_first() =~= cs@.subrange(ra + 1, b as int));
            let (x, y) = trim_bounds(&cs, ra + 1, b);
            let (p, q) = trim_char_bounds(&cs, x, y, '"');
            Some(string_from_range(&cs, p, q))
        },
    }
}

/// Reads `key = "value"` from Kotlin DSL (`build.gradle.kts`) source.
pub fn gradle_kts_value(src: &str, key: &str) -> (r: Option<String>)
    ensures
        match (r, spec_kv_value(src@, key@)) {
            (Some(x), Some(y)) => x@ == y,
            (None, None) => true,
            _ => false,
        },
{
    let ls = lines_of(src);
    let ghost sl = lines(src@);
    let ghost f = kv_line_fn(key@);
    let mut i: usize = 0;
    while i < ls.len()
        invariant
            ls@.len() == sl.len(),
            sl == lines(src@),
            forall|j: int| 0 <= j < ls@.len() ==> #[trigger] ls@[j]@ == sl[j],
            i <= ls@.len(),
            f == kv_line_fn(key@),
            forall|j: int| 0 <= j < i ==> f(#[trigger] sl[j]) is None,
        decreases ls@.len() - i,
    {
        let v = kv_line(ls[i].as_str(), key);
        match v {
            Some(x) => {
                proof {
                    lemma_first_some(sl, f, i as int);
                    assert(sl.skip(i as int)[0] == sl[i as int]);
                    assert(f(sl[i as int]) is Some);
                    assert(first_some(sl.skip(i as int), f) == f(sl[i as int]));
                    assert(ls@[i as int]@ == sl[i as int]);
                    assert(f(sl[i as int]) == Some(x@));
                }
                return Some(x);
            },
            None => {},
        }
        i = i + 1;
    }
    proof {
        lemma_first_some(sl, f, sl.len() as int);
    }
    None
}

/// Reads `key = "value"` from TOML-like text (the same line syntax).
pub fn toml_value(src: &str, key: &str) -> (r: Option<String>)
    ensures
        match (r, spec_kv_value(src@, key@)) {
            (Some(x), Some(y)) => x@ == y,
            (None, None) => true,
            _ => false,
        },
{
    gradle_kts_value(src, key)
}

// ── prefix: value lines (project.yml) ───────────────────────────────────────

/// The trimmed rest of a line whose trimmed form starts with `prefix`, when
/// that rest is not empty.
pub open spec fn spec_prefixed_line(line: Seq<char>, prefix: Seq<char>) -> Option<Seq<char>> {
    let t = trim(line);
    if starts_with(t, prefix) {
        let r = trim(t.skip(prefix.len() as int));
        if r.len() == 0 {
            None
        } else {
            Some(r)
        }
    } else {
        None
    }
}

pub open spec fn prefixed_line_fn(prefix: Seq<char>) -> spec_fn(Seq<char>) -> Option<Seq<char>> {
    |l: Seq<char>| spec_prefixed_line(l, prefix)
}

pub fn prefixed_line(line: &str, prefix: &str) -> (r: Option<String>)
    ensures
        match (r, spec_prefixed_line(line@, prefix@)) {
            (Some(x), Some(y)) => x@ == y,
            (None, None) => true,
            _ => false,
        },
{
    match trimmed_after_prefix(line, prefix) {
        None => None,
        Some((cs, a, b)) => {
            let (x, y) = trim_bounds(&cs, a, b);
            if x == y {
                None
            } else {
                Some(string_from_range(&cs, x, y))
            }
        },
    }
}

/// The first non-empty value of a `prefix` line of `src`.
pub fn first_prefixed_value(src: &str, prefix: &str) -> (r: Option<String>)
    ensures
        match (r, first_some(lines(src@), prefixed_line_fn(prefix@))) {
            (Some(x), Some(y)) => x@ == y,
            (None, None) => true,
            _ => false,
        },
{
    let ls = lines_of(src);
    let ghost sl = lines(src@);
    let ghost f = prefixed_line_fn(prefix@);
    let mut i: usize = 0;
    while i < ls.len()
        invariant
            ls@.len() == sl.len(),
            forall|j: int| 0 <= j < ls@.len() ==> #[trigger] ls@[j]@ == sl[j],
            i <= ls@.len(),
            sl == lines(src@),
            f == prefixed_line_fn(prefix@),
            forall|j: int| 0 <= j < i ==> f(#[trigger] sl[j]) is None,
        decreases ls@.len() - i,
    {
        let v = prefixed_line(ls[i].as_str(), prefix);
        match v {
            Some(x) => {
                proof {
                    lemma_first_some(sl, f, i as int);
                    assert(sl.skip(i as int)[0] == sl[i as int]);
                    assert(f(sl[i as int]) is Some);
                    assert(first_some(sl.skip(i as int), f) == f(sl[i as int]));
                    assert(ls@[i as int]@ == sl[i as int]);
                    assert(f(sl[i as int]) == Some(x@));
                }
                return Some(x);
            },
            None => {},
        }
        i = i + 1;
    }
    proof {
        lemma_first_some(sl, f, sl.len() as int);
    }
    None
}

/// The XcodeGen project name (`name: …`).
pub fn project_name(src: &str) -> (r: Option<String>)
    ensures
        match (r, first_some(lines(src@), prefixed_line_fn("name:"@))) {
            (Some(x), Some(y)) => x@ == y,
            (None, None) => true,
            _ => false,
        },
{
    first_prefixed_value(src, "name:")
}

/// The bundle identifier of an XcodeGen project (`PRODUCT_BUNDLE_IDENTIFIER: …`).
pub fn project_bundle_id(src: &str) -> (r: Option<String>)
    ensures
        match (r, first_some(lines(src@), prefixed_line_fn("PRODUCT_BUNDLE_IDENTIFIER:"@))) {
            (Some(x), Some(y)) => x@ == y,
            (None, None) => true,
            _ => false,
        },
{
    first_prefixed_value(src, "PRODUCT_BUNDLE_IDENTIFIER:")
}

// ── Kotlin assignments ──────────────────────────────────────────────────────

/// `ls` joined with `sep` between consecutive items.
pub open spec fn join_with(ls: Seq<Seq<char>>, sep: Seq<char>) -> Seq<char>
    decreases ls.len(),
{
    if ls.len() == 0 {
        Seq::empty()
    } else if ls.len() == 1 {
        ls[0]
    } else {
        join_with(ls.drop_last(), sep) + sep + ls.last()
    }
}

/// One line of a Kotlin file with `key = "value"` put in place when the
/// line, after its indentation, starts with `key`; the indentation stays.
pub open spec fn spec_replace_assignment_line(line: Seq<char>, key: Seq<char>, value: Seq<char>) -> Seq<char> {
    let t = trim_start(line);
    if starts_with(t, key) {
        line.take(line.len() - t.len()) + key + " = \""@ + value + "\""@
    } else {
        line
    }
}

/// Every line whose text starts with `key` becomes `key = "value"`, with its
/// indentation; the lines are joined with `\n` (a final line ending is not
/// kept).
pub open spec fn spec_replace_kotlin_string_assignment(src: Seq<char>, key: Seq<char>, value: Seq<char>) -> Seq<char> {
    join_with(lines(src).map_values(|l: Seq<char>| spec_replace_assignment_line(l, key, value)), "\n"@)
}

pub fn replace_assignment_line(line: &str, key: &str, value: &str) -> (r: String)
    ensures
        r@ == spec_replace_assignment_line(line@, key@, value@),
{
    let cs = chars_of(line);
    let ks = chars_of(key);
    let (a, _b) = trim_bounds(&cs, 0, cs.len());
    assert(cs@.subrange(0, cs@.len() as int) =~= cs@);
    let ghost t = cs@.subrange(a as int, cs@.len() as int);
    let n = cs.len();
    let starts = ks.len() <= n - a && crate::text::occurs_at_exec(&cs, &ks, a);
    proof {
        if ks@.len() <= n - a {
            assert(t.subrange(0, ks@.len() as int) =~= cs@.subrange(a as int, a + ks@.len()));
        }
    }
    if starts {
        let mut out = string_from_range(&cs, 0, a);
        assert(cs@.take(cs@.len() - t.len()) =~= cs@.subrange(0, a as int));
        push_str(&mut out, key);
        push_str(&mut out, " = \"");
        push_str(&mut out, value);
        push_str(&mut out, "\"");
        out
    } else {
        String::from_str(line)
    }
}

/// Rewrites `key = "…"` assignments in Kotlin source (`namespace`,
/// `applicationId`).
pub fn replace_kotlin_string_assignment(src: &str, key: &str, value: &str) -> (r: String)
    ensures
        r@ == spec_replace_kotlin_string_assignment(src@, key@, value@),
{
    let ls = lines_of(src);
    let ghost sl = lines(src@);
    let ghost f = |l: Seq<char>| spec_replace_assignment_line(l, key@, value@);
    let ghost mapped = sl.map_values(f);
    let mut out = String::new();
    let mut i: usize = 0;
    while i < ls.len()
        invariant
            ls@.len() == sl.len(),
            forall|j: int| 0 <= j < ls@.len() ==> #[trigger] ls@[j]@ == sl[j],
            mapped == sl.map_values(f),
            f == (|l: Seq<char>| spec_replace_assignment_line(l, key@, value@)),
            i <= ls@.len(),
            out@ == join_with(mapped.take(i as int), "\n"@),
        decreases ls@.len() - i,
    {
        let line = replace_assignment_line(ls[i].as_str(), key, value);
        let ghost prev = out@;
        if i > 0 {
            push_str(&mut out, "\n");
        }
        push_str(&mut out, line.as_str());
        proof {
            let tk = mapped.take(i + 1);
            assert(tk.drop_last() =~= mapped.take(i as int));
            assert(tk.last() == f(sl[i as int]));
            if i == 0 {
                assert(out@ =~= join_with(tk, "\n"@));
            } else {
                assert(out@ =~= join_with(tk, "\n"@));
            }
        }
        i = i + 1;
    }
    assert(mapped.take(sl.len() as int) =~= mapped);
    out
}

/// The `adb shell am start -n` component of the scaffold's main activity.
pub fn android_main_activity_component(application_id: &str) -> (r: String)
    ensures
        r@ == application_id@ + "/dev.crepuscularity.nativeshell.MainActivity"@,
{
    let mut out = String::from_str(application_id);
    push_str(&mut out, "/dev.crepuscularity.nativeshell.MainActivity");
    out
}

// ── simctl device listings ──────────────────────────────────────────────────

/// The number of `c` in `s`.
pub open spec fn count_char(s: Seq<char>, c: char) -> nat
    decreases s.len(),
{
    if s.len() == 0 {
        0
    } else {
        count_char(s.drop_last(), c) + if s.last() == c {
            1nat
        } else {
            0nat
        }
    }
}

/// The simulator UDID in a `simctl list` line: the text between the first `(`
/// and the next `)`, when it has four `-`.
pub open spec fn spec_simulator_id_from_line(line: Seq<char>) -> Option<Seq<char>> {
    let open_at = crate::text::index_of_char(line, '(');
    if open_at >= line.len() {
        None
    } else {
        let rest = line.skip(open_at + 1);
        let close_at = crate::text::index_of_char(rest, ')');
        if close_at >= rest.len() {
            None
        } else {
            let candidate = rest.take(close_at);
            if count_char(candidate, '-') == 4 {
                Some(candidate)
            } else {
                None
            }
        }
    }
}

fn find_char_from(cs: &Vec<char>, from: usize, c: char) -> (r: usize)
    requires
        from <= cs@.len(),
    ensures
        from <= r <= cs@.len(),
        r - from == crate::text::index_of_char(cs@.skip(from as int), c),
{
    let mut i = from;
    while i < cs.len() && cs[i] != c
        invariant
            from <= i <= cs@.len(),
            forall|j: int| from <= j < i ==> cs@[j] != c,
        decreases cs@.len() - i,
    {
        i = i + 1;
    }
    proof {
        let s = cs@.skip(from as int);
        assert forall|j: int| 0 <= j < i - from implies #[trigger] s[j] != c by {
            assert(s[j] == cs@[from + j]);
        }
        if i < cs@.len() {
            assert(s[i - from] == cs@[i as int]);
        }
        crate::text::lemma_index_of_char(s, c, i - from);
    }
    i
}

fn count_char_range(cs: &Vec<char>, a: usize, b: usize, c: char) -> (r: usize)
    requires
        a <= b <= cs@.len(),
    ensures
        r == count_char(cs@.subrange(a as int, b as int), c),
{
    let mut n: usize = 0;
    let mut i = a;
    while i < b
        invariant
            a <= i <= b <= cs@.len(),
            n == count_char(cs@.subrange(a as int, i as int), c),
            n <= i - a,
        decreases b - i,
    {
        assert(cs@.subrange(a as int, i + 1).drop_last() =~= cs@.subrange(a as int, i as int));
        if cs[i] == c {
            n = n + 1;
        }
        i = i + 1;
    }
    n
}

pub fn simulator_id_from_line(line: &str) -> (r: Option<String>)
    ensures
        match (r, spec_simulator_id_from_line(line@)) {
            (Some(x), Some(y)) => x@ == y,
            (None, None) => true,
            _ => false,
        },
{
    let cs = chars_of(line);
    assert(cs@.skip(0) =~= cs@);
    let open_at = find_char_from(&cs, 0, '(');
    if open_at == cs.len() {
        return None;
    }
    let start = open_at + 1;
    let close_at = find_char_from(&cs, start, ')');
    if close_at == cs.len() {
        return None;
    }
    let ghost rest = cs@.skip(start as int);
    assert(rest.take(close_at - start) =~= cs@.subrange(start as int, close_at as int));
    if count_char_range(&cs, start, close_at, '-') == 4 {
        Some(string_from_range(&cs, start, close_at))
    } else {
        None
    }
}

/// Whether a `simctl list` line describes a booted or shut-down device.
pub open spec fn is_device_line(l: Seq<char>) -> bool {
    contains(l, "(Booted)"@) || contains(l, "(Shutdown)"@)
}

/// The device to run on from `xcrun simctl list devices available` output:
/// the first booted device, else the first listed device.
pub open spec fn spec_select_simulator(ls: Seq<Seq<char>>, first: Option<Seq<char>>) -> Option<Seq<char>>
    decreases ls.len(),
{
    if ls.len() == 0 {
        first
    } else {
        let l = ls[0];
        if !is_device_line(l) {
            spec_select_simulator(ls.drop_first(), first)
        } else {
            match spec_simulator_id_from_line(l) {
                None => spec_select_simulator(ls.drop_first(), first),
                Some(id) => if contains(l, "(Booted)"@) {
                    Some(id)
                } else {
                    spec_select_simulator(
                        ls.drop_first(),
                        if first is None {
                            Some(id)
                        } else {
                            first
                        },
                    )
                },
            }
        }
    }
}

pub fn select_simulator_device(listing: &str) -> (r: Option<String>)
    ensures
        match (r, spec_select_simulator(lines(listing@), None)) {
            (Some(x), Some(y)) => x@ == y,
            (None, None) => true,
            _ => false,
        },
{
    let ls = lines_of(listing);
    let ghost sl = lines(listing@);
    let mut first: Option<String> = None;
    let mut i: usize = 0;
    assert(sl.skip(0) =~= sl);
    while i < ls.len()
        invariant
            ls@.len() == sl.len(),
            forall|j: int| 0 <= j < ls@.len() ==> #[trigger] ls@[j]@ == sl[j],
            i <= ls@.len(),
            sl == lines(listing@),
            spec_select_simulator(
                sl.skip(i as int),
                match first {
                    Some(f) => Some(f@),
                    None => None,
                },
            ) == spec_select_simulator(sl, None),
        decreases ls@.len() - i,
    {
        let line = ls[i].as_str();
        let ghost l = sl[i as int];
        assert(sl.skip(i as int)[0] == l);
        assert(sl.skip(i as int).drop_first() =~= sl.skip(i + 1));
        let booted = contains_str(line, "(Booted)");
        let shutdown = contains_str(line, "(Shutdown)");
        if booted || shutdown {
            match simulator_id_from_line(line) {
                None => {},
                Some(id) => {
                    if booted {
                        proof {
                            let fv = match first {
                                Some(f) => Some(f@),
                                None => None,
                            };
                            assert(spec_select_simulator(sl.skip(i as int), fv) == Some(id@));
                        }
                        return Some(id);
                    }
                    if first.is_none() {
                        first = Some(id);
                    }
                },
            }
        }
        i = i + 1;
    }
    assert(sl.skip(i as int) =~= Seq::<Seq<char>>::empty());
    first
}

// ── Mobile app identity ────────────────────────────────────────────────────

/// What an `[ios]` table of a `crepus.toml` says of the app's identity.
#[derive(Clone, Debug, PartialEq, Eq)]
pub struct IosIdentity {
    pub scheme: String,
    pub bundle_id: Option<String>,
    pub development_team: Option<String>,
    pub code_sign_style: Option<String>,
    pub allow_provisioning_updates: bool,
}

/// The identity an iOS build of a mobile app uses.
#[derive(Clone, Debug, PartialEq, Eq)]
pub struct MobileIosConfig {
    pub scheme: String,
    pub bundle_id: String,
    pub development_team: Option<String>,
    pub code_sign_style: Option<String>,
    pub allow_provisioning_updates: bool,
}

/// The first of two optional texts that is there.
pub open spec fn either(a: Option<Seq<char>>, b: Option<Seq<char>>) -> Option<Seq<char>> {
    match a {
        Some(x) => Some(x),
        None => b,
    }
}

pub open spec fn scheme_of(i: Option<IosIdentity>) -> Option<Seq<char>> {
    match i {
        Some(x) => Some(x.scheme@),
        None => None,
    }
}

pub open spec fn bundle_of(i: Option<IosIdentity>) -> Option<Seq<char>> {
    match i {
        Some(x) => opt_view(x.bundle_id),
        None => None,
    }
}

pub open spec fn team_of(i: Option<IosIdentity>) -> Option<Seq<char>> {
    match i {
        Some(x) => opt_view(x.development_team),
        None => None,
    }
}

pub open spec fn style_of(i: Option<IosIdentity>) -> Option<Seq<char>> {
    match i {
        Some(x) => opt_view(x.code_sign_style),
        None => None,
    }
}

pub open spec fn allow_of(i: Option<IosIdentity>) -> bool {
    match i {
        Some(x) => x.allow_provisioning_updates,
        None => false,
    }
}

pub open spec fn or_default(o: Option<Seq<char>>, d: Seq<char>) -> Seq<char> {
    match o {
        Some(x) => x,
        None => d,
    }
}

/// Each setting comes from the app's own `ios/crepus.toml`, else from the
/// project root's `crepus.toml`; the scheme falls back to a `scheme = "…"`
/// line of the app's file and to the XcodeGen project name, the bundle id to
/// the project's `PRODUCT_BUNDLE_IDENTIFIER`, and both to the shell's
/// defaults. Provisioning updates are allowed when either file allows them.
pub open spec fn spec_mobile_ios_config(
    local: Option<IosIdentity>,
    root: Option<IosIdentity>,
    local_toml: Seq<char>,
    project_yml: Seq<char>,
) -> (Seq<char>, Seq<char>, Option<Seq<char>>, Option<Seq<char>>, bool) {
    (
        or_default(
            either(either(either(scheme_of(local), scheme_of(root)), spec_kv_value(local_toml, "scheme"@)), first_some(
                lines(project_yml),
                prefixed_line_fn("name:"@),
            )),
            "CrepusMobileApp"@,
        ),
        or_default(
            either(either(bundle_of(local), bundle_of(root)), first_some(
                lines(project_yml),
                prefixed_line_fn("PRODUCT_BUNDLE_IDENTIFIER:"@),
            )),
            "dev.crepuscularity.mobile"@,
        ),
        either(team_of(local), team_of(root)),
        either(style_of(local), style_of(root)),
        allow_of(local) || allow_of(root),
    )
}

pub open spec fn config_view(c: MobileIosConfig) -> (Seq<char>, Seq<char>, Option<Seq<char>>, Option<Seq<char>>, bool) {
    (c.scheme@, c.bundle_id@, opt_view(c.development_team), opt_view(c.code_sign_style), c.allow_provisioning_updates)
}

fn first_of(a: &Option<String>, b: &Option<String>) -> (r: Option<String>)
    ensures
        opt_view(r) == either(opt_view(*a), opt_view(*b)),
{
    match a {
        Some(x) => Some(x.clone()),
        None => match b {
            Some(y) => Some(y.clone()),
            None => None,
        },
    }
}

fn field_of(i: &Option<IosIdentity>, which: u8) -> (r: Option<String>)
    ensures
        which == 0 ==> opt_view(r) == scheme_of(*i),
        which == 1 ==> opt_view(r) == bundle_of(*i),
        which == 2 ==> opt_view(r) == team_of(*i),
        which == 3 ==> opt_view(r) == style_of(*i),
{
    match i {
        Some(x) => if which == 0 {
            Some(x.scheme.clone())
        } else if which == 1 {
            x.bundle_id.clone()
        } else if which == 2 {
            x.development_team.clone()
        } else {
            x.code_sign_style.clone()
        },
        None => None,
    }
}

/// The identity of an iOS build, from the two `[ios]` tables (when their
/// files parse), the text of the app's `crepus.toml` and its `project.yml`.
pub fn mobile_ios_config(
    local: &Option<IosIdentity>,
    root: &Option<IosIdentity>,
    local_toml: &str,
    project_yml: &str,
) -> (r: MobileIosConfig)
    ensures
        config_view(r) == spec_mobile_ios_config(*local, *root, local_toml@, project_yml@),
{
    let scheme = match first_of(&field_of(local, 0), &field_of(root, 0)) {
        Some(s) => s,
        None => match toml_value(local_toml, "scheme") {
            Some(s) => s,
            None => match project_name(project_yml) {
                Some(s) => s,
                None => String::from_str("CrepusMobileApp"),
            },
        },
    };
    let bundle_id = match first_of(&field_of(local, 1), &field_of(root, 1)) {
        Some(s) => s,
        None => match project_bundle_id(project_yml) {
            Some(s) => s,
            None => String::from_str("dev.crepuscularity.mobile"),
        },
    };
    let development_team = first_of(&field_of(local, 2), &field_of(root, 2));
    let code_sign_style = first_of(&field_of(local, 3), &field_of(root, 3));
    let allow_provisioning_updates = match local {
        Some(x) => x.allow_provisioning_updates,
        None => false,
    } || match root {
        Some(x) => x.allow_provisioning_updates,
        None => false,
    };
    MobileIosConfig { scheme, bundle_id, development_team, code_sign_style, allow_provisioning_updates }
}

/// The new `app/build.gradle.kts` for an `[android]` table's namespace and
/// application id, or nothing when the table sets neither.
pub open spec fn spec_android_gradle_edit(gradle: Seq<char>, application_id: Option<Seq<char>>, namespace: Option<Seq<char>>) -> Option<Seq<char>> {
    if application_id is None && namespace is None {
        None
    } else {
        let g = match namespace {
            Some(n) => spec_replace_kotlin_string_assignment(gradle, "namespace"@, n),
            None => gradle,
        };
        Some(match application_id {
            Some(a) => spec_replace_kotlin_string_assignment(g, "applicationId"@, a),
            None => g,
        })
    }
}

pub fn android_gradle_edit(gradle: &str, application_id: &Option<String>, namespace: &Option<String>) -> (r: Option<String>)
    ensures
        opt_view(r) == spec_android_gradle_edit(gradle@, opt_view(*application_id), opt_view(*namespace)),
{
    if application_id.is_none() && namespace.is_none() {
        return None;
    }
    let g = match namespace {
        Some(n) => replace_kotlin_string_assignment(gradle, "namespace", n.as_str()),
        None => String::from_str(gradle),
    };
    Some(match application_id {
        Some(a) => replace_kotlin_string_assignment(g.as_str(), "applicationId", a.as_str()),
        None => g,
    })
}

} // verus!
