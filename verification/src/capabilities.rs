//! `crepus native add <capability>`: the capability table and the text edits
//! that wire a capability into a native scaffold (Cargo features, Android
//! manifest permissions, iOS project settings and Info.plist keys, Kotlin
//! import hygiene). Every edit is a function from the file's text to its new
//! text; reading and writing the files is the executable's part.
use vstd::prelude::*;
use crate::text::{
    chars_of, contains, contains_str, find, find_str, lines, lines_of, push_char, push_str,
    replace_all, replace_first, replace_first_str, replace_str, starts_with, starts_with_str,
    string_from_range, to_owned_string, trim, trim_bounds, trim_char, trim_char_bounds,
    trim_start, occurs_at, lemma_find_bounds, str_eq, first_some, lemma_first_some, index_of_char,
    lemma_index_of_char_bound, ends_with, trim_end, trim_end_len, seq_eq, lemma_replace_first_keeps,
};

verus! {

// ── Info.plist keys from `INFOPLIST_KEY_NS…` project settings ──────────────

/// The Info.plist key and value of one `INFOPLIST_KEY_NS<Name>: "<value>"`
/// setting line: `NS<Name>`, and the value without the quotes around it.
pub open spec fn spec_plist_key(setting: Seq<char>) -> Option<(Seq<char>, Seq<char>)> {
    let t = trim(setting);
    match find(t, ": "@) {
        Some(i) => {
            let key = t.take(i);
            let value = t.skip(i + 2);
            if starts_with(key, "INFOPLIST_KEY_NS"@) {
                Some(("NS"@ + key.skip(16), trim_char(value, '"')))
            } else {
                None
            }
        },
        None => None,
    }
}

/// Reads one `INFOPLIST_KEY_NS…: "…"` setting as an Info.plist key and value.
pub fn ios_info_plist_key(setting: &str) -> (r: Option<(String, String)>)
    ensures
        match r {
            Some((k, v)) => spec_plist_key(setting@) == Some((k@, v@)),
            None => spec_plist_key(setting@) is None,
        },
{
    proof {
        reveal_strlit(": ");
        reveal_strlit("INFOPLIST_KEY_NS");
        reveal_strlit("NS");
    }
    let cs = chars_of(setting);
    let (a, b) = trim_bounds(&cs, 0, cs.len());
    assert(cs@.subrange(0, cs@.len() as int) =~= cs@);
    let t = string_from_range(&cs, a, b);
    let ghost tv = t@;
    proof {
        lemma_find_bounds(tv, ": "@);
    }
    match find_str(t.as_str(), ": ") {
        None => None,
        Some(i) => {
            let tc = chars_of(t.as_str());
            assert(occurs_at(tv, ": "@, i as int));
            let n = tc.len();
            let key = string_from_range(&tc, 0, i);
            assert(key@ =~= tv.take(i as int));
            if !starts_with_str(key.as_str(), "INFOPLIST_KEY_NS") {
                return None;
            }
            let mut k = to_owned_string("NS");
            let kc = chars_of(key.as_str());
            let rest = string_from_range(&kc, 16, kc.len());
            push_str(&mut k, rest.as_str());
            assert(rest@ =~= key@.skip(16));
            let (va, vb) = trim_char_bounds(&tc, i + 2, n, '"');
            let v = string_from_range(&tc, va, vb);
            assert(tc@.subrange(i + 2, n as int) =~= tv.skip(i + 2));
            Some((k, v))
        },
    }
}

/// The Info.plist entry of one key and value.
pub open spec fn plist_entry(key: Seq<char>, value: Seq<char>) -> Seq<char> {
    "    <key>"@ + key + "</key>\n    <string>"@ + value + "</string>\n"@
}

/// The entries of every `INFOPLIST_KEY_NS…` line among `ls`, in order.
pub open spec fn plist_entries(ls: Seq<Seq<char>>) -> Seq<char>
    decreases ls.len(),
{
    if ls.len() == 0 {
        Seq::empty()
    } else {
        plist_entries(ls.drop_last()) + match spec_plist_key(ls.last()) {
            Some((k, v)) => plist_entry(k, v),
            None => Seq::empty(),
        }
    }
}

fn push_plist_entry(out: &mut String, key: &str, value: &str)
    ensures
        final(out)@ == old(out)@ + plist_entry(key@, value@),
{
    proof {
        reveal_strlit("    <key>");
        reveal_strlit("</key>\n    <string>");
        reveal_strlit("</string>\n");
    }
    push_str(out, "    <key>");
    push_str(out, key);
    push_str(out, "</key>\n    <string>");
    push_str(out, value);
    push_str(out, "</string>\n");
    assert(final(out)@ =~= old(out)@ + plist_entry(key@, value@));
}

/// The Info.plist entries for the `INFOPLIST_KEY_NS…` settings of an iOS
/// `project.yml`, one per setting line, in order.
pub fn ios_info_plist_keys(project: &str) -> (r: String)
    ensures
        r@ == plist_entries(lines(project@)),
{
    let ls = lines_of(project);
    let ghost all = lines(project@);
    let mut out = String::new();
    let mut i: usize = 0;
    while i < ls.len()
        invariant
            i <= ls@.len(),
            ls@.len() == all.len(),
            forall|j: int| 0 <= j < ls@.len() ==> #[trigger] ls@[j]@ == all[j],
            out@ == plist_entries(all.take(i as int)),
        decreases ls@.len() - i,
    {
        let ghost before = all.take(i as int);
        proof {
            assert(all.take(i + 1).drop_last() =~= before);
            assert(all.take(i + 1).last() == ls@[i as int]@);
        }
        match ios_info_plist_key(ls[i].as_str()) {
            Some((k, v)) => {
                push_plist_entry(&mut out, k.as_str(), v.as_str());
            },
            None => {
                assert(out@ =~= out@ + Seq::<char>::empty());
            },
        }
        i = i + 1;
    }
    assert(all.take(ls@.len() as int) =~= all);
    out
}

/// The Info.plist keys and values of the setting lines of `setting`, in order.
pub open spec fn spec_plist_keys(setting: Seq<char>) -> Seq<(Seq<char>, Seq<char>)> {
    lines(setting).filter_map(|l: Seq<char>| spec_plist_key(l))
}

/// The keys and values that `add_ios_info_plist_key` adds for `setting`.
pub fn plist_keys_of(setting: &str) -> (r: Vec<(String, String)>)
    ensures
        r@.len() == spec_plist_keys(setting@).len(),
        forall|i: int| 0 <= i < r@.len() ==> (#[trigger] r@[i]).0@ == spec_plist_keys(setting@)[i].0
            && r@[i].1@ == spec_plist_keys(setting@)[i].1,
{
    let ls = lines_of(setting);
    let ghost all = lines(setting@);
    let ghost f = |l: Seq<char>| spec_plist_key(l);
    let mut out: Vec<(String, String)> = Vec::new();
    let mut i: usize = 0;
    while i < ls.len()
        invariant
            i <= ls@.len(),
            ls@.len() == all.len(),
            f == (|l: Seq<char>| spec_plist_key(l)),
            forall|j: int| 0 <= j < ls@.len() ==> #[trigger] ls@[j]@ == all[j],
            out@.len() == all.take(i as int).filter_map(f).len(),
            forall|j: int| 0 <= j < out@.len() ==> (#[trigger] out@[j]).0@
                == all.take(i as int).filter_map(f)[j].0 && out@[j].1@
                == all.take(i as int).filter_map(f)[j].1,
        decreases ls@.len() - i,
    {
        proof {
            assert(all.take(i + 1).drop_last() =~= all.take(i as int));
            assert(all.take(i + 1).last() == ls@[i as int]@);
        }
        match ios_info_plist_key(ls[i].as_str()) {
            Some(kv) => {
                out.push(kv);
            },
            None => {},
        }
        i = i + 1;
    }
    assert(all.take(ls@.len() as int) =~= all);
    out
}

/// The line before which new Info.plist keys go.
pub open spec fn launch_screen_key() -> Seq<char> {
    "    <key>UILaunchScreen</key>"@
}

/// Inserts each key that the plist does not mention yet before the
/// `UILaunchScreen` key, in order; also says whether anything was inserted.
pub open spec fn spec_insert_plist_keys(source: Seq<char>, keys: Seq<(Seq<char>, Seq<char>)>) -> (Seq<char>, bool)
    decreases keys.len(),
{
    if keys.len() == 0 {
        (source, false)
    } else {
        let (s, changed) = spec_insert_plist_keys(source, keys.drop_last());
        let (k, v) = keys.last();
        if contains(s, "<key>"@ + k + "</key>"@) {
            (s, changed)
        } else {
            (replace_all(s, launch_screen_key(), plist_entry(k, v) + launch_screen_key()), true)
        }
    }
}

/// The Info.plist text with `keys` added, and whether it changed (the file
/// is written only then).
pub fn insert_plist_keys(source: &str, keys: &Vec<(String, String)>) -> (r: (String, bool))
    ensures
        ({
            let ks = keys@.map_values(|kv: (String, String)| (kv.0@, kv.1@));
            r.0@ == spec_insert_plist_keys(source@, ks).0 && r.1 == spec_insert_plist_keys(source@, ks).1
        }),
{
    proof {
        reveal_strlit("    <key>UILaunchScreen</key>");
        reveal_strlit("<key>");
        reveal_strlit("</key>");
    }
    let ghost ks = keys@.map_values(|kv: (String, String)| (kv.0@, kv.1@));
    let mut text = to_owned_string(source);
    let mut changed = false;
    let mut i: usize = 0;
    while i < keys.len()
        invariant
            i <= keys@.len(),
            ks == keys@.map_values(|kv: (String, String)| (kv.0@, kv.1@)),
            (text@, changed) == spec_insert_plist_keys(source@, ks.take(i as int)),
        decreases keys@.len() - i,
    {
        proof {
            reveal_strlit("    <key>UILaunchScreen</key>");
            reveal_strlit("<key>");
            reveal_strlit("</key>");
            assert(ks.take(i + 1).drop_last() =~= ks.take(i as int));
            assert(ks.take(i + 1).last() == (keys@[i as int].0@, keys@[i as int].1@));
        }
        let mut probe = to_owned_string("<key>");
        push_str(&mut probe, keys[i].0.as_str());
        push_str(&mut probe, "</key>");
        if !contains_str(text.as_str(), probe.as_str()) {
            let mut with = String::new();
            push_plist_entry(&mut with, keys[i].0.as_str(), keys[i].1.as_str());
            push_str(&mut with, "    <key>UILaunchScreen</key>");
            text = replace_str(text.as_str(), "    <key>UILaunchScreen</key>", with.as_str());
            changed = true;
        }
        i = i + 1;
    }
    assert(ks.take(keys@.len() as int) =~= ks);
    (text, changed)
}

// ── Android manifest permissions, added once ──────────────────────────────

pub open spec fn name_attr() -> Seq<char> {
    "android:name=\""@
}

pub open spec fn max_sdk_attr() -> Seq<char> {
    "android:maxSdkVersion"@
}

/// The `android:name` of a manifest line: the text after the first
/// `android:name="` up to the next `"` (or the next `android:name="`).
pub open spec fn spec_permission_name(line: Seq<char>) -> Option<Seq<char>> {
    match find(line, name_attr()) {
        None => None,
        Some(i) => {
            let rest = line.skip(i + name_attr().len());
            let part = match find(rest, name_attr()) {
                Some(j) => rest.take(j),
                None => rest,
            };
            Some(part.take(index_of_char(part, '"')))
        },
    }
}

/// Reads the `android:name` of a manifest line.
pub fn permission_name(line: &str) -> (r: Option<String>)
    ensures
        match r {
            Some(n) => spec_permission_name(line@) == Some(n@),
            None => spec_permission_name(line@) is None,
        },
{
    proof {
        reveal_strlit("android:name=\"");
        lemma_find_bounds(line@, name_attr());
    }
    match find_str(line, "android:name=\"") {
        None => None,
        Some(i) => {
            let cs = chars_of(line);
            assert(occurs_at(line@, name_attr(), i as int));
            assert(name_attr().len() == 14);
            let n = cs.len();
            assert(i + 14 <= n);
            let rest = string_from_range(&cs, i + 14, n);
            assert(rest@ =~= line@.skip(i + name_attr().len()));
            proof {
                lemma_find_bounds(rest@, name_attr());
            }
            let rc = chars_of(rest.as_str());
            let end = match find_str(rest.as_str(), "android:name=\"") {
                Some(j) => {
                    assert(occurs_at(rest@, name_attr(), j as int));
                    j
                },
                None => rc.len(),
            };
            let ghost part = rc@.subrange(0, end as int);
            assert(find(rest@, name_attr()) is None ==> part =~= rest@);
            assert(find(rest@, name_attr()) matches Some(j) ==> part =~= rest@.take(j));
            let mut k: usize = 0;
            while k < end && rc[k] != '"'
                invariant
                    k <= end <= rc@.len(),
                    part == rc@.subrange(0, end as int),
                    forall|j: int| 0 <= j < k ==> rc@[j] != '"',
                decreases end - k,
            {
                k = k + 1;
            }
            proof {
                assert forall|j: int| 0 <= j < k implies #[trigger] part[j] != '"' by {
                    assert(part[j] == rc@[j]);
                }
                if k < end {
                    assert(part[k as int] == rc@[k as int]);
                }
                crate::text::lemma_index_of_char(part, '"', k as int);
            }
            let name = string_from_range(&rc, 0, k);
            assert(name@ =~= part.take(k as int));
            Some(name)
        },
    }
}

/// Picks a line that contains `id`.
pub open spec fn line_with(id: Seq<char>) -> spec_fn(Seq<char>) -> Option<Seq<char>> {
    |l: Seq<char>| if contains(l, id) { Some(l) } else { None }
}

/// The first line of `src` that contains `id`.
pub fn first_line_containing(src: &str, id: &str) -> (r: Option<String>)
    ensures
        match (r, first_some(lines(src@), line_with(id@))) {
            (Some(x), Some(y)) => x@ == y,
            (None, None) => true,
            _ => false,
        },
{
    let ls = lines_of(src);
    let ghost sl = lines(src@);
    let ghost f = line_with(id@);
    let mut i: usize = 0;
    while i < ls.len()
        invariant
            ls@.len() == sl.len(),
            forall|j: int| 0 <= j < ls@.len() ==> #[trigger] ls@[j]@ == sl[j],
            i <= ls@.len(),
            sl == lines(src@),
            f == line_with(id@),
            forall|j: int| 0 <= j < i ==> f(#[trigger] sl[j]) is None,
        decreases ls@.len() - i,
    {
        if contains_str(ls[i].as_str(), id) {
            proof {
                lemma_first_some(sl, f, i as int);
                assert(sl.skip(i as int)[0] == sl[i as int]);
                assert(f(sl[i as int]) is Some);
                assert(first_some(sl.skip(i as int), f) == f(sl[i as int]));
            }
            return Some(to_owned_string(ls[i].as_str()));
        }
        i = i + 1;
    }
    proof {
        lemma_first_some(sl, f, sl.len() as int);
    }
    None
}

/// One manifest line of an addition, against the manifest text so far and
/// the lines still missing: a permission already declared stays (replacing a
/// declaration capped by `maxSdkVersion` when the new line has no cap); any
/// other line is missing.
pub open spec fn permission_step(state: (Seq<char>, Seq<char>), line: Seq<char>) -> (Seq<char>, Seq<char>) {
    let (src, missing) = state;
    match spec_permission_name(line) {
        None => (src, missing + line + "\n"@),
        Some(name) => {
            let id = name_attr() + name + "\""@;
            match first_some(lines(src), line_with(id)) {
                Some(e) => if contains(e, max_sdk_attr()) && !contains(line, max_sdk_attr()) {
                    (replace_first(src, e, line), missing)
                } else {
                    (src, missing)
                },
                None => (src, missing + line + "\n"@),
            }
        },
    }
}

pub open spec fn permission_fold(src: Seq<char>, ls: Seq<Seq<char>>) -> (Seq<char>, Seq<char>)
    decreases ls.len(),
{
    if ls.len() == 0 {
        (src, Seq::empty())
    } else {
        permission_step(permission_fold(src, ls.drop_last()), ls.last())
    }
}

/// The first line of `s`, or nothing.
pub open spec fn first_line(s: Seq<char>) -> Seq<char> {
    if lines(s).len() > 0 {
        lines(s)[0]
    } else {
        Seq::empty()
    }
}

/// What `add_once` writes: `Some(text)` for the new file text, `None` when
/// the file stays as it is.
pub open spec fn spec_add_once(source: Seq<char>, addition: Seq<char>, anchor: Seq<char>) -> Option<Seq<char>> {
    if starts_with(addition, "    <uses-"@) {
        let (src, missing) = permission_fold(source, lines(addition));
        if missing.len() == 0 {
            Some(src)
        } else {
            Some(replace_first(src, anchor, anchor + missing))
        }
    } else if contains(source, first_line(addition)) {
        None
    } else if starts_with(addition, "[features]"@) {
        Some(source + "\n"@ + addition)
    } else {
        Some(replace_first(source, anchor, anchor + addition))
    }
}

/// Adds `addition` to a file after `anchor`, once: manifest permission lines
/// one by one (each only when not declared yet), anything else when its first
/// line is not there yet (a `[features]` table at the end of the file).
pub fn add_once_text(source: &str, addition: &str, anchor: &str) -> (r: Option<String>)
    ensures
        match (r, spec_add_once(source@, addition@, anchor@)) {
            (Some(x), Some(y)) => x@ == y,
            (None, None) => true,
            _ => false,
        },
{
    proof {
        reveal_strlit("    <uses-");
        reveal_strlit("[features]");
        reveal_strlit("\n");
        reveal_strlit("\"");
        reveal_strlit("android:name=\"");
        reveal_strlit("android:maxSdkVersion");
    }
    if starts_with_str(addition, "    <uses-") {
        let ls = lines_of(addition);
        let ghost al = lines(addition@);
        let mut src = to_owned_string(source);
        let mut missing = String::new();
        let mut i: usize = 0;
        while i < ls.len()
            invariant
                i <= ls@.len(),
                ls@.len() == al.len(),
                forall|j: int| 0 <= j < ls@.len() ==> #[trigger] ls@[j]@ == al[j],
                (src@, missing@) == permission_fold(source@, al.take(i as int)),
            decreases ls@.len() - i,
        {
            proof {
                reveal_strlit("\n");
                reveal_strlit("\"");
                reveal_strlit("android:name=\"");
                reveal_strlit("android:maxSdkVersion");
                assert(al.take(i + 1).drop_last() =~= al.take(i as int));
                assert(al.take(i + 1).last() == ls@[i as int]@);
            }
            let line = ls[i].as_str();
            match permission_name(line) {
                None => {
                    push_str(&mut missing, line);
                    push_str(&mut missing, "\n");
                },
                Some(name) => {
                    let mut id = to_owned_string("android:name=\"");
                    push_str(&mut id, name.as_str());
                    push_str(&mut id, "\"");
                    match first_line_containing(src.as_str(), id.as_str()) {
                        Some(e) => {
                            if contains_str(e.as_str(), "android:maxSdkVersion")
                                && !contains_str(line, "android:maxSdkVersion") {
                                src = replace_first_str(src.as_str(), e.as_str(), line);
                            }
                        },
                        None => {
                            push_str(&mut missing, line);
                            push_str(&mut missing, "\n");
                        },
                    }
                },
            }
            i = i + 1;
        }
        assert(al.take(ls@.len() as int) =~= al);
        if missing.unicode_len() == 0 {
            return Some(src);
        }
        let mut with = to_owned_string(anchor);
        push_str(&mut with, missing.as_str());
        return Some(replace_first_str(src.as_str(), anchor, with.as_str()));
    }
    let ls = lines_of(addition);
    let first = if ls.len() > 0 {
        to_owned_string(ls[0].as_str())
    } else {
        String::new()
    };
    if contains_str(source, first.as_str()) {
        return None;
    }
    if starts_with_str(addition, "[features]") {
        let mut out = to_owned_string(source);
        push_str(&mut out, "\n");
        push_str(&mut out, addition);
        return Some(out);
    }
    let mut with = to_owned_string(anchor);
    push_str(&mut with, addition);
    Some(replace_first_str(source, anchor, with.as_str()))
}

// ── Cargo features ─────────────────────────────────────────────────────────

/// Whether a line declares `feature` (`<feature> =` after its indentation).
pub open spec fn declares_feature(line: Seq<char>, feature: Seq<char>) -> bool {
    starts_with(trim_start(line), feature + " ="@)
}

/// What `add_feature` writes: nothing when the feature is declared already;
/// else `<feature> = []` at the end of the `[features]` table, or a new
/// `[features]` table at the end of the file.
pub open spec fn spec_add_feature(source: Seq<char>, feature: Seq<char>) -> Option<Seq<char>> {
    if exists|i: int| 0 <= i < lines(source).len() && declares_feature(#[trigger] lines(source)[i], feature) {
        None
    } else {
        let entry = feature + " = []\n"@;
        match find(source, "[features]\n"@) {
            Some(f) => {
                let start = f + 11;
                let end = match find(source.skip(start), "\n["@) {
                    Some(o) => start + o,
                    None => source.len() as int,
                };
                Some(source.take(end) + entry + source.skip(end))
            },
            None => Some(source + "\n[features]\n"@ + entry),
        }
    }
}

/// Whether the line, after its leading whitespace, starts with `p`.
fn trimmed_starts_with(line: &str, p: &str) -> (r: bool)
    ensures
        r == starts_with(trim_start(line@), p@),
{
    let cs = chars_of(line);
    let (a, _b) = trim_bounds(&cs, 0, cs.len());
    assert(cs@.subrange(0, cs@.len() as int) =~= cs@);
    let rest = string_from_range(&cs, a, cs.len());
    starts_with_str(rest.as_str(), p)
}

/// Declares the Cargo feature `feature` in a `Cargo.toml` text.
pub fn add_feature_text(source: &str, feature: &str) -> (r: Option<String>)
    ensures
        match (r, spec_add_feature(source@, feature@)) {
            (Some(x), Some(y)) => x@ == y,
            (None, None) => true,
            _ => false,
        },
{
    proof {
        reveal_strlit(" =");
        reveal_strlit(" = []\n");
        reveal_strlit("[features]\n");
        reveal_strlit("\n[");
        reveal_strlit("\n[features]\n");
    }
    let mut decl = to_owned_string(feature);
    push_str(&mut decl, " =");
    let ls = lines_of(source);
    let ghost sl = lines(source@);
    let mut i: usize = 0;
    while i < ls.len()
        invariant
            i <= ls@.len(),
            ls@.len() == sl.len(),
            sl == lines(source@),
            decl@ == feature@ + " ="@,
            forall|j: int| 0 <= j < ls@.len() ==> #[trigger] ls@[j]@ == sl[j],
            forall|j: int| 0 <= j < i ==> !declares_feature(#[trigger] sl[j], feature@),
        decreases ls@.len() - i,
    {
        if trimmed_starts_with(ls[i].as_str(), decl.as_str()) {
            assert(declares_feature(sl[i as int], feature@));
            return None;
        }
        i = i + 1;
    }
    let mut entry = to_owned_string(feature);
    push_str(&mut entry, " = []\n");
    proof {
        lemma_find_bounds(source@, "[features]\n"@);
    }
    match find_str(source, "[features]\n") {
        Some(f) => {
            let cs = chars_of(source);
            let n = cs.len();
            assert(occurs_at(source@, "[features]\n"@, f as int));
            let start = f + 11;
            let tail = string_from_range(&cs, start, n);
            assert(tail@ =~= source@.skip(start as int));
            proof {
                lemma_find_bounds(tail@, "\n["@);
            }
            let end = match find_str(tail.as_str(), "\n[") {
                Some(o) => {
                    assert(occurs_at(tail@, "\n["@, o as int));
                    start + o
                },
                None => n,
            };
            let mut out = string_from_range(&cs, 0, end);
            push_str(&mut out, entry.as_str());
            let after = string_from_range(&cs, end, n);
            push_str(&mut out, after.as_str());
            assert(cs@.subrange(0, end as int) =~= source@.take(end as int));
            assert(cs@.subrange(end as int, n as int) =~= source@.skip(end as int));
            Some(out)
        },
        None => {
            let mut out = to_owned_string(source);
            push_str(&mut out, "\n[features]\n");
            push_str(&mut out, entry.as_str());
            assert(out@ =~= source@ + "\n[features]\n"@ + (feature@ + " = []\n"@));
            Some(out)
        },
    }
}

/// What `enable_default_feature` writes: `Ok(None)` when the feature is
/// already named, `Ok(Some(text))` with the feature added to the `default`
/// list (creating it at the top of `[features]`), and `Err` when the file has
/// neither a `default` list nor a `[features]` table.
pub open spec fn spec_enable_default(source: Seq<char>, feature: Seq<char>) -> Result<Option<Seq<char>>, ()> {
    if contains(source, "\""@ + feature + "\""@) {
        Ok(None)
    } else if contains(source, "default = []"@) {
        Ok(Some(replace_first(source, "default = []"@, "default = [\""@ + feature + "\"]"@)))
    } else if contains(source, "default = ["@) {
        Ok(Some(replace_first(source, "default = ["@, "default = [\""@ + feature + "\", "@)))
    } else if contains(source, "[features]\n"@) {
        Ok(Some(replace_first(source, "[features]\n"@, "[features]\ndefault = [\""@ + feature + "\"]\n"@)))
    } else {
        Err(())
    }
}

/// The quoted feature name, as a `default` list holds it.
pub open spec fn quoted(feature: Seq<char>) -> Seq<char> {
    "\""@ + feature + "\""@
}

proof fn lemma_quoted_inside(pre: Seq<char>, feature: Seq<char>, post: Seq<char>)
    requires
        pre.len() > 0 && pre.last() == '"',
        post.len() > 0 && post[0] == '"',
    ensures
        occurs_at(pre + feature + post, quoted(feature), pre.len() - 1),
{
    reveal_strlit("\"");
    let v = pre + feature + post;
    let q = quoted(feature);
    assert(v.subrange(pre.len() - 1, pre.len() - 1 + q.len()) =~= q);
}

/// Turning a feature on by default is done once: on the text it gives, a
/// second call finds the feature named and changes nothing.
pub proof fn law_enable_default_once(source: Seq<char>, feature: Seq<char>)
    ensures
        spec_enable_default(source, feature) matches Ok(Some(t)) ==> spec_enable_default(t, feature)
            == Ok::<Option<Seq<char>>, ()>(None),
{
    let q = quoted(feature);
    assert(q == "\""@ + feature + "\""@);
    if !contains(source, q) {
        if contains(source, "default = []"@) {
            reveal_strlit("default = [\"");
            reveal_strlit("\"]");
            lemma_quoted_inside("default = [\""@, feature, "\"]"@);
            lemma_replace_first_keeps(source, "default = []"@, "default = [\""@ + feature + "\"]"@, q, 11);
        } else if contains(source, "default = ["@) {
            reveal_strlit("default = [\"");
            reveal_strlit("\", ");
            lemma_quoted_inside("default = [\""@, feature, "\", "@);
            lemma_replace_first_keeps(source, "default = ["@, "default = [\""@ + feature + "\", "@, q, 11);
        } else if contains(source, "[features]\n"@) {
            reveal_strlit("[features]\ndefault = [\"");
            reveal_strlit("\"]\n");
            lemma_quoted_inside("[features]\ndefault = [\""@, feature, "\"]\n"@);
            lemma_replace_first_keeps(
                source,
                "[features]\n"@,
                "[features]\ndefault = [\""@ + feature + "\"]\n"@,
                q,
                22,
            );
        }
    }
}

pub open spec fn missing_feature_table(path: Seq<char>) -> Seq<char> {
    "missing feature table in '"@ + path + "'"@
}

/// Turns the Cargo feature `feature` on by default in a `Cargo.toml` text
/// (read from `path`, which the error names).
pub fn enable_default_feature_text(source: &str, feature: &str, path: &str) -> (r: Result<Option<String>, String>)
    ensures
        match (r, spec_enable_default(source@, feature@)) {
            (Ok(Some(x)), Ok(Some(y))) => x@ == y,
            (Ok(None), Ok(None)) => true,
            (Err(m), Err(_)) => m@ == missing_feature_table(path@),
            _ => false,
        },
{
    proof {
        reveal_strlit("\"");
        reveal_strlit("default = []");
        reveal_strlit("default = [\"");
        reveal_strlit("\"]");
        reveal_strlit("default = [");
        reveal_strlit("\", ");
        reveal_strlit("[features]\n");
        reveal_strlit("[features]\ndefault = [\"");
        reveal_strlit("\"]\n");
        reveal_strlit("missing feature table in '");
        reveal_strlit("'");
    }
    let mut quoted = to_owned_string("\"");
    push_str(&mut quoted, feature);
    push_str(&mut quoted, "\"");
    if contains_str(source, quoted.as_str()) {
        return Ok(None);
    }
    if contains_str(source, "default = []") {
        let mut with = to_owned_string("default = [\"");
        push_str(&mut with, feature);
        push_str(&mut with, "\"]");
        return Ok(Some(replace_first_str(source, "default = []", with.as_str())));
    }
    if contains_str(source, "default = [") {
        let mut with = to_owned_string("default = [\"");
        push_str(&mut with, feature);
        push_str(&mut with, "\", ");
        return Ok(Some(replace_first_str(source, "default = [", with.as_str())));
    }
    if contains_str(source, "[features]\n") {
        let mut with = to_owned_string("[features]\ndefault = [\"");
        push_str(&mut with, feature);
        push_str(&mut with, "\"]\n");
        return Ok(Some(replace_first_str(source, "[features]\n", with.as_str())));
    }
    let mut m = to_owned_string("missing feature table in '");
    push_str(&mut m, path);
    push_str(&mut m, "'");
    Err(m)
}

// ── Kotlin imports ─────────────────────────────────────────────────────────

pub open spec fn is_import(line: Seq<char>) -> bool {
    starts_with(line, "import "@)
}

/// The lines with every repeated `import` line after its first occurrence
/// removed.
pub open spec fn dedupe_imports(ls: Seq<Seq<char>>) -> Seq<Seq<char>>
    decreases ls.len(),
{
    if ls.len() == 0 {
        Seq::empty()
    } else {
        let prev = ls.drop_last();
        let l = ls.last();
        if is_import(l) && prev.contains(l) {
            dedupe_imports(prev)
        } else {
            dedupe_imports(prev).push(l)
        }
    }
}

/// No `import` line occurs twice.
pub open spec fn imports_unique(ls: Seq<Seq<char>>) -> bool {
    forall|i: int, j: int| 0 <= i < j < ls.len() && is_import(ls[j]) ==> ls[i] != ls[j]
}

proof fn lemma_dedupe_unique(ls: Seq<Seq<char>>)
    ensures
        imports_unique(dedupe_imports(ls)),
        imports_unique(ls) ==> dedupe_imports(ls) == ls,
    decreases ls.len(),
{
    if ls.len() > 0 {
        let prev = ls.drop_last();
        let l = ls.last();
        lemma_dedupe_unique(prev);
        lemma_dedupe_contains(prev, l);
        let d = dedupe_imports(prev);
        if !(is_import(l) && prev.contains(l)) {
            let e = d.push(l);
            assert forall|i: int, j: int| 0 <= i < j < e.len() && is_import(e[j]) implies e[i] != e[j] by {
                if j == d.len() {
                    assert(e[i] == d[i]);
                    if d[i] == l {
                        assert(d.contains(l));
                    }
                } else {
                    assert(e[i] == d[i] && e[j] == d[j]);
                }
            }
        }
        if imports_unique(ls) {
            assert forall|i: int, j: int| 0 <= i < j < prev.len() && is_import(prev[j]) implies prev[i] != prev[j] by {
                assert(prev[i] == ls[i] && prev[j] == ls[j]);
            }
            if is_import(l) && prev.contains(l) {
                let k = choose|k: int| 0 <= k < prev.len() && prev[k] == l;
                assert(ls[k] == ls[ls.len() - 1]);
            }
            assert(ls =~= prev.push(l));
        }
    }
}

/// Each `import` line is kept once: after the clean-up no import line occurs
/// twice, lines without repeats are left as they are, and so a second
/// clean-up changes nothing.
pub proof fn law_dedupe_imports(ls: Seq<Seq<char>>)
    ensures
        imports_unique(dedupe_imports(ls)),
        imports_unique(ls) ==> dedupe_imports(ls) == ls,
        dedupe_imports(dedupe_imports(ls)) == dedupe_imports(ls),
{
    lemma_dedupe_unique(ls);
    lemma_dedupe_unique(dedupe_imports(ls));
}

/// Lines joined with `\n` between them.
pub open spec fn join_lines(ls: Seq<Seq<char>>) -> Seq<char>
    decreases ls.len(),
{
    if ls.len() == 0 {
        Seq::empty()
    } else if ls.len() == 1 {
        ls[0]
    } else {
        join_lines(ls.drop_last()) + "\n"@ + ls.last()
    }
}

/// A line occurs among the deduplicated lines exactly when it occurs among
/// the lines.
pub proof fn lemma_dedupe_contains(ls: Seq<Seq<char>>, l: Seq<char>)
    ensures
        dedupe_imports(ls).contains(l) == ls.contains(l),
    decreases ls.len(),
{
    if ls.len() > 0 {
        let prev = ls.drop_last();
        lemma_dedupe_contains(prev, l);
        assert(ls =~= prev.push(ls.last()));
        if ls.contains(l) {
            let k = choose|k: int| 0 <= k < ls.len() && ls[k] == l;
            if k < prev.len() {
                assert(prev[k] == l);
            }
        }
        if prev.contains(l) {
            let k = choose|k: int| 0 <= k < prev.len() && prev[k] == l;
            assert(ls[k] == l);
        }
        if !(is_import(ls.last()) && prev.contains(ls.last())) {
            let d = dedupe_imports(prev);
            assert(d.push(ls.last())[d.len() as int] == ls.last());
            if d.contains(l) {
                let k = choose|k: int| 0 <= k < d.len() && d[k] == l;
                assert(d.push(ls.last())[k] == l);
            }
            if d.push(ls.last()).contains(l) {
                let k = choose|k: int| 0 <= k < d.len() + 1 && d.push(ls.last())[k] == l;
                if k < d.len() {
                    assert(d[k] == l);
                }
            }
        }
    }
}

/// What `dedupe_android_imports` writes: the lines without repeated imports,
/// joined with `\n` and ending in one, when that differs from the text
/// without its trailing whitespace.
pub open spec fn spec_dedupe_text(source: Seq<char>) -> Option<Seq<char>> {
    let d = join_lines(dedupe_imports(lines(source)));
    if d != trim_end(source) {
        Some(d + "\n"@)
    } else {
        None
    }
}

/// Whether `ls` holds a line equal to `l`.
fn has_line(ls: &Vec<String>, l: &str) -> (r: bool)
    ensures
        r == ls@.map_values(|x: String| x@).contains(l@),
{
    let ghost v = ls@.map_values(|x: String| x@);
    let mut i: usize = 0;
    while i < ls.len()
        invariant
            i <= ls@.len(),
            v == ls@.map_values(|x: String| x@),
            forall|j: int| 0 <= j < i ==> v[j] != l@,
        decreases ls@.len() - i,
    {
        if str_eq(ls[i].as_str(), l) {
            assert(v[i as int] == l@);
            return true;
        }
        i = i + 1;
    }
    false
}

/// Removes repeated `import` lines from a Kotlin source text.
pub fn dedupe_imports_text(source: &str) -> (r: Option<String>)
    ensures
        match (r, spec_dedupe_text(source@)) {
            (Some(x), Some(y)) => x@ == y,
            (None, None) => true,
            _ => false,
        },
{
    proof {
        reveal_strlit("import ");
        reveal_strlit("\n");
    }
    let ls = lines_of(source);
    let ghost sl = lines(source@);
    let mut kept: Vec<String> = Vec::new();
    let mut i: usize = 0;
    while i < ls.len()
        invariant
            i <= ls@.len(),
            ls@.len() == sl.len(),
            forall|j: int| 0 <= j < ls@.len() ==> #[trigger] ls@[j]@ == sl[j],
            kept@.map_values(|x: String| x@) == dedupe_imports(sl.take(i as int)),
        decreases ls@.len() - i,
    {
        proof {
            reveal_strlit("import ");
            assert(sl.take(i + 1).drop_last() =~= sl.take(i as int));
            assert(sl.take(i + 1).last() == ls@[i as int]@);
            lemma_dedupe_contains(sl.take(i as int), ls@[i as int]@);
        }
        let line = ls[i].as_str();
        if starts_with_str(line, "import ") && has_line(&kept, line) {
        } else {
            let ghost before = kept@.map_values(|x: String| x@);
            kept.push(to_owned_string(line));
            assert(kept@.map_values(|x: String| x@) =~= before.push(ls@[i as int]@));
        }
        i = i + 1;
    }
    assert(sl.take(ls@.len() as int) =~= sl);
    let ghost kv = kept@.map_values(|x: String| x@);
    let mut joined = String::new();
    let mut k: usize = 0;
    while k < kept.len()
        invariant
            k <= kept@.len(),
            kv == kept@.map_values(|x: String| x@),
            joined@ == join_lines(kv.take(k as int)),
        decreases kept@.len() - k,
    {
        proof {
            reveal_strlit("\n");
            assert(kv.take(k + 1).drop_last() =~= kv.take(k as int));
            assert(kv.take(k + 1).last() == kept@[k as int]@);
        }
        if k > 0 {
            push_str(&mut joined, "\n");
        } else {
            assert(kv.take(1) =~= seq![kv[0]]);
        }
        push_str(&mut joined, kept[k].as_str());
        proof {
            if k > 0 {
                assert(joined@ =~= join_lines(kv.take(k as int)) + "\n"@ + kept@[k as int]@);
            } else {
                assert(joined@ =~= kept@[0]@);
            }
        }
        k = k + 1;
    }
    assert(kv.take(kept@.len() as int) =~= kv);
    let jc = chars_of(joined.as_str());
    let sc = chars_of(source);
    let te = trim_end_len(&sc);
    let trimmed = string_from_range(&sc, 0, te);
    let tc = chars_of(trimmed.as_str());
    if seq_eq(&jc, &tc) {
        None
    } else {
        push_str(&mut joined, "\n");
        Some(joined)
    }
}

// ── The capability table ──────────────────────────────────────────────────

/// One capability that `crepus native add` knows: its name and aliases, the
/// Cargo feature it turns on, the Android manifest lines it needs and the iOS
/// project settings it needs.
pub struct CapabilitySpec {
    pub name: &'static str,
    pub aliases: Vec<&'static str>,
    pub cargo_feature: &'static str,
    pub android_manifest: &'static str,
    pub ios_project: &'static str,
}

/// The names of the known capabilities, in table order.
pub open spec fn capability_names() -> Seq<Seq<char>> {
    seq![
        "sensors"@,
        "bluetooth"@,
        "haptics"@,
        "clipboard"@,
        "toast"@,
        "privacy-screen"@,
        "video"@,
        "browser"@,
        "in-app-browser"@,
        "share"@,
        "documentpicker"@,
        "image-picker"@,
        "photo-library"@,
        "camera"@,
        "dimensions"@,
        "dialog"@,
        "action-sheet"@,
        "app-state"@,
        "app"@,
        "screen-orientation"@,
        "accessibility-info"@,
        "device"@,
        "preferences"@,
        "network"@,
        "keyboard"@,
        "settings"@,
        "local-notifications"@,
        "secure-storage"@,
        "biometrics"@,
        "permissions"@,
        "microphone"@,
        "calendar"@,
        "contacts"@,
        "filesystem"@,
        "geolocation"@,
        "battery"@,
        "appearance"@,
        "system-bars"@,
        "deep-links"@
    ]
}

/// A capability as plain values: name, aliases, Cargo feature, Android
/// manifest lines, iOS project settings.
pub open spec fn entry_view(c: CapabilitySpec) -> (Seq<char>, Seq<Seq<char>>, Seq<char>, Seq<char>, Seq<char>) {
    (c.name@, c.aliases@.map_values(|a: &str| a@), c.cargo_feature@, c.android_manifest@, c.ios_project@)
}

/// The capability table, entry by entry: name, aliases, Cargo feature,
/// Android manifest lines and iOS project settings.
pub open spec fn capability_entries() -> Seq<(Seq<char>, Seq<Seq<char>>, Seq<char>, Seq<char>, Seq<char>)> {
    seq![
        ("sensors"@, seq!["motion"@, "gyro"@, "accelerometer"@], "sensors"@, "    <uses-feature android:name=\"android.hardware.sensor.accelerometer\" android:required=\"false\" />\n    <uses-feature android:name=\"android.hardware.sensor.gyroscope\" android:required=\"false\" />\n"@, ""@),
        ("bluetooth"@, seq!["ble"@], "bluetooth"@, "    <uses-permission android:name=\"android.permission.ACCESS_FINE_LOCATION\" android:maxSdkVersion=\"30\" />\n    <uses-permission android:name=\"android.permission.BLUETOOTH_SCAN\" />\n    <uses-permission android:name=\"android.permission.BLUETOOTH_CONNECT\" />\n    <uses-feature android:name=\"android.hardware.bluetooth_le\" android:required=\"false\" />\n"@, "        OTHER_LDFLAGS: \"-lcrepus_mobile_actions -framework CoreBluetooth\"\n        INFOPLIST_KEY_NSBluetoothAlwaysUsageDescription: \"$(PRODUCT_NAME) uses Bluetooth for nearby device setup.\"\n"@),
        ("haptics"@, seq!["vibration"@], "haptics"@, "    <uses-permission android:name=\"android.permission.VIBRATE\" />\n"@, ""@),
        ("clipboard"@, Seq::empty(), "clipboard"@, ""@, ""@),
        ("toast"@, Seq::empty(), "toast"@, ""@, ""@),
        ("privacy-screen"@, seq!["privacyscreen"@], "privacy-screen"@, ""@, ""@),
        ("video"@, Seq::empty(), "video"@, "    <uses-permission android:name=\"android.permission.CAMERA\" />\n    <uses-permission android:name=\"android.permission.RECORD_AUDIO\" />\n    <uses-feature android:name=\"android.hardware.camera\" android:required=\"false\" />\n"@, "        INFOPLIST_KEY_NSCameraUsageDescription: \"$(PRODUCT_NAME) records video when you ask it to.\"\n        INFOPLIST_KEY_NSMicrophoneUsageDescription: \"$(PRODUCT_NAME) records video audio when you ask it to.\"\n"@),
        ("browser"@, seq!["linking"@, "app-launcher"@, "applauncher"@, "phone"@, "sms"@], "browser"@, ""@, ""@),
        ("in-app-browser"@, seq!["inappbrowser"@, "web-browser"@], "in-app-browser"@, ""@, ""@),
        ("share"@, Seq::empty(), "share"@, ""@, ""@),
        ("documentpicker"@, seq!["document-picker"@, "documents"@], "documentpicker"@, ""@, ""@),
        ("image-picker"@, seq!["imagepicker"@, "media-picker"@], "image-picker"@, ""@, ""@),
        ("photo-library"@, seq!["photolibrary"@, "media-library"@], "photo-library"@, "    <uses-permission android:name=\"android.permission.READ_MEDIA_IMAGES\" />\n    <uses-permission android:name=\"android.permission.READ_MEDIA_VIDEO\" />\n    <uses-permission android:name=\"android.permission.READ_EXTERNAL_STORAGE\" android:maxSdkVersion=\"32\" />\n"@, "        INFOPLIST_KEY_NSPhotoLibraryUsageDescription: \"$(PRODUCT_NAME) accesses your media library when you ask it to.\"\n"@),
        ("camera"@, Seq::empty(), "camera"@, "    <uses-permission android:name=\"android.permission.CAMERA\" />\n    <uses-feature android:name=\"android.hardware.camera\" android:required=\"false\" />\n"@, "        INFOPLIST_KEY_NSCameraUsageDescription: \"$(PRODUCT_NAME) uses the camera when you ask it to.\"\n"@),
        ("dimensions"@, Seq::empty(), "dimensions"@, ""@, ""@),
        ("dialog"@, Seq::empty(), "dialog"@, ""@, ""@),
        ("action-sheet"@, seq!["actionsheet"@], "action-sheet"@, ""@, ""@),
        ("app-state"@, seq!["appstate"@], "app-state"@, ""@, ""@),
        ("app"@, seq!["app-info"@, "appinfo"@], "app"@, ""@, ""@),
        ("screen-orientation"@, seq!["screenorientation"@], "screen-orientation"@, ""@, ""@),
        ("accessibility-info"@, seq!["accessibilityinfo"@, "screen-reader"@, "screenreader"@], "accessibility-info"@, ""@, ""@),
        ("device"@, seq!["device-info"@, "deviceinfo"@, "platform"@], "device"@, ""@, ""@),
        ("preferences"@, seq!["storage"@, "async-storage"@], "preferences"@, ""@, ""@),
        ("network"@, seq!["net-info"@, "netinfo"@], "network"@, ""@, ""@),
        ("keyboard"@, Seq::empty(), "keyboard"@, ""@, ""@),
        ("settings"@, seq!["app-settings"@], "settings"@, ""@, ""@),
        ("local-notifications"@, seq!["localnotifications"@, "notifications"@], "local-notifications"@, "    <uses-permission android:name=\"android.permission.POST_NOTIFICATIONS\" />\n"@, ""@),
        ("secure-storage"@, seq!["securestorage"@], "secure-storage"@, ""@, ""@),
        ("biometrics"@, seq!["authentication"@], "biometrics"@, ""@, ""@),
        ("permissions"@, seq!["permission"@], "permissions"@, ""@, "        OTHER_LDFLAGS: \"-lcrepus_mobile_actions -framework CoreBluetooth\"\n        INFOPLIST_KEY_NSBluetoothAlwaysUsageDescription: \"$(PRODUCT_NAME) uses Bluetooth when you ask it to.\"\n"@),
        ("microphone"@, seq!["audio"@], "microphone"@, "    <uses-permission android:name=\"android.permission.RECORD_AUDIO\" />\n"@, "        INFOPLIST_KEY_NSMicrophoneUsageDescription: \"$(PRODUCT_NAME) uses the microphone when you ask it to.\"\n"@),
        ("calendar"@, seq!["calendars"@], "calendar"@, "    <uses-permission android:name=\"android.permission.READ_CALENDAR\" />\n    <uses-permission android:name=\"android.permission.WRITE_CALENDAR\" />\n"@, "        INFOPLIST_KEY_NSCalendarsFullAccessUsageDescription: \"$(PRODUCT_NAME) accesses your calendar when you ask it to.\"\n"@),
        ("contacts"@, Seq::empty(), "contacts"@, "    <uses-permission android:name=\"android.permission.READ_CONTACTS\" />\n"@, "        INFOPLIST_KEY_NSContactsUsageDescription: \"$(PRODUCT_NAME) accesses your contacts when you ask it to.\"\n"@),
        ("filesystem"@, seq!["files"@], "filesystem"@, ""@, ""@),
        ("geolocation"@, seq!["location"@], "geolocation"@, "    <uses-permission android:name=\"android.permission.ACCESS_FINE_LOCATION\" />\n    <uses-permission android:name=\"android.permission.ACCESS_COARSE_LOCATION\" />\n"@, "        INFOPLIST_KEY_NSLocationWhenInUseUsageDescription: \"$(PRODUCT_NAME) uses your location while the app is open.\"\n"@),
        ("battery"@, Seq::empty(), "battery"@, ""@, ""@),
        ("appearance"@, Seq::empty(), "appearance"@, ""@, ""@),
        ("system-bars"@, seq!["systembars"@, "status-bar"@, "statusbar"@], "system-bars"@, ""@, ""@),
        ("deep-links"@, seq!["deeplinks"@, "deep-link"@, "url-events"@], "deep-links"@, ""@, ""@),
    ]
}

fn cap(
    name: &'static str,
    aliases: Vec<&'static str>,
    cargo_feature: &'static str,
    android_manifest: &'static str,
    ios_project: &'static str,
) -> (r: CapabilitySpec)
    ensures
        r.name == name,
        r.aliases == aliases,
        r.cargo_feature == cargo_feature,
        r.android_manifest == android_manifest,
        r.ios_project == ios_project,
{
    CapabilitySpec { name, aliases, cargo_feature, android_manifest, ios_project }
}

/// The capability table, in the order in which capabilities are looked up and
/// listed. Each capability's Cargo feature has the capability's name.
pub fn capabilities() -> (r: Vec<CapabilitySpec>)
    ensures
        r@.len() == capability_names().len(),
        forall|i: int| 0 <= i < r@.len() ==> (#[trigger] r@[i]).name@ == capability_names()[i]
            && r@[i].cargo_feature@ == r@[i].name@,
        forall|i: int| 0 <= i < r@.len() ==> entry_view(#[trigger] r@[i]) == capability_entries()[i],
{
    let mut t: Vec<CapabilitySpec> = Vec::new();
    t.push(cap("sensors", vec!["motion", "gyro", "accelerometer"], "sensors", "    <uses-feature android:name=\"android.hardware.sensor.accelerometer\" android:required=\"false\" />\n    <uses-feature android:name=\"android.hardware.sensor.gyroscope\" android:required=\"false\" />\n", ""));
    assert(t@[0].aliases@.map_values(|a: &str| a@) =~= capability_entries()[0].1);
    t.push(cap("bluetooth", vec!["ble"], "bluetooth", "    <uses-permission android:name=\"android.permission.ACCESS_FINE_LOCATION\" android:maxSdkVersion=\"30\" />\n    <uses-permission android:name=\"android.permission.BLUETOOTH_SCAN\" />\n    <uses-permission android:name=\"android.permission.BLUETOOTH_CONNECT\" />\n    <uses-feature android:name=\"android.hardware.bluetooth_le\" android:required=\"false\" />\n", "        OTHER_LDFLAGS: \"-lcrepus_mobile_actions -framework CoreBluetooth\"\n        INFOPLIST_KEY_NSBluetoothAlwaysUsageDescription: \"$(PRODUCT_NAME) uses Bluetooth for nearby device setup.\"\n"));
    assert(t@[1].aliases@.map_values(|a: &str| a@) =~= capability_entries()[1].1);
    t.push(cap("haptics", vec!["vibration"], "haptics", "    <uses-permission android:name=\"android.permission.VIBRATE\" />\n", ""));
    assert(t@[2].aliases@.map_values(|a: &str| a@) =~= capability_entries()[2].1);
    t.push(cap("clipboard", vec![], "clipboard", "", ""));
    assert(t@[3].aliases@.map_values(|a: &str| a@) =~= capability_entries()[3].1);
    t.push(cap("toast", vec![], "toast", "", ""));
    assert(t@[4].aliases@.map_values(|a: &str| a@) =~= capability_entries()[4].1);
    t.push(cap("privacy-screen", vec!["privacyscreen"], "privacy-screen", "", ""));
    assert(t@[5].aliases@.map_values(|a: &str| a@) =~= capability_entries()[5].1);
    t.push(cap("video", vec![], "video", "    <uses-permission android:name=\"android.permission.CAMERA\" />\n    <uses-permission android:name=\"android.permission.RECORD_AUDIO\" />\n    <uses-feature android:name=\"android.hardware.camera\" android:required=\"false\" />\n", "        INFOPLIST_KEY_NSCameraUsageDescription: \"$(PRODUCT_NAME) records video when you ask it to.\"\n        INFOPLIST_KEY_NSMicrophoneUsageDescription: \"$(PRODUCT_NAME) records video audio when you ask it to.\"\n"));
    assert(t@[6].aliases@.map_values(|a: &str| a@) =~= capability_entries()[6].1);
    t.push(cap("browser", vec!["linking", "app-launcher", "applauncher", "phone", "sms"], "browser", "", ""));
    assert(t@[7].aliases@.map_values(|a: &str| a@) =~= capability_entries()[7].1);
    t.push(cap("in-app-browser", vec!["inappbrowser", "web-browser"], "in-app-browser", "", ""));
    assert(t@[8].aliases@.map_values(|a: &str| a@) =~= capability_entries()[8].1);
    t.push(cap("share", vec![], "share", "", ""));
    assert(t@[9].aliases@.map_values(|a: &str| a@) =~= capability_entries()[9].1);
    t.push(cap("documentpicker", vec!["document-picker", "documents"], "documentpicker", "", ""));
    assert(t@[10].aliases@.map_values(|a: &str| a@) =~= capability_entries()[10].1);
    t.push(cap("image-picker", vec!["imagepicker", "media-picker"], "image-picker", "", ""));
    assert(t@[11].aliases@.map_values(|a: &str| a@) =~= capability_entries()[11].1);
    t.push(cap("photo-library", vec!["photolibrary", "media-library"], "photo-library", "    <uses-permission android:name=\"android.permission.READ_MEDIA_IMAGES\" />\n    <uses-permission android:name=\"android.permission.READ_MEDIA_VIDEO\" />\n    <uses-permission android:name=\"android.permission.READ_EXTERNAL_STORAGE\" android:maxSdkVersion=\"32\" />\n", "        INFOPLIST_KEY_NSPhotoLibraryUsageDescription: \"$(PRODUCT_NAME) accesses your media library when you ask it to.\"\n"));
    assert(t@[12].aliases@.map_values(|a: &str| a@) =~= capability_entries()[12].1);
    t.push(cap("camera", vec![], "camera", "    <uses-permission android:name=\"android.permission.CAMERA\" />\n    <uses-feature android:name=\"android.hardware.camera\" android:required=\"false\" />\n", "        INFOPLIST_KEY_NSCameraUsageDescription: \"$(PRODUCT_NAME) uses the camera when you ask it to.\"\n"));
    assert(t@[13].aliases@.map_values(|a: &str| a@) =~= capability_entries()[13].1);
    t.push(cap("dimensions", vec![], "dimensions", "", ""));
    assert(t@[14].aliases@.map_values(|a: &str| a@) =~= capability_entries()[14].1);
    t.push(cap("dialog", vec![], "dialog", "", ""));
    assert(t@[15].aliases@.map_values(|a: &str| a@) =~= capability_entries()[15].1);
    t.push(cap("action-sheet", vec!["actionsheet"], "action-sheet", "", ""));
    assert(t@[16].aliases@.map_values(|a: &str| a@) =~= capability_entries()[16].1);
    t.push(cap("app-state", vec!["appstate"], "app-state", "", ""));
    assert(t@[17].aliases@.map_values(|a: &str| a@) =~= capability_entries()[17].1);
    t.push(cap("app", vec!["app-info", "appinfo"], "app", "", ""));
    assert(t@[18].aliases@.map_values(|a: &str| a@) =~= capability_entries()[18].1);
    t.push(cap("screen-orientation", vec!["screenorientation"], "screen-orientation", "", ""));
    assert(t@[19].aliases@.map_values(|a: &str| a@) =~= capability_entries()[19].1);
    t.push(cap("accessibility-info", vec!["accessibilityinfo", "screen-reader", "screenreader"], "accessibility-info", "", ""));
    assert(t@[20].aliases@.map_values(|a: &str| a@) =~= capability_entries()[20].1);
    t.push(cap("device", vec!["device-info", "deviceinfo", "platform"], "device", "", ""));
    assert(t@[21].aliases@.map_values(|a: &str| a@) =~= capability_entries()[21].1);
    t.push(cap("preferences", vec!["storage", "async-storage"], "preferences", "", ""));
    assert(t@[22].aliases@.map_values(|a: &str| a@) =~= capability_entries()[22].1);
    t.push(cap("network", vec!["net-info", "netinfo"], "network", "", ""));
    assert(t@[23].aliases@.map_values(|a: &str| a@) =~= capability_entries()[23].1);
    t.push(cap("keyboard", vec![], "keyboard", "", ""));
    assert(t@[24].aliases@.map_values(|a: &str| a@) =~= capability_entries()[24].1);
    t.push(cap("settings", vec!["app-settings"], "settings", "", ""));
    assert(t@[25].aliases@.map_values(|a: &str| a@) =~= capability_entries()[25].1);
    t.push(cap("local-notifications", vec!["localnotifications", "notifications"], "local-notifications", "    <uses-permission android:name=\"android.permission.POST_NOTIFICATIONS\" />\n", ""));
    assert(t@[26].aliases@.map_values(|a: &str| a@) =~= capability_entries()[26].1);
    t.push(cap("secure-storage", vec!["securestorage"], "secure-storage", "", ""));
    assert(t@[27].aliases@.map_values(|a: &str| a@) =~= capability_entries()[27].1);
    t.push(cap("biometrics", vec!["authentication"], "biometrics", "", ""));
    assert(t@[28].aliases@.map_values(|a: &str| a@) =~= capability_entries()[28].1);
    t.push(cap("permissions", vec!["permission"], "permissions", "", "        OTHER_LDFLAGS: \"-lcrepus_mobile_actions -framework CoreBluetooth\"\n        INFOPLIST_KEY_NSBluetoothAlwaysUsageDescription: \"$(PRODUCT_NAME) uses Bluetooth when you ask it to.\"\n"));
    assert(t@[29].aliases@.map_values(|a: &str| a@) =~= capability_entries()[29].1);
    t.push(cap("microphone", vec!["audio"], "microphone", "    <uses-permission android:name=\"android.permission.RECORD_AUDIO\" />\n", "        INFOPLIST_KEY_NSMicrophoneUsageDescription: \"$(PRODUCT_NAME) uses the microphone when you ask it to.\"\n"));
    assert(t@[30].aliases@.map_values(|a: &str| a@) =~= capability_entries()[30].1);
    t.push(cap("calendar", vec!["calendars"], "calendar", "    <uses-permission android:name=\"android.permission.READ_CALENDAR\" />\n    <uses-permission android:name=\"android.permission.WRITE_CALENDAR\" />\n", "        INFOPLIST_KEY_NSCalendarsFullAccessUsageDescription: \"$(PRODUCT_NAME) accesses your calendar when you ask it to.\"\n"));
    assert(t@[31].aliases@.map_values(|a: &str| a@) =~= capability_entries()[31].1);
    t.push(cap("contacts", vec![], "contacts", "    <uses-permission android:name=\"android.permission.READ_CONTACTS\" />\n", "        INFOPLIST_KEY_NSContactsUsageDescription: \"$(PRODUCT_NAME) accesses your contacts when you ask it to.\"\n"));
    assert(t@[32].aliases@.map_values(|a: &str| a@) =~= capability_entries()[32].1);
    t.push(cap("filesystem", vec!["files"], "filesystem", "", ""));
    assert(t@[33].aliases@.map_values(|a: &str| a@) =~= capability_entries()[33].1);
    t.push(cap("geolocation", vec!["location"], "geolocation", "    <uses-permission android:name=\"android.permission.ACCESS_FINE_LOCATION\" />\n    <uses-permission android:name=\"android.permission.ACCESS_COARSE_LOCATION\" />\n", "        INFOPLIST_KEY_NSLocationWhenInUseUsageDescription: \"$(PRODUCT_NAME) uses your location while the app is open.\"\n"));
    assert(t@[34].aliases@.map_values(|a: &str| a@) =~= capability_entries()[34].1);
    t.push(cap("battery", vec![], "battery", "", ""));
    assert(t@[35].aliases@.map_values(|a: &str| a@) =~= capability_entries()[35].1);
    t.push(cap("appearance", vec![], "appearance", "", ""));
    assert(t@[36].aliases@.map_values(|a: &str| a@) =~= capability_entries()[36].1);
    t.push(cap("system-bars", vec!["systembars", "status-bar", "statusbar"], "system-bars", "", ""));
    assert(t@[37].aliases@.map_values(|a: &str| a@) =~= capability_entries()[37].1);
    t.push(cap("deep-links", vec!["deeplinks", "deep-link", "url-events"], "deep-links", "", ""));
    assert(t@[38].aliases@.map_values(|a: &str| a@) =~= capability_entries()[38].1);
    assert forall|i: int| 0 <= i < t@.len() implies entry_view(#[trigger] t@[i]) == capability_entries()[i] by {
        assert(t@[i].aliases@.map_values(|a: &str| a@) == capability_entries()[i].1);
    }
    t
}

/// Whether the capability answers to `name`, by its name or an alias.
pub open spec fn answers_to(c: CapabilitySpec, name: Seq<char>) -> bool {
    c.name@ == name || c.aliases@.map_values(|a: &str| a@).contains(name)
}

/// The first capability of `table` that answers to `name`.
pub open spec fn spec_lookup(table: Seq<CapabilitySpec>, name: Seq<char>) -> Option<int> {
    if exists|i: int| 0 <= i < table.len() && answers_to(table[i], name) {
        Some(choose|i: int| 0 <= i < table.len() && answers_to(table[i], name) && forall|j: int|
            0 <= j < i ==> !answers_to(table[j], name))
    } else {
        None
    }
}

/// The names of a table joined with `, `.
pub open spec fn joined_names(table: Seq<CapabilitySpec>) -> Seq<char>
    decreases table.len(),
{
    if table.len() == 0 {
        Seq::empty()
    } else if table.len() == 1 {
        table[0].name@
    } else {
        joined_names(table.drop_last()) + ", "@ + table.last().name@
    }
}

pub open spec fn unknown_capability(name: Seq<char>, table: Seq<CapabilitySpec>) -> Seq<char> {
    "unknown native capability '"@ + name + "'; available: "@ + joined_names(table)
}

fn alias_hit(aliases: &Vec<&'static str>, name: &str) -> (r: bool)
    ensures
        r == aliases@.map_values(|a: &str| a@).contains(name@),
{
    let ghost v = aliases@.map_values(|a: &str| a@);
    let mut i: usize = 0;
    while i < aliases.len()
        invariant
            i <= aliases@.len(),
            v == aliases@.map_values(|a: &str| a@),
            forall|j: int| 0 <= j < i ==> v[j] != name@,
        decreases aliases@.len() - i,
    {
        if str_eq(aliases[i], name) {
            assert(v[i as int] == name@);
            return true;
        }
        i = i + 1;
    }
    false
}

/// Finds a capability by name or alias, case-insensitively for ASCII
/// letters: its index in `table`, or the error that lists what is available.
pub fn find_capability(table: &Vec<CapabilitySpec>, capability: &str) -> (r: Result<usize, String>)
    ensures
        ({
            let name = crate::text::ascii_lowercase(capability@);
            match r {
                Ok(i) => spec_lookup(table@, name) == Some(i as int),
                Err(m) => spec_lookup(table@, name) is None && m@ == unknown_capability(name, table@),
            }
        }),
{
    let name = crate::text::to_ascii_lowercase(capability);
    let ghost nv = crate::text::ascii_lowercase(capability@);
    let mut i: usize = 0;
    while i < table.len()
        invariant
            i <= table@.len(),
            name@ == nv,
            nv == crate::text::ascii_lowercase(capability@),
            forall|j: int| 0 <= j < i ==> !answers_to(#[trigger] table@[j], nv),
        decreases table@.len() - i,
    {
        if str_eq(table[i].name, name.as_str()) || alias_hit(&table[i].aliases, name.as_str()) {
            proof {
                assert(answers_to(table@[i as int], nv));
                assert(0 <= i < table@.len() && answers_to(table@[i as int], nv) && forall|j: int|
                    0 <= j < i ==> !answers_to(table@[j], nv));
                let k = choose|k: int| 0 <= k < table@.len() && answers_to(table@[k], nv) && forall|j: int|
                    0 <= j < k ==> !answers_to(table@[j], nv);
                if k < i {
                    assert(!answers_to(table@[k], nv));
                } else if k > i {
                    assert(!answers_to(table@[i as int], nv));
                }
            }
            return Ok(i);
        }
        i = i + 1;
    }
    proof {
        reveal_strlit("unknown native capability '");
        reveal_strlit("'; available: ");
        reveal_strlit(", ");
    }
    let mut m = to_owned_string("unknown native capability '");
    push_str(&mut m, name.as_str());
    push_str(&mut m, "'; available: ");
    let ghost prefix = m@;
    let mut k: usize = 0;
    while k < table.len()
        invariant
            k <= table@.len(),
            m@ == prefix + joined_names(table@.take(k as int)),
        decreases table@.len() - k,
    {
        proof {
            reveal_strlit(", ");
            assert(table@.take(k + 1).drop_last() =~= table@.take(k as int));
            assert(table@.take(k + 1).last() == table@[k as int]);
        }
        if k > 0 {
            push_str(&mut m, ", ");
        } else {
            assert(table@.take(1) =~= seq![table@[0]]);
        }
        push_str(&mut m, table[k].name);
        proof {
            if k > 0 {
                assert(m@ =~= prefix + (joined_names(table@.take(k as int)) + ", "@ + table@[k as int].name@));
            } else {
                assert(m@ =~= prefix + table@[0].name@);
            }
        }
        k = k + 1;
    }
    assert(table@.take(table@.len() as int) =~= table@);
    Err(m)
}

// ── The edits of `crepus native add` ───────────────────────────────────────

/// What `add_capability` writes to `rust/Cargo.toml`: the feature declared,
/// then, for `filesystem`, turned on by default.
pub open spec fn spec_cargo_edit(name: Seq<char>, feature: Seq<char>, source: Seq<char>) -> Result<Option<Seq<char>>, ()> {
    let added = spec_add_feature(source, feature);
    let after = match added {
        Some(t) => t,
        None => source,
    };
    if name == "filesystem"@ {
        match spec_enable_default(after, feature) {
            Ok(Some(t)) => Ok(Some(t)),
            Ok(None) => Ok(added),
            Err(()) => Err(()),
        }
    } else {
        Ok(added)
    }
}

/// The new `Cargo.toml` text for a capability (`Ok(None)` when unchanged),
/// or the error of a manifest without a feature table.
pub fn cargo_edit(c: &CapabilitySpec, source: &str, path: &str) -> (r: Result<Option<String>, String>)
    ensures
        match (r, spec_cargo_edit(c.name@, c.cargo_feature@, source@)) {
            (Ok(Some(x)), Ok(Some(y))) => x@ == y,
            (Ok(None), Ok(None)) => true,
            (Err(m), Err(_)) => m@ == missing_feature_table(path@),
            _ => false,
        },
{
    proof {
        reveal_strlit("filesystem");
    }
    let added = add_feature_text(source, c.cargo_feature);
    if !str_eq(c.name, "filesystem") {
        return Ok(added);
    }
    let after = match &added {
        Some(t) => to_owned_string(t.as_str()),
        None => to_owned_string(source),
    };
    match enable_default_feature_text(after.as_str(), c.cargo_feature, path) {
        Ok(Some(t)) => Ok(Some(t)),
        Ok(None) => Ok(added),
        Err(m) => Err(m),
    }
}

/// The line after which manifest permissions go.
pub open spec fn internet_permission() -> Seq<char> {
    "    <uses-permission android:name=\"android.permission.INTERNET\" />\n"@
}

/// The new `AndroidManifest.xml` text for a capability, when it changes.
pub fn manifest_edit(c: &CapabilitySpec, source: &str) -> (r: Option<String>)
    ensures
        match (r, spec_add_once(source@, c.android_manifest@, internet_permission())) {
            (Some(x), Some(y)) => x@ == y,
            (None, None) => true,
            _ => false,
        },
{
    add_once_text(source, c.android_manifest, "    <uses-permission android:name=\"android.permission.INTERNET\" />\n")
}

/// What happens to the iOS side for a capability with project settings.
#[derive(Debug, PartialEq, Eq)]
pub enum IosProjectEdit {
    /// The project uses its own `App/Info.plist`: the keys go there.
    InfoPlist,
    /// `project.yml` gets this new text.
    Rewrite(String),
    /// Nothing to change.
    Unchanged,
}

/// The usage-description key whose absence makes a capability add its
/// settings after the launch-screen line.
pub open spec fn usage_key_of(name: Seq<char>) -> Option<Seq<char>> {
    if name == "geolocation"@ {
        Some("INFOPLIST_KEY_NSLocationWhenInUseUsageDescription"@)
    } else if name == "photo-library"@ {
        Some("INFOPLIST_KEY_NSPhotoLibraryUsageDescription"@)
    } else if name == "camera"@ {
        Some("INFOPLIST_KEY_NSCameraUsageDescription"@)
    } else if name == "video"@ || name == "microphone"@ {
        Some("INFOPLIST_KEY_NSMicrophoneUsageDescription"@)
    } else if name == "calendar"@ {
        Some("INFOPLIST_KEY_NSCalendarsFullAccessUsageDescription"@)
    } else if name == "contacts"@ {
        Some("INFOPLIST_KEY_NSContactsUsageDescription"@)
    } else {
        None
    }
}

pub open spec fn launch_line() -> Seq<char> {
    "        INFOPLIST_KEY_UILaunchScreen_Generation: YES\n"@
}

pub open spec fn ldflags_line() -> Seq<char> {
    "        OTHER_LDFLAGS: \"-lcrepus_mobile_actions\"\n"@
}

/// The new `project.yml` text for a capability with settings `ios_project`,
/// for a project without its own Info.plist: the settings after the
/// launch-screen line when their usage key is missing, or in place of the
/// linker flags for Bluetooth; `None` when nothing changes.
pub open spec fn spec_project_rewrite(name: Seq<char>, ios_project: Seq<char>, source: Seq<char>) -> Option<Seq<char>> {
    if usage_key_of(name) matches Some(k) && !contains(source, k) {
        Some(replace_all(source, launch_line(), launch_line() + ios_project))
    } else if (name == "bluetooth"@ || name == "permissions"@) && !contains(source, "CoreBluetooth"@) {
        Some(replace_all(source, ldflags_line(), ios_project))
    } else {
        None
    }
}

/// Decides the iOS edit of `add_capability` from the `project.yml` text.
pub fn ios_project_edit(c: &CapabilitySpec, source: &str) -> (r: IosProjectEdit)
    ensures
        (r is InfoPlist) == contains(source@, "INFOPLIST_FILE: App/Info.plist"@),
        !(r is InfoPlist) ==> match (r, spec_project_rewrite(c.name@, c.ios_project@, source@)) {
            (IosProjectEdit::Rewrite(x), Some(y)) => x@ == y,
            (IosProjectEdit::Unchanged, None) => true,
            _ => false,
        },
{
    proof {
        reveal_strlit("INFOPLIST_FILE: App/Info.plist");
        reveal_strlit("        INFOPLIST_KEY_UILaunchScreen_Generation: YES\n");
        reveal_strlit("        OTHER_LDFLAGS: \"-lcrepus_mobile_actions\"\n");
        reveal_strlit("CoreBluetooth");
        reveal_strlit("geolocation");
        reveal_strlit("photo-library");
        reveal_strlit("camera");
        reveal_strlit("video");
        reveal_strlit("microphone");
        reveal_strlit("calendar");
        reveal_strlit("contacts");
        reveal_strlit("bluetooth");
        reveal_strlit("permissions");
    }
    if contains_str(source, "INFOPLIST_FILE: App/Info.plist") {
        return IosProjectEdit::InfoPlist;
    }
    let key: Option<&str> = if str_eq(c.name, "geolocation") {
        Some("INFOPLIST_KEY_NSLocationWhenInUseUsageDescription")
    } else if str_eq(c.name, "photo-library") {
        Some("INFOPLIST_KEY_NSPhotoLibraryUsageDescription")
    } else if str_eq(c.name, "camera") {
        Some("INFOPLIST_KEY_NSCameraUsageDescription")
    } else if str_eq(c.name, "video") || str_eq(c.name, "microphone") {
        Some("INFOPLIST_KEY_NSMicrophoneUsageDescription")
    } else if str_eq(c.name, "calendar") {
        Some("INFOPLIST_KEY_NSCalendarsFullAccessUsageDescription")
    } else if str_eq(c.name, "contacts") {
        Some("INFOPLIST_KEY_NSContactsUsageDescription")
    } else {
        None
    };
    assert(match key {
        Some(k) => usage_key_of(c.name@) == Some(k@),
        None => usage_key_of(c.name@) is None,
    });
    let missing_key = match key {
        Some(k) => !contains_str(source, k),
        None => false,
    };
    if missing_key {
        let mut with = to_owned_string("        INFOPLIST_KEY_UILaunchScreen_Generation: YES\n");
        push_str(&mut with, c.ios_project);
        let t = replace_str(source, "        INFOPLIST_KEY_UILaunchScreen_Generation: YES\n", with.as_str());
        return IosProjectEdit::Rewrite(t);
    }
    if (str_eq(c.name, "bluetooth") || str_eq(c.name, "permissions")) && !contains_str(source, "CoreBluetooth") {
        let t = replace_str(source, "        OTHER_LDFLAGS: \"-lcrepus_mobile_actions\"\n", c.ios_project);
        return IosProjectEdit::Rewrite(t);
    }
    IosProjectEdit::Unchanged
}


// ── What each capability asks for ─────────────────────────────────────────

/// The manifest attribute that names an Android permission.
pub open spec fn permission_attr(p: Seq<char>) -> Seq<char> {
    "android:name=\"android.permission."@ + p + "\""@
}

/// The iOS project setting that gives a usage description for `k`.
pub open spec fn usage_setting(k: Seq<char>) -> Seq<char> {
    "INFOPLIST_KEY_NS"@ + k + "UsageDescription"@
}

proof fn lemma_occurs_contains(s: Seq<char>, p: Seq<char>, i: int)
    requires
        occurs_at(s, p, i),
    ensures
        contains(s, p),
{
}

proof fn lemma_asks_bluetooth()
    ensures
        capability_entries()[1].0 == "bluetooth"@,
        contains(capability_entries()[1].3, permission_attr("ACCESS_FINE_LOCATION"@)),
        contains(capability_entries()[1].3, permission_attr("BLUETOOTH_SCAN"@)),
        contains(capability_entries()[1].3, permission_attr("BLUETOOTH_CONNECT"@)),
        contains(capability_entries()[1].4, usage_setting("BluetoothAlways"@)),
{
    reveal_strlit("    <uses-permission android:name=\"android.permission.ACCESS_FINE_LOCATION\" android:maxSdkVersion=\"30\" />\n    <uses-permission android:name=\"android.permission.BLUETOOTH_SCAN\" />\n    <uses-permission android:name=\"android.permission.BLUETOOTH_CONNECT\" />\n    <uses-feature android:name=\"android.hardware.bluetooth_le\" android:required=\"false\" />\n");
    reveal_strlit("        OTHER_LDFLAGS: \"-lcrepus_mobile_actions -framework CoreBluetooth\"\n        INFOPLIST_KEY_NSBluetoothAlwaysUsageDescription: \"$(PRODUCT_NAME) uses Bluetooth for nearby device setup.\"\n");
    reveal_strlit("android:name=\"android.permission.");
    reveal_strlit("\"");
    reveal_strlit("INFOPLIST_KEY_NS");
    reveal_strlit("UsageDescription");
    reveal_strlit("bluetooth");
    reveal_strlit("ACCESS_FINE_LOCATION");
    assert(capability_entries()[1].3.subrange(21, 75) =~= permission_attr("ACCESS_FINE_LOCATION"@));
    lemma_occurs_contains(capability_entries()[1].3, permission_attr("ACCESS_FINE_LOCATION"@), 21);
    reveal_strlit("BLUETOOTH_SCAN");
    assert(capability_entries()[1].3.subrange(127, 175) =~= permission_attr("BLUETOOTH_SCAN"@));
    lemma_occurs_contains(capability_entries()[1].3, permission_attr("BLUETOOTH_SCAN"@), 127);
    reveal_strlit("BLUETOOTH_CONNECT");
    assert(capability_entries()[1].3.subrange(200, 251) =~= permission_attr("BLUETOOTH_CONNECT"@));
    lemma_occurs_contains(capability_entries()[1].3, permission_attr("BLUETOOTH_CONNECT"@), 200);
    reveal_strlit("BluetoothAlways");
    assert(capability_entries()[1].4.subrange(82, 129) =~= usage_setting("BluetoothAlways"@));
    lemma_occurs_contains(capability_entries()[1].4, usage_setting("BluetoothAlways"@), 82);
}

proof fn lemma_asks_haptics()
    ensures
        capability_entries()[2].0 == "haptics"@,
        contains(capability_entries()[2].3, permission_attr("VIBRATE"@)),
{
    reveal_strlit("    <uses-permission android:name=\"android.permission.VIBRATE\" />\n");
    reveal_strlit("android:name=\"android.permission.");
    reveal_strlit("\"");
    reveal_strlit("INFOPLIST_KEY_NS");
    reveal_strlit("UsageDescription");
    reveal_strlit("haptics");
    reveal_strlit("VIBRATE");
    assert(capability_entries()[2].3.subrange(21, 62) =~= permission_attr("VIBRATE"@));
    lemma_occurs_contains(capability_entries()[2].3, permission_attr("VIBRATE"@), 21);
}

proof fn lemma_asks_video()
    ensures
        capability_entries()[6].0 == "video"@,
        contains(capability_entries()[6].3, permission_attr("CAMERA"@)),
        contains(capability_entries()[6].3, permission_attr("RECORD_AUDIO"@)),
        contains(capability_entries()[6].4, usage_setting("Camera"@)),
        contains(capability_entries()[6].4, usage_setting("Microphone"@)),
{
    reveal_strlit("    <uses-permission android:name=\"android.permission.CAMERA\" />\n    <uses-permission android:name=\"android.permission.RECORD_AUDIO\" />\n    <uses-feature android:name=\"android.hardware.camera\" android:required=\"false\" />\n");
    reveal_strlit("        INFOPLIST_KEY_NSCameraUsageDescription: \"$(PRODUCT_NAME) records video when you ask it to.\"\n        INFOPLIST_KEY_NSMicrophoneUsageDescription: \"$(PRODUCT_NAME) records video audio when you ask it to.\"\n");
    reveal_strlit("android:name=\"android.permission.");
    reveal_strlit("\"");
    reveal_strlit("INFOPLIST_KEY_NS");
    reveal_strlit("UsageDescription");
    reveal_strlit("video");
    reveal_strlit("CAMERA");
    assert(capability_entries()[6].3.subrange(21, 61) =~= permission_attr("CAMERA"@));
    lemma_occurs_contains(capability_entries()[6].3, permission_attr("CAMERA"@), 21);
    reveal_strlit("RECORD_AUDIO");
    assert(capability_entries()[6].3.subrange(86, 132) =~= permission_attr("RECORD_AUDIO"@));
    lemma_occurs_contains(capability_entries()[6].3, permission_attr("RECORD_AUDIO"@), 86);
    reveal_strlit("Camera");
    assert(capability_entries()[6].4.subrange(8, 46) =~= usage_setting("Camera"@));
    lemma_occurs_contains(capability_entries()[6].4, usage_setting("Camera"@), 8);
    reveal_strlit("Microphone");
    assert(capability_entries()[6].4.subrange(108, 150) =~= usage_setting("Microphone"@));
    lemma_occurs_contains(capability_entries()[6].4, usage_setting("Microphone"@), 108);
}

proof fn lemma_asks_photo_library()
    ensures
        capability_entries()[12].0 == "photo-library"@,
        contains(capability_entries()[12].3, permission_attr("READ_MEDIA_IMAGES"@)),
        contains(capability_entries()[12].3, permission_attr("READ_MEDIA_VIDEO"@)),
        contains(capability_entries()[12].3, permission_attr("READ_EXTERNAL_STORAGE"@)),
        contains(capability_entries()[12].4, usage_setting("PhotoLibrary"@)),
{
    reveal_strlit("    <uses-permission android:name=\"android.permission.READ_MEDIA_IMAGES\" />\n    <uses-permission android:name=\"android.permission.READ_MEDIA_VIDEO\" />\n    <uses-permission android:name=\"android.permission.READ_EXTERNAL_STORAGE\" android:maxSdkVersion=\"32\" />\n");
    reveal_strlit("        INFOPLIST_KEY_NSPhotoLibraryUsageDescription: \"$(PRODUCT_NAME) accesses your media library when you ask it to.\"\n");
    reveal_strlit("android:name=\"android.permission.");
    reveal_strlit("\"");
    reveal_strlit("INFOPLIST_KEY_NS");
    reveal_strlit("UsageDescription");
    reveal_strlit("photo-library");
    reveal_strlit("READ_MEDIA_IMAGES");
    assert(capability_entries()[12].3.subrange(21, 72) =~= permission_attr("READ_MEDIA_IMAGES"@));
    lemma_occurs_contains(capability_entries()[12].3, permission_attr("READ_MEDIA_IMAGES"@), 21);
    reveal_strlit("READ_MEDIA_VIDEO");
    assert(capability_entries()[12].3.subrange(97, 147) =~= permission_attr("READ_MEDIA_VIDEO"@));
    lemma_occurs_contains(capability_entries()[12].3, permission_attr("READ_MEDIA_VIDEO"@), 97);
    reveal_strlit("READ_EXTERNAL_STORAGE");
    assert(capability_entries()[12].3.subrange(172, 227) =~= permission_attr("READ_EXTERNAL_STORAGE"@));
    lemma_occurs_contains(capability_entries()[12].3, permission_attr("READ_EXTERNAL_STORAGE"@), 172);
    reveal_strlit("PhotoLibrary");
    assert(capability_entries()[12].4.subrange(8, 52) =~= usage_setting("PhotoLibrary"@));
    lemma_occurs_contains(capability_entries()[12].4, usage_setting("PhotoLibrary"@), 8);
}

proof fn lemma_asks_camera()
    ensures
        capability_entries()[13].0 == "camera"@,
        contains(capability_entries()[13].3, permission_attr("CAMERA"@)),
        contains(capability_entries()[13].4, usage_setting("Camera"@)),
{
    reveal_strlit("    <uses-permission android:name=\"android.permission.CAMERA\" />\n    <uses-feature android:name=\"android.hardware.camera\" android:required=\"false\" />\n");
    reveal_strlit("        INFOPLIST_KEY_NSCameraUsageDescription: \"$(PRODUCT_NAME) uses the camera when you ask it to.\"\n");
    reveal_strlit("android:name=\"android.permission.");
    reveal_strlit("\"");
    reveal_strlit("INFOPLIST_KEY_NS");
    reveal_strlit("UsageDescription");
    reveal_strlit("camera");
    reveal_strlit("CAMERA");
    assert(capability_entries()[13].3.subrange(21, 61) =~= permission_attr("CAMERA"@));
    lemma_occurs_contains(capability_entries()[13].3, permission_attr("CAMERA"@), 21);
    reveal_strlit("Camera");
    assert(capability_entries()[13].4.subrange(8, 46) =~= usage_setting("Camera"@));
    lemma_occurs_contains(capability_entries()[13].4, usage_setting("Camera"@), 8);
}

proof fn lemma_asks_local_notifications()
    ensures
        capability_entries()[26].0 == "local-notifications"@,
        contains(capability_entries()[26].3, permission_attr("POST_NOTIFICATIONS"@)),
{
    reveal_strlit("    <uses-permission android:name=\"android.permission.POST_NOTIFICATIONS\" />\n");
    reveal_strlit("android:name=\"android.permission.");
    reveal_strlit("\"");
    reveal_strlit("INFOPLIST_KEY_NS");
    reveal_strlit("UsageDescription");
    reveal_strlit("local-notifications");
    reveal_strlit("POST_NOTIFICATIONS");
    assert(capability_entries()[26].3.subrange(21, 73) =~= permission_attr("POST_NOTIFICATIONS"@));
    lemma_occurs_contains(capability_entries()[26].3, permission_attr("POST_NOTIFICATIONS"@), 21);
}

proof fn lemma_asks_permissions()
    ensures
        capability_entries()[29].0 == "permissions"@,
        contains(capability_entries()[29].4, usage_setting("BluetoothAlways"@)),
{
    reveal_strlit("        OTHER_LDFLAGS: \"-lcrepus_mobile_actions -framework CoreBluetooth\"\n        INFOPLIST_KEY_NSBluetoothAlwaysUsageDescription: \"$(PRODUCT_NAME) uses Bluetooth when you ask it to.\"\n");
    reveal_strlit("android:name=\"android.permission.");
    reveal_strlit("\"");
    reveal_strlit("INFOPLIST_KEY_NS");
    reveal_strlit("UsageDescription");
    reveal_strlit("permissions");
    reveal_strlit("BluetoothAlways");
    assert(capability_entries()[29].4.subrange(82, 129) =~= usage_setting("BluetoothAlways"@));
    lemma_occurs_contains(capability_entries()[29].4, usage_setting("BluetoothAlways"@), 82);
}

proof fn lemma_asks_microphone()
    ensures
        capability_entries()[30].0 == "microphone"@,
        contains(capability_entries()[30].3, permission_attr("RECORD_AUDIO"@)),
        contains(capability_entries()[30].4, usage_setting("Microphone"@)),
{
    reveal_strlit("    <uses-permission android:name=\"android.permission.RECORD_AUDIO\" />\n");
    reveal_strlit("        INFOPLIST_KEY_NSMicrophoneUsageDescription: \"$(PRODUCT_NAME) uses the microphone when you ask it to.\"\n");
    reveal_strlit("android:name=\"android.permission.");
    reveal_strlit("\"");
    reveal_strlit("INFOPLIST_KEY_NS");
    reveal_strlit("UsageDescription");
    reveal_strlit("microphone");
    reveal_strlit("RECORD_AUDIO");
    assert(capability_entries()[30].3.subrange(21, 67) =~= permission_attr("RECORD_AUDIO"@));
    lemma_occurs_contains(capability_entries()[30].3, permission_attr("RECORD_AUDIO"@), 21);
    reveal_strlit("Microphone");
    assert(capability_entries()[30].4.subrange(8, 50) =~= usage_setting("Microphone"@));
    lemma_occurs_contains(capability_entries()[30].4, usage_setting("Microphone"@), 8);
}

proof fn lemma_asks_calendar()
    ensures
        capability_entries()[31].0 == "calendar"@,
        contains(capability_entries()[31].3, permission_attr("READ_CALENDAR"@)),
        contains(capability_entries()[31].3, permission_attr("WRITE_CALENDAR"@)),
        contains(capability_entries()[31].4, usage_setting("CalendarsFullAccess"@)),
{
    reveal_strlit("    <uses-permission android:name=\"android.permission.READ_CALENDAR\" />\n    <uses-permission android:name=\"android.permission.WRITE_CALENDAR\" />\n");
    reveal_strlit("        INFOPLIST_KEY_NSCalendarsFullAccessUsageDescription: \"$(PRODUCT_NAME) accesses your calendar when you ask it to.\"\n");
    reveal_strlit("android:name=\"android.permission.");
    reveal_strlit("\"");
    reveal_strlit("INFOPLIST_KEY_NS");
    reveal_strlit("UsageDescription");
    reveal_strlit("calendar");
    reveal_strlit("READ_CALENDAR");
    assert(capability_entries()[31].3.subrange(21, 68) =~= permission_attr("READ_CALENDAR"@));
    lemma_occurs_contains(capability_entries()[31].3, permission_attr("READ_CALENDAR"@), 21);
    reveal_strlit("WRITE_CALENDAR");
    assert(capability_entries()[31].3.subrange(93, 141) =~= permission_attr("WRITE_CALENDAR"@));
    lemma_occurs_contains(capability_entries()[31].3, permission_attr("WRITE_CALENDAR"@), 93);
    reveal_strlit("CalendarsFullAccess");
    assert(capability_entries()[31].4.subrange(8, 59) =~= usage_setting("CalendarsFullAccess"@));
    lemma_occurs_contains(capability_entries()[31].4, usage_setting("CalendarsFullAccess"@), 8);
}

proof fn lemma_asks_contacts()
    ensures
        capability_entries()[32].0 == "contacts"@,
        contains(capability_entries()[32].3, permission_attr("READ_CONTACTS"@)),
        contains(capability_entries()[32].4, usage_setting("Contacts"@)),
{
    reveal_strlit("    <uses-permission android:name=\"android.permission.READ_CONTACTS\" />\n");
    reveal_strlit("        INFOPLIST_KEY_NSContactsUsageDescription: \"$(PRODUCT_NAME) accesses your contacts when you ask it to.\"\n");
    reveal_strlit("android:name=\"android.permission.");
    reveal_strlit("\"");
    reveal_strlit("INFOPLIST_KEY_NS");
    reveal_strlit("UsageDescription");
    reveal_strlit("contacts");
    reveal_strlit("READ_CONTACTS");
    assert(capability_entries()[32].3.subrange(21, 68) =~= permission_attr("READ_CONTACTS"@));
    lemma_occurs_contains(capability_entries()[32].3, permission_attr("READ_CONTACTS"@), 21);
    reveal_strlit("Contacts");
    assert(capability_entries()[32].4.subrange(8, 48) =~= usage_setting("Contacts"@));
    lemma_occurs_contains(capability_entries()[32].4, usage_setting("Contacts"@), 8);
}

proof fn lemma_asks_geolocation()
    ensures
        capability_entries()[34].0 == "geolocation"@,
        contains(capability_entries()[34].3, permission_attr("ACCESS_FINE_LOCATION"@)),
        contains(capability_entries()[34].3, permission_attr("ACCESS_COARSE_LOCATION"@)),
        contains(capability_entries()[34].4, usage_setting("LocationWhenInUse"@)),
{
    reveal_strlit("    <uses-permission android:name=\"android.permission.ACCESS_FINE_LOCATION\" />\n    <uses-permission android:name=\"android.permission.ACCESS_COARSE_LOCATION\" />\n");
    reveal_strlit("        INFOPLIST_KEY_NSLocationWhenInUseUsageDescription: \"$(PRODUCT_NAME) uses your location while the app is open.\"\n");
    reveal_strlit("android:name=\"android.permission.");
    reveal_strlit("\"");
    reveal_strlit("INFOPLIST_KEY_NS");
    reveal_strlit("UsageDescription");
    reveal_strlit("geolocation");
    reveal_strlit("ACCESS_FINE_LOCATION");
    assert(capability_entries()[34].3.subrange(21, 75) =~= permission_attr("ACCESS_FINE_LOCATION"@));
    lemma_occurs_contains(capability_entries()[34].3, permission_attr("ACCESS_FINE_LOCATION"@), 21);
    reveal_strlit("ACCESS_COARSE_LOCATION");
    assert(capability_entries()[34].3.subrange(100, 156) =~= permission_attr("ACCESS_COARSE_LOCATION"@));
    lemma_occurs_contains(capability_entries()[34].3, permission_attr("ACCESS_COARSE_LOCATION"@), 100);
    reveal_strlit("LocationWhenInUse");
    assert(capability_entries()[34].4.subrange(8, 57) =~= usage_setting("LocationWhenInUse"@));
    lemma_occurs_contains(capability_entries()[34].4, usage_setting("LocationWhenInUse"@), 8);
}

/// Each capability that needs an Android permission or an iOS usage
/// description carries it: the location capability asks for fine and coarse
/// location, the camera for the camera, the microphone for audio recording,
/// the calendar for reading and writing calendars, contacts for reading
/// contacts, the photo library for images and videos, notifications for
/// posting them, haptics for vibration, Bluetooth for scanning and
/// connecting; and each of them whose iOS counterpart is gated by a usage
/// description sets that description.
pub proof fn law_capabilities_ask_for_what_they_use()
    ensures
        capability_entries()[1].0 == "bluetooth"@,
        contains(capability_entries()[1].3, permission_attr("ACCESS_FINE_LOCATION"@)),
        contains(capability_entries()[1].3, permission_attr("BLUETOOTH_SCAN"@)),
        contains(capability_entries()[1].3, permission_attr("BLUETOOTH_CONNECT"@)),
        contains(capability_entries()[1].4, usage_setting("BluetoothAlways"@)),
        capability_entries()[2].0 == "haptics"@,
        contains(capability_entries()[2].3, permission_attr("VIBRATE"@)),
        capability_entries()[6].0 == "video"@,
        contains(capability_entries()[6].3, permission_attr("CAMERA"@)),
        contains(capability_entries()[6].3, permission_attr("RECORD_AUDIO"@)),
        contains(capability_entries()[6].4, usage_setting("Camera"@)),
        contains(capability_entries()[6].4, usage_setting("Microphone"@)),
        capability_entries()[12].0 == "photo-library"@,
        contains(capability_entries()[12].3, permission_attr("READ_MEDIA_IMAGES"@)),
        contains(capability_entries()[12].3, permission_attr("READ_MEDIA_VIDEO"@)),
        contains(capability_entries()[12].3, permission_attr("READ_EXTERNAL_STORAGE"@)),
        contains(capability_entries()[12].4, usage_setting("PhotoLibrary"@)),
        capability_entries()[13].0 == "camera"@,
        contains(capability_entries()[13].3, permission_attr("CAMERA"@)),
        contains(capability_entries()[13].4, usage_setting("Camera"@)),
        capability_entries()[26].0 == "local-notifications"@,
        contains(capability_entries()[26].3, permission_attr("POST_NOTIFICATIONS"@)),
        capability_entries()[29].0 == "permissions"@,
        contains(capability_entries()[29].4, usage_setting("BluetoothAlways"@)),
        capability_entries()[30].0 == "microphone"@,
        contains(capability_entries()[30].3, permission_attr("RECORD_AUDIO"@)),
        contains(capability_entries()[30].4, usage_setting("Microphone"@)),
        capability_entries()[31].0 == "calendar"@,
        contains(capability_entries()[31].3, permission_attr("READ_CALENDAR"@)),
        contains(capability_entries()[31].3, permission_attr("WRITE_CALENDAR"@)),
        contains(capability_entries()[31].4, usage_setting("CalendarsFullAccess"@)),
        capability_entries()[32].0 == "contacts"@,
        contains(capability_entries()[32].3, permission_attr("READ_CONTACTS"@)),
        contains(capability_entries()[32].4, usage_setting("Contacts"@)),
        capability_entries()[34].0 == "geolocation"@,
        contains(capability_entries()[34].3, permission_attr("ACCESS_FINE_LOCATION"@)),
        contains(capability_entries()[34].3, permission_attr("ACCESS_COARSE_LOCATION"@)),
        contains(capability_entries()[34].4, usage_setting("LocationWhenInUse"@)),
{
    lemma_asks_bluetooth();
    lemma_asks_haptics();
    lemma_asks_video();
    lemma_asks_photo_library();
    lemma_asks_camera();
    lemma_asks_local_notifications();
    lemma_asks_permissions();
    lemma_asks_microphone();
    lemma_asks_calendar();
    lemma_asks_contacts();
    lemma_asks_geolocation();
}

} // verus!
