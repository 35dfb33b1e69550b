//! `crepus mobile doctor`: which host checks a platform needs, in order, and
//! how the outputs of `java -version` and `rustup target list --installed`
//! are read, and which installed NDK is the newest.
use vstd::prelude::*;
use crate::native_mobile::MobilePlatform;
use crate::num::{parse_u32, spec_parse_u32};
use crate::text::{
    chars_of, is_ascii_digit, lines, lines_of, push_char, split_by_char, split_char, str_eq, to_owned_string,
    trim, trim_string, lex_lt, lex_less, lemma_lex_total, lemma_lex_asymmetric, lemma_lex_transitive,
    lemma_lex_irreflexive,
};

verus! {

/// One check of the doctor.
#[derive(Debug, Clone, PartialEq, Eq)]
pub enum DoctorCheck {
    /// The program runs with these arguments and succeeds.
    Command { program: String, args: Vec<String> },
    /// The Rust target is installed.
    RustTarget(String),
    /// A Java 17 or later is reachable.
    Java17,
    /// `JAVA_HOME`, if set, holds a Java.
    JavaHome,
    /// The Android SDK has its platforms.
    AndroidSdk,
    /// An Android NDK with an arm64 clang is installed.
    AndroidNdk,
}

/// A check as plain text: a command's words, or the name of the check.
pub open spec fn check_view(c: DoctorCheck) -> Seq<Seq<char>> {
    match c {
        DoctorCheck::Command { program, args } => seq![program@] + args@.map_values(|a: String| a@),
        DoctorCheck::RustTarget(t) => seq!["rust target"@, t@],
        DoctorCheck::Java17 => seq!["java 17"@],
        DoctorCheck::JavaHome => seq!["JAVA_HOME"@],
        DoctorCheck::AndroidSdk => seq!["android sdk"@],
        DoctorCheck::AndroidNdk => seq!["android ndk"@],
    }
}

pub open spec fn ios_checks() -> Seq<Seq<Seq<char>>> {
    seq![
        seq!["rust target"@, "aarch64-apple-ios"@],
        seq!["xcodebuild"@, "-version"@],
        seq!["xcodegen"@, "--version"@],
        seq!["xcrun"@, "simctl"@, "list"@, "runtimes"@],
    ]
}

pub open spec fn android_checks() -> Seq<Seq<Seq<char>>> {
    seq![
        seq!["rust target"@, "aarch64-linux-android"@],
        seq!["java"@, "-version"@],
        seq!["java 17"@],
        seq!["JAVA_HOME"@],
        seq!["gradle"@, "--version"@],
        seq!["android sdk"@],
        seq!["android ndk"@],
    ]
}

/// The checks of a platform: `cargo --version`, then the iOS checks, then
/// the Android checks, as the platform asks for them.
pub open spec fn spec_doctor_checks(p: MobilePlatform) -> Seq<Seq<Seq<char>>> {
    seq![seq!["cargo"@, "--version"@]] + (if p != MobilePlatform::Android {
        ios_checks()
    } else {
        Seq::empty()
    }) + (if p != MobilePlatform::Ios {
        android_checks()
    } else {
        Seq::empty()
    })
}

fn command(program: &str, arg: &str) -> (r: DoctorCheck)
    ensures
        check_view(r) == seq![program@, arg@],
{
    let mut args: Vec<String> = Vec::new();
    args.push(to_owned_string(arg));
    let r = DoctorCheck::Command { program: to_owned_string(program), args };
    assert(check_view(r) =~= seq![program@, arg@]);
    r
}

fn simctl_runtimes() -> (r: DoctorCheck)
    ensures
        check_view(r) == seq!["xcrun"@, "simctl"@, "list"@, "runtimes"@],
{
    let mut args: Vec<String> = Vec::new();
    args.push(to_owned_string("simctl"));
    args.push(to_owned_string("list"));
    args.push(to_owned_string("runtimes"));
    let r = DoctorCheck::Command { program: to_owned_string("xcrun"), args };
    assert(check_view(r) =~= seq!["xcrun"@, "simctl"@, "list"@, "runtimes"@]);
    r
}

/// The checks that `crepus mobile doctor` runs for a platform, in order.
pub fn doctor_checks(platform: MobilePlatform) -> (r: Vec<DoctorCheck>)
    ensures
        r@.map_values(|c: DoctorCheck| check_view(c)) == spec_doctor_checks(platform),
{
    let mut r: Vec<DoctorCheck> = Vec::new();
    r.push(command("cargo", "--version"));
    if platform != MobilePlatform::Android {
        r.push(DoctorCheck::RustTarget(to_owned_string("aarch64-apple-ios")));
        r.push(command("xcodebuild", "-version"));
        r.push(command("xcodegen", "--version"));
        r.push(simctl_runtimes());
    }
    if platform != MobilePlatform::Ios {
        r.push(DoctorCheck::RustTarget(to_owned_string("aarch64-linux-android")));
        r.push(command("java", "-version"));
        r.push(DoctorCheck::Java17);
        r.push(DoctorCheck::JavaHome);
        r.push(command("gradle", "--version"));
        r.push(DoctorCheck::AndroidSdk);
        r.push(DoctorCheck::AndroidNdk);
    }
    assert(r@.map_values(|c: DoctorCheck| check_view(c)) =~= spec_doctor_checks(platform));
    r
}

// ── Java versions ──────────────────────────────────────────────────────────

pub open spec fn is_version_char(c: char) -> bool {
    is_ascii_digit(c) || c == '.'
}

/// The text with every character that is neither a digit nor `.` made a `,`.
pub open spec fn version_separated(s: Seq<char>) -> Seq<char> {
    s.map_values(|c: char| if is_version_char(c) { c } else { ',' })
}

/// The runs of digits and dots of a text, as `str::split` with the
/// predicate "neither a digit nor `.`" yields them (empty pieces included).
pub open spec fn version_pieces(s: Seq<char>) -> Seq<Seq<char>> {
    split_char(version_separated(s), ',')
}

/// The major version of one piece: the number before its first `.`.
pub open spec fn java_major(raw: Seq<char>) -> Option<u32> {
    if raw.len() == 0 {
        None
    } else {
        spec_parse_u32(split_char(raw, '.')[0])
    }
}

/// The first piece, from `i` on, that has a major version.
pub open spec fn first_major_from(ps: Seq<Seq<char>>, i: int) -> Option<u32>
    decreases ps.len() - i,
{
    if i < 0 || i >= ps.len() {
        None
    } else {
        match java_major(ps[i]) {
            Some(m) => Some(m),
            None => first_major_from(ps, i + 1),
        }
    }
}

/// The Java major version that the output of `java -version` names first.
pub open spec fn spec_java_major_in(text: Seq<char>) -> Option<u32> {
    first_major_from(version_pieces(text), 0)
}

pub fn parse_java_major(raw: &str) -> (r: Option<u32>)
    ensures
        r == java_major(raw@),
{
    let cs = chars_of(raw);
    if cs.len() == 0 {
        return None;
    }
    let parts = split_by_char(raw, '.');
    proof {
        crate::text::lemma_split_char_len(raw@, '.');
    }
    parse_u32(parts[0].as_str())
}

/// The Java major version named first in the output of `java -version`.
pub fn java_major_in(text: &str) -> (r: Option<u32>)
    ensures
        r == spec_java_major_in(text@),
{
    let cs = chars_of(text);
    let mut sep = String::new();
    let mut i: usize = 0;
    while i < cs.len()
        invariant
            i <= cs@.len(),
            cs@ == text@,
            sep@ == version_separated(text@.take(i as int)),
        decreases cs@.len() - i,
    {
        let c = cs[i];
        if ('0' <= c && c <= '9') || c == '.' {
            push_char(&mut sep, c);
        } else {
            push_char(&mut sep, ',');
        }
        i = i + 1;
        assert(sep@ =~= version_separated(text@.take(i as int)));
    }
    assert(text@.take(cs@.len() as int) =~= text@);
    let pieces = split_by_char(sep.as_str(), ',');
    let ghost ps = version_pieces(text@);
    let mut k: usize = 0;
    while k < pieces.len()
        invariant
            k <= pieces@.len(),
            ps == version_pieces(text@),
            pieces@.len() == ps.len(),
            forall|j: int| 0 <= j < pieces@.len() ==> #[trigger] pieces@[j]@ == ps[j],
            first_major_from(ps, 0) == first_major_from(ps, k as int),
        decreases pieces@.len() - k,
    {
        assert(pieces@[k as int]@ == ps[k as int]);
        let m = parse_java_major(pieces[k].as_str());
        match m {
            Some(v) => {
                assert(java_major(ps[k as int]) == Some(v));
                assert(first_major_from(ps, k as int) == Some(v));
                return Some(v);
            },
            None => {},
        }
        k = k + 1;
    }
    None
}

/// Whether `java -version` printed a Java of at least `major`.
pub fn java_version_at_least(text: &str, major: u32) -> (r: bool)
    ensures
        r == (spec_java_major_in(text@) matches Some(found) && found >= major),
{
    match java_major_in(text) {
        Some(found) => found >= major,
        None => false,
    }
}

// ── Rust targets ───────────────────────────────────────────────────────────

/// Whether `rustup target list --installed` lists the target.
pub open spec fn spec_target_installed(listing: Seq<char>, target: Seq<char>) -> bool {
    exists|i: int| 0 <= i < lines(listing).len() && trim(#[trigger] lines(listing)[i]) == target
}

pub fn rust_target_installed(listing: &str, target: &str) -> (r: bool)
    ensures
        r == spec_target_installed(listing@, target@),
{
    let ls = lines_of(listing);
    let ghost sl = lines(listing@);
    let mut i: usize = 0;
    while i < ls.len()
        invariant
            i <= ls@.len(),
            ls@.len() == sl.len(),
            sl == lines(listing@),
            forall|j: int| 0 <= j < ls@.len() ==> #[trigger] ls@[j]@ == sl[j],
            forall|j: int| 0 <= j < i ==> trim(#[trigger] sl[j]) != target@,
        decreases ls@.len() - i,
    {
        let t = trim_string(ls[i].as_str());
        if str_eq(t.as_str(), target) {
            assert(trim(sl[i as int]) == target@);
            return true;
        }
        i = i + 1;
    }
    false
}

/// The newest of the installed NDK versions (directory names under
/// `<sdk>/ndk`): the greatest in the order in which paths sort, which for
/// names under one directory is their character order.
pub fn latest_ndk(names: &Vec<String>) -> (r: Option<String>)
    ensures
        names@.len() == 0 <==> r is None,
        r matches Some(best) ==> (exists|i: int| 0 <= i < names@.len() && names@[i]@ == best@)
            && forall|i: int| 0 <= i < names@.len() ==> !lex_lt(best@, #[trigger] names@[i]@),
{
    if names.len() == 0 {
        return None;
    }
    let mut best: usize = 0;
    let mut i: usize = 1;
    proof {
        lemma_lex_irreflexive(names@[0]@);
    }
    while i < names.len()
        invariant
            1 <= i <= names@.len(),
            best < i,
            forall|j: int| 0 <= j < i ==> !lex_lt(names@[best as int]@, #[trigger] names@[j]@),
        decreases names@.len() - i,
    {
        if lex_less(names[best].as_str(), names[i].as_str()) {
            proof {
                assert forall|j: int| 0 <= j < i + 1 implies !lex_lt(names@[i as int]@, #[trigger] names@[j]@) by {
                    if j < i {
                        lemma_lex_total(names@[j]@, names@[best as int]@);
                        if lex_lt(names@[i as int]@, names@[j]@) {
                            if names@[j]@ == names@[best as int]@ {
                                lemma_lex_asymmetric(names@[best as int]@, names@[i as int]@);
                            } else if lex_lt(names@[j]@, names@[best as int]@) {
                                lemma_lex_transitive(names@[i as int]@, names@[j]@, names@[best as int]@);
                                lemma_lex_asymmetric(names@[best as int]@, names@[i as int]@);
                            }
                        }
                    } else {
                        lemma_lex_irreflexive(names@[i as int]@);
                    }
                }
            }
            best = i;
        } else {
            proof {
                assert(!lex_lt(names@[best as int]@, names@[i as int]@));
            }
        }
        i = i + 1;
    }
    let r = names[best].clone();
    assert(names@[best as int]@ == r@);
    Some(r)
}

} // verus!
