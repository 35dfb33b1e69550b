//! `crepus aurora …` hands its arguments to `aurorality`: the name of the
//! app that a failed or interrupted session leaves to stop, and what the
//! session's end means for crepus. Running `aurorality` is left to the
//! caller.
use vstd::prelude::*;
use crate::text::{opt_view, str_eq};

verus! {

/// The string at `key` of the table `table` of a TOML document: none when
/// the text is not TOML, or that value is missing or not a string. It
/// depends on its arguments alone.
pub uninterp spec fn toml_table_str(doc: Seq<char>, table: Seq<char>, key: Seq<char>) -> Option<Seq<char>>;

/// `doc.parse::<toml::Value>()`, then `.get(table)`, `.get(key)` and
/// `.as_str()`; the contract names the result `toml_table_str`.
#[verifier::external_body]
fn toml_str_at(doc: &str, table: &str, key: &str) -> (r: Option<String>)
    ensures
        opt_view(r) == toml_table_str(doc@, table@, key@),
{
    doc.parse::<toml::Value>().ok()?.get(table)?.get(key)?.as_str().map(|s| s.to_string())
}

/// The app of the session: the `[package] name` of the working directory's
/// crepus.toml (when it could be read).
pub fn aurora_app_name(crepus_toml: Option<&str>) -> (r: Option<String>)
    ensures
        opt_view(r) == match crepus_toml {
            Some(doc) => toml_table_str(doc@, "package"@, "name"@),
            None => None,
        },
{
    match crepus_toml {
        Some(doc) => toml_str_at(doc, "package", "name"),
        None => None,
    }
}

/// What crepus does when `aurorality` has ended.
#[derive(Debug, Clone, PartialEq, Eq)]
pub enum AuroraEnd {
    /// It succeeded: crepus ends normally.
    Done,
    /// It failed: stop the app first when asked to, then exit with `code`.
    Fail { stop_app: bool, code: i32 },
}

/// The end of a session with arguments `args` whose `aurorality` exited with
/// `success` and exit code `code`: a failure exits with that code (1 when
/// there is none), and stops the app when the session was `dev`.
pub fn aurora_end(args: &Vec<String>, success: bool, code: Option<i32>) -> (r: AuroraEnd)
    ensures
        success ==> r == AuroraEnd::Done,
        !success ==> r == (AuroraEnd::Fail {
            stop_app: args@.len() > 0 && args@[0]@ == "dev"@,
            code: match code {
                Some(c) => c,
                None => 1,
            },
        }),
{
    if success {
        AuroraEnd::Done
    } else {
        let stop_app = args.len() > 0 && str_eq(args[0].as_str(), "dev");
        let code = match code {
            Some(c) => c,
            None => 1,
        };
        AuroraEnd::Fail { stop_app, code }
    }
}

} // verus!
