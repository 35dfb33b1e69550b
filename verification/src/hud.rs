//! The state that the desktop dev loop shares with its status window, and
//! the status line the window shows for it. Drawing the window is left to
//! the caller.
use vstd::prelude::*;
use crate::events::BuildError;
use crate::num::{decimal, push_decimal, push_signed_decimal, signed_decimal};
use crate::text::{chars_of, push_char, push_str, starts_with, string_from_range, to_owned_string};

verus! {

/// Where the dev loop stands.
#[derive(Clone, Debug, PartialEq, Eq)]
pub enum DevStatus {
    Starting,
    Building,
    Running { elapsed_ms: u64 },
    Failed { errors: Vec<BuildError>, count: usize },
    Exited { code: Option<i32> },
}

/// The project the dev loop runs, and where it stands.
#[derive(Clone, Debug, PartialEq, Eq)]
pub struct HudState {
    pub project_name: String,
    pub status: DevStatus,
}

impl HudState {
    /// A project that is starting.
    pub fn new(project_name: String) -> (r: Self)
        ensures
            r.project_name == project_name,
            r.status == DevStatus::Starting,
    {
        HudState { project_name, status: DevStatus::Starting }
    }
}

/// The frames of the spinner, shown one after the other.
pub open spec fn spinner_char(k: nat) -> char {
    if k == 0 {
        '⠋'
    } else if k == 1 {
        '⠙'
    } else if k == 2 {
        '⠹'
    } else if k == 3 {
        '⠸'
    } else if k == 4 {
        '⠼'
    } else if k == 5 {
        '⠴'
    } else if k == 6 {
        '⠦'
    } else {
        '⠏'
    }
}

fn spinner_at(frame: usize) -> (c: char)
    ensures
        c == spinner_char((frame % 8) as nat),
{
    let k = frame % 8;
    if k == 0 {
        '⠋'
    } else if k == 1 {
        '⠙'
    } else if k == 2 {
        '⠹'
    } else if k == 3 {
        '⠸'
    } else if k == 4 {
        '⠼'
    } else if k == 5 {
        '⠴'
    } else if k == 6 {
        '⠦'
    } else {
        '⠏'
    }
}

/// `str::trim_start_matches` with a text pattern: every leading copy of `p`
/// taken off.
pub open spec fn strip_leading(s: Seq<char>, p: Seq<char>) -> Seq<char>
    decreases s.len(),
{
    if p.len() > 0 && starts_with(s, p) {
        strip_leading(s.skip(p.len() as int), p)
    } else {
        s
    }
}

/// Where the first error is, as the status line shows it: two spaces and
/// its file without leading `src/`; nothing when there is no error or its
/// file is unknown.
pub open spec fn failure_location(errors: Seq<BuildError>) -> Seq<char> {
    if errors.len() > 0 && errors[0].file@.len() > 0 {
        "  "@ + strip_leading(errors[0].file@, "src/"@)
    } else {
        Seq::empty()
    }
}

/// The status line of the window at spinner frame `frame`.
pub open spec fn spec_status_text(status: DevStatus, frame: nat) -> Seq<char> {
    match status {
        DevStatus::Starting => seq![spinner_char(frame % 8)] + " starting…"@,
        DevStatus::Building => seq![spinner_char(frame % 8)] + " building…"@,
        DevStatus::Running { elapsed_ms } => "✓ running  ("@ + decimal(elapsed_ms as nat) + " ms)"@,
        DevStatus::Failed { errors, count } => "✗ "@ + decimal(count as nat) + " error"@ + (if count == 1 {
            Seq::<char>::empty()
        } else {
            "s"@
        }) + "  "@ + failure_location(errors@),
        DevStatus::Exited { code } => "⚑ exited ("@ + match code {
            Some(c) => signed_decimal(c as int),
            None => "?"@,
        } + ")"@,
    }
}

/// The colour (`0xRRGGBB`) of the status line.
pub open spec fn spec_status_color(status: DevStatus) -> u32 {
    match status {
        DevStatus::Starting => 0x888888,
        DevStatus::Building => 0xfbbf24,
        DevStatus::Running { .. } => 0x4ade80,
        DevStatus::Failed { .. } => 0xf87171,
        DevStatus::Exited { .. } => 0xa78bfa,
    }
}

/// `file` without its leading copies of `src/`.
fn strip_src_prefix(file: &str) -> (r: String)
    ensures
        r@ == strip_leading(file@, "src/"@),
{
    proof {
        reveal_strlit("src/");
    }
    let cs = chars_of(file);
    let mut a: usize = 0;
    assert(cs@.skip(0) =~= cs@);
    while cs.len() - a >= 4 && cs[a] == 's' && cs[a + 1] == 'r' && cs[a + 2] == 'c' && cs[a + 3] == '/'
        invariant
            a <= cs@.len(),
            cs@ == file@,
            strip_leading(cs@.skip(a as int), "src/"@) == strip_leading(file@, "src/"@),
        decreases cs@.len() - a,
    {
        proof {
            reveal_strlit("src/");
            let s = cs@.skip(a as int);
            assert(s.subrange(0, 4) =~= "src/"@);
            assert(s.skip(4) =~= cs@.skip(a + 4));
        }
        a = a + 4;
    }
    proof {
        let s = cs@.skip(a as int);
        if starts_with(s, "src/"@) {
            assert(s.subrange(0, 4)[0] == s[0]);
            assert(s[0] == cs@[a as int]);
            assert(s.subrange(0, 4)[1] == cs@[a + 1]);
            assert(s.subrange(0, 4)[2] == cs@[a + 2]);
            assert(s.subrange(0, 4)[3] == cs@[a + 3]);
        }
        assert(cs@.subrange(a as int, cs@.len() as int) =~= s);
    }
    string_from_range(&cs, a, cs.len())
}

/// What the status window shows: the project's name, the status line at
/// spinner frame `frame`, and its colour.
pub fn hud_snapshot(state: &HudState, frame: usize) -> (r: (String, String, u32))
    ensures
        r.0 == state.project_name,
        r.1@ == spec_status_text(state.status, frame as nat),
        r.2 == spec_status_color(state.status),
{
    let name = state.project_name.clone();
    match &state.status {
        DevStatus::Starting => {
            let mut t = String::new();
            push_char(&mut t, spinner_at(frame));
            push_str(&mut t, " starting…");
            (name, t, 0x888888u32)
        },
        DevStatus::Building => {
            let mut t = String::new();
            push_char(&mut t, spinner_at(frame));
            push_str(&mut t, " building…");
            (name, t, 0xfbbf24u32)
        },
        DevStatus::Running { elapsed_ms } => {
            let mut t = to_owned_string("✓ running  (");
            push_decimal(&mut t, *elapsed_ms);
            push_str(&mut t, " ms)");
            (name, t, 0x4ade80u32)
        },
        DevStatus::Failed { errors, count } => {
            let mut t = to_owned_string("✗ ");
            push_decimal(&mut t, *count as u64);
            push_str(&mut t, " error");
            if *count != 1 {
                push_str(&mut t, "s");
            }
            push_str(&mut t, "  ");
            if errors.len() > 0 && errors[0].file.unicode_len() > 0 {
                push_str(&mut t, "  ");
                let f = strip_src_prefix(errors[0].file.as_str());
                push_str(&mut t, f.as_str());
            }
            (name, t, 0xf87171u32)
        },
        DevStatus::Exited { code } => {
            let mut t = to_owned_string("⚑ exited (");
            match code {
                Some(c) => push_signed_decimal(&mut t, *c as i64),
                None => push_str(&mut t, "?"),
            }
            push_str(&mut t, ")");
            (name, t, 0xa78bfau32)
        },
    }
}

} // verus!
