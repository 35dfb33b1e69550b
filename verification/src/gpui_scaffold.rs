//! The GPUI application that `crepus new <name>` scaffolds: its Cargo.toml
//! and its `src/main.rs`. Writing the files is left to the caller.
use vstd::prelude::*;
use crate::naming::{spec_to_pascal_case, to_pascal_case};
use crate::text::{push_str, to_owned_string};

verus! {

/// The Cargo.toml of the application `name`: a package and a binary of that
/// name, with GPUI and crepuscularity as dependencies.
pub open spec fn spec_gpui_cargo_toml(name: Seq<char>) -> Seq<char> {
    r##"[package]
name = ""##@ + name + r##""
version = "0.1.0"
edition = "2021"

[[bin]]
name = ""##@ + name + r##""
path = "src/main.rs"

[dependencies]
gpui = { version = "0.2", default-features = false, features = ["font-kit"] }
crepuscularity = { git = "https://github.com/semitechnological/crepuscularity", branch = "runtime-dev" }
"##@
}

pub fn cargo_toml(name: &str) -> (r: String)
    ensures
        r@ == spec_gpui_cargo_toml(name@),
{
    let mut s = to_owned_string(r##"[package]
name = ""##);
    push_str(&mut s, name);
    push_str(&mut s, r##""
version = "0.1.0"
edition = "2021"

[[bin]]
name = ""##);
    push_str(&mut s, name);
    push_str(&mut s, r##""
path = "src/main.rs"

[dependencies]
gpui = { version = "0.2", default-features = false, features = ["font-kit"] }
crepuscularity = { git = "https://github.com/semitechnological/crepuscularity", branch = "runtime-dev" }
"##);
    s
}

/// The `src/main.rs` of the application `name`: a counter view named after
/// the application in Pascal case, opened in a window.
pub open spec fn spec_gpui_main_rs(name: Seq<char>) -> Seq<char> {
    let p = spec_to_pascal_case(name);
    r##"use crepuscularity::prelude::*;
use gpui::{App, Application, WindowOptions};

struct "##@ + p + r##"View {
    count: i32,
}

impl "##@ + p + r##"View {
    fn new(_cx: &mut Context<Self>) -> Self {
        Self { count: 0 }
    }

    fn increment(&mut self, _: &gpui::ClickEvent, _: &mut gpui::Window, cx: &mut Context<Self>) {
        self.count += 1;
        cx.notify();
    }
}

impl Render for "##@ + p + r##"View {
    fn render(&mut self, _window: &mut gpui::Window, _cx: &mut Context<Self>) -> impl IntoElement {
        let count = self.count;
        view! {r#"
            div w-full h-full bg-zinc-950 text-white flex flex-col items-center justify-center gap-6
                div text-8xl font-bold leading-none
                    "{count}"
                button bg-white text-black font-semibold px-6 py-2 rounded-lg @click=increment
                    "increment"
        "#}
    }
}

fn main() {
    Application::new().run(|cx: &mut App| {
        use gpui::prelude::*;
        cx.open_window(WindowOptions::default(), |_win, cx| {
            cx.new("##@ + p + r##"View::new)
        })
        .unwrap();
    });
}
"##@
}

pub fn main_rs(name: &str) -> (r: String)
    ensures
        r@ == spec_gpui_main_rs(name@),
{
    let p = to_pascal_case(name);
    let mut s = to_owned_string(r##"use crepuscularity::prelude::*;
use gpui::{App, Application, WindowOptions};

struct "##);
    push_str(&mut s, p.as_str());
    push_str(&mut s, r##"View {
    count: i32,
}

impl "##);
    push_str(&mut s, p.as_str());
    push_str(&mut s, r##"View {
    fn new(_cx: &mut Context<Self>) -> Self {
        Self { count: 0 }
    }

    fn increment(&mut self, _: &gpui::ClickEvent, _: &mut gpui::Window, cx: &mut Context<Self>) {
        self.count += 1;
        cx.notify();
    }
}

impl Render for "##);
    push_str(&mut s, p.as_str());
    push_str(&mut s, r##"View {
    fn render(&mut self, _window: &mut gpui::Window, _cx: &mut Context<Self>) -> impl IntoElement {
        let count = self.count;
        view! {r#"
            div w-full h-full bg-zinc-950 text-white flex flex-col items-center justify-center gap-6
                div text-8xl font-bold leading-none
                    "{count}"
                button bg-white text-black font-semibold px-6 py-2 rounded-lg @click=increment
                    "increment"
        "#}
    }
}

fn main() {
    Application::new().run(|cx: &mut App| {
        use gpui::prelude::*;
        cx.open_window(WindowOptions::default(), |_win, cx| {
            cx.new("##);
    push_str(&mut s, p.as_str());
    push_str(&mut s, r##"View::new)
        })
        .unwrap();
    });
}
"##);
    s
}

} // verus!
