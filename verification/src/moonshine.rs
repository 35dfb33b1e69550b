//! `crepus moonshine`: the package.json dependency snippets for Moonshine +
//! Crepuscularity apps, and the files of a new Moonshine app.
use vstd::prelude::*;
use crate::naming::{slug, spec_slug};
use crate::native_mobile::spec_apply_replacements;
use crate::scaffold::render_template;
use crate::text::{push_str, to_owned_string, pair_views};

verus! {

/// The dependency snippets that `crepus moonshine dep` prints.
pub open spec fn spec_dependency_snippets() -> Seq<char> {
    "# package.json dependencies for Moonshine + Crepuscularity\n#\n# Moonshine lives at https://github.com/tschk/moonshine (separate product).\n# Bun/npm git+path form (when the monorepo uses package.json workspaces):\n\n{\n  \"dependencies\": {\n    \"@tschk/moonshine\": \"github:tschk/moonshine#path:packages/core\",\n    \"@tschk/crepus-moonshine\": \"github:tschk/moonshine#path:packages/crepus-moonshine\",\n    \"@tschk/moonshine-components\": \"github:tschk/moonshine#path:components\"\n  }\n}\n\n# If bun cannot resolve nested #path:… workspaces, clone the repo and use file: /\n# workspace protocol instead:\n#\n# {\n#   \"dependencies\": {\n#     \"@tschk/moonshine\": \"file:../moonshine/packages/core\",\n#     \"@tschk/crepus-moonshine\": \"file:../moonshine/packages/crepus-moonshine\",\n#     \"@tschk/moonshine-components\": \"file:../moonshine/components\"\n#   }\n# }\n#\n# Or depend on the whole git repo and import via its workspace packages:\n#   \"moonshine\": \"github:tschk/moonshine\"\n"@
}

pub fn dependency_snippets() -> (r: String)
    ensures
        r@ == spec_dependency_snippets(),
{
    to_owned_string("# package.json dependencies for Moonshine + Crepuscularity\n#\n# Moonshine lives at https://github.com/tschk/moonshine (separate product).\n# Bun/npm git+path form (when the monorepo uses package.json workspaces):\n\n{\n  \"dependencies\": {\n    \"@tschk/moonshine\": \"github:tschk/moonshine#path:packages/core\",\n    \"@tschk/crepus-moonshine\": \"github:tschk/moonshine#path:packages/crepus-moonshine\",\n    \"@tschk/moonshine-components\": \"github:tschk/moonshine#path:components\"\n  }\n}\n\n# If bun cannot resolve nested #path:… workspaces, clone the repo and use file: /\n# workspace protocol instead:\n#\n# {\n#   \"dependencies\": {\n#     \"@tschk/moonshine\": \"file:../moonshine/packages/core\",\n#     \"@tschk/crepus-moonshine\": \"file:../moonshine/packages/crepus-moonshine\",\n#     \"@tschk/moonshine-components\": \"file:../moonshine/components\"\n#   }\n# }\n#\n# Or depend on the whole git repo and import via its workspace packages:\n#   \"moonshine\": \"github:tschk/moonshine\"\n")
}

/// The `package.json` template (`{{slug}}`).
pub open spec fn spec_package_json() -> Seq<char> {
    "{\n  \"name\": \"{{slug}}\",\n  \"private\": true,\n  \"version\": \"0.1.0\",\n  \"type\": \"module\",\n  \"scripts\": {\n    \"dev\": \"vite\",\n    \"build\": \"vite build\",\n    \"preview\": \"vite preview\"\n  },\n  \"dependencies\": {\n    \"@tschk/moonshine\": \"github:tschk/moonshine#path:packages/core\",\n    \"@tschk/crepus-moonshine\": \"github:tschk/moonshine#path:packages/crepus-moonshine\",\n    \"@tschk/moonshine-components\": \"github:tschk/moonshine#path:components\"\n  },\n  \"devDependencies\": {\n    \"vite\": \"^6.0.0\"\n  }\n}\n"@
}

pub fn package_json() -> (r: &'static str)
    ensures
        r@ == spec_package_json(),
{
    "{\n  \"name\": \"{{slug}}\",\n  \"private\": true,\n  \"version\": \"0.1.0\",\n  \"type\": \"module\",\n  \"scripts\": {\n    \"dev\": \"vite\",\n    \"build\": \"vite build\",\n    \"preview\": \"vite preview\"\n  },\n  \"dependencies\": {\n    \"@tschk/moonshine\": \"github:tschk/moonshine#path:packages/core\",\n    \"@tschk/crepus-moonshine\": \"github:tschk/moonshine#path:packages/crepus-moonshine\",\n    \"@tschk/moonshine-components\": \"github:tschk/moonshine#path:components\"\n  },\n  \"devDependencies\": {\n    \"vite\": \"^6.0.0\"\n  }\n}\n"
}

/// The `index.html` template (`{{name}}`).
pub open spec fn spec_index_html() -> Seq<char> {
    "<!doctype html>\n<html lang=\"en\">\n  <head>\n    <meta charset=\"utf-8\" />\n    <meta name=\"viewport\" content=\"width=device-width, initial-scale=1\" />\n    <title>{{name}}</title>\n  </head>\n  <body>\n    <div id=\"app\"></div>\n    <script type=\"module\" src=\"/src/main.ts\"></script>\n  </body>\n</html>\n"@
}

pub fn index_html() -> (r: &'static str)
    ensures
        r@ == spec_index_html(),
{
    "<!doctype html>\n<html lang=\"en\">\n  <head>\n    <meta charset=\"utf-8\" />\n    <meta name=\"viewport\" content=\"width=device-width, initial-scale=1\" />\n    <title>{{name}}</title>\n  </head>\n  <body>\n    <div id=\"app\"></div>\n    <script type=\"module\" src=\"/src/main.ts\"></script>\n  </body>\n</html>\n"
}

/// The `src/main.ts` template (`{{name}}`).
pub open spec fn spec_main_ts() -> Seq<char> {
    "// Minimal Moonshine + Crepuscularity shell.\n// Wire `@tschk/crepus-moonshine` (see `crepus moonshine dep`).\nimport \"./app.css\";\n\nconst root = document.getElementById(\"app\");\nif (root) {\n  root.innerHTML = `\n    <main class=\"shell\">\n      <h1>{{name}}</h1>\n      <p>Load <code>index.crepus</code> via <code>@tschk/crepus-moonshine</code>.</p>\n      <pre id=\"crepus-source\"></pre>\n    </main>\n  `;\n}\n\nfetch(\"/index.crepus\")\n  .then((r) => r.text())\n  .then((src) => {\n    const el = document.getElementById(\"crepus-source\");\n    if (el) el.textContent = src;\n  })\n  .catch(() => {});\n"@
}

pub fn main_ts() -> (r: &'static str)
    ensures
        r@ == spec_main_ts(),
{
    "// Minimal Moonshine + Crepuscularity shell.\n// Wire `@tschk/crepus-moonshine` (see `crepus moonshine dep`).\nimport \"./app.css\";\n\nconst root = document.getElementById(\"app\");\nif (root) {\n  root.innerHTML = `\n    <main class=\"shell\">\n      <h1>{{name}}</h1>\n      <p>Load <code>index.crepus</code> via <code>@tschk/crepus-moonshine</code>.</p>\n      <pre id=\"crepus-source\"></pre>\n    </main>\n  `;\n}\n\nfetch(\"/index.crepus\")\n  .then((r) => r.text())\n  .then((src) => {\n    const el = document.getElementById(\"crepus-source\");\n    if (el) el.textContent = src;\n  })\n  .catch(() => {});\n"
}

/// The `src/app.css` of a new app.
pub open spec fn spec_app_css() -> Seq<char> {
    ":root {\n  color-scheme: dark;\n  font-family: ui-sans-serif, system-ui, sans-serif;\n  background: #0a0a0b;\n  color: #f4f4f5;\n}\n\nbody {\n  margin: 0;\n}\n\n.shell {\n  max-width: 40rem;\n  margin: 4rem auto;\n  padding: 0 1.25rem;\n  display: grid;\n  gap: 0.75rem;\n}\n\npre {\n  overflow: auto;\n  padding: 1rem;\n  border: 1px solid #27272a;\n  border-radius: 0.5rem;\n  background: #18181b;\n  font-size: 0.85rem;\n}\n"@
}

pub fn app_css() -> (r: &'static str)
    ensures
        r@ == spec_app_css(),
{
    ":root {\n  color-scheme: dark;\n  font-family: ui-sans-serif, system-ui, sans-serif;\n  background: #0a0a0b;\n  color: #f4f4f5;\n}\n\nbody {\n  margin: 0;\n}\n\n.shell {\n  max-width: 40rem;\n  margin: 4rem auto;\n  padding: 0 1.25rem;\n  display: grid;\n  gap: 0.75rem;\n}\n\npre {\n  overflow: auto;\n  padding: 1rem;\n  border: 1px solid #27272a;\n  border-radius: 0.5rem;\n  background: #18181b;\n  font-size: 0.85rem;\n}\n"
}

/// The starter `index.crepus`.
pub open spec fn spec_index_crepus() -> Seq<char> {
    "div w-full min-h-screen p-8 flex flex-col gap-3\n div text-3xl font-bold\n  \"Hello from Moonshine + .crepus\"\n div text-zinc-400\n  \"Scaffolded by crepus moonshine new.\"\n"@
}

pub fn index_crepus() -> (r: &'static str)
    ensures
        r@ == spec_index_crepus(),
{
    "div w-full min-h-screen p-8 flex flex-col gap-3\n div text-3xl font-bold\n  \"Hello from Moonshine + .crepus\"\n div text-zinc-400\n  \"Scaffolded by crepus moonshine new.\"\n"
}

/// The `vite.config.ts` of a new app.
pub open spec fn spec_vite_config() -> Seq<char> {
    "import { defineConfig } from \"vite\";\n\nexport default defineConfig({\n  publicDir: \"public\",\n  server: { port: 5173 },\n});\n"@
}

pub fn vite_config() -> (r: &'static str)
    ensures
        r@ == spec_vite_config(),
{
    "import { defineConfig } from \"vite\";\n\nexport default defineConfig({\n  publicDir: \"public\",\n  server: { port: 5173 },\n});\n"
}

/// The README template (`{{name}}`).
pub open spec fn spec_readme() -> Seq<char> {
    "# {{name}}\n\nMinimal Moonshine + Crepuscularity app scaffolded by `crepus moonshine new`.\n\nMoonshine is a separate product: https://github.com/tschk/moonshine\n\n```bash\nbun install\nbun run dev\n```\n\nDependency snippets (kept in sync with the CLI):\n\n```bash\ncrepus moonshine dep\n```\n\nEmit a View IR app entry:\n\n```bash\ncrepus web build --emit moonshine --site .\n```\n"@
}

pub fn readme() -> (r: &'static str)
    ensures
        r@ == spec_readme(),
{
    "# {{name}}\n\nMinimal Moonshine + Crepuscularity app scaffolded by `crepus moonshine new`.\n\nMoonshine is a separate product: https://github.com/tschk/moonshine\n\n```bash\nbun install\nbun run dev\n```\n\nDependency snippets (kept in sync with the CLI):\n\n```bash\ncrepus moonshine dep\n```\n\nEmit a View IR app entry:\n\n```bash\ncrepus web build --emit moonshine --site .\n```\n"
}

pub open spec fn one_pair(k: Seq<char>, v: Seq<char>) -> Seq<(Seq<char>, Seq<char>)> {
    seq![(k, v)]
}

fn pairs_of(k: &str, v: &str) -> (r: Vec<(String, String)>)
    ensures
        pair_views(r@) == one_pair(k@, v@),
{
    let mut r: Vec<(String, String)> = Vec::new();
    r.push((to_owned_string(k), to_owned_string(v)));
    assert(pair_views(r@) =~= one_pair(k@, v@));
    r
}

/// The files of a new Moonshine app named `name`, under its slug, as
/// (path relative to the app, contents), in the order they are written.
pub open spec fn spec_app_files(name: Seq<char>) -> Seq<(Seq<char>, Seq<char>)> {
    let s = spec_slug(name);
    seq![
        ("package.json"@, spec_apply_replacements(spec_package_json(), one_pair("{{slug}}"@, s))),
        ("index.html"@, spec_apply_replacements(spec_index_html(), one_pair("{{name}}"@, name))),
        ("src/main.ts"@, spec_apply_replacements(spec_main_ts(), one_pair("{{name}}"@, name))),
        ("src/app.css"@, spec_app_css()),
        ("public/index.crepus"@, spec_index_crepus()),
        ("index.crepus"@, spec_index_crepus()),
        ("vite.config.ts"@, spec_vite_config()),
        ("README.md"@, spec_apply_replacements(spec_readme(), one_pair("{{name}}"@, name))),
    ]
}

/// The slug directory and the files of a new Moonshine app.
pub fn app_files(name: &str) -> (r: (String, Vec<(String, String)>))
    ensures
        r.0@ == spec_slug(name@),
        pair_views(r.1@) == spec_app_files(name@),
{
    let s = slug(name);
    let mut files: Vec<(String, String)> = Vec::new();
    files.push((to_owned_string("package.json"), render_template(package_json(), &pairs_of("{{slug}}", s.as_str()))));
    files.push((to_owned_string("index.html"), render_template(index_html(), &pairs_of("{{name}}", name))));
    files.push((to_owned_string("src/main.ts"), render_template(main_ts(), &pairs_of("{{name}}", name))));
    files.push((to_owned_string("src/app.css"), to_owned_string(app_css())));
    files.push((to_owned_string("public/index.crepus"), to_owned_string(index_crepus())));
    files.push((to_owned_string("index.crepus"), to_owned_string(index_crepus())));
    files.push((to_owned_string("vite.config.ts"), to_owned_string(vite_config())));
    files.push((to_owned_string("README.md"), render_template(readme(), &pairs_of("{{name}}", name))));
    assert(pair_views(files@) =~= spec_app_files(name@));
    (s, files)
}

} // verus!
