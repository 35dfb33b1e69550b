use crepuscularity_cli::benchmark::{
    check_version, elide_shell_script, expand_vars, only_list, order_by_desc, parse_benchmark_args,
    plan_builtin, split_id_list, stderr_tail_opt, step_failure, tail_str, target_vars, work_base,
    BenchmarkInvocation, BuiltinPlan,
};

fn strings(v: &[&str]) -> Vec<String> {
    v.iter().map(|s| s.to_string()).collect()
}

#[test]
fn only_lists_are_trimmed_and_skip_empty_ids() {
    assert_eq!(split_id_list(" web , ,desktop,"), vec!["web", "desktop"]);
    assert_eq!(only_list(None), None);
    assert_eq!(only_list(Some("a".to_string())), Some(vec!["a".to_string()]));
}

#[test]
fn benchmark_flags() {
    match parse_benchmark_args(&strings(&["all", "--suite", "web", "--only", "a,b", "--json", "-n", "--no-memory", "--repo", "/r"])) {
        BenchmarkInvocation::Run(o) => {
            assert_eq!(o.suite_filter, Some("web".to_string()));
            assert_eq!(o.only, Some(strings(&["a", "b"])));
            assert!(o.json_out);
            assert!(o.dry_run);
            assert!(!o.measure_memory);
            assert_eq!(o.repo_override, Some("/r".to_string()));
            assert_eq!(o.config_path, None);
        }
        BenchmarkInvocation::Help => panic!("expected a run"),
    }
    assert!(matches!(parse_benchmark_args(&strings(&["run", "--json", "--help"])), BenchmarkInvocation::Help));
    match parse_benchmark_args(&strings(&[])) {
        BenchmarkInvocation::Run(o) => {
            assert!(o.measure_memory);
            assert!(!o.json_out && !o.dry_run && !o.clean);
        }
        BenchmarkInvocation::Help => panic!("expected a run"),
    }
}

#[test]
fn ordering_by_wall_time_is_stable() {
    assert_eq!(order_by_desc(&vec![5, 9, 5, 1, 9]), vec![1, 4, 0, 2, 3]);
    assert_eq!(order_by_desc(&vec![]), Vec::<usize>::new());
}

#[test]
fn variables_expand_in_both_spellings() {
    let vars = target_vars("/repo", "/work", "/work/t");
    assert_eq!(
        expand_vars("cd $REPO && ls ${WORK} $TARGET", &vars),
        "cd /repo && ls /work /work/t"
    );
}

#[test]
fn failure_messages_and_output_tails() {
    assert_eq!(
        step_failure("build", 1500, true, true, None),
        "step 'build' failed (1500ms): (output was streamed; see above)"
    );
    assert_eq!(
        step_failure("build", 3, false, false, Some("boom".to_string())),
        "step 'build' failed (3ms): boom"
    );
    assert_eq!(step_failure("x", 0, false, true, None), "step 'x' failed (0ms): (no output)");
    assert_eq!(stderr_tail_opt("  \n"), None);
    assert_eq!(stderr_tail_opt("err"), Some("err".to_string()));
    let long = "a".repeat(2500);
    assert_eq!(tail_str(&long).len(), 2000);
    assert_eq!(elide_shell_script("  echo hi  ", 20), "echo hi");
    assert_eq!(elide_shell_script("abcdefgh", 3), "abc…");
}

#[test]
fn work_directories_and_versions() {
    assert_eq!(work_base("/repo", None, None), "/repo/examples/benchmarks/.work");
    assert_eq!(work_base("/repo", None, Some("w".to_string())), "/repo/w");
    assert_eq!(work_base("/repo", Some("/tmp/w".to_string()), Some("w".to_string())), "/tmp/w");
    assert_eq!(check_version(1), Ok(()));
    assert_eq!(check_version(2), Err("unsupported benchmark.toml version 2".to_string()));
}

#[test]
fn builtin_plans() {
    match plan_builtin("crepus-web", &None, "/repo", "/work/web") {
        Ok(BuiltinPlan::Web { site_path, out_dir }) => {
            assert_eq!(site_path, "/repo/examples/benchmarks/crepus-web");
            assert_eq!(out_dir, "/work/web/out");
        }
        _ => panic!("expected a web plan"),
    }
    match plan_builtin("crepus-desktop", &None, "/repo", "/w") {
        Ok(BuiltinPlan::Desktop { crate_dir, cargo_toml, target_dir }) => {
            assert_eq!(crate_dir, "/repo/examples/benchmarks/crepus-desktop");
            assert_eq!(cargo_toml, "/repo/examples/benchmarks/crepus-desktop/Cargo.toml");
            assert_eq!(target_dir, "/w/cargo-target");
        }
        _ => panic!("expected a desktop plan"),
    }
    assert!(matches!(plan_builtin("nope", &None, "/r", "/w"), Err(m) if m == "unknown builtin 'nope'"));
}

#[test]
fn leading_all_or_run_means_a_full_run() {
    let args = |xs: &[&str]| xs.iter().map(|s| s.to_string()).collect::<Vec<String>>();
    assert_eq!(
        crepuscularity_cli::benchmark::normalize_benchmark_invocation_args(&args(&["all", "--json"])),
        args(&["--json"])
    );
    assert_eq!(crepuscularity_cli::benchmark::normalize_benchmark_invocation_args(&args(&["run"])), args(&[]));
    assert_eq!(
        crepuscularity_cli::benchmark::normalize_benchmark_invocation_args(&args(&["--only", "all"])),
        args(&["--only", "all"])
    );
}

#[test]
fn table_notes_are_flattened_and_cut() {
    let elide = crepuscularity_cli::benchmark::elide;
    assert_eq!(elide("  a\nb  ", 10), "a b");
    assert_eq!(elide("abcdef", 4), "abc…");
    assert_eq!(elide("abcd", 4), "abcd");
    assert_eq!(elide("héllo wörld", 6), "héllo…");
    assert_eq!(elide("abc", 0), "…");
}

#[test]
fn benchmark_config_and_repository_root() {
    assert_eq!(
        crepuscularity_cli::benchmark::config_candidates("/w"),
        vec!["/w/benchmark.toml".to_string(), "/w/examples/benchmarks/benchmark.toml".to_string()]
    );
    let root = crepuscularity_cli::benchmark::repo_root_from;
    assert_eq!(root(Some("/repo\n"), "/x/examples/benchmarks/benchmark.toml"), "/repo");
    assert_eq!(root(Some("  \n"), "/x/examples/benchmarks/benchmark.toml"), "/x");
    assert_eq!(root(None, "/x/examples/benchmarks/benchmark.toml"), "/x");
    assert_eq!(root(None, "benchmark.toml"), ".");
}
