use crepuscularity_cli::flutter::{
    dependency_block, insert_under_dependencies, plan_flutter_add, FlutterAddPlan,
};

#[test]
fn git_block_pins_ref_and_path() {
    let block = dependency_block(None, "abc123", 0);
    assert!(block.contains("crepuscularity_flutter:"));
    assert!(block.contains("url: https://github.com/tschk/crepuscularity"));
    assert!(block.contains("ref: abc123"));
    assert!(block.contains("path: plugins/crepuscularity-flutter"));
}

#[test]
fn published_block_uses_caret_version() {
    let block = dependency_block(Some("0.1.0"), "main", 0);
    assert_eq!(block, "crepuscularity_flutter: ^0.1.0\n");
}

#[test]
fn insert_places_block_under_dependencies() {
    let source = "name: demo\ndependencies:\n  flutter:\n    sdk: flutter\n";
    let block = dependency_block(None, "main", 2);
    let updated = insert_under_dependencies(source, &block).unwrap();
    let deps_idx = updated.find("dependencies:").unwrap();
    let pkg_idx = updated.find("crepuscularity_flutter:").unwrap();
    let flutter_idx = updated.find("  flutter:").unwrap();
    assert!(deps_idx < pkg_idx && pkg_idx < flutter_idx);
}

#[test]
fn insert_returns_none_without_dependencies_section() {
    assert!(insert_under_dependencies("name: demo\n", "x").is_none());
}

#[test]
fn indented_git_block_exact_text() {
    let block = dependency_block(None, "v1", 2);
    assert_eq!(
        block,
        "  crepuscularity_flutter:\n    git:\n      url: https://github.com/tschk/crepuscularity\n      ref: v1\n      path: plugins/crepuscularity-flutter\n"
    );
}

#[test]
fn insert_only_after_first_header_and_normalizes_line_endings() {
    let source = "dependencies:  \r\na: 1\ndependencies:\nb: 2";
    let updated = insert_under_dependencies(source, "X\n").unwrap();
    assert_eq!(updated, "dependencies:  \nX\na: 1\ndependencies:\nb: 2\n");
}

#[test]
fn plan_add_reports_each_outcome() {
    assert!(matches!(
        plan_flutter_add("dependencies:\n  crepuscularity_flutter: ^1.0.0\n", None, "main"),
        FlutterAddPlan::AlreadyPresent
    ));
    assert!(matches!(
        plan_flutter_add("name: demo\n", None, "main"),
        FlutterAddPlan::MissingDependencies
    ));
    match plan_flutter_add("dependencies:\n", Some("0.2.0"), "main") {
        FlutterAddPlan::Updated(text) => {
            assert_eq!(text, "dependencies:\n  crepuscularity_flutter: ^0.2.0\n")
        }
        _ => panic!("expected an update"),
    }
}
