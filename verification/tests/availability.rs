use detrix_testing::availability::{
    codelldb_adapters_dir, codelldb_candidates, codelldb_extension_dirs, find_codelldb_path,
    get_install_hint, get_missing_dependencies, is_codelldb_available, is_python_lsp_available,
    print_missing_deps_warning, record_missing, require_tool, DirEntry, Directories,
    MissingDependencies, TargetOs, ToolDependency,
};

fn all_tools() -> Vec<ToolDependency> {
    vec![
        ToolDependency::Debugpy,
        ToolDependency::RustAnalyzer,
        ToolDependency::Gopls,
        ToolDependency::Delve,
        ToolDependency::LldbDap,
        ToolDependency::CodeLldb,
        ToolDependency::Pyright,
        ToolDependency::Pylsp,
        ToolDependency::Go,
        ToolDependency::Rustc,
    ]
}

#[test]
fn test_missing_deps_tracking() {
    let mut deps = MissingDependencies::new();
    record_missing(&mut deps, "test-tool");
    let missing = get_missing_dependencies(&deps);
    assert!(missing.contains(&"test-tool"));
}

#[test]
fn test_tool_dependency_enum() {
    for tool in all_tools() {
        let probes = tool.probes();
        let _ = tool.is_available(&vec![true; probes.len()]);
        let _ = tool.is_available(&vec![false; probes.len()]);
        assert!(!tool.name().is_empty());
        assert_eq!(probes.is_empty(), tool == ToolDependency::CodeLldb);
    }
}

#[test]
fn a_dependency_is_recorded_once() {
    let mut deps = MissingDependencies::new();
    record_missing(&mut deps, "gopls");
    record_missing(&mut deps, "delve");
    record_missing(&mut deps, "gopls");
    assert_eq!(get_missing_dependencies(&deps), vec!["gopls", "delve"]);
}

#[test]
fn probes_are_the_documented_commands() {
    assert_eq!(
        ToolDependency::Debugpy.probes(),
        vec![vec!["python3", "-c", "import debugpy; print(debugpy.__version__)"]]
    );
    assert_eq!(ToolDependency::LldbDap.probes().len(), 3);
    assert_eq!(ToolDependency::LldbDap.probes()[1], vec!["lldb-dap", "--help"]);
    assert_eq!(ToolDependency::Delve.probes(), vec![vec!["dlv", "version"]]);
    assert!(is_python_lsp_available(false, true));
    assert!(is_python_lsp_available(true, false));
    assert!(!is_python_lsp_available(false, false));
}

#[test]
fn every_tool_has_a_hint() {
    for tool in all_tools() {
        assert_ne!(get_install_hint(tool.name()), "(see documentation)");
    }
    assert_eq!(get_install_hint("rustc"), "https://rustup.rs");
    assert_eq!(get_install_hint("nothing"), "(see documentation)");
}

#[test]
fn a_missing_tool_skips_the_test() {
    let mut deps = MissingDependencies::new();
    let (run, lines) = require_tool(&mut deps, ToolDependency::Go, false);
    assert!(!run);
    assert_eq!(
        lines,
        vec![
            "\n\u{1b}[33m⚠ SKIPPING TEST: go not available\u{1b}[0m".to_string(),
            "  Install with: https://go.dev/doc/install\n".to_string(),
        ]
    );
    assert_eq!(get_missing_dependencies(&deps), vec!["go"]);
    let (run, lines) = require_tool(&mut deps, ToolDependency::Rustc, true);
    assert!(run);
    assert!(lines.is_empty());
    assert_eq!(get_missing_dependencies(&deps), vec!["go"]);
}

#[test]
fn the_warning_lists_what_is_missing() {
    let mut deps = MissingDependencies::new();
    assert!(print_missing_deps_warning(&deps).is_empty());
    record_missing(&mut deps, "gopls");
    let lines = print_missing_deps_warning(&deps);
    assert_eq!(lines.len(), 10);
    assert_eq!(lines[2], "\u{1b}[1;31m  WARNING: 1 TEST DEPENDENCIES MISSING\u{1b}[0m");
    assert_eq!(lines[5], "  \u{1b}[33m• gopls\u{1b}[0m");
    assert_eq!(lines[6], "    Install: go install golang.org/x/tools/gopls@latest");
}

fn dir(path: &str, name: &str, is_dir: bool) -> DirEntry {
    DirEntry { path: path.to_string(), name: name.to_string(), is_dir }
}

#[test]
fn the_adapter_is_looked_for_in_extensions_and_downloads() {
    let dirs = Directories { home: Some("/home/me".to_string()), data: None };
    assert_eq!(
        codelldb_extension_dirs(TargetOs::Linux, &dirs),
        vec![
            "/home/me/.vscode/extensions".to_string(),
            "/home/me/.vscode-insiders/extensions".to_string(),
            "/home/me/.vscode-oss/extensions".to_string(),
        ]
    );
    assert_eq!(codelldb_extension_dirs(TargetOs::MacOs, &dirs).len(), 2);
    assert_eq!(
        codelldb_adapters_dir(TargetOs::Linux, &dirs),
        "/home/me/.local/share/detrix/debug_adapters/CodeLLDB"
    );
    assert_eq!(
        codelldb_adapters_dir(TargetOs::MacOs, &dirs),
        "/home/me/Library/Application Support/detrix/debug_adapters/CodeLLDB"
    );
    let nowhere = Directories { home: None, data: None };
    assert!(codelldb_extension_dirs(TargetOs::Linux, &nowhere).is_empty());
    assert_eq!(
        codelldb_adapters_dir(TargetOs::Windows, &nowhere),
        "./detrix/debug_adapters/CodeLLDB"
    );

    let extensions = vec![
        dir("/x/other", "other", true),
        dir("/x/vadimcn.vscode-lldb-1.9", "vadimcn.vscode-lldb-1.9", true),
    ];
    let downloads = vec![dir("/d/file", "file", false), dir("/d/1.10", "1.10", true)];
    let places = codelldb_candidates(TargetOs::Linux, &extensions, &downloads);
    assert_eq!(
        places,
        vec![
            "/x/vadimcn.vscode-lldb-1.9/adapter/codelldb".to_string(),
            "/d/1.10/extension/adapter/codelldb".to_string(),
        ]
    );
    assert_eq!(find_codelldb_path(&places, &vec![false, true]), Some(places[1].clone()));
    assert_eq!(find_codelldb_path(&places, &vec![true, true]), Some(places[0].clone()));
    assert_eq!(find_codelldb_path(&places, &vec![false, false]), None);
    assert!(is_codelldb_available(&vec![false, true]));
    assert!(!is_codelldb_available(&vec![false, false]));
    let windows = codelldb_candidates(TargetOs::Windows, &extensions, &vec![]);
    assert_eq!(windows, vec!["/x/vadimcn.vscode-lldb-1.9/adapter/codelldb.exe".to_string()]);
}

#[test]
fn one_probe_that_succeeds_is_enough() {
    assert!(ToolDependency::LldbDap.is_available(&vec![false, true]));
    assert!(!ToolDependency::LldbDap.is_available(&vec![false, false, false]));
    assert!(!ToolDependency::CodeLldb.is_available(&Vec::new()));
}
