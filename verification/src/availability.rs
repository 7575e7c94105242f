//! Which tools a test needs, how to find out whether they are there, and what to say when they
//! are not.

use vstd::prelude::*;

use crate::paths::{join_path, path_joined};
use crate::text::{cat2, cat3, decimal, has_prefix, num_usize, same_text, starts_with, views};

pub mod laws;

verus! {

// ---------------------------------------------------------------------------
// Missing dependencies
// ---------------------------------------------------------------------------

/// The names of a list.
pub open spec fn names(list: Seq<&'static str>) -> Seq<Seq<char>> {
    list.map_values(|s: &'static str| s@)
}

/// The dependencies that were found missing, each once, in the order in which they were found.
#[derive(Debug)]
pub struct MissingDependencies {
    pub list: Vec<&'static str>,
}

impl View for MissingDependencies {
    type V = Seq<Seq<char>>;

    open spec fn view(&self) -> Seq<Seq<char>> {
        names(self.list@)
    }
}

/// The dependencies with one more, unless it is among them already.
pub open spec fn with_missing(deps: Seq<Seq<char>>, name: Seq<char>) -> Seq<Seq<char>> {
    if deps.contains(name) {
        deps
    } else {
        deps.push(name)
    }
}

impl MissingDependencies {
    /// No dependency is listed twice.
    pub open spec fn wf(&self) -> bool {
        self@.no_duplicates()
    }

    /// Nothing is missing yet.
    pub fn new() -> (r: Self)
        ensures
            r.wf(),
            r@ == Seq::<Seq<char>>::empty(),
    {
        let r = MissingDependencies { list: Vec::new() };
        assert(r@ =~= Seq::<Seq<char>>::empty());
        r
    }
}

/// Records a missing dependency.
pub fn record_missing(deps: &mut MissingDependencies, name: &'static str)
    requires
        old(deps).wf(),
    ensures
        final(deps).wf(),
        final(deps)@ == with_missing(old(deps)@, name@),
{
    let ghost before = deps@;
    let mut i: usize = 0;
    while i < deps.list.len()
        invariant
            i <= deps.list.len(),
            deps@ == before,
            old(deps)@ == before,
            before.no_duplicates(),
            forall|j: int| 0 <= j < i ==> before[j] != name@,
        decreases deps.list.len() - i,
    {
        assert(before[i as int] == deps.list@[i as int]@);
        if same_text(deps.list[i], name) {
            return;
        }
        i = i + 1;
    }
    assert(!before.contains(name@));
    deps.list.push(name);
    assert(deps@ =~= before.push(name@));
}

/// The missing dependencies.
pub fn get_missing_dependencies(deps: &MissingDependencies) -> (r: Vec<&'static str>)
    ensures
        names(r@) == deps@,
{
    let mut out: Vec<&'static str> = Vec::new();
    let mut i: usize = 0;
    while i < deps.list.len()
        invariant
            i <= deps.list.len(),
            out@ == deps.list@.subrange(0, i as int),
        decreases deps.list.len() - i,
    {
        out.push(deps.list[i]);
        i = i + 1;
        assert(out@ =~= deps.list@.subrange(0, i as int));
    }
    assert(out@ =~= deps.list@);
    out
}

/// A dependency that was recorded is among the missing ones, those recorded before stay, and
/// recording it again changes nothing.
pub proof fn law_recording(deps: Seq<Seq<char>>, name: Seq<char>, other: Seq<char>)
    ensures
        with_missing(deps, name).contains(name),
        deps.contains(other) ==> with_missing(deps, name).contains(other),
        with_missing(with_missing(deps, name), name) == with_missing(deps, name),
{
    if !deps.contains(name) {
        assert(deps.push(name)[deps.len() as int] == name);
        if deps.contains(other) {
            let k = choose|k: int| 0 <= k < deps.len() && deps[k] == other;
            assert(deps.push(name)[k] == other);
        }
    }
}

/// How a tool is installed.
pub open spec fn install_hint(name: Seq<char>) -> Seq<char> {
    if name == "debugpy"@ {
        "pip install debugpy"@
    } else if name == "rust-analyzer"@ {
        "rustup component add rust-analyzer"@
    } else if name == "gopls"@ {
        "go install golang.org/x/tools/gopls@latest"@
    } else if name == "delve"@ {
        "go install github.com/go-delve/delve/cmd/dlv@latest"@
    } else if name == "lldb-dap"@ {
        "brew install llvm (macOS) or apt install lldb (Linux)"@
    } else if name == "codelldb"@ {
        "Install CodeLLDB VSCode extension or run with Detrix auto-download"@
    } else if name == "pyright"@ {
        "npm install -g pyright"@
    } else if name == "pylsp"@ {
        "pip install python-lsp-server"@
    } else if name == "go"@ {
        "https://go.dev/doc/install"@
    } else if name == "rustc"@ {
        "https://rustup.rs"@
    } else {
        "(see documentation)"@
    }
}

/// How a tool is installed.
pub fn get_install_hint(name: &str) -> (r: &'static str)
    ensures
        r@ == install_hint(name@),
{
    if same_text(name, "debugpy") {
        "pip install debugpy"
    } else if same_text(name, "rust-analyzer") {
        "rustup component add rust-analyzer"
    } else if same_text(name, "gopls") {
        "go install golang.org/x/tools/gopls@latest"
    } else if same_text(name, "delve") {
        "go install github.com/go-delve/delve/cmd/dlv@latest"
    } else if same_text(name, "lldb-dap") {
        "brew install llvm (macOS) or apt install lldb (Linux)"
    } else if same_text(name, "codelldb") {
        "Install CodeLLDB VSCode extension or run with Detrix auto-download"
    } else if same_text(name, "pyright") {
        "npm install -g pyright"
    } else if same_text(name, "pylsp") {
        "pip install python-lsp-server"
    } else if same_text(name, "go") {
        "https://go.dev/doc/install"
    } else if same_text(name, "rustc") {
        "https://rustup.rs"
    } else {
        "(see documentation)"
    }
}

/// The rule above and below the title of the warning.
pub open spec fn banner_rule() -> Seq<char> {
    "\x1b[1;31m═══════════════════════════════════════════════════════════════\x1b[0m"@
}

/// The lines of the warning on the first `n` dependencies.
pub open spec fn dependency_lines(head: Seq<Seq<char>>, deps: Seq<Seq<char>>, n: nat) -> Seq<
    Seq<char>,
>
    decreases n,
{
    if n == 0 {
        head
    } else {
        dependency_lines(head, deps, (n - 1) as nat).push(
            "  \x1b[33m• "@ + deps[n - 1] + "\x1b[0m"@,
        ).push("    Install: "@ + install_hint(deps[n - 1]))
    }
}

/// The lines of the warning about missing dependencies; none where nothing is missing.
pub open spec fn warning_lines(deps: Seq<Seq<char>>) -> Seq<Seq<char>> {
    if deps.len() == 0 {
        Seq::empty()
    } else {
        dependency_lines(
            Seq::<Seq<char>>::empty().push(""@).push(banner_rule()).push(
                "\x1b[1;31m  WARNING: "@ + decimal(deps.len())
                    + " TEST DEPENDENCIES MISSING\x1b[0m"@,
            ).push(banner_rule()).push(""@),
            deps,
            deps.len(),
        ).push(""@).push(
            "\x1b[33mSome tests were SKIPPED. Install missing tools for full coverage.\x1b[0m"@,
        ).push(""@)
    }
}

fn put_line(lines: &mut Vec<String>, line: String)
    ensures
        views(final(lines)@) == views(old(lines)@).push(line@),
{
    lines.push(line);
    assert(views(lines@) =~= views(old(lines)@).push(line@));
}

/// The lines of the warning about missing dependencies, for the end of a test run.
pub fn print_missing_deps_warning(deps: &MissingDependencies) -> (r: Vec<String>)
    ensures
        views(r@) == warning_lines(deps@),
{
    let mut out: Vec<String> = Vec::new();
    assert(views(out@) =~= Seq::<Seq<char>>::empty());
    if deps.list.len() == 0 {
        return out;
    }
    let rule: &str = "\x1b[1;31m═══════════════════════════════════════════════════════════════\x1b[0m";
    put_line(&mut out, "".to_owned());
    put_line(&mut out, rule.to_owned());
    put_line(
        &mut out,
        cat3(
            "\x1b[1;31m  WARNING: ",
            num_usize(deps.list.len()).as_str(),
            " TEST DEPENDENCIES MISSING\x1b[0m",
        ),
    );
    put_line(&mut out, rule.to_owned());
    put_line(&mut out, "".to_owned());
    let ghost head = views(out@);
    let ghost all = deps@;
    let mut i: usize = 0;
    while i < deps.list.len()
        invariant
            i <= deps.list.len(),
            all == deps@,
            views(out@) == dependency_lines(head, all, i as nat),
        decreases deps.list.len() - i,
    {
        let name: &str = deps.list[i];
        assert(all[i as int] == name@);
        put_line(&mut out, cat3("  \x1b[33m• ", name, "\x1b[0m"));
        put_line(&mut out, cat2("    Install: ", get_install_hint(name)));
        i = i + 1;
    }
    put_line(&mut out, "".to_owned());
    put_line(
        &mut out,
        "\x1b[33mSome tests were SKIPPED. Install missing tools for full coverage.\x1b[0m".to_owned(),
    );
    put_line(&mut out, "".to_owned());
    out
}

// ---------------------------------------------------------------------------
// Tools
// ---------------------------------------------------------------------------

/// The tools that tests depend on.
#[derive(Debug, Clone, Copy, PartialEq, Eq, Structural)]
pub enum ToolDependency {
    Debugpy,
    RustAnalyzer,
    Gopls,
    Delve,
    LldbDap,
    CodeLldb,
    Pyright,
    Pylsp,
    Go,
    Rustc,
}

/// The name of a tool.
pub open spec fn tool_name(tool: ToolDependency) -> Seq<char> {
    match tool {
        ToolDependency::Debugpy => "debugpy"@,
        ToolDependency::RustAnalyzer => "rust-analyzer"@,
        ToolDependency::Gopls => "gopls"@,
        ToolDependency::Delve => "delve"@,
        ToolDependency::LldbDap => "lldb-dap"@,
        ToolDependency::CodeLldb => "codelldb"@,
        ToolDependency::Pyright => "pyright"@,
        ToolDependency::Pylsp => "pylsp"@,
        ToolDependency::Go => "go"@,
        ToolDependency::Rustc => "rustc"@,
    }
}

/// The commands of which one has to succeed if the tool is there: program and arguments. None
/// for the adapter that is looked for in the file system.
pub open spec fn probe_commands(tool: ToolDependency) -> Seq<Seq<Seq<char>>> {
    match tool {
        ToolDependency::Debugpy => seq![
            seq!["python3"@, "-c"@, "import debugpy; print(debugpy.__version__)"@],
        ],
        ToolDependency::RustAnalyzer => seq![seq!["rust-analyzer"@, "--version"@]],
        ToolDependency::Gopls => seq![seq!["gopls"@, "version"@]],
        ToolDependency::Delve => seq![seq!["dlv"@, "version"@]],
        ToolDependency::LldbDap => seq![
            seq!["/opt/homebrew/opt/llvm/bin/lldb-dap"@, "--help"@],
            seq!["lldb-dap"@, "--help"@],
            seq!["lldb-vscode"@, "--help"@],
        ],
        ToolDependency::CodeLldb => Seq::empty(),
        ToolDependency::Pyright => seq![seq!["pyright-langserver"@, "--version"@]],
        ToolDependency::Pylsp => seq![seq!["pylsp"@, "--version"@]],
        ToolDependency::Go => seq![seq!["go"@, "version"@]],
        ToolDependency::Rustc => seq![seq!["rustc"@, "--version"@]],
    }
}

/// The commands of a list.
pub open spec fn command_views(list: Seq<Vec<&'static str>>) -> Seq<Seq<Seq<char>>> {
    list.map_values(|c: Vec<&'static str>| names(c@))
}

fn command2(a: &'static str, b: &'static str) -> (r: Vec<&'static str>)
    ensures
        names(r@) == seq![a@, b@],
{
    let r: Vec<&'static str> = vec![a, b];
    assert(names(r@) =~= seq![a@, b@]);
    r
}

impl ToolDependency {
    /// The name of the tool.
    pub fn name(&self) -> (r: &'static str)
        ensures
            r@ == tool_name(*self),
    {
        match self {
            ToolDependency::Debugpy => "debugpy",
            ToolDependency::RustAnalyzer => "rust-analyzer",
            ToolDependency::Gopls => "gopls",
            ToolDependency::Delve => "delve",
            ToolDependency::LldbDap => "lldb-dap",
            ToolDependency::CodeLldb => "codelldb",
            ToolDependency::Pyright => "pyright",
            ToolDependency::Pylsp => "pylsp",
            ToolDependency::Go => "go",
            ToolDependency::Rustc => "rustc",
        }
    }

    /// The commands of which one has to succeed if the tool is there.
    pub fn probes(&self) -> (r: Vec<Vec<&'static str>>)
        ensures
            command_views(r@) == probe_commands(*self),
    {
        let mut r: Vec<Vec<&'static str>> = Vec::new();
        match self {
            ToolDependency::Debugpy => {
                let c: Vec<&'static str> = vec![
                    "python3",
                    "-c",
                    "import debugpy; print(debugpy.__version__)",
                ];
                assert(names(c@) =~= seq![
                    "python3"@,
                    "-c"@,
                    "import debugpy; print(debugpy.__version__)"@,
                ]);
                r.push(c);
            },
            ToolDependency::RustAnalyzer => r.push(command2("rust-analyzer", "--version")),
            ToolDependency::Gopls => r.push(command2("gopls", "version")),
            ToolDependency::Delve => r.push(command2("dlv", "version")),
            ToolDependency::LldbDap => {
                r.push(command2("/opt/homebrew/opt/llvm/bin/lldb-dap", "--help"));
                r.push(command2("lldb-dap", "--help"));
                r.push(command2("lldb-vscode", "--help"));
            },
            ToolDependency::CodeLldb => {},
            ToolDependency::Pyright => r.push(command2("pyright-langserver", "--version")),
            ToolDependency::Pylsp => r.push(command2("pylsp", "--version")),
            ToolDependency::Go => r.push(command2("go", "version")),
            ToolDependency::Rustc => r.push(command2("rustc", "--version")),
        }
        assert(command_views(r@) =~= probe_commands(*self));
        r
    }

    /// Whether the tool is there: one of its probes succeeded, or, for the adapter that is looked
    /// for in files, one of its places exists.
    pub fn is_available(&self, found: &Vec<bool>) -> (r: bool)
        ensures
            r == (first_existing(found@, 0) is Some),
    {
        is_codelldb_available(found)
    }
}

/// Whether a Python language server is there: either of the two will do.
pub fn is_python_lsp_available(pyright: bool, pylsp: bool) -> (r: bool)
    ensures
        r == (pyright || pylsp),
{
    pyright || pylsp
}

/// Decides whether a test that needs a tool runs. Where it does not, the tool is recorded as
/// missing, and the lines say what to install.
pub fn require_tool(deps: &mut MissingDependencies, tool: ToolDependency, available: bool) -> (r: (
    bool,
    Vec<String>,
))
    requires
        old(deps).wf(),
    ensures
        final(deps).wf(),
        r.0 == available,
        final(deps)@ == (if available {
            old(deps)@
        } else {
            with_missing(old(deps)@, tool_name(tool))
        }),
        views(r.1@) == (if available {
            Seq::empty()
        } else {
            Seq::<Seq<char>>::empty().push(
                "\n\x1b[33m⚠ SKIPPING TEST: "@ + tool_name(tool) + " not available\x1b[0m"@,
            ).push("  Install with: "@ + install_hint(tool_name(tool)) + "\n"@)
        }),
{
    let mut lines: Vec<String> = Vec::new();
    assert(views(lines@) =~= Seq::<Seq<char>>::empty());
    if available {
        return (true, lines);
    }
    let name: &'static str = tool.name();
    record_missing(deps, name);
    put_line(&mut lines, cat3("\n\x1b[33m⚠ SKIPPING TEST: ", name, " not available\x1b[0m"));
    put_line(&mut lines, cat3("  Install with: ", get_install_hint(name), "\n"));
    (false, lines)
}

// ---------------------------------------------------------------------------
// CodeLLDB
// ---------------------------------------------------------------------------

/// The systems that paths depend on.
#[derive(Debug, Clone, Copy, PartialEq, Eq, Structural)]
pub enum TargetOs {
    Linux,
    MacOs,
    Windows,
}

/// What the environment says about directories.
#[derive(Debug)]
pub struct Directories {
    /// `HOME`, or `USERPROFILE` on Windows.
    pub home: Option<String>,
    /// `XDG_DATA_HOME` on Linux, `LOCALAPPDATA` on Windows.
    pub data: Option<String>,
}

/// An entry of a directory.
#[derive(Debug)]
pub struct DirEntry {
    pub path: String,
    pub name: String,
    pub is_dir: bool,
}

/// The file name of the adapter.
pub open spec fn adapter_file(os: TargetOs) -> Seq<char> {
    if os == TargetOs::Windows {
        "codelldb.exe"@
    } else {
        "codelldb"@
    }
}

/// The directories that editor extensions are in.
pub open spec fn extension_dirs(os: TargetOs, home: Option<Seq<char>>) -> Seq<Seq<char>> {
    match home {
        Some(h) => if os == TargetOs::Linux {
            seq![
                h + "/.vscode/extensions"@,
                h + "/.vscode-insiders/extensions"@,
                h + "/.vscode-oss/extensions"@,
            ]
        } else {
            seq![h + "/.vscode/extensions"@, h + "/.vscode-insiders/extensions"@]
        },
        None => Seq::empty(),
    }
}

/// The directory that data of applications is in.
pub open spec fn data_dir(os: TargetOs, home: Option<Seq<char>>, data: Option<Seq<char>>) -> Seq<char> {
    match os {
        TargetOs::Linux => match data {
            Some(d) => d,
            None => match home {
                Some(h) => path_joined(path_joined(h, ".local"@), "share"@),
                None => "."@,
            },
        },
        TargetOs::MacOs => match home {
            Some(h) => path_joined(path_joined(h, "Library"@), "Application Support"@),
            None => "."@,
        },
        TargetOs::Windows => match data {
            Some(d) => d,
            None => match home {
                Some(h) => path_joined(path_joined(h, "AppData"@), "Local"@),
                None => "."@,
            },
        },
    }
}

/// The directory that downloaded adapters are in.
pub open spec fn adapters_dir(base: Seq<char>) -> Seq<char> {
    path_joined(path_joined(path_joined(base, "detrix"@), "debug_adapters"@), "CodeLLDB"@)
}

/// The adapters of the first `n` entries of an extension directory: those with the name of the
/// extension.
pub open spec fn extension_candidates(os: TargetOs, entries: Seq<DirEntry>, n: nat) -> Seq<Seq<char>>
    decreases n,
{
    if n == 0 {
        Seq::empty()
    } else {
        let rest = extension_candidates(os, entries, (n - 1) as nat);
        let e = entries[n - 1];
        if has_prefix(e.name@, "vadimcn.vscode-lldb"@) {
            rest.push(path_joined(path_joined(e.path@, "adapter"@), adapter_file(os)))
        } else {
            rest
        }
    }
}

/// The adapters of the first `n` entries of the directory of downloaded adapters: those that are
/// directories.
pub open spec fn download_candidates(os: TargetOs, entries: Seq<DirEntry>, n: nat) -> Seq<Seq<char>>
    decreases n,
{
    if n == 0 {
        Seq::empty()
    } else {
        let rest = download_candidates(os, entries, (n - 1) as nat);
        let e = entries[n - 1];
        if e.is_dir {
            rest.push(
                path_joined(
                    path_joined(path_joined(e.path@, "extension"@), "adapter"@),
                    adapter_file(os),
                ),
            )
        } else {
            rest
        }
    }
}

/// The file name of the adapter.
pub fn codelldb_file(os: TargetOs) -> (r: &'static str)
    ensures
        r@ == adapter_file(os),
{
    if os == TargetOs::Windows {
        "codelldb.exe"
    } else {
        "codelldb"
    }
}

/// The directories that editor extensions are in, in the order in which they are searched.
pub fn codelldb_extension_dirs(os: TargetOs, dirs: &Directories) -> (r: Vec<String>)
    ensures
        views(r@) == extension_dirs(os, crate::text::opt_view(dirs.home)),
{
    let mut r: Vec<String> = Vec::new();
    assert(views(r@) =~= Seq::<Seq<char>>::empty());
    match &dirs.home {
        Some(h) => {
            put_line(&mut r, cat2(h.as_str(), "/.vscode/extensions"));
            put_line(&mut r, cat2(h.as_str(), "/.vscode-insiders/extensions"));
            if os == TargetOs::Linux {
                put_line(&mut r, cat2(h.as_str(), "/.vscode-oss/extensions"));
            }
            assert(views(r@) =~= extension_dirs(os, Some(h@)));
        },
        None => {},
    }
    r
}

/// The directory that downloaded adapters are in.
pub fn codelldb_adapters_dir(os: TargetOs, dirs: &Directories) -> (r: String)
    ensures
        r@ == adapters_dir(
            data_dir(os, crate::text::opt_view(dirs.home), crate::text::opt_view(dirs.data)),
        ),
{
    let base: String = match os {
        TargetOs::Linux => match &dirs.data {
            Some(d) => d.clone(),
            None => match &dirs.home {
                Some(h) => join_path(join_path(h.as_str(), ".local").as_str(), "share"),
                None => ".".to_owned(),
            },
        },
        TargetOs::MacOs => match &dirs.home {
            Some(h) => join_path(
                join_path(h.as_str(), "Library").as_str(),
                "Application Support",
            ),
            None => ".".to_owned(),
        },
        TargetOs::Windows => match &dirs.data {
            Some(d) => d.clone(),
            None => match &dirs.home {
                Some(h) => join_path(join_path(h.as_str(), "AppData").as_str(), "Local"),
                None => ".".to_owned(),
            },
        },
    };
    let detrix: String = join_path(base.as_str(), "detrix");
    let adapters: String = join_path(detrix.as_str(), "debug_adapters");
    join_path(adapters.as_str(), "CodeLLDB")
}

/// Where the adapter may be, in the order in which the places are tried: in the extensions whose
/// directories were listed, then among the downloaded adapters.
pub fn codelldb_candidates(
    os: TargetOs,
    extensions: &Vec<DirEntry>,
    downloads: &Vec<DirEntry>,
) -> (r: Vec<String>)
    ensures
        views(r@) == extension_candidates(os, extensions@, extensions@.len())
            + download_candidates(os, downloads@, downloads@.len()),
{
    let file: &str = codelldb_file(os);
    let mut out: Vec<String> = Vec::new();
    assert(views(out@) =~= Seq::<Seq<char>>::empty());
    let mut i: usize = 0;
    while i < extensions.len()
        invariant
            i <= extensions.len(),
            file@ == adapter_file(os),
            views(out@) == extension_candidates(os, extensions@, i as nat),
        decreases extensions.len() - i,
    {
        if starts_with(extensions[i].name.as_str(), "vadimcn.vscode-lldb") {
            let dir: String = join_path(extensions[i].path.as_str(), "adapter");
            put_line(&mut out, join_path(dir.as_str(), file));
        }
        i = i + 1;
    }
    let ghost first = views(out@);
    let mut k: usize = 0;
    assert(first + download_candidates(os, downloads@, 0) =~= first);
    while k < downloads.len()
        invariant
            k <= downloads.len(),
            file@ == adapter_file(os),
            views(out@) == first + download_candidates(os, downloads@, k as nat),
        decreases downloads.len() - k,
    {
        if downloads[k].is_dir {
            let ext: String = join_path(downloads[k].path.as_str(), "extension");
            let dir: String = join_path(ext.as_str(), "adapter");
            put_line(&mut out, join_path(dir.as_str(), file));
            assert(views(out@) =~= first + download_candidates(os, downloads@, (k + 1) as nat));
        }
        k = k + 1;
    }
    out
}

/// The position of the first path that exists, from `i` on.
pub open spec fn first_existing(exists: Seq<bool>, i: nat) -> Option<nat>
    decreases exists.len() - i,
{
    if i >= exists.len() {
        None
    } else if exists[i as int] {
        Some(i)
    } else {
        first_existing(exists, i + 1)
    }
}

/// The first of several paths that exists; `exists` says of each whether it does.
pub fn pick_existing(paths: &Vec<String>, exists: &Vec<bool>) -> (r: Option<String>)
    requires
        paths.len() == exists.len(),
    ensures
        match first_existing(exists@, 0) {
            Some(k) => k < paths@.len() && r == Some(paths@[k as int]),
            None => r is None,
        },
{
    let mut i: usize = 0;
    while i < paths.len()
        invariant
            i <= paths.len(),
            paths.len() == exists.len(),
            first_existing(exists@, i as nat) == first_existing(exists@, 0),
        decreases paths.len() - i,
    {
        if exists[i] {
            return Some(paths[i].clone());
        }
        i = i + 1;
    }
    None
}

/// Where the adapter is: the first of the places where it may be that exists.
pub fn find_codelldb_path(candidates: &Vec<String>, exists: &Vec<bool>) -> (r: Option<String>)
    requires
        candidates.len() == exists.len(),
    ensures
        match first_existing(exists@, 0) {
            Some(k) => k < candidates@.len() && r == Some(candidates@[k as int]),
            None => r is None,
        },
{
    pick_existing(candidates, exists)
}

/// Whether the adapter is there: one of the places where it may be exists.
pub fn is_codelldb_available(exists: &Vec<bool>) -> (r: bool)
    ensures
        r == (first_existing(exists@, 0) is Some),
{
    let mut i: usize = 0;
    while i < exists.len()
        invariant
            i <= exists.len(),
            first_existing(exists@, i as nat) == first_existing(exists@, 0),
        decreases exists.len() - i,
    {
        if exists[i] {
            return true;
        }
        i = i + 1;
    }
    false
}

/// What is picked exists, and nothing before it does.
pub proof fn law_first_existing(exists: Seq<bool>, i: nat)
    ensures
        first_existing(exists, i) matches Some(k) ==> i <= k < exists.len() && exists[k as int]
            && forall|j: int| i <= j < k ==> !exists[j],
        first_existing(exists, i) is None ==> forall|j: int|
            i <= j < exists.len() ==> !exists[j],
    decreases exists.len() - i,
{
    if i < exists.len() && !exists[i as int] {
        law_first_existing(exists, i + 1);
    }
}

} // verus!
