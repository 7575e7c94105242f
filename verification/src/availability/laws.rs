//! Which tools are missed, how they are looked for, and where the CodeLLDB adapter may be.

use vstd::prelude::*;

use crate::availability::{
    adapter_file, banner_rule, data_dir, dependency_lines, download_candidates,
    extension_candidates, extension_dirs, install_hint, probe_commands, tool_name, warning_lines,
    with_missing, DirEntry, TargetOs, ToolDependency,
};
use crate::paths::path_joined;
use crate::text::{decimal, has_prefix};

verus! {

/// Recording a dependency adds that one behind the others, once, and no other.
pub proof fn law_only_the_recorded_is_missing(
    deps: Seq<Seq<char>>,
    name: Seq<char>,
    other: Seq<char>,
)
    requires
        with_missing(deps, name).contains(other),
    ensures
        deps.contains(other) || other == name,
        deps.contains(name) ==> with_missing(deps, name) == deps,
        !deps.contains(name) ==> with_missing(deps, name) == deps.push(name),
{
}

/// Nothing is told where nothing is missing; else every dependency that is missing is told in its
/// order, with how it is installed in the line behind.
pub proof fn law_warnings(deps: Seq<Seq<char>>, i: int)
    ensures
        deps.len() == 0 <==> warning_lines(deps).len() == 0,
        0 <= i < deps.len() ==> {
            &&& warning_lines(deps).len() == 8 + 2 * deps.len()
            &&& warning_lines(deps)[5 + 2 * i] == "  \x1b[33m• "@ + deps[i] + "\x1b[0m"@
            &&& warning_lines(deps)[6 + 2 * i] == "    Install: "@ + install_hint(deps[i])
        },
{
    if deps.len() > 0 {
        let head = Seq::<Seq<char>>::empty().push(""@).push(
            banner_rule(),
        ).push(
            "\x1b[1;31m  WARNING: "@ + decimal(deps.len())
                + " TEST DEPENDENCIES MISSING\x1b[0m"@,
        ).push(banner_rule()).push(""@);
        lemma_dependency_lines(head, deps, deps.len());
    }
}

proof fn lemma_dependency_lines(head: Seq<Seq<char>>, deps: Seq<Seq<char>>, n: nat)
    requires
        n <= deps.len(),
    ensures
        ({
            let lines = dependency_lines(head, deps, n);
            &&& lines.len() == head.len() + 2 * n
            &&& forall|i: int|
                #![trigger deps[i]]
                0 <= i < n ==> lines[head.len() + 2 * i] == "  \x1b[33m• "@ + deps[i] + "\x1b[0m"@
                    && lines[head.len() + 2 * i + 1] == "    Install: "@ + install_hint(deps[i])
        }),
    decreases n,
{
    if n > 0 {
        lemma_dependency_lines(head, deps, (n - 1) as nat);
    }
}

/// A tool is looked for with a program of its own: one for each tool but the adapter of CodeLLDB,
/// which is looked for as a file, and three for the one of LLDB.
pub proof fn law_probes(tool: ToolDependency)
    ensures
        probe_commands(tool).len() == (match tool {
            ToolDependency::CodeLldb => 0nat,
            ToolDependency::LldbDap => 3nat,
            _ => 1nat,
        }),
        forall|i: int|
            0 <= i < probe_commands(tool).len() ==> (#[trigger] probe_commands(tool)[i]).len() >= 2,
        match tool {
            ToolDependency::Gopls => probe_commands(tool)[0][0] == tool_name(tool),
            ToolDependency::RustAnalyzer => probe_commands(tool)[0][0] == tool_name(tool),
            ToolDependency::Pylsp => probe_commands(tool)[0][0] == tool_name(tool),
            ToolDependency::Go => probe_commands(tool)[0][0] == tool_name(tool),
            ToolDependency::Rustc => probe_commands(tool)[0][0] == tool_name(tool),
            ToolDependency::LldbDap => probe_commands(tool)[1][0] == tool_name(tool),
            _ => true,
        },
{
}

/// The adapter of CodeLLDB is looked for in every extension that is one of CodeLLDB, and in no
/// other, in the order of the directory: an entry behind the others adds its own place.
pub proof fn law_extension_candidates(os: TargetOs, entries: Seq<DirEntry>, entry: DirEntry)
    ensures
        extension_candidates(os, Seq::empty(), 0).len() == 0,
        extension_candidates(os, entries.push(entry), entries.len() + 1) == (if has_prefix(
            entry.name@,
            "vadimcn.vscode-lldb"@,
        ) {
            extension_candidates(os, entries, entries.len()).push(
                path_joined(path_joined(entry.path@, "adapter"@), adapter_file(os)),
            )
        } else {
            extension_candidates(os, entries, entries.len())
        }),
{
    let longer = entries.push(entry);
    assert(longer[longer.len() - 1] == entry);
    lemma_extension_prefix(os, entries, longer, entries.len());
}

proof fn lemma_extension_prefix(
    os: TargetOs,
    entries: Seq<DirEntry>,
    longer: Seq<DirEntry>,
    n: nat,
)
    requires
        n <= entries.len() <= longer.len(),
        forall|i: int| 0 <= i < entries.len() ==> #[trigger] longer[i] == entries[i],
    ensures
        extension_candidates(os, longer, n) == extension_candidates(os, entries, n),
        download_candidates(os, longer, n) == download_candidates(os, entries, n),
    decreases n,
{
    if n > 0 {
        lemma_extension_prefix(os, entries, longer, (n - 1) as nat);
        assert(longer[n - 1] == entries[n - 1]);
    }
}

/// Of what was downloaded, every directory may hold the adapter, and nothing else, in the order of
/// the directory.
pub proof fn law_download_candidates(os: TargetOs, entries: Seq<DirEntry>, entry: DirEntry)
    ensures
        download_candidates(os, Seq::empty(), 0).len() == 0,
        download_candidates(os, entries.push(entry), entries.len() + 1) == (if entry.is_dir {
            download_candidates(os, entries, entries.len()).push(
                path_joined(
                    path_joined(path_joined(entry.path@, "extension"@), "adapter"@),
                    adapter_file(os),
                ),
            )
        } else {
            download_candidates(os, entries, entries.len())
        }),
{
    let longer = entries.push(entry);
    assert(longer[longer.len() - 1] == entry);
    lemma_extension_prefix(os, entries, longer, entries.len());
}

/// Without a home there are no extensions; with one the stable editor comes first, and only on
/// Linux the free build of it is looked at too. The adapter has an ending on Windows alone.
pub proof fn law_places(os: TargetOs, home: Option<Seq<char>>)
    ensures
        home is None ==> extension_dirs(os, home).len() == 0,
        home matches Some(h) ==> {
            &&& extension_dirs(os, home).len() == (if os == TargetOs::Linux {
                3nat
            } else {
                2nat
            })
            &&& extension_dirs(os, home)[0] == h + "/.vscode/extensions"@
            &&& extension_dirs(os, home)[1] == h + "/.vscode-insiders/extensions"@
            &&& os == TargetOs::Linux ==> extension_dirs(os, home)[2] == h
                + "/.vscode-oss/extensions"@
        },
        adapter_file(os) == (if os == TargetOs::Windows {
            "codelldb.exe"@
        } else {
            "codelldb"@
        }),
{
}

/// The directory for data that is set is taken as it is, but on macOS; without it and without a
/// home, it is the current one.
pub proof fn law_data_dirs(os: TargetOs, home: Option<Seq<char>>, data: Option<Seq<char>>)
    ensures
        os != TargetOs::MacOs && data is Some ==> data_dir(os, home, data) == data->0,
        os == TargetOs::MacOs ==> data_dir(os, home, data) == data_dir(os, home, None),
        home is None && (data is None || os == TargetOs::MacOs) ==> data_dir(os, home, data) == "."@,
{
}

} // verus!
