//! How the client of a language is tested.

use vstd::prelude::*;

use crate::availability::ToolDependency;
use crate::process::{env_views, no_words, put_word};
use crate::text::{cat2, clone_opt, decimal, num, opt_view, same_text, views};

verus! {

/// The languages that there are clients for.
#[derive(Debug, Clone, Copy, PartialEq, Eq, Structural)]
pub enum ClientLanguage {
    Python,
    Go,
    Rust,
}

impl ClientLanguage {
    /// The name of the language.
    pub open spec fn name(self) -> Seq<char> {
        match self {
            ClientLanguage::Python => "Python"@,
            ClientLanguage::Go => "Go"@,
            ClientLanguage::Rust => "Rust"@,
        }
    }

    /// The name of the language in lowercase.
    pub open spec fn lower(self) -> Seq<char> {
        match self {
            ClientLanguage::Python => "python"@,
            ClientLanguage::Go => "go"@,
            ClientLanguage::Rust => "rust"@,
        }
    }

    /// The name of the language in uppercase.
    pub open spec fn upper(self) -> Seq<char> {
        match self {
            ClientLanguage::Python => "PYTHON"@,
            ClientLanguage::Go => "GO"@,
            ClientLanguage::Rust => "RUST"@,
        }
    }

    /// The program that runs a client.
    pub open spec fn command(self) -> Seq<char> {
        match self {
            ClientLanguage::Python => "uv"@,
            ClientLanguage::Go => "go"@,
            ClientLanguage::Rust => "cargo"@,
        }
    }

    /// The name of the language.
    pub fn display_name(&self) -> (r: &'static str)
        ensures
            r@ == self.name(),
    {
        match self {
            ClientLanguage::Python => "Python",
            ClientLanguage::Go => "Go",
            ClientLanguage::Rust => "Rust",
        }
    }

    /// The name of the language in lowercase.
    pub fn lower_name(&self) -> (r: &'static str)
        ensures
            r@ == self.lower(),
    {
        match self {
            ClientLanguage::Python => "python",
            ClientLanguage::Go => "go",
            ClientLanguage::Rust => "rust",
        }
    }

    /// The name of the language in uppercase.
    pub fn upper_name(&self) -> (r: &'static str)
        ensures
            r@ == self.upper(),
    {
        match self {
            ClientLanguage::Python => "PYTHON",
            ClientLanguage::Go => "GO",
            ClientLanguage::Rust => "RUST",
        }
    }

    /// The program that runs a client.
    pub fn spawn_command(&self) -> (r: &'static str)
        ensures
            r@ == self.command(),
    {
        match self {
            ClientLanguage::Python => "uv",
            ClientLanguage::Go => "go",
            ClientLanguage::Rust => "cargo",
        }
    }

    /// The tool that tests of the client need.
    pub fn tool_dependency(&self) -> (r: ToolDependency)
        ensures
            r == (match self {
                ClientLanguage::Python => ToolDependency::Debugpy,
                ClientLanguage::Go => ToolDependency::Delve,
                ClientLanguage::Rust => ToolDependency::LldbDap,
            }),
    {
        match self {
            ClientLanguage::Python => ToolDependency::Debugpy,
            ClientLanguage::Go => ToolDependency::Delve,
            ClientLanguage::Rust => ToolDependency::LldbDap,
        }
    }
}

// ---------------------------------------------------------------------------
// Variables
// ---------------------------------------------------------------------------

/// The position of a variable, from `i` on.
pub open spec fn var_index(vars: Seq<(Seq<char>, Seq<char>)>, key: Seq<char>, i: nat) -> Option<nat>
    decreases vars.len() - i,
{
    if i >= vars.len() {
        None
    } else if vars[i as int].0 == key {
        Some(i)
    } else {
        var_index(vars, key, i + 1)
    }
}

/// The value of a variable.
pub open spec fn var_value(vars: Seq<(Seq<char>, Seq<char>)>, key: Seq<char>) -> Option<Seq<char>> {
    match var_index(vars, key, 0) {
        Some(k) => Some(vars[k as int].1),
        None => None,
    }
}

/// The variables with one set.
pub open spec fn with_var(
    vars: Seq<(Seq<char>, Seq<char>)>,
    key: Seq<char>,
    value: Seq<char>,
) -> Seq<(Seq<char>, Seq<char>)> {
    match var_index(vars, key, 0) {
        Some(k) => vars.update(k as int, (key, value)),
        None => vars.push((key, value)),
    }
}

/// Variables of the environment and their values; no variable is there twice.
#[derive(Debug)]
pub struct EnvVars {
    pub entries: Vec<(String, String)>,
}

impl View for EnvVars {
    type V = Seq<(Seq<char>, Seq<char>)>;

    open spec fn view(&self) -> Seq<(Seq<char>, Seq<char>)> {
        env_views(self.entries@)
    }
}

/// No variable is there twice.
pub open spec fn vars_distinct(vars: Seq<(Seq<char>, Seq<char>)>) -> bool {
    forall|i: int, j: int| 0 <= i < j < vars.len() ==> (#[trigger] vars[i]).0 != (#[trigger] vars[j]).0
}

proof fn lemma_var_index(vars: Seq<(Seq<char>, Seq<char>)>, key: Seq<char>, i: nat)
    ensures
        var_index(vars, key, i) matches Some(k) ==> i <= k < vars.len() && vars[k as int].0 == key,
        var_index(vars, key, i) is None ==> forall|j: int|
            i <= j < vars.len() ==> (#[trigger] vars[j]).0 != key,
    decreases vars.len() - i,
{
    if i < vars.len() && vars[i as int].0 != key {
        lemma_var_index(vars, key, i + 1);
    }
}

proof fn lemma_var_index_is(vars: Seq<(Seq<char>, Seq<char>)>, key: Seq<char>, i: nat, k: nat)
    requires
        i <= k < vars.len(),
        vars[k as int].0 == key,
        vars_distinct(vars),
    ensures
        var_index(vars, key, i) == Some(k),
    decreases k - i,
{
    if i < k {
        assert(vars[i as int].0 != vars[k as int].0);
        lemma_var_index_is(vars, key, i + 1, k);
    }
}

impl EnvVars {
    /// No variable is there twice.
    pub open spec fn wf(&self) -> bool {
        vars_distinct(self@)
    }

    /// No variables.
    pub fn new() -> (r: Self)
        ensures
            r.wf(),
            r@ == Seq::<(Seq<char>, Seq<char>)>::empty(),
    {
        let r = EnvVars { entries: Vec::new() };
        assert(r@ =~= Seq::<(Seq<char>, Seq<char>)>::empty());
        r
    }

    fn find(&self, key: &str) -> (r: Option<usize>)
        ensures
            match r {
                Some(k) => var_index(self@, key@, 0) == Some(k as nat) && k < self.entries.len(),
                None => var_index(self@, key@, 0) is None,
            },
    {
        let mut i: usize = 0;
        while i < self.entries.len()
            invariant
                i <= self.entries.len(),
                var_index(self@, key@, i as nat) == var_index(self@, key@, 0),
            decreases self.entries.len() - i,
        {
            assert(self@[i as int] == (self.entries@[i as int].0@, self.entries@[i as int].1@));
            if same_text(self.entries[i].0.as_str(), key) {
                return Some(i);
            }
            i = i + 1;
        }
        None
    }

    /// Sets a variable.
    pub fn insert(&mut self, key: &str, value: &str)
        requires
            old(self).wf(),
        ensures
            final(self).wf(),
            final(self)@ == with_var(old(self)@, key@, value@),
    {
        let ghost before = self@;
        let entry: (String, String) = (key.to_owned(), value.to_owned());
        proof {
            lemma_var_index(before, key@, 0);
        }
        match self.find(key) {
            Some(k) => {
                self.entries.set(k, entry);
                assert(self@ =~= before.update(k as int, (key@, value@)));
            },
            None => {
                self.entries.push(entry);
                assert(self@ =~= before.push((key@, value@)));
            },
        }
    }

    /// The value of a variable.
    pub fn get(&self, key: &str) -> (r: Option<&str>)
        ensures
            crate::text::opt_str_view(r) == var_value(self@, key@),
    {
        match self.find(key) {
            Some(k) => {
                assert(self@[k as int].1 == self.entries@[k as int].1@);
                Some(self.entries[k].1.as_str())
            },
            None => None,
        }
    }

    /// Whether a variable is set.
    pub fn contains_key(&self, key: &str) -> (r: bool)
        ensures
            r == (var_value(self@, key@) is Some),
    {
        self.find(key).is_some()
    }

    /// A copy of the variables.
    pub fn duplicate(&self) -> (r: Self)
        ensures
            r@ == self@,
            self.wf() ==> r.wf(),
    {
        let mut out: Vec<(String, String)> = Vec::new();
        let mut i: usize = 0;
        while i < self.entries.len()
            invariant
                i <= self.entries.len(),
                out@.len() == i,
                forall|j: int|
                    0 <= j < i ==> (#[trigger] out@[j]).0@ == self.entries@[j].0@ && out@[j].1@
                        == self.entries@[j].1@,
            decreases self.entries.len() - i,
        {
            out.push((self.entries[i].0.clone(), self.entries[i].1.clone()));
            i = i + 1;
        }
        let r = EnvVars { entries: out };
        assert(r@ =~= self@);
        r
    }
}

/// A variable that is set has the value that it was set to, and no other variable changes.
pub proof fn law_env_insert(
    vars: Seq<(Seq<char>, Seq<char>)>,
    key: Seq<char>,
    value: Seq<char>,
    other: Seq<char>,
)
    requires
        vars_distinct(vars),
    ensures
        var_value(with_var(vars, key, value), key) == Some(value),
        other != key ==> var_value(with_var(vars, key, value), other) == var_value(vars, other),
        vars_distinct(with_var(vars, key, value)),
{
    lemma_var_index(vars, key, 0);
    lemma_var_index(vars, other, 0);
    let after = with_var(vars, key, value);
    assert(vars_distinct(after));
    match var_index(vars, key, 0) {
        Some(k) => lemma_var_index_is(after, key, 0, k),
        None => lemma_var_index_is(after, key, 0, vars.len()),
    }
    if other != key {
        lemma_var_index(after, other, 0);
        match var_index(vars, other, 0) {
            Some(k) => {
                assert(after[k as int] == vars[k as int]);
                lemma_var_index_is(after, other, 0, k);
            },
            None => {
                match var_index(after, other, 0) {
                    Some(k) => {
                        if k < vars.len() {
                            assert(vars[k as int].0 != other);
                        }
                    },
                    None => {},
                }
            },
        }
    }
}

// ---------------------------------------------------------------------------
// Configuration
// ---------------------------------------------------------------------------

/// How the client of a language is tested: what to run, where, and with which variables. Paths
/// are relative to the root of the workspace.
#[derive(Debug)]
pub struct ClientTestConfig {
    pub language: ClientLanguage,
    pub fixture_path: String,
    pub working_dir: String,
    /// Arguments before the fixture.
    pub spawn_args_before: Vec<String>,
    /// Arguments behind the fixture.
    pub spawn_args_after: Vec<String>,
    pub env_vars: EnvVars,
    pub test_name: String,
    /// The binary that is built beforehand and then run, if there is one.
    pub compiled_binary: Option<String>,
}

/// The mathematical counterpart of [`ClientTestConfig`].
pub struct ConfigView {
    pub language: ClientLanguage,
    pub fixture_path: Seq<char>,
    pub working_dir: Seq<char>,
    pub before: Seq<Seq<char>>,
    pub after: Seq<Seq<char>>,
    pub env: Seq<(Seq<char>, Seq<char>)>,
    pub test_name: Seq<char>,
    pub compiled_binary: Option<Seq<char>>,
}

impl View for ClientTestConfig {
    type V = ConfigView;

    open spec fn view(&self) -> ConfigView {
        ConfigView {
            language: self.language,
            fixture_path: self.fixture_path@,
            working_dir: self.working_dir@,
            before: views(self.spawn_args_before@),
            after: views(self.spawn_args_after@),
            env: self.env_vars@,
            test_name: self.test_name@,
            compiled_binary: opt_view(self.compiled_binary),
        }
    }
}

/// The variables that a client is started with.
pub open spec fn spawn_env(
    env: Seq<(Seq<char>, Seq<char>)>,
    daemon_url: Seq<char>,
    control_port: u16,
) -> Seq<(Seq<char>, Seq<char>)> {
    with_var(
        with_var(
            with_var(env, "DETRIX_DAEMON_URL"@, daemon_url),
            "DETRIX_CONTROL_PORT"@,
            decimal(control_port as nat),
        ),
        "DETRIX_CLIENT_NAME"@,
        "test-client"@,
    )
}

/// The program and the arguments that start a client.
pub open spec fn spawn_args(c: ConfigView, fixture: Seq<char>) -> (Seq<char>, Seq<Seq<char>>) {
    match c.compiled_binary {
        Some(b) => ("./"@ + b, Seq::empty()),
        None => (c.language.command(), c.before.push(fixture) + c.after),
    }
}

/// The program and the arguments that build a client, where it has to be built.
pub open spec fn prebuild_args(c: ConfigView, fixture: Seq<char>) -> Option<
    (Seq<char>, Seq<Seq<char>>),
> {
    match c.language {
        ClientLanguage::Rust => Some(
            (c.language.command(), seq!["build"@, "--manifest-path"@, fixture] + c.after),
        ),
        ClientLanguage::Go => Some(
            (
                c.language.command(),
                match c.compiled_binary {
                    Some(b) => seq!["build"@, "-gcflags=all=-N -l"@, "-o"@, b, "."@],
                    None => seq!["build"@, "-gcflags=all=-N -l"@, "."@],
                },
            ),
        ),
        ClientLanguage::Python => None,
    }
}

fn words2(a: &str, b: &str) -> (r: Vec<String>)
    ensures
        views(r@) == seq![a@, b@],
{
    let mut r: Vec<String> = no_words();
    put_word(&mut r, a);
    put_word(&mut r, b);
    assert(views(r@) =~= seq![a@, b@]);
    r
}

fn put_words(list: &mut Vec<String>, more: &Vec<String>)
    ensures
        views(final(list)@) == views(old(list)@) + views(more@),
{
    let mut i: usize = 0;
    assert(views(list@) + views(more@).subrange(0, 0) =~= views(list@));
    while i < more.len()
        invariant
            i <= more.len(),
            views(list@) == views(old(list)@) + views(more@).subrange(0, i as int),
        decreases more.len() - i,
    {
        put_word(list, more[i].as_str());
        i = i + 1;
        assert(views(list@) =~= views(old(list)@) + views(more@).subrange(0, i as int));
    }
    assert(views(more@).subrange(0, more@.len() as int) =~= views(more@));
}

fn enabled_env() -> (r: EnvVars)
    ensures
        r.wf(),
        r@ == seq![("DETRIX_CLIENT_ENABLED"@, "1"@)],
{
    let mut r = EnvVars::new();
    r.insert("DETRIX_CLIENT_ENABLED", "1");
    assert(r@ =~= seq![("DETRIX_CLIENT_ENABLED"@, "1"@)]);
    r
}

impl ClientTestConfig {
    /// No variable is set twice.
    pub open spec fn wf(&self) -> bool {
        self.env_vars.wf()
    }

    /// The Python client: the fixture is run in the virtual environment of the project.
    pub fn python() -> (r: Self)
        ensures
            r.wf(),
            r@ == (ConfigView {
                language: ClientLanguage::Python,
                fixture_path: "fixtures/python/trade_bot_forever.py"@,
                working_dir: "clients/python"@,
                before: seq!["run"@, "python"@],
                after: Seq::empty(),
                env: seq![("DETRIX_CLIENT_ENABLED"@, "1"@)],
                test_name: "Python Client"@,
                compiled_binary: None,
            }),
    {
        ClientTestConfig {
            language: ClientLanguage::Python,
            fixture_path: "fixtures/python/trade_bot_forever.py".to_owned(),
            working_dir: "clients/python".to_owned(),
            spawn_args_before: words2("run", "python"),
            spawn_args_after: no_words(),
            env_vars: enabled_env(),
            test_name: "Python Client".to_owned(),
            compiled_binary: None,
        }
    }

    /// The Go client: the fixture is compiled with debug symbols, and its binary is run.
    pub fn go() -> (r: Self)
        ensures
            r.wf(),
            r@ == (ConfigView {
                language: ClientLanguage::Go,
                fixture_path: "fixtures/go/string_capture"@,
                working_dir: "fixtures/go/string_capture"@,
                before: Seq::empty(),
                after: Seq::empty(),
                env: seq![("DETRIX_CLIENT_ENABLED"@, "1"@)],
                test_name: "Go Client"@,
                compiled_binary: Some("detrix_example_app"@),
            }),
    {
        ClientTestConfig {
            language: ClientLanguage::Go,
            fixture_path: "fixtures/go/string_capture".to_owned(),
            working_dir: "fixtures/go/string_capture".to_owned(),
            spawn_args_before: no_words(),
            spawn_args_after: no_words(),
            env_vars: enabled_env(),
            test_name: "Go Client".to_owned(),
            compiled_binary: Some("detrix_example_app".to_owned()),
        }
    }

    /// The Rust client: the fixture is run with the feature that holds the client. It is given
    /// two minutes to register, because the daemon answers only when the debugger is attached.
    pub fn rust() -> (r: Self)
        ensures
            r.wf(),
            r@ == (ConfigView {
                language: ClientLanguage::Rust,
                fixture_path: "fixtures/rust/Cargo.toml"@,
                working_dir: "fixtures/rust"@,
                before: seq!["run"@, "--manifest-path"@],
                after: seq!["--features"@, "client"@],
                env: seq![
                    ("DETRIX_CLIENT_ENABLED"@, "1"@),
                    ("DETRIX_REGISTER_TIMEOUT"@, "120"@),
                ],
                test_name: "Rust Client"@,
                compiled_binary: None,
            }),
    {
        proof {
            reveal_strlit("DETRIX_CLIENT_ENABLED");
            reveal_strlit("DETRIX_REGISTER_TIMEOUT");
        }
        let mut env_vars: EnvVars = enabled_env();
        assert("DETRIX_CLIENT_ENABLED"@.len() != "DETRIX_REGISTER_TIMEOUT"@.len());
        proof {
            lemma_var_index(env_vars@, "DETRIX_REGISTER_TIMEOUT"@, 0);
        }
        env_vars.insert("DETRIX_REGISTER_TIMEOUT", "120");
        assert(env_vars@ =~= seq![
            ("DETRIX_CLIENT_ENABLED"@, "1"@),
            ("DETRIX_REGISTER_TIMEOUT"@, "120"@),
        ]);
        ClientTestConfig {
            language: ClientLanguage::Rust,
            fixture_path: "fixtures/rust/Cargo.toml".to_owned(),
            working_dir: "fixtures/rust".to_owned(),
            spawn_args_before: words2("run", "--manifest-path"),
            spawn_args_after: words2("--features", "client"),
            env_vars,
            test_name: "Rust Client".to_owned(),
            compiled_binary: None,
        }
    }

    /// The variables that a client is started with: those of the configuration, the daemon, the
    /// port of the control plane, and the name of the client.
    pub fn build_env_vars(&self, daemon_url: &str, control_port: u16) -> (r: EnvVars)
        requires
            self.wf(),
        ensures
            r.wf(),
            r@ == spawn_env(self@.env, daemon_url@, control_port),
    {
        let mut env: EnvVars = self.env_vars.duplicate();
        env.insert("DETRIX_DAEMON_URL", daemon_url);
        env.insert("DETRIX_CONTROL_PORT", num(control_port as u64).as_str());
        env.insert("DETRIX_CLIENT_NAME", "test-client");
        env
    }

    /// The program and the arguments that build the client, where it has to be built.
    pub fn build_prebuild_args(&self, fixture_full_path: &str) -> (r: Option<(String, Vec<String>)>)
        ensures
            (match r {
                Some(c) => Some((c.0@, views(c.1@))),
                None => None,
            }) == prebuild_args(self@, fixture_full_path@),
    {
        match self.language {
            ClientLanguage::Rust => {
                let mut args: Vec<String> = words2("build", "--manifest-path");
                put_word(&mut args, fixture_full_path);
                assert(views(args@) =~= seq![
                    "build"@,
                    "--manifest-path"@,
                    fixture_full_path@,
                ]);
                put_words(&mut args, &self.spawn_args_after);
                Some((self.language.spawn_command().to_owned(), args))
            },
            ClientLanguage::Go => {
                let mut args: Vec<String> = words2("build", "-gcflags=all=-N -l");
                match &self.compiled_binary {
                    Some(b) => {
                        put_word(&mut args, "-o");
                        put_word(&mut args, b.as_str());
                    },
                    None => {},
                }
                put_word(&mut args, ".");
                assert(views(args@) =~= prebuild_args(self@, fixture_full_path@).unwrap().1);
                Some((self.language.spawn_command().to_owned(), args))
            },
            ClientLanguage::Python => None,
        }
    }

    /// The program and the arguments that start the client: its binary, if it was compiled, or
    /// the program of the language with the fixture between the arguments.
    pub fn build_spawn_args(&self, fixture_full_path: &str) -> (r: (String, Vec<String>))
        ensures
            (r.0@, views(r.1@)) == spawn_args(self@, fixture_full_path@),
    {
        match &self.compiled_binary {
            Some(b) => (cat2("./", b.as_str()), no_words()),
            None => {
                let mut args: Vec<String> = no_words();
                put_words(&mut args, &self.spawn_args_before);
                assert(views(args@) =~= views(self.spawn_args_before@));
                put_word(&mut args, fixture_full_path);
                put_words(&mut args, &self.spawn_args_after);
                (self.language.spawn_command().to_owned(), args)
            },
        }
    }

    /// A copy of the configuration.
    pub fn duplicate(&self) -> (r: Self)
        ensures
            r@ == self@,
            self.wf() ==> r.wf(),
    {
        let mut before: Vec<String> = no_words();
        put_words(&mut before, &self.spawn_args_before);
        let mut after: Vec<String> = no_words();
        put_words(&mut after, &self.spawn_args_after);
        let r = ClientTestConfig {
            language: self.language,
            fixture_path: self.fixture_path.clone(),
            working_dir: self.working_dir.clone(),
            spawn_args_before: before,
            spawn_args_after: after,
            env_vars: self.env_vars.duplicate(),
            test_name: self.test_name.clone(),
            compiled_binary: clone_opt(&self.compiled_binary),
        };
        assert(r@.before =~= self@.before);
        assert(r@.after =~= self@.after);
        r
    }
}

/// Whatever is configured, a client is started with the daemon, the port and the name that were
/// asked for, and every other variable keeps its value.
pub proof fn law_spawn_env(
    env: Seq<(Seq<char>, Seq<char>)>,
    daemon_url: Seq<char>,
    control_port: u16,
    other: Seq<char>,
)
    requires
        vars_distinct(env),
    ensures
        ({
            let all = spawn_env(env, daemon_url, control_port);
            &&& var_value(all, "DETRIX_DAEMON_URL"@) == Some(daemon_url)
            &&& var_value(all, "DETRIX_CONTROL_PORT"@) == Some(decimal(control_port as nat))
            &&& var_value(all, "DETRIX_CLIENT_NAME"@) == Some("test-client"@)
            &&& other != "DETRIX_DAEMON_URL"@ && other != "DETRIX_CONTROL_PORT"@ && other
                != "DETRIX_CLIENT_NAME"@ ==> var_value(all, other) == var_value(env, other)
        }),
{
    reveal_strlit("DETRIX_DAEMON_URL");
    reveal_strlit("DETRIX_CONTROL_PORT");
    reveal_strlit("DETRIX_CLIENT_NAME");
    let url = "DETRIX_DAEMON_URL"@;
    let port = "DETRIX_CONTROL_PORT"@;
    let name = "DETRIX_CLIENT_NAME"@;
    assert(url.len() == 17 && port.len() == 19 && name.len() == 18);
    let a = with_var(env, url, daemon_url);
    let b = with_var(a, port, decimal(control_port as nat));
    law_env_insert(env, url, daemon_url, other);
    law_env_insert(a, port, decimal(control_port as nat), other);
    law_env_insert(a, port, decimal(control_port as nat), url);
    law_env_insert(b, name, "test-client"@, other);
    law_env_insert(b, name, "test-client"@, url);
    law_env_insert(b, name, "test-client"@, port);
}

} // verus!
