//! The executor of a test: where binaries, logs and records of processes are, which ports are
//! used, and how the daemon and the debuggers are started and stopped.

use vstd::prelude::*;

use crate::paths::{extension, extension_of, file_name, join_path, name_of, path_joined};
use crate::port_registry::{is_reserved, is_system_reserved_port};
use crate::process::{make_command, no_words, plain_command, put_word, CommandLine};
use crate::text::{
    cat2, cat3, cat4, cat5, debug_opt_text, decimal, format_debug_opt, has_prefix, lines, lowercase,
    num, num_signed, num_usize, opt_str_view, opt_view, parse_i32, parse_u32, parsed_signed,
    parsed_unsigned, same_text, signed_decimal, split_lines, split_words, starts_with, to_lowercase,
    trim, trimmed, views, words,
};

pub mod daemon;
pub mod debuggers;
pub mod kills;
pub mod laws;
pub mod waiting;

verus! {

// ---------------------------------------------------------------------------
// Records of processes
// ---------------------------------------------------------------------------

/// The directory that records of test processes are in.
pub open spec fn pid_dir() -> Seq<char> {
    "/tmp/detrix_e2e_pids"@
}

/// The directory that records of test processes are in.
pub fn e2e_pid_dir() -> (r: &'static str)
    ensures
        r@ == pid_dir(),
{
    "/tmp/detrix_e2e_pids"
}

/// The file that records a process.
pub open spec fn pid_file(name: Seq<char>, pid: u32) -> Seq<char> {
    path_joined(pid_dir(), name + "_"@ + decimal(pid as nat) + ".pid"@)
}

/// A file and what it is to hold.
#[derive(Debug)]
pub struct ProcessRecord {
    pub path: String,
    pub content: String,
}

/// The record of a process, so that it can be killed if it is left behind.
pub fn register_e2e_process(name: &str, pid: u32) -> (r: ProcessRecord)
    ensures
        r.path@ == pid_file(name@, pid),
        r.content@ == decimal(pid as nat) + "\n"@,
{
    ProcessRecord {
        path: unregister_e2e_process(name, pid),
        content: cat2(num(pid as u64).as_str(), "\n"),
    }
}

/// The file to remove when a process was killed on purpose.
pub fn unregister_e2e_process(name: &str, pid: u32) -> (r: String)
    ensures
        r@ == pid_file(name@, pid),
{
    let file: String = cat4(name, "_", num(pid as u64).as_str(), ".pid");
    join_path("/tmp/detrix_e2e_pids", file.as_str())
}

/// The number of the process that a record is about.
pub open spec fn recorded_pid(content: Seq<char>) -> Option<int> {
    parsed_signed(trimmed(content), i32::MIN as int, i32::MAX as int)
}

/// Whether a file of the directory of records is a record, given its extension.
pub fn is_record(extension: &Option<String>) -> (r: bool)
    ensures
        r == (opt_view(*extension) == Some("pid"@)),
{
    match extension {
        Some(e) => same_text(e.as_str(), "pid"),
        None => false,
    }
}

/// What to do about a file that an earlier run left behind.
#[derive(Debug)]
pub struct OrphanCleanup {
    /// Whether the file is a record, and so is to be removed.
    pub remove: bool,
    /// The process to kill if it still runs.
    pub pid: Option<i32>,
    /// What to say before it is killed.
    pub notice: String,
}

/// What to do about a file of the directory of records; `content` is what it holds, if it can
/// be read.
pub fn orphan_cleanup(path: &str, content: Option<&str>) -> (r: OrphanCleanup)
    ensures
        r.remove == (extension(path@) == Some("pid"@)),
        ({
            let pid = match opt_str_view(content) {
                Some(c) => if r.remove {
                    recorded_pid(c)
                } else {
                    None
                },
                None => None,
            };
            &&& r.pid is Some <==> pid is Some
            &&& r.pid matches Some(p) ==> pid == Some(p as int)
            &&& r.notice@ == (match pid {
                Some(p) => "[e2e cleanup] Killing orphaned process "@ + signed_decimal(p)
                    + " from "@ + debug_opt_text(file_name(path@)),
                None => ""@,
            })
        }),
{
    let ext: Option<String> = extension_of(path);
    let remove: bool = is_record(&ext);
    if !remove {
        return OrphanCleanup { remove, pid: None, notice: "".to_owned() };
    }
    match content {
        Some(c) => match parse_i32(trim(c).as_str()) {
            Some(p) => {
                let name: Option<String> = name_of(path);
                let notice: String = cat4(
                    "[e2e cleanup] Killing orphaned process ",
                    num_signed(p as i64).as_str(),
                    " from ",
                    format_debug_opt(&name).as_str(),
                );
                OrphanCleanup { remove, pid: Some(p), notice }
            },
            None => OrphanCleanup { remove, pid: None, notice: "".to_owned() },
        },
        None => OrphanCleanup { remove, pid: None, notice: "".to_owned() },
    }
}

/// A process that was recorded is found again in its record.
pub proof fn law_record_round_trip(pid: u32)
    requires
        pid <= i32::MAX,
    ensures
        recorded_pid(decimal(pid as nat) + "\n"@) == Some(pid as int),
{
    lemma_trim_decimal_line(pid as nat);
    crate::text::law_decimal_round_trip(pid as nat, i32::MAX as nat);
    crate::text::lemma_decimal_digits(pid as nat);
}

proof fn lemma_trim_decimal_line(n: nat)
    ensures
        trimmed(decimal(n) + "\n"@) == decimal(n),
{
    reveal_strlit("\n");
    crate::text::lemma_decimal_digits(n);
    let d = decimal(n);
    let s = d + "\n"@;
    assert(s[0] == d[0]);
    assert(crate::text::leading_spaces(s) == 0);
    assert(crate::text::trim_start(s) =~= s);
    assert(s.last() == '\n');
    assert(s.drop_last() =~= d);
    assert(!crate::text::is_space(d.last()));
    assert(crate::text::trim_end(d) =~= d);
    assert(crate::text::trim_end(s) =~= d);
    assert(crate::text::leading_spaces(d) == 0);
}

// ---------------------------------------------------------------------------
// Binaries
// ---------------------------------------------------------------------------

/// The directories that binaries are built in, in the order in which they are tried.
pub open spec fn target_dirs(
    target_dir: Option<Seq<char>>,
    home: Option<Seq<char>>,
    root: Seq<char>,
) -> Seq<Seq<char>> {
    let first = match target_dir {
        Some(t) => Seq::<Seq<char>>::empty().push(t),
        None => Seq::empty(),
    };
    let second = match home {
        Some(h) => first.push(path_joined(h, "detrix/target"@)),
        None => first,
    };
    second.push(path_joined(root, "target"@))
}

/// The directories that binaries are built in, in the order in which they are tried: what
/// `CARGO_TARGET_DIR` says, the one below the home directory, and the one of the workspace.
pub fn get_target_candidates(target_dir: Option<&str>, home: Option<&str>, root: &str) -> (r: Vec<
    String,
>)
    ensures
        views(r@) == target_dirs(opt_str_view(target_dir), opt_str_view(home), root@),
{
    let mut r: Vec<String> = no_words();
    match target_dir {
        Some(t) => put_word(&mut r, t),
        None => {},
    }
    match home {
        Some(h) => put_word(&mut r, join_path(h, "detrix/target").as_str()),
        None => {},
    }
    put_word(&mut r, join_path(root, "target").as_str());
    r
}

/// A file in each of the first `n` directories.
pub open spec fn in_each(head: Seq<Seq<char>>, dirs: Seq<Seq<char>>, file: Seq<char>, n: nat) -> Seq<
    Seq<char>,
>
    decreases n,
{
    if n == 0 {
        head
    } else {
        in_each(head, dirs, file, (n - 1) as nat).push(path_joined(dirs[n - 1], file))
    }
}

/// Where the binary under test may be, in the order in which the places are tried.
pub open spec fn binary_places(explicit: Option<Seq<char>>, dirs: Seq<Seq<char>>) -> Seq<Seq<char>> {
    let head = match explicit {
        Some(p) => Seq::<Seq<char>>::empty().push(p),
        None => Seq::empty(),
    };
    in_each(in_each(head, dirs, "release/detrix"@, dirs.len()), dirs, "debug/detrix"@, dirs.len())
}

fn put_in_each(list: &mut Vec<String>, dirs: &Vec<String>, file: &str)
    ensures
        views(final(list)@) == in_each(views(old(list)@), views(dirs@), file@, dirs@.len()),
{
    let ghost head = views(list@);
    let mut i: usize = 0;
    while i < dirs.len()
        invariant
            i <= dirs.len(),
            views(list@) == in_each(head, views(dirs@), file@, i as nat),
        decreases dirs.len() - i,
    {
        assert(views(dirs@)[i as int] == dirs@[i as int]@);
        put_word(list, join_path(dirs[i].as_str(), file).as_str());
        i = i + 1;
    }
}

/// Where the binary under test may be, in the order in which the places are tried: the explicit
/// place, then the release builds, then the debug builds. The first that exists is it.
pub fn find_detrix_binary(explicit: Option<&str>, dirs: &Vec<String>) -> (r: Vec<String>)
    ensures
        views(r@) == binary_places(opt_str_view(explicit), views(dirs@)),
{
    let mut r: Vec<String> = no_words();
    match explicit {
        Some(p) => put_word(&mut r, p),
        None => {},
    }
    put_in_each(&mut r, dirs, "release/detrix");
    put_in_each(&mut r, dirs, "debug/detrix");
    r
}

proof fn lemma_in_each(head: Seq<Seq<char>>, dirs: Seq<Seq<char>>, file: Seq<char>, n: nat)
    ensures
        in_each(head, dirs, file, n).len() == head.len() + n,
        forall|i: int|
            0 <= i < head.len() ==> #[trigger] in_each(head, dirs, file, n)[i] == head[i],
        forall|i: int|
            0 <= i < n ==> #[trigger] in_each(head, dirs, file, n)[head.len() + i] == path_joined(
                dirs[i],
                file,
            ),
    decreases n,
{
    if n > 0 {
        lemma_in_each(head, dirs, file, (n - 1) as nat);
        let rest = in_each(head, dirs, file, (n - 1) as nat);
        let all = in_each(head, dirs, file, n);
        assert forall|i: int| 0 <= i < n implies #[trigger] all[head.len() + i] == path_joined(
            dirs[i],
            file,
        ) by {
            if i < n - 1 {
                assert(all[head.len() + i] == rest[head.len() + i]);
            }
        }
        assert forall|i: int| 0 <= i < head.len() implies #[trigger] all[i] == head[i] by {
            assert(all[i] == rest[i]);
        }
    }
}

/// An explicit binary is tried before all others, and every release build is tried before every
/// debug build.
pub proof fn law_binary_order(explicit: Option<Seq<char>>, dirs: Seq<Seq<char>>, i: int, j: int)
    requires
        0 <= i < dirs.len(),
        0 <= j < dirs.len(),
    ensures
        ({
            let places = binary_places(explicit, dirs);
            let first: int = if explicit is Some {
                1
            } else {
                0
            };
            &&& places.len() == first + 2 * dirs.len()
            &&& explicit matches Some(p) ==> places[0] == p
            &&& places[first + i] == path_joined(dirs[i], "release/detrix"@)
            &&& places[first + dirs.len() + j] == path_joined(dirs[j], "debug/detrix"@)
        }),
{
    let head = match explicit {
        Some(p) => Seq::<Seq<char>>::empty().push(p),
        None => Seq::empty(),
    };
    lemma_in_each(head, dirs, "release/detrix"@, dirs.len());
    let released = in_each(head, dirs, "release/detrix"@, dirs.len());
    lemma_in_each(released, dirs, "debug/detrix"@, dirs.len());
    let places = binary_places(explicit, dirs);
    assert(places[head.len() + i] == released[head.len() + i]);
    assert(places[released.len() + j] == path_joined(dirs[j], "debug/detrix"@));
}

// ---------------------------------------------------------------------------
// Ports
// ---------------------------------------------------------------------------

/// The next port to try for each use, and the ports that were given out.
#[derive(Debug)]
pub struct PortCounters {
    pub http: u16,
    pub grpc: u16,
    pub debugpy: u16,
    pub delve: u16,
    pub lldb: u16,
    pub codelldb: u16,
    pub given: Vec<u16>,
}

/// The mathematical counterpart of [`PortCounters`].
pub struct CountersView {
    pub http: u16,
    pub grpc: u16,
    pub debugpy: u16,
    pub delve: u16,
    pub lldb: u16,
    pub codelldb: u16,
    pub given: Seq<u16>,
}

impl View for PortCounters {
    type V = CountersView;

    open spec fn view(&self) -> CountersView {
        CountersView {
            http: self.http,
            grpc: self.grpc,
            debugpy: self.debugpy,
            delve: self.delve,
            lldb: self.lldb,
            codelldb: self.codelldb,
            given: self.given@,
        }
    }
}

/// How far the ports of a run are shifted: from 0 to 9990, in steps of 10.
pub open spec fn port_offset(pid: u32, millis: Option<u64>) -> int {
    let m = match millis {
        Some(m) => m as int,
        None => 12345,
    };
    (pid * m) % 0x1_0000_0000_0000_0000 % 1000 * 10
}

/// The counters of a run.
pub open spec fn initial_counters(pid: u32, millis: Option<u64>) -> CountersView {
    let offset = port_offset(pid, millis);
    CountersView {
        http: (8000 + offset) as u16,
        grpc: (50000 + offset) as u16,
        debugpy: (5000 + offset) as u16,
        delve: (7100 + offset) as u16,
        lldb: (7600 + offset) as u16,
        codelldb: (8100 + offset) as u16,
        given: Seq::empty(),
    }
}

/// The counters of a run; the process and the time (in milliseconds, if it is known) choose how
/// far its ports are shifted, so that two runs hardly collide.
pub fn init_port_counters(pid: u32, millis: Option<u64>) -> (r: PortCounters)
    ensures
        r@ == initial_counters(pid, millis),
{
    let m: u64 = match millis {
        Some(m) => m,
        None => 12345,
    };
    let a: u128 = pid as u128;
    let b: u128 = m as u128;
    assert(0 <= a * b <= 0xffff_ffff * 0xffff_ffff_ffff_ffff) by (nonlinear_arith)
        requires
            a <= 0xffff_ffff,
            b <= 0xffff_ffff_ffff_ffff,
    ;
    let seed: u128 = a * b % 0x1_0000_0000_0000_0000;
    let offset: u16 = (seed % 1000) as u16 * 10;
    PortCounters {
        http: 8000 + offset,
        grpc: 50000 + offset,
        debugpy: 5000 + offset,
        delve: 7100 + offset,
        lldb: 7600 + offset,
        codelldb: 8100 + offset,
        given: Vec::new(),
    }
}

/// How many ports are tried.
pub const SEARCH_RANGE: u16 = 100;

/// A port some way above another, or the highest port.
pub open spec fn port_above(base: u16, offset: nat) -> u16 {
    if base + offset > u16::MAX {
        u16::MAX
    } else {
        (base + offset) as u16
    }
}

/// The ports to try among the first `n` from a base on: those that no service of the system
/// uses.
pub open spec fn ports_to_try(base: u16, n: nat) -> Seq<u16>
    decreases n,
{
    if n == 0 {
        Seq::empty()
    } else {
        let rest = ports_to_try(base, (n - 1) as nat);
        let port = port_above(base, (n - 1) as nat);
        if is_reserved(port) {
            rest
        } else {
            rest.push(port)
        }
    }
}

/// The ports to try from a base on, in order: as many are searched, however many attempts are
/// asked for. The first that can be bound is the one to use.
pub fn find_available_port(base: u16, _max_attempts: u16) -> (r: Vec<u16>)
    ensures
        r@ == ports_to_try(base, SEARCH_RANGE as nat),
{
    let mut out: Vec<u16> = Vec::new();
    let mut i: u16 = 0;
    while i < SEARCH_RANGE
        invariant
            i <= SEARCH_RANGE,
            out@ == ports_to_try(base, i as nat),
        decreases SEARCH_RANGE - i,
    {
        let port: u16 = if i > u16::MAX - base {
            u16::MAX
        } else {
            base + i
        };
        if !is_system_reserved_port(port) {
            out.push(port);
        }
        i = i + 1;
    }
    out
}

/// The message where none of the ports from a base on can be bound.
pub open spec fn no_port_text(base: u16) -> Seq<char> {
    "Could not find available port in range "@ + decimal(base as nat) + "-"@ + decimal(
        port_above(base, SEARCH_RANGE as nat) as nat,
    )
        + ". Ports may be exhausted or blocked by firewall. Try closing other applications or restarting."@
}

/// The message where none of the ports from a base on can be bound.
pub fn no_port_message(base: u16) -> (r: String)
    ensures
        r@ == no_port_text(base),
{
    let end: u16 = if SEARCH_RANGE > u16::MAX - base {
        u16::MAX
    } else {
        base + SEARCH_RANGE
    };
    cat5(
        "Could not find available port in range ",
        num(base as u64).as_str(),
        "-",
        num(end as u64).as_str(),
        ". Ports may be exhausted or blocked by firewall. Try closing other applications or restarting.",
    )
}

/// The ports of a list that were not given out.
pub open spec fn not_given(ports: Seq<u16>, given: Seq<u16>) -> Seq<u16>
    decreases ports.len(),
{
    if ports.len() == 0 {
        Seq::empty()
    } else {
        let rest = not_given(ports.drop_last(), given);
        if given.contains(ports.last()) {
            rest
        } else {
            rest.push(ports.last())
        }
    }
}

/// The ports to try from a base on where some were given out.
pub open spec fn fresh_ports(base: u16, given: Seq<u16>) -> Seq<u16> {
    not_given(ports_to_try(base, SEARCH_RANGE as nat), given)
}

/// Ports to try, in order, and the port that the search begins at.
#[derive(Debug)]
pub struct PortOffer {
    pub base: u16,
    pub ports: Vec<u16>,
}

fn was_given(given: &Vec<u16>, port: u16) -> (r: bool)
    ensures
        r == given@.contains(port),
{
    let mut i: usize = 0;
    while i < given.len()
        invariant
            i <= given.len(),
            forall|j: int| 0 <= j < i ==> given@[j] != port,
        decreases given.len() - i,
    {
        if given[i] == port {
            assert(given@[i as int] == port);
            return true;
        }
        i = i + 1;
    }
    false
}

fn offer(base: u16, given: &Vec<u16>) -> (r: PortOffer)
    ensures
        r.base == base,
        r.ports@ == fresh_ports(base, given@),
{
    let all: Vec<u16> = find_available_port(base, 10);
    let mut ports: Vec<u16> = Vec::new();
    let mut i: usize = 0;
    assert(all@.take(0) =~= Seq::empty());
    while i < all.len()
        invariant
            i <= all.len(),
            ports@ == not_given(all@.take(i as int), given@),
        decreases all.len() - i,
    {
        assert(all@.take(i + 1).drop_last() =~= all@.take(i as int));
        if !was_given(given, all[i]) {
            ports.push(all[i]);
        }
        i = i + 1;
    }
    assert(all@.take(all@.len() as int) =~= all@);
    PortOffer { base, ports }
}

/// The first port of a list that can be bound and was not given out.
pub open spec fn first_bindable(ports: Seq<u16>, bindable: Seq<bool>, given: Seq<u16>) -> Option<u16>
    decreases ports.len(),
{
    if ports.len() == 0 {
        None
    } else if bindable[0] && !given.contains(ports[0]) {
        Some(ports[0])
    } else {
        first_bindable(ports.drop_first(), bindable.drop_first(), given)
    }
}

/// Gives out the first of the ports on offer that can be bound, and remembers it; `bindable` says
/// of each whether it can. A port that was given out since the offer was made is passed over.
/// Where there is none, nothing is given out, and the message says so.
pub fn take_port(counters: &mut PortCounters, offer: &PortOffer, bindable: &Vec<bool>) -> (r:
    Result<u16, String>)
    requires
        offer.ports.len() == bindable.len(),
    ensures
        match first_bindable(offer.ports@, bindable@, old(counters)@.given) {
            Some(port) => r == Ok::<u16, String>(port) && final(counters)@ == (CountersView {
                given: old(counters)@.given.push(port),
                ..old(counters)@
            }),
            None => r matches Err(message) && message@ == no_port_text(offer.base)
                && final(counters)@ == old(counters)@,
        },
        old(counters)@.given.no_duplicates() ==> final(counters)@.given.no_duplicates(),
{
    let mut i: usize = 0;
    assert(offer.ports@.skip(0) =~= offer.ports@);
    assert(bindable@.skip(0) =~= bindable@);
    while i < offer.ports.len()
        invariant
            i <= offer.ports.len(),
            offer.ports.len() == bindable.len(),
            *counters == *old(counters),
            first_bindable(
                offer.ports@.skip(i as int),
                bindable@.skip(i as int),
                counters@.given,
            ) == first_bindable(offer.ports@, bindable@, counters@.given),
        decreases offer.ports.len() - i,
    {
        assert(offer.ports@.skip(i as int).drop_first() =~= offer.ports@.skip(i + 1));
        assert(bindable@.skip(i as int).drop_first() =~= bindable@.skip(i + 1));
        if bindable[i] && !was_given(&counters.given, offer.ports[i]) {
            let port: u16 = offer.ports[i];
            counters.given.push(port);
            return Ok(port);
        }
        i = i + 1;
    }
    Err(no_port_message(offer.base))
}

/// A counter after a port was taken from it.
pub open spec fn bumped(counter: u16) -> u16 {
    ((counter + 10) % 0x1_0000) as u16
}

/// The ports to try for the HTTP API, without those that were given out; the next call is about ports
/// further on.
pub fn get_http_port(counters: &mut PortCounters) -> (r: PortOffer)
    ensures
        r.base == old(counters)@.http,
        r.ports@ == fresh_ports(r.base, old(counters)@.given),
        final(counters)@ == (CountersView {
            http: bumped(old(counters)@.http),
            ..old(counters)@
        }),
{
    let base: u16 = counters.http;
    counters.http = base.wrapping_add(10);
    offer(base, &counters.given)
}

/// The ports to try for the gRPC API, without those that were given out; the next call is about ports
/// further on.
pub fn get_grpc_port(counters: &mut PortCounters) -> (r: PortOffer)
    ensures
        r.base == old(counters)@.grpc,
        r.ports@ == fresh_ports(r.base, old(counters)@.given),
        final(counters)@ == (CountersView {
            grpc: bumped(old(counters)@.grpc),
            ..old(counters)@
        }),
{
    let base: u16 = counters.grpc;
    counters.grpc = base.wrapping_add(10);
    offer(base, &counters.given)
}

/// The ports to try for debugpy, without those that were given out; the next call is about ports
/// further on.
pub fn get_debugpy_port(counters: &mut PortCounters) -> (r: PortOffer)
    ensures
        r.base == old(counters)@.debugpy,
        r.ports@ == fresh_ports(r.base, old(counters)@.given),
        final(counters)@ == (CountersView {
            debugpy: bumped(old(counters)@.debugpy),
            ..old(counters)@
        }),
{
    let base: u16 = counters.debugpy;
    counters.debugpy = base.wrapping_add(10);
    offer(base, &counters.given)
}

/// The ports to try for delve, without those that were given out; the next call is about ports
/// further on.
pub fn get_delve_port(counters: &mut PortCounters) -> (r: PortOffer)
    ensures
        r.base == old(counters)@.delve,
        r.ports@ == fresh_ports(r.base, old(counters)@.given),
        final(counters)@ == (CountersView {
            delve: bumped(old(counters)@.delve),
            ..old(counters)@
        }),
{
    let base: u16 = counters.delve;
    counters.delve = base.wrapping_add(10);
    offer(base, &counters.given)
}

/// The ports to try for lldb-dap, without those that were given out; the next call is about ports
/// further on.
pub fn get_lldb_port(counters: &mut PortCounters) -> (r: PortOffer)
    ensures
        r.base == old(counters)@.lldb,
        r.ports@ == fresh_ports(r.base, old(counters)@.given),
        final(counters)@ == (CountersView {
            lldb: bumped(old(counters)@.lldb),
            ..old(counters)@
        }),
{
    let base: u16 = counters.lldb;
    counters.lldb = base.wrapping_add(10);
    offer(base, &counters.given)
}

/// The ports to try for CodeLLDB, without those that were given out; the next call is about ports
/// further on.
pub fn get_codelldb_port(counters: &mut PortCounters) -> (r: PortOffer)
    ensures
        r.base == old(counters)@.codelldb,
        r.ports@ == fresh_ports(r.base, old(counters)@.given),
        final(counters)@ == (CountersView {
            codelldb: bumped(old(counters)@.codelldb),
            ..old(counters)@
        }),
{
    let base: u16 = counters.codelldb;
    counters.codelldb = base.wrapping_add(10);
    offer(base, &counters.given)
}

/// The ports of a list that were not given out are ports of the list, and were not given out.
proof fn lemma_not_given(ports: Seq<u16>, given: Seq<u16>, port: u16)
    ensures
        not_given(ports, given).contains(port) <==> ports.contains(port) && !given.contains(port),
    decreases ports.len(),
{
    if ports.len() > 0 {
        let rest = not_given(ports.drop_last(), given);
        let all = not_given(ports, given);
        lemma_not_given(ports.drop_last(), given, port);
        if rest.contains(port) {
            let k = choose|k: int| 0 <= k < rest.len() && rest[k] == port;
            assert(all[k] == port);
        }
        if ports.drop_last().contains(port) {
            let k = choose|k: int|
                0 <= k < ports.drop_last().len() && ports.drop_last()[k] == port;
            assert(ports[k] == port);
        }
        if ports.contains(port) && !ports.drop_last().contains(port) {
            let k = choose|k: int| 0 <= k < ports.len() && ports[k] == port;
            if k < ports.len() - 1 {
                assert(ports.drop_last()[k] == port);
            }
            assert(ports.last() == port);
        }
        if ports.last() == port && !given.contains(port) {
            assert(all[all.len() - 1] == port);
        }
        if all.contains(port) && !rest.contains(port) {
            let k = choose|k: int| 0 <= k < all.len() && all[k] == port;
            if k < rest.len() {
                assert(rest[k] == port);
            }
            assert(port == ports.last());
            assert(ports[ports.len() - 1] == port);
        }
    } else {
        assert(ports =~= Seq::empty());
    }
}

/// Counters follow on others by a call: it lists ports, or it gives one out.
pub open spec fn follows(before: CountersView, after: CountersView) -> bool {
    after.given == before.given || exists|port: u16|
        after.given == #[trigger] before.given.push(port)
}

/// The counters of a run, call by call.
pub open spec fn is_counter_run(states: Seq<CountersView>) -> bool {
    forall|i: int| 0 <= i < states.len() - 1 ==> follows(#[trigger] states[i], states[i + 1])
}

proof fn lemma_run_remembers(states: Seq<CountersView>, i: int, j: int)
    requires
        is_counter_run(states),
        0 <= i <= j < states.len(),
    ensures
        states[i].given.is_prefix_of(states[j].given),
    decreases j - i,
{
    if i < j {
        lemma_run_remembers(states, i, j - 1);
        assert(follows(states[j - 1], states[j - 1 + 1]));
    }
}

/// A port that was given out is never on offer again, for whatever use: however many calls lie
/// between, no later list holds it. `i` is the state after the port was given out, `j` the one in
/// which the later list is asked for, and `base` where that begins.
pub proof fn law_ports_are_unique(
    states: Seq<CountersView>,
    i: int,
    j: int,
    port: u16,
    base: u16,
)
    requires
        is_counter_run(states),
        0 <= i <= j < states.len(),
        states[i].given.contains(port),
    ensures
        !fresh_ports(base, states[j].given).contains(port),
{
    lemma_run_remembers(states, i, j);
    let k = choose|k: int| 0 <= k < states[i].given.len() && states[i].given[k] == port;
    assert(states[j].given[k] == port);
    lemma_not_given(ports_to_try(base, SEARCH_RANGE as nat), states[j].given, port);
}

/// The port that is given out is the lowest of those that are searched that can be bound, that no
/// service of the system is known to use and that was not given out; and there is none only where
/// no port is all of this. `free` says which ports can be bound.
pub proof fn law_given_port(
    base: u16,
    given: Seq<u16>,
    bindable: Seq<bool>,
    free: spec_fn(u16) -> bool,
)
    requires
        base + SEARCH_RANGE <= 0x1_0000,
        bindable.len() == fresh_ports(base, given).len(),
        forall|i: int|
            0 <= i < bindable.len() ==> #[trigger] bindable[i] == free(fresh_ports(base, given)[i]),
    ensures
        match first_bindable(fresh_ports(base, given), bindable, given) {
            Some(port) => is_candidate(base, given, free, port) && forall|p: u16|
                p < port ==> !#[trigger] is_candidate(base, given, free, p),
            None => forall|p: u16| !#[trigger] is_candidate(base, given, free, p),
        },
{
    let ports = fresh_ports(base, given);
    let all = ports_to_try(base, SEARCH_RANGE as nat);
    lemma_ascending(base, SEARCH_RANGE as nat);
    lemma_not_given_ascending(all, given);
    assert forall|i: int| 0 <= i < ports.len() implies !given.contains(#[trigger] ports[i]) by {
        lemma_not_given(all, given, ports[i]);
        assert(ports.contains(ports[i]));
    }
    lemma_first_bindable(ports, bindable, given);
    assert forall|p: u16| #[trigger]
        ports.contains(p) <==> base <= p < base + SEARCH_RANGE && !is_reserved(p)
        && !given.contains(p) by {
        lemma_not_given(all, given, p);
        lemma_ports_to_try_holds(base, SEARCH_RANGE as nat, p);
    }
    match first_bindable(ports, bindable, given) {
        Some(port) => {
            let k = choose|k: int|
                0 <= k < ports.len() && ports[k] == port && bindable[k] && forall|j: int|
                    0 <= j < k ==> !#[trigger] bindable[j];
            assert(ports.contains(port));
            assert(bindable[k] == free(fresh_ports(base, given)[k]));
            assert(is_candidate(base, given, free, port));
            assert forall|p: u16| p < port implies !#[trigger] is_candidate(base, given, free, p) by {
                if is_candidate(base, given, free, p) {
                    assert(ports.contains(p));
                    let j = choose|j: int| 0 <= j < ports.len() && ports[j] == p;
                    if j >= k {
                        assert(ports[k] <= ports[j]);
                    }
                    assert(!bindable[j]);
                }
            }
        },
        None => {
            assert forall|p: u16| !#[trigger] is_candidate(base, given, free, p) by {
                if is_candidate(base, given, free, p) {
                    assert(ports.contains(p));
                    let j = choose|j: int| 0 <= j < ports.len() && ports[j] == p;
                    assert(!bindable[j]);
                }
            }
        },
    }
}

/// A port is among those that are searched, can be bound, is used by no service of the system, and
/// was not given out.
pub open spec fn is_candidate(
    base: u16,
    given: Seq<u16>,
    free: spec_fn(u16) -> bool,
    port: u16,
) -> bool {
    &&& base <= port < base + SEARCH_RANGE
    &&& !is_reserved(port)
    &&& !given.contains(port)
    &&& free(port)
}

proof fn lemma_first_bindable(ports: Seq<u16>, bindable: Seq<bool>, given: Seq<u16>)
    requires
        ports.len() == bindable.len(),
        forall|i: int| 0 <= i < ports.len() ==> !given.contains(#[trigger] ports[i]),
    ensures
        match first_bindable(ports, bindable, given) {
            Some(port) => exists|k: int|
                0 <= k < ports.len() && ports[k] == port && bindable[k] && forall|j: int|
                    0 <= j < k ==> !#[trigger] bindable[j],
            None => forall|j: int| 0 <= j < bindable.len() ==> !#[trigger] bindable[j],
        },
    decreases ports.len(),
{
    if ports.len() > 0 {
        if bindable[0] {
            assert(ports[0] == ports[0] && bindable[0]);
        } else {
            let p = ports.drop_first();
            let b = bindable.drop_first();
            assert forall|i: int| 0 <= i < p.len() implies !given.contains(#[trigger] p[i]) by {
                assert(p[i] == ports[i + 1]);
            }
            lemma_first_bindable(p, b, given);
            match first_bindable(p, b, given) {
                Some(port) => {
                    let k = choose|k: int|
                        0 <= k < p.len() && p[k] == port && b[k] && forall|j: int|
                            0 <= j < k ==> !#[trigger] b[j];
                    assert(ports[k + 1] == port && bindable[k + 1]);
                    assert forall|j: int| 0 <= j < k + 1 implies !#[trigger] bindable[j] by {
                        if j > 0 {
                            assert(b[j - 1] == bindable[j]);
                        }
                    }
                },
                None => {
                    assert forall|j: int| 0 <= j < bindable.len() implies !#[trigger] bindable[j] by {
                        if j > 0 {
                            assert(b[j - 1] == bindable[j]);
                        }
                    }
                },
            }
        }
    }
}

proof fn lemma_ports_to_try_holds(base: u16, n: nat, port: u16)
    requires
        base + n <= 0x1_0000,
    ensures
        ports_to_try(base, n).contains(port) <==> base <= port < base + n && !is_reserved(port),
    decreases n,
{
    if n > 0 {
        let rest = ports_to_try(base, (n - 1) as nat);
        let all = ports_to_try(base, n);
        let last = port_above(base, (n - 1) as nat);
        lemma_ports_to_try_holds(base, (n - 1) as nat, port);
        if rest.contains(port) {
            let k = choose|k: int| 0 <= k < rest.len() && rest[k] == port;
            assert(all[k] == port);
        }
        if port == last && !is_reserved(last) {
            assert(all[all.len() - 1] == port);
        }
        if all.contains(port) && !rest.contains(port) {
            let k = choose|k: int| 0 <= k < all.len() && all[k] == port;
            if k < rest.len() {
                assert(rest[k] == port);
            }
        }
    }
}

/// The numbers of a list rise.
spec fn ascending(ports: Seq<u16>) -> bool {
    forall|i: int, j: int| 0 <= i < j < ports.len() ==> ports[i] < ports[j]
}

proof fn lemma_ascending(base: u16, n: nat)
    requires
        base + n <= 0x1_0000,
    ensures
        ascending(ports_to_try(base, n)),
    decreases n,
{
    if n > 0 {
        let rest = ports_to_try(base, (n - 1) as nat);
        lemma_ascending(base, (n - 1) as nat);
        assert forall|i: int| 0 <= i < rest.len() implies #[trigger] rest[i] < base + n - 1 by {
            law_ports_to_try(base, (n - 1) as nat, i);
        }
    }
}

proof fn lemma_not_given_ascending(ports: Seq<u16>, given: Seq<u16>)
    requires
        ascending(ports),
    ensures
        ascending(not_given(ports, given)),
    decreases ports.len(),
{
    if ports.len() > 0 {
        let head = ports.drop_last();
        let rest = not_given(head, given);
        lemma_not_given_ascending(head, given);
        assert forall|i: int| 0 <= i < rest.len() implies #[trigger] rest[i] < ports.last() by {
            lemma_not_given(head, given, rest[i]);
            assert(rest.contains(rest[i]));
            let k = choose|k: int| 0 <= k < head.len() && head[k] == rest[i];
            assert(ports[k] < ports[ports.len() - 1]);
        }
    }
}

/// The ports that are tried lie from the base on, among as many ports as are searched, and no
/// service of the system is known to use them.
pub proof fn law_ports_to_try(base: u16, n: nat, i: int)
    requires
        0 <= i < ports_to_try(base, n).len(),
    ensures
        base <= ports_to_try(base, n)[i],
        ports_to_try(base, n)[i] < base + n,
        !is_reserved(ports_to_try(base, n)[i]),
    decreases n,
{
    if n > 0 {
        let rest = ports_to_try(base, (n - 1) as nat);
        if i < rest.len() {
            law_ports_to_try(base, (n - 1) as nat, i);
        }
    }
}

/// Counters that were taken from a number of times.
pub open spec fn advanced(counter: u16, times: nat) -> int {
    counter + 10 * times
}

/// Each use can take 34 bases before it comes to the first base of the next use above it, except
/// the HTTP API, which comes to that of CodeLLDB after 10.
pub proof fn law_port_ranges(pid: u32, millis: Option<u64>, times: nat)
    requires
        times <= 34,
    ensures
        ({
            let c = initial_counters(pid, millis);
            &&& 5000 <= c.debugpy
            &&& advanced(c.debugpy, times) < c.delve
            &&& advanced(c.delve, times) < c.lldb
            &&& advanced(c.lldb, times) < c.http
            &&& times < 10 ==> advanced(c.http, times) < c.codelldb
            &&& advanced(c.codelldb, times) < c.grpc
            &&& advanced(c.grpc, times) <= u16::MAX
        }),
{
}

// ---------------------------------------------------------------------------
// Processes on a port
// ---------------------------------------------------------------------------

/// The command that lists the processes that listen on a port.
pub fn listening_command(port: u16) -> (r: CommandLine)
    ensures
        r@ == plain_command(
            "lsof"@,
            seq!["-sTCP:LISTEN"@, "-i"@, "TCP:"@ + decimal(port as nat)],
            None,
            None,
        ),
{
    let mut args: Vec<String> = no_words();
    put_word(&mut args, "-sTCP:LISTEN");
    put_word(&mut args, "-i");
    put_word(&mut args, cat2("TCP:", num(port as u64).as_str()).as_str());
    assert(views(args@) =~= seq!["-sTCP:LISTEN"@, "-i"@, "TCP:"@ + decimal(port as nat)]);
    make_command("lsof", args, None, None)
}

/// The command that tells whether something listens on a port.
pub fn port_probe_command(port: u16) -> (r: CommandLine)
    ensures
        r@ == plain_command(
            "lsof"@,
            seq!["-i"@, ":"@ + decimal(port as nat), "-sTCP:LISTEN"@],
            None,
            None,
        ),
{
    let mut args: Vec<String> = no_words();
    put_word(&mut args, "-i");
    put_word(&mut args, cat2(":", num(port as u64).as_str()).as_str());
    put_word(&mut args, "-sTCP:LISTEN");
    assert(views(args@) =~= seq!["-i"@, ":"@ + decimal(port as nat), "-sTCP:LISTEN"@]);
    make_command("lsof", args, None, None)
}

/// Whether the probe of a port found something listening.
pub fn port_is_open(success: bool, stdout: &str) -> (r: bool)
    ensures
        r == (success && stdout@.len() > 0),
{
    proof {
        reveal_strlit("");
        assert(stdout@.len() == 0 ==> stdout@ =~= ""@);
    }
    success && !same_text(stdout, "")
}

/// A command of ours, by the lowercase form of its name.
pub open spec fn is_our_command(command: Seq<char>) -> bool {
    ||| has_prefix(command, "detrix"@)
    ||| has_prefix(command, "python"@)
    ||| has_prefix(command, "dlv"@)
    ||| has_prefix(command, "lldb"@)
}

/// Whether a command, in lowercase, is one of ours.
pub fn is_our_process(command: &str) -> (r: bool)
    ensures
        r == is_our_command(command@),
{
    starts_with(command, "detrix") || starts_with(command, "python") || starts_with(
        command,
        "dlv",
    ) || starts_with(command, "lldb")
}

/// The process that a line of the list is about, if it is one of ours and not `own`.
pub open spec fn process_to_kill(line: Seq<char>, own: Option<i32>) -> Option<int> {
    let w = words(line);
    if w.len() >= 2 && is_our_command(lowercase(w[0])) {
        match parsed_signed(w[1], i32::MIN as int, i32::MAX as int) {
            Some(p) => if own matches Some(o) && o == p {
                None
            } else {
                Some(p)
            },
            None => None,
        }
    } else {
        None
    }
}

/// The processes to kill by the first `n` lines of a list; the first line is its header.
pub open spec fn processes_to_kill(listed: Seq<Seq<char>>, own: Option<i32>, n: nat) -> Seq<int>
    decreases n,
{
    if n <= 1 {
        Seq::empty()
    } else {
        let rest = processes_to_kill(listed, own, (n - 1) as nat);
        match process_to_kill(listed[n - 1], own) {
            Some(p) => rest.push(p),
            None => rest,
        }
    }
}

/// The numbers of a list.
pub open spec fn numbers(pids: Seq<i32>) -> Seq<int> {
    pids.map_values(|p: i32| p as int)
}

fn line_process(line: &str, own: Option<i32>) -> (r: Option<i32>)
    ensures
        r is Some <==> process_to_kill(line@, own) is Some,
        r matches Some(p) ==> process_to_kill(line@, own) == Some(p as int),
{
    let parts: Vec<String> = split_words(line);
    if parts.len() < 2 {
        return None;
    }
    assert(words(line@)[0] == parts@[0]@);
    assert(words(line@)[1] == parts@[1]@);
    let command: String = to_lowercase(parts[0].as_str());
    if !is_our_process(command.as_str()) {
        return None;
    }
    match parse_i32(parts[1].as_str()) {
        Some(p) => match own {
            Some(o) => if o == p {
                None
            } else {
                Some(p)
            },
            None => Some(p),
        },
        None => None,
    }
}

/// The processes to kill so that a port is free: those of ours in the list of the processes that
/// listen on it. With `own`, that process is spared.
pub fn kill_listening_process_on_port(output: &str, own: Option<i32>) -> (r: Vec<i32>)
    ensures
        numbers(r@) == processes_to_kill(lines(output@), own, lines(output@).len()),
{
    let listed: Vec<String> = split_lines(output);
    let mut out: Vec<i32> = Vec::new();
    assert(numbers(out@) =~= Seq::<int>::empty());
    let mut i: usize = 1;
    while i < listed.len()
        invariant
            i >= 1,
            i <= listed.len() || i == 1,
            views(listed@) == lines(output@),
            numbers(out@) == processes_to_kill(lines(output@), own, i as nat),
        decreases listed.len() - i,
    {
        assert(lines(output@)[i as int] == listed@[i as int]@);
        match line_process(listed[i].as_str(), own) {
            Some(p) => {
                let ghost before = numbers(out@);
                out.push(p);
                assert(numbers(out@) =~= before.push(p as int));
            },
            None => {},
        }
        i = i + 1;
    }
    assert(lines(output@).len() == listed@.len());
    out
}

/// A process that is not one of ours is never killed, nor is the current one where it is spared.
pub proof fn law_only_ours_are_killed(listed: Seq<Seq<char>>, own: Option<i32>, n: nat, pid: int)
    requires
        n <= listed.len(),
        processes_to_kill(listed, own, n).contains(pid),
    ensures
        own matches Some(o) ==> o != pid,
        exists|i: int|
            1 <= i < n && words(#[trigger] listed[i]).len() >= 2 && is_our_command(
                lowercase(words(listed[i])[0]),
            ) && parsed_signed(words(listed[i])[1], i32::MIN as int, i32::MAX as int) == Some(pid),
    decreases n,
{
    if n > 1 {
        let rest = processes_to_kill(listed, own, (n - 1) as nat);
        if rest.contains(pid) {
            law_only_ours_are_killed(listed, own, (n - 1) as nat, pid);
        } else {
            let all = processes_to_kill(listed, own, n);
            let k = choose|k: int| 0 <= k < all.len() && all[k] == pid;
            assert(k == rest.len()) by {
                if k < rest.len() {
                    assert(rest[k] == pid);
                }
            }
            assert(process_to_kill(listed[n - 1], own) == Some(pid));
            assert(words(listed[n - 1]).len() >= 2);
        }
    }
}

/// The numbers in the first `n` lines, one to a line; other lines are passed over.
pub open spec fn pids_in_lines(listed: Seq<Seq<char>>, n: nat) -> Seq<nat>
    decreases n,
{
    if n == 0 {
        Seq::empty()
    } else {
        let rest = pids_in_lines(listed, (n - 1) as nat);
        match parsed_unsigned(trimmed(listed[n - 1]), u32::MAX as nat) {
            Some(p) => rest.push(p),
            None => rest,
        }
    }
}

/// The numbers of a list.
pub open spec fn pid_numbers(pids: Seq<u32>) -> Seq<nat> {
    pids.map_values(|p: u32| p as nat)
}

/// The processes in the output of `pgrep`.
pub fn track_child_pids(output: &str) -> (r: Vec<u32>)
    ensures
        pid_numbers(r@) == pids_in_lines(lines(output@), lines(output@).len()),
{
    let listed: Vec<String> = split_lines(output);
    let mut out: Vec<u32> = Vec::new();
    assert(pid_numbers(out@) =~= Seq::<nat>::empty());
    let mut i: usize = 0;
    while i < listed.len()
        invariant
            i <= listed.len(),
            views(listed@) == lines(output@),
            pid_numbers(out@) == pids_in_lines(lines(output@), i as nat),
        decreases listed.len() - i,
    {
        assert(lines(output@)[i as int] == listed@[i as int]@);
        match parse_u32(trim(listed[i].as_str()).as_str()) {
            Some(p) => {
                let ghost before = pid_numbers(out@);
                out.push(p);
                assert(pid_numbers(out@) =~= before.push(p as nat));
            },
            None => {},
        }
        i = i + 1;
    }
    out
}

/// The command that lists the children of a process.
pub fn children_command(pid: u32) -> (r: CommandLine)
    ensures
        r@ == plain_command("pgrep"@, seq!["-P"@, decimal(pid as nat)], None, None),
{
    let mut args: Vec<String> = no_words();
    put_word(&mut args, "-P");
    put_word(&mut args, num(pid as u64).as_str());
    assert(views(args@) =~= seq!["-P"@, decimal(pid as nat)]);
    make_command("pgrep", args, None, None)
}

/// The command that lists the fixtures that run.
pub fn fixtures_command() -> (r: CommandLine)
    ensures
        r@ == plain_command("pgrep"@, seq!["-f"@, "detrix_example_app"@], None, None),
{
    let mut args: Vec<String> = no_words();
    put_word(&mut args, "-f");
    put_word(&mut args, "detrix_example_app");
    assert(views(args@) =~= seq!["-f"@, "detrix_example_app"@]);
    make_command("pgrep", args, None, None)
}

/// The command that names the parent of a process.
pub fn parent_command(pid: u32) -> (r: CommandLine)
    ensures
        r@ == plain_command(
            "ps"@,
            seq!["-o"@, "ppid="@, "-p"@, decimal(pid as nat)],
            None,
            None,
        ),
{
    let mut args: Vec<String> = no_words();
    put_word(&mut args, "-o");
    put_word(&mut args, "ppid=");
    put_word(&mut args, "-p");
    put_word(&mut args, num(pid as u64).as_str());
    assert(views(args@) =~= seq!["-o"@, "ppid="@, "-p"@, decimal(pid as nat)]);
    make_command("ps", args, None, None)
}

/// Whether a process was left behind by its parent: `ps` says that its parent is process 1.
pub fn is_orphaned(ps_output: &str) -> (r: bool)
    ensures
        r == (parsed_unsigned(trimmed(ps_output@), u32::MAX as nat) == Some(1nat)),
{
    match parse_u32(trim(ps_output).as_str()) {
        Some(ppid) => ppid == 1,
        None => false,
    }
}

// ---------------------------------------------------------------------------
// Logs
// ---------------------------------------------------------------------------

/// The last `n` of several lines.
pub open spec fn last_of(all: Seq<Seq<char>>, n: nat) -> Seq<Seq<char>> {
    if n >= all.len() {
        all
    } else {
        all.subrange(all.len() - n, all.len() as int)
    }
}

/// The first `n` of several lines.
pub open spec fn first_of(all: Seq<Seq<char>>, n: nat) -> Seq<Seq<char>> {
    if n >= all.len() {
        all
    } else {
        all.subrange(0, n as int)
    }
}

fn put_range(out: &mut Vec<String>, all: &Vec<String>, from: usize, to: usize)
    requires
        from <= to <= all.len(),
    ensures
        views(final(out)@) == views(old(out)@) + views(all@).subrange(from as int, to as int),
{
    let ghost before = views(out@);
    let mut i: usize = from;
    assert(before + views(all@).subrange(from as int, from as int) =~= before);
    while i < to
        invariant
            from <= i <= to <= all.len(),
            views(out@) == before + views(all@).subrange(from as int, i as int),
        decreases to - i,
    {
        put_word(out, all[i].as_str());
        i = i + 1;
        assert(views(out@) =~= before + views(all@).subrange(from as int, i as int));
    }
}

fn put_last(out: &mut Vec<String>, all: &Vec<String>, n: usize)
    ensures
        views(final(out)@) == views(old(out)@) + last_of(views(all@), n as nat),
{
    let from: usize = if n >= all.len() {
        0
    } else {
        all.len() - n
    };
    put_range(out, all, from, all.len());
    assert(views(all@).subrange(0, all@.len() as int) =~= views(all@));
}

/// The lines that show the end of a log, between a header and a footer.
pub open spec fn log_lines(
    header: Seq<char>,
    content: Option<Seq<char>>,
    missing: Seq<char>,
    footer: Seq<char>,
    n: nat,
) -> Seq<Seq<char>> {
    let head = Seq::<Seq<char>>::empty().push(header);
    (match content {
        Some(c) => head + last_of(lines(c), n),
        None => head.push(missing),
    }).push(footer)
}

/// The lines that show the end of a log, between a header and a footer.
pub fn show_log(header: &str, content: Option<&str>, missing: &str, footer: &str, n: usize) -> (r:
    Vec<String>)
    ensures
        views(r@) == log_lines(header@, opt_str_view(content), missing@, footer@, n as nat),
{
    let mut out: Vec<String> = no_words();
    put_word(&mut out, header);
    match content {
        Some(c) => {
            let all: Vec<String> = split_lines(c);
            put_last(&mut out, &all, n);
        },
        None => put_word(&mut out, missing),
    }
    put_word(&mut out, footer);
    out
}

/// The logs that an executor keeps, other than that of the daemon.
#[derive(Debug, Clone, Copy, PartialEq, Eq, Structural)]
pub enum DebuggerLog {
    Debugpy,
    Delve,
    Lldb,
    CodeLldb,
}

impl DebuggerLog {
    /// Where the log is.
    pub open spec fn path(self, port: u16) -> Seq<char> {
        (match self {
            DebuggerLog::Debugpy => "/tmp/debugpy_e2e_"@,
            DebuggerLog::Delve => "/tmp/delve_e2e_"@,
            DebuggerLog::Lldb => "/tmp/lldb_dap_e2e_"@,
            DebuggerLog::CodeLldb => "/tmp/codelldb_e2e_"@,
        }) + decimal(port as nat) + ".log"@
    }

    /// Where the log is.
    pub fn log_path(&self, port: u16) -> (r: String)
        ensures
            r@ == self.path(port),
    {
        let stem: &str = match self {
            DebuggerLog::Debugpy => "/tmp/debugpy_e2e_",
            DebuggerLog::Delve => "/tmp/delve_e2e_",
            DebuggerLog::Lldb => "/tmp/lldb_dap_e2e_",
            DebuggerLog::CodeLldb => "/tmp/codelldb_e2e_",
        };
        cat3(stem, num(port as u64).as_str(), ".log")
    }

    /// What the log is called in a header.
    pub open spec fn title(self) -> Seq<char> {
        match self {
            DebuggerLog::Debugpy => "DEBUGPY"@,
            DebuggerLog::Delve => "DELVE"@,
            DebuggerLog::Lldb => "LLDB-DAP"@,
            DebuggerLog::CodeLldb => "CODELLDB"@,
        }
    }

    /// What is said where the log cannot be read.
    pub open spec fn missing(self) -> Seq<char> {
        match self {
            DebuggerLog::Debugpy => "   (could not read debugpy log)"@,
            DebuggerLog::Delve => "   (could not read delve log)"@,
            DebuggerLog::Lldb => "   (could not read lldb-dap log)"@,
            DebuggerLog::CodeLldb => "   (could not read codelldb log)"@,
        }
    }

    /// The rule below the log.
    pub open spec fn rule(self) -> Seq<char> {
        if self == DebuggerLog::CodeLldb {
            "====================================\n"@
        } else {
            "=================================\n"@
        }
    }

    /// The lines that show the end of the log; `content` is what it holds, if it can be read.
    pub fn show(&self, content: Option<&str>, last_n_lines: usize) -> (r: Vec<String>)
        ensures
            views(r@) == debugger_log_lines(*self, opt_str_view(content), last_n_lines as nat),
    {
        let title: &str = match self {
            DebuggerLog::Debugpy => "DEBUGPY",
            DebuggerLog::Delve => "DELVE",
            DebuggerLog::Lldb => "LLDB-DAP",
            DebuggerLog::CodeLldb => "CODELLDB",
        };
        let missing: &str = match self {
            DebuggerLog::Debugpy => "   (could not read debugpy log)",
            DebuggerLog::Delve => "   (could not read delve log)",
            DebuggerLog::Lldb => "   (could not read lldb-dap log)",
            DebuggerLog::CodeLldb => "   (could not read codelldb log)",
        };
        let rule: &str = match self {
            DebuggerLog::CodeLldb => "====================================\n",
            _ => "=================================\n",
        };
        let header: String = cat5(
            "\n=== ",
            title,
            " LOG (last ",
            num_usize(last_n_lines).as_str(),
            " lines) ===",
        );
        show_log(header.as_str(), content, missing, rule, last_n_lines)
    }
}

/// The lines that show the end of the log of a debugger.
pub open spec fn debugger_log_lines(log: DebuggerLog, content: Option<Seq<char>>, n: nat) -> Seq<
    Seq<char>,
> {
    log_lines(
        "\n=== "@ + log.title() + " LOG (last "@ + decimal(n) + " lines) ==="@,
        content,
        log.missing(),
        log.rule(),
        n,
    )
}

/// Where the log of the daemon is copied to.
pub open spec fn copied_log(root: Seq<char>) -> Seq<char> {
    path_joined(root, "logs/daemon_test.log"@)
}

/// Where the log of the daemon is copied to.
pub fn daemon_log_copy(root: &str) -> (r: String)
    ensures
        r@ == copied_log(root@),
{
    join_path(root, "logs/daemon_test.log")
}

/// The lines that show the beginning and the end of the log of the daemon.
pub open spec fn daemon_log_lines(root: Seq<char>, content: Option<Seq<char>>, n: nat) -> Seq<
    Seq<char>,
> {
    let head = Seq::<Seq<char>>::empty().push(
        "\n=== DAEMON LOG (last "@ + decimal(n) + " lines) ==="@,
    );
    (match content {
        Some(c) => (head.push("--- STARTUP (first 30 lines) ---"@) + first_of(lines(c), 30)).push(
            "--- ... ---"@,
        ) + last_of(lines(c), n).push("--- Log copied to: "@ + copied_log(root) + " ---"@),
        None => head.push("   (could not read daemon log)"@),
    }).push("=================================\n"@)
}

/// The lines that show the beginning and the end of the log of the daemon; `content` is what it
/// holds, if it can be read.
pub fn print_daemon_logs(root: &str, content: Option<&str>, last_n_lines: usize) -> (r: Vec<String>)
    ensures
        views(r@) == daemon_log_lines(root@, opt_str_view(content), last_n_lines as nat),
{
    let mut out: Vec<String> = no_words();
    put_word(
        &mut out,
        cat3("\n=== DAEMON LOG (last ", num_usize(last_n_lines).as_str(), " lines) ===").as_str(),
    );
    match content {
        Some(c) => {
            let all: Vec<String> = split_lines(c);
            put_word(&mut out, "--- STARTUP (first 30 lines) ---");
            let to: usize = if all.len() <= 30 {
                all.len()
            } else {
                30
            };
            put_range(&mut out, &all, 0, to);
            assert(views(all@).subrange(0, all@.len() as int) =~= views(all@));
            put_word(&mut out, "--- ... ---");
            let ghost before = views(out@);
            put_last(&mut out, &all, last_n_lines);
            let copy: String = daemon_log_copy(root);
            let said: String = cat3("--- Log copied to: ", copy.as_str(), " ---");
            put_word(&mut out, said.as_str());
            assert(views(out@) =~= before + last_of(lines(c@), last_n_lines as nat).push(said@));
        },
        None => put_word(&mut out, "   (could not read daemon log)"),
    }
    put_word(&mut out, "=================================\n");
    out
}

// ---------------------------------------------------------------------------
// The executor
// ---------------------------------------------------------------------------

/// The languages that there are debuggers for.
#[derive(Debug, Clone, Copy, PartialEq, Eq, Structural)]
pub enum DebuggerLanguage {
    Python,
    Go,
    Rust,
}

/// The ports, places and child processes of a test run.
#[derive(Debug)]
pub struct TestExecutor {
    pub temp_dir: String,
    pub http_port: u16,
    pub grpc_port: u16,
    pub debugpy_port: u16,
    pub delve_port: u16,
    pub lldb_port: u16,
    pub codelldb_port: u16,
    pub daemon_log_path: Option<String>,
    pub daemon_pid_path: Option<String>,
    pub workspace_root: String,
    /// Processes that debuggers started.
    pub child_pids: Vec<u32>,
    pub rust_binary_path: Option<String>,
}

/// The ports of a test run, one for each use.
#[derive(Debug, Clone, Copy)]
pub struct ExecutorPorts {
    pub http: u16,
    pub grpc: u16,
    pub debugpy: u16,
    pub delve: u16,
    pub lldb: u16,
    pub codelldb: u16,
}

impl TestExecutor {
    /// An executor that has started nothing yet.
    pub fn new(workspace_root: &str, temp_dir: &str, ports: ExecutorPorts) -> (r: Self)
        ensures
            r.workspace_root@ == workspace_root@,
            r.temp_dir@ == temp_dir@,
            r.http_port == ports.http,
            r.grpc_port == ports.grpc,
            r.debugpy_port == ports.debugpy,
            r.delve_port == ports.delve,
            r.lldb_port == ports.lldb,
            r.codelldb_port == ports.codelldb,
            r.daemon_log_path is None,
            r.daemon_pid_path is None,
            r.rust_binary_path is None,
            r.child_pids@.len() == 0,
    {
        TestExecutor {
            temp_dir: temp_dir.to_owned(),
            http_port: ports.http,
            grpc_port: ports.grpc,
            debugpy_port: ports.debugpy,
            delve_port: ports.delve,
            lldb_port: ports.lldb,
            codelldb_port: ports.codelldb,
            daemon_log_path: None,
            daemon_pid_path: None,
            workspace_root: workspace_root.to_owned(),
            child_pids: Vec::new(),
            rust_binary_path: None,
        }
    }

    /// Where the Python example is.
    pub fn detrix_example_app_path(&self) -> (r: String)
        ensures
            r@ == path_joined(self.workspace_root@, "fixtures/python/detrix_example_app.py"@),
    {
        join_path(self.workspace_root.as_str(), "fixtures/python/detrix_example_app.py")
    }

    /// Where the Go example is.
    pub fn go_detrix_example_app_path(&self) -> (r: String)
        ensures
            r@ == path_joined(self.workspace_root@, "fixtures/go/detrix_example_app.go"@),
    {
        join_path(self.workspace_root.as_str(), "fixtures/go/detrix_example_app.go")
    }

    /// Where the Rust example is.
    pub fn rust_detrix_example_app_path(&self) -> (r: String)
        ensures
            r@ == path_joined(self.workspace_root@, "fixtures/rust/src/main.rs"@),
    {
        join_path(self.workspace_root.as_str(), "fixtures/rust/src/main.rs")
    }

    /// The port of the debugger for a language.
    pub fn debugger_port(&self, language: DebuggerLanguage) -> (r: u16)
        ensures
            r == (match language {
                DebuggerLanguage::Python => self.debugpy_port,
                DebuggerLanguage::Go => self.delve_port,
                DebuggerLanguage::Rust => self.lldb_port,
            }),
    {
        match language {
            DebuggerLanguage::Python => self.debugpy_port,
            DebuggerLanguage::Go => self.delve_port,
            DebuggerLanguage::Rust => self.lldb_port,
        }
    }

    /// The lines that show the end of the log of debugpy.
    pub fn print_debugpy_logs(&self, content: Option<&str>, last_n_lines: usize) -> (r: Vec<String>)
        ensures
            views(r@) == debugger_log_lines(
                DebuggerLog::Debugpy,
                opt_str_view(content),
                last_n_lines as nat,
            ),
    {
        DebuggerLog::Debugpy.show(content, last_n_lines)
    }

    /// The lines that show the end of the log of delve.
    pub fn print_delve_logs(&self, content: Option<&str>, last_n_lines: usize) -> (r: Vec<String>)
        ensures
            views(r@) == debugger_log_lines(
                DebuggerLog::Delve,
                opt_str_view(content),
                last_n_lines as nat,
            ),
    {
        DebuggerLog::Delve.show(content, last_n_lines)
    }

    /// The lines that show the end of the log of lldb-dap.
    pub fn print_lldb_logs(&self, content: Option<&str>, last_n_lines: usize) -> (r: Vec<String>)
        ensures
            views(r@) == debugger_log_lines(
                DebuggerLog::Lldb,
                opt_str_view(content),
                last_n_lines as nat,
            ),
    {
        DebuggerLog::Lldb.show(content, last_n_lines)
    }

    /// The lines that show the end of the log of CodeLLDB.
    pub fn print_codelldb_logs(&self, content: Option<&str>, last_n_lines: usize) -> (r: Vec<String>)
        ensures
            views(r@) == debugger_log_lines(
                DebuggerLog::CodeLldb,
                opt_str_view(content),
                last_n_lines as nat,
            ),
    {
        DebuggerLog::CodeLldb.show(content, last_n_lines)
    }

    /// Adds the processes in the output of `pgrep` to those that are tracked.
    pub fn track(&mut self, output: &str)
        ensures
            pid_numbers(final(self).child_pids@) == pid_numbers(old(self).child_pids@)
                + pids_in_lines(lines(output@), lines(output@).len()),
            *final(self) == (TestExecutor {
                child_pids: final(self).child_pids,
                ..*old(self)
            }),
    {
        let mut found: Vec<u32> = track_child_pids(output);
        let ghost more = found@;
        self.child_pids.append(&mut found);
        assert(pid_numbers(self.child_pids@) =~= pid_numbers(old(self).child_pids@)
            + pid_numbers(more));
    }

    /// Hands out the processes that are tracked, and tracks them no longer.
    pub fn take_tracked(&mut self) -> (r: Vec<u32>)
        ensures
            r@ == old(self).child_pids@,
            final(self).child_pids@.len() == 0,
            *final(self) == (TestExecutor {
                child_pids: final(self).child_pids,
                ..*old(self)
            }),
    {
        let mut out: Vec<u32> = Vec::new();
        std::mem::swap(&mut out, &mut self.child_pids);
        out
    }
}

} // verus!
