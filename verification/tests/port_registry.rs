use detrix_testing::port_registry::{
    claim_range, find_fallback_window, is_process_alive, is_system_reserved_port,
    process_identity_is_current, process_start_time, Allocation, AllocationStep, Candidate,
    FallbackStep, ProcessProbe, RegistryEntry, TestPortRegistry, BASE_PORT, DEFAULT_RANGE_SIZE,
    MAX_PORT,
};

/// Allocates from a range as its users do: ports that cannot be bound are passed over.
fn allocate(registry: &mut TestPortRegistry, spacing: u16, bindable: fn(u16) -> bool) -> Option<u16> {
    loop {
        match registry.allocate_spaced(spacing) {
            Candidate::Port(p) if bindable(p) => return Some(p),
            Candidate::Port(_) | Candidate::Reserved(_) => {}
            Candidate::Exhausted => return None,
        }
    }
}

fn fallback(start: u16, spacing: u16, bindable: fn(u16) -> bool) -> Option<u16> {
    let (search, mut step) = find_fallback_window(start, spacing);
    let mut search = search?;
    loop {
        match step {
            FallbackStep::Bind(p) => step = search.resume(bindable(p)),
            FallbackStep::Found(p) => return Some(p),
            FallbackStep::Nothing => return None,
        }
    }
}

fn entry(pid: u32, start: u16, end: u16, start_time: u64) -> RegistryEntry {
    RegistryEntry {
        pid,
        binary: "tests".to_string(),
        range_start: start,
        range_end: end,
        ts: 0,
        start_time,
    }
}

fn alive(start: u64) -> ProcessProbe {
    ProcessProbe { signalled: true, reported_start: Some(start) }
}

#[test]
fn test_registry_allocate() {
    let mut registry = TestPortRegistry { range_start: 40000, range_end: 40100, next_port: 40000 };
    let p1 = allocate(&mut registry, 1, |_| true).unwrap();
    let p2 = allocate(&mut registry, 1, |_| true).unwrap();
    assert_ne!(p1, p2);
    assert!((40000..40100).contains(&p1));
    assert!((40000..40100).contains(&p2));
}

#[test]
fn test_registry_allocate_spaced() {
    let mut registry = TestPortRegistry { range_start: 40000, range_end: 41000, next_port: 40000 };
    let p1 = allocate(&mut registry, 200, |_| true).unwrap();
    let p2 = allocate(&mut registry, 200, |_| true).unwrap();
    assert!(p2 >= p1 + 200, "Spacing should be at least 200: p1={p1}, p2={p2}");
}

#[test]
fn exhausted_spaced_range_uses_bindable_fallback_window() {
    let mut registry = TestPortRegistry { range_start: 45000, range_end: 45001, next_port: 45001 };
    assert_eq!(allocate(&mut registry, 16, |_| true), None);
    let port = fallback(registry.range_end, 16, |_| true).unwrap();
    assert!(port >= 45001);
    assert_eq!(port, 45001);
}

#[test]
fn test_is_process_alive() {
    assert!(is_process_alive(4242, true));
    assert!(!is_process_alive(0, true));
    assert!(!is_process_alive(4242, false));
}

#[test]
fn test_process_identity_rejects_legacy_and_reused_pid_entries() {
    let pid: u32 = 4242;
    let start_time = process_start_time(pid, Some(1_700_000_000)).expect("current process has a start time");
    let base = entry(pid, 15000, 16000, start_time);
    let probe = alive(start_time);
    assert!(process_identity_is_current(&base, &probe));

    let mut reused_pid = base.clone();
    reused_pid.start_time = start_time.saturating_sub(1).max(1);
    assert!(!process_identity_is_current(&reused_pid, &probe));

    let mut legacy = base;
    legacy.start_time = 0;
    assert!(!process_identity_is_current(&legacy, &probe));
}

#[test]
fn a_start_time_of_zero_is_no_time() {
    assert_eq!(process_start_time(7, Some(0)), None);
    assert_eq!(process_start_time(0, Some(5)), None);
    assert_eq!(process_start_time(7, None), None);
    assert_eq!(process_start_time(7, Some(5)), Some(5));
}

#[test]
fn reserved_ports_are_passed_over() {
    assert!(is_system_reserved_port(5000));
    assert!(is_system_reserved_port(7000));
    assert!(!is_system_reserved_port(5001));
    let mut registry = TestPortRegistry { range_start: 6999, range_end: 7002, next_port: 6999 };
    assert_eq!(registry.allocate(), Candidate::Port(6999));
    assert_eq!(registry.allocate(), Candidate::Reserved(7000));
    assert_eq!(registry.allocate(), Candidate::Port(7001));
    assert_eq!(registry.allocate(), Candidate::Exhausted);
    assert_eq!(registry.range(), (6999, 7002));
}

#[test]
fn a_spacing_of_zero_counts_as_one() {
    let mut registry = TestPortRegistry { range_start: 20000, range_end: 20010, next_port: 20000 };
    assert_eq!(registry.allocate_spaced(0), Candidate::Port(20000));
    assert_eq!(registry.allocate_spaced(0), Candidate::Port(20001));
    assert_eq!(
        registry.exhausted_message(0),
        "TestPortRegistry: range exhausted (20000-20010), spacing=1. Increase DEFAULT_RANGE_SIZE or reduce port spacing."
    );
    assert_eq!(
        TestPortRegistry::fallback_notice(20020, 16),
        "TestPortRegistry: claimed range exhausted; using fallback base 20020 (spacing 16)"
    );
}

#[test]
fn the_fallback_window_is_the_first_that_is_free() {
    // 30003 is taken, so that no window of four can hold it.
    assert_eq!(fallback(30000, 4, |p| p != 30003), Some(30004));
    assert_eq!(fallback(0, 1, |_| true), Some(BASE_PORT));
    assert_eq!(fallback(54999, 3, |_| true), None);
    assert_eq!(fallback(54998, 3, |_| true), Some(54998));
    assert_eq!(fallback(30000, 2, |_| false), None);
}

#[test]
fn a_claim_goes_behind_the_ranges_of_live_processes() {
    let entries = vec![
        entry(11, 15000, 16000, 100),
        entry(12, 16000, 17000, 100),
        entry(13, 17000, 18000, 0),
    ];
    let probes = vec![alive(100), alive(99), alive(100)];
    let claim = claim_range(&entries, &probes, DEFAULT_RANGE_SIZE, entry(20, 0, 0, 7)).unwrap();
    assert_eq!(claim.registry.range(), (16000, 17000));
    assert_eq!(claim.registry.next_port, 16000);
    assert_eq!(claim.allocations.len(), 2);
    assert_eq!(claim.allocations[0].pid, 11);
    assert_eq!(claim.allocations[1].pid, 20);
    assert_eq!(claim.allocations[1].range_start, 16000);
    assert_eq!(claim.allocations[1].range_end, 17000);
    assert_eq!(claim.allocations[1].start_time, 7);
    assert_eq!(
        claim.notices,
        vec![
            "TestPortRegistry: cleaned 2 stale entries from dead PIDs".to_string(),
            "TestPortRegistry: claimed ports 16000-17000 for tests (PID 20)".to_string(),
        ]
    );
}

/// No two entries share a port.
fn are_disjoint(entries: &[RegistryEntry]) -> bool {
    entries.iter().enumerate().all(|(i, a)| {
        entries[..i].iter().all(|b| a.range_end <= b.range_start || b.range_end <= a.range_start)
    })
}

#[test]
fn a_claim_fills_a_gap_and_keeps_every_live_range() {
    let entries = vec![entry(11, 15000, 16000, 100), entry(12, 54000, 55000, 100)];
    let probes = vec![alive(100), alive(100)];
    let claim = claim_range(&entries, &probes, 1000, entry(20, 0, 0, 7)).unwrap();
    assert_eq!(claim.registry.range(), (16000, 17000));
    let pids: Vec<u32> = claim.allocations.iter().map(|e| e.pid).collect();
    assert_eq!(pids, vec![11, 12, 20]);
    assert!(are_disjoint(&claim.allocations));
    assert_eq!(
        claim.notices,
        vec!["TestPortRegistry: claimed ports 16000-17000 for tests (PID 20)".to_string()]
    );
}

#[test]
fn a_claim_that_does_not_fit_fails() {
    let entries = vec![entry(11, 15500, 54500, 100)];
    let none = claim_range(&entries, &vec![alive(100)], 1000, entry(20, 0, 0, 7)).unwrap_err();
    assert_eq!(
        none.message,
        "TestPortRegistry: no range of 1000 ports is left between 15000 and 55000"
    );
    assert!(none.notices.is_empty());
    assert_eq!(MAX_PORT, 55000);
    // The same ranges of a process that is gone are free.
    let claim = claim_range(&entries, &vec![alive(99)], 1000, entry(20, 0, 0, 7)).unwrap();
    assert_eq!(claim.registry.range(), (BASE_PORT, BASE_PORT + 1000));
    assert_eq!(claim.allocations.len(), 1);
}

#[test]
fn claims_in_turn_stay_disjoint_until_none_is_left() {
    let mut entries: Vec<RegistryEntry> = Vec::new();
    loop {
        let pid = 100 + entries.len() as u32;
        let probes: Vec<ProcessProbe> = entries.iter().map(|_| alive(7)).collect();
        match claim_range(&entries, &probes, DEFAULT_RANGE_SIZE, entry(pid, 0, 0, 7)) {
            Ok(claim) => entries = claim.allocations,
            Err(_) => break,
        }
        assert!(are_disjoint(&entries));
    }
    assert_eq!(entries.len(), 40);
    assert!(entries.iter().all(|e| BASE_PORT <= e.range_start && e.range_end <= MAX_PORT));
}

#[test]
fn an_exhausted_range_stays_exhausted() {
    let mut r = TestPortRegistry { range_start: 20000, range_end: 20010, next_port: 20000 };
    assert_eq!(r.allocate_spaced(8), Candidate::Port(20000));
    assert_eq!(r.allocate_spaced(8), Candidate::Port(20008));
    // The counter stops at the end of the range, however far it is asked to go.
    for _ in 0..20 {
        assert_eq!(r.allocate_spaced(u16::MAX), Candidate::Exhausted);
    }
    assert_eq!(r.next_port, 20010);
    let mut last = TestPortRegistry { range_start: 65530, range_end: 65535, next_port: 65530 };
    assert_eq!(last.allocate_spaced(u16::MAX), Candidate::Port(65530));
    assert_eq!(last.allocate(), Candidate::Exhausted);
}

#[test]
fn the_first_claim_is_the_first_range() {
    let claim = claim_range(&vec![], &vec![], DEFAULT_RANGE_SIZE, entry(20, 0, 0, 7)).unwrap();
    assert_eq!(claim.registry.range(), (15000, 16000));
    assert_eq!(claim.notices.len(), 1);
}

/// Allocates a port; `free` says which ports can be bound.
fn allocate_whole(
    registry: &mut TestPortRegistry,
    spacing: u16,
    free: impl Fn(u16) -> bool,
) -> Result<(u16, Option<String>), String> {
    let (mut allocation, mut step) = Allocation::start(registry, spacing);
    loop {
        match step {
            AllocationStep::Bind(port) => step = allocation.resume(registry, free(port)),
            AllocationStep::Allocated(port) => return Ok((port, None)),
            AllocationStep::FellBack { port, notice } => return Ok((port, Some(notice))),
            AllocationStep::Failed { message } => return Err(message),
        }
    }
}

#[test]
fn whole_allocations_skip_what_is_taken() {
    let mut r = TestPortRegistry { range_start: 4998, range_end: 5003, next_port: 4998 };
    assert_eq!(allocate_whole(&mut r, 1, |p| p != 4998), Ok((4999, None)));
    // 5000 is reserved.
    assert_eq!(allocate_whole(&mut r, 1, |_| true), Ok((5001, None)));
    assert_eq!(allocate_whole(&mut r, 1, |p| p >= 15002).unwrap().0, 15002);
    let fallen = allocate_whole(&mut r, 3, |p| p != 15001).unwrap();
    assert_eq!(fallen.0, 15002);
    assert_eq!(
        fallen.1.unwrap(),
        "TestPortRegistry: claimed range exhausted; using fallback base 15002 (spacing 3)"
    );
    assert_eq!(
        allocate_whole(&mut r, 3, |_| false).unwrap_err(),
        "TestPortRegistry: range exhausted (4998-5003), spacing=3. Increase DEFAULT_RANGE_SIZE or reduce port spacing."
    );
}

#[test]
fn allocations_of_one_range_differ() {
    let mut r = TestPortRegistry { range_start: 40000, range_end: 40020, next_port: 40000 };
    let mut seen: Vec<u16> = Vec::new();
    for spacing in [1, 3, 1, 5, 2] {
        let (port, notice) = allocate_whole(&mut r, spacing, |p| p % 7 != 0).unwrap();
        assert_eq!(notice, None);
        assert!(!seen.contains(&port));
        seen.push(port);
    }
    assert!(seen.windows(2).all(|w| w[0] < w[1]));
}

#[test]
fn claims_in_turn_keep_clear_of_those_that_live() {
    // The second process ends, and the third takes its range; the first is still apart from it.
    let claim = |entries: &Vec<RegistryEntry>, probes: &Vec<ProcessProbe>, pid: u32| {
        claim_range(entries, probes, 1000, entry(pid, 0, 0, 7)).unwrap().allocations
    };
    let one = claim(&vec![], &vec![], 1);
    let two = claim(&one, &vec![alive(7)], 2);
    let three = claim(&two, &vec![alive(7), alive(8)], 3);
    let four = claim(&three, &vec![alive(7), alive(7)], 4);
    let ranges: Vec<(u32, u16)> = four.iter().map(|e| (e.pid, e.range_start)).collect();
    assert_eq!(ranges, vec![(1, 15000), (3, 16000), (4, 17000)]);
    assert!(are_disjoint(&four));
}

#[test]
fn a_process_keeps_the_registry_that_it_claimed() {
    let mut held: Option<TestPortRegistry> = None;
    let entries = vec![entry(11, 15000, 16000, 100)];
    let first =
        TestPortRegistry::get(&mut held, &entries, &vec![alive(100)], entry(20, 0, 0, 7)).unwrap();
    let first = first.unwrap();
    assert_eq!(held.as_ref().unwrap().range(), (16000, 17000));
    assert_eq!(first.allocations.len(), 2);
    assert_eq!(
        first.notices,
        vec!["TestPortRegistry: claimed ports 16000-17000 for tests (PID 20)".to_string()]
    );
    // Ports are allocated, and the entries change: the registry stays.
    assert_eq!(held.as_mut().unwrap().allocate(), Candidate::Port(16000));
    let later = TestPortRegistry::get(&mut held, &vec![], &vec![], entry(20, 0, 0, 7)).unwrap();
    assert!(later.is_none());
    assert_eq!(held.as_ref().unwrap().range(), (16000, 17000));
    assert_eq!(held.as_mut().unwrap().allocate(), Candidate::Port(16001));
}

#[test]
fn a_process_holds_nothing_where_no_range_is_left() {
    let mut held: Option<TestPortRegistry> = None;
    let entries = vec![entry(11, 15000, 55000, 100)];
    let none =
        TestPortRegistry::get(&mut held, &entries, &vec![alive(100)], entry(20, 0, 0, 7)).unwrap_err();
    assert_eq!(
        none.message,
        "TestPortRegistry: no range of 1000 ports is left between 15000 and 55000"
    );
    assert!(held.is_none());
    let claimed = TestPortRegistry::get(&mut held, &vec![], &vec![], entry(20, 0, 0, 7)).unwrap();
    assert!(claimed.is_some());
    assert_eq!(held.unwrap().range(), (15000, 16000));
}
