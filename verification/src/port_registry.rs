//! Port ranges for test processes that run at the same time.
//!
//! Every process claims a range of ports from a shared list and hands out ports from it. What
//! the operating system has to say (which processes live, which ports can be bound) comes in as
//! an argument; what is decided on it is here.

use vstd::prelude::*;

use crate::text::{cat3, cat5, cat7, decimal, num, num_usize, views};

pub mod laws;

verus! {

/// The lowest port that is handed out.
pub const BASE_PORT: u16 = 15000;

/// No range reaches beyond this port.
pub const MAX_PORT: u16 = 55000;

/// How many ports a process claims.
pub const DEFAULT_RANGE_SIZE: u16 = 1000;

/// Ports that services of the system are known to use.
pub open spec fn is_reserved(port: u16) -> bool {
    port == 5000 || port == 7000
}

/// Whether a service of the system is known to use a port.
pub fn is_system_reserved_port(port: u16) -> (r: bool)
    ensures
        r == is_reserved(port),
{
    port == 5000 || port == 7000
}

// ---------------------------------------------------------------------------
// Allocation within a range
// ---------------------------------------------------------------------------

/// A claimed range, from `range_start` up to and without `range_end`, and the port to try next.
#[derive(Debug)]
pub struct TestPortRegistry {
    pub range_start: u16,
    pub range_end: u16,
    pub next_port: u16,
}

/// What to try next.
#[derive(Debug, Clone, Copy, PartialEq, Eq, Structural)]
pub enum Candidate {
    /// A port; it is allocated if it can be bound.
    Port(u16),
    /// A port that is passed over.
    Reserved(u16),
    /// The range has no more ports: a window behind it is to be looked for.
    Exhausted,
}

/// The distance between allocations: at least one.
pub open spec fn effective_spacing(spacing: u16) -> u16 {
    if spacing == 0 {
        1
    } else {
        spacing
    }
}

/// The port that a range comes to behind a port: the spacing further on, but not beyond its end.
/// A range that is exhausted stays so.
pub open spec fn port_behind(port: u16, range_end: u16, spacing: u16) -> u16 {
    if port >= range_end {
        port
    } else if port + effective_spacing(spacing) >= range_end {
        range_end
    } else {
        (port + effective_spacing(spacing)) as u16
    }
}

/// What a range offers when its next port is `port`.
pub open spec fn candidate_at(port: u16, range_end: u16) -> Candidate {
    if port >= range_end {
        Candidate::Exhausted
    } else if is_reserved(port) {
        Candidate::Reserved(port)
    } else {
        Candidate::Port(port)
    }
}

/// The notice that a window behind the range is used.
pub open spec fn fallback_text(port: u16, spacing: u16) -> Seq<char> {
    "TestPortRegistry: claimed range exhausted; using fallback base "@ + decimal(port as nat)
        + " (spacing "@ + decimal(effective_spacing(spacing) as nat) + ")"@
}

/// The message of a range that is exhausted with no window behind it.
pub open spec fn exhausted_text(range_start: u16, range_end: u16, spacing: u16) -> Seq<char> {
    "TestPortRegistry: range exhausted ("@ + decimal(range_start as nat) + "-"@ + decimal(
        range_end as nat,
    ) + "), spacing="@ + decimal(effective_spacing(spacing) as nat)
        + ". Increase DEFAULT_RANGE_SIZE or reduce port spacing."@
}

impl TestPortRegistry {
    /// The range (start, end).
    pub fn range(&self) -> (r: (u16, u16))
        ensures
            r == (self.range_start, self.range_end),
    {
        (self.range_start, self.range_end)
    }

    /// The next port to try; the one behind it is `spacing` ports away.
    pub fn allocate_spaced(&mut self, spacing: u16) -> (r: Candidate)
        ensures
            r == candidate_at(old(self).next_port, old(self).range_end),
            final(self).range_start == old(self).range_start,
            final(self).range_end == old(self).range_end,
            final(self).next_port == port_behind(
                old(self).next_port,
                old(self).range_end,
                spacing,
            ),
    {
        let step: u16 = if spacing == 0 {
            1
        } else {
            spacing
        };
        let port: u16 = self.next_port;
        if port < self.range_end {
            self.next_port = if step >= self.range_end - port {
                self.range_end
            } else {
                port + step
            };
        }
        if port >= self.range_end {
            Candidate::Exhausted
        } else if is_system_reserved_port(port) {
            Candidate::Reserved(port)
        } else {
            Candidate::Port(port)
        }
    }

    /// The next port to try; the one behind it is its neighbour.
    pub fn allocate(&mut self) -> (r: Candidate)
        ensures
            r == candidate_at(old(self).next_port, old(self).range_end),
            final(self).range_start == old(self).range_start,
            final(self).range_end == old(self).range_end,
            final(self).next_port == port_behind(old(self).next_port, old(self).range_end, 1),
    {
        self.allocate_spaced(1)
    }

    /// The message of a range that is exhausted with no window behind it.
    pub fn exhausted_message(&self, spacing: u16) -> (r: String)
        ensures
            r@ == exhausted_text(self.range_start, self.range_end, spacing),
    {
        let step: u16 = if spacing == 0 {
            1
        } else {
            spacing
        };
        cat7(
            "TestPortRegistry: range exhausted (",
            num(self.range_start as u64).as_str(),
            "-",
            num(self.range_end as u64).as_str(),
            "), spacing=",
            num(step as u64).as_str(),
            ". Increase DEFAULT_RANGE_SIZE or reduce port spacing.",
        )
    }

    /// The notice that a window behind the range is used.
    pub fn fallback_notice(port: u16, spacing: u16) -> (r: String)
        ensures
            r@ == fallback_text(port, spacing),
    {
        let step: u16 = if spacing == 0 {
            1
        } else {
            spacing
        };
        cat5(
            "TestPortRegistry: claimed range exhausted; using fallback base ",
            num(port as u64).as_str(),
            " (spacing ",
            num(step as u64).as_str(),
            ")",
        )
    }
}

/// Where a range comes to when it is asked for ports with the spacings, one after the other; it
/// comes to `next` first.
pub open spec fn next_after(next: u16, range_end: u16, spacings: Seq<u16>) -> u16
    decreases spacings.len(),
{
    if spacings.len() == 0 {
        next
    } else {
        port_behind(
            next_after(next, range_end, spacings.drop_last()),
            range_end,
            spacings.last(),
        )
    }
}

proof fn lemma_next_after_grows(next: u16, range_end: u16, spacings: Seq<u16>, i: int)
    requires
        0 <= i <= spacings.len(),
    ensures
        next_after(next, range_end, spacings.take(i)) <= next_after(next, range_end, spacings),
    decreases spacings.len(),
{
    if i == spacings.len() {
        assert(spacings.take(i) =~= spacings);
    } else {
        lemma_next_after_grows(next, range_end, spacings.drop_last(), i);
        assert(spacings.drop_last().take(i) =~= spacings.take(i));
    }
}

/// Of any two ports that a range offers, however many it was asked for in between and with
/// whatever spacings, the later one is the higher by at least the spacing that the earlier one
/// was asked for with, and both lie in the range. `spacings` are those of all the calls up to the
/// later one.
pub proof fn law_spaced_ports(
    range_start: u16,
    range_end: u16,
    next: u16,
    spacings: Seq<u16>,
    i: int,
    first: u16,
    second: u16,
)
    requires
        range_start <= next,
        0 <= i < spacings.len(),
        candidate_at(next_after(next, range_end, spacings.take(i)), range_end) == Candidate::Port(
            first,
        ),
        candidate_at(next_after(next, range_end, spacings), range_end) == Candidate::Port(second),
    ensures
        range_start <= first < range_end,
        range_start <= second < range_end,
        second >= first + effective_spacing(spacings[i]),
        !is_reserved(first),
        !is_reserved(second),
{
    let upto = spacings.take(i + 1);
    assert(upto.drop_last() =~= spacings.take(i));
    assert(upto.last() == spacings[i]);
    lemma_next_after_grows(next, range_end, spacings, i + 1);
    lemma_next_after_grows(next, range_end, spacings, 0);
    lemma_next_after_grows(next, range_end, spacings.take(i), 0);
    assert(spacings.take(0) =~= Seq::empty());
    assert(spacings.take(i).take(0) =~= Seq::empty());
}

// ---------------------------------------------------------------------------
// The window behind an exhausted range
// ---------------------------------------------------------------------------

/// A search for a window of neighbouring ports that can all be bound. The ports from `candidate`
/// up to and without `candidate + offset` could be bound, and the next one is being tried.
#[derive(Debug, Clone, Copy, PartialEq, Eq, Structural)]
pub struct FallbackSearch {
    pub first: u16,
    pub last: u16,
    pub spacing: u16,
    pub candidate: u16,
    pub offset: u16,
}

/// How a search goes on.
#[derive(Debug, Clone, Copy, PartialEq, Eq, Structural)]
pub enum FallbackStep {
    /// Try to bind a port.
    Bind(u16),
    /// The window that begins at the port was found.
    Found(u16),
    /// There is no window.
    Nothing,
}

/// The first port that a window may begin at.
pub open spec fn first_candidate(start: u16) -> u16 {
    if start >= BASE_PORT {
        start
    } else {
        BASE_PORT
    }
}

/// The last port that a window of the size may begin at.
pub open spec fn last_candidate(spacing: u16) -> u16 {
    if MAX_PORT >= spacing - 1 {
        (MAX_PORT - (spacing - 1)) as u16
    } else {
        0
    }
}

/// A window that begins at the port can be bound.
pub open spec fn window_is_free(free: spec_fn(u16) -> bool, port: u16, spacing: u16) -> bool {
    &&& !is_reserved(port)
    &&& forall|p: u16| port <= p < port + spacing ==> #[trigger] free(p)
}

impl FallbackSearch {
    /// The search has not left its bounds.
    pub open spec fn wf(&self) -> bool {
        &&& 1 <= self.spacing
        &&& self.first <= self.candidate <= self.last
        &&& self.last + self.spacing - 1 <= MAX_PORT
        &&& self.offset < self.spacing
        &&& !is_reserved(self.candidate)
    }

    /// The search agrees with which ports can be bound: no earlier window is free, and the ports
    /// before the one that is being tried are.
    pub open spec fn agrees(&self, free: spec_fn(u16) -> bool) -> bool {
        &&& forall|c: u16|
            self.first <= c < self.candidate ==> !(#[trigger] window_is_free(
                free,
                c,
                self.spacing,
            ))
        &&& forall|p: u16|
            self.candidate <= p < self.candidate + self.offset ==> #[trigger] free(p)
    }

    /// The port that is being tried.
    pub open spec fn trying(&self) -> u16 {
        (self.candidate + self.offset) as u16
    }
}

fn next_candidate(from: u16, last: u16) -> (r: Option<u16>)
    requires
        last <= MAX_PORT,
    ensures
        match r {
            Some(c) => from <= c <= last && !is_reserved(c) && forall|p: u16|
                from <= p < c ==> is_reserved(p),
            None => forall|p: u16| from <= p <= last ==> is_reserved(p),
        },
{
    let mut c: u16 = from;
    while c <= last
        invariant
            from <= c,
            last <= MAX_PORT,
            forall|p: u16| from <= p < c ==> is_reserved(p),
        decreases last + 1 - c,
    {
        if !is_system_reserved_port(c) {
            return Some(c);
        }
        c = c + 1;
    }
    None
}

/// How a search for a window begins: with the first candidate that is not reserved.
pub open spec fn search_begins(
    start: u16,
    spacing: u16,
    search: Option<FallbackSearch>,
    step: FallbackStep,
) -> bool {
    let size = effective_spacing(spacing);
    let first = first_candidate(start);
    let last = last_candidate(size);
    match search {
        Some(s) => s.wf() && s.first == first && s.last == last && s.spacing == size && s.offset
            == 0 && step == FallbackStep::Bind(s.candidate) && forall|p: u16|
            first <= p < s.candidate ==> is_reserved(p),
        None => step == FallbackStep::Nothing && forall|p: u16|
            first <= p <= last ==> is_reserved(p),
    }
}

/// How a search goes on when the port that was tried could or could not be bound: with the next
/// port of the window, or with the next candidate that is not reserved.
pub open spec fn search_resumes(
    before: FallbackSearch,
    bound: bool,
    after: FallbackSearch,
    step: FallbackStep,
) -> bool {
    &&& after.first == before.first && after.last == before.last && after.spacing == before.spacing
    &&& if bound && before.offset + 1 == before.spacing {
        step == FallbackStep::Found(before.candidate) && after == before
    } else if bound {
        after.candidate == before.candidate && after.offset == before.offset + 1 && step
            == FallbackStep::Bind(after.trying())
    } else {
        match step {
            FallbackStep::Bind(p) => before.candidate < after.candidate <= before.last && p
                == after.candidate && !is_reserved(p) && after.offset == 0 && forall|q: u16|
                before.candidate < q < after.candidate ==> is_reserved(q),
            FallbackStep::Nothing => after == before && forall|q: u16|
                before.candidate < q <= before.last ==> is_reserved(q),
            FallbackStep::Found(_) => false,
        }
    }
}

/// A search for a window behind a range, and its first step.
pub fn find_fallback_window(start: u16, spacing: u16) -> (r: (Option<FallbackSearch>, FallbackStep))
    ensures
        search_begins(start, spacing, r.0, r.1),
{
    let size: u16 = if spacing == 0 {
        1
    } else {
        spacing
    };
    let first: u16 = if start >= BASE_PORT {
        start
    } else {
        BASE_PORT
    };
    let last: u16 = if MAX_PORT >= size - 1 {
        MAX_PORT - (size - 1)
    } else {
        0
    };
    match next_candidate(first, last) {
        Some(candidate) => (
            Some(FallbackSearch { first, last, spacing: size, candidate, offset: 0 }),
            FallbackStep::Bind(candidate),
        ),
        None => (None, FallbackStep::Nothing),
    }
}

impl FallbackSearch {
    /// Takes whether the port that was tried could be bound. The search goes on within the
    /// window, or with the next candidate.
    pub fn resume(&mut self, bound: bool) -> (r: FallbackStep)
        requires
            old(self).wf(),
        ensures
            final(self).wf(),
            search_resumes(*old(self), bound, *final(self), r),
    {
        if bound {
            if self.offset + 1 == self.spacing {
                FallbackStep::Found(self.candidate)
            } else {
                self.offset = self.offset + 1;
                FallbackStep::Bind(self.candidate + self.offset)
            }
        } else {
            match next_candidate(self.candidate + 1, self.last) {
                Some(c) => {
                    self.candidate = c;
                    self.offset = 0;
                    FallbackStep::Bind(c)
                },
                None => FallbackStep::Nothing,
            }
        }
    }
}

/// Whichever ports can be bound: a search begins in agreement with that, and where it has
/// nothing to try there is no window.
pub proof fn law_search_begins(
    free: spec_fn(u16) -> bool,
    start: u16,
    spacing: u16,
    search: Option<FallbackSearch>,
    step: FallbackStep,
)
    requires
        search_begins(start, spacing, search, step),
    ensures
        search matches Some(s) ==> s.agrees(free),
        search is None ==> forall|d: u16|
            first_candidate(start) <= d <= last_candidate(effective_spacing(spacing))
                ==> !(#[trigger] window_is_free(free, d, effective_spacing(spacing))),
{
}

/// If every answer says truly whether the port can be bound, a search that has agreed with that
/// goes on to agree; the window that it finds is free and the first one that is; and where it
/// finds none there is none.
pub proof fn law_search_finds_first_window(
    free: spec_fn(u16) -> bool,
    before: FallbackSearch,
    after: FallbackSearch,
    step: FallbackStep,
)
    requires
        before.wf(),
        before.agrees(free),
        search_resumes(before, free(before.trying()), after, step),
    ensures
        step is Bind ==> after.agrees(free),
        step matches FallbackStep::Found(c) ==> window_is_free(free, c, before.spacing) && c
            + before.spacing - 1 <= MAX_PORT && forall|d: u16|
            before.first <= d < c ==> !(#[trigger] window_is_free(free, d, before.spacing)),
        step is Nothing ==> forall|d: u16|
            before.first <= d <= before.last ==> !(#[trigger] window_is_free(
                free,
                d,
                before.spacing,
            )),
{
    if free(before.trying()) {
        assert forall|p: u16|
            before.candidate <= p < before.candidate + before.offset
                + 1 implies #[trigger] free(p) by {
            if p == before.candidate + before.offset {
                assert(p == before.trying());
            }
        }
    } else {
        assert(!window_is_free(free, before.candidate, before.spacing)) by {
            assert(before.candidate <= before.trying() < before.candidate + before.spacing);
        }
        if step is Nothing {
            assert forall|d: u16| before.first <= d <= before.last implies !(
            #[trigger] window_is_free(free, d, before.spacing)) by {
                if d > before.candidate {
                    assert(is_reserved(d));
                }
            }
        } else {
            assert forall|d: u16| before.first <= d < after.candidate implies !(
            #[trigger] window_is_free(free, d, before.spacing)) by {
                if d > before.candidate {
                    assert(is_reserved(d));
                }
            }
        }
    }
}

// ---------------------------------------------------------------------------
// Whole allocations
// ---------------------------------------------------------------------------

/// An allocation: a port of the range is tried, or a window behind the range is looked for.
#[derive(Debug)]
pub enum Allocation {
    InRange { spacing: u16, port: u16 },
    Behind { spacing: u16, search: FallbackSearch },
    Over,
}

/// How an allocation goes on.
#[derive(Debug)]
pub enum AllocationStep {
    /// Try to bind a port.
    Bind(u16),
    /// The port is allocated.
    Allocated(u16),
    /// The port behind the range is allocated, with a notice.
    FellBack { port: u16, notice: String },
    /// There is no port, which the message says.
    Failed { message: String },
}

/// The port that a range comes to from `next` on: the first one that is not both in the range
/// and reserved. No three ports in a row are reserved.
pub open spec fn offered(next: u16, range_end: u16, spacing: u16) -> u16 {
    let second = port_behind(next, range_end, spacing);
    if !(candidate_at(next, range_end) is Reserved) {
        next
    } else if !(candidate_at(second, range_end) is Reserved) {
        second
    } else {
        port_behind(second, range_end, spacing)
    }
}

/// The step of an allocation is that of its search.
pub open spec fn search_step_is(
    range_start: u16,
    range_end: u16,
    spacing: u16,
    found: FallbackStep,
    allocation: Allocation,
    step: AllocationStep,
) -> bool {
    match found {
        FallbackStep::Bind(p) => step == AllocationStep::Bind(p) && allocation is Behind,
        FallbackStep::Found(p) => step matches AllocationStep::FellBack { port, notice } && port
            == p && notice@ == fallback_text(p, spacing) && allocation is Over,
        FallbackStep::Nothing => step matches AllocationStep::Failed { message } && message@
            == exhausted_text(range_start, range_end, spacing) && allocation is Over,
    }
}

/// How an allocation takes the next port of a range that comes to `next`: it tries to bind the
/// port that is offered, or looks for a window behind the range.
pub open spec fn advances(
    before: TestPortRegistry,
    after: TestPortRegistry,
    spacing: u16,
    allocation: Allocation,
    step: AllocationStep,
) -> bool {
    let port = offered(before.next_port, before.range_end, spacing);
    &&& after.range_start == before.range_start
    &&& after.range_end == before.range_end
    &&& after.next_port == port_behind(port, before.range_end, spacing)
    &&& if port < before.range_end {
        allocation == (Allocation::InRange { spacing, port }) && step == AllocationStep::Bind(port)
    } else {
        exists|found: FallbackStep| #[trigger]
            search_step_is(
                before.range_start,
                before.range_end,
                spacing,
                found,
                allocation,
                step,
            ) && match allocation {
                Allocation::Behind { spacing: size, search } => size == spacing && search_begins(
                    before.range_end,
                    spacing,
                    Some(search),
                    found,
                ),
                _ => search_begins(before.range_end, spacing, None, found),
            }
    }
}

/// How an allocation goes on when a port could or could not be bound.
pub open spec fn allocation_resumes(
    before: TestPortRegistry,
    after: TestPortRegistry,
    was: Allocation,
    bound: bool,
    allocation: Allocation,
    step: AllocationStep,
) -> bool {
    match was {
        Allocation::InRange { spacing, port } => if bound {
            after == before && allocation is Over && step == AllocationStep::Allocated(port)
        } else {
            advances(before, after, spacing, allocation, step)
        },
        Allocation::Behind { spacing, search } => after == before && exists|
            next: FallbackSearch,
            found: FallbackStep,
        |
            #![trigger search_resumes(search, bound, next, found)]
            search_resumes(search, bound, next, found) && search_step_is(
                before.range_start,
                before.range_end,
                spacing,
                found,
                allocation,
                step,
            ) && (allocation matches Allocation::Behind { spacing: size, search: kept } ==> size
                == spacing && kept == next),
        Allocation::Over => false,
    }
}

impl Allocation {
    /// The allocation has not left its bounds.
    pub open spec fn wf(&self) -> bool {
        match self {
            Allocation::InRange { port, .. } => !is_reserved(*port),
            Allocation::Behind { search, .. } => search.wf(),
            Allocation::Over => true,
        }
    }

    fn from_search(
        registry: &TestPortRegistry,
        spacing: u16,
        search: FallbackSearch,
        found: FallbackStep,
    ) -> (r: (Allocation, AllocationStep))
        requires
            search.wf(),
        ensures
            r.0.wf(),
            search_step_is(
                registry.range_start,
                registry.range_end,
                spacing,
                found,
                r.0,
                r.1,
            ),
            r.0 matches Allocation::Behind { spacing: size, search: kept } ==> size == spacing
                && kept == search,
    {
        match found {
            FallbackStep::Bind(p) => (
                Allocation::Behind { spacing, search },
                AllocationStep::Bind(p),
            ),
            FallbackStep::Found(p) => (
                Allocation::Over,
                AllocationStep::FellBack {
                    port: p,
                    notice: TestPortRegistry::fallback_notice(p, spacing),
                },
            ),
            FallbackStep::Nothing => (
                Allocation::Over,
                AllocationStep::Failed { message: registry.exhausted_message(spacing) },
            ),
        }
    }

    /// Begins an allocation with the next port of a range; the one behind it is `spacing` ports
    /// away.
    pub fn start(registry: &mut TestPortRegistry, spacing: u16) -> (r: (
        Allocation,
        AllocationStep,
    ))
        ensures
            r.0.wf(),
            advances(*old(registry), *final(registry), spacing, r.0, r.1),
    {
        let mut tries: u8 = 0;
        loop
            invariant
                tries <= 2,
                registry.range_start == old(registry).range_start,
                registry.range_end == old(registry).range_end,
                tries == 0 ==> registry.next_port == old(registry).next_port,
                tries >= 1 ==> candidate_at(
                    old(registry).next_port,
                    old(registry).range_end,
                ) is Reserved,
                tries == 1 ==> registry.next_port == port_behind(
                    old(registry).next_port,
                    old(registry).range_end,
                    spacing,
                ),
                tries == 2 ==> candidate_at(
                    port_behind(old(registry).next_port, old(registry).range_end, spacing),
                    old(registry).range_end,
                ) is Reserved && registry.next_port == port_behind(
                    port_behind(old(registry).next_port, old(registry).range_end, spacing),
                    old(registry).range_end,
                    spacing,
                ),
            decreases 3 - tries,
        {
            match registry.allocate_spaced(spacing) {
                Candidate::Reserved(_) => {
                    tries = tries + 1;
                },
                Candidate::Port(port) => {
                    return (Allocation::InRange { spacing, port }, AllocationStep::Bind(port));
                },
                Candidate::Exhausted => {
                    let (search, found) = find_fallback_window(registry.range_end, spacing);
                    return match search {
                        Some(s) => Self::from_search(registry, spacing, s, found),
                        None => {
                            let step: AllocationStep = AllocationStep::Failed {
                                message: registry.exhausted_message(spacing),
                            };
                            assert(search_step_is(
                                registry.range_start,
                                registry.range_end,
                                spacing,
                                found,
                                Allocation::Over,
                                step,
                            ));
                            (Allocation::Over, step)
                        },
                    };
                },
            }
        }
    }

    /// Takes whether the port that was tried could be bound.
    pub fn resume(&mut self, registry: &mut TestPortRegistry, bound: bool) -> (r: AllocationStep)
        requires
            old(self).wf(),
            !(*old(self) is Over),
        ensures
            final(self).wf(),
            allocation_resumes(
                *old(registry),
                *final(registry),
                *old(self),
                bound,
                *final(self),
                r,
            ),
    {
        match self {
            Allocation::InRange { spacing, port } => {
                let allocated: u16 = *port;
                let size: u16 = *spacing;
                if bound {
                    *self = Allocation::Over;
                    AllocationStep::Allocated(allocated)
                } else {
                    let (next, step) = Self::start(registry, size);
                    *self = next;
                    step
                }
            },
            Allocation::Behind { spacing, search } => {
                let size: u16 = *spacing;
                let mut going: FallbackSearch = *search;
                let found: FallbackStep = going.resume(bound);
                let (next, step) = Self::from_search(registry, size, going, found);
                *self = next;
                step
            },
            Allocation::Over => AllocationStep::Bind(0),
        }
    }
}

/// A port of the range that is allocated is the one that was tried, could be bound, and is not
/// reserved.
pub proof fn law_allocated_port(
    before: TestPortRegistry,
    after: TestPortRegistry,
    was: Allocation,
    bound: bool,
    allocation: Allocation,
    port: u16,
)
    requires
        was.wf(),
        allocation_resumes(
            before,
            after,
            was,
            bound,
            allocation,
            AllocationStep::Allocated(port),
        ),
    ensures
        bound,
        was matches Allocation::InRange { port: tried, .. } && tried == port,
        !is_reserved(port),
{
}

/// The port of a range that is the first to be allocated from `next` on, where `free` says which
/// ports can be bound.
pub open spec fn first_free(
    next: u16,
    range_end: u16,
    spacing: u16,
    free: spec_fn(u16) -> bool,
) -> Option<u16>
    decreases range_end - next,
{
    if next >= range_end {
        None
    } else if !is_reserved(next) && free(next) {
        Some(next)
    } else {
        first_free(port_behind(next, range_end, spacing), range_end, spacing, free)
    }
}

/// What an allocation has come to after a turn.
pub struct AllocationTurn {
    pub registry: TestPortRegistry,
    pub allocation: Allocation,
    pub step: AllocationStep,
}

/// A whole allocation, turn by turn: it begins with the next port of a range, every port that it
/// tries is answered with whether it is free, and it ends with its last turn.
pub open spec fn is_whole_allocation(
    before: TestPortRegistry,
    spacing: u16,
    free: spec_fn(u16) -> bool,
    turns: Seq<AllocationTurn>,
) -> bool {
    &&& turns.len() > 0
    &&& advances(before, turns[0].registry, spacing, turns[0].allocation, turns[0].step)
    &&& goes_on_truly(free, turns)
    &&& !(turns.last().step is Bind)
}

/// Every turn but the last tries a port, and the turn behind it takes whether the port is free.
pub open spec fn goes_on_truly(free: spec_fn(u16) -> bool, turns: Seq<AllocationTurn>) -> bool {
    forall|i: int|
        0 <= i < turns.len() - 1 ==> (#[trigger] turns[i]).step is Bind && allocation_resumes(
            turns[i].registry,
            turns[i + 1].registry,
            turns[i].allocation,
            free(turns[i].step->Bind_0),
            turns[i + 1].allocation,
            turns[i + 1].step,
        )
}

/// An allocation with the spacing stands behind the range, and its search agrees with which ports
/// are free.
spec fn searches(turn: AllocationTurn, spacing: u16, free: spec_fn(u16) -> bool) -> bool {
    match turn.allocation {
        Allocation::Behind { spacing: size, search } => size == spacing && search.wf()
            && search.agrees(free) && turn.step == AllocationStep::Bind(search.trying())
            && search.first == first_candidate(turn.registry.range_end) && search.last
            == last_candidate(effective_spacing(spacing)) && search.spacing == effective_spacing(
            spacing,
        ),
        _ => false,
    }
}

/// What a search behind a range comes to: the first free window, or nothing where there is none.
pub open spec fn ends_behind(
    registry: TestPortRegistry,
    spacing: u16,
    free: spec_fn(u16) -> bool,
    step: AllocationStep,
) -> bool {
    let size = effective_spacing(spacing);
    let first = first_candidate(registry.range_end);
    match step {
        AllocationStep::FellBack { port, notice } => first <= port && port + size - 1 <= MAX_PORT
            && window_is_free(free, port, size) && (forall|d: u16|
            first <= d < port ==> !(#[trigger] window_is_free(free, d, size))) && notice@
            == fallback_text(port, spacing),
        AllocationStep::Failed { message } => (forall|d: u16|
            first <= d <= last_candidate(size) ==> !(#[trigger] window_is_free(free, d, size)))
            && message@ == exhausted_text(registry.range_start, registry.range_end, spacing),
        _ => false,
    }
}

proof fn lemma_falls_behind(
    before: TestPortRegistry,
    spacing: u16,
    free: spec_fn(u16) -> bool,
    turn: AllocationTurn,
)
    requires
        advances(before, turn.registry, spacing, turn.allocation, turn.step),
        offered(before.next_port, before.range_end, spacing) >= before.range_end,
    ensures
        turn.step is Bind ==> searches(turn, spacing, free),
        !(turn.step is Bind) ==> ends_behind(turn.registry, spacing, free, turn.step),
{
    let found = choose|found: FallbackStep| #[trigger]
        search_step_is(
            before.range_start,
            before.range_end,
            spacing,
            found,
            turn.allocation,
            turn.step,
        ) && match turn.allocation {
            Allocation::Behind { spacing: size, search } => size == spacing && search_begins(
                before.range_end,
                spacing,
                Some(search),
                found,
            ),
            _ => search_begins(before.range_end, spacing, None, found),
        };
    match turn.allocation {
        Allocation::Behind { search, .. } => {
            law_search_begins(free, before.range_end, spacing, Some(search), found);
        },
        _ => {
            law_search_begins(free, before.range_end, spacing, None, found);
        },
    }
}

proof fn lemma_ends_behind(
    spacing: u16,
    free: spec_fn(u16) -> bool,
    turns: Seq<AllocationTurn>,
)
    requires
        turns.len() > 0,
        goes_on_truly(free, turns),
        !(turns.last().step is Bind),
        searches(turns[0], spacing, free),
    ensures
        turns.last().registry == turns[0].registry,
        ends_behind(turns[0].registry, spacing, free, turns.last().step),
    decreases turns.len(),
{
    assert(turns[0].step is Bind);
    assert(turns.len() > 1);
    let search = turns[0].allocation->search;
    let bound = free(search.trying());
    let (next, found) = choose|next: FallbackSearch, found: FallbackStep|
        #![trigger search_resumes(search, bound, next, found)]
        search_resumes(search, bound, next, found) && search_step_is(
            turns[0].registry.range_start,
            turns[0].registry.range_end,
            spacing,
            found,
            turns[1].allocation,
            turns[1].step,
        ) && (turns[1].allocation matches Allocation::Behind { spacing: size, search: kept }
            ==> size == spacing && kept == next);
    law_search_finds_first_window(free, search, next, found);
    if found is Bind {
        lemma_search_stays_wf(search, bound, next, found);
        let rest = turns.drop_first();
        lemma_rest_goes_on(free, turns);
        lemma_ends_behind(spacing, free, rest);
    } else {
        assert(!(turns[1].step is Bind));
        assert(turns.len() == 2);
    }
}

proof fn lemma_search_stays_wf(
    before: FallbackSearch,
    bound: bool,
    after: FallbackSearch,
    step: FallbackStep,
)
    requires
        before.wf(),
        search_resumes(before, bound, after, step),
        step is Bind,
    ensures
        after.wf(),
        step == FallbackStep::Bind(after.trying()),
{
}

proof fn lemma_rest_goes_on(free: spec_fn(u16) -> bool, turns: Seq<AllocationTurn>)
    requires
        turns.len() > 1,
        goes_on_truly(free, turns),
    ensures
        goes_on_truly(free, turns.drop_first()),
        turns.drop_first().last() == turns.last(),
        turns.drop_first()[0] == turns[1],
{
    let rest = turns.drop_first();
    assert forall|i: int| 0 <= i < rest.len() - 1 implies (#[trigger] rest[i]).step is Bind
        && allocation_resumes(
        rest[i].registry,
        rest[i + 1].registry,
        rest[i].allocation,
        free(rest[i].step->Bind_0),
        rest[i + 1].allocation,
        rest[i + 1].step,
    ) by {
        assert(rest[i] == turns[i + 1]);
        assert(rest[i + 1] == turns[i + 2]);
    }
}

proof fn lemma_offered_keeps_first(
    next: u16,
    range_end: u16,
    spacing: u16,
    free: spec_fn(u16) -> bool,
)
    ensures
        first_free(next, range_end, spacing, free) == first_free(
            offered(next, range_end, spacing),
            range_end,
            spacing,
            free,
        ),
        offered(next, range_end, spacing) >= next,
        offered(next, range_end, spacing) < range_end ==> !is_reserved(
            offered(next, range_end, spacing),
        ),
{
    reveal_with_fuel(first_free, 3);
}

/// What a whole allocation gives, whichever ports are free: the first port from the next one of
/// the range on, in steps of the spacing, that is free and not reserved, and then the range goes
/// on behind it; or, where the range has none left, the first free window behind the range, or a
/// failure where there is no such window.
pub proof fn law_whole_allocation(
    before: TestPortRegistry,
    spacing: u16,
    free: spec_fn(u16) -> bool,
    turns: Seq<AllocationTurn>,
)
    requires
        is_whole_allocation(before, spacing, free, turns),
    ensures
        turns.last().registry.range_start == before.range_start,
        turns.last().registry.range_end == before.range_end,
        turns.last().registry.next_port >= before.next_port,
        match first_free(before.next_port, before.range_end, spacing, free) {
            Some(port) => turns.last().step == AllocationStep::Allocated(port)
                && turns.last().registry.next_port == port_behind(port, before.range_end, spacing),
            None => turns.last().registry.next_port >= before.range_end && ends_behind(
                turns.last().registry,
                spacing,
                free,
                turns.last().step,
            ),
        },
    decreases turns.len(),
{
    let next = before.next_port;
    let end = before.range_end;
    let port = offered(next, end, spacing);
    lemma_offered_keeps_first(next, end, spacing, free);
    if port >= end {
        lemma_falls_behind(before, spacing, free, turns[0]);
        if turns[0].step is Bind {
            lemma_ends_behind(spacing, free, turns);
        } else {
            assert(turns.len() == 1) by {
                if turns.len() > 1 {
                    assert(turns[0].step is Bind);
                }
            }
        }
    } else {
        assert(turns[0].step is Bind);
        assert(turns.len() > 1);
        if free(port) {
            assert(!(turns[1].step is Bind));
            assert(turns.len() == 2) by {
                if turns.len() > 2 {
                    assert(turns[1].step is Bind);
                }
            }
        } else {
            let rest = turns.drop_first();
            lemma_rest_goes_on(free, turns);
            law_whole_allocation(turns[0].registry, spacing, free, rest);
        }
    }
}

/// The port that a range gives lies in it, is free and not reserved; without spacing it is the
/// lowest such port that is not passed over yet, and there is one exactly when such a port is left.
pub proof fn law_first_free(
    next: u16,
    range_end: u16,
    spacing: u16,
    free: spec_fn(u16) -> bool,
)
    ensures
        first_free(next, range_end, spacing, free) matches Some(port) ==> next <= port < range_end
            && free(port) && !is_reserved(port),
        spacing <= 1 ==> match first_free(next, range_end, spacing, free) {
            Some(port) => forall|p: u16| next <= p < port ==> is_reserved(p) || !#[trigger] free(p),
            None => forall|p: u16| next <= p < range_end ==> is_reserved(p) || !#[trigger] free(p),
        },
    decreases range_end - next,
{
    if next < range_end && !(!is_reserved(next) && free(next)) {
        law_first_free(port_behind(next, range_end, spacing), range_end, spacing, free);
    }
}

/// A whole allocation in a history: the range before it, the spacing, which ports were free
/// meanwhile, and its turns.
pub struct AllocationCall {
    pub before: TestPortRegistry,
    pub spacing: u16,
    pub free: spec_fn(u16) -> bool,
    pub turns: Seq<AllocationTurn>,
}

/// Whole allocations from one range, one after the other.
pub open spec fn is_history(calls: Seq<AllocationCall>) -> bool {
    &&& forall|i: int|
        0 <= i < calls.len() ==> is_whole_allocation(
            (#[trigger] calls[i]).before,
            calls[i].spacing,
            calls[i].free,
            calls[i].turns,
        )
    &&& forall|i: int|
        0 <= i < calls.len() - 1 ==> calls[i + 1].before == (#[trigger] calls[
            i
        ]).turns.last().registry
}

proof fn lemma_history_grows(calls: Seq<AllocationCall>, i: int, j: int)
    requires
        is_history(calls),
        0 <= i < j < calls.len(),
    ensures
        calls[j].before.range_start == calls[i].before.range_start,
        calls[j].before.range_end == calls[i].before.range_end,
        calls[j].before.next_port >= calls[i].turns.last().registry.next_port,
    decreases j - i,
{
    let c = calls[j - 1];
    law_whole_allocation(c.before, c.spacing, c.free, c.turns);
    assert(calls[j - 1 + 1].before == calls[j - 1].turns.last().registry);
    if j - 1 > i {
        lemma_history_grows(calls, i, j - 1);
    }
}

/// Of any two ports of the range that whole allocations gave, the later one differs from the
/// earlier: it is the higher by at least the spacing that the earlier one was asked for with,
/// whatever spacing the later call uses and however many calls lie between. Both lie in the range,
/// were free, and are not reserved. A port that a later
/// call got from behind the range lies behind it.
pub proof fn law_allocations_differ(calls: Seq<AllocationCall>, i: int, j: int, p: u16)
    requires
        is_history(calls),
        0 <= i < j < calls.len(),
        calls[0].before.range_start <= calls[0].before.next_port,
        calls[i].turns.last().step == AllocationStep::Allocated(p),
    ensures
        calls[0].before.range_start <= p < calls[0].before.range_end,
        !is_reserved(p) && (calls[i].free)(p),
        calls[j].turns.last().step matches AllocationStep::Allocated(q) ==> q >= p
            + effective_spacing(calls[i].spacing) && q < calls[0].before.range_end && !is_reserved(
            q,
        ) && (calls[j].free)(q),
        calls[j].turns.last().step matches AllocationStep::FellBack { port, .. } ==> port
            >= calls[0].before.range_end,
{
    let a = calls[i];
    let b = calls[j];
    if i > 0 {
        let c = calls[0];
        law_whole_allocation(c.before, c.spacing, c.free, c.turns);
        lemma_history_grows(calls, 0, i);
    }
    lemma_history_grows(calls, i, j);
    law_whole_allocation(a.before, a.spacing, a.free, a.turns);
    law_whole_allocation(b.before, b.spacing, b.free, b.turns);
    law_first_free(a.before.next_port, a.before.range_end, a.spacing, a.free);
    law_first_free(b.before.next_port, b.before.range_end, b.spacing, b.free);
}

// ---------------------------------------------------------------------------
// Claiming a range
// ---------------------------------------------------------------------------

/// A claim in the shared list.
#[derive(Debug, Clone)]
pub struct RegistryEntry {
    pub pid: u32,
    pub binary: String,
    pub range_start: u16,
    pub range_end: u16,
    /// When the claim was made, in seconds since 1970.
    pub ts: u64,
    /// When the process started, in seconds since 1970; 0 where the entry does not say.
    pub start_time: u64,
}

impl RegistryEntry {
    /// A copy of the entry.
    pub fn duplicate(&self) -> (r: Self)
        ensures
            r == *self,
    {
        RegistryEntry {
            pid: self.pid,
            binary: self.binary.clone(),
            range_start: self.range_start,
            range_end: self.range_end,
            ts: self.ts,
            start_time: self.start_time,
        }
    }
}

/// What the system says about the process of an entry: whether it can be signalled, and when it
/// started.
#[derive(Debug, Clone, Copy)]
pub struct ProcessProbe {
    pub signalled: bool,
    pub reported_start: Option<u64>,
}

/// Whether a process is alive; there is no process 0.
pub fn is_process_alive(pid: u32, signalled: bool) -> (r: bool)
    ensures
        r == (pid != 0 && signalled),
{
    pid != 0 && signalled
}

/// When a process started, if it is known: 0 is not a time.
pub open spec fn start_of(pid: u32, reported: Option<u64>) -> Option<u64> {
    match reported {
        Some(t) => if pid != 0 && t != 0 {
            Some(t)
        } else {
            None
        },
        None => None,
    }
}

/// When a process started, if it is known.
pub fn process_start_time(pid: u32, reported: Option<u64>) -> (r: Option<u64>)
    ensures
        r == start_of(pid, reported),
{
    match reported {
        Some(t) => if pid != 0 && t != 0 {
            Some(t)
        } else {
            None
        },
        None => None,
    }
}

/// The process that made an entry still runs: it is alive, the entry says when it started, and
/// it is not another process with the same number.
pub open spec fn is_current(entry: RegistryEntry, probe: ProcessProbe) -> bool {
    &&& entry.pid != 0
    &&& probe.signalled
    &&& entry.start_time != 0
    &&& start_of(entry.pid, probe.reported_start) == Some(entry.start_time)
}

/// Whether the process that made an entry still runs.
pub fn process_identity_is_current(entry: &RegistryEntry, probe: &ProcessProbe) -> (r: bool)
    ensures
        r == is_current(*entry, *probe),
{
    is_process_alive(entry.pid, probe.signalled) && entry.start_time != 0
        && match process_start_time(entry.pid, probe.reported_start) {
        Some(t) => t == entry.start_time,
        None => false,
    }
}

/// The entries among the first `n` whose processes still run.
pub open spec fn live_entries(
    entries: Seq<RegistryEntry>,
    probes: Seq<ProcessProbe>,
    n: nat,
) -> Seq<RegistryEntry>
    decreases n,
{
    if n == 0 {
        Seq::empty()
    } else {
        let rest = live_entries(entries, probes, (n - 1) as nat);
        if is_current(entries[n - 1], probes[n - 1]) {
            rest.push(entries[n - 1])
        } else {
            rest
        }
    }
}

/// The ports from `start` on, `size` of them, have one in common with the range of an entry.
pub open spec fn meets(entry: RegistryEntry, start: int, size: u16) -> bool {
    exists|port: int|
        start <= port < start + size && #[trigger] in_range(entry, port)
}

/// A port is in the range of an entry.
pub open spec fn in_range(entry: RegistryEntry, port: int) -> bool {
    entry.range_start <= port < entry.range_end
}

/// The ports from `start` on, `size` of them, are claimed by none of the entries.
pub open spec fn is_unclaimed(live: Seq<RegistryEntry>, start: int, size: u16) -> bool {
    forall|i: int| 0 <= i < live.len() ==> !meets(#[trigger] live[i], start, size)
}

/// Where a claim begins: at the lowest port from which on the range meets no claim of a process
/// that still runs and does not reach beyond the last port. There is none where no such range is
/// left.
pub open spec fn claim_starts_at(
    live: Seq<RegistryEntry>,
    range_size: u16,
    start: Option<u16>,
) -> bool {
    match start {
        Some(s) => BASE_PORT <= s && s + range_size <= MAX_PORT && is_unclaimed(
            live,
            s as int,
            range_size,
        ) && forall|t: int| BASE_PORT <= t < s ==> !#[trigger] is_unclaimed(live, t, range_size),
        None => forall|t: int|
            BASE_PORT <= t && t + range_size <= MAX_PORT ==> !#[trigger] is_unclaimed(
                live,
                t,
                range_size,
            ),
    }
}

/// The claims after a claim by `me` that begins at a port: those of the processes that still run,
/// and the new one.
pub open spec fn claimed(
    live: Seq<RegistryEntry>,
    start: u16,
    range_size: u16,
    me: RegistryEntry,
) -> Seq<RegistryEntry> {
    live.push(
        (RegistryEntry {
            range_start: start,
            range_end: (start + range_size) as u16,
            ..me
        }),
    )
}

/// What is said about entries that were dropped.
pub open spec fn cleaning_notices(cleaned: nat) -> Seq<Seq<char>> {
    if cleaned > 0 {
        Seq::<Seq<char>>::empty().push(
            "TestPortRegistry: cleaned "@ + decimal(cleaned) + " stale entries from dead PIDs"@,
        )
    } else {
        Seq::empty()
    }
}

/// What is said about a claim.
pub open spec fn claim_notices(
    cleaned: nat,
    start: u16,
    range_size: u16,
    me: RegistryEntry,
) -> Seq<Seq<char>> {
    cleaning_notices(cleaned).push(
        "TestPortRegistry: claimed ports "@ + decimal(start as nat) + "-"@ + decimal(
            (start + range_size) as nat,
        ) + " for "@ + me.binary@ + " (PID "@ + decimal(me.pid as nat) + ")"@,
    )
}

/// The message where no range is left.
pub open spec fn no_range_text(range_size: u16) -> Seq<char> {
    "TestPortRegistry: no range of "@ + decimal(range_size as nat)
        + " ports is left between 15000 and 55000"@
}

/// A claim: the list as it is to be written, the range, and what is said about it.
#[derive(Debug)]
pub struct Claim {
    pub allocations: Vec<RegistryEntry>,
    pub registry: TestPortRegistry,
    pub notices: Vec<String>,
}

/// That no range is left, and what is said about it.
#[derive(Debug)]
pub struct NoRange {
    pub message: String,
    pub notices: Vec<String>,
}

fn retain_current(entries: &Vec<RegistryEntry>, probes: &Vec<ProcessProbe>) -> (r: Vec<
    RegistryEntry,
>)
    requires
        entries.len() == probes.len(),
    ensures
        r@ == live_entries(entries@, probes@, entries@.len()),
        r.len() <= entries.len(),
{
    let mut out: Vec<RegistryEntry> = Vec::new();
    let mut i: usize = 0;
    while i < entries.len()
        invariant
            i <= entries.len(),
            entries.len() == probes.len(),
            out.len() <= i,
            out@ == live_entries(entries@, probes@, i as nat),
        decreases entries.len() - i,
    {
        if process_identity_is_current(&entries[i], &probes[i]) {
            out.push(entries[i].duplicate());
        }
        i = i + 1;
    }
    out
}

proof fn lemma_meets(entry: RegistryEntry, start: int, size: u16)
    ensures
        meets(entry, start, size) <==> start < entry.range_end && entry.range_start < start + size
            && entry.range_start < entry.range_end && size > 0,
{
    if start < entry.range_end && entry.range_start < start + size && entry.range_start
        < entry.range_end && size > 0 {
        let port = if start >= entry.range_start {
            start
        } else {
            entry.range_start as int
        };
        assert(in_range(entry, port));
    }
}

/// The position of an entry that the ports meet; the number of entries where there is none.
fn find_met(entries: &Vec<RegistryEntry>, start: u16, size: u16) -> (r: usize)
    ensures
        r <= entries.len(),
        r < entries.len() ==> meets(entries@[r as int], start as int, size),
        r == entries.len() ==> is_unclaimed(entries@, start as int, size),
{
    let mut i: usize = 0;
    while i < entries.len()
        invariant
            i <= entries.len(),
            forall|j: int| 0 <= j < i ==> !meets(#[trigger] entries@[j], start as int, size),
        decreases entries.len() - i,
    {
        proof {
            lemma_meets(entries@[i as int], start as int, size);
        }
        let end: u16 = entries[i].range_end;
        let from: u16 = entries[i].range_start;
        if size > 0 && start < end && from < end && (from < start || from - start < size) {
            return i;
        }
        i = i + 1;
    }
    i
}

fn find_start(entries: &Vec<RegistryEntry>, size: u16) -> (r: Option<u16>)
    ensures
        claim_starts_at(entries@, size, r),
{
    let mut start: u16 = BASE_PORT;
    while start <= MAX_PORT && size <= MAX_PORT - start
        invariant
            BASE_PORT <= start,
            forall|t: int|
                BASE_PORT <= t < start ==> !#[trigger] is_unclaimed(entries@, t, size),
        decreases u16::MAX - start,
    {
        let met: usize = find_met(entries, start, size);
        if met == entries.len() {
            return Some(start);
        }
        let end: u16 = entries[met].range_end;
        proof {
            lemma_meets(entries@[met as int], start as int, size);
            assert forall|t: int| BASE_PORT <= t < end implies !#[trigger] is_unclaimed(
                entries@,
                t,
                size,
            ) by {
                if t >= start {
                    lemma_meets(entries@[met as int], t, size);
                }
            }
        }
        start = end;
    }
    None
}

fn put_line(lines: &mut Vec<String>, line: String)
    ensures
        views(final(lines)@) == views(old(lines)@).push(line@),
{
    lines.push(line);
    assert(views(lines@) =~= views(old(lines)@).push(line@));
}

/// Claims the first range that meets none of those of the processes that still run; `probes` says
/// for each entry what the system knows of its process. The claims of these processes are kept,
/// and the others are dropped. It fails only where no such range is left. `me` describes the
/// claiming process; its range is filled in.
pub fn claim_range(
    entries: &Vec<RegistryEntry>,
    probes: &Vec<ProcessProbe>,
    range_size: u16,
    me: RegistryEntry,
) -> (r: Result<Claim, NoRange>)
    requires
        entries.len() == probes.len(),
    ensures
        ({
            let live = live_entries(entries@, probes@, entries@.len());
            let cleaned = (entries@.len() - live.len()) as nat;
            match r {
                Ok(claim) => {
                    let start = claim.registry.range_start;
                    &&& claim_starts_at(live, range_size, Some(start))
                    &&& claim.registry.range_end == start + range_size
                    &&& claim.registry.next_port == start
                    &&& claim.allocations@ == claimed(live, start, range_size, me)
                    &&& views(claim.notices@) == claim_notices(cleaned, start, range_size, me)
                    &&& forall|i: int|
                        0 <= i < entries@.len() && is_current(#[trigger] entries@[i], probes@[i])
                            ==> !meets(entries@[i], start as int, range_size)
                            && claim.allocations@.contains(entries@[i])
                },
                Err(failure) => {
                    &&& claim_starts_at(live, range_size, None)
                    &&& failure.message@ == no_range_text(range_size)
                    &&& views(failure.notices@) == cleaning_notices(cleaned)
                },
            }
        }),
{
    let mut allocations: Vec<RegistryEntry> = retain_current(entries, probes);
    let ghost live = allocations@;
    let mut notices: Vec<String> = Vec::new();
    assert(views(notices@) =~= Seq::<Seq<char>>::empty());
    let cleaned: usize = entries.len() - allocations.len();
    if cleaned > 0 {
        put_line(
            &mut notices,
            cat3(
                "TestPortRegistry: cleaned ",
                num_usize(cleaned).as_str(),
                " stale entries from dead PIDs",
            ),
        );
    }
    let start: u16 = match find_start(&allocations, range_size) {
        Some(start) => start,
        None => {
            let message: String = cat3(
                "TestPortRegistry: no range of ",
                num(range_size as u64).as_str(),
                " ports is left between 15000 and 55000",
            );
            return Err(NoRange { message, notices });
        },
    };
    let range_end: u16 = start + range_size;
    let ports: String = cat5(
        "TestPortRegistry: claimed ports ",
        num(start as u64).as_str(),
        "-",
        num(range_end as u64).as_str(),
        " for ",
    );
    let named: String = cat3(ports.as_str(), me.binary.as_str(), " (PID ");
    put_line(&mut notices, cat3(named.as_str(), num(me.pid as u64).as_str(), ")"));
    let entry = RegistryEntry {
        pid: me.pid,
        binary: me.binary,
        range_start: start,
        range_end,
        ts: me.ts,
        start_time: me.start_time,
    };
    allocations.push(entry);
    proof {
        assert forall|i: int|
            0 <= i < entries@.len() && is_current(
                #[trigger] entries@[i],
                probes@[i],
            ) implies !meets(entries@[i], start as int, range_size) && allocations@.contains(
            entries@[i],
        ) by {
            lemma_current_is_live(entries@, probes@, entries@.len(), i);
            let k = choose|k: int| 0 <= k < live.len() && live[k] == entries@[i];
            assert(allocations@[k] == live[k]);
        }
    }
    Ok(
        Claim {
            allocations,
            registry: TestPortRegistry { range_start: start, range_end, next_port: start },
            notices,
        },
    )
}

proof fn lemma_current_is_live(
    entries: Seq<RegistryEntry>,
    probes: Seq<ProcessProbe>,
    n: nat,
    i: int,
)
    requires
        0 <= i < n <= entries.len(),
        is_current(entries[i], probes[i]),
    ensures
        live_entries(entries, probes, n).contains(entries[i]),
    decreases n,
{
    let all = live_entries(entries, probes, n);
    let rest = live_entries(entries, probes, (n - 1) as nat);
    if i == n - 1 {
        assert(all[all.len() - 1] == entries[i]);
    } else {
        lemma_current_is_live(entries, probes, (n - 1) as nat, i);
        let k = choose|k: int| 0 <= k < rest.len() && rest[k] == entries[i];
        assert(all[k] == rest[k]);
    }
}

/// A claimed range has no port in common with the range of any process that still runs.
pub proof fn law_claims_are_disjoint(
    live: Seq<RegistryEntry>,
    start: u16,
    range_size: u16,
    me: RegistryEntry,
    i: int,
    port: int,
)
    requires
        claim_starts_at(live, range_size, Some(start)),
        0 <= i < live.len(),
        in_range(live[i], port),
    ensures
        !in_range(claimed(live, start, range_size, me).last(), port),
{
    assert(!meets(live[i], start as int, range_size));
}

/// If no two processes that still run have a port in common, none do after a claim: it keeps all
/// of their claims.
pub proof fn law_claims_stay_disjoint(
    live: Seq<RegistryEntry>,
    start: u16,
    range_size: u16,
    me: RegistryEntry,
)
    requires
        claim_starts_at(live, range_size, Some(start)),
        ranges_disjoint(live),
    ensures
        ranges_disjoint(claimed(live, start, range_size, me)),
        live.is_prefix_of(claimed(live, start, range_size, me)),
{
    let after = claimed(live, start, range_size, me);
    assert forall|i: int, j: int, port: int| 0 <= i < j < after.len() implies !(in_range(
        #[trigger] after[i],
        port,
    ) && #[trigger] in_range(after[j], port)) by {
        assert(after[i] == live[i]);
        if j < after.len() - 1 {
            assert(after[j] == live[j]);
        } else if in_range(after[i], port) {
            law_claims_are_disjoint(live, start, range_size, me, i, port);
        }
    }
}

/// No two entries have a port in common.
pub open spec fn ranges_disjoint(entries: Seq<RegistryEntry>) -> bool {
    forall|i: int, j: int, port: int|
        0 <= i < j < entries.len() ==> !(in_range(#[trigger] entries[i], port)
            && #[trigger] in_range(entries[j], port))
}

/// A claimed range lies between the lowest and the highest port, and has the size that was asked
/// for.
pub proof fn law_claims_are_in_bounds(
    live: Seq<RegistryEntry>,
    start: u16,
    range_size: u16,
    me: RegistryEntry,
)
    requires
        claim_starts_at(live, range_size, Some(start)),
    ensures
        ({
            let mine = claimed(live, start, range_size, me).last();
            &&& BASE_PORT <= mine.range_start
            &&& mine.range_end == mine.range_start + range_size
            &&& mine.range_end <= MAX_PORT
        }),
{
}

/// There is at most one place where a claim can begin.
pub proof fn law_claims_are_determined(
    live: Seq<RegistryEntry>,
    range_size: u16,
    a: Option<u16>,
    b: Option<u16>,
)
    requires
        claim_starts_at(live, range_size, a),
        claim_starts_at(live, range_size, b),
    ensures
        a == b,
{
    match (a, b) {
        (Some(s), Some(t)) => {
            if s < t {
                assert(!is_unclaimed(live, s as int, range_size));
            }
            if t < s {
                assert(!is_unclaimed(live, t as int, range_size));
            }
        },
        (Some(s), None) => {
            assert(!is_unclaimed(live, s as int, range_size));
        },
        (None, Some(t)) => {
            assert(!is_unclaimed(live, t as int, range_size));
        },
        (None, None) => {},
    }
}

/// An entry that does not say when its process started is never kept, nor is one whose process
/// started at another time.
pub proof fn law_reused_numbers_are_dropped(entry: RegistryEntry, probe: ProcessProbe)
    requires
        entry.start_time == 0 || probe.reported_start != Some(entry.start_time),
    ensures
        !is_current(entry, probe),
{
}

// ---------------------------------------------------------------------------
// Claims in turn
// ---------------------------------------------------------------------------

/// A claim among others: the entries that it found, what was known of their processes, the port
/// that it began at, its size, and who made it.
pub struct ClaimRound {
    pub entries: Seq<RegistryEntry>,
    pub probes: Seq<ProcessProbe>,
    pub start: u16,
    pub size: u16,
    pub me: RegistryEntry,
}

impl ClaimRound {
    /// The entries whose processes still ran.
    pub open spec fn live(self) -> Seq<RegistryEntry> {
        live_entries(self.entries, self.probes, self.entries.len())
    }

    /// The entries that the claim leaves.
    pub open spec fn left(self) -> Seq<RegistryEntry> {
        claimed(self.live(), self.start, self.size, self.me)
    }

    /// The entry of the claim itself.
    pub open spec fn mine(self) -> RegistryEntry {
        self.left().last()
    }

    /// Whether every process that made the entry still ran at the claim.
    pub open spec fn knows_alive(self, entry: RegistryEntry) -> bool {
        forall|p: int|
            0 <= p < self.entries.len() && #[trigger] self.entries[p] == entry ==> is_current(
                entry,
                self.probes[p],
            )
    }
}

/// Claims one after the other, each on the entries that the one before it left.
pub open spec fn is_claim_history(rounds: Seq<ClaimRound>) -> bool {
    &&& forall|k: int|
        0 <= k < rounds.len() ==> claim_starts_at(
            (#[trigger] rounds[k]).live(),
            rounds[k].size,
            Some(rounds[k].start),
        )
    &&& forall|k: int| 0 <= k < rounds.len() - 1 ==> #[trigger] is_left_to_next(rounds, k)
}

/// The claim behind that at `k` finds the entries that the one at `k` left.
pub open spec fn is_left_to_next(rounds: Seq<ClaimRound>, k: int) -> bool {
    rounds[k + 1].entries == rounds[k].left()
}

proof fn lemma_claim_is_found(rounds: Seq<ClaimRound>, i: int, j: int)
    requires
        is_claim_history(rounds),
        0 <= i < j < rounds.len(),
        forall|k: int| i < k <= j ==> (#[trigger] rounds[k]).knows_alive(rounds[i].mine()),
    ensures
        rounds[j].live().contains(rounds[i].mine()),
    decreases j - i,
{
    let mine = rounds[i].mine();
    assert(is_left_to_next(rounds, j - 1));
    let found = rounds[j].entries;
    if i == j - 1 {
        assert(found[found.len() - 1] == mine);
    } else {
        lemma_claim_is_found(rounds, i, j - 1);
        let live = rounds[j - 1].live();
        let k = choose|k: int| 0 <= k < live.len() && live[k] == mine;
        assert(found[k] == live[k]);
    }
    let p = choose|p: int| 0 <= p < found.len() && found[p] == mine;
    assert(rounds[j].knows_alive(mine));
    lemma_current_is_live(found, rounds[j].probes, found.len(), p);
}

/// Of any two claims that were made in turn, each on the entries that the last one left, the later
/// has no port in common with the earlier while the process that made the earlier one lives,
/// however many claims lie between.
pub proof fn law_claims_in_turn_are_disjoint(rounds: Seq<ClaimRound>, i: int, j: int, port: int)
    requires
        is_claim_history(rounds),
        0 <= i < j < rounds.len(),
        forall|k: int| i < k <= j ==> (#[trigger] rounds[k]).knows_alive(rounds[i].mine()),
    ensures
        !(in_range(rounds[i].mine(), port) && in_range(rounds[j].mine(), port)),
{
    lemma_claim_is_found(rounds, i, j);
    let r = rounds[j];
    let live = r.live();
    let k = choose|k: int| 0 <= k < live.len() && live[k] == rounds[i].mine();
    if in_range(live[k], port) {
        law_claims_are_disjoint(live, r.start, r.size, r.me, k, port);
    }
}

// ---------------------------------------------------------------------------
// The registry of a process
// ---------------------------------------------------------------------------

/// What the first call claimed: the list as it is to be written, and what is said about it.
#[derive(Debug)]
pub struct FirstClaim {
    pub allocations: Vec<RegistryEntry>,
    pub notices: Vec<String>,
}

/// What a process holds after it asked for its registry: what it held, or else a range that it
/// claimed, or nothing where none is left.
pub open spec fn gets(
    held: Option<TestPortRegistry>,
    live: Seq<RegistryEntry>,
    after: Option<TestPortRegistry>,
) -> bool {
    match (held, after) {
        (Some(_), _) => after == held,
        (None, Some(registry)) => {
            &&& claim_starts_at(live, DEFAULT_RANGE_SIZE, Some(registry.range_start))
            &&& registry.range_end == registry.range_start + DEFAULT_RANGE_SIZE
            &&& registry.next_port == registry.range_start
        },
        (None, None) => claim_starts_at(live, DEFAULT_RANGE_SIZE, None),
    }
}

impl TestPortRegistry {
    /// The registry of a process, which is claimed on the first call and kept from then on: what
    /// the first call claimed is to be written. A call that finds a range held does not look at
    /// the entries.
    pub fn get(
        held: &mut Option<TestPortRegistry>,
        entries: &Vec<RegistryEntry>,
        probes: &Vec<ProcessProbe>,
        me: RegistryEntry,
    ) -> (r: Result<Option<FirstClaim>, NoRange>)
        requires
            entries.len() == probes.len(),
        ensures
            ({
                let live = live_entries(entries@, probes@, entries@.len());
                let cleaned = (entries@.len() - live.len()) as nat;
                &&& gets(*old(held), live, *final(held))
                &&& match r {
                    Ok(None) => *old(held) is Some,
                    Ok(Some(first)) => {
                        let start = final(held)->0.range_start;
                        &&& *old(held) is None && *final(held) is Some
                        &&& first.allocations@ == claimed(live, start, DEFAULT_RANGE_SIZE, me)
                        &&& views(first.notices@) == claim_notices(
                            cleaned,
                            start,
                            DEFAULT_RANGE_SIZE,
                            me,
                        )
                    },
                    Err(failure) => {
                        &&& *old(held) is None && *final(held) is None
                        &&& failure.message@ == no_range_text(DEFAULT_RANGE_SIZE)
                        &&& views(failure.notices@) == cleaning_notices(cleaned)
                    },
                }
            }),
    {
        if held.is_some() {
            return Ok(None);
        }
        match claim_range(entries, probes, DEFAULT_RANGE_SIZE, me) {
            Ok(claim) => {
                *held = Some(claim.registry);
                Ok(Some(FirstClaim { allocations: claim.allocations, notices: claim.notices }))
            },
            Err(failure) => Err(failure),
        }
    }
}

/// A call for the registry of a process: what it held before and after, the entries that were
/// found, and what was known of their processes.
pub struct GetCall {
    pub before: Option<TestPortRegistry>,
    pub entries: Seq<RegistryEntry>,
    pub probes: Seq<ProcessProbe>,
    pub after: Option<TestPortRegistry>,
}

/// Two registries have the same range.
pub open spec fn same_range(a: Option<TestPortRegistry>, b: Option<TestPortRegistry>) -> bool {
    match (a, b) {
        (Some(x), Some(y)) => x.range_start == y.range_start && x.range_end == y.range_end,
        (None, None) => true,
        _ => false,
    }
}

/// The calls of a process, from the first on. Between two of them ports may be allocated, which
/// keeps the range.
pub open spec fn are_gets(calls: Seq<GetCall>) -> bool {
    &&& calls.len() > 0 ==> calls[0].before is None
    &&& forall|k: int|
        0 <= k < calls.len() ==> gets(
            (#[trigger] calls[k]).before,
            live_entries(calls[k].entries, calls[k].probes, calls[k].entries.len()),
            calls[k].after,
        )
    &&& forall|k: int| 0 <= k < calls.len() - 1 ==> #[trigger] keeps_range(calls, k)
}

/// The range is kept from the call at `k` to the one behind it.
pub open spec fn keeps_range(calls: Seq<GetCall>, k: int) -> bool {
    same_range(calls[k].after, calls[k + 1].before)
}

/// The call claims the range.
pub open spec fn claims(call: GetCall) -> bool {
    call.before is None && call.after is Some
}

/// Every call of a process gives the same registry: once a call has claimed a range, every later
/// one gives that range. It has 1000 ports between 15000 and 55000, and has none in common with the
/// range of any process that still ran when it was claimed.
pub proof fn law_registry_is_kept(calls: Seq<GetCall>, j: int)
    requires
        are_gets(calls),
        0 <= j < calls.len(),
        calls[j].after is Some,
    ensures
        exists|i: int|
            0 <= i <= j && #[trigger] claims(calls[i]) && same_range(
                calls[i].after,
                calls[j].after,
            ) && forall|p: int, port: int|
                0 <= p < calls[i].entries.len() && is_current(
                    #[trigger] calls[i].entries[p],
                    calls[i].probes[p],
                ) && #[trigger] in_range(calls[i].entries[p], port) ==> !(
                calls[j].after->0.range_start <= port < calls[j].after->0.range_end),
        calls[j].after matches Some(registry) && 15000 <= registry.range_start
            && registry.range_end == registry.range_start + 1000 && registry.range_end <= 55000,
        forall|k: int|
            j <= k < calls.len() ==> same_range(calls[j].after, (#[trigger] calls[k]).after),
    decreases j,
{
    let call = calls[j];
    let live = live_entries(call.entries, call.probes, call.entries.len());
    if call.before is None {
        let start = call.after->0.range_start;
        assert(claims(call));
        assert forall|p: int, port: int|
            0 <= p < call.entries.len() && is_current(
                #[trigger] call.entries[p],
                call.probes[p],
            ) && #[trigger] in_range(call.entries[p], port) implies !(start <= port
            < call.after->0.range_end) by {
            lemma_current_is_live(call.entries, call.probes, call.entries.len(), p);
            let k = choose|k: int| 0 <= k < live.len() && live[k] == call.entries[p];
            assert(!meets(live[k], start as int, DEFAULT_RANGE_SIZE));
        }
    } else {
        assert(keeps_range(calls, j - 1));
        law_registry_is_kept(calls, j - 1);
    }
    assert forall|k: int| j <= k < calls.len() implies same_range(
        call.after,
        (#[trigger] calls[k]).after,
    ) by {
        lemma_range_is_kept(calls, j, k);
    }
}

proof fn lemma_range_is_kept(calls: Seq<GetCall>, j: int, k: int)
    requires
        are_gets(calls),
        0 <= j <= k < calls.len(),
        calls[j].after is Some,
    ensures
        same_range(calls[j].after, calls[k].after),
    decreases k - j,
{
    if j < k {
        lemma_range_is_kept(calls, j, k - 1);
        assert(keeps_range(calls, k - 1));
        assert(gets(
            calls[k].before,
            live_entries(calls[k].entries, calls[k].probes, calls[k].entries.len()),
            calls[k].after,
        ));
    }
}

} // verus!
