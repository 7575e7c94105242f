//! Which entries of the port registry are kept.

use vstd::prelude::*;

use crate::port_registry::{is_current, live_entries, ProcessProbe, RegistryEntry};

verus! {

/// An entry is kept exactly where its process can be signalled and started when the entry says;
/// neither number may be zero.
pub proof fn law_running_processes(entry: RegistryEntry, probe: ProcessProbe)
    ensures
        is_current(entry, probe) <==> {
            &&& probe.signalled
            &&& entry.pid != 0
            &&& entry.start_time != 0
            &&& probe.reported_start == Some(entry.start_time)
        },
{
}

/// Entries are kept in their order: an entry behind the others is kept where its process still
/// runs, and those before it are kept or dropped as before.
pub proof fn law_live_entries(
    entries: Seq<RegistryEntry>,
    probes: Seq<ProcessProbe>,
    entry: RegistryEntry,
    probe: ProcessProbe,
)
    requires
        entries.len() == probes.len(),
    ensures
        live_entries(Seq::empty(), Seq::empty(), 0).len() == 0,
        live_entries(entries.push(entry), probes.push(probe), entries.len() + 1) == (if is_current(
            entry,
            probe,
        ) {
            live_entries(entries, probes, entries.len()).push(entry)
        } else {
            live_entries(entries, probes, entries.len())
        }),
{
    assert(entries.push(entry)[entries.len() as int] == entry);
    assert(probes.push(probe)[entries.len() as int] == probe);
    lemma_live_prefix(entries, probes, entry, probe, entries.len());
}

proof fn lemma_live_prefix(
    entries: Seq<RegistryEntry>,
    probes: Seq<ProcessProbe>,
    entry: RegistryEntry,
    probe: ProcessProbe,
    n: nat,
)
    requires
        n <= entries.len() == probes.len(),
    ensures
        live_entries(entries.push(entry), probes.push(probe), n) == live_entries(
            entries,
            probes,
            n,
        ),
    decreases n,
{
    if n > 0 {
        lemma_live_prefix(entries, probes, entry, probe, (n - 1) as nat);
        assert(entries.push(entry)[n - 1] == entries[n - 1]);
        assert(probes.push(probe)[n - 1] == probes[n - 1]);
    }
}

} // verus!
