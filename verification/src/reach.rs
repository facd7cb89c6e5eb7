//! Laws of the tracer: a trace that starts with nothing visits only what
//! control flow can reach from the entry, and comes to an end.
use vstd::prelude::*;
use crate::address::{flat, MemoryAddress};
use crate::tracer::{
    at, distinct, first_at, first_unvisited, has_value, learned, marked, path_traced, paths_traced,
    target_of, traced, visited_in, walked, MAX_PATHS, Rom, SeenDestination, Trace,
};

verus! {

/// Whether the instruction at `off` can be reached from `entry`.
pub open spec fn reachable(rom: Rom, entry: u16, off: u16) -> bool {
    exists|n: nat| rom.reaches(entry, off, n)
}

/// Whether everything that a trace holds can be reached from `entry`: the
/// visited instructions and the destinations.
pub open spec fn rooted(t: Trace, rom: Rom, entry: u16) -> bool {
    &&& forall|i: int|
        0 <= i < t.visited.len() ==> (#[trigger] t.visited[i]) == at(
            rom.seg,
            t.visited[i].spec_offset(),
        ) && reachable(rom, entry, t.visited[i].spec_offset())
    &&& forall|i: int|
        0 <= i < t.destinations.len() ==> (#[trigger] t.destinations[i]).address == at(
            rom.seg,
            t.destinations[i].address.spec_offset(),
        ) && reachable(rom, entry, t.destinations[i].address.spec_offset())
}

/// What can be reached from a reachable instruction in one step can be
/// reached.
pub proof fn lemma_reachable_step(rom: Rom, entry: u16, from: u16, to: u16)
    requires
        reachable(rom, entry, from),
        rom.flows(from, to),
    ensures
        reachable(rom, entry, to),
{
    let n = choose|n: nat| rom.reaches(entry, from, n);
    assert(rom.reaches(entry, from, ((n + 1) - 1) as nat));
    assert(rom.reaches(entry, to, n + 1));
}

/// Learning the target of a reachable instruction keeps a trace rooted.
pub proof fn lemma_learned_rooted(t: Trace, rom: Rom, entry: u16, target: u16, from: u16)
    requires
        rooted(t, rom, entry),
        reachable(rom, entry, target),
    ensures
        rooted(learned(t, rom.seg, target, at(rom.seg, from)), rom, entry),
{
    let t1 = learned(t, rom.seg, target, at(rom.seg, from));
    assert forall|i: int| 0 <= i < t1.destinations.len() implies (#[trigger] t1.destinations[i]).address
        == at(rom.seg, t1.destinations[i].address.spec_offset()) && reachable(
        rom,
        entry,
        t1.destinations[i].address.spec_offset(),
    ) by {
        if i < t.destinations.len() {
            assert(t1.destinations[i] == t.destinations[i]);
        }
    }
}

/// Marking a destination keeps a trace rooted.
pub proof fn lemma_marked_rooted(t: Trace, rom: Rom, entry: u16, value: int)
    requires
        rooted(t, rom, entry),
    ensures
        rooted(marked(t, value), rom, entry),
{
    let t1 = marked(t, value);
    lemma_first_at_bounds(t.destinations, value, 0);
    assert forall|i: int| 0 <= i < t1.destinations.len() implies (#[trigger] t1.destinations[i]).address
        == at(rom.seg, t1.destinations[i].address.spec_offset()) && reachable(
        rom,
        entry,
        t1.destinations[i].address.spec_offset(),
    ) by {
        assert(t1.destinations[i].address == t.destinations[i].address);
    }
}

/// The first destination with a flat address, if there is one, is a
/// destination.
pub proof fn lemma_first_at_bounds(d: Seq<SeenDestination>, value: int, from: int)
    requires
        0 <= from,
    ensures
        match first_at(d, value, from) {
            Some(i) => from <= i < d.len() && d[i].address.spec_value() == value,
            None => true,
        },
    decreases d.len() - from,
{
    if from < d.len() && d[from].address.spec_value() != value {
        lemma_first_at_bounds(d, value, from + 1);
    }
}

/// The first destination that was not walked, if there is one, is a
/// destination.
pub proof fn lemma_first_unvisited_bounds(d: Seq<SeenDestination>, from: int)
    requires
        0 <= from,
    ensures
        match first_unvisited(d, from) {
            Some(i) => from <= i < d.len() && !d[i].visited,
            None => true,
        },
    decreases d.len() - from,
{
    if from < d.len() && d[from].visited {
        lemma_first_unvisited_bounds(d, from + 1);
    }
}

/// A walk from a reachable instruction keeps a trace rooted.
pub proof fn lemma_walked_rooted(t: Trace, rom: Rom, entry: u16, off: u16)
    requires
        rooted(t, rom, entry),
        reachable(rom, entry, off),
    ensures
        rooted(walked(t, rom, off), rom, entry),
    decreases rom.base + rom.length - flat(rom.seg, off),
{
    if !has_value(t.visited, at(rom.seg, off).spec_value()) {
        let t1 = Trace { visited: t.visited.push(at(rom.seg, off)), ..t };
        assert forall|i: int| 0 <= i < t1.visited.len() implies (#[trigger] t1.visited[i]) == at(
            rom.seg,
            t1.visited[i].spec_offset(),
        ) && reachable(rom, entry, t1.visited[i].spec_offset()) by {
            if i < t.visited.len() {
                assert(t1.visited[i] == t.visited[i]);
            }
        }
        assert(rooted(t1, rom, entry));
        let t2 = match target_of(rom.instruction(off)) {
            Some(target) => learned(t1, rom.seg, target, at(rom.seg, off)),
            None => t1,
        };
        match target_of(rom.instruction(off)) {
            Some(target) => {
                assert(rom.flows(off, target));
                lemma_reachable_step(rom, entry, off, target);
                lemma_learned_rooted(t1, rom, entry, target, off);
            },
            None => {},
        }
        match rom.falls_to(off) {
            Some(next) => {
                assert(rom.flows(off, next));
                lemma_reachable_step(rom, entry, off, next);
                lemma_walked_rooted(t2, rom, entry, next);
            },
            None => {},
        }
    }
}

/// Walking paths keeps a trace rooted.
pub proof fn lemma_paths_rooted(t: Trace, rom: Rom, entry: u16, fuel: nat)
    requires
        rooted(t, rom, entry),
    ensures
        rooted(paths_traced(t, rom, fuel), rom, entry),
    decreases fuel,
{
    if fuel > 0 && first_unvisited(t.destinations, 0) is Some {
        let i = first_unvisited(t.destinations, 0)->0;
        lemma_first_unvisited_bounds(t.destinations, 0);
        let start = t.destinations[i].address;
        assert(start == at(rom.seg, start.spec_offset()));
        lemma_walked_rooted(t, rom, entry, start.spec_offset());
        lemma_marked_rooted(walked(t, rom, start.spec_offset()), rom, entry, start.spec_value());
        lemma_paths_rooted(path_traced(t, rom), rom, entry, (fuel - 1) as nat);
    }
}

/// A trace that starts with nothing visits only what control flow can
/// reach from the entry.
pub proof fn lemma_trace_is_sound(t: Trace, rom: Rom, ip: u16, off: u16)
    requires
        t.visited.len() == 0,
        t.destinations.len() == 0,
        visited_in(traced(t, rom, ip).visited, rom.seg, off),
    ensures
        reachable(rom, ip, off),
{
    let t1 = Trace {
        destinations: t.destinations.push(
            SeenDestination { address: at(rom.seg, ip), visited: false },
        ),
        ..t
    };
    assert(rom.reaches(ip, ip, 0));
    assert(rooted(t1, rom, ip));
    lemma_paths_rooted(t1, rom, ip, MAX_PATHS as nat);
    let r = traced(t, rom, ip);
    let i = choose|i: int| 0 <= i < r.visited.len() && r.visited[i] == at(rom.seg, off);
    assert(r.visited[i].spec_offset() == off);
}

/// Whether the destinations lie in the segment of the program, each at an
/// offset of its own.
pub open spec fn tidy(t: Trace, rom: Rom) -> bool {
    &&& distinct(t.destinations)
    &&& forall|i: int|
        0 <= i < t.destinations.len() ==> (#[trigger] t.destinations[i]).address == at(
            rom.seg,
            t.destinations[i].address.spec_offset(),
        )
}

/// Number of destinations among the first `n` that were not walked.
pub open spec fn unvisited_count(d: Seq<SeenDestination>, n: nat) -> nat
    decreases n,
{
    if n == 0 {
        0
    } else {
        unvisited_count(d, (n - 1) as nat) + if d[n - 1].visited {
            0nat
        } else {
            1nat
        }
    }
}

/// An upper bound on the paths that are left: every path walks one
/// destination, and each of the 65536 offsets becomes a destination at most
/// once.
pub open spec fn potential(t: Trace) -> int {
    2 * (0x1_0000 - t.destinations.len()) + unvisited_count(
        t.destinations,
        t.destinations.len(),
    )
}

/// Destinations at offsets of their own are at most 65536.
pub proof fn lemma_tidy_is_small(t: Trace, rom: Rom)
    requires
        tidy(t, rom),
    ensures
        t.destinations.len() <= 0x1_0000,
{
    let d = t.destinations;
    let offsets = Seq::new(d.len(), |i: int| d[i].address.spec_offset() as int);
    assert forall|i: int, j: int| 0 <= i < offsets.len() && 0 <= j < offsets.len() && i != j implies offsets[i]
        != offsets[j] by {
        assert(d[i].address == at(rom.seg, d[i].address.spec_offset()));
        assert(d[j].address == at(rom.seg, d[j].address.spec_offset()));
        if i < j {
            assert(d[i].address.spec_value() != d[j].address.spec_value());
        } else {
            assert(d[j].address.spec_value() != d[i].address.spec_value());
        }
    }
    assert(offsets.no_duplicates());
    offsets.unique_seq_to_set();
    vstd::set_lib::lemma_int_range(0, 0x1_0000);
    let all = vstd::set_lib::set_int_range(0, 0x1_0000);
    assert forall|x: int| offsets.to_set().contains(x) implies all.contains(x) by {
        let i = choose|i: int| 0 <= i < offsets.len() && offsets[i] == x;
        assert(0 <= offsets[i] < 0x1_0000);
    }
    vstd::set_lib::lemma_len_subset(offsets.to_set(), all);
}

/// The count over a sequence that another one extends is the count over
/// the other.
pub proof fn lemma_count_prefix(d0: Seq<SeenDestination>, d1: Seq<SeenDestination>, n: nat)
    requires
        n <= d0.len(),
        d0.is_prefix_of(d1),
    ensures
        unvisited_count(d1, n) == unvisited_count(d0, n),
    decreases n,
{
    if n > 0 {
        lemma_count_prefix(d0, d1, (n - 1) as nat);
        assert(d1[n - 1] == d0[n - 1]);
    }
}

/// The count is at most the number counted over.
pub proof fn lemma_count_bound(d: Seq<SeenDestination>, n: nat)
    ensures
        unvisited_count(d, n) <= n,
    decreases n,
{
    if n > 0 {
        lemma_count_bound(d, (n - 1) as nat);
    }
}

/// Marking a destination that was not walked takes one off the count.
pub proof fn lemma_count_marked(d: Seq<SeenDestination>, i: int, n: nat)
    requires
        0 <= i < d.len(),
        !d[i].visited,
        n <= d.len(),
    ensures
        unvisited_count(
            d.update(i, SeenDestination { address: d[i].address, visited: true }),
            n,
        ) + (if i < n {
            1nat
        } else {
            0nat
        }) == unvisited_count(d, n),
    decreases n,
{
    let d1 = d.update(i, SeenDestination { address: d[i].address, visited: true });
    if n > 0 {
        lemma_count_marked(d, i, (n - 1) as nat);
        if n - 1 != i {
            assert(d1[n - 1] == d[n - 1]);
        }
    }
}

/// Among destinations with flat addresses of their own, the first with the
/// flat address of a destination is that destination.
pub proof fn lemma_first_at_distinct(d: Seq<SeenDestination>, i: int, from: int)
    requires
        distinct(d),
        0 <= from <= i < d.len(),
    ensures
        first_at(d, d[i].address.spec_value(), from) == Some(i),
    decreases i - from,
{
    if from < i {
        assert(d[from].address.spec_value() != d[i].address.spec_value());
        lemma_first_at_distinct(d, i, from + 1);
    }
}

/// Without a destination at a flat address there is no first one.
pub proof fn lemma_first_at_none(d: Seq<SeenDestination>, value: int, from: int)
    requires
        0 <= from,
        first_at(d, value, from) is None,
    ensures
        forall|k: int| from <= k < d.len() ==> d[k].address.spec_value() != value,
    decreases d.len() - from,
{
    if from < d.len() {
        lemma_first_at_none(d, value, from + 1);
    }
}

/// Learning a target keeps the destinations tidy, only adds destinations
/// that were not walked, and does not raise the potential.
pub proof fn lemma_learned_tidy(t: Trace, rom: Rom, target: u16, src: MemoryAddress)
    requires
        tidy(t, rom),
    ensures
        tidy(learned(t, rom.seg, target, src), rom),
        t.destinations.is_prefix_of(learned(t, rom.seg, target, src).destinations),
        potential(learned(t, rom.seg, target, src)) <= potential(t),
{
    let d = t.destinations;
    let t1 = learned(t, rom.seg, target, src);
    let value = at(rom.seg, target).spec_value();
    lemma_first_at_bounds(d, value, 0);
    match first_at(d, value, 0) {
        Some(i) => {
            assert(d[i].address == at(rom.seg, d[i].address.spec_offset()));
            assert(t1.destinations == d);
        },
        None => {
            lemma_first_at_none(d, value, 0);
            let d1 = t1.destinations;
            assert(d1 == d.push(SeenDestination { address: at(rom.seg, target), visited: false }));
            assert(d1[d.len() as int].address == at(rom.seg, target));
            assert forall|i: int, j: int| 0 <= i < j < d1.len() implies d1[i].address.spec_value()
                != d1[j].address.spec_value() by {
                assert(d1[i] == d[i]);
                if j < d.len() {
                    assert(d1[j] == d[j]);
                }
            }
            assert forall|i: int| 0 <= i < d1.len() implies (#[trigger] d1[i]).address == at(
                rom.seg,
                d1[i].address.spec_offset(),
            ) by {
                if i < d.len() {
                    assert(d1[i] == d[i]);
                }
            }
            lemma_count_prefix(d, d1, d.len());
        },
    }
}

/// A walk keeps the destinations tidy, only adds destinations that were not
/// walked, and does not raise the potential.
pub proof fn lemma_walked_tidy(t: Trace, rom: Rom, off: u16)
    requires
        tidy(t, rom),
    ensures
        tidy(walked(t, rom, off), rom),
        t.destinations.is_prefix_of(walked(t, rom, off).destinations),
        potential(walked(t, rom, off)) <= potential(t),
    decreases rom.base + rom.length - flat(rom.seg, off),
{
    if !has_value(t.visited, at(rom.seg, off).spec_value()) {
        let t1 = Trace { visited: t.visited.push(at(rom.seg, off)), ..t };
        let t2 = match target_of(rom.instruction(off)) {
            Some(target) => learned(t1, rom.seg, target, at(rom.seg, off)),
            None => t1,
        };
        match target_of(rom.instruction(off)) {
            Some(target) => {
                lemma_learned_tidy(t1, rom, target, at(rom.seg, off));
            },
            None => {},
        }
        match rom.falls_to(off) {
            Some(next) => {
                lemma_walked_tidy(t2, rom, next);
            },
            None => {},
        }
    }
}

/// One path keeps the destinations tidy and takes at least one off the
/// potential.
pub proof fn lemma_path_tidy(t: Trace, rom: Rom)
    requires
        tidy(t, rom),
        first_unvisited(t.destinations, 0) is Some,
    ensures
        tidy(path_traced(t, rom), rom),
        potential(path_traced(t, rom)) < potential(t),
{
    let d = t.destinations;
    let i = first_unvisited(d, 0)->0;
    lemma_first_unvisited_bounds(d, 0);
    let start = d[i].address;
    let w = walked(t, rom, start.spec_offset());
    lemma_walked_tidy(t, rom, start.spec_offset());
    let dw = w.destinations;
    assert(dw[i] == d[i]);
    lemma_first_at_distinct(dw, i, 0);
    let m = marked(w, start.spec_value());
    let dm = m.destinations;
    assert(dm == dw.update(i, SeenDestination { address: dw[i].address, visited: true }));
    lemma_count_marked(dw, i, dw.len());
    assert forall|a: int, b: int| 0 <= a < b < dm.len() implies dm[a].address.spec_value()
        != dm[b].address.spec_value() by {
        assert(dm[a].address == dw[a].address);
        assert(dm[b].address == dw[b].address);
    }
    assert forall|k: int| 0 <= k < dm.len() implies (#[trigger] dm[k]).address == at(
        rom.seg,
        dm[k].address.spec_offset(),
    ) by {
        assert(dm[k].address == dw[k].address);
    }
}

/// With fuel for its potential, a tidy trace comes to an end: no
/// destination is left to walk.
pub proof fn lemma_paths_complete(t: Trace, rom: Rom, fuel: nat)
    requires
        tidy(t, rom),
        potential(t) <= fuel,
    ensures
        first_unvisited(paths_traced(t, rom, fuel).destinations, 0) is None,
    decreases fuel,
{
    if first_unvisited(t.destinations, 0) is Some {
        lemma_first_unvisited_bounds(t.destinations, 0);
        lemma_tidy_is_small(t, rom);
        lemma_path_tidy(t, rom);
        lemma_tidy_is_small(path_traced(t, rom), rom);
        assert(potential(path_traced(t, rom)) >= 0);
        assert(fuel > 0);
        lemma_paths_complete(path_traced(t, rom), rom, (fuel - 1) as nat);
    }
}

/// A trace that starts with nothing comes to an end.
pub proof fn lemma_trace_completes(t: Trace, rom: Rom, ip: u16)
    requires
        t.destinations.len() == 0,
    ensures
        first_unvisited(traced(t, rom, ip).destinations, 0) is None,
{
    let d1 = t.destinations.push(SeenDestination { address: at(rom.seg, ip), visited: false });
    let t1 = Trace { destinations: d1, ..t };
    assert(d1.len() == 1);
    assert(d1[0].address == at(rom.seg, ip));
    assert(tidy(t1, rom));
    lemma_count_bound(d1, 1);
    lemma_paths_complete(t1, rom, MAX_PATHS as nat);
}

} // verus!
