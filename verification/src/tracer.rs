//! The static tracer: finds the instructions that control flow can reach
//! from an entry point, without executing anything.
//!
//! A work list of destinations starts with the entry. Each destination is
//! walked in a straight line; every instruction on the way is recorded as
//! visited, and the immediate target of every jump, call and loop becomes a
//! destination, with the instruction as its source. A path ends at an
//! instruction that was visited before, at an unconditional jump or a
//! return, and where the walk leaves the loaded program.
use vstd::prelude::*;
use crate::address::{add16, flat, wrap16, MemoryAddress};
use crate::cpu::CPU;
use crate::decoder::{decode, spec_decode, MAX_LENGTH};
use crate::hex::{hex, hex_text};
use crate::instruction::{Decoded, Parameter};
use crate::memory::MEMORY_SIZE;
use crate::mmu::MMU;
use crate::op::Op;
use crate::reach::lemma_trace_completes;
use crate::state::State;

verus! {

/// The bytes from which the instruction at `seg:off` is decoded: up to 15
/// bytes, as far as they lie inside memory.
pub open spec fn window_at(mem: Seq<u8>, seg: u16, off: u16) -> Seq<u8> {
    let at = flat(seg, off);
    if at >= MEMORY_SIZE {
        Seq::empty()
    } else if at + MAX_LENGTH > MEMORY_SIZE {
        mem.subrange(at, MEMORY_SIZE as int)
    } else {
        mem.subrange(at, at + MAX_LENGTH)
    }
}

/// The instruction at `seg:off`.
pub open spec fn instruction_at(mem: Seq<u8>, seg: u16, off: u16) -> Decoded {
    spec_decode(window_at(mem, seg, off), off)
}

/// Decodes the instruction at `seg:off`.
pub fn decode_at(mmu: &MMU, seg: u16, off: u16) -> (d: Decoded)
    requires
        mmu.wf(),
    ensures
        d == instruction_at(mmu@, seg, off),
        d.wf(),
{
    let at = MMU::to_flat(seg, off) as usize;
    let w = if at >= MEMORY_SIZE {
        Vec::new()
    } else if at + MAX_LENGTH > MEMORY_SIZE {
        mmu.memory.read(at as u32, MEMORY_SIZE - at)
    } else {
        mmu.memory.read(at as u32, MAX_LENGTH)
    };
    decode(w.as_slice(), off)
}

/// The unconditional jumps.
pub open spec fn is_jump(op: Op) -> bool {
    op == Op::JmpNear || op == Op::JmpFar || op == Op::JmpShort
}

/// The returns.
pub open spec fn is_return(op: Op) -> bool {
    op == Op::Retn || op == Op::Retf || op == Op::RetImm16
}

/// The transfers after which the instruction that follows can still run:
/// calls, loops and conditional jumps.
pub open spec fn is_branch(op: Op) -> bool {
    op == Op::CallNear || op == Op::CallFar || op == Op::Loop || op == Op::Loope || op
        == Op::Loopne || op == Op::Ja || op == Op::Jc || op == Op::Jcxz || op == Op::Jg || op
        == Op::Jl || op == Op::Jna || op == Op::Jnc || op == Op::Jng || op == Op::Jnl || op
        == Op::Jno || op == Op::Jns || op == Op::Jnz || op == Op::Jo || op == Op::Jpe || op
        == Op::Jpo || op == Op::Js || op == Op::Jz
}

/// The target of a transfer that names it in the instruction. Targets in a
/// register or in memory cannot be known without executing.
pub open spec fn target_of(d: Decoded) -> Option<u16> {
    if is_jump(d.command) || is_branch(d.command) {
        match d.dst {
            Parameter::Imm16(t) => Some(t),
            _ => None,
        }
    } else {
        None
    }
}

/// Whether the path ends with the instruction.
pub open spec fn ends_path(d: Decoded) -> bool {
    is_jump(d.command) || is_return(d.command)
}

/// The loaded program, as the tracer needs it.
pub struct Rom {
    pub mem: Seq<u8>,
    pub seg: u16,
    /// flat address of the first byte
    pub base: int,
    /// number of bytes
    pub length: int,
}

impl Rom {
    pub open spec fn instruction(self, off: u16) -> Decoded {
        instruction_at(self.mem, self.seg, off)
    }

    /// The offset of the instruction that follows the one at `off` on its
    /// path: there is none after a jump or return, nor where the next
    /// offset wraps or lies past the end of the program.
    pub open spec fn falls_to(self, off: u16) -> Option<u16> {
        let d = self.instruction(off);
        let next = off + d.length;
        if !ends_path(d) && d.length > 0 && next <= 0xFFFF && flat(self.seg, next as u16)
            < self.base + self.length {
            Some(next as u16)
        } else {
            None
        }
    }

    /// Whether control can pass from the instruction at `from` straight to
    /// the one at `to`.
    pub open spec fn flows(self, from: u16, to: u16) -> bool {
        self.falls_to(from) == Some(to) || target_of(self.instruction(from)) == Some(to)
    }

    /// Whether the instruction at `off` can be reached from `entry` in at
    /// most `n` steps.
    pub open spec fn reaches(self, entry: u16, off: u16, n: nat) -> bool
        decreases n,
    {
        off == entry || (n > 0 && exists|mid: u16|
            self.reaches(entry, mid, (n - 1) as nat) && self.flows(mid, off))
    }
}

/// A destination of the work list.
#[derive(Clone, Copy, Debug)]
pub struct SeenDestination {
    pub address: MemoryAddress,
    pub visited: bool,
}

/// A cross reference: the instruction at `source` transfers to
/// `destination`.
#[derive(Clone, Copy, Debug)]
pub struct Xref {
    pub destination: MemoryAddress,
    pub source: MemoryAddress,
}

/// The tracer: destinations, cross references and visited addresses.
pub struct Tracer {
    pub seen_destinations: Vec<SeenDestination>,
    /// the cross references, in the order in which they were found
    pub xrefs: Vec<Xref>,
    /// the address of each visited instruction, in the order of the visits
    pub visited_addresses: Vec<MemoryAddress>,
}

/// The address `seg:off`.
pub open spec fn at(seg: u16, off: u16) -> MemoryAddress {
    MemoryAddress::RealSegmentOffset(seg, off)
}

/// Whether the instruction at offset `off` is among the visited ones.
pub open spec fn visited_in(v: Seq<MemoryAddress>, seg: u16, off: u16) -> bool {
    exists|i: int| 0 <= i < v.len() && v[i] == at(seg, off)
}

/// Whether offset `off` is among the destinations.
pub open spec fn seen_in(d: Seq<SeenDestination>, seg: u16, off: u16) -> bool {
    exists|i: int| 0 <= i < d.len() && d[i].address == at(seg, off)
}

/// All addresses lie in segment `seg`.
pub open spec fn all_in_segment(v: Seq<MemoryAddress>, d: Seq<SeenDestination>, seg: u16) -> bool {
    &&& forall|i: int| 0 <= i < v.len() ==> (#[trigger] v[i]) == at(seg, v[i].spec_offset())
    &&& forall|i: int|
        0 <= i < d.len() ==> (#[trigger] d[i]).address == at(seg, d[i].address.spec_offset())
}

/// What holds while the trace goes on, with the walk standing at `pending`
/// if there is one: every target of a visited instruction is a destination;
/// the instruction that follows a visited one is visited, or is where the
/// walk stands; and a destination that is marked as walked is visited.
pub open spec fn consistent_with(
    v: Seq<MemoryAddress>,
    d: Seq<SeenDestination>,
    rom: Rom,
    pending: Option<u16>,
) -> bool {
    &&& all_in_segment(v, d, rom.seg)
    &&& forall|i: int|
        0 <= i < v.len() ==> match target_of(rom.instruction((#[trigger] v[i]).spec_offset())) {
            Some(t) => seen_in(d, rom.seg, t),
            None => true,
        }
    &&& forall|i: int|
        0 <= i < v.len() ==> match rom.falls_to((#[trigger] v[i]).spec_offset()) {
            Some(n) => visited_in(v, rom.seg, n) || pending == Some(n),
            None => true,
        }
    &&& forall|i: int|
        0 <= i < d.len() && (#[trigger] d[i]).visited ==> visited_in(
            v,
            rom.seg,
            d[i].address.spec_offset(),
        )
}

/// A cross reference is sound if its source is a visited instruction that
/// names its destination as the target.
pub open spec fn xref_sound(x: Xref, v: Seq<MemoryAddress>, rom: Rom) -> bool {
    &&& x.source == at(rom.seg, x.source.spec_offset())
    &&& x.destination == at(rom.seg, x.destination.spec_offset())
    &&& visited_in(v, rom.seg, x.source.spec_offset())
    &&& target_of(rom.instruction(x.source.spec_offset())) == Some(x.destination.spec_offset())
}

/// Whether every cross reference is sound.
pub open spec fn xrefs_sound(xrefs: Seq<Xref>, v: Seq<MemoryAddress>, rom: Rom) -> bool {
    forall|i: int| 0 <= i < xrefs.len() ==> xref_sound(#[trigger] xrefs[i], v, rom)
}

/// Cross references stay sound when more instructions are visited.
pub proof fn lemma_xrefs_stay_sound(
    xrefs: Seq<Xref>,
    v0: Seq<MemoryAddress>,
    v1: Seq<MemoryAddress>,
    rom: Rom,
)
    requires
        xrefs_sound(xrefs, v0, rom),
        v0.is_prefix_of(v1),
    ensures
        xrefs_sound(xrefs, v1, rom),
{
    assert forall|i: int| 0 <= i < xrefs.len() implies xref_sound(#[trigger] xrefs[i], v1, rom) by {
        let x = xrefs[i];
        assert(xref_sound(x, v0, rom));
        let k = choose|k: int| 0 <= k < v0.len() && v0[k] == at(rom.seg, x.source.spec_offset());
        assert(v1[k] == v0[k]);
    }
}

/// The program that a processor has loaded, traced in its code segment.
pub open spec fn rom_of(s: State) -> Rom {
    Rom { mem: s.mem, seg: s.sreg(1), base: s.rom_base as int, length: s.rom_length as int }
}

/// The tracer as a mathematical value.
pub struct Trace {
    pub visited: Seq<MemoryAddress>,
    pub destinations: Seq<SeenDestination>,
    pub xrefs: Seq<Xref>,
}

impl View for Tracer {
    type V = Trace;

    open spec fn view(&self) -> Trace {
        Trace {
            visited: self.visited_addresses@,
            destinations: self.seen_destinations@,
            xrefs: self.xrefs@,
        }
    }
}

/// Whether an address with the flat address `value` is among the visited.
pub open spec fn has_value(v: Seq<MemoryAddress>, value: int) -> bool {
    exists|i: int| 0 <= i < v.len() && v[i].spec_value() == value
}

/// Whether a destination has the flat address `value`.
pub open spec fn has_destination(d: Seq<SeenDestination>, value: int) -> bool {
    exists|i: int| 0 <= i < d.len() && d[i].address.spec_value() == value
}

/// Whether no two destinations have the same flat address.
pub open spec fn distinct(d: Seq<SeenDestination>) -> bool {
    forall|i: int, j: int|
        0 <= i < j < d.len() ==> d[i].address.spec_value() != d[j].address.spec_value()
}

/// The index of the first destination from index `from` on with the flat
/// address `value`.
pub open spec fn first_at(d: Seq<SeenDestination>, value: int, from: int) -> Option<int>
    decreases d.len() - from,
{
    if from < 0 || from >= d.len() {
        None
    } else if d[from].address.spec_value() == value {
        Some(from)
    } else {
        first_at(d, value, from + 1)
    }
}

/// The index of the first destination from index `from` on that was not
/// walked.
pub open spec fn first_unvisited(d: Seq<SeenDestination>, from: int) -> Option<int>
    decreases d.len() - from,
{
    if from < 0 || from >= d.len() {
        None
    } else if !d[from].visited {
        Some(from)
    } else {
        first_unvisited(d, from + 1)
    }
}

/// The trace after it learned that the instruction at `src` transfers to
/// `seg:off`: the cross reference is recorded, and the target becomes a
/// destination unless a destination has its flat address already.
pub open spec fn learned(t: Trace, seg: u16, off: u16, src: MemoryAddress) -> Trace {
    let known = first_at(t.destinations, at(seg, off).spec_value(), 0) is Some;
    Trace {
        xrefs: t.xrefs.push(Xref { destination: at(seg, off), source: src }),
        destinations: if known {
            t.destinations
        } else {
            t.destinations.push(SeenDestination { address: at(seg, off), visited: false })
        },
        ..t
    }
}

/// The trace after the first destination with the flat address `value` was
/// marked as walked.
pub open spec fn marked(t: Trace, value: int) -> Trace {
    match first_at(t.destinations, value, 0) {
        Some(i) => Trace {
            destinations: t.destinations.update(
                i,
                SeenDestination { address: t.destinations[i].address, visited: true },
            ),
            ..t
        },
        None => t,
    }
}

/// The trace after a walk from offset `off` on: unless the instruction
/// there was visited, it is visited now, its target is learned, and the
/// walk goes on with the instruction that follows on the path.
pub open spec fn walked(t: Trace, rom: Rom, off: u16) -> Trace
    decreases rom.base + rom.length - flat(rom.seg, off),
{
    if has_value(t.visited, at(rom.seg, off).spec_value()) {
        t
    } else {
        let t1 = Trace { visited: t.visited.push(at(rom.seg, off)), ..t };
        let t2 = match target_of(rom.instruction(off)) {
            Some(target) => learned(t1, rom.seg, target, at(rom.seg, off)),
            None => t1,
        };
        match rom.falls_to(off) {
            Some(next) => walked(t2, rom, next),
            None => t2,
        }
    }
}

/// The trace after one path: the walk from the first destination that was
/// not walked, which is then marked.
pub open spec fn path_traced(t: Trace, rom: Rom) -> Trace {
    match first_unvisited(t.destinations, 0) {
        Some(i) => {
            let start = t.destinations[i].address;
            marked(walked(t, rom, start.spec_offset()), start.spec_value())
        },
        None => t,
    }
}

/// The trace after at most `fuel` paths, as long as a destination is left
/// to walk.
pub open spec fn paths_traced(t: Trace, rom: Rom, fuel: nat) -> Trace
    decreases fuel,
{
    if fuel == 0 || first_unvisited(t.destinations, 0) is None {
        t
    } else {
        paths_traced(path_traced(t, rom), rom, (fuel - 1) as nat)
    }
}

/// The trace of a program from `seg:ip` on: the entry becomes a
/// destination, then the paths are walked.
pub open spec fn traced(t: Trace, rom: Rom, ip: u16) -> Trace {
    paths_traced(
        Trace {
            destinations: t.destinations.push(
                SeenDestination { address: at(rom.seg, ip), visited: false },
            ),
            ..t
        },
        rom,
        MAX_PATHS as nat,
    )
}

impl Tracer {
    /// Whether the instruction at offset `off` was visited.
    pub open spec fn visited(&self, seg: u16, off: u16) -> bool {
        visited_in(self.visited_addresses@, seg, off)
    }

    /// Whether offset `off` is a destination.
    pub open spec fn seen(&self, seg: u16, off: u16) -> bool {
        seen_in(self.seen_destinations@, seg, off)
    }

    /// All addresses of the tracer lie in segment `seg`.
    pub open spec fn in_segment(&self, seg: u16) -> bool {
        all_in_segment(self.visited_addresses@, self.seen_destinations@, seg)
    }

    /// The state of a trace that can go on.
    pub open spec fn consistent(&self, rom: Rom, pending: Option<u16>) -> bool {
        &&& consistent_with(self.visited_addresses@, self.seen_destinations@, rom, pending)
        &&& xrefs_sound(self.xrefs@, self.visited_addresses@, rom)
    }

    /// Whether every destination was walked.
    pub open spec fn complete(&self) -> bool {
        forall|i: int|
            0 <= i < self.seen_destinations@.len() ==> (#[trigger] self.seen_destinations@[i]).visited
    }

    /// The visited instructions are closed under control flow: whatever
    /// follows a visited instruction, or is the target that it names, is
    /// visited.
    pub open spec fn closed(&self, rom: Rom) -> bool {
        forall|from: u16, to: u16|
            self.visited(rom.seg, from) && #[trigger] rom.flows(from, to) ==> self.visited(
                rom.seg,
                to,
            )
    }

    pub fn new() -> (t: Tracer)
        ensures
            t.seen_destinations@.len() == 0,
            t.xrefs@.len() == 0,
            t.visited_addresses@.len() == 0,
    {
        Tracer { seen_destinations: Vec::new(), xrefs: Vec::new(), visited_addresses: Vec::new() }
    }

    /// Whether the address was visited; addresses are compared by their flat
    /// value.
    pub fn has_visited_address(&self, ma: MemoryAddress) -> (r: bool)
        ensures
            r == has_value(self.visited_addresses@, ma.spec_value()),
    {
        let mut i: usize = 0;
        while i < self.visited_addresses.len()
            invariant
                i <= self.visited_addresses@.len(),
                forall|k: int|
                    0 <= k < i ==> self.visited_addresses@[k].spec_value() != ma.spec_value(),
            decreases self.visited_addresses@.len() - i,
        {
            if self.visited_addresses[i].value() == ma.value() {
                return true;
            }
            i += 1;
        }
        false
    }

    /// The index of the destination with the flat address of `ma`, if there
    /// is one: the first such.
    pub fn find_destination(&self, ma: MemoryAddress) -> (r: Option<usize>)
        ensures
            first_at(self.seen_destinations@, ma.spec_value(), 0) == match r {
                Some(i) => Some(i as int),
                None => None,
            },
            match r {
                Some(i) => i < self.seen_destinations@.len() && self.seen_destinations@[i as int].address.spec_value()
                    == ma.spec_value() && forall|k: int|
                    0 <= k < i ==> self.seen_destinations@[k].address.spec_value()
                        != ma.spec_value(),
                None => forall|k: int|
                    0 <= k < self.seen_destinations@.len()
                        ==> self.seen_destinations@[k].address.spec_value() != ma.spec_value(),
            },
    {
        let mut i: usize = 0;
        while i < self.seen_destinations.len()
            invariant
                i <= self.seen_destinations@.len(),
                forall|k: int|
                    0 <= k < i ==> self.seen_destinations@[k].address.spec_value()
                        != ma.spec_value(),
                first_at(self.seen_destinations@, ma.spec_value(), 0) == first_at(
                    self.seen_destinations@,
                    ma.spec_value(),
                    i as int,
                ),
            decreases self.seen_destinations@.len() - i,
        {
            if self.seen_destinations[i].address.value() == ma.value() {
                return Some(i);
            }
            i += 1;
        }
        None
    }

    /// Whether a destination is left to walk.
    pub fn has_any_unvisited_destinations(&self) -> (r: bool)
        ensures
            r == !self.complete(),
            r == (first_unvisited(self.seen_destinations@, 0) is Some),
    {
        let mut i: usize = 0;
        while i < self.seen_destinations.len()
            invariant
                i <= self.seen_destinations@.len(),
                forall|k: int| 0 <= k < i ==> (#[trigger] self.seen_destinations@[k]).visited,
                first_unvisited(self.seen_destinations@, 0) == first_unvisited(
                    self.seen_destinations@,
                    i as int,
                ),
            decreases self.seen_destinations@.len() - i,
        {
            if !self.seen_destinations[i].visited {
                return true;
            }
            i += 1;
        }
        false
    }

    /// The first destination that was not walked yet.
    pub fn get_unvisited_destination(&self) -> (r: Option<MemoryAddress>)
        ensures
            match first_unvisited(self.seen_destinations@, 0) {
                Some(i) => 0 <= i < self.seen_destinations@.len() && r == Some(
                    self.seen_destinations@[i].address,
                ) && !self.seen_destinations@[i].visited,
                None => r is None && self.complete(),
            },
    {
        let mut i: usize = 0;
        while i < self.seen_destinations.len()
            invariant
                i <= self.seen_destinations@.len(),
                forall|k: int| 0 <= k < i ==> (#[trigger] self.seen_destinations@[k]).visited,
                first_unvisited(self.seen_destinations@, 0) == first_unvisited(
                    self.seen_destinations@,
                    i as int,
                ),
            decreases self.seen_destinations@.len() - i,
        {
            if !self.seen_destinations[i].visited {
                return Some(self.seen_destinations[i].address);
            }
            i += 1;
        }
        None
    }

    /// The sources of a destination, in the order in which they were found;
    /// none if there is no source.
    pub fn get_sources_for_destination(&self, ma: MemoryAddress) -> (r: Option<Vec<MemoryAddress>>)
        ensures
            match r {
                Some(v) => v@.len() > 0 && v@ == sources_among(self.xrefs@, ma.spec_value(), self.xrefs@.len()),
                None => sources_among(self.xrefs@, ma.spec_value(), self.xrefs@.len()).len() == 0,
            },
    {
        let mut out: Vec<MemoryAddress> = Vec::new();
        let mut i: usize = 0;
        while i < self.xrefs.len()
            invariant
                i <= self.xrefs@.len(),
                out@ == sources_among(self.xrefs@, ma.spec_value(), i as nat),
            decreases self.xrefs@.len() - i,
        {
            if self.xrefs[i].destination.value() == ma.value() {
                out.push(self.xrefs[i].source);
            }
            i += 1;
        }
        if out.len() == 0 {
            None
        } else {
            Some(out)
        }
    }

    /// Records that the instruction at `src` transfers to `seg:offset`,
    /// which becomes a destination unless a destination has its flat
    /// address already, in whatever segment that one is written.
    pub fn learn_destination(&mut self, seg: u16, offset: u16, src: MemoryAddress)
        ensures
            final(self)@ == learned(old(self)@, seg, offset, src),
            final(self).visited_addresses == old(self).visited_addresses,
            final(self).xrefs@ == old(self).xrefs@.push(
                Xref { destination: at(seg, offset), source: src },
            ),
            has_destination(final(self).seen_destinations@, at(seg, offset).spec_value()),
            has_destination(old(self).seen_destinations@, at(seg, offset).spec_value())
                ==> final(self).seen_destinations@ == old(self).seen_destinations@,
            !has_destination(old(self).seen_destinations@, at(seg, offset).spec_value())
                ==> final(self).seen_destinations@ == old(self).seen_destinations@.push(
                SeenDestination { address: at(seg, offset), visited: false },
            ),
            distinct(old(self).seen_destinations@) ==> distinct(
                final(self).seen_destinations@,
            ),
            old(self).in_segment(seg) ==> final(self).seen(seg, offset),
            old(self).seen_destinations@.is_prefix_of(final(self).seen_destinations@),
            forall|i: int|
                old(self).seen_destinations@.len() <= i < final(self).seen_destinations@.len()
                    ==> #[trigger] final(self).seen_destinations@[i] == (SeenDestination {
                    address: at(seg, offset),
                    visited: false,
                }),
            old(self).in_segment(seg) ==> final(self).in_segment(seg),
    {
        let ma = MemoryAddress::RealSegmentOffset(seg, offset);
        self.xrefs.push(Xref { destination: ma, source: src });
        let known = self.find_destination(ma).is_some();
        if !known {
            self.seen_destinations.push(SeenDestination { address: ma, visited: false });
            assert(self.seen_destinations@[self.seen_destinations@.len() - 1].address == at(
                seg,
                offset,
            ));
        }
    }

    /// Marks the first destination with the flat address of `ma` as walked.
    fn mark_destination_visited(&mut self, ma: MemoryAddress)
        ensures
            final(self)@ == marked(old(self)@, ma.spec_value()),
            final(self).visited_addresses == old(self).visited_addresses,
            final(self).xrefs == old(self).xrefs,
            final(self).seen_destinations@.len() == old(self).seen_destinations@.len(),
            forall|i: int|
                0 <= i < old(self).seen_destinations@.len() ==> #[trigger] final(self).seen_destinations@[i]
                    == (SeenDestination {
                    address: old(self).seen_destinations@[i].address,
                    visited: old(self).seen_destinations@[i].visited || is_first_at(
                        old(self).seen_destinations@,
                        ma.spec_value(),
                        i,
                    ),
                }),
    {
        match self.find_destination(ma) {
            Some(i) => {
                let address = self.seen_destinations[i].address;
                self.seen_destinations[i] = SeenDestination { address, visited: true };
            },
            None => {},
        }
    }

    /// Walks one path: from the first destination that was not walked yet,
    /// instruction by instruction, until the path ends; then the
    /// destination is marked as walked. Without such a destination nothing
    /// happens.
    pub fn trace_unvisited_destination(&mut self, cpu: &CPU)
        requires
            cpu.wf(),
            old(self).consistent(rom_of(cpu@), None),
        ensures
            final(self)@ == path_traced(old(self)@, rom_of(cpu@)),
            final(self).consistent(rom_of(cpu@), None),
            old(self).visited_addresses@.is_prefix_of(final(self).visited_addresses@),
            grown(old(self).seen_destinations@, final(self).seen_destinations@),
    {
        let ghost rom = rom_of(cpu@);
        let ghost t0 = self@;
        let start = match self.get_unvisited_destination() {
            Some(ma) => ma,
            None => {
                return ;
            },
        };
        let seg = cpu.get_sreg(1);
        let start_off = start.offset();
        assert(start == at(seg, start_off));
        if self.has_visited_address(start) {
            proof {
                lemma_visited_by_value(self.visited_addresses@, self.seen_destinations@, seg, start_off);
            }
            let ghost before = self.seen_destinations@;
            self.mark_destination_visited(start);
            proof {
                lemma_marked(self.visited_addresses@, before, self.seen_destinations@, rom, start_off);
                assert forall|k: int| 0 <= k < before.len() implies (
                #[trigger] self.seen_destinations@[k]).address == before[k].address by {}
            }
            return ;
        }
        let mut off: u16 = start_off;
        let rom_end: u64 = cpu.rom_base as u64 + cpu.rom_length as u64;
        loop
            invariant
                cpu.wf(),
                rom == rom_of(cpu@),
                seg == rom.seg,
                rom_end == rom.base + rom.length,
                self.consistent(rom, Some(off)),
                self.visited(seg, start_off) || off == start_off,
                old(self).visited_addresses@.is_prefix_of(self.visited_addresses@),
                old(self).seen_destinations@.is_prefix_of(self.seen_destinations@),
                walked(self@, rom, off) == walked(t0, rom, start_off),
            ensures
                self@ == walked(t0, rom, start_off),
                self.consistent(rom, None),
                self.visited(seg, start_off),
                old(self).visited_addresses@.is_prefix_of(self.visited_addresses@),
                old(self).seen_destinations@.is_prefix_of(self.seen_destinations@),
            decreases rom_end - flat(seg, off),
        {
            let ma = MemoryAddress::RealSegmentOffset(seg, off);
            let d = decode_at(&cpu.mmu, seg, off);
            if self.has_visited_address(ma) {
                proof {
                    lemma_visited_by_value(
                        self.visited_addresses@,
                        self.seen_destinations@,
                        seg,
                        off,
                    );
                    lemma_settle(self.visited_addresses@, self.seen_destinations@, rom, off);
                }
                break ;
            }
            let ghost v0 = self.visited_addresses@;
            let ghost d0 = self.seen_destinations@;
            let ghost x0 = self.xrefs@;
            self.visited_addresses.push(ma);
            let flow = flow_of(&d);
            match flow.target {
                Some(t) => {
                    self.learn_destination(seg, t, ma);
                },
                None => {},
            }
            let ghost v1 = self.visited_addresses@;
            let ghost d1 = self.seen_destinations@;
            let next: u32 = off as u32 + d.length as u32;
            let go_on = !flow.ends && d.length > 0 && next <= 0xFFFF && ((seg as u64) * 16 + next as u64)
                < rom_end;
            proof {
                assert(go_on == (rom.falls_to(off) is Some));
                assert(v1 == v0.push(at(seg, off)));
                lemma_xrefs_stay_sound(x0, v0, v1, rom);
                assert(v1[v0.len() as int] == at(seg, off));
                assert(visited_in(v1, seg, off));
                assert forall|i: int| 0 <= i < self.xrefs@.len() implies xref_sound(
                    #[trigger] self.xrefs@[i],
                    v1,
                    rom,
                ) by {
                    if i < x0.len() {
                        assert(self.xrefs@[i] == x0[i]);
                    }
                }
                assert forall|i: int| 0 <= i < v1.len() implies (#[trigger] v1[i]) == at(
                    seg,
                    v1[i].spec_offset(),
                ) by {
                    if i < v0.len() {
                        assert(v1[i] == v0[i]);
                    }
                }
                lemma_step(v0, d0, d1, rom, off);
            }
            if !go_on {
                proof {
                    lemma_settle_none(v1, d1, rom, off);
                }
                break ;
            }
            off = next as u16;
        }
        let ghost before = self.seen_destinations@;
        self.mark_destination_visited(start);
        proof {
            lemma_marked(self.visited_addresses@, before, self.seen_destinations@, rom, start_off);
            assert forall|k: int| 0 <= k < old(self).seen_destinations@.len() implies (
            #[trigger] self.seen_destinations@[k]).address == old(self).seen_destinations@[k].address by {
                assert(before[k] == old(self).seen_destinations@[k]);
            }
        }
    }

    /// Traces the program from CS:IP on. Returns whether every destination
    /// was walked, which is always so for a tracer that starts with no
    /// destination.
    pub fn trace_execution(&mut self, cpu: &CPU) -> (done: bool)
        requires
            cpu.wf(),
            old(self).consistent(rom_of(cpu@), None),
        ensures
            final(self)@ == traced(old(self)@, rom_of(cpu@), cpu@.ip),
            final(self).consistent(rom_of(cpu@), None),
            final(self).seen(cpu@.sreg(1), cpu@.ip),
            done == final(self).complete(),
            old(self).seen_destinations@.len() == 0 ==> done,
            done ==> final(self).closed(rom_of(cpu@)) && final(self).visited(cpu@.sreg(1), cpu@.ip),
    {
        let ghost rom = rom_of(cpu@);
        let seg = cpu.get_sreg(1);
        let entry = MemoryAddress::RealSegmentOffset(seg, cpu.ip);
        let ghost d0 = self.seen_destinations@;
        self.seen_destinations.push(SeenDestination { address: entry, visited: false });
        let ghost entry_index = d0.len() as int;
        proof {
            assert(self.seen_destinations@[entry_index].address == at(seg, cpu.ip));
            lemma_more_destinations(self.visited_addresses@, d0, self.seen_destinations@, rom);
        }
        let ghost t1 = self@;
        let mut fuel: u32 = MAX_PATHS;
        while fuel > 0 && self.has_any_unvisited_destinations()
            invariant
                cpu.wf(),
                rom == rom_of(cpu@),
                self.consistent(rom, None),
                paths_traced(self@, rom, fuel as nat) == paths_traced(t1, rom, MAX_PATHS as nat),
                0 <= entry_index < self.seen_destinations@.len(),
                self.seen_destinations@[entry_index].address == at(rom.seg, cpu@.ip),
            decreases fuel,
        {
            let ghost before = self.seen_destinations@;
            self.trace_unvisited_destination(cpu);
            assert(self.seen_destinations@[entry_index].address == before[entry_index].address);
            fuel -= 1;
        }
        let done = !self.has_any_unvisited_destinations();
        proof {
            if old(self).seen_destinations@.len() == 0 {
                lemma_trace_completes(old(self)@, rom, cpu@.ip);
            }
            if done {
                lemma_complete_is_closed(self.visited_addresses@, self.seen_destinations@, rom);
                assert(self.seen_destinations@[entry_index].visited);
            }
        }
        done
    }

    /// Presents the trace as a listing: the visited instructions in the
    /// order of their flat addresses, each with the sources of the transfers
    /// to it, and with a mark where it does not follow the instruction
    /// before it without a gap. The visited addresses are left in that
    /// order.
    pub fn present_trace(&mut self, cpu: &CPU) -> (lines: Vec<TraceLine>)
        requires
            cpu.wf(),
        ensures
            final(self).visited_addresses@ == sorted_seq(
                old(self).visited_addresses@,
                old(self).visited_addresses@.len(),
            ),
            ascending(final(self).visited_addresses@),
            final(self).visited_addresses@.to_multiset() == old(self).visited_addresses@.to_multiset(),
            final(self).seen_destinations == old(self).seen_destinations,
            final(self).xrefs == old(self).xrefs,
            lines@.len() == final(self).visited_addresses@.len(),
            forall|i: int|
                0 <= i < lines@.len() ==> line_of(
                    cpu@.mem,
                    final(self).xrefs@,
                    final(self).visited_addresses@,
                    i,
                    #[trigger] lines@[i],
                ),
            forall|seg: u16, off: u16| #[trigger]
                old(self).visited(seg, off) ==> exists|i: int|
                    0 <= i < lines@.len() && lines@[i].address == at(seg, off),
    {
        let sorted = sorted_by_value(&self.visited_addresses);
        self.visited_addresses = sorted;
        let mut lines: Vec<TraceLine> = Vec::new();
        let mut prev_end: u32 = 0;
        let mut i: usize = 0;
        while i < self.visited_addresses.len()
            invariant
                cpu.wf(),
                i <= self.visited_addresses@.len(),
                self.visited_addresses@ == sorted@,
                self.seen_destinations == old(self).seen_destinations,
                self.xrefs == old(self).xrefs,
                lines@.len() == i,
                prev_end == end_before(cpu@.mem, self.visited_addresses@, i as int),
                forall|k: int|
                    0 <= k < i ==> line_of(
                        cpu@.mem,
                        self.xrefs@,
                        self.visited_addresses@,
                        k,
                        #[trigger] lines@[k],
                    ),
            decreases self.visited_addresses@.len() - i,
        {
            let ma = self.visited_addresses[i];
            let d = decode_at(&cpu.mmu, ma.segment(), ma.offset());
            let separator = prev_end != 0 && prev_end != ma.value();
            let xref = match self.get_sources_for_destination(ma) {
                Some(sources) => sorted_by_value(&sources),
                None => Vec::new(),
            };
            proof {
                if sources_among(self.xrefs@, ma.spec_value(), self.xrefs@.len()).len() == 0 {
                    assert(xref@ =~= Seq::<MemoryAddress>::empty());
                }
            }
            let ghost before = lines@;
            lines.push(TraceLine { address: ma, separator, xref, instruction: d });
            prev_end = MMU::to_flat(ma.segment(), add16(ma.offset(), d.length as u16));
            assert forall|k: int| 0 <= k < i + 1 implies line_of(
                cpu@.mem,
                self.xrefs@,
                self.visited_addresses@,
                k,
                #[trigger] lines@[k],
            ) by {
                if k < i {
                    assert(lines@[k] == before[k]);
                }
            }
            i += 1;
        }
        proof {
            assert forall|seg: u16, off: u16| #[trigger]
                old(self).visited(seg, off) implies exists|i: int|
                0 <= i < lines@.len() && lines@[i].address == at(seg, off) by {
                let before = old(self).visited_addresses@;
                let k = choose|k: int| 0 <= k < before.len() && before[k] == at(seg, off);
                before.to_multiset_ensures();
                sorted@.to_multiset_ensures();
                assert(before.contains(at(seg, off)));
                assert(before.to_multiset().count(at(seg, off)) > 0);
                assert(sorted@.to_multiset().count(at(seg, off)) > 0);
                assert(sorted@.contains(at(seg, off)));
                let i = choose|i: int| 0 <= i < sorted@.len() && sorted@[i] == at(seg, off);
                assert(line_of(cpu@.mem, self.xrefs@, self.visited_addresses@, i, lines@[i]));
            }
        }
        lines
    }
}

/// One line of the listing of a trace.
pub struct TraceLine {
    pub address: MemoryAddress,
    /// whether a gap lies between the instruction before and this one
    pub separator: bool,
    /// the sources of the transfers to this instruction, in the order of
    /// their flat addresses
    pub xref: Vec<MemoryAddress>,
    pub instruction: Decoded,
}

/// The address as text: segment and offset, four hexadecimal digits each,
/// with a colon between them.
pub open spec fn address_text(a: MemoryAddress) -> Seq<char> {
    hex_text(a.spec_segment() as nat, 4) + ":"@ + hex_text(a.spec_offset() as nat, 4)
}

/// The addresses as text, with a comma and a blank between them.
pub open spec fn addresses_text(v: Seq<MemoryAddress>) -> Seq<char>
    decreases v.len(),
{
    if v.len() == 0 {
        Seq::empty()
    } else if v.len() == 1 {
        address_text(v[0])
    } else {
        addresses_text(v.drop_last()) + ", "@ + address_text(v.last())
    }
}

/// The line that stands above an instruction with cross references: the
/// sources of the transfers to it.
pub open spec fn xref_text(sources: Seq<MemoryAddress>) -> Seq<char> {
    "; xref: "@ + addresses_text(sources)
}

/// The address as text.
pub fn address_string(a: &MemoryAddress) -> (r: String)
    ensures
        r@ == address_text(*a),
{
    let mut r = hex(a.segment() as u64, 4);
    r.append(":");
    r.append(hex(a.offset() as u64, 4).as_str());
    r
}

/// The line that stands above an instruction with cross references.
pub fn xref_header(sources: &Vec<MemoryAddress>) -> (r: String)
    ensures
        r@ == xref_text(sources@),
{
    let mut r = String::from_str("; xref: ");
    let mut i: usize = 0;
    assert(sources@.subrange(0, 0) =~= Seq::<MemoryAddress>::empty());
    assert(r@ =~= xref_text(sources@.subrange(0, 0)));
    while i < sources.len()
        invariant
            i <= sources@.len(),
            r@ == xref_text(sources@.subrange(0, i as int)),
        decreases sources@.len() - i,
    {
        let ghost before = r@;
        if i > 0 {
            r.append(", ");
        }
        r.append(address_string(&sources[i]).as_str());
        proof {
            let part = sources@.subrange(0, i + 1);
            assert(part.drop_last() =~= sources@.subrange(0, i as int));
            assert(part.last() == sources@[i as int]);
            if i == 0 {
                assert(addresses_text(sources@.subrange(0, 0)) =~= Seq::<char>::empty());
                assert(r@ =~= "; xref: "@ + address_text(sources@[0]));
            } else {
                assert(r@ =~= before + ", "@ + address_text(sources@[i as int]));
                assert(r@ =~= "; xref: "@ + (addresses_text(sources@.subrange(0, i as int)) + ", "@
                    + address_text(sources@[i as int])));
            }
        }
        i += 1;
    }
    assert(sources@.subrange(0, sources@.len() as int) =~= sources@);
    r
}

/// Whether the addresses stand in the order of their flat addresses.
pub open spec fn ascending(v: Seq<MemoryAddress>) -> bool {
    forall|i: int, j: int| 0 <= i < j < v.len() ==> v[i].spec_value() <= v[j].spec_value()
}

/// The flat address at which the instruction before line `i` ends; 0 for
/// the first line.
pub open spec fn end_before(mem: Seq<u8>, v: Seq<MemoryAddress>, i: int) -> int {
    if i <= 0 {
        0
    } else {
        let a = v[i - 1];
        flat(
            a.spec_segment(),
            wrap16(
                a.spec_offset() + instruction_at(mem, a.spec_segment(), a.spec_offset()).length,
            ),
        )
    }
}

/// What line `i` of the listing says: the instruction at the `i`-th
/// address; the sources of the cross references to it, in the order of
/// their flat addresses; and a separator if the instruction before ends at
/// another address than this one, and not at 0.
pub open spec fn line_of(
    mem: Seq<u8>,
    xrefs: Seq<Xref>,
    v: Seq<MemoryAddress>,
    i: int,
    line: TraceLine,
) -> bool {
    &&& line.address == v[i]
    &&& line.instruction == instruction_at(mem, v[i].spec_segment(), v[i].spec_offset())
    &&& line.separator == (end_before(mem, v, i) != 0 && end_before(mem, v, i)
        != v[i].spec_value())
    &&& line.xref@ == sorted_seq(
        sources_among(xrefs, v[i].spec_value(), xrefs.len()),
        sources_among(xrefs, v[i].spec_value(), xrefs.len()).len(),
    )
}

/// The index, from `from` on, of the first address with a flat address
/// above the one of `x`; the length if there is none.
pub open spec fn place_of(s: Seq<MemoryAddress>, x: MemoryAddress, from: int) -> int
    decreases s.len() - from,
{
    if from < 0 || from >= s.len() {
        s.len() as int
    } else if s[from].spec_value() > x.spec_value() {
        from
    } else {
        place_of(s, x, from + 1)
    }
}

/// The first `n` addresses in the order of their flat addresses: each is
/// inserted behind the addresses that do not lie above it, so that
/// addresses with one flat address keep their order.
pub open spec fn sorted_seq(v: Seq<MemoryAddress>, n: nat) -> Seq<MemoryAddress>
    decreases n,
{
    if n == 0 {
        Seq::empty()
    } else {
        let before = sorted_seq(v, (n - 1) as nat);
        before.insert(place_of(before, v[n - 1], 0), v[n - 1])
    }
}

/// The addresses in the order of their flat addresses; addresses with one
/// flat address keep their order.
pub fn sorted_by_value(v: &Vec<MemoryAddress>) -> (r: Vec<MemoryAddress>)
    ensures
        r@ == sorted_seq(v@, v@.len()),
        ascending(r@),
        r@.to_multiset() == v@.to_multiset(),
        r@.len() == v@.len(),
{
    let mut out: Vec<MemoryAddress> = Vec::new();
    let mut k: usize = 0;
    assert(v@.subrange(0, 0) =~= Seq::<MemoryAddress>::empty());
    while k < v.len()
        invariant
            k <= v@.len(),
            out@.len() == k,
            out@ == sorted_seq(v@, k as nat),
            ascending(out@),
            out@.to_multiset() == v@.subrange(0, k as int).to_multiset(),
        decreases v@.len() - k,
    {
        let x = v[k];
        let mut p: usize = 0;
        while p < out.len() && out[p].value() <= x.value()
            invariant
                p <= out@.len(),
                forall|i: int| 0 <= i < p ==> out@[i].spec_value() <= x.spec_value(),
                place_of(out@, x, 0) == place_of(out@, x, p as int),
            decreases out@.len() - p,
        {
            p += 1;
        }
        assert(place_of(out@, x, 0) == p);
        let ghost before = out@;
        out.insert(p, x);
        proof {
            vstd::seq_lib::to_multiset_insert(before, p as int, x);
            vstd::seq_lib::to_multiset_build(v@.subrange(0, k as int), x);
            assert(v@.subrange(0, k + 1) =~= v@.subrange(0, k as int).push(x));
            assert forall|i: int, j: int| 0 <= i < j < out@.len() implies out@[i].spec_value()
                <= out@[j].spec_value() by {
                let a = if i < p {
                    before[i]
                } else if i == p {
                    x
                } else {
                    before[i - 1]
                };
                let b = if j < p {
                    before[j]
                } else if j == p {
                    x
                } else {
                    before[j - 1]
                };
                assert(out@[i] == a);
                assert(out@[j] == b);
                if p < before.len() {
                    assert(before[p as int].spec_value() > x.spec_value());
                }
            }
        }
        k += 1;
    }
    assert(v@.subrange(0, v@.len() as int) =~= v@);
    out
}

/// Whether `new` holds the destinations of `old` at their places, perhaps
/// walked by now, and perhaps more.
pub open spec fn grown(old: Seq<SeenDestination>, new: Seq<SeenDestination>) -> bool {
    &&& old.len() <= new.len()
    &&& forall|k: int| 0 <= k < old.len() ==> (#[trigger] new[k]).address == old[k].address
}

/// The most paths that a trace walks: two for each offset of a segment,
/// which a trace that starts with nothing does not exceed.
pub const MAX_PATHS: u32 = 0x2_0000;

/// What the tracer needs to know of an instruction.
pub struct Flow {
    /// the target that the instruction names, if it is a transfer
    pub target: Option<u16>,
    /// whether the path ends with it
    pub ends: bool,
}

/// The flow of control at an instruction.
pub fn flow_of(d: &Decoded) -> (f: Flow)
    ensures
        f.target == target_of(*d),
        f.ends == ends_path(*d),
{
    let jump = match d.command {
        Op::JmpNear | Op::JmpFar | Op::JmpShort => true,
        _ => false,
    };
    let ret = match d.command {
        Op::Retn | Op::Retf | Op::RetImm16 => true,
        _ => false,
    };
    let branch = match d.command {
        Op::CallNear | Op::CallFar | Op::Loop | Op::Loope | Op::Loopne | Op::Ja | Op::Jc
        | Op::Jcxz | Op::Jg | Op::Jl | Op::Jna | Op::Jnc | Op::Jng | Op::Jnl | Op::Jno | Op::Jns
        | Op::Jnz | Op::Jo | Op::Jpe | Op::Jpo | Op::Js | Op::Jz => true,
        _ => false,
    };
    let target = if jump || branch {
        match d.dst {
            Parameter::Imm16(t) => Some(t),
            _ => None,
        }
    } else {
        None
    };
    Flow { target, ends: jump || ret }
}

/// Among addresses of one segment, the address with a flat value is the
/// address itself.
pub proof fn lemma_visited_by_value(
    v: Seq<MemoryAddress>,
    d: Seq<SeenDestination>,
    seg: u16,
    off: u16,
)
    requires
        all_in_segment(v, d, seg),
    ensures
        (exists|i: int| 0 <= i < v.len() && v[i].spec_value() == at(seg, off).spec_value())
            == visited_in(v, seg, off),
{
    if exists|i: int| 0 <= i < v.len() && v[i].spec_value() == at(seg, off).spec_value() {
        let i = choose|i: int| 0 <= i < v.len() && v[i].spec_value() == at(seg, off).spec_value();
        assert(v[i] == at(seg, v[i].spec_offset()));
        assert(v[i] == at(seg, off));
    }
    if visited_in(v, seg, off) {
        let i = choose|i: int| 0 <= i < v.len() && v[i] == at(seg, off);
        assert(v[i].spec_value() == at(seg, off).spec_value());
    }
}

/// A walk that arrives at a visited instruction has nothing pending.
pub proof fn lemma_settle(v: Seq<MemoryAddress>, d: Seq<SeenDestination>, rom: Rom, off: u16)
    requires
        consistent_with(v, d, rom, Some(off)),
        visited_in(v, rom.seg, off),
    ensures
        consistent_with(v, d, rom, None),
{
}

/// A walk that stands at an instruction after which none follows has
/// nothing pending once the instruction is visited.
pub proof fn lemma_settle_none(v: Seq<MemoryAddress>, d: Seq<SeenDestination>, rom: Rom, off: u16)
    requires
        rom.falls_to(off) is None,
        consistent_with(v, d, rom, rom.falls_to(off)),
    ensures
        consistent_with(v, d, rom, None),
{
}

/// Visiting the instruction where the walk stands, after its target became
/// a destination, leaves the instruction that follows it pending.
pub proof fn lemma_step(
    v0: Seq<MemoryAddress>,
    d0: Seq<SeenDestination>,
    d1: Seq<SeenDestination>,
    rom: Rom,
    off: u16,
)
    requires
        consistent_with(v0, d0, rom, Some(off)),
        all_in_segment(v0.push(at(rom.seg, off)), d1, rom.seg),
        d0.is_prefix_of(d1),
        forall|k: int| d0.len() <= k < d1.len() ==> !(#[trigger] d1[k]).visited,
        match target_of(rom.instruction(off)) {
            Some(t) => seen_in(d1, rom.seg, t),
            None => true,
        },
    ensures
        consistent_with(v0.push(at(rom.seg, off)), d1, rom, rom.falls_to(off)),
        forall|o: u16| visited_in(v0, rom.seg, o) ==> visited_in(v0.push(at(rom.seg, off)), rom.seg, o),
        visited_in(v0.push(at(rom.seg, off)), rom.seg, off),
{
    let v1 = v0.push(at(rom.seg, off));
    assert(v1[v0.len() as int] == at(rom.seg, off));
    assert forall|o: u16| visited_in(v0, rom.seg, o) implies visited_in(v1, rom.seg, o) by {
        let i = choose|i: int| 0 <= i < v0.len() && v0[i] == at(rom.seg, o);
        assert(v1[i] == at(rom.seg, o));
    }
    assert forall|o: u16| seen_in(d0, rom.seg, o) implies seen_in(d1, rom.seg, o) by {
        let i = choose|i: int| 0 <= i < d0.len() && d0[i].address == at(rom.seg, o);
        assert(d1[i].address == at(rom.seg, o));
    }
    assert forall|i: int| 0 <= i < v1.len() implies match target_of(
        rom.instruction((#[trigger] v1[i]).spec_offset()),
    ) {
        Some(t) => seen_in(d1, rom.seg, t),
        None => true,
    } by {
        if i < v0.len() {
            assert(v1[i] == v0[i]);
        }
    }
    assert forall|i: int| 0 <= i < v1.len() implies match rom.falls_to(
        (#[trigger] v1[i]).spec_offset(),
    ) {
        Some(n) => visited_in(v1, rom.seg, n) || rom.falls_to(off) == Some(n),
        None => true,
    } by {
        if i < v0.len() {
            assert(v1[i] == v0[i]);
        }
    }
    assert forall|i: int| 0 <= i < d1.len() && (#[trigger] d1[i]).visited implies visited_in(
        v1,
        rom.seg,
        d1[i].address.spec_offset(),
    ) by {
        assert(i < d0.len());
        assert(d1[i] == d0[i]);
    }
}

/// Marking the first destination at a visited offset as walked keeps the
/// trace consistent.
pub proof fn lemma_marked(
    v: Seq<MemoryAddress>,
    d0: Seq<SeenDestination>,
    d1: Seq<SeenDestination>,
    rom: Rom,
    off: u16,
)
    requires
        consistent_with(v, d0, rom, None),
        visited_in(v, rom.seg, off),
        d1.len() == d0.len(),
        forall|i: int|
            0 <= i < d0.len() ==> #[trigger] d1[i] == (SeenDestination {
                address: d0[i].address,
                visited: d0[i].visited || is_first_at(d0, at(rom.seg, off).spec_value(), i),
            }),
    ensures
        consistent_with(v, d1, rom, None),
{
    assert forall|o: u16| seen_in(d0, rom.seg, o) implies seen_in(d1, rom.seg, o) by {
        let i = choose|i: int| 0 <= i < d0.len() && d0[i].address == at(rom.seg, o);
        assert(d1[i].address == at(rom.seg, o));
    }
    assert forall|i: int| 0 <= i < d1.len() implies (#[trigger] d1[i]).address == at(
        rom.seg,
        d1[i].address.spec_offset(),
    ) by {
        assert(d1[i].address == d0[i].address);
    }
    assert forall|i: int| 0 <= i < d1.len() && (#[trigger] d1[i]).visited implies visited_in(
        v,
        rom.seg,
        d1[i].address.spec_offset(),
    ) by {
        assert(d1[i].address == d0[i].address);
        if !d0[i].visited {
            assert(d0[i].address == at(rom.seg, d0[i].address.spec_offset()));
            assert(d0[i].address.spec_value() == at(rom.seg, off).spec_value());
        }
    }
}

/// More destinations that are not walked keep the trace consistent.
pub proof fn lemma_more_destinations(
    v: Seq<MemoryAddress>,
    d0: Seq<SeenDestination>,
    d1: Seq<SeenDestination>,
    rom: Rom,
)
    requires
        consistent_with(v, d0, rom, None),
        d0.is_prefix_of(d1),
        forall|k: int|
            d0.len() <= k < d1.len() ==> !(#[trigger] d1[k]).visited && d1[k].address == at(
                rom.seg,
                d1[k].address.spec_offset(),
            ),
    ensures
        consistent_with(v, d1, rom, None),
{
    assert forall|o: u16| seen_in(d0, rom.seg, o) implies seen_in(d1, rom.seg, o) by {
        let i = choose|i: int| 0 <= i < d0.len() && d0[i].address == at(rom.seg, o);
        assert(d1[i].address == at(rom.seg, o));
    }
    assert forall|i: int| 0 <= i < d1.len() implies (#[trigger] d1[i]).address == at(
        rom.seg,
        d1[i].address.spec_offset(),
    ) by {
        if i < d0.len() {
            assert(d1[i] == d0[i]);
        }
    }
    assert forall|i: int| 0 <= i < d1.len() && (#[trigger] d1[i]).visited implies visited_in(
        v,
        rom.seg,
        d1[i].address.spec_offset(),
    ) by {
        assert(i < d0.len());
        assert(d1[i] == d0[i]);
    }
}

/// When every destination was walked, the visited instructions are closed
/// under control flow.
pub proof fn lemma_complete_is_closed(v: Seq<MemoryAddress>, d: Seq<SeenDestination>, rom: Rom)
    requires
        consistent_with(v, d, rom, None),
        forall|i: int| 0 <= i < d.len() ==> (#[trigger] d[i]).visited,
    ensures
        forall|from: u16, to: u16|
            visited_in(v, rom.seg, from) && #[trigger] rom.flows(from, to) ==> visited_in(
                v,
                rom.seg,
                to,
            ),
{
    assert forall|from: u16, to: u16|
        visited_in(v, rom.seg, from) && #[trigger] rom.flows(from, to) implies visited_in(
        v,
        rom.seg,
        to,
    ) by {
        let i = choose|i: int| 0 <= i < v.len() && v[i] == at(rom.seg, from);
        assert(v[i].spec_offset() == from);
        if target_of(rom.instruction(from)) == Some(to) {
            assert(seen_in(d, rom.seg, to));
            let j = choose|j: int| 0 <= j < d.len() && d[j].address == at(rom.seg, to);
            assert(d[j].visited);
        }
    }
}

/// In a complete trace every destination of a cross reference is visited.
pub proof fn lemma_xref_destinations_visited(t: Tracer, rom: Rom, i: int)
    requires
        t.closed(rom),
        xrefs_sound(t.xrefs@, t.visited_addresses@, rom),
        0 <= i < t.xrefs@.len(),
    ensures
        t.visited(rom.seg, t.xrefs@[i].destination.spec_offset()),
{
    let x = t.xrefs@[i];
    assert(xref_sound(x, t.visited_addresses@, rom));
    assert(rom.flows(x.source.spec_offset(), x.destination.spec_offset()));
}

/// A complete trace has visited every instruction that control flow can
/// reach from an entry that it has visited.
pub proof fn lemma_trace_covers_reachable(t: Tracer, rom: Rom, entry: u16, off: u16, n: nat)
    requires
        t.closed(rom),
        t.visited(rom.seg, entry),
        rom.reaches(entry, off, n),
    ensures
        t.visited(rom.seg, off),
    decreases n,
{
    if off != entry {
        let mid = choose|mid: u16| rom.reaches(entry, mid, (n - 1) as nat) && rom.flows(mid, off);
        lemma_trace_covers_reachable(t, rom, entry, mid, (n - 1) as nat);
        assert(rom.flows(mid, off));
    }
}

/// Whether destination `i` is the first with the flat address `value`.
pub open spec fn is_first_at(dests: Seq<SeenDestination>, value: int, i: int) -> bool {
    dests[i].address.spec_value() == value && forall|k: int|
        0 <= k < i ==> dests[k].address.spec_value() != value
}

/// The sources of the cross references to flat address `value` among the
/// first `n` cross references.
pub open spec fn sources_among(xrefs: Seq<Xref>, value: int, n: nat) -> Seq<MemoryAddress>
    decreases n,
{
    if n == 0 {
        Seq::empty()
    } else if xrefs[n - 1].destination.spec_value() == value {
        sources_among(xrefs, value, (n - 1) as nat).push(xrefs[n - 1].source)
    } else {
        sources_among(xrefs, value, (n - 1) as nat)
    }
}

} // verus!
