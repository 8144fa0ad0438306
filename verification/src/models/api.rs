//! The bounds a model asks the daemon within.
//!
//! Reads coalesce at their ceiling; everything else is refused as busy rather
//! than discarded. Every answer is stamped with the connection epoch it was
//! issued under, and one issued under an epoch that has since moved is never
//! applied.

use vstd::prelude::*;

use crate::management::client::Issued;

verus! {

/// How long a read may take, in milliseconds. One deadline covers the whole
/// exchange.
pub const READ_DEADLINE_MS: u64 = 10_000;
/// How long a write may take, in milliseconds. Longer than a read: a write can
/// touch a keyring or rewrite the settings file before it answers.
pub const WRITE_DEADLINE_MS: u64 = 20_000;
/// How long a write that waits for the owner to unlock may take.
pub const UNLOCK_DEADLINE_MS: u64 = 120_000;

/// At most this many reads are in flight at once.
pub const MAX_CONCURRENT_READS: usize = 4;
/// At most this much work is outstanding at once.
pub const MAX_QUEUED: usize = 16;

/// The answer, or nothing when the connection epoch moved while it was in
/// flight. Every model result goes through here.
pub fn accept<T>(current_epoch: u64, issued: Issued<T>) -> (r: Option<T>)
    ensures
        r == (if issued.epoch == current_epoch {
            Some(issued.value)
        } else {
            None
        }),
{
    if current_epoch == issued.epoch {
        Some(issued.value)
    } else {
        None
    }
}

/// What one permit holds a slot of.
#[derive(Debug, Clone, Copy, PartialEq, Eq, Structural)]
pub enum Slot {
    Read,
    Write,
    Lifecycle,
}

/// One outstanding operation. Handing it back releases its count.
#[derive(Debug)]
pub struct Permit {
    slot: Slot,
}

impl Permit {
    /// What this permit holds a slot of.
    pub closed spec fn holds(&self) -> Slot {
        self.slot
    }
}

/// The bounds, counted.
#[derive(Debug)]
pub struct Gate {
    reads: usize,
    outstanding: usize,
    lifecycle: bool,
}

/// The counts a `Gate` holds, as values.
pub struct GateView {
    pub reads: nat,
    pub outstanding: nat,
    pub lifecycle: bool,
}

impl View for Gate {
    type V = GateView;

    closed spec fn view(&self) -> GateView {
        GateView {
            reads: self.reads as nat,
            outstanding: self.outstanding as nat,
            lifecycle: self.lifecycle,
        }
    }
}

/// Whether the counts are within the bounds.
pub open spec fn within_bounds(g: GateView) -> bool {
    &&& g.reads <= MAX_CONCURRENT_READS
    &&& g.outstanding <= MAX_QUEUED
    &&& g.reads + (if g.lifecycle { 1nat } else { 0nat }) <= g.outstanding
}

/// Whether a slot of one kind can be taken now.
pub open spec fn admits(g: GateView, slot: Slot) -> bool {
    match slot {
        Slot::Read => g.reads < MAX_CONCURRENT_READS && g.outstanding < MAX_QUEUED,
        Slot::Write => g.outstanding < MAX_QUEUED,
        Slot::Lifecycle => !g.lifecycle && g.outstanding < MAX_QUEUED,
    }
}

/// The counts once a slot of one kind is taken.
pub open spec fn taken(g: GateView, slot: Slot) -> GateView {
    match slot {
        Slot::Read => GateView { reads: g.reads + 1, outstanding: g.outstanding + 1, ..g },
        Slot::Write => GateView { outstanding: g.outstanding + 1, ..g },
        Slot::Lifecycle => GateView { lifecycle: true, outstanding: g.outstanding + 1, ..g },
    }
}

/// The counts once a slot of one kind is given back.
pub open spec fn given_back(g: GateView, slot: Slot) -> GateView {
    let outstanding = if g.outstanding == 0 { 0nat } else { (g.outstanding - 1) as nat };
    match slot {
        Slot::Read => GateView {
            reads: if g.reads == 0 { 0nat } else { (g.reads - 1) as nat },
            outstanding,
            ..g
        },
        Slot::Write => GateView { outstanding, ..g },
        Slot::Lifecycle => GateView { lifecycle: false, outstanding, ..g },
    }
}

impl Gate {
    /// A gate with nothing outstanding.
    pub fn new() -> (g: Self)
        ensures
            g@.reads == 0,
            g@.outstanding == 0,
            !g@.lifecycle,
    {
        Gate { reads: 0, outstanding: 0, lifecycle: false }
    }

    fn take(&mut self, slot: Slot) -> (r: Option<Permit>)
        requires
            within_bounds(old(self)@),
        ensures
            within_bounds(final(self)@),
            r is Some <==> admits(old(self)@, slot),
            r matches Some(p) ==> p.holds() == slot && final(self)@ == taken(old(self)@, slot),
            r is None ==> final(self)@ == old(self)@,
    {
        let admitted = match slot {
            Slot::Read => self.reads < MAX_CONCURRENT_READS && self.outstanding < MAX_QUEUED,
            Slot::Write => self.outstanding < MAX_QUEUED,
            Slot::Lifecycle => !self.lifecycle && self.outstanding < MAX_QUEUED,
        };
        if !admitted {
            return None;
        }
        match slot {
            Slot::Read => {
                self.reads = self.reads + 1;
            },
            Slot::Write => {},
            Slot::Lifecycle => {
                self.lifecycle = true;
            },
        }
        self.outstanding = self.outstanding + 1;
        Some(Permit { slot })
    }

    /// A permit for one read, or nothing when four are already in flight or
    /// sixteen operations are outstanding.
    pub fn read(&mut self) -> (r: Option<Permit>)
        requires
            within_bounds(old(self)@),
        ensures
            within_bounds(final(self)@),
            r is Some <==> admits(old(self)@, Slot::Read),
            r matches Some(p) ==> p.holds() == Slot::Read && final(self)@ == taken(
                old(self)@,
                Slot::Read,
            ),
            r is None ==> final(self)@ == old(self)@,
    {
        self.take(Slot::Read)
    }

    /// A permit for one write, or nothing when sixteen operations are already
    /// outstanding.
    pub fn write(&mut self) -> (r: Option<Permit>)
        requires
            within_bounds(old(self)@),
        ensures
            within_bounds(final(self)@),
            r is Some <==> admits(old(self)@, Slot::Write),
            r matches Some(p) ==> p.holds() == Slot::Write && final(self)@ == taken(
                old(self)@,
                Slot::Write,
            ),
            r is None ==> final(self)@ == old(self)@,
    {
        self.take(Slot::Write)
    }

    /// A permit for the one lifecycle mutation, or nothing while one is
    /// running. Installing, uninstalling and restarting share the slot.
    pub fn lifecycle(&mut self) -> (r: Option<Permit>)
        requires
            within_bounds(old(self)@),
        ensures
            within_bounds(final(self)@),
            r is Some <==> admits(old(self)@, Slot::Lifecycle),
            r matches Some(p) ==> p.holds() == Slot::Lifecycle && final(self)@ == taken(
                old(self)@,
                Slot::Lifecycle,
            ),
            r is None ==> final(self)@ == old(self)@,
    {
        self.take(Slot::Lifecycle)
    }

    /// Give a permit's count back, on whatever path its operation ended.
    pub fn release(&mut self, permit: Permit)
        requires
            within_bounds(old(self)@),
            permit.holds() == Slot::Read ==> old(self)@.reads >= 1,
            permit.holds() == Slot::Lifecycle ==> old(self)@.lifecycle,
            permit.holds() == Slot::Write ==> old(self)@.outstanding >= old(self)@.reads + (
            if old(self)@.lifecycle {
                1nat
            } else {
                0nat
            }) + 1,
        ensures
            within_bounds(final(self)@),
            final(self)@ == given_back(old(self)@, permit.holds()),
    {
        self.outstanding = if self.outstanding == 0 { 0 } else { self.outstanding - 1 };
        match permit.slot {
            Slot::Read => {
                self.reads = if self.reads == 0 { 0 } else { self.reads - 1 };
            },
            Slot::Write => {},
            Slot::Lifecycle => {
                self.lifecycle = false;
            },
        }
    }

    /// How much work is outstanding.
    pub fn outstanding(&self) -> (r: usize)
        ensures
            r == self@.outstanding,
    {
        self.outstanding
    }
}

impl Default for Gate {
    fn default() -> (g: Self)
        ensures
            g@.reads == 0,
            g@.outstanding == 0,
            !g@.lifecycle,
    {
        Gate::new()
    }
}

/// Giving a permit back undoes taking it: a permit gives its count back on
/// every path, and the counts are left as they were found.
pub proof fn giving_back_undoes_taking(g: GateView, slot: Slot)
    requires
        within_bounds(g),
        admits(g, slot),
    ensures
        within_bounds(taken(g, slot)),
        given_back(taken(g, slot), slot) == g,
{
}

/// Taking a slot never leaves more than four reads in flight, more than
/// sixteen operations outstanding, or two lifecycle mutations at once.
pub proof fn the_bounds_hold_across_every_take(g: GateView, slot: Slot)
    requires
        within_bounds(g),
        admits(g, slot),
    ensures
        within_bounds(taken(g, slot)),
        slot == Slot::Lifecycle ==> !g.lifecycle,
{
}

} // verus!
