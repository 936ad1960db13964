//! Capability objects and the table that hands out handles to them.
//!
//! A table lives for one plugin run. It numbers the capabilities pushed into
//! it from zero upwards and never gives a number out twice, so a handle whose
//! capability was deleted stays invalid for as long as the table lives.

use vstd::prelude::*;

verus! {

/// The delay primitive.
#[derive(Clone, Copy, Debug, PartialEq, Eq, Structural)]
pub struct Delay;

/// A line of the GPIO chip that is leased for input; the field is the line's
/// offset on the chip.
#[derive(Clone, Copy, Debug, PartialEq, Eq, Structural)]
pub struct InputPin(pub u32);

/// A line of the GPIO chip that is leased for output; the field is the line's
/// offset on the chip.
#[derive(Clone, Copy, Debug, PartialEq, Eq, Structural)]
pub struct OutputPin(pub u32);

/// A capability object: what a handle gives access to.
#[derive(Clone, Copy, Debug, PartialEq, Eq, Structural)]
pub enum Capability {
    OutputPin(OutputPin),
    InputPin(InputPin),
    Delay(Delay),
}

/// An opaque name for one capability in one table.
#[derive(Clone, Copy, Debug, PartialEq, Eq, Structural)]
pub struct CapabilityHandle {
    table: u64,
    rep: u32,
}

impl CapabilityHandle {
    /// The table that the handle belongs to.
    pub closed spec fn table_id(self) -> u64 {
        self.table
    }

    /// The number of the handle within its table.
    pub closed spec fn number(self) -> u32 {
        self.rep
    }

    /// The number under which the sandbox engine knows this handle.
    pub fn rep(&self) -> (r: u32)
        ensures
            r == self.number(),
    {
        self.rep
    }
}

/// The handle is unknown to the table, or its capability was deleted.
#[derive(Clone, Copy, Debug, PartialEq, Eq, Structural)]
pub struct HandleFault;

/// The arena of one plugin run: it maps handles to capability objects.
pub struct CapabilityTable {
    id: u64,
    slots: Vec<Option<Capability>>,
}

impl CapabilityTable {
    /// What tells this table from the others.
    pub closed spec fn id(self) -> u64 {
        self.id
    }

    /// How many handles the table has issued so far.
    pub closed spec fn issued(self) -> nat {
        self.slots.len() as nat
    }

    /// Whether the table has issued `handle`, now or earlier.
    pub open spec fn was_issued(self, handle: CapabilityHandle) -> bool {
        handle.table_id() == self.id() && handle.number() < self.issued()
    }

    /// The capabilities that the table holds now, each under its handle.
    pub closed spec fn view(self) -> Map<CapabilityHandle, Capability> {
        Map::new(
            |h: CapabilityHandle|
                h.table == self.id && h.rep < self.slots.len() && self.slots[h.rep as int] is Some,
            |h: CapabilityHandle| self.slots[h.rep as int].unwrap(),
        )
    }

    /// Whether `handle` was issued by the table and its capability deleted.
    pub open spec fn retired(self, handle: CapabilityHandle) -> bool {
        self.was_issued(handle) && !self@.contains_key(handle)
    }

    /// The table holds capabilities only under handles that it has issued.
    pub proof fn lemma_unissued_handle_is_unknown(self, handle: CapabilityHandle)
        requires
            !self.was_issued(handle),
        ensures
            !self@.contains_key(handle),
    {
    }

    /// A handle that one table has issued names nothing in a table with
    /// another id.
    pub proof fn lemma_foreign_handle_is_unknown(self, other: CapabilityTable, handle: CapabilityHandle)
        requires
            self.id() != other.id(),
            self.was_issued(handle),
        ensures
            !other@.contains_key(handle),
    {
    }

    /// A fresh table, told from others by `id`.
    pub fn new(id: u64) -> (table: CapabilityTable)
        ensures
            table.id() == id,
            table.issued() == 0,
            table@ == Map::<CapabilityHandle, Capability>::empty(),
    {
        let table = CapabilityTable { id, slots: Vec::new() };
        assert(table@ =~= Map::<CapabilityHandle, Capability>::empty());
        table
    }

    /// The handle of this table that has the number `rep`. This is how a number
    /// that comes back from the sandbox becomes a handle again; the handle is
    /// valid only if the table issued it and still holds its capability.
    pub fn handle_of(&self, rep: u32) -> (handle: CapabilityHandle)
        ensures
            handle.table_id() == self.id(),
            handle.number() == rep,
    {
        CapabilityHandle { table: self.id, rep }
    }

    /// Puts `object` into the table and issues a handle to it. The handle was
    /// never issued before. `None` when all 2^32 handles have been issued.
    pub fn push(&mut self, object: Capability) -> (r: Option<CapabilityHandle>)
        ensures
            final(self).id() == old(self).id(),
            r is Some <==> old(self).issued() <= u32::MAX,
            match r {
                Some(handle) => {
                    &&& handle.table_id() == old(self).id()
                    &&& handle.number() == old(self).issued()
                    &&& !old(self).was_issued(handle)
                    &&& final(self).issued() == old(self).issued() + 1
                    &&& final(self)@ == old(self)@.insert(handle, object)
                },
                None => final(self).issued() == old(self).issued() && final(self)@ == old(self)@,
            },
            forall|h: CapabilityHandle| old(self).retired(h) ==> final(self).retired(h),
    {
        if self.slots.len() > u32::MAX as usize {
            return None;
        }
        let handle = CapabilityHandle { table: self.id, rep: self.slots.len() as u32 };
        self.slots.push(Some(object));
        assert(self@ =~= old(self)@.insert(handle, object));
        Some(handle)
    }

    /// The capability that `handle` names. It fails if and only if the table
    /// does not hold a capability under `handle`: the handle is from another
    /// table, was never issued, or was deleted.
    pub fn get(&self, handle: CapabilityHandle) -> (r: Result<&Capability, HandleFault>)
        ensures
            match r {
                Ok(object) => self@.contains_key(handle) && *object == self@[handle],
                Err(_) => !self@.contains_key(handle),
            },
    {
        if handle.table != self.id || handle.rep as usize >= self.slots.len() {
            return Err(HandleFault);
        }
        match &self.slots[handle.rep as usize] {
            Some(object) => Ok(object),
            None => Err(HandleFault),
        }
    }

    /// Removes the capability that `handle` names and returns it. It fails, and
    /// changes nothing, if and only if the table does not hold a capability
    /// under `handle`; so a second deletion fails.
    pub fn delete(&mut self, handle: CapabilityHandle) -> (r: Result<Capability, HandleFault>)
        ensures
            final(self).id() == old(self).id(),
            final(self).issued() == old(self).issued(),
            match r {
                Ok(object) => {
                    &&& old(self)@.contains_key(handle)
                    &&& object == old(self)@[handle]
                    &&& final(self)@ == old(self)@.remove(handle)
                    &&& final(self).retired(handle)
                },
                Err(_) => !old(self)@.contains_key(handle) && final(self)@ == old(self)@,
            },
            forall|h: CapabilityHandle| old(self).retired(h) ==> final(self).retired(h),
    {
        if handle.table != self.id || handle.rep as usize >= self.slots.len() {
            return Err(HandleFault);
        }
        match self.slots[handle.rep as usize] {
            Some(object) => {
                self.slots.set(handle.rep as usize, None);
                assert(self@ =~= old(self)@.remove(handle));
                Ok(object)
            },
            None => Err(HandleFault),
        }
    }
}

} // verus!
