//! The pointer-device registry.
//!
//! A surface keeps non-owning bindings to every pointer device currently
//! hovering it. A binding is a generation-checked index into this table plus
//! a liveness check, so a destroyed pointer simply disappears from every
//! surface that still holds its binding, without lifetime coupling between
//! surfaces and input devices.

use vstd::prelude::*;

verus! {

/// Per-pointer protocol state a surface needs when broadcasting cursor
/// changes.
#[derive(Clone, Copy, Debug, PartialEq, Eq, Structural)]
pub struct PointerData {
    /// The serial of the most recent enter event, required by the protocol
    /// to authorize a cursor change.
    pub latest_enter_serial: u32,
    /// Integer scale factor of the pointer's own cursor surface.
    pub surface_scale: u32,
    /// Protocol version negotiated for the pointer's cursor surface; it
    /// selects the damage-reporting call.
    pub surface_version: u32,
}

/// One table entry.
#[derive(Clone, Copy, Debug, PartialEq, Eq, Structural)]
pub struct PointerSlot {
    pub generation: u64,
    pub live: bool,
    pub data: PointerData,
}

/// A stable, generation-checked identity of a pointer device.
#[derive(Clone, Copy, Debug, PartialEq, Eq, Structural)]
pub struct PointerId {
    pub index: usize,
    pub generation: u64,
}

/// The table of pointer devices known to the event loop.
pub struct PointerRegistry {
    pub slots: Vec<PointerSlot>,
}

impl PointerRegistry {
    /// Every entry's cursor-surface scale is a usable positive divisor.
    pub open spec fn wf(self) -> bool {
        forall|i: int|
            0 <= i < self.slots@.len() ==> 1 <= (#[trigger] self.slots@[i]).data.surface_scale
                <= i32::MAX
    }

    /// Whether `id` still names a live pointer.
    pub open spec fn is_live(self, id: PointerId) -> bool {
        id.index < self.slots@.len() && self.slots@[id.index as int].generation == id.generation
            && self.slots@[id.index as int].live
    }

    /// The protocol data recorded for `id`.
    pub open spec fn data_spec(self, id: PointerId) -> PointerData {
        self.slots@[id.index as int].data
    }

    /// An empty registry.
    pub fn new() -> (r: Self)
        ensures
            r.slots@.len() == 0,
            r.wf(),
    {
        PointerRegistry { slots: Vec::new() }
    }

    /// Add a pointer device, returning its identity.
    pub fn register(&mut self, data: PointerData) -> (id: PointerId)
        requires
            old(self).wf(),
            1 <= data.surface_scale <= i32::MAX,
        ensures
            final(self).wf(),
            final(self).is_live(id),
            final(self).data_spec(id) == data,
            id.index == old(self).slots@.len(),
            forall|p: PointerId|
                old(self).is_live(p) ==> #[trigger] final(self).is_live(p)
                    && final(self).data_spec(p) == old(self).data_spec(p),
    {
        let id = PointerId { index: self.slots.len(), generation: 0 };
        self.slots.push(PointerSlot { generation: 0, live: true, data });
        id
    }

    /// Remove a pointer device; its identity is dead from then on. Bindings
    /// held by surfaces are pruned lazily when next walked.
    pub fn destroy(&mut self, id: PointerId)
        requires
            old(self).wf(),
        ensures
            final(self).wf(),
            !final(self).is_live(id),
            forall|p: PointerId|
                p.index != id.index && old(self).is_live(p) ==> #[trigger] final(self).is_live(p)
                    && final(self).data_spec(p) == old(self).data_spec(p),
    {
        if id.index < self.slots.len() {
            if self.slots[id.index].generation == id.generation {
                let data = self.slots[id.index].data;
                self.slots.set(
                    id.index,
                    PointerSlot { generation: id.generation, live: false, data },
                );
            }
        }
    }

    /// Whether `id` still names a live pointer.
    pub fn live(&self, id: PointerId) -> (r: bool)
        ensures
            r == self.is_live(id),
    {
        if id.index < self.slots.len() {
            let slot = self.slots[id.index];
            slot.generation == id.generation && slot.live
        } else {
            false
        }
    }

    /// The protocol data recorded for a live pointer.
    pub fn data(&self, id: PointerId) -> (r: PointerData)
        requires
            self.is_live(id),
        ensures
            r == self.data_spec(id),
    {
        self.slots[id.index].data
    }

    /// Record a fresh enter event for a live pointer.
    pub fn record_enter(&mut self, id: PointerId, serial: u32)
        requires
            old(self).wf(),
            old(self).is_live(id),
        ensures
            final(self).wf(),
            final(self).is_live(id),
            final(self).data_spec(id) == (PointerData {
                latest_enter_serial: serial,
                ..old(self).data_spec(id)
            }),
            forall|p: PointerId|
                p.index != id.index && old(self).is_live(p) ==> #[trigger] final(self).is_live(p)
                    && final(self).data_spec(p) == old(self).data_spec(p),
    {
        let slot = self.slots[id.index];
        self.slots.set(
            id.index,
            PointerSlot {
                generation: slot.generation,
                live: slot.live,
                data: PointerData { latest_enter_serial: serial, ..slot.data },
            },
        );
    }
}

} // verus!
