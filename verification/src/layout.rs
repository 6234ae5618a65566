//! The binding contract shared by the two update kernels, and the two
//! binding sets that wire it to the buffers of a run.

use vstd::prelude::*;

verus! {

/// Number of resources a kernel consumes.
pub const SLOT_COUNT: usize = 9;

/// The buffers of a run.
#[derive(Clone, Copy, Debug, PartialEq, Eq, Structural)]
pub enum BufferId {
    Params,
    Ex,
    Ey,
    Ez,
    Hx,
    Hy,
    Hz,
    Ca,
    Cb,
    Cp,
    Cq,
    Readback,
}

/// The two kernels of a time step.
#[derive(Clone, Copy, Debug, PartialEq, Eq, Structural)]
pub enum Kernel {
    /// Reads the electric field, writes the magnetic field.
    UpdateH,
    /// Reads the magnetic field, writes the electric field.
    UpdateE,
}

/// How a kernel accesses the buffer bound to a slot.
#[derive(Clone, Copy, Debug, PartialEq, Eq, Structural)]
pub enum SlotKind {
    Uniform,
    ReadOnlyStorage,
    ReadWriteStorage,
}

/// One slot of the binding contract.
#[derive(Clone, Copy, Debug, PartialEq, Eq, Structural)]
pub struct LayoutEntry {
    pub binding: u32,
    pub kind: SlotKind,
}

/// One slot of a binding set: the buffer bound at `binding`.
#[derive(Clone, Copy, Debug, PartialEq, Eq, Structural)]
pub struct BindEntry {
    pub binding: u32,
    pub buffer: BufferId,
}

impl BufferId {
    /// Whether the buffer holds one of the six field components.
    pub open spec fn is_field(self) -> bool {
        self is Ex || self is Ey || self is Ez || self is Hx || self is Hy || self is Hz
    }

    /// Whether the buffer holds one of the four coefficient maps.
    pub open spec fn is_coefficient(self) -> bool {
        self is Ca || self is Cb || self is Cp || self is Cq
    }
}

/// Access kind of each slot: the parameter block, three inputs, three
/// outputs, two coefficient maps.
pub open spec fn slot_kind(binding: int) -> SlotKind {
    if binding == 0 {
        SlotKind::Uniform
    } else if 4 <= binding <= 6 {
        SlotKind::ReadWriteStorage
    } else {
        SlotKind::ReadOnlyStorage
    }
}

/// The binding contract: slot `b` sits at position `b`.
pub open spec fn shared_layout_spec() -> Seq<LayoutEntry> {
    Seq::new(
        SLOT_COUNT as nat,
        |b: int| (LayoutEntry { binding: b as u32, kind: slot_kind(b) }),
    )
}

/// The buffer that `kernel` finds at slot `binding`.
pub open spec fn bound_buffer(kernel: Kernel, binding: int) -> BufferId {
    match kernel {
        Kernel::UpdateH => if binding == 0 {
            BufferId::Params
        } else if binding == 1 {
            BufferId::Ex
        } else if binding == 2 {
            BufferId::Ey
        } else if binding == 3 {
            BufferId::Ez
        } else if binding == 4 {
            BufferId::Hx
        } else if binding == 5 {
            BufferId::Hy
        } else if binding == 6 {
            BufferId::Hz
        } else if binding == 7 {
            BufferId::Cp
        } else {
            BufferId::Cq
        },
        Kernel::UpdateE => if binding == 0 {
            BufferId::Params
        } else if binding == 1 {
            BufferId::Hx
        } else if binding == 2 {
            BufferId::Hy
        } else if binding == 3 {
            BufferId::Hz
        } else if binding == 4 {
            BufferId::Ex
        } else if binding == 5 {
            BufferId::Ey
        } else if binding == 6 {
            BufferId::Ez
        } else if binding == 7 {
            BufferId::Ca
        } else {
            BufferId::Cb
        },
    }
}

/// The binding set of `kernel`: slot `b` sits at position `b`.
pub open spec fn bind_group_spec(kernel: Kernel) -> Seq<BindEntry> {
    Seq::new(
        SLOT_COUNT as nat,
        |b: int| (BindEntry { binding: b as u32, buffer: bound_buffer(kernel, b) }),
    )
}

/// The kernel that runs in the other half of a time step.
pub open spec fn other_kernel(kernel: Kernel) -> Kernel {
    match kernel {
        Kernel::UpdateH => Kernel::UpdateE,
        Kernel::UpdateE => Kernel::UpdateH,
    }
}

/// A binding set fills the binding contract slot by slot: the parameter
/// block in the uniform slot, a field buffer in every writable slot, and a
/// field buffer or a coefficient map in every read-only slot.
pub proof fn lemma_bind_group_fits_layout(kernel: Kernel, b: int)
    requires
        0 <= b < SLOT_COUNT,
    ensures
        bind_group_spec(kernel).len() == shared_layout_spec().len(),
        bind_group_spec(kernel)[b].binding == shared_layout_spec()[b].binding,
        shared_layout_spec()[b].kind is Uniform <==> bind_group_spec(kernel)[b].buffer is Params,
        shared_layout_spec()[b].kind is ReadWriteStorage ==> bind_group_spec(
            kernel,
        )[b].buffer.is_field(),
        shared_layout_spec()[b].kind is ReadOnlyStorage ==> bind_group_spec(
            kernel,
        )[b].buffer.is_field() || bind_group_spec(kernel)[b].buffer.is_coefficient(),
{
}

/// Within one binding set no buffer is bound twice, so none is both read
/// and written by the same dispatch.
pub proof fn lemma_no_aliasing(kernel: Kernel, a: int, b: int)
    requires
        0 <= a < SLOT_COUNT,
        0 <= b < SLOT_COUNT,
        a != b,
    ensures
        bound_buffer(kernel, a) != bound_buffer(kernel, b),
{
}

/// The two half-steps alternate: what one kernel writes is exactly what the
/// other reads, slot for slot.
pub proof fn lemma_leapfrog(kernel: Kernel, input: int)
    requires
        1 <= input <= 3,
    ensures
        bound_buffer(kernel, input) == bound_buffer(other_kernel(kernel), input + 3),
{
}

/// A storage slot of the binding contract, read-only or writable.
pub fn bgl_storage_entry(binding: u32, read_only: bool) -> (entry: LayoutEntry)
    ensures
        entry.binding == binding,
        entry.kind == if read_only {
            SlotKind::ReadOnlyStorage
        } else {
            SlotKind::ReadWriteStorage
        },
{
    let kind = if read_only {
        SlotKind::ReadOnlyStorage
    } else {
        SlotKind::ReadWriteStorage
    };
    LayoutEntry { binding, kind }
}

/// The slot that binds `buffer` at `binding`.
pub fn bg_entry(binding: u32, buffer: BufferId) -> (entry: BindEntry)
    ensures
        entry == (BindEntry { binding, buffer }),
{
    BindEntry { binding, buffer }
}

/// The binding contract that both kernels are compiled against.
pub fn shared_layout() -> (layout: Vec<LayoutEntry>)
    ensures
        layout@ == shared_layout_spec(),
{
    let layout = vec![
        LayoutEntry { binding: 0, kind: SlotKind::Uniform },
        bgl_storage_entry(1, true),
        bgl_storage_entry(2, true),
        bgl_storage_entry(3, true),
        bgl_storage_entry(4, false),
        bgl_storage_entry(5, false),
        bgl_storage_entry(6, false),
        bgl_storage_entry(7, true),
        bgl_storage_entry(8, true),
    ];
    assert(layout@ =~= shared_layout_spec());
    layout
}

/// The binding set of `kernel`.
pub fn bind_group(kernel: Kernel) -> (entries: Vec<BindEntry>)
    ensures
        entries@ == bind_group_spec(kernel),
{
    let entries = match kernel {
        Kernel::UpdateH => vec![
            bg_entry(0, BufferId::Params),
            bg_entry(1, BufferId::Ex),
            bg_entry(2, BufferId::Ey),
            bg_entry(3, BufferId::Ez),
            bg_entry(4, BufferId::Hx),
            bg_entry(5, BufferId::Hy),
            bg_entry(6, BufferId::Hz),
            bg_entry(7, BufferId::Cp),
            bg_entry(8, BufferId::Cq),
        ],
        Kernel::UpdateE => vec![
            bg_entry(0, BufferId::Params),
            bg_entry(1, BufferId::Hx),
            bg_entry(2, BufferId::Hy),
            bg_entry(3, BufferId::Hz),
            bg_entry(4, BufferId::Ex),
            bg_entry(5, BufferId::Ey),
            bg_entry(6, BufferId::Ez),
            bg_entry(7, BufferId::Ca),
            bg_entry(8, BufferId::Cb),
        ],
    };
    assert(entries@ =~= bind_group_spec(kernel));
    entries
}

} // verus!
