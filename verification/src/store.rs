//! The buffers of a run: their sizes, usages and initial contents.
//!
//! Field samples and coefficients are single-precision scalars. They are
//! handled here by their bit patterns, one `u32` each.

use crate::config::{Plan, SimConfig};
use crate::grid::{Cell, Grid};
use crate::layout::{bound_buffer, slot_kind, BufferId, Kernel, SLOT_COUNT};
use crate::wire::{
    lemma_image_holds_words, lemma_overwrite_one_word, overwritten, pack_words, word_at,
    word_bytes, words_image,
};
use vstd::endian::{endianness, Endian};
use vstd::prelude::*;

verus! {

/// Byte size of the parameter record.
pub const PARAMS_BYTES: u64 = 32;

/// Byte size of the staging buffer that receives the probe sample.
pub const READBACK_BYTES: u64 = 4;

/// Number of buffers in a run.
pub const BUFFER_COUNT: usize = 12;

/// Bit pattern of the single-precision number one.
pub const UNIT: u32 = 0x3F80_0000;

/// What a buffer may be used for.
#[derive(Clone, Copy, Debug, PartialEq, Eq, Structural)]
pub struct Usage {
    pub storage: bool,
    pub copy_src: bool,
    pub copy_dst: bool,
    pub uniform: bool,
    pub map_read: bool,
}

/// What a driver needs to know to create a buffer.
#[derive(Clone, Copy, Debug, PartialEq, Eq, Structural)]
pub struct BufferSpec {
    pub id: BufferId,
    pub size: u64,
    pub usage: Usage,
}

/// The parameter record that both kernels read, word for word as the
/// kernels declare it: three extents, a padding word, three inverse cell
/// spacings as single-precision bit patterns, a padding word.
#[derive(Clone, Copy, Debug, PartialEq, Eq, Structural)]
pub struct GpuParams {
    pub nx: u32,
    pub ny: u32,
    pub nz: u32,
    pub _pad: u32,
    pub inv_dx: u32,
    pub inv_dy: u32,
    pub inv_dz: u32,
    pub _pad2: u32,
}

/// Usage of each buffer: fields are bound as storage, written by the host
/// and copied from; coefficient maps are bound as storage and written by the
/// host; the parameter record is a uniform; the staging buffer is copied to
/// and mapped for reading.
pub open spec fn usage_of(id: BufferId) -> Usage {
    if id.is_field() {
        Usage { storage: true, copy_src: true, copy_dst: true, uniform: false, map_read: false }
    } else if id.is_coefficient() {
        Usage { storage: true, copy_src: false, copy_dst: true, uniform: false, map_read: false }
    } else if id is Params {
        Usage { storage: false, copy_src: false, copy_dst: false, uniform: true, map_read: false }
    } else {
        Usage { storage: false, copy_src: false, copy_dst: true, uniform: false, map_read: true }
    }
}

/// Byte size of each buffer.
pub open spec fn size_of(grid: Grid, id: BufferId) -> int {
    if id.is_field() || id.is_coefficient() {
        4 * (grid.cell_count() as int)
    } else if id is Params {
        PARAMS_BYTES as int
    } else {
        READBACK_BYTES as int
    }
}

/// The buffers of a run in the order they are created: the six fields, the
/// four coefficient maps, the parameter record, the staging buffer.
pub open spec fn buffer_order() -> Seq<BufferId> {
    seq![
        BufferId::Ex,
        BufferId::Ey,
        BufferId::Ez,
        BufferId::Hx,
        BufferId::Hy,
        BufferId::Hz,
        BufferId::Ca,
        BufferId::Cb,
        BufferId::Cp,
        BufferId::Cq,
        BufferId::Params,
        BufferId::Readback,
    ]
}

/// What a driver creates for the buffer `id` on `grid`.
pub open spec fn spec_of(grid: Grid, id: BufferId) -> BufferSpec {
    BufferSpec { id, size: size_of(grid, id) as u64, usage: usage_of(id) }
}

/// A map with the same value at each of its `cells` positions.
pub open spec fn uniform_map(cells: nat, value: u32) -> Seq<u32> {
    Seq::new(cells, |c: int| value)
}

/// Every buffer is created, and created once.
pub proof fn lemma_buffer_order_complete(id: BufferId)
    ensures
        buffer_order().len() == BUFFER_COUNT,
        exists|at: int| 0 <= at < BUFFER_COUNT && buffer_order()[at] == id,
        forall|a: int, b: int|
            0 <= a < BUFFER_COUNT && 0 <= b < BUFFER_COUNT && buffer_order()[a] == buffer_order()[b]
                ==> a == b,
{
    let at: int = match id {
        BufferId::Ex => 0,
        BufferId::Ey => 1,
        BufferId::Ez => 2,
        BufferId::Hx => 3,
        BufferId::Hy => 4,
        BufferId::Hz => 5,
        BufferId::Ca => 6,
        BufferId::Cb => 7,
        BufferId::Cp => 8,
        BufferId::Cq => 9,
        BufferId::Params => 10,
        BufferId::Readback => 11,
    };
    assert(buffer_order()[at] == id);
}

/// Each slot of a binding set holds a buffer whose usage allows the access
/// that the binding contract declares for the slot.
pub proof fn lemma_usage_allows_binding(kernel: Kernel, b: int)
    requires
        0 <= b < SLOT_COUNT,
    ensures
        slot_kind(b) is Uniform ==> usage_of(bound_buffer(kernel, b)).uniform,
        !(slot_kind(b) is Uniform) ==> usage_of(bound_buffer(kernel, b)).storage,
{
}

/// Before the first step every sample of a field is zero. Once the source
/// value `v` has been written at the source offset, the source cell holds
/// `v` and every other cell of the grid still holds zero.
pub proof fn lemma_injection_changes_only_source(config: SimConfig, order: Endian, v: u32, c: Cell)
    requires
        config.valid(),
        config.grid.contains(c),
    ensures
        ({
            let before = words_image(order, uniform_map(config.grid.cell_count(), 0));
            let after = overwritten(before, config.source_offset(), word_bytes(order, v));
            &&& word_at(before, config.grid.index_of(c)) == word_bytes(order, 0)
            &&& c == config.source ==> word_at(after, config.grid.index_of(c)) == word_bytes(
                order,
                v,
            )
            &&& c != config.source ==> word_at(after, config.grid.index_of(c)) == word_bytes(
                order,
                0,
            )
        }),
{
    let zeros = uniform_map(config.grid.cell_count(), 0);
    let at = config.grid.index_of(config.source);
    let here = config.grid.index_of(c);
    config.grid.lemma_index_in_range(config.source);
    config.grid.lemma_index_in_range(c);
    lemma_image_holds_words(order, zeros, here);
    lemma_overwrite_one_word(order, zeros, at, v);
    lemma_image_holds_words(order, zeros.update(at, v), here);
    if c != config.source && here == at {
        config.grid.lemma_index_injective(c, config.source);
    }
}

impl GpuParams {
    /// The eight words of the record, in the order the kernels declare them.
    pub open spec fn words_spec(self) -> Seq<u32> {
        seq![
            self.nx,
            self.ny,
            self.nz,
            self._pad,
            self.inv_dx,
            self.inv_dy,
            self.inv_dz,
            self._pad2,
        ]
    }

    /// The record for `grid` and the given inverse cell spacings, each the
    /// bit pattern of a single-precision number. Both padding words are
    /// zero.
    pub fn new(grid: &Grid, inv_dx: u32, inv_dy: u32, inv_dz: u32) -> (record: GpuParams)
        ensures
            record == (GpuParams {
                nx: grid.nx,
                ny: grid.ny,
                nz: grid.nz,
                _pad: 0,
                inv_dx,
                inv_dy,
                inv_dz,
                _pad2: 0,
            }),
    {
        GpuParams {
            nx: grid.nx,
            ny: grid.ny,
            nz: grid.nz,
            _pad: 0,
            inv_dx,
            inv_dy,
            inv_dz,
            _pad2: 0,
        }
    }

    /// The record as the bytes that are uploaded: exactly [`PARAMS_BYTES`]
    /// of them, the image of its eight words.
    pub fn to_bytes(&self) -> (bytes: Vec<u8>)
        ensures
            bytes@ == words_image(endianness(), self.words_spec()),
            bytes@.len() == PARAMS_BYTES,
    {
        let words: [u32; 8] = [
            self.nx,
            self.ny,
            self.nz,
            self._pad,
            self.inv_dx,
            self.inv_dy,
            self.inv_dz,
            self._pad2,
        ];
        assert(words@ =~= self.words_spec());
        pack_words(words.as_slice())
    }
}

/// Size and usage of the buffer `id` in a run of `plan`.
pub fn buffer_spec(plan: &Plan, id: BufferId) -> (spec: BufferSpec)
    ensures
        spec == spec_of(plan@.grid, id),
        spec.size == size_of(plan@.grid, id),
{
    match id {
        BufferId::Ex | BufferId::Ey | BufferId::Ez | BufferId::Hx | BufferId::Hy | BufferId::Hz => {
            BufferSpec {
                id,
                size: plan.field_bytes(),
                usage: Usage {
                    storage: true,
                    copy_src: true,
                    copy_dst: true,
                    uniform: false,
                    map_read: false,
                },
            }
        },
        BufferId::Ca | BufferId::Cb | BufferId::Cp | BufferId::Cq => {
            BufferSpec {
                id,
                size: plan.field_bytes(),
                usage: Usage {
                    storage: true,
                    copy_src: false,
                    copy_dst: true,
                    uniform: false,
                    map_read: false,
                },
            }
        },
        BufferId::Params => {
            BufferSpec {
                id,
                size: PARAMS_BYTES,
                usage: Usage {
                    storage: false,
                    copy_src: false,
                    copy_dst: false,
                    uniform: true,
                    map_read: false,
                },
            }
        },
        BufferId::Readback => {
            BufferSpec {
                id,
                size: READBACK_BYTES,
                usage: Usage {
                    storage: false,
                    copy_src: false,
                    copy_dst: true,
                    uniform: false,
                    map_read: true,
                },
            }
        },
    }
}

/// Every buffer of a run of `plan`, in creation order.
pub fn buffer_plan(plan: &Plan) -> (specs: Vec<BufferSpec>)
    ensures
        specs@ == buffer_order().map_values(|id: BufferId| spec_of(plan@.grid, id)),
{
    let specs = vec![
        buffer_spec(plan, BufferId::Ex),
        buffer_spec(plan, BufferId::Ey),
        buffer_spec(plan, BufferId::Ez),
        buffer_spec(plan, BufferId::Hx),
        buffer_spec(plan, BufferId::Hy),
        buffer_spec(plan, BufferId::Hz),
        buffer_spec(plan, BufferId::Ca),
        buffer_spec(plan, BufferId::Cb),
        buffer_spec(plan, BufferId::Cp),
        buffer_spec(plan, BufferId::Cq),
        buffer_spec(plan, BufferId::Params),
        buffer_spec(plan, BufferId::Readback),
    ];
    assert(specs@ =~= buffer_order().map_values(|id: BufferId| spec_of(plan@.grid, id)));
    specs
}

/// Initial contents of a field: zero at every cell.
pub fn zero_field(plan: &Plan) -> (field: Vec<u32>)
    ensures
        field@ == uniform_map(plan@.grid.cell_count(), 0),
{
    let field = vec![0u32; plan.cell_count()];
    assert(field@ =~= uniform_map(plan@.grid.cell_count(), 0));
    field
}

/// The coefficient maps `(CA, CB, CP, CQ)` of free space: `CA` and `CP` are
/// one at every cell, `CB` and `CQ` hold the given values at every cell, and
/// each map has one entry per cell.
pub fn build_coefficients(plan: &Plan, cb_val: u32, cq_val: u32) -> (maps: (
    Vec<u32>,
    Vec<u32>,
    Vec<u32>,
    Vec<u32>,
))
    ensures
        maps.0@ == uniform_map(plan@.grid.cell_count(), UNIT),
        maps.1@ == uniform_map(plan@.grid.cell_count(), cb_val),
        maps.2@ == uniform_map(plan@.grid.cell_count(), UNIT),
        maps.3@ == uniform_map(plan@.grid.cell_count(), cq_val),
{
    let total: usize = plan.cell_count();
    let ca_val: u32 = UNIT;
    let cp_val: u32 = UNIT;

    let ca = vec![ca_val; total];
    let cb = vec![cb_val; total];
    let cp = vec![cp_val; total];
    let cq = vec![cq_val; total];

    assert(ca@ =~= uniform_map(plan@.grid.cell_count(), UNIT));
    assert(cb@ =~= uniform_map(plan@.grid.cell_count(), cb_val));
    assert(cp@ =~= uniform_map(plan@.grid.cell_count(), UNIT));
    assert(cq@ =~= uniform_map(plan@.grid.cell_count(), cq_val));
    (ca, cb, cp, cq)
}

} // verus!
