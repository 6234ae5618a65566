use fdtd_gpu::config::SimConfig;
use fdtd_gpu::grid::{Cell, Grid};
use fdtd_gpu::layout::{bind_group, shared_layout, BufferId, Kernel, SlotKind};
use fdtd_gpu::store::{
    buffer_plan, buffer_spec, build_coefficients, zero_field, GpuParams, Usage, BUFFER_COUNT,
    PARAMS_BYTES, READBACK_BYTES, UNIT,
};
use fdtd_gpu::wire::{pack_words, unpack_word};

const FIELDS: [BufferId; 6] =
    [BufferId::Ex, BufferId::Ey, BufferId::Ez, BufferId::Hx, BufferId::Hy, BufferId::Hz];

const COEFFICIENTS: [BufferId; 4] = [BufferId::Ca, BufferId::Cb, BufferId::Cp, BufferId::Cq];

fn small_plan() -> fdtd_gpu::config::Plan {
    let mut config = SimConfig::standard();
    config.grid = Grid { nx: 4, ny: 3, nz: 2 };
    config.source = Cell { i: 2, j: 1, k: 1 };
    config.probe = Cell { i: 3, j: 1, k: 1 };
    config.plan().unwrap()
}

#[test]
fn field_buffers_are_storage_that_can_be_written_and_copied_from() {
    let plan = SimConfig::standard().plan().unwrap();
    for id in FIELDS {
        let spec = buffer_spec(&plan, id);
        assert_eq!(spec.id, id);
        assert_eq!(spec.size, 1_048_576);
        assert_eq!(
            spec.usage,
            Usage { storage: true, copy_src: true, copy_dst: true, uniform: false, map_read: false }
        );
    }
}

#[test]
fn coefficient_buffers_are_storage_that_can_be_written() {
    let plan = SimConfig::standard().plan().unwrap();
    for id in COEFFICIENTS {
        let spec = buffer_spec(&plan, id);
        assert_eq!(spec.id, id);
        assert_eq!(spec.size, 1_048_576);
        assert_eq!(
            spec.usage,
            Usage {
                storage: true,
                copy_src: false,
                copy_dst: true,
                uniform: false,
                map_read: false
            }
        );
    }
}

#[test]
fn parameter_and_staging_buffers() {
    let plan = SimConfig::standard().plan().unwrap();
    let params = buffer_spec(&plan, BufferId::Params);
    assert_eq!(params.size, 32);
    assert_eq!(
        params.usage,
        Usage { storage: false, copy_src: false, copy_dst: false, uniform: true, map_read: false }
    );
    let staging = buffer_spec(&plan, BufferId::Readback);
    assert_eq!(staging.size, 4);
    assert_eq!(
        staging.usage,
        Usage { storage: false, copy_src: false, copy_dst: true, uniform: false, map_read: true }
    );
    assert_eq!(PARAMS_BYTES, 32);
    assert_eq!(READBACK_BYTES, 4);
}

#[test]
fn buffer_plan_lists_every_buffer_once() {
    let plan = small_plan();
    let specs = buffer_plan(&plan);
    assert_eq!(BUFFER_COUNT, 12);
    assert_eq!(specs.len(), 12);
    let ids: Vec<BufferId> = specs.iter().map(|spec| spec.id).collect();
    assert_eq!(ids[..6], FIELDS);
    assert_eq!(ids[6..10], COEFFICIENTS);
    assert_eq!(ids[10..], [BufferId::Params, BufferId::Readback]);
    for spec in specs.iter() {
        assert_eq!(*spec, buffer_spec(&plan, spec.id));
    }
    let sizes: Vec<u64> = specs.iter().map(|spec| spec.size).collect();
    assert_eq!(sizes, vec![96, 96, 96, 96, 96, 96, 96, 96, 96, 96, 32, 4]);
}

#[test]
fn every_bound_buffer_is_in_the_plan() {
    let specs = buffer_plan(&small_plan());
    for kernel in [Kernel::UpdateH, Kernel::UpdateE] {
        for entry in bind_group(kernel) {
            assert_eq!(specs.iter().filter(|spec| spec.id == entry.buffer).count(), 1);
        }
    }
}

#[test]
fn bound_buffers_allow_the_declared_access() {
    let plan = small_plan();
    let layout = shared_layout();
    for kernel in [Kernel::UpdateH, Kernel::UpdateE] {
        for (slot, entry) in layout.iter().zip(bind_group(kernel).iter()) {
            let usage = buffer_spec(&plan, entry.buffer).usage;
            match slot.kind {
                SlotKind::Uniform => assert!(usage.uniform),
                SlotKind::ReadOnlyStorage => assert!(usage.storage),
                SlotKind::ReadWriteStorage => {
                    assert!(usage.storage);
                    assert!(FIELDS.contains(&entry.buffer));
                }
            }
        }
    }
}

#[test]
fn fields_start_at_zero() {
    let field = zero_field(&SimConfig::standard().plan().unwrap());
    assert_eq!(field.len(), 262_144);
    assert!(field.iter().all(|bits| f32::from_bits(*bits) == 0.0 && *bits == 0));
    assert_eq!(zero_field(&small_plan()), vec![0u32; 24]);
}

#[test]
fn injection_changes_only_the_source_cell() {
    let plan = small_plan();
    let grid = plan.config().grid;
    let value = (-4.0f64).exp() as f32;
    let mut memory = pack_words(&zero_field(&plan));
    assert!(memory.iter().all(|b| *b == 0));
    let offset = plan.source_offset() as usize;
    memory[offset..offset + 4].copy_from_slice(&pack_words(&[value.to_bits()]));
    for k in 0..2u32 {
        for j in 0..3u32 {
            for i in 0..4u32 {
                let cell = Cell { i, j, k };
                let at = grid.index(cell).unwrap();
                let sample = f32::from_bits(unpack_word(&memory[4 * at..4 * at + 4]).unwrap());
                if cell == plan.config().source {
                    assert_eq!(sample, value);
                } else {
                    assert_eq!(sample, 0.0);
                }
            }
        }
    }
}

#[test]
fn unit_is_the_bit_pattern_of_one() {
    assert_eq!(UNIT, 1.0f32.to_bits());
    assert_eq!(f32::from_bits(UNIT), 1.0);
}

#[test]
fn free_space_coefficients_are_uniform() {
    let dt = 0.5 * 1e-3 / 3.0e8;
    let cb_val = (dt / 8.854187817e-12) as f32;
    let cq_val = (dt / 1.2566370614e-6) as f32;
    let plan = SimConfig::standard().plan().unwrap();
    let (ca, cb, cp, cq) = build_coefficients(&plan, cb_val.to_bits(), cq_val.to_bits());
    for map in [&ca, &cb, &cp, &cq] {
        assert_eq!(map.len(), 262_144);
    }
    assert!(ca.iter().all(|bits| f32::from_bits(*bits) == 1.0));
    assert!(cp.iter().all(|bits| f32::from_bits(*bits) == 1.0));
    assert!(cb.iter().all(|bits| f32::from_bits(*bits) == cb_val));
    assert!(cq.iter().all(|bits| f32::from_bits(*bits) == cq_val));
    assert!(cb_val > 0.0 && cq_val > 0.0);
}

#[test]
fn coefficient_maps_match_the_field_size() {
    let plan = small_plan();
    let (ca, cb, cp, cq) = build_coefficients(&plan, 11, 13);
    assert_eq!(ca, vec![UNIT; 24]);
    assert_eq!(cb, vec![11; 24]);
    assert_eq!(cp, vec![UNIT; 24]);
    assert_eq!(cq, vec![13; 24]);
    assert_eq!(4 * ca.len() as u64, buffer_spec(&plan, BufferId::Ca).size);
    assert_eq!(zero_field(&plan).len(), ca.len());
}

#[test]
fn parameter_record_holds_extents_and_inverse_spacings() {
    let inv = (1.0f64 / 1e-3) as f32;
    let record = GpuParams::new(&Grid::new(64, 32, 16), inv.to_bits(), 7, 9);
    assert_eq!(
        record,
        GpuParams {
            nx: 64,
            ny: 32,
            nz: 16,
            _pad: 0,
            inv_dx: 1000.0f32.to_bits(),
            inv_dy: 7,
            inv_dz: 9,
            _pad2: 0
        }
    );
}

#[test]
fn parameter_record_is_thirty_two_bytes_in_declared_order() {
    let inv = 1000.0f32;
    let record = GpuParams::new(&Grid::new(64, 65, 66), inv.to_bits(), inv.to_bits(), inv.to_bits());
    let bytes = record.to_bytes();
    assert_eq!(bytes.len(), 32);
    let mut expected = Vec::new();
    expected.extend_from_slice(&64u32.to_ne_bytes());
    expected.extend_from_slice(&65u32.to_ne_bytes());
    expected.extend_from_slice(&66u32.to_ne_bytes());
    expected.extend_from_slice(&0u32.to_ne_bytes());
    expected.extend_from_slice(&inv.to_ne_bytes());
    expected.extend_from_slice(&inv.to_ne_bytes());
    expected.extend_from_slice(&inv.to_ne_bytes());
    expected.extend_from_slice(&0.0f32.to_ne_bytes());
    assert_eq!(bytes, expected);
}

#[test]
fn parameter_record_keeps_distinct_fields_apart() {
    let record =
        GpuParams { nx: 1, ny: 2, nz: 3, _pad: 4, inv_dx: 5, inv_dy: 6, inv_dz: 7, _pad2: 8 };
    let bytes = record.to_bytes();
    for at in 0..8usize {
        assert_eq!(unpack_word(&bytes[4 * at..4 * at + 4]), Some(at as u32 + 1));
    }
}
