use fdtd_gpu::dispatch::{dispatch_size, workgroup_count, DispatchSize, WORKGROUP_EXTENT};
use fdtd_gpu::grid::Grid;

#[test]
fn extent_that_divides_evenly() {
    assert_eq!(workgroup_count(64, 4), 16);
}

#[test]
fn extent_with_a_remainder_rounds_up() {
    assert_eq!(workgroup_count(65, 4), 17);
    assert_eq!(workgroup_count(66, 4), 17);
    assert_eq!(workgroup_count(67, 4), 17);
    assert_eq!(workgroup_count(68, 4), 17);
    assert_eq!(workgroup_count(69, 4), 18);
}

#[test]
fn small_and_large_extents() {
    assert_eq!(workgroup_count(0, 4), 0);
    assert_eq!(workgroup_count(1, 4), 1);
    assert_eq!(workgroup_count(3, 4), 1);
    assert_eq!(workgroup_count(4, 4), 1);
    assert_eq!(workgroup_count(5, 4), 2);
    assert_eq!(workgroup_count(u32::MAX, 4), 1_073_741_824);
    assert_eq!(workgroup_count(u32::MAX, 1), u32::MAX);
    assert_eq!(workgroup_count(u32::MAX, u32::MAX), 1);
    assert_eq!(workgroup_count(7, u32::MAX), 1);
}

#[test]
fn dispatched_groups_cover_the_axis_and_no_more() {
    for group in 1..9u32 {
        for extent in 0..100u32 {
            let count = workgroup_count(extent, group);
            assert!(count * group >= extent);
            assert!(count * group < extent + group);
            if extent > 0 {
                assert!((count - 1) * group < extent);
            }
        }
    }
}

#[test]
fn dispatch_of_the_standard_grid() {
    assert_eq!(WORKGROUP_EXTENT, 4);
    assert_eq!(dispatch_size(&Grid::new(64, 64, 64)), DispatchSize { x: 16, y: 16, z: 16 });
}

#[test]
fn dispatch_rounds_each_axis_by_itself() {
    assert_eq!(dispatch_size(&Grid::new(65, 4, 1)), DispatchSize { x: 17, y: 1, z: 1 });
    assert_eq!(dispatch_size(&Grid::new(8, 9, 10)), DispatchSize { x: 2, y: 3, z: 3 });
}
