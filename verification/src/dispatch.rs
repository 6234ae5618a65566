//! Workgroup counts for the two update kernels.

use crate::grid::Grid;
use vstd::prelude::*;

verus! {

/// Cells that one workgroup covers along each axis.
pub const WORKGROUP_EXTENT: u32 = 4;

/// Number of workgroups dispatched along each axis.
#[derive(Clone, Copy, Debug, PartialEq, Eq, Structural)]
pub struct DispatchSize {
    pub x: u32,
    pub y: u32,
    pub z: u32,
}

/// Quotient of `extent` by `group`, rounded up.
pub open spec fn groups_needed(extent: int, group: int) -> int {
    (extent + group - 1) / group
}

/// The dispatch that covers `grid` with workgroups of `group` cells per axis.
pub open spec fn dispatch_for(grid: Grid, group: int) -> DispatchSize {
    DispatchSize {
        x: groups_needed(grid.nx as int, group) as u32,
        y: groups_needed(grid.ny as int, group) as u32,
        z: groups_needed(grid.nz as int, group) as u32,
    }
}

/// `groups_needed` is the least number of workgroups whose invocations reach
/// every cell along an axis: the invocations cover the axis, one group fewer
/// would not, and fewer than `group` invocations fall beyond the last cell.
/// Those surplus invocations are the ones a kernel has to skip.
pub proof fn lemma_groups_cover(extent: int, group: int)
    requires
        0 <= extent,
        0 < group,
    ensures
        0 <= groups_needed(extent, group) <= extent,
        extent <= groups_needed(extent, group) * group < extent + group,
        extent % group == 0 ==> groups_needed(extent, group) * group == extent,
        extent > 0 ==> (groups_needed(extent, group) - 1) * group < extent,
{
    let n = groups_needed(extent, group);
    let top = extent + group - 1;
    assert(top == group * (top / group) + top % group && 0 <= top % group < group)
        by (nonlinear_arith)
        requires
            0 < group,
            0 <= top,
    ;
    assert(n * group == group * n) by (nonlinear_arith);
    assert((n - 1) * group == n * group - group) by (nonlinear_arith);
    assert(0 <= n <= extent) by (nonlinear_arith)
        requires
            0 <= extent,
            0 < group,
            extent <= n * group < extent + group,
    ;
    if extent % group == 0 {
        assert(n * group == extent) by (nonlinear_arith)
            requires
                0 < group,
                extent % group == 0,
                extent <= n * group < extent + group,
        ;
    }
}

/// Every invocation index below `extent` belongs to one of the dispatched
/// workgroups.
pub proof fn lemma_cell_is_dispatched(extent: int, group: int, cell: int)
    requires
        0 < group,
        0 <= cell < extent,
    ensures
        0 <= cell / group < groups_needed(extent, group),
{
    lemma_groups_cover(extent, group);
    let n = groups_needed(extent, group);
    assert(0 <= cell / group < n) by (nonlinear_arith)
        requires
            0 < group,
            0 <= cell < extent,
            extent <= n * group,
    ;
}

/// Workgroups needed along an axis of `extent` cells when each covers
/// `group` of them.
pub fn workgroup_count(extent: u32, group: u32) -> (count: u32)
    requires
        group > 0,
    ensures
        count == groups_needed(extent as int, group as int),
{
    proof {
        lemma_groups_cover(extent as int, group as int);
        lemma_whole_groups(extent as int, group as int);
    }
    let whole: u32 = extent / group;
    if extent % group == 0 {
        whole
    } else {
        whole + 1
    }
}

proof fn lemma_whole_groups(extent: int, group: int)
    requires
        0 <= extent,
        0 < group,
    ensures
        groups_needed(extent, group) == extent / group + if extent % group == 0 {
            0int
        } else {
            1int
        },
{
    let q = extent / group;
    let r = extent % group;
    assert(extent == group * q + r && 0 <= r < group) by (nonlinear_arith)
        requires
            0 < group,
            q == extent / group,
            r == extent % group,
    ;
    let top = extent + group - 1;
    if r == 0 {
        assert(top / group == q) by (nonlinear_arith)
            requires
                0 < group,
                top == group * q + (group - 1),
        ;
    } else {
        assert(group * (q + 1) == group * q + group) by (nonlinear_arith);
        assert(top / group == q + 1) by (nonlinear_arith)
            requires
                0 < group,
                0 < r < group,
                top == group * (q + 1) + (r - 1),
        ;
    }
}

/// The dispatch that covers every cell of `grid`.
pub fn dispatch_size(grid: &Grid) -> (size: DispatchSize)
    ensures
        size == dispatch_for(*grid, WORKGROUP_EXTENT as int),
{
    DispatchSize {
        x: workgroup_count(grid.nx, WORKGROUP_EXTENT),
        y: workgroup_count(grid.ny, WORKGROUP_EXTENT),
        z: workgroup_count(grid.nz, WORKGROUP_EXTENT),
    }
}

} // verus!
