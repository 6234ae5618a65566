//! The parameters of a run and their validation.

use crate::grid::{linear_index, Cell, Grid};
use crate::source::Pulse;
use vstd::arithmetic::mul::lemma_mul_upper_bound;
use vstd::prelude::*;

verus! {

/// Grid extents of the standard run.
pub const NX: u32 = 64;

pub const NY: u32 = 64;

pub const NZ: u32 = 64;

/// Cells in the grid of the standard run.
pub const TOTAL: usize = 262_144;

/// Time steps of the standard run.
pub const MAX_TIME: u32 = 300;

/// Courant number of the standard run, one half, as a fraction.
pub const COURANT_NUM: u32 = 1;

pub const COURANT_DEN: u32 = 2;

/// Source cell of the standard run: the centre of the grid.
pub const SRC_I: u32 = NX / 2;

pub const SRC_J: u32 = NY / 2;

pub const SRC_K: u32 = NZ / 2;

/// Pulse shape of the standard run, in steps.
pub const PULSE_WIDTH: u32 = 20;

pub const PULSE_DELAY: u32 = 40;

/// Probe cell of the standard run: ten cells from the source along `i`.
pub const PROBE_I: u32 = NX / 2 + 10;

pub const PROBE_J: u32 = NY / 2;

pub const PROBE_K: u32 = NZ / 2;

/// The Courant number `num / den`: the distance light travels in one time
/// step, in units of the smallest cell dimension.
#[derive(Clone, Copy, Debug, PartialEq, Eq, Structural)]
pub struct Courant {
    pub num: u32,
    pub den: u32,
}

/// Everything that distinguishes one run from another.
#[derive(Clone, Copy, Debug, PartialEq, Eq, Structural)]
pub struct SimConfig {
    pub grid: Grid,
    pub courant: Courant,
    /// Number of time steps.
    pub max_time: u32,
    /// Cell of the electric field that the source overwrites.
    pub source: Cell,
    pub pulse: Pulse,
    /// Cell of the electric field that is read back after every step.
    pub probe: Cell,
}

/// Why a configuration is refused.
#[derive(Clone, Copy, Debug, PartialEq, Eq, Structural)]
pub enum ConfigError {
    /// The Courant number is not a fraction or exceeds `1/sqrt(3)`.
    CourantViolation,
    /// A field does not fit in a device buffer.
    GridTooLarge,
    SourceOutOfBounds,
    ProbeOutOfBounds,
}

/// A configuration that passed validation.
#[derive(Clone, Copy, Debug)]
pub struct Plan {
    config: SimConfig,
}

impl Courant {
    /// Stability in three dimensions: `num / den <= 1/sqrt(3)`, which for a
    /// fraction is `3 * num^2 <= den^2`.
    pub open spec fn stable(self) -> bool {
        self.den > 0 && 3 * (self.num * self.num) <= self.den * self.den
    }

    /// Tells whether the time step is stable.
    pub fn is_stable(&self) -> (ok: bool)
        ensures
            ok == self.stable(),
    {
        proof {
            lemma_mul_upper_bound(self.num as int, 0xffff_ffff, self.num as int, 0xffff_ffff);
            lemma_mul_upper_bound(self.den as int, 0xffff_ffff, self.den as int, 0xffff_ffff);
        }
        let lhs: u128 = 3 * ((self.num as u128) * (self.num as u128));
        let rhs: u128 = (self.den as u128) * (self.den as u128);
        self.den > 0 && lhs <= rhs
    }
}

impl SimConfig {
    /// The first reason to refuse the configuration, if there is one.
    pub open spec fn defect(self) -> Option<ConfigError> {
        if !self.courant.stable() {
            Some(ConfigError::CourantViolation)
        } else if !self.grid.fits() {
            Some(ConfigError::GridTooLarge)
        } else if !self.grid.contains(self.source) {
            Some(ConfigError::SourceOutOfBounds)
        } else if !self.grid.contains(self.probe) {
            Some(ConfigError::ProbeOutOfBounds)
        } else {
            None
        }
    }

    /// A stable time step, a grid whose fields fit in a buffer, and source
    /// and probe inside the grid.
    pub open spec fn valid(self) -> bool {
        &&& self.courant.stable()
        &&& self.grid.fits()
        &&& self.grid.contains(self.source)
        &&& self.grid.contains(self.probe)
    }

    /// Byte offset of the source cell in a field buffer.
    pub open spec fn source_offset(self) -> int {
        4 * self.grid.index_of(self.source)
    }

    /// Byte offset of the probe cell in a field buffer.
    pub open spec fn probe_offset(self) -> int {
        4 * self.grid.index_of(self.probe)
    }

    /// The standard run: a cube of 64 cells a side in free space, 300
    /// steps at Courant number one half, a pulse of width 20 peaking at
    /// step 40 in the centre, and a probe ten cells away.
    pub open spec fn standard_spec() -> SimConfig {
        SimConfig {
            grid: Grid { nx: 64, ny: 64, nz: 64 },
            courant: Courant { num: 1, den: 2 },
            max_time: 300,
            source: Cell { i: 32, j: 32, k: 32 },
            pulse: Pulse { delay: 40, width: 20 },
            probe: Cell { i: 42, j: 32, k: 32 },
        }
    }

    /// The standard run.
    pub fn standard() -> (config: SimConfig)
        ensures
            config == Self::standard_spec(),
            config.valid(),
    {
        assert(Self::standard_spec().grid.cell_count() == TOTAL) by (nonlinear_arith);
        assert(Self::standard_spec().courant.stable()) by (nonlinear_arith);
        SimConfig {
            grid: Grid { nx: NX, ny: NY, nz: NZ },
            courant: Courant { num: COURANT_NUM, den: COURANT_DEN },
            max_time: MAX_TIME,
            source: Cell { i: SRC_I, j: SRC_J, k: SRC_K },
            pulse: Pulse { delay: PULSE_DELAY, width: PULSE_WIDTH },
            probe: Cell { i: PROBE_I, j: PROBE_J, k: PROBE_K },
        }
    }

    /// Validates the configuration. It succeeds exactly on the valid
    /// configurations and otherwise reports the first defect.
    pub fn plan(self) -> (outcome: Result<Plan, ConfigError>)
        ensures
            match outcome {
                Ok(plan) => self.defect() is None && plan@ == self,
                Err(e) => self.defect() == Some(e),
            },
            outcome is Ok == self.valid(),
    {
        if !self.courant.is_stable() {
            return Err(ConfigError::CourantViolation);
        }
        if self.grid.field_bytes().is_none() {
            return Err(ConfigError::GridTooLarge);
        }
        if !self.grid.has_cell(self.source) {
            return Err(ConfigError::SourceOutOfBounds);
        }
        if !self.grid.has_cell(self.probe) {
            return Err(ConfigError::ProbeOutOfBounds);
        }
        Ok(Plan { config: self })
    }
}

impl View for Plan {
    type V = SimConfig;

    closed spec fn view(&self) -> SimConfig {
        self.config
    }
}

impl Plan {
    #[verifier::type_invariant]
    spec fn sound(self) -> bool {
        self.config.valid()
    }

    /// The configuration behind the plan, which is valid.
    pub fn config(&self) -> (config: SimConfig)
        ensures
            config == self@,
            config.valid(),
    {
        proof {
            use_type_invariant(self);
        }
        self.config
    }

    /// Number of cells in each field and coefficient map.
    pub fn cell_count(&self) -> (cells: usize)
        ensures
            cells == self@.grid.cell_count(),
            4 * cells <= crate::grid::MAX_BUFFER_BYTES,
    {
        proof {
            use_type_invariant(self);
        }
        let bytes: u64 = self.config.grid.field_bytes().unwrap();
        (bytes / 4) as usize
    }

    /// Byte size of each field and coefficient map.
    pub fn field_bytes(&self) -> (size: u64)
        ensures
            size == 4 * self@.grid.cell_count(),
            size <= crate::grid::MAX_BUFFER_BYTES,
    {
        proof {
            use_type_invariant(self);
        }
        self.config.grid.field_bytes().unwrap()
    }

    /// Byte offset of the source cell in a field buffer. The four bytes
    /// from there on lie inside the buffer.
    pub fn source_offset(&self) -> (offset: u64)
        ensures
            offset == self@.source_offset(),
            offset + 4 <= 4 * self@.grid.cell_count(),
    {
        proof {
            use_type_invariant(self);
            self.config.grid.lemma_index_in_range(self.config.source);
        }
        let at: usize = self.config.grid.index(self.config.source).unwrap();
        4 * (at as u64)
    }

    /// Byte offset of the probe cell in a field buffer. The four bytes from
    /// there on lie inside the buffer.
    pub fn probe_offset(&self) -> (offset: u64)
        ensures
            offset == self@.probe_offset(),
            offset + 4 <= 4 * self@.grid.cell_count(),
    {
        proof {
            use_type_invariant(self);
            self.config.grid.lemma_index_in_range(self.config.probe);
        }
        let at: usize = self.config.grid.index(self.config.probe).unwrap();
        4 * (at as u64)
    }
}

/// Position of cell `(i, j, k)` in a field of the standard grid.
pub fn idx(i: u32, j: u32, k: u32) -> (at: usize)
    requires
        linear_index(NX as int, NY as int, i as int, j as int, k as int) <= u32::MAX,
    ensures
        at == linear_index(NX as int, NY as int, i as int, j as int, k as int),
{
    (i + NX * (j + NY * k)) as usize
}

} // verus!
