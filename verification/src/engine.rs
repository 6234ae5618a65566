//! The time-stepping protocol.
//!
//! The engine decides what a driver does next. The driver performs the
//! actions it is handed, in order, and reports back what the device
//! returned; the engine never touches a device itself. One command sequence
//! is in flight at a time: the actions of a step end with a wait for the
//! probe sample, and the next step is only handed out once that sample has
//! been reported.

use crate::config::{Plan, SimConfig};
use crate::dispatch::{dispatch_for, dispatch_size, DispatchSize, WORKGROUP_EXTENT};
use crate::layout::{BufferId, Kernel};
use crate::source::PulseExponent;
use crate::store::{size_of, usage_of, READBACK_BYTES};
use crate::wire::{lemma_image_holds_words, word_at, word_bytes, words_image};
use vstd::endian::Endian;
use vstd::prelude::*;

verus! {

/// Where a run stands.
#[derive(Clone, Copy, Debug, PartialEq, Eq, Structural)]
pub enum Phase {
    /// Nothing has been issued yet.
    Idle,
    /// The commands of `step` are submitted and its probe sample is awaited.
    Awaiting { step: u32 },
    /// Every step has been computed and reported.
    Done,
    /// The device did not deliver a probe sample; the run is lost.
    Failed,
}

/// What a driver reports to the engine.
#[derive(Clone, Copy, Debug, PartialEq, Eq, Structural)]
pub enum Event {
    /// The buffers, kernels and binding sets are in place.
    Start,
    /// The probe sample of the awaited step, as a single-precision bit
    /// pattern.
    Probe { value: u32 },
    /// The readback of the awaited step failed.
    SyncFailed,
}

/// What the engine asks a driver to do.
#[derive(Clone, Copy, Debug, PartialEq, Eq, Structural)]
pub enum Action {
    /// Overwrite the four bytes at `offset` of `buffer` with the source
    /// amplitude `exp(-num / den)`.
    WriteSource { buffer: BufferId, offset: u64, exponent: PulseExponent },
    /// Encode a dispatch of `kernel` with its binding set.
    Dispatch { kernel: Kernel, groups: DispatchSize },
    /// Encode a copy of `size` bytes between two buffers.
    CopyProbe {
        source: BufferId,
        source_offset: u64,
        target: BufferId,
        target_offset: u64,
        size: u64,
    },
    /// Submit what has been encoded since the last submission.
    Submit,
    /// Block until the device is idle, map the staging buffer, read the
    /// sample, unmap, and report it.
    AwaitProbe,
    /// Record the probe sample of a step.
    Emit { step: u32, value: u32 },
    /// Report that the run is complete.
    Complete,
}

/// Why the engine refuses an event.
#[derive(Clone, Copy, Debug, PartialEq, Eq, Structural)]
pub enum EngineError {
    /// The readback failed. The run cannot be resumed.
    SyncFailure,
    /// The event does not answer what the engine last asked for.
    OutOfTurn,
}

/// The engine as contracts see it.
pub struct EngineState {
    pub config: SimConfig,
    pub phase: Phase,
}

/// Drives one run of a plan.
#[derive(Debug)]
pub struct Engine {
    plan: Plan,
    phase: Phase,
}

/// The actions of step `n`, in the order they are performed: the source is
/// written, the magnetic field is updated, then the electric field, the
/// probe sample is copied out, the sequence is submitted and the sample is
/// awaited.
pub open spec fn step_actions_spec(config: SimConfig, n: u32) -> Seq<Action> {
    let groups = dispatch_for(config.grid, WORKGROUP_EXTENT as int);
    seq![
        Action::WriteSource {
            buffer: BufferId::Ez,
            offset: config.source_offset() as u64,
            exponent: config.pulse.exponent_spec(n as int),
        },
        Action::Dispatch { kernel: Kernel::UpdateH, groups },
        Action::Dispatch { kernel: Kernel::UpdateE, groups },
        Action::CopyProbe {
            source: BufferId::Ez,
            source_offset: config.probe_offset() as u64,
            target: BufferId::Readback,
            target_offset: 0,
            size: READBACK_BYTES,
        },
        Action::Submit,
        Action::AwaitProbe,
    ]
}

/// The phase that follows `phase` on `event`, and what the driver is handed.
pub open spec fn transition(config: SimConfig, phase: Phase, event: Event) -> (
    Phase,
    Result<Seq<Action>, EngineError>,
) {
    match (phase, event) {
        (Phase::Idle, Event::Start) => if config.max_time == 0 {
            (Phase::Done, Ok(seq![Action::Complete]))
        } else {
            (Phase::Awaiting { step: 0 }, Ok(step_actions_spec(config, 0)))
        },
        (Phase::Awaiting { step }, Event::Probe { value }) => if step + 1 < config.max_time {
            (
                Phase::Awaiting { step: (step + 1) as u32 },
                Ok(
                    seq![Action::Emit { step, value }] + step_actions_spec(
                        config,
                        (step + 1) as u32,
                    ),
                ),
            )
        } else {
            (Phase::Done, Ok(seq![Action::Emit { step, value }, Action::Complete]))
        },
        (Phase::Awaiting { step }, Event::SyncFailed) => (
            Phase::Failed,
            Err(EngineError::SyncFailure),
        ),
        _ => (phase, Err(EngineError::OutOfTurn)),
    }
}

/// The phase reached from `phase` after the given events, one after another.
pub open spec fn replay(config: SimConfig, phase: Phase, events: Seq<Event>) -> Phase
    decreases events.len(),
{
    if events.len() == 0 {
        phase
    } else {
        transition(config, replay(config, phase, events.drop_last()), events.last()).0
    }
}

/// The events of a run whose probe samples are `samples`: a start, then one
/// report per sample.
pub open spec fn run_events(samples: Seq<u32>) -> Seq<Event> {
    seq![Event::Start] + Seq::new(samples.len(), |s: int| (Event::Probe { value: samples[s] }))
}

/// A run advances by one step per probe sample and ends after `max_time`
/// of them: once `k` samples have been reported, step `k` is awaited, or the
/// run is done if there is no such step.
pub proof fn lemma_run_progress(config: SimConfig, samples: Seq<u32>)
    requires
        samples.len() <= config.max_time,
    ensures
        replay(config, Phase::Idle, run_events(samples)) == if samples.len() < config.max_time {
            Phase::Awaiting { step: samples.len() as u32 }
        } else {
            Phase::Done
        },
    decreases samples.len(),
{
    let events = run_events(samples);
    if samples.len() == 0 {
        assert(events.drop_last() =~= Seq::<Event>::empty());
        assert(replay(config, Phase::Idle, events.drop_last()) == Phase::Idle);
    } else {
        let earlier = samples.drop_last();
        assert(events.drop_last() =~= run_events(earlier));
        lemma_run_progress(config, earlier);
    }
}

/// Each probe sample is recorded under the step that produced it: the
/// sample reported after `k` earlier ones is emitted as the sample of step
/// `k`, before anything of the next step is issued.
pub proof fn lemma_sample_attribution(config: SimConfig, samples: Seq<u32>)
    requires
        0 < samples.len() <= config.max_time,
    ensures
        ({
            let before = replay(config, Phase::Idle, run_events(samples.drop_last()));
            let handed = transition(config, before, Event::Probe { value: samples.last() }).1;
            &&& handed is Ok
            &&& handed->Ok_0[0] == (Action::Emit {
                step: (samples.len() - 1) as u32,
                value: samples.last(),
            })
        }),
{
    lemma_run_progress(config, samples.drop_last());
}

/// At most one command sequence is in flight. In whatever the engine hands
/// out, a submission is the last action but one and is followed by the wait
/// for its probe sample, so there is at most one; nothing comes after that
/// wait; and the engine is then in `Awaiting`, where it accepts nothing but
/// the outcome of the readback.
pub proof fn lemma_one_sequence_in_flight(config: SimConfig, phase: Phase, event: Event)
    ensures
        match transition(config, phase, event).1 {
            Ok(actions) => {
                &&& forall|a: int|
                    0 <= a < actions.len() && #[trigger] actions[a] is Submit ==> a + 2
                        == actions.len() && actions.last() is AwaitProbe
                &&& forall|a: int|
                    0 <= a < actions.len() && #[trigger] actions[a] is AwaitProbe ==> a + 1
                        == actions.len() && transition(config, phase, event).0 is Awaiting
                &&& transition(config, phase, event).0 is Awaiting ==> actions.last() is AwaitProbe
            },
            Err(EngineError::OutOfTurn) => transition(config, phase, event).0 == phase,
            Err(EngineError::SyncFailure) => transition(config, phase, event).0 is Failed,
        },
        phase is Awaiting && transition(config, phase, event).1 is Ok ==> event is Probe,
{
}

/// The commands of a step come in a fixed order and respect the buffers
/// they touch. The source is written first, at the source cell, inside a
/// field that the host may write. The magnetic update is encoded before the
/// electric update, with the same workgroup counts. The probe copy comes
/// after both and before the submission; it reads the probe cell, inside a
/// field that may be copied from, and fills the staging buffer exactly,
/// which may be copied to and mapped.
pub proof fn lemma_step_commands_in_bounds(config: SimConfig, n: u32)
    requires
        config.valid(),
    ensures
        ({
            let actions = step_actions_spec(config, n);
            &&& actions.len() == 6
            &&& actions[1] matches Action::Dispatch { kernel: Kernel::UpdateH, groups: first }
                && actions[2] matches Action::Dispatch { kernel: Kernel::UpdateE, groups: second }
                && first == second
            &&& actions[4] is Submit
            &&& actions[5] is AwaitProbe
            &&& actions[0] matches Action::WriteSource { buffer, offset, .. } && {
                &&& offset == 4 * config.grid.index_of(config.source)
                &&& offset + 4 <= size_of(config.grid, buffer)
                &&& usage_of(buffer).copy_dst
            }
            &&& actions[3] matches Action::CopyProbe {
                source,
                source_offset,
                target,
                target_offset,
                size,
            } && {
                &&& source_offset == 4 * config.grid.index_of(config.probe)
                &&& source_offset + size <= size_of(config.grid, source)
                &&& target_offset + size == size_of(config.grid, target)
                &&& usage_of(source).copy_src
                &&& usage_of(target).copy_dst
                &&& usage_of(target).map_read
            }
        }),
{
    config.grid.lemma_index_in_range(config.source);
    config.grid.lemma_index_in_range(config.probe);
}

/// What the probe copy of a step takes out of the electric field is the
/// sample that the probe cell holds at that moment: whatever the field
/// contains, the bytes the copy addresses are the bytes of the word at the
/// position of the probe.
pub proof fn lemma_probe_copy_reads_probe_cell(
    config: SimConfig,
    order: Endian,
    field: Seq<u32>,
    n: u32,
)
    requires
        config.valid(),
        field.len() == config.grid.cell_count(),
    ensures
        step_actions_spec(config, n)[3] matches Action::CopyProbe { source_offset, size, .. }
            && words_image(order, field).subrange(
            source_offset as int,
            source_offset + size,
        ) == word_bytes(order, field[config.grid.index_of(config.probe)]),
{
    let at = config.grid.index_of(config.probe);
    config.grid.lemma_index_in_range(config.probe);
    lemma_image_holds_words(order, field, at);
    assert(word_at(words_image(order, field), at) == words_image(order, field).subrange(
        4 * at,
        4 * at + 4,
    ));
}

impl View for Engine {
    type V = EngineState;

    closed spec fn view(&self) -> EngineState {
        EngineState { config: self.plan@, phase: self.phase }
    }
}

/// The actions of step `n` of `plan`.
pub fn step_actions(plan: &Plan, n: u32) -> (actions: Vec<Action>)
    ensures
        actions@ == step_actions_spec(plan@, n),
{
    let config = plan.config();
    let groups = dispatch_size(&config.grid);
    let actions = vec![
        Action::WriteSource {
            buffer: BufferId::Ez,
            offset: plan.source_offset(),
            exponent: config.pulse.exponent(n),
        },
        Action::Dispatch { kernel: Kernel::UpdateH, groups },
        Action::Dispatch { kernel: Kernel::UpdateE, groups },
        Action::CopyProbe {
            source: BufferId::Ez,
            source_offset: plan.probe_offset(),
            target: BufferId::Readback,
            target_offset: 0,
            size: READBACK_BYTES,
        },
        Action::Submit,
        Action::AwaitProbe,
    ];
    assert(actions@ =~= step_actions_spec(plan@, n));
    actions
}

impl Engine {
    #[verifier::type_invariant]
    spec fn sound(self) -> bool {
        self.phase matches Phase::Awaiting { step } ==> step < self.plan@.max_time
    }

    /// An engine for `plan` that has issued nothing yet.
    pub fn new(plan: Plan) -> (engine: Engine)
        ensures
            engine@ == (EngineState { config: plan@, phase: Phase::Idle }),
    {
        Engine { plan, phase: Phase::Idle }
    }

    /// Where the run stands.
    pub fn phase(&self) -> (phase: Phase)
        ensures
            phase == self@.phase,
            phase matches Phase::Awaiting { step } ==> step < self@.config.max_time,
    {
        proof {
            use_type_invariant(self);
        }
        self.phase
    }

    /// The plan that is run.
    pub fn plan(&self) -> (plan: Plan)
        ensures
            plan@ == self@.config,
    {
        self.plan
    }

    /// Takes `event` and hands out what to do next, as [`transition`]
    /// says. An event that is out of turn changes nothing.
    pub fn advance(&mut self, event: Event) -> (handed: Result<Vec<Action>, EngineError>)
        ensures
            final(self)@.config == old(self)@.config,
            final(self)@.phase == transition(old(self)@.config, old(self)@.phase, event).0,
            match handed {
                Ok(actions) => transition(old(self)@.config, old(self)@.phase, event).1 == Ok::<
                    Seq<Action>,
                    EngineError,
                >(actions@),
                Err(e) => transition(old(self)@.config, old(self)@.phase, event).1 == Err::<
                    Seq<Action>,
                    EngineError,
                >(e),
            },
    {
        proof {
            use_type_invariant(&*self);
        }
        let max_time: u32 = self.plan.config().max_time;
        match (self.phase, event) {
            (Phase::Idle, Event::Start) => {
                if max_time == 0 {
                    self.phase = Phase::Done;
                    let actions = vec![Action::Complete];
                    assert(actions@ =~= seq![Action::Complete]);
                    Ok(actions)
                } else {
                    self.phase = Phase::Awaiting { step: 0 };
                    Ok(step_actions(&self.plan, 0))
                }
            },
            (Phase::Awaiting { step }, Event::Probe { value }) => {
                if step + 1 < max_time {
                    let mut actions = vec![Action::Emit { step, value }];
                    let mut next = step_actions(&self.plan, step + 1);
                    actions.append(&mut next);
                    assert(actions@ =~= seq![Action::Emit { step, value }] + step_actions_spec(
                        self.plan@,
                        (step + 1) as u32,
                    ));
                    self.phase = Phase::Awaiting { step: step + 1 };
                    Ok(actions)
                } else {
                    self.phase = Phase::Done;
                    let actions = vec![Action::Emit { step, value }, Action::Complete];
                    assert(actions@ =~= seq![Action::Emit { step, value }, Action::Complete]);
                    Ok(actions)
                }
            },
            (Phase::Awaiting { step }, Event::SyncFailed) => {
                self.phase = Phase::Failed;
                Err(EngineError::SyncFailure)
            },
            _ => Err(EngineError::OutOfTurn),
        }
    }
}

} // verus!
