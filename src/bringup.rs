//! Ordering of the radio and network bring-up.
//!
//! Every step of the bring-up is outside work (pins, the serial engine, the
//! radio driver, the scheduler, the random source). The order of the steps,
//! the one-shot guards of the radio state and of the connection-resource arena,
//! and the fatal handling of failures are decided here: `BringUp::advance`
//! takes the outcome of the step that was performed and names the next one.

use vstd::prelude::*;

verus! {

/// Power-management policy applied to the radio once it is up.
#[derive(Clone, Copy, Debug, PartialEq, Eq, Structural)]
pub enum PowerMode {
    SuperSave,
    Aggressive,
    PowerSave,
    Performance,
    ThroughputThrottling,
    /// No power management: the radio draws the most power.
    Disabled,
}

/// How the network stack obtains its address.
#[derive(Clone, Copy, Debug, PartialEq, Eq, Structural)]
pub enum AddressMode {
    Dynamic,
    Static,
}

/// The steps of the bring-up, in the order in which they are performed.
#[derive(Clone, Copy, Debug, PartialEq, Eq, Structural)]
pub enum Stage {
    /// Drive the radio's power pin low (radio held in power-down).
    PowerDown,
    /// Drive the chip-select pin high (deselected).
    DeselectChip,
    /// Bind the interrupt of the serial-protocol engine.
    BindInterrupt,
    /// Build the serial channel over the engine.
    OpenSerialChannel,
    /// Initialize the one-shot radio state cell.
    ClaimRadioState,
    /// Load the device firmware and build the radio driver: yields the
    /// network device handle, the control handle and the radio runner.
    StartRadio,
    /// Spawn the perpetual radio runner.
    SpawnRadioRunner,
    /// Load the calibration blob through the control handle.
    LoadCalibration,
    /// Apply the power-management policy.
    SetPowerMode,
    /// Draw the 64-bit seed from the hardware random source.
    DrawSeed,
    /// Initialize the one-shot connection-resource arena.
    ClaimArena,
    /// Build the network stack on the device handle: yields the stack handle
    /// and the stack runner.
    StartStack,
    /// Spawn the perpetual stack runner.
    SpawnStackRunner,
    /// Both runners are spawned and the stack handle is usable.
    Running,
    /// A step failed; the process cannot go on.
    Halted,
}

/// What the caller performs next.
#[derive(Clone, Copy, Debug, PartialEq, Eq, Structural)]
pub enum Step {
    PowerDown,
    DeselectChip,
    BindInterrupt,
    OpenSerialChannel,
    ClaimRadioState,
    StartRadio,
    SpawnRadioRunner,
    LoadCalibration,
    SetPowerMode(PowerMode),
    DrawSeed,
    /// Initialize the arena with this many connection slots.
    ClaimArena(usize),
    /// Build the stack with this seed.
    StartStack(u64),
    SpawnStackRunner,
    /// Bring-up is complete.
    Ready,
    /// Bring-up failed; the process must stop.
    Abort,
}

/// The outcome of a performed step.
#[derive(Clone, Copy, Debug, PartialEq, Eq, Structural)]
pub enum Event {
    /// The step completed.
    Done,
    /// The random source produced this seed.
    Seeded(u64),
    /// The step failed (a spawn refused, a cell already taken).
    Failed,
}

/// The abstract state of a bring-up.
pub struct BringUpView {
    /// The step that was issued and whose outcome is awaited.
    pub stage: Stage,
    pub power_mode: PowerMode,
    pub capacity: usize,
    pub seed: u64,
    /// The radio state cell has been claimed.
    pub radio_state_claimed: bool,
    /// The connection-resource arena has been claimed.
    pub arena_claimed: bool,
    /// The radio driver has been built, so the network device handle exists.
    pub device_ready: bool,
}

/// The step that is issued on entering `stage`.
pub open spec fn step_of(v: BringUpView, stage: Stage) -> Step {
    match stage {
        Stage::PowerDown => Step::PowerDown,
        Stage::DeselectChip => Step::DeselectChip,
        Stage::BindInterrupt => Step::BindInterrupt,
        Stage::OpenSerialChannel => Step::OpenSerialChannel,
        Stage::ClaimRadioState => Step::ClaimRadioState,
        Stage::StartRadio => Step::StartRadio,
        Stage::SpawnRadioRunner => Step::SpawnRadioRunner,
        Stage::LoadCalibration => Step::LoadCalibration,
        Stage::SetPowerMode => Step::SetPowerMode(v.power_mode),
        Stage::DrawSeed => Step::DrawSeed,
        Stage::ClaimArena => Step::ClaimArena(v.capacity),
        Stage::StartStack => Step::StartStack(v.seed),
        Stage::SpawnStackRunner => Step::SpawnStackRunner,
        Stage::Running => Step::Ready,
        Stage::Halted => Step::Abort,
    }
}

/// The stage that follows `stage` when it completes.
pub open spec fn next_stage(stage: Stage) -> Stage {
    match stage {
        Stage::PowerDown => Stage::DeselectChip,
        Stage::DeselectChip => Stage::BindInterrupt,
        Stage::BindInterrupt => Stage::OpenSerialChannel,
        Stage::OpenSerialChannel => Stage::ClaimRadioState,
        Stage::ClaimRadioState => Stage::StartRadio,
        Stage::StartRadio => Stage::SpawnRadioRunner,
        Stage::SpawnRadioRunner => Stage::LoadCalibration,
        Stage::LoadCalibration => Stage::SetPowerMode,
        Stage::SetPowerMode => Stage::DrawSeed,
        Stage::DrawSeed => Stage::ClaimArena,
        Stage::ClaimArena => Stage::StartStack,
        Stage::StartStack => Stage::SpawnStackRunner,
        Stage::SpawnStackRunner => Stage::Running,
        Stage::Running => Stage::Running,
        Stage::Halted => Stage::Halted,
    }
}

pub open spec fn is_terminal(stage: Stage) -> bool {
    stage is Running || stage is Halted
}

pub open spec fn halted(v: BringUpView) -> BringUpView {
    BringUpView { stage: Stage::Halted, ..v }
}

/// One transition: the awaited step of `v` ended with `e`.
///
/// A failure, or an outcome of the wrong kind, halts the bring-up. The radio
/// state and the arena are each claimed at most once: entering a claim whose
/// cell is taken halts. The stack is built only once the device handle exists.
pub open spec fn transition(v: BringUpView, e: Event) -> (BringUpView, Step) {
    if is_terminal(v.stage) {
        (v, step_of(v, v.stage))
    } else {
        let v1 = match e {
            Event::Done => if v.stage is DrawSeed {
                halted(v)
            } else if v.stage is StartRadio {
                BringUpView { stage: next_stage(v.stage), device_ready: true, ..v }
            } else {
                BringUpView { stage: next_stage(v.stage), ..v }
            },
            Event::Seeded(s) => if v.stage is DrawSeed {
                BringUpView { stage: next_stage(v.stage), seed: s, ..v }
            } else {
                halted(v)
            },
            Event::Failed => halted(v),
        };
        let v2 = if v1.stage is ClaimRadioState {
            if v1.radio_state_claimed {
                halted(v1)
            } else {
                BringUpView { radio_state_claimed: true, ..v1 }
            }
        } else if v1.stage is ClaimArena {
            if v1.arena_claimed {
                halted(v1)
            } else {
                BringUpView { arena_claimed: true, ..v1 }
            }
        } else if v1.stage is StartStack && !v1.device_ready {
            halted(v1)
        } else {
            v1
        };
        (v2, step_of(v2, v2.stage))
    }
}

/// The steps issued after the awaited one when the outcomes are `events` in
/// turn.
pub open spec fn run(v: BringUpView, events: Seq<Event>) -> Seq<Step>
    decreases events.len(),
{
    if events.len() == 0 || is_terminal(v.stage) {
        seq![]
    } else {
        let (next, step) = transition(v, events[0]);
        seq![step] + run(next, events.drop_first())
    }
}

/// The state at the start of a bring-up, with the first step issued.
pub open spec fn initial(power_mode: PowerMode, capacity: usize) -> BringUpView {
    BringUpView {
        stage: Stage::PowerDown,
        power_mode,
        capacity,
        seed: 0,
        radio_state_claimed: false,
        arena_claimed: false,
        device_ready: false,
    }
}

/// The issued steps: the awaited one, then those issued on `events`.
pub open spec fn trace(v: BringUpView, events: Seq<Event>) -> Seq<Step> {
    seq![step_of(v, v.stage)] + run(v, events)
}

proof fn lemma_no_claims_once_claimed(v: BringUpView, events: Seq<Event>)
    ensures
        v.radio_state_claimed ==> forall|i: int|
            0 <= i < run(v, events).len() ==> run(v, events)[i] != Step::ClaimRadioState,
        v.arena_claimed ==> forall|i: int|
            0 <= i < run(v, events).len() ==> !(run(v, events)[i] is ClaimArena),
    decreases events.len(),
{
    if events.len() > 0 && !is_terminal(v.stage) {
        let (n, step) = transition(v, events[0]);
        let tail = events.drop_first();
        lemma_no_claims_once_claimed(n, tail);
        let t = run(v, events);
        assert(t == seq![step] + run(n, tail));
        assert forall|i: int| 0 < i < t.len() implies t[i] == run(n, tail)[i - 1] by {}
    }
}

/// Within one bring-up the radio state cell and the connection-resource
/// arena are each claimed at most once, whatever the outcomes of the steps:
/// once a cell is claimed no further claim of it is issued.
pub proof fn lemma_cells_claimed_once(v: BringUpView, events: Seq<Event>)
    ensures
        ({
            let t = run(v, events);
            &&& v.radio_state_claimed ==> forall|i: int|
                0 <= i < t.len() ==> t[i] != Step::ClaimRadioState
            &&& v.arena_claimed ==> forall|i: int| 0 <= i < t.len() ==> !(t[i] is ClaimArena)
            &&& forall|i: int, j: int|
                0 <= i < j < t.len() && t[i] == Step::ClaimRadioState ==> t[j] != Step::ClaimRadioState
            &&& forall|i: int, j: int|
                0 <= i < j < t.len() && t[i] is ClaimArena ==> !(t[j] is ClaimArena)
        }),
    decreases events.len(),
{
    lemma_no_claims_once_claimed(v, events);
    if events.len() > 0 && !is_terminal(v.stage) {
        let (n, step) = transition(v, events[0]);
        let tail = events.drop_first();
        lemma_cells_claimed_once(n, tail);
        let t = run(v, events);
        let r = run(n, tail);
        assert(t == seq![step] + r);
        assert forall|i: int| 0 < i < t.len() implies t[i] == r[i - 1] by {}
        if step == Step::ClaimRadioState {
            assert(n.radio_state_claimed);
        }
        if step is ClaimArena {
            assert(n.arena_claimed);
        }
    }
}

proof fn lemma_stack_needs_radio(v: BringUpView, events: Seq<Event>)
    requires
        !v.device_ready,
        !(v.stage is StartStack),
    ensures
        ({
            let t = trace(v, events);
            forall|j: int|
                0 <= j < t.len() && t[j] is StartStack ==> exists|i: int|
                    0 <= i < j && i < events.len() && t[i] == Step::StartRadio && events[i]
                        == Event::Done
        }),
    decreases events.len(),
{
    let t = trace(v, events);
    if events.len() > 0 && !is_terminal(v.stage) {
        let (n, step) = transition(v, events[0]);
        let tail = events.drop_first();
        let tn = trace(n, tail);
        assert(step == step_of(n, n.stage));
        assert(t =~= seq![step_of(v, v.stage)] + tn);
        assert forall|j: int| 0 < j < t.len() implies t[j] == tn[j - 1] by {}
        if n.device_ready {
            assert(v.stage is StartRadio && events[0] == Event::Done);
            assert forall|j: int| 0 <= j < t.len() && t[j] is StartStack implies exists|i: int|
                0 <= i < j && i < events.len() && t[i] == Step::StartRadio && events[i]
                    == Event::Done by {
                assert(t[0] == Step::StartRadio);
            }
        } else {
            lemma_stack_needs_radio(n, tail);
            assert forall|j: int| 0 <= j < t.len() && t[j] is StartStack implies exists|i: int|
                0 <= i < j && i < events.len() && t[i] == Step::StartRadio && events[i]
                    == Event::Done by {
                assert(tn[j - 1] is StartStack);
                let i0 = choose|i: int|
                    0 <= i < j - 1 && i < tail.len() && tn[i] == Step::StartRadio && tail[i]
                        == Event::Done;
                assert(t[i0 + 1] == tn[i0]);
                assert(events[i0 + 1] == tail[i0]);
            }
        }
    } else {
        assert(t =~= seq![step_of(v, v.stage)]);
    }
}

/// The network stack is never built before the radio driver exists: in any
/// bring-up, every `StartStack` step comes after a `StartRadio` step that
/// completed.
pub proof fn lemma_stack_after_radio(power_mode: PowerMode, capacity: usize, events: Seq<Event>)
    ensures
        ({
            let t = trace(initial(power_mode, capacity), events);
            forall|j: int|
                0 <= j < t.len() && t[j] is StartStack ==> exists|i: int|
                    0 <= i < j && i < events.len() && t[i] == Step::StartRadio && events[i]
                        == Event::Done
        }),
{
    lemma_stack_needs_radio(initial(power_mode, capacity), events);
}

/// A radio and network bring-up in progress.
pub struct BringUp {
    stage: Stage,
    power_mode: PowerMode,
    capacity: usize,
    seed: u64,
    radio_state_claimed: bool,
    arena_claimed: bool,
    device_ready: bool,
}

impl View for BringUp {
    type V = BringUpView;

    closed spec fn view(&self) -> BringUpView {
        BringUpView {
            stage: self.stage,
            power_mode: self.power_mode,
            capacity: self.capacity,
            seed: self.seed,
            radio_state_claimed: self.radio_state_claimed,
            arena_claimed: self.arena_claimed,
            device_ready: self.device_ready,
        }
    }
}

impl Stage {
    /// The stage that follows this one when it completes.
    pub fn next(self) -> (r: Stage)
        ensures
            r == next_stage(self),
    {
        match self {
            Stage::PowerDown => Stage::DeselectChip,
            Stage::DeselectChip => Stage::BindInterrupt,
            Stage::BindInterrupt => Stage::OpenSerialChannel,
            Stage::OpenSerialChannel => Stage::ClaimRadioState,
            Stage::ClaimRadioState => Stage::StartRadio,
            Stage::StartRadio => Stage::SpawnRadioRunner,
            Stage::SpawnRadioRunner => Stage::LoadCalibration,
            Stage::LoadCalibration => Stage::SetPowerMode,
            Stage::SetPowerMode => Stage::DrawSeed,
            Stage::DrawSeed => Stage::ClaimArena,
            Stage::ClaimArena => Stage::StartStack,
            Stage::StartStack => Stage::SpawnStackRunner,
            Stage::SpawnStackRunner => Stage::Running,
            Stage::Running => Stage::Running,
            Stage::Halted => Stage::Halted,
        }
    }
}

impl BringUp {
    /// Starts a bring-up that will apply `power_mode` and give the arena
    /// `capacity` slots; the first step is to power the radio down.
    pub fn start(power_mode: PowerMode, capacity: usize) -> (r: (BringUp, Step))
        ensures
            r.0@ == initial(power_mode, capacity),
            r.1 == Step::PowerDown,
    {
        let b = BringUp {
            stage: Stage::PowerDown,
            power_mode,
            capacity,
            seed: 0,
            radio_state_claimed: false,
            arena_claimed: false,
            device_ready: false,
        };
        (b, Step::PowerDown)
    }

    /// The stage whose outcome is awaited.
    pub fn stage(&self) -> (r: Stage)
        ensures
            r == self@.stage,
    {
        self.stage
    }

    /// The step issued on entering the current stage.
    fn current_step(&self) -> (r: Step)
        ensures
            r == step_of(self@, self@.stage),
    {
        match self.stage {
            Stage::PowerDown => Step::PowerDown,
            Stage::DeselectChip => Step::DeselectChip,
            Stage::BindInterrupt => Step::BindInterrupt,
            Stage::OpenSerialChannel => Step::OpenSerialChannel,
            Stage::ClaimRadioState => Step::ClaimRadioState,
            Stage::StartRadio => Step::StartRadio,
            Stage::SpawnRadioRunner => Step::SpawnRadioRunner,
            Stage::LoadCalibration => Step::LoadCalibration,
            Stage::SetPowerMode => Step::SetPowerMode(self.power_mode),
            Stage::DrawSeed => Step::DrawSeed,
            Stage::ClaimArena => Step::ClaimArena(self.capacity),
            Stage::StartStack => Step::StartStack(self.seed),
            Stage::SpawnStackRunner => Step::SpawnStackRunner,
            Stage::Running => Step::Ready,
            Stage::Halted => Step::Abort,
        }
    }

    /// Takes the outcome of the awaited step and returns the step to
    /// perform next.
    pub fn advance(&mut self, e: Event) -> (r: Step)
        ensures
            (final(self)@, r) == transition(old(self)@, e),
    {
        if self.stage == Stage::Running || self.stage == Stage::Halted {
            return self.current_step();
        }
        match e {
            Event::Done => {
                if self.stage == Stage::DrawSeed {
                    self.stage = Stage::Halted;
                } else {
                    if self.stage == Stage::StartRadio {
                        self.device_ready = true;
                    }
                    self.stage = self.stage.next();
                }
            },
            Event::Seeded(s) => {
                if self.stage == Stage::DrawSeed {
                    self.seed = s;
                    self.stage = self.stage.next();
                } else {
                    self.stage = Stage::Halted;
                }
            },
            Event::Failed => {
                self.stage = Stage::Halted;
            },
        }
        if self.stage == Stage::ClaimRadioState {
            if self.radio_state_claimed {
                self.stage = Stage::Halted;
            } else {
                self.radio_state_claimed = true;
            }
        } else if self.stage == Stage::ClaimArena {
            if self.arena_claimed {
                self.stage = Stage::Halted;
            } else {
                self.arena_claimed = true;
            }
        } else if self.stage == Stage::StartStack && !self.device_ready {
            self.stage = Stage::Halted;
        }
        self.current_step()
    }
}

} // verus!
