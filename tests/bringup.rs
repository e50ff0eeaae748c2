use embassy_lab::bringup::{BringUp, Event, PowerMode, Stage, Step};

fn run(mode: PowerMode, capacity: usize, events: &[Event]) -> (BringUp, Vec<Step>) {
    let (mut b, first) = BringUp::start(mode, capacity);
    let mut steps = vec![first];
    for e in events {
        steps.push(b.advance(*e));
    }
    (b, steps)
}

fn happy_events(seed: u64) -> Vec<Event> {
    let mut ev = vec![Event::Done; 9];
    ev.push(Event::Seeded(seed));
    ev.extend([Event::Done; 3]);
    ev
}

#[test]
fn end_to_end_bring_up() {
    let (b, steps) = run(PowerMode::PowerSave, 4, &happy_events(0xdead_beef));
    assert_eq!(
        steps,
        vec![
            Step::PowerDown,
            Step::DeselectChip,
            Step::BindInterrupt,
            Step::OpenSerialChannel,
            Step::ClaimRadioState,
            Step::StartRadio,
            Step::SpawnRadioRunner,
            Step::LoadCalibration,
            Step::SetPowerMode(PowerMode::PowerSave),
            Step::DrawSeed,
            Step::ClaimArena(4),
            Step::StartStack(0xdead_beef),
            Step::SpawnStackRunner,
            Step::Ready,
        ]
    );
    assert_eq!(b.stage(), Stage::Running);
}

#[test]
fn running_stays_running() {
    let (mut b, _) = run(PowerMode::Disabled, 2, &happy_events(1));
    assert_eq!(b.advance(Event::Done), Step::Ready);
    assert_eq!(b.stage(), Stage::Running);
}

#[test]
fn failed_radio_spawn_aborts() {
    let mut ev = vec![Event::Done; 6];
    ev.push(Event::Failed);
    let (mut b, steps) = run(PowerMode::PowerSave, 4, &ev);
    assert_eq!(steps[6], Step::SpawnRadioRunner);
    assert_eq!(steps[7], Step::Abort);
    assert_eq!(b.stage(), Stage::Halted);
    assert_eq!(b.advance(Event::Done), Step::Abort);
}

#[test]
fn failed_stack_spawn_aborts() {
    let mut ev = happy_events(5);
    ev.pop();
    ev.push(Event::Failed);
    let (b, steps) = run(PowerMode::Aggressive, 4, &ev);
    assert_eq!(steps.last(), Some(&Step::Abort));
    assert_eq!(b.stage(), Stage::Halted);
}

#[test]
fn seed_must_come_from_random_source() {
    let ev = vec![Event::Done; 10];
    let (_, steps) = run(PowerMode::PowerSave, 4, &ev);
    assert_eq!(steps[9], Step::DrawSeed);
    assert_eq!(steps[10], Step::Abort);
}

#[test]
fn seed_out_of_place_aborts() {
    let (_, steps) = run(PowerMode::PowerSave, 4, &[Event::Seeded(3)]);
    assert_eq!(steps, vec![Step::PowerDown, Step::Abort]);
}

#[test]
fn cells_claimed_once() {
    let (_, steps) = run(PowerMode::PowerSave, 4, &happy_events(7));
    assert_eq!(steps.iter().filter(|s| **s == Step::ClaimRadioState).count(), 1);
    assert_eq!(steps.iter().filter(|s| matches!(s, Step::ClaimArena(_))).count(), 1);
}

#[test]
fn stack_started_after_radio() {
    let (_, steps) = run(PowerMode::PowerSave, 4, &happy_events(7));
    let radio = steps.iter().position(|s| *s == Step::StartRadio).unwrap();
    let stack = steps.iter().position(|s| matches!(s, Step::StartStack(_))).unwrap();
    assert!(radio < stack);
}
