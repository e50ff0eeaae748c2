use embassy_lab::max30100::{
    decode_sample, fifo_request, init_advance, init_begin, init_write, sample_from, InitPhase,
    InitStep, Max30100, RegisterWrite, INIT_WRITE_COUNT, MAX30100_ADDRESS,
};

/// Runs the initialization sequence against scripted bus outcomes and
/// returns the writes that were issued and the final result.
fn drive_init(outcomes: &[Result<(), u8>]) -> (Vec<RegisterWrite>, Result<(), u8>) {
    let (mut phase, first) = init_begin();
    let mut issued = vec![first];
    let mut k = 0;
    loop {
        let (next, step) = init_advance(phase, outcomes[k]);
        k += 1;
        phase = next;
        match step {
            InitStep::Issue(w) => issued.push(w),
            InitStep::Finish(r) => return (issued, r),
        }
    }
}

fn pairs(ws: &[RegisterWrite]) -> Vec<(u8, u8)> {
    ws.iter().map(|w| (w.reg, w.value)).collect()
}

#[test]
fn init_issues_the_four_writes_in_order() {
    let (issued, result) = drive_init(&[Ok(()), Ok(()), Ok(()), Ok(())]);
    assert_eq!(result, Ok(()));
    assert_eq!(pairs(&issued), vec![(0x06, 0x40), (0x06, 0x03), (0x07, 0x27), (0x09, 0x24)]);
    assert!(issued.iter().all(|w| w.address == 0x57));
}

#[test]
fn init_stops_at_first_failure() {
    let (issued, result) = drive_init(&[Ok(()), Err(7), Ok(()), Ok(())]);
    assert_eq!(result, Err(7));
    assert_eq!(pairs(&issued), vec![(0x06, 0x40), (0x06, 0x03)]);
}

#[test]
fn init_failure_on_first_write() {
    let (issued, result) = drive_init(&[Err(1)]);
    assert_eq!(result, Err(1));
    assert_eq!(pairs(&issued), vec![(0x06, 0x40)]);
}

#[test]
fn init_failure_on_last_write() {
    let (issued, result) = drive_init(&[Ok(()), Ok(()), Ok(()), Err(9)]);
    assert_eq!(result, Err(9));
    assert_eq!(issued.len(), 4);
}

#[test]
fn init_phase_ends_configured_or_aborted() {
    let (mut phase, _) = init_begin();
    for _ in 0..INIT_WRITE_COUNT {
        phase = init_advance::<u8>(phase, Ok(())).0;
    }
    assert_eq!(phase, InitPhase::Configured);
    let (p, _) = init_begin();
    assert_eq!(init_advance(p, Err(3u8)).0, InitPhase::Aborted);
}

#[test]
fn init_write_payloads() {
    assert_eq!(init_write(0).payload(), [0x06, 0x40]);
    assert_eq!(init_write(3).payload(), [0x09, 0x24]);
}

#[test]
fn fifo_request_is_one_register_four_bytes() {
    let r = fifo_request();
    assert_eq!(r.address, MAX30100_ADDRESS);
    assert_eq!(r.reg, 0x05);
    assert_eq!(r.len, 4);
}

#[test]
fn decode_concrete_sample() {
    assert_eq!(decode_sample([0x01, 0x02, 0x03, 0x04]), (0x0102, 0x0304));
}

#[test]
fn decode_extremes() {
    assert_eq!(decode_sample([0xff, 0xff, 0x00, 0x00]), (0xffff, 0x0000));
    assert_eq!(decode_sample([0x00, 0xff, 0x80, 0x01]), (0x00ff, 0x8001));
}

#[test]
fn sample_passes_bus_error_unchanged() {
    assert_eq!(sample_from::<&str>(Err("nack")), Err("nack"));
    assert_eq!(sample_from::<&str>(Ok([0x12, 0x34, 0x56, 0x78])), Ok((0x1234, 0x5678)));
}

#[test]
fn destroy_returns_the_bus_client() {
    let bus = vec![1u8, 2, 3];
    let mut drv = Max30100::new(bus);
    drv.bus().push(4);
    assert_eq!(drv.destroy(), vec![1u8, 2, 3, 4]);
}
