//! Register protocol of the MAX30100 pulse-oximetry sensor.
//!
//! The bus itself is asynchronous and lives outside the library. The driver
//! owns the bus client; the decisions of each operation (which transaction
//! comes next, what a reply decodes to, which error is returned) are made by
//! the verified functions below.

use vstd::prelude::*;

verus! {

/// Seven-bit bus address of the sensor.
pub const MAX30100_ADDRESS: u8 = 0x57;

/// FIFO data register: four bytes per sample.
pub const REG_FIFO_DATA: u8 = 0x05;

/// Mode configuration register.
pub const REG_MODE_CONFIG: u8 = 0x06;

/// Sample-rate and pulse-width configuration register.
pub const REG_SPO2_CONFIG: u8 = 0x07;

/// LED current configuration register.
pub const REG_LED_CONFIG: u8 = 0x09;

/// Number of register writes in the initialization sequence.
pub const INIT_WRITE_COUNT: usize = 4;

/// Number of bytes read from the FIFO per sample.
pub const FIFO_SAMPLE_LEN: usize = 4;

/// One two-byte write transaction: register address, then value.
#[derive(Clone, Copy, Debug, PartialEq, Eq, Structural)]
pub struct RegisterWrite {
    pub address: u8,
    pub reg: u8,
    pub value: u8,
}

impl RegisterWrite {
    /// The bytes put on the bus, in order.
    pub open spec fn bytes(self) -> Seq<u8> {
        seq![self.reg, self.value]
    }

    pub fn payload(&self) -> (r: [u8; 2])
        ensures
            r@ == self.bytes(),
    {
        let r = [self.reg, self.value];
        assert(r@ =~= self.bytes());
        r
    }
}

/// One combined transaction: write the register address, then read `len` bytes.
#[derive(Clone, Copy, Debug, PartialEq, Eq, Structural)]
pub struct RegisterRead {
    pub address: u8,
    pub reg: u8,
    pub len: usize,
}

pub open spec fn write_to(reg: u8, value: u8) -> RegisterWrite {
    RegisterWrite { address: MAX30100_ADDRESS, reg, value }
}

/// The initialization sequence: reset, SpO2 mode, sample rate and pulse
/// width, LED currents.
pub open spec fn init_writes() -> Seq<RegisterWrite> {
    seq![
        write_to(REG_MODE_CONFIG, 0x40),
        write_to(REG_MODE_CONFIG, 0x03),
        write_to(REG_SPO2_CONFIG, 0x27),
        write_to(REG_LED_CONFIG, 0x24),
    ]
}

/// The `i`-th write of the initialization sequence.
pub fn init_write(i: usize) -> (r: RegisterWrite)
    requires
        i < INIT_WRITE_COUNT,
    ensures
        r == init_writes()[i as int],
{
    let (reg, value): (u8, u8) = if i == 0 {
        (REG_MODE_CONFIG, 0x40)
    } else if i == 1 {
        (REG_MODE_CONFIG, 0x03)
    } else if i == 2 {
        (REG_SPO2_CONFIG, 0x27)
    } else {
        (REG_LED_CONFIG, 0x24)
    };
    RegisterWrite { address: MAX30100_ADDRESS, reg, value }
}

/// Where the initialization sequence stands.
#[derive(Clone, Copy, Debug, PartialEq, Eq, Structural)]
pub enum InitPhase {
    /// The write with this index has been issued and its outcome is awaited.
    Writing { index: usize },
    /// All writes succeeded.
    Configured,
    /// A write failed; the sequence stopped there.
    Aborted,
}

impl InitPhase {
    pub open spec fn awaits_write(self) -> bool {
        self matches InitPhase::Writing { index } && index < INIT_WRITE_COUNT
    }
}

/// What the caller does next while initializing.
#[derive(Debug, PartialEq, Eq)]
pub enum InitStep<E> {
    /// Issue this write and report its outcome.
    Issue(RegisterWrite),
    /// The sequence is over, with this result.
    Finish(Result<(), E>),
}

/// One transition of the initialization sequence on the outcome of the
/// write awaited in `phase`.
pub open spec fn init_transition<E>(phase: InitPhase, outcome: Result<(), E>) -> (InitPhase, InitStep<E>) {
    match phase {
        InitPhase::Writing { index } => match outcome {
            Err(e) => (InitPhase::Aborted, InitStep::Finish(Err(e))),
            Ok(()) => if index + 1 < INIT_WRITE_COUNT {
                (
                    InitPhase::Writing { index: (index + 1) as usize },
                    InitStep::Issue(init_writes()[index + 1]),
                )
            } else {
                (InitPhase::Configured, InitStep::Finish(Ok(())))
            },
        },
        _ => (phase, InitStep::Finish(Ok(()))),
    }
}

/// Index of the first failed outcome, or the length when none failed.
pub open spec fn first_failure<E>(outcomes: Seq<Result<(), E>>) -> nat
    decreases outcomes.len(),
{
    if outcomes.len() == 0 {
        0
    } else if outcomes[0] is Err {
        0
    } else {
        1 + first_failure(outcomes.drop_first())
    }
}

/// Writes issued after the awaited one, and the final result, when the bus
/// answers with `outcomes` in turn.
pub open spec fn init_run<E>(phase: InitPhase, outcomes: Seq<Result<(), E>>) -> (Seq<RegisterWrite>, Option<Result<(), E>>)
    decreases outcomes.len(),
{
    if outcomes.len() == 0 || !phase.awaits_write() {
        (seq![], None)
    } else {
        let (next, step) = init_transition(phase, outcomes[0]);
        match step {
            InitStep::Issue(w) => {
                let (rest, result) = init_run(next, outcomes.drop_first());
                (seq![w] + rest, result)
            },
            InitStep::Finish(result) => (seq![], Some(result)),
        }
    }
}

/// Starts the initialization sequence: the first write to issue.
pub fn init_begin() -> (r: (InitPhase, RegisterWrite))
    ensures
        r.0 == (InitPhase::Writing { index: 0 }),
        r.1 == init_writes()[0],
{
    (InitPhase::Writing { index: 0 }, init_write(0))
}

/// Advances the initialization sequence on the outcome of the awaited write.
/// A failure ends the sequence at once with that very error.
pub fn init_advance<E>(phase: InitPhase, outcome: Result<(), E>) -> (r: (InitPhase, InitStep<E>))
    requires
        phase.awaits_write(),
    ensures
        r == init_transition(phase, outcome),
{
    match phase {
        InitPhase::Writing { index } => match outcome {
            Err(e) => (InitPhase::Aborted, InitStep::Finish(Err(e))),
            Ok(()) => if index + 1 < INIT_WRITE_COUNT {
                (InitPhase::Writing { index: index + 1 }, InitStep::Issue(init_write(index + 1)))
            } else {
                (InitPhase::Configured, InitStep::Finish(Ok(())))
            },
        },
        _ => (phase, InitStep::Finish(Ok(()))),
    }
}

proof fn lemma_first_failure<E>(outcomes: Seq<Result<(), E>>)
    ensures
        first_failure(outcomes) <= outcomes.len(),
        first_failure(outcomes) < outcomes.len() ==> outcomes[first_failure(outcomes) as int] is Err,
        forall|j: int| 0 <= j < first_failure(outcomes) ==> outcomes[j] is Ok,
    decreases outcomes.len(),
{
    if outcomes.len() > 0 && outcomes[0] is Ok {
        let tail = outcomes.drop_first();
        lemma_first_failure(tail);
        assert forall|j: int| 0 <= j < first_failure(outcomes) implies outcomes[j] is Ok by {
            if j > 0 {
                assert(outcomes[j] == tail[j - 1]);
            }
        }
    }
}

proof fn lemma_init_run_from<E>(i: usize, outcomes: Seq<Result<(), E>>)
    requires
        i < INIT_WRITE_COUNT,
        outcomes.len() >= INIT_WRITE_COUNT - i,
    ensures
        ({
            let k = first_failure(outcomes) as int;
            let (later, result) = init_run(InitPhase::Writing { index: i }, outcomes);
            if k < INIT_WRITE_COUNT - i {
                later == init_writes().subrange(i + 1, i + k + 1) && result == Some(outcomes[k])
            } else {
                later == init_writes().subrange(i + 1, INIT_WRITE_COUNT as int) && result == Some(
                    Ok::<(), E>(()),
                )
            }
        }),
    decreases INIT_WRITE_COUNT - i,
{
    let phase = InitPhase::Writing { index: i };
    let tail = outcomes.drop_first();
    if outcomes[0] is Ok {
        if i + 1 < INIT_WRITE_COUNT {
            let n = (i + 1) as usize;
            lemma_init_run_from(n, tail);
            let k = first_failure(outcomes) as int;
            let (rest, _) = init_run(InitPhase::Writing { index: n }, tail);
            let (later, _) = init_run(phase, outcomes);
            assert(later == seq![init_writes()[i + 1]] + rest);
            if k < INIT_WRITE_COUNT - i {
                assert(later =~= init_writes().subrange(i + 1, i + k + 1));
                assert(outcomes[k] == tail[k - 1]);
            } else {
                assert(later =~= init_writes().subrange(i + 1, INIT_WRITE_COUNT as int));
            }
        } else {
            let (later, _) = init_run(phase, outcomes);
            assert(later =~= init_writes().subrange(i + 1, INIT_WRITE_COUNT as int));
        }
    } else {
        let (later, _) = init_run(phase, outcomes);
        assert(later =~= init_writes().subrange(i + 1, i + 1));
    }
}

/// Initialization puts on the bus, to the sensor's address, the writes
/// `(0x06, 0x40)`, `(0x06, 0x03)`, `(0x07, 0x27)`, `(0x09, 0x24)` in that
/// order. It stops after the first write that fails and returns that write's
/// error unchanged; when all four succeed it returns `Ok`.
pub proof fn lemma_init_sequence<E>(outcomes: Seq<Result<(), E>>)
    requires
        outcomes.len() >= INIT_WRITE_COUNT,
    ensures
        ({
            let k = first_failure(outcomes) as int;
            let (later, result) = init_run(InitPhase::Writing { index: 0 }, outcomes);
            let issued = seq![init_writes()[0]] + later;
            &&& forall|j: int| 0 <= j < issued.len() ==> issued[j].address == MAX30100_ADDRESS
            &&& forall|j: int| 0 <= j < k ==> outcomes[j] is Ok
            &&& k < INIT_WRITE_COUNT ==> {
                &&& outcomes[k] is Err
                &&& issued == init_writes().take(k + 1)
                &&& result == Some(outcomes[k])
            }
            &&& k >= INIT_WRITE_COUNT ==> {
                &&& issued == init_writes()
                &&& result == Some(Ok::<(), E>(()))
            }
        }),
{
    lemma_first_failure(outcomes);
    lemma_init_run_from(0, outcomes);
    let k = first_failure(outcomes) as int;
    let (later, _) = init_run(InitPhase::Writing { index: 0 }, outcomes);
    let issued = seq![init_writes()[0]] + later;
    if k < INIT_WRITE_COUNT {
        assert(issued =~= init_writes().take(k + 1));
    } else {
        assert(issued =~= init_writes());
    }
}

/// The transaction that reads one sample from the FIFO.
pub open spec fn fifo_read_spec() -> RegisterRead {
    RegisterRead { address: MAX30100_ADDRESS, reg: REG_FIFO_DATA, len: FIFO_SAMPLE_LEN }
}

/// A big-endian 16-bit value from its high and low bytes.
pub open spec fn be16(hi: u8, lo: u8) -> u16 {
    (hi as int * 256 + lo as int) as u16
}

/// The channel pair (infrared, red) held by four raw FIFO bytes.
pub open spec fn decode_spec(raw: Seq<u8>) -> (u16, u16) {
    (be16(raw[0], raw[1]), be16(raw[2], raw[3]))
}

/// The transaction that reads one sample: write `0x05`, then read four bytes.
pub fn fifo_request() -> (r: RegisterRead)
    ensures
        r == fifo_read_spec(),
{
    RegisterRead { address: MAX30100_ADDRESS, reg: REG_FIFO_DATA, len: FIFO_SAMPLE_LEN }
}

/// Decodes four raw FIFO bytes into the infrared and red channel values.
pub fn decode_sample(raw: [u8; 4]) -> (r: (u16, u16))
    ensures
        r == decode_spec(raw@),
        r.0 as int == raw@[0] as int * 256 + raw@[1] as int,
        r.1 as int == raw@[2] as int * 256 + raw@[3] as int,
{
    let (b0, b1, b2, b3) = (raw[0], raw[1], raw[2], raw[3]);
    let ir: u16 = ((b0 as u16) << 8u16) | (b1 as u16);
    let red: u16 = ((b2 as u16) << 8u16) | (b3 as u16);
    assert(ir == (b0 as u16) * 256 + (b1 as u16)) by (bit_vector)
        requires
            ir == ((b0 as u16) << 8u16) | (b1 as u16),
    ;
    assert(red == (b2 as u16) * 256 + (b3 as u16)) by (bit_vector)
        requires
            red == ((b2 as u16) << 8u16) | (b3 as u16),
    ;
    (ir, red)
}

/// The result of a sample read from the outcome of its bus transaction: the
/// decoded pair, or the bus error unchanged.
pub fn sample_from<E>(reply: Result<[u8; 4], E>) -> (r: Result<(u16, u16), E>)
    ensures
        match reply {
            Ok(raw) => r == Ok::<(u16, u16), E>(decode_spec(raw@)),
            Err(e) => r == Err::<(u16, u16), E>(e),
        },
{
    match reply {
        Ok(raw) => Ok(decode_sample(raw)),
        Err(e) => Err(e),
    }
}

/// The sensor driver: owns the bus client through which the sensor is reached.
pub struct Max30100<I2C> {
    i2c: I2C,
}

impl<I2C> Max30100<I2C> {
    /// The bus client that the driver owns.
    pub closed spec fn bus_client(&self) -> I2C {
        self.i2c
    }

    /// Wraps a bus client.
    pub fn new(i2c: I2C) -> (r: Self)
        ensures
            r.bus_client() == i2c,
    {
        Max30100 { i2c }
    }

    /// Lends the bus client so that a transaction can be performed on it.
    pub fn bus(&mut self) -> (r: &mut I2C)
        ensures
            *r == old(self).bus_client(),
            final(self).bus_client() == *final(r),
    {
        &mut self.i2c
    }

    /// Gives the bus client back; the driver is consumed.
    pub fn destroy(self) -> (r: I2C)
        ensures
            r == self.bus_client(),
    {
        self.i2c
    }
}

} // verus!
