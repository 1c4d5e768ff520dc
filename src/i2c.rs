//! I2C master: bus timing configuration and the transaction engine.
use vstd::prelude::*;
use crate::error::{ErrorKind, NoAcknowledgeSource};
use crate::time::Hertz;

verus! {

/// What a [`Config`] holds.
pub struct ConfigView {
    pub speed: Option<Hertz>,
    pub timing: Option<u32>,
    pub analog_filter: bool,
    pub digital_filter: u8,
}

/// I2C bus configuration.
pub struct Config {
    speed: Option<Hertz>,
    timing: Option<u32>,
    analog_filter: bool,
    digital_filter: u8,
}

impl View for Config {
    type V = ConfigView;

    closed spec fn view(&self) -> ConfigView {
        ConfigView {
            speed: self.speed,
            timing: self.timing,
            analog_filter: self.analog_filter,
            digital_filter: self.digital_filter,
        }
    }
}

/// The clock prescaler for a bus of `speed` hertz: standard mode up to
/// 100 kHz, fast mode above.
pub open spec fn timing_prescaler(speed: nat) -> nat {
    if speed <= 100_000 {
        3
    } else {
        1
    }
}

/// The SCL low period, in prescaled clock periods less one, capped at 255.
pub open spec fn scl_low(clk: nat, speed: nat) -> int {
    let l = clk / 2 / (timing_prescaler(speed) + 1) / speed - 1;
    if l <= 255 {
        l
    } else {
        255
    }
}

/// How much shorter the SCL high period is than the low one.
pub open spec fn scl_high_offset(speed: nat) -> nat {
    if speed <= 100_000 {
        4
    } else {
        6
    }
}

/// The data setup time.
pub open spec fn setup_delay(speed: nat) -> nat {
    if speed <= 100_000 {
        4
    } else {
        3
    }
}

/// The data hold time.
pub open spec fn hold_delay(speed: nat) -> nat {
    if speed <= 100_000 {
        2
    } else {
        1
    }
}

/// Whether a bus of `speed` hertz can be timed from a `clk` hertz kernel
/// clock: the SCL high period must not come out negative.
pub open spec fn speed_reachable(clk: nat, speed: nat) -> bool {
    speed > 0 && scl_low(clk, speed) >= scl_high_offset(speed)
}

/// The timing register for a bus of `speed` hertz from a `clk` hertz kernel
/// clock: prescaler in bits 31-28, setup time in 23-20, hold time in 19-16,
/// SCL high period in 15-8 and SCL low period in 7-0.
pub open spec fn timing_register(clk: nat, speed: nat) -> int {
    timing_prescaler(speed) * 0x1000_0000 + setup_delay(speed) * 0x10_0000 + hold_delay(speed)
        * 0x1_0000 + (scl_low(clk, speed) - scl_high_offset(speed)) * 0x100 + scl_low(clk, speed)
}

proof fn lemma_fields_pack(psc: u32, scldel: u32, sdadel: u32, sclh: u32, scll: u32)
    requires
        psc < 16,
        scldel < 16,
        sdadel < 16,
        sclh < 256,
        scll < 256,
    ensures
        (psc << 28u32 | scldel << 20u32 | sdadel << 16u32 | sclh << 8u32 | scll) == psc * 0x1000_0000
            + scldel * 0x10_0000 + sdadel * 0x1_0000 + sclh * 0x100 + scll,
{
    assert((psc << 28u32 | scldel << 20u32 | sdadel << 16u32 | sclh << 8u32 | scll) == psc
        * 0x1000_0000 + scldel * 0x10_0000 + sdadel * 0x1_0000 + sclh * 0x100 + scll)
        by (bit_vector)
        requires
            psc < 16,
            scldel < 16,
            sdadel < 16,
            sclh < 256,
            scll < 256,
    ;
}

impl Config {
    /// A configuration for a bus of `speed`, timed from the kernel clock.
    pub fn new(speed: Hertz) -> (r: Config)
        ensures
            r@ == (ConfigView {
                speed: Some(speed),
                timing: None,
                analog_filter: true,
                digital_filter: 0,
            }),
    {
        Config { speed: Some(speed), timing: None, analog_filter: true, digital_filter: 0 }
    }

    /// A configuration with the timing register given in full.
    pub fn with_timing(timing: u32) -> (r: Config)
        ensures
            r@ == (ConfigView {
                speed: None,
                timing: Some(timing),
                analog_filter: true,
                digital_filter: 0,
            }),
    {
        Config { speed: None, timing: Some(timing), analog_filter: true, digital_filter: 0 }
    }

    /// Turns the analog noise filter off.
    pub fn disable_analog_filter(self) -> (r: Config)
        ensures
            r@ == (ConfigView { analog_filter: false, ..self@ }),
    {
        Config { analog_filter: false, ..self }
    }

    /// Turns the digital noise filter on, suppressing spikes of up to
    /// `cycles` kernel clock periods.
    pub fn enable_digital_filter(self, cycles: u8) -> (r: Config)
        requires
            cycles <= 16,
        ensures
            r@ == (ConfigView { digital_filter: cycles, ..self@ }),
    {
        Config { digital_filter: cycles, ..self }
    }

    /// Whether the analog noise filter is on.
    pub fn analog_filter(&self) -> (r: bool)
        ensures
            r == self@.analog_filter,
    {
        self.analog_filter
    }

    /// The digital noise filter length in kernel clock periods.
    pub fn digital_filter(&self) -> (r: u8)
        ensures
            r == self@.digital_filter,
    {
        self.digital_filter
    }

    /// Whether [`Config::timing_bits`] can be computed from a `i2c_clk`
    /// kernel clock.
    pub open spec fn timing_computable(&self, i2c_clk: Hertz) -> bool {
        ||| self@.timing is Some
        ||| self@.speed matches Some(speed) && speed_reachable(i2c_clk.0 as nat, speed.0 as nat)
    }

    /// Whether the timing register can be computed for a kernel clock of
    /// `i2c_clk`.
    pub fn timing_available(&self, i2c_clk: Hertz) -> (r: bool)
        ensures
            r == self.timing_computable(i2c_clk),
    {
        if self.timing.is_some() {
            return true;
        }
        let speed = match self.speed {
            Some(speed) => speed.0,
            None => return false,
        };
        if speed == 0 {
            return false;
        }
        let (psc, high_offset): (u32, u32) = if speed <= 100_000 {
            (3, 4)
        } else {
            (1, 6)
        };
        let periods = i2c_clk.0 / 2 / (psc + 1) / speed;
        periods >= 1 && (periods - 1 >= 255 || periods - 1 >= high_offset)
    }

    /// The value of the timing register for a kernel clock of `i2c_clk`.
    pub fn timing_bits(&self, i2c_clk: Hertz) -> (r: u32)
        requires
            self.timing_computable(i2c_clk),
        ensures
            self@.timing matches Some(t) ==> r == t,
            self@.timing is None ==> r == timing_register(i2c_clk.0 as nat, (self@.speed->0).0 as nat),
    {
        if let Some(bits) = self.timing {
            return bits;
        }
        let speed = self.speed.unwrap().0;
        let kernel = i2c_clk.0;
        let clk = kernel >> 1;
        assert(kernel >> 1 == kernel / 2) by (bit_vector);
        let (psc, high_offset, sdadel, scldel): (u32, u32, u32, u32) = if speed <= 100_000 {
            (3, 4, 2, 4)
        } else {
            (1, 6, 1, 3)
        };
        let periods = clk / (psc + 1) / speed - 1;
        let scll: u32 = if periods <= 255 {
            periods
        } else {
            255
        };
        let sclh = scll - high_offset;
        proof {
            lemma_fields_pack(psc, scldel, sdadel, sclh, scll);
        }
        psc << 28 | scldel << 20 | sdadel << 16 | sclh << 8 | scll
    }
}

/// An I2C peripheral with its data and clock pins.
pub struct I2cObj<I2C, SDA, SCL> {
    i2c: I2C,
    sda: SDA,
    scl: SCL,
}

impl<I2C, SDA, SCL> I2cObj<I2C, SDA, SCL> {
    /// Takes ownership of a configured peripheral and its pins.
    pub fn new(i2c: I2C, sda: SDA, scl: SCL) -> (r: Self)
        ensures
            r.parts() == (i2c, sda, scl),
    {
        I2cObj { i2c, sda, scl }
    }

    /// The peripheral and its pins.
    pub closed spec fn parts(&self) -> (I2C, SDA, SCL) {
        (self.i2c, self.sda, self.scl)
    }

    /// The peripheral, for the register accesses of a transaction.
    pub fn peripheral(&self) -> (r: &I2C)
        ensures
            *r == self.parts().0,
    {
        &self.i2c
    }

    /// Gives the peripheral and the pins back.
    pub fn release(self) -> (r: (I2C, SDA, SCL))
        ensures
            r == self.parts(),
    {
        (self.i2c, self.sda, self.scl)
    }
}

/// A pin that can carry the data line of `I2C`.
pub trait SDAPin<I2C> {}

/// A pin that can carry the clock line of `I2C`.
pub trait SCLPin<I2C> {}

/// Turns a peripheral into an [`I2cObj`].
pub trait I2cExt<I2C>: Sized {
    fn i2c<SDA: SDAPin<I2C>, SCL: SCLPin<I2C>>(self, sda: SDA, scl: SCL) -> I2cObj<I2C, SDA, SCL>;
}

impl<I2C> I2cExt<I2C> for I2C {
    fn i2c<SDA: SDAPin<I2C>, SCL: SCLPin<I2C>>(self, sda: SDA, scl: SCL) -> I2cObj<I2C, SDA, SCL> {
        I2cObj::new(self, sda, scl)
    }
}

} // verus!

verus! {

/// The direction of one transfer of a transaction.
#[derive(Clone, Copy, Debug, PartialEq, Eq, Structural)]
pub enum Direction {
    Write,
    Read,
}

/// One operation of a transaction: which way its bytes go and how many there
/// are. The bytes themselves stay with the caller.
#[derive(Clone, Copy, Debug, PartialEq, Eq, Structural)]
pub struct Transfer {
    pub direction: Direction,
    pub len: usize,
}

impl Transfer {
    /// Whether the transfer fits in one frame of the byte counter.
    pub open spec fn in_one_frame(self) -> bool {
        1 <= self.len <= 255
    }

    pub fn is_valid(&self) -> (r: bool)
        ensures
            r == self.in_one_frame(),
    {
        1 <= self.len && self.len <= 255
    }
}

/// The target of a transaction.
#[derive(Clone, Copy, Debug, PartialEq, Eq, Structural)]
pub enum Address {
    SevenBit(u8),
    TenBit(u16),
}

impl Address {
    /// Whether the address fits its width.
    pub open spec fn in_range(self) -> bool {
        match self {
            Address::SevenBit(a) => a < 0x80,
            Address::TenBit(a) => a < 0x400,
        }
    }

    /// The target field of the control register: a 7-bit address sits in
    /// bits 7-1, a 10-bit address in bits 9-0.
    pub open spec fn field(self) -> u16 {
        match self {
            Address::SevenBit(a) => (a * 2) as u16,
            Address::TenBit(a) => a,
        }
    }

    pub fn is_valid(&self) -> (r: bool)
        ensures
            r == self.in_range(),
    {
        match self {
            Address::SevenBit(a) => *a < 0x80,
            Address::TenBit(a) => *a < 0x400,
        }
    }

    fn target_field(&self) -> (r: u16)
        requires
            self.in_range(),
        ensures
            r == self.field(),
    {
        match self {
            Address::SevenBit(a) => *a as u16 * 2,
            Address::TenBit(a) => *a,
        }
    }
}

/// The flags of the peripheral that a transaction step looks at, read
/// before the step.
#[derive(Clone, Copy, Debug, PartialEq, Eq, Structural)]
pub struct I2cStatus {
    /// The transmit data register wants the next byte.
    pub txis: bool,
    /// The receive data register holds a byte.
    pub rxne: bool,
    /// A bus error was detected.
    pub berr: bool,
    /// Arbitration was lost.
    pub arlo: bool,
    /// A byte was not acknowledged.
    pub nackf: bool,
    /// The transmit data register is empty.
    pub txe: bool,
    /// The start bit of the control register is still set: the address
    /// phase of the last start condition has not ended.
    pub start_pending: bool,
}

/// A start condition as the control register takes it.
#[derive(Clone, Copy, Debug, PartialEq, Eq)]
pub struct StartCondition {
    /// The target address field.
    pub address: u16,
    /// Whether the target is read from.
    pub read: bool,
    /// Whether the address has 10 bits.
    pub ten_bit: bool,
    /// Whether the peripheral ends the transfer with a stop by itself.
    pub auto_end: bool,
    /// The byte count to program together with the start, if any.
    pub byte_count: Option<u8>,
}

/// What the caller must do to the peripheral after a step.
#[derive(Clone, Copy, Debug, PartialEq, Eq)]
pub enum I2cAction {
    /// Nothing: read the flags again and take the next step.
    Poll,
    /// Program a start condition.
    Start(StartCondition),
    /// Program the byte count of the current transfer.
    SetByteCount(u8),
    /// Write byte `index` of transfer `op` to the transmit data register.
    Send { op: usize, index: usize },
    /// Read the receive data register into byte `index` of transfer `op`.
    Receive { op: usize, index: usize },
    /// Clear the bus error flag.
    ClearBusError,
    /// Clear the arbitration loss flag.
    ClearArbitrationLoss,
    /// Clear the not-acknowledge and stop flags.
    ClearNack,
    /// Write a dummy zero byte to the transmit data register.
    WriteDummyByte,
    /// Flush the transmit data register by setting its empty flag.
    FlushTransmitRegister,
    /// Generate a stop condition.
    Stop,
    /// The transaction is over, with this outcome.
    Finish(Result<(), ErrorKind>),
}

/// Where a transaction stands.
#[derive(Clone, Copy, Debug, PartialEq, Eq)]
pub enum Phase {
    /// The current transfer, if any is left, needs its address phase.
    Addressing,
    /// The address phase was programmed; the byte count comes next.
    Counting,
    /// Bytes of the current transfer are moving.
    Transferring,
    /// A byte was not acknowledged: a pending transmit request is served.
    FlushingPending,
    /// A byte was not acknowledged: the transmit register is flushed.
    FlushingEmpty,
    /// The error flags are cleared; the error is reported next.
    Failing(ErrorKind),
    /// The transaction is over.
    Done(Result<(), ErrorKind>),
}

/// Where a transaction stands, over its target and its transfers.
pub struct I2cTransactionView {
    pub address: Address,
    pub transfers: Seq<Transfer>,
    /// The current transfer.
    pub op: usize,
    /// The next byte of the current transfer.
    pub index: usize,
    pub phase: Phase,
    /// In 10-bit mode, the direction of the last address phase.
    pub previous: Option<Direction>,
}

/// One step of a transaction: the next state and what the caller must do,
/// given the flags read before the step.
///
/// With a 7-bit address every transfer is a bus transaction of its own: a
/// start with automatic end, then its bytes. With a 10-bit address a start
/// in software-end mode is sent only where the direction changes (and before
/// the first transfer), a read waits for the previous address phase to end
/// first, and one stop follows the last transfer. Each byte waits for its
/// flag; a bus error, a lost arbitration or a missing acknowledge seen
/// instead ends the transaction with that error, after the flag is cleared
/// (and, for a missing acknowledge, the transmit register flushed).
pub open spec fn i2c_next(s: I2cTransactionView, st: I2cStatus) -> (I2cTransactionView, I2cAction) {
    let ten_bit = s.address is TenBit;
    match s.phase {
        Phase::Addressing => {
            if s.op >= s.transfers.len() {
                if ten_bit {
                    (I2cTransactionView { phase: Phase::Done(Ok(())), ..s }, I2cAction::Stop)
                } else {
                    (I2cTransactionView { phase: Phase::Done(Ok(())), ..s }, I2cAction::Finish(Ok(())))
                }
            } else {
                let t = s.transfers[s.op as int];
                let read = t.direction == Direction::Read;
                if !ten_bit {
                    (
                        I2cTransactionView { phase: Phase::Transferring, index: 0, ..s },
                        I2cAction::Start(
                            StartCondition {
                                address: s.address.field(),
                                read,
                                ten_bit: false,
                                auto_end: true,
                                byte_count: Some(t.len as u8),
                            },
                        ),
                    )
                } else if s.previous == Some(t.direction) {
                    (
                        I2cTransactionView { phase: Phase::Transferring, index: 0, ..s },
                        I2cAction::SetByteCount(t.len as u8),
                    )
                } else if read && st.start_pending {
                    (s, I2cAction::Poll)
                } else {
                    (
                        I2cTransactionView {
                            phase: Phase::Counting,
                            index: 0,
                            previous: Some(t.direction),
                            ..s
                        },
                        I2cAction::Start(
                            StartCondition {
                                address: s.address.field(),
                                read,
                                ten_bit: true,
                                auto_end: false,
                                byte_count: None,
                            },
                        ),
                    )
                }
            }
        },
        Phase::Counting => (
            I2cTransactionView { phase: Phase::Transferring, index: 0, ..s },
            I2cAction::SetByteCount(s.transfers[s.op as int].len as u8),
        ),
        Phase::Transferring => {
            let t = s.transfers[s.op as int];
            let read = t.direction == Direction::Read;
            let ready = if read {
                st.rxne
            } else {
                st.txis
            };
            if ready {
                let action = if read {
                    I2cAction::Receive { op: s.op, index: s.index }
                } else {
                    I2cAction::Send { op: s.op, index: s.index }
                };
                if s.index + 1 >= t.len {
                    (
                        I2cTransactionView {
                            phase: Phase::Addressing,
                            op: (s.op + 1) as usize,
                            index: 0,
                            ..s
                        },
                        action,
                    )
                } else {
                    (I2cTransactionView { index: (s.index + 1) as usize, ..s }, action)
                }
            } else if st.berr {
                (
                    I2cTransactionView { phase: Phase::Failing(ErrorKind::Bus), ..s },
                    I2cAction::ClearBusError,
                )
            } else if st.arlo {
                (
                    I2cTransactionView { phase: Phase::Failing(ErrorKind::ArbitrationLoss), ..s },
                    I2cAction::ClearArbitrationLoss,
                )
            } else if st.nackf {
                (I2cTransactionView { phase: Phase::FlushingPending, ..s }, I2cAction::ClearNack)
            } else {
                (s, I2cAction::Poll)
            }
        },
        Phase::FlushingPending => (
            I2cTransactionView { phase: Phase::FlushingEmpty, ..s },
            if st.txis {
                I2cAction::WriteDummyByte
            } else {
                I2cAction::Poll
            },
        ),
        Phase::FlushingEmpty => (
            I2cTransactionView {
                phase: Phase::Failing(ErrorKind::NoAcknowledge(NoAcknowledgeSource::Unknown)),
                ..s
            },
            if st.txe {
                I2cAction::FlushTransmitRegister
            } else {
                I2cAction::Poll
            },
        ),
        Phase::Failing(e) => (
            I2cTransactionView { phase: Phase::Done(Err(e)), ..s },
            I2cAction::Finish(Err(e)),
        ),
        Phase::Done(r) => (s, I2cAction::Finish(r)),
    }
}

/// An I2C transaction in progress: a target and an ordered list of
/// transfers, driven one step at a time by the peripheral's flags.
pub struct I2cTransaction {
    address: Address,
    transfers: Vec<Transfer>,
    op: usize,
    index: usize,
    phase: Phase,
    previous: Option<Direction>,
}

impl View for I2cTransaction {
    type V = I2cTransactionView;

    closed spec fn view(&self) -> I2cTransactionView {
        I2cTransactionView {
            address: self.address,
            transfers: self.transfers@,
            op: self.op,
            index: self.index,
            phase: self.phase,
            previous: self.previous,
        }
    }
}

impl I2cTransaction {
    #[verifier::type_invariant]
    spec fn well_formed(self) -> bool {
        &&& self.address.in_range()
        &&& forall|i: int| 0 <= i < self.transfers.len() ==> (#[trigger] self.transfers@[i]).in_one_frame()
        &&& self.op <= self.transfers.len()
        &&& (self.phase == Phase::Counting || self.phase == Phase::Transferring) ==> {
            &&& self.op < self.transfers.len()
            &&& self.index < self.transfers@[self.op as int].len
        }
    }

    /// A transaction with `address` made of `transfers`, in order.
    pub fn new(address: Address, transfers: Vec<Transfer>) -> (r: I2cTransaction)
        requires
            address.in_range(),
            forall|i: int| 0 <= i < transfers.len() ==> (#[trigger] transfers@[i]).in_one_frame(),
        ensures
            r@ == (I2cTransactionView {
                address,
                transfers: transfers@,
                op: 0,
                index: 0,
                phase: Phase::Addressing,
                previous: None,
            }),
    {
        I2cTransaction { address, transfers, op: 0, index: 0, phase: Phase::Addressing, previous: None }
    }

    /// Whether the transaction is over.
    pub fn is_done(&self) -> (r: bool)
        ensures
            r == self@.phase is Done,
    {
        match self.phase {
            Phase::Done(_) => true,
            _ => false,
        }
    }

    /// Takes one step, given the flags read just before it, and says what
    /// the caller must do next.
    pub fn step(&mut self, status: I2cStatus) -> (r: I2cAction)
        ensures
            (final(self)@, r) == i2c_next(old(self)@, status),
    {
        proof {
            use_type_invariant(&*self);
        }
        let ten_bit = match self.address {
            Address::TenBit(_) => true,
            Address::SevenBit(_) => false,
        };
        match self.phase {
            Phase::Addressing => {
                if self.op >= self.transfers.len() {
                    self.phase = Phase::Done(Ok(()));
                    if ten_bit {
                        I2cAction::Stop
                    } else {
                        I2cAction::Finish(Ok(()))
                    }
                } else {
                    let t = self.transfers[self.op];
                    let read = t.direction == Direction::Read;
                    let same_direction = match self.previous {
                        Some(d) => d == t.direction,
                        None => false,
                    };
                    if !ten_bit {
                        self.index = 0;
                        self.phase = Phase::Transferring;
                        I2cAction::Start(
                            StartCondition {
                                address: self.address.target_field(),
                                read,
                                ten_bit: false,
                                auto_end: true,
                                byte_count: Some(t.len as u8),
                            },
                        )
                    } else if same_direction {
                        self.index = 0;
                        self.phase = Phase::Transferring;
                        I2cAction::SetByteCount(t.len as u8)
                    } else if read && status.start_pending {
                        I2cAction::Poll
                    } else {
                        self.index = 0;
                        self.phase = Phase::Counting;
                        self.previous = Some(t.direction);
                        I2cAction::Start(
                            StartCondition {
                                address: self.address.target_field(),
                                read,
                                ten_bit: true,
                                auto_end: false,
                                byte_count: None,
                            },
                        )
                    }
                }
            },
            Phase::Counting => {
                self.index = 0;
                self.phase = Phase::Transferring;
                I2cAction::SetByteCount(self.transfers[self.op].len as u8)
            },
            Phase::Transferring => {
                let t = self.transfers[self.op];
                let read = t.direction == Direction::Read;
                let ready = if read {
                    status.rxne
                } else {
                    status.txis
                };
                if ready {
                    let action = if read {
                        I2cAction::Receive { op: self.op, index: self.index }
                    } else {
                        I2cAction::Send { op: self.op, index: self.index }
                    };
                    if self.index + 1 >= t.len {
                        self.phase = Phase::Addressing;
                        self.op = self.op + 1;
                        self.index = 0;
                    } else {
                        self.index = self.index + 1;
                    }
                    action
                } else if status.berr {
                    self.phase = Phase::Failing(ErrorKind::Bus);
                    I2cAction::ClearBusError
                } else if status.arlo {
                    self.phase = Phase::Failing(ErrorKind::ArbitrationLoss);
                    I2cAction::ClearArbitrationLoss
                } else if status.nackf {
                    self.phase = Phase::FlushingPending;
                    I2cAction::ClearNack
                } else {
                    I2cAction::Poll
                }
            },
            Phase::FlushingPending => {
                self.phase = Phase::FlushingEmpty;
                if status.txis {
                    I2cAction::WriteDummyByte
                } else {
                    I2cAction::Poll
                }
            },
            Phase::FlushingEmpty => {
                self.phase = Phase::Failing(ErrorKind::NoAcknowledge(NoAcknowledgeSource::Unknown));
                if status.txe {
                    I2cAction::FlushTransmitRegister
                } else {
                    I2cAction::Poll
                }
            },
            Phase::Failing(e) => {
                self.phase = Phase::Done(Err(e));
                I2cAction::Finish(Err(e))
            },
            Phase::Done(r) => I2cAction::Finish(r),
        }
    }
}

} // verus!
