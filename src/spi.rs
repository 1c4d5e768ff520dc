//! SPI master: mode and bit-rate configuration and the byte exchange engine.
use vstd::prelude::*;
use crate::error::ErrorKind;
use crate::time::Hertz;

verus! {

/// Stands in for a clock pin that is not used.
pub struct NoSck;

/// Stands in for a MISO pin that is not used.
pub struct NoMiso;

/// Stands in for a MOSI pin that is not used.
pub struct NoMosi;

/// A set of pins that `SPI` can run on.
pub trait Pins<SPI> {}

/// A pin that can carry the clock of `SPI`.
pub trait PinSck<SPI> {}

/// A pin that can carry the MISO line of `SPI`.
pub trait PinMiso<SPI> {}

/// A pin that can carry the MOSI line of `SPI`.
pub trait PinMosi<SPI> {}

impl<SPI, SCK: PinSck<SPI>, MISO: PinMiso<SPI>, MOSI: PinMosi<SPI>> Pins<SPI> for (SCK, MISO, MOSI) {}

/// The clock level between transfers.
#[derive(Clone, Copy, Debug, PartialEq, Eq, Structural)]
pub enum Polarity {
    IdleLow,
    IdleHigh,
}

/// The clock edge on which data is captured.
#[derive(Clone, Copy, Debug, PartialEq, Eq, Structural)]
pub enum Phase {
    CaptureOnFirstTransition,
    CaptureOnSecondTransition,
}

/// A clock polarity and phase.
#[derive(Clone, Copy, Debug, PartialEq, Eq, Structural)]
pub struct Mode {
    pub polarity: Polarity,
    pub phase: Phase,
}

/// The control register settings of a master.
#[derive(Clone, Copy, Debug, PartialEq, Eq, Structural)]
pub struct SpiConfig {
    /// The clock idles high.
    pub cpol: bool,
    /// Data is captured on the second clock transition.
    pub cpha: bool,
    /// The baud-rate field: the bus clock is divided by `2 << baud_rate`.
    pub baud_rate: u8,
}

/// The baud-rate field for a bus clock `ratio` times the requested bit
/// rate: the power-of-two divider nearest to the ratio, from 2 to 256.
pub open spec fn baud_rate_code(ratio: nat) -> u8 {
    if ratio <= 2 {
        0
    } else if ratio <= 5 {
        1
    } else if ratio <= 11 {
        2
    } else if ratio <= 23 {
        3
    } else if ratio <= 47 {
        4
    } else if ratio <= 95 {
        5
    } else if ratio <= 191 {
        6
    } else {
        7
    }
}

/// The master settings for `mode` at `freq` from a bus clock of `bus_freq`.
pub fn spi_config(mode: Mode, bus_freq: Hertz, freq: Hertz) -> (r: SpiConfig)
    requires
        0 < freq.0 <= bus_freq.0,
    ensures
        r.cpol == (mode.polarity == Polarity::IdleHigh),
        r.cpha == (mode.phase == Phase::CaptureOnSecondTransition),
        r.baud_rate == baud_rate_code((bus_freq.0 / freq.0) as nat),
{
    let ratio = bus_freq.0 / freq.0;
    let baud_rate: u8 = if ratio <= 2 {
        0
    } else if ratio <= 5 {
        1
    } else if ratio <= 11 {
        2
    } else if ratio <= 23 {
        3
    } else if ratio <= 47 {
        4
    } else if ratio <= 95 {
        5
    } else if ratio <= 191 {
        6
    } else {
        7
    };
    SpiConfig {
        cpol: mode.polarity == Polarity::IdleHigh,
        cpha: mode.phase == Phase::CaptureOnSecondTransition,
        baud_rate,
    }
}

/// An SPI peripheral with its pins.
pub struct Spi<SPI, PINS> {
    spi: SPI,
    pins: PINS,
}

impl<SPI, PINS> Spi<SPI, PINS> {
    /// Takes ownership of a configured peripheral and its pins.
    pub fn new(spi: SPI, pins: PINS) -> (r: Self)
        ensures
            r.parts() == (spi, pins),
    {
        Spi { spi, pins }
    }

    /// The peripheral and its pins.
    pub closed spec fn parts(&self) -> (SPI, PINS) {
        (self.spi, self.pins)
    }

    /// The peripheral, for the register accesses of an exchange.
    pub fn peripheral(&self) -> (r: &SPI)
        ensures
            *r == self.parts().0,
    {
        &self.spi
    }

    /// Gives the peripheral and the pins back.
    pub fn release(self) -> (r: (SPI, PINS))
        ensures
            r == self.parts(),
    {
        (self.spi, self.pins)
    }
}

/// The flags of the peripheral that an exchange step looks at.
#[derive(Clone, Copy, Debug, PartialEq, Eq, Structural)]
pub struct SpiStatus {
    /// The transmit buffer is empty.
    pub txe: bool,
    /// The receive buffer holds a word.
    pub rxne: bool,
    /// Received data was overwritten before it was read.
    pub ovr: bool,
    /// A mode fault occurred.
    pub modf: bool,
    /// The peripheral is busy.
    pub bsy: bool,
}

/// The word to transmit.
#[derive(Clone, Copy, Debug, PartialEq, Eq, Structural)]
pub enum Outgoing {
    /// A zero filler byte.
    Filler,
    /// The word at this index of the caller's outgoing buffer.
    Word(usize),
}

/// Where the received word goes.
#[derive(Clone, Copy, Debug, PartialEq, Eq, Structural)]
pub enum Incoming {
    /// Nowhere: it is read and dropped.
    Discard,
    /// To this index of the caller's incoming buffer.
    Word(usize),
}

/// What the caller must do to the peripheral after a step.
#[derive(Clone, Copy, Debug, PartialEq, Eq)]
pub enum SpiAction {
    /// Nothing: read the flags again and take the next step.
    Poll,
    /// Write a word to the data register.
    Send(Outgoing),
    /// Read the data register.
    Receive(Incoming),
    /// The exchange is over, with this outcome.
    Finish(Result<(), ErrorKind>),
}

/// Where an exchange stands within the current word.
#[derive(Clone, Copy, Debug, PartialEq, Eq)]
pub enum Stage {
    /// Waiting for room to transmit the current word.
    AwaitTransmit,
    /// Waiting for the word clocked in with it.
    AwaitReceive,
    /// The exchange is over.
    Done(Result<(), ErrorKind>),
}

/// Where an exchange stands.
pub struct SpiExchangeView {
    /// Words stored into the caller's incoming buffer.
    pub read_len: usize,
    /// Words taken from the caller's outgoing buffer.
    pub write_len: usize,
    /// The current word.
    pub index: usize,
    pub stage: Stage,
}

impl SpiExchangeView {
    /// The number of words clocked: the longer of the two buffers.
    pub open spec fn total(self) -> nat {
        if self.read_len >= self.write_len {
            self.read_len as nat
        } else {
            self.write_len as nat
        }
    }
}

/// One step of a full-duplex exchange: the next state and what the caller
/// must do, given the flags read before the step.
///
/// Each word waits for an empty transmit buffer and is sent (a filler byte
/// once the outgoing buffer is exhausted), then waits for the received word,
/// checks for overrun and mode fault, and reads it (dropping it once the
/// incoming buffer is full). An error ends the exchange at once.
pub open spec fn spi_next(s: SpiExchangeView, st: SpiStatus) -> (SpiExchangeView, SpiAction) {
    match s.stage {
        Stage::AwaitTransmit => {
            if s.index >= s.total() {
                (SpiExchangeView { stage: Stage::Done(Ok(())), ..s }, SpiAction::Finish(Ok(())))
            } else if st.txe {
                (
                    SpiExchangeView { stage: Stage::AwaitReceive, ..s },
                    SpiAction::Send(
                        if s.index < s.write_len {
                            Outgoing::Word(s.index)
                        } else {
                            Outgoing::Filler
                        },
                    ),
                )
            } else {
                (s, SpiAction::Poll)
            }
        },
        Stage::AwaitReceive => {
            if !st.rxne {
                (s, SpiAction::Poll)
            } else if st.ovr {
                (
                    SpiExchangeView { stage: Stage::Done(Err(ErrorKind::Overrun)), ..s },
                    SpiAction::Finish(Err(ErrorKind::Overrun)),
                )
            } else if st.modf {
                (
                    SpiExchangeView { stage: Stage::Done(Err(ErrorKind::ModeFault)), ..s },
                    SpiAction::Finish(Err(ErrorKind::ModeFault)),
                )
            } else {
                (
                    SpiExchangeView {
                        stage: Stage::AwaitTransmit,
                        index: (s.index + 1) as usize,
                        ..s
                    },
                    SpiAction::Receive(
                        if s.index < s.read_len {
                            Incoming::Word(s.index)
                        } else {
                            Incoming::Discard
                        },
                    ),
                )
            }
        },
        Stage::Done(r) => (s, SpiAction::Finish(r)),
    }
}

/// A full-duplex exchange in progress.
pub struct SpiExchange {
    read_len: usize,
    write_len: usize,
    index: usize,
    stage: Stage,
}

impl View for SpiExchange {
    type V = SpiExchangeView;

    closed spec fn view(&self) -> SpiExchangeView {
        SpiExchangeView {
            read_len: self.read_len,
            write_len: self.write_len,
            index: self.index,
            stage: self.stage,
        }
    }
}

impl SpiExchange {
    #[verifier::type_invariant]
    spec fn index_in_bounds(self) -> bool {
        self.stage == Stage::AwaitReceive ==> self.index < self@.total()
    }

    /// An exchange that stores `read_len` received words and sends
    /// `write_len` words, clocking as many words as the longer of the two.
    pub fn transfer(read_len: usize, write_len: usize) -> (r: SpiExchange)
        ensures
            r@ == (SpiExchangeView { read_len, write_len, index: 0, stage: Stage::AwaitTransmit }),
    {
        SpiExchange { read_len, write_len, index: 0, stage: Stage::AwaitTransmit }
    }

    /// An exchange that receives `len` words, sending filler bytes.
    pub fn read(len: usize) -> (r: SpiExchange)
        ensures
            r@ == (SpiExchangeView { read_len: len, write_len: 0, index: 0, stage: Stage::AwaitTransmit }),
    {
        SpiExchange::transfer(len, 0)
    }

    /// An exchange that sends `len` words, dropping what comes back.
    pub fn write(len: usize) -> (r: SpiExchange)
        ensures
            r@ == (SpiExchangeView { read_len: 0, write_len: len, index: 0, stage: Stage::AwaitTransmit }),
    {
        SpiExchange::transfer(0, len)
    }

    /// An exchange that sends the `len` words of a buffer and overwrites
    /// each with the word received for it.
    pub fn transfer_in_place(len: usize) -> (r: SpiExchange)
        ensures
            r@ == (SpiExchangeView { read_len: len, write_len: len, index: 0, stage: Stage::AwaitTransmit }),
    {
        SpiExchange::transfer(len, len)
    }

    /// Whether the exchange is over.
    pub fn is_done(&self) -> (r: bool)
        ensures
            r == self@.stage is Done,
    {
        match self.stage {
            Stage::Done(_) => true,
            _ => false,
        }
    }

    /// Takes one step, given the flags read just before it, and says what
    /// the caller must do next.
    pub fn step(&mut self, status: SpiStatus) -> (r: SpiAction)
        ensures
            (final(self)@, r) == spi_next(old(self)@, status),
    {
        proof {
            use_type_invariant(&*self);
        }
        let total = if self.read_len >= self.write_len {
            self.read_len
        } else {
            self.write_len
        };
        match self.stage {
            Stage::AwaitTransmit => {
                if self.index >= total {
                    self.stage = Stage::Done(Ok(()));
                    SpiAction::Finish(Ok(()))
                } else if status.txe {
                    self.stage = Stage::AwaitReceive;
                    SpiAction::Send(
                        if self.index < self.write_len {
                            Outgoing::Word(self.index)
                        } else {
                            Outgoing::Filler
                        },
                    )
                } else {
                    SpiAction::Poll
                }
            },
            Stage::AwaitReceive => {
                if !status.rxne {
                    SpiAction::Poll
                } else if status.ovr {
                    self.stage = Stage::Done(Err(ErrorKind::Overrun));
                    SpiAction::Finish(Err(ErrorKind::Overrun))
                } else if status.modf {
                    self.stage = Stage::Done(Err(ErrorKind::ModeFault));
                    SpiAction::Finish(Err(ErrorKind::ModeFault))
                } else {
                    let incoming = if self.index < self.read_len {
                        Incoming::Word(self.index)
                    } else {
                        Incoming::Discard
                    };
                    self.stage = Stage::AwaitTransmit;
                    self.index = self.index + 1;
                    SpiAction::Receive(incoming)
                }
            },
            Stage::Done(r) => SpiAction::Finish(r),
        }
    }
}

/// One step of waiting for the peripheral to finish its last word.
pub fn flush_step(status: SpiStatus) -> (r: SpiAction)
    ensures
        status.bsy ==> r == SpiAction::Poll,
        !status.bsy ==> r == SpiAction::Finish(Ok(())),
{
    if status.bsy {
        SpiAction::Poll
    } else {
        SpiAction::Finish(Ok(()))
    }
}

} // verus!
