use aemics_stm32g4xx_hal::error::ErrorKind;
use aemics_stm32g4xx_hal::spi::{
    flush_step, spi_config, Incoming, Mode, Outgoing, Phase, Polarity, SpiAction, SpiConfig,
    SpiExchange, SpiStatus,
};
use aemics_stm32g4xx_hal::time::Hertz;

fn status(txe: bool, rxne: bool) -> SpiStatus {
    SpiStatus { txe, rxne, ovr: false, modf: false, bsy: false }
}

/// Runs an exchange against a bus whose MISO line is wired to its MOSI line:
/// every word received is the word just sent.
fn loopback(ex: &mut SpiExchange, outgoing: &[u8], incoming: &mut [u8]) -> (Vec<u8>, Result<(), ErrorKind>) {
    let mut wire = Vec::new();
    let mut latched = 0u8;
    for _ in 0..10_000 {
        match ex.step(status(true, true)) {
            SpiAction::Poll => {}
            SpiAction::Send(Outgoing::Filler) => {
                latched = 0;
                wire.push(0);
            }
            SpiAction::Send(Outgoing::Word(i)) => {
                latched = outgoing[i];
                wire.push(latched);
            }
            SpiAction::Receive(Incoming::Word(i)) => incoming[i] = latched,
            SpiAction::Receive(Incoming::Discard) => {}
            SpiAction::Finish(r) => return (wire, r),
        }
    }
    panic!("exchange did not finish");
}

#[test]
fn read_only_transfer_sends_filler_and_fills_the_buffer() {
    let mut ex = SpiExchange::transfer(12, 0);
    let mut read = [0xffu8; 12];
    let mut receives = Vec::new();
    let mut sends = Vec::new();
    loop {
        match ex.step(status(true, true)) {
            SpiAction::Send(o) => sends.push(o),
            SpiAction::Receive(i) => {
                receives.push(i);
                if let Incoming::Word(k) = i {
                    read[k] = k as u8 + 1;
                }
            }
            SpiAction::Finish(r) => {
                assert_eq!(r, Ok(()));
                break;
            }
            SpiAction::Poll => {}
        }
    }
    assert_eq!(sends, vec![Outgoing::Filler; 12]);
    assert_eq!(receives, (0..12).map(Incoming::Word).collect::<Vec<_>>());
    assert_eq!(read, [1, 2, 3, 4, 5, 6, 7, 8, 9, 10, 11, 12]);
}

#[test]
fn loopback_transfer_returns_what_was_sent() {
    let message: [u8; 12] = [0, 1, 2, 3, 4, 5, 6, 7, 8, 9, 10, 11];
    let mut received = [0u8; 12];
    let mut ex = SpiExchange::transfer(12, 12);
    let (wire, r) = loopback(&mut ex, &message, &mut received);
    assert_eq!(r, Ok(()));
    assert_eq!(wire, message.to_vec());
    assert_eq!(received, message);
}

#[test]
fn longer_write_than_read_discards_the_rest() {
    let out = [9u8, 8, 7, 6];
    let mut inc = [0u8; 2];
    let mut ex = SpiExchange::transfer(2, 4);
    let (wire, r) = loopback(&mut ex, &out, &mut inc);
    assert_eq!(r, Ok(()));
    assert_eq!(wire, vec![9, 8, 7, 6]);
    assert_eq!(inc, [9, 8]);
}

#[test]
fn longer_read_than_write_pads_with_filler() {
    let out = [5u8];
    let mut inc = [0xaau8; 3];
    let mut ex = SpiExchange::transfer(3, 1);
    let (wire, _) = loopback(&mut ex, &out, &mut inc);
    assert_eq!(wire, vec![5, 0, 0]);
    assert_eq!(inc, [5, 0, 0]);
}

#[test]
fn in_place_transfer_overwrites_each_word() {
    let mut words = [1u8, 2, 3];
    let copy = words;
    let mut ex = SpiExchange::transfer_in_place(3);
    let (wire, r) = loopback(&mut ex, &copy, &mut words);
    assert_eq!(r, Ok(()));
    assert_eq!(wire, vec![1, 2, 3]);
    assert_eq!(words, [1, 2, 3]);
}

#[test]
fn write_discards_and_read_fills() {
    let mut nothing: [u8; 0] = [];
    let (wire, _) = loopback(&mut SpiExchange::write(2), &[4, 2], &mut nothing);
    assert_eq!(wire, vec![4, 2]);
    let mut buf = [7u8; 2];
    let (wire, _) = loopback(&mut SpiExchange::read(2), &[], &mut buf);
    assert_eq!(wire, vec![0, 0]);
    assert_eq!(buf, [0, 0]);
}

#[test]
fn empty_exchange_finishes_at_once() {
    let mut ex = SpiExchange::transfer(0, 0);
    assert_eq!(ex.step(status(false, false)), SpiAction::Finish(Ok(())));
    assert!(ex.is_done());
}

#[test]
fn waits_for_the_flags() {
    let mut ex = SpiExchange::write(1);
    assert_eq!(ex.step(status(false, false)), SpiAction::Poll);
    assert_eq!(ex.step(status(true, false)), SpiAction::Send(Outgoing::Word(0)));
    assert_eq!(ex.step(status(true, false)), SpiAction::Poll);
    assert_eq!(ex.step(status(false, true)), SpiAction::Receive(Incoming::Discard));
    assert_eq!(ex.step(status(false, false)), SpiAction::Finish(Ok(())));
}

#[test]
fn overrun_ends_the_exchange() {
    let mut ex = SpiExchange::read(3);
    assert!(matches!(ex.step(status(true, true)), SpiAction::Send(_)));
    let ovr = SpiStatus { ovr: true, modf: true, ..status(true, true) };
    assert_eq!(ex.step(ovr), SpiAction::Finish(Err(ErrorKind::Overrun)));
    assert_eq!(ex.step(status(true, true)), SpiAction::Finish(Err(ErrorKind::Overrun)));
}

#[test]
fn mode_fault_ends_the_exchange() {
    let mut ex = SpiExchange::write(3);
    assert!(matches!(ex.step(status(true, true)), SpiAction::Send(_)));
    let modf = SpiStatus { modf: true, ..status(true, true) };
    assert_eq!(ex.step(modf), SpiAction::Finish(Err(ErrorKind::ModeFault)));
}

#[test]
fn flush_waits_while_busy() {
    assert_eq!(flush_step(SpiStatus { bsy: true, ..status(true, false) }), SpiAction::Poll);
    assert_eq!(flush_step(status(true, false)), SpiAction::Finish(Ok(())));
}

#[test]
fn mode_and_baud_rate() {
    let mode = Mode { polarity: Polarity::IdleHigh, phase: Phase::CaptureOnSecondTransition };
    let c = spi_config(mode, Hertz(16_000_000), Hertz(400_000));
    assert_eq!(c, SpiConfig { cpol: true, cpha: true, baud_rate: 4 });
    let mode0 = Mode { polarity: Polarity::IdleLow, phase: Phase::CaptureOnFirstTransition };
    let fast = spi_config(mode0, Hertz(16_000_000), Hertz(16_000_000));
    assert_eq!(fast, SpiConfig { cpol: false, cpha: false, baud_rate: 0 });
    assert_eq!(spi_config(mode0, Hertz(16_000_000), Hertz(3_000_000)).baud_rate, 1);
    assert_eq!(spi_config(mode0, Hertz(16_000_000), Hertz(1_500_000)).baud_rate, 2);
    assert_eq!(spi_config(mode0, Hertz(170_000_000), Hertz(1_000_000)).baud_rate, 6);
    assert_eq!(spi_config(mode0, Hertz(170_000_000), Hertz(100_000)).baud_rate, 7);
}
