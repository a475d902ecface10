use nucleo_h743zi::leds::{Blinker, PinLevel, SpiRawDemo, SpiRawOutput};

#[test]
fn blinker_alternates_starting_high() {
    let mut b = Blinker::new();
    assert_eq!(b.step(), PinLevel::High);
    assert_eq!(b.step(), PinLevel::Low);
    assert_eq!(b.step(), PinLevel::High);
    assert_eq!(b.step(), PinLevel::Low);
    assert_eq!(b.next, PinLevel::High);
}

#[test]
fn opposite_levels() {
    assert_eq!(PinLevel::Low.opposite(), PinLevel::High);
    assert_eq!(PinLevel::High.opposite(), PinLevel::Low);
    assert_eq!(PinLevel::High.opposite().opposite(), PinLevel::High);
}

#[test]
fn spi_raw_cycles() {
    let mut d = SpiRawDemo::new();
    assert_eq!(d.output(), SpiRawOutput { ld2: PinLevel::Low, ld3: PinLevel::High, tx_word: 0 });
    d.advance();
    assert_eq!(d.output(), SpiRawOutput { ld2: PinLevel::High, ld3: PinLevel::Low, tx_word: 1 });
    d.advance();
    assert_eq!(d.output(), SpiRawOutput { ld2: PinLevel::Low, ld3: PinLevel::High, tx_word: 2 });
    d.advance();
    assert_eq!(d.count, 3);
}

#[test]
fn spi_raw_last_cycles_before_overflow() {
    let mut d = SpiRawDemo { count: u16::MAX - 1 };
    let out = d.output();
    assert_eq!(out.tx_word, 65534);
    assert_eq!(out.ld2, PinLevel::Low);
    assert_eq!(out.ld3, PinLevel::High);
    d.advance();
    assert_eq!(d.count, u16::MAX);
    assert_eq!(d.output(), SpiRawOutput { ld2: PinLevel::High, ld3: PinLevel::Low, tx_word: 65535 });
}

#[test]
fn spi_raw_leds_always_opposite() {
    let mut d = SpiRawDemo::new();
    let mut previous = d.output();
    for _ in 0..100 {
        d.advance();
        let out = d.output();
        assert_ne!(out.ld2, out.ld3);
        assert_eq!(out.ld2, previous.ld3);
        assert_eq!(out.tx_word, previous.tx_word + 1);
        previous = out;
    }
}
