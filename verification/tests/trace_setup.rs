use nucleo_h743zi::trace::{
    dbgmcu_trace_bits, itm_trace_control, swo_itm_writes, swo_prescaler, trace_enable_writes,
    TraceWrite, CORESIGHT_UNLOCK_KEY, SPPR_NRZ, TER0_LOWER_8_PORTS,
};

#[test]
fn prescaler_for_the_itm_example() {
    // 400 MHz core clock, 2 MHz SWO as in the ITM example.
    assert_eq!(swo_prescaler(400_000_000, 2_000_000), 199);
}

#[test]
fn prescaler_rounds_the_division_down() {
    let p = swo_prescaler(100, 30);
    assert_eq!(p, 2);
    assert!((p as u64 + 1) * 30 <= 100);
    assert!(100 < (p as u64 + 2) * 30);
}

#[test]
fn prescaler_at_equal_frequencies_is_zero() {
    assert_eq!(swo_prescaler(8_000_000, 8_000_000), 0);
    assert_eq!(swo_prescaler(u32::MAX, 1), u32::MAX - 1);
}

#[test]
fn set_bits_keeps_other_bits() {
    let funnel = TraceWrite::SetBits { addr: 0x5c00_4000, mask: 1 };
    assert_eq!(funnel.result(0), 1);
    assert_eq!(funnel.result(1), 1);
    assert_eq!(funnel.result(0x300), 0x301);
    assert_eq!(funnel.result(0xffff_fffe), 0xffff_ffff);
    assert_eq!(funnel.addr(), 0x5c00_4000);
    let store = TraceWrite::Store { addr: 0x5c00_30f0, value: 2 };
    assert_eq!(store.result(0xdead_beef), 2);
    assert_eq!(store.addr(), 0x5c00_30f0);
}

#[test]
fn trace_control_value() {
    let tcr = itm_trace_control();
    assert_eq!(tcr, 0x0001_0009);
    assert_eq!((tcr >> 16) & 0x7f, 1);
    assert_eq!(tcr & 8, 8);
    assert_eq!(tcr & 1, 1);
}

#[test]
fn trace_enable_value_enables_the_lower_8_ports() {
    assert_eq!(TER0_LOWER_8_PORTS & 0xFF, 0xFF);
    for port in 0..32u32 {
        assert_eq!((TER0_LOWER_8_PORTS >> port) & 1 == 1, port < 8);
    }
}

#[test]
fn dbgmcu_bits() {
    assert_eq!(dbgmcu_trace_bits(), 0x0070_0001);
}

#[test]
fn first_part_of_the_setup() {
    assert_eq!(
        trace_enable_writes(),
        vec![
            TraceWrite::SetBits { addr: 0xE000_EDFC, mask: 1 << 24 },
            TraceWrite::SetBits { addr: 0x5C00_1004, mask: 0x0070_0001 },
            TraceWrite::Store { addr: 0x5c00_3fb0, value: 0xC5AC_CE55 },
            TraceWrite::Store { addr: 0x5c00_4fb0, value: CORESIGHT_UNLOCK_KEY },
        ]
    );
}

#[test]
fn second_part_for_the_itm_example() {
    assert_eq!(
        swo_itm_writes(400_000_000, 2_000_000),
        vec![
            TraceWrite::Store { addr: 0x5c00_3010, value: 199 },
            TraceWrite::Store { addr: 0x5c00_30f0, value: SPPR_NRZ },
            TraceWrite::SetBits { addr: 0x5c00_4000, mask: 1 },
            TraceWrite::Store { addr: 0xE000_0FB0, value: 0xC5AC_CE55 },
            TraceWrite::Store { addr: 0xE000_0E00, value: 0xFF },
            TraceWrite::Store { addr: 0xE000_0E80, value: 0x0001_0009 },
        ]
    );
}

#[test]
fn setup_order_and_rerun() {
    let mut all = trace_enable_writes();
    all.extend(swo_itm_writes(400_000_000, 2_000_000));
    assert_eq!(all.len(), 10);
    // Debug clocks first, then each block unlocked before it is configured.
    let addrs: Vec<u32> = all.iter().map(|w| w.addr()).collect();
    assert_eq!(&addrs[..2], &[0xE000_EDFC, 0x5C00_1004]);
    let pos = |a: u32| addrs.iter().position(|x| *x == a).unwrap();
    assert!(pos(0x5c00_3fb0) < pos(0x5c00_3010) && pos(0x5c00_3fb0) < pos(0x5c00_30f0));
    assert!(pos(0x5c00_4fb0) < pos(0x5c00_4000));
    assert!(pos(0xE000_0FB0) < pos(0xE000_0E00) && pos(0xE000_0FB0) < pos(0xE000_0E80));
    // Running a step twice leaves what running it once left.
    for w in &all {
        for old in [0u32, 1, 0x0070_0000, 0xffff_ffff] {
            assert_eq!(w.result(w.result(old)), w.result(old));
        }
    }
}
