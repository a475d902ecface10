//! Register values that bring up the ITM and the SWO trace output of the
//! STM32H743 (Cortex-M7 core, trace funnel and SWO unit in the D3 domain).

use vstd::prelude::*;

verus! {

/// Key that unlocks a CoreSight component's lock access register.
pub const CORESIGHT_UNLOCK_KEY: u32 = 0xC5AC_CE55;

/// Debug exception and monitor control register (DEMCR) of the core.
pub const DEMCR_ADDR: u32 = 0xE000_EDFC;

/// DEMCR bit TRCENA: enables the DWT and ITM units.
pub const DEMCR_TRCENA: u32 = 0x0100_0000;

/// Control register of the microcontroller debug unit (DBGMCU_CR).
pub const DBGMCU_CR_ADDR: u32 = 0x5C00_1004;

/// DBGMCU_CR bit DBGSLEEP_D1: debug stays on while the D1 domain sleeps.
pub const DBGMCU_CR_DBGSLEEP_D1: u32 = 0x0000_0001;

/// DBGMCU_CR bit TRACECLKEN: the trace port clock runs.
pub const DBGMCU_CR_TRACECLKEN: u32 = 0x0010_0000;

/// DBGMCU_CR bit D1DBGCKEN: the D1 domain debug clock runs.
pub const DBGMCU_CR_D1DBGCKEN: u32 = 0x0020_0000;

/// DBGMCU_CR bit D3DBGCKEN: the D3 domain debug clock runs.
pub const DBGMCU_CR_D3DBGCKEN: u32 = 0x0040_0000;

/// SWO lock access register.
pub const SWO_LAR_ADDR: u32 = 0x5c00_3fb0;

/// SWO trace funnel lock access register.
pub const SWTF_LAR_ADDR: u32 = 0x5c00_4fb0;

/// SWO current output divisor register (prescaler of the SWO clock).
pub const SWO_CODR_ADDR: u32 = 0x5c00_3010;

/// SWO selected pin protocol register.
pub const SWO_SPPR_ADDR: u32 = 0x5c00_30f0;

/// SWO trace funnel control register.
pub const SWTF_CTRL_ADDR: u32 = 0x5c00_4000;

/// ITM trace enable register 0 (stimulus ports 0 to 31).
pub const ITM_TER0_ADDR: u32 = 0xE000_0E00;

/// ITM trace control register.
pub const ITM_TCR_ADDR: u32 = 0xE000_0E80;

/// ITM lock access register.
pub const ITM_LAR_ADDR: u32 = 0xE000_0FB0;

/// Pin protocol: Manchester encoding.
pub const SPPR_MANCHESTER: u32 = 1;

/// Pin protocol: NRZ (UART-like) encoding, the one the examples select.
pub const SPPR_NRZ: u32 = 2;

/// Funnel control bit that enables the input port of the Cortex-M7.
pub const SWTF_ENABLE_CM7: u32 = 1;

/// ITM trace control register: the ITM is enabled.
pub const TCR_ITMENA: u32 = 1;

/// ITM trace control register: the SWO output is enabled.
pub const TCR_SWOENA: u32 = 8;

/// Trace bus ID that the ITM puts on its packets.
pub const TRACE_BUS_ID: u32 = 1;

/// ITM trace enable register 0: the lower 8 stimulus ports (0 to 7) are
/// enabled.
pub const TER0_LOWER_8_PORTS: u32 = 0xFF;

/// Trace bus ID field of an ITM trace control register value.
pub open spec fn tcr_trace_bus_id(tcr: u32) -> u32 {
    (tcr >> 16u32) & 0x7fu32
}

/// Whether an ITM trace control register value enables the ITM.
pub open spec fn tcr_itm_enabled(tcr: u32) -> bool {
    tcr & 1u32 == 1u32
}

/// Whether an ITM trace control register value enables the SWO output.
pub open spec fn tcr_swo_enabled(tcr: u32) -> bool {
    tcr & 8u32 == 8u32
}

/// Whether an ITM trace enable register 0 value enables stimulus port
/// `port`.
pub open spec fn ter0_port_enabled(ter: u32, port: u32) -> bool {
    (ter >> port) & 1u32 == 1u32
}

/// The SWO prescaler that turns the core clock into the SWO bit rate:
/// the divisor register holds the division factor minus one.
pub open spec fn spec_swo_prescaler(core_clock_hz: u32, swo_frequency: u32) -> int {
    core_clock_hz as int / swo_frequency as int - 1
}

/// Value for the SWO current output divisor register: `core_clock_hz /
/// swo_frequency - 1`. The SWO clock that results, `core_clock_hz /
/// (prescaler + 1)`, is the slowest one of that form that is not below the
/// requested frequency.
pub fn swo_prescaler(core_clock_hz: u32, swo_frequency: u32) -> (prescaler: u32)
    requires
        0 < swo_frequency,
        swo_frequency <= core_clock_hz,
    ensures
        prescaler == spec_swo_prescaler(core_clock_hz, swo_frequency),
        (prescaler + 1) * swo_frequency <= core_clock_hz,
        core_clock_hz < (prescaler + 2) * swo_frequency,
{
    let quotient: u32 = core_clock_hz / swo_frequency;
    assert(quotient >= 1) by (nonlinear_arith)
        requires
            quotient == core_clock_hz / swo_frequency,
            0 < swo_frequency <= core_clock_hz,
    ;
    assert(quotient * swo_frequency <= core_clock_hz < (quotient + 1) * swo_frequency)
        by (nonlinear_arith)
        requires
            quotient == core_clock_hz / swo_frequency,
            0 < swo_frequency,
    ;
    quotient - 1
}

/// Bits that the trace setup sets in DBGMCU_CR: debug in D1 sleep, the
/// trace clock and the D1 and D3 debug clocks.
pub fn dbgmcu_trace_bits() -> (mask: u32)
    ensures
        mask == DBGMCU_CR_DBGSLEEP_D1 | DBGMCU_CR_TRACECLKEN | DBGMCU_CR_D1DBGCKEN
            | DBGMCU_CR_D3DBGCKEN,
        mask == 0x0070_0001u32,
{
    let mask = DBGMCU_CR_DBGSLEEP_D1 | DBGMCU_CR_TRACECLKEN | DBGMCU_CR_D1DBGCKEN
        | DBGMCU_CR_D3DBGCKEN;
    assert(mask == 0x0070_0001u32) by (bit_vector)
        requires
            mask == 0x0000_0001u32 | 0x0010_0000u32 | 0x0020_0000u32 | 0x0040_0000u32,
    ;
    mask
}

/// Value of the ITM trace control register: trace bus ID 1, SWO output
/// enabled, ITM enabled.
pub fn itm_trace_control() -> (tcr: u32)
    ensures
        tcr == (TRACE_BUS_ID << 16u32) | TCR_SWOENA | TCR_ITMENA,
        tcr == 0x0001_0009u32,
        tcr_trace_bus_id(tcr) == TRACE_BUS_ID,
        tcr_itm_enabled(tcr),
        tcr_swo_enabled(tcr),
{
    let tcr: u32 = (TRACE_BUS_ID << 16u32) | TCR_SWOENA | TCR_ITMENA;
    assert(tcr == 0x0001_0009u32) by (bit_vector)
        requires
            tcr == (1u32 << 16u32) | 8u32 | 1u32,
    ;
    assert((tcr >> 16u32) & 0x7fu32 == 1u32 && tcr & 1u32 == 1u32 && tcr & 8u32 == 8u32)
        by (bit_vector)
        requires
            tcr == 0x0001_0009u32,
    ;
    tcr
}

/// The lower 8 stimulus ports, and no other, are enabled by the trace
/// enable value.
pub proof fn lemma_ter0_lower_8_ports(port: u32)
    requires
        port < 32,
    ensures
        ter0_port_enabled(TER0_LOWER_8_PORTS, port) <==> port < 8,
{
    assert(((0xFFu32 >> port) & 1u32 == 1u32) <==> port < 8) by (bit_vector)
        requires
            port < 32,
    ;
}

/// One step of the trace setup: a store of a value, or a read-modify-write
/// that sets bits and keeps the others.
#[derive(Clone, Copy, Debug, PartialEq, Eq, Structural)]
pub enum TraceWrite {
    Store { addr: u32, value: u32 },
    SetBits { addr: u32, mask: u32 },
}

impl TraceWrite {
    /// Register that the step writes.
    pub open spec fn spec_addr(self) -> u32 {
        match self {
            TraceWrite::Store { addr, .. } => addr,
            TraceWrite::SetBits { addr, .. } => addr,
        }
    }

    /// Value that the register holds after the step, when it held `old`.
    pub open spec fn spec_result(self, old: u32) -> u32 {
        match self {
            TraceWrite::Store { value, .. } => value,
            TraceWrite::SetBits { mask, .. } => old | mask,
        }
    }

    /// Register that the step writes.
    pub fn addr(&self) -> (addr: u32)
        ensures
            addr == self.spec_addr(),
            (match *self {
                TraceWrite::Store { addr: a, .. } => addr == a,
                TraceWrite::SetBits { addr: a, .. } => addr == a,
            }),
    {
        match self {
            TraceWrite::Store { addr, .. } => *addr,
            TraceWrite::SetBits { addr, .. } => *addr,
        }
    }

    /// Value that the register holds after the step, when it held `old`.
    pub fn result(&self, old: u32) -> (new: u32)
        ensures
            new == self.spec_result(old),
            (match *self {
                TraceWrite::Store { value, .. } => new == value,
                TraceWrite::SetBits { mask, .. } => new & mask == mask && new & !mask == old
                    & !mask,
            }),
    {
        proof {
            lemma_trace_write_effect(*self, old);
        }
        match self {
            TraceWrite::Store { value, .. } => *value,
            TraceWrite::SetBits { mask, .. } => old | *mask,
        }
    }
}

/// What a step does to its register: a store leaves exactly its value; a
/// read-modify-write leaves every bit of its mask set and every other bit
/// as it was.
pub proof fn lemma_trace_write_effect(write: TraceWrite, old: u32)
    ensures
        match write {
            TraceWrite::Store { value, .. } => write.spec_result(old) == value,
            TraceWrite::SetBits { mask, .. } => write.spec_result(old) & mask == mask
                && write.spec_result(old) & !mask == old & !mask,
        },
{
    match write {
        TraceWrite::Store { .. } => {},
        TraceWrite::SetBits { mask, .. } => {
            let new = write.spec_result(old);
            assert(new & mask == mask && new & !mask == old & !mask) by (bit_vector)
                requires
                    new == old | mask,
            ;
        },
    }
}

/// A read-modify-write step sets the bits of its mask and keeps every
/// other bit of the register.
pub proof fn lemma_set_bits_keeps_others(old: u32, mask: u32)
    ensures
        (old | mask) & mask == mask,
        (old | mask) & !mask == old & !mask,
{
    assert((old | mask) & mask == mask && (old | mask) & !mask == old & !mask) by (bit_vector);
}

/// First part of the trace setup, which needs no clock.
pub open spec fn spec_trace_enable_writes() -> Seq<TraceWrite> {
    seq![
        TraceWrite::SetBits { addr: DEMCR_ADDR, mask: DEMCR_TRCENA },
        TraceWrite::SetBits { addr: DBGMCU_CR_ADDR, mask: 0x0070_0001u32 },
        TraceWrite::Store { addr: SWO_LAR_ADDR, value: CORESIGHT_UNLOCK_KEY },
        TraceWrite::Store { addr: SWTF_LAR_ADDR, value: CORESIGHT_UNLOCK_KEY },
    ]
}

/// Second part of the trace setup, for a core clock of `core_clock_hz` and
/// an SWO bit rate of `swo_frequency`.
pub open spec fn spec_swo_itm_writes(core_clock_hz: u32, swo_frequency: u32) -> Seq<TraceWrite> {
    seq![
        TraceWrite::Store {
            addr: SWO_CODR_ADDR,
            value: spec_swo_prescaler(core_clock_hz, swo_frequency) as u32,
        },
        TraceWrite::Store { addr: SWO_SPPR_ADDR, value: SPPR_NRZ },
        TraceWrite::SetBits { addr: SWTF_CTRL_ADDR, mask: SWTF_ENABLE_CM7 },
        TraceWrite::Store { addr: ITM_LAR_ADDR, value: CORESIGHT_UNLOCK_KEY },
        TraceWrite::Store { addr: ITM_TER0_ADDR, value: TER0_LOWER_8_PORTS },
        TraceWrite::Store { addr: ITM_TCR_ADDR, value: 0x0001_0009u32 },
    ]
}

/// The whole trace setup: the first part, then the second.
pub open spec fn spec_trace_setup(core_clock_hz: u32, swo_frequency: u32) -> Seq<TraceWrite> {
    spec_trace_enable_writes() + spec_swo_itm_writes(core_clock_hz, swo_frequency)
}

/// Trace block that a register belongs to: 1 for the SWO unit, 2 for the
/// trace funnel, 3 for the ITM, 0 for anything else (the core's DEMCR and
/// the DBGMCU).
pub open spec fn trace_block(addr: u32) -> int {
    if 0x5c00_3000 <= addr <= 0x5c00_3fff {
        1
    } else if 0x5c00_4000 <= addr <= 0x5c00_4fff {
        2
    } else if 0xE000_0000 <= addr <= 0xE000_0fff {
        3
    } else {
        0
    }
}

/// Whether a step switches on the debug and trace clocks (DEMCR, DBGMCU).
pub open spec fn is_debug_enable(write: TraceWrite) -> bool {
    write.spec_addr() == DEMCR_ADDR || write.spec_addr() == DBGMCU_CR_ADDR
}

/// Whether a step writes a lock access register.
pub open spec fn is_unlock(write: TraceWrite) -> bool {
    write.spec_addr() == SWO_LAR_ADDR || write.spec_addr() == SWTF_LAR_ADDR
        || write.spec_addr() == ITM_LAR_ADDR
}

/// The order of the trace setup: the DEMCR and DBGMCU writes come before
/// every access to the SWO, the funnel and the ITM; each block is unlocked
/// (with the CoreSight key) before any other write to it; and the SWO,
/// the funnel and the ITM are each unlocked.
pub proof fn lemma_trace_setup_order(core_clock_hz: u32, swo_frequency: u32)
    requires
        0 < swo_frequency,
        swo_frequency <= core_clock_hz,
    ensures
        ({
            let s = spec_trace_setup(core_clock_hz, swo_frequency);
            &&& s.len() == 10
            &&& forall|i: int, j: int|
                0 <= i < s.len() && 0 <= j < s.len() && is_debug_enable(#[trigger] s[i])
                    && trace_block((#[trigger] s[j]).spec_addr()) != 0 ==> i < j
            &&& forall|i: int, j: int|
                0 <= i < s.len() && 0 <= j < s.len() && is_unlock(#[trigger] s[i]) && !is_unlock(
                    #[trigger] s[j],
                ) && trace_block(s[j].spec_addr()) == trace_block(s[i].spec_addr()) ==> i < j
            &&& forall|i: int|
                0 <= i < s.len() && is_unlock(#[trigger] s[i]) ==> s[i]
                    == TraceWrite::Store { addr: s[i].spec_addr(), value: CORESIGHT_UNLOCK_KEY }
            &&& exists|i: int|
                0 <= i < s.len() && is_unlock(#[trigger] s[i]) && trace_block(s[i].spec_addr()) == 1
            &&& exists|i: int|
                0 <= i < s.len() && is_unlock(#[trigger] s[i]) && trace_block(s[i].spec_addr()) == 2
            &&& exists|i: int|
                0 <= i < s.len() && is_unlock(#[trigger] s[i]) && trace_block(s[i].spec_addr()) == 3
        }),
{
    let s = spec_trace_setup(core_clock_hz, swo_frequency);
    let a = spec_trace_enable_writes();
    let b = spec_swo_itm_writes(core_clock_hz, swo_frequency);
    assert(s.len() == 10);
    assert(s[0] == a[0] && s[1] == a[1] && s[2] == a[2] && s[3] == a[3]);
    assert(s[4] == b[0] && s[5] == b[1] && s[6] == b[2] && s[7] == b[3] && s[8] == b[4] && s[9]
        == b[5]);
    assert(is_unlock(s[2]) && trace_block(s[2].spec_addr()) == 1);
    assert(is_unlock(s[3]) && trace_block(s[3].spec_addr()) == 2);
    assert(is_unlock(s[7]) && trace_block(s[7].spec_addr()) == 3);
}

/// Running the setup again leaves the registers as the first run left
/// them: a store writes the same value, and setting bits that are already
/// set changes nothing.
pub proof fn lemma_trace_write_idempotent(write: TraceWrite, old: u32)
    ensures
        write.spec_result(write.spec_result(old)) == write.spec_result(old),
{
    match write {
        TraceWrite::Store { .. } => {},
        TraceWrite::SetBits { mask, .. } => {
            assert((old | mask) | mask == old | mask) by (bit_vector);
        },
    }
}

/// What the second part of the setup writes, said by the registers'
/// meanings: six writes; the SWO divisor register gets a prescaler `p`
/// whose SWO clock `core_clock_hz / (p + 1)` is the slowest one not below
/// `swo_frequency`; the SWO protocol is NRZ (2); the funnel's CM7 input bit
/// is set; the ITM is unlocked with the CoreSight key; stimulus ports 0 to
/// 7 and no others are enabled; the trace control has bus ID 1 and the
/// ITM and SWO output on.
pub open spec fn swo_itm_writes_meaning(writes: Seq<TraceWrite>, core_clock_hz: u32, swo_frequency: u32) -> bool {
    &&& writes.len() == 6
    &&& writes[0] matches TraceWrite::Store { addr, value } && addr == 0x5c00_3010u32
        && (value + 1) * swo_frequency <= core_clock_hz
        && core_clock_hz < (value + 2) * swo_frequency
    &&& writes[1] == TraceWrite::Store { addr: 0x5c00_30f0u32, value: 2u32 }
    &&& writes[2] == TraceWrite::SetBits { addr: 0x5c00_4000u32, mask: 1u32 }
    &&& writes[3] == TraceWrite::Store { addr: 0xE000_0FB0u32, value: 0xC5AC_CE55u32 }
    &&& writes[4] matches TraceWrite::Store { addr, value } && addr == 0xE000_0E00u32
        && value & 0xFFu32 == 0xFFu32 && value >> 8u32 == 0u32
    &&& writes[5] matches TraceWrite::Store { addr, value } && addr == 0xE000_0E80u32
        && (value >> 16u32) & 0x7fu32 == 1u32 && value & 1u32 == 1u32 && value & 8u32 == 8u32
}

/// The second part of the setup means what `swo_itm_writes_meaning` says.
pub proof fn lemma_swo_itm_writes_meaning(core_clock_hz: u32, swo_frequency: u32)
    requires
        0 < swo_frequency,
        swo_frequency <= core_clock_hz,
    ensures
        swo_itm_writes_meaning(
            spec_swo_itm_writes(core_clock_hz, swo_frequency),
            core_clock_hz,
            swo_frequency,
        ),
{
    let q = core_clock_hz as int / swo_frequency as int;
    assert(1 <= q && q * swo_frequency <= core_clock_hz < (q + 1) * swo_frequency)
        by (nonlinear_arith)
        requires
            q == core_clock_hz as int / swo_frequency as int,
            0 < swo_frequency <= core_clock_hz,
    ;
    assert(q <= core_clock_hz) by (nonlinear_arith)
        requires
            q == core_clock_hz as int / swo_frequency as int,
            0 < swo_frequency,
            0 <= core_clock_hz,
    ;
    let p = spec_swo_prescaler(core_clock_hz, swo_frequency);
    assert(p == q - 1);
    assert((p as u32) as int == p);
    assert(0xFFu32 & 0xFFu32 == 0xFFu32 && 0xFFu32 >> 8u32 == 0u32) by (bit_vector);
    assert((0x0001_0009u32 >> 16u32) & 0x7fu32 == 1u32 && 0x0001_0009u32 & 1u32 == 1u32
        && 0x0001_0009u32 & 8u32 == 8u32) by (bit_vector);
}

/// The first part of the setup, by the registers' addresses and bits:
/// DEMCR gets TRCENA (bit 24) set, DBGMCU_CR gets bits 0, 20, 21 and 22
/// set, then the SWO and the funnel are unlocked with the CoreSight key.
pub proof fn lemma_trace_enable_writes_meaning()
    ensures
        spec_trace_enable_writes() == seq![
            TraceWrite::SetBits { addr: 0xE000_EDFCu32, mask: 0x0100_0000u32 },
            TraceWrite::SetBits { addr: 0x5C00_1004u32, mask: 0x0070_0001u32 },
            TraceWrite::Store { addr: 0x5c00_3fb0u32, value: 0xC5AC_CE55u32 },
            TraceWrite::Store { addr: 0x5c00_4fb0u32, value: 0xC5AC_CE55u32 },
        ],
        0x0100_0000u32 == 1u32 << 24u32,
        0x0070_0001u32 == (1u32 | (1u32 << 20u32) | (1u32 << 21u32) | (1u32 << 22u32)),
{
    assert(0x0100_0000u32 == 1u32 << 24u32) by (bit_vector);
    assert(0x0070_0001u32 == (1u32 | (1u32 << 20u32) | (1u32 << 21u32) | (1u32 << 22u32)))
        by (bit_vector);
}

/// First part of the trace setup, which needs no clock: switch on the
/// DWT/ITM units (DEMCR.TRCENA), clock the debug blocks (DBGMCU_CR), then
/// unlock the SWO and the trace funnel.
pub fn trace_enable_writes() -> (writes: Vec<TraceWrite>)
    ensures
        writes@ == spec_trace_enable_writes(),
        writes@ == seq![
            TraceWrite::SetBits { addr: 0xE000_EDFCu32, mask: 0x0100_0000u32 },
            TraceWrite::SetBits { addr: 0x5C00_1004u32, mask: 0x0070_0001u32 },
            TraceWrite::Store { addr: 0x5c00_3fb0u32, value: 0xC5AC_CE55u32 },
            TraceWrite::Store { addr: 0x5c00_4fb0u32, value: 0xC5AC_CE55u32 },
        ],
{
    proof {
        lemma_trace_enable_writes_meaning();
    }
    let dbgmcu = dbgmcu_trace_bits();
    vec![
        TraceWrite::SetBits { addr: DEMCR_ADDR, mask: DEMCR_TRCENA },
        TraceWrite::SetBits { addr: DBGMCU_CR_ADDR, mask: dbgmcu },
        TraceWrite::Store { addr: SWO_LAR_ADDR, value: CORESIGHT_UNLOCK_KEY },
        TraceWrite::Store { addr: SWTF_LAR_ADDR, value: CORESIGHT_UNLOCK_KEY },
    ]
}

/// Second part of the trace setup, for a core clock of `core_clock_hz`
/// and an SWO bit rate of `swo_frequency`: set the SWO prescaler and the
/// NRZ protocol, enable the Cortex-M7 input of the funnel, unlock the ITM,
/// enable the lower 8 stimulus ports and switch the ITM and its SWO output
/// on. It runs after `trace_enable_writes`; the two together are
/// `spec_trace_setup`.
pub fn swo_itm_writes(core_clock_hz: u32, swo_frequency: u32) -> (writes: Vec<TraceWrite>)
    requires
        0 < swo_frequency,
        swo_frequency <= core_clock_hz,
    ensures
        writes@ == spec_swo_itm_writes(core_clock_hz, swo_frequency),
        0 <= spec_swo_prescaler(core_clock_hz, swo_frequency) <= u32::MAX,
        swo_itm_writes_meaning(writes@, core_clock_hz, swo_frequency),
{
    proof {
        lemma_swo_itm_writes_meaning(core_clock_hz, swo_frequency);
    }
    let prescaler = swo_prescaler(core_clock_hz, swo_frequency);
    let tcr = itm_trace_control();
    vec![
        TraceWrite::Store { addr: SWO_CODR_ADDR, value: prescaler },
        TraceWrite::Store { addr: SWO_SPPR_ADDR, value: SPPR_NRZ },
        TraceWrite::SetBits { addr: SWTF_CTRL_ADDR, mask: SWTF_ENABLE_CM7 },
        TraceWrite::Store { addr: ITM_LAR_ADDR, value: CORESIGHT_UNLOCK_KEY },
        TraceWrite::Store { addr: ITM_TER0_ADDR, value: TER0_LOWER_8_PORTS },
        TraceWrite::Store { addr: ITM_TCR_ADDR, value: tcr },
    ]
}

} // verus!
