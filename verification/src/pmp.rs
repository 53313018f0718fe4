//! The application's physical-memory-protection plan: which entries it
//! fills, with what bounds, permissions and memory attributes, and how each
//! entry's fields are placed into the configuration registers.
use vstd::prelude::*;

verus! {

/// Top-of-range, locked.
pub const PMP_TOR_LOCKED: u8 = 0x88;
/// Read permission.
pub const PMP_R: u8 = 0x01;
/// Write permission.
pub const PMP_W: u8 = 0x02;
/// Execute permission.
pub const PMP_X: u8 = 0x04;
/// Read and execute, locked top-of-range.
pub const ROX: u8 = 0x8d;
/// Read and write, locked top-of-range.
pub const RW: u8 = 0x8b;
/// Read, write and execute, locked top-of-range.
pub const RWX: u8 = 0x8f;

/// One entry to program: its index, the end of its range, permissions and
/// memory attribute.
#[derive(Clone, Copy, Debug, PartialEq, Eq, Structural)]
pub struct PmpEntry {
    pub index: usize,
    pub end: usize,
    pub config: u8,
    pub attr: u8,
}

/// The entries the application owns (flashboot keeps 2 to 4), in programming
/// order, for the linker symbols of the SRAM text and radar regions. The SRAM
/// text end is rounded down to 32 bytes.
pub open spec fn spec_pmp_plan(sram_text_begin: usize, sram_text_end: usize, radar_start: usize, radar_length: usize) -> Seq<PmpEntry> {
    seq![
        PmpEntry { index: 0, end: 0x0018_0000, config: ROX, attr: 3 },
        PmpEntry { index: 1, end: 0x001c_8000, config: RW, attr: 3 },
        PmpEntry { index: 5, end: sram_text_begin, config: RWX, attr: 7 },
        PmpEntry { index: 6, end: sram_text_end & !0x1fusize, config: ROX, attr: 7 },
        PmpEntry { index: 7, end: radar_start, config: RWX, attr: 7 },
        PmpEntry { index: 8, end: (radar_start + radar_length) as usize, config: RWX, attr: 3 },
        PmpEntry { index: 9, end: 0x00a9_8800, config: RWX, attr: 7 },
        PmpEntry { index: 10, end: 0x00c0_1000, config: ROX, attr: 3 },
        PmpEntry { index: 11, end: 0x4a00_1000, config: RWX, attr: 0 },
    ]
}

/// [`spec_pmp_plan`].
pub fn pmp_plan(sram_text_begin: usize, sram_text_end: usize, radar_start: usize, radar_length: usize) -> (plan: Vec<PmpEntry>)
    requires
        radar_start + radar_length <= usize::MAX,
    ensures
        plan@ == spec_pmp_plan(sram_text_begin, sram_text_end, radar_start, radar_length),
{
    let mut plan: Vec<PmpEntry> = Vec::new();
    plan.push(PmpEntry { index: 0, end: 0x0018_0000, config: ROX, attr: 3 });
    plan.push(PmpEntry { index: 1, end: 0x001c_8000, config: RW, attr: 3 });
    plan.push(PmpEntry { index: 5, end: sram_text_begin, config: RWX, attr: 7 });
    plan.push(PmpEntry { index: 6, end: sram_text_end & !0x1fusize, config: ROX, attr: 7 });
    plan.push(PmpEntry { index: 7, end: radar_start, config: RWX, attr: 7 });
    plan.push(PmpEntry { index: 8, end: radar_start + radar_length, config: RWX, attr: 3 });
    plan.push(PmpEntry { index: 9, end: 0x00a9_8800, config: RWX, attr: 7 });
    plan.push(PmpEntry { index: 10, end: 0x00c0_1000, config: ROX, attr: 3 });
    plan.push(PmpEntry { index: 11, end: 0x4a00_1000, config: RWX, attr: 0 });
    assert(plan@ =~= spec_pmp_plan(sram_text_begin, sram_text_end, radar_start, radar_length));
    plan
}

/// The address register value of a top-of-range entry ending at `end`.
pub fn pmpaddr_value(end: usize) -> (v: usize)
    ensures
        v == end >> 2usize,
{
    end >> 2usize
}

/// The two configuration bytes written in turn: the permissions first, then
/// the full byte with the range mode and lock.
pub fn tor_config_steps(config: u8) -> (steps: (u8, u8))
    ensures
        steps == (config & 0x07, config),
{
    (config & 0x07, config)
}

/// Which configuration register (0 to 2) holds entry `index`'s byte; `None`
/// for an index past 11.
pub fn pmpcfg_register(index: usize) -> (r: Option<usize>)
    ensures
        index < 12 ==> r == Some(index / 4),
        index >= 12 ==> r is None,
{
    if index < 12 {
        Some(index / 4)
    } else {
        None
    }
}

/// A configuration register with entry `index`'s byte replaced by `config`.
pub fn pmpcfg_with(value: u32, index: usize, config: u8) -> (v: u32)
    ensures
        v == (value & !(0xffu32 << (((index % 4) * 8) as u32))) | ((config as u32) << (((index % 4) * 8) as u32)),
{
    let shift: u32 = ((index % 4) * 8) as u32;
    (value & !(0xffu32 << shift)) | ((config as u32) << shift)
}

/// Which memory-attribute register (0 for entries 0 to 7, else 1) and nibble
/// position hold entry `index`.
pub fn memattr_position(index: usize) -> (r: (usize, u32))
    requires
        index < 16,
    ensures
        index < 8 ==> r == (0usize, (index * 4) as u32),
        index >= 8 ==> r == (1usize, ((index - 8) * 4) as u32),
{
    if index < 8 {
        (0, (index * 4) as u32)
    } else {
        (1, ((index - 8) * 4) as u32)
    }
}

/// A memory-attribute register with the nibble at `shift` replaced by `attr`.
pub fn memattr_with(value: u32, shift: u32, attr: u8) -> (v: u32)
    requires
        shift < 32,
    ensures
        v == (value & !(0xfu32 << shift)) | ((attr as u32) << shift),
{
    (value & !(0xfu32 << shift)) | ((attr as u32) << shift)
}

/// Writing entry `index`'s byte leaves the other three bytes of its register
/// unchanged, and the entry's byte reads back as written.
pub proof fn lemma_pmpcfg_byte_isolated(value: u32, shift: u32, config: u8, other: u32)
    requires
        shift == 0 || shift == 8 || shift == 16 || shift == 24,
        other == 0 || other == 8 || other == 16 || other == 24,
        other != shift,
    ensures
        ((((value & !(0xffu32 << shift)) | ((config as u32) << shift)) >> shift) & 0xff) == config as u32,
        ((((value & !(0xffu32 << shift)) | ((config as u32) << shift)) >> other) & 0xff) == (value >> other) & 0xff,
{
    assert(((((value & !(0xffu32 << shift)) | ((config as u32) << shift)) >> shift) & 0xff) == config as u32)
        by (bit_vector)
        requires
            shift == 0 || shift == 8 || shift == 16 || shift == 24,
    ;
    assert(((((value & !(0xffu32 << shift)) | ((config as u32) << shift)) >> other) & 0xff) == (value >> other)
        & 0xff) by (bit_vector)
        requires
            shift == 0 || shift == 8 || shift == 16 || shift == 24,
            other == 0 || other == 8 || other == 16 || other == 24,
            other != shift,
    ;
}

/// A locked top-of-range configuration byte with the given permissions.
pub open spec fn tor_config(read: bool, write: bool, execute: bool) -> u8 {
    (0x88u8 | (if read { 0x01u8 } else { 0u8 })) | ((if write { 0x02u8 } else { 0u8 }) | (if execute {
        0x04u8
    } else {
        0u8
    }))
}

/// The application's regions, for any linker symbols: nine locked
/// top-of-range entries in increasing index order. The mask ROM (up to
/// 0x0018_0000) and the ROM data window ending at 0x00c0_1000 are read and
/// execute only; the ROM data ending at 0x001c_8000 is read and write only;
/// the SRAM text is executable up to its start and read and execute after;
/// the radar buffer, the shared SRAM up to 0x00a9_8800 and the peripheral
/// window up to 0x4a00_1000 are read, write and execute; the attributes
/// are 3, 3, 7, 7, 7, 3, 7, 3, 0 in that order.
pub proof fn lemma_pmp_regions(sram_text_begin: usize, sram_text_end: usize, radar_start: usize, radar_length: usize)
    requires
        radar_start + radar_length <= usize::MAX,
    ensures
        ({
            let plan = spec_pmp_plan(sram_text_begin, sram_text_end, radar_start, radar_length);
            &&& plan.len() == 9
            &&& plan[0] == PmpEntry { index: 0, end: 0x0018_0000, config: tor_config(true, false, true), attr: 3 }
            &&& plan[1] == PmpEntry { index: 1, end: 0x001c_8000, config: tor_config(true, true, false), attr: 3 }
            &&& plan[2] == PmpEntry { index: 5, end: sram_text_begin, config: tor_config(true, true, true), attr: 7 }
            &&& plan[3].index == 6 && plan[3].config == tor_config(true, false, true) && plan[3].attr == 7
            &&& plan[3].end <= sram_text_end && sram_text_end - plan[3].end < 32 && plan[3].end % 32 == 0
            &&& plan[4] == PmpEntry { index: 7, end: radar_start, config: tor_config(true, true, true), attr: 7 }
            &&& plan[5] == PmpEntry {
                index: 8,
                end: (radar_start + radar_length) as usize,
                config: tor_config(true, true, true),
                attr: 3,
            }
            &&& plan[6] == PmpEntry { index: 9, end: 0x00a9_8800, config: tor_config(true, true, true), attr: 7 }
            &&& plan[7] == PmpEntry { index: 10, end: 0x00c0_1000, config: tor_config(true, false, true), attr: 3 }
            &&& plan[8] == PmpEntry { index: 11, end: 0x4a00_1000, config: tor_config(true, true, true), attr: 0 }
        }),
{
    assert(tor_config(true, false, true) == 0x8du8) by (bit_vector);
    assert(tor_config(true, true, false) == 0x8bu8) by (bit_vector);
    assert(tor_config(true, true, true) == 0x8fu8) by (bit_vector);
    let e = sram_text_end & !0x1fusize;
    assert(e <= sram_text_end && sram_text_end - e < 32 && e % 32 == 0) by (bit_vector)
        requires
            e == sram_text_end & !0x1fusize,
    ;
}

} // verus!
