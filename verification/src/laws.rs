//! Laws of the core, each proved over the same spec functions the public
//! contracts are stated with.

use vstd::prelude::*;

use crate::cpu::CPU;
use crate::cpu::MEMORY_SIZE;
use crate::cpu::masked_read;
use crate::cpu::masked_write;
use crate::cpu::spec_zn_flags;
use crate::opcodes::AddressingMode;
use crate::opcodes::CycleCalcMode;
use crate::opcodes::table_has;
use crate::opcodes::table_info;

verus! {

/// Law: writing a register through the width-aware setter and reading it
/// back yields the value masked to the active width; a narrow write leaves
/// the stored high byte alone, so a later read at the wider width still
/// sees that high byte over the new low byte.
pub proof fn lemma_width_masking(stored: u16, value: u16)
    ensures
        masked_read(masked_write(stored, value, true), true) == value,
        masked_read(masked_write(stored, value, false), false) == value & 0x00FF,
        masked_write(stored, value, false) & 0xFF00 == stored & 0xFF00,
        masked_read(masked_write(stored, value, false), true) == (stored & 0xFF00) | (value
            & 0x00FF),
{
    assert(((stored & 0xFF00) | (value & 0x00FF)) & 0x00FF == value & 0x00FF) by (bit_vector);
    assert(((stored & 0xFF00) | (value & 0x00FF)) & 0xFF00 == stored & 0xFF00) by (bit_vector);
}

/// Law: the zero/negative flag update is a pure function of the latest
/// result: a second application with the same result and width leaves the
/// status byte exactly where the first one put it. It never touches the two
/// width-select bits, so a repeated update also runs at the same width.
pub proof fn lemma_flag_update_idempotent(status: u8, result: u16, wide: bool)
    ensures
        spec_zn_flags(spec_zn_flags(status, result, wide), result, wide) == spec_zn_flags(
            status,
            result,
            wide,
        ),
        spec_zn_flags(status, result, wide) & 0x30 == status & 0x30,
{
    let s = status;
    assert(((s | 0x02) | 0x80) & 0x30 == s & 0x30) by (bit_vector);
    assert(((s | 0x02) & !0x80u8) & 0x30 == s & 0x30) by (bit_vector);
    assert(((s & !0x02u8) | 0x80) & 0x30 == s & 0x30) by (bit_vector);
    assert(((s & !0x02u8) & !0x80u8) & 0x30 == s & 0x30) by (bit_vector);
    assert((((s | 0x02) | 0x80) | 0x02) | 0x80 == (s | 0x02) | 0x80) by (bit_vector);
    assert((((s | 0x02) & !0x80u8) | 0x02) & !0x80u8 == (s | 0x02) & !0x80u8) by (bit_vector);
    assert((((s & !0x02u8) | 0x80) & !0x02u8) | 0x80 == (s & !0x02u8) | 0x80) by (bit_vector);
    assert((((s & !0x02u8) & !0x80u8) & !0x02u8) & !0x80u8 == (s & !0x02u8) & !0x80u8)
        by (bit_vector);
}

/// Law: any 24-bit address, encoded behind the opcode as its two little-
/// endian offset bytes and one bank byte, resolves through the absolute-long
/// mode to exactly itself.
pub proof fn lemma_absolute_long_roundtrip(cpu: CPU, a: u32)
    requires
        a < 0x100_0000,
        cpu.spec_pc() + 2 < MEMORY_SIZE,
        cpu.memory@[cpu.spec_pc() as int] == (a & 0xFF) as u8,
        cpu.memory@[cpu.spec_pc() as int + 1] == ((a >> 8) & 0xFF) as u8,
        cpu.memory@[cpu.spec_pc() as int + 2] == ((a >> 16) & 0xFF) as u8,
    ensures
        cpu.spec_resolved(AddressingMode::Absolute_Long) == a,
{
    assert((((((a >> 16) & 0xFF) as u8) as u32) << 16) | (((((((a >> 8) & 0xFF) as u8) as u16)
        << 8) | (((a & 0xFF) as u8) as u16)) as u32) == a) by (bit_vector)
        requires
            a < 0x100_0000,
    ;
}

/// Law: in emulation mode with the direct page aligned to a page boundary,
/// indexing by X wraps inside that page: the resolved address keeps the
/// direct page's high byte, however far the index addition overflows the low
/// byte. With an unaligned direct page, or in native mode, the addition
/// wraps across the full 16-bit space instead.
pub proof fn lemma_direct_page_wraparound(cpu: CPU)
    ensures
        (cpu.direct_page & 0x00FF) == 0 && !cpu.spec_is_native() ==> cpu.spec_resolved(
            AddressingMode::Direct_Page_Indexed_by_X,
        ) & 0xFF00 == (cpu.direct_page & 0xFF00) as u32,
        !((cpu.direct_page & 0x00FF) == 0 && !cpu.spec_is_native()) ==> cpu.spec_resolved(
            AddressingMode::Direct_Page_Indexed_by_X,
        ) == ((cpu.direct_page as int + cpu.operand8() as int + masked_read(
            cpu.register_x,
            cpu.spec_idx16(),
        ) as int) % 0x10000) as u32,
{
    let d = cpu.direct_page;
    let o = cpu.operand8();
    let x = masked_read(cpu.register_x, cpu.spec_idx16());
    let base = (d as u32).wrapping_add(o as u32);
    assert((d & 0x00FF) == 0 ==> (((base & 0xFF00) | (((base + (x as u32)) as u32) & 0x00FF))
        & 0x00FFFF) & 0xFF00 == (d & 0xFF00) as u32) by (bit_vector)
        requires
            base == (d as u32).wrapping_add(o as u32),
    ;
    assert((base.wrapping_add(x as u32)) & 0x00FFFF == ((d as int + o as int + x as int)
        % 0x10000) as u32) by (bit_vector)
        requires
            base == (d as u32).wrapping_add(o as u32),
    ;
}

/// Law: resolving the Y-indexed direct-page-indirect mode crosses a page,
/// and so records its one extra cycle, exactly when adding Y to the 16-bit
/// pointer fetched from the direct page moves it into a different 256-byte
/// page; the resolver's contract adds one cycle when this predicate holds
/// and none otherwise, so more than one can never accumulate in a single
/// resolution.
pub proof fn lemma_page_cross_cycles(cpu: CPU)
    ensures
        ({
            let p = (cpu.direct_page as u32).wrapping_add(cpu.operand8() as u32) & 0x00FFFF;
            let base = cpu.spec_mem16(p);
            let y = masked_read(cpu.register_y, cpu.spec_idx16());
            cpu.spec_page_crossed(AddressingMode::Direct_Page_Indirect_Indexed_by_Y) <==> ((
            base as int + y as int) / 0x100) % 0x100 != base as int / 0x100
        }),
{
    let p = (cpu.direct_page as u32).wrapping_add(cpu.operand8() as u32) & 0x00FFFF;
    let b = cpu.spec_mem16(p);
    let y = masked_read(cpu.register_y, cpu.spec_idx16());
    assert((((b as u32) & 0xFF00) != ((((b as u32) + (y as u32)) as u32) & 0xFF00)) <==> ((
    b as int + y as int) / 0x100) % 0x100 != b as int / 0x100) by (bit_vector);
}

/// Law: a descriptor whose cycle policy discards the extra-cycle counter
/// names an addressing mode that never records a page crossing, so the
/// counter the engine discards is zero by construction.
pub proof fn lemma_no_penalty_entries_never_cross(cpu: CPU, code: u8)
    requires
        table_has(code),
        table_info(code).cycle_calc_mode == CycleCalcMode::NoPenalty,
    ensures
        !cpu.spec_page_crossed(table_info(code).addressing_mode),
{
}

} // verus!
