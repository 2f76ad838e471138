//! The register/flag state machine and execution engine of the 65816 core.
//!
//! A single `CPU` value owns the full 24-bit memory space and all registers.
//! The status byte keeps the hardware's bit-for-bit layout; what a bit means
//! is decided by interpretation functions keyed to the current mode, so the
//! same bit can be the accumulator-width select in native mode and the second
//! break flag in emulation mode.

use vstd::prelude::*;

use crate::opcodes::AddressingMode;
use crate::opcodes::CycleCalcMode;
use crate::opcodes::OpCode;
use crate::opcodes::lookup;
use crate::opcodes::table_has;
use crate::opcodes::table_info;

verus! {

// Status bit layout (bit 7 down to bit 0): N V M X D I Z C.
// Bit 5 (M) selects the accumulator width in native mode and is the second
// break flag in emulation mode; bit 4 (X) selects the index-register width in
// native mode and is the break flag in emulation mode. A width-select bit of
// 0 means 16-bit.
pub const FLAG_NEGATIVE: u8 = 0x80;
pub const FLAG_OVERFLOW: u8 = 0x40;
pub const FLAG_MEMORY_ACCUMULATOR_MODE: u8 = 0x20;
pub const FLAG_BREAK2: u8 = 0x20;
pub const FLAG_BREAK: u8 = 0x10;
pub const FLAG_INDEX_REGISTER_MODE: u8 = 0x10;
pub const FLAG_DECIMAL: u8 = 0x08;
pub const FLAG_INTERRUPT: u8 = 0x04;
pub const FLAG_ZERO: u8 = 0x02;
pub const FLAG_CARRY: u8 = 0x01;

/// Value of the mode field and of a width-select bit that means 16-bit.
pub const MODE_16BIT: u8 = 0;
/// Value of the mode field that means emulation (8-bit) mode.
pub const MODE_8BIT: u8 = 1;

/// One byte slot for every address of the flat 24-bit space.
pub const MEMORY_SIZE: u32 = 0x100_0000;

pub struct CPU {
    /// 16-bit storage; the effective width is decided at access time.
    pub register_a: u16,
    pub register_x: u16,
    pub register_y: u16,
    pub program_counter: u16,
    pub stack_pointer: u16,
    pub status: u8,
    /// Direct-page register (D).
    pub direct_page: u16,
    /// Data-bank register (DBR).
    pub data_bank: u8,
    /// Program-bank register (PBR).
    pub program_bank: u8,
    /// Emulation flag (E): 0 = native mode, 1 = emulation mode.
    pub mode: u8,
    pub memory: Vec<u8>,
    /// Extra cycles the resolver recorded for the instruction under execution.
    pub add_cycles: u8,
}

/// A register write at the active width: a 16-bit write replaces the whole
/// register, an 8-bit write replaces the low byte and preserves the high byte.
pub open spec fn masked_write(stored: u16, value: u16, wide: bool) -> u16 {
    if wide {
        value
    } else {
        (stored & 0xFF00) | (value & 0x00FF)
    }
}

/// A register read at the active width: the full 16 bits, or the low byte.
pub open spec fn masked_read(stored: u16, wide: bool) -> u16 {
    if wide {
        stored
    } else {
        stored & 0x00FF
    }
}

/// The status byte after the zero and negative flags are recomputed from a
/// result, interpreted at the active width: zero iff the masked result is
/// zero, negative from the masked result's sign bit (bit 15 when 16-bit,
/// bit 7 when 8-bit).
pub open spec fn spec_zn_flags(status: u8, result: u16, wide: bool) -> u8 {
    let masked = masked_read(result, wide);
    let with_z = if masked == 0 {
        status | FLAG_ZERO
    } else {
        status & !FLAG_ZERO
    };
    let sign_bit: u16 = if wide {
        0x8000
    } else {
        0x0080
    };
    if masked & sign_bit != 0 {
        with_z | FLAG_NEGATIVE
    } else {
        with_z & !FLAG_NEGATIVE
    }
}

impl CPU {
    /// The one structural invariant: a byte slot for every 24-bit address.
    pub open spec fn wf(self) -> bool {
        self.memory@.len() == MEMORY_SIZE
    }

    /// The 24-bit linear program address: program bank over program counter.
    pub open spec fn spec_pc(self) -> u32 {
        ((self.program_bank as u32) << 16) | (self.program_counter as u32)
    }

    pub open spec fn spec_is_native(self) -> bool {
        self.mode == MODE_16BIT
    }

    /// The accumulator is 16 bits wide iff the CPU is native and the M bit is 0.
    pub open spec fn spec_acc16(self) -> bool {
        self.spec_is_native() && self.status & FLAG_MEMORY_ACCUMULATOR_MODE == MODE_16BIT
    }

    /// The index registers are 16 bits wide iff the CPU is native and the X bit is 0.
    pub open spec fn spec_idx16(self) -> bool {
        self.spec_is_native() && self.status & FLAG_INDEX_REGISTER_MODE == MODE_16BIT
    }

    /// The 16-bit little-endian word at `pos`.
    pub open spec fn spec_mem16(self, pos: u32) -> u16 {
        ((self.memory@[pos as int + 1] as u16) << 8) | (self.memory@[pos as int] as u16)
    }

    /// The byte the instruction stream holds at the program address; once the
    /// opcode byte is consumed this is the first operand byte.
    pub open spec fn operand8(self) -> u8 {
        self.memory@[self.spec_pc() as int]
    }

    /// The signed interpretation of an 8-bit branch offset.
    pub open spec fn sign_extended(b: u8) -> int {
        if b < 0x80 {
            b as int
        } else {
            b as int - 0x100
        }
    }

    /// Whether the operand bytes after the opcode lie inside the address
    /// space. Only a fetch that runs past the last address is excluded; every
    /// interior pointer fetch is masked into range by its formula.
    pub open spec fn operand_fetch_ok(self, mode: AddressingMode) -> bool {
        match mode {
            AddressingMode::Absolute
            | AddressingMode::Absolute_Indexed_by_X
            | AddressingMode::Absolute_Indexed_by_Y
            | AddressingMode::Indirect => self.spec_pc() + 1 < MEMORY_SIZE,
            AddressingMode::Absolute_Long
            | AddressingMode::Absolute_Long_Indexed_by_X => self.spec_pc() + 2 < MEMORY_SIZE,
            _ => true,
        }
    }

    /// Whether resolving this mode carries an indexed address into a
    /// different 256-byte page than its unindexed base. Only the modes that
    /// add an index register to a base taken from memory can cross; each such
    /// crossing costs one extra cycle.
    pub open spec fn spec_page_crossed(self, mode: AddressingMode) -> bool {
        match mode {
            AddressingMode::Indirect_Y => {
                let base = self.spec_mem16(self.operand8() as u32);
                (base & 0xFF00) != (base.wrapping_add(self.register_y) & 0xFF00)
            },
            AddressingMode::Direct_Page_Indirect_Indexed_by_Y => {
                let p = (self.direct_page as u32).wrapping_add(self.operand8() as u32) & 0x00FFFF;
                let base = self.spec_mem16(p) as u32;
                let sum = (base + masked_read(self.register_y, self.spec_idx16()) as u32) as u32;
                (base & 0xFF00) != (sum & 0xFF00)
            },
            AddressingMode::Direct_Page_Indirect_Long_Indexed_by_Y => {
                let p = (self.direct_page as u32).wrapping_add(self.operand8() as u32) & 0x00FFFF;
                let base = ((self.memory@[p as int + 2] as u32) << 16)
                    | (self.spec_mem16(p) as u32);
                let sum = (base + masked_read(self.register_y, self.spec_idx16()) as u32) as u32;
                (base & 0xFFFF00) != (sum & 0xFFFF00)
            },
            _ => false,
        }
    }

    /// The effective address each addressing mode resolves to: a pure
    /// function of the registers, the banks and the bytes after the opcode.
    pub open spec fn spec_resolved(self, mode: AddressingMode) -> u32 {
        let pc = self.spec_pc();
        match mode {
            AddressingMode::Immediate => pc,
            AddressingMode::Direct_Page => (self.direct_page as u32).wrapping_add(
                self.operand8() as u32,
            ) & 0x00FFFF,
            AddressingMode::Absolute => ((self.data_bank as u32) << 16) | (self.spec_mem16(pc)
                as u32),
            AddressingMode::Direct_Page_Indexed_by_X => {
                let dp = self.direct_page as u32;
                let base = dp.wrapping_add(self.operand8() as u32);
                let x = masked_read(self.register_x, self.spec_idx16()) as u32;
                let indexed = if (dp & 0x00FF) == 0 && !self.spec_is_native() {
                    (base & 0xFF00) | (((base + x) as u32) & 0x00FF)
                } else {
                    base.wrapping_add(x)
                };
                indexed & 0x00FFFF
            },
            AddressingMode::ZeroPage_Y => {
                self.operand8().wrapping_add(self.register_y as u8) as u32
            },
            AddressingMode::Absolute_Indexed_by_X => {
                let base = ((self.data_bank as u32) << 16) | (self.spec_mem16(pc) as u32);
                base.wrapping_add(self.register_x as u32) & 0xFFFFFF
            },
            AddressingMode::Absolute_Indexed_by_Y => {
                let base = ((self.data_bank as u32) << 16) | (self.spec_mem16(pc) as u32);
                base.wrapping_add(self.register_y as u32) & 0xFFFFFF
            },
            AddressingMode::Indirect => {
                self.spec_mem16(self.spec_mem16(pc) as u32) as u32
            },
            AddressingMode::Indirect_X => {
                let ptr = self.operand8().wrapping_add(self.register_x as u8);
                self.spec_mem16(ptr as u32) as u32
            },
            AddressingMode::Indirect_Y => {
                let base = self.spec_mem16(self.operand8() as u32);
                base.wrapping_add(self.register_y) as u32
            },
            AddressingMode::Relative => {
                let np = pc as int + Self::sign_extended(self.operand8());
                if np >= 0 {
                    np as u32
                } else {
                    (np + 0x1_0000_0000) as u32
                }
            },
            AddressingMode::Absolute_Long => {
                ((self.memory@[pc as int + 2] as u32) << 16) | (self.spec_mem16(pc) as u32)
            },
            AddressingMode::Direct_Page_Indirect => {
                let p = (self.direct_page as u32).wrapping_add(self.operand8() as u32) & 0x00FFFF;
                ((self.data_bank as u32) << 16) | (self.spec_mem16(p) as u32)
            },
            AddressingMode::Direct_Page_Indirect_Long => {
                let p = (self.direct_page as u32).wrapping_add(self.operand8() as u32) & 0x00FFFF;
                let bank = self.memory@[(((p + 2) as u32) & 0x00FFFF) as int];
                ((bank as u32) << 16) | (self.spec_mem16(p) as u32)
            },
            AddressingMode::Direct_Page_Indexed_by_Y => {
                let base = self.direct_page.wrapping_add(self.operand8() as u16) as u32;
                base.wrapping_add(self.register_y as u32)
            },
            AddressingMode::Direct_Page_Indexed_Indirect_by_X => {
                let dp = self.direct_page as u32;
                let base = dp.wrapping_add(self.operand8() as u32);
                let x = masked_read(self.register_x, self.spec_idx16()) as u32;
                let indexed = if (dp & 0x00FF) == 0 && !self.spec_is_native() {
                    (base & 0xFF00) | (((base + x) as u32) & 0x00FF)
                } else {
                    base.wrapping_add(x)
                };
                let p = indexed & 0x00FFFF;
                ((self.data_bank as u32) << 16) | (self.spec_mem16(p) as u32)
            },
            AddressingMode::Direct_Page_Indirect_Indexed_by_Y => {
                let p = (self.direct_page as u32).wrapping_add(self.operand8() as u32) & 0x00FFFF;
                let base = self.spec_mem16(p) as u32;
                let sum = (base + masked_read(self.register_y, self.spec_idx16()) as u32) as u32;
                ((((self.data_bank as u32) << 16) + sum) as u32) & 0xFFFFFF
            },
            AddressingMode::Absolute_Long_Indexed_by_X => {
                let base = ((self.memory@[pc as int + 2] as u32) << 16) | (self.spec_mem16(pc)
                    as u32);
                base.wrapping_add(self.register_x as u32) & 0xFFFFFF
            },
            AddressingMode::Direct_Page_Indirect_Long_Indexed_by_Y => {
                let p = (self.direct_page as u32).wrapping_add(self.operand8() as u32) & 0x00FFFF;
                let base = ((self.memory@[p as int + 2] as u32) << 16)
                    | (self.spec_mem16(p) as u32);
                let sum = (base + masked_read(self.register_y, self.spec_idx16()) as u32) as u32;
                sum & 0xFFFFFF
            },
            AddressingMode::Stack_Relative => {
                (0x0100 + self.stack_pointer as int + self.operand8() as int) as u32
            },
            _ => arbitrary(),
        }
    }

    pub fn new() -> (r: Self)
        ensures
            r.wf(),
            r.register_a == 0,
            r.register_x == 0,
            r.register_y == 0,
            r.program_counter == 0,
            r.status == FLAG_INTERRUPT | FLAG_BREAK2,
            r.stack_pointer == 0xFD,
            r.direct_page == 0,
            r.data_bank == 0,
            r.program_bank == 0,
            r.mode == MODE_16BIT,
            r.add_cycles == 0,
            forall|i: int| 0 <= i < MEMORY_SIZE ==> r.memory@[i] == 0,
    {
        Self {
            register_a: 0,
            register_x: 0,
            register_y: 0,
            program_counter: 0,
            status: FLAG_INTERRUPT | FLAG_BREAK2,
            stack_pointer: 0xFD,
            direct_page: 0,
            data_bank: 0,
            program_bank: 0,
            mode: MODE_16BIT,
            memory: vec![0; 0x100_0000],
            add_cycles: 0,
        }
    }

    pub fn mem_read(&self, addr: u32) -> (r: u8)
        requires
            self.wf(),
            addr < MEMORY_SIZE,
        ensures
            r == self.memory@[addr as int],
    {
        self.memory[addr as usize]
    }

    pub fn mem_write(&mut self, addr: u32, data: u8)
        requires
            old(self).wf(),
            addr < MEMORY_SIZE,
        ensures
            final(self).wf(),
            final(self).memory@ == old(self).memory@.update(addr as int, data),
            *final(self) == (CPU { memory: final(self).memory, ..*old(self) }),
    {
        self.memory.set(addr as usize, data);
    }

    pub fn mem_read_u16(&self, pos: u32) -> (r: u16)
        requires
            self.wf(),
            pos as int + 1 < MEMORY_SIZE,
        ensures
            r == self.spec_mem16(pos),
    {
        let lo = self.mem_read(pos) as u16;
        let hi = self.mem_read(pos + 1) as u16;
        (hi << 8) | lo
    }

    pub fn mem_write_u16(&mut self, pos: u32, data: u16)
        requires
            old(self).wf(),
            pos as int + 1 < MEMORY_SIZE,
        ensures
            final(self).wf(),
            final(self).memory@ == old(self).memory@
                .update(pos as int, (data & 0x00FF) as u8)
                .update(pos as int + 1, (data >> 8) as u8),
            final(self).spec_mem16(pos) == data,
            *final(self) == (CPU { memory: final(self).memory, ..*old(self) }),
    {
        let hi = (data >> 8) as u8;
        let lo = (data & 0x00FF) as u8;
        self.mem_write(pos, lo);
        self.mem_write(pos + 1, hi);
        proof {
            assert((((data >> 8) as u8 as u16) << 8) | ((data & 0x00FF) as u8 as u16) == data)
                by (bit_vector);
        }
    }

    /// The 24-bit linear program address.
    pub fn pc(&self) -> (r: u32)
        ensures
            r == self.spec_pc(),
            r < MEMORY_SIZE,
    {
        proof {
            let b = self.program_bank;
            let p = self.program_counter;
            assert(((b as u32) << 16) | (p as u32) < 0x100_0000) by (bit_vector);
        }
        ((self.program_bank as u32) << 16) | (self.program_counter as u32)
    }

    pub fn is_native_mode(&self) -> (r: bool)
        ensures
            r == self.spec_is_native(),
    {
        self.mode == MODE_16BIT
    }

    pub fn is_emulation_mode(&self) -> (r: bool)
        ensures
            r == !self.spec_is_native(),
    {
        !self.is_native_mode()
    }

    pub fn is_accumulator_16bit_mode(&self) -> (r: bool)
        ensures
            r == self.spec_acc16(),
    {
        self.is_native_mode() && (self.status & FLAG_MEMORY_ACCUMULATOR_MODE) == MODE_16BIT
    }

    pub fn is_index_register_16bit_mode(&self) -> (r: bool)
        ensures
            r == self.spec_idx16(),
    {
        self.is_native_mode() && (self.status & FLAG_INDEX_REGISTER_MODE) == MODE_16BIT
    }

    pub fn set_register_a(&mut self, value: u16)
        ensures
            *final(self) == (CPU {
                register_a: masked_write(old(self).register_a, value, old(self).spec_acc16()),
                ..*old(self)
            }),
    {
        if self.is_accumulator_16bit_mode() {
            self.register_a = value
        } else {
            self.register_a = (self.register_a & 0xFF00) | (value & 0x00FF)
        }
    }

    pub fn get_register_a(&self) -> (r: u16)
        ensures
            r == masked_read(self.register_a, self.spec_acc16()),
    {
        if self.is_accumulator_16bit_mode() {
            self.register_a
        } else {
            self.register_a & 0x00FF
        }
    }

    pub fn set_register_x(&mut self, value: u16)
        ensures
            *final(self) == (CPU {
                register_x: masked_write(old(self).register_x, value, old(self).spec_idx16()),
                ..*old(self)
            }),
    {
        if self.is_index_register_16bit_mode() {
            self.register_x = value
        } else {
            self.register_x = (self.register_x & 0xFF00) | (value & 0x00FF)
        }
    }

    pub fn get_register_x(&self) -> (r: u16)
        ensures
            r == masked_read(self.register_x, self.spec_idx16()),
    {
        if self.is_index_register_16bit_mode() {
            self.register_x
        } else {
            self.register_x & 0x00FF
        }
    }

    pub fn set_register_y(&mut self, value: u16)
        ensures
            *final(self) == (CPU {
                register_y: masked_write(old(self).register_y, value, old(self).spec_idx16()),
                ..*old(self)
            }),
    {
        if self.is_index_register_16bit_mode() {
            self.register_y = value
        } else {
            self.register_y = (self.register_y & 0xFF00) | (value & 0x00FF)
        }
    }

    pub fn get_register_y(&self) -> (r: u16)
        ensures
            r == masked_read(self.register_y, self.spec_idx16()),
    {
        if self.is_index_register_16bit_mode() {
            self.register_y
        } else {
            self.register_y & 0x00FF
        }
    }

    /// Recompute the zero and negative flags from a result, as interpreted at
    /// the current accumulator width: a result whose low byte is zero sets
    /// the zero flag in 8-bit mode whatever its high byte holds.
    pub fn update_zero_and_negative_flags(&mut self, result: u16)
        ensures
            *final(self) == (CPU {
                status: spec_zn_flags(old(self).status, result, old(self).spec_acc16()),
                ..*old(self)
            }),
    {
        let wide = self.is_accumulator_16bit_mode();
        let masked = if wide {
            result
        } else {
            result & 0x00FF
        };
        self.status = if masked == 0 {
            self.status | FLAG_ZERO
        } else {
            self.status & !FLAG_ZERO
        };

        let test_bit: u16 = if wide {
            0x8000
        } else {
            0x0080
        };
        self.status = if (masked & test_bit) != 0 {
            self.status | FLAG_NEGATIVE
        } else {
            self.status & !FLAG_NEGATIVE
        };
    }

    /// Resolve an addressing mode to its effective address. The only state it
    /// touches is the pending extra-cycle counter, which grows by exactly one
    /// when the mode's indexed address crosses a 256-byte page boundary and is
    /// untouched otherwise.
    #[verifier::rlimit(60)]
    pub fn get_operand_address(&mut self, mode: &AddressingMode) -> (addr: u32)
        requires
            old(self).wf(),
            mode.has_address(),
            old(self).operand_fetch_ok(*mode),
            old(self).add_cycles < 0xFF,
        ensures
            addr == old(self).spec_resolved(*mode),
            *final(self) == (CPU {
                add_cycles: if old(self).spec_page_crossed(*mode) {
                    (old(self).add_cycles + 1) as u8
                } else {
                    old(self).add_cycles
                },
                ..*old(self)
            }),
    {
        let pc = self.pc();
        match mode {
            AddressingMode::Implied => unreached(),
            AddressingMode::Accumulator => unreached(),
            AddressingMode::Immediate => pc,
            AddressingMode::Direct_Page => {
                let addr = self.mem_read(pc) as u32;
                (self.direct_page as u32).wrapping_add(addr) & 0x00FFFF
            },
            AddressingMode::Absolute => {
                let addr = self.mem_read_u16(pc) as u32;
                ((self.data_bank as u32) << 16) | addr
            },
            AddressingMode::Direct_Page_Indexed_by_X => {
                let addr: u32 = self.mem_read(pc) as u32;
                let dp = self.direct_page as u32;
                let addr = dp.wrapping_add(addr);
                let addr = if (dp & 0x00FF) == 0x00 && self.is_emulation_mode() {
                    (addr & 0xFF00) | ((addr + self.get_register_x() as u32) & 0x00FF)
                } else {
                    addr.wrapping_add(self.get_register_x() as u32)
                };
                addr & 0x00FFFF
            },
            AddressingMode::ZeroPage_Y => {
                let pos = self.mem_read(pc);
                let addr = pos.wrapping_add(#[verifier::truncate] (self.register_y as u8)) as u16;
                addr as u32
            },
            AddressingMode::Absolute_Indexed_by_X => {
                let base = self.mem_read_u16(pc);
                let addr = ((self.data_bank as u32) << 16) | base as u32;
                let addr = addr.wrapping_add(self.register_x as u32);
                addr & 0xFFFFFF
            },
            AddressingMode::Absolute_Indexed_by_Y => {
                let base = self.mem_read_u16(pc);
                let addr = ((self.data_bank as u32) << 16) | base as u32;
                let addr = addr.wrapping_add(self.register_y as u32);
                addr & 0xFFFFFF
            },
            AddressingMode::Indirect => {
                let base = self.mem_read_u16(pc);
                let addr = self.mem_read_u16(base as u32);
                addr as u32
            },
            AddressingMode::Indirect_X => {
                let base = self.mem_read(pc);
                let ptr: u8 = base.wrapping_add(#[verifier::truncate] (self.register_x as u8));
                let addr = self.mem_read_u16(ptr as u32);
                addr as u32
            },
            AddressingMode::Indirect_Y => {
                let base = self.mem_read(pc);
                let deref_base = self.mem_read_u16(base as u32);
                let deref = deref_base.wrapping_add(self.register_y);
                if (deref_base & 0xFF00) != (deref & 0xFF00) {
                    self.add_cycles = self.add_cycles + 1;
                }
                deref as u32
            },
            AddressingMode::Relative => {
                let base = self.mem_read(pc) as u32;
                if base < 0x80 {
                    pc.wrapping_add(base)
                } else {
                    pc.wrapping_add(base).wrapping_sub(0x100)
                }
            },
            AddressingMode::Absolute_Long => {
                let addr = self.mem_read_u16(pc);
                let bank = self.mem_read(pc + 2);
                ((bank as u32) << 16) | addr as u32
            },
            AddressingMode::Direct_Page_Indirect => {
                let addr = self.mem_read(pc) as u32;
                let addr = (self.direct_page as u32).wrapping_add(addr) & 0x00FFFF;
                proof {
                    let a = (old(self).direct_page as u32).wrapping_add(
                        old(self).operand8() as u32,
                    );
                    assert((a & 0x00FFFF) + 1 < 0x100_0000) by (bit_vector);
                }
                ((self.data_bank as u32) << 16) | self.mem_read_u16(addr) as u32
            },
            AddressingMode::Direct_Page_Indirect_Long => {
                let base = self.mem_read(pc) as u32;
                let base = (self.direct_page as u32).wrapping_add(base) & 0x00FFFF;
                proof {
                    let a = (old(self).direct_page as u32).wrapping_add(
                        old(self).operand8() as u32,
                    );
                    assert((a & 0x00FFFF) + 1 < 0x100_0000) by (bit_vector);
                    assert(((a & 0x00FFFF) + 2) as u32 & 0x00FFFF < 0x100_0000) by (bit_vector);
                }
                let addr = self.mem_read_u16(base) as u32;
                let bank = self.mem_read((base + 2) & 0x00FFFF);
                ((bank as u32) << 16) | addr
            },
            AddressingMode::Direct_Page_Indexed_by_Y => {
                let addr = self.mem_read(pc);
                let addr = self.direct_page.wrapping_add(addr as u16) as u32;
                addr.wrapping_add(self.register_y as u32)
            },
            AddressingMode::Direct_Page_Indexed_Indirect_by_X => {
                let addr: u32 = self.mem_read(pc) as u32;
                let dp = self.direct_page as u32;
                let addr = dp.wrapping_add(addr);
                let addr = if (dp & 0x00FF) == 0x00 && self.is_emulation_mode() {
                    (addr & 0xFF00) | ((addr + self.get_register_x() as u32) & 0x00FF)
                } else {
                    addr.wrapping_add(self.get_register_x() as u32)
                };
                let addr = addr & 0x00FFFF;
                proof {
                    assert(forall|a: u32| (a & 0x00FFFF) + 1 < 0x100_0000) by (bit_vector);
                }
                let addr = self.mem_read_u16(addr) as u32;
                (self.data_bank as u32) << 16 | addr
            },
            AddressingMode::Direct_Page_Indirect_Indexed_by_Y => {
                let addr = self.mem_read(pc) as u32;
                let addr = (self.direct_page as u32).wrapping_add(addr) & 0x00FFFF;
                proof {
                    assert(forall|a: u32| (a & 0x00FFFF) + 1 < 0x100_0000) by (bit_vector);
                }
                let base = self.mem_read_u16(addr) as u32;
                let sum = base + self.get_register_y() as u32;
                if (base & 0xFF00) != (sum & 0xFF00) {
                    self.add_cycles = self.add_cycles + 1;
                }
                proof {
                    let b = old(self).data_bank;
                    assert((b as u32) << 16 <= 0xFF0000) by (bit_vector);
                }
                (((self.data_bank as u32) << 16) + sum) & 0xFFFFFF
            },
            AddressingMode::Absolute_Long_Indexed_by_X => {
                let base = self.mem_read_u16(pc);
                let bank = self.mem_read(pc + 2);
                let addr = ((bank as u32) << 16) | base as u32;
                let addr = addr.wrapping_add(self.register_x as u32);
                addr & 0xFFFFFF
            },
            AddressingMode::Direct_Page_Indirect_Long_Indexed_by_Y => {
                let addr = self.mem_read(pc) as u32;
                let addr = (self.direct_page as u32).wrapping_add(addr) & 0x00FFFF;
                proof {
                    assert(forall|a: u32| (a & 0x00FFFF) + 2 < 0x100_0000) by (bit_vector);
                }
                let base16 = self.mem_read_u16(addr);
                let bank = self.mem_read(addr + 2);
                let base = ((bank as u32) << 16) | base16 as u32;
                proof {
                    let k = bank;
                    let m = base16;
                    assert(((k as u32) << 16) | (m as u32) <= 0xFFFFFF) by (bit_vector);
                }
                let sum = base + self.get_register_y() as u32;
                if (base & 0xFFFF00) != (sum & 0xFFFF00) {
                    self.add_cycles = self.add_cycles + 1;
                }
                sum & 0xFFFFFF
            },
            AddressingMode::Stack_Relative => {
                let value = self.mem_read(pc) as u32;
                let addr = (self.stack_pointer as u32).wrapping_add(value);
                0x0100 + addr
            },
            AddressingMode::Stack_Relative_Indirect_Indexed_by_Y => unreached(),
            AddressingMode::NoneAddressing => unreached(),
        }
    }

    /// Whether the operand read of a load stays inside the address space at
    /// the current accumulator width: a 16-bit read must not start at the
    /// very last address.
    pub open spec fn lda_read_ok(self, mode: AddressingMode) -> bool {
        let addr = self.spec_resolved(mode);
        if self.spec_acc16() {
            addr as int + 1 < MEMORY_SIZE
        } else {
            addr < MEMORY_SIZE
        }
    }

    /// The machine after one load-accumulator instruction: resolve the
    /// effective address, read an operand of the current accumulator width,
    /// store it through the width-aware setter, and refresh the zero and
    /// negative flags from the width-aware getter.
    pub open spec fn spec_lda(self, mode: AddressingMode) -> CPU {
        let addr = self.spec_resolved(mode);
        let cycles: u8 = if self.spec_page_crossed(mode) {
            (self.add_cycles + 1) as u8
        } else {
            self.add_cycles
        };
        let value: u16 = if self.spec_acc16() {
            self.spec_mem16(addr)
        } else {
            self.memory@[addr as int] as u16
        };
        let a = masked_write(self.register_a, value, self.spec_acc16());
        let status = spec_zn_flags(self.status, masked_read(a, self.spec_acc16()), self.spec_acc16());
        CPU { register_a: a, status: status, add_cycles: cycles, ..self }
    }

    /// Load the accumulator from the operand of the given addressing mode.
    pub fn lda(&mut self, mode: &AddressingMode)
        requires
            old(self).wf(),
            mode.has_address(),
            old(self).operand_fetch_ok(*mode),
            old(self).lda_read_ok(*mode),
            old(self).add_cycles < 0xFF,
        ensures
            *final(self) == old(self).spec_lda(*mode),
    {
        let addr = self.get_operand_address(mode);
        let value = if self.is_accumulator_16bit_mode() {
            self.mem_read_u16(addr)
        } else {
            self.mem_read(addr) as u16
        };
        self.set_register_a(value);
        let a = self.get_register_a();
        self.update_zero_and_negative_flags(a);
    }

    /// The stack pointer once the current mode is applied: emulation mode
    /// pins its high byte to 0x01, native mode leaves it alone.
    pub open spec fn spec_sp_pinned(self) -> u16 {
        if self.spec_is_native() {
            self.stack_pointer
        } else {
            0x0100 | (self.stack_pointer & 0x00FF)
        }
    }

    /// Apply the current mode's invariant to the stack pointer; performed
    /// once per instruction boundary, before the fetch.
    fn apply_mode(&mut self)
        ensures
            *final(self) == (CPU { stack_pointer: old(self).spec_sp_pinned(), ..*old(self) }),
    {
        if self.is_emulation_mode() {
            self.stack_pointer = 0x0100 | (self.stack_pointer & 0x00FF)
        }
    }

    /// The machine as `reset` leaves it: cleared registers, the power-on
    /// status byte, the stack pointer at its initial value, and the program
    /// counter loaded from the reset vector.
    pub open spec fn spec_reset(self) -> CPU {
        CPU {
            register_a: 0,
            register_x: 0,
            register_y: 0,
            status: FLAG_INTERRUPT | FLAG_BREAK2,
            stack_pointer: 0xFD,
            program_counter: self.spec_mem16(0xFFFC),
            ..self
        }
    }

    /// Clear the registers and load the program counter from the reset
    /// vector at 0xFFFC.
    pub fn reset(&mut self)
        requires
            old(self).wf(),
        ensures
            *final(self) == old(self).spec_reset(),
    {
        self.register_a = 0;
        self.register_x = 0;
        self.register_y = 0;
        self.status = FLAG_INTERRUPT | FLAG_BREAK2;
        self.stack_pointer = 0xFD;

        self.program_counter = self.mem_read_u16(0xFFFC);
    }

    /// Hook for priming memory with a program image before `reset`; the
    /// current core starts from whatever the harness wrote and changes
    /// nothing here.
    pub fn load(&mut self)
        ensures
            *final(self) == *old(self),
    {
    }

    /// The opcode byte the next step will fetch.
    pub open spec fn fetched_opcode(self) -> u8 {
        self.memory@[self.spec_pc() as int]
    }

    /// The machine after the opcode fetch: the stack pointer pinned by the
    /// mode, the program counter advanced past the opcode byte.
    pub open spec fn spec_after_fetch(self) -> CPU {
        CPU {
            stack_pointer: self.spec_sp_pinned(),
            program_counter: self.program_counter.wrapping_add(1),
            ..self
        }
    }

    /// Whether one execution step stays inside the address space: when the
    /// fetched opcode byte is mapped, neither its operand bytes nor its
    /// operand read may run past the last address.
    pub open spec fn spec_step_ok(self) -> bool {
        table_has(self.fetched_opcode()) ==> {
            let m = table_info(self.fetched_opcode()).addressing_mode;
            let s = self.spec_after_fetch();
            s.operand_fetch_ok(m) && s.lda_read_ok(m)
        }
    }

    /// The machine after a handler ran for a descriptor: the handler's
    /// effect, then the program counter advanced past the operand bytes
    /// wherever the handler left it untouched.
    pub open spec fn spec_execute(self, mode: AddressingMode, bytes: u16) -> CPU {
        let executed = self.spec_lda(mode);
        if executed.program_counter == self.program_counter {
            CPU {
                program_counter: executed.program_counter.wrapping_add((bytes - 1) as u16),
                ..executed
            }
        } else {
            executed
        }
    }

    /// The machine after one full fetch-decode-execute step.
    pub open spec fn spec_step(self) -> CPU {
        let code = self.fetched_opcode();
        let s = self.spec_after_fetch();
        if table_has(code) {
            let info = table_info(code);
            let executed = (CPU { add_cycles: 0, ..s }).spec_execute(
                info.addressing_mode,
                info.bytes,
            );
            match info.cycle_calc_mode {
                CycleCalcMode::NoPenalty => CPU { add_cycles: 0, ..executed },
                _ => executed,
            }
        } else {
            s
        }
    }

    /// Run a descriptor's handler, then advance the program counter past the
    /// operand bytes if the handler did not steer it itself. Every entry of
    /// the current table runs the load-accumulator handler.
    fn call(&mut self, op: &OpCode)
        requires
            old(self).wf(),
            table_has(op.code),
            op.addressing_mode == table_info(op.code).addressing_mode,
            op.bytes == table_info(op.code).bytes,
            old(self).operand_fetch_ok(op.addressing_mode),
            old(self).lda_read_ok(op.addressing_mode),
            old(self).add_cycles < 0xFF,
        ensures
            *final(self) == old(self).spec_execute(op.addressing_mode, op.bytes),
    {
        proof {
            crate::opcodes::lemma_table_entries_well_formed(op.code);
        }
        let pc_before = self.program_counter;
        self.lda(&op.addressing_mode);
        if self.program_counter == pc_before {
            self.program_counter = self.program_counter.wrapping_add(op.bytes - 1);
        }
    }

    /// Execute exactly one instruction with the current state: fetch the
    /// opcode byte at the linear program address, advance the program
    /// counter, look the descriptor up, run its handler, and settle the
    /// cycle adjustment. An unmapped opcode byte leaves everything but the
    /// program counter untouched.
    pub fn run(&mut self)
        requires
            old(self).wf(),
            old(self).spec_step_ok(),
        ensures
            *final(self) == old(self).spec_step(),
    {
        self.apply_mode();

        let pc = self.pc();
        let opscode = self.mem_read(pc);
        self.program_counter = self.program_counter.wrapping_add(1);

        let op = lookup(opscode);
        match op {
            Some(op) => {
                self.add_cycles = 0;

                self.call(&op);

                match op.cycle_calc_mode {
                    CycleCalcMode::NoPenalty => {
                        self.add_cycles = 0;
                    },
                    CycleCalcMode::PageCrossPenalty => {
                        // The resolver records at most one page crossing, so
                        // the counter can never exceed the policy's bound.
                        assert(self.add_cycles <= 1);
                    },
                    _ => {},
                }
            },
            None => {},
        }
    }

    /// Prime memory, reset, and execute one step from the reset vector.
    pub fn load_and_run(&mut self)
        requires
            old(self).wf(),
            old(self).spec_reset().spec_step_ok(),
        ensures
            *final(self) == old(self).spec_reset().spec_step(),
    {
        self.load();
        self.reset();
        self.run();
    }
}

} // verus!
