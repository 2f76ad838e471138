//! Opcode descriptors and the dispatch table: an immutable mapping from an
//! opcode byte to its mnemonic, length, base cycle cost, cycle-adjustment
//! policy and addressing mode. A byte with no entry is tolerated by the
//! execution engine as a one-byte no-op.

use vstd::prelude::*;

verus! {

/// The closed set of addressing modes. Each variant with an effective address
/// names a distinct formula of the resolver; `Accumulator`, `Implied` and
/// `NoneAddressing` have none.
#[derive(Debug, Clone, PartialEq, Eq, Structural)]
#[allow(non_camel_case_types)]
pub enum AddressingMode {
    Accumulator,
    Immediate,
    ZeroPage_Y,
    Absolute,
    Absolute_Indexed_by_X,
    Absolute_Indexed_by_Y,
    Indirect,
    Indirect_X,
    Indirect_Y,
    Relative,
    Implied,
    Absolute_Long,
    Direct_Page,
    Direct_Page_Indirect,
    Direct_Page_Indirect_Long,
    Absolute_Long_Indexed_by_X,
    Direct_Page_Indexed_by_X,
    Direct_Page_Indexed_by_Y,
    Direct_Page_Indexed_Indirect_by_X,
    Direct_Page_Indirect_Indexed_by_Y,
    Direct_Page_Indirect_Long_Indexed_by_Y,
    Stack_Relative,
    Stack_Relative_Indirect_Indexed_by_Y,
    NoneAddressing,
}

impl AddressingMode {
    /// Whether the resolver has a formula for this mode. Resolving any other
    /// mode is a usage error, rejected before any handler runs.
    pub open spec fn has_address(self) -> bool {
        !(self is Accumulator || self is Implied || self is NoneAddressing
            || self is Stack_Relative_Indirect_Indexed_by_Y)
    }
}

/// How the pending extra-cycle counter is folded into an instruction's cost:
/// discarded (`NoPenalty`), a page-cross penalty of at most one cycle
/// (`PageCrossPenalty`), or the branch-taken policy reserved for conditional
/// branches (`BranchPenalty`).
#[derive(Debug, Clone, PartialEq, Eq, Structural)]
#[allow(non_camel_case_types)]
pub enum CycleCalcMode {
    NoPenalty,
    PageCrossPenalty,
    BranchPenalty,
}

/// An instruction descriptor, built once when the table is constructed and
/// never mutated.
#[derive(Debug, Clone)]
pub struct OpCode {
    pub code: u8,
    pub name: String,
    pub bytes: u16,
    pub cycles: u8,
    pub cycle_calc_mode: CycleCalcMode,
    pub addressing_mode: AddressingMode,
}

impl OpCode {
    pub fn new(
        code: u8,
        name: &str,
        bytes: u16,
        cycles: u8,
        cycle_calc_mode: CycleCalcMode,
        addressing_mode: AddressingMode,
    ) -> (r: Self)
        ensures
            r.code == code,
            r.name@ == name@,
            r.bytes == bytes,
            r.cycles == cycles,
            r.cycle_calc_mode == cycle_calc_mode,
            r.addressing_mode == addressing_mode,
    {
        OpCode {
            code,
            name: String::from_str(name),
            bytes,
            cycles,
            cycle_calc_mode,
            addressing_mode,
        }
    }
}

/// The descriptor fields of a table entry, as the contracts speak of them.
pub struct OpCodeInfo {
    pub bytes: u16,
    pub cycles: u8,
    pub cycle_calc_mode: CycleCalcMode,
    pub addressing_mode: AddressingMode,
}

/// Whether the table maps this opcode byte at all.
pub open spec fn table_has(code: u8) -> bool {
    code == 0xA1 || code == 0xA3 || code == 0xA5 || code == 0xA7 || code == 0xA9
        || code == 0xAD || code == 0xAF || code == 0xB1 || code == 0xB2 || code == 0xB5
        || code == 0xB7 || code == 0xB9 || code == 0xBD || code == 0xBF
}

/// The descriptor the table holds for a mapped opcode byte. Every current
/// entry belongs to the load-accumulator family.
pub open spec fn table_info(code: u8) -> OpCodeInfo {
    match code {
        0xA1 => OpCodeInfo {
            bytes: 2,
            cycles: 6,
            cycle_calc_mode: CycleCalcMode::NoPenalty,
            addressing_mode: AddressingMode::Direct_Page_Indexed_Indirect_by_X,
        },
        0xA3 => OpCodeInfo {
            bytes: 2,
            cycles: 4,
            cycle_calc_mode: CycleCalcMode::NoPenalty,
            addressing_mode: AddressingMode::Stack_Relative,
        },
        0xA5 => OpCodeInfo {
            bytes: 2,
            cycles: 3,
            cycle_calc_mode: CycleCalcMode::NoPenalty,
            addressing_mode: AddressingMode::Direct_Page,
        },
        0xA7 => OpCodeInfo {
            bytes: 2,
            cycles: 6,
            cycle_calc_mode: CycleCalcMode::NoPenalty,
            addressing_mode: AddressingMode::Direct_Page_Indirect_Long,
        },
        0xA9 => OpCodeInfo {
            bytes: 2,
            cycles: 2,
            cycle_calc_mode: CycleCalcMode::NoPenalty,
            addressing_mode: AddressingMode::Immediate,
        },
        0xAD => OpCodeInfo {
            bytes: 3,
            cycles: 4,
            cycle_calc_mode: CycleCalcMode::NoPenalty,
            addressing_mode: AddressingMode::Absolute,
        },
        0xAF => OpCodeInfo {
            bytes: 4,
            cycles: 5,
            cycle_calc_mode: CycleCalcMode::NoPenalty,
            addressing_mode: AddressingMode::Absolute_Long,
        },
        0xB1 => OpCodeInfo {
            bytes: 2,
            cycles: 5,
            cycle_calc_mode: CycleCalcMode::PageCrossPenalty,
            addressing_mode: AddressingMode::Direct_Page_Indirect_Indexed_by_Y,
        },
        0xB2 => OpCodeInfo {
            bytes: 2,
            cycles: 5,
            cycle_calc_mode: CycleCalcMode::NoPenalty,
            addressing_mode: AddressingMode::Direct_Page_Indirect,
        },
        0xB5 => OpCodeInfo {
            bytes: 2,
            cycles: 4,
            cycle_calc_mode: CycleCalcMode::NoPenalty,
            addressing_mode: AddressingMode::Direct_Page_Indexed_by_X,
        },
        0xB7 => OpCodeInfo {
            bytes: 2,
            cycles: 6,
            cycle_calc_mode: CycleCalcMode::PageCrossPenalty,
            addressing_mode: AddressingMode::Direct_Page_Indirect_Long_Indexed_by_Y,
        },
        0xB9 => OpCodeInfo {
            bytes: 3,
            cycles: 4,
            cycle_calc_mode: CycleCalcMode::PageCrossPenalty,
            addressing_mode: AddressingMode::Absolute_Indexed_by_Y,
        },
        0xBD => OpCodeInfo {
            bytes: 3,
            cycles: 4,
            cycle_calc_mode: CycleCalcMode::PageCrossPenalty,
            addressing_mode: AddressingMode::Absolute_Indexed_by_X,
        },
        0xBF => OpCodeInfo {
            bytes: 4,
            cycles: 5,
            cycle_calc_mode: CycleCalcMode::NoPenalty,
            addressing_mode: AddressingMode::Absolute_Long_Indexed_by_X,
        },
        _ => arbitrary(),
    }
}

/// Every descriptor in the table names a mode the resolver has a formula
/// for, and an instruction length that covers the opcode byte itself.
pub proof fn lemma_table_entries_well_formed(code: u8)
    requires
        table_has(code),
    ensures
        table_info(code).addressing_mode.has_address(),
        table_info(code).bytes >= 2,
{
}

/// Look an opcode byte up in the table. `None` is the deliberate tolerance
/// policy for an unimplemented opcode, not an error.
pub fn lookup(code: u8) -> (r: Option<OpCode>)
    ensures
        match r {
            Some(op) => table_has(code) && op.code == code && op.name@ == "LDA"@
                && op.bytes == table_info(code).bytes
                && op.cycles == table_info(code).cycles
                && op.cycle_calc_mode == table_info(code).cycle_calc_mode
                && op.addressing_mode == table_info(code).addressing_mode,
            None => !table_has(code),
        },
{
    match code {
        0xA1 => Some(
            OpCode::new(
                0xA1,
                "LDA",
                2,
                6,
                CycleCalcMode::NoPenalty,
                AddressingMode::Direct_Page_Indexed_Indirect_by_X,
            ),
        ),
        0xA3 => Some(
            OpCode::new(0xA3, "LDA", 2, 4, CycleCalcMode::NoPenalty, AddressingMode::Stack_Relative),
        ),
        0xA5 => Some(
            OpCode::new(0xA5, "LDA", 2, 3, CycleCalcMode::NoPenalty, AddressingMode::Direct_Page),
        ),
        0xA7 => Some(
            OpCode::new(
                0xA7,
                "LDA",
                2,
                6,
                CycleCalcMode::NoPenalty,
                AddressingMode::Direct_Page_Indirect_Long,
            ),
        ),
        0xA9 => Some(
            OpCode::new(0xA9, "LDA", 2, 2, CycleCalcMode::NoPenalty, AddressingMode::Immediate),
        ),
        0xAD => Some(
            OpCode::new(0xAD, "LDA", 3, 4, CycleCalcMode::NoPenalty, AddressingMode::Absolute),
        ),
        0xAF => Some(
            OpCode::new(0xAF, "LDA", 4, 5, CycleCalcMode::NoPenalty, AddressingMode::Absolute_Long),
        ),
        0xB1 => Some(
            OpCode::new(
                0xB1,
                "LDA",
                2,
                5,
                CycleCalcMode::PageCrossPenalty,
                AddressingMode::Direct_Page_Indirect_Indexed_by_Y,
            ),
        ),
        0xB2 => Some(
            OpCode::new(
                0xB2,
                "LDA",
                2,
                5,
                CycleCalcMode::NoPenalty,
                AddressingMode::Direct_Page_Indirect,
            ),
        ),
        0xB5 => Some(
            OpCode::new(
                0xB5,
                "LDA",
                2,
                4,
                CycleCalcMode::NoPenalty,
                AddressingMode::Direct_Page_Indexed_by_X,
            ),
        ),
        0xB7 => Some(
            OpCode::new(
                0xB7,
                "LDA",
                2,
                6,
                CycleCalcMode::PageCrossPenalty,
                AddressingMode::Direct_Page_Indirect_Long_Indexed_by_Y,
            ),
        ),
        0xB9 => Some(
            OpCode::new(
                0xB9,
                "LDA",
                3,
                4,
                CycleCalcMode::PageCrossPenalty,
                AddressingMode::Absolute_Indexed_by_Y,
            ),
        ),
        0xBD => Some(
            OpCode::new(
                0xBD,
                "LDA",
                3,
                4,
                CycleCalcMode::PageCrossPenalty,
                AddressingMode::Absolute_Indexed_by_X,
            ),
        ),
        0xBF => Some(
            OpCode::new(
                0xBF,
                "LDA",
                4,
                5,
                CycleCalcMode::NoPenalty,
                AddressingMode::Absolute_Long_Indexed_by_X,
            ),
        ),
        _ => None,
    }
}

} // verus!
