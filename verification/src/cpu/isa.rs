//! What the instructions do: the architectural state as a mathematical value,
//! and for each instruction class the state that one instruction leaves
//! behind, or the reason why it is not carried out.
//!
//! An instruction that is not carried out leaves the state as it was.

use crate::cpu::alu::{
    sign_extend,
    spec_add64,
    spec_addw,
    spec_sll64,
    spec_sllw,
    spec_slt64,
    spec_sltu64,
    spec_sra64,
    spec_sraw,
    spec_srl64,
    spec_srlw,
    spec_sub64,
    spec_subw,
    signed64,
};
use crate::cpu::decode::{
    csr_addr,
    funct3,
    funct6,
    funct7,
    imm_b,
    imm_i,
    imm_j,
    imm_s,
    imm_u,
    opcode,
    rd,
    rs1,
    rs2,
    shamt,
};
use crate::memory::dram::{
    in_dram,
    lemma_load_after_store,
    load,
    store,
    DRAM_BASE_ADDR,
    DRAM_SIZE,
};
use vstd::arithmetic::power2::lemma2_to64;
use vstd::prelude::*;

verus! {

/// Why an operation was not carried out. Each error holds what is needed
/// to report it.
#[derive(Clone, Copy, Debug, PartialEq, Eq, Structural)]
pub enum ExecError {
    /// The opcode names no instruction class. Fatal: the run ends.
    UnknownOpcode { opcode: u32 },
    /// The class is known, but its function fields name none of its
    /// instructions. Fatal: the run ends.
    UnknownFunct { funct3: u32, funct7: u32 },
    /// A load or a store reaches outside memory. The access is skipped, and
    /// the run may go on.
    InvalidAddress { addr: u64 },
    /// There is no general-purpose register of this index. The read or write
    /// is skipped.
    InvalidRegisterIndex { idx: usize },
    /// There is no control and status register of this index. The read or
    /// write is skipped.
    InvalidCsrIndex { idx: usize },
}

impl ExecError {
    /// Whether the error ends the run: a word that cannot be decoded does,
    /// nothing else does.
    pub open spec fn fatal(self) -> bool {
        self is UnknownOpcode || self is UnknownFunct
    }

    /// Whether the error ends the run.
    pub fn is_fatal(&self) -> (fatal: bool)
        ensures
            fatal == (*self).fatal(),
    {
        match self {
            ExecError::UnknownOpcode { .. } => true,
            ExecError::UnknownFunct { .. } => true,
            _ => false,
        }
    }
}

/// Why a run ends without an error.
#[derive(Clone, Copy, Debug, PartialEq, Eq, Structural)]
pub enum StopReason {
    /// The program counter has left memory at its upper end.
    EndOfMemory,
    /// The program counter is zero: the program has returned to a zeroed
    /// return address.
    ProgramReturned,
}

/// The architectural state: 32 general-purpose registers, the first of which
/// is always zero, the program counter, 4096 control and status registers,
/// and the bytes of memory.
#[verifier::ext_equal]
pub struct ArchState {
    pub regs: Seq<u64>,
    pub pc: u64,
    pub csrs: Seq<u64>,
    pub mem: Seq<u8>,
}

/// The state after an instruction, or why there is none.
pub type Transition = Result<ArchState, ExecError>;

impl ArchState {
    /// Every part has its size, and register 0 holds zero.
    pub open spec fn wf(self) -> bool {
        &&& self.regs.len() == 32
        &&& self.regs[0] == 0
        &&& self.csrs.len() == 4096
        &&& self.mem.len() == DRAM_SIZE
    }

    /// The state of a machine that was just made: everything is zero.
    pub open spec fn zeroed() -> ArchState {
        ArchState {
            regs: Seq::new(32, |i: int| 0u64),
            pc: 0,
            csrs: Seq::new(4096, |i: int| 0u64),
            mem: Seq::new(DRAM_SIZE as nat, |i: int| 0u8),
        }
    }

    /// The state after boot: the stack pointer `x2` is at the end of memory and
    /// the program counter at its start.
    pub open spec fn booted(self) -> ArchState {
        self.write_reg(2, (DRAM_BASE_ADDR + DRAM_SIZE) as u64).jump(DRAM_BASE_ADDR as u64)
    }

    /// What register `index` reads as. Register 0 reads as zero, and so does
    /// an index that names no register.
    pub open spec fn reg(self, index: int) -> u64 {
        if 0 < index < 32 {
            self.regs[index]
        } else {
            0
        }
    }

    /// The state after `value` is written to register `index`. A write to
    /// register 0, or to an index that names no register, changes nothing.
    pub open spec fn write_reg(self, index: int, value: u64) -> ArchState {
        if 0 < index < 32 {
            ArchState { regs: self.regs.update(index, value), ..self }
        } else {
            self
        }
    }

    /// What control and status register `index` reads as; zero for an index
    /// that names none.
    pub open spec fn csr(self, index: int) -> u64 {
        if 0 <= index < 4096 {
            self.csrs[index]
        } else {
            0
        }
    }

    /// The state after `value` is written to control and status register
    /// `index`. A write to an index that names none changes nothing.
    pub open spec fn write_csr(self, index: int, value: u64) -> ArchState {
        if 0 <= index < 4096 {
            ArchState { csrs: self.csrs.update(index, value), ..self }
        } else {
            self
        }
    }

    /// The state with the program counter at `pc`.
    pub open spec fn jump(self, pc: u64) -> ArchState {
        ArchState { pc, ..self }
    }

    /// The state with `mem` for its memory.
    pub open spec fn with_mem(self, mem: Seq<u8>) -> ArchState {
        ArchState { mem, ..self }
    }
}

/// The error for a word whose function fields name no instruction of its
/// class.
pub open spec fn unknown_funct(instr: u32) -> ExecError {
    ExecError::UnknownFunct { funct3: funct3(instr), funct7: funct7(instr) }
}

/// The state after the destination register of `instr` gets `value`, if there
/// is a value.
pub open spec fn write_back(s: ArchState, instr: u32, value: Option<u64>) -> Transition {
    match value {
        Some(v) => Ok(s.write_reg(rd(instr) as int, v)),
        None => Err(unknown_funct(instr)),
    }
}

/// OP-IMM: what the instruction computes from `a`, the value of its source
/// register, and its immediate. A shift takes its amount from six bits of the
/// word. For the right shifts the six bits above those say which of the two it
/// is, and a word with any other pattern there is no instruction.
pub open spec fn op_imm_value(instr: u32, a: u64) -> Option<u64> {
    let imm = imm_i(instr);
    let amount = shamt(instr) as u64;
    match funct3(instr) {
        // ADDI
        0 => Some(spec_add64(a, imm)),
        // SLLI
        1 => Some(spec_sll64(a, amount)),
        // SLTI
        2 => Some(spec_slt64(a, imm)),
        // SLTIU
        3 => Some(spec_sltu64(a, imm)),
        // XORI
        4 => Some(a ^ imm),
        // SRLI, SRAI
        5 => if funct6(instr) == 0x00 {
            Some(spec_srl64(a, amount))
        } else if funct6(instr) == 0x10 {
            Some(spec_sra64(a, amount))
        } else {
            None
        },
        // ORI
        6 => Some(a | imm),
        // ANDI
        _ => Some(a & imm),
    }
}

/// OP-IMM-32: what the instruction computes from the low 32 bits of `a` and
/// its immediate, sign-extended from 32 bits. The shift amount has five bits.
pub open spec fn op_imm_32_value(instr: u32, a: u64) -> Option<u64> {
    let amount = rs2(instr) as u64;
    match funct3(instr) {
        // ADDIW
        0 => Some(spec_addw(a, imm_i(instr))),
        // SLLIW
        1 => Some(spec_sllw(a, amount)),
        // SRLIW, SRAIW
        5 => if funct7(instr) == 0x00 {
            Some(spec_srlw(a, amount))
        } else if funct7(instr) == 0x20 {
            Some(spec_sraw(a, amount))
        } else {
            None
        },
        _ => None,
    }
}

/// OP: what the instruction computes from `a` and `b`, the values of its two
/// source registers. `funct7` is zero, but for SUB and SRA.
pub open spec fn op_value(instr: u32, a: u64, b: u64) -> Option<u64> {
    let f3 = funct3(instr);
    let f7 = funct7(instr);
    if f7 == 0x00 {
        match f3 {
            // ADD
            0 => Some(spec_add64(a, b)),
            // SLL
            1 => Some(spec_sll64(a, b)),
            // SLT
            2 => Some(spec_slt64(a, b)),
            // SLTU
            3 => Some(spec_sltu64(a, b)),
            // XOR
            4 => Some(a ^ b),
            // SRL
            5 => Some(spec_srl64(a, b)),
            // OR
            6 => Some(a | b),
            // AND
            _ => Some(a & b),
        }
    } else if f7 == 0x20 {
        match f3 {
            // SUB
            0 => Some(spec_sub64(a, b)),
            // SRA
            5 => Some(spec_sra64(a, b)),
            _ => None,
        }
    } else {
        None
    }
}

/// OP-32: what the instruction computes from the low 32 bits of `a` and `b`,
/// sign-extended from 32 bits.
pub open spec fn op_32_value(instr: u32, a: u64, b: u64) -> Option<u64> {
    let f3 = funct3(instr);
    let f7 = funct7(instr);
    if f7 == 0x00 {
        match f3 {
            // ADDW
            0 => Some(spec_addw(a, b)),
            // SLLW
            1 => Some(spec_sllw(a, b)),
            // SRLW
            5 => Some(spec_srlw(a, b)),
            _ => None,
        }
    } else if f7 == 0x20 {
        match f3 {
            // SUBW
            0 => Some(spec_subw(a, b)),
            // SRAW
            5 => Some(spec_sraw(a, b)),
            _ => None,
        }
    } else {
        None
    }
}

/// BRANCH: whether the branch is taken, `a` and `b` being the values of its
/// two source registers.
pub open spec fn branch_taken(instr: u32, a: u64, b: u64) -> Option<bool> {
    match funct3(instr) {
        // BEQ
        0 => Some(a == b),
        // BNE
        1 => Some(a != b),
        // BLT
        4 => Some(signed64(a) < signed64(b)),
        // BGE
        5 => Some(signed64(a) >= signed64(b)),
        // BLTU
        6 => Some(a < b),
        // BGEU
        7 => Some(a >= b),
        _ => None,
    }
}

/// LOAD: the width of the access in bits.
pub open spec fn load_bits(instr: u32) -> Option<int> {
    match funct3(instr) {
        // LB, LBU
        0 | 4 => Some(8),
        // LH, LHU
        1 | 5 => Some(16),
        // LW, LWU
        2 | 6 => Some(32),
        // LD
        3 => Some(64),
        _ => None,
    }
}

/// STORE: the width of the access in bits.
pub open spec fn store_bits(instr: u32) -> Option<int> {
    match funct3(instr) {
        // SB
        0 => Some(8),
        // SH
        1 => Some(16),
        // SW
        2 => Some(32),
        // SD
        3 => Some(64),
        _ => None,
    }
}

/// The number of values of `bits` bits, for the widths of a memory access.
pub open spec fn width_modulus(bits: int) -> int {
    if bits == 8 {
        0x100
    } else if bits == 16 {
        0x1_0000
    } else if bits == 32 {
        0x1_0000_0000
    } else {
        0x1_0000_0000_0000_0000
    }
}

/// LOAD: the register value that the `bits` bits `raw` read from memory
/// become: sign-extended from their width where `funct3` is below 4,
/// zero-extended else.
pub open spec fn loaded_value(instr: u32, bits: int, raw: nat) -> u64 {
    if funct3(instr) < 4 {
        sign_extend(raw as int, width_modulus(bits))
    } else {
        raw as u64
    }
}

/// OP-IMM: the destination register gets what `op_imm_value` gives.
pub open spec fn execute_imm(s: ArchState, instr: u32) -> Transition {
    write_back(s, instr, op_imm_value(instr, s.reg(rs1(instr) as int)))
}

/// OP-IMM-32: the destination register gets what `op_imm_32_value` gives.
pub open spec fn execute_imm_32(s: ArchState, instr: u32) -> Transition {
    write_back(s, instr, op_imm_32_value(instr, s.reg(rs1(instr) as int)))
}

/// OP: the destination register gets what `op_value` gives.
pub open spec fn execute_r_type(s: ArchState, instr: u32) -> Transition {
    write_back(
        s,
        instr,
        op_value(instr, s.reg(rs1(instr) as int), s.reg(rs2(instr) as int)),
    )
}

/// OP-32: the destination register gets what `op_32_value` gives.
pub open spec fn execute_r_type_32(s: ArchState, instr: u32) -> Transition {
    write_back(
        s,
        instr,
        op_32_value(instr, s.reg(rs1(instr) as int), s.reg(rs2(instr) as int)),
    )
}

/// LUI: the destination register gets the U-type immediate.
pub open spec fn execute_lui(s: ArchState, instr: u32) -> ArchState {
    s.write_reg(rd(instr) as int, imm_u(instr))
}

/// AUIPC: the destination register gets the program counter plus the U-type
/// immediate.
pub open spec fn execute_auipc(s: ArchState, instr: u32) -> ArchState {
    s.write_reg(rd(instr) as int, spec_add64(s.pc, imm_u(instr)))
}

/// JAL: the destination register gets the address of the next instruction,
/// and the program counter moves by the J-type immediate.
pub open spec fn execute_jal(s: ArchState, instr: u32) -> ArchState {
    s.write_reg(rd(instr) as int, spec_add64(s.pc, 4)).jump(spec_add64(s.pc, imm_j(instr)))
}

/// JALR: the target is the source register plus the I-type immediate, with
/// its lowest bit cleared. It is taken before the destination register gets
/// the address of the next instruction, so both may be the same register.
pub open spec fn execute_jalr(s: ArchState, instr: u32) -> ArchState {
    let sum = spec_add64(s.reg(rs1(instr) as int), imm_i(instr));
    let target = (sum - sum % 2) as u64;
    s.write_reg(rd(instr) as int, spec_add64(s.pc, 4)).jump(target)
}

/// BRANCH: the program counter moves by the B-type immediate if the branch is
/// taken, and to the next instruction if it is not.
pub open spec fn execute_branch(s: ArchState, instr: u32) -> Transition {
    match branch_taken(instr, s.reg(rs1(instr) as int), s.reg(rs2(instr) as int)) {
        Some(taken) => Ok(
            s.jump(
                if taken {
                    spec_add64(s.pc, imm_b(instr))
                } else {
                    spec_add64(s.pc, 4)
                },
            ),
        ),
        None => Err(unknown_funct(instr)),
    }
}

/// The address that a load or store of `bits` bits reaches, if the access
/// lies inside memory. An address outside memory is refused before the width
/// is looked at, and an access that starts inside memory and ends outside is
/// refused too.
pub open spec fn checked_access(instr: u32, addr: u64, bits: Option<int>) -> Result<int, ExecError> {
    if !in_dram(addr as int, 1) {
        Err(ExecError::InvalidAddress { addr })
    } else {
        match bits {
            None => Err(unknown_funct(instr)),
            Some(bits) => if in_dram(addr as int, bits / 8) {
                Ok(bits)
            } else {
                Err(ExecError::InvalidAddress { addr })
            },
        }
    }
}

/// LOAD: the destination register gets what memory holds at the source
/// register plus the I-type immediate.
pub open spec fn execute_load(s: ArchState, instr: u32) -> Transition {
    let addr = spec_add64(s.reg(rs1(instr) as int), imm_i(instr));
    match checked_access(instr, addr, load_bits(instr)) {
        Ok(bits) => Ok(
            s.write_reg(
                rd(instr) as int,
                loaded_value(instr, bits, load(s.mem, addr as int, bits)),
            ),
        ),
        Err(e) => Err(e),
    }
}

/// STORE: memory gets the low bytes of the second source register at the
/// first source register plus the S-type immediate.
pub open spec fn execute_store(s: ArchState, instr: u32) -> Transition {
    let addr = spec_add64(s.reg(rs1(instr) as int), imm_s(instr));
    match checked_access(instr, addr, store_bits(instr)) {
        Ok(bits) => Ok(
            s.with_mem(store(s.mem, addr as int, bits, s.reg(rs2(instr) as int) as nat)),
        ),
        Err(e) => Err(e),
    }
}

/// SYSTEM: the value that a CSR instruction writes, `old` being what the
/// control and status register held and `operand` the source register's value
/// or the 5-bit immediate. A write, CSRRW or CSRRWI, always writes its
/// operand. A set or a clear whose `rs1` field is zero only reads: `None`.
pub open spec fn csr_new_value(instr: u32, old: u64, operand: u64) -> Option<u64> {
    match funct3(instr) {
        // CSRRW, CSRRWI
        1 | 5 => Some(operand),
        // CSRRS, CSRRSI
        2 | 6 => if rs1(instr) == 0 {
            None
        } else {
            Some(old | operand)
        },
        // CSRRC, CSRRCI
        _ => if rs1(instr) == 0 {
            None
        } else {
            Some(old & !operand)
        },
    }
}

/// SYSTEM: ECALL and EBREAK change nothing. A CSR instruction takes the old
/// value of the control and status register and its operand from the state
/// before it: the operand of the register forms is the source register, that
/// of the immediate forms the `rs1` field itself. Then the destination
/// register gets the old value, and the control and status register is
/// written as `csr_new_value` says. So source and destination may be the same
/// register: the control and status register gets what the register held,
/// and the register what the control and status register held.
pub open spec fn execute_system_csr(s: ArchState, instr: u32) -> Transition {
    let f3 = funct3(instr);
    if f3 == 0 {
        Ok(s)
    } else if f3 == 4 {
        Err(unknown_funct(instr))
    } else {
        let index = csr_addr(instr) as int;
        let old = s.csr(index);
        let operand = if f3 < 4 {
            s.reg(rs1(instr) as int)
        } else {
            rs1(instr) as u64
        };
        let read = s.write_reg(rd(instr) as int, old);
        match csr_new_value(instr, old, operand) {
            Some(value) => Ok(read.write_csr(index, value)),
            None => Ok(read),
        }
    }
}

/// The instruction word at the program counter.
pub open spec fn fetch(s: ArchState) -> u32 {
    load(s.mem, s.pc as int, 32) as u32
}

/// Whether a machine that went from `before` to `after` and answered `res` did
/// what `t` asks: it reached the state and answered `Ok`, or it answered with
/// the error and changed nothing.
pub open spec fn carried_out(
    t: Transition,
    before: ArchState,
    after: ArchState,
    res: Result<(), ExecError>,
) -> bool {
    match t {
        Ok(next) => res is Ok && after == next,
        Err(e) => res == Err::<(), ExecError>(e) && after == before,
    }
}

/// Whether the instruction sets the program counter itself: a jump or a
/// branch. After any other the program counter is as it was, and moving on
/// is left to the driver.
pub open spec fn is_control_transfer(instr: u32) -> bool {
    opcode(instr) == 0x6f || opcode(instr) == 0x67 || opcode(instr) == 0x63
}

/// One instruction: the opcode chooses the class. FENCE changes nothing.
pub open spec fn execute(s: ArchState, instr: u32) -> Transition {
    match opcode(instr) {
        0x13 => execute_imm(s, instr),
        0x1b => execute_imm_32(s, instr),
        0x37 => Ok(execute_lui(s, instr)),
        0x17 => Ok(execute_auipc(s, instr)),
        0x6f => Ok(execute_jal(s, instr)),
        0x67 => Ok(execute_jalr(s, instr)),
        0x63 => execute_branch(s, instr),
        0x03 => execute_load(s, instr),
        0x23 => execute_store(s, instr),
        0x33 => execute_r_type(s, instr),
        0x3b => execute_r_type_32(s, instr),
        0x0f => Ok(s),
        0x73 => execute_system_csr(s, instr),
        _ => Err(ExecError::UnknownOpcode { opcode: opcode(instr) }),
    }
}

/// Why the run ends in this state, if it does.
pub open spec fn stop_reason(s: ArchState) -> Option<StopReason> {
    if s.pc >= DRAM_BASE_ADDR + DRAM_SIZE {
        Some(StopReason::EndOfMemory)
    } else if s.pc == 0 {
        Some(StopReason::ProgramReturned)
    } else {
        None
    }
}

/// The state after the driver has moved on from `instr`: the program counter
/// goes to the next word, unless the instruction has set it itself.
pub open spec fn advance(s: ArchState, instr: u32) -> ArchState {
    if is_control_transfer(instr) {
        s
    } else {
        s.jump(spec_add64(s.pc, 4))
    }
}

/// One cycle of the driver: fetch at the program counter, execute, move on.
/// After a fatal error the state is as it was, with the program counter still
/// at the word that failed; after an access outside memory the run goes on
/// with the next instruction.
pub open spec fn cycle(s: ArchState) -> (ArchState, Result<(), ExecError>) {
    let instr = fetch(s);
    match execute(s, instr) {
        Ok(next) => (advance(next, instr), Ok(())),
        Err(e) => (
            if e.fatal() {
                s
            } else {
                advance(s, instr)
            },
            Err(e),
        ),
    }
}

/// Register 0 reads as zero in every state, whatever an instruction has
/// written to it.
pub proof fn lemma_x0_reads_zero(s: ArchState, instr: u32, value: u64)
    ensures
        s.reg(0) == 0,
        s.write_reg(0, value) == s,
        execute(s, instr) matches Ok(next) ==> next.reg(0) == 0,
        cycle(s).0.reg(0) == 0,
{
}

/// Every instruction, and every cycle of the driver, leads from a
/// well-formed state to a well-formed state.
pub proof fn lemma_execute_keeps_wf(s: ArchState, instr: u32)
    requires
        s.wf(),
    ensures
        execute(s, instr) matches Ok(next) ==> next.wf(),
        cycle(s).0.wf(),
{
    assert(execute_store(s, instr) matches Ok(next) ==> next.wf());
}

/// A machine that was just made and booted has the stack pointer `x2` at the
/// end of memory, the program counter at its start, and zero everywhere else.
pub proof fn lemma_boot_state(index: int)
    ensures
        ArchState::zeroed().wf(),
        ArchState::zeroed().booted().wf(),
        ArchState::zeroed().booted().pc == DRAM_BASE_ADDR,
        ArchState::zeroed().booted().reg(2) == DRAM_BASE_ADDR + DRAM_SIZE,
        index != 2 ==> ArchState::zeroed().booted().reg(index) == 0,
        ArchState::zeroed().booted().csr(index) == 0,
        0 <= index < DRAM_SIZE ==> ArchState::zeroed().booted().mem[index] == 0,
{
}

/// A load gets back what a store of the same width has just put at the same
/// address: the low bits of the stored register, extended as the load
/// extends. With the full width that is the stored register itself.
pub proof fn lemma_store_then_load(s: ArchState, store_instr: u32, load_instr: u32)
    requires
        s.wf(),
        rs1(store_instr) == rs1(load_instr),
        imm_s(store_instr) == imm_i(load_instr),
        store_bits(store_instr) is Some,
        store_bits(store_instr) == load_bits(load_instr),
        execute_store(s, store_instr) is Ok,
    ensures
        ({
            let bits = store_bits(store_instr)->0;
            let stored = s.reg(rs2(store_instr) as int);
            let written = execute_store(s, store_instr)->Ok_0;
            let read = execute_load(written, load_instr);
            &&& read is Ok
            &&& rd(load_instr) != 0 ==> read->Ok_0.reg(rd(load_instr) as int) == loaded_value(
                load_instr,
                bits,
                (stored as int % width_modulus(bits)) as nat,
            )
            &&& rd(load_instr) != 0 && bits == 64 ==> read->Ok_0.reg(rd(load_instr) as int)
                == stored
        }),
{
    let bits = store_bits(store_instr)->0;
    let addr = spec_add64(s.reg(rs1(store_instr) as int), imm_s(store_instr));
    lemma_load_after_store(s.mem, addr as int, bits, s.reg(rs2(store_instr) as int) as nat);
    lemma2_to64();
}

/// A CSR instruction reads before it writes: the destination register gets
/// what the control and status register held before the instruction, and
/// what is written to the control and status register comes from what it and
/// the source register held before the instruction, also where source and
/// destination are the same register. CSRRW and CSRRWI write their operand
/// whatever the destination is.
pub proof fn lemma_csr_reads_before_it_writes(s: ArchState, instr: u32)
    requires
        s.wf(),
        funct3(instr) != 0,
        funct3(instr) != 4,
    ensures
        ({
            let index = csr_addr(instr) as int;
            let source = s.reg(rs1(instr) as int);
            let next = execute_system_csr(s, instr);
            &&& next is Ok
            &&& next->Ok_0.reg(rd(instr) as int) == if rd(instr) == 0 {
                0
            } else {
                s.csr(index)
            }
            &&& funct3(instr) == 1 ==> next->Ok_0.csr(index) == source
            &&& funct3(instr) == 5 ==> next->Ok_0.csr(index) == rs1(instr)
            &&& funct3(instr) == 2 && rs1(instr) != 0 ==> next->Ok_0.csr(index) == s.csr(index)
                | source
            &&& funct3(instr) == 3 && rs1(instr) != 0 ==> next->Ok_0.csr(index) == s.csr(index)
                & !source
            &&& funct3(instr) == 6 && rs1(instr) != 0 ==> next->Ok_0.csr(index) == s.csr(index)
                | rs1(instr) as u64
            &&& funct3(instr) == 7 && rs1(instr) != 0 ==> next->Ok_0.csr(index) == s.csr(index)
                & !(rs1(instr) as u64)
            &&& funct3(instr) != 1 && funct3(instr) != 5 && rs1(instr) == 0 ==> next->Ok_0.csr(
                index,
            ) == s.csr(index)
        }),
{
}

/// Arithmetic never traps: whether an instruction of the four arithmetic
/// classes is carried out depends on the instruction word alone, not on what
/// the registers hold.
pub proof fn lemma_arithmetic_never_traps(s: ArchState, t: ArchState, instr: u32)
    ensures
        execute_imm(s, instr) is Ok <==> execute_imm(t, instr) is Ok,
        execute_imm_32(s, instr) is Ok <==> execute_imm_32(t, instr) is Ok,
        execute_r_type(s, instr) is Ok <==> execute_r_type(t, instr) is Ok,
        execute_r_type_32(s, instr) is Ok <==> execute_r_type_32(t, instr) is Ok,
{
}

/// An instruction that is no jump and no branch leaves the program counter as
/// it was.
pub proof fn lemma_pc_kept(s: ArchState, instr: u32)
    requires
        !is_control_transfer(instr),
    ensures
        execute(s, instr) matches Ok(next) ==> next.pc == s.pc,
{
}

} // verus!
