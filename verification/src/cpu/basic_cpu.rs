//! The machine: registers, program counter, control and status registers and
//! memory, and the functions that decode and execute instructions on them.
//!
//! The state of a machine is an `ArchState`, its view. The contract of each
//! executor names the transition of `isa` that it carries out: the machine
//! reaches the state that the transition gives and answers `Ok`, or it
//! answers with the transition's error and is left as it was.

use crate::cpu::alu::{
    add64,
    addw,
    sext16,
    sext32,
    sext8,
    sll64,
    sllw,
    slt64,
    sltu64,
    sra64,
    sraw,
    srl64,
    srlw,
    sub64,
    subw,
};
use crate::cpu::decode;
use crate::cpu::isa;
use crate::cpu::isa::{carried_out, ArchState, ExecError, StopReason};
use crate::memory::dram::{in_dram, lemma_le_value_bound, DramMemory, DRAM_BASE_ADDR, DRAM_SIZE};
use vstd::arithmetic::power2::lemma2_to64;
use vstd::prelude::*;

verus! {

/// Number of general-purpose registers.
pub const REGISTERS_COUNT: usize = 32;

/// Number of control and status registers.
pub const CSR_COUNT: usize = 4096;

/// A register value.
pub type TReg = u64;

/// An instruction word.
pub type TInstr = u32;

/// An immediate, sign-extended to the width of a register.
pub type TImm = u64;

pub struct BasicCpu {
    /// General-purpose registers. What cell 0 holds is never read.
    pub registers: [TReg; REGISTERS_COUNT],
    /// Program counter.
    pub pc: TReg,
    /// Memory.
    pub mem: DramMemory,
    /// Control and status registers.
    pub csr: [TReg; CSR_COUNT],
}

impl View for BasicCpu {
    type V = ArchState;

    open spec fn view(&self) -> ArchState {
        ArchState {
            regs: Seq::new(
                32,
                |i: int|
                    if i == 0 {
                        0u64
                    } else {
                        self.registers@[i]
                    },
            ),
            pc: self.pc,
            csrs: self.csr@,
            mem: self.mem@,
        }
    }
}

impl BasicCpu {
    /// The memory has its full size. Nothing else can be wrong with a machine.
    pub open spec fn wf(&self) -> bool {
        self.mem.wf()
    }

    /// The state of a machine with well-formed memory is a well-formed state.
    pub proof fn lemma_view_wf(&self)
        requires
            self.wf(),
        ensures
            self@.wf(),
    {
    }

    /// A machine with every register, the program counter and all of memory
    /// at zero.
    pub fn new() -> (cpu: BasicCpu)
        ensures
            cpu.wf(),
            cpu@ == ArchState::zeroed(),
    {
        let cpu = BasicCpu {
            registers: [0; REGISTERS_COUNT],
            pc: 0,
            mem: DramMemory::new(),
            csr: [0; CSR_COUNT],
        };
        assert(cpu@.regs =~= ArchState::zeroed().regs);
        assert(cpu@.csrs =~= ArchState::zeroed().csrs);
        assert(cpu@.mem =~= ArchState::zeroed().mem);
        cpu
    }

    /// Boots the machine: the stack pointer `x2` goes to the end of memory and
    /// the program counter to its start.
    pub fn init(&mut self)
        ensures
            final(self)@ == old(self)@.booted(),
    {
        self.registers[0] = 0;
        self.registers[2] = (DRAM_BASE_ADDR + DRAM_SIZE) as TReg;
        self.pc = DRAM_BASE_ADDR as TReg;
        assert(self@.regs =~= old(self)@.booted().regs);
    }

    /// Reads register `idx`, or rejects the index if it is 32 or more.
    /// Register 0 reads as zero.
    pub fn read_register(&self, idx: usize) -> (res: Result<TReg, ExecError>)
        ensures
            res == if idx < 32 {
                Ok::<TReg, ExecError>(self@.reg(idx as int))
            } else {
                Err::<TReg, ExecError>(ExecError::InvalidRegisterIndex { idx })
            },
    {
        if idx >= REGISTERS_COUNT {
            Err(ExecError::InvalidRegisterIndex { idx })
        } else if idx == 0 {
            Ok(0)
        } else {
            Ok(self.registers[idx])
        }
    }

    /// Writes register `idx`, or rejects the index if it is 32 or more and
    /// changes nothing. A write to register 0 is accepted and dropped.
    pub fn write_register(&mut self, idx: usize, value: TReg) -> (res: Result<(), ExecError>)
        ensures
            final(self)@ == old(self)@.write_reg(idx as int, value),
            res == if idx < 32 {
                Ok::<(), ExecError>(())
            } else {
                Err::<(), ExecError>(ExecError::InvalidRegisterIndex { idx })
            },
    {
        if idx >= REGISTERS_COUNT {
            return Err(ExecError::InvalidRegisterIndex { idx });
        }
        if idx != 0 {
            self.registers[idx] = value;
            assert(self@.regs =~= old(self)@.regs.update(idx as int, value));
        }
        Ok(())
    }

    /// Reads register `idx`. Register 0 reads as zero, and so does an index of
    /// 32 or more.
    pub fn get_register(&self, idx: usize) -> (value: TReg)
        ensures
            value == self@.reg(idx as int),
    {
        match self.read_register(idx) {
            Ok(value) => value,
            Err(_) => 0,
        }
    }

    /// Writes register `idx`. A write to register 0, or to an index of 32 or
    /// more, is dropped.
    pub fn set_register(&mut self, idx: usize, value: TReg)
        ensures
            final(self)@ == old(self)@.write_reg(idx as int, value),
    {
        let _ = self.write_register(idx, value);
    }

    /// Reads the program counter.
    pub fn get_pc(&self) -> (pc: TReg)
        ensures
            pc == self@.pc,
    {
        self.pc
    }

    /// Sets the program counter.
    pub fn set_pc(&mut self, pc: TReg)
        ensures
            final(self)@ == old(self)@.jump(pc),
    {
        self.pc = pc;
    }

    /// Reads control and status register `idx`, or rejects the index if it is
    /// 4096 or more.
    pub fn read_csr(&self, idx: usize) -> (res: Result<TReg, ExecError>)
        ensures
            res == if idx < 4096 {
                Ok::<TReg, ExecError>(self@.csr(idx as int))
            } else {
                Err::<TReg, ExecError>(ExecError::InvalidCsrIndex { idx })
            },
    {
        if idx >= CSR_COUNT {
            Err(ExecError::InvalidCsrIndex { idx })
        } else {
            Ok(self.csr[idx])
        }
    }

    /// Writes control and status register `idx`, or rejects the index if it
    /// is 4096 or more and changes nothing.
    pub fn write_csr(&mut self, idx: usize, value: TReg) -> (res: Result<(), ExecError>)
        ensures
            final(self)@ == old(self)@.write_csr(idx as int, value),
            res == if idx < 4096 {
                Ok::<(), ExecError>(())
            } else {
                Err::<(), ExecError>(ExecError::InvalidCsrIndex { idx })
            },
    {
        if idx >= CSR_COUNT {
            return Err(ExecError::InvalidCsrIndex { idx });
        }
        self.csr[idx] = value;
        Ok(())
    }

    /// Reads control and status register `idx`; zero for an index of 4096 or
    /// more.
    pub fn get_csr(&self, idx: usize) -> (value: TReg)
        ensures
            value == self@.csr(idx as int),
    {
        match self.read_csr(idx) {
            Ok(value) => value,
            Err(_) => 0,
        }
    }

    /// Writes control and status register `idx`. A write to an index of 4096
    /// or more is dropped.
    pub fn set_csr(&mut self, idx: usize, value: TReg)
        ensures
            final(self)@ == old(self)@.write_csr(idx as int, value),
    {
        let _ = self.write_csr(idx, value);
    }

    /// The major opcode: bits 6..0.
    pub fn instr_opcode(&self, instr: TInstr) -> (field: TInstr)
        ensures
            field == decode::opcode(instr),
    {
        proof {
            decode::lemma_field_bits(instr);
        }
        instr & 0x7f
    }

    /// The index of the destination register: bits 11..7.
    pub fn instr_rd(&self, instr: TInstr) -> (field: TInstr)
        ensures
            field == decode::rd(instr),
    {
        proof {
            decode::lemma_field_bits(instr);
        }
        (instr >> 7) & 0x1f
    }

    /// The function field in bits 14..12.
    pub fn instr_func3(&self, instr: TInstr) -> (field: TInstr)
        ensures
            field == decode::funct3(instr),
    {
        proof {
            decode::lemma_field_bits(instr);
        }
        (instr >> 12) & 0x07
    }

    /// The index of the first source register: bits 19..15.
    pub fn instr_rs1(&self, instr: TInstr) -> (field: TInstr)
        ensures
            field == decode::rs1(instr),
    {
        proof {
            decode::lemma_field_bits(instr);
        }
        (instr >> 15) & 0x1f
    }

    /// The 5-bit field that holds the second source register or the amount of
    /// a 32-bit shift.
    pub fn instr_rs2_shamt(&self, instr: TInstr) -> (field: TInstr)
        ensures
            field == decode::rs2(instr),
    {
        proof {
            decode::lemma_field_bits(instr);
        }
        (instr >> 20) & 0x1f
    }

    /// The 6-bit amount of a 64-bit shift.
    pub fn instr_shamt(&self, instr: TInstr) -> (field: TInstr)
        ensures
            field == decode::shamt(instr),
    {
        proof {
            decode::lemma_field_bits(instr);
        }
        (instr >> 20) & 0x3f
    }

    /// The function field in bits 31..25.
    pub fn instr_funct7(&self, instr: TInstr) -> (field: TInstr)
        ensures
            field == decode::funct7(instr),
    {
        proof {
            decode::lemma_field_bits(instr);
        }
        (instr >> 25) & 0x7f
    }

    /// The six bits of `funct7` that lie above a 6-bit shift amount.
    pub fn instr_funct6(&self, instr: TInstr) -> (field: TInstr)
        ensures
            field == decode::funct6(instr),
    {
        proof {
            decode::lemma_field_bits(instr);
        }
        (instr >> 26) & 0x3f
    }

    /// The immediate of an I-type instruction, sign-extended.
    pub fn instr_imm_i(&self, instr: TInstr) -> (imm: TImm)
        ensures
            imm == decode::imm_i(instr),
    {
        proof {
            decode::lemma_immediate_bits(instr);
        }
        ((instr as i32) >> 20) as i64 as u64
    }

    /// The immediate of an S-type instruction, sign-extended.
    pub fn instr_imm_s(&self, instr: TInstr) -> (imm: TImm)
        ensures
            imm == decode::imm_s(instr),
    {
        proof {
            decode::lemma_immediate_bits(instr);
        }
        let upper: TImm = (((instr & 0xfe00_0000) as i32) >> 20) as i64 as u64;
        let lower: TImm = ((instr >> 7) & 0x1f) as u64;
        upper | lower
    }

    /// The immediate of a U-type instruction, sign-extended.
    pub fn instr_imm_u(&self, instr: TInstr) -> (imm: TImm)
        ensures
            imm == decode::imm_u(instr),
    {
        proof {
            decode::lemma_immediate_bits(instr);
        }
        (instr & 0xffff_f000) as i32 as i64 as u64
    }

    /// The immediate of a B-type instruction, sign-extended.
    pub fn instr_imm_b(&self, instr: TInstr) -> (imm: TImm)
        ensures
            imm == decode::imm_b(instr),
    {
        proof {
            decode::lemma_immediate_bits(instr);
        }
        let bits: TInstr = ((instr & 0x8000_0000) >> 19) | ((instr & 0x80) << 4) | ((instr >> 20)
            & 0x7e0) | ((instr >> 7) & 0x1e);
        (((bits << 19) as i32) >> 19) as i64 as u64
    }

    /// The immediate of a J-type instruction, sign-extended.
    pub fn instr_imm_j(&self, instr: TInstr) -> (imm: TImm)
        ensures
            imm == decode::imm_j(instr),
    {
        proof {
            decode::lemma_immediate_bits(instr);
        }
        let bits: TInstr = ((instr & 0x8000_0000) >> 11) | (instr & 0xf_f000) | ((instr >> 9)
            & 0x800) | ((instr >> 20) & 0x7fe);
        (((bits << 11) as i32) >> 11) as i64 as u64
    }

    /// The address of a control and status register: bits 31..20.
    pub fn instr_csr_addr(&self, instr: TInstr) -> (field: TInstr)
        ensures
            field == decode::csr_addr(instr),
    {
        proof {
            decode::lemma_field_bits(instr);
        }
        (instr >> 20) & 0xfff
    }

    /// Whether the instruction is a jump or a branch, which set the program
    /// counter themselves.
    pub fn is_control_transfer(&self, instr: TInstr) -> (transfers: bool)
        ensures
            transfers == isa::is_control_transfer(instr),
    {
        let opcode: TInstr = self.instr_opcode(instr);
        opcode == 0b1101111 || opcode == 0b1100111 || opcode == 0b1100011
    }

    /// Reads the instruction word that the program counter points at.
    pub fn fetch_instr(&mut self) -> (instr: TInstr)
        requires
            old(self).wf(),
            in_dram(old(self)@.pc as int, 4),
        ensures
            *final(self) == *old(self),
            instr == isa::fetch(old(self)@),
    {
        proof {
            lemma_le_value_bound(
                self.mem@.subrange(self.pc - DRAM_BASE_ADDR, self.pc - DRAM_BASE_ADDR + 4),
            );
            lemma2_to64();
        }
        self.mem.dram_read(self.pc as usize, 32) as TInstr
    }

    /// Whether a whole instruction word lies in memory at the program counter.
    pub fn can_fetch(&self) -> (inside: bool)
        ensures
            inside == in_dram(self@.pc as int, 4),
    {
        DramMemory::contains(self.pc, 32)
    }

    /// Why the run ends here, if it does: the program counter has left memory
    /// at its upper end, or it is zero.
    pub fn stop_reason(&self) -> (reason: Option<StopReason>)
        ensures
            reason == isa::stop_reason(self@),
    {
        if self.pc >= (DRAM_BASE_ADDR + DRAM_SIZE) as TReg {
            Some(StopReason::EndOfMemory)
        } else if self.pc == 0 {
            Some(StopReason::ProgramReturned)
        } else {
            None
        }
    }

    /// One cycle of the driver: fetches the word at the program counter,
    /// executes it and moves the program counter on by 4, unless the
    /// instruction is a jump or a branch, which set it themselves. After a
    /// fatal error nothing has changed.
    pub fn step(&mut self) -> (res: Result<(), ExecError>)
        requires
            old(self).wf(),
            in_dram(old(self)@.pc as int, 4),
        ensures
            final(self).wf(),
            final(self)@ == isa::cycle(old(self)@).0,
            res == isa::cycle(old(self)@).1,
    {
        let instr: TInstr = self.fetch_instr();
        let res = self.execute_instr(instr);
        let transfers: bool = self.is_control_transfer(instr);
        let moves_on: bool = match res {
            Ok(_) => !transfers,
            Err(e) => !e.is_fatal() && !transfers,
        };
        if moves_on {
            let pc: TReg = self.get_pc();
            self.set_pc(add64(pc, 4));
        }
        assert(res matches Ok(unit) ==> unit == ());
        res
    }

    /// Executes one instruction: the opcode chooses the class, and a word
    /// whose opcode names none is refused. The program counter is set by jumps
    /// and branches only: after any other instruction it is as it was.
    pub fn execute_instr(&mut self, instr: TInstr) -> (res: Result<(), ExecError>)
        requires
            old(self).wf(),
        ensures
            final(self).wf(),
            carried_out(isa::execute(old(self)@, instr), old(self)@, final(self)@, res),
    {
        let opcode: TInstr = self.instr_opcode(instr);
        match opcode {
            0b0010011 => self.execute_imm(instr),
            0b0011011 => self.execute_imm_32(instr),
            0b0110111 => {
                self.execute_lui(instr);
                Ok(())
            },
            0b0010111 => {
                self.execute_auipc(instr);
                Ok(())
            },
            0b1101111 => {
                self.execute_jal(instr);
                Ok(())
            },
            0b1100111 => {
                self.execute_jalr(instr);
                Ok(())
            },
            0b1100011 => self.execute_branch(instr),
            0b0000011 => self.execute_load(instr),
            0b0100011 => self.execute_store(instr),
            0b0110011 => self.execute_r_type(instr),
            0b0111011 => self.execute_r_type_32(instr),
            0b0001111 => {
                self.execute_fence(instr);
                Ok(())
            },
            0b1110011 => self.execute_system_csr(instr),
            _ => Err(ExecError::UnknownOpcode { opcode }),
        }
    }

    /// OP-IMM: ADDI, SLTI, SLTIU, XORI, ORI, ANDI, SLLI, SRLI, SRAI. The
    /// destination register gets the result of the operation on the source
    /// register and the sign-extended immediate, or on the source register and
    /// the 6-bit shift amount. A right shift whose upper six bits are neither
    /// `000000` nor `010000` is refused.
    pub fn execute_imm(&mut self, instr: TInstr) -> (res: Result<(), ExecError>)
        ensures
            carried_out(isa::execute_imm(old(self)@, instr), old(self)@, final(self)@, res),
    {
        let func3: TInstr = self.instr_func3(instr);
        let rd: TInstr = self.instr_rd(instr);
        let rs1: TInstr = self.instr_rs1(instr);
        let imm: TImm = self.instr_imm_i(instr);
        let shamt: u64 = self.instr_shamt(instr) as u64;
        let func6: TInstr = self.instr_funct6(instr);
        let func7: TInstr = self.instr_funct7(instr);
        let a: TReg = self.get_register(rs1 as usize);
        let value: TReg = match func3 {
            0b000 => add64(a, imm),
            0b001 => sll64(a, shamt),
            0b010 => slt64(a, imm),
            0b011 => sltu64(a, imm),
            0b100 => a ^ imm,
            0b101 => match func6 {
                0b000000 => srl64(a, shamt),
                0b010000 => sra64(a, shamt),
                _ => {
                    return Err(ExecError::UnknownFunct { funct3: func3, funct7: func7 });
                },
            },
            0b110 => a | imm,
            _ => a & imm,
        };
        self.set_register(rd as usize, value);
        Ok(())
    }

    /// OP-IMM-32: ADDIW, SLLIW, SRLIW, SRAIW. As OP-IMM, on the low 32 bits
    /// and with a 5-bit shift amount; the 32-bit result is sign-extended.
    pub fn execute_imm_32(&mut self, instr: TInstr) -> (res: Result<(), ExecError>)
        ensures
            carried_out(isa::execute_imm_32(old(self)@, instr), old(self)@, final(self)@, res),
    {
        let func3: TInstr = self.instr_func3(instr);
        let rd: TInstr = self.instr_rd(instr);
        let rs1: TInstr = self.instr_rs1(instr);
        let imm: TImm = self.instr_imm_i(instr);
        let shamt: u64 = self.instr_rs2_shamt(instr) as u64;
        let func7: TInstr = self.instr_funct7(instr);
        let a: TReg = self.get_register(rs1 as usize);
        let value: TReg = match (func3, func7) {
            (0b000, _) => addw(a, imm),
            (0b001, _) => sllw(a, shamt),
            (0b101, 0b0000000) => srlw(a, shamt),
            (0b101, 0b0100000) => sraw(a, shamt),
            _ => {
                return Err(ExecError::UnknownFunct { funct3: func3, funct7: func7 });
            },
        };
        self.set_register(rd as usize, value);
        Ok(())
    }

    /// LUI: the destination register gets the sign-extended U-type immediate.
    pub fn execute_lui(&mut self, instr: TInstr)
        ensures
            final(self)@ == isa::execute_lui(old(self)@, instr),
    {
        let rd: TInstr = self.instr_rd(instr);
        let imm: TImm = self.instr_imm_u(instr);
        self.set_register(rd as usize, imm);
    }

    /// AUIPC: the destination register gets the program counter plus the
    /// sign-extended U-type immediate.
    pub fn execute_auipc(&mut self, instr: TInstr)
        ensures
            final(self)@ == isa::execute_auipc(old(self)@, instr),
    {
        let rd: TInstr = self.instr_rd(instr);
        let imm: TImm = self.instr_imm_u(instr);
        let pc: TReg = self.get_pc();
        self.set_register(rd as usize, add64(pc, imm));
    }

    /// JAL: the destination register gets the address of the next
    /// instruction, and the program counter moves by the J-type immediate.
    pub fn execute_jal(&mut self, instr: TInstr)
        ensures
            final(self)@ == isa::execute_jal(old(self)@, instr),
    {
        let rd: TInstr = self.instr_rd(instr);
        let imm: TImm = self.instr_imm_j(instr);
        let pc: TReg = self.get_pc();
        self.set_register(rd as usize, add64(pc, 4));
        self.set_pc(add64(pc, imm));
    }

    /// JALR: the program counter goes to the source register plus the I-type
    /// immediate, lowest bit cleared, and the destination register gets the
    /// address of the next instruction. The target is taken first, so source
    /// and destination may be the same register.
    pub fn execute_jalr(&mut self, instr: TInstr)
        ensures
            final(self)@ == isa::execute_jalr(old(self)@, instr),
    {
        let rd: TInstr = self.instr_rd(instr);
        let rs1: TInstr = self.instr_rs1(instr);
        let imm: TImm = self.instr_imm_i(instr);
        let pc: TReg = self.get_pc();
        let sum: TReg = add64(self.get_register(rs1 as usize), imm);
        let target: TReg = sum & !1;
        assert(sum & !1 == sum - sum % 2) by (bit_vector);
        self.set_register(rd as usize, add64(pc, 4));
        self.set_pc(target);
    }

    /// BRANCH: BEQ, BNE, BLT, BGE, BLTU, BGEU. The two source registers are
    /// compared in all their 64 bits. The program counter moves by the B-type
    /// immediate if the branch is taken and by 4 if it is not: it is set
    /// either way.
    pub fn execute_branch(&mut self, instr: TInstr) -> (res: Result<(), ExecError>)
        ensures
            carried_out(isa::execute_branch(old(self)@, instr), old(self)@, final(self)@, res),
    {
        let func3: TInstr = self.instr_func3(instr);
        let rs1: TInstr = self.instr_rs1(instr);
        let rs2: TInstr = self.instr_rs2_shamt(instr);
        let func7: TInstr = self.instr_funct7(instr);
        let imm: TImm = self.instr_imm_b(instr);
        let pc: TReg = self.get_pc();
        let a: TReg = self.get_register(rs1 as usize);
        let b: TReg = self.get_register(rs2 as usize);
        let taken: bool = match func3 {
            0b000 => a == b,
            0b001 => a != b,
            0b100 => slt64(a, b) == 1,
            0b101 => slt64(a, b) == 0,
            0b110 => a < b,
            0b111 => a >= b,
            _ => {
                return Err(ExecError::UnknownFunct { funct3: func3, funct7: func7 });
            },
        };
        if taken {
            self.set_pc(add64(pc, imm));
        } else {
            self.set_pc(add64(pc, 4));
        }
        Ok(())
    }

    /// LOAD: LB, LH, LW, LD, LBU, LHU, LWU. The destination register gets the
    /// 1, 2, 4 or 8 bytes at the source register plus the I-type immediate,
    /// sign-extended or zero-extended. An access that does not lie inside
    /// memory is refused, and nothing is read.
    pub fn execute_load(&mut self, instr: TInstr) -> (res: Result<(), ExecError>)
        requires
            old(self).wf(),
        ensures
            final(self).wf(),
            carried_out(isa::execute_load(old(self)@, instr), old(self)@, final(self)@, res),
    {
        let func3: TInstr = self.instr_func3(instr);
        let rd: TInstr = self.instr_rd(instr);
        let rs1: TInstr = self.instr_rs1(instr);
        let func7: TInstr = self.instr_funct7(instr);
        let imm: TImm = self.instr_imm_i(instr);
        let addr: TReg = add64(self.get_register(rs1 as usize), imm);
        if !DramMemory::contains(addr, 8) {
            return Err(ExecError::InvalidAddress { addr });
        }
        let bits: usize = match func3 {
            0b000 | 0b100 => 8,
            0b001 | 0b101 => 16,
            0b010 | 0b110 => 32,
            0b011 => 64,
            _ => {
                return Err(ExecError::UnknownFunct { funct3: func3, funct7: func7 });
            },
        };
        if !DramMemory::contains(addr, bits) {
            return Err(ExecError::InvalidAddress { addr });
        }
        let raw: u64 = self.mem.dram_read(addr as usize, bits);
        proof {
            lemma_le_value_bound(
                self.mem@.subrange(addr - DRAM_BASE_ADDR, addr - DRAM_BASE_ADDR + bits / 8),
            );
            lemma2_to64();
        }
        let value: TReg = match func3 {
            0b000 => sext8(raw),
            0b001 => sext16(raw),
            0b010 => sext32(raw),
            _ => raw,
        };
        self.set_register(rd as usize, value);
        Ok(())
    }

    /// STORE: SB, SH, SW, SD. The low 1, 2, 4 or 8 bytes of the second source
    /// register go to memory at the first source register plus the S-type
    /// immediate. An access that does not lie inside memory is refused, and
    /// nothing is written.
    pub fn execute_store(&mut self, instr: TInstr) -> (res: Result<(), ExecError>)
        requires
            old(self).wf(),
        ensures
            final(self).wf(),
            carried_out(isa::execute_store(old(self)@, instr), old(self)@, final(self)@, res),
    {
        let func3: TInstr = self.instr_func3(instr);
        let rs1: TInstr = self.instr_rs1(instr);
        let rs2: TInstr = self.instr_rs2_shamt(instr);
        let func7: TInstr = self.instr_funct7(instr);
        let imm: TImm = self.instr_imm_s(instr);
        let addr: TReg = add64(self.get_register(rs1 as usize), imm);
        if !DramMemory::contains(addr, 8) {
            return Err(ExecError::InvalidAddress { addr });
        }
        let bits: usize = match func3 {
            0b000 => 8,
            0b001 => 16,
            0b010 => 32,
            0b011 => 64,
            _ => {
                return Err(ExecError::UnknownFunct { funct3: func3, funct7: func7 });
            },
        };
        if !DramMemory::contains(addr, bits) {
            return Err(ExecError::InvalidAddress { addr });
        }
        let value: TReg = self.get_register(rs2 as usize);
        self.mem.dram_write(addr as usize, bits, value);
        Ok(())
    }

    /// OP: ADD, SUB, SLL, SLT, SLTU, XOR, SRL, SRA, OR, AND. The destination
    /// register gets the result of the operation on the two source registers.
    /// A shift uses the low 6 bits of the second.
    pub fn execute_r_type(&mut self, instr: TInstr) -> (res: Result<(), ExecError>)
        ensures
            carried_out(isa::execute_r_type(old(self)@, instr), old(self)@, final(self)@, res),
    {
        let func3: TInstr = self.instr_func3(instr);
        let rd: TInstr = self.instr_rd(instr);
        let rs1: TInstr = self.instr_rs1(instr);
        let rs2: TInstr = self.instr_rs2_shamt(instr);
        let func7: TInstr = self.instr_funct7(instr);
        let a: TReg = self.get_register(rs1 as usize);
        let b: TReg = self.get_register(rs2 as usize);
        let value: TReg = match (func3, func7) {
            (0b000, 0b0000000) => add64(a, b),
            (0b000, 0b0100000) => sub64(a, b),
            (0b001, 0b0000000) => sll64(a, b),
            (0b010, 0b0000000) => slt64(a, b),
            (0b011, 0b0000000) => sltu64(a, b),
            (0b100, 0b0000000) => a ^ b,
            (0b101, 0b0000000) => srl64(a, b),
            (0b101, 0b0100000) => sra64(a, b),
            (0b110, 0b0000000) => a | b,
            (0b111, 0b0000000) => a & b,
            _ => {
                return Err(ExecError::UnknownFunct { funct3: func3, funct7: func7 });
            },
        };
        self.set_register(rd as usize, value);
        Ok(())
    }

    /// OP-32: ADDW, SUBW, SLLW, SRLW, SRAW. As OP, on the low 32 bits and
    /// with the low 5 bits of the shift amount; the 32-bit result is
    /// sign-extended.
    pub fn execute_r_type_32(&mut self, instr: TInstr) -> (res: Result<(), ExecError>)
        ensures
            carried_out(isa::execute_r_type_32(old(self)@, instr), old(self)@, final(self)@, res),
    {
        let func3: TInstr = self.instr_func3(instr);
        let rd: TInstr = self.instr_rd(instr);
        let rs1: TInstr = self.instr_rs1(instr);
        let rs2: TInstr = self.instr_rs2_shamt(instr);
        let func7: TInstr = self.instr_funct7(instr);
        let a: TReg = self.get_register(rs1 as usize);
        let b: TReg = self.get_register(rs2 as usize);
        let value: TReg = match (func3, func7) {
            (0b000, 0b0000000) => addw(a, b),
            (0b000, 0b0100000) => subw(a, b),
            (0b001, 0b0000000) => sllw(a, b),
            (0b101, 0b0000000) => srlw(a, b),
            (0b101, 0b0100000) => sraw(a, b),
            _ => {
                return Err(ExecError::UnknownFunct { funct3: func3, funct7: func7 });
            },
        };
        self.set_register(rd as usize, value);
        Ok(())
    }

    /// FENCE: memory accesses are in program order as it is, so there is
    /// nothing to do.
    pub fn execute_fence(&mut self, _instr: TInstr)
        ensures
            *final(self) == *old(self),
    {
    }

    /// SYSTEM: ECALL, EBREAK, CSRRW, CSRRS, CSRRC, CSRRWI, CSRRSI, CSRRCI.
    /// ECALL and EBREAK change nothing. A CSR instruction reads the control
    /// and status register and its operand, the source register or the 5-bit
    /// immediate, before it writes anything. Then the destination register
    /// gets the old value of the control and status register, and the control
    /// and status register is written: CSRRW and CSRRWI always, with the
    /// operand; the others set or clear the bits of their operand, unless
    /// their `rs1` field is zero.
    pub fn execute_system_csr(&mut self, instr: TInstr) -> (res: Result<(), ExecError>)
        ensures
            carried_out(isa::execute_system_csr(old(self)@, instr), old(self)@, final(self)@, res),
    {
        let func3: TInstr = self.instr_func3(instr);
        let rd: TInstr = self.instr_rd(instr);
        let rs1: TInstr = self.instr_rs1(instr);
        let csr_addr: TInstr = self.instr_csr_addr(instr);
        let func7: TInstr = self.instr_funct7(instr);
        if func3 == 0b000 {
            return Ok(());
        }
        if func3 == 0b100 {
            return Err(ExecError::UnknownFunct { funct3: func3, funct7: func7 });
        }
        let csr_value: TReg = self.get_csr(csr_addr as usize);
        let operand: TReg = if func3 < 0b100 {
            self.get_register(rs1 as usize)
        } else {
            rs1 as TReg
        };
        self.set_register(rd as usize, csr_value);
        match func3 {
            0b001 | 0b101 => {
                self.set_csr(csr_addr as usize, operand);
            },
            0b010 | 0b110 => {
                if rs1 != 0 {
                    self.set_csr(csr_addr as usize, csr_value | operand);
                }
            },
            _ => {
                if rs1 != 0 {
                    self.set_csr(csr_addr as usize, csr_value & !operand);
                }
            },
        }
        Ok(())
    }
}

} // verus!
