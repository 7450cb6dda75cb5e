use vstd::prelude::*;
use crate::opcodes::AddressingMode;
use crate::opcodes::Mnemonic;
use crate::opcodes::lookup_opcode;
use crate::semantics::CpuView;
use crate::semantics::RunError;
use crate::semantics::obeys;
use crate::semantics::operand_address;
use crate::semantics::popped_value;
use crate::semantics::spec_and;
use crate::semantics::spec_asl;
use crate::semantics::spec_dec;
use crate::semantics::spec_dex;
use crate::semantics::spec_dey;
use crate::semantics::spec_eor;
use crate::semantics::spec_inc;
use crate::semantics::spec_inx;
use crate::semantics::spec_iny;
use crate::semantics::spec_lda;
use crate::semantics::spec_ldx;
use crate::semantics::spec_ldy;
use crate::semantics::spec_ora;
use crate::semantics::spec_pla;
use crate::semantics::spec_sta;
use crate::semantics::spec_stx;
use crate::semantics::spec_sty;
use crate::semantics::spec_tax;
use crate::semantics::spec_tay;
use crate::semantics::spec_tsx;
use crate::semantics::spec_txa;
use crate::semantics::spec_tya;
use crate::semantics::spec_load;
use crate::semantics::spec_pop;
use crate::semantics::spec_push;
use crate::semantics::spec_push_word;
use crate::semantics::spec_reset;
use crate::semantics::StepOutcome;
use crate::semantics::boot_state;
use crate::semantics::fails_from;
use crate::semantics::halts_from;
use crate::semantics::lemma_fails_witness;
use crate::semantics::loaded_memory;
use crate::semantics::lemma_halts_witness;
use crate::semantics::lemma_steps_to_extend;
use crate::semantics::lemma_step_lda;
use crate::semantics::lemma_step_ldx;
use crate::semantics::lemma_step_ldy;
use crate::semantics::lemma_step_sta;
use crate::semantics::lemma_step_stx;
use crate::semantics::lemma_step_sty;
use crate::semantics::lemma_step_and;
use crate::semantics::lemma_step_eor;
use crate::semantics::lemma_step_ora;
use crate::semantics::lemma_step_inc;
use crate::semantics::lemma_step_dec;
use crate::semantics::lemma_step_asl;
use crate::semantics::lemma_step_inx;
use crate::semantics::lemma_step_iny;
use crate::semantics::lemma_step_dex;
use crate::semantics::lemma_step_dey;
use crate::semantics::lemma_step_tax;
use crate::semantics::lemma_step_tay;
use crate::semantics::lemma_step_tsx;
use crate::semantics::lemma_step_txa;
use crate::semantics::lemma_step_tya;
use crate::semantics::lemma_step_txs;
use crate::semantics::lemma_step_pla;
use crate::semantics::lemma_step_clc;
use crate::semantics::lemma_step_cld;
use crate::semantics::lemma_step_cli;
use crate::semantics::lemma_step_clv;
use crate::semantics::lemma_step_sec;
use crate::semantics::lemma_step_sed;
use crate::semantics::lemma_step_sei;
use crate::semantics::lemma_step_nop;
use crate::semantics::lemma_step_brk;
use crate::semantics::lemma_step_unrecognized;
use crate::semantics::lemma_step_unimplemented;
use crate::semantics::spec_step;
use crate::semantics::steps_to;
use crate::semantics::store_byte;
use crate::semantics::store_word;
use crate::semantics::word_at;
use crate::status::StatusFlags;
use crate::status::startup_status;
use crate::status::with_zero_negative;

verus! {

/// Base address of the fixed stack page (0x0100 through 0x01FF).
const STACK: u16 = 0x0100;

/// Stack pointer installed by reset: top of the page minus a small reserved
/// margin, matching real hardware startup.
const STACK_RESET: u8 = 0xfd;

/// Number of addressable bytes: the full 16-bit address space, so that the
/// top address 0xFFFF stays reachable.
const MEMORY_SIZE: usize = 0x10000;

/// The machine: registers, status, and the flat byte-addressable memory the
/// stack page and reset vector live in.
pub struct CPU {
    pub register_a: u8,
    pub register_x: u8,
    pub register_y: u8,
    pub status: StatusFlags,
    pub program_counter: u16,
    pub stack_pointer: u8,
    memory: Vec<u8>,
}

impl View for CPU {
    type V = CpuView;

    closed spec fn view(&self) -> CpuView {
        CpuView {
            a: self.register_a,
            x: self.register_x,
            y: self.register_y,
            status: self.status,
            pc: self.program_counter,
            sp: self.stack_pointer,
            mem: self.memory@,
        }
    }
}

impl CPU {
    /// The memory vector spans the whole address space.
    pub open spec fn wf(&self) -> bool {
        self@.wf()
    }

    /// A machine with cleared registers, the startup status pattern, and
    /// all of memory zeroed.
    pub fn new() -> (cpu: CPU)
        ensures
            cpu.wf(),
            cpu@ == (CpuView {
                a: 0,
                x: 0,
                y: 0,
                status: startup_status(),
                pc: 0,
                sp: 0,
                mem: Seq::new(0x10000, |i: int| 0u8),
            }),
    {
        let mut memory: Vec<u8> = Vec::new();
        while memory.len() < MEMORY_SIZE
            invariant
                memory@.len() <= 0x10000,
                forall|i: int| 0 <= i < memory@.len() ==> memory@[i] == 0u8,
            decreases 0x10000 - memory@.len(),
        {
            memory.push(0);
        }
        let cpu = CPU {
            register_a: 0,
            register_x: 0,
            register_y: 0,
            status: StatusFlags {
                carry: false,
                zero: false,
                interrupt_disable: true,
                decimal: false,
                break_flag: false,
                break2: false,
                overflow: false,
                negative: true,
            },
            program_counter: 0,
            stack_pointer: 0,
            memory,
        };
        proof {
            assert(cpu@.mem =~= Seq::new(0x10000, |i: int| 0u8));
        }
        cpu
    }

    /// Read the byte at an address.
    pub fn mem_read(&self, addr: u16) -> (value: u8)
        requires
            self.wf(),
        ensures
            value == self@.mem[addr as int],
    {
        self.memory[addr as usize]
    }

    /// Write a byte at an address.
    pub fn mem_write(&mut self, addr: u16, value: u8)
        requires
            old(self).wf(),
        ensures
            final(self).wf(),
            final(self)@ == store_byte(old(self)@, addr, value),
    {
        self.memory.set(addr as usize, value);
    }

    /// Read a little-endian 16-bit value: low byte at `pos`, high byte at
    /// `pos + 1`, wrapping around the top of memory rather than failing.
    pub fn mem_read_u16(&self, pos: u16) -> (value: u16)
        requires
            self.wf(),
        ensures
            value == word_at(self@.mem, pos),
    {
        let lo = self.mem_read(pos);
        let hi = self.mem_read(pos.wrapping_add(1));
        (hi as u16) * 256 + (lo as u16)
    }

    /// Write a little-endian 16-bit value: low byte at `pos`, high byte at
    /// `pos + 1`, wrapping around the top of memory rather than failing.
    pub fn mem_write_u16(&mut self, pos: u16, value: u16)
        requires
            old(self).wf(),
        ensures
            final(self).wf(),
            final(self)@ == store_word(old(self)@, pos, value),
    {
        let lo = (value % 256) as u8;
        let hi = (value / 256) as u8;
        self.mem_write(pos, lo);
        self.mem_write(pos.wrapping_add(1), hi);
    }

    /// Write at the slot the stack pointer names, then move the pointer
    /// down, wrapping at 8 bits.
    pub fn stack_push(&mut self, value: u8)
        requires
            old(self).wf(),
        ensures
            final(self).wf(),
            final(self)@ == spec_push(old(self)@, value),
    {
        self.mem_write(STACK + self.stack_pointer as u16, value);
        self.stack_pointer = self.stack_pointer.wrapping_sub(1);
    }

    /// Move the pointer up, wrapping at 8 bits, then read at the slot it
    /// names.
    pub fn stack_pop(&mut self) -> (value: u8)
        requires
            old(self).wf(),
        ensures
            final(self).wf(),
            final(self)@ == spec_pop(old(self)@),
            value == popped_value(old(self)@),
    {
        self.stack_pointer = self.stack_pointer.wrapping_add(1);
        self.mem_read(STACK + self.stack_pointer as u16)
    }

    /// Push a 16-bit value, high byte first, so the low byte ends up nearer
    /// the top of the stack.
    pub fn stack_push_u16(&mut self, value: u16)
        requires
            old(self).wf(),
        ensures
            final(self).wf(),
            final(self)@ == spec_push_word(old(self)@, value),
    {
        let hi = (value / 256) as u8;
        let lo = (value % 256) as u8;
        self.stack_push(hi);
        self.stack_push(lo);
    }

    /// Pop a 16-bit value: low byte first, then high byte, reassembled
    /// little-endian.
    pub fn stack_pop_u16(&mut self) -> (value: u16)
        requires
            old(self).wf(),
        ensures
            final(self).wf(),
            final(self)@ == spec_pop(spec_pop(old(self)@)),
            value == popped_value(old(self)@) + 256 * popped_value(spec_pop(old(self)@)),
    {
        let lo = self.stack_pop();
        let hi = self.stack_pop();
        (hi as u16) * 256 + (lo as u16)
    }

    /// Effective operand address for a mode, with the program counter
    /// pointing at the first operand byte; `None` exactly for
    /// `NoneAddressing`, which callers must branch on before resolving.
    #[verifier::rlimit(60)]
    pub fn get_operand_address(&self, mode: AddressingMode) -> (r: Option<u16>)
        requires
            self.wf(),
        ensures
            r == operand_address(self@, mode),
    {
        match mode {
            AddressingMode::Immediate => Some(self.program_counter),
            AddressingMode::ZeroPage => Some(self.mem_read(self.program_counter) as u16),
            AddressingMode::ZeroPage_X => Some(
                self.mem_read(self.program_counter).wrapping_add(self.register_x) as u16,
            ),
            AddressingMode::ZeroPage_Y => Some(
                self.mem_read(self.program_counter).wrapping_add(self.register_y) as u16,
            ),
            AddressingMode::Absolute => Some(self.mem_read_u16(self.program_counter)),
            AddressingMode::Absolute_X => Some(
                self.mem_read_u16(self.program_counter).wrapping_add(self.register_x as u16),
            ),
            AddressingMode::Absolute_Y => Some(
                self.mem_read_u16(self.program_counter).wrapping_add(self.register_y as u16),
            ),
            AddressingMode::Indirect_X => {
                let base = self.mem_read(self.program_counter);
                let ptr = base.wrapping_add(self.register_x);
                let lo = self.mem_read(ptr as u16);
                let hi = self.mem_read(ptr.wrapping_add(1) as u16);
                Some((hi as u16) * 256 + (lo as u16))
            },
            AddressingMode::Indirect_Y => {
                let base = self.mem_read(self.program_counter);
                let lo = self.mem_read(base as u16);
                let hi = self.mem_read(base.wrapping_add(1) as u16);
                let base_addr = (hi as u16) * 256 + (lo as u16);
                Some(base_addr.wrapping_add(self.register_y as u16))
            },
            AddressingMode::NoneAddressing => None,
        }
    }

    /// Recompute Zero and Negative from a result byte; no other flag moves.
    pub fn update_zero_and_negative_flags(&mut self, result: u8)
        ensures
            final(self)@ == (CpuView {
                status: with_zero_negative(old(self)@.status, result),
                ..old(self)@
            }),
    {
        self.status.zero = result == 0;
        self.status.negative = (result & 0b1000_0000) != 0;
    }

    /// LDA: operand into the accumulator, Zero/Negative derived from it.
    fn lda(&mut self, mode: AddressingMode) -> (r: Result<(), RunError>)
        requires
            old(self).wf(),
        ensures
            final(self).wf(),
            obeys(old(self)@, final(self)@, r, spec_lda(old(self)@, mode)),
    {
        match self.get_operand_address(mode) {
            Some(addr) => {
                let value = self.mem_read(addr);
                self.register_a = value;
                self.update_zero_and_negative_flags(value);
                Ok(())
            },
            None => Err(RunError::UnsupportedAddressingModeForOperation),
        }
    }

    /// LDX: operand into register X, Zero/Negative derived from it.
    fn ldx(&mut self, mode: AddressingMode) -> (r: Result<(), RunError>)
        requires
            old(self).wf(),
        ensures
            final(self).wf(),
            obeys(old(self)@, final(self)@, r, spec_ldx(old(self)@, mode)),
    {
        match self.get_operand_address(mode) {
            Some(addr) => {
                let value = self.mem_read(addr);
                self.register_x = value;
                self.update_zero_and_negative_flags(value);
                Ok(())
            },
            None => Err(RunError::UnsupportedAddressingModeForOperation),
        }
    }

    /// LDY: operand into register Y, Zero/Negative derived from it.
    fn ldy(&mut self, mode: AddressingMode) -> (r: Result<(), RunError>)
        requires
            old(self).wf(),
        ensures
            final(self).wf(),
            obeys(old(self)@, final(self)@, r, spec_ldy(old(self)@, mode)),
    {
        match self.get_operand_address(mode) {
            Some(addr) => {
                let value = self.mem_read(addr);
                self.register_y = value;
                self.update_zero_and_negative_flags(value);
                Ok(())
            },
            None => Err(RunError::UnsupportedAddressingModeForOperation),
        }
    }

    /// STA: accumulator into the operand address; no flag effect.
    fn sta(&mut self, mode: AddressingMode) -> (r: Result<(), RunError>)
        requires
            old(self).wf(),
        ensures
            final(self).wf(),
            obeys(old(self)@, final(self)@, r, spec_sta(old(self)@, mode)),
    {
        match self.get_operand_address(mode) {
            Some(addr) => {
                self.mem_write(addr, self.register_a);
                Ok(())
            },
            None => Err(RunError::UnsupportedAddressingModeForOperation),
        }
    }

    /// STX: register X into the operand address; no flag effect.
    fn stx(&mut self, mode: AddressingMode) -> (r: Result<(), RunError>)
        requires
            old(self).wf(),
        ensures
            final(self).wf(),
            obeys(old(self)@, final(self)@, r, spec_stx(old(self)@, mode)),
    {
        match self.get_operand_address(mode) {
            Some(addr) => {
                self.mem_write(addr, self.register_x);
                Ok(())
            },
            None => Err(RunError::UnsupportedAddressingModeForOperation),
        }
    }

    /// STY: register Y into the operand address; no flag effect.
    fn sty(&mut self, mode: AddressingMode) -> (r: Result<(), RunError>)
        requires
            old(self).wf(),
        ensures
            final(self).wf(),
            obeys(old(self)@, final(self)@, r, spec_sty(old(self)@, mode)),
    {
        match self.get_operand_address(mode) {
            Some(addr) => {
                self.mem_write(addr, self.register_y);
                Ok(())
            },
            None => Err(RunError::UnsupportedAddressingModeForOperation),
        }
    }

    /// AND: accumulator gets accumulator AND operand, flags derived from
    /// the result.
    fn and(&mut self, mode: AddressingMode) -> (r: Result<(), RunError>)
        requires
            old(self).wf(),
        ensures
            final(self).wf(),
            obeys(old(self)@, final(self)@, r, spec_and(old(self)@, mode)),
    {
        match self.get_operand_address(mode) {
            Some(addr) => {
                let value = self.register_a & self.mem_read(addr);
                self.register_a = value;
                self.update_zero_and_negative_flags(value);
                Ok(())
            },
            None => Err(RunError::UnsupportedAddressingModeForOperation),
        }
    }

    /// EOR: accumulator gets accumulator XOR operand, flags derived from
    /// the result.
    fn eor(&mut self, mode: AddressingMode) -> (r: Result<(), RunError>)
        requires
            old(self).wf(),
        ensures
            final(self).wf(),
            obeys(old(self)@, final(self)@, r, spec_eor(old(self)@, mode)),
    {
        match self.get_operand_address(mode) {
            Some(addr) => {
                let value = self.register_a ^ self.mem_read(addr);
                self.register_a = value;
                self.update_zero_and_negative_flags(value);
                Ok(())
            },
            None => Err(RunError::UnsupportedAddressingModeForOperation),
        }
    }

    /// ORA: accumulator gets accumulator OR operand, flags derived from
    /// the result.
    fn ora(&mut self, mode: AddressingMode) -> (r: Result<(), RunError>)
        requires
            old(self).wf(),
        ensures
            final(self).wf(),
            obeys(old(self)@, final(self)@, r, spec_ora(old(self)@, mode)),
    {
        match self.get_operand_address(mode) {
            Some(addr) => {
                let value = self.register_a | self.mem_read(addr);
                self.register_a = value;
                self.update_zero_and_negative_flags(value);
                Ok(())
            },
            None => Err(RunError::UnsupportedAddressingModeForOperation),
        }
    }

    /// INC: memory operand plus 1 wrapping at 8 bits, written back, flags
    /// derived from the written value.
    fn inc(&mut self, mode: AddressingMode) -> (r: Result<(), RunError>)
        requires
            old(self).wf(),
        ensures
            final(self).wf(),
            obeys(old(self)@, final(self)@, r, spec_inc(old(self)@, mode)),
    {
        match self.get_operand_address(mode) {
            Some(addr) => {
                let value = self.mem_read(addr).wrapping_add(1);
                self.mem_write(addr, value);
                self.update_zero_and_negative_flags(value);
                Ok(())
            },
            None => Err(RunError::UnsupportedAddressingModeForOperation),
        }
    }

    /// DEC: memory operand minus 1 wrapping at 8 bits, written back, flags
    /// derived from the written value.
    fn dec(&mut self, mode: AddressingMode) -> (r: Result<(), RunError>)
        requires
            old(self).wf(),
        ensures
            final(self).wf(),
            obeys(old(self)@, final(self)@, r, spec_dec(old(self)@, mode)),
    {
        match self.get_operand_address(mode) {
            Some(addr) => {
                let value = self.mem_read(addr).wrapping_sub(1);
                self.mem_write(addr, value);
                self.update_zero_and_negative_flags(value);
                Ok(())
            },
            None => Err(RunError::UnsupportedAddressingModeForOperation),
        }
    }

    /// ASL: shift the operand left one bit; Carry takes the outgoing bit 7
    /// and Zero/Negative come from the shifted value. With `NoneAddressing`
    /// the operand is the accumulator, so the mode is branched on before
    /// any resolution is attempted.
    fn asl(&mut self, mode: AddressingMode)
        requires
            old(self).wf(),
        ensures
            final(self).wf(),
            final(self)@ == spec_asl(old(self)@, mode),
    {
        match mode {
            AddressingMode::NoneAddressing => {
                let value = self.register_a;
                self.status.carry = (value & 0x80) != 0;
                let shifted = value << 1u8;
                self.register_a = shifted;
                self.update_zero_and_negative_flags(shifted);
            },
            _ => {
                let addr = self.get_operand_address(mode).unwrap();
                let value = self.mem_read(addr);
                self.status.carry = (value & 0x80) != 0;
                let shifted = value << 1u8;
                self.mem_write(addr, shifted);
                self.update_zero_and_negative_flags(shifted);
            },
        }
    }

    /// INX: register X plus 1 wrapping at 8 bits, flags derived from it.
    fn inx(&mut self)
        ensures
            final(self)@ == spec_inx(old(self)@),
    {
        self.register_x = self.register_x.wrapping_add(1);
        self.update_zero_and_negative_flags(self.register_x);
    }

    /// INY: register Y plus 1 wrapping at 8 bits, flags derived from it.
    fn iny(&mut self)
        ensures
            final(self)@ == spec_iny(old(self)@),
    {
        self.register_y = self.register_y.wrapping_add(1);
        self.update_zero_and_negative_flags(self.register_y);
    }

    /// DEX: register X minus 1 wrapping at 8 bits, flags derived from it.
    fn dex(&mut self)
        ensures
            final(self)@ == spec_dex(old(self)@),
    {
        self.register_x = self.register_x.wrapping_sub(1);
        self.update_zero_and_negative_flags(self.register_x);
    }

    /// DEY: register Y minus 1 wrapping at 8 bits, flags derived from it.
    fn dey(&mut self)
        ensures
            final(self)@ == spec_dey(old(self)@),
    {
        self.register_y = self.register_y.wrapping_sub(1);
        self.update_zero_and_negative_flags(self.register_y);
    }

    /// TAX: accumulator into register X, flags derived from it.
    fn tax(&mut self)
        ensures
            final(self)@ == spec_tax(old(self)@),
    {
        self.register_x = self.register_a;
        self.update_zero_and_negative_flags(self.register_x);
    }

    /// TAY: accumulator into register Y, flags derived from it.
    fn tay(&mut self)
        ensures
            final(self)@ == spec_tay(old(self)@),
    {
        self.register_y = self.register_a;
        self.update_zero_and_negative_flags(self.register_y);
    }

    /// TSX: stack pointer into register X, flags derived from it.
    fn tsx(&mut self)
        ensures
            final(self)@ == spec_tsx(old(self)@),
    {
        self.register_x = self.stack_pointer;
        self.update_zero_and_negative_flags(self.register_x);
    }

    /// TXA: register X into the accumulator, flags derived from it.
    fn txa(&mut self)
        ensures
            final(self)@ == spec_txa(old(self)@),
    {
        self.register_a = self.register_x;
        self.update_zero_and_negative_flags(self.register_a);
    }

    /// TYA: register Y into the accumulator, flags derived from it.
    fn tya(&mut self)
        ensures
            final(self)@ == spec_tya(old(self)@),
    {
        self.register_a = self.register_y;
        self.update_zero_and_negative_flags(self.register_a);
    }

    /// PLA: pop a byte into the accumulator. Unlike the loads, this pull
    /// derives no flags; the contract states that deliberate choice.
    fn pla(&mut self)
        requires
            old(self).wf(),
        ensures
            final(self).wf(),
            final(self)@ == spec_pla(old(self)@),
    {
        let value = self.stack_pop();
        self.register_a = value;
    }

    /// Zero the general-purpose registers, restore the startup stack
    /// pointer and status pattern, and fetch the program counter from the
    /// reset vector; the rest of memory is left alone.
    pub fn reset(&mut self)
        requires
            old(self).wf(),
        ensures
            final(self).wf(),
            final(self)@ == spec_reset(old(self)@),
    {
        self.register_a = 0;
        self.register_x = 0;
        self.register_y = 0;
        self.stack_pointer = STACK_RESET;
        self.status = StatusFlags {
            carry: false,
            zero: false,
            interrupt_disable: true,
            decimal: false,
            break_flag: false,
            break2: false,
            overflow: false,
            negative: true,
        };
        self.program_counter = self.mem_read_u16(0xFFFC);
    }

    /// Copy a program image to the fixed origin 0x8000 and point the reset
    /// vector at it. The image must fit under the top of the address space.
    pub fn load(&mut self, program: Vec<u8>)
        requires
            old(self).wf(),
            program@.len() <= 0x8000,
        ensures
            final(self).wf(),
            final(self)@ == spec_load(old(self)@, program@),
    {
        let mut i: usize = 0;
        while i < program.len()
            invariant
                old(self).wf(),
                self.wf(),
                i <= program@.len(),
                program@.len() <= 0x8000,
                self@.a == old(self)@.a,
                self@.x == old(self)@.x,
                self@.y == old(self)@.y,
                self@.status == old(self)@.status,
                self@.pc == old(self)@.pc,
                self@.sp == old(self)@.sp,
                forall|j: int| 0 <= j < i ==> self@.mem[0x8000 + j] == program@[j],
                forall|j: int|
                    0 <= j < 0x10000 && !(0x8000 <= j < 0x8000 + i) ==> self@.mem[j] == old(
                        self,
                    )@.mem[j],
            decreases program@.len() - i,
        {
            self.mem_write(0x8000 + (i as u16), program[i]);
            i = i + 1;
        }
        self.mem_write_u16(0xFFFC, 0x8000);
        proof {
            assert(self@.mem =~= loaded_memory(old(self)@.mem, program@));
            assert(self@ =~= spec_load(old(self)@, program@));
        }
    }

    /// Load a program image, reset, and run it to the halt instruction or
    /// a fatal condition.
    pub fn load_and_run(&mut self, program: Vec<u8>) -> (r: Result<(), RunError>)
        requires
            old(self).wf(),
            program@.len() <= 0x8000,
        ensures
            final(self).wf(),
            (match r {
                Ok(()) => halts_from(boot_state(old(self)@, program@), final(self)@),
                Err(RunError::StepBudgetExhausted) => steps_to(
                    boot_state(old(self)@, program@),
                    final(self)@,
                    0xFFFF_FFFF_FFFF_FFFF as nat,
                ),
                Err(e) => fails_from(boot_state(old(self)@, program@), final(self)@, e),
            }),
    {
        self.load(program);
        self.reset();
        self.run()
    }

    /// The fetch-decode-dispatch loop: read the opcode byte at the program
    /// counter, advance past it, look the byte up, and dispatch, until the
    /// halt instruction or a fatal condition. The final state is exactly
    /// what stepping the machine model from the starting state yields.
    /// Execute exactly one instruction: fetch the opcode byte at the
    /// program counter, advance past it, look the byte up, and dispatch.
    /// Returns `Ok(true)` when the instruction was the halt, `Ok(false)`
    /// when execution should go on, and the fatal conditions as errors; in
    /// every case the machine lands exactly where one step of the model
    /// says.
    #[verifier::rlimit(100)]
    #[verifier::spinoff_prover]
    pub fn step(&mut self) -> (r: Result<bool, RunError>)
        requires
            old(self).wf(),
        ensures
            final(self).wf(),
            (match r {
                Ok(false) => spec_step(old(self)@) == StepOutcome::Step(final(self)@),
                Ok(true) => spec_step(old(self)@) == StepOutcome::Halted(final(self)@),
                Err(e) => spec_step(old(self)@) == StepOutcome::Stopped(final(self)@, e),
            }),
            (r matches Err(e) ==> e != RunError::StepBudgetExhausted),
    {
        let ghost pre = self@;
        {
            let code = self.mem_read(self.program_counter);
            self.program_counter = self.program_counter.wrapping_add(1);
            let op = match lookup_opcode(code) {
                Some(op) => op,
                None => {
                    proof {
                        lemma_step_unrecognized(pre);
                    }
                    return Err(RunError::UnrecognizedOpcode(code));
                },
            };
            match op.mnemonic {
                Mnemonic::BRK => {
                    proof {
                        lemma_step_brk(pre, op);
                    }
                    return Ok(true);
                },
                Mnemonic::NOP => {
                    proof {
                        lemma_step_nop(pre, op);
                    }
                },
                Mnemonic::LDA => {
                    proof {
                        lemma_step_lda(pre, op);
                    }
                    if let Err(e) = self.lda(op.mode) {
                        return Err(e);
                    }
                },
                Mnemonic::LDX => {
                    proof {
                        lemma_step_ldx(pre, op);
                    }
                    if let Err(e) = self.ldx(op.mode) {
                        return Err(e);
                    }
                },
                Mnemonic::LDY => {
                    proof {
                        lemma_step_ldy(pre, op);
                    }
                    if let Err(e) = self.ldy(op.mode) {
                        return Err(e);
                    }
                },
                Mnemonic::STA => {
                    proof {
                        lemma_step_sta(pre, op);
                    }
                    if let Err(e) = self.sta(op.mode) {
                        return Err(e);
                    }
                },
                Mnemonic::STX => {
                    proof {
                        lemma_step_stx(pre, op);
                    }
                    if let Err(e) = self.stx(op.mode) {
                        return Err(e);
                    }
                },
                Mnemonic::STY => {
                    proof {
                        lemma_step_sty(pre, op);
                    }
                    if let Err(e) = self.sty(op.mode) {
                        return Err(e);
                    }
                },
                Mnemonic::AND => {
                    proof {
                        lemma_step_and(pre, op);
                    }
                    if let Err(e) = self.and(op.mode) {
                        return Err(e);
                    }
                },
                Mnemonic::EOR => {
                    proof {
                        lemma_step_eor(pre, op);
                    }
                    if let Err(e) = self.eor(op.mode) {
                        return Err(e);
                    }
                },
                Mnemonic::ORA => {
                    proof {
                        lemma_step_ora(pre, op);
                    }
                    if let Err(e) = self.ora(op.mode) {
                        return Err(e);
                    }
                },
                Mnemonic::INC => {
                    proof {
                        lemma_step_inc(pre, op);
                    }
                    if let Err(e) = self.inc(op.mode) {
                        return Err(e);
                    }
                },
                Mnemonic::DEC => {
                    proof {
                        lemma_step_dec(pre, op);
                    }
                    if let Err(e) = self.dec(op.mode) {
                        return Err(e);
                    }
                },
                Mnemonic::ASL => {
                    proof {
                        lemma_step_asl(pre, op);
                    }
                    self.asl(op.mode);
                },
                Mnemonic::INX => {
                    proof {
                        lemma_step_inx(pre, op);
                    }
                    self.inx();
                },
                Mnemonic::INY => {
                    proof {
                        lemma_step_iny(pre, op);
                    }
                    self.iny();
                },
                Mnemonic::DEX => {
                    proof {
                        lemma_step_dex(pre, op);
                    }
                    self.dex();
                },
                Mnemonic::DEY => {
                    proof {
                        lemma_step_dey(pre, op);
                    }
                    self.dey();
                },
                Mnemonic::TAX => {
                    proof {
                        lemma_step_tax(pre, op);
                    }
                    self.tax();
                },
                Mnemonic::TAY => {
                    proof {
                        lemma_step_tay(pre, op);
                    }
                    self.tay();
                },
                Mnemonic::TSX => {
                    proof {
                        lemma_step_tsx(pre, op);
                    }
                    self.tsx();
                },
                Mnemonic::TXA => {
                    proof {
                        lemma_step_txa(pre, op);
                    }
                    self.txa();
                },
                Mnemonic::TYA => {
                    proof {
                        lemma_step_tya(pre, op);
                    }
                    self.tya();
                },
                Mnemonic::TXS => {
                    proof {
                        lemma_step_txs(pre, op);
                    }
                    self.stack_pointer = self.register_x;
                },
                Mnemonic::PLA => {
                    proof {
                        lemma_step_pla(pre, op);
                    }
                    self.pla();
                },
                Mnemonic::CLC => {
                    proof {
                        lemma_step_clc(pre, op);
                    }
                    self.status.carry = false;
                },
                Mnemonic::CLD => {
                    proof {
                        lemma_step_cld(pre, op);
                    }
                    self.status.decimal = false;
                },
                Mnemonic::CLI => {
                    proof {
                        lemma_step_cli(pre, op);
                    }
                    self.status.interrupt_disable = false;
                },
                Mnemonic::CLV => {
                    proof {
                        lemma_step_clv(pre, op);
                    }
                    self.status.overflow = false;
                },
                Mnemonic::SEC => {
                    proof {
                        lemma_step_sec(pre, op);
                    }
                    self.status.carry = true;
                },
                Mnemonic::SED => {
                    proof {
                        lemma_step_sed(pre, op);
                    }
                    self.status.decimal = true;
                },
                Mnemonic::SEI => {
                    proof {
                        lemma_step_sei(pre, op);
                    }
                    self.status.interrupt_disable = true;
                },
                _ => {
                    proof {
                        lemma_step_unimplemented(pre, op);
                    }
                    return Err(RunError::UnimplementedOpcode(code));
                },
            }
            self.program_counter = self.program_counter.wrapping_add((op.bytes - 1) as u16);
            proof {
                assert(spec_step(pre) == StepOutcome::Step(self@));
            }
        }
        Ok(false)
    }

    /// The fetch-decode-dispatch loop: step until the halt instruction or
    /// a fatal condition. The final state is exactly what stepping the
    /// machine model from the starting state yields.
    pub fn run(&mut self) -> (r: Result<(), RunError>)
        requires
            old(self).wf(),
        ensures
            final(self).wf(),
            (match r {
                Ok(()) => halts_from(old(self)@, final(self)@),
                Err(RunError::StepBudgetExhausted) => steps_to(
                    old(self)@,
                    final(self)@,
                    0xFFFF_FFFF_FFFF_FFFF as nat,
                ),
                Err(e) => fails_from(old(self)@, final(self)@, e),
            }),
    {
        let ghost start = self@;
        let ghost mut n: nat = 0;
        let mut fuel: u64 = 0xFFFF_FFFF_FFFF_FFFF;
        loop
            invariant
                self.wf(),
                start == old(self)@,
                steps_to(start, self@, n),
                n + fuel == 0xFFFF_FFFF_FFFF_FFFF,
            decreases fuel,
        {
            if fuel == 0 {
                return Err(RunError::StepBudgetExhausted);
            }
            fuel = fuel - 1;
            let ghost pre = self@;
            match self.step() {
                Ok(false) => {
                    proof {
                        lemma_steps_to_extend(start, pre, self@, n);
                        n = n + 1;
                    }
                },
                Ok(true) => {
                    proof {
                        lemma_halts_witness(start, pre, self@, n);
                    }
                    return Ok(());
                },
                Err(e) => {
                    proof {
                        lemma_fails_witness(start, pre, self@, n, e);
                    }
                    return Err(e);
                },
            }
        }
    }
}

} // verus!
