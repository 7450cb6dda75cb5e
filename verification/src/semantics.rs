use vstd::prelude::*;
use crate::opcodes::AddressingMode;
use crate::opcodes::Mnemonic;
use crate::opcodes::OpCode;
use crate::opcodes::spec_lookup;
use crate::status::StatusFlags;
use crate::status::startup_status;
use crate::status::with_zero_negative;

verus! {

/// Why a run stopped without reaching the halt instruction.
#[derive(Clone, Copy, Debug, PartialEq, Eq, Structural)]
pub enum RunError {
    /// The fetched byte has no entry in the decode table at all: a corrupt
    /// program or a wrong memory layout.
    UnrecognizedOpcode(u8),
    /// The decode table knows the byte, but this build has no handler for
    /// its mnemonic: a feature gap, distinct from a corrupt program.
    UnimplementedOpcode(u8),
    /// A handler that needs a memory operand was dispatched with
    /// `NoneAddressing`: a decode-table/handler mismatch.
    UnsupportedAddressingModeForOperation,
    /// The run loop's finite step budget (2^64 - 1 instructions) ran out.
    /// The budget exists so that the loop's termination can be checked; a
    /// program still running after that many instructions stops with this
    /// signal and the machine state exactly as those instructions left it.
    StepBudgetExhausted,
}

/// Mathematical model of the whole machine: registers, status, stack
/// pointer, program counter, and the full 65536-byte memory.
#[verifier::ext_equal]
pub struct CpuView {
    pub a: u8,
    pub x: u8,
    pub y: u8,
    pub status: StatusFlags,
    pub pc: u16,
    pub sp: u8,
    pub mem: Seq<u8>,
}

impl CpuView {
    /// The address space holds exactly 65536 bytes, so that the top address
    /// 0xFFFF is reachable.
    pub open spec fn wf(self) -> bool {
        self.mem.len() == 0x10000
    }
}

/// 8-bit addition that wraps modulo 256.
pub open spec fn wrap_add8(a: u8, b: u8) -> u8 {
    ((a + b) % 256) as u8
}

/// 8-bit increment that wraps modulo 256.
pub open spec fn wrap_inc8(a: u8) -> u8 {
    wrap_add8(a, 1)
}

/// 8-bit decrement that wraps modulo 256.
pub open spec fn wrap_dec8(a: u8) -> u8 {
    ((a + 255) % 256) as u8
}

/// 16-bit addition that wraps modulo 65536.
pub open spec fn wrap_add16(a: u16, b: u16) -> u16 {
    ((a + b) % 0x10000) as u16
}

/// 16-bit increment that wraps modulo 65536.
pub open spec fn wrap_inc16(a: u16) -> u16 {
    wrap_add16(a, 1)
}

/// Little-endian 16-bit value at `pos`: low byte at `pos`, high byte at
/// `pos + 1`, the high-byte address wrapping around the top of memory.
pub open spec fn word_at(mem: Seq<u8>, pos: u16) -> u16 {
    (mem[pos as int] + 256 * mem[wrap_inc16(pos) as int]) as u16
}

/// Little-endian 16-bit value read through an 8-bit zero-page pointer: the
/// high-byte address wraps at 8 bits, so both reads stay within page 0.
pub open spec fn zero_page_word(mem: Seq<u8>, ptr: u8) -> u16 {
    (mem[ptr as int] + 256 * mem[wrap_inc8(ptr) as int]) as u16
}

/// Effective operand address for a mode, with the program counter pointing
/// at the first operand byte; `None` exactly for `NoneAddressing`, which has
/// no memory operand.
pub open spec fn operand_address(s: CpuView, mode: AddressingMode) -> Option<u16> {
    match mode {
        AddressingMode::Immediate => Some(s.pc),
        AddressingMode::ZeroPage => Some(s.mem[s.pc as int] as u16),
        AddressingMode::ZeroPage_X => Some(wrap_add8(s.mem[s.pc as int], s.x) as u16),
        AddressingMode::ZeroPage_Y => Some(wrap_add8(s.mem[s.pc as int], s.y) as u16),
        AddressingMode::Absolute => Some(word_at(s.mem, s.pc)),
        AddressingMode::Absolute_X => Some(wrap_add16(word_at(s.mem, s.pc), s.x as u16)),
        AddressingMode::Absolute_Y => Some(wrap_add16(word_at(s.mem, s.pc), s.y as u16)),
        AddressingMode::Indirect_X => Some(
            zero_page_word(s.mem, wrap_add8(s.mem[s.pc as int], s.x)),
        ),
        AddressingMode::Indirect_Y => Some(
            wrap_add16(zero_page_word(s.mem, s.mem[s.pc as int]), s.y as u16),
        ),
        AddressingMode::NoneAddressing => None,
    }
}

/// Zero-page indexed resolution never leaves page 0: whatever the register
/// holds, the 8-bit wraparound keeps the result at or below 0xFF.
pub proof fn lemma_zero_page_indexed_stays_in_page_zero(s: CpuView, mode: AddressingMode)
    requires
        mode == AddressingMode::ZeroPage_X || mode == AddressingMode::ZeroPage_Y,
    ensures
        operand_address(s, mode) matches Some(addr) && addr <= 0xFF,
{
}

/// Indirect resolution wraps its pointer lookup at 8 bits: the two bytes of
/// the base address are read from addresses at or below 0xFF (the high byte
/// from the pointer plus one, wrapping within page 0), even though the final
/// address is free to leave page 0.
pub proof fn lemma_indirect_pointer_stays_in_page_zero(s: CpuView)
    ensures
        ({
            let ptr = wrap_add8(s.mem[s.pc as int], s.x);
            &&& ptr == (s.mem[s.pc as int] + s.x) % 256
            &&& operand_address(s, AddressingMode::Indirect_X) == Some(
                zero_page_word(s.mem, ptr),
            )
            &&& ptr <= 0xFF
            &&& wrap_inc8(ptr) <= 0xFF
        }),
        ({
            let ptr = s.mem[s.pc as int];
            &&& operand_address(s, AddressingMode::Indirect_Y) == Some(
                wrap_add16(zero_page_word(s.mem, ptr), s.y as u16),
            )
            &&& ptr <= 0xFF
            &&& wrap_inc8(ptr) <= 0xFF
        }),
{
}

/// The byte the operand address points at.
pub open spec fn operand_value(s: CpuView, addr: u16) -> u8 {
    s.mem[addr as int]
}

/// Load a value into the accumulator and derive Zero/Negative from it.
pub open spec fn load_a(s: CpuView, value: u8) -> CpuView {
    CpuView { a: value, status: with_zero_negative(s.status, value), ..s }
}

/// Load a value into register X and derive Zero/Negative from it.
pub open spec fn load_x(s: CpuView, value: u8) -> CpuView {
    CpuView { x: value, status: with_zero_negative(s.status, value), ..s }
}

/// Load a value into register Y and derive Zero/Negative from it.
pub open spec fn load_y(s: CpuView, value: u8) -> CpuView {
    CpuView { y: value, status: with_zero_negative(s.status, value), ..s }
}

/// Write one byte of memory, leaving everything else alone.
pub open spec fn store_byte(s: CpuView, addr: u16, value: u8) -> CpuView {
    CpuView { mem: s.mem.update(addr as int, value), ..s }
}

/// LDA: operand into the accumulator, Zero/Negative derived from it.
pub open spec fn spec_lda(s: CpuView, mode: AddressingMode) -> Result<CpuView, RunError> {
        match operand_address(s, mode) {
        Some(addr) => Ok(load_a(s, operand_value(s, addr))),
        None => Err(RunError::UnsupportedAddressingModeForOperation),
    }
}

/// LDX: operand into register X, Zero/Negative derived from it.
pub open spec fn spec_ldx(s: CpuView, mode: AddressingMode) -> Result<CpuView, RunError> {
        match operand_address(s, mode) {
        Some(addr) => Ok(load_x(s, operand_value(s, addr))),
        None => Err(RunError::UnsupportedAddressingModeForOperation),
    }
}

/// LDY: operand into register Y, Zero/Negative derived from it.
pub open spec fn spec_ldy(s: CpuView, mode: AddressingMode) -> Result<CpuView, RunError> {
        match operand_address(s, mode) {
        Some(addr) => Ok(load_y(s, operand_value(s, addr))),
        None => Err(RunError::UnsupportedAddressingModeForOperation),
    }
}

/// STA: accumulator into the operand address, no flag effect.
pub open spec fn spec_sta(s: CpuView, mode: AddressingMode) -> Result<CpuView, RunError> {
        match operand_address(s, mode) {
        Some(addr) => Ok(store_byte(s, addr, s.a)),
        None => Err(RunError::UnsupportedAddressingModeForOperation),
    }
}

/// STX: register X into the operand address, no flag effect.
pub open spec fn spec_stx(s: CpuView, mode: AddressingMode) -> Result<CpuView, RunError> {
        match operand_address(s, mode) {
        Some(addr) => Ok(store_byte(s, addr, s.x)),
        None => Err(RunError::UnsupportedAddressingModeForOperation),
    }
}

/// STY: register Y into the operand address, no flag effect.
pub open spec fn spec_sty(s: CpuView, mode: AddressingMode) -> Result<CpuView, RunError> {
        match operand_address(s, mode) {
        Some(addr) => Ok(store_byte(s, addr, s.y)),
        None => Err(RunError::UnsupportedAddressingModeForOperation),
    }
}

/// AND: accumulator gets accumulator AND operand, flags derived from it.
pub open spec fn spec_and(s: CpuView, mode: AddressingMode) -> Result<CpuView, RunError> {
        match operand_address(s, mode) {
        Some(addr) => Ok(load_a(s, s.a & operand_value(s, addr))),
        None => Err(RunError::UnsupportedAddressingModeForOperation),
    }
}

/// EOR: accumulator gets accumulator XOR operand, flags derived from it.
pub open spec fn spec_eor(s: CpuView, mode: AddressingMode) -> Result<CpuView, RunError> {
        match operand_address(s, mode) {
        Some(addr) => Ok(load_a(s, s.a ^ operand_value(s, addr))),
        None => Err(RunError::UnsupportedAddressingModeForOperation),
    }
}

/// ORA: accumulator gets accumulator OR operand, flags derived from it.
pub open spec fn spec_ora(s: CpuView, mode: AddressingMode) -> Result<CpuView, RunError> {
        match operand_address(s, mode) {
        Some(addr) => Ok(load_a(s, s.a | operand_value(s, addr))),
        None => Err(RunError::UnsupportedAddressingModeForOperation),
    }
}

/// INC: memory operand plus 1 wrapping at 8 bits, written back, flags
/// derived from the written value.
pub open spec fn spec_inc(s: CpuView, mode: AddressingMode) -> Result<CpuView, RunError> {
    match operand_address(s, mode) {
        Some(addr) => Ok(
            CpuView {
                status: with_zero_negative(s.status, wrap_inc8(operand_value(s, addr))),
                ..store_byte(s, addr, wrap_inc8(operand_value(s, addr)))
            },
        ),
        None => Err(RunError::UnsupportedAddressingModeForOperation),
    }
}

/// DEC: memory operand minus 1 wrapping at 8 bits, written back, flags
/// derived from the written value.
pub open spec fn spec_dec(s: CpuView, mode: AddressingMode) -> Result<CpuView, RunError> {
    match operand_address(s, mode) {
        Some(addr) => Ok(
            CpuView {
                status: with_zero_negative(s.status, wrap_dec8(operand_value(s, addr))),
                ..store_byte(s, addr, wrap_dec8(operand_value(s, addr)))
            },
        ),
        None => Err(RunError::UnsupportedAddressingModeForOperation),
    }
}

/// ASL: shift the operand left one bit; Carry takes the outgoing bit 7, and
/// Zero/Negative are derived from the shifted value. With `NoneAddressing`
/// the operand is the accumulator, otherwise the addressed memory byte.
pub open spec fn spec_asl(s: CpuView, mode: AddressingMode) -> CpuView {
    if mode == AddressingMode::NoneAddressing {
        let value = s.a;
        let shifted = value << 1;
        CpuView {
            a: shifted,
            status: with_zero_negative(
                StatusFlags { carry: value & 0x80 != 0, ..s.status },
                shifted,
            ),
            ..s
        }
    } else {
        let addr = operand_address(s, mode)->Some_0;
        let value = operand_value(s, addr);
        let shifted = value << 1;
        CpuView {
            status: with_zero_negative(
                StatusFlags { carry: value & 0x80 != 0, ..s.status },
                shifted,
            ),
            ..store_byte(s, addr, shifted)
        }
    }
}

/// INX: register X plus 1 wrapping at 8 bits, flags derived from it.
pub open spec fn spec_inx(s: CpuView) -> CpuView {
    load_x(s, wrap_inc8(s.x))
}

/// INY: register Y plus 1 wrapping at 8 bits, flags derived from it.
pub open spec fn spec_iny(s: CpuView) -> CpuView {
    load_y(s, wrap_inc8(s.y))
}

/// DEX: register X minus 1 wrapping at 8 bits, flags derived from it.
pub open spec fn spec_dex(s: CpuView) -> CpuView {
    load_x(s, wrap_dec8(s.x))
}

/// DEY: register Y minus 1 wrapping at 8 bits, flags derived from it.
pub open spec fn spec_dey(s: CpuView) -> CpuView {
    load_y(s, wrap_dec8(s.y))
}

/// TAX: accumulator into register X, flags derived from it.
pub open spec fn spec_tax(s: CpuView) -> CpuView {
    load_x(s, s.a)
}

/// TAY: accumulator into register Y, flags derived from it.
pub open spec fn spec_tay(s: CpuView) -> CpuView {
    load_y(s, s.a)
}

/// TSX: stack pointer into register X, flags derived from it.
pub open spec fn spec_tsx(s: CpuView) -> CpuView {
    load_x(s, s.sp)
}

/// TXA: register X into the accumulator, flags derived from it.
pub open spec fn spec_txa(s: CpuView) -> CpuView {
    load_a(s, s.x)
}

/// TYA: register Y into the accumulator, flags derived from it.
pub open spec fn spec_tya(s: CpuView) -> CpuView {
    load_a(s, s.y)
}

/// TXS: register X into the stack pointer; the one transfer that sets no
/// flags.
pub open spec fn spec_txs(s: CpuView) -> CpuView {
    CpuView { sp: s.x, ..s }
}

/// The stack page sits at 0x0100 through 0x01FF.
pub open spec fn stack_slot(sp: u8) -> int {
    0x0100 + sp as int
}

/// Push: write at the slot the pointer names, then decrement the pointer
/// wrapping at 8 bits.
pub open spec fn spec_push(s: CpuView, value: u8) -> CpuView {
    CpuView { mem: s.mem.update(stack_slot(s.sp), value), sp: wrap_dec8(s.sp), ..s }
}

/// Pop: increment the pointer wrapping at 8 bits, then read at the slot it
/// names.
pub open spec fn popped_value(s: CpuView) -> u8 {
    s.mem[stack_slot(wrap_inc8(s.sp))]
}

/// The machine state after a pop: only the stack pointer moves.
pub open spec fn spec_pop(s: CpuView) -> CpuView {
    CpuView { sp: wrap_inc8(s.sp), ..s }
}

/// PLA: pop a byte into the accumulator. Unlike the loads, this pull
/// derives no flags: the contract states that deliberate choice, so a
/// caller who needs Zero/Negative must derive them separately.
pub open spec fn spec_pla(s: CpuView) -> CpuView {
    CpuView { a: popped_value(s), sp: wrap_inc8(s.sp), ..s }
}

/// Write a little-endian 16-bit value: low byte at `pos`, high byte at
/// `pos + 1`, the high-byte address wrapping around the top of memory.
pub open spec fn store_word(s: CpuView, pos: u16, value: u16) -> CpuView {
    store_byte(store_byte(s, pos, (value % 256) as u8), wrap_inc16(pos), (value / 256) as u8)
}

/// Push a 16-bit value: high byte first, then low byte, so the low byte
/// ends up nearer the top of the stack.
pub open spec fn spec_push_word(s: CpuView, value: u16) -> CpuView {
    spec_push(spec_push(s, (value / 256) as u8), (value % 256) as u8)
}

/// Memory after a program image is loaded: the image sits at the fixed
/// origin 0x8000, the reset vector at 0xFFFC/0xFFFD points at that origin
/// (little-endian), and every other byte keeps its old value.
pub open spec fn loaded_memory(mem: Seq<u8>, program: Seq<u8>) -> Seq<u8> {
    Seq::new(
        mem.len(),
        |i: int|
            if i == 0xFFFC {
                0u8
            } else if i == 0xFFFD {
                0x80u8
            } else if 0x8000 <= i < 0x8000 + program.len() {
                program[i - 0x8000]
            } else {
                mem[i]
            },
    )
}

/// Loading changes memory as `loaded_memory` says and nothing else.
pub open spec fn spec_load(s: CpuView, program: Seq<u8>) -> CpuView {
    CpuView { mem: loaded_memory(s.mem, program), ..s }
}

/// Reset: zero the general-purpose registers, put the stack pointer at its
/// fixed startup offset, restore the startup status pattern, and take the
/// program counter from the reset vector; memory is left alone.
pub open spec fn spec_reset(s: CpuView) -> CpuView {
    CpuView {
        a: 0,
        x: 0,
        y: 0,
        sp: 0xfd,
        status: startup_status(),
        pc: word_at(s.mem, 0xFFFC),
        mem: s.mem,
    }
}

/// The machine just after a program image is loaded and reset runs.
pub open spec fn boot_state(s: CpuView, program: Seq<u8>) -> CpuView {
    spec_reset(spec_load(s, program))
}

/// After load and reset, execution starts at the fixed origin: the reset
/// vector that load installed is exactly what reset reads.
pub proof fn lemma_boot_starts_at_origin(s: CpuView, program: Seq<u8>)
    requires
        s.wf(),
    ensures
        boot_state(s, program).pc == 0x8000,
        boot_state(s, program).wf(),
{
}

/// Register increments and decrements wrap modulo 256 and signal no
/// overflow: adding 1 to 0xFF gives 0, subtracting 1 from 0 gives 0xFF.
pub proof fn lemma_register_step_wraps(s: CpuView)
    ensures
        spec_inx(s).x == (s.x + 1) % 256,
        spec_iny(s).y == (s.y + 1) % 256,
        spec_dex(s).x == (s.x + 255) % 256,
        spec_dey(s).y == (s.y + 255) % 256,
        s.x == 0xFF ==> spec_inx(s).x == 0,
        s.x == 0 ==> spec_dex(s).x == 0xFF,
{
}

/// Memory increments and decrements wrap modulo 256 the same way: the byte
/// written back is the old operand byte plus or minus 1, modulo 256.
pub proof fn lemma_memory_step_wraps(s: CpuView, mode: AddressingMode)
    requires
        s.wf(),
        operand_address(s, mode) is Some,
    ensures
        ({
            let addr = operand_address(s, mode)->Some_0;
            &&& spec_inc(s, mode) matches Ok(t) && t.mem[addr as int] == (s.mem[addr as int] + 1)
                % 256
            &&& spec_dec(s, mode) matches Ok(t) && t.mem[addr as int] == (s.mem[addr as int] + 255)
                % 256
        }),
{
}

/// Pushing every byte of `data` in order, first byte first.
pub open spec fn push_all(s: CpuView, data: Seq<u8>) -> CpuView
    decreases data.len(),
{
    if data.len() == 0 {
        s
    } else {
        push_all(spec_push(s, data[0]), data.drop_first())
    }
}

/// Each push moves the stack pointer down by one modulo 256, so a run of
/// pushes moves it down by the run's length modulo 256.
pub proof fn lemma_push_all_pointer(s: CpuView, data: Seq<u8>)
    ensures
        push_all(s, data).sp == (s.sp + 255 * data.len()) % 256,
    decreases data.len(),
{
    if data.len() == 0 {
        assert((s.sp + 255 * 0) % 256 == s.sp) by (nonlinear_arith)
            requires
                s.sp < 256,
        ;
    } else {
        let t = spec_push(s, data[0]);
        lemma_push_all_pointer(t, data.drop_first());
        assert(((s.sp + 255) % 256 + 255 * (data.len() - 1)) % 256 == (s.sp + 255 * data.len())
            % 256) by (nonlinear_arith);
    }
}

/// Stack pointer arithmetic wraps modulo 256: pushing 256 bytes in sequence
/// returns the pointer to its starting value.
pub proof fn lemma_push_256_restores_pointer(s: CpuView, data: Seq<u8>)
    requires
        data.len() == 256,
    ensures
        push_all(s, data).sp == s.sp,
{
    lemma_push_all_pointer(s, data);
    assert((s.sp + 255 * 256) % 256 == s.sp) by (nonlinear_arith)
        requires
            s.sp < 256,
    ;
}

/// The machine just after the opcode byte is fetched: the program counter
/// has moved past it and nothing else has happened yet.
pub open spec fn fetched(s: CpuView) -> CpuView {
    CpuView { pc: wrap_inc16(s.pc), ..s }
}

/// The mnemonics this build has a handler for (the halt and no-op
/// included); the rest decode but stop the run as a feature gap.
pub open spec fn implemented(m: Mnemonic) -> bool {
    match m {
        Mnemonic::BRK => true,
        Mnemonic::NOP => true,
        Mnemonic::LDA => true,
        Mnemonic::LDX => true,
        Mnemonic::LDY => true,
        Mnemonic::STA => true,
        Mnemonic::STX => true,
        Mnemonic::STY => true,
        Mnemonic::AND => true,
        Mnemonic::EOR => true,
        Mnemonic::ORA => true,
        Mnemonic::INC => true,
        Mnemonic::DEC => true,
        Mnemonic::ASL => true,
        Mnemonic::INX => true,
        Mnemonic::INY => true,
        Mnemonic::DEX => true,
        Mnemonic::DEY => true,
        Mnemonic::TAX => true,
        Mnemonic::TAY => true,
        Mnemonic::TSX => true,
        Mnemonic::TXA => true,
        Mnemonic::TYA => true,
        Mnemonic::TXS => true,
        Mnemonic::PLA => true,
        Mnemonic::CLC => true,
        Mnemonic::CLD => true,
        Mnemonic::CLI => true,
        Mnemonic::CLV => true,
        Mnemonic::SEC => true,
        Mnemonic::SED => true,
        Mnemonic::SEI => true,
        _ => false,
    }
}

/// What one fetched-and-dispatched instruction did to the machine.
pub enum StepOutcome {
    /// The instruction completed; execution goes on at the new state.
    Step(CpuView),
    /// The halt instruction: the loop stops with this state.
    Halted(CpuView),
    /// A fatal condition: the loop stops with this state and error.
    Stopped(CpuView, RunError),
}

/// Advance the program counter past the operand bytes: the opcode byte
/// itself was already consumed at fetch time.
pub open spec fn advance_pc(s: CpuView, bytes: u8) -> CpuView
    recommends
        1 <= bytes <= 3,
{
    CpuView { pc: wrap_add16(s.pc, (bytes - 1) as u16), ..s }
}

/// Wrap a handler result: a completed instruction advances the program
/// counter past its operand bytes, a failed one stops with the fetch-time
/// state.
pub open spec fn step_or_stop(
    r: Result<CpuView, RunError>,
    fetched: CpuView,
    bytes: u8,
) -> StepOutcome {
    match r {
        Ok(t) => StepOutcome::Step(advance_pc(t, bytes)),
        Err(e) => StepOutcome::Stopped(fetched, e),
    }
}

/// One full fetch-decode-dispatch step from state `s`: read the opcode byte
/// at the program counter, advance the counter past it, look the byte up,
/// and apply the matching instruction.
#[verifier::opaque]
pub open spec fn spec_step(s: CpuView) -> StepOutcome {
    let code = s.mem[s.pc as int];
    let f = fetched(s);
    match spec_lookup(code) {
        None => StepOutcome::Stopped(f, RunError::UnrecognizedOpcode(code)),
        Some(op) => match op.mnemonic {
            Mnemonic::BRK => StepOutcome::Halted(f),
            Mnemonic::NOP => StepOutcome::Step(advance_pc(f, op.bytes)),
            Mnemonic::LDA => step_or_stop(spec_lda(f, op.mode), f, op.bytes),
            Mnemonic::LDX => step_or_stop(spec_ldx(f, op.mode), f, op.bytes),
            Mnemonic::LDY => step_or_stop(spec_ldy(f, op.mode), f, op.bytes),
            Mnemonic::STA => step_or_stop(spec_sta(f, op.mode), f, op.bytes),
            Mnemonic::STX => step_or_stop(spec_stx(f, op.mode), f, op.bytes),
            Mnemonic::STY => step_or_stop(spec_sty(f, op.mode), f, op.bytes),
            Mnemonic::AND => step_or_stop(spec_and(f, op.mode), f, op.bytes),
            Mnemonic::EOR => step_or_stop(spec_eor(f, op.mode), f, op.bytes),
            Mnemonic::ORA => step_or_stop(spec_ora(f, op.mode), f, op.bytes),
            Mnemonic::INC => step_or_stop(spec_inc(f, op.mode), f, op.bytes),
            Mnemonic::DEC => step_or_stop(spec_dec(f, op.mode), f, op.bytes),
            Mnemonic::ASL => StepOutcome::Step(advance_pc(spec_asl(f, op.mode), op.bytes)),
            Mnemonic::INX => StepOutcome::Step(advance_pc(spec_inx(f), op.bytes)),
            Mnemonic::INY => StepOutcome::Step(advance_pc(spec_iny(f), op.bytes)),
            Mnemonic::DEX => StepOutcome::Step(advance_pc(spec_dex(f), op.bytes)),
            Mnemonic::DEY => StepOutcome::Step(advance_pc(spec_dey(f), op.bytes)),
            Mnemonic::TAX => StepOutcome::Step(advance_pc(spec_tax(f), op.bytes)),
            Mnemonic::TAY => StepOutcome::Step(advance_pc(spec_tay(f), op.bytes)),
            Mnemonic::TSX => StepOutcome::Step(advance_pc(spec_tsx(f), op.bytes)),
            Mnemonic::TXA => StepOutcome::Step(advance_pc(spec_txa(f), op.bytes)),
            Mnemonic::TYA => StepOutcome::Step(advance_pc(spec_tya(f), op.bytes)),
            Mnemonic::TXS => StepOutcome::Step(advance_pc(spec_txs(f), op.bytes)),
            Mnemonic::PLA => StepOutcome::Step(advance_pc(spec_pla(f), op.bytes)),
            Mnemonic::CLC => StepOutcome::Step(
                advance_pc(CpuView { status: StatusFlags { carry: false, ..f.status }, ..f }, op.bytes),
            ),
            Mnemonic::CLD => StepOutcome::Step(
                advance_pc(CpuView { status: StatusFlags { decimal: false, ..f.status }, ..f }, op.bytes),
            ),
            Mnemonic::CLI => StepOutcome::Step(
                advance_pc(
                    CpuView { status: StatusFlags { interrupt_disable: false, ..f.status }, ..f },
                    op.bytes,
                ),
            ),
            Mnemonic::CLV => StepOutcome::Step(
                advance_pc(CpuView { status: StatusFlags { overflow: false, ..f.status }, ..f }, op.bytes),
            ),
            Mnemonic::SEC => StepOutcome::Step(
                advance_pc(CpuView { status: StatusFlags { carry: true, ..f.status }, ..f }, op.bytes),
            ),
            Mnemonic::SED => StepOutcome::Step(
                advance_pc(CpuView { status: StatusFlags { decimal: true, ..f.status }, ..f }, op.bytes),
            ),
            Mnemonic::SEI => StepOutcome::Step(
                advance_pc(
                    CpuView { status: StatusFlags { interrupt_disable: true, ..f.status }, ..f },
                    op.bytes,
                ),
            ),
            _ => StepOutcome::Stopped(f, RunError::UnimplementedOpcode(code)),
        },
    }
}

/// `s2` is reached from `s1` by exactly `n` completed instructions, none of
/// them the halt and none of them failing.
pub open spec fn steps_to(s1: CpuView, s2: CpuView, n: nat) -> bool
    decreases n,
{
    if n == 0 {
        s1 == s2
    } else {
        spec_step(s1) matches StepOutcome::Step(t) && steps_to(t, s2, (n - 1) as nat)
    }
}

/// Running from `s1` executes some number of instructions and then the halt
/// instruction, leaving the machine at `s2`.
pub open spec fn halts_from(s1: CpuView, s2: CpuView) -> bool {
    exists|n: nat, mid: CpuView|
        #[trigger] steps_to(s1, mid, n) && spec_step(mid) == StepOutcome::Halted(s2)
}

/// Running from `s1` executes some number of instructions and then stops
/// fatally with error `e`, leaving the machine at `s2`.
pub open spec fn fails_from(s1: CpuView, s2: CpuView, e: RunError) -> bool {
    exists|n: nat, mid: CpuView|
        #[trigger] steps_to(s1, mid, n) && spec_step(mid) == StepOutcome::Stopped(s2, e)
}

/// A chain of completed instructions grows at its end: one more completed
/// step after `n` steps makes a chain of `n + 1`.
pub proof fn lemma_steps_to_extend(s1: CpuView, s2: CpuView, s3: CpuView, n: nat)
    requires
        steps_to(s1, s2, n),
        spec_step(s2) == StepOutcome::Step(s3),
    ensures
        steps_to(s1, s3, n + 1),
    decreases n,
{
    reveal_with_fuel(steps_to, 2);
    if n == 0 {
    } else {
        lemma_steps_to_extend(spec_step(s1)->Step_0, s2, s3, (n - 1) as nat);
    }
}

/// A witness makes a halting run: `n` completed instructions from `s1`
/// followed by the halt instruction at `mid`.
pub proof fn lemma_halts_witness(s1: CpuView, mid: CpuView, s2: CpuView, n: nat)
    requires
        steps_to(s1, mid, n),
        spec_step(mid) == StepOutcome::Halted(s2),
    ensures
        halts_from(s1, s2),
{
}

/// A witness makes a failing run: `n` completed instructions from `s1`
/// followed by the fatal condition `e` at `mid`.
pub proof fn lemma_fails_witness(s1: CpuView, mid: CpuView, s2: CpuView, n: nat, e: RunError)
    requires
        steps_to(s1, mid, n),
        spec_step(mid) == StepOutcome::Stopped(s2, e),
    ensures
        fails_from(s1, s2, e),
{
}

/// A handler call met its specification: on `Ok` the machine moved to the
/// specified state, on `Err` the specified error came back and the machine
/// did not move.
pub open spec fn obeys(
    pre: CpuView,
    post: CpuView,
    r: Result<(), RunError>,
    model: Result<CpuView, RunError>,
) -> bool {
    match model {
        Ok(t) => r is Ok && post == t,
        Err(e) => r == Err::<(), RunError>(e) && post == pre,
    }
}


/// One step whose opcode decodes to LDA: the model does what the
/// LDA transition says.
pub proof fn lemma_step_lda(s: CpuView, op: OpCode)
    requires
        spec_lookup(s.mem[s.pc as int]) == Some(op),
        op.mnemonic == Mnemonic::LDA,
    ensures
        spec_step(s) == step_or_stop(spec_lda(fetched(s), op.mode), fetched(s), op.bytes),
{
    reveal(spec_step);
}

/// One step whose opcode decodes to LDX: the model does what the
/// LDX transition says.
pub proof fn lemma_step_ldx(s: CpuView, op: OpCode)
    requires
        spec_lookup(s.mem[s.pc as int]) == Some(op),
        op.mnemonic == Mnemonic::LDX,
    ensures
        spec_step(s) == step_or_stop(spec_ldx(fetched(s), op.mode), fetched(s), op.bytes),
{
    reveal(spec_step);
}

/// One step whose opcode decodes to LDY: the model does what the
/// LDY transition says.
pub proof fn lemma_step_ldy(s: CpuView, op: OpCode)
    requires
        spec_lookup(s.mem[s.pc as int]) == Some(op),
        op.mnemonic == Mnemonic::LDY,
    ensures
        spec_step(s) == step_or_stop(spec_ldy(fetched(s), op.mode), fetched(s), op.bytes),
{
    reveal(spec_step);
}

/// One step whose opcode decodes to STA: the model does what the
/// STA transition says.
pub proof fn lemma_step_sta(s: CpuView, op: OpCode)
    requires
        spec_lookup(s.mem[s.pc as int]) == Some(op),
        op.mnemonic == Mnemonic::STA,
    ensures
        spec_step(s) == step_or_stop(spec_sta(fetched(s), op.mode), fetched(s), op.bytes),
{
    reveal(spec_step);
}

/// One step whose opcode decodes to STX: the model does what the
/// STX transition says.
pub proof fn lemma_step_stx(s: CpuView, op: OpCode)
    requires
        spec_lookup(s.mem[s.pc as int]) == Some(op),
        op.mnemonic == Mnemonic::STX,
    ensures
        spec_step(s) == step_or_stop(spec_stx(fetched(s), op.mode), fetched(s), op.bytes),
{
    reveal(spec_step);
}

/// One step whose opcode decodes to STY: the model does what the
/// STY transition says.
pub proof fn lemma_step_sty(s: CpuView, op: OpCode)
    requires
        spec_lookup(s.mem[s.pc as int]) == Some(op),
        op.mnemonic == Mnemonic::STY,
    ensures
        spec_step(s) == step_or_stop(spec_sty(fetched(s), op.mode), fetched(s), op.bytes),
{
    reveal(spec_step);
}

/// One step whose opcode decodes to AND: the model does what the
/// AND transition says.
pub proof fn lemma_step_and(s: CpuView, op: OpCode)
    requires
        spec_lookup(s.mem[s.pc as int]) == Some(op),
        op.mnemonic == Mnemonic::AND,
    ensures
        spec_step(s) == step_or_stop(spec_and(fetched(s), op.mode), fetched(s), op.bytes),
{
    reveal(spec_step);
}

/// One step whose opcode decodes to EOR: the model does what the
/// EOR transition says.
pub proof fn lemma_step_eor(s: CpuView, op: OpCode)
    requires
        spec_lookup(s.mem[s.pc as int]) == Some(op),
        op.mnemonic == Mnemonic::EOR,
    ensures
        spec_step(s) == step_or_stop(spec_eor(fetched(s), op.mode), fetched(s), op.bytes),
{
    reveal(spec_step);
}

/// One step whose opcode decodes to ORA: the model does what the
/// ORA transition says.
pub proof fn lemma_step_ora(s: CpuView, op: OpCode)
    requires
        spec_lookup(s.mem[s.pc as int]) == Some(op),
        op.mnemonic == Mnemonic::ORA,
    ensures
        spec_step(s) == step_or_stop(spec_ora(fetched(s), op.mode), fetched(s), op.bytes),
{
    reveal(spec_step);
}

/// One step whose opcode decodes to INC: the model does what the
/// INC transition says.
pub proof fn lemma_step_inc(s: CpuView, op: OpCode)
    requires
        spec_lookup(s.mem[s.pc as int]) == Some(op),
        op.mnemonic == Mnemonic::INC,
    ensures
        spec_step(s) == step_or_stop(spec_inc(fetched(s), op.mode), fetched(s), op.bytes),
{
    reveal(spec_step);
}

/// One step whose opcode decodes to DEC: the model does what the
/// DEC transition says.
pub proof fn lemma_step_dec(s: CpuView, op: OpCode)
    requires
        spec_lookup(s.mem[s.pc as int]) == Some(op),
        op.mnemonic == Mnemonic::DEC,
    ensures
        spec_step(s) == step_or_stop(spec_dec(fetched(s), op.mode), fetched(s), op.bytes),
{
    reveal(spec_step);
}

/// One step whose opcode decodes to ASL: the model does what the
/// ASL transition says.
pub proof fn lemma_step_asl(s: CpuView, op: OpCode)
    requires
        spec_lookup(s.mem[s.pc as int]) == Some(op),
        op.mnemonic == Mnemonic::ASL,
    ensures
        spec_step(s) == StepOutcome::Step(advance_pc(spec_asl(fetched(s), op.mode), op.bytes)),
{
    reveal(spec_step);
}

/// One step whose opcode decodes to INX: the model does what the
/// INX transition says.
pub proof fn lemma_step_inx(s: CpuView, op: OpCode)
    requires
        spec_lookup(s.mem[s.pc as int]) == Some(op),
        op.mnemonic == Mnemonic::INX,
    ensures
        spec_step(s) == StepOutcome::Step(advance_pc(spec_inx(fetched(s)), op.bytes)),
{
    reveal(spec_step);
}

/// One step whose opcode decodes to INY: the model does what the
/// INY transition says.
pub proof fn lemma_step_iny(s: CpuView, op: OpCode)
    requires
        spec_lookup(s.mem[s.pc as int]) == Some(op),
        op.mnemonic == Mnemonic::INY,
    ensures
        spec_step(s) == StepOutcome::Step(advance_pc(spec_iny(fetched(s)), op.bytes)),
{
    reveal(spec_step);
}

/// One step whose opcode decodes to DEX: the model does what the
/// DEX transition says.
pub proof fn lemma_step_dex(s: CpuView, op: OpCode)
    requires
        spec_lookup(s.mem[s.pc as int]) == Some(op),
        op.mnemonic == Mnemonic::DEX,
    ensures
        spec_step(s) == StepOutcome::Step(advance_pc(spec_dex(fetched(s)), op.bytes)),
{
    reveal(spec_step);
}

/// One step whose opcode decodes to DEY: the model does what the
/// DEY transition says.
pub proof fn lemma_step_dey(s: CpuView, op: OpCode)
    requires
        spec_lookup(s.mem[s.pc as int]) == Some(op),
        op.mnemonic == Mnemonic::DEY,
    ensures
        spec_step(s) == StepOutcome::Step(advance_pc(spec_dey(fetched(s)), op.bytes)),
{
    reveal(spec_step);
}

/// One step whose opcode decodes to TAX: the model does what the
/// TAX transition says.
pub proof fn lemma_step_tax(s: CpuView, op: OpCode)
    requires
        spec_lookup(s.mem[s.pc as int]) == Some(op),
        op.mnemonic == Mnemonic::TAX,
    ensures
        spec_step(s) == StepOutcome::Step(advance_pc(spec_tax(fetched(s)), op.bytes)),
{
    reveal(spec_step);
}

/// One step whose opcode decodes to TAY: the model does what the
/// TAY transition says.
pub proof fn lemma_step_tay(s: CpuView, op: OpCode)
    requires
        spec_lookup(s.mem[s.pc as int]) == Some(op),
        op.mnemonic == Mnemonic::TAY,
    ensures
        spec_step(s) == StepOutcome::Step(advance_pc(spec_tay(fetched(s)), op.bytes)),
{
    reveal(spec_step);
}

/// One step whose opcode decodes to TSX: the model does what the
/// TSX transition says.
pub proof fn lemma_step_tsx(s: CpuView, op: OpCode)
    requires
        spec_lookup(s.mem[s.pc as int]) == Some(op),
        op.mnemonic == Mnemonic::TSX,
    ensures
        spec_step(s) == StepOutcome::Step(advance_pc(spec_tsx(fetched(s)), op.bytes)),
{
    reveal(spec_step);
}

/// One step whose opcode decodes to TXA: the model does what the
/// TXA transition says.
pub proof fn lemma_step_txa(s: CpuView, op: OpCode)
    requires
        spec_lookup(s.mem[s.pc as int]) == Some(op),
        op.mnemonic == Mnemonic::TXA,
    ensures
        spec_step(s) == StepOutcome::Step(advance_pc(spec_txa(fetched(s)), op.bytes)),
{
    reveal(spec_step);
}

/// One step whose opcode decodes to TYA: the model does what the
/// TYA transition says.
pub proof fn lemma_step_tya(s: CpuView, op: OpCode)
    requires
        spec_lookup(s.mem[s.pc as int]) == Some(op),
        op.mnemonic == Mnemonic::TYA,
    ensures
        spec_step(s) == StepOutcome::Step(advance_pc(spec_tya(fetched(s)), op.bytes)),
{
    reveal(spec_step);
}

/// One step whose opcode decodes to TXS: the model does what the
/// TXS transition says.
pub proof fn lemma_step_txs(s: CpuView, op: OpCode)
    requires
        spec_lookup(s.mem[s.pc as int]) == Some(op),
        op.mnemonic == Mnemonic::TXS,
    ensures
        spec_step(s) == StepOutcome::Step(advance_pc(spec_txs(fetched(s)), op.bytes)),
{
    reveal(spec_step);
}

/// One step whose opcode decodes to PLA: the model does what the
/// PLA transition says.
pub proof fn lemma_step_pla(s: CpuView, op: OpCode)
    requires
        spec_lookup(s.mem[s.pc as int]) == Some(op),
        op.mnemonic == Mnemonic::PLA,
    ensures
        spec_step(s) == StepOutcome::Step(advance_pc(spec_pla(fetched(s)), op.bytes)),
{
    reveal(spec_step);
}

/// One step whose opcode decodes to CLC: the model does what the
/// CLC transition says.
pub proof fn lemma_step_clc(s: CpuView, op: OpCode)
    requires
        spec_lookup(s.mem[s.pc as int]) == Some(op),
        op.mnemonic == Mnemonic::CLC,
    ensures
        spec_step(s) == StepOutcome::Step(
            advance_pc(
                CpuView { status: StatusFlags { carry: false, ..fetched(s).status }, ..fetched(s) },
                op.bytes,
            ),
        ),
{
    reveal(spec_step);
}

/// One step whose opcode decodes to CLD: the model does what the
/// CLD transition says.
pub proof fn lemma_step_cld(s: CpuView, op: OpCode)
    requires
        spec_lookup(s.mem[s.pc as int]) == Some(op),
        op.mnemonic == Mnemonic::CLD,
    ensures
        spec_step(s) == StepOutcome::Step(
            advance_pc(
                CpuView { status: StatusFlags { decimal: false, ..fetched(s).status }, ..fetched(s) },
                op.bytes,
            ),
        ),
{
    reveal(spec_step);
}

/// One step whose opcode decodes to CLI: the model does what the
/// CLI transition says.
pub proof fn lemma_step_cli(s: CpuView, op: OpCode)
    requires
        spec_lookup(s.mem[s.pc as int]) == Some(op),
        op.mnemonic == Mnemonic::CLI,
    ensures
        spec_step(s) == StepOutcome::Step(
            advance_pc(
                CpuView { status: StatusFlags { interrupt_disable: false, ..fetched(s).status }, ..fetched(s) },
                op.bytes,
            ),
        ),
{
    reveal(spec_step);
}

/// One step whose opcode decodes to CLV: the model does what the
/// CLV transition says.
pub proof fn lemma_step_clv(s: CpuView, op: OpCode)
    requires
        spec_lookup(s.mem[s.pc as int]) == Some(op),
        op.mnemonic == Mnemonic::CLV,
    ensures
        spec_step(s) == StepOutcome::Step(
            advance_pc(
                CpuView { status: StatusFlags { overflow: false, ..fetched(s).status }, ..fetched(s) },
                op.bytes,
            ),
        ),
{
    reveal(spec_step);
}

/// One step whose opcode decodes to SEC: the model does what the
/// SEC transition says.
pub proof fn lemma_step_sec(s: CpuView, op: OpCode)
    requires
        spec_lookup(s.mem[s.pc as int]) == Some(op),
        op.mnemonic == Mnemonic::SEC,
    ensures
        spec_step(s) == StepOutcome::Step(
            advance_pc(
                CpuView { status: StatusFlags { carry: true, ..fetched(s).status }, ..fetched(s) },
                op.bytes,
            ),
        ),
{
    reveal(spec_step);
}

/// One step whose opcode decodes to SED: the model does what the
/// SED transition says.
pub proof fn lemma_step_sed(s: CpuView, op: OpCode)
    requires
        spec_lookup(s.mem[s.pc as int]) == Some(op),
        op.mnemonic == Mnemonic::SED,
    ensures
        spec_step(s) == StepOutcome::Step(
            advance_pc(
                CpuView { status: StatusFlags { decimal: true, ..fetched(s).status }, ..fetched(s) },
                op.bytes,
            ),
        ),
{
    reveal(spec_step);
}

/// One step whose opcode decodes to SEI: the model does what the
/// SEI transition says.
pub proof fn lemma_step_sei(s: CpuView, op: OpCode)
    requires
        spec_lookup(s.mem[s.pc as int]) == Some(op),
        op.mnemonic == Mnemonic::SEI,
    ensures
        spec_step(s) == StepOutcome::Step(
            advance_pc(
                CpuView { status: StatusFlags { interrupt_disable: true, ..fetched(s).status }, ..fetched(s) },
                op.bytes,
            ),
        ),
{
    reveal(spec_step);
}

/// One step whose opcode decodes to NOP: the model does what the
/// NOP transition says.
pub proof fn lemma_step_nop(s: CpuView, op: OpCode)
    requires
        spec_lookup(s.mem[s.pc as int]) == Some(op),
        op.mnemonic == Mnemonic::NOP,
    ensures
        spec_step(s) == StepOutcome::Step(advance_pc(fetched(s), op.bytes)),
{
    reveal(spec_step);
}

/// One step whose opcode decodes to BRK: the model does what the
/// BRK transition says.
pub proof fn lemma_step_brk(s: CpuView, op: OpCode)
    requires
        spec_lookup(s.mem[s.pc as int]) == Some(op),
        op.mnemonic == Mnemonic::BRK,
    ensures
        spec_step(s) == StepOutcome::Halted(fetched(s)),
{
    reveal(spec_step);
}

/// One step whose opcode byte decodes to nothing: the run stops as a
/// corrupt program.
pub proof fn lemma_step_unrecognized(s: CpuView)
    requires
        spec_lookup(s.mem[s.pc as int]) is None,
    ensures
        spec_step(s) == StepOutcome::Stopped(
            fetched(s),
            RunError::UnrecognizedOpcode(s.mem[s.pc as int]),
        ),
{
    reveal(spec_step);
}

/// One step whose opcode decodes to a mnemonic without a handler: the run
/// stops as a feature gap.
pub proof fn lemma_step_unimplemented(s: CpuView, op: OpCode)
    requires
        spec_lookup(s.mem[s.pc as int]) == Some(op),
        !implemented(op.mnemonic),
    ensures
        spec_step(s) == StepOutcome::Stopped(
            fetched(s),
            RunError::UnimplementedOpcode(s.mem[s.pc as int]),
        ),
{
    reveal(spec_step);
}

} // verus!

