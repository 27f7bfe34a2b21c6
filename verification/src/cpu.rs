//! The machine state, its memory primitives, the addressing resolver and the
//! load / reset harness.
use vstd::prelude::*;
use crate::flags::{CpuFlags, RESET_BITS};

verus! {

/// Number of bytes in the memory image; valid addresses are `0..MEM_SIZE`.
pub const MEM_SIZE: usize = 0xFFFF;

/// Base of the 256-byte stack region: a push writes at `STACK` plus the
/// stack pointer.
pub const STACK: u16 = 0x0010;

/// The stack pointer after reset.
pub const STACK_RESET: u8 = 0xFD;

/// Where `load` installs a program.
pub const PROGRAM_BASE: u16 = 0x8000;

/// Where the little-endian reset vector lives.
pub const RESET_VECTOR: u16 = 0xFFFC;

/// The longest program that fits the load region.
pub const MAX_PROGRAM_LEN: usize = 0x7FFF;

/// How an instruction finds its operand.
#[derive(Clone, Copy, Debug, PartialEq, Eq, Structural)]
pub enum AddressingMode {
    Immediate,
    ZeroPage,
    ZeroPageX,
    ZeroPageY,
    Absolute,
    AbsoluteX,
    AbsoluteY,
    IndirectX,
    IndirectY,
    /// The operand is implicit; this mode has no effective address.
    NoneAddressing,
}

impl AddressingMode {
    /// Number of operand bytes that resolving this mode reads at the program
    /// counter.
    pub open spec fn operand_bytes(self) -> int {
        match self {
            AddressingMode::NoneAddressing => 0,
            AddressingMode::Absolute | AddressingMode::AbsoluteX | AddressingMode::AbsoluteY => 2,
            _ => 1,
        }
    }
}

/// The fatal conditions of the engine.
#[derive(Clone, Copy, Debug, PartialEq, Eq, Structural)]
pub enum CpuError {
    /// The fetched byte has no row in the instruction metadata table.
    UnrecognizedOpcode,
    /// An effective address was asked for in `NoneAddressing` mode.
    UnsupportedAddressingMode,
    /// An address or a program counter fell outside the memory image.
    OutOfRangeAddress,
}

/// The machine: registers, status flags and the memory image it owns.
pub struct CPU {
    pub reg_a: u8,
    pub reg_x: u8,
    pub reg_y: u8,
    pub status: CpuFlags,
    pub pc: u16,
    pub sp: u8,
    pub memory: [u8; 0xFFFF],
}

/// `i` reduced to a byte, modulo 256.
pub open spec fn wrap8(i: int) -> u8 {
    (i % 0x100) as u8
}

/// `i` reduced to a 16-bit word, modulo 65536.
pub open spec fn wrap16(i: int) -> u16 {
    (i % 0x1_0000) as u16
}

/// The word with the given low and high bytes.
pub open spec fn word_of(lo: u8, hi: u8) -> u16 {
    (lo + 0x100 * hi) as u16
}

/// Joins a low and a high byte into a word.
pub fn word(lo: u8, hi: u8) -> (w: u16)
    ensures
        w == word_of(lo, hi),
{
    let w: u16 = ((hi as u16) << 8) | (lo as u16);
    assert(((hi as u16) << 8) | (lo as u16) == lo + 0x100 * hi) by (bit_vector);
    w
}

/// The low byte of a word.
pub fn low_byte(w: u16) -> (lo: u8)
    ensures
        lo == w % 0x100,
{
    assert(w & 0xff == w % 0x100) by (bit_vector);
    (w & 0xff) as u8
}

/// The high byte of a word.
pub fn high_byte(w: u16) -> (hi: u8)
    ensures
        hi == w / 0x100,
{
    assert(w >> 8 == w / 0x100) by (bit_vector);
    (w >> 8) as u8
}

impl CPU {
    /// The byte at `addr`.
    pub open spec fn peek(self, addr: int) -> u8 {
        self.memory@[addr]
    }

    /// The little-endian word at `addr` and `addr + 1`.
    pub open spec fn peek16(self, addr: int) -> u16 {
        word_of(self.peek(addr), self.peek(addr + 1))
    }

    /// The machine with `data` written at `addr`.
    pub open spec fn poke(self, addr: int, data: u8) -> CPU {
        CPU { memory: vstd::array::spec_array_update(self.memory, addr, data), ..self }
    }

    /// The machine with `data` written little-endian at `addr` and `addr + 1`.
    pub open spec fn poke16(self, addr: int, data: u16) -> CPU {
        self.poke(addr, (data % 0x100) as u8).poke(addr + 1, (data / 0x100) as u8)
    }

    /// A checked read: the byte at `addr`, or the fault where `addr` lies
    /// outside the image.
    pub open spec fn fetch(self, addr: u16) -> Result<u8, CpuError> {
        if addr < MEM_SIZE {
            Ok(self.peek(addr as int))
        } else {
            Err(CpuError::OutOfRangeAddress)
        }
    }

    /// A checked read of the word at `addr` and `addr + 1`.
    pub open spec fn fetch16(self, addr: u16) -> Result<u16, CpuError> {
        if addr + 1 < MEM_SIZE {
            Ok(self.peek16(addr as int))
        } else {
            Err(CpuError::OutOfRangeAddress)
        }
    }

    /// The word held in zero-page slot `slot` and the slot after it, where
    /// the slot after 0xFF is 0x00.
    pub open spec fn zero_page_word(self, slot: u8) -> u16 {
        word_of(self.peek(slot as int), self.peek(wrap8(slot + 1) as int))
    }

    /// The effective address of the operand whose bytes start at the program
    /// counter.
    pub open spec fn operand_address(self, mode: AddressingMode) -> Result<u16, CpuError> {
        match mode {
            AddressingMode::Immediate => Ok(self.pc),
            AddressingMode::ZeroPage => match self.fetch(self.pc) {
                Ok(base) => Ok(base as u16),
                Err(e) => Err(e),
            },
            AddressingMode::ZeroPageX => match self.fetch(self.pc) {
                Ok(base) => Ok(wrap8(base + self.reg_x) as u16),
                Err(e) => Err(e),
            },
            AddressingMode::ZeroPageY => match self.fetch(self.pc) {
                Ok(base) => Ok(wrap8(base + self.reg_y) as u16),
                Err(e) => Err(e),
            },
            AddressingMode::Absolute => self.fetch16(self.pc),
            AddressingMode::AbsoluteX => match self.fetch16(self.pc) {
                Ok(base) => Ok(wrap16(base + self.reg_x)),
                Err(e) => Err(e),
            },
            AddressingMode::AbsoluteY => match self.fetch16(self.pc) {
                Ok(base) => Ok(wrap16(base + self.reg_y)),
                Err(e) => Err(e),
            },
            AddressingMode::IndirectX => match self.fetch(self.pc) {
                Ok(base) => Ok(self.zero_page_word(wrap8(base + self.reg_x))),
                Err(e) => Err(e),
            },
            AddressingMode::IndirectY => match self.fetch(self.pc) {
                Ok(base) => Ok(wrap16(self.zero_page_word(base) + self.reg_y)),
                Err(e) => Err(e),
            },
            AddressingMode::NoneAddressing => Err(CpuError::UnsupportedAddressingMode),
        }
    }

    /// The effective address, where it lies inside the image.
    pub open spec fn target(self, mode: AddressingMode) -> Result<u16, CpuError> {
        match self.operand_address(mode) {
            Ok(addr) => if addr < MEM_SIZE {
                Ok(addr)
            } else {
                Err(CpuError::OutOfRangeAddress)
            },
            Err(e) => Err(e),
        }
    }

    /// The operand byte itself.
    pub open spec fn operand(self, mode: AddressingMode) -> Result<u8, CpuError> {
        match self.target(mode) {
            Ok(addr) => Ok(self.peek(addr as int)),
            Err(e) => Err(e),
        }
    }

    /// The machine after the first `n` bytes of `program` are copied to the
    /// load region.
    pub open spec fn install(self, program: Seq<u8>, n: nat) -> CPU
        decreases n,
    {
        if n == 0 {
            self
        } else {
            self.install(program, (n - 1) as nat).poke(PROGRAM_BASE + n - 1, program[n - 1])
        }
    }

    /// The machine after `program` is installed and the reset vector points
    /// at it.
    pub open spec fn loaded(self, program: Seq<u8>) -> CPU {
        self.install(program, program.len()).poke16(RESET_VECTOR as int, PROGRAM_BASE)
    }

    /// The machine after reset: registers cleared, stack pointer and status
    /// at their defaults, program counter taken from the reset vector.
    pub open spec fn reset_state(self) -> CPU {
        CPU {
            reg_a: 0,
            reg_x: 0,
            reg_y: 0,
            sp: STACK_RESET,
            status: CpuFlags { bits: RESET_BITS },
            pc: self.peek16(RESET_VECTOR as int),
            memory: self.memory,
        }
    }

    /// The machine with every byte of memory zero.
    pub open spec fn wiped(self) -> CPU {
        CPU { memory: vstd::array::spec_array_fill_for_copy_type::<u8, 0xFFFF>(0u8), ..self }
    }

    /// A machine with cleared registers, default stack pointer and status,
    /// and a zeroed memory image.
    pub fn new() -> (cpu: CPU)
        ensures
            cpu.reg_a == 0 && cpu.reg_x == 0 && cpu.reg_y == 0,
            cpu.status.bits == RESET_BITS,
            cpu.pc == 0,
            cpu.sp == STACK_RESET,
            cpu == cpu.wiped(),
            forall|addr: int| 0 <= addr < MEM_SIZE ==> cpu.peek(addr) == 0,
    {
        CPU {
            reg_a: 0,
            reg_x: 0,
            reg_y: 0,
            status: CpuFlags::from_bits_truncate(RESET_BITS),
            pc: 0,
            sp: STACK_RESET,
            memory: [0;0xFFFF],
        }
    }

    /// Reads the byte at `addr`.
    pub fn mem_read(&self, addr: u16) -> (data: u8)
        requires
            addr < MEM_SIZE,
        ensures
            data == self.peek(addr as int),
    {
        self.memory[addr as usize]
    }

    /// Writes `data` at `addr`.
    pub fn mem_write(&mut self, addr: u16, data: u8)
        requires
            addr < MEM_SIZE,
        ensures
            *final(self) == old(self).poke(addr as int, data),
            final(self).peek(addr as int) == data,
            forall|other: int|
                0 <= other < MEM_SIZE && other != addr ==> final(self).peek(other) == old(
                    self,
                ).peek(other),
    {
        self.memory[addr as usize] = data;
    }

    /// Reads the little-endian word at `pos` and `pos + 1`.
    pub fn mem_read_u16(&self, pos: u16) -> (data: u16)
        requires
            pos + 1 < MEM_SIZE,
        ensures
            data == self.peek16(pos as int),
    {
        let low: u8 = self.mem_read(pos);
        let high: u8 = self.mem_read(pos + 1);
        word(low, high)
    }

    /// Writes `data` little-endian at `pos` and `pos + 1`.
    pub fn mem_write_u16(&mut self, pos: u16, data: u16)
        requires
            pos + 1 < MEM_SIZE,
        ensures
            *final(self) == old(self).poke16(pos as int, data),
            final(self).peek16(pos as int) == data,
    {
        let low: u8 = low_byte(data);
        let high: u8 = high_byte(data);
        self.mem_write(pos, low);
        self.mem_write(pos + 1, high);
    }

    /// Reads the byte at `addr`, or reports that `addr` is outside the image.
    pub fn try_read(&self, addr: u16) -> (r: Result<u8, CpuError>)
        ensures
            r == self.fetch(addr),
    {
        if (addr as usize) < MEM_SIZE {
            Ok(self.mem_read(addr))
        } else {
            Err(CpuError::OutOfRangeAddress)
        }
    }

    /// Reads the word at `addr`, or reports that it reaches outside the image.
    pub fn try_read_u16(&self, addr: u16) -> (r: Result<u16, CpuError>)
        ensures
            r == self.fetch16(addr),
    {
        if (addr as usize) + 1 < MEM_SIZE {
            Ok(self.mem_read_u16(addr))
        } else {
            Err(CpuError::OutOfRangeAddress)
        }
    }

    /// Reads the word held in a zero-page slot and the slot after it.
    pub fn read_zero_page_word(&self, slot: u8) -> (data: u16)
        ensures
            data == self.zero_page_word(slot),
    {
        let lo: u8 = self.mem_read(slot as u16);
        let hi: u8 = self.mem_read(slot.wrapping_add(1) as u16);
        word(lo, hi)
    }

    /// Copies `program` to the load region and points the reset vector at it.
    pub fn load(&mut self, program: Vec<u8>)
        requires
            program.len() <= MAX_PROGRAM_LEN,
        ensures
            *final(self) == old(self).loaded(program@),
    {
        let n: usize = program.len();
        let mut i: usize = 0;
        while i < n
            invariant
                n == program.len(),
                n <= MAX_PROGRAM_LEN,
                i <= n,
                *self == old(self).install(program@, i as nat),
            decreases n - i,
        {
            self.memory[0x8000 + i] = program[i];
            i = i + 1;
        }
        self.mem_write_u16(RESET_VECTOR, PROGRAM_BASE);
    }

    /// Re-initialises the registers and takes the program counter from the
    /// reset vector.
    pub fn reset(&mut self)
        ensures
            *final(self) == old(self).reset_state(),
    {
        self.reg_a = 0;
        self.reg_x = 0;
        self.reg_y = 0;
        self.sp = STACK_RESET;
        self.status = CpuFlags::from_bits_truncate(RESET_BITS);
        self.pc = self.mem_read_u16(RESET_VECTOR);
    }

    /// Resolves the effective address of the operand at the program counter.
    /// The program counter itself is not advanced.
    pub fn get_operand_address(&self, mode: &AddressingMode) -> (r: Result<u16, CpuError>)
        ensures
            r == self.operand_address(*mode),
    {
        match mode {
            AddressingMode::Immediate => Ok(self.pc),
            AddressingMode::ZeroPage => {
                let pos: u8 = self.try_read(self.pc)?;
                Ok(pos as u16)
            },
            AddressingMode::Absolute => self.try_read_u16(self.pc),
            AddressingMode::ZeroPageX => {
                let pos: u8 = self.try_read(self.pc)?;
                Ok(pos.wrapping_add(self.reg_x) as u16)
            },
            AddressingMode::ZeroPageY => {
                let pos: u8 = self.try_read(self.pc)?;
                Ok(pos.wrapping_add(self.reg_y) as u16)
            },
            AddressingMode::AbsoluteX => {
                let pos: u16 = self.try_read_u16(self.pc)?;
                Ok(pos.wrapping_add(self.reg_x as u16))
            },
            AddressingMode::AbsoluteY => {
                let pos: u16 = self.try_read_u16(self.pc)?;
                Ok(pos.wrapping_add(self.reg_y as u16))
            },
            AddressingMode::IndirectX => {
                let base: u8 = self.try_read(self.pc)?;
                let ptr: u8 = base.wrapping_add(self.reg_x);
                Ok(self.read_zero_page_word(ptr))
            },
            AddressingMode::IndirectY => {
                let base: u8 = self.try_read(self.pc)?;
                let deref_base: u16 = self.read_zero_page_word(base);
                Ok(deref_base.wrapping_add(self.reg_y as u16))
            },
            AddressingMode::NoneAddressing => Err(CpuError::UnsupportedAddressingMode),
        }
    }

    /// Resolves the operand's address and checks that it lies inside the
    /// image.
    pub fn operand_target(&self, mode: &AddressingMode) -> (r: Result<u16, CpuError>)
        ensures
            r == self.target(*mode),
    {
        let addr: u16 = self.get_operand_address(mode)?;
        if (addr as usize) < MEM_SIZE {
            Ok(addr)
        } else {
            Err(CpuError::OutOfRangeAddress)
        }
    }

    /// Resolves the operand's address and reads the operand.
    pub fn read_operand(&self, mode: &AddressingMode) -> (r: Result<u8, CpuError>)
        ensures
            r == self.operand(*mode),
    {
        let addr: u16 = self.operand_target(mode)?;
        Ok(self.mem_read(addr))
    }
}

/// A word written little-endian is read back unchanged, at every address at
/// which a word fits.
pub proof fn lemma_write16_read16(cpu: CPU, addr: u16, data: u16)
    requires
        addr + 1 < MEM_SIZE,
    ensures
        cpu.poke16(addr as int, data).peek16(addr as int) == data,
        cpu.poke16(addr as int, data).fetch16(addr) == Ok::<u16, CpuError>(data),
{
    broadcast use vstd::array::group_array_axioms;

}

/// The image after a load, byte by byte: the reset vector holds the load
/// base, the load region holds the program, and every other byte is as it
/// was. The registers are untouched.
pub proof fn lemma_loaded(cpu: CPU, program: Seq<u8>, addr: int)
    requires
        program.len() <= MAX_PROGRAM_LEN,
        0 <= addr < MEM_SIZE,
    ensures
        cpu.loaded(program).peek(addr) == if addr == RESET_VECTOR {
            0x00u8
        } else if addr == RESET_VECTOR + 1 {
            0x80u8
        } else if PROGRAM_BASE <= addr < PROGRAM_BASE + program.len() {
            program[addr - PROGRAM_BASE]
        } else {
            cpu.peek(addr)
        },
        cpu.loaded(program).peek16(RESET_VECTOR as int) == PROGRAM_BASE,
        cpu.loaded(program).reset_state().pc == PROGRAM_BASE,
        cpu.loaded(program) == (CPU { memory: cpu.loaded(program).memory, ..cpu }),
{
    broadcast use vstd::array::group_array_axioms;

    lemma_installed(cpu, program, program.len(), addr);
    lemma_installed(cpu, program, program.len(), RESET_VECTOR as int);
    lemma_installed(cpu, program, program.len(), RESET_VECTOR + 1);
}

/// The image after the first `n` bytes of a program are installed.
pub proof fn lemma_installed(cpu: CPU, program: Seq<u8>, n: nat, addr: int)
    requires
        n <= program.len() <= MAX_PROGRAM_LEN,
        0 <= addr < MEM_SIZE,
    ensures
        cpu.install(program, n).peek(addr) == if PROGRAM_BASE <= addr < PROGRAM_BASE + n {
            program[addr - PROGRAM_BASE]
        } else {
            cpu.peek(addr)
        },
        cpu.install(program, n) == (CPU { memory: cpu.install(program, n).memory, ..cpu }),
    decreases n,
{
    broadcast use vstd::array::group_array_axioms;

    if n > 0 {
        lemma_installed(cpu, program, (n - 1) as nat, addr);
    }
}

/// The zero-page modes never leave page zero: whatever the index register
/// holds, the effective address is below 0x100.
pub proof fn lemma_zero_page(cpu: CPU, mode: AddressingMode)
    requires
        mode == AddressingMode::ZeroPage || mode == AddressingMode::ZeroPageX || mode
            == AddressingMode::ZeroPageY,
    ensures
        cpu.operand_address(mode) matches Ok(addr) ==> addr < 0x100,
        cpu.operand_address(mode) is Ok <==> cpu.pc < MEM_SIZE,
        cpu.target(mode) == cpu.operand_address(mode),
{
}

/// When the resolver gives an address: in every mode but `NoneAddressing`,
/// as soon as the operand bytes at the program counter lie inside the image.
/// `Immediate` reads nothing and always resolves. The fault is
/// `UnsupportedAddressingMode` for `NoneAddressing` and `OutOfRangeAddress`
/// otherwise.
pub proof fn lemma_resolves(cpu: CPU, mode: AddressingMode)
    ensures
        cpu.operand_address(mode) is Ok <==> mode != AddressingMode::NoneAddressing && (mode
            == AddressingMode::Immediate || cpu.pc + mode.operand_bytes() <= MEM_SIZE),
        cpu.operand_address(mode) is Err ==> cpu.operand_address(mode) == Err::<u16, CpuError>(
            if mode == AddressingMode::NoneAddressing {
                CpuError::UnsupportedAddressingMode
            } else {
                CpuError::OutOfRangeAddress
            },
        ),
{
}

} // verus!
