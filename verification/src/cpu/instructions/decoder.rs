//! Field decoders: the fixed bit ranges of a 32-bit instruction word and the
//! sign-extended immediate of each instruction format.
use vstd::prelude::*;
use crate::arith::{signed64, wrap64};
use crate::error::AppErrors;

verus! {

/// Bits [6:0] of an instruction word.
pub open spec fn opcode_of(w: u32) -> u8 {
    (w as int % 128) as u8
}

/// Bits [11:7]: the destination register.
pub open spec fn rd_of(w: u32) -> u8 {
    ((w as int / 0x80) % 32) as u8
}

/// Bits [14:12].
pub open spec fn funct3_of(w: u32) -> u8 {
    ((w as int / 0x1000) % 8) as u8
}

/// Bits [19:15]: the first source register.
pub open spec fn rs1_of(w: u32) -> u8 {
    ((w as int / 0x8000) % 32) as u8
}

/// Bits [24:20]: the second source register.
pub open spec fn rs2_of(w: u32) -> u8 {
    ((w as int / 0x10_0000) % 32) as u8
}

/// Bits [31:25].
pub open spec fn funct7_of(w: u32) -> u8 {
    (w as int / 0x200_0000) as u8
}

/// The 64-bit pattern of a two's-complement field whose highest bit, the
/// sign, weighs `sign`: the field itself below `sign`, and the field less
/// twice `sign`, modulo 2^64, from there on.
pub open spec fn sign_extend(field: int, sign: int) -> u64 {
    if field >= sign {
        wrap64(field - 2 * sign)
    } else {
        field as u64
    }
}

/// The I-format immediate: bits [31:20], a signed 12-bit number.
pub open spec fn i_imm_of(w: u32) -> u64 {
    sign_extend(w as int / 0x10_0000, 0x800)
}

/// The S-format immediate: bits [31:25] above bits [11:7], a signed 12-bit number.
pub open spec fn s_imm_of(w: u32) -> u64 {
    sign_extend((w as int / 0x200_0000) * 32 + (w as int / 0x80) % 32, 0x800)
}

/// The B-format immediate, a signed 13-bit even number: bit 31, then bit 7,
/// then bits [30:25], then bits [11:8], then a zero.
pub open spec fn b_imm_of(w: u32) -> u64 {
    sign_extend(
        (w as int / 0x8000_0000) * 0x1000 + ((w as int / 0x80) % 2) * 0x800 + ((w as int
            / 0x200_0000) % 64) * 32 + ((w as int / 0x100) % 16) * 2,
        0x1000,
    )
}

/// The U-format immediate: bits [31:12] above twelve zeros, a signed 32-bit number.
pub open spec fn u_imm_of(w: u32) -> u64 {
    sign_extend((w as int / 0x1000) * 0x1000, 0x8000_0000)
}

/// The J-format immediate, a signed 21-bit even number: bit 31, then bits
/// [19:12], then bit 20, then bits [30:21], then a zero.
pub open spec fn j_imm_of(w: u32) -> u64 {
    sign_extend(
        (w as int / 0x8000_0000) * 0x10_0000 + ((w as int / 0x1000) % 256) * 0x1000 + ((w as int
            / 0x10_0000) % 2) * 0x800 + ((w as int / 0x20_0000) % 1024) * 2,
        0x10_0000,
    )
}

/// The fixed fields, by shifting and masking and by dividing.
pub proof fn lemma_fields(w: u32)
    ensures
        (w & 0x7f) < 128 && (w & 0x7f) as u8 == opcode_of(w),
        ((w >> 7) & 0x1f) < 32 && ((w >> 7) & 0x1f) as u8 == rd_of(w),
        ((w >> 12) & 0x07) < 8 && ((w >> 12) & 0x07) as u8 == funct3_of(w),
        ((w >> 15) & 0x1f) < 32 && ((w >> 15) & 0x1f) as u8 == rs1_of(w),
        ((w >> 20) & 0x1f) < 32 && ((w >> 20) & 0x1f) as u8 == rs2_of(w),
        ((w >> 25) & 0x7f) < 128 && ((w >> 25) & 0x7f) as u8 == funct7_of(w),
{
    assert((w & 0x7f) as int == w as int % 128 && ((w >> 7) & 0x1f) as int == (w as int / 0x80) % 32
        && ((w >> 12) & 0x07) as int == (w as int / 0x1000) % 8 && ((w >> 15) & 0x1f) as int == (
    w as int / 0x8000) % 32 && ((w >> 20) & 0x1f) as int == (w as int / 0x10_0000) % 32 && ((w
        >> 25) & 0x7f) as int == w as int / 0x200_0000) by (bit_vector);
}

/// A branch offset and a jump offset are even, and the low 12 bits of an
/// upper immediate are zero.
pub proof fn lemma_offsets_are_aligned(w: u32)
    ensures
        b_imm_of(w) % 2 == 0,
        j_imm_of(w) % 2 == 0,
        u_imm_of(w) % 0x1000 == 0,
{
}

/// The immediates lie in the range of their width: 12 bits for the I and
/// S formats, 13 for the B format, 21 for the J format, 32 for the U
/// format, each read as a signed number.
pub proof fn lemma_immediates_in_range(w: u32)
    ensures
        -0x800 <= signed64(i_imm_of(w)) < 0x800,
        -0x800 <= signed64(s_imm_of(w)) < 0x800,
        -0x1000 <= signed64(b_imm_of(w)) < 0x1000,
        -0x10_0000 <= signed64(j_imm_of(w)) < 0x10_0000,
        -0x8000_0000 <= signed64(u_imm_of(w)) < 0x8000_0000,
{
}

/// The instruction word that a decoder was made from.
pub trait InstructionGetter {
    /// The instruction word.
    spec fn raw(&self) -> u32;

    fn get_raw_instruction(&self) -> (r: u32)
        ensures
            r == self.raw(),
    ;
}

/// A decoder of a format that has an opcode: all have.
pub trait OpcodeDecoder: InstructionGetter {
    /// Bits [6:0].
    fn get_opcode(&self) -> (r: u8)
        ensures
            r == opcode_of(self.raw()),
    {
        let w: u32 = self.get_raw_instruction();
        proof {
            lemma_fields(w);
        }
        (w & 0x7f) as u8
    }
}

/// A decoder of a format that names a destination register.
pub trait RdDecoder: InstructionGetter {
    /// Bits [11:7].
    fn get_rd_field(&self) -> (r: u8)
        ensures
            r == rd_of(self.raw()),
            r < 32,
    {
        let w: u32 = self.get_raw_instruction();
        proof {
            lemma_fields(w);
        }
        ((w >> 7) & 0x1f) as u8
    }
}

/// A decoder of a format that has a funct3 field.
pub trait Funct3Decoder: InstructionGetter {
    /// Bits [14:12].
    fn get_funct3_field(&self) -> (r: u8)
        ensures
            r == funct3_of(self.raw()),
            r < 8,
    {
        let w: u32 = self.get_raw_instruction();
        proof {
            lemma_fields(w);
        }
        ((w >> 12) & 0x07) as u8
    }
}

/// A decoder of a format that names a first source register.
pub trait Rs1Decoder: InstructionGetter {
    /// Bits [19:15].
    fn get_rs1_field(&self) -> (r: u8)
        ensures
            r == rs1_of(self.raw()),
            r < 32,
    {
        let w: u32 = self.get_raw_instruction();
        proof {
            lemma_fields(w);
        }
        ((w >> 15) & 0x1f) as u8
    }
}

/// A decoder of a format that names a second source register.
pub trait Rs2Decoder: InstructionGetter {
    /// Bits [24:20].
    fn get_rs2_field(&self) -> (r: u8)
        ensures
            r == rs2_of(self.raw()),
            r < 32,
    {
        let w: u32 = self.get_raw_instruction();
        proof {
            lemma_fields(w);
        }
        ((w >> 20) & 0x1f) as u8
    }
}

/// A decoder of a format that has a funct7 field.
pub trait Funct7Decoder: InstructionGetter {
    /// Bits [31:25].
    fn get_funct7_field(&self) -> (r: u8)
        ensures
            r == funct7_of(self.raw()),
            r < 128,
    {
        let w: u32 = self.get_raw_instruction();
        proof {
            lemma_fields(w);
        }
        ((w >> 25) & 0x7f) as u8
    }
}

/// The opcode of an instruction word: its low 7 bits.
pub fn get_op_code(instruction: u32) -> (r: u8)
    ensures
        r == opcode_of(instruction),
{
    proof {
        lemma_fields(instruction);
    }
    (instruction & 0x7f) as u8
}

/// The width of an instruction.
#[derive(Clone, Copy, Debug, PartialEq, Eq)]
pub enum InstructionSize {
    B16,
    B32,
}

impl InstructionSize {
    /// The width in bytes.
    pub open spec fn bytes(self) -> u64 {
        match self {
            InstructionSize::B16 => 2,
            InstructionSize::B32 => 4,
        }
    }

    /// The width in bytes.
    pub fn size_bytes(&self) -> (n: u64)
        ensures
            n == self.bytes(),
    {
        match self {
            InstructionSize::B16 => 2,
            InstructionSize::B32 => 4,
        }
    }
}

/// The width that an opcode announces: four bytes where its two lowest bits
/// are both set, two bytes otherwise.
pub open spec fn size_of_opcode(opcode: u8) -> InstructionSize {
    if opcode % 4 == 3 {
        InstructionSize::B32
    } else {
        InstructionSize::B16
    }
}

/// The width of the instruction that an opcode belongs to. Every opcode
/// has one.
pub fn get_instruction_size(opcode: u8) -> (r: Result<InstructionSize, AppErrors>)
    ensures
        r == Ok::<InstructionSize, AppErrors>(size_of_opcode(opcode)),
{
    assert((opcode & 0b11) as int == opcode as int % 4) by (bit_vector);
    if opcode & 0b11 == 0b11 {
        Ok(InstructionSize::B32)
    } else {
        Ok(InstructionSize::B16)
    }
}

/// The six instruction formats.
#[derive(Clone, Copy, Debug, PartialEq, Eq)]
pub enum InstructionFormat {
    R,
    I,
    S,
    B,
    U,
    J,
}

/// The immediate of an instruction word read in a format that has one.
pub open spec fn imm_of(w: u32, format: InstructionFormat) -> u64 {
    match format {
        InstructionFormat::I => i_imm_of(w),
        InstructionFormat::S => s_imm_of(w),
        InstructionFormat::B => b_imm_of(w),
        InstructionFormat::U => u_imm_of(w),
        InstructionFormat::J => j_imm_of(w),
        InstructionFormat::R => 0,
    }
}

/// The I-format immediate of `w`.
fn i_immediate(w: u32) -> (r: u64)
    ensures
        r == i_imm_of(w),
{
    assert(((((w as i32) as i64) >> 20) as u64) as int == (if w as int / 0x10_0000 >= 0x800 {
        w as int / 0x10_0000 + 0xffff_ffff_ffff_f000
    } else {
        w as int / 0x10_0000
    })) by (bit_vector);
    #[verifier::truncate]
    ((((#[verifier::truncate]
    (w as i32)) as i64) >> 20) as u64)
}

/// The S-format immediate of `w`.
fn s_immediate(w: u32) -> (r: u64)
    ensures
        r == s_imm_of(w),
{
    assert((((((w & 0xfe00_0000) as i32) as i64 >> 20) as u64) | (((w >> 7) & 0x1f) as u64)) as int
        == (if (w as int / 0x200_0000) * 32 + (w as int / 0x80) % 32 >= 0x800 {
        (w as int / 0x200_0000) * 32 + (w as int / 0x80) % 32 + 0xffff_ffff_ffff_f000
    } else {
        (w as int / 0x200_0000) * 32 + (w as int / 0x80) % 32
    })) by (bit_vector);
    (#[verifier::truncate]
    ((((#[verifier::truncate]
    ((w & 0xfe00_0000) as i32)) as i64) >> 20) as u64)) | (((w >> 7) & 0x1f) as u64)
}

/// The B-format immediate of `w`.
fn b_immediate(w: u32) -> (r: u64)
    ensures
        r == b_imm_of(w),
{
    assert((((((w & 0x8000_0000) as i32) as i64 >> 19) as u64) | ((w as u64 & 0x80) << 4) | ((w as u64
        >> 20) & 0x7e0) | ((w as u64 >> 7) & 0x1e)) as int == (if w >= 0x8000_0000u32 {
        0x1000 + ((w as int / 0x80) % 2) * 0x800 + ((w as int / 0x200_0000) % 64) * 32 + ((w as int
            / 0x100) % 16) * 2 + 0xffff_ffff_ffff_e000
    } else {
        ((w as int / 0x80) % 2) * 0x800 + ((w as int / 0x200_0000) % 64) * 32 + ((w as int / 0x100)
            % 16) * 2
    })) by (bit_vector);
    (#[verifier::truncate]
    ((((#[verifier::truncate]
    ((w & 0x8000_0000) as i32)) as i64) >> 19) as u64)) | ((w as u64 & 0x80) << 4) | ((w as u64
        >> 20) & 0x7e0) | ((w as u64 >> 7) & 0x1e)
}

/// The U-format immediate of `w`.
fn u_immediate(w: u32) -> (r: u64)
    ensures
        r == u_imm_of(w),
{
    assert(((((w & 0xffff_f000u32) as i32) as i64) as u64) as int == (if w >= 0x8000_0000u32 {
        (w as int / 0x1000) * 0x1000 + 0xffff_ffff_0000_0000
    } else {
        (w as int / 0x1000) * 0x1000
    })) by (bit_vector);
    #[verifier::truncate]
    (((#[verifier::truncate]
    ((w & 0xffff_f000u32) as i32)) as i64) as u64)
}

/// The J-format immediate of `w`.
fn j_immediate(w: u32) -> (r: u64)
    ensures
        r == j_imm_of(w),
{
    assert((((((w & 0x8000_0000) as i32) as i64 >> 11) as u64) | ((w & 0xff000) as u64) | (((w
        & 0x10_0000) >> 9) as u64) | (((w & 0x7fe0_0000) >> 20) as u64)) as int == (if w
        >= 0x8000_0000u32 {
        0x10_0000 + ((w as int / 0x1000) % 256) * 0x1000 + ((w as int / 0x10_0000) % 2) * 0x800 + ((
        w as int / 0x20_0000) % 1024) * 2 + 0xffff_ffff_ffe0_0000
    } else {
        ((w as int / 0x1000) % 256) * 0x1000 + ((w as int / 0x10_0000) % 2) * 0x800 + ((w as int
            / 0x20_0000) % 1024) * 2
    })) by (bit_vector);
    (#[verifier::truncate]
    ((((#[verifier::truncate]
    ((w & 0x8000_0000) as i32)) as i64) >> 11) as u64)) | ((w & 0xff000) as u64) | (((w
        & 0x10_0000) >> 9) as u64) | (((w & 0x7fe0_0000) >> 20) as u64)
}

/// A decoder for R-format words: register-register operations.
pub struct RTypeDecoder {
    instruction: u32,
}

impl InstructionGetter for RTypeDecoder {
    closed spec fn raw(&self) -> u32 {
        self.instruction
    }

    fn get_raw_instruction(&self) -> (r: u32) {
        self.instruction
    }
}

impl OpcodeDecoder for RTypeDecoder {

}

impl RdDecoder for RTypeDecoder {

}

impl Funct3Decoder for RTypeDecoder {

}

impl Rs1Decoder for RTypeDecoder {

}

impl Rs2Decoder for RTypeDecoder {

}

impl Funct7Decoder for RTypeDecoder {

}

impl RTypeDecoder {
    pub fn new(instruction: u32) -> (d: Self)
        ensures
            d.raw() == instruction,
    {
        Self { instruction }
    }
}

/// A decoder for I-format words: register-immediate operations, loads, `jalr`.
pub struct ITypeDecoder {
    instruction: u32,
}

impl InstructionGetter for ITypeDecoder {
    closed spec fn raw(&self) -> u32 {
        self.instruction
    }

    fn get_raw_instruction(&self) -> (r: u32) {
        self.instruction
    }
}

impl OpcodeDecoder for ITypeDecoder {

}

impl RdDecoder for ITypeDecoder {

}

impl Funct3Decoder for ITypeDecoder {

}

impl Rs1Decoder for ITypeDecoder {

}

impl ITypeDecoder {
    pub fn new(instruction: u32) -> (d: Self)
        ensures
            d.raw() == instruction,
    {
        Self { instruction }
    }

    /// The immediate, sign-extended from 12 bits.
    pub fn get_imm(&self) -> (r: u64)
        ensures
            r == i_imm_of(self.raw()),
    {
        i_immediate(self.instruction)
    }
}

/// A decoder for S-format words: stores.
pub struct STypeDecoder {
    instruction: u32,
}

impl InstructionGetter for STypeDecoder {
    closed spec fn raw(&self) -> u32 {
        self.instruction
    }

    fn get_raw_instruction(&self) -> (r: u32) {
        self.instruction
    }
}

impl OpcodeDecoder for STypeDecoder {

}

impl Funct3Decoder for STypeDecoder {

}

impl Rs1Decoder for STypeDecoder {

}

impl Rs2Decoder for STypeDecoder {

}

impl STypeDecoder {
    pub fn new(instruction: u32) -> (d: Self)
        ensures
            d.raw() == instruction,
    {
        Self { instruction }
    }

    /// The immediate, sign-extended from 12 bits.
    pub fn get_imm(&self) -> (r: u64)
        ensures
            r == s_imm_of(self.raw()),
    {
        s_immediate(self.instruction)
    }
}

/// A decoder for U-format words: `lui` and `auipc`.
pub struct UTypeDecoder {
    instruction: u32,
}

impl InstructionGetter for UTypeDecoder {
    closed spec fn raw(&self) -> u32 {
        self.instruction
    }

    fn get_raw_instruction(&self) -> (r: u32) {
        self.instruction
    }
}

impl OpcodeDecoder for UTypeDecoder {

}

impl RdDecoder for UTypeDecoder {

}

impl UTypeDecoder {
    pub fn new(instruction: u32) -> (d: Self)
        ensures
            d.raw() == instruction,
    {
        Self { instruction }
    }

    /// The immediate, sign-extended to 64 bits, with its low 12 bits zero.
    pub fn get_imm(&self) -> (r: u64)
        ensures
            r == u_imm_of(self.raw()),
    {
        u_immediate(self.instruction)
    }
}

/// A decoder for J-format words: `jal`.
pub struct JTypeDecoder {
    instruction: u32,
}

impl InstructionGetter for JTypeDecoder {
    closed spec fn raw(&self) -> u32 {
        self.instruction
    }

    fn get_raw_instruction(&self) -> (r: u32) {
        self.instruction
    }
}

impl OpcodeDecoder for JTypeDecoder {

}

impl RdDecoder for JTypeDecoder {

}

impl JTypeDecoder {
    pub fn new(instruction: u32) -> (d: Self)
        ensures
            d.raw() == instruction,
    {
        Self { instruction }
    }

    /// The jump offset, sign-extended from 21 bits.
    pub fn get_imm(&self) -> (r: u64)
        ensures
            r == j_imm_of(self.raw()),
    {
        j_immediate(self.instruction)
    }
}

/// A decoder for B-format words: conditional branches.
pub struct BTypeDecoder {
    instruction: u32,
}

impl InstructionGetter for BTypeDecoder {
    closed spec fn raw(&self) -> u32 {
        self.instruction
    }

    fn get_raw_instruction(&self) -> (r: u32) {
        self.instruction
    }
}

impl OpcodeDecoder for BTypeDecoder {

}

impl Funct3Decoder for BTypeDecoder {

}

impl Rs1Decoder for BTypeDecoder {

}

impl Rs2Decoder for BTypeDecoder {

}

impl BTypeDecoder {
    pub fn new(instruction: u32) -> (d: Self)
        ensures
            d.raw() == instruction,
    {
        Self { instruction }
    }

    /// The branch offset, sign-extended from 13 bits.
    pub fn get_imm(&self) -> (r: u64)
        ensures
            r == b_imm_of(self.raw()),
    {
        b_immediate(self.instruction)
    }
}

/// A decoder for any 32-bit word: every fixed field, and the immediate of
/// whichever format the word is read in.
pub struct Instrunction32Decoder {
    instruction: u32,
}

impl InstructionGetter for Instrunction32Decoder {
    closed spec fn raw(&self) -> u32 {
        self.instruction
    }

    fn get_raw_instruction(&self) -> (r: u32) {
        self.instruction
    }
}

impl OpcodeDecoder for Instrunction32Decoder {

}

impl RdDecoder for Instrunction32Decoder {

}

impl Funct3Decoder for Instrunction32Decoder {

}

impl Rs1Decoder for Instrunction32Decoder {

}

impl Rs2Decoder for Instrunction32Decoder {

}

impl Funct7Decoder for Instrunction32Decoder {

}

impl Instrunction32Decoder {
    pub fn new(instruction: u32) -> (d: Self)
        ensures
            d.raw() == instruction,
    {
        Self { instruction }
    }

    /// The immediate of the word, read in `format`. The R format has none.
    pub fn get_imm_field(&self, format: InstructionFormat) -> (r: u64)
        requires
            format != InstructionFormat::R,
        ensures
            r == imm_of(self.raw(), format),
    {
        match format {
            InstructionFormat::I => i_immediate(self.instruction),
            InstructionFormat::S => s_immediate(self.instruction),
            InstructionFormat::U => u_immediate(self.instruction),
            InstructionFormat::J => j_immediate(self.instruction),
            _ => b_immediate(self.instruction),
        }
    }
}

} // verus!
