//! The opcode table: the closed set of instructions and their one-byte
//! encoding.

pub mod program_maker;

use vstd::prelude::*;

verus! {

/// An instruction of the machine. The tag alone fixes how many immediate
/// bytes follow it in the code and how many stack words it takes.
///
/// In the descriptions `a` is the word on top of the operand stack and `b`
/// the word beneath it. An instruction takes its operands off the stack and,
/// where the description names a value, pushes that value. For an
/// instruction on doubles the words are bit patterns of doubles, and the
/// description says what the float unit is asked for.
#[derive(Debug, Clone, Copy, PartialEq, Eq, Structural)]
pub enum Instructions {
    // Control.
    /// Does nothing.
    Nop,
    /// Pauses the machine until the embedder resumes it.
    Interupt,
    // Stack manipulation.
    /// Moves the top word of the return stack to the operand stack.
    FromR,
    /// Moves the top word of the operand stack to the return stack.
    ToR,
    /// Exchanges the top two words.
    Swap,
    /// Pushes a copy of the second word.
    Over,
    /// Pushes a copy of the top word.
    Dup,
    /// Drops the top word.
    Discard,
    /// Pushes the one-byte immediate, zero-extended.
    Im8,
    /// Pushes the two-byte immediate, zero-extended.
    Im16,
    /// Pushes the four-byte immediate, zero-extended.
    Im32,
    /// Pushes the eight-byte immediate.
    Im64,
    // Linear memory and the data region.
    /// Writes the low byte of `b` at the address `a`.
    Store8,
    /// Pushes the byte at the address `a`, zero-extended.
    Load8,
    /// Writes the low two bytes of `b` at the address `a`.
    Store16,
    /// Pushes the two bytes at the address `a`, zero-extended.
    Load16,
    /// Writes the low four bytes of `b` at the address `a`.
    Store32,
    /// Pushes the four bytes at the address `a`, zero-extended.
    Load32,
    /// Writes the eight bytes of `b` at the address `a`.
    Store64,
    /// Pushes the eight bytes at the address `a`.
    Load64,
    /// Appends as many zero bytes to the memory as the one-byte immediate says.
    Alloc,
    /// Removes as many bytes from the end of the memory as the one-byte
    /// immediate says.
    Dealloc,
    /// Pushes the byte at the offset `a` of the data region, zero-extended.
    LoadData8,
    /// Pushes the two bytes at the offset `a` of the data region, zero-extended.
    LoadData16,
    /// Pushes the four bytes at the offset `a` of the data region, zero-extended.
    LoadData32,
    /// Pushes the eight bytes at the offset `a` of the data region.
    LoadData64,
    // Branches.
    /// Branches to the eight-byte immediate.
    J,
    /// Takes `a` and branches to the eight-byte immediate where `a` is zero.
    Jz,
    /// Takes `a` and branches to the eight-byte immediate where `a` is not zero.
    Jnz,
    /// Takes `a` and branches to it.
    Ja,
    // Integer arithmetic on 64-bit words.
    /// `a + b`, signed.
    Add,
    /// `a + b`, unsigned.
    Addu,
    /// `b - a`, signed.
    Sub,
    /// `b - a`, unsigned.
    Subu,
    /// `a * b`, signed.
    Mul,
    /// `a * b`, unsigned.
    Mulu,
    /// `a / b`, signed, rounded toward zero.
    Div,
    /// `a / b`, unsigned.
    Divu,
    /// The remainder of `a / b`, signed; it has the sign of `a`.
    Mod,
    /// The remainder of `a / b`, unsigned.
    Modu,
    /// `-a`.
    Neg,
    /// `a` shifted left by `b` modulo 64 bits.
    Shl,
    /// `a` shifted right by `b` modulo 64 bits, filled with zeros.
    Shlr,
    /// `a` shifted right by `b` modulo 64 bits, filled with its sign bit.
    Shar,
    /// The number of ones in `a`.
    PopCnt,
    // Integer comparison.
    /// 1 where `a == b`, else 0.
    Eq,
    /// 1 where `a != b`, else 0.
    Neq,
    /// 1 where `a < b`, signed, else 0.
    Lt,
    /// 1 where `a < b`, unsigned, else 0.
    Ltu,
    /// 1 where `a <= b`, signed, else 0.
    Leq,
    /// 1 where `a <= b`, unsigned, else 0.
    Lequ,
    /// 1 where `a > b`, signed, else 0.
    Gt,
    /// 1 where `a > b`, unsigned, else 0.
    Gtu,
    /// 1 where `a >= b`, signed, else 0.
    Geq,
    /// 1 where `a >= b`, unsigned, else 0.
    Gequ,
    // Double-precision arithmetic.
    /// `a + b`.
    Addf,
    /// `b - a`.
    Subf,
    /// `a * b`.
    Mulf,
    /// `a / b`.
    Divf,
    /// The remainder of `a / b`.
    Modf,
    /// `-a`.
    Negf,
    /// `1 / a`.
    Invf,
    /// The square root of `a`.
    Sqrf,
    /// `a` to the power `b`.
    Powf,
    /// e to the power `a`.
    Expf,
    /// The natural logarithm of `a`.
    Logf,
    /// The sine of `a`.
    Sinf,
    /// The cosine of `a`.
    Cosf,
    /// The tangent of `a`.
    Tanf,
    /// The arcsine of `a`.
    ArcSinf,
    /// The arccosine of `a`.
    ArcCosf,
    /// The arctangent of `a`.
    ArcTanf,
    /// The hyperbolic sine of `a`.
    Sinhf,
    /// The hyperbolic cosine of `a`.
    Coshf,
    /// The hyperbolic tangent of `a`.
    Tanhf,
    /// The inverse hyperbolic sine of `a`.
    ArcSinhf,
    /// The inverse hyperbolic cosine of `a`.
    ArcCoshf,
    /// The inverse hyperbolic tangent of `a`.
    ArcTanhf,
    // Double-precision comparison.
    /// 1 where `a == b`, else 0.
    Eqf,
    /// 1 where `a != b`, else 0.
    Neqf,
    /// 1 where `a < b`, else 0.
    Ltf,
    /// 1 where `a <= b`, else 0.
    Leqf,
    /// 1 where `a > b`, else 0.
    Gtf,
    /// 1 where `a >= b`, else 0.
    Geqf,
    // Conversion between integers and doubles.
    /// The double nearest to `a`, read as a signed integer.
    ItoF,
    /// The double `a` truncated toward zero to a signed integer.
    FtoI,
}

/// The number of instructions, and the first byte that encodes none.
pub const OPCODE_COUNT: u8 = 86;

impl Instructions {
    /// The byte that encodes the instruction.
    pub open spec fn spec_opcode(&self) -> u8 {
        match self {
            Instructions::Nop => 0,
            Instructions::Interupt => 1,
            Instructions::FromR => 2,
            Instructions::ToR => 3,
            Instructions::Swap => 4,
            Instructions::Over => 5,
            Instructions::Dup => 6,
            Instructions::Discard => 7,
            Instructions::Im8 => 8,
            Instructions::Im16 => 9,
            Instructions::Im32 => 10,
            Instructions::Im64 => 11,
            Instructions::Store8 => 12,
            Instructions::Load8 => 13,
            Instructions::Store16 => 14,
            Instructions::Load16 => 15,
            Instructions::Store32 => 16,
            Instructions::Load32 => 17,
            Instructions::Store64 => 18,
            Instructions::Load64 => 19,
            Instructions::Alloc => 20,
            Instructions::Dealloc => 21,
            Instructions::LoadData8 => 22,
            Instructions::LoadData16 => 23,
            Instructions::LoadData32 => 24,
            Instructions::LoadData64 => 25,
            Instructions::J => 26,
            Instructions::Jz => 27,
            Instructions::Jnz => 28,
            Instructions::Ja => 29,
            Instructions::Add => 30,
            Instructions::Addu => 31,
            Instructions::Sub => 32,
            Instructions::Subu => 33,
            Instructions::Mul => 34,
            Instructions::Mulu => 35,
            Instructions::Div => 36,
            Instructions::Divu => 37,
            Instructions::Mod => 38,
            Instructions::Modu => 39,
            Instructions::Neg => 40,
            Instructions::Shl => 41,
            Instructions::Shlr => 42,
            Instructions::Shar => 43,
            Instructions::PopCnt => 44,
            Instructions::Eq => 45,
            Instructions::Neq => 46,
            Instructions::Lt => 47,
            Instructions::Ltu => 48,
            Instructions::Leq => 49,
            Instructions::Lequ => 50,
            Instructions::Gt => 51,
            Instructions::Gtu => 52,
            Instructions::Geq => 53,
            Instructions::Gequ => 54,
            Instructions::Addf => 55,
            Instructions::Subf => 56,
            Instructions::Mulf => 57,
            Instructions::Divf => 58,
            Instructions::Modf => 59,
            Instructions::Negf => 60,
            Instructions::Invf => 61,
            Instructions::Sqrf => 62,
            Instructions::Powf => 63,
            Instructions::Expf => 64,
            Instructions::Logf => 65,
            Instructions::Sinf => 66,
            Instructions::Cosf => 67,
            Instructions::Tanf => 68,
            Instructions::ArcSinf => 69,
            Instructions::ArcCosf => 70,
            Instructions::ArcTanf => 71,
            Instructions::Sinhf => 72,
            Instructions::Coshf => 73,
            Instructions::Tanhf => 74,
            Instructions::ArcSinhf => 75,
            Instructions::ArcCoshf => 76,
            Instructions::ArcTanhf => 77,
            Instructions::Eqf => 78,
            Instructions::Neqf => 79,
            Instructions::Ltf => 80,
            Instructions::Leqf => 81,
            Instructions::Gtf => 82,
            Instructions::Geqf => 83,
            Instructions::ItoF => 84,
            Instructions::FtoI => 85,
        }
    }

    /// The instruction that a byte encodes, if it encodes one.
    pub open spec fn spec_of_opcode(opcode: u8) -> Option<Instructions> {
        if opcode == 0 {
            Some(Instructions::Nop)
        } else if opcode == 1 {
            Some(Instructions::Interupt)
        } else if opcode == 2 {
            Some(Instructions::FromR)
        } else if opcode == 3 {
            Some(Instructions::ToR)
        } else if opcode == 4 {
            Some(Instructions::Swap)
        } else if opcode == 5 {
            Some(Instructions::Over)
        } else if opcode == 6 {
            Some(Instructions::Dup)
        } else if opcode == 7 {
            Some(Instructions::Discard)
        } else if opcode == 8 {
            Some(Instructions::Im8)
        } else if opcode == 9 {
            Some(Instructions::Im16)
        } else if opcode == 10 {
            Some(Instructions::Im32)
        } else if opcode == 11 {
            Some(Instructions::Im64)
        } else if opcode == 12 {
            Some(Instructions::Store8)
        } else if opcode == 13 {
            Some(Instructions::Load8)
        } else if opcode == 14 {
            Some(Instructions::Store16)
        } else if opcode == 15 {
            Some(Instructions::Load16)
        } else if opcode == 16 {
            Some(Instructions::Store32)
        } else if opcode == 17 {
            Some(Instructions::Load32)
        } else if opcode == 18 {
            Some(Instructions::Store64)
        } else if opcode == 19 {
            Some(Instructions::Load64)
        } else if opcode == 20 {
            Some(Instructions::Alloc)
        } else if opcode == 21 {
            Some(Instructions::Dealloc)
        } else if opcode == 22 {
            Some(Instructions::LoadData8)
        } else if opcode == 23 {
            Some(Instructions::LoadData16)
        } else if opcode == 24 {
            Some(Instructions::LoadData32)
        } else if opcode == 25 {
            Some(Instructions::LoadData64)
        } else if opcode == 26 {
            Some(Instructions::J)
        } else if opcode == 27 {
            Some(Instructions::Jz)
        } else if opcode == 28 {
            Some(Instructions::Jnz)
        } else if opcode == 29 {
            Some(Instructions::Ja)
        } else if opcode == 30 {
            Some(Instructions::Add)
        } else if opcode == 31 {
            Some(Instructions::Addu)
        } else if opcode == 32 {
            Some(Instructions::Sub)
        } else if opcode == 33 {
            Some(Instructions::Subu)
        } else if opcode == 34 {
            Some(Instructions::Mul)
        } else if opcode == 35 {
            Some(Instructions::Mulu)
        } else if opcode == 36 {
            Some(Instructions::Div)
        } else if opcode == 37 {
            Some(Instructions::Divu)
        } else if opcode == 38 {
            Some(Instructions::Mod)
        } else if opcode == 39 {
            Some(Instructions::Modu)
        } else if opcode == 40 {
            Some(Instructions::Neg)
        } else if opcode == 41 {
            Some(Instructions::Shl)
        } else if opcode == 42 {
            Some(Instructions::Shlr)
        } else if opcode == 43 {
            Some(Instructions::Shar)
        } else if opcode == 44 {
            Some(Instructions::PopCnt)
        } else if opcode == 45 {
            Some(Instructions::Eq)
        } else if opcode == 46 {
            Some(Instructions::Neq)
        } else if opcode == 47 {
            Some(Instructions::Lt)
        } else if opcode == 48 {
            Some(Instructions::Ltu)
        } else if opcode == 49 {
            Some(Instructions::Leq)
        } else if opcode == 50 {
            Some(Instructions::Lequ)
        } else if opcode == 51 {
            Some(Instructions::Gt)
        } else if opcode == 52 {
            Some(Instructions::Gtu)
        } else if opcode == 53 {
            Some(Instructions::Geq)
        } else if opcode == 54 {
            Some(Instructions::Gequ)
        } else if opcode == 55 {
            Some(Instructions::Addf)
        } else if opcode == 56 {
            Some(Instructions::Subf)
        } else if opcode == 57 {
            Some(Instructions::Mulf)
        } else if opcode == 58 {
            Some(Instructions::Divf)
        } else if opcode == 59 {
            Some(Instructions::Modf)
        } else if opcode == 60 {
            Some(Instructions::Negf)
        } else if opcode == 61 {
            Some(Instructions::Invf)
        } else if opcode == 62 {
            Some(Instructions::Sqrf)
        } else if opcode == 63 {
            Some(Instructions::Powf)
        } else if opcode == 64 {
            Some(Instructions::Expf)
        } else if opcode == 65 {
            Some(Instructions::Logf)
        } else if opcode == 66 {
            Some(Instructions::Sinf)
        } else if opcode == 67 {
            Some(Instructions::Cosf)
        } else if opcode == 68 {
            Some(Instructions::Tanf)
        } else if opcode == 69 {
            Some(Instructions::ArcSinf)
        } else if opcode == 70 {
            Some(Instructions::ArcCosf)
        } else if opcode == 71 {
            Some(Instructions::ArcTanf)
        } else if opcode == 72 {
            Some(Instructions::Sinhf)
        } else if opcode == 73 {
            Some(Instructions::Coshf)
        } else if opcode == 74 {
            Some(Instructions::Tanhf)
        } else if opcode == 75 {
            Some(Instructions::ArcSinhf)
        } else if opcode == 76 {
            Some(Instructions::ArcCoshf)
        } else if opcode == 77 {
            Some(Instructions::ArcTanhf)
        } else if opcode == 78 {
            Some(Instructions::Eqf)
        } else if opcode == 79 {
            Some(Instructions::Neqf)
        } else if opcode == 80 {
            Some(Instructions::Ltf)
        } else if opcode == 81 {
            Some(Instructions::Leqf)
        } else if opcode == 82 {
            Some(Instructions::Gtf)
        } else if opcode == 83 {
            Some(Instructions::Geqf)
        } else if opcode == 84 {
            Some(Instructions::ItoF)
        } else if opcode == 85 {
            Some(Instructions::FtoI)
        } else {
            None
        }
    }

    /// The number of immediate bytes that follow the opcode in the code.
    pub open spec fn spec_immediate_width(&self) -> u64 {
        match self {
            Instructions::Im8 | Instructions::Alloc | Instructions::Dealloc => 1,
            Instructions::Im16 => 2,
            Instructions::Im32 => 4,
            Instructions::Im64 | Instructions::J | Instructions::Jz | Instructions::Jnz => 8,
            _ => 0,
        }
    }

    /// The number of code bytes that the instruction takes: its opcode and
    /// its immediate.
    pub open spec fn spec_width(&self) -> u64 {
        (1 + self.spec_immediate_width()) as u64
    }

    /// The number of bytes that a load or store instruction moves, and 0 for
    /// any other instruction.
    pub open spec fn spec_access_width(&self) -> u64 {
        match self {
            Instructions::Store8 | Instructions::Load8 | Instructions::LoadData8 => 1,
            Instructions::Store16 | Instructions::Load16 | Instructions::LoadData16 => 2,
            Instructions::Store32 | Instructions::Load32 | Instructions::LoadData32 => 4,
            Instructions::Store64 | Instructions::Load64 | Instructions::LoadData64 => 8,
            _ => 0,
        }
    }

    /// The number of words that must be on the operand stack for the
    /// instruction to run.
    pub open spec fn spec_stack_demand(&self) -> u64 {
        match self {
            Instructions::Swap
            | Instructions::Over
            | Instructions::Store8
            | Instructions::Store16
            | Instructions::Store32
            | Instructions::Store64
            | Instructions::Add
            | Instructions::Addu
            | Instructions::Sub
            | Instructions::Subu
            | Instructions::Mul
            | Instructions::Mulu
            | Instructions::Div
            | Instructions::Divu
            | Instructions::Mod
            | Instructions::Modu
            | Instructions::Shl
            | Instructions::Shlr
            | Instructions::Shar
            | Instructions::Eq
            | Instructions::Neq
            | Instructions::Lt
            | Instructions::Ltu
            | Instructions::Leq
            | Instructions::Lequ
            | Instructions::Gt
            | Instructions::Gtu
            | Instructions::Geq
            | Instructions::Gequ
            | Instructions::Addf
            | Instructions::Subf
            | Instructions::Mulf
            | Instructions::Divf
            | Instructions::Modf
            | Instructions::Powf
            | Instructions::Eqf
            | Instructions::Neqf
            | Instructions::Ltf
            | Instructions::Leqf
            | Instructions::Gtf
            | Instructions::Geqf => 2,
            Instructions::ToR
            | Instructions::Dup
            | Instructions::Discard
            | Instructions::Load8
            | Instructions::Load16
            | Instructions::Load32
            | Instructions::Load64
            | Instructions::LoadData8
            | Instructions::LoadData16
            | Instructions::LoadData32
            | Instructions::LoadData64
            | Instructions::Jz
            | Instructions::Jnz
            | Instructions::Ja
            | Instructions::Neg
            | Instructions::PopCnt
            | Instructions::Negf
            | Instructions::Invf
            | Instructions::Sqrf
            | Instructions::Expf
            | Instructions::Logf
            | Instructions::Sinf
            | Instructions::Cosf
            | Instructions::Tanf
            | Instructions::ArcSinf
            | Instructions::ArcCosf
            | Instructions::ArcTanf
            | Instructions::Sinhf
            | Instructions::Coshf
            | Instructions::Tanhf
            | Instructions::ArcSinhf
            | Instructions::ArcCoshf
            | Instructions::ArcTanhf
            | Instructions::ItoF
            | Instructions::FtoI => 1,
            _ => 0,
        }
    }

    /// Whether the instruction computes one word from the top one or two
    /// words of the operand stack by integer arithmetic or comparison.
    pub open spec fn spec_is_integer(&self) -> bool {
        match self {
            Instructions::Add
            | Instructions::Addu
            | Instructions::Sub
            | Instructions::Subu
            | Instructions::Mul
            | Instructions::Mulu
            | Instructions::Div
            | Instructions::Divu
            | Instructions::Mod
            | Instructions::Modu
            | Instructions::Neg
            | Instructions::Shl
            | Instructions::Shlr
            | Instructions::Shar
            | Instructions::PopCnt
            | Instructions::Eq
            | Instructions::Neq
            | Instructions::Lt
            | Instructions::Ltu
            | Instructions::Leq
            | Instructions::Lequ
            | Instructions::Gt
            | Instructions::Gtu
            | Instructions::Geq
            | Instructions::Gequ => true,
            _ => false,
        }
    }

    /// Whether the instruction computes on doubles, so that its result comes
    /// from the float unit.
    pub open spec fn spec_is_float(&self) -> bool {
        match self {
            Instructions::Addf
            | Instructions::Subf
            | Instructions::Mulf
            | Instructions::Divf
            | Instructions::Modf
            | Instructions::Negf
            | Instructions::Invf
            | Instructions::Sqrf
            | Instructions::Powf
            | Instructions::Expf
            | Instructions::Logf
            | Instructions::Sinf
            | Instructions::Cosf
            | Instructions::Tanf
            | Instructions::ArcSinf
            | Instructions::ArcCosf
            | Instructions::ArcTanf
            | Instructions::Sinhf
            | Instructions::Coshf
            | Instructions::Tanhf
            | Instructions::ArcSinhf
            | Instructions::ArcCoshf
            | Instructions::ArcTanhf
            | Instructions::Eqf
            | Instructions::Neqf
            | Instructions::Ltf
            | Instructions::Leqf
            | Instructions::Gtf
            | Instructions::Geqf
            | Instructions::ItoF
            | Instructions::FtoI => true,
            _ => false,
        }
    }

    /// The byte that encodes the instruction.
    #[verifier::when_used_as_spec(spec_opcode)]
    pub fn opcode(&self) -> (byte: u8)
        ensures
            byte == self.spec_opcode(),
    {
        match self {
            Instructions::Nop => 0,
            Instructions::Interupt => 1,
            Instructions::FromR => 2,
            Instructions::ToR => 3,
            Instructions::Swap => 4,
            Instructions::Over => 5,
            Instructions::Dup => 6,
            Instructions::Discard => 7,
            Instructions::Im8 => 8,
            Instructions::Im16 => 9,
            Instructions::Im32 => 10,
            Instructions::Im64 => 11,
            Instructions::Store8 => 12,
            Instructions::Load8 => 13,
            Instructions::Store16 => 14,
            Instructions::Load16 => 15,
            Instructions::Store32 => 16,
            Instructions::Load32 => 17,
            Instructions::Store64 => 18,
            Instructions::Load64 => 19,
            Instructions::Alloc => 20,
            Instructions::Dealloc => 21,
            Instructions::LoadData8 => 22,
            Instructions::LoadData16 => 23,
            Instructions::LoadData32 => 24,
            Instructions::LoadData64 => 25,
            Instructions::J => 26,
            Instructions::Jz => 27,
            Instructions::Jnz => 28,
            Instructions::Ja => 29,
            Instructions::Add => 30,
            Instructions::Addu => 31,
            Instructions::Sub => 32,
            Instructions::Subu => 33,
            Instructions::Mul => 34,
            Instructions::Mulu => 35,
            Instructions::Div => 36,
            Instructions::Divu => 37,
            Instructions::Mod => 38,
            Instructions::Modu => 39,
            Instructions::Neg => 40,
            Instructions::Shl => 41,
            Instructions::Shlr => 42,
            Instructions::Shar => 43,
            Instructions::PopCnt => 44,
            Instructions::Eq => 45,
            Instructions::Neq => 46,
            Instructions::Lt => 47,
            Instructions::Ltu => 48,
            Instructions::Leq => 49,
            Instructions::Lequ => 50,
            Instructions::Gt => 51,
            Instructions::Gtu => 52,
            Instructions::Geq => 53,
            Instructions::Gequ => 54,
            Instructions::Addf => 55,
            Instructions::Subf => 56,
            Instructions::Mulf => 57,
            Instructions::Divf => 58,
            Instructions::Modf => 59,
            Instructions::Negf => 60,
            Instructions::Invf => 61,
            Instructions::Sqrf => 62,
            Instructions::Powf => 63,
            Instructions::Expf => 64,
            Instructions::Logf => 65,
            Instructions::Sinf => 66,
            Instructions::Cosf => 67,
            Instructions::Tanf => 68,
            Instructions::ArcSinf => 69,
            Instructions::ArcCosf => 70,
            Instructions::ArcTanf => 71,
            Instructions::Sinhf => 72,
            Instructions::Coshf => 73,
            Instructions::Tanhf => 74,
            Instructions::ArcSinhf => 75,
            Instructions::ArcCoshf => 76,
            Instructions::ArcTanhf => 77,
            Instructions::Eqf => 78,
            Instructions::Neqf => 79,
            Instructions::Ltf => 80,
            Instructions::Leqf => 81,
            Instructions::Gtf => 82,
            Instructions::Geqf => 83,
            Instructions::ItoF => 84,
            Instructions::FtoI => 85,
        }
    }

    /// The instruction that `opcode` encodes; `None` where it encodes none.
    #[verifier::when_used_as_spec(spec_of_opcode)]
    pub fn of_opcode(opcode: u8) -> (ins: Option<Instructions>)
        ensures
            ins == Instructions::spec_of_opcode(opcode),
    {
        match opcode {
            0 => Some(Instructions::Nop),
            1 => Some(Instructions::Interupt),
            2 => Some(Instructions::FromR),
            3 => Some(Instructions::ToR),
            4 => Some(Instructions::Swap),
            5 => Some(Instructions::Over),
            6 => Some(Instructions::Dup),
            7 => Some(Instructions::Discard),
            8 => Some(Instructions::Im8),
            9 => Some(Instructions::Im16),
            10 => Some(Instructions::Im32),
            11 => Some(Instructions::Im64),
            12 => Some(Instructions::Store8),
            13 => Some(Instructions::Load8),
            14 => Some(Instructions::Store16),
            15 => Some(Instructions::Load16),
            16 => Some(Instructions::Store32),
            17 => Some(Instructions::Load32),
            18 => Some(Instructions::Store64),
            19 => Some(Instructions::Load64),
            20 => Some(Instructions::Alloc),
            21 => Some(Instructions::Dealloc),
            22 => Some(Instructions::LoadData8),
            23 => Some(Instructions::LoadData16),
            24 => Some(Instructions::LoadData32),
            25 => Some(Instructions::LoadData64),
            26 => Some(Instructions::J),
            27 => Some(Instructions::Jz),
            28 => Some(Instructions::Jnz),
            29 => Some(Instructions::Ja),
            30 => Some(Instructions::Add),
            31 => Some(Instructions::Addu),
            32 => Some(Instructions::Sub),
            33 => Some(Instructions::Subu),
            34 => Some(Instructions::Mul),
            35 => Some(Instructions::Mulu),
            36 => Some(Instructions::Div),
            37 => Some(Instructions::Divu),
            38 => Some(Instructions::Mod),
            39 => Some(Instructions::Modu),
            40 => Some(Instructions::Neg),
            41 => Some(Instructions::Shl),
            42 => Some(Instructions::Shlr),
            43 => Some(Instructions::Shar),
            44 => Some(Instructions::PopCnt),
            45 => Some(Instructions::Eq),
            46 => Some(Instructions::Neq),
            47 => Some(Instructions::Lt),
            48 => Some(Instructions::Ltu),
            49 => Some(Instructions::Leq),
            50 => Some(Instructions::Lequ),
            51 => Some(Instructions::Gt),
            52 => Some(Instructions::Gtu),
            53 => Some(Instructions::Geq),
            54 => Some(Instructions::Gequ),
            55 => Some(Instructions::Addf),
            56 => Some(Instructions::Subf),
            57 => Some(Instructions::Mulf),
            58 => Some(Instructions::Divf),
            59 => Some(Instructions::Modf),
            60 => Some(Instructions::Negf),
            61 => Some(Instructions::Invf),
            62 => Some(Instructions::Sqrf),
            63 => Some(Instructions::Powf),
            64 => Some(Instructions::Expf),
            65 => Some(Instructions::Logf),
            66 => Some(Instructions::Sinf),
            67 => Some(Instructions::Cosf),
            68 => Some(Instructions::Tanf),
            69 => Some(Instructions::ArcSinf),
            70 => Some(Instructions::ArcCosf),
            71 => Some(Instructions::ArcTanf),
            72 => Some(Instructions::Sinhf),
            73 => Some(Instructions::Coshf),
            74 => Some(Instructions::Tanhf),
            75 => Some(Instructions::ArcSinhf),
            76 => Some(Instructions::ArcCoshf),
            77 => Some(Instructions::ArcTanhf),
            78 => Some(Instructions::Eqf),
            79 => Some(Instructions::Neqf),
            80 => Some(Instructions::Ltf),
            81 => Some(Instructions::Leqf),
            82 => Some(Instructions::Gtf),
            83 => Some(Instructions::Geqf),
            84 => Some(Instructions::ItoF),
            85 => Some(Instructions::FtoI),
            _ => None,
        }
    }

    /// The number of immediate bytes that follow the opcode in the code.
    #[verifier::when_used_as_spec(spec_immediate_width)]
    pub fn immediate_width(&self) -> (width: u64)
        ensures
            width == self.spec_immediate_width(),
    {
        match self {
            Instructions::Im8 | Instructions::Alloc | Instructions::Dealloc => 1,
            Instructions::Im16 => 2,
            Instructions::Im32 => 4,
            Instructions::Im64 | Instructions::J | Instructions::Jz | Instructions::Jnz => 8,
            _ => 0,
        }
    }

    /// The number of code bytes that the instruction takes.
    #[verifier::when_used_as_spec(spec_width)]
    pub fn width(&self) -> (width: u64)
        ensures
            width == self.spec_width(),
    {
        1 + self.immediate_width()
    }

    /// The number of bytes that a load or store instruction moves, and 0 for
    /// any other instruction.
    #[verifier::when_used_as_spec(spec_access_width)]
    pub fn access_width(&self) -> (width: u64)
        ensures
            width == self.spec_access_width(),
    {
        match self {
            Instructions::Store8 | Instructions::Load8 | Instructions::LoadData8 => 1,
            Instructions::Store16 | Instructions::Load16 | Instructions::LoadData16 => 2,
            Instructions::Store32 | Instructions::Load32 | Instructions::LoadData32 => 4,
            Instructions::Store64 | Instructions::Load64 | Instructions::LoadData64 => 8,
            _ => 0,
        }
    }

    /// The number of words that must be on the operand stack for the
    /// instruction to run.
    #[verifier::when_used_as_spec(spec_stack_demand)]
    pub fn stack_demand(&self) -> (words: u64)
        ensures
            words == self.spec_stack_demand(),
    {
        match self {
            Instructions::Swap
            | Instructions::Over
            | Instructions::Store8
            | Instructions::Store16
            | Instructions::Store32
            | Instructions::Store64
            | Instructions::Add
            | Instructions::Addu
            | Instructions::Sub
            | Instructions::Subu
            | Instructions::Mul
            | Instructions::Mulu
            | Instructions::Div
            | Instructions::Divu
            | Instructions::Mod
            | Instructions::Modu
            | Instructions::Shl
            | Instructions::Shlr
            | Instructions::Shar
            | Instructions::Eq
            | Instructions::Neq
            | Instructions::Lt
            | Instructions::Ltu
            | Instructions::Leq
            | Instructions::Lequ
            | Instructions::Gt
            | Instructions::Gtu
            | Instructions::Geq
            | Instructions::Gequ
            | Instructions::Addf
            | Instructions::Subf
            | Instructions::Mulf
            | Instructions::Divf
            | Instructions::Modf
            | Instructions::Powf
            | Instructions::Eqf
            | Instructions::Neqf
            | Instructions::Ltf
            | Instructions::Leqf
            | Instructions::Gtf
            | Instructions::Geqf => 2,
            Instructions::ToR
            | Instructions::Dup
            | Instructions::Discard
            | Instructions::Load8
            | Instructions::Load16
            | Instructions::Load32
            | Instructions::Load64
            | Instructions::LoadData8
            | Instructions::LoadData16
            | Instructions::LoadData32
            | Instructions::LoadData64
            | Instructions::Jz
            | Instructions::Jnz
            | Instructions::Ja
            | Instructions::Neg
            | Instructions::PopCnt
            | Instructions::Negf
            | Instructions::Invf
            | Instructions::Sqrf
            | Instructions::Expf
            | Instructions::Logf
            | Instructions::Sinf
            | Instructions::Cosf
            | Instructions::Tanf
            | Instructions::ArcSinf
            | Instructions::ArcCosf
            | Instructions::ArcTanf
            | Instructions::Sinhf
            | Instructions::Coshf
            | Instructions::Tanhf
            | Instructions::ArcSinhf
            | Instructions::ArcCoshf
            | Instructions::ArcTanhf
            | Instructions::ItoF
            | Instructions::FtoI => 1,
            _ => 0,
        }
    }

    /// Whether the instruction computes one word by integer arithmetic or
    /// comparison.
    #[verifier::when_used_as_spec(spec_is_integer)]
    pub fn is_integer(&self) -> (integer: bool)
        ensures
            integer == self.spec_is_integer(),
    {
        match self {
            Instructions::Add
            | Instructions::Addu
            | Instructions::Sub
            | Instructions::Subu
            | Instructions::Mul
            | Instructions::Mulu
            | Instructions::Div
            | Instructions::Divu
            | Instructions::Mod
            | Instructions::Modu
            | Instructions::Neg
            | Instructions::Shl
            | Instructions::Shlr
            | Instructions::Shar
            | Instructions::PopCnt
            | Instructions::Eq
            | Instructions::Neq
            | Instructions::Lt
            | Instructions::Ltu
            | Instructions::Leq
            | Instructions::Lequ
            | Instructions::Gt
            | Instructions::Gtu
            | Instructions::Geq
            | Instructions::Gequ => true,
            _ => false,
        }
    }

    /// Whether the instruction computes on doubles.
    #[verifier::when_used_as_spec(spec_is_float)]
    pub fn is_float(&self) -> (float: bool)
        ensures
            float == self.spec_is_float(),
    {
        match self {
            Instructions::Addf
            | Instructions::Subf
            | Instructions::Mulf
            | Instructions::Divf
            | Instructions::Modf
            | Instructions::Negf
            | Instructions::Invf
            | Instructions::Sqrf
            | Instructions::Powf
            | Instructions::Expf
            | Instructions::Logf
            | Instructions::Sinf
            | Instructions::Cosf
            | Instructions::Tanf
            | Instructions::ArcSinf
            | Instructions::ArcCosf
            | Instructions::ArcTanf
            | Instructions::Sinhf
            | Instructions::Coshf
            | Instructions::Tanhf
            | Instructions::ArcSinhf
            | Instructions::ArcCoshf
            | Instructions::ArcTanhf
            | Instructions::Eqf
            | Instructions::Neqf
            | Instructions::Ltf
            | Instructions::Leqf
            | Instructions::Gtf
            | Instructions::Geqf
            | Instructions::ItoF
            | Instructions::FtoI => true,
            _ => false,
        }
    }
}

/// Decoding is the inverse of encoding: every instruction is found again
/// from its byte.
pub proof fn lemma_of_opcode_of_opcode(ins: Instructions)
    ensures
        Instructions::spec_of_opcode(ins.spec_opcode()) == Some(ins),
{
}

/// A byte decodes exactly when it is below the number of instructions, and
/// then to the instruction that it encodes.
pub proof fn lemma_opcode_of_of_opcode(opcode: u8)
    ensures
        Instructions::spec_of_opcode(opcode) is Some <==> opcode < OPCODE_COUNT,
        Instructions::spec_of_opcode(opcode) matches Some(ins) ==> ins.spec_opcode() == opcode,
{
}

/// Encoding is injective: two instructions with one byte are one instruction.
pub proof fn lemma_opcode_injective(a: Instructions, b: Instructions)
    requires
        a.spec_opcode() == b.spec_opcode(),
    ensures
        a == b,
{
    lemma_of_opcode_of_opcode(a);
    lemma_of_opcode_of_opcode(b);
}

} // verus!
