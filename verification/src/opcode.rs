//! The static opcode dispatch table: a mapping from each 8-bit instruction
//! code to its descriptor (mnemonic class, addressing mode, instruction
//! length in bytes, base cycle count).
use vstd::prelude::*;

verus! {

/// Mnemonic class of an instruction, covering the official operations the
/// interpreter executes as well as the undocumented ones it only decodes.
#[derive(Clone, Copy, Debug, PartialEq, Eq, Structural)]
pub enum Mnemonic {
    Brk,
    Ora,
    Kil,
    Slo,
    Nop,
    Asl,
    Php,
    Anc,
    Bpl,
    Clc,
    Jsr,
    And,
    Rla,
    Bit,
    Rol,
    Plp,
    Bmi,
    Sec,
    Rti,
    Eor,
    Sre,
    Lsr,
    Pha,
    Alr,
    Jmp,
    Bvc,
    Cli,
    Rts,
    Adc,
    Rra,
    Ror,
    Pla,
    Arr,
    Bvs,
    Sei,
    Sta,
    Sax,
    Sty,
    Stx,
    Dey,
    Txa,
    Xaa,
    Bcc,
    Ahx,
    Tya,
    Txs,
    Tas,
    Shy,
    Shx,
    Ldy,
    Lda,
    Ldx,
    Lax,
    Tay,
    Tax,
    Bcs,
    Clv,
    Tsx,
    Las,
    Cpy,
    Cmp,
    Dcp,
    Dec,
    Iny,
    Dex,
    Axs,
    Bne,
    Cld,
    Cpx,
    Sbc,
    Isc,
    Inc,
    Inx,
    Beq,
    Sed,
}

/// Addressing mode: the rule for computing an instruction's operand
/// location or value from the bytes that follow the instruction code.
#[derive(Clone, Copy, Debug, PartialEq, Eq, Structural)]
pub enum AddrMode {
    Implied,
    Immediate,
    ZeroPage,
    ZeroPageX,
    ZeroPageY,
    Absolute,
    AbsoluteX,
    AbsoluteY,
    IndirectX,
    IndirectY,
    Accumulator,
    Relative,
    Indirect,
}

/// Immutable opcode descriptor. 256 such records, indexed by the raw
/// instruction byte, form the full dispatch table.
#[derive(Clone, Copy, Debug, PartialEq, Eq, Structural)]
pub struct Opcode {
    /// Mnemonic class.
    pub code: Mnemonic,
    /// Base cycle count of the instruction.
    pub cycles: u8,
    /// Addressing mode.
    pub addressing: AddrMode,
    /// Instruction length in bytes, operand included.
    pub bytes: u8,
}

/// The dispatch table as a mathematical function from instruction byte to
/// descriptor.
pub open spec fn opcode_spec(code: u8) -> Opcode {
    match code {
        0u8 => Opcode { code: Mnemonic::Brk, bytes: 0, cycles: 0, addressing: AddrMode::Implied },
        1u8 => Opcode { code: Mnemonic::Ora, bytes: 2, cycles: 6, addressing: AddrMode::IndirectX },
        2u8 => Opcode { code: Mnemonic::Kil, bytes: 0, cycles: 0, addressing: AddrMode::Implied },
        3u8 => Opcode { code: Mnemonic::Slo, bytes: 2, cycles: 8, addressing: AddrMode::IndirectX },
        4u8 => Opcode { code: Mnemonic::Nop, bytes: 2, cycles: 3, addressing: AddrMode::ZeroPage },
        5u8 => Opcode { code: Mnemonic::Ora, bytes: 2, cycles: 3, addressing: AddrMode::ZeroPage },
        6u8 => Opcode { code: Mnemonic::Asl, bytes: 2, cycles: 5, addressing: AddrMode::ZeroPage },
        7u8 => Opcode { code: Mnemonic::Slo, bytes: 2, cycles: 5, addressing: AddrMode::ZeroPage },
        8u8 => Opcode { code: Mnemonic::Php, bytes: 1, cycles: 3, addressing: AddrMode::Implied },
        9u8 => Opcode { code: Mnemonic::Ora, bytes: 2, cycles: 2, addressing: AddrMode::Immediate },
        10u8 => Opcode { code: Mnemonic::Asl, bytes: 1, cycles: 2, addressing: AddrMode::Accumulator },
        11u8 => Opcode { code: Mnemonic::Anc, bytes: 2, cycles: 2, addressing: AddrMode::Immediate },
        12u8 => Opcode { code: Mnemonic::Nop, bytes: 3, cycles: 4, addressing: AddrMode::Absolute },
        13u8 => Opcode { code: Mnemonic::Ora, bytes: 3, cycles: 4, addressing: AddrMode::Absolute },
        14u8 => Opcode { code: Mnemonic::Asl, bytes: 3, cycles: 6, addressing: AddrMode::Absolute },
        15u8 => Opcode { code: Mnemonic::Slo, bytes: 3, cycles: 6, addressing: AddrMode::Absolute },
        16u8 => Opcode { code: Mnemonic::Bpl, bytes: 2, cycles: 3, addressing: AddrMode::Relative },
        17u8 => Opcode { code: Mnemonic::Ora, bytes: 2, cycles: 5, addressing: AddrMode::IndirectY },
        18u8 => Opcode { code: Mnemonic::Kil, bytes: 0, cycles: 0, addressing: AddrMode::Implied },
        19u8 => Opcode { code: Mnemonic::Slo, bytes: 2, cycles: 8, addressing: AddrMode::IndirectY },
        20u8 => Opcode { code: Mnemonic::Nop, bytes: 2, cycles: 4, addressing: AddrMode::ZeroPageX },
        21u8 => Opcode { code: Mnemonic::Ora, bytes: 2, cycles: 4, addressing: AddrMode::ZeroPageX },
        22u8 => Opcode { code: Mnemonic::Asl, bytes: 2, cycles: 6, addressing: AddrMode::ZeroPageX },
        23u8 => Opcode { code: Mnemonic::Slo, bytes: 2, cycles: 6, addressing: AddrMode::ZeroPageX },
        24u8 => Opcode { code: Mnemonic::Clc, bytes: 1, cycles: 2, addressing: AddrMode::Implied },
        25u8 => Opcode { code: Mnemonic::Ora, bytes: 3, cycles: 4, addressing: AddrMode::AbsoluteY },
        26u8 => Opcode { code: Mnemonic::Nop, bytes: 1, cycles: 2, addressing: AddrMode::Implied },
        27u8 => Opcode { code: Mnemonic::Slo, bytes: 3, cycles: 7, addressing: AddrMode::AbsoluteY },
        28u8 => Opcode { code: Mnemonic::Nop, bytes: 3, cycles: 4, addressing: AddrMode::AbsoluteX },
        29u8 => Opcode { code: Mnemonic::Ora, bytes: 3, cycles: 4, addressing: AddrMode::AbsoluteX },
        30u8 => Opcode { code: Mnemonic::Asl, bytes: 3, cycles: 7, addressing: AddrMode::AbsoluteX },
        31u8 => Opcode { code: Mnemonic::Slo, bytes: 3, cycles: 7, addressing: AddrMode::AbsoluteX },
        32u8 => Opcode { code: Mnemonic::Jsr, bytes: 3, cycles: 6, addressing: AddrMode::Absolute },
        33u8 => Opcode { code: Mnemonic::And, bytes: 2, cycles: 6, addressing: AddrMode::IndirectX },
        34u8 => Opcode { code: Mnemonic::Kil, bytes: 0, cycles: 0, addressing: AddrMode::Implied },
        35u8 => Opcode { code: Mnemonic::Rla, bytes: 2, cycles: 8, addressing: AddrMode::IndirectX },
        36u8 => Opcode { code: Mnemonic::Bit, bytes: 2, cycles: 3, addressing: AddrMode::ZeroPage },
        37u8 => Opcode { code: Mnemonic::And, bytes: 2, cycles: 3, addressing: AddrMode::ZeroPage },
        38u8 => Opcode { code: Mnemonic::Rol, bytes: 2, cycles: 5, addressing: AddrMode::ZeroPage },
        39u8 => Opcode { code: Mnemonic::Rla, bytes: 2, cycles: 5, addressing: AddrMode::ZeroPage },
        40u8 => Opcode { code: Mnemonic::Plp, bytes: 1, cycles: 4, addressing: AddrMode::Implied },
        41u8 => Opcode { code: Mnemonic::And, bytes: 2, cycles: 2, addressing: AddrMode::Immediate },
        42u8 => Opcode { code: Mnemonic::Rol, bytes: 1, cycles: 2, addressing: AddrMode::Accumulator },
        43u8 => Opcode { code: Mnemonic::Anc, bytes: 2, cycles: 2, addressing: AddrMode::Immediate },
        44u8 => Opcode { code: Mnemonic::Bit, bytes: 3, cycles: 4, addressing: AddrMode::Absolute },
        45u8 => Opcode { code: Mnemonic::And, bytes: 3, cycles: 4, addressing: AddrMode::Absolute },
        46u8 => Opcode { code: Mnemonic::Rol, bytes: 3, cycles: 6, addressing: AddrMode::Absolute },
        47u8 => Opcode { code: Mnemonic::Rla, bytes: 3, cycles: 6, addressing: AddrMode::Absolute },
        48u8 => Opcode { code: Mnemonic::Bmi, bytes: 2, cycles: 2, addressing: AddrMode::Relative },
        49u8 => Opcode { code: Mnemonic::And, bytes: 2, cycles: 5, addressing: AddrMode::IndirectY },
        50u8 => Opcode { code: Mnemonic::Kil, bytes: 0, cycles: 0, addressing: AddrMode::Implied },
        51u8 => Opcode { code: Mnemonic::Rla, bytes: 2, cycles: 8, addressing: AddrMode::IndirectY },
        52u8 => Opcode { code: Mnemonic::Nop, bytes: 2, cycles: 4, addressing: AddrMode::ZeroPageX },
        53u8 => Opcode { code: Mnemonic::And, bytes: 2, cycles: 4, addressing: AddrMode::ZeroPageX },
        54u8 => Opcode { code: Mnemonic::Rol, bytes: 2, cycles: 6, addressing: AddrMode::ZeroPageX },
        55u8 => Opcode { code: Mnemonic::Rla, bytes: 2, cycles: 6, addressing: AddrMode::ZeroPageX },
        56u8 => Opcode { code: Mnemonic::Sec, bytes: 1, cycles: 2, addressing: AddrMode::Implied },
        57u8 => Opcode { code: Mnemonic::And, bytes: 3, cycles: 4, addressing: AddrMode::AbsoluteY },
        58u8 => Opcode { code: Mnemonic::Nop, bytes: 1, cycles: 2, addressing: AddrMode::Implied },
        59u8 => Opcode { code: Mnemonic::Rla, bytes: 3, cycles: 7, addressing: AddrMode::AbsoluteY },
        60u8 => Opcode { code: Mnemonic::Nop, bytes: 3, cycles: 4, addressing: AddrMode::AbsoluteX },
        61u8 => Opcode { code: Mnemonic::And, bytes: 3, cycles: 4, addressing: AddrMode::AbsoluteX },
        62u8 => Opcode { code: Mnemonic::Rol, bytes: 3, cycles: 7, addressing: AddrMode::AbsoluteX },
        63u8 => Opcode { code: Mnemonic::Rla, bytes: 3, cycles: 7, addressing: AddrMode::AbsoluteX },
        64u8 => Opcode { code: Mnemonic::Rti, bytes: 1, cycles: 6, addressing: AddrMode::Implied },
        65u8 => Opcode { code: Mnemonic::Eor, bytes: 2, cycles: 6, addressing: AddrMode::IndirectX },
        66u8 => Opcode { code: Mnemonic::Kil, bytes: 0, cycles: 0, addressing: AddrMode::Implied },
        67u8 => Opcode { code: Mnemonic::Sre, bytes: 2, cycles: 8, addressing: AddrMode::IndirectX },
        68u8 => Opcode { code: Mnemonic::Nop, bytes: 2, cycles: 3, addressing: AddrMode::ZeroPage },
        69u8 => Opcode { code: Mnemonic::Eor, bytes: 2, cycles: 3, addressing: AddrMode::ZeroPage },
        70u8 => Opcode { code: Mnemonic::Lsr, bytes: 2, cycles: 5, addressing: AddrMode::ZeroPage },
        71u8 => Opcode { code: Mnemonic::Sre, bytes: 2, cycles: 5, addressing: AddrMode::ZeroPage },
        72u8 => Opcode { code: Mnemonic::Pha, bytes: 1, cycles: 3, addressing: AddrMode::Implied },
        73u8 => Opcode { code: Mnemonic::Eor, bytes: 2, cycles: 2, addressing: AddrMode::Immediate },
        74u8 => Opcode { code: Mnemonic::Lsr, bytes: 1, cycles: 2, addressing: AddrMode::Accumulator },
        75u8 => Opcode { code: Mnemonic::Alr, bytes: 2, cycles: 2, addressing: AddrMode::Immediate },
        76u8 => Opcode { code: Mnemonic::Jmp, bytes: 3, cycles: 3, addressing: AddrMode::Absolute },
        77u8 => Opcode { code: Mnemonic::Eor, bytes: 3, cycles: 4, addressing: AddrMode::Absolute },
        78u8 => Opcode { code: Mnemonic::Lsr, bytes: 3, cycles: 6, addressing: AddrMode::Absolute },
        79u8 => Opcode { code: Mnemonic::Sre, bytes: 3, cycles: 6, addressing: AddrMode::Absolute },
        80u8 => Opcode { code: Mnemonic::Bvc, bytes: 2, cycles: 3, addressing: AddrMode::Relative },
        81u8 => Opcode { code: Mnemonic::Eor, bytes: 2, cycles: 5, addressing: AddrMode::IndirectY },
        82u8 => Opcode { code: Mnemonic::Kil, bytes: 0, cycles: 0, addressing: AddrMode::Implied },
        83u8 => Opcode { code: Mnemonic::Sre, bytes: 2, cycles: 8, addressing: AddrMode::IndirectY },
        84u8 => Opcode { code: Mnemonic::Nop, bytes: 2, cycles: 4, addressing: AddrMode::ZeroPageX },
        85u8 => Opcode { code: Mnemonic::Eor, bytes: 2, cycles: 4, addressing: AddrMode::ZeroPageX },
        86u8 => Opcode { code: Mnemonic::Lsr, bytes: 2, cycles: 6, addressing: AddrMode::ZeroPageX },
        87u8 => Opcode { code: Mnemonic::Sre, bytes: 2, cycles: 6, addressing: AddrMode::ZeroPageX },
        88u8 => Opcode { code: Mnemonic::Cli, bytes: 1, cycles: 2, addressing: AddrMode::Implied },
        89u8 => Opcode { code: Mnemonic::Eor, bytes: 3, cycles: 4, addressing: AddrMode::AbsoluteY },
        90u8 => Opcode { code: Mnemonic::Nop, bytes: 1, cycles: 2, addressing: AddrMode::Implied },
        91u8 => Opcode { code: Mnemonic::Sre, bytes: 3, cycles: 7, addressing: AddrMode::AbsoluteY },
        92u8 => Opcode { code: Mnemonic::Nop, bytes: 3, cycles: 4, addressing: AddrMode::AbsoluteX },
        93u8 => Opcode { code: Mnemonic::Eor, bytes: 3, cycles: 4, addressing: AddrMode::AbsoluteX },
        94u8 => Opcode { code: Mnemonic::Lsr, bytes: 3, cycles: 7, addressing: AddrMode::AbsoluteX },
        95u8 => Opcode { code: Mnemonic::Sre, bytes: 3, cycles: 7, addressing: AddrMode::AbsoluteX },
        96u8 => Opcode { code: Mnemonic::Rts, bytes: 1, cycles: 6, addressing: AddrMode::Implied },
        97u8 => Opcode { code: Mnemonic::Adc, bytes: 2, cycles: 6, addressing: AddrMode::IndirectX },
        98u8 => Opcode { code: Mnemonic::Kil, bytes: 0, cycles: 0, addressing: AddrMode::Implied },
        99u8 => Opcode { code: Mnemonic::Rra, bytes: 2, cycles: 8, addressing: AddrMode::IndirectX },
        100u8 => Opcode { code: Mnemonic::Nop, bytes: 2, cycles: 3, addressing: AddrMode::ZeroPage },
        101u8 => Opcode { code: Mnemonic::Adc, bytes: 2, cycles: 3, addressing: AddrMode::ZeroPage },
        102u8 => Opcode { code: Mnemonic::Ror, bytes: 2, cycles: 5, addressing: AddrMode::ZeroPage },
        103u8 => Opcode { code: Mnemonic::Rra, bytes: 2, cycles: 5, addressing: AddrMode::ZeroPage },
        104u8 => Opcode { code: Mnemonic::Pla, bytes: 1, cycles: 4, addressing: AddrMode::Implied },
        105u8 => Opcode { code: Mnemonic::Adc, bytes: 2, cycles: 2, addressing: AddrMode::Immediate },
        106u8 => Opcode { code: Mnemonic::Ror, bytes: 1, cycles: 2, addressing: AddrMode::Accumulator },
        107u8 => Opcode { code: Mnemonic::Arr, bytes: 2, cycles: 2, addressing: AddrMode::Immediate },
        108u8 => Opcode { code: Mnemonic::Jmp, bytes: 3, cycles: 5, addressing: AddrMode::Indirect },
        109u8 => Opcode { code: Mnemonic::Adc, bytes: 3, cycles: 4, addressing: AddrMode::Absolute },
        110u8 => Opcode { code: Mnemonic::Ror, bytes: 3, cycles: 6, addressing: AddrMode::Absolute },
        111u8 => Opcode { code: Mnemonic::Rra, bytes: 3, cycles: 6, addressing: AddrMode::Absolute },
        112u8 => Opcode { code: Mnemonic::Bvs, bytes: 2, cycles: 2, addressing: AddrMode::Relative },
        113u8 => Opcode { code: Mnemonic::Adc, bytes: 2, cycles: 5, addressing: AddrMode::IndirectY },
        114u8 => Opcode { code: Mnemonic::Kil, bytes: 0, cycles: 0, addressing: AddrMode::Implied },
        115u8 => Opcode { code: Mnemonic::Rra, bytes: 2, cycles: 8, addressing: AddrMode::IndirectY },
        116u8 => Opcode { code: Mnemonic::Nop, bytes: 2, cycles: 4, addressing: AddrMode::ZeroPageX },
        117u8 => Opcode { code: Mnemonic::Adc, bytes: 2, cycles: 4, addressing: AddrMode::ZeroPageX },
        118u8 => Opcode { code: Mnemonic::Ror, bytes: 2, cycles: 6, addressing: AddrMode::ZeroPageX },
        119u8 => Opcode { code: Mnemonic::Rra, bytes: 2, cycles: 6, addressing: AddrMode::ZeroPageX },
        120u8 => Opcode { code: Mnemonic::Sei, bytes: 1, cycles: 2, addressing: AddrMode::Implied },
        121u8 => Opcode { code: Mnemonic::Adc, bytes: 3, cycles: 4, addressing: AddrMode::AbsoluteY },
        122u8 => Opcode { code: Mnemonic::Nop, bytes: 1, cycles: 2, addressing: AddrMode::Implied },
        123u8 => Opcode { code: Mnemonic::Rra, bytes: 3, cycles: 7, addressing: AddrMode::AbsoluteY },
        124u8 => Opcode { code: Mnemonic::Nop, bytes: 3, cycles: 4, addressing: AddrMode::AbsoluteX },
        125u8 => Opcode { code: Mnemonic::Adc, bytes: 3, cycles: 4, addressing: AddrMode::AbsoluteX },
        126u8 => Opcode { code: Mnemonic::Ror, bytes: 3, cycles: 7, addressing: AddrMode::AbsoluteX },
        127u8 => Opcode { code: Mnemonic::Rra, bytes: 3, cycles: 7, addressing: AddrMode::AbsoluteX },
        128u8 => Opcode { code: Mnemonic::Nop, bytes: 2, cycles: 2, addressing: AddrMode::Immediate },
        129u8 => Opcode { code: Mnemonic::Sta, bytes: 2, cycles: 6, addressing: AddrMode::IndirectX },
        130u8 => Opcode { code: Mnemonic::Nop, bytes: 2, cycles: 2, addressing: AddrMode::Immediate },
        131u8 => Opcode { code: Mnemonic::Sax, bytes: 2, cycles: 6, addressing: AddrMode::IndirectX },
        132u8 => Opcode { code: Mnemonic::Sty, bytes: 2, cycles: 3, addressing: AddrMode::ZeroPage },
        133u8 => Opcode { code: Mnemonic::Sta, bytes: 2, cycles: 3, addressing: AddrMode::ZeroPage },
        134u8 => Opcode { code: Mnemonic::Stx, bytes: 2, cycles: 3, addressing: AddrMode::ZeroPage },
        135u8 => Opcode { code: Mnemonic::Sax, bytes: 2, cycles: 3, addressing: AddrMode::ZeroPage },
        136u8 => Opcode { code: Mnemonic::Dey, bytes: 1, cycles: 2, addressing: AddrMode::Implied },
        137u8 => Opcode { code: Mnemonic::Nop, bytes: 2, cycles: 2, addressing: AddrMode::Immediate },
        138u8 => Opcode { code: Mnemonic::Txa, bytes: 1, cycles: 2, addressing: AddrMode::Implied },
        139u8 => Opcode { code: Mnemonic::Xaa, bytes: 2, cycles: 2, addressing: AddrMode::Immediate },
        140u8 => Opcode { code: Mnemonic::Sty, bytes: 3, cycles: 4, addressing: AddrMode::Absolute },
        141u8 => Opcode { code: Mnemonic::Sta, bytes: 3, cycles: 4, addressing: AddrMode::Absolute },
        142u8 => Opcode { code: Mnemonic::Stx, bytes: 3, cycles: 4, addressing: AddrMode::Absolute },
        143u8 => Opcode { code: Mnemonic::Sax, bytes: 3, cycles: 4, addressing: AddrMode::Absolute },
        144u8 => Opcode { code: Mnemonic::Bcc, bytes: 2, cycles: 3, addressing: AddrMode::Relative },
        145u8 => Opcode { code: Mnemonic::Sta, bytes: 2, cycles: 6, addressing: AddrMode::IndirectY },
        146u8 => Opcode { code: Mnemonic::Kil, bytes: 0, cycles: 0, addressing: AddrMode::Implied },
        147u8 => Opcode { code: Mnemonic::Ahx, bytes: 2, cycles: 6, addressing: AddrMode::IndirectY },
        148u8 => Opcode { code: Mnemonic::Sty, bytes: 2, cycles: 4, addressing: AddrMode::ZeroPageX },
        149u8 => Opcode { code: Mnemonic::Sta, bytes: 2, cycles: 4, addressing: AddrMode::ZeroPageX },
        150u8 => Opcode { code: Mnemonic::Stx, bytes: 2, cycles: 4, addressing: AddrMode::ZeroPageY },
        151u8 => Opcode { code: Mnemonic::Sax, bytes: 2, cycles: 4, addressing: AddrMode::ZeroPageY },
        152u8 => Opcode { code: Mnemonic::Tya, bytes: 1, cycles: 2, addressing: AddrMode::Implied },
        153u8 => Opcode { code: Mnemonic::Sta, bytes: 3, cycles: 5, addressing: AddrMode::AbsoluteY },
        154u8 => Opcode { code: Mnemonic::Txs, bytes: 1, cycles: 2, addressing: AddrMode::Implied },
        155u8 => Opcode { code: Mnemonic::Tas, bytes: 0, cycles: 5, addressing: AddrMode::AbsoluteY },
        156u8 => Opcode { code: Mnemonic::Shy, bytes: 3, cycles: 5, addressing: AddrMode::AbsoluteX },
        157u8 => Opcode { code: Mnemonic::Sta, bytes: 3, cycles: 5, addressing: AddrMode::AbsoluteX },
        158u8 => Opcode { code: Mnemonic::Shx, bytes: 3, cycles: 5, addressing: AddrMode::AbsoluteY },
        159u8 => Opcode { code: Mnemonic::Ahx, bytes: 3, cycles: 5, addressing: AddrMode::AbsoluteY },
        160u8 => Opcode { code: Mnemonic::Ldy, bytes: 2, cycles: 2, addressing: AddrMode::Immediate },
        161u8 => Opcode { code: Mnemonic::Lda, bytes: 2, cycles: 6, addressing: AddrMode::IndirectX },
        162u8 => Opcode { code: Mnemonic::Ldx, bytes: 2, cycles: 2, addressing: AddrMode::Immediate },
        163u8 => Opcode { code: Mnemonic::Lax, bytes: 2, cycles: 6, addressing: AddrMode::IndirectX },
        164u8 => Opcode { code: Mnemonic::Ldy, bytes: 2, cycles: 3, addressing: AddrMode::ZeroPage },
        165u8 => Opcode { code: Mnemonic::Lda, bytes: 2, cycles: 3, addressing: AddrMode::ZeroPage },
        166u8 => Opcode { code: Mnemonic::Ldx, bytes: 2, cycles: 3, addressing: AddrMode::ZeroPage },
        167u8 => Opcode { code: Mnemonic::Lax, bytes: 2, cycles: 3, addressing: AddrMode::ZeroPage },
        168u8 => Opcode { code: Mnemonic::Tay, bytes: 1, cycles: 2, addressing: AddrMode::Implied },
        169u8 => Opcode { code: Mnemonic::Lda, bytes: 2, cycles: 2, addressing: AddrMode::Immediate },
        170u8 => Opcode { code: Mnemonic::Tax, bytes: 1, cycles: 2, addressing: AddrMode::Implied },
        171u8 => Opcode { code: Mnemonic::Lax, bytes: 2, cycles: 2, addressing: AddrMode::Immediate },
        172u8 => Opcode { code: Mnemonic::Ldy, bytes: 3, cycles: 4, addressing: AddrMode::Absolute },
        173u8 => Opcode { code: Mnemonic::Lda, bytes: 3, cycles: 4, addressing: AddrMode::Absolute },
        174u8 => Opcode { code: Mnemonic::Ldx, bytes: 3, cycles: 4, addressing: AddrMode::Absolute },
        175u8 => Opcode { code: Mnemonic::Lax, bytes: 3, cycles: 4, addressing: AddrMode::Absolute },
        176u8 => Opcode { code: Mnemonic::Bcs, bytes: 2, cycles: 2, addressing: AddrMode::Relative },
        177u8 => Opcode { code: Mnemonic::Lda, bytes: 2, cycles: 5, addressing: AddrMode::IndirectY },
        178u8 => Opcode { code: Mnemonic::Kil, bytes: 0, cycles: 0, addressing: AddrMode::Implied },
        179u8 => Opcode { code: Mnemonic::Lax, bytes: 2, cycles: 5, addressing: AddrMode::IndirectY },
        180u8 => Opcode { code: Mnemonic::Ldy, bytes: 2, cycles: 4, addressing: AddrMode::ZeroPageX },
        181u8 => Opcode { code: Mnemonic::Lda, bytes: 2, cycles: 4, addressing: AddrMode::ZeroPageX },
        182u8 => Opcode { code: Mnemonic::Ldx, bytes: 2, cycles: 4, addressing: AddrMode::ZeroPageY },
        183u8 => Opcode { code: Mnemonic::Lax, bytes: 2, cycles: 4, addressing: AddrMode::ZeroPageY },
        184u8 => Opcode { code: Mnemonic::Clv, bytes: 1, cycles: 2, addressing: AddrMode::Implied },
        185u8 => Opcode { code: Mnemonic::Lda, bytes: 3, cycles: 4, addressing: AddrMode::AbsoluteY },
        186u8 => Opcode { code: Mnemonic::Tsx, bytes: 1, cycles: 2, addressing: AddrMode::Implied },
        187u8 => Opcode { code: Mnemonic::Las, bytes: 3, cycles: 4, addressing: AddrMode::AbsoluteY },
        188u8 => Opcode { code: Mnemonic::Ldy, bytes: 3, cycles: 4, addressing: AddrMode::AbsoluteX },
        189u8 => Opcode { code: Mnemonic::Lda, bytes: 3, cycles: 4, addressing: AddrMode::AbsoluteX },
        190u8 => Opcode { code: Mnemonic::Ldx, bytes: 3, cycles: 4, addressing: AddrMode::AbsoluteY },
        191u8 => Opcode { code: Mnemonic::Lax, bytes: 3, cycles: 4, addressing: AddrMode::AbsoluteY },
        192u8 => Opcode { code: Mnemonic::Cpy, bytes: 2, cycles: 2, addressing: AddrMode::Immediate },
        193u8 => Opcode { code: Mnemonic::Cmp, bytes: 2, cycles: 6, addressing: AddrMode::IndirectX },
        194u8 => Opcode { code: Mnemonic::Nop, bytes: 2, cycles: 2, addressing: AddrMode::Immediate },
        195u8 => Opcode { code: Mnemonic::Dcp, bytes: 2, cycles: 8, addressing: AddrMode::IndirectX },
        196u8 => Opcode { code: Mnemonic::Cpy, bytes: 2, cycles: 3, addressing: AddrMode::ZeroPage },
        197u8 => Opcode { code: Mnemonic::Cmp, bytes: 2, cycles: 3, addressing: AddrMode::ZeroPage },
        198u8 => Opcode { code: Mnemonic::Dec, bytes: 2, cycles: 5, addressing: AddrMode::ZeroPage },
        199u8 => Opcode { code: Mnemonic::Dcp, bytes: 2, cycles: 5, addressing: AddrMode::ZeroPage },
        200u8 => Opcode { code: Mnemonic::Iny, bytes: 1, cycles: 2, addressing: AddrMode::Implied },
        201u8 => Opcode { code: Mnemonic::Cmp, bytes: 2, cycles: 2, addressing: AddrMode::Immediate },
        202u8 => Opcode { code: Mnemonic::Dex, bytes: 1, cycles: 2, addressing: AddrMode::Implied },
        203u8 => Opcode { code: Mnemonic::Axs, bytes: 2, cycles: 2, addressing: AddrMode::Immediate },
        204u8 => Opcode { code: Mnemonic::Cpy, bytes: 3, cycles: 4, addressing: AddrMode::Absolute },
        205u8 => Opcode { code: Mnemonic::Cmp, bytes: 3, cycles: 4, addressing: AddrMode::Absolute },
        206u8 => Opcode { code: Mnemonic::Dec, bytes: 3, cycles: 6, addressing: AddrMode::Absolute },
        207u8 => Opcode { code: Mnemonic::Dcp, bytes: 3, cycles: 6, addressing: AddrMode::Absolute },
        208u8 => Opcode { code: Mnemonic::Bne, bytes: 2, cycles: 3, addressing: AddrMode::Relative },
        209u8 => Opcode { code: Mnemonic::Cmp, bytes: 2, cycles: 5, addressing: AddrMode::IndirectY },
        210u8 => Opcode { code: Mnemonic::Kil, bytes: 0, cycles: 0, addressing: AddrMode::Implied },
        211u8 => Opcode { code: Mnemonic::Dcp, bytes: 2, cycles: 8, addressing: AddrMode::IndirectY },
        212u8 => Opcode { code: Mnemonic::Nop, bytes: 2, cycles: 4, addressing: AddrMode::ZeroPageX },
        213u8 => Opcode { code: Mnemonic::Cmp, bytes: 2, cycles: 4, addressing: AddrMode::ZeroPageX },
        214u8 => Opcode { code: Mnemonic::Dec, bytes: 2, cycles: 6, addressing: AddrMode::ZeroPageX },
        215u8 => Opcode { code: Mnemonic::Dcp, bytes: 2, cycles: 6, addressing: AddrMode::ZeroPageX },
        216u8 => Opcode { code: Mnemonic::Cld, bytes: 1, cycles: 2, addressing: AddrMode::Implied },
        217u8 => Opcode { code: Mnemonic::Cmp, bytes: 3, cycles: 4, addressing: AddrMode::AbsoluteY },
        218u8 => Opcode { code: Mnemonic::Nop, bytes: 1, cycles: 2, addressing: AddrMode::Implied },
        219u8 => Opcode { code: Mnemonic::Dcp, bytes: 3, cycles: 7, addressing: AddrMode::AbsoluteY },
        220u8 => Opcode { code: Mnemonic::Nop, bytes: 3, cycles: 4, addressing: AddrMode::AbsoluteX },
        221u8 => Opcode { code: Mnemonic::Cmp, bytes: 3, cycles: 4, addressing: AddrMode::AbsoluteX },
        222u8 => Opcode { code: Mnemonic::Dec, bytes: 3, cycles: 7, addressing: AddrMode::AbsoluteX },
        223u8 => Opcode { code: Mnemonic::Dcp, bytes: 3, cycles: 7, addressing: AddrMode::AbsoluteX },
        224u8 => Opcode { code: Mnemonic::Cpx, bytes: 2, cycles: 2, addressing: AddrMode::Immediate },
        225u8 => Opcode { code: Mnemonic::Sbc, bytes: 2, cycles: 6, addressing: AddrMode::IndirectX },
        226u8 => Opcode { code: Mnemonic::Nop, bytes: 2, cycles: 2, addressing: AddrMode::Immediate },
        227u8 => Opcode { code: Mnemonic::Isc, bytes: 2, cycles: 8, addressing: AddrMode::IndirectX },
        228u8 => Opcode { code: Mnemonic::Cpx, bytes: 2, cycles: 3, addressing: AddrMode::ZeroPage },
        229u8 => Opcode { code: Mnemonic::Sbc, bytes: 2, cycles: 3, addressing: AddrMode::ZeroPage },
        230u8 => Opcode { code: Mnemonic::Inc, bytes: 2, cycles: 5, addressing: AddrMode::ZeroPage },
        231u8 => Opcode { code: Mnemonic::Isc, bytes: 2, cycles: 5, addressing: AddrMode::ZeroPage },
        232u8 => Opcode { code: Mnemonic::Inx, bytes: 1, cycles: 2, addressing: AddrMode::Implied },
        233u8 => Opcode { code: Mnemonic::Sbc, bytes: 2, cycles: 2, addressing: AddrMode::Immediate },
        234u8 => Opcode { code: Mnemonic::Nop, bytes: 1, cycles: 2, addressing: AddrMode::Implied },
        235u8 => Opcode { code: Mnemonic::Sbc, bytes: 2, cycles: 2, addressing: AddrMode::Immediate },
        236u8 => Opcode { code: Mnemonic::Cpx, bytes: 3, cycles: 4, addressing: AddrMode::Absolute },
        237u8 => Opcode { code: Mnemonic::Sbc, bytes: 3, cycles: 4, addressing: AddrMode::Absolute },
        238u8 => Opcode { code: Mnemonic::Inc, bytes: 3, cycles: 6, addressing: AddrMode::Absolute },
        239u8 => Opcode { code: Mnemonic::Isc, bytes: 3, cycles: 6, addressing: AddrMode::Absolute },
        240u8 => Opcode { code: Mnemonic::Beq, bytes: 2, cycles: 2, addressing: AddrMode::Relative },
        241u8 => Opcode { code: Mnemonic::Sbc, bytes: 2, cycles: 5, addressing: AddrMode::IndirectY },
        242u8 => Opcode { code: Mnemonic::Kil, bytes: 0, cycles: 0, addressing: AddrMode::Implied },
        243u8 => Opcode { code: Mnemonic::Isc, bytes: 2, cycles: 8, addressing: AddrMode::IndirectY },
        244u8 => Opcode { code: Mnemonic::Nop, bytes: 2, cycles: 4, addressing: AddrMode::ZeroPageX },
        245u8 => Opcode { code: Mnemonic::Sbc, bytes: 2, cycles: 4, addressing: AddrMode::ZeroPageX },
        246u8 => Opcode { code: Mnemonic::Inc, bytes: 2, cycles: 6, addressing: AddrMode::ZeroPageX },
        247u8 => Opcode { code: Mnemonic::Isc, bytes: 2, cycles: 6, addressing: AddrMode::ZeroPageX },
        248u8 => Opcode { code: Mnemonic::Sed, bytes: 1, cycles: 2, addressing: AddrMode::Implied },
        249u8 => Opcode { code: Mnemonic::Sbc, bytes: 3, cycles: 4, addressing: AddrMode::AbsoluteY },
        250u8 => Opcode { code: Mnemonic::Nop, bytes: 1, cycles: 2, addressing: AddrMode::Implied },
        251u8 => Opcode { code: Mnemonic::Isc, bytes: 3, cycles: 7, addressing: AddrMode::AbsoluteY },
        252u8 => Opcode { code: Mnemonic::Nop, bytes: 3, cycles: 4, addressing: AddrMode::AbsoluteX },
        253u8 => Opcode { code: Mnemonic::Sbc, bytes: 3, cycles: 4, addressing: AddrMode::AbsoluteX },
        254u8 => Opcode { code: Mnemonic::Inc, bytes: 3, cycles: 7, addressing: AddrMode::AbsoluteX },
        _ => Opcode { code: Mnemonic::Isc, bytes: 3, cycles: 7, addressing: AddrMode::AbsoluteX },
    }
}

/// Looks an instruction byte up in the dispatch table.
pub fn opcode_lookup(code: u8) -> (op: Opcode)
    ensures
        op == opcode_spec(code),
{
    match code {
        0u8 => Opcode { code: Mnemonic::Brk, bytes: 0, cycles: 0, addressing: AddrMode::Implied },
        1u8 => Opcode { code: Mnemonic::Ora, bytes: 2, cycles: 6, addressing: AddrMode::IndirectX },
        2u8 => Opcode { code: Mnemonic::Kil, bytes: 0, cycles: 0, addressing: AddrMode::Implied },
        3u8 => Opcode { code: Mnemonic::Slo, bytes: 2, cycles: 8, addressing: AddrMode::IndirectX },
        4u8 => Opcode { code: Mnemonic::Nop, bytes: 2, cycles: 3, addressing: AddrMode::ZeroPage },
        5u8 => Opcode { code: Mnemonic::Ora, bytes: 2, cycles: 3, addressing: AddrMode::ZeroPage },
        6u8 => Opcode { code: Mnemonic::Asl, bytes: 2, cycles: 5, addressing: AddrMode::ZeroPage },
        7u8 => Opcode { code: Mnemonic::Slo, bytes: 2, cycles: 5, addressing: AddrMode::ZeroPage },
        8u8 => Opcode { code: Mnemonic::Php, bytes: 1, cycles: 3, addressing: AddrMode::Implied },
        9u8 => Opcode { code: Mnemonic::Ora, bytes: 2, cycles: 2, addressing: AddrMode::Immediate },
        10u8 => Opcode { code: Mnemonic::Asl, bytes: 1, cycles: 2, addressing: AddrMode::Accumulator },
        11u8 => Opcode { code: Mnemonic::Anc, bytes: 2, cycles: 2, addressing: AddrMode::Immediate },
        12u8 => Opcode { code: Mnemonic::Nop, bytes: 3, cycles: 4, addressing: AddrMode::Absolute },
        13u8 => Opcode { code: Mnemonic::Ora, bytes: 3, cycles: 4, addressing: AddrMode::Absolute },
        14u8 => Opcode { code: Mnemonic::Asl, bytes: 3, cycles: 6, addressing: AddrMode::Absolute },
        15u8 => Opcode { code: Mnemonic::Slo, bytes: 3, cycles: 6, addressing: AddrMode::Absolute },
        16u8 => Opcode { code: Mnemonic::Bpl, bytes: 2, cycles: 3, addressing: AddrMode::Relative },
        17u8 => Opcode { code: Mnemonic::Ora, bytes: 2, cycles: 5, addressing: AddrMode::IndirectY },
        18u8 => Opcode { code: Mnemonic::Kil, bytes: 0, cycles: 0, addressing: AddrMode::Implied },
        19u8 => Opcode { code: Mnemonic::Slo, bytes: 2, cycles: 8, addressing: AddrMode::IndirectY },
        20u8 => Opcode { code: Mnemonic::Nop, bytes: 2, cycles: 4, addressing: AddrMode::ZeroPageX },
        21u8 => Opcode { code: Mnemonic::Ora, bytes: 2, cycles: 4, addressing: AddrMode::ZeroPageX },
        22u8 => Opcode { code: Mnemonic::Asl, bytes: 2, cycles: 6, addressing: AddrMode::ZeroPageX },
        23u8 => Opcode { code: Mnemonic::Slo, bytes: 2, cycles: 6, addressing: AddrMode::ZeroPageX },
        24u8 => Opcode { code: Mnemonic::Clc, bytes: 1, cycles: 2, addressing: AddrMode::Implied },
        25u8 => Opcode { code: Mnemonic::Ora, bytes: 3, cycles: 4, addressing: AddrMode::AbsoluteY },
        26u8 => Opcode { code: Mnemonic::Nop, bytes: 1, cycles: 2, addressing: AddrMode::Implied },
        27u8 => Opcode { code: Mnemonic::Slo, bytes: 3, cycles: 7, addressing: AddrMode::AbsoluteY },
        28u8 => Opcode { code: Mnemonic::Nop, bytes: 3, cycles: 4, addressing: AddrMode::AbsoluteX },
        29u8 => Opcode { code: Mnemonic::Ora, bytes: 3, cycles: 4, addressing: AddrMode::AbsoluteX },
        30u8 => Opcode { code: Mnemonic::Asl, bytes: 3, cycles: 7, addressing: AddrMode::AbsoluteX },
        31u8 => Opcode { code: Mnemonic::Slo, bytes: 3, cycles: 7, addressing: AddrMode::AbsoluteX },
        32u8 => Opcode { code: Mnemonic::Jsr, bytes: 3, cycles: 6, addressing: AddrMode::Absolute },
        33u8 => Opcode { code: Mnemonic::And, bytes: 2, cycles: 6, addressing: AddrMode::IndirectX },
        34u8 => Opcode { code: Mnemonic::Kil, bytes: 0, cycles: 0, addressing: AddrMode::Implied },
        35u8 => Opcode { code: Mnemonic::Rla, bytes: 2, cycles: 8, addressing: AddrMode::IndirectX },
        36u8 => Opcode { code: Mnemonic::Bit, bytes: 2, cycles: 3, addressing: AddrMode::ZeroPage },
        37u8 => Opcode { code: Mnemonic::And, bytes: 2, cycles: 3, addressing: AddrMode::ZeroPage },
        38u8 => Opcode { code: Mnemonic::Rol, bytes: 2, cycles: 5, addressing: AddrMode::ZeroPage },
        39u8 => Opcode { code: Mnemonic::Rla, bytes: 2, cycles: 5, addressing: AddrMode::ZeroPage },
        40u8 => Opcode { code: Mnemonic::Plp, bytes: 1, cycles: 4, addressing: AddrMode::Implied },
        41u8 => Opcode { code: Mnemonic::And, bytes: 2, cycles: 2, addressing: AddrMode::Immediate },
        42u8 => Opcode { code: Mnemonic::Rol, bytes: 1, cycles: 2, addressing: AddrMode::Accumulator },
        43u8 => Opcode { code: Mnemonic::Anc, bytes: 2, cycles: 2, addressing: AddrMode::Immediate },
        44u8 => Opcode { code: Mnemonic::Bit, bytes: 3, cycles: 4, addressing: AddrMode::Absolute },
        45u8 => Opcode { code: Mnemonic::And, bytes: 3, cycles: 4, addressing: AddrMode::Absolute },
        46u8 => Opcode { code: Mnemonic::Rol, bytes: 3, cycles: 6, addressing: AddrMode::Absolute },
        47u8 => Opcode { code: Mnemonic::Rla, bytes: 3, cycles: 6, addressing: AddrMode::Absolute },
        48u8 => Opcode { code: Mnemonic::Bmi, bytes: 2, cycles: 2, addressing: AddrMode::Relative },
        49u8 => Opcode { code: Mnemonic::And, bytes: 2, cycles: 5, addressing: AddrMode::IndirectY },
        50u8 => Opcode { code: Mnemonic::Kil, bytes: 0, cycles: 0, addressing: AddrMode::Implied },
        51u8 => Opcode { code: Mnemonic::Rla, bytes: 2, cycles: 8, addressing: AddrMode::IndirectY },
        52u8 => Opcode { code: Mnemonic::Nop, bytes: 2, cycles: 4, addressing: AddrMode::ZeroPageX },
        53u8 => Opcode { code: Mnemonic::And, bytes: 2, cycles: 4, addressing: AddrMode::ZeroPageX },
        54u8 => Opcode { code: Mnemonic::Rol, bytes: 2, cycles: 6, addressing: AddrMode::ZeroPageX },
        55u8 => Opcode { code: Mnemonic::Rla, bytes: 2, cycles: 6, addressing: AddrMode::ZeroPageX },
        56u8 => Opcode { code: Mnemonic::Sec, bytes: 1, cycles: 2, addressing: AddrMode::Implied },
        57u8 => Opcode { code: Mnemonic::And, bytes: 3, cycles: 4, addressing: AddrMode::AbsoluteY },
        58u8 => Opcode { code: Mnemonic::Nop, bytes: 1, cycles: 2, addressing: AddrMode::Implied },
        59u8 => Opcode { code: Mnemonic::Rla, bytes: 3, cycles: 7, addressing: AddrMode::AbsoluteY },
        60u8 => Opcode { code: Mnemonic::Nop, bytes: 3, cycles: 4, addressing: AddrMode::AbsoluteX },
        61u8 => Opcode { code: Mnemonic::And, bytes: 3, cycles: 4, addressing: AddrMode::AbsoluteX },
        62u8 => Opcode { code: Mnemonic::Rol, bytes: 3, cycles: 7, addressing: AddrMode::AbsoluteX },
        63u8 => Opcode { code: Mnemonic::Rla, bytes: 3, cycles: 7, addressing: AddrMode::AbsoluteX },
        64u8 => Opcode { code: Mnemonic::Rti, bytes: 1, cycles: 6, addressing: AddrMode::Implied },
        65u8 => Opcode { code: Mnemonic::Eor, bytes: 2, cycles: 6, addressing: AddrMode::IndirectX },
        66u8 => Opcode { code: Mnemonic::Kil, bytes: 0, cycles: 0, addressing: AddrMode::Implied },
        67u8 => Opcode { code: Mnemonic::Sre, bytes: 2, cycles: 8, addressing: AddrMode::IndirectX },
        68u8 => Opcode { code: Mnemonic::Nop, bytes: 2, cycles: 3, addressing: AddrMode::ZeroPage },
        69u8 => Opcode { code: Mnemonic::Eor, bytes: 2, cycles: 3, addressing: AddrMode::ZeroPage },
        70u8 => Opcode { code: Mnemonic::Lsr, bytes: 2, cycles: 5, addressing: AddrMode::ZeroPage },
        71u8 => Opcode { code: Mnemonic::Sre, bytes: 2, cycles: 5, addressing: AddrMode::ZeroPage },
        72u8 => Opcode { code: Mnemonic::Pha, bytes: 1, cycles: 3, addressing: AddrMode::Implied },
        73u8 => Opcode { code: Mnemonic::Eor, bytes: 2, cycles: 2, addressing: AddrMode::Immediate },
        74u8 => Opcode { code: Mnemonic::Lsr, bytes: 1, cycles: 2, addressing: AddrMode::Accumulator },
        75u8 => Opcode { code: Mnemonic::Alr, bytes: 2, cycles: 2, addressing: AddrMode::Immediate },
        76u8 => Opcode { code: Mnemonic::Jmp, bytes: 3, cycles: 3, addressing: AddrMode::Absolute },
        77u8 => Opcode { code: Mnemonic::Eor, bytes: 3, cycles: 4, addressing: AddrMode::Absolute },
        78u8 => Opcode { code: Mnemonic::Lsr, bytes: 3, cycles: 6, addressing: AddrMode::Absolute },
        79u8 => Opcode { code: Mnemonic::Sre, bytes: 3, cycles: 6, addressing: AddrMode::Absolute },
        80u8 => Opcode { code: Mnemonic::Bvc, bytes: 2, cycles: 3, addressing: AddrMode::Relative },
        81u8 => Opcode { code: Mnemonic::Eor, bytes: 2, cycles: 5, addressing: AddrMode::IndirectY },
        82u8 => Opcode { code: Mnemonic::Kil, bytes: 0, cycles: 0, addressing: AddrMode::Implied },
        83u8 => Opcode { code: Mnemonic::Sre, bytes: 2, cycles: 8, addressing: AddrMode::IndirectY },
        84u8 => Opcode { code: Mnemonic::Nop, bytes: 2, cycles: 4, addressing: AddrMode::ZeroPageX },
        85u8 => Opcode { code: Mnemonic::Eor, bytes: 2, cycles: 4, addressing: AddrMode::ZeroPageX },
        86u8 => Opcode { code: Mnemonic::Lsr, bytes: 2, cycles: 6, addressing: AddrMode::ZeroPageX },
        87u8 => Opcode { code: Mnemonic::Sre, bytes: 2, cycles: 6, addressing: AddrMode::ZeroPageX },
        88u8 => Opcode { code: Mnemonic::Cli, bytes: 1, cycles: 2, addressing: AddrMode::Implied },
        89u8 => Opcode { code: Mnemonic::Eor, bytes: 3, cycles: 4, addressing: AddrMode::AbsoluteY },
        90u8 => Opcode { code: Mnemonic::Nop, bytes: 1, cycles: 2, addressing: AddrMode::Implied },
        91u8 => Opcode { code: Mnemonic::Sre, bytes: 3, cycles: 7, addressing: AddrMode::AbsoluteY },
        92u8 => Opcode { code: Mnemonic::Nop, bytes: 3, cycles: 4, addressing: AddrMode::AbsoluteX },
        93u8 => Opcode { code: Mnemonic::Eor, bytes: 3, cycles: 4, addressing: AddrMode::AbsoluteX },
        94u8 => Opcode { code: Mnemonic::Lsr, bytes: 3, cycles: 7, addressing: AddrMode::AbsoluteX },
        95u8 => Opcode { code: Mnemonic::Sre, bytes: 3, cycles: 7, addressing: AddrMode::AbsoluteX },
        96u8 => Opcode { code: Mnemonic::Rts, bytes: 1, cycles: 6, addressing: AddrMode::Implied },
        97u8 => Opcode { code: Mnemonic::Adc, bytes: 2, cycles: 6, addressing: AddrMode::IndirectX },
        98u8 => Opcode { code: Mnemonic::Kil, bytes: 0, cycles: 0, addressing: AddrMode::Implied },
        99u8 => Opcode { code: Mnemonic::Rra, bytes: 2, cycles: 8, addressing: AddrMode::IndirectX },
        100u8 => Opcode { code: Mnemonic::Nop, bytes: 2, cycles: 3, addressing: AddrMode::ZeroPage },
        101u8 => Opcode { code: Mnemonic::Adc, bytes: 2, cycles: 3, addressing: AddrMode::ZeroPage },
        102u8 => Opcode { code: Mnemonic::Ror, bytes: 2, cycles: 5, addressing: AddrMode::ZeroPage },
        103u8 => Opcode { code: Mnemonic::Rra, bytes: 2, cycles: 5, addressing: AddrMode::ZeroPage },
        104u8 => Opcode { code: Mnemonic::Pla, bytes: 1, cycles: 4, addressing: AddrMode::Implied },
        105u8 => Opcode { code: Mnemonic::Adc, bytes: 2, cycles: 2, addressing: AddrMode::Immediate },
        106u8 => Opcode { code: Mnemonic::Ror, bytes: 1, cycles: 2, addressing: AddrMode::Accumulator },
        107u8 => Opcode { code: Mnemonic::Arr, bytes: 2, cycles: 2, addressing: AddrMode::Immediate },
        108u8 => Opcode { code: Mnemonic::Jmp, bytes: 3, cycles: 5, addressing: AddrMode::Indirect },
        109u8 => Opcode { code: Mnemonic::Adc, bytes: 3, cycles: 4, addressing: AddrMode::Absolute },
        110u8 => Opcode { code: Mnemonic::Ror, bytes: 3, cycles: 6, addressing: AddrMode::Absolute },
        111u8 => Opcode { code: Mnemonic::Rra, bytes: 3, cycles: 6, addressing: AddrMode::Absolute },
        112u8 => Opcode { code: Mnemonic::Bvs, bytes: 2, cycles: 2, addressing: AddrMode::Relative },
        113u8 => Opcode { code: Mnemonic::Adc, bytes: 2, cycles: 5, addressing: AddrMode::IndirectY },
        114u8 => Opcode { code: Mnemonic::Kil, bytes: 0, cycles: 0, addressing: AddrMode::Implied },
        115u8 => Opcode { code: Mnemonic::Rra, bytes: 2, cycles: 8, addressing: AddrMode::IndirectY },
        116u8 => Opcode { code: Mnemonic::Nop, bytes: 2, cycles: 4, addressing: AddrMode::ZeroPageX },
        117u8 => Opcode { code: Mnemonic::Adc, bytes: 2, cycles: 4, addressing: AddrMode::ZeroPageX },
        118u8 => Opcode { code: Mnemonic::Ror, bytes: 2, cycles: 6, addressing: AddrMode::ZeroPageX },
        119u8 => Opcode { code: Mnemonic::Rra, bytes: 2, cycles: 6, addressing: AddrMode::ZeroPageX },
        120u8 => Opcode { code: Mnemonic::Sei, bytes: 1, cycles: 2, addressing: AddrMode::Implied },
        121u8 => Opcode { code: Mnemonic::Adc, bytes: 3, cycles: 4, addressing: AddrMode::AbsoluteY },
        122u8 => Opcode { code: Mnemonic::Nop, bytes: 1, cycles: 2, addressing: AddrMode::Implied },
        123u8 => Opcode { code: Mnemonic::Rra, bytes: 3, cycles: 7, addressing: AddrMode::AbsoluteY },
        124u8 => Opcode { code: Mnemonic::Nop, bytes: 3, cycles: 4, addressing: AddrMode::AbsoluteX },
        125u8 => Opcode { code: Mnemonic::Adc, bytes: 3, cycles: 4, addressing: AddrMode::AbsoluteX },
        126u8 => Opcode { code: Mnemonic::Ror, bytes: 3, cycles: 7, addressing: AddrMode::AbsoluteX },
        127u8 => Opcode { code: Mnemonic::Rra, bytes: 3, cycles: 7, addressing: AddrMode::AbsoluteX },
        128u8 => Opcode { code: Mnemonic::Nop, bytes: 2, cycles: 2, addressing: AddrMode::Immediate },
        129u8 => Opcode { code: Mnemonic::Sta, bytes: 2, cycles: 6, addressing: AddrMode::IndirectX },
        130u8 => Opcode { code: Mnemonic::Nop, bytes: 2, cycles: 2, addressing: AddrMode::Immediate },
        131u8 => Opcode { code: Mnemonic::Sax, bytes: 2, cycles: 6, addressing: AddrMode::IndirectX },
        132u8 => Opcode { code: Mnemonic::Sty, bytes: 2, cycles: 3, addressing: AddrMode::ZeroPage },
        133u8 => Opcode { code: Mnemonic::Sta, bytes: 2, cycles: 3, addressing: AddrMode::ZeroPage },
        134u8 => Opcode { code: Mnemonic::Stx, bytes: 2, cycles: 3, addressing: AddrMode::ZeroPage },
        135u8 => Opcode { code: Mnemonic::Sax, bytes: 2, cycles: 3, addressing: AddrMode::ZeroPage },
        136u8 => Opcode { code: Mnemonic::Dey, bytes: 1, cycles: 2, addressing: AddrMode::Implied },
        137u8 => Opcode { code: Mnemonic::Nop, bytes: 2, cycles: 2, addressing: AddrMode::Immediate },
        138u8 => Opcode { code: Mnemonic::Txa, bytes: 1, cycles: 2, addressing: AddrMode::Implied },
        139u8 => Opcode { code: Mnemonic::Xaa, bytes: 2, cycles: 2, addressing: AddrMode::Immediate },
        140u8 => Opcode { code: Mnemonic::Sty, bytes: 3, cycles: 4, addressing: AddrMode::Absolute },
        141u8 => Opcode { code: Mnemonic::Sta, bytes: 3, cycles: 4, addressing: AddrMode::Absolute },
        142u8 => Opcode { code: Mnemonic::Stx, bytes: 3, cycles: 4, addressing: AddrMode::Absolute },
        143u8 => Opcode { code: Mnemonic::Sax, bytes: 3, cycles: 4, addressing: AddrMode::Absolute },
        144u8 => Opcode { code: Mnemonic::Bcc, bytes: 2, cycles: 3, addressing: AddrMode::Relative },
        145u8 => Opcode { code: Mnemonic::Sta, bytes: 2, cycles: 6, addressing: AddrMode::IndirectY },
        146u8 => Opcode { code: Mnemonic::Kil, bytes: 0, cycles: 0, addressing: AddrMode::Implied },
        147u8 => Opcode { code: Mnemonic::Ahx, bytes: 2, cycles: 6, addressing: AddrMode::IndirectY },
        148u8 => Opcode { code: Mnemonic::Sty, bytes: 2, cycles: 4, addressing: AddrMode::ZeroPageX },
        149u8 => Opcode { code: Mnemonic::Sta, bytes: 2, cycles: 4, addressing: AddrMode::ZeroPageX },
        150u8 => Opcode { code: Mnemonic::Stx, bytes: 2, cycles: 4, addressing: AddrMode::ZeroPageY },
        151u8 => Opcode { code: Mnemonic::Sax, bytes: 2, cycles: 4, addressing: AddrMode::ZeroPageY },
        152u8 => Opcode { code: Mnemonic::Tya, bytes: 1, cycles: 2, addressing: AddrMode::Implied },
        153u8 => Opcode { code: Mnemonic::Sta, bytes: 3, cycles: 5, addressing: AddrMode::AbsoluteY },
        154u8 => Opcode { code: Mnemonic::Txs, bytes: 1, cycles: 2, addressing: AddrMode::Implied },
        155u8 => Opcode { code: Mnemonic::Tas, bytes: 0, cycles: 5, addressing: AddrMode::AbsoluteY },
        156u8 => Opcode { code: Mnemonic::Shy, bytes: 3, cycles: 5, addressing: AddrMode::AbsoluteX },
        157u8 => Opcode { code: Mnemonic::Sta, bytes: 3, cycles: 5, addressing: AddrMode::AbsoluteX },
        158u8 => Opcode { code: Mnemonic::Shx, bytes: 3, cycles: 5, addressing: AddrMode::AbsoluteY },
        159u8 => Opcode { code: Mnemonic::Ahx, bytes: 3, cycles: 5, addressing: AddrMode::AbsoluteY },
        160u8 => Opcode { code: Mnemonic::Ldy, bytes: 2, cycles: 2, addressing: AddrMode::Immediate },
        161u8 => Opcode { code: Mnemonic::Lda, bytes: 2, cycles: 6, addressing: AddrMode::IndirectX },
        162u8 => Opcode { code: Mnemonic::Ldx, bytes: 2, cycles: 2, addressing: AddrMode::Immediate },
        163u8 => Opcode { code: Mnemonic::Lax, bytes: 2, cycles: 6, addressing: AddrMode::IndirectX },
        164u8 => Opcode { code: Mnemonic::Ldy, bytes: 2, cycles: 3, addressing: AddrMode::ZeroPage },
        165u8 => Opcode { code: Mnemonic::Lda, bytes: 2, cycles: 3, addressing: AddrMode::ZeroPage },
        166u8 => Opcode { code: Mnemonic::Ldx, bytes: 2, cycles: 3, addressing: AddrMode::ZeroPage },
        167u8 => Opcode { code: Mnemonic::Lax, bytes: 2, cycles: 3, addressing: AddrMode::ZeroPage },
        168u8 => Opcode { code: Mnemonic::Tay, bytes: 1, cycles: 2, addressing: AddrMode::Implied },
        169u8 => Opcode { code: Mnemonic::Lda, bytes: 2, cycles: 2, addressing: AddrMode::Immediate },
        170u8 => Opcode { code: Mnemonic::Tax, bytes: 1, cycles: 2, addressing: AddrMode::Implied },
        171u8 => Opcode { code: Mnemonic::Lax, bytes: 2, cycles: 2, addressing: AddrMode::Immediate },
        172u8 => Opcode { code: Mnemonic::Ldy, bytes: 3, cycles: 4, addressing: AddrMode::Absolute },
        173u8 => Opcode { code: Mnemonic::Lda, bytes: 3, cycles: 4, addressing: AddrMode::Absolute },
        174u8 => Opcode { code: Mnemonic::Ldx, bytes: 3, cycles: 4, addressing: AddrMode::Absolute },
        175u8 => Opcode { code: Mnemonic::Lax, bytes: 3, cycles: 4, addressing: AddrMode::Absolute },
        176u8 => Opcode { code: Mnemonic::Bcs, bytes: 2, cycles: 2, addressing: AddrMode::Relative },
        177u8 => Opcode { code: Mnemonic::Lda, bytes: 2, cycles: 5, addressing: AddrMode::IndirectY },
        178u8 => Opcode { code: Mnemonic::Kil, bytes: 0, cycles: 0, addressing: AddrMode::Implied },
        179u8 => Opcode { code: Mnemonic::Lax, bytes: 2, cycles: 5, addressing: AddrMode::IndirectY },
        180u8 => Opcode { code: Mnemonic::Ldy, bytes: 2, cycles: 4, addressing: AddrMode::ZeroPageX },
        181u8 => Opcode { code: Mnemonic::Lda, bytes: 2, cycles: 4, addressing: AddrMode::ZeroPageX },
        182u8 => Opcode { code: Mnemonic::Ldx, bytes: 2, cycles: 4, addressing: AddrMode::ZeroPageY },
        183u8 => Opcode { code: Mnemonic::Lax, bytes: 2, cycles: 4, addressing: AddrMode::ZeroPageY },
        184u8 => Opcode { code: Mnemonic::Clv, bytes: 1, cycles: 2, addressing: AddrMode::Implied },
        185u8 => Opcode { code: Mnemonic::Lda, bytes: 3, cycles: 4, addressing: AddrMode::AbsoluteY },
        186u8 => Opcode { code: Mnemonic::Tsx, bytes: 1, cycles: 2, addressing: AddrMode::Implied },
        187u8 => Opcode { code: Mnemonic::Las, bytes: 3, cycles: 4, addressing: AddrMode::AbsoluteY },
        188u8 => Opcode { code: Mnemonic::Ldy, bytes: 3, cycles: 4, addressing: AddrMode::AbsoluteX },
        189u8 => Opcode { code: Mnemonic::Lda, bytes: 3, cycles: 4, addressing: AddrMode::AbsoluteX },
        190u8 => Opcode { code: Mnemonic::Ldx, bytes: 3, cycles: 4, addressing: AddrMode::AbsoluteY },
        191u8 => Opcode { code: Mnemonic::Lax, bytes: 3, cycles: 4, addressing: AddrMode::AbsoluteY },
        192u8 => Opcode { code: Mnemonic::Cpy, bytes: 2, cycles: 2, addressing: AddrMode::Immediate },
        193u8 => Opcode { code: Mnemonic::Cmp, bytes: 2, cycles: 6, addressing: AddrMode::IndirectX },
        194u8 => Opcode { code: Mnemonic::Nop, bytes: 2, cycles: 2, addressing: AddrMode::Immediate },
        195u8 => Opcode { code: Mnemonic::Dcp, bytes: 2, cycles: 8, addressing: AddrMode::IndirectX },
        196u8 => Opcode { code: Mnemonic::Cpy, bytes: 2, cycles: 3, addressing: AddrMode::ZeroPage },
        197u8 => Opcode { code: Mnemonic::Cmp, bytes: 2, cycles: 3, addressing: AddrMode::ZeroPage },
        198u8 => Opcode { code: Mnemonic::Dec, bytes: 2, cycles: 5, addressing: AddrMode::ZeroPage },
        199u8 => Opcode { code: Mnemonic::Dcp, bytes: 2, cycles: 5, addressing: AddrMode::ZeroPage },
        200u8 => Opcode { code: Mnemonic::Iny, bytes: 1, cycles: 2, addressing: AddrMode::Implied },
        201u8 => Opcode { code: Mnemonic::Cmp, bytes: 2, cycles: 2, addressing: AddrMode::Immediate },
        202u8 => Opcode { code: Mnemonic::Dex, bytes: 1, cycles: 2, addressing: AddrMode::Implied },
        203u8 => Opcode { code: Mnemonic::Axs, bytes: 2, cycles: 2, addressing: AddrMode::Immediate },
        204u8 => Opcode { code: Mnemonic::Cpy, bytes: 3, cycles: 4, addressing: AddrMode::Absolute },
        205u8 => Opcode { code: Mnemonic::Cmp, bytes: 3, cycles: 4, addressing: AddrMode::Absolute },
        206u8 => Opcode { code: Mnemonic::Dec, bytes: 3, cycles: 6, addressing: AddrMode::Absolute },
        207u8 => Opcode { code: Mnemonic::Dcp, bytes: 3, cycles: 6, addressing: AddrMode::Absolute },
        208u8 => Opcode { code: Mnemonic::Bne, bytes: 2, cycles: 3, addressing: AddrMode::Relative },
        209u8 => Opcode { code: Mnemonic::Cmp, bytes: 2, cycles: 5, addressing: AddrMode::IndirectY },
        210u8 => Opcode { code: Mnemonic::Kil, bytes: 0, cycles: 0, addressing: AddrMode::Implied },
        211u8 => Opcode { code: Mnemonic::Dcp, bytes: 2, cycles: 8, addressing: AddrMode::IndirectY },
        212u8 => Opcode { code: Mnemonic::Nop, bytes: 2, cycles: 4, addressing: AddrMode::ZeroPageX },
        213u8 => Opcode { code: Mnemonic::Cmp, bytes: 2, cycles: 4, addressing: AddrMode::ZeroPageX },
        214u8 => Opcode { code: Mnemonic::Dec, bytes: 2, cycles: 6, addressing: AddrMode::ZeroPageX },
        215u8 => Opcode { code: Mnemonic::Dcp, bytes: 2, cycles: 6, addressing: AddrMode::ZeroPageX },
        216u8 => Opcode { code: Mnemonic::Cld, bytes: 1, cycles: 2, addressing: AddrMode::Implied },
        217u8 => Opcode { code: Mnemonic::Cmp, bytes: 3, cycles: 4, addressing: AddrMode::AbsoluteY },
        218u8 => Opcode { code: Mnemonic::Nop, bytes: 1, cycles: 2, addressing: AddrMode::Implied },
        219u8 => Opcode { code: Mnemonic::Dcp, bytes: 3, cycles: 7, addressing: AddrMode::AbsoluteY },
        220u8 => Opcode { code: Mnemonic::Nop, bytes: 3, cycles: 4, addressing: AddrMode::AbsoluteX },
        221u8 => Opcode { code: Mnemonic::Cmp, bytes: 3, cycles: 4, addressing: AddrMode::AbsoluteX },
        222u8 => Opcode { code: Mnemonic::Dec, bytes: 3, cycles: 7, addressing: AddrMode::AbsoluteX },
        223u8 => Opcode { code: Mnemonic::Dcp, bytes: 3, cycles: 7, addressing: AddrMode::AbsoluteX },
        224u8 => Opcode { code: Mnemonic::Cpx, bytes: 2, cycles: 2, addressing: AddrMode::Immediate },
        225u8 => Opcode { code: Mnemonic::Sbc, bytes: 2, cycles: 6, addressing: AddrMode::IndirectX },
        226u8 => Opcode { code: Mnemonic::Nop, bytes: 2, cycles: 2, addressing: AddrMode::Immediate },
        227u8 => Opcode { code: Mnemonic::Isc, bytes: 2, cycles: 8, addressing: AddrMode::IndirectX },
        228u8 => Opcode { code: Mnemonic::Cpx, bytes: 2, cycles: 3, addressing: AddrMode::ZeroPage },
        229u8 => Opcode { code: Mnemonic::Sbc, bytes: 2, cycles: 3, addressing: AddrMode::ZeroPage },
        230u8 => Opcode { code: Mnemonic::Inc, bytes: 2, cycles: 5, addressing: AddrMode::ZeroPage },
        231u8 => Opcode { code: Mnemonic::Isc, bytes: 2, cycles: 5, addressing: AddrMode::ZeroPage },
        232u8 => Opcode { code: Mnemonic::Inx, bytes: 1, cycles: 2, addressing: AddrMode::Implied },
        233u8 => Opcode { code: Mnemonic::Sbc, bytes: 2, cycles: 2, addressing: AddrMode::Immediate },
        234u8 => Opcode { code: Mnemonic::Nop, bytes: 1, cycles: 2, addressing: AddrMode::Implied },
        235u8 => Opcode { code: Mnemonic::Sbc, bytes: 2, cycles: 2, addressing: AddrMode::Immediate },
        236u8 => Opcode { code: Mnemonic::Cpx, bytes: 3, cycles: 4, addressing: AddrMode::Absolute },
        237u8 => Opcode { code: Mnemonic::Sbc, bytes: 3, cycles: 4, addressing: AddrMode::Absolute },
        238u8 => Opcode { code: Mnemonic::Inc, bytes: 3, cycles: 6, addressing: AddrMode::Absolute },
        239u8 => Opcode { code: Mnemonic::Isc, bytes: 3, cycles: 6, addressing: AddrMode::Absolute },
        240u8 => Opcode { code: Mnemonic::Beq, bytes: 2, cycles: 2, addressing: AddrMode::Relative },
        241u8 => Opcode { code: Mnemonic::Sbc, bytes: 2, cycles: 5, addressing: AddrMode::IndirectY },
        242u8 => Opcode { code: Mnemonic::Kil, bytes: 0, cycles: 0, addressing: AddrMode::Implied },
        243u8 => Opcode { code: Mnemonic::Isc, bytes: 2, cycles: 8, addressing: AddrMode::IndirectY },
        244u8 => Opcode { code: Mnemonic::Nop, bytes: 2, cycles: 4, addressing: AddrMode::ZeroPageX },
        245u8 => Opcode { code: Mnemonic::Sbc, bytes: 2, cycles: 4, addressing: AddrMode::ZeroPageX },
        246u8 => Opcode { code: Mnemonic::Inc, bytes: 2, cycles: 6, addressing: AddrMode::ZeroPageX },
        247u8 => Opcode { code: Mnemonic::Isc, bytes: 2, cycles: 6, addressing: AddrMode::ZeroPageX },
        248u8 => Opcode { code: Mnemonic::Sed, bytes: 1, cycles: 2, addressing: AddrMode::Implied },
        249u8 => Opcode { code: Mnemonic::Sbc, bytes: 3, cycles: 4, addressing: AddrMode::AbsoluteY },
        250u8 => Opcode { code: Mnemonic::Nop, bytes: 1, cycles: 2, addressing: AddrMode::Implied },
        251u8 => Opcode { code: Mnemonic::Isc, bytes: 3, cycles: 7, addressing: AddrMode::AbsoluteY },
        252u8 => Opcode { code: Mnemonic::Nop, bytes: 3, cycles: 4, addressing: AddrMode::AbsoluteX },
        253u8 => Opcode { code: Mnemonic::Sbc, bytes: 3, cycles: 4, addressing: AddrMode::AbsoluteX },
        254u8 => Opcode { code: Mnemonic::Inc, bytes: 3, cycles: 7, addressing: AddrMode::AbsoluteX },
        _ => Opcode { code: Mnemonic::Isc, bytes: 3, cycles: 7, addressing: AddrMode::AbsoluteX },
    }
}

/// Holds of the mnemonic classes the interpreter gives a semantic effect;
/// executing any other class is a fatal unimplemented-instruction condition.
pub open spec fn is_implemented(m: Mnemonic) -> bool {
    match m {
        Mnemonic::Lda => true,
        Mnemonic::Ldx => true,
        Mnemonic::Ldy => true,
        Mnemonic::Sta => true,
        Mnemonic::Stx => true,
        Mnemonic::Sty => true,
        Mnemonic::Tax => true,
        Mnemonic::Tay => true,
        Mnemonic::Tsx => true,
        Mnemonic::Txa => true,
        Mnemonic::Txs => true,
        Mnemonic::Tya => true,
        Mnemonic::Adc => true,
        Mnemonic::Sbc => true,
        Mnemonic::And => true,
        Mnemonic::Asl => true,
        Mnemonic::Bit => true,
        Mnemonic::Cmp => true,
        Mnemonic::Cpx => true,
        Mnemonic::Cpy => true,
        Mnemonic::Inc => true,
        Mnemonic::Dec => true,
        Mnemonic::Dex => true,
        Mnemonic::Dey => true,
        Mnemonic::Eor => true,
        Mnemonic::Inx => true,
        Mnemonic::Iny => true,
        Mnemonic::Lsr => true,
        Mnemonic::Ora => true,
        Mnemonic::Rol => true,
        Mnemonic::Ror => true,
        Mnemonic::Pha => true,
        Mnemonic::Php => true,
        Mnemonic::Pla => true,
        Mnemonic::Plp => true,
        Mnemonic::Beq => true,
        Mnemonic::Bne => true,
        Mnemonic::Bmi => true,
        Mnemonic::Bpl => true,
        Mnemonic::Bvs => true,
        Mnemonic::Bvc => true,
        Mnemonic::Bcs => true,
        Mnemonic::Bcc => true,
        Mnemonic::Jmp => true,
        Mnemonic::Jsr => true,
        Mnemonic::Rts => true,
        Mnemonic::Sei => true,
        Mnemonic::Cli => true,
        Mnemonic::Cld => true,
        Mnemonic::Clv => true,
        Mnemonic::Sec => true,
        Mnemonic::Sed => true,
        Mnemonic::Clc => true,
        Mnemonic::Brk => true,
        Mnemonic::Nop => true,
        _ => false,
    }
}

/// Decides whether the interpreter implements the given mnemonic class.
pub fn mnemonic_implemented(m: Mnemonic) -> (r: bool)
    ensures
        r == is_implemented(m),
{
    match m {
        Mnemonic::Lda => true,
        Mnemonic::Ldx => true,
        Mnemonic::Ldy => true,
        Mnemonic::Sta => true,
        Mnemonic::Stx => true,
        Mnemonic::Sty => true,
        Mnemonic::Tax => true,
        Mnemonic::Tay => true,
        Mnemonic::Tsx => true,
        Mnemonic::Txa => true,
        Mnemonic::Txs => true,
        Mnemonic::Tya => true,
        Mnemonic::Adc => true,
        Mnemonic::Sbc => true,
        Mnemonic::And => true,
        Mnemonic::Asl => true,
        Mnemonic::Bit => true,
        Mnemonic::Cmp => true,
        Mnemonic::Cpx => true,
        Mnemonic::Cpy => true,
        Mnemonic::Inc => true,
        Mnemonic::Dec => true,
        Mnemonic::Dex => true,
        Mnemonic::Dey => true,
        Mnemonic::Eor => true,
        Mnemonic::Inx => true,
        Mnemonic::Iny => true,
        Mnemonic::Lsr => true,
        Mnemonic::Ora => true,
        Mnemonic::Rol => true,
        Mnemonic::Ror => true,
        Mnemonic::Pha => true,
        Mnemonic::Php => true,
        Mnemonic::Pla => true,
        Mnemonic::Plp => true,
        Mnemonic::Beq => true,
        Mnemonic::Bne => true,
        Mnemonic::Bmi => true,
        Mnemonic::Bpl => true,
        Mnemonic::Bvs => true,
        Mnemonic::Bvc => true,
        Mnemonic::Bcs => true,
        Mnemonic::Bcc => true,
        Mnemonic::Jmp => true,
        Mnemonic::Jsr => true,
        Mnemonic::Rts => true,
        Mnemonic::Sei => true,
        Mnemonic::Cli => true,
        Mnemonic::Cld => true,
        Mnemonic::Clv => true,
        Mnemonic::Sec => true,
        Mnemonic::Sed => true,
        Mnemonic::Clc => true,
        Mnemonic::Brk => true,
        Mnemonic::Nop => true,
        _ => false,
    }
}

} // verus!
