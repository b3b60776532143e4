//! The CDP1802 opcode schema: decoding bytes into instructions, encoding
//! instructions back into bytes, sizes and mnemonics.
//!
//! Decode failure is a value, not an error. Lookup goes first by full byte
//! (for the plain opcodes and the reserved `68`), then by high nibble (for
//! the packed ones).

use vstd::prelude::*;
use vstd::string::StringExecFns;

verus! {

/// One CDP1802 instruction. The doc comment of each variant gives its
/// schema: `xx` a plain opcode, `xn` a packed low nibble, `nn` an operand
/// byte, `hh ll` a long-branch address. `6l` and `6h` pack an I/O port
/// number into the low or high half of the `6x` row.
#[derive(Debug, Clone, Copy, PartialEq, Eq, Structural)]
#[allow(missing_docs)]
pub enum Instr {
    /// `00`
    Idl,
    /// `0n`
    Ldn(u8),
    /// `1n`
    Inc(u8),
    /// `2n`
    Dec(u8),
    /// `30 nn`
    Br(u8),
    /// `31 nn`
    Bq(u8),
    /// `32 nn`
    Bz(u8),
    /// `33 nn`
    Bdf(u8),
    /// `34 nn`
    B1(u8),
    /// `35 nn`
    B2(u8),
    /// `36 nn`
    B3(u8),
    /// `37 nn`
    B4(u8),
    /// `38`
    Skp,
    /// `39 nn`
    Bnq(u8),
    /// `3a nn`
    Bnz(u8),
    /// `3b nn`
    Bnf(u8),
    /// `3c nn`
    Bn1(u8),
    /// `3d nn`
    Bn2(u8),
    /// `3e nn`
    Bn3(u8),
    /// `3f nn`
    Bn4(u8),
    /// `4n`
    Lda(u8),
    /// `5n`
    Str(u8),
    /// `60`
    Irx,
    /// `6l`
    Out(u8),
    /// `68`
    Resv68,
    /// `6h`
    Inp(u8),
    /// `70`
    Ret,
    /// `71`
    Dis,
    /// `72`
    Ldxa,
    /// `73`
    Stxd,
    /// `74`
    Adc,
    /// `75`
    Sdb,
    /// `76`
    Shrc,
    /// `77`
    Smb,
    /// `78`
    Sav,
    /// `79`
    Mark,
    /// `7a`
    ResetQ,
    /// `7b`
    SetQ,
    /// `7c nn`
    Adci(u8),
    /// `7d nn`
    Sdbi(u8),
    /// `7e`
    Shlc,
    /// `7f nn`
    Smbi(u8),
    /// `8n`
    Glo(u8),
    /// `9n`
    Ghi(u8),
    /// `an`
    Plo(u8),
    /// `bn`
    Phi(u8),
    /// `c0 hh ll`
    Lbr(u8, u8),
    /// `c1 hh ll`
    Lbq(u8, u8),
    /// `c2 hh ll`
    Lbz(u8, u8),
    /// `c3 hh ll`
    Lbdf(u8, u8),
    /// `c4`
    Nop,
    /// `c5`
    Lsnq,
    /// `c6`
    Lsnz,
    /// `c7`
    Lsnf,
    /// `c8`
    Lskp,
    /// `c9 hh ll`
    Lbnq(u8, u8),
    /// `ca hh ll`
    Lbnz(u8, u8),
    /// `cb hh ll`
    Lbnf(u8, u8),
    /// `cc`
    Lsie,
    /// `cd`
    Lsq,
    /// `ce`
    Lsz,
    /// `cf`
    Lsdf,
    /// `dn`
    Sep(u8),
    /// `en`
    Sex(u8),
    /// `f0`
    Ldx,
    /// `f1`
    Or,
    /// `f2`
    And,
    /// `f3`
    Xor,
    /// `f4`
    Add,
    /// `f5`
    Sd,
    /// `f6`
    Shr,
    /// `f7`
    Sm,
    /// `f8 nn`
    Ldi(u8),
    /// `f9 nn`
    Ori(u8),
    /// `fa nn`
    Ani(u8),
    /// `fb nn`
    Xri(u8),
    /// `fc nn`
    Adi(u8),
    /// `fd nn`
    Sdi(u8),
    /// `fe`
    Shl,
    /// `ff nn`
    Smi(u8),
}

impl Instr {
    /// The encodable instructions: packed operands fit their nibble, port
    /// numbers stay in 1..=7, and `Ldn(0)` is excluded because `00` is IDL.
    pub open spec fn wf(self) -> bool {
        match self {
            Instr::Idl => true,
            Instr::Ldn(n) => 1 <= n < 16,
            Instr::Inc(n) => n < 16,
            Instr::Dec(n) => n < 16,
            Instr::Br(_) => true,
            Instr::Bq(_) => true,
            Instr::Bz(_) => true,
            Instr::Bdf(_) => true,
            Instr::B1(_) => true,
            Instr::B2(_) => true,
            Instr::B3(_) => true,
            Instr::B4(_) => true,
            Instr::Skp => true,
            Instr::Bnq(_) => true,
            Instr::Bnz(_) => true,
            Instr::Bnf(_) => true,
            Instr::Bn1(_) => true,
            Instr::Bn2(_) => true,
            Instr::Bn3(_) => true,
            Instr::Bn4(_) => true,
            Instr::Lda(n) => n < 16,
            Instr::Str(n) => n < 16,
            Instr::Irx => true,
            Instr::Out(n) => 1 <= n <= 7,
            Instr::Resv68 => true,
            Instr::Inp(n) => 1 <= n <= 7,
            Instr::Ret => true,
            Instr::Dis => true,
            Instr::Ldxa => true,
            Instr::Stxd => true,
            Instr::Adc => true,
            Instr::Sdb => true,
            Instr::Shrc => true,
            Instr::Smb => true,
            Instr::Sav => true,
            Instr::Mark => true,
            Instr::ResetQ => true,
            Instr::SetQ => true,
            Instr::Adci(_) => true,
            Instr::Sdbi(_) => true,
            Instr::Shlc => true,
            Instr::Smbi(_) => true,
            Instr::Glo(n) => n < 16,
            Instr::Ghi(n) => n < 16,
            Instr::Plo(n) => n < 16,
            Instr::Phi(n) => n < 16,
            Instr::Lbr(_, _) => true,
            Instr::Lbq(_, _) => true,
            Instr::Lbz(_, _) => true,
            Instr::Lbdf(_, _) => true,
            Instr::Nop => true,
            Instr::Lsnq => true,
            Instr::Lsnz => true,
            Instr::Lsnf => true,
            Instr::Lskp => true,
            Instr::Lbnq(_, _) => true,
            Instr::Lbnz(_, _) => true,
            Instr::Lbnf(_, _) => true,
            Instr::Lsie => true,
            Instr::Lsq => true,
            Instr::Lsz => true,
            Instr::Lsdf => true,
            Instr::Sep(n) => n < 16,
            Instr::Sex(n) => n < 16,
            Instr::Ldx => true,
            Instr::Or => true,
            Instr::And => true,
            Instr::Xor => true,
            Instr::Add => true,
            Instr::Sd => true,
            Instr::Shr => true,
            Instr::Sm => true,
            Instr::Ldi(_) => true,
            Instr::Ori(_) => true,
            Instr::Ani(_) => true,
            Instr::Xri(_) => true,
            Instr::Adi(_) => true,
            Instr::Sdi(_) => true,
            Instr::Shl => true,
            Instr::Smi(_) => true,
        }
    }

    /// The bytes that [`Instr::encode`] produces.
    pub open spec fn encode_spec(self) -> Seq<u8> {
        match self {
            Instr::Idl => seq![0x00u8],
            Instr::Ldn(n) => seq![(0x00u8 | n) as u8],
            Instr::Inc(n) => seq![(0x10u8 | n) as u8],
            Instr::Dec(n) => seq![(0x20u8 | n) as u8],
            Instr::Br(nn) => seq![0x30u8, nn],
            Instr::Bq(nn) => seq![0x31u8, nn],
            Instr::Bz(nn) => seq![0x32u8, nn],
            Instr::Bdf(nn) => seq![0x33u8, nn],
            Instr::B1(nn) => seq![0x34u8, nn],
            Instr::B2(nn) => seq![0x35u8, nn],
            Instr::B3(nn) => seq![0x36u8, nn],
            Instr::B4(nn) => seq![0x37u8, nn],
            Instr::Skp => seq![0x38u8],
            Instr::Bnq(nn) => seq![0x39u8, nn],
            Instr::Bnz(nn) => seq![0x3au8, nn],
            Instr::Bnf(nn) => seq![0x3bu8, nn],
            Instr::Bn1(nn) => seq![0x3cu8, nn],
            Instr::Bn2(nn) => seq![0x3du8, nn],
            Instr::Bn3(nn) => seq![0x3eu8, nn],
            Instr::Bn4(nn) => seq![0x3fu8, nn],
            Instr::Lda(n) => seq![(0x40u8 | n) as u8],
            Instr::Str(n) => seq![(0x50u8 | n) as u8],
            Instr::Irx => seq![0x60u8],
            Instr::Out(n) => seq![(0x60u8 | n) as u8],
            Instr::Resv68 => seq![0x68u8],
            Instr::Inp(n) => seq![(0x68u8 | n) as u8],
            Instr::Ret => seq![0x70u8],
            Instr::Dis => seq![0x71u8],
            Instr::Ldxa => seq![0x72u8],
            Instr::Stxd => seq![0x73u8],
            Instr::Adc => seq![0x74u8],
            Instr::Sdb => seq![0x75u8],
            Instr::Shrc => seq![0x76u8],
            Instr::Smb => seq![0x77u8],
            Instr::Sav => seq![0x78u8],
            Instr::Mark => seq![0x79u8],
            Instr::ResetQ => seq![0x7au8],
            Instr::SetQ => seq![0x7bu8],
            Instr::Adci(nn) => seq![0x7cu8, nn],
            Instr::Sdbi(nn) => seq![0x7du8, nn],
            Instr::Shlc => seq![0x7eu8],
            Instr::Smbi(nn) => seq![0x7fu8, nn],
            Instr::Glo(n) => seq![(0x80u8 | n) as u8],
            Instr::Ghi(n) => seq![(0x90u8 | n) as u8],
            Instr::Plo(n) => seq![(0xa0u8 | n) as u8],
            Instr::Phi(n) => seq![(0xb0u8 | n) as u8],
            Instr::Lbr(hh, ll) => seq![0xc0u8, hh, ll],
            Instr::Lbq(hh, ll) => seq![0xc1u8, hh, ll],
            Instr::Lbz(hh, ll) => seq![0xc2u8, hh, ll],
            Instr::Lbdf(hh, ll) => seq![0xc3u8, hh, ll],
            Instr::Nop => seq![0xc4u8],
            Instr::Lsnq => seq![0xc5u8],
            Instr::Lsnz => seq![0xc6u8],
            Instr::Lsnf => seq![0xc7u8],
            Instr::Lskp => seq![0xc8u8],
            Instr::Lbnq(hh, ll) => seq![0xc9u8, hh, ll],
            Instr::Lbnz(hh, ll) => seq![0xcau8, hh, ll],
            Instr::Lbnf(hh, ll) => seq![0xcbu8, hh, ll],
            Instr::Lsie => seq![0xccu8],
            Instr::Lsq => seq![0xcdu8],
            Instr::Lsz => seq![0xceu8],
            Instr::Lsdf => seq![0xcfu8],
            Instr::Sep(n) => seq![(0xd0u8 | n) as u8],
            Instr::Sex(n) => seq![(0xe0u8 | n) as u8],
            Instr::Ldx => seq![0xf0u8],
            Instr::Or => seq![0xf1u8],
            Instr::And => seq![0xf2u8],
            Instr::Xor => seq![0xf3u8],
            Instr::Add => seq![0xf4u8],
            Instr::Sd => seq![0xf5u8],
            Instr::Shr => seq![0xf6u8],
            Instr::Sm => seq![0xf7u8],
            Instr::Ldi(nn) => seq![0xf8u8, nn],
            Instr::Ori(nn) => seq![0xf9u8, nn],
            Instr::Ani(nn) => seq![0xfau8, nn],
            Instr::Xri(nn) => seq![0xfbu8, nn],
            Instr::Adi(nn) => seq![0xfcu8, nn],
            Instr::Sdi(nn) => seq![0xfdu8, nn],
            Instr::Shl => seq![0xfeu8],
            Instr::Smi(nn) => seq![0xffu8, nn],
        }
    }

    /// The instruction [`Instr::decode`] yields from `bin`, if any.
    pub open spec fn decode_spec(bin: Seq<u8>) -> Option<Instr> {
        if bin.len() == 0 {
            None
        } else {
            let op = bin[0];
            match op {
                0x00 => Some(Instr::Idl),
                0x30 => if bin.len() >= 2 {
                Some(Instr::Br(bin[1]))
            } else {
                None
            },
                0x31 => if bin.len() >= 2 {
                Some(Instr::Bq(bin[1]))
            } else {
                None
            },
                0x32 => if bin.len() >= 2 {
                Some(Instr::Bz(bin[1]))
            } else {
                None
            },
                0x33 => if bin.len() >= 2 {
                Some(Instr::Bdf(bin[1]))
            } else {
                None
            },
                0x34 => if bin.len() >= 2 {
                Some(Instr::B1(bin[1]))
            } else {
                None
            },
                0x35 => if bin.len() >= 2 {
                Some(Instr::B2(bin[1]))
            } else {
                None
            },
                0x36 => if bin.len() >= 2 {
                Some(Instr::B3(bin[1]))
            } else {
                None
            },
                0x37 => if bin.len() >= 2 {
                Some(Instr::B4(bin[1]))
            } else {
                None
            },
                0x38 => Some(Instr::Skp),
                0x39 => if bin.len() >= 2 {
                Some(Instr::Bnq(bin[1]))
            } else {
                None
            },
                0x3a => if bin.len() >= 2 {
                Some(Instr::Bnz(bin[1]))
            } else {
                None
            },
                0x3b => if bin.len() >= 2 {
                Some(Instr::Bnf(bin[1]))
            } else {
                None
            },
                0x3c => if bin.len() >= 2 {
                Some(Instr::Bn1(bin[1]))
            } else {
                None
            },
                0x3d => if bin.len() >= 2 {
                Some(Instr::Bn2(bin[1]))
            } else {
                None
            },
                0x3e => if bin.len() >= 2 {
                Some(Instr::Bn3(bin[1]))
            } else {
                None
            },
                0x3f => if bin.len() >= 2 {
                Some(Instr::Bn4(bin[1]))
            } else {
                None
            },
                0x60 => Some(Instr::Irx),
                0x68 => Some(Instr::Resv68),
                0x70 => Some(Instr::Ret),
                0x71 => Some(Instr::Dis),
                0x72 => Some(Instr::Ldxa),
                0x73 => Some(Instr::Stxd),
                0x74 => Some(Instr::Adc),
                0x75 => Some(Instr::Sdb),
                0x76 => Some(Instr::Shrc),
                0x77 => Some(Instr::Smb),
                0x78 => Some(Instr::Sav),
                0x79 => Some(Instr::Mark),
                0x7a => Some(Instr::ResetQ),
                0x7b => Some(Instr::SetQ),
                0x7c => if bin.len() >= 2 {
                Some(Instr::Adci(bin[1]))
            } else {
                None
            },
                0x7d => if bin.len() >= 2 {
                Some(Instr::Sdbi(bin[1]))
            } else {
                None
            },
                0x7e => Some(Instr::Shlc),
                0x7f => if bin.len() >= 2 {
                Some(Instr::Smbi(bin[1]))
            } else {
                None
            },
                0xc0 => if bin.len() >= 3 {
                Some(Instr::Lbr(bin[1], bin[2]))
            } else {
                None
            },
                0xc1 => if bin.len() >= 3 {
                Some(Instr::Lbq(bin[1], bin[2]))
            } else {
                None
            },
                0xc2 => if bin.len() >= 3 {
                Some(Instr::Lbz(bin[1], bin[2]))
            } else {
                None
            },
                0xc3 => if bin.len() >= 3 {
                Some(Instr::Lbdf(bin[1], bin[2]))
            } else {
                None
            },
                0xc4 => Some(Instr::Nop),
                0xc5 => Some(Instr::Lsnq),
                0xc6 => Some(Instr::Lsnz),
                0xc7 => Some(Instr::Lsnf),
                0xc8 => Some(Instr::Lskp),
                0xc9 => if bin.len() >= 3 {
                Some(Instr::Lbnq(bin[1], bin[2]))
            } else {
                None
            },
                0xca => if bin.len() >= 3 {
                Some(Instr::Lbnz(bin[1], bin[2]))
            } else {
                None
            },
                0xcb => if bin.len() >= 3 {
                Some(Instr::Lbnf(bin[1], bin[2]))
            } else {
                None
            },
                0xcc => Some(Instr::Lsie),
                0xcd => Some(Instr::Lsq),
                0xce => Some(Instr::Lsz),
                0xcf => Some(Instr::Lsdf),
                0xf0 => Some(Instr::Ldx),
                0xf1 => Some(Instr::Or),
                0xf2 => Some(Instr::And),
                0xf3 => Some(Instr::Xor),
                0xf4 => Some(Instr::Add),
                0xf5 => Some(Instr::Sd),
                0xf6 => Some(Instr::Shr),
                0xf7 => Some(Instr::Sm),
                0xf8 => if bin.len() >= 2 {
                Some(Instr::Ldi(bin[1]))
            } else {
                None
            },
                0xf9 => if bin.len() >= 2 {
                Some(Instr::Ori(bin[1]))
            } else {
                None
            },
                0xfa => if bin.len() >= 2 {
                Some(Instr::Ani(bin[1]))
            } else {
                None
            },
                0xfb => if bin.len() >= 2 {
                Some(Instr::Xri(bin[1]))
            } else {
                None
            },
                0xfc => if bin.len() >= 2 {
                Some(Instr::Adi(bin[1]))
            } else {
                None
            },
                0xfd => if bin.len() >= 2 {
                Some(Instr::Sdi(bin[1]))
            } else {
                None
            },
                0xfe => Some(Instr::Shl),
                0xff => if bin.len() >= 2 {
                Some(Instr::Smi(bin[1]))
            } else {
                None
            },
                _ => match op & 0xf0 {
                    0x00 => Some(Instr::Ldn((op & 0x0f) as u8)),
                    0x10 => Some(Instr::Inc((op & 0x0f) as u8)),
                    0x20 => Some(Instr::Dec((op & 0x0f) as u8)),
                    0x40 => Some(Instr::Lda((op & 0x0f) as u8)),
                    0x50 => Some(Instr::Str((op & 0x0f) as u8)),
                    0x80 => Some(Instr::Glo((op & 0x0f) as u8)),
                    0x90 => Some(Instr::Ghi((op & 0x0f) as u8)),
                    0xa0 => Some(Instr::Plo((op & 0x0f) as u8)),
                    0xb0 => Some(Instr::Phi((op & 0x0f) as u8)),
                    0xd0 => Some(Instr::Sep((op & 0x0f) as u8)),
                    0xe0 => Some(Instr::Sex((op & 0x0f) as u8)),
                    0x60 => if op & 0x0f <= 7 {
                    Some(Instr::Out((op & 0x0f) as u8))
                } else {
                    Some(Instr::Inp((op & 0x07) as u8))
                },
                    _ => None,
                },
            }
        }
    }

    /// Decode an instruction from bytes: `None` when the first byte matches
    /// no schema or operand bytes are missing.
    pub fn decode(bin: &[u8]) -> (r: Option<Instr>)
        ensures
            r == Instr::decode_spec(bin@),
    {
        if bin.len() == 0 {
            return None;
        }
        let op = bin[0];
        match op {
            0x00 => Some(Instr::Idl),
            0x30 => if bin.len() >= 2 {
                Some(Instr::Br(bin[1]))
            } else {
                None
            },
            0x31 => if bin.len() >= 2 {
                Some(Instr::Bq(bin[1]))
            } else {
                None
            },
            0x32 => if bin.len() >= 2 {
                Some(Instr::Bz(bin[1]))
            } else {
                None
            },
            0x33 => if bin.len() >= 2 {
                Some(Instr::Bdf(bin[1]))
            } else {
                None
            },
            0x34 => if bin.len() >= 2 {
                Some(Instr::B1(bin[1]))
            } else {
                None
            },
            0x35 => if bin.len() >= 2 {
                Some(Instr::B2(bin[1]))
            } else {
                None
            },
            0x36 => if bin.len() >= 2 {
                Some(Instr::B3(bin[1]))
            } else {
                None
            },
            0x37 => if bin.len() >= 2 {
                Some(Instr::B4(bin[1]))
            } else {
                None
            },
            0x38 => Some(Instr::Skp),
            0x39 => if bin.len() >= 2 {
                Some(Instr::Bnq(bin[1]))
            } else {
                None
            },
            0x3a => if bin.len() >= 2 {
                Some(Instr::Bnz(bin[1]))
            } else {
                None
            },
            0x3b => if bin.len() >= 2 {
                Some(Instr::Bnf(bin[1]))
            } else {
                None
            },
            0x3c => if bin.len() >= 2 {
                Some(Instr::Bn1(bin[1]))
            } else {
                None
            },
            0x3d => if bin.len() >= 2 {
                Some(Instr::Bn2(bin[1]))
            } else {
                None
            },
            0x3e => if bin.len() >= 2 {
                Some(Instr::Bn3(bin[1]))
            } else {
                None
            },
            0x3f => if bin.len() >= 2 {
                Some(Instr::Bn4(bin[1]))
            } else {
                None
            },
            0x60 => Some(Instr::Irx),
            0x68 => Some(Instr::Resv68),
            0x70 => Some(Instr::Ret),
            0x71 => Some(Instr::Dis),
            0x72 => Some(Instr::Ldxa),
            0x73 => Some(Instr::Stxd),
            0x74 => Some(Instr::Adc),
            0x75 => Some(Instr::Sdb),
            0x76 => Some(Instr::Shrc),
            0x77 => Some(Instr::Smb),
            0x78 => Some(Instr::Sav),
            0x79 => Some(Instr::Mark),
            0x7a => Some(Instr::ResetQ),
            0x7b => Some(Instr::SetQ),
            0x7c => if bin.len() >= 2 {
                Some(Instr::Adci(bin[1]))
            } else {
                None
            },
            0x7d => if bin.len() >= 2 {
                Some(Instr::Sdbi(bin[1]))
            } else {
                None
            },
            0x7e => Some(Instr::Shlc),
            0x7f => if bin.len() >= 2 {
                Some(Instr::Smbi(bin[1]))
            } else {
                None
            },
            0xc0 => if bin.len() >= 3 {
                Some(Instr::Lbr(bin[1], bin[2]))
            } else {
                None
            },
            0xc1 => if bin.len() >= 3 {
                Some(Instr::Lbq(bin[1], bin[2]))
            } else {
                None
            },
            0xc2 => if bin.len() >= 3 {
                Some(Instr::Lbz(bin[1], bin[2]))
            } else {
                None
            },
            0xc3 => if bin.len() >= 3 {
                Some(Instr::Lbdf(bin[1], bin[2]))
            } else {
                None
            },
            0xc4 => Some(Instr::Nop),
            0xc5 => Some(Instr::Lsnq),
            0xc6 => Some(Instr::Lsnz),
            0xc7 => Some(Instr::Lsnf),
            0xc8 => Some(Instr::Lskp),
            0xc9 => if bin.len() >= 3 {
                Some(Instr::Lbnq(bin[1], bin[2]))
            } else {
                None
            },
            0xca => if bin.len() >= 3 {
                Some(Instr::Lbnz(bin[1], bin[2]))
            } else {
                None
            },
            0xcb => if bin.len() >= 3 {
                Some(Instr::Lbnf(bin[1], bin[2]))
            } else {
                None
            },
            0xcc => Some(Instr::Lsie),
            0xcd => Some(Instr::Lsq),
            0xce => Some(Instr::Lsz),
            0xcf => Some(Instr::Lsdf),
            0xf0 => Some(Instr::Ldx),
            0xf1 => Some(Instr::Or),
            0xf2 => Some(Instr::And),
            0xf3 => Some(Instr::Xor),
            0xf4 => Some(Instr::Add),
            0xf5 => Some(Instr::Sd),
            0xf6 => Some(Instr::Shr),
            0xf7 => Some(Instr::Sm),
            0xf8 => if bin.len() >= 2 {
                Some(Instr::Ldi(bin[1]))
            } else {
                None
            },
            0xf9 => if bin.len() >= 2 {
                Some(Instr::Ori(bin[1]))
            } else {
                None
            },
            0xfa => if bin.len() >= 2 {
                Some(Instr::Ani(bin[1]))
            } else {
                None
            },
            0xfb => if bin.len() >= 2 {
                Some(Instr::Xri(bin[1]))
            } else {
                None
            },
            0xfc => if bin.len() >= 2 {
                Some(Instr::Adi(bin[1]))
            } else {
                None
            },
            0xfd => if bin.len() >= 2 {
                Some(Instr::Sdi(bin[1]))
            } else {
                None
            },
            0xfe => Some(Instr::Shl),
            0xff => if bin.len() >= 2 {
                Some(Instr::Smi(bin[1]))
            } else {
                None
            },
            _ => match op & 0xf0 {
                0x00 => Some(Instr::Ldn(op & 0x0f)),
                0x10 => Some(Instr::Inc(op & 0x0f)),
                0x20 => Some(Instr::Dec(op & 0x0f)),
                0x40 => Some(Instr::Lda(op & 0x0f)),
                0x50 => Some(Instr::Str(op & 0x0f)),
                0x80 => Some(Instr::Glo(op & 0x0f)),
                0x90 => Some(Instr::Ghi(op & 0x0f)),
                0xa0 => Some(Instr::Plo(op & 0x0f)),
                0xb0 => Some(Instr::Phi(op & 0x0f)),
                0xd0 => Some(Instr::Sep(op & 0x0f)),
                0xe0 => Some(Instr::Sex(op & 0x0f)),
                0x60 => if op & 0x0f <= 7 {
                    Some(Instr::Out(op & 0x0f))
                } else {
                    Some(Instr::Inp(op & 0x07))
                },
                _ => None,
            },
        }
    }

    /// Encode the instruction into its 1 to 3 bytes.
    pub fn encode(&self) -> (r: Vec<u8>)
        ensures
            r@ == self.encode_spec(),
            r@.len() == self.size_spec(),
    {
        match *self {
            Instr::Idl => vec![0x00],
            Instr::Ldn(n) => vec![0x00 | n],
            Instr::Inc(n) => vec![0x10 | n],
            Instr::Dec(n) => vec![0x20 | n],
            Instr::Br(nn) => vec![0x30, nn],
            Instr::Bq(nn) => vec![0x31, nn],
            Instr::Bz(nn) => vec![0x32, nn],
            Instr::Bdf(nn) => vec![0x33, nn],
            Instr::B1(nn) => vec![0x34, nn],
            Instr::B2(nn) => vec![0x35, nn],
            Instr::B3(nn) => vec![0x36, nn],
            Instr::B4(nn) => vec![0x37, nn],
            Instr::Skp => vec![0x38],
            Instr::Bnq(nn) => vec![0x39, nn],
            Instr::Bnz(nn) => vec![0x3a, nn],
            Instr::Bnf(nn) => vec![0x3b, nn],
            Instr::Bn1(nn) => vec![0x3c, nn],
            Instr::Bn2(nn) => vec![0x3d, nn],
            Instr::Bn3(nn) => vec![0x3e, nn],
            Instr::Bn4(nn) => vec![0x3f, nn],
            Instr::Lda(n) => vec![0x40 | n],
            Instr::Str(n) => vec![0x50 | n],
            Instr::Irx => vec![0x60],
            Instr::Out(n) => vec![0x60 | n],
            Instr::Resv68 => vec![0x68],
            Instr::Inp(n) => vec![0x68 | n],
            Instr::Ret => vec![0x70],
            Instr::Dis => vec![0x71],
            Instr::Ldxa => vec![0x72],
            Instr::Stxd => vec![0x73],
            Instr::Adc => vec![0x74],
            Instr::Sdb => vec![0x75],
            Instr::Shrc => vec![0x76],
            Instr::Smb => vec![0x77],
            Instr::Sav => vec![0x78],
            Instr::Mark => vec![0x79],
            Instr::ResetQ => vec![0x7a],
            Instr::SetQ => vec![0x7b],
            Instr::Adci(nn) => vec![0x7c, nn],
            Instr::Sdbi(nn) => vec![0x7d, nn],
            Instr::Shlc => vec![0x7e],
            Instr::Smbi(nn) => vec![0x7f, nn],
            Instr::Glo(n) => vec![0x80 | n],
            Instr::Ghi(n) => vec![0x90 | n],
            Instr::Plo(n) => vec![0xa0 | n],
            Instr::Phi(n) => vec![0xb0 | n],
            Instr::Lbr(hh, ll) => vec![0xc0, hh, ll],
            Instr::Lbq(hh, ll) => vec![0xc1, hh, ll],
            Instr::Lbz(hh, ll) => vec![0xc2, hh, ll],
            Instr::Lbdf(hh, ll) => vec![0xc3, hh, ll],
            Instr::Nop => vec![0xc4],
            Instr::Lsnq => vec![0xc5],
            Instr::Lsnz => vec![0xc6],
            Instr::Lsnf => vec![0xc7],
            Instr::Lskp => vec![0xc8],
            Instr::Lbnq(hh, ll) => vec![0xc9, hh, ll],
            Instr::Lbnz(hh, ll) => vec![0xca, hh, ll],
            Instr::Lbnf(hh, ll) => vec![0xcb, hh, ll],
            Instr::Lsie => vec![0xcc],
            Instr::Lsq => vec![0xcd],
            Instr::Lsz => vec![0xce],
            Instr::Lsdf => vec![0xcf],
            Instr::Sep(n) => vec![0xd0 | n],
            Instr::Sex(n) => vec![0xe0 | n],
            Instr::Ldx => vec![0xf0],
            Instr::Or => vec![0xf1],
            Instr::And => vec![0xf2],
            Instr::Xor => vec![0xf3],
            Instr::Add => vec![0xf4],
            Instr::Sd => vec![0xf5],
            Instr::Shr => vec![0xf6],
            Instr::Sm => vec![0xf7],
            Instr::Ldi(nn) => vec![0xf8, nn],
            Instr::Ori(nn) => vec![0xf9, nn],
            Instr::Ani(nn) => vec![0xfa, nn],
            Instr::Xri(nn) => vec![0xfb, nn],
            Instr::Adi(nn) => vec![0xfc, nn],
            Instr::Sdi(nn) => vec![0xfd, nn],
            Instr::Shl => vec![0xfe],
            Instr::Smi(nn) => vec![0xff, nn],
        }
    }

    /// The length of [`Instr::encode`]'s result.
    pub open spec fn size_spec(self) -> u8 {
        match self {
            Instr::Idl => 1,
            Instr::Ldn(_) => 1,
            Instr::Inc(_) => 1,
            Instr::Dec(_) => 1,
            Instr::Br(_) => 2,
            Instr::Bq(_) => 2,
            Instr::Bz(_) => 2,
            Instr::Bdf(_) => 2,
            Instr::B1(_) => 2,
            Instr::B2(_) => 2,
            Instr::B3(_) => 2,
            Instr::B4(_) => 2,
            Instr::Skp => 1,
            Instr::Bnq(_) => 2,
            Instr::Bnz(_) => 2,
            Instr::Bnf(_) => 2,
            Instr::Bn1(_) => 2,
            Instr::Bn2(_) => 2,
            Instr::Bn3(_) => 2,
            Instr::Bn4(_) => 2,
            Instr::Lda(_) => 1,
            Instr::Str(_) => 1,
            Instr::Irx => 1,
            Instr::Out(_) => 1,
            Instr::Resv68 => 1,
            Instr::Inp(_) => 1,
            Instr::Ret => 1,
            Instr::Dis => 1,
            Instr::Ldxa => 1,
            Instr::Stxd => 1,
            Instr::Adc => 1,
            Instr::Sdb => 1,
            Instr::Shrc => 1,
            Instr::Smb => 1,
            Instr::Sav => 1,
            Instr::Mark => 1,
            Instr::ResetQ => 1,
            Instr::SetQ => 1,
            Instr::Adci(_) => 2,
            Instr::Sdbi(_) => 2,
            Instr::Shlc => 1,
            Instr::Smbi(_) => 2,
            Instr::Glo(_) => 1,
            Instr::Ghi(_) => 1,
            Instr::Plo(_) => 1,
            Instr::Phi(_) => 1,
            Instr::Lbr(_, _) => 3,
            Instr::Lbq(_, _) => 3,
            Instr::Lbz(_, _) => 3,
            Instr::Lbdf(_, _) => 3,
            Instr::Nop => 1,
            Instr::Lsnq => 1,
            Instr::Lsnz => 1,
            Instr::Lsnf => 1,
            Instr::Lskp => 1,
            Instr::Lbnq(_, _) => 3,
            Instr::Lbnz(_, _) => 3,
            Instr::Lbnf(_, _) => 3,
            Instr::Lsie => 1,
            Instr::Lsq => 1,
            Instr::Lsz => 1,
            Instr::Lsdf => 1,
            Instr::Sep(_) => 1,
            Instr::Sex(_) => 1,
            Instr::Ldx => 1,
            Instr::Or => 1,
            Instr::And => 1,
            Instr::Xor => 1,
            Instr::Add => 1,
            Instr::Sd => 1,
            Instr::Shr => 1,
            Instr::Sm => 1,
            Instr::Ldi(_) => 2,
            Instr::Ori(_) => 2,
            Instr::Ani(_) => 2,
            Instr::Xri(_) => 2,
            Instr::Adi(_) => 2,
            Instr::Sdi(_) => 2,
            Instr::Shl => 1,
            Instr::Smi(_) => 2,
        }
    }

    /// The size of the instruction, in bytes.
    pub fn size(&self) -> (r: u8)
        ensures
            r == self.size_spec(),
    {
        match *self {
            Instr::Idl => 1,
            Instr::Ldn(_) => 1,
            Instr::Inc(_) => 1,
            Instr::Dec(_) => 1,
            Instr::Br(_) => 2,
            Instr::Bq(_) => 2,
            Instr::Bz(_) => 2,
            Instr::Bdf(_) => 2,
            Instr::B1(_) => 2,
            Instr::B2(_) => 2,
            Instr::B3(_) => 2,
            Instr::B4(_) => 2,
            Instr::Skp => 1,
            Instr::Bnq(_) => 2,
            Instr::Bnz(_) => 2,
            Instr::Bnf(_) => 2,
            Instr::Bn1(_) => 2,
            Instr::Bn2(_) => 2,
            Instr::Bn3(_) => 2,
            Instr::Bn4(_) => 2,
            Instr::Lda(_) => 1,
            Instr::Str(_) => 1,
            Instr::Irx => 1,
            Instr::Out(_) => 1,
            Instr::Resv68 => 1,
            Instr::Inp(_) => 1,
            Instr::Ret => 1,
            Instr::Dis => 1,
            Instr::Ldxa => 1,
            Instr::Stxd => 1,
            Instr::Adc => 1,
            Instr::Sdb => 1,
            Instr::Shrc => 1,
            Instr::Smb => 1,
            Instr::Sav => 1,
            Instr::Mark => 1,
            Instr::ResetQ => 1,
            Instr::SetQ => 1,
            Instr::Adci(_) => 2,
            Instr::Sdbi(_) => 2,
            Instr::Shlc => 1,
            Instr::Smbi(_) => 2,
            Instr::Glo(_) => 1,
            Instr::Ghi(_) => 1,
            Instr::Plo(_) => 1,
            Instr::Phi(_) => 1,
            Instr::Lbr(_, _) => 3,
            Instr::Lbq(_, _) => 3,
            Instr::Lbz(_, _) => 3,
            Instr::Lbdf(_, _) => 3,
            Instr::Nop => 1,
            Instr::Lsnq => 1,
            Instr::Lsnz => 1,
            Instr::Lsnf => 1,
            Instr::Lskp => 1,
            Instr::Lbnq(_, _) => 3,
            Instr::Lbnz(_, _) => 3,
            Instr::Lbnf(_, _) => 3,
            Instr::Lsie => 1,
            Instr::Lsq => 1,
            Instr::Lsz => 1,
            Instr::Lsdf => 1,
            Instr::Sep(_) => 1,
            Instr::Sex(_) => 1,
            Instr::Ldx => 1,
            Instr::Or => 1,
            Instr::And => 1,
            Instr::Xor => 1,
            Instr::Add => 1,
            Instr::Sd => 1,
            Instr::Shr => 1,
            Instr::Sm => 1,
            Instr::Ldi(_) => 2,
            Instr::Ori(_) => 2,
            Instr::Ani(_) => 2,
            Instr::Xri(_) => 2,
            Instr::Adi(_) => 2,
            Instr::Sdi(_) => 2,
            Instr::Shl => 1,
            Instr::Smi(_) => 2,
        }
    }

    /// The opcode byte, including packed data.
    pub fn opcode(&self) -> (r: u8)
        ensures
            r == self.encode_spec()[0],
    {
        let e = self.encode();
        e[0]
    }
}

/// Packing a nibble into a cleared low half is plain addition, and the two
/// halves read back independently.
proof fn lemma_pack(n: u8)
    by (bit_vector)
    requires
        n < 16,
    ensures
        (0x00u8 | n) == n,
        (0x10u8 | n) == 0x10 + n && ((0x10u8 | n) & 0xf0) == 0x10 && ((0x10u8 | n) & 0x0f) == n,
        (0x20u8 | n) == 0x20 + n && ((0x20u8 | n) & 0xf0) == 0x20 && ((0x20u8 | n) & 0x0f) == n,
        (0x40u8 | n) == 0x40 + n && ((0x40u8 | n) & 0xf0) == 0x40 && ((0x40u8 | n) & 0x0f) == n,
        (0x50u8 | n) == 0x50 + n && ((0x50u8 | n) & 0xf0) == 0x50 && ((0x50u8 | n) & 0x0f) == n,
        (0x80u8 | n) == 0x80 + n && ((0x80u8 | n) & 0xf0) == 0x80 && ((0x80u8 | n) & 0x0f) == n,
        (0x90u8 | n) == 0x90 + n && ((0x90u8 | n) & 0xf0) == 0x90 && ((0x90u8 | n) & 0x0f) == n,
        (0xa0u8 | n) == 0xa0 + n && ((0xa0u8 | n) & 0xf0) == 0xa0 && ((0xa0u8 | n) & 0x0f) == n,
        (0xb0u8 | n) == 0xb0 + n && ((0xb0u8 | n) & 0xf0) == 0xb0 && ((0xb0u8 | n) & 0x0f) == n,
        (0xd0u8 | n) == 0xd0 + n && ((0xd0u8 | n) & 0xf0) == 0xd0 && ((0xd0u8 | n) & 0x0f) == n,
        (0xe0u8 | n) == 0xe0 + n && ((0xe0u8 | n) & 0xf0) == 0xe0 && ((0xe0u8 | n) & 0x0f) == n,
        n < 16 && n >= 1 ==> ((0x00u8 | n) & 0xf0) == 0x00 && ((0x00u8 | n) & 0x0f) == n && (
        0x00u8 | n) == n,
        n <= 7 ==> (0x60u8 | n) == 0x60 + n && ((0x60u8 | n) & 0xf0) == 0x60 && ((0x60u8 | n)
            & 0x0f) == n,
        n <= 7 ==> (0x68u8 | n) == 0x68 + n && ((0x68u8 | n) & 0xf0) == 0x60 && ((0x68u8 | n)
            & 0x0f) == n + 8 && ((0x68u8 | n) & 0x07) == n,
{
}

/// Decode inverts encode: every byte sequence produced by [`Instr::encode`]
/// from an encodable instruction decodes back to that same instruction.
/// `Ldn(0)` and port numbers outside 1..=7 are not encodable: their bytes
/// belong to IDL, IRX and the reserved `68`.
pub proof fn lemma_decode_encode_roundtrip(i: Instr)
    requires
        i.wf(),
    ensures
        Instr::decode_spec(i.encode_spec()) == Some(i),
{
    match i {
        Instr::Ldn(n) => lemma_pack(n),
        Instr::Inc(n) => lemma_pack(n),
        Instr::Dec(n) => lemma_pack(n),
        Instr::Lda(n) => lemma_pack(n),
        Instr::Str(n) => lemma_pack(n),
        Instr::Out(n) => lemma_pack(n),
        Instr::Inp(n) => lemma_pack(n),
        Instr::Glo(n) => lemma_pack(n),
        Instr::Ghi(n) => lemma_pack(n),
        Instr::Plo(n) => lemma_pack(n),
        Instr::Phi(n) => lemma_pack(n),
        Instr::Sep(n) => lemma_pack(n),
        Instr::Sex(n) => lemma_pack(n),
        _ => (),
    }
}


/// The lowercase hex digit of the nibble `n`.
pub open spec fn spec_hex_digit(n: u8) -> char {
    if n == 0 {
        '0'
    } else if n == 1 {
        '1'
    } else if n == 2 {
        '2'
    } else if n == 3 {
        '3'
    } else if n == 4 {
        '4'
    } else if n == 5 {
        '5'
    } else if n == 6 {
        '6'
    } else if n == 7 {
        '7'
    } else if n == 8 {
        '8'
    } else if n == 9 {
        '9'
    } else if n == 10 {
        'a'
    } else if n == 11 {
        'b'
    } else if n == 12 {
        'c'
    } else if n == 13 {
        'd'
    } else if n == 14 {
        'e'
    } else {
        'f'
    }
}

/// The two lowercase hex digits of the byte `b`.
pub open spec fn spec_hex2(b: u8) -> Seq<char> {
    seq![spec_hex_digit(b >> 4), spec_hex_digit(b & 0xf)]
}

/// The one-character string of the hex digit of the nibble `n`.
fn hex_str(n: u8) -> (r: &'static str)
    requires
        n < 16,
    ensures
        r@ == seq![spec_hex_digit(n)],
{
    proof {
        reveal_strlit("0");
        reveal_strlit("1");
        reveal_strlit("2");
        reveal_strlit("3");
        reveal_strlit("4");
        reveal_strlit("5");
        reveal_strlit("6");
        reveal_strlit("7");
        reveal_strlit("8");
        reveal_strlit("9");
        reveal_strlit("a");
        reveal_strlit("b");
        reveal_strlit("c");
        reveal_strlit("d");
        reveal_strlit("e");
        reveal_strlit("f");
        assert("0"@ =~= seq!['0']);
        assert("1"@ =~= seq!['1']);
        assert("2"@ =~= seq!['2']);
        assert("3"@ =~= seq!['3']);
        assert("4"@ =~= seq!['4']);
        assert("5"@ =~= seq!['5']);
        assert("6"@ =~= seq!['6']);
        assert("7"@ =~= seq!['7']);
        assert("8"@ =~= seq!['8']);
        assert("9"@ =~= seq!['9']);
        assert("a"@ =~= seq!['a']);
        assert("b"@ =~= seq!['b']);
        assert("c"@ =~= seq!['c']);
        assert("d"@ =~= seq!['d']);
        assert("e"@ =~= seq!['e']);
        assert("f"@ =~= seq!['f']);
    }
    if n == 0 {
        "0"
    } else if n == 1 {
        "1"
    } else if n == 2 {
        "2"
    } else if n == 3 {
        "3"
    } else if n == 4 {
        "4"
    } else if n == 5 {
        "5"
    } else if n == 6 {
        "6"
    } else if n == 7 {
        "7"
    } else if n == 8 {
        "8"
    } else if n == 9 {
        "9"
    } else if n == 10 {
        "a"
    } else if n == 11 {
        "b"
    } else if n == 12 {
        "c"
    } else if n == 13 {
        "d"
    } else if n == 14 {
        "e"
    } else {
        "f"
    }
}

/// Append the two hex digits of `b`.
fn append_hex2(s: &mut String, b: u8)
    ensures
        final(s)@ == old(s)@ + spec_hex2(b),
{
    proof {
        assert(b >> 4 < 16 && b & 0xf < 16) by (bit_vector);
    }
    s.append(hex_str(b >> 4));
    s.append(hex_str(b & 0xf));
    proof {
        assert(old(s)@ + seq![spec_hex_digit(b >> 4)] + seq![spec_hex_digit(b & 0xf)] =~= old(
            s,
        )@ + spec_hex2(b));
    }
}

impl Instr {
    /// The characters of [`Instr::mnemonic`]: the lowercase mnemonic, then
    /// each operand byte as two lowercase hex digits.
    pub open spec fn mnemonic_spec(self) -> Seq<char> {
        match self {
            Instr::Idl => "idl"@,
            Instr::Ldn(n) => "ldn "@ + spec_hex2(n),
            Instr::Inc(n) => "inc "@ + spec_hex2(n),
            Instr::Dec(n) => "dec "@ + spec_hex2(n),
            Instr::Br(n) => "br "@ + spec_hex2(n),
            Instr::Bq(n) => "bq "@ + spec_hex2(n),
            Instr::Bz(n) => "bz "@ + spec_hex2(n),
            Instr::Bdf(n) => "bdf "@ + spec_hex2(n),
            Instr::B1(n) => "b1 "@ + spec_hex2(n),
            Instr::B2(n) => "b2 "@ + spec_hex2(n),
            Instr::B3(n) => "b3 "@ + spec_hex2(n),
            Instr::B4(n) => "b4 "@ + spec_hex2(n),
            Instr::Skp => "skp"@,
            Instr::Bnq(n) => "bnq "@ + spec_hex2(n),
            Instr::Bnz(n) => "bnz "@ + spec_hex2(n),
            Instr::Bnf(n) => "bnf "@ + spec_hex2(n),
            Instr::Bn1(n) => "bn1 "@ + spec_hex2(n),
            Instr::Bn2(n) => "bn2 "@ + spec_hex2(n),
            Instr::Bn3(n) => "bn3 "@ + spec_hex2(n),
            Instr::Bn4(n) => "bn4 "@ + spec_hex2(n),
            Instr::Lda(n) => "lda "@ + spec_hex2(n),
            Instr::Str(n) => "str "@ + spec_hex2(n),
            Instr::Irx => "irx"@,
            Instr::Out(n) => "out "@ + spec_hex2(n),
            Instr::Resv68 => "resv68"@,
            Instr::Inp(n) => "inp "@ + spec_hex2(n),
            Instr::Ret => "ret"@,
            Instr::Dis => "dis"@,
            Instr::Ldxa => "ldxa"@,
            Instr::Stxd => "stxd"@,
            Instr::Adc => "adc"@,
            Instr::Sdb => "sdb"@,
            Instr::Shrc => "shrc"@,
            Instr::Smb => "smb"@,
            Instr::Sav => "sav"@,
            Instr::Mark => "mark"@,
            Instr::ResetQ => "req"@,
            Instr::SetQ => "seq"@,
            Instr::Adci(n) => "adci "@ + spec_hex2(n),
            Instr::Sdbi(n) => "sdbi "@ + spec_hex2(n),
            Instr::Shlc => "shlc"@,
            Instr::Smbi(n) => "smbi "@ + spec_hex2(n),
            Instr::Glo(n) => "glo "@ + spec_hex2(n),
            Instr::Ghi(n) => "ghi "@ + spec_hex2(n),
            Instr::Plo(n) => "plo "@ + spec_hex2(n),
            Instr::Phi(n) => "phi "@ + spec_hex2(n),
            Instr::Lbr(hh, ll) => "lbr "@ + spec_hex2(hh) + " "@ + spec_hex2(ll),
            Instr::Lbq(hh, ll) => "lbq "@ + spec_hex2(hh) + " "@ + spec_hex2(ll),
            Instr::Lbz(hh, ll) => "lbz "@ + spec_hex2(hh) + " "@ + spec_hex2(ll),
            Instr::Lbdf(hh, ll) => "lbdf "@ + spec_hex2(hh) + " "@ + spec_hex2(ll),
            Instr::Nop => "nop"@,
            Instr::Lsnq => "lsnq"@,
            Instr::Lsnz => "lsnz"@,
            Instr::Lsnf => "lsnf"@,
            Instr::Lskp => "lskp"@,
            Instr::Lbnq(hh, ll) => "lbnq "@ + spec_hex2(hh) + " "@ + spec_hex2(ll),
            Instr::Lbnz(hh, ll) => "lbnz "@ + spec_hex2(hh) + " "@ + spec_hex2(ll),
            Instr::Lbnf(hh, ll) => "lbnf "@ + spec_hex2(hh) + " "@ + spec_hex2(ll),
            Instr::Lsie => "lsie"@,
            Instr::Lsq => "lsq"@,
            Instr::Lsz => "lsz"@,
            Instr::Lsdf => "lsdf"@,
            Instr::Sep(n) => "sep "@ + spec_hex2(n),
            Instr::Sex(n) => "sex "@ + spec_hex2(n),
            Instr::Ldx => "ldx"@,
            Instr::Or => "or"@,
            Instr::And => "and"@,
            Instr::Xor => "xor"@,
            Instr::Add => "add"@,
            Instr::Sd => "sd"@,
            Instr::Shr => "shr"@,
            Instr::Sm => "sm"@,
            Instr::Ldi(n) => "ldi "@ + spec_hex2(n),
            Instr::Ori(n) => "ori "@ + spec_hex2(n),
            Instr::Ani(n) => "ani "@ + spec_hex2(n),
            Instr::Xri(n) => "xri "@ + spec_hex2(n),
            Instr::Adi(n) => "adi "@ + spec_hex2(n),
            Instr::Sdi(n) => "sdi "@ + spec_hex2(n),
            Instr::Shl => "shl"@,
            Instr::Smi(n) => "smi "@ + spec_hex2(n),
        }
    }

    /// The instruction rendered for a listing: its lowercase mnemonic with
    /// operand bytes in hex, such as `ldi f0` or `lbr 12 34`.
    pub fn mnemonic(&self) -> (r: String)
        ensures
            r@ == self.mnemonic_spec(),
    {
        match *self {
            Instr::Idl => String::from_str("idl"),
            Instr::Ldn(n) => {
                let mut s = String::from_str("ldn ");
                append_hex2(&mut s, n);
                s
            },
            Instr::Inc(n) => {
                let mut s = String::from_str("inc ");
                append_hex2(&mut s, n);
                s
            },
            Instr::Dec(n) => {
                let mut s = String::from_str("dec ");
                append_hex2(&mut s, n);
                s
            },
            Instr::Br(n) => {
                let mut s = String::from_str("br ");
                append_hex2(&mut s, n);
                s
            },
            Instr::Bq(n) => {
                let mut s = String::from_str("bq ");
                append_hex2(&mut s, n);
                s
            },
            Instr::Bz(n) => {
                let mut s = String::from_str("bz ");
                append_hex2(&mut s, n);
                s
            },
            Instr::Bdf(n) => {
                let mut s = String::from_str("bdf ");
                append_hex2(&mut s, n);
                s
            },
            Instr::B1(n) => {
                let mut s = String::from_str("b1 ");
                append_hex2(&mut s, n);
                s
            },
            Instr::B2(n) => {
                let mut s = String::from_str("b2 ");
                append_hex2(&mut s, n);
                s
            },
            Instr::B3(n) => {
                let mut s = String::from_str("b3 ");
                append_hex2(&mut s, n);
                s
            },
            Instr::B4(n) => {
                let mut s = String::from_str("b4 ");
                append_hex2(&mut s, n);
                s
            },
            Instr::Skp => String::from_str("skp"),
            Instr::Bnq(n) => {
                let mut s = String::from_str("bnq ");
                append_hex2(&mut s, n);
                s
            },
            Instr::Bnz(n) => {
                let mut s = String::from_str("bnz ");
                append_hex2(&mut s, n);
                s
            },
            Instr::Bnf(n) => {
                let mut s = String::from_str("bnf ");
                append_hex2(&mut s, n);
                s
            },
            Instr::Bn1(n) => {
                let mut s = String::from_str("bn1 ");
                append_hex2(&mut s, n);
                s
            },
            Instr::Bn2(n) => {
                let mut s = String::from_str("bn2 ");
                append_hex2(&mut s, n);
                s
            },
            Instr::Bn3(n) => {
                let mut s = String::from_str("bn3 ");
                append_hex2(&mut s, n);
                s
            },
            Instr::Bn4(n) => {
                let mut s = String::from_str("bn4 ");
                append_hex2(&mut s, n);
                s
            },
            Instr::Lda(n) => {
                let mut s = String::from_str("lda ");
                append_hex2(&mut s, n);
                s
            },
            Instr::Str(n) => {
                let mut s = String::from_str("str ");
                append_hex2(&mut s, n);
                s
            },
            Instr::Irx => String::from_str("irx"),
            Instr::Out(n) => {
                let mut s = String::from_str("out ");
                append_hex2(&mut s, n);
                s
            },
            Instr::Resv68 => String::from_str("resv68"),
            Instr::Inp(n) => {
                let mut s = String::from_str("inp ");
                append_hex2(&mut s, n);
                s
            },
            Instr::Ret => String::from_str("ret"),
            Instr::Dis => String::from_str("dis"),
            Instr::Ldxa => String::from_str("ldxa"),
            Instr::Stxd => String::from_str("stxd"),
            Instr::Adc => String::from_str("adc"),
            Instr::Sdb => String::from_str("sdb"),
            Instr::Shrc => String::from_str("shrc"),
            Instr::Smb => String::from_str("smb"),
            Instr::Sav => String::from_str("sav"),
            Instr::Mark => String::from_str("mark"),
            Instr::ResetQ => String::from_str("req"),
            Instr::SetQ => String::from_str("seq"),
            Instr::Adci(n) => {
                let mut s = String::from_str("adci ");
                append_hex2(&mut s, n);
                s
            },
            Instr::Sdbi(n) => {
                let mut s = String::from_str("sdbi ");
                append_hex2(&mut s, n);
                s
            },
            Instr::Shlc => String::from_str("shlc"),
            Instr::Smbi(n) => {
                let mut s = String::from_str("smbi ");
                append_hex2(&mut s, n);
                s
            },
            Instr::Glo(n) => {
                let mut s = String::from_str("glo ");
                append_hex2(&mut s, n);
                s
            },
            Instr::Ghi(n) => {
                let mut s = String::from_str("ghi ");
                append_hex2(&mut s, n);
                s
            },
            Instr::Plo(n) => {
                let mut s = String::from_str("plo ");
                append_hex2(&mut s, n);
                s
            },
            Instr::Phi(n) => {
                let mut s = String::from_str("phi ");
                append_hex2(&mut s, n);
                s
            },
            Instr::Lbr(hh, ll) => {
                let mut s = String::from_str("lbr ");
                append_hex2(&mut s, hh);
                s.append(" ");
                append_hex2(&mut s, ll);
                s
            },
            Instr::Lbq(hh, ll) => {
                let mut s = String::from_str("lbq ");
                append_hex2(&mut s, hh);
                s.append(" ");
                append_hex2(&mut s, ll);
                s
            },
            Instr::Lbz(hh, ll) => {
                let mut s = String::from_str("lbz ");
                append_hex2(&mut s, hh);
                s.append(" ");
                append_hex2(&mut s, ll);
                s
            },
            Instr::Lbdf(hh, ll) => {
                let mut s = String::from_str("lbdf ");
                append_hex2(&mut s, hh);
                s.append(" ");
                append_hex2(&mut s, ll);
                s
            },
            Instr::Nop => String::from_str("nop"),
            Instr::Lsnq => String::from_str("lsnq"),
            Instr::Lsnz => String::from_str("lsnz"),
            Instr::Lsnf => String::from_str("lsnf"),
            Instr::Lskp => String::from_str("lskp"),
            Instr::Lbnq(hh, ll) => {
                let mut s = String::from_str("lbnq ");
                append_hex2(&mut s, hh);
                s.append(" ");
                append_hex2(&mut s, ll);
                s
            },
            Instr::Lbnz(hh, ll) => {
                let mut s = String::from_str("lbnz ");
                append_hex2(&mut s, hh);
                s.append(" ");
                append_hex2(&mut s, ll);
                s
            },
            Instr::Lbnf(hh, ll) => {
                let mut s = String::from_str("lbnf ");
                append_hex2(&mut s, hh);
                s.append(" ");
                append_hex2(&mut s, ll);
                s
            },
            Instr::Lsie => String::from_str("lsie"),
            Instr::Lsq => String::from_str("lsq"),
            Instr::Lsz => String::from_str("lsz"),
            Instr::Lsdf => String::from_str("lsdf"),
            Instr::Sep(n) => {
                let mut s = String::from_str("sep ");
                append_hex2(&mut s, n);
                s
            },
            Instr::Sex(n) => {
                let mut s = String::from_str("sex ");
                append_hex2(&mut s, n);
                s
            },
            Instr::Ldx => String::from_str("ldx"),
            Instr::Or => String::from_str("or"),
            Instr::And => String::from_str("and"),
            Instr::Xor => String::from_str("xor"),
            Instr::Add => String::from_str("add"),
            Instr::Sd => String::from_str("sd"),
            Instr::Shr => String::from_str("shr"),
            Instr::Sm => String::from_str("sm"),
            Instr::Ldi(n) => {
                let mut s = String::from_str("ldi ");
                append_hex2(&mut s, n);
                s
            },
            Instr::Ori(n) => {
                let mut s = String::from_str("ori ");
                append_hex2(&mut s, n);
                s
            },
            Instr::Ani(n) => {
                let mut s = String::from_str("ani ");
                append_hex2(&mut s, n);
                s
            },
            Instr::Xri(n) => {
                let mut s = String::from_str("xri ");
                append_hex2(&mut s, n);
                s
            },
            Instr::Adi(n) => {
                let mut s = String::from_str("adi ");
                append_hex2(&mut s, n);
                s
            },
            Instr::Sdi(n) => {
                let mut s = String::from_str("sdi ");
                append_hex2(&mut s, n);
                s
            },
            Instr::Shl => String::from_str("shl"),
            Instr::Smi(n) => {
                let mut s = String::from_str("smi ");
                append_hex2(&mut s, n);
                s
            },
        }
    }
}

} // verus!
