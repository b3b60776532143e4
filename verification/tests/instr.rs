use cosmac::instr::Instr;

#[test]
fn test_out_inp() {
    assert!(matches!(Instr::decode(&[0x60]), Some(Instr::Irx)));
    assert!(matches!(Instr::decode(&[0x61]), Some(Instr::Out(1))));
    assert!(matches!(Instr::decode(&[0x67]), Some(Instr::Out(7))));
    assert!(matches!(Instr::decode(&[0x68]), Some(Instr::Resv68)));
    assert!(matches!(Instr::decode(&[0x69]), Some(Instr::Inp(1))));
    assert!(matches!(Instr::decode(&[0x6f]), Some(Instr::Inp(7))));
}

#[test]
fn test_decode_encode_roundtrip_samples() {
    let samples = [
        Instr::Idl,
        Instr::Ldn(3),
        Instr::Inc(0xf),
        Instr::Dec(1),
        Instr::Br(0x55),
        Instr::B3(0xaa),
        Instr::Skp,
        Instr::Bn4(0x01),
        Instr::Lda(9),
        Instr::Str(2),
        Instr::Irx,
        Instr::Out(7),
        Instr::Resv68,
        Instr::Inp(1),
        Instr::Ret,
        Instr::Dis,
        Instr::Ldxa,
        Instr::Stxd,
        Instr::Adc,
        Instr::Sdb,
        Instr::Shrc,
        Instr::Smb,
        Instr::Sav,
        Instr::Mark,
        Instr::ResetQ,
        Instr::SetQ,
        Instr::Adci(0x10),
        Instr::Sdbi(0x20),
        Instr::Shlc,
        Instr::Smbi(0x30),
        Instr::Glo(4),
        Instr::Ghi(5),
        Instr::Plo(6),
        Instr::Phi(7),
        Instr::Lbr(0x12, 0x34),
        Instr::Lbnf(0xfe, 0xdc),
        Instr::Nop,
        Instr::Lsie,
        Instr::Sep(0xd),
        Instr::Sex(0xe),
        Instr::Ldx,
        Instr::Or,
        Instr::And,
        Instr::Xor,
        Instr::Add,
        Instr::Sd,
        Instr::Shr,
        Instr::Sm,
        Instr::Ldi(0xf0),
        Instr::Ori(0x0f),
        Instr::Adi(0x01),
        Instr::Sdi(0x02),
        Instr::Shl,
        Instr::Smi(0x03),
    ];
    for instr in samples {
        let bytes = instr.encode();
        assert_eq!(bytes.len() as u8, instr.size());
        assert_eq!(Instr::decode(&bytes), Some(instr));
        assert_eq!(instr.opcode(), bytes[0]);
    }
}

#[test]
fn test_decode_short_input() {
    assert_eq!(Instr::decode(&[]), None);
    assert_eq!(Instr::decode(&[0x30]), None);
    assert_eq!(Instr::decode(&[0xc0]), None);
    assert_eq!(Instr::decode(&[0xc0, 0x01]), None);
    assert_eq!(Instr::decode(&[0xf8]), None);
}

#[test]
fn test_decode_idl_not_ldn0() {
    // 0x00 is IDL; LDN of register 0 does not exist.
    assert!(matches!(Instr::decode(&[0x00]), Some(Instr::Idl)));
}

#[test]
fn test_mnemonic() {
    assert_eq!(Instr::Idl.mnemonic(), "idl");
    assert_eq!(Instr::Ldi(0xf0).mnemonic(), "ldi f0");
    assert_eq!(Instr::Lbr(0x12, 0x34).mnemonic(), "lbr 12 34");
    assert_eq!(Instr::Inc(0xc).mnemonic(), "inc 0c");
    assert_eq!(Instr::ResetQ.mnemonic(), "req");
    assert_eq!(Instr::SetQ.mnemonic(), "seq");
    assert_eq!(Instr::Out(7).mnemonic(), "out 07");
    assert_eq!(Instr::Resv68.mnemonic(), "resv68");
}
