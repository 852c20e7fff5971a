use spectral::{
    fmt_offset, fmt_offset_ptr, operand_address, operand_offset, operand_size, AmxCtx, AmxHandle,
    MemSize, Opcode,
};

#[test]
fn fmt_offset_places_offset_and_size() {
    assert_eq!(fmt_offset(5, MemSize::Bytes64), 5u64 << 56);
    assert_eq!(fmt_offset(0, MemSize::Bytes64), 0);
    assert_eq!(fmt_offset(63, MemSize::Bytes128), (63u64 << 56) | (1u64 << 62));
    assert_eq!(fmt_offset(1, MemSize::Bytes128), 0x4100_0000_0000_0000);
}

#[test]
fn fmt_offset_ptr_keeps_low_56_address_bits() {
    assert_eq!(
        fmt_offset_ptr(1, MemSize::Bytes64, u64::MAX),
        0x01FF_FFFF_FFFF_FFFF
    );
    assert_eq!(
        fmt_offset_ptr(2, MemSize::Bytes128, 0xAB00_0000_0000_1234),
        0x4200_0000_0000_1234
    );
}

#[test]
fn operand_decodes_back_for_every_offset() {
    let addrs = [0u64, 64, 0x1234_5678_9ABC, 0x00FF_FFFF_FFFF_FFFF, u64::MAX];
    for offset in 0..64u64 {
        for size in [MemSize::Bytes64, MemSize::Bytes128] {
            for addr in addrs {
                let w = fmt_offset_ptr(offset, size, addr);
                assert_eq!(operand_offset(w), offset);
                assert_eq!(operand_size(w), Some(size));
                assert_eq!(operand_address(w), addr & 0x00FF_FFFF_FFFF_FFFF);
            }
            let w = fmt_offset(offset, size);
            assert_eq!(operand_offset(w), offset);
            assert_eq!(operand_size(w), Some(size));
            assert_eq!(operand_address(w), 0);
        }
    }
}

#[test]
fn operand_size_rejects_unknown_tags() {
    assert_eq!(operand_size(2u64 << 62), None);
    assert_eq!(operand_size(3u64 << 62), None);
    assert_eq!(operand_size(1u64 << 62), Some(MemSize::Bytes128));
}

#[test]
fn opcode_numbers() {
    assert_eq!(Opcode::Ldx.code(), 0);
    assert_eq!(Opcode::Ldy.code(), 1);
    assert_eq!(Opcode::Stx.code(), 2);
    assert_eq!(Opcode::Sty.code(), 3);
    assert_eq!(Opcode::Ldz.code(), 4);
    assert_eq!(Opcode::Stz.code(), 5);
    assert_eq!(Opcode::Ldzi.code(), 6);
    assert_eq!(Opcode::Stzi.code(), 7);
    assert_eq!(Opcode::Mac16.code(), 14);
    assert_eq!(Opcode::Fma16.code(), 15);
    assert_eq!(Opcode::Config.code(), 17);
    assert_eq!(Opcode::Matint.code(), 20);
    assert_eq!(Opcode::Matfp.code(), 21);
    assert_eq!(Opcode::Genlut.code(), 22);
}

#[test]
fn configuration_instructions_as_immediate_words() {
    let mut ctx = AmxCtx::new(true);
    let h = AmxHandle::get(&mut ctx).unwrap();
    h.release(&mut ctx);
    let log = ctx.log();
    assert_eq!(log.len(), 2);
    assert_eq!(log[0].op(), Opcode::Config);
    assert_eq!(log[0].operand(), 0);
    assert_eq!(log[0].immediate_word(), 0x0020_1220);
    assert_eq!(log[1].op(), Opcode::Config);
    assert_eq!(log[1].operand(), 1);
    assert_eq!(log[1].immediate_word(), 0x0020_1221);
}
