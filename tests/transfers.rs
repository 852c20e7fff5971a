use spectral::{
    operand_address, operand_offset, AmxCtx, AmxHandle, BitOffset, ElemKind, Opcode, RegIndex,
    RegSet,
};

fn pattern(n: usize, seed: u8) -> Vec<u8> {
    (0..n).map(|i| (i as u8).wrapping_mul(31).wrapping_add(seed)).collect()
}

#[test]
fn write_bank_then_read_bank_returns_the_same_bytes() {
    let mut ctx = AmxCtx::new(true);
    let mut h = AmxHandle::get(&mut ctx).unwrap();
    let x = pattern(512, 1);
    let y = pattern(512, 2);
    let z = pattern(4096, 3);
    h.set_matrix(&mut ctx, RegSet::X, &x);
    h.set_matrix(&mut ctx, RegSet::Y, &y);
    h.set_matrix(&mut ctx, RegSet::Z, &z);
    assert_eq!(h.get_matrix_512(&mut ctx, RegSet::X).to_vec(), x);
    assert_eq!(h.get_matrix_512(&mut ctx, RegSet::Y).to_vec(), y);
    assert_eq!(h.get_matrix_4096(&mut ctx).to_vec(), z);
    h.release(&mut ctx);
}

#[test]
fn fill_small_bank_row_by_row_then_read_it_whole() {
    let mut ctx = AmxCtx::new(true);
    let mut h = AmxHandle::get(&mut ctx).unwrap();
    let row = [0xAAu8; 64];
    for i in 0..8 {
        h.set_vector(&mut ctx, RegIndex::new(RegSet::X, i).unwrap(), &row);
    }
    let bank = h.get_matrix_512(&mut ctx, RegSet::X);
    assert_eq!(bank.len(), 512);
    assert!(bank.iter().all(|&b| b == 0xAA));
    h.release(&mut ctx);
    assert!(!ctx.is_enabled());
}

#[test]
fn fresh_banks_hold_zeros() {
    let mut ctx = AmxCtx::new(true);
    let mut h = AmxHandle::get(&mut ctx).unwrap();
    assert!(h.get_matrix_512(&mut ctx, RegSet::Y).iter().all(|&b| b == 0));
    assert!(h.get_matrix_4096(&mut ctx).iter().all(|&b| b == 0));
    h.release(&mut ctx);
}

#[test]
fn writing_a_row_leaves_the_others() {
    let mut ctx = AmxCtx::new(true);
    let mut h = AmxHandle::get(&mut ctx).unwrap();
    let z = pattern(4096, 9);
    h.set_matrix(&mut ctx, RegSet::Z, &z);
    let row = [0x5Au8; 64];
    h.set_vector(&mut ctx, RegIndex::new(RegSet::Z, 63).unwrap(), &row);
    let back = h.get_matrix_4096(&mut ctx);
    assert_eq!(&back[..4032], &z[..4032]);
    assert!(back[4032..].iter().all(|&b| b == 0x5A));
    assert_eq!(h.get_vector(&mut ctx, RegIndex::new(RegSet::Z, 62).unwrap()).to_vec(), z[3968..4032].to_vec());
    h.release(&mut ctx);
}

#[test]
fn whole_bank_transfers_log_one_instruction_per_row() {
    let mut ctx = AmxCtx::new(true);
    let mut h = AmxHandle::get(&mut ctx).unwrap();
    h.set_matrix(&mut ctx, RegSet::Y, &pattern(512, 4));
    assert_eq!(ctx.log().len(), 1 + 8);
    for i in 0..8 {
        let ins = ctx.log()[1 + i];
        assert_eq!(ins.op(), Opcode::Ldy);
        assert_eq!(operand_offset(ins.operand()), i as u64);
        assert_eq!(operand_address(ins.operand()), 64 * i as u64);
    }
    let _ = h.get_matrix_4096(&mut ctx);
    assert_eq!(ctx.log().len(), 1 + 8 + 64);
    for i in 0..64 {
        let ins = ctx.log()[9 + i];
        assert_eq!(ins.op(), Opcode::Stz);
        assert_eq!(operand_offset(ins.operand()), i as u64);
        assert_eq!(operand_address(ins.operand()), 64 * i as u64);
    }
    h.release(&mut ctx);
}

#[test]
fn matrix_multiplies_log_their_opcodes() {
    let mut ctx = AmxCtx::new(true);
    let mut h = AmxHandle::get(&mut ctx).unwrap();
    let x = pattern(512, 5);
    h.set_matrix(&mut ctx, RegSet::X, &x);
    let before = ctx.log().len();
    h.matrix_mul_f16(&mut ctx);
    h.matrix_mul_i16(&mut ctx);
    h.matrix_mul_add_f16(&mut ctx);
    h.matrix_mul_add_i16(&mut ctx);
    let log = ctx.log();
    assert_eq!(log.len(), before + 4);
    assert_eq!((log[before].op(), log[before].operand()), (Opcode::Matfp, 0));
    assert_eq!((log[before + 1].op(), log[before + 1].operand()), (Opcode::Matint, 0));
    assert_eq!((log[before + 2].op(), log[before + 2].operand()), (Opcode::Fma16, 0));
    assert_eq!((log[before + 3].op(), log[before + 3].operand()), (Opcode::Mac16, 0));
    assert_eq!(h.get_matrix_512(&mut ctx, RegSet::X).to_vec(), x);
    h.release(&mut ctx);
}

#[test]
fn outer_product_operands() {
    let mut ctx = AmxCtx::new(true);
    let mut h = AmxHandle::get(&mut ctx).unwrap();
    let z3 = RegIndex::new(RegSet::Z, 3).unwrap();
    h.outer_product(&mut ctx, ElemKind::F16, BitOffset::new(RegSet::X, 64), None, z3, false);
    let ins = *ctx.log().last().unwrap();
    assert_eq!(ins.op(), Opcode::Fma16);
    assert_eq!(ins.operand(), 0x1831_0000);
    let z63 = RegIndex::new(RegSet::Z, 63).unwrap();
    h.outer_product(
        &mut ctx,
        ElemKind::I16,
        BitOffset::new(RegSet::X, 511),
        BitOffset::new(RegSet::Y, 128),
        z63,
        true,
    );
    let ins = *ctx.log().last().unwrap();
    assert_eq!(ins.op(), Opcode::Mac16);
    assert_eq!(ins.operand(), 128 + 511 * 1024 + 63 * 0x10_0000);
    h.outer_product(&mut ctx, ElemKind::F16, None, None, z3, true);
    let ins = *ctx.log().last().unwrap();
    assert_eq!(ins.operand(), 0x3000_0000 + 3 * 0x10_0000);
    h.release(&mut ctx);
}

#[test]
fn interleaved_transfers_log_their_opcodes() {
    let mut ctx = AmxCtx::new(true);
    let mut h = AmxHandle::get(&mut ctx).unwrap();
    let idx = RegIndex::new(RegSet::Z, 17).unwrap();
    h.load512_z_interleaved(&mut ctx, idx, &[1u8; 64]);
    let ins = *ctx.log().last().unwrap();
    assert_eq!(ins.op(), Opcode::Ldzi);
    assert_eq!(operand_offset(ins.operand()), 17);
    let mut buf = [7u8; 64];
    h.store512_z_interleaved(&mut ctx, idx, &mut buf);
    let ins = *ctx.log().last().unwrap();
    assert_eq!(ins.op(), Opcode::Stzi);
    assert_eq!(operand_offset(ins.operand()), 17);
    assert_eq!(ctx.log().len(), 3);
    h.release(&mut ctx);
}
