use spectral::{
    operand_address, operand_offset, operand_size, AmxCtx, AmxHandle, BitOffset, MemSize, Opcode,
    RegIndex, RegSet,
};

#[test]
fn reg_index_bounds() {
    assert!(RegIndex::new(RegSet::X, 0).is_some());
    assert!(RegIndex::new(RegSet::X, 7).is_some());
    assert!(RegIndex::new(RegSet::X, 8).is_none());
    assert!(RegIndex::new(RegSet::Y, 7).is_some());
    assert!(RegIndex::new(RegSet::Y, 8).is_none());
    assert!(RegIndex::new(RegSet::Z, 63).is_some());
    assert!(RegIndex::new(RegSet::Z, 64).is_none());
    assert!(RegIndex::new(RegSet::Z, u64::MAX).is_none());
    let i = RegIndex::new(RegSet::Y, 5).unwrap();
    assert_eq!(i.set(), RegSet::Y);
    assert_eq!(i.row(), 5);
}

#[test]
fn bit_offset_bounds() {
    assert!(BitOffset::new(RegSet::X, 511).is_some());
    assert!(BitOffset::new(RegSet::X, 512).is_none());
    assert!(BitOffset::new(RegSet::Y, 512).is_none());
    assert!(BitOffset::new(RegSet::Z, 4095).is_some());
    assert!(BitOffset::new(RegSet::Z, 4096).is_none());
    let o = BitOffset::new(RegSet::Z, 4000).unwrap();
    assert_eq!(o.set(), RegSet::Z);
    assert_eq!(o.value(), 4000);
}

#[test]
fn reg_set_numbers_and_sizes() {
    assert_eq!(RegSet::from_u8(0), RegSet::X);
    assert_eq!(RegSet::from_u8(1), RegSet::Y);
    assert_eq!(RegSet::from_u8(2), RegSet::Z);
    assert_eq!(RegSet::X.rows(), 8);
    assert_eq!(RegSet::Z.rows(), 64);
    assert_eq!(RegSet::Y.byte_len(), 512);
    assert_eq!(RegSet::Z.byte_len(), 4096);
    assert_eq!(RegSet::X.load_op(), Opcode::Ldx);
    assert_eq!(RegSet::Z.store_op(), Opcode::Stz);
}

#[test]
fn every_index_round_trips_through_row_transfers() {
    let mut ctx = AmxCtx::new(true);
    let mut h = AmxHandle::get(&mut ctx).unwrap();
    for set in [RegSet::X, RegSet::Y, RegSet::Z] {
        for row in 0..set.rows() as u64 {
            let idx = RegIndex::new(set, row).unwrap();
            let data: Vec<u8> = (0..64).map(|k| (k as u8) ^ (row as u8)).collect();
            h.set_vector(&mut ctx, idx, &data);
            let load = *ctx.log().last().unwrap();
            assert_eq!(load.op(), set.load_op());
            assert_eq!(operand_offset(load.operand()), row);
            assert_eq!(operand_size(load.operand()), Some(MemSize::Bytes64));
            assert_eq!(operand_address(load.operand()), 0);
            let back = h.get_vector(&mut ctx, idx);
            let store = *ctx.log().last().unwrap();
            assert_eq!(store.op(), set.store_op());
            assert_eq!(operand_offset(store.operand()), row);
            assert_eq!(back.to_vec(), data);
        }
    }
    h.release(&mut ctx);
}
