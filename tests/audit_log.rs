use launch_pool::address::Address;
use launch_pool::audit::{
    declare_champion, initialize_chant, record_cell, record_idea, record_tier_result,
    record_vote, sum_points, update_phase, Allocation, AuditError, Cell, Champion, Chant, Idea,
    Phase, TierResult, VoteRecord, XpEntry,
};

fn addr(n: u8) -> Address {
    Address::new([n; 32])
}

fn chant() -> Chant {
    initialize_chant(addr(1), "c1".to_string(), "Which?".to_string(), 5, true, 100).unwrap()
}

fn points(idea_index: u16, points: u8) -> Allocation {
    Allocation { idea_index, points }
}

#[test]
fn chant_starts_in_submission() {
    let c = chant();
    assert_eq!(c.phase, 0);
    assert_eq!(c.idea_count, 0);
    assert_eq!(c.cell_count, 0);
    assert_eq!(c.created_at, 100);
    assert_eq!(c.cell_size, 5);
    assert!(c.continuous_flow);
}

#[test]
fn chant_validation() {
    let long_id = "x".repeat(33);
    assert_eq!(initialize_chant(addr(1), long_id, "q".to_string(), 5, false, 0).unwrap_err(), AuditError::StringTooLong);
    let long_q = "q".repeat(501);
    assert_eq!(initialize_chant(addr(1), "c".to_string(), long_q, 5, false, 0).unwrap_err(), AuditError::StringTooLong);
    assert_eq!(initialize_chant(addr(1), "c".to_string(), "q".to_string(), 2, false, 0).unwrap_err(), AuditError::InvalidCellSize);
    assert_eq!(initialize_chant(addr(1), "c".to_string(), "q".to_string(), 8, false, 0).unwrap_err(), AuditError::InvalidCellSize);
    assert!(initialize_chant(addr(1), "x".repeat(32), "q".repeat(500), 3, false, 0).is_ok());
    assert!(initialize_chant(addr(1), "c".to_string(), "q".to_string(), 7, false, 0).is_ok());
}

#[test]
fn ideas_are_numbered_in_order() {
    let mut c = chant();
    let i0 = record_idea(&mut c, addr(9), addr(1), 0, "first".to_string(), "ann".to_string(), 5).unwrap();
    assert_eq!(i0.index, 0);
    assert_eq!(i0.status, 0);
    assert_eq!(c.idea_count, 1);
    assert_eq!(record_idea(&mut c, addr(9), addr(1), 0, "again".to_string(), "ann".to_string(), 5).unwrap_err(), AuditError::IndexMismatch);
    assert_eq!(record_idea(&mut c, addr(9), addr(2), 1, "t".to_string(), "a".to_string(), 5).unwrap_err(), AuditError::Unauthorized);
    assert_eq!(record_idea(&mut c, addr(9), addr(1), 1, "t".repeat(1001), "a".to_string(), 5).unwrap_err(), AuditError::StringTooLong);
    assert_eq!(c.idea_count, 1);
    let i1 = record_idea(&mut c, addr(9), addr(1), 1, "second".to_string(), "bo".to_string(), 6).unwrap();
    assert_eq!(i1.text, "second");
    assert_eq!(c.idea_count, 2);
}

#[test]
fn cells_are_numbered_and_bounded() {
    let mut c = chant();
    let cell = record_cell(&mut c, addr(9), addr(1), 0, 1, 0, vec![0, 1, 2], 7).unwrap();
    assert_eq!(cell.idea_indices, vec![0, 1, 2]);
    assert_eq!(cell.voter_count, 0);
    assert_eq!(c.cell_count, 1);
    assert_eq!(record_cell(&mut c, addr(9), addr(1), 1, 1, 0, vec![0; 11], 7).unwrap_err(), AuditError::TooManyItems);
    assert_eq!(record_cell(&mut c, addr(9), addr(1), 5, 1, 0, vec![], 7).unwrap_err(), AuditError::IndexMismatch);
}

#[test]
fn votes_must_hand_out_ten_points() {
    let c = chant();
    let mut c2 = c.clone();
    let mut cell: Cell = record_cell(&mut c2, addr(9), addr(1), 0, 1, 0, vec![0, 1], 7).unwrap();
    assert_eq!(sum_points(&vec![points(0, 6), points(1, 4)]), 10);
    let v: VoteRecord = record_vote(&c, &mut cell, addr(8), addr(1), "v1".to_string(), vec![points(0, 6), points(1, 4)], 9).unwrap();
    assert_eq!(v.allocations.len(), 2);
    assert_eq!(cell.voter_count, 1);
    assert_eq!(record_vote(&c, &mut cell, addr(8), addr(1), "v2".to_string(), vec![points(0, 6), points(1, 5)], 9).unwrap_err(), AuditError::InvalidPointTotal);
    assert_eq!(record_vote(&c, &mut cell, addr(8), addr(1), "v2".to_string(), vec![points(0, 1); 11], 9).unwrap_err(), AuditError::TooManyItems);
    assert_eq!(record_vote(&c, &mut cell, addr(8), addr(3), "v2".to_string(), vec![points(0, 10)], 9).unwrap_err(), AuditError::Unauthorized);
    assert_eq!(record_vote(&c, &mut cell, addr(8), addr(1), "v".repeat(33), vec![points(0, 10)], 9).unwrap_err(), AuditError::StringTooLong);
    assert_eq!(record_vote(&c, &mut cell, addr(8), addr(1), "v3".to_string(), vec![points(0, 255), points(1, 11)], 9).unwrap_err(), AuditError::InvalidPointTotal);
    assert_eq!(cell.voter_count, 1);
}

#[test]
fn tier_result_moves_tier() {
    let mut c = chant();
    let t: TierResult = record_tier_result(&mut c, addr(9), addr(1), 2, vec![3, 4], vec![XpEntry { idea_index: 3, total_xp: 40 }], 11).unwrap();
    assert_eq!(t.tier, 2);
    assert_eq!(c.current_tier, 2);
    assert_eq!(record_tier_result(&mut c, addr(9), addr(1), 3, vec![0; 201], vec![], 11).unwrap_err(), AuditError::TooManyItems);
    assert_eq!(c.current_tier, 2);
}

#[test]
fn champion_completes_chant() {
    let mut c = chant();
    assert_eq!(declare_champion(&mut c, addr(9), addr(1), 0, [1u8; 32], 3, 20, 12).unwrap_err(), AuditError::IndexMismatch);
    record_idea(&mut c, addr(9), addr(1), 0, "idea".to_string(), "a".to_string(), 5).unwrap();
    let ch: Champion = declare_champion(&mut c, addr(9), addr(1), 0, [1u8; 32], 3, 20, 12).unwrap();
    assert_eq!(ch.text_hash, [1u8; 32]);
    assert_eq!(c.phase, Phase::Completed.code());
    assert_eq!(c.phase, 3);
}

#[test]
fn phase_updates() {
    let mut c = chant();
    assert_eq!(update_phase(&mut c, addr(1), 2).unwrap(), 0);
    assert_eq!(c.phase, 2);
    assert_eq!(update_phase(&mut c, addr(1), 4).unwrap_err(), AuditError::InvalidPhase);
    assert_eq!(update_phase(&mut c, addr(5), 1).unwrap_err(), AuditError::Unauthorized);
    assert_eq!(c.phase, 2);
}

#[test]
fn audit_record_sizes() {
    assert_eq!(Chant::space("abc", "hello"), 73);
    assert_eq!(Idea::space("t", "ab"), 66);
    assert_eq!(Cell::space(&[1, 2, 3]), 65);
    assert_eq!(VoteRecord::space("vv", &[points(0, 5), points(1, 5)]), 65);
    assert_eq!(TierResult::space(&[1, 2], &[XpEntry { idea_index: 1, total_xp: 2 }]), 66);
    assert_eq!(Champion::SPACE, 86);
    let _: Option<Idea> = None;
}
