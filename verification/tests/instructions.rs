use gb_cpu::instructions::Operand;
use gb_cpu::registers::{Register16, Register8};

#[test]
fn test_rtable_lookup() {
    let operand = Operand::from_r_table(0b000).unwrap();
    assert_eq!(operand, Operand::Reg8(Register8::B));

    // invalid register id
    let reg = Operand::from_r_table(69);
    assert!(reg.is_err());
}

#[test]
fn test_rptable_lookup() {
    let op = Operand::from_rp_table(1).unwrap();
    assert_eq!(op, Operand::Reg16(Register16::DE));

    let op = Operand::from_rp_table(5);
    assert!(op.is_err());
}

#[test]
fn test_rp2table_lookup() {
    let op = Operand::from_rp2_table(3).unwrap();
    assert_eq!(op, Operand::Reg16(Register16::AF));

    let op = Operand::from_rp2_table(5);
    assert!(op.is_err());
}
