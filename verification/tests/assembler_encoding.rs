use n64_systemtest::assembler::{Assembler, Cop1Condition, FR, GPR};
use n64_systemtest::uint::{U26, U5, U6};

#[test]
fn addiu_encodes_registers_and_immediate() {
    assert_eq!(Assembler::make_addiu(GPR::T0, GPR::T1, 5), 0x2528_0005);
    assert_eq!(Assembler::make_addiu(GPR::T0, GPR::T1, -1), 0x2528_FFFF);
}

#[test]
fn lui_and_store_encodings() {
    assert_eq!(Assembler::make_lui(GPR::AT, 0x1234), 0x3C01_1234);
    assert_eq!(Assembler::make_sw(GPR::T0, 4, GPR::SP), 0xAFA8_0004);
    assert_eq!(Assembler::make_sw(GPR::T0, -4, GPR::SP), 0xAFA8_FFFC);
}

#[test]
fn special_encodings() {
    assert_eq!(Assembler::make_nop(), 0);
    assert_eq!(Assembler::make_jr(GPR::RA), 0x03E0_0008);
    assert_eq!(Assembler::make_sll(GPR::T0, GPR::T1, U5::new(2)), 0x0009_4080);
    assert_eq!(Assembler::make_div(GPR::T0, GPR::T1), 0x0128_001A);
}

#[test]
fn branch_and_jump_encodings() {
    assert_eq!(Assembler::make_b(-1), 0x1000_FFFF);
    assert_eq!(Assembler::make_beq(GPR::T0, GPR::T1, 3), 0x1128_0003);
    assert_eq!(Assembler::make_jal(U26::new(0x100)), 0x0C00_0100);
    assert_eq!(Assembler::make_bgezal(GPR::A0, 3), 0x0491_0003);
}

#[test]
fn coprocessor_encodings() {
    assert_eq!(Assembler::make_mfc0(GPR::T0, U5::new(12)), 0x4008_6000);
    assert_eq!(Assembler::make_ctc1(GPR::T0, U5::new(31)), 0x44C8_F800);
    assert_eq!(Assembler::make_cache(U5::new(0x19), 0x10, GPR::A0), 0xBC99_0010);
}

#[test]
fn fpu_instruction_formats() {
    let add = Assembler::make_cop1_add(FR::F2, FR::F4, FR::F6);
    assert_eq!(add.s(), 0x4606_2080);
    assert_eq!(add.d(), 0x4626_2080);
    assert_eq!(add.w(), 0x4686_2080);
    assert_eq!(add.l(), 0x46A6_2080);
}

#[test]
fn fpu_compare_condition() {
    let c = Assembler::make_cop1_c_cond(Cop1Condition::EQ, FR::F4, FR::F6);
    // c.eq.s f4, f6: function 0x32, fd = 0
    assert_eq!(c.s(), 0x4606_2032);
}

#[test]
fn cop1_condition_from_raw_value() {
    assert_eq!(Cop1Condition::new_with_raw_value(U6::new(0x32)), Ok(Cop1Condition::EQ));
    assert_eq!(Cop1Condition::new_with_raw_value(U6::new(0x30)), Ok(Cop1Condition::F));
    assert!(Cop1Condition::new_with_raw_value(U6::new(0x05)).is_err());
}

#[test]
fn gpr_numbering_round_trips() {
    assert_eq!(GPR::RA.raw_value().value(), 31);
    assert_eq!(GPR::new_with_raw_value(U5::new(29)), GPR::SP);
    assert_eq!(FR::new_with_raw_value(U5::new(6)), FR::F6);
}

#[test]
fn gpr_steps() {
    assert_eq!(GPR::steps_between(&GPR::T0, &GPR::T3), Some(3));
    assert_eq!(GPR::steps_between(&GPR::T3, &GPR::T0), None);
    assert_eq!(GPR::forward_checked(GPR::T0, 2), Some(GPR::T2));
    assert_eq!(GPR::forward_checked(GPR::S8, 2), None);
    assert_eq!(GPR::backward_checked(GPR::T0, 8), Some(GPR::R0));
    assert_eq!(GPR::backward_checked(GPR::T0, 9), None);
}

#[test]
fn fr_steps() {
    assert_eq!(FR::steps_between(&FR::F0, &FR::F31), Some(31));
    assert_eq!(FR::forward_checked(FR::F30, 1), Some(FR::F31));
    assert_eq!(FR::forward_checked(FR::F31, 1), None);
}

#[test]
fn cop1_condition_steps() {
    assert_eq!(
        Cop1Condition::forward_checked(Cop1Condition::F, 2),
        Some(Cop1Condition::EQ)
    );
    assert_eq!(
        Cop1Condition::steps_between(&Cop1Condition::F, &Cop1Condition::EQ),
        Some(2)
    );
}

#[test]
fn step_laws_on_values() {
    // steps_between(a, b) == Some(n) iff forward_checked(a, n) == Some(b) iff
    // backward_checked(b, n) == Some(a)
    let n = GPR::steps_between(&GPR::A0, &GPR::S2).unwrap();
    assert_eq!(n, 14);
    assert_eq!(GPR::forward_checked(GPR::A0, n), Some(GPR::S2));
    assert_eq!(GPR::backward_checked(GPR::S2, n), Some(GPR::A0));
    assert_eq!(GPR::steps_between(&GPR::A0, &GPR::A0), Some(0));
    assert_eq!(GPR::forward_checked(GPR::A0, 0), Some(GPR::A0));
    assert_eq!(FR::steps_between(&FR::F7, &FR::F7), Some(0));
    assert_eq!(
        Cop1Condition::steps_between(&Cop1Condition::LE, &Cop1Condition::LE),
        Some(0)
    );
    assert_eq!(
        Cop1Condition::backward_checked(Cop1Condition::NGT, 15),
        Some(Cop1Condition::F)
    );
    assert_eq!(Cop1Condition::backward_checked(Cop1Condition::NGT, 16), None);
}
