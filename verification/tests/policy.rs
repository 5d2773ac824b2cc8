use seccomp::{Action, Cmp, Compare, Op, Rule};

#[test]
fn op_codes_match_wire_contract() {
    assert_eq!(Op::Ne.code(), 1);
    assert_eq!(Op::Lt.code(), 2);
    assert_eq!(Op::Le.code(), 3);
    assert_eq!(Op::Eq.code(), 4);
    assert_eq!(Op::Ge.code(), 5);
    assert_eq!(Op::Gt.code(), 6);
    assert_eq!(Op::MaskedEq.code(), 7);
}

#[test]
fn action_codes_match_wire_contract() {
    assert_eq!(Action::Allow.code(), 0x7fff0000);
    assert_eq!(Action::Kill.code(), 0x00000000);
    assert_eq!(Action::Trap.code(), 0x00030000);
    assert_eq!(Action::Errno(libc::EPERM).code(), 0x00050000 | (libc::EPERM as u32));
    assert_eq!(Action::Trace(5).code(), 0x7ff00005);
}

#[test]
fn action_payloads_keep_low_sixteen_bits() {
    assert_eq!(Action::Errno(-1).code(), 0x0005ffff);
    assert_eq!(Action::Errno(70000).code(), 0x00051170);
    assert_eq!(Action::Trace(0x12345).code(), 0x7ff02345);
}

#[test]
fn build_with_all_fields() {
    let c = Compare::arg(2).using(Op::Gt).with(9).and(7).build();
    assert_eq!(
        c,
        Some(Cmp { arg: 2, op: Op::Gt, datum_a: 9, datum_b: 7 })
    );
}

#[test]
fn build_without_operator_yields_absence() {
    assert_eq!(Compare::arg(0).with(5).build(), None);
}

#[test]
fn build_without_primary_datum_yields_absence() {
    assert_eq!(Compare::arg(0).using(Op::Eq).build(), None);
}

#[test]
fn build_with_only_argument_index_yields_absence() {
    assert_eq!(Compare::arg(0).build(), None);
}

#[test]
fn build_defaults_secondary_datum_to_zero() {
    let c = Compare::arg(1).using(Op::Eq).with(44).build().unwrap();
    assert_eq!(c.datum_b, 0);
}

#[test]
fn masked_equal_without_mask_gets_mask_zero() {
    let c = Compare::arg(0).using(Op::MaskedEq).with(0xFF).build().unwrap();
    assert_eq!(c.op, Op::MaskedEq);
    assert_eq!(c.datum_a, 0xFF);
    assert_eq!(c.datum_b, 0);
}

#[test]
fn new_rule_holds_one_comparison() {
    let c = Compare::arg(0).using(Op::Eq).with(1).build().unwrap();
    let r = Rule::new(39, c, Action::Kill);
    assert_eq!(r.syscall_nr, 39);
    assert_eq!(r.comparators.len(), 1);
    assert_eq!(r.comparators[0], c);
}

#[test]
fn appending_comparisons_grows_in_order() {
    let c0 = Compare::arg(0).using(Op::Eq).with(10).build().unwrap();
    let c1 = Compare::arg(1).using(Op::Ne).with(11).build().unwrap();
    let c2 = Compare::arg(2).using(Op::Lt).with(12).build().unwrap();
    let c3 = Compare::arg(3).using(Op::Ge).with(13).build().unwrap();
    let mut r = Rule::new(1, c0, Action::Trap);
    r.add_comparison(c1);
    r.add_comparison(c2);
    r.add_comparison(c3);
    assert_eq!(r.comparators.len(), 4);
    assert_eq!(r.comparators, vec![c0, c1, c2, c3]);
}
