use seccomp::{
    add_rule_model, load_model, release_model, Action, Compare, Context, ContextState,
    ModelFilter, Op, Rule, RuleRequest,
};

#[test]
fn null_handle_means_initialization_failed() {
    let r = Context::default(Action::Allow, 0);
    assert!(r.is_err());
    assert_eq!(r.err().unwrap().message(), "initialization failed");
}

#[test]
fn fresh_context_is_active() {
    let ctx = Context::default(Action::Allow, 0x1000).unwrap();
    assert_eq!(ctx.state(), ContextState::Active);
    assert_eq!(ctx.raw_handle(), 0x1000);
    assert_eq!(ctx.default_action(), Action::Allow);
}

#[test]
fn rule_request_carries_the_encoded_rule() {
    let ctx = Context::default(Action::Allow, 7).unwrap();
    let cmp = Compare::arg(0).using(Op::Eq).with(1000).build().unwrap();
    let rule = Rule::new(105, cmp, Action::Errno(libc::EPERM));
    let req = ctx.rule_request(&rule).unwrap();
    assert_eq!(req.syscall, 105);
    assert_eq!(req.action_code, Action::Errno(libc::EPERM).code());
    assert_eq!(req.comparators, rule.comparators);
}

#[test]
fn rejected_rule_reports_its_identity() {
    let mut ctx = Context::default(Action::Allow, 7).unwrap();
    let cmp = Compare::arg(0).using(Op::Eq).with(1000).build().unwrap();
    let rule = Rule::new(105, cmp, Action::Errno(1));
    let err = ctx.add_rule_outcome(&rule, -1).err().unwrap();
    assert_eq!(
        err.message(),
        "failed to add rule: syscall 105, action code 327681"
    );
    assert_eq!(ctx.state(), ContextState::Active);
}

#[test]
fn failed_load_reports_and_keeps_the_context_active() {
    let mut ctx = Context::default(Action::Allow, 7).unwrap();
    let err = ctx.load_outcome(-1).err().unwrap();
    assert_eq!(err.message(), "failed to load filter into the kernel");
    assert_eq!(ctx.state(), ContextState::Active);
}

#[test]
fn operations_after_load_are_checked_failures() {
    let mut ctx = Context::default(Action::Allow, 7).unwrap();
    assert!(ctx.load_request().is_ok());
    ctx.load_outcome(0).unwrap();
    assert_eq!(ctx.state(), ContextState::Loaded);
    let cmp = Compare::arg(0).using(Op::Eq).with(1).build().unwrap();
    let rule = Rule::new(105, cmp, Action::Kill);
    let err = ctx.rule_request(&rule).err().unwrap();
    assert_eq!(err.message(), "context already loaded");
    let err = ctx.load_request().err().unwrap();
    assert_eq!(err.message(), "context already loaded");
}

#[test]
fn release_is_performed_exactly_once() {
    let mut ctx = Context::default(Action::Allow, 7).unwrap();
    assert!(ctx.release());
    assert_eq!(ctx.state(), ContextState::Released);
    assert!(!ctx.release());
    assert!(!ctx.release());
    let err = ctx.load_request().err().unwrap();
    assert_eq!(err.message(), "context already released");
}

#[test]
fn model_counts_one_release_over_a_full_lifetime() {
    let mut facility = ModelFilter::init(Action::Allow.code());
    let mut ctx = Context::default(Action::Allow, 0x2000).unwrap();

    let cmp = Compare::arg(0).using(Op::Eq).with(1000).build().unwrap();
    let rule = Rule::new(105, cmp, Action::Errno(libc::EPERM));
    add_rule_model(&mut ctx, &mut facility, &rule).unwrap();
    load_model(&mut ctx, &mut facility).unwrap();

    release_model(&mut ctx, &mut facility);
    release_model(&mut ctx, &mut facility);
    release_model(&mut ctx, &mut facility);
    assert_eq!(facility.release_count(), 1);
}

#[test]
fn filtered_syscall_reports_the_configured_error_code() {
    let mut facility = ModelFilter::init(Action::Allow.code());
    let mut ctx = Context::default(Action::Allow, 0x2000).unwrap();

    let cmp = Compare::arg(0).using(Op::Eq).with(1000).build().unwrap();
    let rule = Rule::new(105, cmp, Action::Errno(libc::EPERM));
    add_rule_model(&mut ctx, &mut facility, &rule).unwrap();
    load_model(&mut ctx, &mut facility).unwrap();

    assert_eq!(
        facility.evaluate(105, &[1000, 0, 0, 0, 0, 0]),
        Action::Errno(libc::EPERM).code()
    );
    assert_eq!(
        facility.evaluate(105, &[1001, 0, 0, 0, 0, 0]),
        Action::Allow.code()
    );
    assert_eq!(
        facility.evaluate(106, &[1000, 0, 0, 0, 0, 0]),
        Action::Allow.code()
    );
}

#[test]
fn failing_addition_preserves_earlier_rules() {
    let mut facility = ModelFilter::init(Action::Allow.code());
    let mut ctx = Context::default(Action::Allow, 0x2000).unwrap();

    let cmp_a = Compare::arg(0).using(Op::Eq).with(1000).build().unwrap();
    let rule_a = Rule::new(105, cmp_a, Action::Kill);
    add_rule_model(&mut ctx, &mut facility, &rule_a).unwrap();

    // The syscall number wraps to a negative facility integer, which the
    // facility rejects.
    let cmp_b = Compare::arg(0).using(Op::Eq).with(1).build().unwrap();
    let rule_b = Rule::new(usize::MAX, cmp_b, Action::Kill);
    let req = ctx.rule_request(&rule_b).unwrap();
    assert_eq!(req.syscall, -1);
    assert!(add_rule_model(&mut ctx, &mut facility, &rule_b).is_err());
    assert_eq!(ctx.state(), ContextState::Active);

    load_model(&mut ctx, &mut facility).unwrap();

    assert_eq!(facility.received().len(), 1);
    assert_eq!(
        facility.evaluate(105, &[1000, 0, 0, 0, 0, 0]),
        Action::Kill.code()
    );
}

#[test]
fn facility_receives_mask_zero_for_unmasked_masked_equal() {
    let mut facility = ModelFilter::init(Action::Allow.code());
    let mut ctx = Context::default(Action::Allow, 0x2000).unwrap();

    let cmp = Compare::arg(0).using(Op::MaskedEq).with(0xFF).build().unwrap();
    let rule = Rule::new(77, cmp, Action::Kill);
    let req = ctx.rule_request(&rule).unwrap();
    assert_eq!(req.comparators[0].datum_b, 0);
    let status = facility.rule_add(req);
    ctx.add_rule_outcome(&rule, status).unwrap();

    ctx.load_request().unwrap();
    let status = facility.load();
    ctx.load_outcome(status).unwrap();

    assert_eq!(facility.received()[0].comparators[0].datum_b, 0);
    // With mask zero, (argument & 0) never equals 0xFF, so the rule
    // never matches and the default action governs.
    assert_eq!(
        facility.evaluate(77, &[0xFF, 0, 0, 0, 0, 0]),
        Action::Allow.code()
    );
}

#[test]
fn rule_without_comparisons_matches_unconditionally() {
    let mut facility = ModelFilter::init(Action::Allow.code());
    let status = facility.rule_add(RuleRequest {
        action_code: Action::Trap.code(),
        syscall: 60,
        comparators: vec![],
    });
    assert_eq!(status, 0);
    assert_eq!(facility.load(), 0);
    assert_eq!(
        facility.evaluate(60, &[1, 2, 3, 4, 5, 6]),
        Action::Trap.code()
    );
}

#[test]
fn facility_rejects_out_of_range_argument_index() {
    let mut facility = ModelFilter::init(Action::Allow.code());
    let bad = Compare::arg(6).using(Op::Eq).with(1).build().unwrap();
    let status = facility.rule_add(RuleRequest {
        action_code: Action::Kill.code(),
        syscall: 10,
        comparators: vec![bad],
    });
    assert!(status != 0);
    assert_eq!(facility.received().len(), 0);
}

#[test]
fn first_matching_rule_governs() {
    let mut facility = ModelFilter::init(Action::Allow.code());
    let cmp = Compare::arg(0).using(Op::Ge).with(10).build().unwrap();
    let status = facility.rule_add(RuleRequest {
        action_code: Action::Trap.code(),
        syscall: 42,
        comparators: vec![cmp],
    });
    assert_eq!(status, 0);
    let status = facility.rule_add(RuleRequest {
        action_code: Action::Kill.code(),
        syscall: 42,
        comparators: vec![],
    });
    assert_eq!(status, 0);
    assert_eq!(facility.load(), 0);
    assert_eq!(facility.evaluate(42, &[10, 0, 0, 0, 0, 0]), Action::Trap.code());
    assert_eq!(facility.evaluate(42, &[9, 0, 0, 0, 0, 0]), Action::Kill.code());
}

#[test]
fn loading_twice_is_refused() {
    let mut facility = ModelFilter::init(Action::Allow.code());
    assert_eq!(facility.load(), 0);
    assert!(facility.load() != 0);
}
