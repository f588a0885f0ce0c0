use llvm_sys_trial::{eval_bin_op, eval_body, sum_fn_value, BinOp, Operand, Step};

#[test]
fn add_small_values() {
    assert_eq!(eval_bin_op(BinOp::Add, 1, 2), 3);
    assert_eq!(eval_bin_op(BinOp::Add, -4, 4), 0);
}

#[test]
fn sub_small_values() {
    assert_eq!(eval_bin_op(BinOp::Sub, 5, 7), -2);
    assert_eq!(eval_bin_op(BinOp::Sub, -3, -3), 0);
}

#[test]
fn mul_small_values() {
    assert_eq!(eval_bin_op(BinOp::Mul, 3, 4), 12);
    assert_eq!(eval_bin_op(BinOp::Mul, -3, 4), -12);
}

#[test]
fn add_wraps_at_the_edges() {
    assert_eq!(eval_bin_op(BinOp::Add, i64::MAX, 1), i64::MIN);
    assert_eq!(eval_bin_op(BinOp::Add, i64::MIN, -1), i64::MAX);
}

#[test]
fn sub_wraps_at_the_edges() {
    assert_eq!(eval_bin_op(BinOp::Sub, i64::MIN, 1), i64::MAX);
    assert_eq!(eval_bin_op(BinOp::Sub, i64::MAX, -1), i64::MIN);
}

#[test]
fn mul_wraps_at_the_edges() {
    assert_eq!(eval_bin_op(BinOp::Mul, i64::MAX, 2), -2);
    assert_eq!(eval_bin_op(BinOp::Mul, i64::MIN, -1), i64::MIN);
}

#[test]
fn sum_fn_is_zero_on_small_values() {
    assert_eq!(sum_fn_value(0, 0, 0), 0);
    assert_eq!(sum_fn_value(1, 2, 3), 0);
    assert_eq!(sum_fn_value(-5, 7, -9), 0);
}

#[test]
fn sum_fn_is_zero_when_the_total_wraps() {
    assert_eq!(sum_fn_value(i64::MAX, i64::MAX, i64::MAX), 0);
    assert_eq!(sum_fn_value(i64::MIN, i64::MIN, i64::MIN), 0);
    assert_eq!(sum_fn_value(i64::MAX, 1, 0), 0);
}

#[test]
fn desc_has_the_emitted_shape() {
    let d = llvm_sys_trial::sum_module_desc();
    assert_eq!(d.name, "sum");
    assert_eq!(d.param_count, 3);
    assert!(!d.is_var_arg);
    assert_eq!(d.block_name, "entry");
    assert_eq!(d.body.len(), 4);
    let names: Vec<&str> = d.body.iter().map(|i| i.name).collect();
    assert_eq!(names, vec!["sum.1", "sum.2", "diff", "mul"]);
    assert_eq!(d.body[0].op, BinOp::Add);
    assert_eq!(d.body[0].lhs, Operand::Param(0));
    assert_eq!(d.body[0].rhs, Operand::Param(1));
    assert_eq!(d.body[1].op, BinOp::Add);
    assert_eq!(d.body[1].lhs, Operand::Temp(0));
    assert_eq!(d.body[1].rhs, Operand::Param(2));
    assert_eq!(d.body[2].op, BinOp::Sub);
    assert_eq!(d.body[2].lhs, Operand::Temp(1));
    assert_eq!(d.body[2].rhs, Operand::Temp(1));
    assert_eq!(d.body[3].op, BinOp::Mul);
    assert_eq!(d.body[3].lhs, Operand::Temp(2));
    assert_eq!(d.body[3].rhs, Operand::Temp(1));
}

#[test]
fn steps_end_with_the_required_teardown() {
    let steps = llvm_sys_trial::sum_build_steps();
    assert_eq!(steps.len(), 17);
    assert_eq!(steps[0], Step::CreateContext);
    assert_eq!(steps[14], Step::DisposeBuilder);
    assert_eq!(steps[15], Step::DumpModule);
    assert_eq!(steps[16], Step::DisposeContext);
    let disposals = steps
        .iter()
        .filter(|s| matches!(s, Step::DisposeBuilder | Step::DumpModule | Step::DisposeContext))
        .count();
    assert_eq!(disposals, 3);
}

#[test]
fn steps_emit_each_instruction_once_in_order() {
    let steps = llvm_sys_trial::sum_build_steps();
    let emitted: Vec<u64> = steps
        .iter()
        .filter_map(|s| match s {
            Step::EmitInstr(i) => Some(*i),
            _ => None,
        })
        .collect();
    assert_eq!(emitted, vec![0, 1, 2, 3]);
}

#[test]
fn eval_body_runs_the_described_body_to_zero() {
    let d = llvm_sys_trial::sum_module_desc();
    assert_eq!(eval_body(&d.body, 0, 0, 0), Some(0));
    assert_eq!(eval_body(&d.body, 1, 2, 3), Some(0));
    assert_eq!(eval_body(&d.body, i64::MAX, i64::MIN, 17), Some(0));
}

#[test]
fn eval_body_follows_a_changed_body() {
    // With the subtraction replaced by an addition the result is no
    // longer zero: the evaluator really walks the instruction list.
    let mut d = llvm_sys_trial::sum_module_desc();
    d.body[2].op = BinOp::Add;
    assert_eq!(eval_body(&d.body, 1, 2, 3), Some(72));
    // Truncating the body returns the last remaining instruction's value.
    let d2 = llvm_sys_trial::sum_module_desc();
    let prefix: Vec<_> = d2.body[..2].to_vec();
    assert_eq!(eval_body(&prefix, 1, 2, 3), Some(6));
}

#[test]
fn eval_body_rejects_ill_formed_bodies() {
    assert_eq!(eval_body(&Vec::new(), 1, 2, 3), None);
    let mut d = llvm_sys_trial::sum_module_desc();
    // An instruction may not name a temporary that is not yet computed.
    d.body[0].lhs = Operand::Temp(0);
    assert_eq!(eval_body(&d.body, 1, 2, 3), None);
    let mut d2 = llvm_sys_trial::sum_module_desc();
    // Nor a parameter beyond the three that exist.
    d2.body[1].rhs = Operand::Param(3);
    assert_eq!(eval_body(&d2.body, 1, 2, 3), None);
}
