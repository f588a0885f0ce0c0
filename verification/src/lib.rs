//! A model of the one module that this crate's companion program emits
//! through the LLVM C API: a function named "sum" that takes three 64-bit
//! integer parameters, adds them, subtracts that total from itself, and
//! multiplies the difference by the total. The instructions are plain
//! (flagless) LLVM integer arithmetic, so every operation wraps in
//! two's complement.
//!
//! The library holds the module's description as data — the names, the
//! arity, the instruction list with its operand flow, and the fixed call
//! sequence with its handle-lifecycle order — with exact contracts, and
//! proves what the described body computes: the returned value is zero
//! for every input. The companion program only interprets the
//! description into LLVM calls.

use vstd::prelude::*;

verus! {

/// The kind of a binary integer instruction that the emitted body uses.
#[derive(Clone, Copy, PartialEq, Eq, Structural, Debug)]
pub enum BinOp {
    Add,
    Sub,
    Mul,
}

/// What one binary instruction computes on 64-bit operands: plain LLVM
/// integer arithmetic is two's-complement and wraps on overflow.
pub open spec fn bin_op_value(op: BinOp, a: i64, b: i64) -> i64 {
    match op {
        BinOp::Add => vstd::wrapping::i64_specs::wrapping_add(a, b),
        BinOp::Sub => vstd::wrapping::i64_specs::wrapping_sub(a, b),
        BinOp::Mul => vstd::wrapping::i64_specs::wrapping_mul(a, b),
    }
}

/// Evaluates one binary instruction of the emitted body.
pub fn eval_bin_op(op: BinOp, a: i64, b: i64) -> (r: i64)
    ensures
        r == bin_op_value(op, a, b),
{
    match op {
        BinOp::Add => a.wrapping_add(b),
        BinOp::Sub => a.wrapping_sub(b),
        BinOp::Mul => a.wrapping_mul(b),
    }
}

/// An operand of a body instruction: either the function parameter with
/// the given index, or the result of an earlier instruction (a temporary)
/// with the given index.
#[derive(Clone, Copy, PartialEq, Eq, Structural, Debug)]
pub enum Operand {
    Param(u64),
    Temp(u64),
}

/// One instruction of the emitted straight-line body: a binary operation
/// on two operands, and the name the result is registered under.
#[derive(Clone, Copy, PartialEq, Eq, Debug)]
pub struct Instr {
    pub op: BinOp,
    pub lhs: Operand,
    pub rhs: Operand,
    pub name: &'static str,
}

/// The description of the one module the companion program emits: a
/// module and function name, a parameter count, the vararg flag of the
/// function type, the name of the single basic block, and the body.
#[derive(Debug)]
pub struct FunctionDesc {
    pub name: &'static str,
    pub param_count: u64,
    pub is_var_arg: bool,
    pub block_name: &'static str,
    pub body: Vec<Instr>,
}

/// The emitted body, instruction by instruction: the total of the first
/// two parameters, the total of that and the third, the difference of
/// the full total with itself, and the product of that difference with
/// the full total.
pub open spec fn is_sum_body(s: Seq<Instr>) -> bool {
    &&& s.len() == 4
    &&& s[0].op == BinOp::Add && s[0].lhs == Operand::Param(0) && s[0].rhs == Operand::Param(1)
        && s[0].name@ == "sum.1"@
    &&& s[1].op == BinOp::Add && s[1].lhs == Operand::Temp(0) && s[1].rhs == Operand::Param(2)
        && s[1].name@ == "sum.2"@
    &&& s[2].op == BinOp::Sub && s[2].lhs == Operand::Temp(1) && s[2].rhs == Operand::Temp(1)
        && s[2].name@ == "diff"@
    &&& s[3].op == BinOp::Mul && s[3].lhs == Operand::Temp(2) && s[3].rhs == Operand::Temp(1)
        && s[3].name@ == "mul"@
}

/// The emitted module: a function named "sum" with three integer
/// parameters and no varargs, one basic block named "entry", and the
/// four-instruction body above.
pub open spec fn is_sum_desc(d: FunctionDesc) -> bool {
    &&& d.name@ == "sum"@
    &&& d.param_count == 3
    &&& !d.is_var_arg
    &&& d.block_name@ == "entry"@
    &&& is_sum_body(d.body@)
}

/// Builds the description of the emitted module. The companion program
/// interprets this description into LLVM C API calls.
pub fn sum_module_desc() -> (r: FunctionDesc)
    ensures
        is_sum_desc(r),
{
    let mut body: Vec<Instr> = Vec::new();
    body.push(Instr { op: BinOp::Add, lhs: Operand::Param(0), rhs: Operand::Param(1), name: "sum.1" });
    body.push(Instr { op: BinOp::Add, lhs: Operand::Temp(0), rhs: Operand::Param(2), name: "sum.2" });
    body.push(Instr { op: BinOp::Sub, lhs: Operand::Temp(1), rhs: Operand::Temp(1), name: "diff" });
    body.push(Instr { op: BinOp::Mul, lhs: Operand::Temp(2), rhs: Operand::Temp(1), name: "mul" });
    FunctionDesc { name: "sum", param_count: 3, is_var_arg: false, block_name: "entry", body }
}

/// The value an operand denotes, given the parameters and the temporaries
/// computed so far; `None` if the operand's index is out of range.
pub open spec fn operand_value(o: Operand, params: Seq<i64>, temps: Seq<i64>) -> Option<i64> {
    match o {
        Operand::Param(i) => if i < params.len() {
            Some(params[i as int])
        } else {
            None
        },
        Operand::Temp(i) => if i < temps.len() {
            Some(temps[i as int])
        } else {
            None
        },
    }
}

/// The temporaries a straight-line body computes over the given
/// parameters, one per instruction, in order; `None` if any instruction
/// names an operand that is not yet defined.
pub open spec fn temps_after(body: Seq<Instr>, params: Seq<i64>) -> Option<Seq<i64>>
    decreases body.len(),
{
    if body.len() == 0 {
        Some(Seq::empty())
    } else {
        match temps_after(body.drop_last(), params) {
            Some(ts) => match (
                operand_value(body.last().lhs, params, ts),
                operand_value(body.last().rhs, params, ts),
            ) {
                (Some(a), Some(b)) => Some(ts.push(bin_op_value(body.last().op, a, b))),
                _ => None,
            },
            None => None,
        }
    }
}

/// The value a straight-line body returns: the result of its final
/// instruction; `None` for an empty or ill-formed body.
pub open spec fn body_result(body: Seq<Instr>, params: Seq<i64>) -> Option<i64> {
    match temps_after(body, params) {
        Some(ts) => if ts.len() > 0 {
            Some(ts[ts.len() - 1])
        } else {
            None
        },
        None => None,
    }
}

/// Looks an operand up among the parameters and the temporaries computed
/// so far.
pub fn eval_operand(o: &Operand, params: &Vec<i64>, temps: &Vec<i64>) -> (r: Option<i64>)
    ensures
        r == operand_value(*o, params@, temps@),
{
    match o {
        Operand::Param(i) => if *i < params.len() as u64 {
            Some(params[*i as usize])
        } else {
            None
        },
        Operand::Temp(i) => if *i < temps.len() as u64 {
            Some(temps[*i as usize])
        } else {
            None
        },
    }
}

/// Runs a straight-line body on three concrete parameters, instruction
/// by instruction, and returns what the emitted function would return.
pub fn eval_body(body: &Vec<Instr>, x: i64, y: i64, z: i64) -> (r: Option<i64>)
    ensures
        r == body_result(body@, seq![x, y, z]),
{
    let mut params: Vec<i64> = Vec::new();
    params.push(x);
    params.push(y);
    params.push(z);
    proof {
        assert(params@ =~= seq![x, y, z]);
    }
    let mut temps: Vec<i64> = Vec::new();
    let mut failed: bool = false;
    let mut k: usize = 0;
    while k < body.len()
        invariant
            k <= body@.len(),
            params@ == seq![x, y, z],
            !failed ==> temps_after(body@.take(k as int), params@) == Some(temps@),
            !failed ==> temps@.len() == k,
            failed ==> temps_after(body@.take(k as int), params@) is None,
        decreases body@.len() - k,
    {
        proof {
            assert(body@.take(k + 1).drop_last() =~= body@.take(k as int));
            assert(body@.take(k + 1).last() == body@[k as int]);
        }
        if !failed {
            let ins = body[k];
            let a = eval_operand(&ins.lhs, &params, &temps);
            let b = eval_operand(&ins.rhs, &params, &temps);
            match (a, b) {
                (Some(av), Some(bv)) => {
                    let v = eval_bin_op(ins.op, av, bv);
                    temps.push(v);
                },
                _ => {
                    failed = true;
                },
            }
        }
        k = k + 1;
    }
    proof {
        assert(body@.take(body@.len() as int) =~= body@);
    }
    if failed {
        return None;
    }
    if temps.len() == 0 {
        return None;
    }
    let last = temps[temps.len() - 1];
    Some(last)
}

/// Ties the description to the direct statement of the arithmetic: on a
/// body of the described shape, running the instructions over any three
/// parameters yields `sum_body_value` — and so zero.
pub proof fn lemma_sum_body_result(body: Seq<Instr>, x: i64, y: i64, z: i64)
    requires
        is_sum_body(body),
    ensures
        body_result(body, seq![x, y, z]) == Some(sum_body_value(x, y, z)),
        body_result(body, seq![x, y, z]) == Some(0i64),
{
    let params = seq![x, y, z];
    let b3 = body.drop_last();
    let b2 = b3.drop_last();
    let b1 = b2.drop_last();
    let b0 = b1.drop_last();
    assert(b0.len() == 0);
    assert(b1.last() == body[0]);
    assert(b2.last() == body[1]);
    assert(b3.last() == body[2]);
    assert(body.last() == body[3]);
    let t0 = bin_op_value(BinOp::Add, x, y);
    let t1 = bin_op_value(BinOp::Add, t0, z);
    let t2 = bin_op_value(BinOp::Sub, t1, t1);
    let t3 = bin_op_value(BinOp::Mul, t2, t1);
    assert(temps_after(b0, params) == Some(Seq::<i64>::empty()));
    assert(seq![t0] =~= Seq::<i64>::empty().push(t0));
    assert(temps_after(b1, params) == Some(seq![t0]));
    assert(temps_after(b2, params) == Some(seq![t0, t1]));
    assert(temps_after(b3, params) == Some(seq![t0, t1, t2]));
    assert(temps_after(body, params) == Some(seq![t0, t1, t2, t3]));
    lemma_sum_body_value_zero(x, y, z);
}

/// One step of the fixed, linear call sequence the companion program
/// performs against the LLVM C API. `EmitInstr(i)` emits the `i`-th
/// instruction of the described body.
#[derive(Clone, Copy, PartialEq, Eq, Structural, Debug)]
pub enum Step {
    CreateContext,
    CreateModule,
    CreateBuilder,
    DefineIntType,
    DefineFunctionType,
    AddFunction,
    AppendBlock,
    PositionBuilder,
    FetchParams,
    EmitInstr(u64),
    EmitRet,
    DisposeBuilder,
    DumpModule,
    DisposeContext,
}

/// The fixed call sequence: set up context, module and builder; define
/// the function's type and register it; append the one basic block and
/// position the builder; fetch the parameters; emit the four body
/// instructions and the return; then dispose of the builder, dump the
/// module, and dispose of the context last.
pub open spec fn sum_steps() -> Seq<Step> {
    seq![
        Step::CreateContext,
        Step::CreateModule,
        Step::CreateBuilder,
        Step::DefineIntType,
        Step::DefineFunctionType,
        Step::AddFunction,
        Step::AppendBlock,
        Step::PositionBuilder,
        Step::FetchParams,
        Step::EmitInstr(0),
        Step::EmitInstr(1),
        Step::EmitInstr(2),
        Step::EmitInstr(3),
        Step::EmitRet,
        Step::DisposeBuilder,
        Step::DumpModule,
        Step::DisposeContext,
    ]
}

/// Builds the fixed call sequence for the companion program to walk.
pub fn sum_build_steps() -> (r: Vec<Step>)
    ensures
        r@ == sum_steps(),
{
    let mut v: Vec<Step> = Vec::new();
    v.push(Step::CreateContext);
    v.push(Step::CreateModule);
    v.push(Step::CreateBuilder);
    v.push(Step::DefineIntType);
    v.push(Step::DefineFunctionType);
    v.push(Step::AddFunction);
    v.push(Step::AppendBlock);
    v.push(Step::PositionBuilder);
    v.push(Step::FetchParams);
    v.push(Step::EmitInstr(0));
    v.push(Step::EmitInstr(1));
    v.push(Step::EmitInstr(2));
    v.push(Step::EmitInstr(3));
    v.push(Step::EmitRet);
    v.push(Step::DisposeBuilder);
    v.push(Step::DumpModule);
    v.push(Step::DisposeContext);
    proof {
        assert(v@ =~= sum_steps());
    }
    v
}

/// The handle lifecycle that the external library requires, read off the
/// fixed sequence: the builder is disposed before the module is dumped,
/// the dump happens before the context is disposed, and each of those
/// three steps occurs exactly once, at the end.
pub proof fn lemma_lifecycle_order()
    ensures
        sum_steps().len() == 17,
        sum_steps()[14] == Step::DisposeBuilder,
        sum_steps()[15] == Step::DumpModule,
        sum_steps()[16] == Step::DisposeContext,
        forall|i: int|
            0 <= i < sum_steps().len() ==> ((#[trigger] sum_steps()[i]) == Step::DisposeBuilder
                ==> i == 14),
        forall|i: int|
            0 <= i < sum_steps().len() ==> ((#[trigger] sum_steps()[i]) == Step::DumpModule ==> i
                == 15),
        forall|i: int|
            0 <= i < sum_steps().len() ==> ((#[trigger] sum_steps()[i]) == Step::DisposeContext
                ==> i == 16),
{
}

/// What the body of the emitted "sum" function computes for parameters
/// `x`, `y`, `z`, instruction by instruction: a total `s1 = x + y`,
/// `s2 = s1 + z`, the difference `d = s2 - s2`, the product `m = d * s2`,
/// and `m` is returned.
pub open spec fn sum_body_value(x: i64, y: i64, z: i64) -> i64 {
    let s1 = bin_op_value(BinOp::Add, x, y);
    let s2 = bin_op_value(BinOp::Add, s1, z);
    let d = bin_op_value(BinOp::Sub, s2, s2);
    bin_op_value(BinOp::Mul, d, s2)
}

/// The emitted body always returns zero, whatever the parameters:
/// subtracting the total from itself gives zero, and a wrapping product
/// with zero stays zero.
pub proof fn lemma_sum_body_value_zero(x: i64, y: i64, z: i64)
    ensures
        sum_body_value(x, y, z) == 0,
{
    let s2 = bin_op_value(BinOp::Add, bin_op_value(BinOp::Add, x, y), z);
    assert(0int * (s2 as int) == 0) by (nonlinear_arith);
}

/// Evaluates the emitted body: the same instruction sequence the builder
/// lays down, run on concrete parameters. The result is always zero.
pub fn sum_fn_value(x: i64, y: i64, z: i64) -> (r: i64)
    ensures
        r == sum_body_value(x, y, z),
        r == 0,
{
    proof {
        lemma_sum_body_value_zero(x, y, z);
    }
    let s1 = eval_bin_op(BinOp::Add, x, y);
    let s2 = eval_bin_op(BinOp::Add, s1, z);
    let d = eval_bin_op(BinOp::Sub, s2, s2);
    let m = eval_bin_op(BinOp::Mul, d, s2);
    m
}

} // verus!
