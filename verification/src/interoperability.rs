//! Lowering of the contract-call system call and of the contract-address
//! constant: from reference expressions to the steps of an assembly builder.

use num_bigint::BigInt;
use vstd::arithmetic::power2::{lemma2_to64, lemma_pow2_adds, pow2};
use vstd::prelude::*;

verus! {

/// The outside arbitrary-precision integer in which constants are handed over.
#[verifier::external_type_specification]
#[verifier::external_body]
pub struct ExBigInt(num_bigint::BigInt);

/// The integer that a `BigInt` holds.
pub uninterp spec fn bigint_value(n: BigInt) -> int;

/// The number that bytes spell, least significant byte first.
pub open spec fn le_value(bytes: Seq<u8>) -> int
    decreases bytes.len(),
{
    if bytes.len() == 0 {
        0
    } else {
        bytes[0] + 256 * le_value(bytes.drop_first())
    }
}

/// `BigInt::from_bytes_le` with the sign `Plus`: the result is the number that
/// the bytes spell in little-endian order, zero for no bytes.
#[verifier::external_body]
fn bigint_from_bytes_le(bytes: &[u8]) -> (r: BigInt)
    ensures
        bigint_value(r) == le_value(bytes@),
{
    BigInt::from_bytes_le(num_bigint::Sign::Plus, bytes)
}

/// `num_traits::Zero::is_zero` on a `BigInt`: whether it holds zero.
#[verifier::external_body]
fn bigint_is_zero(n: &BigInt) -> (r: bool)
    ensures
        r == (bigint_value(*n) == 0),
{
    num_traits::Zero::is_zero(n)
}

/// `>=` on two `BigInt`s: the order of the integers they hold.
#[verifier::external_body]
fn bigint_ge(a: &BigInt, b: &BigInt) -> (r: bool)
    ensures
        r == (bigint_value(*a) >= bigint_value(*b)),
{
    a >= b
}

/// Why an invocation could not be lowered.
#[derive(Clone, Copy, Debug, PartialEq, Eq, Structural)]
pub enum InvocationError {
    WrongNumberOfArguments { expected: usize, actual: usize },
    InvalidReferenceExpressionForArgument,
    InvalidGenericArg,
}

/// The register that a cell is addressed from.
#[derive(Clone, Copy, Debug, PartialEq, Eq, Structural)]
pub enum Register {
    AP,
    FP,
}

/// A memory cell at an offset from a register.
#[derive(Clone, Copy, Debug, PartialEq, Eq, Structural)]
pub struct CellRef {
    pub register: Register,
    pub offset: i16,
}

/// How the value of one cell of a reference is obtained.
#[derive(Debug, PartialEq, Eq)]
pub enum CellExpression {
    /// The content of a cell.
    Deref(CellRef),
    /// The content of the cell that a cell, plus an offset, points to.
    DoubleDeref(CellRef, i16),
    /// A constant.
    Immediate(BigInt),
    /// The content of a cell plus a small constant.
    AddConst(CellRef, i16),
}

/// A reference: one expression per cell of the value.
#[derive(Debug, PartialEq, Eq)]
pub struct ReferenceExpression {
    pub cells: Vec<CellExpression>,
}

/// The operand forms that a builder variable can start from.
#[derive(Clone, Copy, Debug, PartialEq, Eq, Structural)]
pub enum Operand {
    /// The content of a cell.
    Deref(CellRef),
    /// A buffer: what the cell points to, read from the given offset on.
    Buffer(CellRef, i16),
}

/// The cell of an expression that is the content of a cell.
pub open spec fn deref_of(cell: CellExpression) -> Result<CellRef, InvocationError> {
    match cell {
        CellExpression::Deref(c) => Ok(c),
        _ => Err(InvocationError::InvalidReferenceExpressionForArgument),
    }
}

/// The buffer that an expression points to, with room for `slack` more cells
/// within the offsets that an instruction can hold.
pub open spec fn buffer_of(cell: CellExpression, slack: i16) -> Result<Operand, InvocationError> {
    match cell {
        CellExpression::Deref(c) => Ok(Operand::Buffer(c, 0)),
        CellExpression::AddConst(c, k) => if k + slack <= i16::MAX {
            Ok(Operand::Buffer(c, k))
        } else {
            Err(InvocationError::InvalidReferenceExpressionForArgument)
        },
        _ => Err(InvocationError::InvalidReferenceExpressionForArgument),
    }
}

impl CellExpression {
    /// Demands the content of a cell.
    pub fn to_deref(&self) -> (r: Result<CellRef, InvocationError>)
        ensures
            r == deref_of(*self),
    {
        match self {
            CellExpression::Deref(c) => Ok(*c),
            _ => Err(InvocationError::InvalidReferenceExpressionForArgument),
        }
    }

    /// Demands a pointer that can be read from for `slack` more cells.
    pub fn to_buffer(&self, slack: i16) -> (r: Result<Operand, InvocationError>)
        ensures
            r == buffer_of(*self, slack),
    {
        match self {
            CellExpression::Deref(c) => Ok(Operand::Buffer(*c, 0)),
            CellExpression::AddConst(c, k) => {
                if *k as i32 + slack as i32 <= i16::MAX as i32 {
                    Ok(Operand::Buffer(*c, *k))
                } else {
                    Err(InvocationError::InvalidReferenceExpressionForArgument)
                }
            },
            _ => Err(InvocationError::InvalidReferenceExpressionForArgument),
        }
    }
}

/// A builder variable, by the order in which it was introduced.
#[derive(Clone, Copy, Debug, PartialEq, Eq, Structural)]
pub struct Var(pub usize);

/// The exits of the contract call.
#[derive(Clone, Copy, Debug, PartialEq, Eq, Structural)]
pub enum BranchLabel {
    Fallthrough,
    Failure,
}

/// One step of the assembly builder. Steps that introduce a variable give it
/// the next free number.
#[derive(Debug, PartialEq, Eq)]
pub enum BuildStep {
    /// Introduces a variable for an operand.
    AddVar(Operand),
    /// Introduces a temporary that holds a constant.
    TempVarConst(BigInt),
    /// Introduces a second name for a variable, with its present value.
    Alias(Var),
    /// Asserts that the value equals the next cell of the buffer, and
    /// advances the buffer.
    AssertBufferNext { value: Var, buffer: Var },
    /// Emits the system-call hint on the buffer.
    SystemCallHint { system: Var },
    /// Introduces a variable for the next cell of the buffer, and advances it.
    LetBufferNext { buffer: Var },
    /// Introduces a temporary that holds the next cell of the buffer, and
    /// advances it.
    TempVarBufferNext { buffer: Var },
    /// Jumps to the label when the variable is not zero.
    JumpNonZero { condition: Var, label: BranchLabel },
}

/// One exit: its label, the variables of each output, and the statement that
/// an explicit jump continues at.
#[derive(Debug, PartialEq, Eq)]
pub struct BranchPlan {
    pub label: BranchLabel,
    pub outputs: Vec<Vec<Var>>,
    pub target: Option<usize>,
}

/// A lowered invocation: the builder steps and the exits.
#[derive(Debug, PartialEq, Eq)]
pub struct CompiledInvocation {
    pub steps: Vec<BuildStep>,
    pub branches: Vec<BranchPlan>,
}

/// The operands that the contract call starts from.
pub struct CallContractOperands {
    pub system: Operand,
    pub gas_builtin: CellRef,
    pub contract_address: CellRef,
    pub call_data_start: CellRef,
    pub call_data_end: CellRef,
}

/// The single cell of a reference.
pub open spec fn single_cell(expr: ReferenceExpression) -> Result<
    CellExpression,
    InvocationError,
> {
    if expr.cells@.len() == 1 {
        Ok(expr.cells@[0])
    } else {
        Err(InvocationError::InvalidReferenceExpressionForArgument)
    }
}

/// The single cell of a reference, as the content of a cell.
pub open spec fn single_deref(expr: ReferenceExpression) -> Result<CellRef, InvocationError> {
    match single_cell(expr) {
        Ok(cell) => deref_of(cell),
        Err(e) => Err(e),
    }
}

/// The operands of the contract call, from its four references: the gas
/// counter, the system buffer, the address and the call data's two ends. The
/// first reference that has not the demanded shape decides the error.
pub open spec fn call_contract_operands(refs: Seq<ReferenceExpression>) -> Result<
    CallContractOperands,
    InvocationError,
> {
    if refs.len() != 4 {
        Err(InvocationError::WrongNumberOfArguments { expected: 4, actual: refs.len() as usize })
    } else {
        match single_deref(refs[0]) {
            Err(e) => Err(e),
            Ok(gas_builtin) => match single_cell(refs[1]) {
                Err(e) => Err(e),
                Ok(system_cell) => match buffer_of(system_cell, 8) {
                    Err(e) => Err(e),
                    Ok(system) => match single_deref(refs[2]) {
                        Err(e) => Err(e),
                        Ok(contract_address) => if refs[3].cells@.len() != 2 {
                            Err(InvocationError::InvalidReferenceExpressionForArgument)
                        } else {
                            match deref_of(refs[3].cells@[0]) {
                                Err(e) => Err(e),
                                Ok(call_data_start) => match deref_of(refs[3].cells@[1]) {
                                    Err(e) => Err(e),
                                    Ok(call_data_end) => Ok(
                                        CallContractOperands {
                                            system,
                                            gas_builtin,
                                            contract_address,
                                            call_data_start,
                                            call_data_end,
                                        },
                                    ),
                                },
                            }
                        },
                    },
                },
            },
        }
    }
}

/// The steps of the contract call: the request is written to the system
/// buffer (selector, gas, address, call data), the call is made, the response
/// is read (gas, revert reason, result), and a revert reason other than zero
/// leaves by the failure exit.
pub open spec fn call_contract_steps(ops: CallContractOperands, selector: BigInt) -> Seq<
    BuildStep,
> {
    seq![
        BuildStep::AddVar(ops.system),
        BuildStep::AddVar(Operand::Deref(ops.gas_builtin)),
        BuildStep::AddVar(Operand::Deref(ops.contract_address)),
        BuildStep::AddVar(Operand::Deref(ops.call_data_start)),
        BuildStep::AddVar(Operand::Deref(ops.call_data_end)),
        BuildStep::TempVarConst(selector),
        BuildStep::Alias(Var(0)),
        (BuildStep::AssertBufferNext { value: Var(5), buffer: Var(0) }),
        (BuildStep::AssertBufferNext { value: Var(1), buffer: Var(0) }),
        (BuildStep::AssertBufferNext { value: Var(2), buffer: Var(0) }),
        (BuildStep::AssertBufferNext { value: Var(3), buffer: Var(0) }),
        (BuildStep::AssertBufferNext { value: Var(4), buffer: Var(0) }),
        (BuildStep::SystemCallHint { system: Var(6) }),
        (BuildStep::LetBufferNext { buffer: Var(0) }),
        (BuildStep::TempVarBufferNext { buffer: Var(0) }),
        (BuildStep::LetBufferNext { buffer: Var(0) }),
        (BuildStep::LetBufferNext { buffer: Var(0) }),
        (BuildStep::JumpNonZero { condition: Var(8), label: BranchLabel::Failure }),
    ]
}

/// The outputs of the success exit: gas, system, result range.
pub open spec fn success_outputs() -> Seq<Seq<Var>> {
    seq![seq![Var(7)], seq![Var(0)], seq![Var(9), Var(10)]]
}

/// The outputs of the failure exit: gas, system, revert reason, result range.
pub open spec fn failure_outputs() -> Seq<Seq<Var>> {
    seq![seq![Var(7)], seq![Var(0)], seq![Var(8)], seq![Var(9), Var(10)]]
}

/// Rows of variables.
pub open spec fn var_rows(outputs: Seq<Vec<Var>>) -> Seq<Seq<Var>> {
    Seq::new(outputs.len(), |i: int| outputs[i]@)
}

/// The name of the system call, which its selector spells.
pub open spec fn selector_value() -> int {
    le_value(vstd::utf8::encode_utf8("call_contract"@))
}

/// The single cell of a reference.
fn unpack_single(expr: &ReferenceExpression) -> (r: Result<&CellExpression, InvocationError>)
    ensures
        match single_cell(*expr) {
            Ok(cell) => r is Ok && *r->Ok_0 == cell,
            Err(e) => r is Err && r->Err_0 == e,
        },
{
    if expr.cells.len() == 1 {
        Ok(&expr.cells[0])
    } else {
        Err(InvocationError::InvalidReferenceExpressionForArgument)
    }
}

/// The single cell of a reference, as the content of a cell.
fn unpack_single_deref(expr: &ReferenceExpression) -> (r: Result<CellRef, InvocationError>)
    ensures
        r == single_deref(*expr),
{
    match unpack_single(expr) {
        Ok(cell) => cell.to_deref(),
        Err(e) => Err(e),
    }
}

/// Reads the operands of the contract call from its references.
pub fn unpack_call_contract(refs: &Vec<ReferenceExpression>) -> (r: Result<
    CallContractOperands,
    InvocationError,
>)
    ensures
        r == call_contract_operands(refs@),
{
    if refs.len() != 4 {
        return Err(InvocationError::WrongNumberOfArguments { expected: 4, actual: refs.len() });
    }
    let gas_builtin = match unpack_single_deref(&refs[0]) {
        Ok(c) => c,
        Err(e) => {
            return Err(e);
        },
    };
    let system_cell = match unpack_single(&refs[1]) {
        Ok(c) => c,
        Err(e) => {
            return Err(e);
        },
    };
    let system = match system_cell.to_buffer(8) {
        Ok(c) => c,
        Err(e) => {
            return Err(e);
        },
    };
    let contract_address = match unpack_single_deref(&refs[2]) {
        Ok(c) => c,
        Err(e) => {
            return Err(e);
        },
    };
    if refs[3].cells.len() != 2 {
        return Err(InvocationError::InvalidReferenceExpressionForArgument);
    }
    let call_data_start = match refs[3].cells[0].to_deref() {
        Ok(c) => c,
        Err(e) => {
            return Err(e);
        },
    };
    let call_data_end = match refs[3].cells[1].to_deref() {
        Ok(c) => c,
        Err(e) => {
            return Err(e);
        },
    };
    Ok(CallContractOperands { system, gas_builtin, contract_address, call_data_start, call_data_end })
}

/// One output that consists of one variable.
fn one_var(v: usize) -> (r: Vec<Var>)
    ensures
        r@ == seq![Var(v)],
{
    let mut out: Vec<Var> = Vec::new();
    out.push(Var(v));
    assert(out@ =~= seq![Var(v)]);
    out
}

/// One output that consists of two variables.
fn two_vars(v: usize, w: usize) -> (r: Vec<Var>)
    ensures
        r@ == seq![Var(v), Var(w)],
{
    let mut out: Vec<Var> = Vec::new();
    out.push(Var(v));
    out.push(Var(w));
    assert(out@ =~= seq![Var(v), Var(w)]);
    out
}

/// Lays out the contract call for operands that were read already, with the
/// selector constant and the statement at which the failure exit continues.
pub fn lay_out_call_contract(
    ops: CallContractOperands,
    selector: BigInt,
    failure_handle_statement_id: usize,
) -> (r: CompiledInvocation)
    ensures
        r.steps@ == call_contract_steps(ops, selector),
        r.branches@.len() == 2,
        r.branches@[0].label == BranchLabel::Fallthrough,
        var_rows(r.branches@[0].outputs@) == success_outputs(),
        r.branches@[0].target == None::<usize>,
        r.branches@[1].label == BranchLabel::Failure,
        var_rows(r.branches@[1].outputs@) == failure_outputs(),
        r.branches@[1].target == Some(failure_handle_statement_id),
{
    let ghost expected = call_contract_steps(ops, selector);
    let mut steps: Vec<BuildStep> = Vec::new();
    steps.push(BuildStep::AddVar(ops.system));
    steps.push(BuildStep::AddVar(Operand::Deref(ops.gas_builtin)));
    steps.push(BuildStep::AddVar(Operand::Deref(ops.contract_address)));
    steps.push(BuildStep::AddVar(Operand::Deref(ops.call_data_start)));
    steps.push(BuildStep::AddVar(Operand::Deref(ops.call_data_end)));
    steps.push(BuildStep::TempVarConst(selector));
    steps.push(BuildStep::Alias(Var(0)));
    steps.push(BuildStep::AssertBufferNext { value: Var(5), buffer: Var(0) });
    steps.push(BuildStep::AssertBufferNext { value: Var(1), buffer: Var(0) });
    steps.push(BuildStep::AssertBufferNext { value: Var(2), buffer: Var(0) });
    steps.push(BuildStep::AssertBufferNext { value: Var(3), buffer: Var(0) });
    steps.push(BuildStep::AssertBufferNext { value: Var(4), buffer: Var(0) });
    steps.push(BuildStep::SystemCallHint { system: Var(6) });
    steps.push(BuildStep::LetBufferNext { buffer: Var(0) });
    steps.push(BuildStep::TempVarBufferNext { buffer: Var(0) });
    steps.push(BuildStep::LetBufferNext { buffer: Var(0) });
    steps.push(BuildStep::LetBufferNext { buffer: Var(0) });
    steps.push(BuildStep::JumpNonZero { condition: Var(8), label: BranchLabel::Failure });
    assert(steps@ =~= expected);
    let mut success: Vec<Vec<Var>> = Vec::new();
    success.push(one_var(7));
    success.push(one_var(0));
    success.push(two_vars(9, 10));
    assert(var_rows(success@) =~= success_outputs());
    let mut failure: Vec<Vec<Var>> = Vec::new();
    failure.push(one_var(7));
    failure.push(one_var(0));
    failure.push(one_var(8));
    failure.push(two_vars(9, 10));
    assert(var_rows(failure@) =~= failure_outputs());
    let mut branches: Vec<BranchPlan> = Vec::new();
    branches.push(BranchPlan { label: BranchLabel::Fallthrough, outputs: success, target: None });
    branches.push(
        BranchPlan {
            label: BranchLabel::Failure,
            outputs: failure,
            target: Some(failure_handle_statement_id),
        },
    );
    CompiledInvocation { steps, branches }
}

/// The selector of a lowered contract call.
pub open spec fn selector_of(invocation: CompiledInvocation) -> BigInt {
    invocation.steps@[5]->TempVarConst_0
}

/// Lowers the contract call: reads the operands from the four references,
/// and lays out the steps with the selector that spells the call's name.
pub fn build_call_contract(refs: &Vec<ReferenceExpression>, failure_handle_statement_id: usize) -> (r:
    Result<CompiledInvocation, InvocationError>)
    ensures
        match call_contract_operands(refs@) {
            Err(e) => r is Err && r->Err_0 == e,
            Ok(ops) => {
                &&& r is Ok
                &&& r->Ok_0.steps@ == call_contract_steps(ops, selector_of(r->Ok_0))
                &&& bigint_value(selector_of(r->Ok_0)) == selector_value()
                &&& r->Ok_0.branches@.len() == 2
                &&& r->Ok_0.branches@[0].label == BranchLabel::Fallthrough
                &&& var_rows(r->Ok_0.branches@[0].outputs@) == success_outputs()
                &&& r->Ok_0.branches@[0].target == None::<usize>
                &&& r->Ok_0.branches@[1].label == BranchLabel::Failure
                &&& var_rows(r->Ok_0.branches@[1].outputs@) == failure_outputs()
                &&& r->Ok_0.branches@[1].target == Some(failure_handle_statement_id)
            },
        },
{
    let selector_imm = bigint_from_bytes_le("call_contract".as_bytes());
    let ops = match unpack_call_contract(refs) {
        Ok(ops) => ops,
        Err(e) => {
            return Err(e);
        },
    };
    Ok(lay_out_call_contract(ops, selector_imm, failure_handle_statement_id))
}

/// The bytes, least significant first, of the least number that is no
/// contract address: two to the power 251, less 256.
pub open spec fn address_bound_bytes() -> Seq<u8> {
    Seq::new(
        32,
        |i: int|
            if i == 0 {
                0u8
            } else if i < 31 {
                255u8
            } else {
                7u8
            },
    )
}

/// The least number that is no contract address.
pub open spec fn address_bound() -> int {
    pow2(251) - 256
}

/// Whether a constant is a contract address: not zero and below the bound.
pub open spec fn is_contract_address(value: int) -> bool {
    value != 0 && value < address_bound()
}

/// The number that the bound's bytes from index `i` on spell.
proof fn lemma_bound_tail(i: int)
    requires
        1 <= i <= 31,
    ensures
        le_value(address_bound_bytes().subrange(i, 32)) == pow2((3 + 8 * (31 - i)) as nat) - 1,
    decreases 31 - i,
{
    let s = address_bound_bytes().subrange(i, 32);
    lemma2_to64();
    if i == 31 {
        assert(s[0] == 7u8);
        assert(s.drop_first().len() == 0);
        assert(le_value(s.drop_first()) == 0);
    } else {
        lemma_bound_tail(i + 1);
        assert(s.drop_first() =~= address_bound_bytes().subrange(i + 1, 32));
        assert(s[0] == 255u8);
        lemma_pow2_adds((3 + 8 * (30 - i)) as nat, 8);
    }
}

/// The bound's bytes spell the bound.
pub proof fn lemma_address_bound()
    ensures
        le_value(address_bound_bytes()) == address_bound(),
{
    let s = address_bound_bytes();
    lemma_bound_tail(1);
    assert(s.drop_first() =~= s.subrange(1, 32));
    assert(s[0] == 0u8);
    lemma2_to64();
    lemma_pow2_adds(243, 8);
}

/// Whether a constant is a contract address.
pub fn check_contract_address(c: &BigInt) -> (r: bool)
    ensures
        r == is_contract_address(bigint_value(*c)),
{
    let mut bytes: Vec<u8> = Vec::new();
    bytes.push(0u8);
    while bytes.len() < 31
        invariant
            1 <= bytes@.len() <= 31,
            forall|k: int| 0 <= k < bytes@.len() ==> bytes@[k] == address_bound_bytes()[k],
        decreases 31 - bytes@.len(),
    {
        bytes.push(255u8);
    }
    bytes.push(7u8);
    assert(bytes@ =~= address_bound_bytes());
    proof {
        lemma_address_bound();
    }
    let addr_bound = bigint_from_bytes_le(bytes.as_slice());
    !(bigint_is_zero(c) || bigint_ge(c, &addr_bound))
}

/// Lowers the contract-address constant: a constant that is a contract
/// address becomes a reference of one immediate cell.
pub fn build_contract_address_const(c: BigInt) -> (r: Result<ReferenceExpression, InvocationError>)
    ensures
        is_contract_address(bigint_value(c)) ==> r is Ok && r->Ok_0.cells@
            == seq![CellExpression::Immediate(c)],
        !is_contract_address(bigint_value(c)) ==> r is Err && r->Err_0
            == InvocationError::InvalidGenericArg,
{
    if !check_contract_address(&c) {
        return Err(InvocationError::InvalidGenericArg);
    }
    let mut cells: Vec<CellExpression> = Vec::new();
    cells.push(CellExpression::Immediate(c));
    assert(cells@ =~= seq![CellExpression::Immediate(c)]);
    Ok(ReferenceExpression { cells })
}

} // verus!
