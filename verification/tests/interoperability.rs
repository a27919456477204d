use num_bigint::{BigInt, Sign};
use sierra_backend::interoperability::{
    build_call_contract, build_contract_address_const, check_contract_address, BranchLabel,
    BuildStep, CellExpression, CellRef, InvocationError, Operand, ReferenceExpression, Register,
    Var,
};

fn cell(offset: i16) -> CellRef {
    CellRef { register: Register::FP, offset }
}

fn single(expr: CellExpression) -> ReferenceExpression {
    ReferenceExpression { cells: vec![expr] }
}

fn call_refs() -> Vec<ReferenceExpression> {
    vec![
        single(CellExpression::Deref(cell(-6))),
        single(CellExpression::AddConst(cell(-5), 3)),
        single(CellExpression::Deref(cell(-4))),
        ReferenceExpression {
            cells: vec![CellExpression::Deref(cell(-3)), CellExpression::Deref(cell(-2))],
        },
    ]
}

fn bound() -> BigInt {
    (BigInt::from(1) << 251usize) - BigInt::from(256)
}

#[test]
fn address_constant_in_range_is_immediate() {
    assert_eq!(
        build_contract_address_const(BigInt::from(1)),
        Ok(single(CellExpression::Immediate(BigInt::from(1))))
    );
    let last: BigInt = bound() - BigInt::from(1);
    assert_eq!(
        build_contract_address_const(last.clone()),
        Ok(single(CellExpression::Immediate(last)))
    );
}

#[test]
fn address_constant_out_of_range_is_refused() {
    assert_eq!(
        build_contract_address_const(BigInt::from(0)),
        Err(InvocationError::InvalidGenericArg)
    );
    assert_eq!(build_contract_address_const(bound()), Err(InvocationError::InvalidGenericArg));
    assert_eq!(
        build_contract_address_const(bound() + BigInt::from(1000)),
        Err(InvocationError::InvalidGenericArg)
    );
    assert!(check_contract_address(&BigInt::from(-1)));
    assert!(!check_contract_address(&bound()));
    assert!(check_contract_address(&(bound() - BigInt::from(1))));
}

#[test]
fn call_contract_steps_and_branches() {
    let compiled = build_call_contract(&call_refs(), 17).unwrap();
    assert_eq!(compiled.steps.len(), 18);
    assert_eq!(compiled.steps[0], BuildStep::AddVar(Operand::Buffer(cell(-5), 3)));
    assert_eq!(compiled.steps[1], BuildStep::AddVar(Operand::Deref(cell(-6))));
    assert_eq!(compiled.steps[2], BuildStep::AddVar(Operand::Deref(cell(-4))));
    assert_eq!(compiled.steps[3], BuildStep::AddVar(Operand::Deref(cell(-3))));
    assert_eq!(compiled.steps[4], BuildStep::AddVar(Operand::Deref(cell(-2))));
    assert_eq!(
        compiled.steps[5],
        BuildStep::TempVarConst(BigInt::from_bytes_le(Sign::Plus, "call_contract".as_bytes()))
    );
    assert_eq!(compiled.steps[6], BuildStep::Alias(Var(0)));
    assert_eq!(compiled.steps[7], BuildStep::AssertBufferNext { value: Var(5), buffer: Var(0) });
    assert_eq!(compiled.steps[11], BuildStep::AssertBufferNext { value: Var(4), buffer: Var(0) });
    assert_eq!(compiled.steps[12], BuildStep::SystemCallHint { system: Var(6) });
    assert_eq!(compiled.steps[13], BuildStep::LetBufferNext { buffer: Var(0) });
    assert_eq!(compiled.steps[14], BuildStep::TempVarBufferNext { buffer: Var(0) });
    assert_eq!(
        compiled.steps[17],
        BuildStep::JumpNonZero { condition: Var(8), label: BranchLabel::Failure }
    );
    assert_eq!(compiled.branches.len(), 2);
    assert_eq!(compiled.branches[0].label, BranchLabel::Fallthrough);
    assert_eq!(
        compiled.branches[0].outputs,
        vec![vec![Var(7)], vec![Var(0)], vec![Var(9), Var(10)]]
    );
    assert_eq!(compiled.branches[0].target, None);
    assert_eq!(compiled.branches[1].label, BranchLabel::Failure);
    assert_eq!(
        compiled.branches[1].outputs,
        vec![vec![Var(7)], vec![Var(0)], vec![Var(8)], vec![Var(9), Var(10)]]
    );
    assert_eq!(compiled.branches[1].target, Some(17));
}

#[test]
fn call_contract_selector_spells_the_name() {
    let compiled = build_call_contract(&call_refs(), 0).unwrap();
    assert_eq!(
        BigInt::from_bytes_le(Sign::Plus, "call_contract".as_bytes()),
        BigInt::from_bytes_be(Sign::Plus, "tcartnoc_llac".as_bytes())
    );
    match &compiled.steps[5] {
        BuildStep::TempVarConst(v) => {
            assert_eq!(v, &BigInt::from_bytes_be(Sign::Plus, "tcartnoc_llac".as_bytes()));
            assert_eq!(v.to_bytes_le(), (Sign::Plus, "call_contract".as_bytes().to_vec()));
        }
        other => panic!("unexpected step {:?}", other),
    }
}

#[test]
fn call_contract_rejects_malformed_references() {
    let mut refs = call_refs();
    refs.pop();
    assert_eq!(
        build_call_contract(&refs, 0),
        Err(InvocationError::WrongNumberOfArguments { expected: 4, actual: 3 })
    );
    let mut refs = call_refs();
    refs[0] = single(CellExpression::Immediate(BigInt::from(3)));
    assert_eq!(
        build_call_contract(&refs, 0),
        Err(InvocationError::InvalidReferenceExpressionForArgument)
    );
    let mut refs = call_refs();
    refs[1] = single(CellExpression::AddConst(cell(0), i16::MAX - 7));
    assert_eq!(
        build_call_contract(&refs, 0),
        Err(InvocationError::InvalidReferenceExpressionForArgument)
    );
    let mut refs = call_refs();
    refs[1] = single(CellExpression::AddConst(cell(0), i16::MAX - 8));
    assert!(build_call_contract(&refs, 0).is_ok());
    let mut refs = call_refs();
    refs[3] = single(CellExpression::Deref(cell(1)));
    assert_eq!(
        build_call_contract(&refs, 0),
        Err(InvocationError::InvalidReferenceExpressionForArgument)
    );
    let mut refs = call_refs();
    refs[2] = single(CellExpression::DoubleDeref(cell(1), 0));
    assert_eq!(
        build_call_contract(&refs, 0),
        Err(InvocationError::InvalidReferenceExpressionForArgument)
    );
}
