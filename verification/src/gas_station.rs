//! The resource-adjustment extensions: a branching attempt to pay a fixed
//! amount of gas, and an unconditional refund.

use crate::extensions::{
    args_view, as_deferred, as_final, as_final_spec, gas_builtin_type, gas_usage, named_type,
    rows, single_value_arg, single_value_spec, validate_mem_sizes, Cursors, Effects, Error,
    ExtensionSignature, ExtensionSignatureView, Op, RefValue, TemplateArg, TemplateArgView, Type,
    TypeView,
};
use crate::libfuncs::Extension;
use crate::registry::{TypeEntry, TypeRegistry, TypeRule};
use vstd::prelude::*;

verus! {

/// The gas amount that a template-argument list names: its single argument,
/// an integer above zero.
pub open spec fn gas_value_spec(args: Seq<TemplateArgView>) -> Result<i64, Error> {
    match single_value_spec(args) {
        Err(e) => Err(e),
        Ok(gas) => if gas <= 0 {
            Err(Error::UnsupportedTypeArg)
        } else {
            Ok(gas)
        },
    }
}

/// Reads the gas amount of a resource-adjustment extension.
pub fn gas_value_arg(tmpl_args: &Vec<TemplateArg>) -> (r: Result<i64, Error>)
    ensures
        r == gas_value_spec(args_view(tmpl_args@)),
        r is Ok ==> r->Ok_0 > 0,
        tmpl_args@.len() != 1 ==> r == Err::<i64, Error>(Error::WrongNumberOfTypeArgs),
{
    let gas = match single_value_arg(tmpl_args) {
        Ok(gas) => gas,
        Err(e) => {
            return Err(e);
        },
    };
    if gas <= 0 {
        Err(Error::UnsupportedTypeArg)
    } else {
        Ok(gas)
    }
}

/// The view of the gas counter's type.
pub open spec fn gas_type() -> TypeView {
    named_type("GasBuiltin"@, Seq::empty())
}

/// The view of the type of a gas counter whose update is not yet stored.
pub open spec fn deferred_gas_type() -> TypeView {
    named_type("Deferred"@, seq![TemplateArgView::Type(gas_type())])
}

/// Signature of the attempt to pay: one counter in; on success the deferred
/// counter, on the fallthrough branch the counter as it was.
pub open spec fn get_gas_signature() -> ExtensionSignatureView {
    ExtensionSignatureView {
        args: seq![gas_type()],
        results: seq![seq![deferred_gas_type()], seq![gas_type()]],
        fallthrough: Some(1usize),
    }
}

/// References after the attempt to pay, per branch.
pub open spec fn get_gas_refs(args: Seq<TemplateArgView>, arg_refs: Seq<RefValue>) -> Result<
    Seq<Seq<RefValue>>,
    Error,
> {
    if arg_refs.len() == 0 {
        Err(Error::IllegalArgsLocation)
    } else {
        match as_final_spec(arg_refs[0]) {
            Err(e) => Err(e),
            Ok(loc) => match gas_value_spec(args) {
                Err(e) => Err(e),
                Ok(gas) => Ok(
                    seq![seq![RefValue::OpWithConst(loc, Op::Sub, gas)], seq![arg_refs[0]]],
                ),
            },
        }
    }
}

/// Gas deltas of the attempt to pay, per branch: the success branch pays the
/// amount less the unit that every branch gets back.
pub open spec fn get_gas_effects(args: Seq<TemplateArgView>) -> Result<Seq<Effects>, Error> {
    match gas_value_spec(args) {
        Err(e) => Err(e),
        Ok(gas) => Ok(
            seq![
                (Effects { gas_usage: (1 - gas) as i64 }),
                (Effects { gas_usage: 1 }),
            ],
        ),
    }
}

/// Concrete outcome of the attempt to pay: with enough gas, branch 0 and the
/// counter less the amount; otherwise branch 1 and the counter unchanged.
pub open spec fn get_gas_exec(args: Seq<TemplateArgView>, inputs: Seq<Seq<i64>>) -> Result<
    (Seq<Seq<i64>>, usize),
    Error,
> {
    match gas_value_spec(args) {
        Err(e) => Err(e),
        Ok(gas) => if inputs.len() != 1 || inputs[0].len() != 1 {
            Err(Error::UnexpectedMemoryStructure)
        } else if inputs[0][0] >= gas {
            Ok((seq![seq![(inputs[0][0] - gas) as i64]], 0usize))
        } else {
            Ok((seq![seq![inputs[0][0]]], 1usize))
        },
    }
}

/// The branching attempt to pay a fixed amount of gas.
#[derive(Clone, Copy, Debug, PartialEq, Eq, Structural)]
pub struct GetGasExtension {}

impl GetGasExtension {
    /// The signature, for a template-argument list that names a gas amount.
    pub fn get_signature(&self, tmpl_args: &Vec<TemplateArg>) -> (r: Result<
        ExtensionSignature,
        Error,
    >)
        ensures
            match gas_value_spec(args_view(tmpl_args@)) {
                Ok(_) => r is Ok && r->Ok_0@ == get_gas_signature(),
                Err(e) => r is Err && r->Err_0 == e,
            },
            tmpl_args@.len() != 1 ==> r is Err && r->Err_0 == Error::WrongNumberOfTypeArgs,
    {
        match gas_value_arg(tmpl_args) {
            Ok(_) => {},
            Err(e) => {
                return Err(e);
            },
        }
        let mut args: Vec<Type> = Vec::new();
        args.push(gas_builtin_type());
        let mut success: Vec<Type> = Vec::new();
        success.push(as_deferred(gas_builtin_type()));
        let mut failure: Vec<Type> = Vec::new();
        failure.push(gas_builtin_type());
        let mut results: Vec<Vec<Type>> = Vec::new();
        results.push(success);
        results.push(failure);
        let sig = ExtensionSignature { args, results, fallthrough: Some(1) };
        proof {
            assert(sig@.args =~= get_gas_signature().args);
            assert(sig@.results[0] =~= get_gas_signature().results[0]);
            assert(sig@.results[1] =~= get_gas_signature().results[1]);
            assert(sig@.results =~= get_gas_signature().results);
        }
        Ok(sig)
    }

    /// Where the results live, per branch, from where the counter lives.
    pub fn ref_values(
        &self,
        tmpl_args: &Vec<TemplateArg>,
        _registry: &TypeRegistry,
        _cursors: &Cursors,
        arg_refs: Vec<RefValue>,
    ) -> (r: Result<Vec<Vec<RefValue>>, Error>)
        ensures
            match get_gas_refs(args_view(tmpl_args@), arg_refs@) {
                Ok(refs) => r is Ok && rows(r->Ok_0@) == refs,
                Err(e) => r is Err && r->Err_0 == e,
            },
    {
        if arg_refs.len() == 0 {
            return Err(Error::IllegalArgsLocation);
        }
        let loc = match as_final(&arg_refs[0]) {
            Ok(loc) => loc,
            Err(e) => {
                return Err(e);
            },
        };
        let gas = match gas_value_arg(tmpl_args) {
            Ok(gas) => gas,
            Err(e) => {
                return Err(e);
            },
        };
        let mut success: Vec<RefValue> = Vec::new();
        success.push(RefValue::OpWithConst(loc, Op::Sub, gas));
        let mut failure: Vec<RefValue> = Vec::new();
        failure.push(arg_refs[0]);
        let mut out: Vec<Vec<RefValue>> = Vec::new();
        out.push(success);
        out.push(failure);
        proof {
            let refs = get_gas_refs(args_view(tmpl_args@), arg_refs@)->Ok_0;
            assert(rows(out@)[0] =~= refs[0]);
            assert(rows(out@)[1] =~= refs[1]);
            assert(rows(out@) =~= refs);
        }
        Ok(out)
    }

    /// The gas delta of each branch.
    pub fn effects(&self, tmpl_args: &Vec<TemplateArg>, _registry: &TypeRegistry) -> (r: Result<
        Vec<Effects>,
        Error,
    >)
        ensures
            match get_gas_effects(args_view(tmpl_args@)) {
                Ok(effects) => r is Ok && r->Ok_0@ == effects,
                Err(e) => r is Err && r->Err_0 == e,
            },
    {
        let gas = match gas_value_arg(tmpl_args) {
            Ok(gas) => gas,
            Err(e) => {
                return Err(e);
            },
        };
        let mut out: Vec<Effects> = Vec::new();
        out.push(gas_usage(-gas + 1));
        out.push(gas_usage(1));
        proof {
            assert(out@ =~= get_gas_effects(args_view(tmpl_args@))->Ok_0);
        }
        Ok(out)
    }

    /// Runs the attempt on a concrete counter; returns the outputs and the
    /// index of the branch taken.
    pub fn exec(
        &self,
        tmpl_args: &Vec<TemplateArg>,
        _registry: &TypeRegistry,
        inputs: Vec<Vec<i64>>,
    ) -> (r: Result<(Vec<Vec<i64>>, usize), Error>)
        ensures
            match get_gas_exec(args_view(tmpl_args@), rows(inputs@)) {
                Ok((outputs, branch)) => r is Ok && rows(r->Ok_0.0@) == outputs && r->Ok_0.1
                    == branch,
                Err(e) => r is Err && r->Err_0 == e,
            },
    {
        let gas = match gas_value_arg(tmpl_args) {
            Ok(gas) => gas,
            Err(e) => {
                return Err(e);
            },
        };
        let sizes: [usize; 1] = [1];
        match validate_mem_sizes(&inputs, sizes.as_slice()) {
            Ok(_) => {},
            Err(e) => {
                assert(rows(inputs@).len() == 1 ==> rows(inputs@)[0].len() != 1);
                return Err(e);
            },
        }
        assert(rows(inputs@)[0].len() == 1);
        let left: i64 = inputs[0][0];
        let mut word: Vec<i64> = Vec::new();
        let branch: usize;
        if left >= gas {
            word.push(left - gas);
            branch = 0;
        } else {
            word.push(left);
            branch = 1;
        }
        let mut out: Vec<Vec<i64>> = Vec::new();
        out.push(word);
        proof {
            let expected = get_gas_exec(args_view(tmpl_args@), rows(inputs@))->Ok_0.0;
            assert(rows(out@)[0] =~= expected[0]);
            assert(rows(out@) =~= expected);
        }
        Ok((out, branch))
    }
}

/// Signature of the refund: one counter in, the deferred counter out.
pub open spec fn refund_gas_signature() -> (Seq<TypeView>, Seq<TypeView>) {
    (seq![gas_type()], seq![deferred_gas_type()])
}

/// References after the refund.
pub open spec fn refund_gas_refs(args: Seq<TemplateArgView>, arg_refs: Seq<RefValue>) -> Result<
    Seq<RefValue>,
    Error,
> {
    if arg_refs.len() == 0 {
        Err(Error::IllegalArgsLocation)
    } else {
        match as_final_spec(arg_refs[0]) {
            Err(e) => Err(e),
            Ok(loc) => match gas_value_spec(args) {
                Err(e) => Err(e),
                Ok(gas) => Ok(seq![RefValue::OpWithConst(loc, Op::Add, gas)]),
            },
        }
    }
}

/// Concrete outcome of the refund: the counter plus the amount, as long as
/// one memory word can hold it.
pub open spec fn refund_gas_exec(args: Seq<TemplateArgView>, inputs: Seq<Seq<i64>>) -> Result<
    Seq<Seq<i64>>,
    Error,
> {
    if inputs.len() != 1 || inputs[0].len() != 1 {
        Err(Error::UnexpectedMemoryStructure)
    } else {
        match gas_value_spec(args) {
            Err(e) => Err(e),
            Ok(gas) => if inputs[0][0] + gas > i64::MAX {
                Err(Error::UnexpectedMemoryStructure)
            } else {
                Ok(seq![seq![(inputs[0][0] + gas) as i64]])
            },
        }
    }
}

/// The unconditional refund of a fixed amount of gas.
#[derive(Clone, Copy, Debug, PartialEq, Eq, Structural)]
pub struct RefundGasExtension {}

impl RefundGasExtension {
    /// The argument and result types, for a template-argument list that
    /// names a gas amount.
    pub fn get_signature(&self, tmpl_args: &Vec<TemplateArg>) -> (r: Result<
        (Vec<Type>, Vec<Type>),
        Error,
    >)
        ensures
            match gas_value_spec(args_view(tmpl_args@)) {
                Ok(_) => r is Ok && (
                    crate::extensions::types_view(r->Ok_0.0@),
                    crate::extensions::types_view(r->Ok_0.1@),
                ) == refund_gas_signature(),
                Err(e) => r is Err && r->Err_0 == e,
            },
            tmpl_args@.len() != 1 ==> r is Err && r->Err_0 == Error::WrongNumberOfTypeArgs,
    {
        match gas_value_arg(tmpl_args) {
            Ok(_) => {},
            Err(e) => {
                return Err(e);
            },
        }
        let mut args: Vec<Type> = Vec::new();
        args.push(gas_builtin_type());
        let mut results: Vec<Type> = Vec::new();
        results.push(as_deferred(gas_builtin_type()));
        proof {
            assert(crate::extensions::types_view(args@) =~= refund_gas_signature().0);
            assert(crate::extensions::types_view(results@) =~= refund_gas_signature().1);
        }
        Ok((args, results))
    }

    /// Where the result lives, from where the counter lives.
    pub fn ref_values(
        &self,
        tmpl_args: &Vec<TemplateArg>,
        _registry: &TypeRegistry,
        _cursors: &Cursors,
        arg_refs: Vec<RefValue>,
    ) -> (r: Result<Vec<RefValue>, Error>)
        ensures
            match refund_gas_refs(args_view(tmpl_args@), arg_refs@) {
                Ok(refs) => r is Ok && r->Ok_0@ == refs,
                Err(e) => r is Err && r->Err_0 == e,
            },
    {
        if arg_refs.len() == 0 {
            return Err(Error::IllegalArgsLocation);
        }
        let loc = match as_final(&arg_refs[0]) {
            Ok(loc) => loc,
            Err(e) => {
                return Err(e);
            },
        };
        let gas = match gas_value_arg(tmpl_args) {
            Ok(gas) => gas,
            Err(e) => {
                return Err(e);
            },
        };
        let mut out: Vec<RefValue> = Vec::new();
        out.push(RefValue::OpWithConst(loc, Op::Add, gas));
        proof {
            assert(out@ =~= refund_gas_refs(args_view(tmpl_args@), arg_refs@)->Ok_0);
        }
        Ok(out)
    }

    /// The gas delta: the amount, as a gain.
    pub fn effects(&self, tmpl_args: &Vec<TemplateArg>, _registry: &TypeRegistry) -> (r: Result<
        Effects,
        Error,
    >)
        ensures
            match gas_value_spec(args_view(tmpl_args@)) {
                Ok(gas) => r == Ok::<Effects, Error>(Effects { gas_usage: gas }),
                Err(e) => r == Err::<Effects, Error>(e),
            },
    {
        match gas_value_arg(tmpl_args) {
            Ok(gas) => Ok(gas_usage(gas)),
            Err(e) => Err(e),
        }
    }

    /// Runs the refund on a concrete counter.
    pub fn exec(
        &self,
        tmpl_args: &Vec<TemplateArg>,
        _registry: &TypeRegistry,
        inputs: Vec<Vec<i64>>,
    ) -> (r: Result<Vec<Vec<i64>>, Error>)
        ensures
            match refund_gas_exec(args_view(tmpl_args@), rows(inputs@)) {
                Ok(outputs) => r is Ok && rows(r->Ok_0@) == outputs,
                Err(e) => r is Err && r->Err_0 == e,
            },
    {
        let sizes: [usize; 1] = [1];
        match validate_mem_sizes(&inputs, sizes.as_slice()) {
            Ok(_) => {},
            Err(e) => {
                assert(rows(inputs@).len() == 1 ==> rows(inputs@)[0].len() != 1);
                return Err(e);
            },
        }
        assert(rows(inputs@)[0].len() == 1);
        let gas = match gas_value_arg(tmpl_args) {
            Ok(gas) => gas,
            Err(e) => {
                return Err(e);
            },
        };
        let sum = match inputs[0][0].checked_add(gas) {
            Some(sum) => sum,
            None => {
                return Err(Error::UnexpectedMemoryStructure);
            },
        };
        let mut word: Vec<i64> = Vec::new();
        word.push(sum);
        let mut out: Vec<Vec<i64>> = Vec::new();
        out.push(word);
        proof {
            let expected = refund_gas_exec(args_view(tmpl_args@), rows(inputs@))->Ok_0;
            assert(rows(out@)[0] =~= expected[0]);
            assert(rows(out@) =~= expected);
        }
        Ok(out)
    }
}

/// The gas extensions, each under its name.
pub fn extensions() -> (r: Vec<(String, Extension)>)
    ensures
        r@.len() == 2,
        r@[0].0@ == "get_gas"@ && r@[0].1 == Extension::GetGas,
        r@[1].0@ == "refund_gas"@ && r@[1].1 == Extension::RefundGas,
{
    let mut out: Vec<(String, Extension)> = Vec::new();
    out.push(("get_gas".to_owned(), Extension::GetGas));
    out.push(("refund_gas".to_owned(), Extension::RefundGas));
    out
}

/// The registry entry of the gas counter's type: one cell, no arguments.
pub fn types() -> (r: Vec<TypeEntry>)
    ensures
        r@.len() == 1,
        r@[0].name@ == "GasBuiltin"@,
        r@[0].rule == TypeRule::Fixed(1),
{
    let mut out: Vec<TypeEntry> = Vec::new();
    out.push(TypeEntry { name: gas_builtin_type().name, rule: TypeRule::Fixed(1) });
    out
}

} // verus!
