//! The closed set of extensions, each offering the same four operations in
//! their branching form.

use crate::extensions::{
    args_view, rows, types_view, Cursors, Effects, Error, ExtensionSignature,
    ExtensionSignatureView, RefValue, TemplateArg, TemplateArgView, Type,
};
use crate::gas_station::{
    gas_value_spec, get_gas_effects, get_gas_exec, get_gas_refs, get_gas_signature,
    refund_gas_exec, refund_gas_refs, refund_gas_signature, GetGasExtension, RefundGasExtension,
};
use crate::registry::{arg_size, TypeRegistry};
use crate::tuple_obj::{
    all_types, element_ref, element_types, tuple_pack_exec, tuple_pack_refs, tuple_type,
    tuple_unpack_exec, unpack_from, unpack_refs_from, TuplePackExtension, TupleUnpackExtension,
};
use vstd::prelude::*;

verus! {

/// The extensions that the library knows.
#[derive(Clone, Copy, Debug, PartialEq, Eq, Structural)]
pub enum Extension {
    GetGas,
    RefundGas,
    TuplePack,
    TupleUnpack,
}

/// The branching form of the signature of an extension with one exit.
pub open spec fn single_branch(sig: (Seq<crate::extensions::TypeView>, Seq<
    crate::extensions::TypeView,
>)) -> ExtensionSignatureView {
    ExtensionSignatureView { args: sig.0, results: seq![sig.1], fallthrough: Some(0usize) }
}

/// The branching form of a result of an extension with one exit.
pub open spec fn in_one_branch<T>(r: Result<T, Error>) -> Result<Seq<T>, Error> {
    match r {
        Ok(v) => Ok(seq![v]),
        Err(e) => Err(e),
    }
}

/// The branching form of the concrete outcome of an extension with one exit.
pub open spec fn taking_branch_zero(r: Result<Seq<Seq<i64>>, Error>) -> Result<
    (Seq<Seq<i64>>, usize),
    Error,
> {
    match r {
        Ok(v) => Ok((v, 0usize)),
        Err(e) => Err(e),
    }
}

/// Gives the signature of an extension with one exit its branching form: the
/// one exit is the fallthrough.
pub fn wrap_non_branch(sig: (Vec<Type>, Vec<Type>)) -> (r: ExtensionSignature)
    ensures
        r@ == single_branch((types_view(sig.0@), types_view(sig.1@))),
{
    let (args, results) = sig;
    let mut branches: Vec<Vec<Type>> = Vec::new();
    branches.push(results);
    let r = ExtensionSignature { args, results: branches, fallthrough: Some(0) };
    proof {
        assert(r@.results =~= seq![types_view(sig.1@)]);
    }
    r
}

impl Extension {
    /// The signature of the extension under the template arguments.
    pub open spec fn signature(self, args: Seq<TemplateArgView>) -> Result<
        ExtensionSignatureView,
        Error,
    > {
        match self {
            Extension::GetGas => match gas_value_spec(args) {
                Ok(_) => Ok(get_gas_signature()),
                Err(e) => Err(e),
            },
            Extension::RefundGas => match gas_value_spec(args) {
                Ok(_) => Ok(single_branch(refund_gas_signature())),
                Err(e) => Err(e),
            },
            Extension::TuplePack => if all_types(args) {
                Ok(single_branch((element_types(args), seq![tuple_type(args)])))
            } else {
                Err(Error::UnsupportedTypeArg)
            },
            Extension::TupleUnpack => if all_types(args) {
                Ok(single_branch((seq![tuple_type(args)], element_types(args))))
            } else {
                Err(Error::UnsupportedTypeArg)
            },
        }
    }

    /// Where the results live, per branch.
    pub open spec fn refs(
        self,
        reg: TypeRegistry,
        args: Seq<TemplateArgView>,
        arg_refs: Seq<RefValue>,
    ) -> Result<Seq<Seq<RefValue>>, Error> {
        match self {
            Extension::GetGas => get_gas_refs(args, arg_refs),
            Extension::RefundGas => in_one_branch(refund_gas_refs(args, arg_refs)),
            Extension::TuplePack => in_one_branch(tuple_pack_refs(reg, args, arg_refs)),
            Extension::TupleUnpack => in_one_branch(
                unpack_refs_from(reg, args, arg_refs, 0, 0, Seq::empty()),
            ),
        }
    }

    /// The gas delta of each branch.
    pub open spec fn branch_effects(self, args: Seq<TemplateArgView>) -> Result<
        Seq<Effects>,
        Error,
    > {
        match self {
            Extension::GetGas => get_gas_effects(args),
            Extension::RefundGas => match gas_value_spec(args) {
                Ok(gas) => Ok(seq![(Effects { gas_usage: gas })]),
                Err(e) => Err(e),
            },
            _ => Ok(seq![(Effects { gas_usage: 0 })]),
        }
    }

    /// The concrete outputs and the branch taken.
    pub open spec fn outcome(
        self,
        reg: TypeRegistry,
        args: Seq<TemplateArgView>,
        inputs: Seq<Seq<i64>>,
    ) -> Result<(Seq<Seq<i64>>, usize), Error> {
        match self {
            Extension::GetGas => get_gas_exec(args, inputs),
            Extension::RefundGas => taking_branch_zero(refund_gas_exec(args, inputs)),
            Extension::TuplePack => taking_branch_zero(tuple_pack_exec(reg, args, inputs)),
            Extension::TupleUnpack => taking_branch_zero(tuple_unpack_exec(reg, args, inputs)),
        }
    }

    /// The extension's signature, in branching form.
    pub fn get_signature(&self, tmpl_args: &Vec<TemplateArg>) -> (r: Result<
        ExtensionSignature,
        Error,
    >)
        ensures
            match self.signature(args_view(tmpl_args@)) {
                Ok(sig) => r is Ok && r->Ok_0@ == sig,
                Err(e) => r is Err && r->Err_0 == e,
            },
    {
        let plain = match self {
            Extension::GetGas => {
                return GetGasExtension {}.get_signature(tmpl_args);
            },
            Extension::RefundGas => RefundGasExtension {}.get_signature(tmpl_args),
            Extension::TuplePack => TuplePackExtension {}.get_signature(tmpl_args),
            Extension::TupleUnpack => TupleUnpackExtension {}.get_signature(tmpl_args),
        };
        match plain {
            Ok(sig) => Ok(wrap_non_branch(sig)),
            Err(e) => Err(e),
        }
    }

    /// Where the results live, per branch, from where the arguments live.
    pub fn ref_values(
        &self,
        tmpl_args: &Vec<TemplateArg>,
        registry: &TypeRegistry,
        cursors: &Cursors,
        arg_refs: Vec<RefValue>,
    ) -> (r: Result<Vec<Vec<RefValue>>, Error>)
        ensures
            match self.refs(*registry, args_view(tmpl_args@), arg_refs@) {
                Ok(refs) => r is Ok && rows(r->Ok_0@) == refs,
                Err(e) => r is Err && r->Err_0 == e,
            },
    {
        let plain = match self {
            Extension::GetGas => {
                return GetGasExtension {}.ref_values(tmpl_args, registry, cursors, arg_refs);
            },
            Extension::RefundGas => RefundGasExtension {}.ref_values(
                tmpl_args,
                registry,
                cursors,
                arg_refs,
            ),
            Extension::TuplePack => TuplePackExtension {}.ref_values(
                tmpl_args,
                registry,
                cursors,
                arg_refs,
            ),
            Extension::TupleUnpack => TupleUnpackExtension {}.ref_values(
                tmpl_args,
                registry,
                cursors,
                arg_refs,
            ),
        };
        match plain {
            Ok(refs) => {
                let ghost expected = seq![refs@];
                let mut out: Vec<Vec<RefValue>> = Vec::new();
                out.push(refs);
                assert(rows(out@) =~= expected);
                Ok(out)
            },
            Err(e) => Err(e),
        }
    }

    /// The gas delta of each branch.
    pub fn effects(&self, tmpl_args: &Vec<TemplateArg>, registry: &TypeRegistry) -> (r: Result<
        Vec<Effects>,
        Error,
    >)
        ensures
            match self.branch_effects(args_view(tmpl_args@)) {
                Ok(effects) => r is Ok && r->Ok_0@ == effects,
                Err(e) => r is Err && r->Err_0 == e,
            },
    {
        let plain = match self {
            Extension::GetGas => {
                return GetGasExtension {}.effects(tmpl_args, registry);
            },
            Extension::RefundGas => RefundGasExtension {}.effects(tmpl_args, registry),
            Extension::TuplePack => TuplePackExtension {}.effects(tmpl_args, registry),
            Extension::TupleUnpack => TupleUnpackExtension {}.effects(tmpl_args, registry),
        };
        match plain {
            Ok(effects) => {
                let mut out: Vec<Effects> = Vec::new();
                out.push(effects);
                assert(out@ =~= seq![effects]);
                Ok(out)
            },
            Err(e) => Err(e),
        }
    }

    /// Runs the extension on concrete memory words.
    pub fn exec(
        &self,
        tmpl_args: &Vec<TemplateArg>,
        registry: &TypeRegistry,
        inputs: Vec<Vec<i64>>,
    ) -> (r: Result<(Vec<Vec<i64>>, usize), Error>)
        ensures
            match self.outcome(*registry, args_view(tmpl_args@), rows(inputs@)) {
                Ok((outputs, branch)) => r is Ok && rows(r->Ok_0.0@) == outputs && r->Ok_0.1
                    == branch,
                Err(e) => r is Err && r->Err_0 == e,
            },
    {
        let plain = match self {
            Extension::GetGas => {
                return GetGasExtension {}.exec(tmpl_args, registry, inputs);
            },
            Extension::RefundGas => RefundGasExtension {}.exec(tmpl_args, registry, inputs),
            Extension::TuplePack => TuplePackExtension {}.exec(tmpl_args, registry, inputs),
            Extension::TupleUnpack => TupleUnpackExtension {}.exec(tmpl_args, registry, inputs),
        };
        match plain {
            Ok(outputs) => Ok((outputs, 0)),
            Err(e) => Err(e),
        }
    }
}

/// Every extension refuses a template-argument list of the wrong shape: the
/// gas extensions take exactly one argument, an integer, and the tuple
/// extensions take types only.
pub proof fn lemma_signature_checks_shape(ext: Extension, args: Seq<TemplateArgView>)
    ensures
        (ext is GetGas || ext is RefundGas) && args.len() != 1 ==> ext.signature(args) == Err::<
            ExtensionSignatureView,
            Error,
        >(Error::WrongNumberOfTypeArgs),
        (ext is GetGas || ext is RefundGas) && args.len() == 1 && args[0] is Type
            ==> ext.signature(args) == Err::<ExtensionSignatureView, Error>(
            Error::UnsupportedTypeArg,
        ),
        (ext is TuplePack || ext is TupleUnpack) && (exists|i: int|
            0 <= i < args.len() && args[i] is Value) ==> ext.signature(args) == Err::<
            ExtensionSignatureView,
            Error,
        >(Error::UnsupportedTypeArg),
        (ext is TuplePack || ext is TupleUnpack) && all_types(args) ==> ext.signature(args) is Ok,
{
    if (ext is TuplePack || ext is TupleUnpack) && (exists|i: int|
        0 <= i < args.len() && args[i] is Value) {
        let i = choose|i: int| 0 <= i < args.len() && args[i] is Value;
        assert(!(args[i] is Type));
        assert(!all_types(args));
    }
}

/// A gas extension has a signature exactly for one integer above zero: an
/// amount of zero or less is always refused.
pub proof fn lemma_gas_amount_positive(ext: Extension, args: Seq<TemplateArgView>)
    requires
        ext is GetGas || ext is RefundGas,
    ensures
        ext.signature(args) is Ok <==> args.len() == 1 && args[0] is Value && args[0]->Value_0 > 0,
        args.len() == 1 && args[0] is Value && args[0]->Value_0 <= 0 ==> ext.signature(args)
            == Err::<ExtensionSignatureView, Error>(Error::UnsupportedTypeArg),
{
}

/// Unpacking yields one reference per element that is still to come.
pub proof fn lemma_unpack_refs_len(
    reg: TypeRegistry,
    args: Seq<TemplateArgView>,
    refs: Seq<RefValue>,
    i: nat,
    off: nat,
    done: Seq<RefValue>,
)
    requires
        i <= args.len(),
        unpack_refs_from(reg, args, refs, i, off, done) is Ok,
    ensures
        unpack_refs_from(reg, args, refs, i, off, done)->Ok_0.len() == done.len() + args.len() - i,
    decreases args.len() - i,
{
    if i < args.len() {
        let size = arg_size(reg, args[i as int])->Ok_0;
        let r = element_ref(refs, size, off)->Ok_0;
        lemma_unpack_refs_len(reg, args, refs, i + 1, off + size, done.push(r));
    }
}

/// Unpacking yields one list of words per element that is still to come.
pub proof fn lemma_unpack_len(
    reg: TypeRegistry,
    args: Seq<TemplateArgView>,
    buffer: Seq<i64>,
    i: nat,
    off: nat,
    done: Seq<Seq<i64>>,
)
    requires
        i <= args.len(),
        unpack_from(reg, args, buffer, i, off, done) is Ok,
    ensures
        unpack_from(reg, args, buffer, i, off, done)->Ok_0.len() == done.len() + args.len() - i,
    decreases args.len() - i,
{
    if i < args.len() {
        let size = arg_size(reg, args[i as int])->Ok_0;
        lemma_unpack_len(
            reg,
            args,
            buffer,
            i + 1,
            off + size,
            done.push(buffer.subrange(off as int, (off + size) as int)),
        );
    }
}

/// An extension returns as many references as its signature declares
/// results, branch by branch.
pub proof fn lemma_refs_match_signature(
    ext: Extension,
    reg: TypeRegistry,
    args: Seq<TemplateArgView>,
    arg_refs: Seq<RefValue>,
)
    requires
        ext.signature(args) is Ok,
        ext.refs(reg, args, arg_refs) is Ok,
    ensures
        ext.refs(reg, args, arg_refs)->Ok_0.len() == ext.signature(args)->Ok_0.results.len(),
        forall|b: int|
            0 <= b < ext.signature(args)->Ok_0.results.len() ==> (#[trigger] ext.refs(
                reg,
                args,
                arg_refs,
            )->Ok_0[b]).len() == ext.signature(args)->Ok_0.results[b].len(),
{
    if ext is TupleUnpack {
        lemma_unpack_refs_len(reg, args, arg_refs, 0, 0, Seq::empty());
    }
}

/// A concrete run takes a branch that the signature declares, and returns
/// as many outputs as that branch declares results.
pub proof fn lemma_outcome_matches_signature(
    ext: Extension,
    reg: TypeRegistry,
    args: Seq<TemplateArgView>,
    inputs: Seq<Seq<i64>>,
)
    requires
        ext.signature(args) is Ok,
        ext.outcome(reg, args, inputs) is Ok,
    ensures
        ext.outcome(reg, args, inputs)->Ok_0.1 < ext.signature(args)->Ok_0.results.len(),
        ext.outcome(reg, args, inputs)->Ok_0.0.len() == ext.signature(args)->Ok_0.results[ext.outcome(
            reg,
            args,
            inputs,
        )->Ok_0.1 as int].len(),
{
    if ext is TupleUnpack {
        lemma_unpack_len(reg, args, inputs[0], 0, 0, Seq::empty());
    }
}

/// The extension registered under a name.
pub fn extension_by_name(name: &str) -> (r: Option<Extension>)
    ensures
        r == if name@ == "get_gas"@ {
            Some(Extension::GetGas)
        } else if name@ == "refund_gas"@ {
            Some(Extension::RefundGas)
        } else if name@ == "tuple_pack"@ {
            Some(Extension::TuplePack)
        } else if name@ == "tuple_unpack"@ {
            Some(Extension::TupleUnpack)
        } else {
            None
        },
{
    let owned = name.to_owned();
    if owned == "get_gas".to_owned() {
        Some(Extension::GetGas)
    } else if owned == "refund_gas".to_owned() {
        Some(Extension::RefundGas)
    } else if owned == "tuple_pack".to_owned() {
        Some(Extension::TuplePack)
    } else if owned == "tuple_unpack".to_owned() {
        Some(Extension::TupleUnpack)
    } else {
        None
    }
}

} // verus!
