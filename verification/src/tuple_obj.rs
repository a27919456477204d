//! The composite extensions: packing values into a tuple and unpacking a
//! tuple into its elements.

use crate::extensions::{
    args_view, as_final, as_final_spec, as_tuple, duplicate_args, mem_reducer, mem_reducer_spec,
    named_type, rows, types_view, Cursors, Effects, Error, MemLocation, RefValue, TemplateArg,
    TemplateArgView, Type, TypeView,
};
use crate::libfuncs::Extension;
use crate::registry::{arg_size, get_info, lemma_size_bounded, TypeEntry, TypeRegistry, TypeRule};
use vstd::prelude::*;

verus! {

/// Whether every template argument is a type.
pub open spec fn all_types(args: Seq<TemplateArgView>) -> bool {
    forall|i: int| 0 <= i < args.len() ==> #[trigger] args[i] is Type
}

/// The element types that the template arguments name.
pub open spec fn element_types(args: Seq<TemplateArgView>) -> Seq<TypeView> {
    Seq::new(args.len(), |i: int| args[i]->Type_0)
}

/// The view of the tuple type of the given elements.
pub open spec fn tuple_type(args: Seq<TemplateArgView>) -> TypeView {
    named_type("Tuple"@, args)
}

/// The element types of a template-argument list, each a copy.
pub fn element_type_list(tmpl_args: &Vec<TemplateArg>) -> (r: Result<Vec<Type>, Error>)
    ensures
        all_types(args_view(tmpl_args@)) ==> r is Ok && types_view(r->Ok_0@) == element_types(
            args_view(tmpl_args@),
        ),
        !all_types(args_view(tmpl_args@)) ==> r is Err && r->Err_0 == Error::UnsupportedTypeArg,
{
    let ghost args = args_view(tmpl_args@);
    let mut out: Vec<Type> = Vec::new();
    let mut i: usize = 0;
    while i < tmpl_args.len()
        invariant
            i <= tmpl_args.len(),
            args == args_view(tmpl_args@),
            out@.len() == i,
            forall|k: int| 0 <= k < i ==> #[trigger] args[k] is Type,
            forall|k: int| 0 <= k < i ==> (#[trigger] out@[k])@ == args[k]->Type_0,
        decreases tmpl_args.len() - i,
    {
        assert(args[i as int] == tmpl_args@[i as int]@);
        match &tmpl_args[i] {
            TemplateArg::Type(t) => {
                out.push(t.duplicate());
            },
            TemplateArg::Value(_) => {
                assert(!(args[i as int] is Type));
                return Err(Error::UnsupportedTypeArg);
            },
        }
        i += 1;
    }
    proof {
        assert(types_view(out@) =~= element_types(args));
    }
    Ok(out)
}

/// The number of cells of the type that a template argument names.
pub fn element_size(registry: &TypeRegistry, tmpl_arg: &TemplateArg) -> (r: Result<usize, Error>)
    ensures
        match arg_size(*registry, tmpl_arg@) {
            Ok(n) => n <= usize::MAX && r == Ok::<usize, Error>(n as usize),
            Err(e) => r == Err::<usize, Error>(e),
        },
{
    match tmpl_arg {
        TemplateArg::Type(t) => {
            proof {
                lemma_size_bounded(*registry, t@);
            }
            match get_info(registry, t) {
                Ok(info) => Ok(info.size),
                Err(e) => Err(e),
            }
        },
        TemplateArg::Value(_) => Err(Error::UnsupportedTypeArg),
    }
}

/// The span after one more element: an element without cells changes
/// nothing; another must be stored, and must continue the span so far.
pub open spec fn span_step(
    reg: TypeRegistry,
    arg: TemplateArgView,
    ref_val: RefValue,
    span: Option<(MemLocation, usize)>,
) -> Result<Option<(MemLocation, usize)>, Error> {
    match arg_size(reg, arg) {
        Err(e) => Err(e),
        Ok(size) => if size == 0 {
            Ok(span)
        } else {
            match as_final_spec(ref_val) {
                Err(e) => Err(e),
                Ok(loc) => match span {
                    None => Ok(Some((loc, size as usize))),
                    Some(prev) => match mem_reducer_spec(prev, (loc, size as usize)) {
                        None => Err(Error::LocationsNonCosecutive),
                        Some(merged) => Ok(Some(merged)),
                    },
                },
            }
        },
    }
}

/// The span of the elements from index `i` up to `n`, continuing `span`.
pub open spec fn span_from(
    reg: TypeRegistry,
    args: Seq<TemplateArgView>,
    refs: Seq<RefValue>,
    i: nat,
    n: nat,
    span: Option<(MemLocation, usize)>,
) -> Result<Option<(MemLocation, usize)>, Error>
    decreases n - i,
{
    if i >= n {
        Ok(span)
    } else {
        match span_step(reg, args[i as int], refs[i as int], span) {
            Err(e) => Err(e),
            Ok(next) => span_from(reg, args, refs, i + 1, n, next),
        }
    }
}

/// The smaller of two lengths.
pub open spec fn shorter(a: nat, b: nat) -> nat {
    if a <= b {
        a
    } else {
        b
    }
}

/// The reference of a packed tuple: the merged span of the elements that
/// occupy memory, pairing references with element types as far as both last.
pub open spec fn tuple_pack_refs(
    reg: TypeRegistry,
    args: Seq<TemplateArgView>,
    refs: Seq<RefValue>,
) -> Result<Seq<RefValue>, Error> {
    match span_from(reg, args, refs, 0, shorter(refs.len(), args.len()), None) {
        Err(e) => Err(e),
        Ok(None) => Ok(seq![RefValue::Transient]),
        Ok(Some(span)) => Ok(seq![RefValue::Final(span.0)]),
    }
}

/// The packed words after one more element, whose length must be its size.
pub open spec fn pack_step(
    reg: TypeRegistry,
    arg: TemplateArgView,
    input: Seq<i64>,
    packed: Seq<i64>,
) -> Result<Seq<i64>, Error> {
    match arg_size(reg, arg) {
        Err(e) => Err(e),
        Ok(size) => if input.len() != size {
            Err(Error::UnexpectedMemoryStructure)
        } else {
            Ok(packed + input)
        },
    }
}

/// The words of the elements from index `i` on, appended to `packed`.
pub open spec fn pack_from(
    reg: TypeRegistry,
    args: Seq<TemplateArgView>,
    inputs: Seq<Seq<i64>>,
    i: nat,
    packed: Seq<i64>,
) -> Result<Seq<i64>, Error>
    decreases args.len() - i,
{
    if i >= args.len() {
        Ok(packed)
    } else {
        match pack_step(reg, args[i as int], inputs[i as int], packed) {
            Err(e) => Err(e),
            Ok(next) => pack_from(reg, args, inputs, i + 1, next),
        }
    }
}

/// Concrete packing: one input per element, each of its type's size, joined
/// in order into the single output.
pub open spec fn tuple_pack_exec(
    reg: TypeRegistry,
    args: Seq<TemplateArgView>,
    inputs: Seq<Seq<i64>>,
) -> Result<Seq<Seq<i64>>, Error> {
    if inputs.len() != args.len() {
        Err(Error::UnexpectedMemoryStructure)
    } else {
        match pack_from(reg, args, inputs, 0, Seq::empty()) {
            Err(e) => Err(e),
            Ok(packed) => Ok(seq![packed]),
        }
    }
}

/// Packs values into one tuple.
#[derive(Clone, Copy, Debug, PartialEq, Eq, Structural)]
pub struct TuplePackExtension {}

impl TuplePackExtension {
    /// The element types in, their tuple type out; every template argument
    /// must be a type.
    pub fn get_signature(&self, tmpl_args: &Vec<TemplateArg>) -> (r: Result<
        (Vec<Type>, Vec<Type>),
        Error,
    >)
        ensures
            all_types(args_view(tmpl_args@)) ==> r is Ok && types_view(r->Ok_0.0@)
                == element_types(args_view(tmpl_args@)) && types_view(r->Ok_0.1@)
                == seq![tuple_type(args_view(tmpl_args@))],
            !all_types(args_view(tmpl_args@)) ==> r is Err && r->Err_0
                == Error::UnsupportedTypeArg,
    {
        let arg_types = match element_type_list(tmpl_args) {
            Ok(arg_types) => arg_types,
            Err(e) => {
                return Err(e);
            },
        };
        let mut results: Vec<Type> = Vec::new();
        results.push(as_tuple(duplicate_args(tmpl_args)));
        proof {
            assert(types_view(results@) =~= seq![tuple_type(args_view(tmpl_args@))]);
        }
        Ok((arg_types, results))
    }

    /// Where the tuple lives, from where its elements live.
    pub fn ref_values(
        &self,
        tmpl_args: &Vec<TemplateArg>,
        registry: &TypeRegistry,
        _cursors: &Cursors,
        arg_refs: Vec<RefValue>,
    ) -> (r: Result<Vec<RefValue>, Error>)
        ensures
            match tuple_pack_refs(*registry, args_view(tmpl_args@), arg_refs@) {
                Ok(refs) => r is Ok && r->Ok_0@ == refs,
                Err(e) => r is Err && r->Err_0 == e,
            },
    {
        let ghost args = args_view(tmpl_args@);
        let n: usize = if arg_refs.len() <= tmpl_args.len() {
            arg_refs.len()
        } else {
            tmpl_args.len()
        };
        let mut tup_mem: Option<(MemLocation, usize)> = None;
        let mut i: usize = 0;
        while i < n
            invariant
                i <= n,
                n == shorter(arg_refs@.len(), tmpl_args@.len()),
                args == args_view(tmpl_args@),
                span_from(*registry, args, arg_refs@, 0, n as nat, None) == span_from(
                    *registry,
                    args,
                    arg_refs@,
                    i as nat,
                    n as nat,
                    tup_mem,
                ),
            decreases n - i,
        {
            assert(args[i as int] == tmpl_args@[i as int]@);
            let size = match element_size(registry, &tmpl_args[i]) {
                Ok(size) => size,
                Err(e) => {
                    return Err(e);
                },
            };
            if size != 0 {
                let loc = match as_final(&arg_refs[i]) {
                    Ok(loc) => loc,
                    Err(e) => {
                        return Err(e);
                    },
                };
                tup_mem = match tup_mem {
                    None => Some((loc, size)),
                    Some(prev) => match mem_reducer(prev, (loc, size)) {
                        Some(merged) => Some(merged),
                        None => {
                            return Err(Error::LocationsNonCosecutive);
                        },
                    },
                };
            }
            i += 1;
        }
        let mut out: Vec<RefValue> = Vec::new();
        match tup_mem {
            None => out.push(RefValue::Transient),
            Some((mem, _)) => out.push(RefValue::Final(mem)),
        }
        proof {
            assert(out@ =~= tuple_pack_refs(*registry, args, arg_refs@)->Ok_0);
        }
        Ok(out)
    }

    /// Packing costs nothing.
    pub fn effects(&self, _tmpl_args: &Vec<TemplateArg>, _registry: &TypeRegistry) -> (r: Result<
        Effects,
        Error,
    >)
        ensures
            r == Ok::<Effects, Error>(Effects { gas_usage: 0 }),
    {
        Ok(Effects::none())
    }

    /// Joins the concrete words of the elements.
    pub fn exec(
        &self,
        tmpl_args: &Vec<TemplateArg>,
        registry: &TypeRegistry,
        inputs: Vec<Vec<i64>>,
    ) -> (r: Result<Vec<Vec<i64>>, Error>)
        ensures
            match tuple_pack_exec(*registry, args_view(tmpl_args@), rows(inputs@)) {
                Ok(outputs) => r is Ok && rows(r->Ok_0@) == outputs,
                Err(e) => r is Err && r->Err_0 == e,
            },
    {
        if inputs.len() != tmpl_args.len() {
            return Err(Error::UnexpectedMemoryStructure);
        }
        let ghost args = args_view(tmpl_args@);
        let ghost words = rows(inputs@);
        let mut output: Vec<i64> = Vec::new();
        let mut i: usize = 0;
        while i < tmpl_args.len()
            invariant
                i <= tmpl_args.len(),
                inputs@.len() == tmpl_args@.len(),
                args == args_view(tmpl_args@),
                words == rows(inputs@),
                pack_from(*registry, args, words, 0, Seq::empty()) == pack_from(
                    *registry,
                    args,
                    words,
                    i as nat,
                    output@,
                ),
            decreases tmpl_args.len() - i,
        {
            assert(args[i as int] == tmpl_args@[i as int]@);
            assert(words[i as int] == inputs@[i as int]@);
            let size = match element_size(registry, &tmpl_args[i]) {
                Ok(size) => size,
                Err(e) => {
                    return Err(e);
                },
            };
            if inputs[i].len() != size {
                return Err(Error::UnexpectedMemoryStructure);
            }
            let ghost earlier = output@;
            output.extend_from_slice(inputs[i].as_slice());
            assert(output@ == earlier + words[i as int]);
            i += 1;
        }
        let mut out: Vec<Vec<i64>> = Vec::new();
        out.push(output);
        proof {
            let expected = tuple_pack_exec(*registry, args, words)->Ok_0;
            assert(rows(out@)[0] =~= expected[0]);
            assert(rows(out@) =~= expected);
        }
        Ok(out)
    }
}

/// Where an element of `size` cells at offset `off` of the tuple lives: an
/// element without cells is nowhere; another needs the tuple stored, and its
/// own slot representable.
pub open spec fn element_ref(refs: Seq<RefValue>, size: nat, off: nat) -> Result<RefValue, Error> {
    if size == 0 {
        Ok(RefValue::Transient)
    } else if refs.len() == 0 {
        Err(Error::IllegalArgsLocation)
    } else {
        match refs[0] {
            RefValue::Final(loc) => if loc.can_shift(off as int) {
                Ok(RefValue::Final(loc.shifted(off as int)))
            } else {
                Err(Error::IllegalArgsLocation)
            },
            _ => Err(Error::IllegalArgsLocation),
        }
    }
}

/// The references of the elements from index `i` on, the first of them at
/// offset `off`, appended to `done`.
pub open spec fn unpack_refs_from(
    reg: TypeRegistry,
    args: Seq<TemplateArgView>,
    refs: Seq<RefValue>,
    i: nat,
    off: nat,
    done: Seq<RefValue>,
) -> Result<Seq<RefValue>, Error>
    decreases args.len() - i,
{
    if i >= args.len() {
        Ok(done)
    } else {
        match arg_size(reg, args[i as int]) {
            Err(e) => Err(e),
            Ok(size) => match element_ref(refs, size, off) {
                Err(e) => Err(e),
                Ok(r) => unpack_refs_from(reg, args, refs, i + 1, off + size, done.push(r)),
            },
        }
    }
}

/// The words of the elements from index `i` on, the first of them at offset
/// `off` of the buffer, appended to `done`.
pub open spec fn unpack_from(
    reg: TypeRegistry,
    args: Seq<TemplateArgView>,
    buffer: Seq<i64>,
    i: nat,
    off: nat,
    done: Seq<Seq<i64>>,
) -> Result<Seq<Seq<i64>>, Error>
    decreases args.len() - i,
{
    if i >= args.len() {
        Ok(done)
    } else {
        match arg_size(reg, args[i as int]) {
            Err(e) => Err(e),
            Ok(size) => if off + size > buffer.len() {
                Err(Error::UnexpectedMemoryStructure)
            } else {
                unpack_from(
                    reg,
                    args,
                    buffer,
                    i + 1,
                    off + size,
                    done.push(buffer.subrange(off as int, (off + size) as int)),
                )
            },
        }
    }
}

/// Concrete unpacking: the single input is cut, in order, into one output
/// per element, each of its type's size.
pub open spec fn tuple_unpack_exec(
    reg: TypeRegistry,
    args: Seq<TemplateArgView>,
    inputs: Seq<Seq<i64>>,
) -> Result<Seq<Seq<i64>>, Error> {
    if inputs.len() != 1 {
        Err(Error::UnexpectedMemoryStructure)
    } else {
        unpack_from(reg, args, inputs[0], 0, 0, Seq::empty())
    }
}

/// The words of a list from `from` up to `to`.
fn copy_range(words: &Vec<i64>, from: usize, to: usize) -> (r: Vec<i64>)
    requires
        from <= to <= words@.len(),
    ensures
        r@ == words@.subrange(from as int, to as int),
{
    let mut out: Vec<i64> = Vec::new();
    let mut k: usize = from;
    while k < to
        invariant
            from <= k <= to <= words@.len(),
            out@ == words@.subrange(from as int, k as int),
        decreases to - k,
    {
        out.push(words[k]);
        k += 1;
        assert(out@ =~= words@.subrange(from as int, k as int));
    }
    assert(out@ =~= words@.subrange(from as int, to as int));
    out
}

/// Unpacks a tuple into its elements.
#[derive(Clone, Copy, Debug, PartialEq, Eq, Structural)]
pub struct TupleUnpackExtension {}

impl TupleUnpackExtension {
    /// The tuple type in, its element types out; every template argument
    /// must be a type.
    pub fn get_signature(&self, tmpl_args: &Vec<TemplateArg>) -> (r: Result<
        (Vec<Type>, Vec<Type>),
        Error,
    >)
        ensures
            all_types(args_view(tmpl_args@)) ==> r is Ok && types_view(r->Ok_0.0@)
                == seq![tuple_type(args_view(tmpl_args@))] && types_view(r->Ok_0.1@)
                == element_types(args_view(tmpl_args@)),
            !all_types(args_view(tmpl_args@)) ==> r is Err && r->Err_0
                == Error::UnsupportedTypeArg,
    {
        let arg_types = match element_type_list(tmpl_args) {
            Ok(arg_types) => arg_types,
            Err(e) => {
                return Err(e);
            },
        };
        let mut args: Vec<Type> = Vec::new();
        args.push(as_tuple(duplicate_args(tmpl_args)));
        proof {
            assert(types_view(args@) =~= seq![tuple_type(args_view(tmpl_args@))]);
        }
        Ok((args, arg_types))
    }

    /// Where each element lives, from where the tuple lives.
    pub fn ref_values(
        &self,
        tmpl_args: &Vec<TemplateArg>,
        registry: &TypeRegistry,
        _cursors: &Cursors,
        arg_refs: Vec<RefValue>,
    ) -> (r: Result<Vec<RefValue>, Error>)
        ensures
            match unpack_refs_from(
                *registry,
                args_view(tmpl_args@),
                arg_refs@,
                0,
                0,
                Seq::empty(),
            ) {
                Ok(refs) => r is Ok && r->Ok_0@ == refs,
                Err(e) => r is Err && r->Err_0 == e,
            },
    {
        let ghost args = args_view(tmpl_args@);
        let ghost mut off: nat = 0;
        let mut refs: Vec<RefValue> = Vec::new();
        let mut offset: u64 = 0;
        let mut beyond: bool = false;
        let mut i: usize = 0;
        while i < tmpl_args.len()
            invariant
                i <= tmpl_args.len(),
                args == args_view(tmpl_args@),
                !beyond ==> offset == off,
                beyond ==> off > u64::MAX,
                unpack_refs_from(*registry, args, arg_refs@, 0, 0, Seq::empty())
                    == unpack_refs_from(*registry, args, arg_refs@, i as nat, off, refs@),
            decreases tmpl_args.len() - i,
        {
            assert(args[i as int] == tmpl_args@[i as int]@);
            let size = match element_size(registry, &tmpl_args[i]) {
                Ok(size) => size,
                Err(e) => {
                    return Err(e);
                },
            };
            if size == 0 {
                refs.push(RefValue::Transient);
            } else {
                if arg_refs.len() == 0 || beyond {
                    return Err(Error::IllegalArgsLocation);
                }
                let (is_temp, base): (bool, i64) = match arg_refs[0] {
                    RefValue::Final(MemLocation::Temp(base)) => (true, base),
                    RefValue::Final(MemLocation::Local(base)) => (false, base),
                    _ => {
                        return Err(Error::IllegalArgsLocation);
                    },
                };
                let slot: i128 = base as i128 + offset as i128;
                if slot > i64::MAX as i128 {
                    return Err(Error::IllegalArgsLocation);
                }
                if is_temp {
                    refs.push(RefValue::Final(MemLocation::Temp(slot as i64)));
                } else {
                    refs.push(RefValue::Final(MemLocation::Local(slot as i64)));
                }
            }
            if !beyond {
                match offset.checked_add(size as u64) {
                    Some(next) => {
                        offset = next;
                    },
                    None => {
                        beyond = true;
                    },
                }
            }
            proof {
                off = off + size as nat;
            }
            i += 1;
        }
        Ok(refs)
    }

    /// Unpacking costs nothing.
    pub fn effects(&self, _tmpl_args: &Vec<TemplateArg>, _registry: &TypeRegistry) -> (r: Result<
        Effects,
        Error,
    >)
        ensures
            r == Ok::<Effects, Error>(Effects { gas_usage: 0 }),
    {
        Ok(Effects::none())
    }

    /// Cuts the concrete words of a tuple into those of its elements.
    pub fn exec(
        &self,
        tmpl_args: &Vec<TemplateArg>,
        registry: &TypeRegistry,
        inputs: Vec<Vec<i64>>,
    ) -> (r: Result<Vec<Vec<i64>>, Error>)
        ensures
            match tuple_unpack_exec(*registry, args_view(tmpl_args@), rows(inputs@)) {
                Ok(outputs) => r is Ok && rows(r->Ok_0@) == outputs,
                Err(e) => r is Err && r->Err_0 == e,
            },
    {
        if inputs.len() != 1 {
            return Err(Error::UnexpectedMemoryStructure);
        }
        let ghost args = args_view(tmpl_args@);
        let ghost buffer = rows(inputs@)[0];
        assert(buffer == inputs@[0]@);
        let mut offset: usize = 0;
        let mut outputs: Vec<Vec<i64>> = Vec::new();
        assert(rows(outputs@) =~= Seq::<Seq<i64>>::empty());
        let mut i: usize = 0;
        while i < tmpl_args.len()
            invariant
                i <= tmpl_args.len(),
                inputs@.len() == 1,
                args == args_view(tmpl_args@),
                buffer == inputs@[0]@,
                offset <= buffer.len(),
                unpack_from(*registry, args, buffer, 0, 0, Seq::empty()) == unpack_from(
                    *registry,
                    args,
                    buffer,
                    i as nat,
                    offset as nat,
                    rows(outputs@),
                ),
            decreases tmpl_args.len() - i,
        {
            assert(args[i as int] == tmpl_args@[i as int]@);
            let size = match element_size(registry, &tmpl_args[i]) {
                Ok(size) => size,
                Err(e) => {
                    return Err(e);
                },
            };
            if size > inputs[0].len() - offset {
                return Err(Error::UnexpectedMemoryStructure);
            }
            let ghost earlier = rows(outputs@);
            let piece = copy_range(&inputs[0], offset, offset + size);
            outputs.push(piece);
            proof {
                assert(rows(outputs@) =~= earlier.push(
                    buffer.subrange(offset as int, offset + size),
                ));
            }
            offset += size;
            i += 1;
        }
        Ok(outputs)
    }
}

/// Unpacking what was packed gives the values back: where packing the
/// values under a list of element types succeeds, unpacking its output
/// under the same list succeeds with those values.
pub proof fn lemma_unpack_pack(
    reg: TypeRegistry,
    args: Seq<TemplateArgView>,
    values: Seq<Seq<i64>>,
)
    requires
        tuple_pack_exec(reg, args, values) is Ok,
    ensures
        tuple_unpack_exec(reg, args, tuple_pack_exec(reg, args, values)->Ok_0) == Ok::<
            Seq<Seq<i64>>,
            Error,
        >(values),
{
    let packed = pack_from(reg, args, values, 0, Seq::empty())->Ok_0;
    assert(values.subrange(0, 0) =~= Seq::<Seq<i64>>::empty());
    lemma_unpack_pack_from(reg, args, values, 0, Seq::empty(), packed);
    assert(tuple_pack_exec(reg, args, values)->Ok_0[0] == packed);
}

/// What is packed so far stays at the front of the final result.
pub proof fn lemma_pack_keeps_front(
    reg: TypeRegistry,
    args: Seq<TemplateArgView>,
    values: Seq<Seq<i64>>,
    i: nat,
    front: Seq<i64>,
)
    requires
        pack_from(reg, args, values, i, front) is Ok,
    ensures
        front.len() <= pack_from(reg, args, values, i, front)->Ok_0.len(),
        pack_from(reg, args, values, i, front)->Ok_0.subrange(0, front.len() as int) == front,
    decreases args.len() - i,
{
    let packed = pack_from(reg, args, values, i, front)->Ok_0;
    if i >= args.len() {
        assert(packed.subrange(0, front.len() as int) =~= front);
    } else {
        let next = front + values[i as int];
        lemma_pack_keeps_front(reg, args, values, i + 1, next);
        assert(packed.subrange(0, front.len() as int) =~= packed.subrange(
            0,
            next.len() as int,
        ).subrange(0, front.len() as int));
        assert(next.subrange(0, front.len() as int) =~= front);
    }
}

/// The inductive form of the round trip, from element `i` on.
pub proof fn lemma_unpack_pack_from(
    reg: TypeRegistry,
    args: Seq<TemplateArgView>,
    values: Seq<Seq<i64>>,
    i: nat,
    front: Seq<i64>,
    packed: Seq<i64>,
)
    requires
        values.len() == args.len(),
        i <= args.len(),
        pack_from(reg, args, values, i, front) == Ok::<Seq<i64>, Error>(packed),
    ensures
        unpack_from(reg, args, packed, i, front.len(), values.subrange(0, i as int)) == Ok::<
            Seq<Seq<i64>>,
            Error,
        >(values),
    decreases args.len() - i,
{
    if i >= args.len() {
        assert(values.subrange(0, i as int) =~= values);
    } else {
        let next = front + values[i as int];
        lemma_pack_keeps_front(reg, args, values, i + 1, next);
        assert(packed.subrange(front.len() as int, next.len() as int) =~= values[i as int]) by {
            assert(packed.subrange(0, next.len() as int) == next);
            assert forall|k: int| 0 <= k < values[i as int].len() implies packed[front.len() + k]
                == values[i as int][k] by {
                assert(packed.subrange(0, next.len() as int)[front.len() + k] == next[front.len()
                    + k]);
            }
        }
        assert(values.subrange(0, i as int).push(values[i as int]) =~= values.subrange(
            0,
            (i + 1) as int,
        ));
        lemma_unpack_pack_from(reg, args, values, i + 1, next, packed);
    }
}

/// The tuple extensions, each under its name.
pub fn extensions() -> (r: Vec<(String, Extension)>)
    ensures
        r@.len() == 2,
        r@[0].0@ == "tuple_pack"@ && r@[0].1 == Extension::TuplePack,
        r@[1].0@ == "tuple_unpack"@ && r@[1].1 == Extension::TupleUnpack,
{
    let mut out: Vec<(String, Extension)> = Vec::new();
    out.push(("tuple_pack".to_owned(), Extension::TuplePack));
    out.push(("tuple_unpack".to_owned(), Extension::TupleUnpack));
    out
}

/// The registry entry of the tuple type.
pub fn types() -> (r: Vec<TypeEntry>)
    ensures
        r@.len() == 1,
        r@[0].name@ == "Tuple"@,
        r@[0].rule == TypeRule::Tuple,
{
    let mut out: Vec<TypeEntry> = Vec::new();
    out.push(TypeEntry { name: "Tuple".to_owned(), rule: TypeRule::Tuple });
    out
}

} // verus!
