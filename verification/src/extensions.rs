//! The shared model: types and template arguments, errors, symbolic memory
//! references, effects, and the registry that gives each type its size.

use vstd::prelude::*;

verus! {

/// Why an operation on an extension was refused.
#[derive(Clone, Copy, Debug, PartialEq, Eq, Structural)]
pub enum Error {
    WrongNumberOfTypeArgs,
    UnsupportedTypeArg,
    UnsupportedTypeName,
    TypeSizeOverflow,
    UnexpectedMemoryStructure,
    IllegalArgsLocation,
    LocationsNonCosecutive,
}

/// A compile-time parameter: a nested type or an integer constant.
#[derive(Debug, PartialEq, Eq)]
pub enum TemplateArg {
    Type(Type),
    Value(i64),
}

/// A type: an identifier applied to template arguments.
#[derive(Debug, PartialEq, Eq)]
pub struct Type {
    pub name: String,
    pub args: Vec<TemplateArg>,
}

/// Mathematical value of a `TemplateArg`.
pub enum TemplateArgView {
    Type(TypeView),
    Value(i64),
}

/// Mathematical value of a `Type`.
pub struct TypeView {
    pub name: Seq<char>,
    pub args: Seq<TemplateArgView>,
}

impl View for TemplateArg {
    type V = TemplateArgView;

    open spec fn view(&self) -> TemplateArgView
        decreases self,
    {
        match self {
            TemplateArg::Type(t) => TemplateArgView::Type(t.view()),
            TemplateArg::Value(v) => TemplateArgView::Value(*v),
        }
    }
}

impl View for Type {
    type V = TypeView;

    open spec fn view(&self) -> TypeView
        decreases self,
    {
        TypeView {
            name: self.name@,
            args: Seq::new(
                self.args@.len(),
                |i: int|
                    if 0 <= i < self.args@.len() {
                        self.args@[i].view()
                    } else {
                        TemplateArgView::Value(0)
                    },
            ),
        }
    }
}

/// Views of a list of template arguments, element by element.
pub open spec fn args_view(args: Seq<TemplateArg>) -> Seq<TemplateArgView> {
    Seq::new(args.len(), |i: int| args[i]@)
}

/// Views of a list of types, element by element.
pub open spec fn types_view(types: Seq<Type>) -> Seq<TypeView> {
    Seq::new(types.len(), |i: int| types[i]@)
}

/// Views of a list of lists of types.
pub open spec fn branches_view(branches: Seq<Vec<Type>>) -> Seq<Seq<TypeView>> {
    Seq::new(branches.len(), |i: int| types_view(branches[i]@))
}

/// The arguments of a type's view are the views of its arguments.
pub proof fn lemma_type_view_args(t: Type)
    ensures
        t@.name == t.name@,
        t@.args == args_view(t.args@),
{
    assert(t@.args =~= args_view(t.args@));
}

impl TemplateArg {
    /// A structurally equal copy.
    pub fn duplicate(&self) -> (r: TemplateArg)
        ensures
            r@ == self@,
        decreases self,
    {
        match self {
            TemplateArg::Type(t) => TemplateArg::Type(t.duplicate()),
            TemplateArg::Value(v) => TemplateArg::Value(*v),
        }
    }
}

impl Type {
    /// A structurally equal copy.
    pub fn duplicate(&self) -> (r: Type)
        ensures
            r@ == self@,
        decreases self,
    {
        let mut args: Vec<TemplateArg> = Vec::new();
        let mut i: usize = 0;
        while i < self.args.len()
            invariant
                i <= self.args.len(),
                args@.len() == i,
                forall|k: int| 0 <= k < i ==> (#[trigger] args@[k])@ == self.args@[k]@,
            decreases self.args.len() - i,
        {
            args.push(self.args[i].duplicate());
            i += 1;
        }
        let r = Type { name: self.name.clone(), args };
        proof {
            assert(r@.args =~= self@.args);
        }
        r
    }
}

/// A structurally equal copy of a list of template arguments.
pub fn duplicate_args(tmpl_args: &Vec<TemplateArg>) -> (r: Vec<TemplateArg>)
    ensures
        args_view(r@) == args_view(tmpl_args@),
{
    let mut args: Vec<TemplateArg> = Vec::new();
    let mut i: usize = 0;
    while i < tmpl_args.len()
        invariant
            i <= tmpl_args.len(),
            args@.len() == i,
            forall|k: int| 0 <= k < i ==> (#[trigger] args@[k])@ == tmpl_args@[k]@,
        decreases tmpl_args.len() - i,
    {
        args.push(tmpl_args[i].duplicate());
        i += 1;
    }
    proof {
        assert(args_view(args@) =~= args_view(tmpl_args@));
    }
    args
}

/// Wraps a type as a template argument.
pub fn type_arg(t: Type) -> (r: TemplateArg)
    ensures
        r == TemplateArg::Type(t),
{
    TemplateArg::Type(t)
}

/// Wraps an integer as a template argument.
pub fn val_arg(v: i64) -> (r: TemplateArg)
    ensures
        r == TemplateArg::Value(v),
{
    TemplateArg::Value(v)
}

/// The type of the given name, with no template arguments.
pub fn as_type(name: &str) -> (r: Type)
    ensures
        r@ == (TypeView { name: name@, args: Seq::empty() }),
{
    let r = Type { name: name.to_owned(), args: Vec::new() };
    proof {
        assert(r@.args =~= Seq::empty());
    }
    r
}

/// The view of the named type applied to the given arguments.
pub open spec fn named_type(name: Seq<char>, args: Seq<TemplateArgView>) -> TypeView {
    TypeView { name, args }
}

/// The type of the gas counter.
pub fn gas_builtin_type() -> (r: Type)
    ensures
        r@ == named_type("GasBuiltin"@, Seq::empty()),
{
    as_type("GasBuiltin")
}

/// The type of a value of type `t` that is computed but not yet stored.
pub fn as_deferred(t: Type) -> (r: Type)
    ensures
        r@ == named_type("Deferred"@, seq![TemplateArgView::Type(t@)]),
{
    let mut args: Vec<TemplateArg> = Vec::new();
    args.push(TemplateArg::Type(t));
    let r = Type { name: "Deferred".to_owned(), args };
    proof {
        assert(r@.args =~= seq![TemplateArgView::Type(t@)]);
    }
    r
}

/// The tuple type of the given element arguments.
pub fn as_tuple(args: Vec<TemplateArg>) -> (r: Type)
    ensures
        r@ == named_type("Tuple"@, args_view(args@)),
{
    let r = Type { name: "Tuple".to_owned(), args };
    proof {
        assert(r@.args =~= args_view(args@));
    }
    r
}

/// The single integer that a template-argument list consists of.
pub open spec fn single_value_spec(args: Seq<TemplateArgView>) -> Result<i64, Error> {
    if args.len() != 1 {
        Err(Error::WrongNumberOfTypeArgs)
    } else {
        match args[0] {
            TemplateArgView::Value(v) => Ok(v),
            TemplateArgView::Type(_) => Err(Error::UnsupportedTypeArg),
        }
    }
}

/// Demands exactly one template argument, an integer, and returns it.
pub fn single_value_arg(tmpl_args: &Vec<TemplateArg>) -> (r: Result<i64, Error>)
    ensures
        r == single_value_spec(args_view(tmpl_args@)),
{
    if tmpl_args.len() != 1 {
        return Err(Error::WrongNumberOfTypeArgs);
    }
    match &tmpl_args[0] {
        TemplateArg::Value(v) => Ok(*v),
        TemplateArg::Type(_) => Err(Error::UnsupportedTypeArg),
    }
}

/// Demands that a template argument is a type, and returns it.
pub fn unwrap_type(tmpl_arg: &TemplateArg) -> (r: Result<&Type, Error>)
    ensures
        match *tmpl_arg {
            TemplateArg::Type(t) => r == Ok::<&Type, Error>(&t),
            TemplateArg::Value(_) => r == Err::<&Type, Error>(Error::UnsupportedTypeArg),
        },
{
    match tmpl_arg {
        TemplateArg::Type(t) => Ok(t),
        TemplateArg::Value(_) => Err(Error::UnsupportedTypeArg),
    }
}

/// Demands a template-argument list of exactly `size` entries.
pub fn validate_size_eq(tmpl_args: &Vec<TemplateArg>, size: usize) -> (r: Result<(), Error>)
    ensures
        r == if tmpl_args@.len() == size {
            Ok::<(), Error>(())
        } else {
            Err::<(), Error>(Error::WrongNumberOfTypeArgs)
        },
{
    if tmpl_args.len() == size {
        Ok(())
    } else {
        Err(Error::WrongNumberOfTypeArgs)
    }
}

/// Argument types, per-branch result types and the branch reached without a
/// jump, if any.
#[derive(Debug, PartialEq, Eq)]
pub struct ExtensionSignature {
    pub args: Vec<Type>,
    pub results: Vec<Vec<Type>>,
    pub fallthrough: Option<usize>,
}

/// Mathematical value of an `ExtensionSignature`.
pub struct ExtensionSignatureView {
    pub args: Seq<TypeView>,
    pub results: Seq<Seq<TypeView>>,
    pub fallthrough: Option<usize>,
}

impl View for ExtensionSignature {
    type V = ExtensionSignatureView;

    open spec fn view(&self) -> ExtensionSignatureView {
        ExtensionSignatureView {
            args: types_view(self.args@),
            results: branches_view(self.results@),
            fallthrough: self.fallthrough,
        }
    }
}

/// An abstract stack slot, relative to one of the two frame bases.
#[derive(Clone, Copy, Debug, PartialEq, Eq, Structural)]
pub enum MemLocation {
    Temp(i64),
    Local(i64),
}

impl MemLocation {
    /// The slot's offset from its base.
    pub open spec fn offset(self) -> int {
        match self {
            MemLocation::Temp(o) => o as int,
            MemLocation::Local(o) => o as int,
        }
    }

    /// Whether both slots are relative to the same base.
    pub open spec fn same_base(self, other: MemLocation) -> bool {
        (self is Temp) == (other is Temp)
    }

    /// Whether the slot `by` cells further on the same base is representable.
    pub open spec fn can_shift(self, by: int) -> bool {
        i64::MIN <= self.offset() + by <= i64::MAX
    }

    /// The slot `by` cells further on the same base.
    pub open spec fn shifted(self, by: int) -> MemLocation {
        match self {
            MemLocation::Temp(o) => MemLocation::Temp((o + by) as i64),
            MemLocation::Local(o) => MemLocation::Local((o + by) as i64),
        }
    }
}

/// The arithmetic that a deferred value applies.
#[derive(Clone, Copy, Debug, PartialEq, Eq, Structural)]
pub enum Op {
    Add,
    Sub,
}

/// Where a value lives, or how it is derived from one that is stored.
#[derive(Clone, Copy, Debug, PartialEq, Eq, Structural)]
pub enum RefValue {
    Final(MemLocation),
    Transient,
    OpWithConst(MemLocation, Op, i64),
}

/// The location of a stored value; a value that is not stored has none.
pub open spec fn as_final_spec(r: RefValue) -> Result<MemLocation, Error> {
    match r {
        RefValue::Final(m) => Ok(m),
        _ => Err(Error::IllegalArgsLocation),
    }
}

/// Demands a value that is already stored, and returns its location.
pub fn as_final(ref_val: &RefValue) -> (r: Result<MemLocation, Error>)
    ensures
        r == as_final_spec(*ref_val),
{
    match ref_val {
        RefValue::Final(m) => Ok(*m),
        _ => Err(Error::IllegalArgsLocation),
    }
}

/// Two spans are contiguous when they share a base, the second starts where
/// the first ends, and the joint size is representable.
pub open spec fn contiguous(a: (MemLocation, usize), b: (MemLocation, usize)) -> bool {
    &&& a.0.same_base(b.0)
    &&& a.0.offset() + a.1 == b.0.offset()
    &&& a.1 + b.1 <= usize::MAX
}

/// The union of two contiguous spans; `None` for any other pair.
pub open spec fn mem_reducer_spec(a: (MemLocation, usize), b: (MemLocation, usize)) -> Option<
    (MemLocation, usize),
> {
    if contiguous(a, b) {
        Some((a.0, (a.1 + b.1) as usize))
    } else {
        None
    }
}

/// Spans with a gap or an overlap between them, or on different bases, do
/// not merge; adjacent spans on one base merge into the span that starts
/// where the first starts and has the summed size.
pub proof fn lemma_merge_contiguous(a: (MemLocation, usize), b: (MemLocation, usize))
    ensures
        a.0.offset() + a.1 != b.0.offset() ==> mem_reducer_spec(a, b) is None,
        !a.0.same_base(b.0) ==> mem_reducer_spec(a, b) is None,
        a.0.same_base(b.0) && a.0.offset() + a.1 == b.0.offset() && a.1 + b.1 <= usize::MAX
            ==> mem_reducer_spec(a, b) == Some((a.0, (a.1 + b.1) as usize)),
{
}

/// Merges two spans into one when they are contiguous.
pub fn mem_reducer(a: (MemLocation, usize), b: (MemLocation, usize)) -> (r: Option<
    (MemLocation, usize),
>)
    ensures
        r == mem_reducer_spec(a, b),
{
    let (a_temp, a_off): (bool, i64) = match a.0 {
        MemLocation::Temp(o) => (true, o),
        MemLocation::Local(o) => (false, o),
    };
    let (b_temp, b_off): (bool, i64) = match b.0 {
        MemLocation::Temp(o) => (true, o),
        MemLocation::Local(o) => (false, o),
    };
    if a_temp != b_temp {
        return None;
    }
    if a_off as i128 + a.1 as i128 != b_off as i128 {
        return None;
    }
    match a.1.checked_add(b.1) {
        Some(size) => Some((a.0, size)),
        None => None,
    }
}

/// The resource delta of one branch of an extension.
#[derive(Clone, Copy, Debug, PartialEq, Eq, Structural)]
pub struct Effects {
    pub gas_usage: i64,
}

impl Effects {
    /// No resource change.
    pub fn none() -> (r: Effects)
        ensures
            r.gas_usage == 0,
    {
        Effects { gas_usage: 0 }
    }

    /// The sum of two deltas along one path.
    pub open spec fn combined(self, next: Effects) -> int {
        self.gas_usage + next.gas_usage
    }

    /// Chains two effects along a straight-line path; `None` when the sum is
    /// not representable.
    pub fn chain(&self, next: &Effects) -> (r: Option<Effects>)
        ensures
            r == if i64::MIN <= self.combined(*next) <= i64::MAX {
                Some(Effects { gas_usage: self.combined(*next) as i64 })
            } else {
                None
            },
    {
        match self.gas_usage.checked_add(next.gas_usage) {
            Some(g) => Some(Effects { gas_usage: g }),
            None => None,
        }
    }
}

/// The effect that changes the gas counter by `delta`.
pub fn gas_usage(delta: i64) -> (r: Effects)
    ensures
        r.gas_usage == delta,
{
    Effects { gas_usage: delta }
}

/// Positions of the next free slot on each frame base.
#[derive(Clone, Copy, Debug, PartialEq, Eq, Structural)]
pub struct Cursors {
    pub local: usize,
    pub temp: usize,
}

/// What is known of a type: the number of memory cells it occupies.
#[derive(Clone, Copy, Debug, PartialEq, Eq, Structural)]
pub struct TypeInfo {
    pub size: usize,
}

/// Whether the concrete inputs have exactly the given lengths, slot by slot.
pub open spec fn mem_sizes_match(inputs: Seq<Seq<i64>>, sizes: Seq<usize>) -> bool {
    &&& inputs.len() == sizes.len()
    &&& forall|i: int| 0 <= i < sizes.len() ==> (#[trigger] inputs[i]).len() == sizes[i]
}

/// Views of a list of lists, row by row.
pub open spec fn rows<T>(lists: Seq<Vec<T>>) -> Seq<Seq<T>> {
    Seq::new(lists.len(), |i: int| lists[i]@)
}

/// Demands one input per expected size, each of exactly that length.
pub fn validate_mem_sizes(inputs: &Vec<Vec<i64>>, sizes: &[usize]) -> (r: Result<(), Error>)
    ensures
        r == if mem_sizes_match(rows(inputs@), sizes@) {
            Ok::<(), Error>(())
        } else {
            Err::<(), Error>(Error::UnexpectedMemoryStructure)
        },
{
    if inputs.len() != sizes.len() {
        return Err(Error::UnexpectedMemoryStructure);
    }
    let mut i: usize = 0;
    while i < sizes.len()
        invariant
            i <= sizes.len(),
            inputs.len() == sizes.len(),
            forall|k: int| 0 <= k < i ==> (#[trigger] rows(inputs@)[k]).len() == sizes@[k],
        decreases sizes.len() - i,
    {
        if inputs[i].len() != sizes[i] {
            assert(rows(inputs@)[i as int].len() != sizes@[i as int]);
            return Err(Error::UnexpectedMemoryStructure);
        }
        i += 1;
    }
    Ok(())
}

} // verus!
