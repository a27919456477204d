//! The type registry: the rule by which each registered name gets its size.

use crate::extensions::{Error, TemplateArg, TemplateArgView, Type, TypeInfo, TypeView};
use vstd::prelude::*;

verus! {

/// How a registered type name determines its size.
#[derive(Clone, Copy, Debug, PartialEq, Eq, Structural)]
pub enum TypeRule {
    /// A type without template arguments that occupies a fixed number of cells.
    Fixed(usize),
    /// A composite whose template arguments are its element types.
    Tuple,
}

/// One registered type name with its rule.
#[derive(Debug, PartialEq, Eq)]
pub struct TypeEntry {
    pub name: String,
    pub rule: TypeRule,
}

/// The read-only table of known types; a later entry of a name replaces an
/// earlier one.
#[derive(Debug, PartialEq, Eq)]
pub struct TypeRegistry {
    pub entries: Vec<TypeEntry>,
}

/// The rule registered for `name` among the first `n` entries.
pub open spec fn find_rule(entries: Seq<TypeEntry>, name: Seq<char>, n: nat) -> Option<TypeRule>
    decreases n,
{
    if n == 0 {
        None
    } else if entries[n - 1].name@ == name {
        Some(entries[n - 1].rule)
    } else {
        find_rule(entries, name, (n - 1) as nat)
    }
}

/// The size of a template argument that must be a type.
pub open spec fn arg_size(reg: TypeRegistry, arg: TemplateArgView) -> Result<nat, Error>
    decreases arg, 0nat, 0nat,
{
    match arg {
        TemplateArgView::Value(_) => Err(Error::UnsupportedTypeArg),
        TemplateArgView::Type(t) => type_size(reg, t),
    }
}

/// The joint size of the first `n` of the given element arguments: the first
/// failure in order decides, and a sum beyond `usize` is a failure.
pub open spec fn args_size(reg: TypeRegistry, args: Seq<TemplateArgView>, n: nat) -> Result<
    nat,
    Error,
>
    decreases args, 1nat, n,
{
    if n == 0 || n > args.len() {
        Ok(0)
    } else {
        match args_size(reg, args, (n - 1) as nat) {
            Err(e) => Err(e),
            Ok(acc) => match arg_size(reg, args[n - 1]) {
                Err(e) => Err(e),
                Ok(s) => if acc + s > usize::MAX {
                    Err(Error::TypeSizeOverflow)
                } else {
                    Ok(acc + s)
                },
            },
        }
    }
}

/// The number of cells a type occupies under the registry.
pub open spec fn type_size(reg: TypeRegistry, ty: TypeView) -> Result<nat, Error>
    decreases ty, 2nat, 0nat,
{
    match find_rule(reg.entries@, ty.name, reg.entries@.len()) {
        None => Err(Error::UnsupportedTypeName),
        Some(TypeRule::Fixed(size)) => if ty.args.len() == 0 {
            Ok(size as nat)
        } else {
            Err(Error::WrongNumberOfTypeArgs)
        },
        Some(TypeRule::Tuple) => args_size(reg, ty.args, ty.args.len()),
    }
}

/// A size as the functions below return it.
pub open spec fn info_of(size: Result<nat, Error>) -> Result<TypeInfo, Error> {
    match size {
        Ok(n) => Ok(TypeInfo { size: n as usize }),
        Err(e) => Err(e),
    }
}

/// Every size that the registry yields fits in `usize`.
pub proof fn lemma_size_bounded(reg: TypeRegistry, ty: TypeView)
    ensures
        type_size(reg, ty) is Ok ==> type_size(reg, ty)->Ok_0 <= usize::MAX,
{
    match find_rule(reg.entries@, ty.name, reg.entries@.len()) {
        Some(TypeRule::Tuple) => {
            lemma_args_size_bounded(reg, ty.args, ty.args.len());
        },
        _ => {},
    }
}

/// Every joint size that the registry yields fits in `usize`.
pub proof fn lemma_args_size_bounded(reg: TypeRegistry, args: Seq<TemplateArgView>, n: nat)
    ensures
        args_size(reg, args, n) is Ok ==> args_size(reg, args, n)->Ok_0 <= usize::MAX,
{
}

impl TypeRegistry {
    /// A registry of the given entries.
    pub fn new(entries: Vec<TypeEntry>) -> (r: TypeRegistry)
        ensures
            r.entries == entries,
    {
        TypeRegistry { entries }
    }

    /// The rule registered for a name, if any.
    pub fn rule_of(&self, name: &String) -> (r: Option<TypeRule>)
        ensures
            r == find_rule(self.entries@, name@, self.entries@.len()),
    {
        let mut found: Option<TypeRule> = None;
        let mut i: usize = 0;
        while i < self.entries.len()
            invariant
                i <= self.entries.len(),
                found == find_rule(self.entries@, name@, i as nat),
            decreases self.entries.len() - i,
        {
            if self.entries[i].name == *name {
                found = Some(self.entries[i].rule);
            }
            i += 1;
        }
        found
    }
}

/// The joint size of a tuple's element arguments.
pub fn tuple_info(registry: &TypeRegistry, tmpl_args: &Vec<TemplateArg>) -> (r: Result<
    TypeInfo,
    Error,
>)
    ensures
        r == info_of(
            args_size(*registry, crate::extensions::args_view(tmpl_args@), tmpl_args@.len()),
        ),
    decreases tmpl_args, 0nat,
{
    let ghost args = crate::extensions::args_view(tmpl_args@);
    let mut size: usize = 0;
    let mut i: usize = 0;
    while i < tmpl_args.len()
        invariant
            i <= tmpl_args.len(),
            args == crate::extensions::args_view(tmpl_args@),
            args_size(*registry, args, i as nat) == Ok::<nat, Error>(size as nat),
        decreases tmpl_args.len() - i,
    {
        assert(args[i as int] == tmpl_args@[i as int]@);
        let ty = match &tmpl_args[i] {
            TemplateArg::Type(t) => t,
            TemplateArg::Value(_) => {
                proof {
                    assert(arg_size(*registry, args[i as int]) == Err::<nat, Error>(
                        Error::UnsupportedTypeArg,
                    ));
                    assert(args_size(*registry, args, (i + 1) as nat) == Err::<nat, Error>(
                        Error::UnsupportedTypeArg,
                    ));
                    lemma_args_size_err(*registry, args, (i + 1) as nat, tmpl_args@.len());
                }
                return Err(Error::UnsupportedTypeArg);
            },
        };
        let ti = match get_info(registry, ty) {
            Ok(ti) => ti,
            Err(e) => {
                proof {
                    assert(arg_size(*registry, args[i as int]) == Err::<nat, Error>(e));
                    assert(args_size(*registry, args, (i + 1) as nat) == Err::<nat, Error>(e));
                    lemma_args_size_err(*registry, args, (i + 1) as nat, tmpl_args@.len());
                }
                return Err(e);
            },
        };
        proof {
            lemma_size_bounded(*registry, ty@);
            assert(arg_size(*registry, args[i as int]) == Ok::<nat, Error>(ti.size as nat));
        }
        size = match size.checked_add(ti.size) {
            Some(s) => s,
            None => {
                proof {
                    assert(args_size(*registry, args, (i + 1) as nat) == Err::<nat, Error>(
                        Error::TypeSizeOverflow,
                    ));
                    lemma_args_size_err(*registry, args, (i + 1) as nat, tmpl_args@.len());
                }
                return Err(Error::TypeSizeOverflow);
            },
        };
        i += 1;
    }
    Ok(TypeInfo { size })
}

/// A failure among the first `n` elements is the failure of any longer prefix.
pub proof fn lemma_args_size_err(reg: TypeRegistry, args: Seq<TemplateArgView>, n: nat, m: nat)
    requires
        n <= m <= args.len(),
        args_size(reg, args, n) is Err,
    ensures
        args_size(reg, args, m) == args_size(reg, args, n),
    decreases m,
{
    if n < m {
        lemma_args_size_err(reg, args, n, (m - 1) as nat);
    }
}

/// The number of cells that a type occupies.
pub fn get_info(registry: &TypeRegistry, ty: &Type) -> (r: Result<TypeInfo, Error>)
    ensures
        r == info_of(type_size(*registry, ty@)),
    decreases ty, 1nat,
{
    proof {
        crate::extensions::lemma_type_view_args(*ty);
    }
    match registry.rule_of(&ty.name) {
        None => Err(Error::UnsupportedTypeName),
        Some(TypeRule::Fixed(size)) => {
            if ty.args.len() == 0 {
                Ok(TypeInfo { size })
            } else {
                Err(Error::WrongNumberOfTypeArgs)
            }
        },
        Some(TypeRule::Tuple) => tuple_info(registry, &ty.args),
    }
}

} // verus!
