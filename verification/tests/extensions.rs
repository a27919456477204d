use sierra_backend::extensions::{
    as_deferred, as_final, as_tuple, as_type, gas_builtin_type, gas_usage, mem_reducer,
    single_value_arg, type_arg, val_arg, validate_mem_sizes, validate_size_eq, Cursors, Effects,
    Error, ExtensionSignature, MemLocation, Op, RefValue, TemplateArg,
};
use sierra_backend::gas_station::{gas_value_arg, GetGasExtension, RefundGasExtension};
use sierra_backend::registry::{get_info, tuple_info, TypeEntry, TypeRule, TypeRegistry};
use sierra_backend::tuple_obj::{TuplePackExtension, TupleUnpackExtension};

fn registry() -> TypeRegistry {
    let mut entries = vec![
        TypeEntry { name: "0".to_string(), rule: TypeRule::Fixed(0) },
        TypeEntry { name: "1".to_string(), rule: TypeRule::Fixed(1) },
        TypeEntry { name: "2".to_string(), rule: TypeRule::Fixed(2) },
    ];
    entries.extend(sierra_backend::gas_station::types());
    entries.extend(sierra_backend::tuple_obj::types());
    TypeRegistry::new(entries)
}

fn cursors() -> Cursors {
    Cursors { local: 0, temp: 0 }
}

fn one_two() -> Vec<TemplateArg> {
    vec![type_arg(as_type("1")), type_arg(as_type("2"))]
}

#[test]
fn gas_station_legal_usage() {
    assert_eq!(
        RefundGasExtension {}.get_signature(&vec![val_arg(5)]),
        Ok((vec![gas_builtin_type()], vec![as_deferred(gas_builtin_type())],))
    );
}

#[test]
fn wrong_num_of_args() {
    assert_eq!(
        GetGasExtension {}.get_signature(&vec![val_arg(1), val_arg(2)]),
        Err(Error::WrongNumberOfTypeArgs)
    );
    assert_eq!(GetGasExtension {}.get_signature(&vec![]), Err(Error::WrongNumberOfTypeArgs));
    assert_eq!(RefundGasExtension {}.get_signature(&vec![]), Err(Error::WrongNumberOfTypeArgs));
}

#[test]
fn gas_station_wrong_arg_type() {
    assert_eq!(
        GetGasExtension {}.get_signature(&vec![type_arg(as_type("1"))]),
        Err(Error::UnsupportedTypeArg)
    );
    assert_eq!(
        RefundGasExtension {}.get_signature(&vec![type_arg(as_type("1"))]),
        Err(Error::UnsupportedTypeArg)
    );
}

#[test]
fn tuple_obj_legal_usage() {
    assert_eq!(
        TuplePackExtension {}
            .get_signature(&vec![type_arg(as_type("1")), type_arg(as_type("2"))],),
        Ok((
            vec![as_type("1"), as_type("2")],
            vec![as_tuple(vec![type_arg(as_type("1")), type_arg(as_type("2"))])]
        ))
    );
    assert_eq!(
        TupleUnpackExtension {}
            .get_signature(&vec![type_arg(as_type("1")), type_arg(as_type("2"))]),
        Ok((
            vec![as_tuple(vec![type_arg(as_type("1")), type_arg(as_type("2"))])],
            vec![as_type("1"), as_type("2")]
        ))
    );
}

#[test]
fn tuple_obj_wrong_arg_type() {
    assert_eq!(
        TuplePackExtension {}.get_signature(&vec![val_arg(1)]),
        Err(Error::UnsupportedTypeArg)
    );
    assert_eq!(
        TupleUnpackExtension {}.get_signature(&vec![val_arg(1)]),
        Err(Error::UnsupportedTypeArg)
    );
}

#[test]
fn get_gas_signature_has_two_branches() {
    assert_eq!(
        GetGasExtension {}.get_signature(&vec![val_arg(5)]),
        Ok(ExtensionSignature {
            args: vec![gas_builtin_type()],
            results: vec![vec![as_deferred(gas_builtin_type())], vec![gas_builtin_type()]],
            fallthrough: Some(1),
        })
    );
}

#[test]
fn gas_cost_must_be_positive() {
    assert_eq!(gas_value_arg(&vec![val_arg(0)]), Err(Error::UnsupportedTypeArg));
    assert_eq!(gas_value_arg(&vec![val_arg(-3)]), Err(Error::UnsupportedTypeArg));
    assert_eq!(gas_value_arg(&vec![val_arg(7)]), Ok(7));
    assert_eq!(GetGasExtension {}.get_signature(&vec![val_arg(0)]), Err(Error::UnsupportedTypeArg));
    assert_eq!(
        RefundGasExtension {}.get_signature(&vec![val_arg(-1)]),
        Err(Error::UnsupportedTypeArg)
    );
    assert_eq!(
        GetGasExtension {}.effects(&vec![val_arg(0)], &registry()),
        Err(Error::UnsupportedTypeArg)
    );
}

#[test]
fn gas_consumption_scenario() {
    let reg = registry();
    assert_eq!(
        GetGasExtension {}.exec(&vec![val_arg(5)], &reg, vec![vec![10]]),
        Ok((vec![vec![5]], 0))
    );
    assert_eq!(
        GetGasExtension {}.exec(&vec![val_arg(5)], &reg, vec![vec![3]]),
        Ok((vec![vec![3]], 1))
    );
    assert_eq!(
        GetGasExtension {}.exec(&vec![val_arg(5)], &reg, vec![vec![5]]),
        Ok((vec![vec![0]], 0))
    );
}

#[test]
fn gas_exec_rejects_wrong_memory() {
    let reg = registry();
    assert_eq!(
        GetGasExtension {}.exec(&vec![val_arg(5)], &reg, vec![vec![1, 2]]),
        Err(Error::UnexpectedMemoryStructure)
    );
    assert_eq!(
        GetGasExtension {}.exec(&vec![val_arg(5)], &reg, vec![]),
        Err(Error::UnexpectedMemoryStructure)
    );
    assert_eq!(
        RefundGasExtension {}.exec(&vec![val_arg(5)], &reg, vec![vec![1], vec![2]]),
        Err(Error::UnexpectedMemoryStructure)
    );
    assert_eq!(
        RefundGasExtension {}.exec(&vec![val_arg(1)], &reg, vec![vec![i64::MAX]]),
        Err(Error::UnexpectedMemoryStructure)
    );
}

#[test]
fn refund_gas_exec_adds() {
    assert_eq!(
        RefundGasExtension {}.exec(&vec![val_arg(5)], &registry(), vec![vec![10]]),
        Ok(vec![vec![15]])
    );
}

#[test]
fn gas_effects() {
    let reg = registry();
    assert_eq!(
        GetGasExtension {}.effects(&vec![val_arg(5)], &reg),
        Ok(vec![gas_usage(-4), gas_usage(1)])
    );
    assert_eq!(RefundGasExtension {}.effects(&vec![val_arg(5)], &reg), Ok(gas_usage(5)));
    assert_eq!(gas_usage(-4).chain(&gas_usage(5)), Some(Effects { gas_usage: 1 }));
    assert_eq!(gas_usage(i64::MAX).chain(&gas_usage(1)), None);
    assert_eq!(Effects::none(), Effects { gas_usage: 0 });
}

#[test]
fn gas_ref_values() {
    let reg = registry();
    let stored = RefValue::Final(MemLocation::Temp(4));
    assert_eq!(
        GetGasExtension {}.ref_values(&vec![val_arg(5)], &reg, &cursors(), vec![stored]),
        Ok(vec![vec![RefValue::OpWithConst(MemLocation::Temp(4), Op::Sub, 5)], vec![stored]])
    );
    assert_eq!(
        RefundGasExtension {}.ref_values(&vec![val_arg(5)], &reg, &cursors(), vec![stored]),
        Ok(vec![RefValue::OpWithConst(MemLocation::Temp(4), Op::Add, 5)])
    );
    assert_eq!(
        GetGasExtension {}.ref_values(&vec![val_arg(5)], &reg, &cursors(), vec![RefValue::Transient]),
        Err(Error::IllegalArgsLocation)
    );
    assert_eq!(
        RefundGasExtension {}.ref_values(&vec![val_arg(5)], &reg, &cursors(), vec![]),
        Err(Error::IllegalArgsLocation)
    );
    assert_eq!(
        RefundGasExtension {}.ref_values(&vec![], &reg, &cursors(), vec![stored]),
        Err(Error::WrongNumberOfTypeArgs)
    );
}

#[test]
fn as_final_demands_stored_value() {
    assert_eq!(as_final(&RefValue::Final(MemLocation::Local(2))), Ok(MemLocation::Local(2)));
    assert_eq!(as_final(&RefValue::Transient), Err(Error::IllegalArgsLocation));
    assert_eq!(
        as_final(&RefValue::OpWithConst(MemLocation::Local(2), Op::Add, 1)),
        Err(Error::IllegalArgsLocation)
    );
}

#[test]
fn mem_reducer_merges_adjacent_spans() {
    assert_eq!(
        mem_reducer((MemLocation::Temp(3), 2), (MemLocation::Temp(5), 4)),
        Some((MemLocation::Temp(3), 6))
    );
    assert_eq!(
        mem_reducer((MemLocation::Local(-2), 2), (MemLocation::Local(0), 1)),
        Some((MemLocation::Local(-2), 3))
    );
    assert_eq!(mem_reducer((MemLocation::Temp(3), 2), (MemLocation::Temp(6), 4)), None);
    assert_eq!(mem_reducer((MemLocation::Temp(3), 2), (MemLocation::Temp(4), 4)), None);
    assert_eq!(mem_reducer((MemLocation::Temp(3), 2), (MemLocation::Local(5), 4)), None);
    assert_eq!(mem_reducer((MemLocation::Temp(0), usize::MAX), (MemLocation::Temp(-1), 1)), None);
}

#[test]
fn template_arg_helpers() {
    assert_eq!(single_value_arg(&vec![val_arg(9)]), Ok(9));
    assert_eq!(single_value_arg(&vec![]), Err(Error::WrongNumberOfTypeArgs));
    assert_eq!(single_value_arg(&vec![type_arg(as_type("1"))]), Err(Error::UnsupportedTypeArg));
    assert_eq!(validate_size_eq(&vec![val_arg(9)], 1), Ok(()));
    assert_eq!(validate_size_eq(&vec![val_arg(9)], 0), Err(Error::WrongNumberOfTypeArgs));
    assert_eq!(validate_mem_sizes(&vec![vec![1], vec![2, 3]], &[1, 2]), Ok(()));
    assert_eq!(
        validate_mem_sizes(&vec![vec![1], vec![2, 3]], &[1, 1]),
        Err(Error::UnexpectedMemoryStructure)
    );
    assert_eq!(as_type("1").duplicate(), as_type("1"));
    assert_eq!(as_tuple(one_two()).duplicate(), as_tuple(one_two()));
    assert_ne!(as_tuple(one_two()), as_tuple(vec![type_arg(as_type("1"))]));
}

#[test]
fn type_sizes() {
    let reg = registry();
    assert_eq!(get_info(&reg, &gas_builtin_type()).map(|i| i.size), Ok(1));
    assert_eq!(get_info(&reg, &as_type("2")).map(|i| i.size), Ok(2));
    assert_eq!(get_info(&reg, &as_tuple(one_two())).map(|i| i.size), Ok(3));
    let nested = as_tuple(vec![type_arg(as_tuple(one_two())), type_arg(as_type("2"))]);
    assert_eq!(get_info(&reg, &nested).map(|i| i.size), Ok(5));
    assert_eq!(tuple_info(&reg, &vec![]).map(|i| i.size), Ok(0));
    assert_eq!(get_info(&reg, &as_type("none")), Err(Error::UnsupportedTypeName));
    assert_eq!(get_info(&reg, &as_tuple(vec![val_arg(1)])), Err(Error::UnsupportedTypeArg));
    let with_args = sierra_backend::extensions::Type {
        name: "1".to_string(),
        args: vec![val_arg(1)],
    };
    assert_eq!(get_info(&reg, &with_args), Err(Error::WrongNumberOfTypeArgs));
    let big = TypeRegistry::new(vec![
        TypeEntry { name: "big".to_string(), rule: TypeRule::Fixed(usize::MAX) },
        TypeEntry { name: "Tuple".to_string(), rule: TypeRule::Tuple },
    ]);
    let two_big = as_tuple(vec![type_arg(as_type("big")), type_arg(as_type("big"))]);
    assert_eq!(get_info(&big, &two_big), Err(Error::TypeSizeOverflow));
    let later = TypeRegistry::new(vec![
        TypeEntry { name: "x".to_string(), rule: TypeRule::Fixed(1) },
        TypeEntry { name: "x".to_string(), rule: TypeRule::Fixed(4) },
    ]);
    assert_eq!(get_info(&later, &as_type("x")).map(|i| i.size), Ok(4));
}

#[test]
fn tuple_pack_scenario() {
    let reg = registry();
    assert_eq!(
        TuplePackExtension {}.exec(&one_two(), &reg, vec![vec![7], vec![8, 9]]),
        Ok(vec![vec![7, 8, 9]])
    );
    assert_eq!(
        TupleUnpackExtension {}.exec(&one_two(), &reg, vec![vec![7, 8, 9]]),
        Ok(vec![vec![7], vec![8, 9]])
    );
}

#[test]
fn unpack_after_pack_gives_values_back() {
    let reg = registry();
    let types = vec![
        type_arg(as_type("2")),
        type_arg(as_type("0")),
        type_arg(as_tuple(one_two())),
        type_arg(as_type("1")),
    ];
    let values = vec![vec![1, 2], vec![], vec![3, 4, 5], vec![6]];
    let packed = TuplePackExtension {}.exec(&types, &reg, values.clone()).unwrap();
    assert_eq!(packed, vec![vec![1, 2, 3, 4, 5, 6]]);
    assert_eq!(TupleUnpackExtension {}.exec(&types, &reg, packed), Ok(values));
}

#[test]
fn tuple_exec_rejects_wrong_memory() {
    let reg = registry();
    assert_eq!(
        TuplePackExtension {}.exec(&one_two(), &reg, vec![vec![7]]),
        Err(Error::UnexpectedMemoryStructure)
    );
    assert_eq!(
        TuplePackExtension {}.exec(&one_two(), &reg, vec![vec![7], vec![8]]),
        Err(Error::UnexpectedMemoryStructure)
    );
    assert_eq!(
        TupleUnpackExtension {}.exec(&one_two(), &reg, vec![vec![7, 8]]),
        Err(Error::UnexpectedMemoryStructure)
    );
    assert_eq!(
        TupleUnpackExtension {}.exec(&one_two(), &reg, vec![vec![7], vec![8, 9]]),
        Err(Error::UnexpectedMemoryStructure)
    );
    assert_eq!(
        TuplePackExtension {}.exec(&vec![val_arg(1)], &reg, vec![vec![7]]),
        Err(Error::UnsupportedTypeArg)
    );
}

#[test]
fn tuple_pack_ref_values() {
    let reg = registry();
    let pack = TuplePackExtension {};
    assert_eq!(
        pack.ref_values(
            &one_two(),
            &reg,
            &cursors(),
            vec![RefValue::Final(MemLocation::Temp(0)), RefValue::Final(MemLocation::Temp(1))]
        ),
        Ok(vec![RefValue::Final(MemLocation::Temp(0))])
    );
    assert_eq!(
        pack.ref_values(
            &one_two(),
            &reg,
            &cursors(),
            vec![RefValue::Final(MemLocation::Temp(0)), RefValue::Final(MemLocation::Temp(2))]
        ),
        Err(Error::LocationsNonCosecutive)
    );
    assert_eq!(
        pack.ref_values(
            &one_two(),
            &reg,
            &cursors(),
            vec![RefValue::Final(MemLocation::Temp(0)), RefValue::Final(MemLocation::Local(1))]
        ),
        Err(Error::LocationsNonCosecutive)
    );
    assert_eq!(
        pack.ref_values(
            &one_two(),
            &reg,
            &cursors(),
            vec![RefValue::Final(MemLocation::Temp(0)), RefValue::Transient]
        ),
        Err(Error::IllegalArgsLocation)
    );
    assert_eq!(
        pack.ref_values(
            &vec![type_arg(as_type("0")), type_arg(as_type("0"))],
            &reg,
            &cursors(),
            vec![RefValue::Transient, RefValue::Transient]
        ),
        Ok(vec![RefValue::Transient])
    );
    assert_eq!(
        pack.ref_values(
            &vec![type_arg(as_type("0")), type_arg(as_type("2")), type_arg(as_type("1"))],
            &reg,
            &cursors(),
            vec![
                RefValue::Transient,
                RefValue::Final(MemLocation::Local(5)),
                RefValue::Final(MemLocation::Local(7))
            ]
        ),
        Ok(vec![RefValue::Final(MemLocation::Local(5))])
    );
}

#[test]
fn tuple_unpack_ref_values() {
    let reg = registry();
    let unpack = TupleUnpackExtension {};
    let types = vec![type_arg(as_type("2")), type_arg(as_type("0")), type_arg(as_type("1"))];
    assert_eq!(
        unpack.ref_values(&types, &reg, &cursors(), vec![RefValue::Final(MemLocation::Temp(3))]),
        Ok(vec![
            RefValue::Final(MemLocation::Temp(3)),
            RefValue::Transient,
            RefValue::Final(MemLocation::Temp(5))
        ])
    );
    assert_eq!(
        unpack.ref_values(&types, &reg, &cursors(), vec![RefValue::Final(MemLocation::Local(-1))]),
        Ok(vec![
            RefValue::Final(MemLocation::Local(-1)),
            RefValue::Transient,
            RefValue::Final(MemLocation::Local(1))
        ])
    );
    assert_eq!(
        unpack.ref_values(&types, &reg, &cursors(), vec![RefValue::Transient]),
        Err(Error::IllegalArgsLocation)
    );
    assert_eq!(
        unpack.ref_values(
            &types,
            &reg,
            &cursors(),
            vec![RefValue::Final(MemLocation::Temp(i64::MAX))]
        ),
        Err(Error::IllegalArgsLocation)
    );
    assert_eq!(
        unpack.ref_values(&vec![type_arg(as_type("0"))], &reg, &cursors(), vec![]),
        Ok(vec![RefValue::Transient])
    );
}

#[test]
fn tuple_effects_are_none() {
    let reg = registry();
    assert_eq!(TuplePackExtension {}.effects(&one_two(), &reg), Ok(Effects::none()));
    assert_eq!(TupleUnpackExtension {}.effects(&one_two(), &reg), Ok(Effects::none()));
}
