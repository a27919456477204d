use sierra_backend::extensions::{
    as_deferred, as_tuple, as_type, gas_builtin_type, gas_usage, type_arg, val_arg, Cursors,
    Effects, Error, ExtensionSignature, MemLocation, Op, RefValue,
};
use sierra_backend::libfuncs::{extension_by_name, wrap_non_branch, Extension};
use sierra_backend::registry::{TypeEntry, TypeRegistry, TypeRule};

fn sized_registry() -> TypeRegistry {
    TypeRegistry::new(vec![
        TypeEntry { name: "1".to_string(), rule: TypeRule::Fixed(1) },
        TypeEntry { name: "2".to_string(), rule: TypeRule::Fixed(2) },
    ])
}

#[test]
fn extensions_are_found_by_name() {
    assert_eq!(extension_by_name("get_gas"), Some(Extension::GetGas));
    assert_eq!(extension_by_name("refund_gas"), Some(Extension::RefundGas));
    assert_eq!(extension_by_name("tuple_pack"), Some(Extension::TuplePack));
    assert_eq!(extension_by_name("tuple_unpack"), Some(Extension::TupleUnpack));
    assert_eq!(extension_by_name("tuple"), None);
    assert_eq!(
        sierra_backend::gas_station::extensions(),
        vec![
            ("get_gas".to_string(), Extension::GetGas),
            ("refund_gas".to_string(), Extension::RefundGas)
        ]
    );
    assert_eq!(
        sierra_backend::tuple_obj::extensions(),
        vec![
            ("tuple_pack".to_string(), Extension::TuplePack),
            ("tuple_unpack".to_string(), Extension::TupleUnpack)
        ]
    );
    for (name, ext) in sierra_backend::gas_station::extensions() {
        assert_eq!(extension_by_name(&name), Some(ext));
    }
}

#[test]
fn every_extension_checks_its_template_arguments() {
    for ext in [Extension::GetGas, Extension::RefundGas] {
        assert_eq!(ext.get_signature(&vec![]), Err(Error::WrongNumberOfTypeArgs));
        assert_eq!(
            ext.get_signature(&vec![val_arg(1), val_arg(2)]),
            Err(Error::WrongNumberOfTypeArgs)
        );
        assert_eq!(
            ext.get_signature(&vec![type_arg(as_type("1"))]),
            Err(Error::UnsupportedTypeArg)
        );
        assert_eq!(ext.get_signature(&vec![val_arg(0)]), Err(Error::UnsupportedTypeArg));
        assert_eq!(ext.get_signature(&vec![val_arg(-7)]), Err(Error::UnsupportedTypeArg));
        assert!(ext.get_signature(&vec![val_arg(1)]).is_ok());
    }
    for ext in [Extension::TuplePack, Extension::TupleUnpack] {
        assert_eq!(
            ext.get_signature(&vec![type_arg(as_type("1")), val_arg(1)]),
            Err(Error::UnsupportedTypeArg)
        );
        assert!(ext.get_signature(&vec![]).is_ok());
    }
}

#[test]
fn single_exit_signatures_fall_through() {
    assert_eq!(
        Extension::RefundGas.get_signature(&vec![val_arg(5)]),
        Ok(ExtensionSignature {
            args: vec![gas_builtin_type()],
            results: vec![vec![as_deferred(gas_builtin_type())]],
            fallthrough: Some(0),
        })
    );
    assert_eq!(
        Extension::TupleUnpack.get_signature(&vec![type_arg(as_type("1"))]),
        Ok(ExtensionSignature {
            args: vec![as_tuple(vec![type_arg(as_type("1"))])],
            results: vec![vec![as_type("1")]],
            fallthrough: Some(0),
        })
    );
    assert_eq!(
        wrap_non_branch((vec![as_type("1")], vec![])),
        ExtensionSignature { args: vec![as_type("1")], results: vec![vec![]], fallthrough: Some(0) }
    );
    assert_eq!(
        Extension::GetGas.get_signature(&vec![val_arg(5)]).map(|s| s.fallthrough),
        Ok(Some(1))
    );
}

#[test]
fn dispatch_runs_each_extension() {
    let reg = sized_registry();
    let cursors = Cursors { local: 0, temp: 0 };
    let types = vec![type_arg(as_type("1")), type_arg(as_type("2"))];
    assert_eq!(
        Extension::TuplePack.exec(&types, &reg, vec![vec![7], vec![8, 9]]),
        Ok((vec![vec![7, 8, 9]], 0))
    );
    assert_eq!(
        Extension::TupleUnpack.exec(&types, &reg, vec![vec![7, 8, 9]]),
        Ok((vec![vec![7], vec![8, 9]], 0))
    );
    assert_eq!(
        Extension::GetGas.exec(&vec![val_arg(5)], &reg, vec![vec![3]]),
        Ok((vec![vec![3]], 1))
    );
    assert_eq!(
        Extension::RefundGas.exec(&vec![val_arg(5)], &reg, vec![vec![3]]),
        Ok((vec![vec![8]], 0))
    );
    assert_eq!(
        Extension::RefundGas.effects(&vec![val_arg(5)], &reg),
        Ok(vec![gas_usage(5)])
    );
    assert_eq!(Extension::TuplePack.effects(&types, &reg), Ok(vec![Effects::none()]));
    assert_eq!(
        Extension::GetGas.effects(&vec![val_arg(2)], &reg),
        Ok(vec![gas_usage(-1), gas_usage(1)])
    );
    assert_eq!(
        Extension::RefundGas.ref_values(
            &vec![val_arg(5)],
            &reg,
            &cursors,
            vec![RefValue::Final(MemLocation::Local(1))]
        ),
        Ok(vec![vec![RefValue::OpWithConst(MemLocation::Local(1), Op::Add, 5)]])
    );
    assert_eq!(
        Extension::TupleUnpack.ref_values(
            &types,
            &reg,
            &cursors,
            vec![RefValue::Final(MemLocation::Local(1))]
        ),
        Ok(vec![vec![
            RefValue::Final(MemLocation::Local(1)),
            RefValue::Final(MemLocation::Local(2))
        ]])
    );
    assert_eq!(
        Extension::TuplePack.exec(&types, &reg, vec![vec![7]]),
        Err(Error::UnexpectedMemoryStructure)
    );
}
