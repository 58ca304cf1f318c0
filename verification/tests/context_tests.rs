use transaction_generator::transaction_context::{NativeTransactionContext, NUM_BUCKETS};
use transaction_generator::type_accessor::{
    MoveField, MoveModule, MoveStruct, MoveType, StructTag, TypeAccessorBuilder,
};

#[test]
fn transaction_context_accessors() {
    let context = NativeTransactionContext::new(vec![0xab, 0xcd], 123, 9);
    assert_eq!(context.chain_id(), 9);
    assert_eq!(context.script_hash(), &vec![0xab, 0xcd]);
    assert_eq!(NUM_BUCKETS, 10);
    assert_eq!(context.get_bucket(), 3);

    let context = NativeTransactionContext::new(Vec::new(), 40, 1);
    assert_eq!(context.get_bucket(), 0);
}

fn account_module() -> MoveModule {
    MoveModule {
        address: 1,
        name: 10,
        structs: vec![MoveStruct {
            name: 100,
            fields: vec![
                MoveField { name: 1000, typ: MoveType::U64 },
                MoveField {
                    name: 1001,
                    typ: MoveType::Struct(StructTag { address: 2, module: 20, name: 200 }),
                },
                MoveField {
                    name: 1002,
                    typ: MoveType::Vector(Box::new(MoveType::U8)),
                },
            ],
        }],
    }
}

fn guid_module() -> MoveModule {
    MoveModule {
        address: 2,
        name: 20,
        structs: vec![MoveStruct {
            name: 200,
            fields: vec![MoveField { name: 2000, typ: MoveType::Address }],
        }],
    }
}

/// The builder walks from the top-level module through every referenced
/// module, handing each out once, and the finished accessor resolves
/// access paths through nested structs.
#[test]
fn type_accessor_build_and_get_type() {
    let mut builder = TypeAccessorBuilder::new((1, 10));
    assert_eq!(builder.next_module_to_fetch(), Some((1, 10)));
    builder.add_module(&account_module());
    // The struct-typed field enqueued its module; it is handed out once.
    assert_eq!(builder.next_module_to_fetch(), Some((2, 20)));
    builder.add_module(&guid_module());
    assert_eq!(builder.next_module_to_fetch(), None);
    let accessor = builder.build();

    assert_eq!(accessor.get_type((1, 10, 100, vec![1000])), Some(&MoveType::U64));
    assert_eq!(
        accessor.get_type((1, 10, 100, vec![1001])),
        Some(&MoveType::Struct(StructTag { address: 2, module: 20, name: 200 }))
    );
    // Descending through the struct-typed field reaches the inner module.
    assert_eq!(
        accessor.get_type((1, 10, 100, vec![1001, 2000])),
        Some(&MoveType::Address)
    );
    // An unknown field, an empty chain, and descent through a non-struct
    // all resolve to nothing.
    assert_eq!(accessor.get_type((1, 10, 100, vec![9999])), None);
    assert_eq!(accessor.get_type((1, 10, 100, vec![])), None);
    assert_eq!(accessor.get_type((1, 10, 100, vec![1000, 2000])), None);
}
