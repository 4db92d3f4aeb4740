use trait_cast::cast::{TraitcastTo, Traitcastable, TypeQuery};
use trait_cast::diagnostic::render_targets;
use trait_cast::sample::{
    print_via_cast, Print, Source, Woof, _test_empty_trait_cast_targets, PRINT_INTERFACE_ID,
    SOURCE_TYPE_ID, WOOF_TYPE_ID,
};
use trait_cast::target::{find_target, TraitcastTarget};

#[test]
fn test_trait_castable() {
    let source = Box::new(Source(5));
    let castable: Box<Source> = source;
    let x: &Source = castable
        .downcast_ref(&TypeQuery::Interface(PRINT_INTERFACE_ID))
        .unwrap();
    x.print();
}

#[test]
fn scenario_source_print() {
    let source = Source(5);
    assert!(source.can_be(&TypeQuery::Interface(PRINT_INTERFACE_ID)));
    let view = source
        .downcast_ref(&TypeQuery::Interface(PRINT_INTERFACE_ID))
        .unwrap();
    assert_eq!(view.print(), 5);
    let undeclared: u64 = 999;
    assert!(source
        .downcast_ref(&TypeQuery::Interface(undeclared))
        .is_none());
    assert!(source.is(&TypeQuery::Concrete(SOURCE_TYPE_ID)));
    let owned = Box::new(Source(5));
    let owned_view = owned
        .downcast(&TypeQuery::Interface(PRINT_INTERFACE_ID))
        .unwrap();
    assert_eq!(owned_view.print(), 5);
}

#[test]
fn view_behaviour_matches_concrete_impl() {
    let source = Source(-41);
    assert_eq!(print_via_cast(&source), Some(-41));
    assert_eq!(print_via_cast(&source), Some(source.print()));
}

#[test]
fn identity_reflexive() {
    let source = Source(11);
    assert!(source.is(&TypeQuery::Concrete(SOURCE_TYPE_ID)));
    assert!(source.can_be(&TypeQuery::Concrete(SOURCE_TYPE_ID)));
    let view = source
        .downcast_ref(&TypeQuery::Concrete(SOURCE_TYPE_ID))
        .unwrap();
    assert_eq!(view.print(), 11);
}

#[test]
fn is_refuses_interface_targets() {
    let source = Source(3);
    assert!(!source.is(&TypeQuery::Interface(PRINT_INTERFACE_ID)));
    assert!(!source.is(&TypeQuery::Concrete(WOOF_TYPE_ID)));
}

#[test]
fn negative_lookup() {
    let source = Source(3);
    let undeclared: u64 = 42;
    assert!(!source.can_be(&TypeQuery::Interface(undeclared)));
    assert!(source
        .downcast_ref(&TypeQuery::Interface(undeclared))
        .is_none());
    assert!(!source.can_be(&TypeQuery::Concrete(undeclared)));
    assert!(source
        .downcast_ref(&TypeQuery::Concrete(undeclared))
        .is_none());
}

#[test]
fn downcast_mut_through_declared_interface() {
    let mut source = Source(8);
    {
        let view = source
            .downcast_mut(&TypeQuery::Interface(PRINT_INTERFACE_ID))
            .unwrap();
        view.0 = 9;
    }
    assert_eq!(source.print(), 9);
    assert!(source
        .downcast_mut(&TypeQuery::Interface(WOOF_TYPE_ID))
        .is_none());
}

#[test]
fn empty_table_supports_only_direct_cast() {
    _test_empty_trait_cast_targets();
    let woof = Woof {};
    assert!(woof.is(&TypeQuery::Concrete(WOOF_TYPE_ID)));
    assert!(woof.can_be(&TypeQuery::Concrete(WOOF_TYPE_ID)));
    assert!(woof
        .downcast_ref(&TypeQuery::Concrete(WOOF_TYPE_ID))
        .is_some());
    assert!(!woof.can_be(&TypeQuery::Interface(PRINT_INTERFACE_ID)));
    assert!(woof
        .downcast_ref(&TypeQuery::Interface(PRINT_INTERFACE_ID))
        .is_none());
    assert!(woof.traitcast_targets().is_empty());
}

#[test]
fn owned_downcast_failure_returns_handle() {
    let owned = Box::new(Source(7));
    let undeclared: u64 = 64;
    match owned.downcast(&TypeQuery::Interface(undeclared)) {
        Ok(_) => panic!("cast to an undeclared interface must not succeed"),
        Err(back) => assert_eq!(back.0, 7),
    }
}

#[test]
fn owned_downcast_success_keeps_value() {
    let owned = Box::new(Source(12));
    match owned.downcast(&TypeQuery::Interface(PRINT_INTERFACE_ID)) {
        Ok(view) => assert_eq!(view.print(), 12),
        Err(_) => panic!("cast to a declared interface must succeed"),
    }
}

#[test]
fn table_of_source_names_print() {
    let source = Source(0);
    let targets = source.traitcast_targets();
    assert_eq!(targets.len(), 1);
    assert_eq!(targets[0].target_type_id, PRINT_INTERFACE_ID);
    assert_eq!(targets[0].target_type_name, "Print");
    assert_eq!(source.type_id(), SOURCE_TYPE_ID);
}

#[test]
fn find_target_takes_first_match() {
    let table = vec![
        TraitcastTarget::create(10, "A"),
        TraitcastTarget::create(11, "B"),
        TraitcastTarget::create(10, "C"),
    ];
    assert_eq!(find_target(&table, 10), Some(0));
    assert_eq!(find_target(&table, 11), Some(1));
    assert_eq!(find_target(&table, 12), None);
}

#[test]
fn rendering_lists_declared_names() {
    let source = Source(1);
    let listing = render_targets(&source.traitcast_targets());
    assert_eq!(listing, "Traitcastable to {Print}");
    let woof = Woof {};
    assert_eq!(render_targets(&woof.traitcast_targets()), "Traitcastable to {}");
    let table = vec![
        TraitcastTarget::create(10, "Alpha"),
        TraitcastTarget::create(11, "Beta"),
        TraitcastTarget::create(12, "Gamma"),
    ];
    assert_eq!(render_targets(&table), "Traitcastable to {Alpha, Beta, Gamma}");
}

#[test]
fn rendering_is_deterministic() {
    let table = vec![
        TraitcastTarget::create(21, "First"),
        TraitcastTarget::create(22, "Second"),
    ];
    let once = render_targets(&table);
    let twice = render_targets(&table);
    assert_eq!(once, twice);
    assert!(!once.contains("Source"));
}
