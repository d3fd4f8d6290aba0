use pyclass_runtime::catalog::{ProtoFamily, Slot};
use pyclass_runtime::slots::{generate_tables, HostVersion, ProtoError};

fn names(list: &[&str]) -> Vec<String> {
    list.iter().map(|s| s.to_string()).collect()
}

const NEW_HOST: HostVersion = HostVersion { major: 3, minor: 10 };
const OLD_HOST: HostVersion = HostVersion { major: 3, minor: 9 };

#[test]
fn object_slots_in_catalog_order() {
    let t = generate_tables(ProtoFamily::Object, &names(&["__repr__", "__str__"]), NEW_HOST).unwrap();
    let slots = t.slots.unwrap();
    assert_eq!(slots.len(), 2);
    assert_eq!(slots[0].slot, Slot::TpStr);
    assert_eq!(slots[0].thunk, "str");
    assert_eq!(slots[1].slot, Slot::TpRepr);
    assert_eq!(slots[1].thunk, "repr");
    assert!(t.methods.is_none());
    assert!(t.buffer_procs.is_none());
}

#[test]
fn reordering_names_gives_same_tables() {
    let a = generate_tables(ProtoFamily::Object, &names(&["__str__", "__hash__", "__format__"]), NEW_HOST)
        .unwrap();
    let b = generate_tables(
        ProtoFamily::Object,
        &names(&["__format__", "__hash__", "__str__", "__str__"]),
        NEW_HOST,
    )
    .unwrap();
    assert_eq!(format!("{:?}", a), format!("{:?}", b));
    let again = generate_tables(ProtoFamily::Object, &names(&["__str__", "__hash__", "__format__"]), NEW_HOST)
        .unwrap();
    assert_eq!(format!("{:?}", a), format!("{:?}", again));
}

#[test]
fn unknown_name_rejected() {
    let r = generate_tables(ProtoFamily::Iter, &names(&["__iter__", "__bogus__"]), NEW_HOST);
    match r {
        Err(ProtoError::UnknownMethod(n)) => assert_eq!(n, "__bogus__"),
        other => panic!("unexpected {:?}", other),
    }
}

#[test]
fn duplicate_slot_rejected() {
    let r = generate_tables(ProtoFamily::Object, &names(&["__setattr__", "__delattr__"]), NEW_HOST);
    assert!(matches!(r, Err(ProtoError::DuplicateSlot(Slot::TpSetattro))));
    let r = generate_tables(ProtoFamily::Mapping, &names(&["__setitem__", "__delitem__", "__len__"]), NEW_HOST);
    assert!(matches!(r, Err(ProtoError::DuplicateSlot(Slot::MpAssSubscript))));
}

#[test]
fn empty_declaration_emits_nothing() {
    let t = generate_tables(ProtoFamily::Sequence, &Vec::new(), NEW_HOST).unwrap();
    assert!(t.slots.is_none());
    assert!(t.methods.is_none());
    assert!(t.buffer_procs.is_none());
    let t = generate_tables(ProtoFamily::Buffer, &Vec::new(), OLD_HOST).unwrap();
    assert!(t.slots.is_none() && t.methods.is_none() && t.buffer_procs.is_none());
}

#[test]
fn reflected_operator_goes_to_method_table() {
    let t = generate_tables(ProtoFamily::Number, &names(&["__radd__", "__add__", "__round__"]), NEW_HOST)
        .unwrap();
    let slots = t.slots.unwrap();
    assert_eq!(slots.len(), 1);
    assert_eq!(slots[0].slot, Slot::NbAdd);
    assert_eq!(slots[0].thunk, "add");
    let methods = t.methods.unwrap();
    assert_eq!(methods.len(), 2);
    assert_eq!(methods[0].name, "__radd__");
    assert!(methods[0].coexist);
    assert_eq!(methods[1].name, "__round__");
    assert!(!methods[1].coexist);
}

#[test]
fn methods_only_emit_no_slot_array() {
    let t = generate_tables(ProtoFamily::Context, &names(&["__exit__", "__enter__"]), NEW_HOST).unwrap();
    assert!(t.slots.is_none());
    let methods = t.methods.unwrap();
    assert_eq!(methods[0].name, "__enter__");
    assert_eq!(methods[1].name, "__exit__");
}

#[test]
fn buffer_side_table_on_old_host() {
    let decl = names(&["bf_releasebuffer", "bf_getbuffer"]);
    let old = generate_tables(ProtoFamily::Buffer, &decl, OLD_HOST).unwrap();
    assert!(old.slots.is_none());
    let procs = old.buffer_procs.unwrap();
    assert_eq!(procs.len(), 2);
    assert_eq!(procs[0].slot, Slot::BfGetbuffer);
    assert_eq!(procs[1].slot, Slot::BfReleasebuffer);

    let new = generate_tables(ProtoFamily::Buffer, &decl, NEW_HOST).unwrap();
    assert!(new.buffer_procs.is_none());
    let slots = new.slots.unwrap();
    assert_eq!(slots.len(), 2);
    assert_eq!(slots[0].slot, Slot::BfGetbuffer);
    assert_eq!(slots[1].slot, Slot::BfReleasebuffer);

    let older = generate_tables(ProtoFamily::Buffer, &decl, HostVersion { major: 2, minor: 12 }).unwrap();
    assert!(older.slots.is_none() && older.buffer_procs.is_some());
    let newer = generate_tables(ProtoFamily::Buffer, &decl, HostVersion { major: 4, minor: 0 }).unwrap();
    assert!(newer.slots.is_some() && newer.buffer_procs.is_none());
}

#[test]
fn version_cutoff() {
    assert!(HostVersion { major: 3, minor: 9 }.uses_buffer_side_table());
    assert!(HostVersion { major: 3, minor: 0 }.uses_buffer_side_table());
    assert!(!HostVersion { major: 3, minor: 10 }.uses_buffer_side_table());
    assert!(!HostVersion { major: 4, minor: 1 }.uses_buffer_side_table());
}

#[test]
fn other_families_ignore_version() {
    let t = generate_tables(ProtoFamily::Gc, &names(&["__traverse__", "__clear__"]), OLD_HOST).unwrap();
    let slots = t.slots.unwrap();
    assert_eq!(slots[0].slot, Slot::TpTraverse);
    assert_eq!(slots[1].slot, Slot::TpClear);
    assert!(t.buffer_procs.is_none());
}

#[test]
fn family_from_trait_name() {
    assert_eq!(ProtoFamily::from_trait_name("PyObjectProtocol"), Some(ProtoFamily::Object));
    assert_eq!(ProtoFamily::from_trait_name("PyNumberProtocol"), Some(ProtoFamily::Number));
    assert_eq!(ProtoFamily::from_trait_name("PyGCProtocol"), Some(ProtoFamily::Gc));
    assert_eq!(ProtoFamily::from_trait_name("PyBufferProtocol"), Some(ProtoFamily::Buffer));
    assert_eq!(ProtoFamily::from_trait_name("PyFooProtocol"), None);
}

#[test]
fn catalog_lists_entries() {
    let cat = ProtoFamily::Iter.catalog();
    assert_eq!(cat.len(), 2);
    assert_eq!(cat[0].name, "__iter__");
    assert_eq!(cat[1].name, "__next__");
}
