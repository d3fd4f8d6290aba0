use vstd::prelude::*;

use crate::catalog::{same_name, CatalogEntry, Dispatch, ProtoFamily, Slot};

verus! {

/// Newest host major version that still reads buffer dispatch from a side table.
pub const BUFFER_SIDE_TABLE_MAJOR: u8 = 3;

/// Newest host minor version (under `BUFFER_SIDE_TABLE_MAJOR`) that still reads
/// buffer dispatch from a side table.
pub const BUFFER_SIDE_TABLE_MINOR: u8 = 9;

/// An entry of an emitted slot array: the slot and the thunk that fills it.
#[derive(Clone, Copy, Debug)]
pub struct SlotDef {
    pub slot: Slot,
    pub thunk: &'static str,
}

/// An entry of an emitted ordinary method table.
#[derive(Clone, Copy, Debug)]
pub struct MethodDef {
    pub name: &'static str,
    pub coexist: bool,
}

/// The version of the host runtime that tables are emitted for.
#[derive(Clone, Copy, Debug, PartialEq, Eq, Structural)]
pub struct HostVersion {
    pub major: u8,
    pub minor: u8,
}

impl HostVersion {
    pub open spec fn spec_uses_buffer_side_table(self) -> bool {
        self.major < BUFFER_SIDE_TABLE_MAJOR || (self.major == BUFFER_SIDE_TABLE_MAJOR
            && self.minor <= BUFFER_SIDE_TABLE_MINOR)
    }

    /// Whether this host version reads buffer dispatch from the side table
    /// rather than from the main slot array.
    pub fn uses_buffer_side_table(self) -> (r: bool)
        ensures
            r == self.spec_uses_buffer_side_table(),
    {
        self.major < BUFFER_SIDE_TABLE_MAJOR || (self.major == BUFFER_SIDE_TABLE_MAJOR
            && self.minor <= BUFFER_SIDE_TABLE_MINOR)
    }
}

/// The tables registered with the host runtime for one family of one type.
/// An absent table is not emitted at all.
#[derive(Debug)]
pub struct ProtoTables {
    pub slots: Option<Vec<SlotDef>>,
    pub methods: Option<Vec<MethodDef>>,
    pub buffer_procs: Option<Vec<SlotDef>>,
}

pub struct TablesView {
    pub slots: Option<Seq<SlotDef>>,
    pub methods: Option<Seq<MethodDef>>,
    pub buffer_procs: Option<Seq<SlotDef>>,
}

pub open spec fn opt_view<T>(o: Option<Vec<T>>) -> Option<Seq<T>> {
    match o {
        Some(v) => Some(v@),
        None => None,
    }
}

impl View for ProtoTables {
    type V = TablesView;

    open spec fn view(&self) -> TablesView {
        TablesView {
            slots: opt_view(self.slots),
            methods: opt_view(self.methods),
            buffer_procs: opt_view(self.buffer_procs),
        }
    }
}

/// Why no tables were generated for a declaration.
#[derive(Debug)]
pub enum ProtoError {
    /// The family does not recognise a declared method name.
    UnknownMethod(String),
    /// Two declared names map to this slot.
    DuplicateSlot(Slot),
}

/// `n` is among the declared names.
pub open spec fn declares(names: Seq<String>, n: Seq<char>) -> bool {
    exists|i: int| 0 <= i < names.len() && #[trigger] names[i]@ == n
}

/// The catalog recognises the name `n`.
pub open spec fn known(cat: Seq<CatalogEntry>, n: Seq<char>) -> bool {
    exists|j: int| 0 <= j < cat.len() && #[trigger] cat[j].name@ == n
}

/// Some declared name is not in the catalog.
pub open spec fn has_unknown(cat: Seq<CatalogEntry>, names: Seq<String>) -> bool {
    exists|i: int| 0 <= i < names.len() && !known(cat, #[trigger] names[i]@)
}

/// The slot entries of the catalog whose names are declared, in catalog order.
pub open spec fn selected_slots(cat: Seq<CatalogEntry>, names: Seq<String>) -> Seq<SlotDef>
    decreases cat.len(),
{
    if cat.len() == 0 {
        Seq::empty()
    } else {
        let rest = selected_slots(cat.drop_last(), names);
        let e = cat.last();
        match e.dispatch {
            Dispatch::FixedSlot { slot, thunk } => if declares(names, e.name@) {
                rest.push(SlotDef { slot, thunk })
            } else {
                rest
            },
            Dispatch::NonSlotMethod { .. } => rest,
        }
    }
}

/// The ordinary-method entries of the catalog whose names are declared, in
/// catalog order.
pub open spec fn selected_methods(cat: Seq<CatalogEntry>, names: Seq<String>) -> Seq<MethodDef>
    decreases cat.len(),
{
    if cat.len() == 0 {
        Seq::empty()
    } else {
        let rest = selected_methods(cat.drop_last(), names);
        let e = cat.last();
        match e.dispatch {
            Dispatch::NonSlotMethod { coexist } => if declares(names, e.name@) {
                rest.push(MethodDef { name: e.name, coexist })
            } else {
                rest
            },
            Dispatch::FixedSlot { .. } => rest,
        }
    }
}

/// Two entries fill the same slot.
pub open spec fn has_duplicate_slot(s: Seq<SlotDef>) -> bool {
    exists|i: int, j: int| 0 <= i < j < s.len() && #[trigger] s[i].slot == #[trigger] s[j].slot
}

/// A table is emitted only when it has entries.
pub open spec fn emitted<T>(s: Seq<T>) -> Option<Seq<T>> {
    if s.len() == 0 {
        None
    } else {
        Some(s)
    }
}

pub open spec fn uses_side_table(family: ProtoFamily, version: HostVersion) -> bool {
    family == ProtoFamily::Buffer && version.spec_uses_buffer_side_table()
}

/// The tables emitted for a declaration that the catalog accepts.
pub open spec fn tables_spec(family: ProtoFamily, names: Seq<String>, version: HostVersion) -> TablesView {
    let cat = family.catalog_spec();
    let s = selected_slots(cat, names);
    TablesView {
        slots: if uses_side_table(family, version) {
            None
        } else {
            emitted(s)
        },
        methods: emitted(selected_methods(cat, names)),
        buffer_procs: if uses_side_table(family, version) {
            emitted(s)
        } else {
            None
        },
    }
}

/// A declaration is accepted when every name is known and no slot is filled twice.
pub open spec fn accepted(family: ProtoFamily, names: Seq<String>) -> bool {
    let cat = family.catalog_spec();
    !has_unknown(cat, names) && !has_duplicate_slot(selected_slots(cat, names))
}

fn is_known(cat: &Vec<CatalogEntry>, name: &String) -> (r: bool)
    ensures
        r == known(cat@, name@),
{
    let mut j: usize = 0;
    while j < cat.len()
        invariant
            j <= cat.len(),
            forall|k: int| 0 <= k < j ==> cat@[k].name@ != name@,
        decreases cat.len() - j,
    {
        if same_name(cat[j].name, name.as_str()) {
            return true;
        }
        j += 1;
    }
    false
}

fn is_declared(names: &Vec<String>, n: &str) -> (r: bool)
    ensures
        r == declares(names@, n@),
{
    let mut i: usize = 0;
    while i < names.len()
        invariant
            i <= names.len(),
            forall|k: int| 0 <= k < i ==> names@[k]@ != n@,
        decreases names.len() - i,
    {
        if same_name(names[i].as_str(), n) {
            return true;
        }
        i += 1;
    }
    false
}

/// The slot that two entries of `s` both fill, if there is one.
fn find_duplicate_slot(s: &Vec<SlotDef>) -> (r: Option<Slot>)
    ensures
        r is None <==> !has_duplicate_slot(s@),
        r matches Some(x) ==> exists|i: int, j: int|
            0 <= i < j < s@.len() && s@[i].slot == x && s@[j].slot == x,
{
    let mut j: usize = 0;
    while j < s.len()
        invariant
            j <= s.len(),
            forall|a: int, b: int| 0 <= a < b < j ==> s@[a].slot != s@[b].slot,
        decreases s.len() - j,
    {
        let mut i: usize = 0;
        while i < j
            invariant
                i <= j < s.len(),
                forall|a: int| 0 <= a < i ==> s@[a].slot != s@[j as int].slot,
            decreases j - i,
        {
            if s[i].slot == s[j].slot {
                return Some(s[j].slot);
            }
            i += 1;
        }
        j += 1;
    }
    None
}

/// Maps the method names a type declares under `family` to the tables the host
/// runtime reads: fixed slots in a slot array (or, for buffer dispatch on an
/// older host, in the side table), the others in an ordinary method table.
/// An unknown name or a slot filled twice rejects the whole declaration.
pub fn generate_tables(family: ProtoFamily, names: &Vec<String>, version: HostVersion) -> (r: Result<
    ProtoTables,
    ProtoError,
>)
    ensures
        r.is_ok() <==> accepted(family, names@),
        r matches Ok(t) ==> t@ == tables_spec(family, names@, version),
        r matches Err(ProtoError::UnknownMethod(n)) ==> exists|i: int|
            0 <= i < names@.len() && names@[i]@ == n@ && !known(family.catalog_spec(), n@) && (
            forall|k: int| 0 <= k < i ==> known(family.catalog_spec(), #[trigger] names@[k]@)),
        r matches Err(ProtoError::DuplicateSlot(x)) ==> {
            let s = selected_slots(family.catalog_spec(), names@);
            &&& !has_unknown(family.catalog_spec(), names@)
            &&& exists|i: int, j: int| 0 <= i < j < s.len() && s[i].slot == x && s[j].slot == x
        },
{
    let cat = family.catalog();
    let mut i: usize = 0;
    while i < names.len()
        invariant
            i <= names.len(),
            cat@ == family.catalog_spec(),
            forall|k: int| 0 <= k < i ==> known(cat@, #[trigger] names@[k]@),
        decreases names.len() - i,
    {
        if !is_known(&cat, &names[i]) {
            return Err(ProtoError::UnknownMethod(names[i].clone()));
        }
        i += 1;
    }
    let mut slots: Vec<SlotDef> = Vec::new();
    let mut methods: Vec<MethodDef> = Vec::new();
    let mut j: usize = 0;
    while j < cat.len()
        invariant
            j <= cat.len(),
            cat@ == family.catalog_spec(),
            slots@ == selected_slots(cat@.subrange(0, j as int), names@),
            methods@ == selected_methods(cat@.subrange(0, j as int), names@),
        decreases cat.len() - j,
    {
        let e = cat[j];
        proof {
            assert(cat@.subrange(0, j + 1).drop_last() =~= cat@.subrange(0, j as int));
        }
        if is_declared(names, e.name) {
            match e.dispatch {
                Dispatch::FixedSlot { slot, thunk } => slots.push(SlotDef { slot, thunk }),
                Dispatch::NonSlotMethod { coexist } => methods.push(
                    MethodDef { name: e.name, coexist },
                ),
            }
        }
        j += 1;
    }
    proof {
        assert(cat@.subrange(0, cat@.len() as int) =~= cat@);
    }
    if let Some(x) = find_duplicate_slot(&slots) {
        return Err(ProtoError::DuplicateSlot(x));
    }
    let side = family == ProtoFamily::Buffer && version.uses_buffer_side_table();
    let has_slots = slots.len() > 0;
    let methods = if methods.len() > 0 {
        Some(methods)
    } else {
        None
    };
    if !has_slots {
        Ok(ProtoTables { slots: None, methods, buffer_procs: None })
    } else if side {
        Ok(ProtoTables { slots: None, methods, buffer_procs: Some(slots) })
    } else {
        Ok(ProtoTables { slots: Some(slots), methods, buffer_procs: None })
    }
}

proof fn lemma_selection_by_declared_set(cat: Seq<CatalogEntry>, n1: Seq<String>, n2: Seq<String>)
    requires
        forall|x: Seq<char>| declares(n1, x) == declares(n2, x),
    ensures
        selected_slots(cat, n1) == selected_slots(cat, n2),
        selected_methods(cat, n1) == selected_methods(cat, n2),
    decreases cat.len(),
{
    if cat.len() > 0 {
        lemma_selection_by_declared_set(cat.drop_last(), n1, n2);
        assert(declares(n1, cat.last().name@) == declares(n2, cat.last().name@));
    }
}

proof fn lemma_unknown_by_declared_set(cat: Seq<CatalogEntry>, n1: Seq<String>, n2: Seq<String>)
    requires
        forall|x: Seq<char>| declares(n1, x) == declares(n2, x),
    ensures
        has_unknown(cat, n1) ==> has_unknown(cat, n2),
{
    if has_unknown(cat, n1) {
        let i = choose|i: int| 0 <= i < n1.len() && !known(cat, #[trigger] n1[i]@);
        assert(declares(n1, n1[i]@));
        assert(declares(n2, n1[i]@));
        let k = choose|k: int| 0 <= k < n2.len() && #[trigger] n2[k]@ == n1[i]@;
        assert(!known(cat, n2[k]@));
    }
}

/// Generation depends on the set of declared names only: declaring the same
/// names in another order, or repeating one, is accepted or rejected alike and
/// yields the same tables, slots keyed by the catalog and not by the
/// declaration order.
pub proof fn lemma_generation_order_independent(
    family: ProtoFamily,
    n1: Seq<String>,
    n2: Seq<String>,
    version: HostVersion,
)
    requires
        forall|x: Seq<char>| declares(n1, x) == declares(n2, x),
    ensures
        accepted(family, n1) == accepted(family, n2),
        tables_spec(family, n1, version) == tables_spec(family, n2, version),
{
    let cat = family.catalog_spec();
    lemma_selection_by_declared_set(cat, n1, n2);
    lemma_unknown_by_declared_set(cat, n1, n2);
    lemma_unknown_by_declared_set(cat, n2, n1);
}

proof fn lemma_nothing_selected(cat: Seq<CatalogEntry>)
    ensures
        selected_slots(cat, Seq::empty()).len() == 0,
        selected_methods(cat, Seq::empty()).len() == 0,
    decreases cat.len(),
{
    if cat.len() > 0 {
        lemma_nothing_selected(cat.drop_last());
    }
}

/// Declaring no names is accepted and emits no table of any kind.
pub proof fn lemma_empty_declaration_emits_nothing(family: ProtoFamily, version: HostVersion)
    ensures
        accepted(family, Seq::empty()),
        tables_spec(family, Seq::empty(), version).slots is None,
        tables_spec(family, Seq::empty(), version).methods is None,
        tables_spec(family, Seq::empty(), version).buffer_procs is None,
{
    lemma_nothing_selected(family.catalog_spec());
}

/// Buffer dispatch is emitted in exactly one form: up to the cutoff version as
/// the side table, above it folded into the slot array, never both; and the two
/// forms hold the same entries.
pub proof fn lemma_buffer_version_gating(names: Seq<String>, old_host: HostVersion, new_host: HostVersion)
    requires
        old_host.spec_uses_buffer_side_table(),
        !new_host.spec_uses_buffer_side_table(),
    ensures
        tables_spec(ProtoFamily::Buffer, names, old_host).slots is None,
        tables_spec(ProtoFamily::Buffer, names, new_host).buffer_procs is None,
        tables_spec(ProtoFamily::Buffer, names, old_host).buffer_procs == tables_spec(
            ProtoFamily::Buffer,
            names,
            new_host,
        ).slots,
        tables_spec(ProtoFamily::Buffer, names, old_host).methods == tables_spec(
            ProtoFamily::Buffer,
            names,
            new_host,
        ).methods,
        forall|v: HostVersion|
            !(#[trigger] tables_spec(ProtoFamily::Buffer, names, v).slots is Some
                && tables_spec(ProtoFamily::Buffer, names, v).buffer_procs is Some),
{
}

} // verus!
