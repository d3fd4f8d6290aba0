use vstd::prelude::*;

verus! {

/// A protocol family: a named group of special operations that a type may
/// implement together.
#[derive(Clone, Copy, Debug, PartialEq, Eq, Structural)]
pub enum ProtoFamily {
    Object,
    Async,
    Mapping,
    Iter,
    Context,
    Sequence,
    Number,
    Descr,
    Buffer,
    Gc,
}

/// A fixed dispatch slot of the host runtime's type object.
#[derive(Clone, Copy, Debug, PartialEq, Eq, Structural)]
pub enum Slot {
    TpGetattro,
    TpSetattro,
    TpStr,
    TpRepr,
    TpHash,
    TpRichcompare,
    NbBool,
    AmAwait,
    AmAiter,
    AmAnext,
    MpLength,
    MpSubscript,
    MpAssSubscript,
    TpIter,
    TpIternext,
    SqLength,
    SqItem,
    SqAssItem,
    SqContains,
    SqConcat,
    SqRepeat,
    SqInplaceConcat,
    SqInplaceRepeat,
    NbAdd,
    NbSubtract,
    NbMultiply,
    NbTrueDivide,
    NbFloorDivide,
    NbRemainder,
    NbDivmod,
    NbPower,
    NbLshift,
    NbRshift,
    NbAnd,
    NbXor,
    NbOr,
    NbInplaceAdd,
    NbInplaceSubtract,
    NbInplaceMultiply,
    NbNegative,
    NbPositive,
    NbAbsolute,
    NbInvert,
    NbInt,
    NbFloat,
    NbIndex,
    TpDescrGet,
    TpDescrSet,
    BfGetbuffer,
    BfReleasebuffer,
    TpTraverse,
    TpClear,
}

/// How the host runtime reaches a method of a given name.
#[derive(Clone, Copy, Debug)]
pub enum Dispatch {
    /// Through a fixed slot, filled with the forwarding thunk named `thunk`.
    FixedSlot { slot: Slot, thunk: &'static str },
    /// Through an ordinary method-table entry; `coexist` keeps it from being
    /// shadowed by an operation that shares its slot.
    NonSlotMethod { coexist: bool },
}

/// One recognised method name of a family and the way it is dispatched.
#[derive(Clone, Copy, Debug)]
pub struct CatalogEntry {
    pub name: &'static str,
    pub dispatch: Dispatch,
}

pub open spec fn slot_entry(name: &'static str, slot: Slot, thunk: &'static str) -> CatalogEntry {
    CatalogEntry { name, dispatch: Dispatch::FixedSlot { slot, thunk } }
}

pub open spec fn method_entry(name: &'static str, coexist: bool) -> CatalogEntry {
    CatalogEntry { name, dispatch: Dispatch::NonSlotMethod { coexist } }
}

fn mk_slot_entry(name: &'static str, slot: Slot, thunk: &'static str) -> (r: CatalogEntry)
    ensures
        r == slot_entry(name, slot, thunk),
{
    CatalogEntry { name, dispatch: Dispatch::FixedSlot { slot, thunk } }
}

fn mk_method_entry(name: &'static str, coexist: bool) -> (r: CatalogEntry)
    ensures
        r == method_entry(name, coexist),
{
    CatalogEntry { name, dispatch: Dispatch::NonSlotMethod { coexist } }
}

/// Whether `a` and `b` hold the same characters.
pub(crate) fn same_name(a: &str, b: &str) -> (r: bool)
    ensures
        r == (a@ == b@),
{
    let x: String = a.to_owned();
    let y: String = b.to_owned();
    x == y
}

impl ProtoFamily {
    /// The catalog of one protocol family, in the order its tables are emitted.
    pub open spec fn catalog_spec(self) -> Seq<CatalogEntry> {
        match self {
            ProtoFamily::Object => seq![
                slot_entry("__getattr__", Slot::TpGetattro, "getattr"),
                slot_entry("__setattr__", Slot::TpSetattro, "setattr"),
                slot_entry("__delattr__", Slot::TpSetattro, "delattr"),
                slot_entry("__str__", Slot::TpStr, "str"),
                slot_entry("__repr__", Slot::TpRepr, "repr"),
                method_entry("__format__", false),
                slot_entry("__hash__", Slot::TpHash, "hash"),
                method_entry("__bytes__", false),
                slot_entry("__richcmp__", Slot::TpRichcompare, "richcmp"),
                slot_entry("__bool__", Slot::NbBool, "bool"),
            ],
            ProtoFamily::Async => seq![
                slot_entry("__await__", Slot::AmAwait, "await_"),
                slot_entry("__aiter__", Slot::AmAiter, "aiter"),
                slot_entry("__anext__", Slot::AmAnext, "anext"),
            ],
            ProtoFamily::Mapping => seq![
                slot_entry("__len__", Slot::MpLength, "len"),
                slot_entry("__getitem__", Slot::MpSubscript, "getitem"),
                slot_entry("__setitem__", Slot::MpAssSubscript, "setitem"),
                slot_entry("__delitem__", Slot::MpAssSubscript, "delitem"),
                method_entry("__reversed__", false),
            ],
            ProtoFamily::Iter => seq![
                slot_entry("__iter__", Slot::TpIter, "iter"),
                slot_entry("__next__", Slot::TpIternext, "iternext"),
            ],
            ProtoFamily::Context => seq![
                method_entry("__enter__", false),
                method_entry("__exit__", false),
            ],
            ProtoFamily::Sequence => seq![
                slot_entry("__len__", Slot::SqLength, "len"),
                slot_entry("__getitem__", Slot::SqItem, "getitem"),
                slot_entry("__setitem__", Slot::SqAssItem, "setitem"),
                slot_entry("__delitem__", Slot::SqAssItem, "delitem"),
                slot_entry("__contains__", Slot::SqContains, "contains"),
                slot_entry("__concat__", Slot::SqConcat, "concat"),
                slot_entry("__repeat__", Slot::SqRepeat, "repeat"),
                slot_entry("__inplace_concat__", Slot::SqInplaceConcat, "inplace_concat"),
                slot_entry("__inplace_repeat__", Slot::SqInplaceRepeat, "inplace_repeat"),
            ],
            ProtoFamily::Number => seq![
                slot_entry("__add__", Slot::NbAdd, "add"),
                method_entry("__radd__", true),
                slot_entry("__sub__", Slot::NbSubtract, "sub"),
                method_entry("__rsub__", true),
                slot_entry("__mul__", Slot::NbMultiply, "mul"),
                method_entry("__rmul__", true),
                slot_entry("__truediv__", Slot::NbTrueDivide, "truediv"),
                method_entry("__rtruediv__", true),
                slot_entry("__floordiv__", Slot::NbFloorDivide, "floordiv"),
                method_entry("__rfloordiv__", true),
                slot_entry("__mod__", Slot::NbRemainder, "mod_"),
                method_entry("__rmod__", true),
                slot_entry("__divmod__", Slot::NbDivmod, "divmod"),
                method_entry("__rdivmod__", true),
                slot_entry("__pow__", Slot::NbPower, "pow"),
                method_entry("__rpow__", true),
                slot_entry("__lshift__", Slot::NbLshift, "lshift"),
                method_entry("__rlshift__", true),
                slot_entry("__rshift__", Slot::NbRshift, "rshift"),
                method_entry("__rrshift__", true),
                slot_entry("__and__", Slot::NbAnd, "and"),
                method_entry("__rand__", true),
                slot_entry("__xor__", Slot::NbXor, "xor"),
                method_entry("__rxor__", true),
                slot_entry("__or__", Slot::NbOr, "or"),
                method_entry("__ror__", true),
                slot_entry("__iadd__", Slot::NbInplaceAdd, "iadd"),
                slot_entry("__isub__", Slot::NbInplaceSubtract, "isub"),
                slot_entry("__imul__", Slot::NbInplaceMultiply, "imul"),
                slot_entry("__neg__", Slot::NbNegative, "neg"),
                slot_entry("__pos__", Slot::NbPositive, "pos"),
                slot_entry("__abs__", Slot::NbAbsolute, "abs"),
                slot_entry("__invert__", Slot::NbInvert, "invert"),
                slot_entry("__int__", Slot::NbInt, "int"),
                slot_entry("__float__", Slot::NbFloat, "float"),
                slot_entry("__index__", Slot::NbIndex, "index"),
                method_entry("__complex__", false),
                method_entry("__round__", false),
            ],
            ProtoFamily::Descr => seq![
                slot_entry("__get__", Slot::TpDescrGet, "descr_get"),
                slot_entry("__set__", Slot::TpDescrSet, "descr_set"),
                method_entry("__delete__", false),
                method_entry("__set_name__", false),
            ],
            ProtoFamily::Buffer => seq![
                slot_entry("bf_getbuffer", Slot::BfGetbuffer, "getbuffer"),
                slot_entry("bf_releasebuffer", Slot::BfReleasebuffer, "releasebuffer"),
            ],
            ProtoFamily::Gc => seq![
                slot_entry("__traverse__", Slot::TpTraverse, "traverse"),
                slot_entry("__clear__", Slot::TpClear, "clear"),
            ],
        }
    }

    /// The catalog of this family.
    pub fn catalog(self) -> (r: Vec<CatalogEntry>)
        ensures
            r@ == self.catalog_spec(),
    {
        match self {
            ProtoFamily::Object => vec![
                mk_slot_entry("__getattr__", Slot::TpGetattro, "getattr"),
                mk_slot_entry("__setattr__", Slot::TpSetattro, "setattr"),
                mk_slot_entry("__delattr__", Slot::TpSetattro, "delattr"),
                mk_slot_entry("__str__", Slot::TpStr, "str"),
                mk_slot_entry("__repr__", Slot::TpRepr, "repr"),
                mk_method_entry("__format__", false),
                mk_slot_entry("__hash__", Slot::TpHash, "hash"),
                mk_method_entry("__bytes__", false),
                mk_slot_entry("__richcmp__", Slot::TpRichcompare, "richcmp"),
                mk_slot_entry("__bool__", Slot::NbBool, "bool"),
            ],
            ProtoFamily::Async => vec![
                mk_slot_entry("__await__", Slot::AmAwait, "await_"),
                mk_slot_entry("__aiter__", Slot::AmAiter, "aiter"),
                mk_slot_entry("__anext__", Slot::AmAnext, "anext"),
            ],
            ProtoFamily::Mapping => vec![
                mk_slot_entry("__len__", Slot::MpLength, "len"),
                mk_slot_entry("__getitem__", Slot::MpSubscript, "getitem"),
                mk_slot_entry("__setitem__", Slot::MpAssSubscript, "setitem"),
                mk_slot_entry("__delitem__", Slot::MpAssSubscript, "delitem"),
                mk_method_entry("__reversed__", false),
            ],
            ProtoFamily::Iter => vec![
                mk_slot_entry("__iter__", Slot::TpIter, "iter"),
                mk_slot_entry("__next__", Slot::TpIternext, "iternext"),
            ],
            ProtoFamily::Context => vec![
                mk_method_entry("__enter__", false),
                mk_method_entry("__exit__", false),
            ],
            ProtoFamily::Sequence => vec![
                mk_slot_entry("__len__", Slot::SqLength, "len"),
                mk_slot_entry("__getitem__", Slot::SqItem, "getitem"),
                mk_slot_entry("__setitem__", Slot::SqAssItem, "setitem"),
                mk_slot_entry("__delitem__", Slot::SqAssItem, "delitem"),
                mk_slot_entry("__contains__", Slot::SqContains, "contains"),
                mk_slot_entry("__concat__", Slot::SqConcat, "concat"),
                mk_slot_entry("__repeat__", Slot::SqRepeat, "repeat"),
                mk_slot_entry("__inplace_concat__", Slot::SqInplaceConcat, "inplace_concat"),
                mk_slot_entry("__inplace_repeat__", Slot::SqInplaceRepeat, "inplace_repeat"),
            ],
            ProtoFamily::Number => vec![
                mk_slot_entry("__add__", Slot::NbAdd, "add"),
                mk_method_entry("__radd__", true),
                mk_slot_entry("__sub__", Slot::NbSubtract, "sub"),
                mk_method_entry("__rsub__", true),
                mk_slot_entry("__mul__", Slot::NbMultiply, "mul"),
                mk_method_entry("__rmul__", true),
                mk_slot_entry("__truediv__", Slot::NbTrueDivide, "truediv"),
                mk_method_entry("__rtruediv__", true),
                mk_slot_entry("__floordiv__", Slot::NbFloorDivide, "floordiv"),
                mk_method_entry("__rfloordiv__", true),
                mk_slot_entry("__mod__", Slot::NbRemainder, "mod_"),
                mk_method_entry("__rmod__", true),
                mk_slot_entry("__divmod__", Slot::NbDivmod, "divmod"),
                mk_method_entry("__rdivmod__", true),
                mk_slot_entry("__pow__", Slot::NbPower, "pow"),
                mk_method_entry("__rpow__", true),
                mk_slot_entry("__lshift__", Slot::NbLshift, "lshift"),
                mk_method_entry("__rlshift__", true),
                mk_slot_entry("__rshift__", Slot::NbRshift, "rshift"),
                mk_method_entry("__rrshift__", true),
                mk_slot_entry("__and__", Slot::NbAnd, "and"),
                mk_method_entry("__rand__", true),
                mk_slot_entry("__xor__", Slot::NbXor, "xor"),
                mk_method_entry("__rxor__", true),
                mk_slot_entry("__or__", Slot::NbOr, "or"),
                mk_method_entry("__ror__", true),
                mk_slot_entry("__iadd__", Slot::NbInplaceAdd, "iadd"),
                mk_slot_entry("__isub__", Slot::NbInplaceSubtract, "isub"),
                mk_slot_entry("__imul__", Slot::NbInplaceMultiply, "imul"),
                mk_slot_entry("__neg__", Slot::NbNegative, "neg"),
                mk_slot_entry("__pos__", Slot::NbPositive, "pos"),
                mk_slot_entry("__abs__", Slot::NbAbsolute, "abs"),
                mk_slot_entry("__invert__", Slot::NbInvert, "invert"),
                mk_slot_entry("__int__", Slot::NbInt, "int"),
                mk_slot_entry("__float__", Slot::NbFloat, "float"),
                mk_slot_entry("__index__", Slot::NbIndex, "index"),
                mk_method_entry("__complex__", false),
                mk_method_entry("__round__", false),
            ],
            ProtoFamily::Descr => vec![
                mk_slot_entry("__get__", Slot::TpDescrGet, "descr_get"),
                mk_slot_entry("__set__", Slot::TpDescrSet, "descr_set"),
                mk_method_entry("__delete__", false),
                mk_method_entry("__set_name__", false),
            ],
            ProtoFamily::Buffer => vec![
                mk_slot_entry("bf_getbuffer", Slot::BfGetbuffer, "getbuffer"),
                mk_slot_entry("bf_releasebuffer", Slot::BfReleasebuffer, "releasebuffer"),
            ],
            ProtoFamily::Gc => vec![
                mk_slot_entry("__traverse__", Slot::TpTraverse, "traverse"),
                mk_slot_entry("__clear__", Slot::TpClear, "clear"),
            ],
        }
    }

    /// The family a protocol trait of the given name stands for.
    pub open spec fn spec_from_trait_name(name: Seq<char>) -> Option<ProtoFamily> {
        if name == "PyObjectProtocol"@ {
            Some(ProtoFamily::Object)
        } else if name == "PyAsyncProtocol"@ {
            Some(ProtoFamily::Async)
        } else if name == "PyMappingProtocol"@ {
            Some(ProtoFamily::Mapping)
        } else if name == "PyIterProtocol"@ {
            Some(ProtoFamily::Iter)
        } else if name == "PyContextProtocol"@ {
            Some(ProtoFamily::Context)
        } else if name == "PySequenceProtocol"@ {
            Some(ProtoFamily::Sequence)
        } else if name == "PyNumberProtocol"@ {
            Some(ProtoFamily::Number)
        } else if name == "PyDescrProtocol"@ {
            Some(ProtoFamily::Descr)
        } else if name == "PyBufferProtocol"@ {
            Some(ProtoFamily::Buffer)
        } else if name == "PyGCProtocol"@ {
            Some(ProtoFamily::Gc)
        } else {
            None
        }
    }
    /// The family that the protocol trait named `name` stands for, if any.
    pub fn from_trait_name(name: &str) -> (r: Option<ProtoFamily>)
        ensures
            r == Self::spec_from_trait_name(name@),
    {
        if same_name(name, "PyObjectProtocol") {
            Some(ProtoFamily::Object)
        } else if same_name(name, "PyAsyncProtocol") {
            Some(ProtoFamily::Async)
        } else if same_name(name, "PyMappingProtocol") {
            Some(ProtoFamily::Mapping)
        } else if same_name(name, "PyIterProtocol") {
            Some(ProtoFamily::Iter)
        } else if same_name(name, "PyContextProtocol") {
            Some(ProtoFamily::Context)
        } else if same_name(name, "PySequenceProtocol") {
            Some(ProtoFamily::Sequence)
        } else if same_name(name, "PyNumberProtocol") {
            Some(ProtoFamily::Number)
        } else if same_name(name, "PyDescrProtocol") {
            Some(ProtoFamily::Descr)
        } else if same_name(name, "PyBufferProtocol") {
            Some(ProtoFamily::Buffer)
        } else if same_name(name, "PyGCProtocol") {
            Some(ProtoFamily::Gc)
        } else {
            None
        }
    }
}

} // verus!
