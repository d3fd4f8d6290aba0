use vstd::prelude::*;

use crate::borrow::{BorrowError, BorrowFlag};

verus! {

/// How the host runtime produced the memory of an object.
#[derive(Clone, Copy, Debug, PartialEq, Eq, Structural)]
pub enum AllocOrigin {
    /// The generic allocator, asked for the target subtype with no extra size.
    GenericAlloc,
    /// The constructor slot of a host-native base, called with no arguments.
    BaseNew,
}

/// The content cell of one level of an object: the embedded value and its
/// dictionary and weak-reference placeholders (`None` while unset).
#[derive(Debug)]
pub struct PyCellContents<T> {
    pub value: T,
    pub dict: Option<usize>,
    pub weakref: Option<usize>,
}

/// The memory of one host object: its header, the borrow-flag cell (`None`
/// while unwritten) and the content cells written so far, root level first.
#[derive(Debug)]
pub struct HostObject<T> {
    pub subtype: u64,
    pub origin: AllocOrigin,
    pub borrow_flag: Option<BorrowFlag>,
    pub contents: Vec<PyCellContents<T>>,
}

pub struct HostObjectView<T> {
    pub subtype: u64,
    pub origin: AllocOrigin,
    pub borrow_flag: Option<BorrowFlag>,
    pub contents: Seq<PyCellContents<T>>,
}

impl<T> View for HostObject<T> {
    type V = HostObjectView<T>;

    open spec fn view(&self) -> HostObjectView<T> {
        HostObjectView {
            subtype: self.subtype,
            origin: self.origin,
            borrow_flag: self.borrow_flag,
            contents: self.contents@,
        }
    }
}

/// The content cell a level's value is placed in.
pub open spec fn cell_of<T>(value: T) -> PyCellContents<T> {
    PyCellContents { value, dict: None, weakref: None }
}

/// The object that allocating `subtype` and placing `levels` (root level
/// first) into it yields: the borrow flag is written, once, when there is a
/// level to guard.
pub open spec fn built_object<T>(subtype: u64, origin: AllocOrigin, levels: Seq<T>) -> HostObjectView<T> {
    HostObjectView {
        subtype,
        origin,
        borrow_flag: if levels.len() > 0 {
            Some(BorrowFlag::Unused)
        } else {
            None
        },
        contents: levels.map_values(|v: T| cell_of(v)),
    }
}

/// Every object that holds a content cell has its borrow flag written.
pub open spec fn object_wf<T>(o: HostObjectView<T>) -> bool {
    &&& o.contents.len() > 0 ==> o.borrow_flag is Some
    &&& o.borrow_flag matches Some(f) ==> f.wf()
}

/// The host runtime's object memory, with room for `capacity` objects; an
/// object is addressed by its index.
pub struct HostHeap<T> {
    objects: Vec<HostObject<T>>,
    capacity: usize,
}

/// The host runtime failed to produce an object.
#[derive(Clone, Copy, Debug, PartialEq, Eq, Structural)]
pub enum PyErr {
    /// The allocator or the base constructor returned no memory.
    AllocationFailed,
    /// The host-native base has no constructor slot.
    NoBaseConstructor,
}

impl<T> HostHeap<T> {
    pub closed spec fn objects(&self) -> Seq<HostObjectView<T>> {
        self.objects@.map_values(|o: HostObject<T>| o@)
    }

    pub closed spec fn spec_capacity(&self) -> usize {
        self.capacity
    }

    pub open spec fn wf(&self) -> bool {
        forall|i: int| 0 <= i < self.objects().len() ==> object_wf(#[trigger] self.objects()[i])
    }

    /// The host memory with no object yet and room for `capacity` objects.
    pub fn new(capacity: usize) -> (r: Self)
        ensures
            r.objects() == Seq::<HostObjectView<T>>::empty(),
            r.spec_capacity() == capacity,
            r.wf(),
    {
        let r = HostHeap { objects: Vec::new(), capacity };
        proof {
            assert(r.objects() =~= Seq::<HostObjectView<T>>::empty());
        }
        r
    }

    /// The number of objects allocated.
    pub fn len(&self) -> (r: usize)
        ensures
            r == self.objects().len(),
    {
        self.objects.len()
    }

    /// The object at `p`.
    pub fn object(&self, p: usize) -> (r: &HostObject<T>)
        requires
            p < self.objects().len(),
        ensures
            r@ == self.objects()[p as int],
    {
        &self.objects[p]
    }

    /// Fresh memory for one object of `subtype`, or `None` when the host has
    /// no room left.
    fn allocate(&mut self, subtype: u64, origin: AllocOrigin) -> (r: Option<usize>)
        requires
            old(self).wf(),
        ensures
            final(self).wf(),
            final(self).spec_capacity() == old(self).spec_capacity(),
            old(self).objects().len() < old(self).spec_capacity() ==> r == Some(
                old(self).objects().len() as usize,
            ) && final(self).objects() == old(self).objects().push(
                built_object(subtype, origin, Seq::<T>::empty()),
            ),
            old(self).objects().len() >= old(self).spec_capacity() ==> r is None
                && final(self).objects() == old(self).objects(),
    {
        if self.objects.len() >= self.capacity {
            return None;
        }
        let p = self.objects.len();
        let o = HostObject { subtype, origin, borrow_flag: None, contents: Vec::new() };
        proof {
            assert(o@.contents =~= Seq::<T>::empty().map_values(|v: T| cell_of(v)));
        }
        self.objects.push(o);
        proof {
            assert(self.objects() =~= old(self).objects().push(
                built_object(subtype, origin, Seq::<T>::empty()),
            ));
        }
        Some(p)
    }

    /// Writes the borrow-flag cell of the object at `p`, which must not have
    /// been written before.
    fn write_borrow_flag(&mut self, p: usize)
        requires
            p < old(self).objects().len(),
            old(self).objects()[p as int].borrow_flag is None,
        ensures
            final(self).spec_capacity() == old(self).spec_capacity(),
            final(self).objects() == old(self).objects().update(
                p as int,
                HostObjectView { borrow_flag: Some(BorrowFlag::Unused), ..old(self).objects()[p as int] },
            ),
    {
        self.objects[p].borrow_flag = Some(BorrowFlag::Unused);
        proof {
            assert(self.objects() =~= old(self).objects().update(
                p as int,
                HostObjectView { borrow_flag: Some(BorrowFlag::Unused), ..old(self).objects()[p as int] },
            ));
        }
    }

    /// Places the next content cell of the object at `p`.
    fn write_contents(&mut self, p: usize, c: PyCellContents<T>)
        requires
            p < old(self).objects().len(),
        ensures
            final(self).spec_capacity() == old(self).spec_capacity(),
            final(self).objects() == old(self).objects().update(
                p as int,
                HostObjectView {
                    contents: old(self).objects()[p as int].contents.push(c),
                    ..old(self).objects()[p as int]
                },
            ),
    {
        self.objects[p].contents.push(c);
        proof {
            assert(self.objects() =~= old(self).objects().update(
                p as int,
                HostObjectView {
                    contents: old(self).objects()[p as int].contents.push(c),
                    ..old(self).objects()[p as int]
                },
            ));
        }
    }

    /// Sets the borrow flag of the object at `p`, whose contents exist.
    fn set_borrow_flag(&mut self, p: usize, f: BorrowFlag)
        requires
            old(self).wf(),
            p < old(self).objects().len(),
            f.wf(),
        ensures
            final(self).wf(),
            final(self).spec_capacity() == old(self).spec_capacity(),
            final(self).objects() == old(self).objects().update(
                p as int,
                HostObjectView { borrow_flag: Some(f), ..old(self).objects()[p as int] },
            ),
    {
        self.objects[p].borrow_flag = Some(f);
        proof {
            assert(self.objects() =~= old(self).objects().update(
                p as int,
                HostObjectView { borrow_flag: Some(f), ..old(self).objects()[p as int] },
            ));
            assert forall|i: int| 0 <= i < self.objects().len() implies object_wf(
                #[trigger] self.objects()[i],
            ) by {
                if i != p {
                    assert(old(self).objects()[i] == self.objects()[i]);
                }
            }
        }
    }

    /// The borrow flag that level `level` of the object at `p` observes: one
    /// flag shared by every level of the object.
    pub fn borrow_flag_at(&self, p: usize, level: usize) -> (r: BorrowFlag)
        requires
            self.wf(),
            p < self.objects().len(),
            level < self.objects()[p as int].contents.len(),
        ensures
            self.objects()[p as int].borrow_flag == Some(r),
    {
        proof {
            assert(object_wf(self.objects()[p as int]));
        }
        match self.objects[p].borrow_flag {
            Some(f) => f,
            None => BorrowFlag::Unused,
        }
    }

    /// Requests a shared borrow of the object at `p` through level `level`.
    pub fn try_borrow(&mut self, p: usize, level: usize) -> (r: Result<(), BorrowError>)
        requires
            old(self).wf(),
            p < old(self).objects().len(),
            level < old(self).objects()[p as int].contents.len(),
        ensures
            final(self).wf(),
            transition_post(
                *old(self),
                *final(self),
                p,
                old(self).objects()[p as int].borrow_flag.unwrap().spec_acquire_shared(),
                r,
            ),
    {
        let f = self.borrow_flag_at(p, level);
        proof {
            assert(object_wf(self.objects()[p as int]));
        }
        match f.acquire_shared() {
            Ok(g) => {
                self.set_borrow_flag(p, g);
                Ok(())
            },
            Err(e) => Err(e),
        }
    }

    /// Gives back a shared borrow of the object at `p` through level `level`.
    pub fn release_borrow(&mut self, p: usize, level: usize) -> (r: Result<(), BorrowError>)
        requires
            old(self).wf(),
            p < old(self).objects().len(),
            level < old(self).objects()[p as int].contents.len(),
        ensures
            final(self).wf(),
            transition_post(
                *old(self),
                *final(self),
                p,
                old(self).objects()[p as int].borrow_flag.unwrap().spec_release_shared(),
                r,
            ),
    {
        let f = self.borrow_flag_at(p, level);
        match f.release_shared() {
            Ok(g) => {
                self.set_borrow_flag(p, g);
                Ok(())
            },
            Err(e) => Err(e),
        }
    }

    /// Requests the exclusive borrow of the object at `p` through level `level`.
    pub fn try_borrow_mut(&mut self, p: usize, level: usize) -> (r: Result<(), BorrowError>)
        requires
            old(self).wf(),
            p < old(self).objects().len(),
            level < old(self).objects()[p as int].contents.len(),
        ensures
            final(self).wf(),
            transition_post(
                *old(self),
                *final(self),
                p,
                old(self).objects()[p as int].borrow_flag.unwrap().spec_acquire_exclusive(),
                r,
            ),
    {
        let f = self.borrow_flag_at(p, level);
        match f.acquire_exclusive() {
            Ok(g) => {
                self.set_borrow_flag(p, g);
                Ok(())
            },
            Err(e) => Err(e),
        }
    }

    /// Gives back the exclusive borrow of the object at `p` through level `level`.
    pub fn release_borrow_mut(&mut self, p: usize, level: usize) -> (r: Result<(), BorrowError>)
        requires
            old(self).wf(),
            p < old(self).objects().len(),
            level < old(self).objects()[p as int].contents.len(),
        ensures
            final(self).wf(),
            transition_post(
                *old(self),
                *final(self),
                p,
                old(self).objects()[p as int].borrow_flag.unwrap().spec_release_exclusive(),
                r,
            ),
    {
        let f = self.borrow_flag_at(p, level);
        match f.release_exclusive() {
            Ok(g) => {
                self.set_borrow_flag(p, g);
                Ok(())
            },
            Err(e) => Err(e),
        }
    }
}

/// A borrow transition on the object at `p` whose outcome is `t`: when granted,
/// the object's one flag takes the new state, which every level then observes;
/// when refused, nothing changes.
pub open spec fn transition_post<T>(
    before: HostHeap<T>,
    after: HostHeap<T>,
    p: usize,
    t: Result<BorrowFlag, BorrowError>,
    r: Result<(), BorrowError>,
) -> bool {
    &&& after.spec_capacity() == before.spec_capacity()
    &&& match t {
        Ok(g) => r is Ok && after.objects() == before.objects().update(
            p as int,
            HostObjectView { borrow_flag: Some(g), ..before.objects()[p as int] },
        ),
        Err(e) => r == Err::<(), BorrowError>(e) && after.objects() == before.objects(),
    }
}

/// The host-native type at the root of a chain.
#[derive(Clone, Copy, Debug, PartialEq, Eq, Structural)]
pub enum NativeBase {
    /// The universal object root, which the generic allocator serves.
    Object,
    /// Another host-native type, built through its own constructor slot.
    Native { has_constructor: bool },
}

/// What the host runtime gives for the memory of a new object whose
/// host-native root is `base`, when it holds `len` objects of room for `cap`.
pub open spec fn alloc_outcome(base: NativeBase, len: nat, cap: nat) -> Result<AllocOrigin, PyErr> {
    match base {
        NativeBase::Object => if len < cap {
            Ok(AllocOrigin::GenericAlloc)
        } else {
            Err(PyErr::AllocationFailed)
        },
        NativeBase::Native { has_constructor } => if !has_constructor {
            Err(PyErr::NoBaseConstructor)
        } else if len < cap {
            Ok(AllocOrigin::BaseNew)
        } else {
            Err(PyErr::AllocationFailed)
        },
    }
}

/// The outcome of building an object of `subtype` from a chain rooted at
/// `base` with `levels` (root level first): either one new object holding each
/// level's value in its own cell, or an error and the host memory untouched.
pub open spec fn new_object_post<T>(
    before: HostHeap<T>,
    after: HostHeap<T>,
    r: Result<usize, PyErr>,
    base: NativeBase,
    levels: Seq<T>,
    subtype: u64,
) -> bool {
    &&& after.wf()
    &&& after.spec_capacity() == before.spec_capacity()
    &&& match alloc_outcome(base, before.objects().len(), before.spec_capacity() as nat) {
        Ok(origin) => r == Ok::<usize, PyErr>(before.objects().len() as usize) && after.objects()
            == before.objects().push(built_object(subtype, origin, levels)),
        Err(e) => r == Err::<usize, PyErr>(e) && after.objects() == before.objects(),
    }
}

/// An initializer: consumed once to build a host object for `subtype`, a
/// type that may derive from the initializer's own.
pub trait PyObjectInit<T>: Sized {
    /// The values placed in the object, root level first.
    spec fn spec_levels(&self) -> Seq<T>;

    /// The host-native type at the root of the chain.
    spec fn spec_base(&self) -> NativeBase;

    fn into_new_object(self, heap: &mut HostHeap<T>, subtype: u64) -> (r: Result<usize, PyErr>)
        requires
            old(heap).wf(),
        ensures
            new_object_post(*old(heap), *final(heap), r, self.spec_base(), self.spec_levels(), subtype),
    ;
}

/// Initializer for a host-native type: it only obtains the memory.
#[derive(Clone, Copy, Debug, PartialEq, Eq, Structural)]
pub struct PyNativeTypeInitializer {
    pub base: NativeBase,
}

impl<T> PyObjectInit<T> for PyNativeTypeInitializer {
    open spec fn spec_levels(&self) -> Seq<T> {
        Seq::empty()
    }

    open spec fn spec_base(&self) -> NativeBase {
        self.base
    }

    /// The universal object root is served by the generic allocator; another
    /// host-native base by its constructor slot, called with no arguments, and
    /// a base without one is refused.
    fn into_new_object(self, heap: &mut HostHeap<T>, subtype: u64) -> (r: Result<usize, PyErr>) {
        let origin = match self.base {
            NativeBase::Object => AllocOrigin::GenericAlloc,
            NativeBase::Native { has_constructor } => {
                if !has_constructor {
                    return Err(PyErr::NoBaseConstructor);
                }
                AllocOrigin::BaseNew
            },
        };
        match heap.allocate(subtype, origin) {
            Some(p) => Ok(p),
            None => Err(PyErr::AllocationFailed),
        }
    }
}

/// The initializer of a chain's base: a host-native root, or a chain of its own.
pub enum BaseInitializer<T> {
    Native(PyNativeTypeInitializer),
    Class(PyClassInitializer<T>),
}

impl<T> BaseInitializer<T> {
    pub open spec fn spec_levels(&self) -> Seq<T> {
        match self {
            BaseInitializer::Native(_) => Seq::empty(),
            BaseInitializer::Class(c) => c.levels(),
        }
    }

    pub open spec fn spec_base(&self) -> NativeBase {
        match self {
            BaseInitializer::Native(n) => n.base,
            BaseInitializer::Class(c) => c.native_base(),
        }
    }
}

/// Initializer for an embedding-language type: the value of each level of
/// the chain, root level first, over a host-native root.
pub struct PyClassInitializer<T> {
    levels: Vec<T>,
    base: PyNativeTypeInitializer,
}

impl<T> PyClassInitializer<T> {
    /// The values of the chain, root level first.
    pub closed spec fn levels(&self) -> Seq<T> {
        self.levels@
    }

    /// The host-native type at the root of the chain.
    pub closed spec fn native_base(&self) -> NativeBase {
        self.base.base
    }

    /// The chain that adds the level `init` over `super_init`.
    pub fn new(init: T, super_init: BaseInitializer<T>) -> (r: Self)
        ensures
            r.levels() == super_init.spec_levels().push(init),
            r.native_base() == super_init.spec_base(),
    {
        match super_init {
            BaseInitializer::Native(base) => {
                let mut levels: Vec<T> = Vec::new();
                levels.push(init);
                proof {
                    assert(levels@ =~= Seq::<T>::empty().push(init));
                }
                PyClassInitializer { levels, base }
            },
            BaseInitializer::Class(c) => c.add_subclass(init),
        }
    }

    /// The one-level chain holding `value` over the universal object root.
    pub fn from(value: T) -> (r: Self)
        ensures
            r.levels() == seq![value],
            r.native_base() == NativeBase::Object,
    {
        let r = Self::new(
            value,
            BaseInitializer::Native(PyNativeTypeInitializer { base: NativeBase::Object }),
        );
        proof {
            assert(r.levels() =~= seq![value]);
        }
        r
    }

    /// The chain with one more level, `subclass_value`, on top of this one.
    pub fn add_subclass(self, subclass_value: T) -> (r: Self)
        ensures
            r.levels() == self.levels().push(subclass_value),
            r.native_base() == self.native_base(),
    {
        let PyClassInitializer { mut levels, base } = self;
        levels.push(subclass_value);
        PyClassInitializer { levels, base }
    }

    /// Builds the object for `subtype`, a type that may derive from the
    /// chain's own.
    pub fn create_cell_from_subtype(self, heap: &mut HostHeap<T>, subtype: u64) -> (r: Result<
        usize,
        PyErr,
    >)
        requires
            old(heap).wf(),
        ensures
            new_object_post(*old(heap), *final(heap), r, self.native_base(), self.levels(), subtype),
    {
        self.into_new_object(heap, subtype)
    }
}

impl<T> PyObjectInit<T> for PyClassInitializer<T> {
    open spec fn spec_levels(&self) -> Seq<T> {
        self.levels()
    }

    open spec fn spec_base(&self) -> NativeBase {
        self.native_base()
    }

    /// Obtains the memory from the chain's root, then writes the borrow flag
    /// once, at the first level, and places each level's value in its cell,
    /// root level first.
    fn into_new_object(self, heap: &mut HostHeap<T>, subtype: u64) -> (r: Result<usize, PyErr>) {
        let ghost before = heap.objects();
        let ghost all = self.levels@;
        let ghost outcome = alloc_outcome(
            self.base.base,
            heap.objects().len(),
            heap.spec_capacity() as nat,
        );
        let PyClassInitializer { mut levels, base } = self;
        let p = match base.into_new_object(heap, subtype) {
            Ok(p) => p,
            Err(e) => return Err(e),
        };
        let ghost origin = outcome->Ok_0;
        let n = levels.len();
        let mut k: usize = 0;
        proof {
            assert(all.subrange(0, 0) =~= Seq::<T>::empty());
            assert(levels@ =~= all.subrange(0, 0 + n));
        }
        while levels.len() > 0
            invariant
                heap.wf(),
                heap.spec_capacity() == old(heap).spec_capacity(),
                n == all.len(),
                k <= n,
                p == before.len(),
                forall|i: int| 0 <= i < before.len() ==> object_wf(#[trigger] before[i]),
                levels@ == all.subrange(k as int, n as int),
                heap.objects() == before.push(built_object(subtype, origin, all.subrange(0, k as int))),
            decreases levels.len(),
        {
            let v = levels.remove(0);
            if k == 0 {
                heap.write_borrow_flag(p);
            }
            heap.write_contents(p, PyCellContents { value: v, dict: None, weakref: None });
            proof {
                assert(v == all[k as int]);
                assert(all.subrange(0, k + 1).map_values(|x: T| cell_of(x)) =~= all.subrange(
                    0,
                    k as int,
                ).map_values(|x: T| cell_of(x)).push(cell_of(v)));
                assert(levels@ =~= all.subrange(k + 1, n as int));
                assert(heap.objects() =~= before.push(
                    built_object(subtype, origin, all.subrange(0, k + 1)),
                ));
                assert forall|i: int| 0 <= i < heap.objects().len() implies object_wf(
                    #[trigger] heap.objects()[i],
                ) by {
                    if i < before.len() {
                        assert(heap.objects()[i] == before[i]);
                    }
                }
            }
            k += 1;
        }
        proof {
            assert(all.subrange(0, k as int) =~= all);
        }
        Ok(p)
    }
}

/// Building an object from a chain either yields one new object in which every
/// level's cell holds exactly the value supplied for that level, with a single
/// borrow flag, written once as unused, that all levels share; or yields an
/// error and leaves every object, old and new, as it was.
pub proof fn lemma_build_all_or_nothing<T>(
    before: HostHeap<T>,
    after: HostHeap<T>,
    r: Result<usize, PyErr>,
    base: NativeBase,
    levels: Seq<T>,
    subtype: u64,
)
    requires
        new_object_post(before, after, r, base, levels, subtype),
    ensures
        r matches Ok(p) ==> {
            let o = after.objects()[p as int];
            &&& p == before.objects().len()
            &&& after.objects().len() == before.objects().len() + 1
            &&& forall|i: int| 0 <= i < before.objects().len() ==> after.objects()[i] == before.objects()[i]
            &&& o.subtype == subtype
            &&& o.contents.len() == levels.len()
            &&& forall|i: int| 0 <= i < levels.len() ==> #[trigger] o.contents[i].value == levels[i]
                && o.contents[i].dict is None && o.contents[i].weakref is None
            &&& levels.len() > 0 ==> o.borrow_flag == Some(BorrowFlag::Unused)
        },
        r is Err ==> after.objects() == before.objects(),
{
}

} // verus!
