use crate::string::{StringModel, TCString};
use crate::traits::{drop_value_list, list_freed, list_in_use, parts_items, CList, PassByValue};
use vstd::prelude::*;

verus! {

/// A user-defined attribute as the foreign side holds it. The record owns
/// its three strings and has no identity of its own: it lives in a slot of
/// the caller or in a list.
#[derive(Debug, PartialEq, Eq)]
pub struct TCUda {
    /// Namespace of the attribute. This may be Null.
    pub ns: TCString<'static>,
    /// Key of the attribute.
    pub key: TCString<'static>,
    /// Content of the attribute.
    pub value: TCString<'static>,
}

/// A user-defined attribute in its native form.
#[derive(Debug, PartialEq, Eq)]
pub struct Uda {
    /// Namespace of the attribute. This may be Null.
    pub ns: TCString<'static>,
    /// Key of the attribute.
    pub key: TCString<'static>,
    /// Content of the attribute.
    pub value: TCString<'static>,
}

impl TCUda {
    /// The number of heap buffers that the record owns through its strings.
    pub open spec fn spec_allocations(&self) -> nat {
        self.ns@.allocations() + self.key@.allocations() + self.value@.allocations()
    }

    /// True when the record is the placeholder, whose three strings are
    /// Null and which owns nothing.
    pub open spec fn is_placeholder(&self) -> bool {
        &&& self.ns@ == StringModel::Null
        &&& self.key@ == StringModel::Null
        &&& self.value@ == StringModel::Null
    }

    /// The number of heap buffers that the record owns through its strings.
    pub fn allocations(&self) -> (r: usize)
        ensures
            r == self.spec_allocations(),
    {
        self.ns.allocations() + self.key.allocations() + self.value.allocations()
    }
}

impl PassByValue for TCUda {
    type RustType = Uda;

    open spec fn valid(&self) -> bool {
        true
    }

    open spec fn stands_for(&self, value: &Uda) -> bool {
        &&& value.ns == self.ns
        &&& value.key == self.key
        &&& value.value == self.value
    }

    fn from_ctype(self) -> (r: Uda) {
        Uda { ns: self.ns, key: self.key, value: self.value }
    }

    fn as_ctype(uda: Uda) -> (r: Self) {
        TCUda { ns: uda.ns, key: uda.key, value: uda.value }
    }
}

impl Default for TCUda {
    /// The placeholder that is left in a slot whose record was taken. It is
    /// itself a record that may be freed.
    fn default() -> (r: Self)
        ensures
            r.is_placeholder(),
    {
        TCUda { ns: TCString::null(), key: TCString::null(), value: TCString::null() }
    }
}

/// A list of attributes as the foreign side sees it: the number of
/// attributes, a capacity that is for internal accounting only, and the
/// pointer to the attributes. The list owns its attributes. The pointer of
/// a list in use is never NULL; a freed list has the NULL pointer and no
/// length.
#[derive(Debug, PartialEq, Eq)]
pub struct TCUdaList {
    /// The number of attributes in `items`.
    len: usize,
    /// The total size of `items`.
    capacity: usize,
    /// The attributes; `None` is the NULL pointer.
    items: Option<Vec<TCUda>>,
}

impl TCUdaList {
    /// The number of attributes in the list.
    pub fn len(&self) -> (r: usize)
        ensures
            r == self.spec_len(),
    {
        self.len
    }

    /// The capacity that the list was made with.
    pub fn capacity(&self) -> (r: usize)
        ensures
            r == self.spec_capacity(),
    {
        self.capacity
    }

    /// True when the pointer to the attributes is NULL.
    pub fn items_is_null(&self) -> (r: bool)
        ensures
            r == (self.spec_items() is None),
    {
        self.items.is_none()
    }
}

impl CList for TCUdaList {
    type Element = TCUda;

    closed spec fn spec_items(&self) -> Option<Seq<TCUda>> {
        parts_items(self.items)
    }

    closed spec fn spec_len(&self) -> nat {
        self.len as nat
    }

    closed spec fn spec_capacity(&self) -> nat {
        self.capacity as nat
    }

    fn from_raw_parts(items: Option<Vec<TCUda>>, len: usize, cap: usize) -> (r: Self) {
        TCUdaList { len, capacity: cap, items }
    }

    fn slice(&mut self) -> (r: &mut [TCUda]) {
        self.items.as_mut().unwrap().as_mut_slice()
    }

    fn into_raw_parts(self) -> (r: (Option<Vec<TCUda>>, usize, usize)) {
        (self.items, self.len, self.capacity)
    }
}

/// Frees a record: takes it out of its slot, which releases its three
/// strings, and leaves the placeholder there.
pub fn tc_uda_free(tcuda: &mut TCUda)
    ensures
        final(tcuda).is_placeholder(),
        final(tcuda).spec_allocations() == 0,
{
    let _uda = TCUda::take_val_from_arg(tcuda, TCUda::default());
}

/// Frees a list of records: takes the list out of its slot, leaving the
/// freed list there, then releases each record in order, and last the
/// buffer. The list must be in use, so it cannot be freed twice. The result
/// is the sequence of the records in the order in which they were released:
/// each record of the list, once.
pub fn tc_uda_list_free(tcudas: &mut TCUdaList) -> (freed: Ghost<Seq<TCUda>>)
    requires
        list_in_use(old(tcudas)),
    ensures
        Some(freed@) == old(tcudas).spec_items(),
        list_freed(final(tcudas)),
{
    drop_value_list(tcudas)
}

/// A record and its native form hold the same three strings, so a record
/// that is taken and handed out again is the record that it was, and a
/// native value that is handed out and taken back is the value that it was.
pub proof fn lemma_uda_round_trip(tcuda: TCUda, uda: Uda, back: TCUda, again: Uda)
    requires
        tcuda.stands_for(&uda),
        back.stands_for(&uda),
        tcuda.stands_for(&again),
    ensures
        back == tcuda,
        again == uda,
        back.spec_allocations() == tcuda.spec_allocations(),
{
}

} // verus!
