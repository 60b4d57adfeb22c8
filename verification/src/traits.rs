use crate::util::vec_into_raw_parts;
use vstd::prelude::*;

verus! {

/// Values that cross the boundary by value. The foreign form is `Self`; the
/// native form is `RustType`. Converting moves the value, so each value is
/// owned on one side at a time.
pub trait PassByValue: Sized {
    /// The native form.
    type RustType;

    /// True when the foreign value may be converted to its native form.
    spec fn valid(&self) -> bool;

    /// True when `value` is the native form of this foreign value.
    spec fn stands_for(&self, value: &Self::RustType) -> bool;

    /// Takes the foreign value and gives its native form, which then owns
    /// everything that the foreign value held.
    fn from_ctype(self) -> (r: Self::RustType)
        requires
            self.valid(),
        ensures
            self.stands_for(&r),
    ;

    /// Gives the foreign form of a native value. Everything that it holds is
    /// from then on owned by the foreign side.
    fn as_ctype(arg: Self::RustType) -> (r: Self)
        ensures
            r.valid(),
            r.stands_for(&arg),
    ;

    /// Takes a value that was passed as an argument.
    fn val_from_arg(arg: Self) -> (r: Self::RustType)
        requires
            arg.valid(),
        ensures
            arg.stands_for(&r),
    {
        arg.from_ctype()
    }

    /// Takes a value out of the slot that `arg` points to and leaves
    /// `replacement` there, so that the slot never holds a value that was
    /// given away.
    fn take_val_from_arg(arg: &mut Self, replacement: Self) -> (r: Self::RustType)
        requires
            old(arg).valid(),
        ensures
            old(arg).stands_for(&r),
            *final(arg) == replacement,
    {
        let mut taken = replacement;
        std::mem::swap(arg, &mut taken);
        Self::val_from_arg(taken)
    }

    /// Gives a value to the caller as a return value.
    fn return_val(arg: Self::RustType) -> (r: Self)
        ensures
            r.valid(),
            r.stands_for(&arg),
    {
        Self::as_ctype(arg)
    }
}

/// Values that cross the boundary behind a pointer. An owning pointer is an
/// `Option<Box<Self>>`, with `None` for NULL: whoever holds the box owns the
/// value, and giving the box back is the one way to release it.
pub trait PassByPointer: Sized {
    /// Takes back a value that was handed out with `return_ptr`. The pointer
    /// must not be NULL.
    fn take_from_ptr_arg(arg: Option<Box<Self>>) -> (r: Self)
        requires
            arg is Some,
        ensures
            r == *arg->0,
    {
        *arg.unwrap()
    }

    /// Lends the value behind a pointer for reading. The pointer must not be
    /// NULL, and it keeps the value.
    fn from_ptr_arg_ref<'a>(arg: &'a Option<Box<Self>>) -> (r: &'a Self)
        requires
            *arg is Some,
        ensures
            *r == *(*arg)->0,
    {
        match arg {
            Some(b) => &**b,
            None => vstd::pervasive::unreached(),
        }
    }

    /// Lends the value behind a pointer for use in place. The pointer must
    /// not be NULL, and it keeps the value, as the borrower leaves it.
    fn from_ptr_arg_ref_mut<'a>(arg: &'a mut Option<Box<Self>>) -> (r: &'a mut Self)
        requires
            *old(arg) is Some,
        ensures
            *r == *(*old(arg))->0,
            *final(arg) == Some(Box::new(*final(r))),
    {
        match arg {
            Some(b) => &mut **b,
            None => vstd::pervasive::unreached(),
        }
    }

    /// Moves the value to the heap and hands out the pointer that owns it.
    /// The pointer is never NULL.
    fn return_ptr(self) -> (r: Option<Box<Self>>)
        ensures
            r == Some(Box::new(self)),
    {
        Some(Box::new(self))
    }
}

/// What the three parts of a list hold: the elements for a pointer that
/// owns a buffer, `None` for NULL.
pub open spec fn parts_items<T>(items: Option<Vec<T>>) -> Option<Seq<T>> {
    match items {
        Some(v) => Some(v@),
        None => None,
    }
}

/// True when pointer, length and capacity belong together: the length is
/// that of the buffer and the capacity is no less, or the pointer is NULL
/// and both are 0.
pub open spec fn parts_agree<T>(items: Option<Vec<T>>, len: usize, cap: usize) -> bool {
    match items {
        Some(v) => v@.len() == len && len <= cap,
        None => len == 0 && cap == 0,
    }
}

/// True when the list is in use: its pointer is not NULL, its length is
/// that of its buffer, and its capacity is no less.
pub open spec fn list_in_use<CL: CList>(list: &CL) -> bool {
    &&& list.spec_items() matches Some(items)
    &&& items.len() == list.spec_len()
    &&& list.spec_len() <= list.spec_capacity()
}

/// True when the list was freed: its pointer is NULL, and its length and
/// capacity are 0.
pub open spec fn list_freed<CL: CList>(list: &CL) -> bool {
    &&& list.spec_items() is None
    &&& list.spec_len() == 0
    &&& list.spec_capacity() == 0
}

/// Lists that the foreign side sees as pointer, length and capacity. A list
/// that is in use has a pointer that is not NULL, also when it is empty. The
/// NULL pointer marks a list that was freed.
pub trait CList: Sized {
    /// The type of the elements.
    type Element;

    /// The elements behind the pointer; `None` where the pointer is NULL.
    spec fn spec_items(&self) -> Option<Seq<Self::Element>>;

    /// The length field.
    spec fn spec_len(&self) -> nat;

    /// The capacity field.
    spec fn spec_capacity(&self) -> nat;

    /// Puts a list together from its three parts, which have to belong
    /// together.
    fn from_raw_parts(items: Option<Vec<Self::Element>>, len: usize, cap: usize) -> (r: Self)
        requires
            parts_agree(items, len, cap),
        ensures
            r.spec_items() == parts_items(items),
            r.spec_len() == len,
            r.spec_capacity() == cap,
    ;

    /// The elements, for reading and writing in place.
    fn slice(&mut self) -> (r: &mut [Self::Element])
        requires
            old(self).spec_items() is Some,
        ensures
            old(self).spec_items() == Some(r@),
            final(self).spec_items() == Some(final(r)@),
            final(self).spec_len() == old(self).spec_len(),
            final(self).spec_capacity() == old(self).spec_capacity(),
    ;

    /// Takes the list apart into its three parts.
    fn into_raw_parts(self) -> (r: (Option<Vec<Self::Element>>, usize, usize))
        ensures
            parts_items(r.0) == self.spec_items(),
            r.1 == self.spec_len(),
            r.2 == self.spec_capacity(),
    ;

    /// The list that is left behind where a list was freed: a NULL pointer,
    /// no length, no capacity.
    fn null_value() -> (r: Self)
        ensures
            r.spec_items() is None,
            r.spec_len() == 0,
            r.spec_capacity() == 0,
    {
        Self::from_raw_parts(None, 0, 0)
    }
}

/// A list crosses the boundary by value, and its native form is the vector
/// of its elements.
impl<A: CList> PassByValue for A {
    type RustType = Vec<A::Element>;

    open spec fn valid(&self) -> bool {
        list_in_use(self)
    }

    open spec fn stands_for(&self, value: &Vec<A::Element>) -> bool {
        self.spec_items() == Some(value@)
    }

    fn from_ctype(self) -> (r: Vec<A::Element>) {
        let (items, _len, _cap) = self.into_raw_parts();
        items.unwrap()
    }

    fn as_ctype(arg: Vec<A::Element>) -> (r: Self) {
        let (items, len, cap) = vec_into_raw_parts(arg);
        A::from_raw_parts(items, len, cap)
    }
}

/// True when every one of `items` may be converted to its native form.
pub open spec fn all_valid<T: PassByValue>(items: Seq<T>) -> bool {
    forall|i: int| 0 <= i < items.len() ==> (#[trigger] items[i]).valid()
}

/// Frees a list of values: takes the list out of its slot, leaving the
/// freed list there, then takes each element in order, which releases what
/// the element owns, and last releases the buffer. The list must be in use,
/// so it cannot be freed twice. The result is the sequence of the elements in
/// the order in which they were released: each element of the list, once.
pub fn drop_value_list<CL>(list: &mut CL) -> (freed: Ghost<Seq<CL::Element>>) where
    CL: CList,
    CL::Element: PassByValue,

    requires
        list_in_use(old(list)),
        all_valid(old(list).spec_items()->0),
    ensures
        Some(freed@) == old(list).spec_items(),
        list_freed(final(list)),
{
    let vec = CL::take_val_from_arg(list, CL::null_value());
    let ghost items = vec@;
    assert(old(list).spec_items()->0 == items);
    let ghost mut freed: Seq<CL::Element> = Seq::empty();
    // first, release each of the elements in turn
    for e in it: vec.into_iter()
        invariant
            it.seq() == items,
            freed == items.take(it.index() as int),
            all_valid(items),
    {
        proof {
            freed = freed.push(e);
        }
        let _released = PassByValue::val_from_arg(e);
    }
    // then the buffer, which went with the iterator
    Ghost(freed)
}

/// A vector that is handed out as a list and taken back is the same
/// sequence of elements. In between, the list is in use: its pointer is not
/// NULL, and its length is the vector's, both also for an empty vector.
pub proof fn lemma_list_round_trip<CL: CList>(
    list: CL,
    vec: Vec<CL::Element>,
    back: Vec<CL::Element>,
)
    requires
        list.valid(),
        list.stands_for(&vec),
        list.stands_for(&back),
    ensures
        list.spec_items() is Some,
        list.spec_len() == vec@.len(),
        vec@.len() == 0 ==> list.spec_len() == 0 && back@.len() == 0,
        back@ == vec@,
{
}

} // verus!
