//! The paired-storage container: an ordered, growable sequence of
//! `BitmaskItem` elements, with dual payload-only and payload-plus-mask
//! operations and mask-filtering cursors.

use crate::cj_bitmask_item::BitmaskItem;
use crate::mask_bits::MaskBits;
use vstd::prelude::*;

verus! {

broadcast use vstd::function::axiom_fn_mut_call_ensures;

/// `BitmaskVec` is a vector that pairs a bitmask with each element.
/// Bitmasks `u8` through `u128` are supported.
///
/// Elements can be added with or without supplying a bitmask; the bitmask
/// defaults to the all-zero value if not supplied.
pub struct BitmaskVec<B, T> where B: MaskBits {
    inner: Vec<BitmaskItem<B, T>>,
    /// A lower bound on `inner`'s allocated capacity. Raised only where std
    /// documents a capacity guarantee (`with_capacity`, the reserve
    /// operations); always valid because a `Vec` never shrinks on its own.
    cap: Ghost<nat>,
}

impl<B, T> View for BitmaskVec<B, T> where B: MaskBits {
    type V = Seq<BitmaskItem<B, T>>;

    closed spec fn view(&self) -> Seq<BitmaskItem<B, T>> {
        self.inner@
    }
}

impl<B, T> BitmaskVec<B, T> where B: MaskBits {
    /// The capacity lower bound that construction and the reserve
    /// operations have established so far: `capacity()` returns at least
    /// this much. No operation of this type ever lowers it, since a vector
    /// never shrinks its allocation on its own.
    pub closed spec fn min_cap(&self) -> nat {
        self.cap@
    }

    /// Creates a new, empty `BitmaskVec<B, T>`, with no capacity promised.
    pub fn new() -> (r: Self)
        ensures
            r@ == Seq::<BitmaskItem<B, T>>::empty(),
            r.min_cap() == 0,
    {
        Self { inner: Vec::<BitmaskItem<B, T>>::new(), cap: Ghost(0) }
    }

    /// Constructs a new, empty `BitmaskVec<B, T>` with at least the
    /// specified capacity pre-allocated: std's `Vec::with_capacity`
    /// allocates room for at least `capacity` elements, and that bound is
    /// recorded in `min_cap`.
    pub fn with_capacity(capacity: usize) -> (r: Self)
        ensures
            r@ == Seq::<BitmaskItem<B, T>>::empty(),
            r.min_cap() == capacity,
    {
        Self {
            inner: Vec::<BitmaskItem<B, T>>::with_capacity(capacity),
            cap: Ghost(capacity as nat),
        }
    }

    /// Returns the number of elements the vector can hold without
    /// reallocating.
    ///
    /// Relies on std's `Vec::capacity`: the allocated capacity is always at
    /// least the length, and — because a `Vec` never shrinks its allocation
    /// on its own — at least every bound that `with_capacity` and the
    /// reserve operations have established.
    #[verifier::external_body]
    pub fn capacity(&self) -> (r: usize)
        ensures
            r >= self@.len(),
            r >= self.min_cap(),
    {
        self.inner.capacity()
    }

    /// Reserves capacity for at least `additional` more elements; the
    /// contents are unchanged, and amortized growth may exceed the minimum.
    /// std's `Vec::reserve` brings the capacity to at least
    /// `len + additional`, and that bound is recorded in `min_cap`.
    pub fn reserve(&mut self, additional: usize)
        ensures
            final(self)@ == old(self)@,
            final(self).min_cap() >= old(self)@.len() + additional,
            final(self).min_cap() >= old(self).min_cap(),
    {
        self.inner.reserve(additional);
        let ghost bound = self.inner@.len() + additional;
        self.cap = Ghost(vstd::math::max(self.cap@ as int, bound) as nat);
    }

    /// Reserves the minimum capacity for at least `additional` more
    /// elements, with no extra slack promised; the contents are unchanged.
    /// std's `Vec::reserve_exact` brings the capacity to at least
    /// `len + additional`, and that bound is recorded in `min_cap`.
    pub fn reserve_exact(&mut self, additional: usize)
        ensures
            final(self)@ == old(self)@,
            final(self).min_cap() >= old(self)@.len() + additional,
            final(self).min_cap() >= old(self).min_cap(),
    {
        vec_reserve_exact(&mut self.inner, additional);
        let ghost bound = self.inner@.len() + additional;
        self.cap = Ghost(vstd::math::max(self.cap@ as int, bound) as nat);
    }

    /// Moves all the elements of `other` onto the end of `self`, in order,
    /// leaving `other` empty.
    pub fn append(&mut self, other: &mut Self)
        ensures
            final(self)@ == old(self)@ + old(other)@,
            final(other)@ == Seq::<BitmaskItem<B, T>>::empty(),
            final(self).min_cap() == old(self).min_cap(),
            final(other).min_cap() == old(other).min_cap(),
    {
        self.inner.append(&mut other.inner);
    }

    /// Extracts a slice containing the entire vector.
    pub fn as_slice(&self) -> (r: &[BitmaskItem<B, T>])
        ensures
            r@ == self@,
    {
        self.inner.as_slice()
    }

    /// Extracts a mutable slice containing the entire vector, permitting
    /// in-place editing of both the payload and the bitmask of each element.
    pub fn as_mut_slice(&mut self) -> (r: &mut [BitmaskItem<B, T>])
        ensures
            r@ == old(self)@,
            final(r)@ == final(self)@,
            final(self).min_cap() == old(self).min_cap(),
    {
        self.inner.as_mut_slice()
    }

    /// Clears the vector, removing all values. This has no effect on the
    /// allocated capacity.
    pub fn clear(&mut self)
        ensures
            final(self)@ == Seq::<BitmaskItem<B, T>>::empty(),
            final(self).min_cap() == old(self).min_cap(),
    {
        self.inner.clear();
    }

    /// Inserts an element with the all-zero bitmask at position `index`,
    /// shifting all elements at or after `index` one position later.
    pub fn insert(&mut self, index: usize, value: T)
        requires
            index <= old(self)@.len(),
        ensures
            final(self)@ == old(self)@.insert(
                index as int,
                (BitmaskItem { bitmask: B::zero(), item: value }),
            ),
            final(self).min_cap() == old(self).min_cap(),
    {
        self.inner.insert(index, BitmaskItem::new(B::zero_mask(), value));
    }

    /// Inserts an element with the supplied bitmask at position `index`,
    /// shifting all elements at or after `index` one position later.
    pub fn insert_with_mask(&mut self, index: usize, bitmask: B, value: T)
        requires
            index <= old(self)@.len(),
        ensures
            final(self)@ == old(self)@.insert(
                index as int,
                (BitmaskItem { bitmask, item: value }),
            ),
            final(self).min_cap() == old(self).min_cap(),
    {
        self.inner.insert(index, BitmaskItem::new(bitmask, value));
    }

    /// Removes and returns the payload at position `index`, without its
    /// bitmask, shifting all later elements one position earlier.
    pub fn remove(&mut self, index: usize) -> (r: T)
        requires
            index < old(self)@.len(),
        ensures
            r == old(self)@[index as int].item,
            final(self)@ == old(self)@.remove(index as int),
            final(self).min_cap() == old(self).min_cap(),
    {
        let x = self.inner.remove(index);
        x.item
    }

    /// Removes and returns the element at position `index` together with its
    /// bitmask, shifting all later elements one position earlier.
    pub fn remove_with_mask(&mut self, index: usize) -> (r: BitmaskItem<B, T>)
        requires
            index < old(self)@.len(),
        ensures
            r == old(self)@[index as int],
            final(self)@ == old(self)@.remove(index as int),
            final(self).min_cap() == old(self).min_cap(),
    {
        self.inner.remove(index)
    }

    /// Removes and returns the payload at position `index`, without its
    /// bitmask, moving the last element into the vacated slot. This does not
    /// preserve element order, but runs in constant time.
    pub fn swap_remove(&mut self, index: usize) -> (r: T)
        requires
            index < old(self)@.len(),
        ensures
            r == old(self)@[index as int].item,
            final(self)@ == old(self)@.update(index as int, old(self)@.last()).drop_last(),
            final(self).min_cap() == old(self).min_cap(),
    {
        let x = self.inner.swap_remove(index);
        x.item
    }

    /// Removes and returns the element at position `index` together with its
    /// bitmask, moving the last element into the vacated slot. This does not
    /// preserve element order, but runs in constant time.
    pub fn swap_with_mask_remove(&mut self, index: usize) -> (r: BitmaskItem<B, T>)
        requires
            index < old(self)@.len(),
        ensures
            r == old(self)@[index as int],
            final(self)@ == old(self)@.update(index as int, old(self)@.last()).drop_last(),
            final(self).min_cap() == old(self).min_cap(),
    {
        self.inner.swap_remove(index)
    }

    /// Shortens the vector, keeping the first `len` elements. Has no effect
    /// when `len` is not below the current length, and never on the
    /// allocated capacity.
    pub fn truncate(&mut self, len: usize)
        ensures
            len <= old(self)@.len() ==> final(self)@ == old(self)@.subrange(0, len as int),
            len > old(self)@.len() ==> final(self)@ == old(self)@,
            final(self).min_cap() == old(self).min_cap(),
    {
        self.inner.truncate(len);
    }

    /// Removes the elements at positions `start..end` in bulk, returning
    /// them, in order, as a new `BitmaskVec`; the remaining elements are
    /// shifted left to close the gap.
    pub fn drain(&mut self, start: usize, end: usize) -> (r: Self)
        requires
            start <= end <= old(self)@.len(),
        ensures
            r@ == old(self)@.subrange(start as int, end as int),
            final(self)@ == old(self)@.subrange(0, start as int) + old(self)@.subrange(
                end as int,
                old(self)@.len() as int,
            ),
            final(self).min_cap() == old(self).min_cap(),
            r.min_cap() == 0,
    {
        let mut removed = self.inner.split_off(start);
        let mut rest = removed.split_off(end - start);
        self.inner.append(&mut rest);
        Self { inner: removed, cap: Ghost(0) }
    }

    /// Returns a reference to the payload at position `index`, excluding its
    /// bitmask. The mask at a position is reachable through `as_slice` and
    /// the with-mask cursors instead.
    pub fn index(&self, index: usize) -> (r: &T)
        requires
            index < self@.len(),
        ensures
            *r == self@[index as int].item,
    {
        &self.inner[index].item
    }

    /// Returns a mutable reference to the payload at position `index`,
    /// excluding its bitmask. The bitmask at that position is unchanged,
    /// whatever is written through the reference.
    pub fn index_mut(&mut self, index: usize) -> (r: &mut T)
        requires
            index < old(self)@.len(),
        ensures
            *r == old(self)@[index as int].item,
            final(self)@ == old(self)@.update(
                index as int,
                (BitmaskItem {
                    bitmask: old(self)@[index as int].bitmask,
                    item: *final(r),
                }),
            ),
            final(self).min_cap() == old(self).min_cap(),
    {
        &mut self.inner[index].item
    }

    /// Returns the number of elements in the vector.
    pub fn len(&self) -> (r: usize)
        ensures
            r == self@.len(),
    {
        self.inner.len()
    }

    /// Returns true if the vector contains no elements.
    pub fn is_empty(&self) -> (r: bool)
        ensures
            r == (self@.len() == 0),
    {
        self.inner.is_empty()
    }

    /// Resizes the vector in place so that its length equals `new_len`.
    /// When growing, the new slots are filled with copies of `value`; when
    /// shrinking, this behaves as `truncate`.
    pub fn resize_with_bitmask_item(&mut self, new_len: usize, value: BitmaskItem<B, T>) where
        T: Copy,

        ensures
            new_len <= old(self)@.len() ==> final(self)@ == old(self)@.subrange(
                0,
                new_len as int,
            ),
            new_len > old(self)@.len() ==> final(self)@ == old(self)@ + Seq::new(
                (new_len - old(self)@.len()) as nat,
                |i: int| value,
            ),
            final(self).min_cap() == old(self).min_cap(),
    {
        if new_len <= self.inner.len() {
            self.inner.truncate(new_len);
        } else {
            let ghost start = self.inner@;
            while self.inner.len() < new_len
                invariant
                    self.cap == old(self).cap,
                    start.len() < new_len,
                    start.len() <= self.inner@.len() <= new_len,
                    self.inner@ == start + Seq::new(
                        (self.inner@.len() - start.len()) as nat,
                        |i: int| value,
                    ),
                decreases new_len - self.inner.len(),
            {
                self.inner.push(value);
                proof {
                    assert(self.inner@ =~= start + Seq::new(
                        (self.inner@.len() - start.len()) as nat,
                        |i: int| value,
                    ));
                }
            }
        }
    }

    /// Resizes the vector in place so that its length equals `new_len`,
    /// filling any new slots with copies of `value` under the all-zero
    /// bitmask; when shrinking, this behaves as `truncate`.
    pub fn resize(&mut self, new_len: usize, value: T) where T: Copy
        ensures
            new_len <= old(self)@.len() ==> final(self)@ == old(self)@.subrange(
                0,
                new_len as int,
            ),
            new_len > old(self)@.len() ==> final(self)@ == old(self)@ + Seq::new(
                (new_len - old(self)@.len()) as nat,
                |i: int| (BitmaskItem { bitmask: B::zero(), item: value }),
            ),
            final(self).min_cap() == old(self).min_cap(),
    {
        self.resize_with_bitmask_item(new_len, BitmaskItem::new(B::zero_mask(), value));
    }

    /// Resizes the vector in place so that its length equals `new_len`,
    /// filling any new slots with copies of `value` under the bitmask
    /// `bitmask`; when shrinking, this behaves as `truncate`.
    pub fn resize_with_mask(&mut self, new_len: usize, bitmask: B, value: T) where T: Copy
        ensures
            new_len <= old(self)@.len() ==> final(self)@ == old(self)@.subrange(
                0,
                new_len as int,
            ),
            new_len > old(self)@.len() ==> final(self)@ == old(self)@ + Seq::new(
                (new_len - old(self)@.len()) as nat,
                |i: int| (BitmaskItem { bitmask, item: value }),
            ),
            final(self).min_cap() == old(self).min_cap(),
    {
        self.resize_with_bitmask_item(new_len, BitmaskItem::new(bitmask, value));
    }

    /// Resizes the vector in place so that its length equals `new_len`.
    /// When growing, the factory `f` is invoked once per new slot, in slot
    /// order, and need not produce the same element twice; when shrinking,
    /// this behaves as `truncate`. Unlike the copy-based resize operations,
    /// this places no copying requirement on the payload type.
    pub fn resize_with<F: FnMut() -> BitmaskItem<B, T>>(&mut self, new_len: usize, f: F)
        requires
            forall|g: F| #[trigger] call_requires(g, ()),
        ensures
            new_len <= old(self)@.len() ==> final(self)@ == old(self)@.subrange(
                0,
                new_len as int,
            ),
            new_len > old(self)@.len() ==> final(self)@.len() == new_len && final(self)@.subrange(
                0,
                old(self)@.len() as int,
            ) == old(self)@,
            forall|i: int|
                old(self)@.len() <= i < final(self)@.len() ==> factory_can_produce::<B, T, F>(
                    #[trigger] final(self)@[i],
                ),
            final(self).min_cap() == old(self).min_cap(),
    {
        if new_len <= self.inner.len() {
            self.inner.truncate(new_len);
        } else {
            let mut factory = f;
            let ghost start = self.inner@;
            while self.inner.len() < new_len
                invariant
                    forall|g: F| #[trigger] call_requires(g, ()),
                    self.cap == old(self).cap,
                    start.len() <= self.inner@.len() <= new_len,
                    self.inner@.subrange(0, start.len() as int) == start,
                    forall|j: int|
                        start.len() <= j < self.inner@.len() ==> factory_can_produce::<B, T, F>(
                            #[trigger] self.inner@[j],
                        ),
                decreases new_len - self.inner.len(),
            {
                let ghost prev = self.inner@;
                let item = factory();
                self.inner.push(item);
                proof {
                    assert(self.inner@.subrange(0, start.len() as int) =~= start);
                    assert(factory_can_produce::<B, T, F>(item));
                    assert forall|j: int|
                        start.len() <= j < self.inner@.len() implies factory_can_produce::<
                        B,
                        T,
                        F,
                    >(#[trigger] self.inner@[j]) by {
                        if j == prev.len() {
                            assert(self.inner@[j] == item);
                        } else {
                            assert(self.inner@[j] == prev[j]);
                        }
                    }
                }
            }
        }
    }

    /// Copies all elements of a borrowed slice, masks included, onto the end
    /// of the vector.
    pub fn extend_from_slice(&mut self, other: &[BitmaskItem<B, T>]) where T: Copy
        ensures
            final(self)@ == old(self)@ + other@,
            final(self).min_cap() == old(self).min_cap(),
    {
        let ghost start = self.inner@;
        let mut i: usize = 0;
        while i < other.len()
            invariant
                self.cap == old(self).cap,
                i <= other@.len(),
                self.inner@ == start + other@.subrange(0, i as int),
            decreases other@.len() - i,
        {
            self.inner.push(*vstd::slice::slice_index_get(other, i));
            proof {
                assert(self.inner@ =~= start + other@.subrange(0, i + 1));
            }
            i = i + 1;
        }
        proof {
            assert(other@.subrange(0, other@.len() as int) =~= other@);
        }
    }

    /// Converts the vector into a boxed slice of its elements.
    ///
    /// Relies on std's `Vec::into_boxed_slice`, which is documented to hand
    /// back the vector's elements unchanged, dropping only excess capacity.
    #[verifier::external_body]
    pub fn into_boxed_slice(self) -> (r: Box<[BitmaskItem<B, T>]>)
        ensures
            r@ == self@,
    {
        self.inner.into_boxed_slice()
    }

    /// Appends an element with the all-zero bitmask.
    pub fn push(&mut self, value: T)
        ensures
            final(self)@ == old(self)@.push(
                (BitmaskItem { bitmask: B::zero(), item: value }),
            ),
            final(self).min_cap() == old(self).min_cap(),
    {
        self.inner.push(BitmaskItem::new(B::zero_mask(), value));
    }

    /// Appends an element with the supplied bitmask.
    pub fn push_with_mask(&mut self, bitmask: B, value: T)
        ensures
            final(self)@ == old(self)@.push((BitmaskItem { bitmask, item: value })),
            final(self).min_cap() == old(self).min_cap(),
    {
        self.inner.push(BitmaskItem::new(bitmask, value));
    }

    /// Returns a cursor over the payloads, excluding the bitmasks. Use
    /// `iter_with_mask` instead if both the payload and the bitmask are
    /// wanted.
    pub fn iter(&self) -> (r: BitmaskVecIter<'_, B, T>)
        ensures
            r.elements() == self@,
            r.position() == 0,
    {
        BitmaskVecIter::new(&self.inner)
    }

    /// Returns a cursor over whole elements, bitmask and payload, which can
    /// also skip ahead to the next element matching a mask.
    pub fn iter_with_mask(&self) -> (r: BitmaskVecIterWithMask<'_, B, T>)
        ensures
            r.elements() == self@,
            r.position() == 0,
    {
        BitmaskVecIterWithMask::new(&self.inner)
    }

    /// Returns a cursor for mutable traversal of the payloads, excluding
    /// the bitmasks; the vector itself is handed to each advancing call.
    pub fn iter_mut(&self) -> (r: BitmaskVecIterMut)
        ensures
            r.position() == 0,
    {
        BitmaskVecIterMut::new()
    }

    /// Returns a cursor for mutable traversal of whole elements, bitmask
    /// and payload; the vector itself is handed to each advancing call.
    pub fn iter_with_mask_mut(&self) -> (r: BitmaskVecIterWithMaskMut)
        ensures
            r.position() == 0,
    {
        BitmaskVecIterWithMaskMut::new()
    }

    /// Removes and returns the last payload, without its bitmask; returns
    /// `None` when the vector is empty. If both the payload and the bitmask
    /// are wanted, use `pop_with_mask` instead.
    pub fn pop(&mut self) -> (r: Option<T>)
        ensures
            old(self)@.len() > 0 ==> r == Some(old(self)@.last().item) && final(self)@ == old(
                self,
            )@.drop_last(),
            old(self)@.len() == 0 ==> r is None && final(self)@ == old(self)@,
            final(self).min_cap() == old(self).min_cap(),
    {
        if let Some(item) = self.inner.pop() {
            Some(item.item)
        } else {
            None
        }
    }

    /// Removes and returns the last element together with its bitmask;
    /// returns `None` when the vector is empty.
    pub fn pop_with_mask(&mut self) -> (r: Option<BitmaskItem<B, T>>)
        ensures
            old(self)@.len() > 0 ==> r == Some(old(self)@.last()) && final(self)@ == old(
                self,
            )@.drop_last(),
            old(self)@.len() == 0 ==> r is None && final(self)@ == old(self)@,
            final(self).min_cap() == old(self).min_cap(),
    {
        self.inner.pop()
    }
}

/// True iff `e` is a possible output of a factory of type `F`: some state
/// of the factory meets its postcondition with result `e`.
pub open spec fn factory_can_produce<B: MaskBits, T, F: FnMut() -> BitmaskItem<B, T>>(
    e: BitmaskItem<B, T>,
) -> bool {
    exists|g: F| call_ensures(g, (), e)
}

/// Relies on std's `Vec::reserve_exact`: it reserves room for at least
/// `additional` more elements and leaves the contents unchanged.
#[verifier::external_body]
fn vec_reserve_exact<A>(v: &mut Vec<A>, additional: usize)
    ensures
        final(v)@ == old(v)@,
{
    v.reserve_exact(additional);
}

/// The position of the first element of `s` at or after `from` whose
/// bitmask AND-contains `mask`, or `s.len()` when no such element remains.
pub open spec fn next_match_at<B: MaskBits, T>(
    s: Seq<BitmaskItem<B, T>>,
    from: int,
    mask: B,
) -> int
    decreases s.len() - from,
{
    if from < 0 || from >= s.len() {
        s.len() as int
    } else if s[from].spec_matches(mask) {
        from
    } else {
        next_match_at(s, from + 1, mask)
    }
}

/// Cursor over a borrowed run of elements that yields the payloads, in
/// order, excluding the bitmasks.
///
/// Reaching the end yields `None`, and every later call yields `None` again
/// and leaves the cursor unchanged.
pub struct BitmaskVecIter<'a, B, T> where B: MaskBits {
    items: &'a Vec<BitmaskItem<B, T>>,
    pos: usize,
}

impl<'a, B, T> BitmaskVecIter<'a, B, T> where B: MaskBits {
    /// The elements the cursor walks over.
    pub closed spec fn elements(self) -> Seq<BitmaskItem<B, T>> {
        self.items@
    }

    /// How many elements have been yielded so far.
    pub closed spec fn position(self) -> int {
        self.pos as int
    }

    #[verifier::type_invariant]
    closed spec fn wf(self) -> bool {
        self.pos <= self.items@.len()
    }

    /// Creates a cursor positioned at the start of `items`.
    pub fn new(items: &'a Vec<BitmaskItem<B, T>>) -> (r: Self)
        ensures
            r.elements() == items@,
            r.position() == 0,
    {
        Self { items, pos: 0 }
    }

    /// Yields a reference to the next payload, or `None` once every element
    /// has been yielded; after that, every call yields `None`.
    pub fn next(&mut self) -> (r: Option<&'a T>)
        ensures
            final(self).elements() == old(self).elements(),
            old(self).position() < old(self).elements().len() ==> final(self).position() == old(
                self,
            ).position() + 1 && r is Some && *r.unwrap() == old(self).elements()[old(
                self,
            ).position()].item,
            old(self).position() >= old(self).elements().len() ==> r is None && final(self).position()
                == old(self).position(),
    {
        proof {
            use_type_invariant(&*self);
        }
        let items = self.items;
        if self.pos < items.len() {
            let i = self.pos;
            self.pos = i + 1;
            Some(&items[i].item)
        } else {
            None
        }
    }
}

/// Cursor over a borrowed run of elements that yields references to the
/// whole elements, bitmask included, in order, and can skip ahead to the
/// next element matching a mask.
///
/// Reaching the end yields `None`, and every later call yields `None` again
/// and leaves the cursor unchanged.
pub struct BitmaskVecIterWithMask<'a, B, T> where B: MaskBits {
    items: &'a Vec<BitmaskItem<B, T>>,
    pos: usize,
}

impl<'a, B, T> BitmaskVecIterWithMask<'a, B, T> where B: MaskBits {
    /// The elements the cursor walks over.
    pub closed spec fn elements(self) -> Seq<BitmaskItem<B, T>> {
        self.items@
    }

    /// How many elements have been passed so far.
    pub closed spec fn position(self) -> int {
        self.pos as int
    }

    #[verifier::type_invariant]
    closed spec fn wf(self) -> bool {
        self.pos <= self.items@.len()
    }

    /// Creates a cursor positioned at the start of `items`.
    pub fn new(items: &'a Vec<BitmaskItem<B, T>>) -> (r: Self)
        ensures
            r.elements() == items@,
            r.position() == 0,
    {
        Self { items, pos: 0 }
    }

    /// Yields a reference to the next element, mask and payload, or `None`
    /// once every element has been yielded; after that, every call yields
    /// `None`.
    pub fn next(&mut self) -> (r: Option<&'a BitmaskItem<B, T>>)
        ensures
            final(self).elements() == old(self).elements(),
            old(self).position() < old(self).elements().len() ==> final(self).position() == old(
                self,
            ).position() + 1 && r is Some && *r.unwrap() == old(self).elements()[old(
                self,
            ).position()],
            old(self).position() >= old(self).elements().len() ==> r is None && final(self).position()
                == old(self).position(),
    {
        proof {
            use_type_invariant(&*self);
        }
        let items = self.items;
        if self.pos < items.len() {
            let i = self.pos;
            self.pos = i + 1;
            Some(&items[i])
        } else {
            None
        }
    }

    /// Advances the cursor past non-matching elements and yields a reference
    /// to the first element whose bitmask AND-contains `mask`, or `None`
    /// when no remaining element matches; the skipped elements are never
    /// revisited, and once `None` is yielded every later call yields `None`.
    pub fn filter_mask(&mut self, mask: &B) -> (r: Option<&'a BitmaskItem<B, T>>)
        ensures
            final(self).elements() == old(self).elements(),
            ({
                let k = next_match_at(old(self).elements(), old(self).position(), *mask);
                if k < old(self).elements().len() {
                    r is Some && *r.unwrap() == old(self).elements()[k] && final(self).position() == k
                        + 1
                } else {
                    r is None && final(self).position() == old(self).elements().len()
                }
            }),
    {
        proof {
            use_type_invariant(&*self);
        }
        let items = self.items;
        let ghost s = items@;
        let ghost start = self.pos as int;
        while self.pos < items.len()
            invariant
                self.items == items,
                items@ == s,
                s == old(self).elements(),
                start == old(self).position(),
                start <= self.pos as int <= s.len(),
                next_match_at(s, start, *mask) == next_match_at(s, self.pos as int, *mask),
            decreases s.len() - self.pos,
        {
            let i = self.pos;
            self.pos = i + 1;
            if items[i].matches_mask(mask) {
                proof {
                    assert(next_match_at(s, i as int, *mask) == i as int);
                }
                return Some(&items[i]);
            }
            proof {
                assert(next_match_at(s, i as int, *mask) == next_match_at(s, i + 1, *mask));
            }
        }
        None
    }
}

/// Cursor that yields mutable references to the payloads of a `BitmaskVec`,
/// in order, excluding the bitmasks. The vector is handed to each call, and
/// the cursor advances one position per yielded payload.
pub struct BitmaskVecIterMut {
    pos: usize,
}

impl BitmaskVecIterMut {
    /// How many elements have been yielded so far.
    pub closed spec fn position(self) -> int {
        self.pos as int
    }

    /// Creates a cursor positioned at the start.
    pub fn new() -> (r: Self)
        ensures
            r.position() == 0,
    {
        Self { pos: 0 }
    }

    /// Yields a mutable reference to the payload of the next element of
    /// `v`, or `None` once every element has been passed; after that, every
    /// call on the same vector yields `None`. The bitmask at the yielded
    /// position is unchanged, whatever is written through the reference.
    pub fn next<'a, B: MaskBits, T>(&mut self, v: &'a mut BitmaskVec<B, T>) -> (r: Option<
        &'a mut T,
    >)
        ensures
            old(self).position() < old(v)@.len() ==> final(self).position() == old(self).position() + 1
                && r is Some && *r.unwrap() == old(v)@[old(self).position()].item && final(v)@
                == old(v)@.update(
                old(self).position(),
                (BitmaskItem {
                    bitmask: old(v)@[old(self).position()].bitmask,
                    item: *final(r.unwrap()),
                }),
            ),
            old(self).position() >= old(v)@.len() ==> r is None && final(v)@ == old(v)@
                && final(self).position() == old(self).position(),
            final(v).min_cap() == old(v).min_cap(),
    {
        if self.pos < v.len() {
            let i = self.pos;
            self.pos = i + 1;
            Some(v.index_mut(i))
        } else {
            None
        }
    }
}

/// Cursor that yields mutable references to whole elements of a
/// `BitmaskVec`, mask and payload, in order, and can skip ahead to the next
/// element matching a mask. The vector is handed to each call, and the
/// cursor advances one position per yielded element.
pub struct BitmaskVecIterWithMaskMut {
    pos: usize,
}

impl BitmaskVecIterWithMaskMut {
    /// How many elements have been passed so far.
    pub closed spec fn position(self) -> int {
        self.pos as int
    }

    /// Creates a cursor positioned at the start.
    pub fn new() -> (r: Self)
        ensures
            r.position() == 0,
    {
        Self { pos: 0 }
    }

    /// Yields a mutable reference to the next element of `v`, mask and
    /// payload, or `None` once every element has been passed; after that,
    /// every call on the same vector yields `None`.
    pub fn next<'a, B: MaskBits, T>(&mut self, v: &'a mut BitmaskVec<B, T>) -> (r: Option<
        &'a mut BitmaskItem<B, T>,
    >)
        ensures
            old(self).position() < old(v)@.len() ==> final(self).position() == old(self).position() + 1
                && r is Some && *r.unwrap() == old(v)@[old(self).position()] && final(v)@ == old(
                v,
            )@.update(old(self).position(), *final(r.unwrap())),
            old(self).position() >= old(v)@.len() ==> r is None && final(v)@ == old(v)@
                && final(self).position() == old(self).position(),
            final(v).min_cap() == old(v).min_cap(),
    {
        if self.pos < v.len() {
            let i = self.pos;
            self.pos = i + 1;
            Some(&mut v.inner[i])
        } else {
            None
        }
    }

    /// Advances the cursor past non-matching elements of `v` and yields a
    /// mutable reference to the first element whose bitmask AND-contains
    /// `mask`, or `None` when no remaining element matches; the skipped
    /// elements are never revisited.
    pub fn filter_mask<'a, B: MaskBits, T>(
        &mut self,
        v: &'a mut BitmaskVec<B, T>,
        mask: &B,
    ) -> (r: Option<&'a mut BitmaskItem<B, T>>)
        ensures
            ({
                let k = next_match_at(old(v)@, old(self).position(), *mask);
                if old(self).position() <= old(v)@.len() && k < old(v)@.len() {
                    r is Some && *r.unwrap() == old(v)@[k] && final(self).position() == k + 1 && final(v)@ == old(v)@.update(k, *final(r.unwrap()))
                } else {
                    r is None && final(v)@ == old(v)@ && final(self).position() == vstd::math::max(
                        old(self).position(),
                        old(v)@.len() as int,
                    )
                }
            }),
            final(v).min_cap() == old(v).min_cap(),
    {
        let ghost s = v@;
        let ghost start = self.pos as int;
        if self.pos >= v.len() {
            return None;
        }
        while self.pos < v.len()
            invariant
                v@ == s,
                s == old(v)@,
                v.min_cap() == old(v).min_cap(),
                start == old(self).position(),
                start <= self.pos as int <= s.len(),
                next_match_at(s, start, *mask) == next_match_at(s, self.pos as int, *mask),
            decreases s.len() - self.pos,
        {
            let i = self.pos;
            self.pos = i + 1;
            if v.inner[i].matches_mask(mask) {
                proof {
                    assert(next_match_at(s, i as int, *mask) == i as int);
                }
                return Some(&mut v.inner[i]);
            }
            proof {
                assert(next_match_at(s, i as int, *mask) == next_match_at(s, i + 1, *mask));
            }
        }
        None
    }
}

impl<B, T> Default for BitmaskVec<B, T> where B: MaskBits {
    /// Creates an empty `BitmaskVec<B, T>`, as `BitmaskVec::new` does.
    fn default() -> (r: Self)
        ensures
            r@ == Seq::<BitmaskItem<B, T>>::empty(),
            r.min_cap() == 0,
    {
        Self::new()
    }
}

/// Appending an element grows the sequence by exactly one, places the new
/// element at the old length — where `index` then retrieves its payload —
/// and leaves every earlier element unmoved.
pub proof fn lemma_push_appends_at_end<B: MaskBits, T>(
    s: Seq<BitmaskItem<B, T>>,
    e: BitmaskItem<B, T>,
)
    ensures
        s.push(e).len() == s.len() + 1,
        s.push(e)[s.len() as int] == e,
        forall|i: int| 0 <= i < s.len() ==> s.push(e)[i] == s[i],
{
}

/// Round trip: pushing an element and immediately popping returns that very
/// element, mask and payload, and leaves the sequence as it was.
pub proof fn lemma_push_pop_round_trip<B: MaskBits, T>(
    s: Seq<BitmaskItem<B, T>>,
    e: BitmaskItem<B, T>,
)
    ensures
        s.push(e).last() == e,
        s.push(e).drop_last() == s,
{
    assert(s.push(e).drop_last() =~= s);
}

} // verus!
