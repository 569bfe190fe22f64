//! What holds of making, reading and releasing integer objects, on every
//! heap.

use vstd::prelude::*;
use crate::conversion::{fits_native, ToNative};
use crate::runtime::{
    after_dec_ref,
    Contents,
    ExtractionError,
    Object,
};
use crate::types::num::{integer_at, long_value, with_long};

verus! {

/// The heap after an integer object was made for each number of `vals`, in
/// their order.
pub open spec fn with_longs(heap: Seq<Object>, vals: Seq<i64>) -> Seq<Object>
    decreases vals.len(),
{
    if vals.len() == 0 {
        heap
    } else {
        with_long(with_longs(heap, vals.drop_last()), vals.last() as int)
    }
}

/// The heap after one reference was given back to the object at each
/// address of `addrs`, in their order.
pub open spec fn released(heap: Seq<Object>, addrs: Seq<int>) -> Seq<Object>
    decreases addrs.len(),
{
    if addrs.len() == 0 {
        heap
    } else {
        after_dec_ref(released(heap, addrs.drop_last()), addrs.last())
    }
}

/// A native number that is made into an integer object and read back is the
/// same number: the new object is a live integer, reading it raises no
/// error, and every object that was on the heap before is as it was.
pub proof fn round_trip(heap: Seq<Object>, v: i64)
    requires
        heap.len() < usize::MAX,
    ensures
        integer_at(with_long(heap, v as int), heap.len() as usize),
        long_value(with_long(heap, v as int), heap.len() as int) == Ok::<i64, ExtractionError>(v),
        with_long(heap, v as int).take(heap.len() as int) == heap,
{
    assert(with_long(heap, v as int).take(heap.len() as int) =~= heap);
}

/// A number of any integer type whose value fits the native width reads
/// back, from the object made of it, as that value.
pub proof fn widening_round_trip<T: ToNative>(heap: Seq<Object>, val: T)
    requires
        fits_native(val.as_int()),
    ensures
        long_value(with_long(heap, val.as_int()), heap.len() as int) == Ok::<i64, ExtractionError>(
            val.as_int() as i64,
        ),
        val.as_int() as i64 == val.as_int(),
{
}

/// Every 32-bit signed number reads back as itself, widened.
pub proof fn round_trip_i32(heap: Seq<Object>, v: i32)
    ensures
        fits_native(v.as_int()),
        long_value(with_long(heap, v.as_int()), heap.len() as int) == Ok::<i64, ExtractionError>(
            v as i64,
        ),
{
}

/// Every unsigned 64-bit number up to the largest native number reads back
/// as itself; a larger one has no native counterpart.
pub proof fn round_trip_u64(heap: Seq<Object>, v: u64)
    ensures
        fits_native(v.as_int()) <==> v <= i64::MAX,
        v <= i64::MAX ==> long_value(with_long(heap, v.as_int()), heap.len() as int) == Ok::<
            i64,
            ExtractionError,
        >(v as i64),
{
}

/// An integer object whose value lies outside the native width never reads
/// as a number: reading it is an error.
pub proof fn wide_integer_is_refused(heap: Seq<Object>, addr: int, m: i128)
    requires
        0 <= addr < heap.len(),
        heap[addr].contents == Contents::Long(m),
    ensures
        long_value(heap, addr).is_ok() <==> fits_native(m as int),
        fits_native(m as int) ==> long_value(heap, addr) == Ok::<i64, ExtractionError>(m as i64),
{
}

/// What making objects leaves behind: the heap grows by one object for each
/// number, the objects that were there are as they were, and each new object
/// is an integer with its number as value and one reference.
pub proof fn with_longs_shape(heap: Seq<Object>, vals: Seq<i64>)
    ensures
        with_longs(heap, vals).len() == heap.len() + vals.len(),
        forall|i: int| 0 <= i < heap.len() ==> with_longs(heap, vals)[i] == heap[i],
        forall|k: int|
            0 <= k < vals.len() ==> #[trigger] with_longs(heap, vals)[heap.len() + k] == (Object {
                contents: Contents::Long(vals[k] as i128),
                refs: 1,
            }),
    decreases vals.len(),
{
    if vals.len() > 0 {
        with_longs_shape(heap, vals.drop_last());
    }
}

/// What releasing leaves behind, where `addrs` names live objects and none
/// of them twice: each of these objects has one reference less, in whatever
/// order they were released, and nothing else has changed.
pub proof fn released_shape(heap: Seq<Object>, addrs: Seq<int>)
    requires
        addrs.no_duplicates(),
        forall|k: int| 0 <= k < addrs.len() ==> 0 <= #[trigger] addrs[k] < heap.len(),
        forall|k: int| 0 <= k < addrs.len() ==> heap[#[trigger] addrs[k]].refs > 0,
    ensures
        released(heap, addrs).len() == heap.len(),
        forall|i: int|
            0 <= i < heap.len() && !addrs.contains(i) ==> #[trigger] released(heap, addrs)[i]
                == heap[i],
        forall|i: int|
            0 <= i < heap.len() && addrs.contains(i) ==> #[trigger] released(heap, addrs)[i] == (
            Object { contents: heap[i].contents, refs: (heap[i].refs - 1) as usize }),
    decreases addrs.len(),
{
    if addrs.len() > 0 {
        let front = addrs.drop_last();
        let last = addrs.last();
        released_shape(heap, front);
        assert(!front.contains(last)) by {
            if front.contains(last) {
                let k = choose|k: int| 0 <= k < front.len() && front[k] == last;
                assert(addrs[k] == addrs[addrs.len() - 1]);
            }
        }
        assert forall|i: int| 0 <= i < heap.len() implies (addrs.contains(i) <==> front.contains(i)
            || i == last) by {
            if addrs.contains(i) {
                let k = choose|k: int| 0 <= k < addrs.len() && addrs[k] == i;
                if k < addrs.len() - 1 {
                    assert(front[k] == i);
                }
            }
            if front.contains(i) {
                let k = choose|k: int| 0 <= k < front.len() && front[k] == i;
                assert(addrs[k] == i);
            }
            if i == last {
                assert(addrs[addrs.len() - 1] == i);
            }
        }
        assert(addrs[addrs.len() - 1] == last);
    }
}

/// Reference counts balance: when an integer object is made for each number
/// of `vals` and every handle is then released, once and in any order, no
/// object that was on the heap before has changed, and every object that was
/// made is left with no reference, its value untouched. Until its release
/// each of them holds one reference.
pub proof fn references_balance(heap: Seq<Object>, vals: Seq<i64>, order: Seq<int>)
    requires
        order.no_duplicates(),
        forall|k: int|
            0 <= k < order.len() ==> heap.len() <= #[trigger] order[k] < heap.len() + vals.len(),
        forall|a: int| heap.len() <= a < heap.len() + vals.len() ==> order.contains(a),
    ensures
        released(with_longs(heap, vals), order).len() == heap.len() + vals.len(),
        forall|i: int|
            0 <= i < heap.len() ==> #[trigger] released(with_longs(heap, vals), order)[i]
                == heap[i],
        forall|k: int|
            0 <= k < vals.len() ==> with_longs(heap, vals)[heap.len() + k].refs == 1
                && #[trigger] released(with_longs(heap, vals), order)[heap.len() + k] == (Object {
                contents: Contents::Long(vals[k] as i128),
                refs: 0,
            }),
{
    let made = with_longs(heap, vals);
    with_longs_shape(heap, vals);
    assert forall|k: int| 0 <= k < order.len() implies made[#[trigger] order[k]].refs > 0 by {
        assert(made[heap.len() + (order[k] - heap.len())].refs == 1);
    }
    released_shape(made, order);
}

} // verus!
