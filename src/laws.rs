use vstd::prelude::*;

verus! {

/// The contents after pushing each of `values`, in order, onto `start`.
pub open spec fn push_all<T>(start: Seq<T>, values: Seq<T>) -> Seq<T>
    decreases values.len(),
{
    if values.len() == 0 {
        start
    } else {
        push_all(start.push(values[0]), values.drop_first())
    }
}

/// Pushing a run of values onto any contents appends them, in order.
pub proof fn lemma_push_all_appends<T>(start: Seq<T>, values: Seq<T>)
    ensures
        push_all(start, values) == start + values,
    decreases values.len(),
{
    if values.len() > 0 {
        lemma_push_all_appends(start.push(values[0]), values.drop_first());
        assert(start.push(values[0]) + values.drop_first() =~= start + values);
    } else {
        assert(start + values =~= start);
    }
}

/// After any run of pushes onto an empty buffer, the length is the number of
/// pushes and the contents are the pushed values in order.
pub proof fn law_pushes_from_empty<T>(values: Seq<T>)
    ensures
        push_all(Seq::<T>::empty(), values) == values,
        push_all(Seq::<T>::empty(), values).len() == values.len(),
{
    lemma_push_all_appends(Seq::<T>::empty(), values);
    assert(Seq::<T>::empty() + values =~= values);
}

/// A pop right after a push returns the pushed value and restores the
/// contents, and with them the length.
pub proof fn law_push_then_pop<T>(s: Seq<T>, x: T)
    ensures
        s.push(x).last() == x,
        s.push(x).drop_last() == s,
        s.push(x).drop_last().len() == s.len(),
{
    assert(s.push(x).drop_last() =~= s);
}

/// Deleting position `i` leaves one element fewer: those before `i` stay in
/// place and those after it move one place to the left, in the same order.
pub proof fn law_delete_shifts_left<T>(s: Seq<T>, i: int)
    requires
        0 <= i < s.len(),
    ensures
        s.remove(i).len() == s.len() - 1,
        forall|j: int| 0 <= j < i ==> #[trigger] s.remove(i)[j] == s[j],
        forall|j: int| i <= j < s.len() - 1 ==> #[trigger] s.remove(i)[j] == s[j + 1],
{
}

/// Replacing position `i` puts `v` there and changes no other position.
pub proof fn law_replace_changes_one<T>(s: Seq<T>, i: int, v: T)
    requires
        0 <= i < s.len(),
    ensures
        s.update(i, v).len() == s.len(),
        s.update(i, v)[i] == v,
        forall|j: int| 0 <= j < s.len() && j != i ==> #[trigger] s.update(i, v)[j] == s[j],
{
}

} // verus!
