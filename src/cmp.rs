use vstd::prelude::*;

use vstd::std_specs::cmp::PartialEqSpec;
use vstd::std_specs::cmp::PartialOrdSpec;

use std::cmp::Ordering;

use crate::buffer::Vector;

verus! {

/// Two sequences are equal when their lengths match and their elements are
/// equal pair by pair.
pub open spec fn seq_eq<T: PartialEqSpec>(a: Seq<T>, b: Seq<T>) -> bool {
    &&& a.len() == b.len()
    &&& forall|i: int| 0 <= i < a.len() ==> #[trigger] a[i].eq_spec(&b[i])
}

/// Compares two slices element by element.
pub fn slices_eq<T: PartialEq>(a: &[T], b: &[T]) -> (r: bool)
    ensures
        T::obeys_eq_spec() ==> r == seq_eq(a@, b@),
{
    if a.len() != b.len() {
        return false;
    }
    let mut i: usize = 0;
    while i < a.len()
        invariant
            a@.len() == b@.len(),
            i <= a@.len(),
            T::obeys_eq_spec() ==> forall|j: int| 0 <= j < i ==> #[trigger] a@[j].eq_spec(&b@[j]),
        decreases a@.len() - i,
    {
        if !a[i].eq(&b[i]) {
            return false;
        }
        i = i + 1;
    }
    true
}

/// The order of two lengths.
pub open spec fn len_cmp(m: nat, n: nat) -> Ordering {
    if m < n {
        Ordering::Less
    } else if m == n {
        Ordering::Equal
    } else {
        Ordering::Greater
    }
}

/// Lexicographic order: the first pair of elements that is not equal decides;
/// where one sequence is a prefix of the other, the shorter comes first.
pub open spec fn lex_cmp<T: PartialOrdSpec>(a: Seq<T>, b: Seq<T>) -> Option<Ordering>
    decreases a.len(),
{
    if a.len() == 0 || b.len() == 0 {
        Some(len_cmp(a.len(), b.len()))
    } else {
        match a[0].partial_cmp_spec(&b[0]) {
            Some(Ordering::Equal) => lex_cmp(a.drop_first(), b.drop_first()),
            o => o,
        }
    }
}

/// Compares two slices lexicographically.
pub fn slices_cmp<T: PartialOrd>(a: &[T], b: &[T]) -> (r: Option<Ordering>)
    ensures
        T::obeys_partial_cmp_spec() ==> r == lex_cmp(a@, b@),
{
    let mut i: usize = 0;
    proof {
        assert(a@.skip(0) =~= a@);
        assert(b@.skip(0) =~= b@);
    }
    while i < a.len() && i < b.len()
        invariant
            i <= a@.len(),
            i <= b@.len(),
            T::obeys_partial_cmp_spec() ==> lex_cmp(a@, b@) == lex_cmp(a@.skip(i as int), b@.skip(i as int)),
        decreases a@.len() - i,
    {
        let o = a[i].partial_cmp(&b[i]);
        match o {
            Some(Ordering::Equal) => {},
            _ => {
                return o;
            },
        }
        proof {
            assert(a@.skip(i as int).drop_first() =~= a@.skip(i + 1));
            assert(b@.skip(i as int).drop_first() =~= b@.skip(i + 1));
        }
        i = i + 1;
    }
    if a.len() < b.len() {
        Some(Ordering::Less)
    } else if a.len() == b.len() {
        Some(Ordering::Equal)
    } else {
        Some(Ordering::Greater)
    }
}

impl<T: PartialEq> PartialEq for Vector<T> {
    fn eq(&self, other: &Vector<T>) -> (r: bool) {
        slices_eq(self.as_slice(), other.as_slice())
    }
}

impl<T: PartialEq> vstd::std_specs::cmp::PartialEqSpecImpl for Vector<T> {
    open spec fn obeys_eq_spec() -> bool {
        T::obeys_eq_spec()
    }

    open spec fn eq_spec(&self, other: &Vector<T>) -> bool {
        seq_eq(self@, other@)
    }
}

impl<T: PartialEq> PartialEq<Vec<T>> for Vector<T> {
    fn eq(&self, other: &Vec<T>) -> (r: bool) {
        slices_eq(self.as_slice(), other.as_slice())
    }
}

impl<T: PartialEq> vstd::std_specs::cmp::PartialEqSpecImpl<Vec<T>> for Vector<T> {
    open spec fn obeys_eq_spec() -> bool {
        T::obeys_eq_spec()
    }

    open spec fn eq_spec(&self, other: &Vec<T>) -> bool {
        seq_eq(self@, other@)
    }
}

impl<T: PartialEq> PartialEq<[T]> for Vector<T> {
    fn eq(&self, other: &[T]) -> (r: bool) {
        slices_eq(self.as_slice(), other)
    }
}

impl<T: PartialEq> vstd::std_specs::cmp::PartialEqSpecImpl<[T]> for Vector<T> {
    open spec fn obeys_eq_spec() -> bool {
        T::obeys_eq_spec()
    }

    open spec fn eq_spec(&self, other: &[T]) -> bool {
        seq_eq(self@, other@)
    }
}

impl<T: PartialOrd> PartialOrd for Vector<T> {
    fn partial_cmp(&self, other: &Vector<T>) -> (r: Option<Ordering>) {
        slices_cmp(self.as_slice(), other.as_slice())
    }
}

impl<T: PartialOrd> vstd::std_specs::cmp::PartialOrdSpecImpl for Vector<T> {
    open spec fn obeys_partial_cmp_spec() -> bool {
        T::obeys_partial_cmp_spec()
    }

    open spec fn partial_cmp_spec(&self, other: &Vector<T>) -> Option<Ordering> {
        lex_cmp(self@, other@)
    }
}

impl<T: PartialOrd> PartialOrd<Vec<T>> for Vector<T> {
    fn partial_cmp(&self, other: &Vec<T>) -> (r: Option<Ordering>) {
        slices_cmp(self.as_slice(), other.as_slice())
    }
}

impl<T: PartialOrd> vstd::std_specs::cmp::PartialOrdSpecImpl<Vec<T>> for Vector<T> {
    open spec fn obeys_partial_cmp_spec() -> bool {
        T::obeys_partial_cmp_spec()
    }

    open spec fn partial_cmp_spec(&self, other: &Vec<T>) -> Option<Ordering> {
        lex_cmp(self@, other@)
    }
}

impl<T: PartialOrd> PartialOrd<[T]> for Vector<T> {
    fn partial_cmp(&self, other: &[T]) -> (r: Option<Ordering>) {
        slices_cmp(self.as_slice(), other)
    }
}

impl<T: PartialOrd> vstd::std_specs::cmp::PartialOrdSpecImpl<[T]> for Vector<T> {
    open spec fn obeys_partial_cmp_spec() -> bool {
        T::obeys_partial_cmp_spec()
    }

    open spec fn partial_cmp_spec(&self, other: &[T]) -> Option<Ordering> {
        lex_cmp(self@, other@)
    }
}

} // verus!
