//! Orders that verified code can compute.

use std::cmp::Ordering;
use vstd::prelude::*;

verus! {

/// How one value stands to another in a total order.
#[derive(PartialEq, Eq, Structural, Debug, Clone, Copy)]
pub enum Order {
    Less,
    Equal,
    Greater,
}

impl Order {
    /// The same answer in the standard library's type.
    pub open spec fn ordering(self) -> Ordering {
        match self {
            Order::Less => Ordering::Less,
            Order::Equal => Ordering::Equal,
            Order::Greater => Ordering::Greater,
        }
    }

    /// Converts to the standard library's type.
    pub fn to_ordering(self) -> (r: Ordering)
        ensures
            r == self.ordering(),
    {
        match self {
            Order::Less => Ordering::Less,
            Order::Equal => Ordering::Equal,
            Order::Greater => Ordering::Greater,
        }
    }

    /// This answer, or `next` where this one is `Equal`: the step by which
    /// the fields of a record are compared one after another.
    pub open spec fn then_order(self, next: Order) -> Order {
        match self {
            Order::Equal => next,
            _ => self,
        }
    }

    /// The answer for the same two values turned round.
    pub open spec fn reverse(self) -> Order {
        match self {
            Order::Less => Order::Greater,
            Order::Equal => Order::Equal,
            Order::Greater => Order::Less,
        }
    }
}

/// What holds in a total order of three values, given how the first stands
/// to the second (`first`), the second to the third (`second`) and the first
/// to the third (`outer`): a value that stands `Equal` to another stands to
/// any third as the other does, and two steps the same way make a step that
/// way.
pub open spec fn chained(first: Order, second: Order, outer: Order) -> bool {
    &&& first == Order::Equal ==> outer == second
    &&& second == Order::Equal ==> outer == first
    &&& first == second ==> outer == first
}

/// A type with a total order that verified code can compute, and that tells
/// values apart exactly as their views do.
pub trait Compare: View + Sized {
    /// How `self` stands to `other`.
    spec fn order(&self, other: &Self) -> Order;

    /// Computes how `self` stands to `other`.
    fn compare(&self, other: &Self) -> (r: Order)
        ensures
            r == self.order(other),
    ;

    /// Two values stand `Equal` exactly when their views are the same.
    proof fn lemma_equal(&self, other: &Self)
        ensures
            self.order(other) == Order::Equal <==> self@ == other@,
    ;

    /// Turned round, two values stand the other way round.
    proof fn lemma_reverse(&self, other: &Self)
        ensures
            other.order(self) == self.order(other).reverse(),
    ;

    /// The order is transitive.
    proof fn lemma_chained(&self, middle: &Self, last: &Self)
        ensures
            chained(self.order(middle), middle.order(last), self.order(last)),
    ;
}

/// The order of two integers.
pub open spec fn int_order(a: int, b: int) -> Order {
    if a < b {
        Order::Less
    } else if a > b {
        Order::Greater
    } else {
        Order::Equal
    }
}

impl Compare for u8 {
    open spec fn order(&self, other: &Self) -> Order {
        int_order(*self as int, *other as int)
    }

    fn compare(&self, other: &Self) -> (r: Order) {
        if *self < *other {
            Order::Less
        } else if *self > *other {
            Order::Greater
        } else {
            Order::Equal
        }
    }

    proof fn lemma_equal(&self, other: &Self) {
    }

    proof fn lemma_reverse(&self, other: &Self) {
    }

    proof fn lemma_chained(&self, middle: &Self, last: &Self) {
    }
}

/// The lexicographic order of two sequences: the first place at which they
/// differ decides; where one ends before they differ, the shorter comes first.
pub open spec fn lex_order<T: Compare>(a: Seq<T>, b: Seq<T>) -> Order
    decreases a.len(),
{
    if a.len() == 0 || b.len() == 0 {
        int_order(a.len() as int, b.len() as int)
    } else {
        a[0].order(&b[0]).then_order(lex_order(a.skip(1), b.skip(1)))
    }
}

/// The views of the items of a sequence, each in its place.
pub open spec fn views<T: View>(items: Seq<T>) -> Seq<T::V> {
    items.map_values(|item: T| item@)
}

/// Two sequences stand `Equal` in the lexicographic order exactly when the
/// views of their items are the same, place by place.
pub proof fn lemma_lex_equal<T: Compare>(a: Seq<T>, b: Seq<T>)
    ensures
        lex_order(a, b) == Order::Equal <==> views(a) == views(b),
    decreases a.len(),
{
    if a.len() == 0 || b.len() == 0 {
        if views(a) == views(b) {
            assert(views(a).len() == views(b).len());
        }
        if a.len() == b.len() {
            assert(views(a) =~= views(b));
        }
    } else {
        a[0].lemma_equal(&b[0]);
        lemma_lex_equal(a.skip(1), b.skip(1));
        if views(a) == views(b) {
            assert(views(a).len() == views(b).len());
            assert(views(a)[0] == views(b)[0]);
            assert forall|i: int| 0 <= i < a.len() - 1 implies views(a.skip(1))[i] == views(
                b.skip(1),
            )[i] by {
                assert(views(a)[i + 1] == views(b)[i + 1]);
            }
            assert(views(a.skip(1)) =~= views(b.skip(1)));
        }
        if lex_order(a, b) == Order::Equal {
            assert(views(a.skip(1)).len() == views(b.skip(1)).len());
            assert forall|i: int| 0 <= i < a.len() implies views(a)[i] == views(b)[i] by {
                if i > 0 {
                    assert(views(a.skip(1))[i - 1] == views(b.skip(1))[i - 1]);
                }
            }
            assert(views(a) =~= views(b));
        }
    }
}

/// Two byte strings stand `Equal` in the lexicographic order exactly when
/// they are the same string.
pub proof fn lemma_lex_equal_bytes(a: Seq<u8>, b: Seq<u8>)
    ensures
        lex_order(a, b) == Order::Equal <==> a == b,
{
    lemma_lex_equal(a, b);
    assert(views(a) =~= a);
    assert(views(b) =~= b);
}

/// Turned round, two sequences stand the other way round in the
/// lexicographic order.
pub proof fn lemma_lex_reverse<T: Compare>(a: Seq<T>, b: Seq<T>)
    ensures
        lex_order(b, a) == lex_order(a, b).reverse(),
    decreases a.len(),
{
    if a.len() == 0 || b.len() == 0 {
    } else {
        a[0].lemma_reverse(&b[0]);
        lemma_lex_reverse(a.skip(1), b.skip(1));
    }
}

/// The lexicographic order is transitive.
pub proof fn lemma_lex_chained<T: Compare>(a: Seq<T>, b: Seq<T>, c: Seq<T>)
    ensures
        chained(lex_order(a, b), lex_order(b, c), lex_order(a, c)),
    decreases a.len(),
{
    if a.len() == 0 || b.len() == 0 || c.len() == 0 {
    } else {
        a[0].lemma_chained(&b[0], &c[0]);
        lemma_lex_chained(a.skip(1), b.skip(1), c.skip(1));
    }
}

/// Computes the lexicographic order of two slices.
pub fn compare_slices<T: Compare>(a: &[T], b: &[T]) -> (r: Order)
    ensures
        r == lex_order(a@, b@),
{
    let mut i: usize = 0;
    proof {
        assert(a@.skip(0) =~= a@);
        assert(b@.skip(0) =~= b@);
    }
    while i < a.len() && i < b.len()
        invariant
            i <= a@.len(),
            i <= b@.len(),
            lex_order(a@, b@) == lex_order(a@.skip(i as int), b@.skip(i as int)),
        decreases a@.len() - i,
    {
        let o = a[i].compare(&b[i]);
        proof {
            assert(a@.skip(i as int).skip(1) =~= a@.skip(i + 1));
            assert(b@.skip(i as int).skip(1) =~= b@.skip(i + 1));
        }
        match o {
            Order::Equal => {},
            _ => {
                return o;
            },
        }
        i += 1;
    }
    if a.len() < b.len() {
        Order::Less
    } else if a.len() > b.len() {
        Order::Greater
    } else {
        Order::Equal
    }
}

} // verus!
