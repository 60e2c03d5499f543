//! An amount of money in minor units (cents, grosz), as a signed integer.

use vstd::prelude::*;
use vstd::std_specs::ops::{AddSpec, SubSpec};

verus! {

/// A signed amount in minor units. The type enforces no sign.
#[derive(Clone, Copy, Debug, PartialEq, Eq, Structural)]
pub struct Money(i64);

impl View for Money {
    type V = int;

    closed spec fn view(&self) -> int {
        self.0 as int
    }
}

/// `n` is an amount that `Money` can hold.
pub open spec fn fits(n: int) -> bool {
    i64::MIN <= n <= i64::MAX
}

/// The sum of the amounts of `items`.
pub open spec fn total(items: Seq<Money>) -> int
    decreases items.len(),
{
    if items.len() == 0 {
        0
    } else {
        total(items.drop_last()) + items.last()@
    }
}

/// Adding `items` one by one from the left never leaves the range of `Money`.
pub open spec fn running_totals_fit(items: Seq<Money>) -> bool {
    forall|k: int| 0 <= k <= items.len() ==> fits(#[trigger] total(items.take(k)))
}

impl Money {
    pub fn new(value: i64) -> (m: Self)
        ensures
            m@ == value,
    {
        Money(value)
    }

    pub fn value(&self) -> (v: i64)
        ensures
            v == self@,
    {
        self.0
    }

    /// The sum, or `None` where it is not an amount that `Money` can hold.
    pub fn checked_add(self, rhs: Money) -> (r: Option<Money>)
        ensures
            fits(self@ + rhs@) ==> r is Some && r->0@ == self@ + rhs@,
            !fits(self@ + rhs@) ==> r is None,
    {
        match self.0.checked_add(rhs.0) {
            Some(v) => Some(Money(v)),
            None => None,
        }
    }

    /// The difference, or `None` where it is not an amount that `Money` can hold.
    pub fn checked_sub(self, rhs: Money) -> (r: Option<Money>)
        ensures
            fits(self@ - rhs@) ==> r is Some && r->0@ == self@ - rhs@,
            !fits(self@ - rhs@) ==> r is None,
    {
        match self.0.checked_sub(rhs.0) {
            Some(v) => Some(Money(v)),
            None => None,
        }
    }

    /// The sum of `items`, added from the left; zero for no items.
    pub fn sum(items: &Vec<Money>) -> (m: Money)
        requires
            running_totals_fit(items@),
        ensures
            m@ == total(items@),
    {
        let mut acc: i64 = 0;
        let mut i: usize = 0;
        assert(items@.take(0) =~= Seq::<Money>::empty());
        while i < items.len()
            invariant
                i <= items@.len(),
                running_totals_fit(items@),
                acc == total(items@.take(i as int)),
            decreases items@.len() - i,
        {
            proof {
                let next = items@.take(i + 1);
                assert(next.drop_last() =~= items@.take(i as int));
                assert(next.last() == items@[i as int]);
                assert(fits(total(next)));
            }
            acc = acc + items[i].0;
            i = i + 1;
        }
        assert(items@.take(i as int) =~= items@);
        Money(acc)
    }

    /// The sum of `items`, or `None` where adding them from the left leaves
    /// the range of `Money`.
    pub fn checked_sum(items: &Vec<Money>) -> (r: Option<Money>)
        ensures
            running_totals_fit(items@) ==> r is Some && r->0@ == total(items@),
            !running_totals_fit(items@) ==> r is None,
    {
        let mut acc: i64 = 0;
        let mut i: usize = 0;
        assert(items@.take(0) =~= Seq::<Money>::empty());
        while i < items.len()
            invariant
                i <= items@.len(),
                forall|k: int| 0 <= k <= i ==> fits(#[trigger] total(items@.take(k))),
                acc == total(items@.take(i as int)),
            decreases items@.len() - i,
        {
            proof {
                let next = items@.take(i + 1);
                assert(next.drop_last() =~= items@.take(i as int));
                assert(next.last() == items@[i as int]);
            }
            match acc.checked_add(items[i].0) {
                Some(v) => {
                    acc = v;
                },
                None => {
                    assert(!fits(total(items@.take(i + 1))));
                    return None;
                },
            }
            i = i + 1;
        }
        assert(items@.take(i as int) =~= items@);
        Some(Money(acc))
    }

    /// Summing nothing gives zero.
    pub proof fn lemma_total_of_nothing()
        ensures
            total(Seq::<Money>::empty()) == 0,
            running_totals_fit(Seq::<Money>::empty()),
    {
        assert forall|k: int| 0 <= k <= 0 implies fits(
            #[trigger] total(Seq::<Money>::empty().take(k)),
        ) by {
            assert(Seq::<Money>::empty().take(k) =~= Seq::<Money>::empty());
        }
    }

    /// Addition is commutative: where `a + b` is defined so is `b + a`, and
    /// they are the same amount.
    pub proof fn lemma_add_commutative(a: Money, b: Money)
        requires
            a.add_req(b),
        ensures
            b.add_req(a),
            a.add_spec(b) == b.add_spec(a),
            a.add_spec(b)@ == a@ + b@,
    {
    }

    /// Addition is associative wherever every sum involved is defined.
    pub proof fn lemma_add_associative(a: Money, b: Money, c: Money)
        requires
            a.add_req(b),
            b.add_req(c),
            a.add_spec(b).add_req(c),
            a.add_req(b.add_spec(c)),
        ensures
            a.add_spec(b).add_spec(c) == a.add_spec(b.add_spec(c)),
            a.add_spec(b).add_spec(c)@ == a@ + b@ + c@,
    {
    }

    /// Subtraction undoes addition, and addition undoes subtraction.
    pub proof fn lemma_sub_inverts_add(a: Money, b: Money)
        ensures
            a.add_req(b) ==> a.add_spec(b).sub_req(b) && a.add_spec(b).sub_spec(b) == a,
            a.sub_req(b) ==> a.sub_spec(b).add_req(b) && a.sub_spec(b).add_spec(b) == a,
            a.sub_req(b) ==> a.sub_spec(b)@ == a@ - b@,
    {
    }
}

impl core::ops::Add for Money {
    type Output = Money;

    /// Defined where the sum is an amount that `Money` can hold.
    fn add(self, rhs: Money) -> (r: Money)
        ensures
            r@ == self@ + rhs@,
    {
        Money(self.0 + rhs.0)
    }
}

impl vstd::std_specs::ops::AddSpecImpl for Money {
    open spec fn obeys_add_spec() -> bool {
        true
    }

    open spec fn add_req(self, rhs: Money) -> bool {
        fits(self@ + rhs@)
    }

    closed spec fn add_spec(self, rhs: Money) -> Money {
        Money((self.0 + rhs.0) as i64)
    }
}

impl core::ops::Sub for Money {
    type Output = Money;

    /// Defined where the difference is an amount that `Money` can hold.
    fn sub(self, rhs: Money) -> (r: Money)
        ensures
            r@ == self@ - rhs@,
    {
        Money(self.0 - rhs.0)
    }
}

impl vstd::std_specs::ops::SubSpecImpl for Money {
    open spec fn obeys_sub_spec() -> bool {
        true
    }

    open spec fn sub_req(self, rhs: Money) -> bool {
        fits(self@ - rhs@)
    }

    closed spec fn sub_spec(self, rhs: Money) -> Money {
        Money((self.0 - rhs.0) as i64)
    }
}

} // verus!
