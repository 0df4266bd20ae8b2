use vstd::prelude::*;
use vstd::arithmetic::div_mod::{
    lemma_add_mod_noop,
    lemma_fundamental_div_mod,
    lemma_fundamental_div_mod_converse,
    lemma_mod_bound,
    lemma_small_mod,
};
use crate::elem_ref::ElemRef;
use crate::imp_vec::ImpVec;
use crate::self_ref::SelfRefNext;
use crate::storage::PinnedStorage;

verus! {

impl<T: SelfRefNext, P: PinnedStorage<T>> ImpVec<T, P> {
    /// One step along the next links: from the element that `from` points
    /// at to the one that it names as its next. There is no step from a
    /// reference that the vector does not honour.
    pub open spec fn stepped(&self, from: Option<ElemRef>) -> Option<ElemRef> {
        match from {
            Some(r) => if self.holds(r) {
                self@[r.index as int].next_link()
            } else {
                None
            },
            None => None,
        }
    }

    /// Where `steps` steps along the next links lead from `start`.
    pub open spec fn walked(&self, start: ElemRef, steps: nat) -> Option<ElemRef>
        decreases steps,
    {
        if steps == 0 {
            Some(start)
        } else {
            self.stepped(self.walked(start, (steps - 1) as nat))
        }
    }

    /// The elements form one closed ring that runs through the positions
    /// `order[0]`, `order[1]`, ... and from the last of them back to the
    /// first: `order` lists every position once, and each element names the
    /// one after it in `order` as its next.
    pub open spec fn is_ring_along(&self, order: Seq<int>) -> bool {
        &&& self@.len() > 0
        &&& self@.len() <= usize::MAX
        &&& order.len() == self@.len()
        &&& forall|k: int| 0 <= k < order.len() ==> 0 <= #[trigger] order[k] < self@.len()
        &&& forall|a: int, b: int|
            0 <= a < order.len() && 0 <= b < order.len() && #[trigger] order[a] == #[trigger] order[b]
                ==> a == b
        &&& forall|k: int| 0 <= k < order.len() ==> #[trigger] self.names_its_next(order, k)
    }

    /// The element that is `k`-th in `order` names the one after it, or, if
    /// it is the last, the first, as its next.
    pub open spec fn names_its_next(&self, order: Seq<int>, k: int) -> bool {
        self@[order[k]].next_link() == Some(
            self.ref_to(order[(k + 1) % (order.len() as int)] as usize),
        )
    }

    /// The elements form one closed ring in the order in which they are
    /// stored: each names the one behind it as its next, and the last names
    /// the first.
    pub open spec fn is_ring(&self) -> bool {
        self.is_ring_along(Seq::new(self@.len(), |i: int| i))
    }

    /// Follows the next links for `steps` steps from `start` and returns
    /// the reference that it ends at, or `None` if it comes upon an element
    /// without a next or a reference that the vector does not honour.
    pub fn walk(&self, start: ElemRef, steps: usize) -> (end: Option<ElemRef>)
        ensures
            end == self.walked(start, steps as nat),
    {
        let mut at: Option<ElemRef> = Some(start);
        let mut taken: usize = 0;
        while taken < steps
            invariant
                taken <= steps,
                at == self.walked(start, taken as nat),
            decreases steps - taken,
        {
            at = match at {
                Some(r) => match self.get_ref(r) {
                    Some(node) => node.next(),
                    None => None,
                },
                None => None,
            };
            taken = taken + 1;
        }
        at
    }
}

/// In a ring of `n` elements, `steps` steps from the element that is
/// `start`-th in the ring end at the element that is `(start + steps) % n`-th.
pub proof fn law_ring_walk<T: SelfRefNext, P: PinnedStorage<T>>(
    vec: &ImpVec<T, P>,
    order: Seq<int>,
    start: int,
    steps: nat,
)
    requires
        vec.is_ring_along(order),
        0 <= start < order.len(),
    ensures
        0 <= (start + steps) % (order.len() as int) < order.len(),
        vec.walked(vec.ref_to(order[start] as usize), steps) == Some(
            vec.ref_to(order[(start + steps) % (order.len() as int)] as usize),
        ),
    decreases steps,
{
    let n = order.len() as int;
    lemma_mod_bound(start + steps, n);
    if steps == 0 {
        lemma_small_mod(start as nat, n as nat);
    } else {
        law_ring_walk(vec, order, start, (steps - 1) as nat);
        let at = (start + steps - 1) % n;
        lemma_mod_bound(start + steps - 1, n);
        assert(vec.holds(vec.ref_to(order[at] as usize)));
        assert(vec.names_its_next(order, at));
        lemma_add_mod_noop(start + steps - 1, 1, n);
        if n == 1 {
            lemma_mod_bound(at + 1, n);
        } else {
            lemma_small_mod(1, n as nat);
        }
        assert((at + 1) % n == (start + steps) % n);
    }
}

/// Walking a ring of `n` elements for `2 * n` steps from any of them ends
/// where it began, and comes by each element at exactly two of the steps
/// `0 .. 2 * n`: once in the first round and once, `n` steps later, in the
/// second. The walk begins at the element that is `start`-th in the ring;
/// the element that is looked for is the `sought`-th.
pub proof fn law_ring_twice_around<T: SelfRefNext, P: PinnedStorage<T>>(
    vec: &ImpVec<T, P>,
    order: Seq<int>,
    start: int,
    sought: int,
)
    requires
        vec.is_ring_along(order),
        0 <= start < order.len(),
        0 <= sought < order.len(),
    ensures
        vec.walked(vec.ref_to(order[start] as usize), (2 * order.len()) as nat) == Some(
            vec.ref_to(order[start] as usize),
        ),
        0 <= (sought - start) % (order.len() as int) < order.len(),
        forall|k: int|
            0 <= k < 2 * order.len() ==> (#[trigger] vec.walked(
                vec.ref_to(order[start] as usize),
                k as nat,
            ) == Some(vec.ref_to(order[sought] as usize)) <==> k == (sought - start) % (
            order.len() as int) || k == (sought - start) % (order.len() as int) + order.len()),
{
    let n = order.len() as int;
    let from = vec.ref_to(order[start] as usize);
    law_ring_walk(vec, order, start, (2 * n) as nat);
    lemma_fundamental_div_mod_converse(start + 2 * n, n, 2, start);
    let first = (sought - start) % n;
    lemma_mod_bound(sought - start, n);
    assert forall|k: int| 0 <= k < 2 * n implies (#[trigger] vec.walked(from, k as nat) == Some(
        vec.ref_to(order[sought] as usize),
    ) <==> k == first || k == first + n) by {
        law_ring_walk(vec, order, start, k as nat);
        let at = (start + k) % n;
        assert(vec.walked(from, k as nat) == Some(vec.ref_to(order[at] as usize)));
        assert(vec.ref_to(order[at] as usize) == vec.ref_to(order[sought] as usize) <==> order[at]
            == order[sought]);
        assert(order[at] == order[sought] <==> at == sought);
        lemma_ring_position(n, start, sought, k);
    }
}

/// Among the steps `0 .. 2 * n`, those that lead from `start` to `j` are
/// `(j - start) % n` and the one `n` steps later.
proof fn lemma_ring_position(n: int, start: int, j: int, k: int)
    requires
        n > 0,
        0 <= start < n,
        0 <= j < n,
        0 <= k < 2 * n,
    ensures
        (start + k) % n == j <==> k == (j - start) % n || k == (j - start) % n + n,
{
    let first = (j - start) % n;
    lemma_mod_bound(j - start, n);
    lemma_fundamental_div_mod(j - start, n);
    lemma_fundamental_div_mod(start + k, n);
    let q = (j - start) / n;
    // j - start lies in (-n, n), so the quotient is -1 or 0
    assert(q == -1 || q == 0) by (nonlinear_arith)
        requires
            n > 0,
            -n < j - start < n,
            j - start == n * q + first,
            0 <= first < n,
    ;
    let p = (start + k) / n;
    let rem = (start + k) % n;
    lemma_mod_bound(start + k, n);
    assert(0 <= p <= 2) by (nonlinear_arith)
        requires
            n > 0,
            0 <= start + k < 3 * n,
            start + k == n * p + rem,
            0 <= rem < n,
    ;
    assert(n * p == if p == 0 {
        0
    } else if p == 1 {
        n
    } else {
        2 * n
    }) by (nonlinear_arith)
        requires
            0 <= p <= 2,
    ;
    assert(n * q == if q == 0 {
        0
    } else {
        -n
    }) by (nonlinear_arith)
        requires
            q == -1 || q == 0,
    ;
}

} // verus!
