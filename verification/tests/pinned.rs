use imp_vec::{ElemRef, ImpVec, LinkError, PinnedStorage, SelfRefNext, SelfRefPrev};
use orx_fixed_vec::FixedVec;
use orx_pinned_vec::PinnedVec;
use orx_split_vec::{Doubling, Linear, Recursive, SplitVec};
use std::ops::Deref;

/// Any pinned vector of `orx_pinned_vec` as a storage for an `ImpVec`.
#[derive(Clone, Debug)]
struct Pinned<P>(P);

impl<T, P: PinnedVec<T>> PinnedStorage<T> for Pinned<P> {
    fn count(&self) -> usize {
        self.0.len()
    }

    fn at(&self, _index: usize) -> T {
        panic!("for specifications only")
    }

    fn limit(&self) -> usize {
        self.0.capacity_bound()
    }

    fn len(&self) -> usize {
        self.0.len()
    }

    fn get(&self, index: usize) -> Option<&T> {
        self.0.get(index)
    }

    fn get_mut(&mut self, index: usize) -> Option<&mut T> {
        self.0.get_mut(index)
    }

    fn push(&mut self, value: T) {
        self.0.push(value)
    }

    fn extend_from_slice(&mut self, other: &[T])
    where
        T: Clone,
    {
        self.0.extend_from_slice(other)
    }

    fn insert(&mut self, index: usize, value: T) {
        self.0.insert(index, value)
    }

    fn remove(&mut self, index: usize) -> T {
        self.0.remove(index)
    }

    fn pop(&mut self) -> Option<T> {
        self.0.pop()
    }

    fn clear(&mut self) {
        self.0.clear()
    }

    fn swap(&mut self, a: usize, b: usize) {
        self.0.swap(a, b)
    }

    fn into_vec(self) -> Vec<T> {
        self.0.into_iter().collect()
    }
}

fn address_of<T>(item: &T) -> String {
    format!("{:p}", item)
}

fn values<T: Clone, P: PinnedStorage<T>>(vec: &ImpVec<T, P>) -> Vec<T> {
    let mut out = Vec::new();
    let mut walk = vec.iter();
    while let Some(x) = walk.next() {
        out.push(x.clone());
    }
    out
}

#[test]
fn push() {
    fn test<P: PinnedVec<usize>>(pinned_vec: P) {
        let mut imp = ImpVec::from(Pinned(pinned_vec));
        let mut initial_refs = vec![];
        for i in 0..1000 {
            imp.push(i * 10);
            initial_refs.push(address_of(&imp[i]));
        }

        let expected_vals: Vec<_> = (0..1000).map(|i| i * 10).collect();
        assert_eq!(expected_vals, values(&imp));

        let mut final_refs = vec![];
        for i in 0..1000 {
            final_refs.push(address_of(&imp[i]));
        }
        assert_eq!(initial_refs, final_refs);
    }

    test(SplitVec::with_linear_growth(2));
    test(SplitVec::with_doubling_growth());
    test(SplitVec::with_recursive_growth());
    test(FixedVec::new(1000));
}

#[test]
fn push_push_get_ref() {
    fn test<P: PinnedVec<usize>>(pinned_vec: P) {
        let mut imp = ImpVec::from(Pinned(pinned_vec));
        let mut initial_refs = vec![];

        let first_ref = imp.push_get_ref(0);
        initial_refs.push(address_of(imp.get_ref(first_ref).expect("-")));

        for i in 1..1000 {
            let r = imp.push_get_ref(i * 10);
            initial_refs.push(address_of(imp.get_ref(r).expect("-")));
        }

        let expected_vals: Vec<_> = (0..1000).map(|i| i * 10).collect();
        assert_eq!(expected_vals, values(&imp));

        let mut final_refs = vec![];
        for i in 0..1000 {
            final_refs.push(address_of(&imp[i]));
        }
        assert_eq!(initial_refs, final_refs);

        assert_eq!(Some(&0), imp.get_ref(first_ref));
    }

    test(SplitVec::with_linear_growth(2));
    test(SplitVec::with_doubling_growth());
    test(SplitVec::with_recursive_growth());
    test(FixedVec::new(1000));
}

#[test]
fn mem_push_get_ref() {
    fn test<P: PinnedVec<u32>>(pinned_vec: P) {
        let mut imp = ImpVec::from(Pinned(pinned_vec));

        let first = imp.push_get_ref(0);
        imp.push(1);
        imp.push(2);
        imp.push(3);

        assert_eq!(0, imp[0]);
        assert_eq!(Some(&0), imp.get_ref(first));

        // push 800 more
        for i in 0..800 {
            imp.push(i)
        }

        assert_eq!(0, imp[0]);
        assert_eq!(Some(&0), imp.get_ref(first));
    }

    test(SplitVec::with_linear_growth(2));
    test(SplitVec::with_doubling_growth());
    test(SplitVec::with_recursive_growth());
    test(FixedVec::new(1000));
}

// cons-list
#[derive(Debug, PartialEq)]
enum List {
    Cons(usize, ElemRef),
    Nil,
}

impl List {
    fn cons(&self) -> Option<ElemRef> {
        match self {
            List::Nil => None,
            List::Cons(_, x) => Some(*x),
        }
    }
}

fn lists_maker<P: PinnedVec<List>>(pinned_vec: P) -> ImpVec<List, Pinned<P>> {
    let mut lists = ImpVec::from(Pinned(pinned_vec));
    let r0 = lists.push_get_ref(List::Nil);
    let r1 = lists.push_get_ref(List::Cons(1, r0));
    let r2 = lists.push_get_ref(List::Cons(2, r1));
    lists.push(List::Cons(3, r2));
    lists
}

#[test]
fn make_cons_list() {
    fn test<P: PinnedVec<List>>(pinned_vec: P) {
        // data
        let lists = lists_maker(pinned_vec);
        assert!(matches!(lists[0], List::Nil));
        assert!(matches!(lists[1], List::Cons(1, _)));
        assert!(matches!(lists[2], List::Cons(2, _)));
        assert!(matches!(lists[3], List::Cons(3, _)));

        // references
        assert_eq!(lists[0].cons(), None);
        assert_eq!(lists[1].cons().and_then(|r| lists.get_ref(r)), Some(&lists[0]));
        assert_eq!(lists[2].cons().and_then(|r| lists.get_ref(r)), Some(&lists[1]));
        assert_eq!(lists[3].cons().and_then(|r| lists.get_ref(r)), Some(&lists[2]));

        // the references lead to the very elements
        for i in 1..4 {
            let target = lists[i].cons().and_then(|r| lists.get_ref(r)).expect("-");
            assert_eq!(address_of(target), address_of(&lists[i - 1]));
            assert_eq!(lists[i].cons().and_then(|r| lists.index_of(r)), Some(i - 1));
        }
    }

    test(SplitVec::with_linear_growth(2));
    test(SplitVec::with_doubling_growth());
    test(SplitVec::with_recursive_growth());
    test(FixedVec::new(1000));
}

#[test]
fn make_cons_list_as_pinned() {
    fn test<P: PinnedVec<List>>(pinned_vec: P) {
        // data
        let lists = lists_maker(pinned_vec).into_inner().0;
        assert!(matches!(lists[0], List::Nil));
        assert!(matches!(lists[1], List::Cons(1, _)));
        assert!(matches!(lists[2], List::Cons(2, _)));
        assert!(matches!(lists[3], List::Cons(3, _)));

        // references
        assert_eq!(lists[0].cons(), None);
        assert_eq!(lists[1].cons().map(|r| r.index), Some(0));
        assert_eq!(lists[2].cons().map(|r| r.index), Some(1));
        assert_eq!(lists[3].cons().map(|r| r.index), Some(2));
    }

    test(SplitVec::with_linear_growth(2));
    test(SplitVec::with_doubling_growth());
    test(SplitVec::with_recursive_growth());
}

#[test]
fn make_cons_list_as_pinned_long() {
    fn test<P: PinnedVec<List>>(pinned_vec: P) {
        let mut lists = ImpVec::from(Pinned(pinned_vec));
        let mut last = lists.push_get_ref(List::Nil);
        for i in 1..10000 {
            last = lists.push_get_ref(List::Cons(i, last));
        }
        assert_eq!(10000, lists.len());

        // data
        assert!(matches!(lists[0], List::Nil));
        for i in 1..10000 {
            assert!(matches!(lists[i], List::Cons(_, _)));
        }

        // references
        assert_eq!(lists[0].cons(), None);
        for i in 1..10000 {
            assert_eq!(lists[i].cons().and_then(|r| lists.get_ref(r)), Some(&lists[i - 1]));
        }

        // the references lead to the very elements
        for i in 1..10000 {
            let target = lists[i].cons().and_then(|r| lists.get_ref(r)).expect("-");
            assert_eq!(address_of(target), address_of(&lists[i - 1]));
        }

        let lists = lists.into_inner().0;
        assert_eq!(10000, lists.len());
        for i in 1..10000 {
            assert_eq!(lists[i].cons().map(|r| r.index), Some(i - 1));
        }
    }

    test(SplitVec::with_linear_growth(2));
    test(SplitVec::with_doubling_growth());
    test(SplitVec::with_recursive_growth());
}

struct N {
    data: usize,
    next: Option<ElemRef>,
}

#[test]
fn get_mut_get_mut() {
    fn test<P: PinnedVec<N>>(pinned_vec: P) {
        let mut imp = ImpVec::from(Pinned(pinned_vec));

        let new_node = |data| N { data, next: None };

        let mut refs = vec![];
        for i in 0..1000 {
            let rf = imp.push_get_ref(new_node(i));
            refs.push(Some(rf));
        }

        imp.get_mut(999).expect("-").next = refs[0];
        for i in 0..999 {
            imp.get_mut(i).expect("-").next = refs[i + 1];
        }

        for i in 0..999 {
            assert_eq!(i, imp[i].data);
            assert_eq!(
                Some(i + 1),
                imp[i].next.and_then(|x| imp.get_ref(x)).map(|x| x.data)
            )
        }
        assert_eq!(999, imp[999].data);
        assert_eq!(
            Some(0),
            imp[999].next.and_then(|x| imp.get_ref(x)).map(|x| x.data)
        )
    }

    test(SplitVec::with_linear_growth(2));
    test(SplitVec::with_doubling_growth());
    test(SplitVec::with_recursive_growth());
    test(FixedVec::new(1000));
}

#[test]
fn mem_get_mut() {
    fn test<P: PinnedVec<N>>(pinned_vec: P) {
        let mut imp = ImpVec::from(Pinned(pinned_vec));

        let mut refs = vec![];
        for i in 0..1000 {
            let rf = imp.push_get_ref(N { data: i, next: None });
            refs.push(Some(rf));
        }

        imp.get_mut(999).expect("-").next = refs[0];
        for i in 0..999 {
            imp.get_mut(i).expect("-").next = refs[i + 1];
        }
        assert!(imp.get_mut(1000).is_none());

        for i in 0..1000 {
            assert_eq!(i, imp[i].data);
            assert_eq!(imp[i].next.and_then(|x| imp.index_of(x)), Some((i + 1) % 1000));
        }
    }

    test(SplitVec::with_linear_growth(2));
    test(SplitVec::with_doubling_growth());
    test(SplitVec::with_recursive_growth());
    test(FixedVec::new(1000));
}

#[test]
fn extend_from_slice() {
    fn test<P: PinnedVec<usize>>(pinned_vec: P) {
        let mut vec = ImpVec::from(Pinned(pinned_vec));
        let mut refs = Vec::with_capacity(4062);
        let mut addr = Vec::with_capacity(4062);

        vec.extend_from_slice(&(0..42).collect::<Vec<_>>());
        for i in 0..42 {
            refs.push(vec.ref_at(i).expect("in bounds"));
            addr.push(address_of(&vec[i]));
        }

        vec.extend_from_slice(&(42..63).collect::<Vec<_>>());
        for i in 42..63 {
            refs.push(vec.ref_at(i).expect("in bounds"));
            addr.push(address_of(&vec[i]));
        }

        vec.extend_from_slice(&(63..100).collect::<Vec<_>>());
        for i in 63..100 {
            refs.push(vec.ref_at(i).expect("in bounds"));
            addr.push(address_of(&vec[i]));
        }

        assert_eq!(100, vec.len());
        for i in 0..100 {
            assert_eq!(i, vec[i]);

            assert_eq!(Some(&i), vec.get_ref(refs[i]));

            let curr_addr = address_of(&vec[i]);
            assert_eq!(curr_addr, addr[i]);

            assert_eq!(address_of(vec.get_ref(refs[i]).expect("held")), addr[i]);
        }
    }

    test(SplitVec::with_linear_growth(2));
    test(SplitVec::with_doubling_growth());
    test(SplitVec::with_recursive_growth());
}

#[test]
fn push_get_ref2() {
    fn test<P: PinnedVec<usize>>(pinned_vec: P) {
        let mut vec = ImpVec::from(Pinned(pinned_vec));
        let mut refs = Vec::with_capacity(4062);
        let mut addr = Vec::with_capacity(4062);

        vec.extend(&(0..42).collect::<Vec<_>>());
        for i in 0..42 {
            refs.push(vec.ref_at(i).expect("in bounds"));
            addr.push(address_of(&vec[i]));
        }

        vec.extend(&(42..63).collect::<Vec<_>>());
        for i in 42..63 {
            refs.push(vec.ref_at(i).expect("in bounds"));
            addr.push(address_of(&vec[i]));
        }

        vec.extend(&(53..90).map(|i| i + 10).collect::<Vec<_>>());
        for i in 63..100 {
            refs.push(vec.ref_at(i).expect("in bounds"));
            addr.push(address_of(&vec[i]));
        }

        assert_eq!(100, vec.len());
        for i in 0..100 {
            assert_eq!(i, vec[i]);

            assert_eq!(Some(&i), vec.get_ref(refs[i]));

            let curr_addr = address_of(&vec[i]);
            assert_eq!(curr_addr, addr[i]);

            assert_eq!(address_of(vec.get_ref(refs[i]).expect("held")), addr[i]);
        }
    }

    test(SplitVec::with_linear_growth(2));
    test(SplitVec::with_doubling_growth());
    test(SplitVec::with_recursive_growth());
}

#[test]
fn into_split_vec() {
    fn test<P: PinnedVec<usize>>(mut pinned_vec: P) {
        for i in 0..400 {
            pinned_vec.push(i * 2);
        }

        let mut imp = ImpVec::from(Pinned(pinned_vec));
        for i in 400..1000 {
            imp.push(i * 2);
        }

        let expected: Vec<_> = (0..1000).map(|i| i * 2).collect();

        assert_eq!(expected, values(&imp));

        let pinned_back: P = imp.into_inner().0;
        assert_eq!(expected.len(), pinned_back.len());
        for i in 0..1000 {
            assert_eq!(expected[i], pinned_back[i]);
        }
    }

    test(SplitVec::with_linear_growth(2));
    test(SplitVec::with_doubling_growth());
    test(SplitVec::with_recursive_growth());
}

#[test]
fn wrap_then_unwrap_gives_the_storage_back() {
    let mut split: SplitVec<char> = SplitVec::new();
    split.extend_from_slice(&['a', 'b', 'c']);
    let back = ImpVec::from(Pinned(split.clone())).into_inner().0;
    assert_eq!(back, split);

    let mut fixed: FixedVec<char> = FixedVec::new(5);
    fixed.extend_from_slice(&['a', 'b', 'c']);
    let mut imp = ImpVec::from(Pinned(fixed));
    imp.push('d');
    imp.extend_from_slice(&['e']);
    let back = imp.into_inner().0;
    assert_eq!(back.as_slice(), &['a', 'b', 'c', 'd', 'e']);
}

struct Node {
    data: char,
    prev: Option<ElemRef>,
    next: Option<ElemRef>,
}

impl Node {
    fn new(data: char) -> Self {
        Node { data, prev: None, next: None }
    }
}

impl SelfRefNext for Node {
    fn next_link(&self) -> Option<ElemRef> {
        self.next
    }
    fn with_next_link(self, next: Option<ElemRef>) -> Self {
        Node { next, ..self }
    }
    fn next(&self) -> Option<ElemRef> {
        self.next
    }
    fn set_next(&mut self, next: Option<ElemRef>) {
        self.next = next;
    }
}

impl SelfRefPrev for Node {
    fn prev_link(&self) -> Option<ElemRef> {
        self.prev
    }
    fn with_prev_link(self, prev: Option<ElemRef>) -> Self {
        Node { prev, ..self }
    }
    fn prev(&self) -> Option<ElemRef> {
        self.prev
    }
    fn set_prev(&mut self, prev: Option<ElemRef>) {
        self.prev = prev;
    }
}

#[test]
fn set_next_prev() {
    fn test<P: PinnedVec<Node>>(pinned_vec: P) {
        let mut imp = ImpVec::from(Pinned(pinned_vec));

        let a = imp.push_get_ref(Node::new('a'));
        let b = imp.push_get_ref(Node::new('b'));

        let mut walk = imp.iter();
        while let Some(x) = walk.next() {
            assert!(x.next().is_none());
            assert!(x.prev().is_none());
        }

        assert_eq!(imp.try_set_next(a, Some(b)), Ok(()));
        assert_eq!(imp.try_set_prev(b, Some(a)), Ok(()));

        let node_a = imp.get_ref(a).expect("held");
        let node_b = imp.get_ref(b).expect("held");
        assert_eq!(
            node_a.next().and_then(|x| imp.get_ref(x)).map(|x| &x.data),
            Some(&'b')
        );
        assert_eq!(
            node_b.prev().and_then(|x| imp.get_ref(x)).map(|x| &x.data),
            Some(&'a')
        );
        assert!(node_a.prev().is_none());
        assert!(node_b.next().is_none());

        imp.set_next(a, None);
        imp.set_prev(b, None);

        let mut walk = imp.iter();
        while let Some(x) = walk.next() {
            assert!(x.next().is_none());
            assert!(x.prev().is_none());
        }
        assert_eq!(imp[0].data, 'a');
        assert_eq!(imp[1].data, 'b');
    }

    test(SplitVec::with_linear_growth(2));
    test(SplitVec::with_doubling_growth());
    test(SplitVec::with_recursive_growth());
    test(FixedVec::new(1000));
}

#[test]
#[should_panic]
fn set_next_of_another_impvec() {
    let mut imp1 = ImpVec::from(Pinned(SplitVec::new()));
    let mut imp2 = ImpVec::from(Pinned(SplitVec::new()));

    let a = imp1.push_get_ref(Node::new('a'));
    let b = imp2.push_get_ref(Node::new('b'));

    imp2.try_set_next(a, Some(b)).expect(LinkError::ElementNotInVec.message());
}

#[test]
#[should_panic]
fn set_next_to_another_impvec() {
    let mut imp1 = ImpVec::from(Pinned(SplitVec::new()));
    let mut imp2 = ImpVec::from(Pinned(SplitVec::new()));

    let a = imp1.push_get_ref(Node::new('a'));
    let b = imp2.push_get_ref(Node::new('b'));

    imp1.try_set_next(a, Some(b)).expect(LinkError::TargetNotInVec.message());
}

#[test]
#[should_panic]
fn set_prev_to_another_impvec() {
    let mut imp1 = ImpVec::from(Pinned(SplitVec::new()));
    let mut imp2 = ImpVec::from(Pinned(SplitVec::new()));

    let a = imp1.push_get_ref(Node::new('a'));
    let b = imp2.push_get_ref(Node::new('b'));

    imp1.try_set_prev(a, Some(b)).expect(LinkError::TargetNotInVec.message());
}

#[test]
#[should_panic]
fn set_prev_of_another_impvec() {
    let mut imp1 = ImpVec::from(Pinned(SplitVec::new()));
    let mut imp2 = ImpVec::from(Pinned(SplitVec::new()));

    let a = imp1.push_get_ref(Node::new('a'));
    let b = imp2.push_get_ref(Node::new('b'));

    imp2.try_set_prev(a, Some(b)).expect(LinkError::ElementNotInVec.message());
}

#[test]
fn links_across_vectors_are_refused_both_ways() {
    let mut imp1 = ImpVec::from(Pinned(SplitVec::new()));
    let mut imp2 = ImpVec::from(Pinned(FixedVec::new(4)));

    let a = imp1.push_get_ref(Node::new('a'));
    let b = imp2.push_get_ref(Node::new('b'));
    assert_eq!((a.index, b.index), (0, 0));

    assert_eq!(imp1.try_set_next(a, Some(b)), Err(LinkError::TargetNotInVec));
    assert_eq!(imp2.try_set_next(b, Some(a)), Err(LinkError::TargetNotInVec));
    assert_eq!(imp2.try_set_next(a, Some(b)), Err(LinkError::ElementNotInVec));
    assert_eq!(imp1.try_set_next(b, Some(a)), Err(LinkError::ElementNotInVec));
    assert_eq!(imp1.try_set_next(b, None), Err(LinkError::ElementNotInVec));
    assert_eq!(imp1.try_set_prev(a, Some(b)), Err(LinkError::TargetNotInVec));
    assert_eq!(imp2.try_set_prev(a, Some(b)), Err(LinkError::ElementNotInVec));
    assert_eq!(imp2.try_set_prev(a, Some(a)), Err(LinkError::TargetNotInVec));

    assert_eq!(imp1.check_link(a, Some(b)), Err(LinkError::TargetNotInVec));
    assert_eq!(imp1.check_link(a, Some(a)), Ok(0));
    assert_eq!(imp1.check_link(a, None), Ok(0));

    // nothing was linked
    assert!(imp1[0].next.is_none() && imp1[0].prev.is_none());
    assert!(imp2[0].next.is_none() && imp2[0].prev.is_none());

    // within one vector the link is set
    assert_eq!(imp1.try_set_next(a, Some(a)), Ok(()));
    assert_eq!(imp1[0].next, Some(a));
}

#[test]
fn ring_walk_comes_by_each_element_twice() {
    fn test<P: PinnedVec<Node>>(pinned_vec: P, n: usize) {
        let mut imp = ImpVec::from(Pinned(pinned_vec));
        let mut refs = vec![];
        for i in 0..n {
            let data = char::from(b'a' + (i % 26) as u8);
            refs.push(imp.push_get_ref(Node::new(data)));
        }
        for i in 0..n - 1 {
            imp.set_next(refs[i], Some(refs[i + 1]));
        }
        // close the ring through the slot of the last element
        imp.get_mut(n - 1).expect("in bounds").next = Some(refs[0]);

        for start in 0..n {
            let mut visits = vec![0usize; n];
            let mut at = refs[start];
            for step in 0..2 * n {
                assert_eq!(imp.walk(refs[start], step), Some(at));
                let index = imp.index_of(at).expect("held");
                assert_eq!(index, (start + step) % n);
                visits[index] += 1;
                at = imp.get_ref(at).and_then(|node| node.next()).expect("linked");
            }
            assert_eq!(at, refs[start]);
            assert_eq!(imp.walk(refs[start], 2 * n), Some(refs[start]));
            assert!(visits.iter().all(|&v| v == 2));
        }
    }

    test(SplitVec::with_linear_growth(2), 1);
    test(SplitVec::with_doubling_growth(), 7);
    test(SplitVec::with_recursive_growth(), 30);
    test(FixedVec::new(12), 12);
}

#[test]
fn walk_stops_where_a_link_is_missing() {
    let mut imp = ImpVec::from(Pinned(SplitVec::new()));
    let a = imp.push_get_ref(Node::new('a'));
    let b = imp.push_get_ref(Node::new('b'));
    imp.set_next(a, Some(b));
    assert_eq!(imp.walk(a, 0), Some(a));
    assert_eq!(imp.walk(a, 1), Some(b));
    assert_eq!(imp.walk(a, 2), None);
    assert_eq!(imp.walk(a, 3), None);
}

#[test]
fn eq_eq() {
    let mut split = SplitVec::new();
    split.extend_from_slice(&['a', 'b', 'c']);
    let vec1 = ImpVec::from(Pinned(split));

    let mut fixed = FixedVec::<char>::new(10);
    fixed.extend_from_slice(&['a', 'b', 'c']);
    let vec2 = ImpVec::from(Pinned(fixed));

    assert!(&vec1 == &vec2);
    assert!(vec1 == vec2);
}

#[test]
fn eq_of_many_strings() {
    let range = || 13..542;

    let mut vec1 = ImpVec::from(Pinned(SplitVec::<String>::new()));
    for x in range() {
        vec1.push(x.to_string());
    }

    let mut other = ImpVec::from(Pinned(FixedVec::<String>::new(600)));
    for x in range() {
        other.push(x.to_string());
    }
    assert!(&vec1 == &other);
    assert!(&other == &vec1);

    let mut other = ImpVec::from(Pinned(SplitVec::<String, Doubling>::with_doubling_growth()));
    for x in range() {
        other.push(x.to_string());
    }
    assert!(&vec1 == &other);
    assert!(&other == &vec1);

    let mut other = ImpVec::from(Pinned(SplitVec::<String, Recursive>::with_recursive_growth()));
    for x in range() {
        other.push(x.to_string());
    }
    assert!(&vec1 == &other);
    assert!(&other == &vec1);

    let mut other = ImpVec::from(Pinned(SplitVec::<String, Linear>::with_linear_growth(4)));
    for x in range() {
        other.push(x.to_string());
    }
    assert!(&vec1 == &other);
    other.replace_at(7, String::from("x"));
    assert!(&vec1 != &other);
    other.replace_at(7, 20.to_string());
    assert!(&vec1 == &other);
    other.pop();
    assert!(&vec1 != &other);

    let expected: Vec<String> = range().map(|x| x.to_string()).collect();
    assert_eq!(vec1.to_vec(), expected);
}

#[test]
fn from_from() {
    let mut splitvec = SplitVec::new();
    splitvec.extend_from_slice(&['a', 'b', 'c']);

    let impvec = ImpVec::from(Pinned(splitvec));
    assert_eq!(impvec.deref().0, &['a', 'b', 'c']);
}

#[test]
fn new_new() {
    fn test<P: PinnedVec<String>>(pinned_vec: P) {
        let mut imp = ImpVec::from(Pinned(pinned_vec));
        for i in 13..542 {
            imp.push(i.to_string());
        }
        for i in 13..542 {
            assert_eq!(imp.get(i - 13), Some(&i.to_string()));
        }
    }

    test(SplitVec::new());
    test(SplitVec::with_doubling_growth());
    test(SplitVec::with_recursive_growth());
    test(SplitVec::with_linear_growth(7));
    test(FixedVec::new(1000));
}

#[test]
fn to_vec_gives_the_elements_in_order() {
    let mut vec = SplitVec::new();
    vec.extend_from_slice(&['a', 'b', 'c'].map(|x| x.to_string()));
    let imp_vec = ImpVec::from(Pinned(vec));

    let vec: Vec<String> = imp_vec.to_vec();

    let fixed: FixedVec<String> = vec.into();
    let imp_vec = ImpVec::from(Pinned(fixed));
    let mut walk = imp_vec.iter();

    assert_eq!(walk.next(), Some(&String::from("a")));
    assert_eq!(walk.next(), Some(&String::from("b")));
    assert_eq!(walk.next(), Some(&String::from("c")));
    assert_eq!(walk.next(), None);
    assert_eq!(walk.next(), None);
}

#[test]
fn pen_and_cup() {
    let mut bag = ImpVec::from(Pinned(SplitVec::new()));
    bag.push("pen");
    bag.push("cup");
    assert_eq!(values(&bag), vec!["pen", "cup"]);

    let pen = bag.ref_at(0).expect("in bounds");
    let address_of_pen = address_of(bag.get_ref(pen).expect("held"));

    bag.push("pencil");
    bag.push("cupcake");

    assert_eq!(bag.get_ref(pen), Some(&"pen"));
    assert_eq!(address_of(bag.get_ref(pen).expect("held")), address_of_pen);
    assert_eq!(values(&bag), vec!["pen", "cup", "pencil", "cupcake"]);
}

#[test]
fn move_of_chars() {
    let mut split = SplitVec::new();
    split.extend_from_slice(&['a', 'b', 'c']);
    let mut imp = ImpVec::from(Pinned(split));

    let (ref0, ref1) = imp.move_get_ref(0, 1, 'x').expect("in bounds");

    assert_eq!(values(&imp), vec!['x', 'a', 'c']);
    assert_eq!(imp.get_ref(ref0), Some(&'x'));
    assert_eq!(imp.get_ref(ref1), Some(&'a'));
    assert_eq!((ref0.index, ref1.index), (0, 1));
    assert_eq!(address_of(imp.get_ref(ref0).expect("held")), address_of(&imp[0]));
    assert_eq!(address_of(imp.get_ref(ref1).expect("held")), address_of(&imp[1]));
}

#[test]
fn clone_of_strings() {
    let mut imp = ImpVec::from(Pinned(SplitVec::new()));
    imp.extend(&[String::from("a"), String::from("b")]);
    let copy = imp.clone();
    assert!(imp == copy);
    assert_eq!(copy.to_vec(), vec![String::from("a"), String::from("b")]);
}

#[test]
fn ring_built_while_pushing_runs_backwards() {
    fn test<P: PinnedVec<Node>>(pinned_vec: P, n: usize) {
        let mut imp = ImpVec::from(Pinned(pinned_vec));
        // each element names the one pushed before it
        let first = imp.push_get_ref(Node::new('a'));
        let mut last = first;
        for _ in 1..n {
            let mut node = Node::new('b');
            node.next = Some(last);
            last = imp.push_get_ref(node);
        }
        // and the first names the last
        imp.get_mut(0).expect("in bounds").next = Some(last);

        for start in 0..n {
            let from = imp.ref_at(start).expect("in bounds");
            let mut visits = vec![0usize; n];
            for step in 0..2 * n {
                let at = imp.walk(from, step).expect("linked");
                let index = imp.index_of(at).expect("held");
                assert_eq!(index, (start + n * step - step) % n);
                visits[index] += 1;
            }
            assert_eq!(imp.walk(from, 2 * n), Some(from));
            assert!(visits.iter().all(|&v| v == 2));
        }
    }

    test(SplitVec::with_linear_growth(2), 1);
    test(SplitVec::with_doubling_growth(), 2);
    test(SplitVec::with_recursive_growth(), 9);
    test(FixedVec::new(40), 40);
}
