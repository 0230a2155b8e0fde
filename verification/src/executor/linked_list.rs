//! The set of tasks a scheduler owns, as a doubly linked list.
//!
//! A node is known by its address. The list keeps the links of the nodes
//! that are in it; a node that is in no list has no links. Removing a node
//! is a splice of its neighbours' links and is refused for a node that is
//! not in the list.

use std::collections::HashMap;
use vstd::prelude::*;

verus! {

broadcast use vstd::std_specs::hash::group_hash_axioms;

/// The links of one node: the addresses of its neighbours, if any.
#[derive(Clone, Copy, Debug, PartialEq, Eq, Structural)]
pub struct Pointers {
    pub prev: Option<usize>,
    pub next: Option<usize>,
}

/// A doubly linked list of nodes, from head to tail.
pub struct LinkedList {
    head: Option<usize>,
    tail: Option<usize>,
    links: HashMap<usize, Pointers>,
    order: Ghost<Seq<usize>>,
}

/// A walk over a list from head to tail.
pub struct Iter {
    curr: Option<usize>,
    pos: Ghost<int>,
}

impl Pointers {
    /// The links of a node that is in no list.
    pub fn new() -> (p: Pointers)
        ensures
            p.prev is None,
            p.next is None,
    {
        Pointers { prev: None, next: None }
    }
}

/// The links that the node at position `i` of `order` must have.
pub open spec fn links_at(order: Seq<usize>, i: int) -> Pointers {
    Pointers {
        prev: if i == 0 {
            None
        } else {
            Some(order[i - 1])
        },
        next: if i + 1 == order.len() {
            None
        } else {
            Some(order[i + 1])
        },
    }
}

/// `links` holds exactly the links of the nodes of `order`, each pointing
/// at its neighbours in `order`.
pub open spec fn linked(links: Map<usize, Pointers>, order: Seq<usize>) -> bool {
    &&& order.no_duplicates()
    &&& forall|i: int|
        0 <= i < order.len() ==> links.contains_key(#[trigger] order[i]) && links[order[i]]
            == links_at(order, i)
    &&& forall|k: usize| links.contains_key(k) ==> order.contains(k)
}

impl View for LinkedList {
    type V = Seq<usize>;

    closed spec fn view(&self) -> Seq<usize> {
        self.order@
    }
}

impl LinkedList {
    /// The links and the ends agree with the order of the nodes.
    pub closed spec fn wf(&self) -> bool {
        &&& linked(self.links@, self.order@)
        &&& self.head == (if self.order@.len() == 0 {
            None
        } else {
            Some(self.order@[0])
        })
        &&& self.tail == (if self.order@.len() == 0 {
            None
        } else {
            Some(self.order@.last())
        })
    }

    /// No node is in a list twice.
    pub proof fn lemma_no_duplicates(&self)
        requires
            self.wf(),
        ensures
            self@.no_duplicates(),
    {
    }

    /// An empty list.
    pub fn new() -> (list: LinkedList)
        ensures
            list.wf(),
            list@ == Seq::<usize>::empty(),
    {
        LinkedList { head: None, tail: None, links: HashMap::new(), order: Ghost(Seq::empty()) }
    }

    /// Puts the node `val`, which is not in the list, at the head.
    pub fn push_front(&mut self, val: usize)
        requires
            old(self).wf(),
            !old(self)@.contains(val),
        ensures
            final(self).wf(),
            final(self)@ == seq![val] + old(self)@,
    {
        let ghost before = self.order@;
        let ghost after = seq![val] + before;
        self.links.insert(val, Pointers { prev: None, next: self.head });
        match self.head {
            Some(head) => {
                let next = match self.links.get(&head) {
                    Some(p) => p.next,
                    None => None,
                };
                assert(before[0] == head);
                self.links.insert(head, Pointers { prev: Some(val), next });
            },
            None => {},
        }
        self.head = Some(val);
        if self.tail.is_none() {
            self.tail = Some(val);
        }
        self.order = Ghost(after);
        proof {
            assert forall|i: int| 0 <= i < after.len() implies self.links@.contains_key(
                #[trigger] after[i],
            ) && self.links@[after[i]] == links_at(after, i) by {
                if i > 0 {
                    assert(after[i] == before[i - 1]);
                    assert(before.contains(before[i - 1]));
                    if i > 1 {
                        assert(after[i - 1] == before[i - 2]);
                    }
                    if i + 1 < after.len() {
                        assert(after[i + 1] == before[i]);
                    }
                }
            }
            assert forall|k: usize| self.links@.contains_key(k) implies after.contains(k) by {
                if k == val {
                    assert(after[0] == val);
                } else {
                    assert(before.contains(k));
                    let j = choose|j: int| 0 <= j < before.len() && before[j] == k;
                    assert(after[j + 1] == k);
                }
            }
            assert(after.no_duplicates()) by {
                assert forall|i: int, j: int|
                    0 <= i < after.len() && 0 <= j < after.len() && i != j implies after[i]
                    != after[j] by {
                    if i > 0 {
                        assert(after[i] == before[i - 1]);
                    }
                    if j > 0 {
                        assert(after[j] == before[j - 1]);
                    }
                }
            }
            if before.len() > 0 {
                assert(after.last() == before.last());
            }
        }
    }

    /// Takes the node at the tail out. `None` if the list is empty.
    pub fn pop_back(&mut self) -> (last: Option<usize>)
        requires
            old(self).wf(),
        ensures
            final(self).wf(),
            old(self)@.len() == 0 ==> last is None && final(self)@ == old(self)@,
            old(self)@.len() > 0 ==> last == Some(old(self)@.last()) && final(self)@ == old(
                self,
            )@.drop_last(),
    {
        let last = match self.tail {
            Some(last) => last,
            None => {
                return None;
            },
        };
        let ghost before = self.order@;
        let ghost after = before.drop_last();
        let ghost n = before.len() as int;
        let prev = match self.links.get(&last) {
            Some(p) => p.prev,
            None => None,
        };
        self.tail = prev;
        match prev {
            Some(prev) => {
                let prev_prev = match self.links.get(&prev) {
                    Some(p) => p.prev,
                    None => None,
                };
                assert(before[n - 2] == prev);
                self.links.insert(prev, Pointers { prev: prev_prev, next: None });
            },
            None => {
                self.head = None;
            },
        }
        let _ = self.links.remove(&last);
        self.order = Ghost(after);
        proof {
            assert forall|i: int| 0 <= i < after.len() implies self.links@.contains_key(
                #[trigger] after[i],
            ) && self.links@[after[i]] == links_at(after, i) by {
                assert(after[i] == before[i]);
                assert(before[i] != before[n - 1]);
                if i + 1 < after.len() {
                    assert(before[i] != before[n - 2]);
                }
            }
            assert forall|k: usize| self.links@.contains_key(k) implies after.contains(k) by {
                assert(before.contains(k));
                let j = choose|j: int| 0 <= j < before.len() && before[j] == k;
                assert(after[j] == k);
            }
        }
        Some(last)
    }

    /// Whether the list holds no node.
    pub fn is_empty(&self) -> (empty: bool)
        requires
            self.wf(),
        ensures
            empty == (self@.len() == 0),
    {
        self.head.is_none()
    }

    /// Takes the node `node` out of the list, wherever it stands. `None`,
    /// with the list unchanged, if it is not in this list.
    pub fn remove(&mut self, node: usize) -> (removed: Option<usize>)
        requires
            old(self).wf(),
        ensures
            final(self).wf(),
            removed is Some <==> old(self)@.contains(node),
            removed is Some ==> removed == Some(node) && final(self)@ == old(self)@.remove(
                old(self)@.index_of(node),
            ),
            removed is None ==> final(self)@ == old(self)@,
    {
        let ghost before = self.order@;
        let ghost n = before.len() as int;
        let p = match self.links.get(&node) {
            Some(p) => *p,
            None => Pointers::new(),
        };
        proof {
            if !before.contains(node) {
                if n > 0 {
                    assert(before.contains(before[0]));
                }
            }
        }
        if p.prev.is_none() && self.head != Some(node) {
            return None;
        }
        if p.next.is_none() && self.tail != Some(node) {
            return None;
        }
        let ghost at = before.index_of(node);
        let ghost after = before.remove(at);
        proof {
            assert(before.contains(node));
            assert(before[at] == node);
        }
        match p.prev {
            Some(prev) => {
                let prev_prev = match self.links.get(&prev) {
                    Some(q) => q.prev,
                    None => None,
                };
                assert(before[at - 1] == prev);
                self.links.insert(prev, Pointers { prev: prev_prev, next: p.next });
            },
            None => {
                self.head = p.next;
            },
        }
        match p.next {
            Some(next) => {
                let next_next = match self.links.get(&next) {
                    Some(q) => q.next,
                    None => None,
                };
                assert(before[at + 1] == next);
                self.links.insert(next, Pointers { prev: p.prev, next: next_next });
            },
            None => {
                self.tail = p.prev;
            },
        }
        let _ = self.links.remove(&node);
        self.order = Ghost(after);
        proof {
            assert forall|i: int| 0 <= i < after.len() implies self.links@.contains_key(
                #[trigger] after[i],
            ) && self.links@[after[i]] == links_at(after, i) by {
                if i < at {
                    assert(after[i] == before[i]);
                    if i > 0 {
                        assert(after[i - 1] == before[i - 1]);
                    }
                    if i + 1 < at {
                        assert(after[i + 1] == before[i + 1]);
                    } else if i + 1 < after.len() {
                        assert(after[i + 1] == before[i + 2]);
                    }
                } else {
                    assert(after[i] == before[i + 1]);
                    if i > at {
                        assert(after[i - 1] == before[i]);
                    } else if i > 0 {
                        assert(after[i - 1] == before[i - 1]);
                    }
                    if i + 1 < after.len() {
                        assert(after[i + 1] == before[i + 2]);
                    }
                }
            }
            assert forall|k: usize| self.links@.contains_key(k) implies after.contains(k) by {
                assert(before.contains(k));
                let j = choose|j: int| 0 <= j < before.len() && before[j] == k;
                if j < at {
                    assert(after[j] == k);
                } else {
                    assert(after[j - 1] == k);
                }
            }
            assert(after.no_duplicates()) by {
                assert forall|i: int, j: int|
                    0 <= i < after.len() && 0 <= j < after.len() && i != j implies after[i]
                    != after[j] by {
                    let bi = if i < at {
                        i
                    } else {
                        i + 1
                    };
                    let bj = if j < at {
                        j
                    } else {
                        j + 1
                    };
                    assert(after[i] == before[bi]);
                    assert(after[j] == before[bj]);
                }
            }
            if after.len() > 0 {
                if at == n - 1 {
                    assert(after.last() == before[n - 2]);
                } else {
                    assert(after.last() == before[n - 1]);
                }
                if at == 0 {
                    assert(after[0] == before[1]);
                } else {
                    assert(after[0] == before[0]);
                }
            }
        }
        Some(node)
    }

    /// A walk over the list, at its head.
    pub fn iter(&self) -> (iter: Iter)
        requires
            self.wf(),
        ensures
            iter.wf(self),
            iter.position() == 0,
    {
        Iter { curr: self.head, pos: Ghost(0) }
    }
}

impl Iter {
    /// How many nodes the walk has passed.
    pub closed spec fn position(&self) -> int {
        self.pos@
    }

    /// The walk stands on a node of `list`, or past its tail.
    pub closed spec fn wf(&self, list: &LinkedList) -> bool {
        &&& 0 <= self.pos@ <= list@.len()
        &&& self.curr == (if self.pos@ < list@.len() {
            Some(list@[self.pos@])
        } else {
            None
        })
    }

    /// The node the walk stands on, and a step towards the tail. `None`
    /// past the tail.
    pub fn next(&mut self, list: &LinkedList) -> (node: Option<usize>)
        requires
            list.wf(),
            old(self).wf(list),
        ensures
            final(self).wf(list),
            old(self).position() < list@.len() ==> node == Some(list@[old(self).position()])
                && final(self).position() == old(self).position() + 1,
            old(self).position() >= list@.len() ==> node is None && final(self).position() == old(
                self,
            ).position(),
    {
        let curr = match self.curr {
            Some(curr) => curr,
            None => {
                return None;
            },
        };
        let next = match list.links.get(&curr) {
            Some(p) => p.next,
            None => None,
        };
        self.curr = next;
        self.pos = Ghost(self.pos@ + 1);
        Some(curr)
    }
}

} // verus!
