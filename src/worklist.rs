//! The pending branches of an iteratively evaluated path tree.
//!
//! A dielectric split near the camera turns one path into two. Instead of
//! recursing, the estimator keeps the branches still to be traced on a
//! stack, so that the call depth stays bounded. Branches come off the stack
//! in the order in which the recursive form would evaluate them: the
//! reflected branch and everything below it, then the refracted one.
use vstd::prelude::*;

verus! {

/// A branch still to be traced: the depth it starts at and the caller's
/// state for it (its ray and throughput).
pub struct Branch<T> {
    pub depth: u32,
    pub item: T,
}

/// A stack of branches; the last element of its view comes off first.
pub struct Worklist<T> {
    stack: Vec<Branch<T>>,
}

impl<T> View for Worklist<T> {
    type V = Seq<Branch<T>>;

    closed spec fn view(&self) -> Seq<Branch<T>> {
        self.stack@
    }
}

impl<T> Worklist<T> {
    /// A work-list holding only the primary path.
    pub fn new(item: T, depth: u32) -> (r: Self)
        ensures
            r@ == seq![Branch { depth, item }],
    {
        let mut stack: Vec<Branch<T>> = Vec::new();
        stack.push(Branch { depth, item });
        Worklist { stack }
    }

    /// Whether every branch has been traced.
    pub fn is_empty(&self) -> (r: bool)
        ensures
            r == (self@.len() == 0),
    {
        self.stack.len() == 0
    }

    /// The number of branches still to be traced.
    pub fn len(&self) -> (r: usize)
        ensures
            r == self@.len(),
    {
        self.stack.len()
    }

    /// Takes the next branch to trace, or `None` once all are done.
    pub fn pop(&mut self) -> (r: Option<Branch<T>>)
        ensures
            old(self)@.len() == 0 ==> r is None && final(self)@ == old(self)@,
            old(self)@.len() > 0 ==> r == Some(old(self)@.last())
                && final(self)@ == old(self)@.drop_last(),
    {
        self.stack.pop()
    }

    /// Records a deterministic split at `depth`: the reflected branch is
    /// traced next, and the refracted one after it and all that the
    /// reflected branch spawns.
    pub fn split(&mut self, depth: u32, reflected: T, refracted: T)
        ensures
            final(self)@ == old(self)@.push(Branch { depth, item: refracted }).push(
                Branch { depth, item: reflected },
            ),
    {
        self.stack.push(Branch { depth, item: refracted });
        self.stack.push(Branch { depth, item: reflected });
    }
}

/// The branches that a path spawns: a branch that ends by a miss or by
/// absorption is a leaf, and one that ends in a deterministic split forks
/// into the tree of its reflected half and that of its refracted half.
pub enum SplitTree<T> {
    Leaf(Branch<T>),
    Fork(Branch<T>, Box<SplitTree<T>>, Box<SplitTree<T>>),
}

/// The number of branches in a tree.
pub open spec fn tree_size<T>(t: SplitTree<T>) -> nat
    decreases t,
{
    match t {
        SplitTree::Leaf(_) => 1,
        SplitTree::Fork(_, l, r) => 1 + tree_size(*l) + tree_size(*r),
    }
}

/// The order in which the recursive estimator traces the branches: a branch,
/// then all of its reflected half, then all of its refracted half.
pub open spec fn recursive_order<T>(t: SplitTree<T>) -> Seq<Branch<T>>
    decreases t,
{
    match t {
        SplitTree::Leaf(b) => seq![b],
        SplitTree::Fork(b, l, r) => seq![b] + recursive_order(*l) + recursive_order(*r),
    }
}

/// The number of branches in a stack of trees.
pub open spec fn stack_size<T>(s: Seq<SplitTree<T>>) -> nat
    decreases s.len(),
{
    if s.len() == 0 {
        0
    } else {
        stack_size(s.drop_last()) + tree_size(s.last())
    }
}

/// The order in which a work-list traces the branches of a stack of trees:
/// it pops the last tree's branch, and where that branch forks, `split`
/// pushes the refracted half and then the reflected one.
pub open spec fn worklist_order<T>(s: Seq<SplitTree<T>>) -> Seq<Branch<T>>
    decreases stack_size(s),
{
    if s.len() == 0 {
        seq![]
    } else {
        let rest = s.drop_last();
        match s.last() {
            SplitTree::Leaf(b) => seq![b] + worklist_order(rest),
            SplitTree::Fork(b, l, r) => {
                proof {
                    let pr = rest.push(*r);
                    assert(pr.drop_last() =~= rest);
                    assert(pr.push(*l).drop_last() =~= pr);
                    assert(stack_size(pr) == stack_size(rest) + tree_size(*r));
                    assert(stack_size(pr.push(*l)) == stack_size(pr) + tree_size(*l));
                }
                seq![b] + worklist_order(rest.push(*r).push(*l))
            },
        }
    }
}

proof fn lemma_worklist_order_push<T>(s: Seq<SplitTree<T>>, t: SplitTree<T>)
    ensures
        worklist_order(s.push(t)) == recursive_order(t) + worklist_order(s),
    decreases tree_size(t),
{
    assert(s.push(t).drop_last() =~= s);
    assert(s.push(t).last() == t);
    match t {
        SplitTree::Leaf(b) => {},
        SplitTree::Fork(b, l, r) => {
            lemma_worklist_order_push(s.push(*r), *l);
            lemma_worklist_order_push(s, *r);
            assert(worklist_order(s.push(t)) == seq![b] + worklist_order(s.push(*r).push(*l)));
            assert(seq![b] + (recursive_order(*l) + (recursive_order(*r) + worklist_order(s)))
                =~= seq![b] + recursive_order(*l) + recursive_order(*r) + worklist_order(s));
        },
    }
}

/// Tracing a path's branches through a work-list, starting from the primary
/// path alone, visits them in exactly the order of the recursive estimator,
/// so both forms trace the same branches, at the same depths, in the same
/// order.
pub proof fn lemma_iterative_matches_recursive<T>(t: SplitTree<T>)
    ensures
        worklist_order(seq![t]) == recursive_order(t),
{
    lemma_worklist_order_push(Seq::<SplitTree<T>>::empty(), t);
    assert(Seq::<SplitTree<T>>::empty().push(t) =~= seq![t]);
    assert(worklist_order(Seq::<SplitTree<T>>::empty()) =~= Seq::<Branch<T>>::empty());
    assert(recursive_order(t) + Seq::<Branch<T>>::empty() =~= recursive_order(t));
}

} // verus!
