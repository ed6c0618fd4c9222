//! A sequence with a movable cursor, kept as two singly-linked stacks that
//! meet at the cursor. Walking the cursor transfers one whole storage node
//! from one stack to the other, so no element is ever copied or reallocated.

use vstd::prelude::*;

verus! {

/// One owned storage unit: an element plus the owning link to the rest of
/// its chain. A node is reachable from exactly one link at a time.
struct Node<T> {
    elem: T,
    next: Link<T>,
}

/// A nullable, exclusively owning reference to a node.
type Link<T> = Option<Box<Node<T>>>;

/// The elements reachable from a link, head first.
spec fn link_view<T>(link: Link<T>) -> Seq<T>
    decreases link,
{
    match link {
        None => Seq::empty(),
        Some(node) => seq![node.elem] + link_view(node.next),
    }
}

/// A singly-linked stack: most recently pushed element first.
pub struct Stack<T> {
    head: Link<T>,
}

impl<T> View for Stack<T> {
    type V = Seq<T>;

    /// The stack's elements, top of the stack first.
    closed spec fn view(&self) -> Seq<T> {
        link_view(self.head)
    }
}

impl<T> Stack<T> {
    /// An empty stack.
    pub fn new() -> (s: Self)
        ensures
            s@ == Seq::<T>::empty(),
    {
        Stack { head: None }
    }

    /// Wraps `elem` in a fresh node and makes that node the new head.
    pub fn push(&mut self, elem: T)
        ensures
            final(self)@ == seq![elem] + old(self)@,
    {
        let new_node = Box::new(Node { elem, next: None });
        self.push_node(new_node);
    }

    /// Links a whole node in front of the current head. The node's old
    /// `next` link is overwritten, never followed.
    fn push_node(&mut self, mut node: Box<Node<T>>)
        ensures
            final(self)@ == seq![node.elem] + old(self)@,
    {
        node.next = self.head.take();
        self.head = Some(node);
    }

    /// Removes the head element, if any. The detached node is discarded.
    pub fn pop(&mut self) -> (r: Option<T>)
        ensures
            old(self)@.len() == 0 ==> r is None && *final(self) == *old(self),
            old(self)@.len() > 0 ==> r == Some(old(self)@[0]) && final(self)@ == old(self)@.drop_first(),
    {
        match self.pop_node() {
            None => None,
            Some(node) => Some(node.elem),
        }
    }

    /// Detaches the head node whole and returns it with its `next` link
    /// cleared, so the caller owns it alone.
    fn pop_node(&mut self) -> (r: Option<Box<Node<T>>>)
        ensures
            old(self)@.len() == 0 ==> r is None && *final(self) == *old(self),
            old(self)@.len() > 0 ==> match r {
                Some(node) => node.elem == old(self)@[0] && node.next is None
                    && final(self)@ == old(self)@.drop_first(),
                None => false,
            },
    {
        match self.head.take() {
            None => None,
            Some(mut node) => {
                self.head = node.next.take();
                Some(node)
            }
        }
    }

    /// Borrows the head element without removing it.
    pub fn peek(&self) -> (r: Option<&T>)
        ensures
            self@.len() == 0 ==> r is None,
            self@.len() > 0 ==> r is Some && *r.unwrap() == self@[0],
    {
        match &self.head {
            None => None,
            Some(node) => Some(&node.elem),
        }
    }

    /// Borrows the head element mutably; writes through the borrow land in
    /// the head position of the stack.
    pub fn peek_mut(&mut self) -> (r: Option<&mut T>)
        ensures
            old(self)@.len() == 0 ==> r is None && *final(self) == *old(self),
            old(self)@.len() > 0 ==> r is Some && *r.unwrap() == old(self)@[0]
                && final(self)@ == old(self)@.update(0, *final(r.unwrap())),
    {
        match &mut self.head {
            None => None,
            Some(node) => Some(&mut node.elem),
        }
    }
}

impl<T> Drop for Stack<T> {
    /// Unlinks the chain one node at a time, so tearing down a long stack
    /// uses constant call-stack depth instead of recursing per node.
    fn drop(&mut self)
        opens_invariants none
        no_unwind
    {
        let mut cur_link: Link<T> = None;
        core::mem::swap(&mut cur_link, &mut self.head);
        loop
            decreases link_view(cur_link).len(),
        {
            match cur_link {
                None => { break; }
                Some(mut boxed_node) => {
                    let mut next: Link<T> = None;
                    core::mem::swap(&mut next, &mut boxed_node.next);
                    cur_link = next;
                }
            }
        }
    }
}

/// A two-stack zipper list. The logical sequence is the left stack
/// reversed, then the right stack; the cursor sits between the two tops.
/// `go_left` and `go_right` move the cursor one position in O(1) by
/// transferring a whole node between the stacks.
pub struct List<T> {
    left: Stack<T>,
    right: Stack<T>,
}

impl<T> List<T> {
    /// The elements left of the cursor, the one nearest the cursor first.
    pub closed spec fn left_seq(&self) -> Seq<T> {
        self.left@
    }

    /// The elements right of the cursor, the one nearest the cursor first.
    pub closed spec fn right_seq(&self) -> Seq<T> {
        self.right@
    }

    /// The whole logical sequence, left end first; the cursor stands
    /// `left_seq().len()` positions in from the left end.
    pub open spec fn elems(&self) -> Seq<T> {
        self.left_seq().reverse() + self.right_seq()
    }

    /// An empty list, with the cursor at its only position.
    pub fn new() -> (l: Self)
        ensures
            l.left_seq() == Seq::<T>::empty(),
            l.right_seq() == Seq::<T>::empty(),
    {
        List { left: Stack::new(), right: Stack::new() }
    }

    /// Inserts `elem` just left of the cursor.
    pub fn push_left(&mut self, elem: T)
        ensures
            final(self).left_seq() == seq![elem] + old(self).left_seq(),
            final(self).right_seq() == old(self).right_seq(),
    {
        self.left.push(elem)
    }

    /// Inserts `elem` just right of the cursor.
    pub fn push_right(&mut self, elem: T)
        ensures
            final(self).right_seq() == seq![elem] + old(self).right_seq(),
            final(self).left_seq() == old(self).left_seq(),
    {
        self.right.push(elem)
    }

    /// Removes and returns the element just left of the cursor, if any.
    pub fn pop_left(&mut self) -> (r: Option<T>)
        ensures
            old(self).left_seq().len() == 0 ==> r is None && *final(self) == *old(self),
            old(self).left_seq().len() > 0 ==> r == Some(old(self).left_seq()[0])
                && final(self).left_seq() == old(self).left_seq().drop_first()
                && final(self).right_seq() == old(self).right_seq(),
    {
        self.left.pop()
    }

    /// Removes and returns the element just right of the cursor, if any.
    pub fn pop_right(&mut self) -> (r: Option<T>)
        ensures
            old(self).right_seq().len() == 0 ==> r is None && *final(self) == *old(self),
            old(self).right_seq().len() > 0 ==> r == Some(old(self).right_seq()[0])
                && final(self).right_seq() == old(self).right_seq().drop_first()
                && final(self).left_seq() == old(self).left_seq(),
    {
        self.right.pop()
    }

    /// Borrows the element just left of the cursor, if any.
    pub fn peek_left(&self) -> (r: Option<&T>)
        ensures
            self.left_seq().len() == 0 ==> r is None,
            self.left_seq().len() > 0 ==> r is Some && *r.unwrap() == self.left_seq()[0],
    {
        self.left.peek()
    }

    /// Borrows the element just right of the cursor, if any.
    pub fn peek_right(&self) -> (r: Option<&T>)
        ensures
            self.right_seq().len() == 0 ==> r is None,
            self.right_seq().len() > 0 ==> r is Some && *r.unwrap() == self.right_seq()[0],
    {
        self.right.peek()
    }

    /// Borrows the element just left of the cursor mutably; writes through
    /// the borrow land in that position.
    pub fn peek_left_mut(&mut self) -> (r: Option<&mut T>)
        ensures
            old(self).left_seq().len() == 0 ==> r is None && *final(self) == *old(self),
            old(self).left_seq().len() > 0 ==> r is Some && *r.unwrap() == old(self).left_seq()[0]
                && final(self).left_seq() == old(self).left_seq().update(0, *final(r.unwrap()))
                && final(self).right_seq() == old(self).right_seq(),
    {
        self.left.peek_mut()
    }

    /// Borrows the element just right of the cursor mutably; writes through
    /// the borrow land in that position.
    pub fn peek_right_mut(&mut self) -> (r: Option<&mut T>)
        ensures
            old(self).right_seq().len() == 0 ==> r is None && *final(self) == *old(self),
            old(self).right_seq().len() > 0 ==> r is Some && *r.unwrap() == old(self).right_seq()[0]
                && final(self).right_seq() == old(self).right_seq().update(0, *final(r.unwrap()))
                && final(self).left_seq() == old(self).left_seq(),
    {
        self.right.peek_mut()
    }

    /// Moves the cursor one position toward the left end by transferring
    /// the top node of `left` onto `right`. Returns `false`, changing
    /// nothing, when the cursor is already at the left end. The logical
    /// sequence is unchanged either way.
    pub fn go_left(&mut self) -> (moved: bool)
        ensures
            old(self).left_seq().len() == 0 ==> !moved && *final(self) == *old(self),
            old(self).left_seq().len() > 0 ==> moved
                && final(self).left_seq() == old(self).left_seq().drop_first()
                && final(self).right_seq() == seq![old(self).left_seq()[0]] + old(self).right_seq(),
            final(self).elems() == old(self).elems(),
    {
        match self.left.pop_node() {
            None => false,
            Some(node) => {
                self.right.push_node(node);
                proof {
                    lemma_shift_preserves_elems(old(self).left_seq(), old(self).right_seq());
                }
                true
            }
        }
    }

    /// Moves the cursor one position toward the right end by transferring
    /// the top node of `right` onto `left`. Returns `false`, changing
    /// nothing, when the cursor is already at the right end. The logical
    /// sequence is unchanged either way.
    pub fn go_right(&mut self) -> (moved: bool)
        ensures
            old(self).right_seq().len() == 0 ==> !moved && *final(self) == *old(self),
            old(self).right_seq().len() > 0 ==> moved
                && final(self).right_seq() == old(self).right_seq().drop_first()
                && final(self).left_seq() == seq![old(self).right_seq()[0]] + old(self).left_seq(),
            final(self).elems() == old(self).elems(),
    {
        match self.right.pop_node() {
            None => false,
            Some(node) => {
                self.left.push_node(node);
                proof {
                    lemma_shift_preserves_elems(final(self).left_seq(), old(self).right_seq().drop_first());
                }
                true
            }
        }
    }
}

/// Transferring the element nearest the cursor from the left side to the
/// right side leaves the concatenated sequence as it was.
proof fn lemma_shift_preserves_elems<T>(l: Seq<T>, r: Seq<T>)
    requires
        l.len() > 0,
    ensures
        l.reverse() + r == l.drop_first().reverse() + (seq![l[0]] + r),
{
    assert(l.reverse() + r =~= l.drop_first().reverse() + (seq![l[0]] + r));
}

/// The contents of a stack that held `start` after the elements of
/// `elems` are pushed onto it one at a time, in order.
pub open spec fn after_pushes<T>(start: Seq<T>, elems: Seq<T>) -> Seq<T>
    decreases elems.len(),
{
    if elems.len() == 0 {
        start
    } else {
        after_pushes(seq![elems[0]] + start, elems.drop_first())
    }
}

/// Push/pop is last-in, first-out. Pushing the elements of `elems` in
/// order onto a stack holding `start` leaves `elems.reverse() + start`,
/// so the pops that follow return the pushed elements in the exact
/// reverse of insertion order, and once all of them are popped the stack
/// holds `start` again. This holds for `Stack::push`
/// and `Stack::pop`, and so for each side of a `List` through `push_left`
/// / `pop_left` and `push_right` / `pop_right`.
pub proof fn lemma_lifo<T>(start: Seq<T>, elems: Seq<T>)
    ensures
        after_pushes(start, elems) == elems.reverse() + start,
        forall|i: int|
            0 <= i < elems.len() ==> #[trigger] after_pushes(start, elems)[i] == elems[elems.len()
                - 1 - i],
        after_pushes(start, elems).skip(elems.len() as int) == start,
    decreases elems.len(),
{
    if elems.len() == 0 {
        assert(after_pushes(start, elems) =~= elems.reverse() + start);
    } else {
        lemma_lifo(seq![elems[0]] + start, elems.drop_first());
        assert(elems.drop_first().reverse() + (seq![elems[0]] + start) =~= elems.reverse()
            + start);
    }
    assert(after_pushes(start, elems).skip(elems.len() as int) =~= start);
}

/// After a successful `go_left`, the element that stood nearest the
/// cursor on the left is the one now nearest on the right, and the
/// element that stood nearest on the right is one position deeper there.
pub proof fn lemma_go_left_transfer<T>(pre: List<T>, post: List<T>)
    requires
        pre.left_seq().len() > 0,
        post.left_seq() == pre.left_seq().drop_first(),
        post.right_seq() == seq![pre.left_seq()[0]] + pre.right_seq(),
    ensures
        post.right_seq()[0] == pre.left_seq()[0],
        pre.right_seq().len() > 0 ==> post.right_seq()[1] == pre.right_seq()[0],
{
}

/// A value written through `peek_mut` (or `peek_left_mut` /
/// `peek_right_mut`) is what the next pop on the same side returns, and
/// the rest of that side is untouched by the write.
pub proof fn lemma_write_then_pop<T>(side: Seq<T>, written: T)
    requires
        side.len() > 0,
    ensures
        side.update(0, written)[0] == written,
        side.update(0, written).drop_first() == side.drop_first(),
{
    assert(side.update(0, written).drop_first() =~= side.drop_first());
}

} // verus!
