use lists::zipper::List;
use lists::zipper::Stack;

#[test]
fn walk_aboot() {
    let mut list = List::new();             // [_]

    list.push_left(0);                      // [0,_]
    list.push_right(1);                     // [0, _, 1]
    assert_eq!(list.peek_left(), Some(&0));
    assert_eq!(list.peek_right(), Some(&1));

    list.push_left(2);                      // [0, 2, _, 1]
    list.push_left(3);                      // [0, 2, 3, _, 1]
    list.push_right(4);                     // [0, 2, 3, _, 4, 1]

    while list.go_left() {}                 // [_, 0, 2, 3, 4, 1]

    assert_eq!(list.pop_left(), None);
    assert_eq!(list.pop_right(), Some(0));  // [_, 2, 3, 4, 1]
    assert_eq!(list.pop_right(), Some(2));  // [_, 3, 4, 1]

    list.push_left(5);                      // [5, _, 3, 4, 1]
    assert_eq!(list.pop_right(), Some(3));  // [5, _, 4, 1]
    assert_eq!(list.pop_left(), Some(5));   // [_, 4, 1]
    assert_eq!(list.pop_right(), Some(4));  // [_, 1]
    assert_eq!(list.pop_right(), Some(1));  // [_]

    assert_eq!(list.pop_right(), None);
    assert_eq!(list.pop_left(), None);
}

#[test]
fn lifo_left() {
    let mut list = List::new();
    list.push_left(1);
    list.push_left(2);
    list.push_left(3);
    assert_eq!(list.pop_left(), Some(3));
    assert_eq!(list.pop_left(), Some(2));
    assert_eq!(list.pop_left(), Some(1));
    assert_eq!(list.pop_left(), None);
}

#[test]
fn lifo_right() {
    let mut list = List::new();
    list.push_right(1);
    list.push_right(2);
    list.push_right(3);
    assert_eq!(list.pop_right(), Some(3));
    assert_eq!(list.pop_right(), Some(2));
    assert_eq!(list.pop_right(), Some(1));
    assert_eq!(list.pop_right(), None);
}

#[test]
fn lifo_stack() {
    let mut stack = Stack::new();
    assert_eq!(stack.pop(), None);
    stack.push(10);
    stack.push(20);
    assert_eq!(stack.peek(), Some(&20));
    assert_eq!(stack.pop(), Some(20));
    assert_eq!(stack.pop(), Some(10));
    assert_eq!(stack.pop(), None);
}

#[test]
fn boundary_noop() {
    let mut list = List::new();
    list.push_right(7);
    // Cursor is already at the left end: go_left changes nothing.
    assert!(!list.go_left());
    assert_eq!(list.peek_left(), None);
    assert_eq!(list.peek_right(), Some(&7));
    // Walk to the right end: go_right then changes nothing.
    assert!(list.go_right());
    assert!(!list.go_right());
    assert_eq!(list.peek_left(), Some(&7));
    assert_eq!(list.peek_right(), None);
}

#[test]
fn transfer_across_cursor() {
    let mut list = List::new();
    list.push_left(1);
    list.push_right(2);
    assert_eq!(list.peek_left(), Some(&1));
    assert_eq!(list.peek_right(), Some(&2));
    // The old left neighbour becomes the right neighbour; the old right
    // neighbour is now one position deeper on the right.
    assert!(list.go_left());
    assert_eq!(list.peek_left(), None);
    assert_eq!(list.peek_right(), Some(&1));
    assert_eq!(list.pop_right(), Some(1));
    assert_eq!(list.pop_right(), Some(2));
}

#[test]
fn mutate_through_peek() {
    let mut list = List::new();
    list.push_left(1);
    list.push_right(2);
    if let Some(v) = list.peek_left_mut() {
        *v = 10;
    }
    if let Some(v) = list.peek_right_mut() {
        *v = 20;
    }
    assert_eq!(list.pop_left(), Some(10));
    assert_eq!(list.pop_right(), Some(20));
}

#[test]
fn stack_mutate_through_peek() {
    let mut stack = Stack::new();
    assert_eq!(stack.peek_mut(), None);
    stack.push(1);
    stack.push(2);
    if let Some(v) = stack.peek_mut() {
        *v = 42;
    }
    assert_eq!(stack.pop(), Some(42));
    assert_eq!(stack.pop(), Some(1));
}

#[test]
fn teardown_long_chains() {
    // A chain this long overflows the call stack if teardown recurses one
    // frame per node; the iterative unlink must finish without doing so.
    let mut list = List::new();
    let mut i: u32 = 0;
    while i < 100_000 {
        list.push_left(i);
        list.push_right(i);
        i += 1;
    }
    drop(list);

    let mut stack = Stack::new();
    let mut j: u32 = 0;
    while j < 100_000 {
        stack.push(j);
        j += 1;
    }
    drop(stack);
}

#[test]
fn cursor_walks_whole_sequence() {
    let mut list = List::new();
    let mut i: u32 = 0;
    while i < 1000 {
        list.push_left(i);
        i += 1;
    }
    // Walk the cursor all the way left, then drain from the right: the
    // logical sequence was untouched by the cursor moves.
    let mut moves: u32 = 0;
    while list.go_left() {
        moves += 1;
    }
    assert_eq!(moves, 1000);
    let mut expect: u32 = 0;
    while let Some(v) = list.pop_right() {
        assert_eq!(v, expect);
        expect += 1;
    }
    assert_eq!(expect, 1000);
}
