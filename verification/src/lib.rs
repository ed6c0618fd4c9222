//! Linked-list structures with verified contracts: a two-stack zipper list
//! with a movable cursor, and a borrow-scoped cons list.

pub mod scoped;
pub mod zipper;
