//! The four ways a flexible string can hold its contents, and the trait that heap backends
//! implement.

use std::rc::Rc;
use std::sync::Arc;
use vstd::prelude::*;

mod borrow;
mod heap;
mod inline;
mod static_ref;

pub use borrow::BorrowStr;
pub use heap::HeapStr;
pub use inline::InlineStr;
pub use static_ref::StaticStr;

verus! {

/// Represents the storage type used by a particular flexible string
#[derive(Copy, Clone, Debug, PartialEq, Eq, Structural)]
pub enum StorageType {
    /// A wrapped string literal
    Static,
    /// An inlined string
    Inline,
    /// Heap-based storage
    Heap,
    /// Borrowed storage
    Borrow,
}

/// Error returned from `try_as_static_str` when a string does not hold the expected type of
/// storage
#[derive(Copy, Clone, Debug, PartialEq, Eq, Structural)]
pub struct WrongStorageType {
    /// The expected storage type of the string
    pub expected: StorageType,
    /// The actual storage type of the string
    pub actual: StorageType,
}

/// Trait used for implementing heap storage backends: a heap value holds a byte sequence that is
/// fixed once created
pub trait Storage: Sized {
    /// The bytes this heap value holds
    spec fn heap_data(&self) -> Seq<u8>;

    /// Takes a string's bytes and returns a newly created heap value holding them
    fn from_ref(s: &[u8]) -> (r: Self)
        ensures
            r.heap_data() == s@,
    ;

    /// Returns the contents of this storage
    fn as_heap_type(&self) -> (r: &[u8])
        ensures
            r@ == self.heap_data(),
    ;

    /// Returns another handle to (or a copy of) the same contents
    fn clone_heap(&self) -> (r: Self)
        ensures
            r.heap_data() == self.heap_data(),
    ;
}

/// Calls `Rc::clone`, which documents that it returns another pointer to the same allocation
#[verifier::external_body]
fn rc_clone(r: &Rc<Vec<u8>>) -> (c: Rc<Vec<u8>>)
    ensures
        *c == **r,
{
    Rc::clone(r)
}

/// Calls `Arc::clone`, which documents that it returns another pointer to the same allocation
#[verifier::external_body]
fn arc_clone(r: &Arc<Vec<u8>>) -> (c: Arc<Vec<u8>>)
    ensures
        *c == **r,
{
    Arc::clone(r)
}

impl Storage for Rc<Vec<u8>> {
    open spec fn heap_data(&self) -> Seq<u8> {
        (**self)@
    }

    fn from_ref(s: &[u8]) -> (r: Self) {
        Rc::new(vstd::slice::slice_to_vec(s))
    }

    fn as_heap_type(&self) -> (r: &[u8]) {
        let v: &Vec<u8> = &**self;
        v.as_slice()
    }

    fn clone_heap(&self) -> (r: Self) {
        rc_clone(self)
    }
}

impl Storage for Arc<Vec<u8>> {
    open spec fn heap_data(&self) -> Seq<u8> {
        (**self)@
    }

    fn from_ref(s: &[u8]) -> (r: Self) {
        Arc::new(vstd::slice::slice_to_vec(s))
    }

    fn as_heap_type(&self) -> (r: &[u8]) {
        let v: &Vec<u8> = &**self;
        v.as_slice()
    }

    fn clone_heap(&self) -> (r: Self) {
        arc_clone(self)
    }
}

impl Storage for Box<Vec<u8>> {
    open spec fn heap_data(&self) -> Seq<u8> {
        (**self)@
    }

    fn from_ref(s: &[u8]) -> (r: Self) {
        Box::new(vstd::slice::slice_to_vec(s))
    }

    fn as_heap_type(&self) -> (r: &[u8]) {
        let v: &Vec<u8> = &**self;
        v.as_slice()
    }

    fn clone_heap(&self) -> (r: Self) {
        let v: &Vec<u8> = &**self;
        Box::new(vstd::slice::slice_to_vec(v.as_slice()))
    }
}

} // verus!
