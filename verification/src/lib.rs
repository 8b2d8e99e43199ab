//! A flexible, clone-efficient string type that unifies wrapped literals, inlined strings,
//! heap-stored strings and borrowed strings, with the rules that pick between them stated and
//! proved.

pub mod boxed;
pub mod builder;
pub mod custom;
pub mod impls;
pub mod inner;
pub mod laws;
pub mod message;
pub mod ordering;
pub mod small_box;
pub mod storage;
pub mod string;
pub mod support;
pub mod traits;

pub use crate::storage::{StorageType, WrongStorageType};
pub use crate::string::std_str::{BoxedStr, FlexStr, LocalStr, SharedStr};
pub use crate::string::Utf8Error;
pub use crate::traits::FlexStrCore;
