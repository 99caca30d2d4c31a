//! Rewrites the methods of an `impl` block that carry a `#[module(handler)]` or
//! `#[module(endpoint)]` marker into factory functions that return a request
//! handler, over a plain model of the parsed syntax.

mod text;
pub mod syntax;
pub mod receiver;
pub mod marker;
pub mod rewrite;
pub mod laws;

pub use syntax::{Attr, Body, Construct, Error, Failure, ImplBlock, Item, Member, Method, Output, Signature, Wrapper};
pub use receiver::MethodStyle;
pub use marker::take_method_macro;
pub use rewrite::{generate, generate_with, rewrite_method, rewrite_with};
