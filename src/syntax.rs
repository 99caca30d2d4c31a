//! A plain model of the parsed syntax that the pass reads and writes.
use vstd::prelude::*;

verus! {

/// An outer attribute `#[a::b::c <args>]`: the path segments, and the tokens
/// that follow the path, as text (`""`, `"(…)"`, or `"= …"`).
#[derive(Debug, PartialEq, Eq)]
pub struct Attr {
    pub path: Vec<String>,
    pub args: String,
}

/// What a function returns.
#[derive(Debug, PartialEq, Eq)]
pub enum Output {
    /// The declared return type as text (`""` when none is written).
    Tokens(String),
    /// `impl <krate>::Handler`, with the routing crate's path.
    Handler(String),
}

#[derive(Debug, PartialEq, Eq)]
pub struct Signature {
    pub asyncness: bool,
    pub ident: String,
    /// The declared type of the receiver (`&Self` for `&self`), if any.
    pub receiver: Option<String>,
    /// The parameters after the receiver, as text.
    pub inputs: Vec<String>,
    pub output: Output,
}

/// How the generated factory builds the shared handle that its wrapper holds.
#[derive(Debug, Clone, Copy, PartialEq, Eq, Structural)]
pub enum Construct {
    /// `Arc::new(self.clone())`: a new handle from a borrowed receiver.
    NewArc,
    /// `self.clone()`: another handle to the receiver's own `Arc`.
    CloneArc,
}

/// A wrapper type `handle(Arc<owner>)`, local to a factory, that dereferences
/// to `owner` and has one method under `marker`.
#[derive(Debug, PartialEq, Eq)]
pub struct Wrapper {
    pub owner: String,
    pub marker: Attr,
    pub method: Method,
    pub construct: Construct,
}

#[derive(Debug, PartialEq, Eq)]
pub enum Body {
    /// The method's own block, as text.
    Block(String),
    /// Defines `method` locally and returns it as the handler.
    Factory(Box<Method>),
    /// Defines the wrapper type locally and returns a value of it.
    Wrapper(Box<Wrapper>),
}

#[derive(Debug, PartialEq, Eq)]
pub struct Method {
    pub attrs: Vec<Attr>,
    /// The visibility as text (`""` when private).
    pub vis: String,
    pub sig: Signature,
    pub body: Body,
}

/// A member of an `impl` block.
#[derive(Debug, PartialEq, Eq)]
pub enum Member {
    Method(Method),
    /// Anything but a method, as text; the pass leaves it as it is.
    Other(String),
}

#[derive(Debug, PartialEq, Eq)]
pub struct ImplBlock {
    pub self_ty: String,
    pub members: Vec<Member>,
}

/// The item that the pass is attached to.
#[derive(Debug, PartialEq, Eq)]
pub enum Item {
    /// A free function, as text.
    Fn(String),
    Impl(ImplBlock),
    /// Any other item, as text.
    Other(String),
}

#[derive(Debug, Clone, Copy, PartialEq, Eq, Structural)]
pub enum Error {
    /// The pass is attached to something other than a function or an `impl` block.
    MisplacedAnnotation,
    /// A marked method's receiver is not `&self`, `Arc<Self>` or `&Arc<Self>`.
    InvalidReceiver,
    /// The translated marker does not parse as an attribute.
    MalformedMarkerPayload,
}

/// Why the pass failed, and at which member of the `impl` block (none when
/// the item is not an `impl` block).
#[derive(Debug, Clone, Copy, PartialEq, Eq, Structural)]
pub struct Failure {
    pub error: Error,
    pub member: Option<usize>,
}

impl Error {
    /// The message reported to the compiler.
    pub fn message(&self) -> (r: &'static str)
        ensures
            r@ == message_of(*self),
    {
        match self {
            Error::MisplacedAnnotation => "#[module] must be added to an `impl` block",
            Error::InvalidReceiver => "#[module] method receiver must be '&self', 'Arc<Self>' or '&Arc<Self>'",
            Error::MalformedMarkerPayload => "#[module] marker does not form a valid attribute",
        }
    }
}

pub open spec fn message_of(e: Error) -> Seq<char> {
    match e {
        Error::MisplacedAnnotation => "#[module] must be added to an `impl` block"@,
        Error::InvalidReceiver => "#[module] method receiver must be '&self', 'Arc<Self>' or '&Arc<Self>'"@,
        Error::MalformedMarkerPayload => "#[module] marker does not form a valid attribute"@,
    }
}

/// The receiver's declared type, as characters.
pub open spec fn receiver_view(m: Method) -> Option<Seq<char>> {
    match m.sig.receiver {
        Some(t) => Some(t@),
        None => None,
    }
}

} // verus!
