//! Classifies a method's receiver.
use vstd::prelude::*;
use crate::syntax::{Error, Method, receiver_view};
use crate::text::{chars_equal, chars_have_suffix, has_suffix, strip_spaces, without_spaces};

verus! {

#[derive(Debug, Clone, Copy, PartialEq, Eq, Structural)]
pub enum MethodStyle {
    /// No receiver.
    NoSelf,
    /// `&self`.
    RefSelf,
    /// `self: Arc<Self>` or `self: &Arc<Self>`, the `Arc` path written in any way.
    ArcSelf,
}

/// The style of a receiver whose declared type is `t` (`None` when there is no
/// receiver); `None` when the type is not one of the accepted forms.
pub open spec fn style_of(t: Option<Seq<char>>) -> Option<MethodStyle> {
    match t {
        None => Some(MethodStyle::NoSelf),
        Some(t) => {
            let u = strip_spaces(t);
            if u == "&Self"@ {
                Some(MethodStyle::RefSelf)
            } else if u == "Arc<Self>"@ || u == "&Arc<Self>"@ || has_suffix(u, "::Arc<Self>"@) {
                Some(MethodStyle::ArcSelf)
            } else {
                None
            }
        },
    }
}

impl MethodStyle {
    pub fn from_method(method: &Method) -> (r: Result<MethodStyle, Error>)
        ensures
            r == (match style_of(receiver_view(*method)) {
                Some(s) => Ok::<MethodStyle, Error>(s),
                None => Err(Error::InvalidReceiver),
            }),
    {
        match &method.sig.receiver {
            None => Ok(MethodStyle::NoSelf),
            Some(t) => {
                let u = without_spaces(t.as_str());
                if chars_equal(&u, "&Self") {
                    Ok(MethodStyle::RefSelf)
                } else if chars_equal(&u, "Arc<Self>") || chars_equal(&u, "&Arc<Self>")
                    || chars_have_suffix(&u, "::Arc<Self>") {
                    Ok(MethodStyle::ArcSelf)
                } else {
                    Err(Error::InvalidReceiver)
                }
            },
        }
    }
}

} // verus!
