//! Rewrites marked methods into handler factories.
use vstd::prelude::*;
use crate::marker::{
    apply_marker, first_marker_index, has_marker, is_first_marker, is_translation, payload,
    recognized, syn_accepts_marker,
};
use crate::receiver::{style_of, MethodStyle};
use crate::syntax::{
    receiver_view, Attr, Body, Construct, Error, Failure, ImplBlock, Item, Member, Method, Output, Signature,
    Wrapper,
};

verus! {

/// The position of the first marker (meaningful when there is one).
pub open spec fn first_marker(attrs: Seq<Attr>) -> int {
    choose|i: int| is_first_marker(attrs, i)
}

pub open spec fn returns_handler(o: Output, krate: Seq<char>) -> bool {
    match o {
        Output::Handler(k) => k@ == krate,
        Output::Tokens(_) => false,
    }
}

/// The receiver type of the factory for a method of `style`.
pub open spec fn factory_receiver(style: MethodStyle) -> Seq<char> {
    if style == MethodStyle::RefSelf {
        "&Self"@
    } else {
        "&::std::sync::Arc<Self>"@
    }
}

/// `inner` is `m` made async, under the translated marker alone.
pub open spec fn is_local_fn(inner: Method, m: Method, krate: Seq<char>, p: Seq<char>) -> bool {
    &&& inner.attrs@.len() == 1
    &&& is_translation(inner.attrs@[0], krate, p)
    &&& inner.vis@ == m.vis@
    &&& inner.sig.asyncness
    &&& inner.sig.ident@ == m.sig.ident@
    &&& inner.sig.receiver == m.sig.receiver
    &&& inner.sig.inputs == m.sig.inputs
    &&& inner.sig.output == m.sig.output
    &&& inner.body == m.body
}

/// `w` wraps an `Arc` of `self_ty`, carries the translated marker, and holds
/// `m` made async, renamed `handle`, with receiver `&self` and no attributes.
pub open spec fn is_wrapper_of(
    w: Wrapper,
    self_ty: Seq<char>,
    m: Method,
    krate: Seq<char>,
    p: Seq<char>,
    style: MethodStyle,
) -> bool {
    &&& w.owner@ == self_ty
    &&& is_translation(w.marker, krate, p)
    &&& w.construct == (if style == MethodStyle::RefSelf {
        Construct::NewArc
    } else {
        Construct::CloneArc
    })
    &&& w.method.attrs@.len() == 0
    &&& w.method.vis@ == m.vis@
    &&& w.method.sig.asyncness
    &&& w.method.sig.ident@ == "handle"@
    &&& receiver_view(w.method) == Some("&Self"@)
    &&& w.method.sig.inputs == m.sig.inputs
    &&& w.method.sig.output == m.sig.output
    &&& w.method.body == m.body
}

/// `out` is the factory that replaces the marked method `m`.
pub open spec fn is_factory_of(self_ty: Seq<char>, m: Method, krate: Seq<char>, out: Method) -> bool {
    let i = first_marker(m.attrs@);
    let p = payload(m.attrs@[i]);
    &&& out.attrs@ == m.attrs@.remove(i)
    &&& out.vis@ == m.vis@
    &&& !out.sig.asyncness
    &&& out.sig.ident@ == m.sig.ident@
    &&& out.sig.inputs@.len() == 0
    &&& returns_handler(out.sig.output, krate)
    &&& match style_of(receiver_view(m)) {
        Some(MethodStyle::NoSelf) => out.sig.receiver is None && match out.body {
            Body::Factory(inner) => is_local_fn(*inner, m, krate, p),
            _ => false,
        },
        Some(style) => receiver_view(out) == Some(factory_receiver(style)) && match out.body {
            Body::Wrapper(w) => is_wrapper_of(*w, self_ty, m, krate, p, style),
            _ => false,
        },
        None => false,
    }
}

/// `r` is the result of rewriting method `m` of an `impl` for `self_ty`, when
/// syn's answer on the source text of its translated marker is `accepted`:
/// `m` itself when it has no marker; otherwise `MalformedMarkerPayload` when
/// syn refused that text, else `InvalidReceiver` when the receiver is not one
/// of the accepted forms, else the factory.
pub open spec fn rewrites_with(
    self_ty: Seq<char>,
    m: Method,
    krate: Seq<char>,
    accepted: bool,
    r: Result<Method, Error>,
) -> bool {
    if !has_marker(m.attrs@) {
        r == Ok::<Method, Error>(m)
    } else if !accepted {
        r == Err::<Method, Error>(Error::MalformedMarkerPayload)
    } else {
        match style_of(receiver_view(m)) {
            None => r == Err::<Method, Error>(Error::InvalidReceiver),
            Some(_) => r is Ok && is_factory_of(self_ty, m, krate, r->Ok_0),
        }
    }
}

/// `r` is the result of rewriting `m` for one of syn's two possible answers.
pub open spec fn rewrites_to(self_ty: Seq<char>, m: Method, krate: Seq<char>, r: Result<Method, Error>) -> bool {
    rewrites_with(self_ty, m, krate, true, r) || rewrites_with(self_ty, m, krate, false, r)
}

/// Rewrites `method` of an `impl` for `self_ty` into a handler factory when it
/// carries a marker, given whether syn accepts the source text of its
/// translated marker (`accepted`); returns it unchanged when it has none.
pub fn rewrite_with(self_ty: &String, method: Method, krate: &str, accepted: bool) -> (r: Result<Method, Error>)
    ensures
        rewrites_with(self_ty@, method, krate@, accepted, r),
{
    let ghost m = method;
    let mut method = method;
    let i = match first_marker_index(&method.attrs) {
        None => return Ok(method),
        Some(i) => i,
    };
    proof {
        assert(is_first_marker(m.attrs@, first_marker(m.attrs@)));
        assert(first_marker(m.attrs@) == i) by {
            let f = first_marker(m.attrs@);
            if f < i {
                assert(!recognized(m.attrs@[f]));
            } else if f > i {
                assert(!recognized(m.attrs@[i as int]));
            }
        }
    }
    let marker = match apply_marker(&mut method, i, krate, accepted) {
        Err(e) => return Err(e),
        Ok(a) => a,
    };
    let style = match MethodStyle::from_method(&method) {
        Err(e) => return Err(e),
        Ok(s) => s,
    };
    let Method { attrs, vis, sig, body } = method;
    let Signature { asyncness: _, ident, receiver, inputs, output } = sig;
    match style {
        MethodStyle::NoSelf => {
            let inner = Method {
                attrs: vec![marker],
                vis: vis.clone(),
                sig: Signature { asyncness: true, ident: ident.clone(), receiver, inputs, output },
                body,
            };
            let sig = Signature {
                asyncness: false,
                ident,
                receiver: None,
                inputs: Vec::new(),
                output: Output::Handler(String::from_str(krate)),
            };
            Ok(Method { attrs, vis, sig, body: Body::Factory(Box::new(inner)) })
        },
        _ => {
            let (recv, construct) = if style == MethodStyle::RefSelf {
                ("&Self", Construct::NewArc)
            } else {
                ("&::std::sync::Arc<Self>", Construct::CloneArc)
            };
            let inner = Method {
                attrs: Vec::new(),
                vis: vis.clone(),
                sig: Signature {
                    asyncness: true,
                    ident: String::from_str("handle"),
                    receiver: Some(String::from_str("&Self")),
                    inputs,
                    output,
                },
                body,
            };
            let wrapper = Wrapper { owner: self_ty.clone(), marker, method: inner, construct };
            let sig = Signature {
                asyncness: false,
                ident,
                receiver: Some(String::from_str(recv)),
                inputs: Vec::new(),
                output: Output::Handler(String::from_str(krate)),
            };
            Ok(Method { attrs, vis, sig, body: Body::Wrapper(Box::new(wrapper)) })
        },
    }
}

/// Rewrites `method` of an `impl` for `self_ty` into a handler factory when it
/// carries a marker, asking syn whether the translated marker parses; returns
/// it unchanged when it has no marker.
pub fn rewrite_method(self_ty: &String, method: Method, krate: &str) -> (r: Result<Method, Error>)
    ensures
        rewrites_to(self_ty@, method, krate@, r),
{
    let accepted = syn_accepts_marker(&method.attrs, krate);
    rewrite_with(self_ty, method, krate, accepted)
}

/// `b` is what member `a` of an `impl` for `self_ty` becomes, given syn's
/// answer `accepted` on its marker.
pub open spec fn member_rewrites(
    self_ty: Seq<char>,
    a: Member,
    krate: Seq<char>,
    accepted: bool,
    b: Member,
) -> bool {
    match (a, b) {
        (Member::Method(m), Member::Method(m2)) => rewrites_with(self_ty, m, krate, accepted, Ok(m2)),
        (Member::Other(t), Member::Other(t2)) => t == t2,
        _ => false,
    }
}

/// The error that member `a` gives, given syn's answer `accepted` on its marker.
pub open spec fn member_error(a: Member, accepted: bool) -> Option<Error> {
    match a {
        Member::Method(m) => if !has_marker(m.attrs@) {
            None
        } else if !accepted {
            Some(Error::MalformedMarkerPayload)
        } else if style_of(receiver_view(m)) is None {
            Some(Error::InvalidReceiver)
        } else {
            None
        },
        Member::Other(_) => None,
    }
}

/// `answers` holds one answer of syn for each member of `item`.
pub open spec fn answers_fit(item: Item, answers: Seq<bool>) -> bool {
    match item {
        Item::Impl(b) => answers.len() == b.members@.len(),
        _ => true,
    }
}

/// `r` is the result of the pass on `item`, given syn's answer on the marker
/// of each member (`answers`): every member rewritten in order when none
/// fails, else the error of the first member that fails, and its position.
pub open spec fn generates_with(item: Item, krate: Seq<char>, answers: Seq<bool>, r: Result<Item, Failure>) -> bool {
    match item {
        Item::Fn(_) => r == Ok::<Item, Failure>(item),
        Item::Other(_) => r == Err::<Item, Failure>(
            Failure { error: Error::MisplacedAnnotation, member: None },
        ),
        Item::Impl(b) => match r {
            Ok(Item::Impl(b2)) => {
                &&& b2.self_ty == b.self_ty
                &&& b2.members@.len() == b.members@.len()
                &&& forall|k: int|
                    0 <= k < b.members@.len() ==> member_error(#[trigger] b.members@[k], answers[k])
                        is None
                &&& forall|k: int|
                    0 <= k < b.members@.len() ==> member_rewrites(
                        b.self_ty@,
                        #[trigger] b.members@[k],
                        krate,
                        answers[k],
                        b2.members@[k],
                    )
            },
            Ok(_) => false,
            Err(f) => {
                &&& f.member is Some
                &&& 0 <= f.member->Some_0 < b.members@.len()
                &&& member_error(b.members@[f.member->Some_0 as int], answers[f.member->Some_0 as int])
                    == Some(f.error)
                &&& forall|j: int|
                    0 <= j < f.member->Some_0 ==> member_error(#[trigger] b.members@[j], answers[j])
                        is None
            },
        },
    }
}

/// The pass on the item it is attached to, given syn's answer on the marker
/// of each member of an `impl` block (`answers`): a free function passes
/// through, each method of an `impl` block is rewritten in order, and any
/// other item is refused.
pub fn generate_with(item: Item, krate: &str, answers: &Vec<bool>) -> (r: Result<Item, Failure>)
    requires
        answers_fit(item, answers@),
    ensures
        generates_with(item, krate@, answers@, r),
{
    match item {
        Item::Fn(t) => Ok(Item::Fn(t)),
        Item::Other(_) => Err(Failure { error: Error::MisplacedAnnotation, member: None }),
        Item::Impl(block) => {
            let ghost orig = block.members@;
            let ghost b0 = block;
            let ImplBlock { self_ty, members } = block;
            let mut members = members;
            let mut out: Vec<Member> = Vec::new();
            while members.len() > 0
                invariant
                    item == Item::Impl(b0),
                    b0.members@ == orig,
                    b0.self_ty == self_ty,
                    answers@.len() == orig.len(),
                    out@.len() + members@.len() == orig.len(),
                    members@ == orig.subrange(out@.len() as int, orig.len() as int),
                    forall|k: int|
                        0 <= k < out@.len() ==> member_error(#[trigger] orig[k], answers@[k]) is None,
                    forall|k: int|
                        0 <= k < out@.len() ==> member_rewrites(
                            self_ty@,
                            #[trigger] orig[k],
                            krate@,
                            answers@[k],
                            out@[k],
                        ),
                decreases members@.len(),
            {
                let k = out.len();
                assert(orig[k as int] == members@[0]);
                let member = members.remove(0);
                match member {
                    Member::Method(m) => match rewrite_with(&self_ty, m, krate, answers[k]) {
                        Ok(m2) => out.push(Member::Method(m2)),
                        Err(e) => {
                            return Err(Failure { error: e, member: Some(k) });
                        },
                    },
                    Member::Other(t) => out.push(Member::Other(t)),
                }
                proof {
                    assert(members@ =~= orig.subrange(out@.len() as int, orig.len() as int));
                }
            }
            Ok(Item::Impl(ImplBlock { self_ty, members: out }))
        },
    }
}

/// `r` is the result of the pass on `item` for some answers of syn.
pub open spec fn generates_to(item: Item, krate: Seq<char>, r: Result<Item, Failure>) -> bool {
    exists|answers: Seq<bool>| answers_fit(item, answers) && generates_with(item, krate, answers, r)
}

/// Runs the pass on the item it is attached to, asking syn whether the
/// translated marker of each method parses. A failure names the member that
/// caused it.
pub fn generate(item: Item, krate: &str) -> (r: Result<Item, Failure>)
    ensures
        generates_to(item, krate@, r),
{
    let mut answers: Vec<bool> = Vec::new();
    if let Item::Impl(block) = &item {
        let n = block.members.len();
        let mut k: usize = 0;
        while k < n
            invariant
                n == block.members@.len(),
                k <= n,
                answers@.len() == k,
            decreases n - k,
        {
            let accepted = match &block.members[k] {
                Member::Method(m) => syn_accepts_marker(&m.attrs, krate),
                Member::Other(_) => true,
            };
            answers.push(accepted);
            k += 1;
        }
    }
    let r = generate_with(item, krate, &answers);
    proof {
        assert(answers_fit(item, answers@) && generates_with(item, krate@, answers@, r));
    }
    r
}

} // verus!
