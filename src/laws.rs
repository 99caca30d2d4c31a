//! Properties of the pass, proved from the contracts of its functions.
use vstd::prelude::*;
use crate::marker::{
    has_marker, is_first_marker, is_handler_payload, is_marker_tag, is_translation,
    path_view, payload, recognized,
};
use crate::receiver::{style_of, MethodStyle};
use crate::rewrite::{
    answers_fit, first_marker, generates_with, member_rewrites, returns_handler, rewrites_to,
    rewrites_with,
};
use crate::syntax::{receiver_view, Attr, Body, Construct, Error, Failure, Item, Member, Method};
use crate::text::strip_spaces;

verus! {

/// Every method has at most one marker.
pub open spec fn at_most_one_marker(attrs: Seq<Attr>) -> bool {
    forall|i: int, j: int|
        0 <= i < attrs.len() && 0 <= j < attrs.len() && recognized(#[trigger] attrs[i])
            && recognized(#[trigger] attrs[j]) ==> i == j
}

/// A method with no attribute tagged `module` comes out of the pass unchanged.
pub proof fn lemma_unmarked_method_unchanged(
    self_ty: Seq<char>,
    m: Method,
    krate: Seq<char>,
    r: Result<Method, Error>,
)
    requires
        forall|i: int| 0 <= i < m.attrs@.len() ==> !is_marker_tag(#[trigger] m.attrs@[i]),
        rewrites_to(self_ty, m, krate, r),
    ensures
        r == Ok::<Method, Error>(m),
{
    if has_marker(m.attrs@) {
        let i = choose|i: int| is_first_marker(m.attrs@, i);
        assert(is_marker_tag(m.attrs@[i]));
    }
}

/// A marked method without receiver whose marker is `handler` or `handler(...)`
/// becomes a function of no parameters that returns a handler, and defines
/// locally the method itself under the routing crate's `handler`
/// attribute, with the marker's arguments as they were written.
pub proof fn lemma_free_handler(self_ty: Seq<char>, m: Method, krate: Seq<char>, r: Result<Method, Error>)
    requires
        receiver_view(m) is None,
        has_marker(m.attrs@),
        is_handler_payload(payload(m.attrs@[first_marker(m.attrs@)])),
        rewrites_with(self_ty, m, krate, true, r),
    ensures
        r is Ok,
        r->Ok_0.sig.receiver is None,
        r->Ok_0.sig.inputs@.len() == 0,
        returns_handler(r->Ok_0.sig.output, krate),
        r->Ok_0.body is Factory,
        path_view(r->Ok_0.body->Factory_0.attrs@[0]) == seq![krate, "handler"@],
        r->Ok_0.body->Factory_0.attrs@[0].args@ == payload(m.attrs@[first_marker(m.attrs@)]).subrange(
            7,
            payload(m.attrs@[first_marker(m.attrs@)]).len() as int,
        ),
        r->Ok_0.body->Factory_0.body == m.body,
{
}

/// A marked method with receiver `&self` and marker `endpoint(foo=1)` becomes a
/// factory whose wrapper holds the owning type, and whose one method carries
/// the routing crate's `oapi::endpoint(foo=1)`.
pub proof fn lemma_ref_endpoint(self_ty: Seq<char>, m: Method, krate: Seq<char>, r: Result<Method, Error>)
    requires
        style_of(receiver_view(m)) == Some(MethodStyle::RefSelf),
        has_marker(m.attrs@),
        payload(m.attrs@[first_marker(m.attrs@)]) == "endpoint(foo=1)"@,
        rewrites_with(self_ty, m, krate, true, r),
    ensures
        r is Ok,
        r->Ok_0.body is Wrapper,
        r->Ok_0.body->Wrapper_0.owner@ == self_ty,
        path_view(r->Ok_0.body->Wrapper_0.marker) == seq![krate, "oapi"@, "endpoint"@],
        r->Ok_0.body->Wrapper_0.marker.args@ == "(foo=1)"@,
        r->Ok_0.body->Wrapper_0.method.body == m.body,
{
    reveal_strlit("endpoint(foo=1)");
    reveal_strlit("(foo=1)");
    reveal_strlit("handler");
    reveal_strlit("handler(");
    let p = "endpoint(foo=1)"@;
    assert(p != "handler"@);
    assert(p.subrange(0, 8) != "handler("@) by {
        assert(p.subrange(0, 8)[0] != "handler("@[0]);
    }
    assert(!is_handler_payload(p));
    assert(p.subrange(8, p.len() as int) =~= "(foo=1)"@);
}

/// A marked method whose receiver is an `Arc` of `Self` becomes a factory with
/// receiver `self: &Arc<Self>` that clones that `Arc` into its wrapper.
pub proof fn lemma_shared_receiver(self_ty: Seq<char>, m: Method, krate: Seq<char>, r: Result<Method, Error>)
    requires
        style_of(receiver_view(m)) == Some(MethodStyle::ArcSelf),
        has_marker(m.attrs@),
        rewrites_with(self_ty, m, krate, true, r),
    ensures
        r is Ok,
        receiver_view(r->Ok_0) == Some("&::std::sync::Arc<Self>"@),
        r->Ok_0.body is Wrapper,
        r->Ok_0.body->Wrapper_0.construct == Construct::CloneArc,
{
}

/// The attributes of a marked method other than its marker stay, in their
/// order, on the factory, and none of them on the function that it defines.
pub proof fn lemma_attributes_move_to_factory(
    self_ty: Seq<char>,
    m: Method,
    krate: Seq<char>,
    out: Method,
)
    requires
        has_marker(m.attrs@),
        rewrites_with(self_ty, m, krate, true, Ok(out)),
    ensures
        out.attrs@ == m.attrs@.remove(first_marker(m.attrs@)),
        match out.body {
            Body::Factory(inner) => inner.attrs@.len() == 1 && is_translation(
                inner.attrs@[0],
                krate,
                payload(m.attrs@[first_marker(m.attrs@)]),
            ),
            Body::Wrapper(w) => w.method.attrs@.len() == 0,
            Body::Block(_) => false,
        },
{
}

/// A method that had at most one marker has none left after the pass.
pub proof fn lemma_no_marker_left(self_ty: Seq<char>, m: Method, krate: Seq<char>, out: Method)
    requires
        at_most_one_marker(m.attrs@),
        rewrites_to(self_ty, m, krate, Ok(out)),
    ensures
        !has_marker(out.attrs@),
{
    if has_marker(m.attrs@) {
        let i = first_marker(m.attrs@);
        assert(is_first_marker(m.attrs@, i));
        assert forall|j: int| 0 <= j < out.attrs@.len() implies !recognized(
            #[trigger] out.attrs@[j],
        ) by {
            if j < i {
                assert(out.attrs@[j] == m.attrs@[j]);
            } else {
                assert(out.attrs@[j] == m.attrs@[j + 1]);
            }
        }
    }
    if has_marker(out.attrs@) {
        let k = choose|k: int| is_first_marker(out.attrs@, k);
        assert(recognized(out.attrs@[k]));
    }
}

/// Rewriting a method that had at most one marker a second time changes
/// nothing.
pub proof fn lemma_rewrite_idempotent(
    self_ty: Seq<char>,
    m: Method,
    krate: Seq<char>,
    out: Method,
    again: Result<Method, Error>,
)
    requires
        at_most_one_marker(m.attrs@),
        rewrites_to(self_ty, m, krate, Ok(out)),
        rewrites_to(self_ty, out, krate, again),
    ensures
        again == Ok::<Method, Error>(out),
{
    lemma_no_marker_left(self_ty, m, krate, out);
}

/// Running the pass a second time on its own result, when no method had more
/// than one marker, leaves every member as it is, whatever syn answers on
/// either run.
pub proof fn lemma_generate_idempotent(
    item: Item,
    krate: Seq<char>,
    answers: Seq<bool>,
    out: Item,
    answers2: Seq<bool>,
    again: Result<Item, Failure>,
)
    requires
        match item {
            Item::Impl(b) => forall|k: int|
                0 <= k < b.members@.len() ==> match #[trigger] b.members@[k] {
                    Member::Method(m) => at_most_one_marker(m.attrs@),
                    Member::Other(_) => true,
                },
            _ => true,
        },
        answers_fit(item, answers),
        generates_with(item, krate, answers, Ok(out)),
        answers_fit(out, answers2),
        generates_with(out, krate, answers2, again),
    ensures
        again is Ok,
        match (out, again->Ok_0) {
            (Item::Impl(b2), Item::Impl(b3)) => b3.self_ty == b2.self_ty && b3.members@
                == b2.members@,
            (Item::Fn(t), Item::Fn(t3)) => t == t3,
            _ => false,
        },
{
    if let Item::Impl(b) = item {
        if let Item::Impl(b2) = out {
            assert forall|k: int| 0 <= k < b2.members@.len() implies member_unmarked(#[trigger] b2.members@[k]) by {
                assert(member_rewrites(b.self_ty@, b.members@[k], krate, answers[k], b2.members@[k]));
                if let Member::Method(m) = b.members@[k] {
                    if let Member::Method(m2) = b2.members@[k] {
                        lemma_no_marker_left(b.self_ty@, m, krate, m2);
                    }
                }
            }
            match again {
                Ok(Item::Impl(b3)) => {
                    assert forall|k: int| 0 <= k < b2.members@.len() implies b3.members@[k]
                        == b2.members@[k] by {
                        assert(member_unmarked(b2.members@[k]));
                        assert(member_rewrites(b2.self_ty@, b2.members@[k], krate, answers2[k], b3.members@[k]));
                    }
                    assert(b3.members@ =~= b2.members@);
                },
                Err(f) => {
                    let k = f.member->Some_0 as int;
                    assert(member_unmarked(b2.members@[k]));
                },
                _ => {},
            }
        }
    }
}

/// A member that the pass leaves as it is: anything but a method, or a method
/// without a marker.
pub open spec fn member_unmarked(a: Member) -> bool {
    match a {
        Member::Method(m) => !has_marker(m.attrs@),
        Member::Other(_) => true,
    }
}

/// A receiver of type `&mut Self` is refused.
pub proof fn lemma_mut_receiver_refused(self_ty: Seq<char>, m: Method, krate: Seq<char>, r: Result<Method, Error>)
    requires
        receiver_view(m) == Some("&mut Self"@),
        has_marker(m.attrs@),
        rewrites_to(self_ty, m, krate, r),
    ensures
        style_of(Some("&mut Self"@)) is None,
        r == Err::<Method, Error>(Error::InvalidReceiver) || r == Err::<Method, Error>(
            Error::MalformedMarkerPayload,
        ),
{
    reveal_strlit("&mut Self");
    reveal_strlit("&Self");
    reveal_strlit("Arc<Self>");
    reveal_strlit("&Arc<Self>");
    reveal_strlit("::Arc<Self>");
    let s = "&mut Self"@;
    reveal_with_fuel(strip_spaces, 10);
    assert(strip_spaces(s) =~= seq!['&', 'm', 'u', 't', 'S', 'e', 'l', 'f']);
    let u = strip_spaces(s);
    assert(u[1] != "&Self"@[1]);
    assert(u[0] != "Arc<Self>"@[0]);
    assert(u[1] != "&Arc<Self>"@[1]);
}

} // verus!
