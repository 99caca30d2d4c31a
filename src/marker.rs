//! Finds the `#[module(...)]` marker of a method and translates it into the
//! routing crate's own attribute.
use vstd::prelude::*;
use crate::syntax::{Attr, Error, Method};
use crate::text::{has_prefix, str_equal, str_has_prefix};

verus! {

/// Relies on syn's `Attribute::parse_outer`, run on `text` through
/// `Parser::parse_str`, to tell whether `text` parses as outer attributes.
/// Nothing is assumed of the answer: how `text` is lexed depends on whether
/// the process runs inside the compiler.
#[verifier::external_body]
fn outer_attributes_parse(text: &str) -> (r: bool) {
    syn::parse::Parser::parse_str(syn::Attribute::parse_outer, text).is_ok()
}

/// The attribute's last path segment is `module`.
pub open spec fn is_marker_tag(a: Attr) -> bool {
    a.path@.len() > 0 && a.path@.last()@ == "module"@
}

/// The text between the parentheses of `(...)`.
pub open spec fn parenthesized(args: Seq<char>) -> Option<Seq<char>> {
    if args.len() >= 2 && args[0] == '(' && args.last() == ')' {
        Some(args.subrange(1, args.len() - 1))
    } else {
        None
    }
}

pub open spec fn is_handler_payload(p: Seq<char>) -> bool {
    p == "handler"@ || has_prefix(p, "handler("@)
}

pub open spec fn is_endpoint_payload(p: Seq<char>) -> bool {
    p == "endpoint"@ || has_prefix(p, "endpoint("@)
}

/// The text inside the attribute's parentheses (empty when there are none).
pub open spec fn payload(a: Attr) -> Seq<char> {
    match parenthesized(a.args@) {
        Some(p) => p,
        None => Seq::empty(),
    }
}

/// `a` is a marker: tagged `module`, with a handler or endpoint payload.
pub open spec fn recognized(a: Attr) -> bool {
    is_marker_tag(a) && parenthesized(a.args@).is_some() && (is_handler_payload(payload(a))
        || is_endpoint_payload(payload(a)))
}

/// `i` is the position of the first marker among `attrs`.
pub open spec fn is_first_marker(attrs: Seq<Attr>, i: int) -> bool {
    0 <= i < attrs.len() && recognized(attrs[i]) && forall|j: int|
        0 <= j < i ==> !recognized(#[trigger] attrs[j])
}

pub open spec fn has_marker(attrs: Seq<Attr>) -> bool {
    exists|i: int| is_first_marker(attrs, i)
}

/// The source text of the routing crate's attribute for payload `p`.
pub open spec fn marker_text(krate: Seq<char>, p: Seq<char>) -> Seq<char> {
    if is_handler_payload(p) {
        "#["@ + krate + "::"@ + p + "]"@
    } else {
        "#["@ + krate + "::oapi::"@ + p + "]"@
    }
}

pub open spec fn marker_path(krate: Seq<char>, p: Seq<char>) -> Seq<Seq<char>> {
    if is_handler_payload(p) {
        seq![krate, "handler"@]
    } else {
        seq![krate, "oapi"@, "endpoint"@]
    }
}

/// What follows the keyword of payload `p`: `""` or its `(...)` verbatim.
pub open spec fn marker_args(p: Seq<char>) -> Seq<char> {
    if is_handler_payload(p) {
        p.subrange(7, p.len() as int)
    } else {
        p.subrange(8, p.len() as int)
    }
}

pub open spec fn path_view(a: Attr) -> Seq<Seq<char>> {
    a.path@.map_values(|s: String| s@)
}

/// `t` is the routing crate's attribute for payload `p`.
pub open spec fn is_translation(t: Attr, krate: Seq<char>, p: Seq<char>) -> bool {
    path_view(t) == marker_path(krate, p) && t.args@ == marker_args(p)
}

/// The payload of `a` when `a` is tagged `module` and has parentheses.
fn tagged_payload(a: &Attr) -> (r: Option<&str>)
    ensures
        match r {
            Some(p) => is_marker_tag(*a) && parenthesized(a.args@) == Some(p@),
            None => !(is_marker_tag(*a) && parenthesized(a.args@).is_some()),
        },
{
    let k = a.path.len();
    if k == 0 || !str_equal(a.path[k - 1].as_str(), "module") {
        return None;
    }
    let args = a.args.as_str();
    let n = args.unicode_len();
    if n >= 2 && args.get_char(0) == '(' && args.get_char(n - 1) == ')' {
        Some(args.substring_char(1, n - 1))
    } else {
        None
    }
}

/// Whether `a` is a marker.
fn is_marker(a: &Attr) -> (r: bool)
    ensures
        r == recognized(*a),
{
    match tagged_payload(a) {
        None => false,
        Some(p) => str_equal(p, "handler") || str_has_prefix(p, "handler(") || str_equal(
            p,
            "endpoint",
        ) || str_has_prefix(p, "endpoint("),
    }
}

/// The payload of marker `a`, and whether it is a handler payload.
fn marker_payload(a: &Attr) -> (r: (&str, bool))
    requires
        recognized(*a),
    ensures
        r.0@ == payload(*a),
        r.1 == is_handler_payload(payload(*a)),
{
    let p = tagged_payload(a).unwrap();
    (p, str_equal(p, "handler") || str_has_prefix(p, "handler("))
}

/// The position of the first marker among `attrs`.
pub fn first_marker_index(attrs: &Vec<Attr>) -> (r: Option<usize>)
    ensures
        match r {
            Some(i) => is_first_marker(attrs@, i as int),
            None => !has_marker(attrs@),
        },
{
    let n = attrs.len();
    let mut i: usize = 0;
    while i < n
        invariant
            n == attrs@.len(),
            i <= n,
            forall|j: int| 0 <= j < i ==> !recognized(#[trigger] attrs@[j]),
        decreases n - i,
    {
        if is_marker(&attrs[i]) {
            return Some(i);
        }
        i += 1;
    }
    None
}

/// The source text of the routing crate's attribute that marker `a` stands for.
pub fn marker_source(a: &Attr, krate: &str) -> (r: String)
    requires
        recognized(*a),
    ensures
        r@ == marker_text(krate@, payload(*a)),
{
    let (p, handler) = marker_payload(a);
    let mut text = String::from_str("#[");
    text.append(krate);
    if handler {
        text.append("::");
    } else {
        text.append("::oapi::");
    }
    text.append(p);
    text.append("]");
    text
}

/// Asks syn whether the source text of the first marker among `attrs` parses
/// as an attribute (`true` when there is no marker).
pub(crate) fn syn_accepts_marker(attrs: &Vec<Attr>, krate: &str) -> bool {
    match first_marker_index(attrs) {
        None => true,
        Some(i) => {
            let text = marker_source(&attrs[i], krate);
            outer_attributes_parse(text.as_str())
        },
    }
}

/// Given whether the source text of the marker at `i` parses as an attribute
/// (`accepted`): removes that marker and returns the routing crate's attribute
/// that it stands for, or reports it malformed and leaves `item_fn` as it is.
pub fn apply_marker(item_fn: &mut Method, i: usize, krate: &str, accepted: bool) -> (r: Result<Attr, Error>)
    requires
        i < old(item_fn).attrs@.len(),
        recognized(old(item_fn).attrs@[i as int]),
    ensures
        accepted ==> {
            &&& r is Ok
            &&& is_translation(r->Ok_0, krate@, payload(old(item_fn).attrs@[i as int]))
            &&& final(item_fn).attrs@ == old(item_fn).attrs@.remove(i as int)
            &&& final(item_fn).vis == old(item_fn).vis
            &&& final(item_fn).sig == old(item_fn).sig
            &&& final(item_fn).body == old(item_fn).body
        },
        !accepted ==> r == Err::<Attr, Error>(Error::MalformedMarkerPayload) && *final(item_fn)
            == *old(item_fn),
{
    if !accepted {
        return Err(Error::MalformedMarkerPayload);
    }
    proof {
        reveal_strlit("handler");
        reveal_strlit("handler(");
        reveal_strlit("endpoint");
        reveal_strlit("endpoint(");
    }
    let (p, handler) = marker_payload(&item_fn.attrs[i]);
    let plen = p.unicode_len();
    let mut path: Vec<String> = Vec::new();
    path.push(String::from_str(krate));
    let args;
    if handler {
        path.push(String::from_str("handler"));
        args = String::from_str(p.substring_char(7, plen));
    } else {
        path.push(String::from_str("oapi"));
        path.push(String::from_str("endpoint"));
        args = String::from_str(p.substring_char(8, plen));
    }
    let attr = Attr { path, args };
    proof {
        assert(path_view(attr) =~= marker_path(krate@, payload(old(item_fn).attrs@[i as int])));
    }
    item_fn.attrs.remove(i);
    Ok(attr)
}

/// Removes the first marker of `item_fn` and returns the routing crate's
/// attribute that it stands for, once syn has accepted that attribute's
/// source text; leaves `item_fn` as it is when it has no marker, or when syn
/// refuses the text.
pub fn take_method_macro(item_fn: &mut Method, krate: &str) -> (r: Result<Option<Attr>, Error>)
    ensures
        !has_marker(old(item_fn).attrs@) ==> r == Ok::<Option<Attr>, Error>(None) && *final(item_fn) == *old(item_fn),
        forall|i: int|
            #![trigger is_first_marker(old(item_fn).attrs@, i)]
            is_first_marker(old(item_fn).attrs@, i) ==> {
                ||| {
                    &&& r is Ok
                    &&& r->Ok_0 is Some
                    &&& is_translation(r->Ok_0->Some_0, krate@, payload(old(item_fn).attrs@[i]))
                    &&& final(item_fn).attrs@ == old(item_fn).attrs@.remove(i)
                    &&& final(item_fn).vis == old(item_fn).vis
                    &&& final(item_fn).sig == old(item_fn).sig
                    &&& final(item_fn).body == old(item_fn).body
                }
                ||| r == Err::<Option<Attr>, Error>(Error::MalformedMarkerPayload) && *final(item_fn)
                    == *old(item_fn)
            },
{
    match first_marker_index(&item_fn.attrs) {
        None => Ok(None),
        Some(i) => {
            proof {
                assert forall|j: int| is_first_marker(old(item_fn).attrs@, j) implies j == i by {
                    if j < i {
                        assert(!recognized(old(item_fn).attrs@[j]));
                    } else if j > i {
                        assert(!recognized(old(item_fn).attrs@[i as int]));
                    }
                }
            }
            let text = marker_source(&item_fn.attrs[i], krate);
            let accepted = outer_attributes_parse(text.as_str());
            match apply_marker(item_fn, i, krate, accepted) {
                Ok(attr) => Ok(Some(attr)),
                Err(e) => Err(e),
            }
        },
    }
}

} // verus!
