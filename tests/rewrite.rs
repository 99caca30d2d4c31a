use handler_module::{
    generate, generate_with, rewrite_method, rewrite_with, take_method_macro, Attr, Body, Construct, Error, Failure, ImplBlock, Item,
    Member, Method, MethodStyle, Output, Signature,
};

fn attr(path: &[&str], args: &str) -> Attr {
    Attr {
        path: path.iter().map(|s| s.to_string()).collect(),
        args: args.to_string(),
    }
}

fn method(attrs: Vec<Attr>, name: &str, receiver: Option<&str>) -> Method {
    Method {
        attrs,
        vis: "pub".to_string(),
        sig: Signature {
            asyncness: false,
            ident: name.to_string(),
            receiver: receiver.map(|r| r.to_string()),
            inputs: vec!["res: &mut Response".to_string()],
            output: Output::Tokens(String::new()),
        },
        body: Body::Block("{ res.render(\"hi\"); }".to_string()),
    }
}

fn doc(text: &str) -> Attr {
    attr(&["doc"], &format!("= \"{}\"", text))
}

#[test]
fn unmarked_method_is_unchanged() {
    let m = method(vec![doc("a"), attr(&["inline"], "")], "get", Some("&Self"));
    let expected = method(vec![doc("a"), attr(&["inline"], "")], "get", Some("&Self"));
    assert_eq!(rewrite_method(&"Api".to_string(), m, "salvo"), Ok(expected));
}

#[test]
fn unrecognized_marker_payload_is_left_alone() {
    let m = method(vec![attr(&["module"], "(other)")], "get", Some("&mut Self"));
    let expected = method(vec![attr(&["module"], "(other)")], "get", Some("&mut Self"));
    assert_eq!(rewrite_method(&"Api".to_string(), m, "salvo"), Ok(expected));
}

#[test]
fn free_handler_becomes_factory() {
    let m = method(vec![attr(&["module"], "(handler)")], "hello", None);
    let out = rewrite_method(&"Api".to_string(), m, "salvo").unwrap();
    assert_eq!(out.vis, "pub");
    assert_eq!(out.sig.ident, "hello");
    assert!(!out.sig.asyncness);
    assert_eq!(out.sig.receiver, None);
    assert!(out.sig.inputs.is_empty());
    assert_eq!(out.sig.output, Output::Handler("salvo".to_string()));
    assert!(out.attrs.is_empty());
    match out.body {
        Body::Factory(inner) => {
            assert_eq!(inner.attrs, vec![attr(&["salvo", "handler"], "")]);
            assert!(inner.sig.asyncness);
            assert_eq!(inner.sig.ident, "hello");
            assert_eq!(inner.sig.inputs, vec!["res: &mut Response".to_string()]);
            assert_eq!(inner.body, Body::Block("{ res.render(\"hi\"); }".to_string()));
        }
        other => panic!("unexpected body {:?}", other),
    }
}

#[test]
fn free_handler_keeps_arguments_verbatim() {
    let m = method(vec![attr(&["module"], "(handler(name = \"x\"))")], "hello", None);
    let out = rewrite_method(&"Api".to_string(), m, "salvo").unwrap();
    match out.body {
        Body::Factory(inner) => {
            assert_eq!(inner.attrs, vec![attr(&["salvo", "handler"], "(name = \"x\")")]);
        }
        other => panic!("unexpected body {:?}", other),
    }
}

#[test]
fn ref_endpoint_gets_wrapper() {
    let m = method(vec![attr(&["module"], "(endpoint(foo=1))")], "list", Some("&Self"));
    let out = rewrite_method(&"Api".to_string(), m, "salvo").unwrap();
    assert_eq!(out.sig.receiver, Some("&Self".to_string()));
    assert_eq!(out.sig.ident, "list");
    assert!(out.sig.inputs.is_empty());
    match out.body {
        Body::Wrapper(w) => {
            assert_eq!(w.owner, "Api");
            assert_eq!(w.marker, attr(&["salvo", "oapi", "endpoint"], "(foo=1)"));
            assert_eq!(w.construct, Construct::NewArc);
            assert_eq!(w.method.sig.ident, "handle");
            assert_eq!(w.method.sig.receiver, Some("&Self".to_string()));
            assert!(w.method.sig.asyncness);
            assert!(w.method.attrs.is_empty());
            assert_eq!(w.method.sig.inputs, vec!["res: &mut Response".to_string()]);
        }
        other => panic!("unexpected body {:?}", other),
    }
}

#[test]
fn shared_receiver_clones_handle() {
    for recv in ["Arc<Self>", "&Arc<Self>", "& std :: sync :: Arc < Self >", "Arc < Self >"] {
        let m = method(vec![attr(&["module"], "(handler)")], "get", Some(recv));
        let out = rewrite_method(&"Api".to_string(), m, "salvo").unwrap();
        assert_eq!(out.sig.receiver, Some("&::std::sync::Arc<Self>".to_string()));
        match out.body {
            Body::Wrapper(w) => {
                assert_eq!(w.construct, Construct::CloneArc);
                assert_eq!(w.marker, attr(&["salvo", "handler"], ""));
            }
            other => panic!("unexpected body {:?}", other),
        }
    }
}

#[test]
fn other_attributes_move_to_factory_in_order() {
    let m = method(
        vec![doc("first"), attr(&["module"], "(endpoint)"), attr(&["allow"], "(dead_code)"), doc("last")],
        "get",
        Some("& Self"),
    );
    let out = rewrite_method(&"Api".to_string(), m, "salvo").unwrap();
    assert_eq!(out.attrs, vec![doc("first"), attr(&["allow"], "(dead_code)"), doc("last")]);
    match out.body {
        Body::Wrapper(w) => {
            assert!(w.method.attrs.is_empty());
            assert_eq!(w.marker, attr(&["salvo", "oapi", "endpoint"], ""));
        }
        other => panic!("unexpected body {:?}", other),
    }
}

#[test]
fn mut_receiver_is_refused() {
    let m = method(vec![attr(&["module"], "(handler)")], "get", Some("&mut Self"));
    assert_eq!(rewrite_method(&"Api".to_string(), m, "salvo"), Err(Error::InvalidReceiver));
    let plain = method(vec![], "get", Some("&mut Self"));
    assert_eq!(MethodStyle::from_method(&plain), Err(Error::InvalidReceiver));
}

#[test]
fn receiver_styles() {
    assert_eq!(MethodStyle::from_method(&method(vec![], "f", None)), Ok(MethodStyle::NoSelf));
    assert_eq!(MethodStyle::from_method(&method(vec![], "f", Some("&Self"))), Ok(MethodStyle::RefSelf));
    assert_eq!(
        MethodStyle::from_method(&method(vec![], "f", Some("sync::Arc<Self>"))),
        Ok(MethodStyle::ArcSelf)
    );
    assert_eq!(MethodStyle::from_method(&method(vec![], "f", Some("Self"))), Err(Error::InvalidReceiver));
    assert_eq!(MethodStyle::from_method(&method(vec![], "f", Some("Box<Self>"))), Err(Error::InvalidReceiver));
}

#[test]
fn misplaced_annotation_is_refused() {
    assert_eq!(
        generate(Item::Other("const X: u8 = 1;".to_string()), "salvo"),
        Err(Failure { error: Error::MisplacedAnnotation, member: None })
    );
    assert_eq!(
        generate(Item::Other("struct S;".to_string()), "salvo"),
        Err(Failure { error: Error::MisplacedAnnotation, member: None })
    );
    assert_eq!(
        Error::MisplacedAnnotation.message(),
        "#[module] must be added to an `impl` block"
    );
}

#[test]
fn free_function_passes_through() {
    let f = "fn f() {}".to_string();
    assert_eq!(generate(Item::Fn(f.clone()), "salvo"), Ok(Item::Fn(f)));
}

#[test]
fn malformed_marker_payload() {
    let m = method(vec![attr(&["module"], "(handler(a)")], "get", None);
    let expected = method(vec![attr(&["module"], "(handler(a)")], "get", None);
    let mut taken = method(vec![attr(&["module"], "(handler(a)")], "get", None);
    assert_eq!(take_method_macro(&mut taken, "salvo"), Err(Error::MalformedMarkerPayload));
    assert_eq!(taken, expected);
    assert_eq!(rewrite_method(&"Api".to_string(), m, "salvo"), Err(Error::MalformedMarkerPayload));
}

#[test]
fn only_first_marker_is_taken() {
    let mut m = method(
        vec![attr(&["module"], "(endpoint)"), attr(&["salvo", "module"], "(handler)")],
        "get",
        None,
    );
    let taken = take_method_macro(&mut m, "salvo").unwrap();
    assert_eq!(taken, Some(attr(&["salvo", "oapi", "endpoint"], "")));
    assert_eq!(m.attrs, vec![attr(&["salvo", "module"], "(handler)")]);
}

fn sample_impl() -> Item {
    Item::Impl(ImplBlock {
        self_ty: "Api".to_string(),
        members: vec![
            Member::Other("const N: usize = 1;".to_string()),
            Member::Method(method(vec![doc("x"), attr(&["module"], "(handler)")], "a", Some("&Self"))),
            Member::Method(method(vec![], "b", Some("&mut Self"))),
            Member::Method(method(vec![attr(&["module"], "(endpoint(foo=1))")], "c", None)),
        ],
    })
}

#[test]
fn generate_rewrites_each_method_in_order() {
    let out = generate(sample_impl(), "salvo").unwrap();
    match &out {
        Item::Impl(b) => {
            assert_eq!(b.self_ty, "Api");
            assert_eq!(b.members.len(), 4);
            assert_eq!(b.members[0], Member::Other("const N: usize = 1;".to_string()));
            assert_eq!(b.members[2], Member::Method(method(vec![], "b", Some("&mut Self"))));
            match &b.members[1] {
                Member::Method(m) => {
                    assert_eq!(m.attrs, vec![doc("x")]);
                    assert!(matches!(m.body, Body::Wrapper(_)));
                }
                other => panic!("unexpected member {:?}", other),
            }
            match &b.members[3] {
                Member::Method(m) => assert!(matches!(m.body, Body::Factory(_))),
                other => panic!("unexpected member {:?}", other),
            }
        }
        other => panic!("unexpected item {:?}", other),
    }
}

#[test]
fn generate_is_idempotent() {
    let once = generate(sample_impl(), "salvo").unwrap();
    let twice = generate(generate(sample_impl(), "salvo").unwrap(), "salvo").unwrap();
    assert_eq!(once, twice);
}

#[test]
fn generate_reports_first_error() {
    let item = Item::Impl(ImplBlock {
        self_ty: "Api".to_string(),
        members: vec![
            Member::Method(method(vec![attr(&["module"], "(handler)")], "a", Some("Box<Self>"))),
            Member::Method(method(vec![attr(&["module"], "(handler(")], "b", None)),
        ],
    });
    assert_eq!(
        generate(item, "salvo"),
        Err(Failure { error: Error::InvalidReceiver, member: Some(0) })
    );
}

#[test]
fn generate_names_failing_member() {
    let item = Item::Impl(ImplBlock {
        self_ty: "Api".to_string(),
        members: vec![
            Member::Other("type T = u8;".to_string()),
            Member::Method(method(vec![attr(&["module"], "(handler)")], "a", Some("&Self"))),
            Member::Method(method(vec![attr(&["module"], "(handler(a)")], "b", None)),
        ],
    });
    assert_eq!(
        generate(item, "salvo"),
        Err(Failure { error: Error::MalformedMarkerPayload, member: Some(2) })
    );
}

#[test]
fn rewrite_with_follows_the_answer() {
    let api = "Api".to_string();
    let refused = rewrite_with(&api, method(vec![attr(&["module"], "(handler)")], "get", None), "salvo", false);
    assert_eq!(refused, Err(Error::MalformedMarkerPayload));
    let out = rewrite_with(&api, method(vec![attr(&["module"], "(handler)")], "get", None), "salvo", true).unwrap();
    assert!(matches!(out.body, Body::Factory(_)));
    let bad_receiver =
        rewrite_with(&api, method(vec![attr(&["module"], "(handler)")], "get", Some("Box<Self>")), "salvo", true);
    assert_eq!(bad_receiver, Err(Error::InvalidReceiver));
    let unmarked = rewrite_with(&api, method(vec![doc("d")], "get", Some("Box<Self>")), "salvo", false);
    assert_eq!(unmarked, Ok(method(vec![doc("d")], "get", Some("Box<Self>"))));
}

#[test]
fn generate_with_reports_first_failure() {
    let item = || {
        Item::Impl(ImplBlock {
            self_ty: "Api".to_string(),
            members: vec![
                Member::Method(method(vec![attr(&["module"], "(handler)")], "a", Some("&Self"))),
                Member::Method(method(vec![attr(&["module"], "(endpoint)")], "b", None)),
                Member::Method(method(vec![attr(&["module"], "(handler)")], "c", Some("Box<Self>"))),
            ],
        })
    };
    assert_eq!(
        generate_with(item(), "salvo", &vec![true, false, true]),
        Err(Failure { error: Error::MalformedMarkerPayload, member: Some(1) })
    );
    assert_eq!(
        generate_with(item(), "salvo", &vec![true, true, true]),
        Err(Failure { error: Error::InvalidReceiver, member: Some(2) })
    );
    assert_eq!(
        generate_with(item(), "salvo", &vec![true, true, false]),
        Err(Failure { error: Error::MalformedMarkerPayload, member: Some(2) })
    );
}

#[test]
fn receiver_whitespace_of_any_kind_is_ignored() {
    for recv in ["&\u{A0}Self", "&\u{0B}Self", "&\u{3000}Self", "&\tSelf\n"] {
        assert_eq!(MethodStyle::from_method(&method(vec![], "f", Some(recv))), Ok(MethodStyle::RefSelf));
    }
    assert_eq!(
        MethodStyle::from_method(&method(vec![], "f", Some("Arc<\u{2009}Self>"))),
        Ok(MethodStyle::ArcSelf)
    );
}
