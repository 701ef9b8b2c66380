use nutt_web_macro::analyze::classify;
use nutt_web_macro::model::AnnotationArg;
use nutt_web_macro::model::HttpMethod;
use nutt_web_macro::model::ParamCategory;
use nutt_web_macro::model::ParamPat;
use nutt_web_macro::model::TransformError;
use nutt_web_macro::model::TypeDesc;
use nutt_web_macro::parse::parse_annotation;
use nutt_web_macro::parse::parse_fn_decl;
use nutt_web_macro::synth::transform;

#[test]
fn parses_signature_into_named_typed_parameters() {
    let d = parse_fn_decl(
        "pub fn create_user(body: CreateUser, app: State<AppCtx>) -> Response { make_user(body, app) }",
    )
    .expect("a function item must parse");
    assert_eq!(d.name, "create_user");
    assert_eq!(d.vis, "pub");
    assert_eq!(d.params.len(), 2);
    match &d.params[0].pat {
        ParamPat::Ident(n) => assert_eq!(n, "body"),
        ParamPat::Other => panic!("plain identifier expected"),
    }
    match &d.params[1].ty {
        TypeDesc::Path { first_segment, rendered } => {
            assert_eq!(first_segment, "State");
            assert_eq!(rendered.replace(' ', ""), "State<AppCtx>");
        },
        TypeDesc::Other { .. } => panic!("path type expected"),
    }
}

#[test]
fn parsed_declaration_transforms_end_to_end() {
    let d = parse_fn_decl("fn login(body: Login, app: State<AppCtx>) -> Response { respond() }")
        .expect("a function item must parse");
    let attr = parse_annotation("\"/users/:id\"").expect("a literal must parse");
    let e = transform("post", d, attr).expect("transformation must succeed");
    assert_eq!(e.route.method, HttpMethod::Post);
    assert_eq!(e.route.path, "/users/:id");
    assert_eq!(e.route.entry, "login");
    assert_eq!(e.call_args, vec!["body".to_string(), "app".to_string()]);
    assert_eq!(e.extractions[0].category, ParamCategory::Body);
    assert_eq!(e.extractions[1].category, ParamCategory::State);
}

#[test]
fn non_function_source_is_rejected() {
    assert!(parse_fn_decl("struct NotAFunction;").is_none());
    assert!(parse_fn_decl("not rust at all !!!").is_none());
}

#[test]
fn reference_type_is_parsed_as_other_and_classified_body() {
    let d = parse_fn_decl("fn raw(buf: &[u8]) { consume(buf) }").expect("must parse");
    assert_eq!(d.params.len(), 1);
    match &d.params[0].ty {
        TypeDesc::Other { rendered } => assert_eq!(rendered.replace(' ', ""), "&[u8]"),
        TypeDesc::Path { .. } => panic!("a reference type is not a path type"),
    }
    assert_eq!(classify(&d.params[0].ty), ParamCategory::Body);
}

#[test]
fn destructured_parameter_aborts_transformation() {
    let d = parse_fn_decl("fn pair((a, b): (u8, u8)) { use_pair(a, b) }").expect("must parse");
    assert_eq!(d.params.len(), 1);
    assert!(matches!(d.params[0].pat, ParamPat::Other));
    let attr = AnnotationArg::StrLit("/pair".to_string());
    let r = transform("get", d, attr);
    assert_eq!(r.err(), Some(TransformError::UnsupportedPattern));
}

#[test]
fn receiver_carries_no_declared_type_and_is_left_out() {
    let d = parse_fn_decl("fn method(self, body: Login) { handle(body) }").expect("must parse");
    assert_eq!(d.params.len(), 1);
    match &d.params[0].pat {
        ParamPat::Ident(n) => assert_eq!(n, "body"),
        ParamPat::Other => panic!("plain identifier expected"),
    }
}

#[test]
fn string_literal_annotation_yields_its_path() {
    match parse_annotation("\"/home\"") {
        Some(AnnotationArg::StrLit(p)) => assert_eq!(p, "/home"),
        other => panic!("a string literal was expected, got {:?}", other),
    }
}

#[test]
fn non_string_literal_annotation_is_marked() {
    assert!(matches!(parse_annotation("42"), Some(AnnotationArg::OtherLit)));
    assert!(matches!(parse_annotation("true"), Some(AnnotationArg::OtherLit)));
    assert!(parse_annotation("fn x() {}").is_none());
}

#[test]
fn full_declaration_text_is_kept_for_redeclaration() {
    let d = parse_fn_decl("fn ping() -> Response { pong() }").expect("must parse");
    assert_eq!(d.source.replace(' ', ""), "fnping()->Response{pong()}");
}
