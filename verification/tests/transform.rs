use nutt_web_macro::model::AnnotationArg;
use nutt_web_macro::model::FnDecl;
use nutt_web_macro::model::HttpMethod;
use nutt_web_macro::model::Param;
use nutt_web_macro::model::ParamCategory;
use nutt_web_macro::model::ParamPat;
use nutt_web_macro::model::TransformError;
use nutt_web_macro::model::TypeDesc;
use nutt_web_macro::synth::transform;

fn path_param(name: &str, first_segment: &str, rendered: &str) -> Param {
    Param {
        pat: ParamPat::Ident(name.to_string()),
        ty: TypeDesc::Path {
            first_segment: first_segment.to_string(),
            rendered: rendered.to_string(),
        },
    }
}

fn decl(name: &str, params: Vec<Param>) -> FnDecl {
    FnDecl {
        vis: String::new(),
        name: name.to_string(),
        params,
        source: format!("fn {}() {{}}", name),
    }
}

#[test]
fn post_body_then_state() {
    let d = decl(
        "create_user",
        vec![
            path_param("body", "CreateUser", "CreateUser"),
            path_param("app", "State", "State<AppCtx>"),
        ],
    );
    let attr = AnnotationArg::StrLit("/users/:id".to_string());
    let e = transform("post", d, attr).expect("transformation must succeed");
    assert_eq!(e.extractions.len(), 2);
    assert_eq!(e.extractions[0].category, ParamCategory::Body);
    assert_eq!(e.extractions[0].name, "body");
    assert_eq!(e.extractions[1].category, ParamCategory::State);
    assert_eq!(e.extractions[1].name, "app");
    match &e.extractions[1].ty {
        TypeDesc::Path { first_segment, rendered } => {
            assert_eq!(first_segment, "State");
            assert_eq!(rendered, "State<AppCtx>");
        },
        TypeDesc::Other { .. } => panic!("state parameter must keep its path type"),
    }
    assert_eq!(e.call_args, vec!["body".to_string(), "app".to_string()]);
    assert_eq!(e.route.method, HttpMethod::Post);
    assert_eq!(e.route.path, "/users/:id");
    assert_eq!(e.route.entry, "create_user");
    assert_eq!(e.original.name, "create_user");
}

#[test]
fn cookie_jar_only_has_single_extraction() {
    let d = decl("jar_route", vec![path_param("jar", "CookieJar", "CookieJar")]);
    let attr = AnnotationArg::StrLit("/jar".to_string());
    let e = transform("get", d, attr).expect("transformation must succeed");
    assert_eq!(e.extractions.len(), 1);
    assert_eq!(e.extractions[0].category, ParamCategory::CookieJar);
    assert_eq!(e.extractions[0].name, "jar");
    assert!(e.extractions.iter().all(|x| x.category != ParamCategory::Body));
    assert!(e.extractions.iter().all(|x| x.category != ParamCategory::State));
    assert!(e.extractions.iter().all(|x| x.category != ParamCategory::Session));
    assert_eq!(e.call_args, vec!["jar".to_string()]);
    assert_eq!(e.route.method, HttpMethod::Get);
}

#[test]
fn unsupported_method_keyword_aborts() {
    let d = decl("patched", vec![path_param("body", "Update", "Update")]);
    let attr = AnnotationArg::StrLit("/p".to_string());
    let r = transform("patch", d, attr);
    assert_eq!(r.err(), Some(TransformError::UnsupportedMethod));
}

#[test]
fn non_string_annotation_aborts() {
    let d = decl("login", vec![path_param("body", "Login", "Login")]);
    let r = transform("get", d, AnnotationArg::OtherLit);
    assert_eq!(r.err(), Some(TransformError::AnnotationNotString));
}

#[test]
fn non_identifier_pattern_aborts() {
    let d = decl(
        "destructured",
        vec![Param {
            pat: ParamPat::Other,
            ty: TypeDesc::Path { first_segment: "Pair".to_string(), rendered: "Pair".to_string() },
        }],
    );
    let attr = AnnotationArg::StrLit("/d".to_string());
    let r = transform("get", d, attr);
    assert_eq!(r.err(), Some(TransformError::UnsupportedPattern));
}

#[test]
fn blocks_reordered_but_call_in_declaration_order() {
    let d = decl(
        "mixed",
        vec![
            path_param("jar", "CookieJar", "CookieJar"),
            path_param("data", "Thing", "Thing"),
            path_param("sess", "CookieSession", "CookieSession<U>"),
            path_param("app", "State", "State<Ctx>"),
        ],
    );
    let attr = AnnotationArg::StrLit("/mixed".to_string());
    let e = transform("put", d, attr).expect("transformation must succeed");
    let cats: Vec<ParamCategory> = e.extractions.iter().map(|x| x.category).collect();
    assert_eq!(
        cats,
        vec![
            ParamCategory::Body,
            ParamCategory::State,
            ParamCategory::Session,
            ParamCategory::CookieJar,
        ]
    );
    let names: Vec<&str> = e.extractions.iter().map(|x| x.name.as_str()).collect();
    assert_eq!(names, vec!["data", "app", "sess", "jar"]);
    assert_eq!(
        e.call_args,
        vec!["jar".to_string(), "data".to_string(), "sess".to_string(), "app".to_string()]
    );
    assert_eq!(e.route.method, HttpMethod::Put);
}

#[test]
fn unseen_type_name_defaults_to_body() {
    let d = decl(
        "fresh",
        vec![
            path_param("x", "NeverSeenBefore", "NeverSeenBefore"),
            path_param("y", "state", "state"),
            Param {
                pat: ParamPat::Ident("r".to_string()),
                ty: TypeDesc::Other { rendered: "&str".to_string() },
            },
        ],
    );
    let attr = AnnotationArg::StrLit("/f".to_string());
    let e = transform("delete", d, attr).expect("transformation must succeed");
    assert_eq!(e.extractions.len(), 3);
    assert!(e.extractions.iter().all(|x| x.category == ParamCategory::Body));
    assert_eq!(e.route.method, HttpMethod::Delete);
}

#[test]
fn state_after_body_parameters_is_still_state() {
    let d = decl(
        "late_state",
        vec![
            path_param("a", "A", "A"),
            path_param("b", "B", "B"),
            path_param("app", "State", "State<Ctx>"),
        ],
    );
    let attr = AnnotationArg::StrLit("/s".to_string());
    let e = transform("get", d, attr).expect("transformation must succeed");
    assert_eq!(e.extractions[2].category, ParamCategory::State);
    assert_eq!(e.extractions[2].name, "app");
}

#[test]
fn visibility_and_declaration_pass_through() {
    let mut d = decl("open_route", vec![]);
    d.vis = "pub".to_string();
    let attr = AnnotationArg::StrLit("/".to_string());
    let e = transform("get", d, attr).expect("transformation must succeed");
    assert_eq!(e.vis, "pub");
    assert_eq!(e.original.vis, "pub");
    assert_eq!(e.original.source, "fn open_route() {}");
    assert!(e.extractions.is_empty());
    assert!(e.call_args.is_empty());
}
