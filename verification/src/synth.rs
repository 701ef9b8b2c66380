use vstd::prelude::*;

use crate::analyze::{all_named, analyze, category_bucket, named_params};
use crate::model::{
    extractions_view, named_params_view, strings_view, AnalyzedFn, AnnotationArg, AnnotationArgV,
    Extraction, ExtractionV, FnDecl, FnDeclV, HttpMethod, NamedParam, NamedParamV, ParamCategory,
    RouteEntry, RouteEntryV, RouteSpec, TransformError,
};

verus! {

/// The method an annotation keyword selects: exactly the four lower-case
/// keywords `get`, `post`, `put` and `delete` are supported.
pub open spec fn spec_method(kw: Seq<char>) -> Option<HttpMethod> {
    if kw == "get"@ {
        Some(HttpMethod::Get)
    } else if kw == "post"@ {
        Some(HttpMethod::Post)
    } else if kw == "put"@ {
        Some(HttpMethod::Put)
    } else if kw == "delete"@ {
        Some(HttpMethod::Delete)
    } else {
        None
    }
}

/// Maps the annotation keyword to its HTTP method; any other keyword is a
/// fatal configuration error of the transformation.
pub fn method_for_keyword(kw: &str) -> (r: Result<HttpMethod, TransformError>)
    ensures
        r matches Ok(m) ==> spec_method(kw@) == Some(m),
        r is Err <==> spec_method(kw@) is None,
        r is Err ==> r == Err::<HttpMethod, TransformError>(TransformError::UnsupportedMethod),
{
    let k: String = kw.to_owned();
    if k == "get".to_owned() {
        Ok(HttpMethod::Get)
    } else if k == "post".to_owned() {
        Ok(HttpMethod::Post)
    } else if k == "put".to_owned() {
        Ok(HttpMethod::Put)
    } else if k == "delete".to_owned() {
        Ok(HttpMethod::Delete)
    } else {
        Err(TransformError::UnsupportedMethod)
    }
}

/// The extraction statement that obtains one parameter of one category.
pub open spec fn extraction_of(c: ParamCategory, p: NamedParamV) -> ExtractionV {
    ExtractionV { category: c, name: p.name, ty: p.ty }
}

/// The block of extraction statements for one category bucket.
pub open spec fn extraction_block(ps: Seq<NamedParamV>, c: ParamCategory) -> Seq<ExtractionV> {
    ps.map_values(|p: NamedParamV| extraction_of(c, p))
}

/// All extraction statements of the generated entry point, always in the
/// fixed block order Body, State, Session, CookieJar.
pub open spec fn extraction_plan(ps: Seq<NamedParamV>) -> Seq<ExtractionV> {
    extraction_block(category_bucket(ps, ParamCategory::Body), ParamCategory::Body)
        + extraction_block(category_bucket(ps, ParamCategory::State), ParamCategory::State)
        + extraction_block(category_bucket(ps, ParamCategory::Session), ParamCategory::Session)
        + extraction_block(category_bucket(ps, ParamCategory::CookieJar), ParamCategory::CookieJar)
}

/// The argument list of the generated call: one identifier per parameter, in
/// original declaration order.
pub open spec fn arg_names(ps: Seq<NamedParamV>) -> Seq<Seq<char>> {
    ps.map_values(|p: NamedParamV| p.name)
}

/// What the synthesized route entry must be for a declaration, a path and a
/// method: the original's visibility and name, the original re-declared
/// unchanged, the full extraction plan, the call arguments in declaration
/// order, and the route descriptor.
pub open spec fn entry_matches(
    e: RouteEntryV,
    decl: FnDeclV,
    path: Seq<char>,
    m: HttpMethod,
) -> bool {
    let ps = named_params(decl.params);
    &&& e.vis == decl.vis
    &&& e.original == decl
    &&& e.extractions == extraction_plan(ps)
    &&& e.call_args == arg_names(ps)
    &&& e.route.method == m
    &&& e.route.path == path
    &&& e.route.entry == decl.name
}

/// Appends the extraction block of one category bucket.
fn push_block(dst: &mut Vec<Extraction>, ps: &Vec<NamedParam>, c: ParamCategory)
    ensures
        extractions_view(final(dst)@) == extractions_view(old(dst)@) + extraction_block(
            named_params_view(ps@),
            c,
        ),
{
    let ghost base = extractions_view(old(dst)@);
    let mut i: usize = 0;
    while i < ps.len()
        invariant
            i <= ps.len(),
            extractions_view(dst@) == base + extraction_block(
                named_params_view(ps@).take(i as int),
                c,
            ),
        decreases ps.len() - i,
    {
        let p = &ps[i];
        let x = Extraction { category: c, name: p.name.clone(), ty: p.ty.clone() };
        let ghost pre = dst@;
        dst.push(x);
        proof {
            let pv = named_params_view(ps@);
            assert(pv[i as int] == ps@[i as int]@);
            assert(x@ == extraction_of(c, pv[i as int]));
            assert(dst@ == pre.push(x));
            assert(extractions_view(pre.push(x)) =~= extractions_view(pre).push(x@));
            assert(pv.take(i + 1) =~= pv.take(i as int).push(pv[i as int]));
            assert(extraction_block(pv.take(i + 1), c) =~= extraction_block(
                pv.take(i as int),
                c,
            ).push(extraction_of(c, pv[i as int])));
            assert(extractions_view(dst@) =~= base + extraction_block(pv.take(i + 1), c));
        }
        i += 1;
    }
    proof {
        let pv = named_params_view(ps@);
        assert(pv.take(ps.len() as int) =~= pv);
    }
}

/// The names of a parameter list, declaration order kept.
fn name_list(ps: &Vec<NamedParam>) -> (r: Vec<String>)
    ensures
        strings_view(r@) == arg_names(named_params_view(ps@)),
{
    let mut r: Vec<String> = Vec::new();
    let mut i: usize = 0;
    while i < ps.len()
        invariant
            i <= ps.len(),
            strings_view(r@) == arg_names(named_params_view(ps@).take(i as int)),
        decreases ps.len() - i,
    {
        r.push(ps[i].name.clone());
        proof {
            let pv = named_params_view(ps@);
            assert(pv.take(i + 1) =~= pv.take(i as int).push(pv[i as int]));
            assert(arg_names(pv.take(i + 1)) =~= arg_names(pv.take(i as int)).push(
                pv[i as int].name,
            ));
            assert(strings_view(r@) =~= arg_names(pv.take(i + 1)));
        }
        i += 1;
    }
    proof {
        let pv = named_params_view(ps@);
        assert(pv.take(ps.len() as int) =~= pv);
    }
    r
}

/// The handler synthesizer. Turns an analyzed declaration and a method into
/// the route entry: a zero-parameter declaration with the original's
/// visibility and name, the extraction statements in the fixed block order,
/// the call passing every parameter in original declaration order, and the
/// route descriptor (method, path, entry identifier).
pub fn synthesize(a: AnalyzedFn, method: HttpMethod) -> (e: RouteEntry)
    requires
        crate::analyze::classified_from(a@.sig, named_params(a@.decl.params)),
    ensures
        entry_matches(e@, a@.decl, a@.path, method),
{
    let mut extractions: Vec<Extraction> = Vec::new();
    push_block(&mut extractions, &a.sig.body, ParamCategory::Body);
    push_block(&mut extractions, &a.sig.state, ParamCategory::State);
    push_block(&mut extractions, &a.sig.session, ParamCategory::Session);
    push_block(&mut extractions, &a.sig.cookie_jar, ParamCategory::CookieJar);
    let call_args = name_list(&a.sig.params);
    let entry_name = a.decl.name.clone();
    RouteEntry {
        vis: a.decl.vis.clone(),
        original: a.decl,
        extractions,
        call_args,
        route: RouteSpec { method, path: a.path, entry: entry_name },
    }
}

/// The whole transformation for one annotated declaration: analyze the
/// signature under the annotation argument, map the method keyword, and
/// synthesize the route entry. Aborts, with nothing emitted, if the
/// annotation argument is not a string literal, if a parameter is not bound
/// to a plain identifier, or if the keyword is not a supported method.
pub fn transform(method_kw: &str, decl: FnDecl, attr: AnnotationArg) -> (r: Result<
    RouteEntry,
    TransformError,
>)
    ensures
        r is Ok <==> attr@ is StrLit && all_named(decl@.params) && spec_method(method_kw@) is Some,
        attr@ is OtherLit ==> r == Err::<RouteEntry, TransformError>(
            TransformError::AnnotationNotString,
        ),
        attr@ is StrLit && !all_named(decl@.params) ==> r == Err::<RouteEntry, TransformError>(
            TransformError::UnsupportedPattern,
        ),
        attr@ is StrLit && all_named(decl@.params) && spec_method(method_kw@) is None ==> r
            == Err::<RouteEntry, TransformError>(TransformError::UnsupportedMethod),
        r matches Ok(e) ==> {
            &&& attr@ matches AnnotationArgV::StrLit(path) && entry_matches(
                e@,
                decl@,
                path,
                spec_method(method_kw@)->Some_0,
            )
        },
{
    let analyzed = match analyze(decl, attr) {
        Ok(a) => a,
        Err(err) => {
            return Err(err);
        },
    };
    let method = match method_for_keyword(method_kw) {
        Ok(m) => m,
        Err(err) => {
            return Err(err);
        },
    };
    Ok(synthesize(analyzed, method))
}

/// The four method keywords are pairwise distinct and each selects its own
/// HTTP method.
proof fn lemma_method_keywords()
    ensures
        spec_method("get"@) == Some(HttpMethod::Get),
        spec_method("post"@) == Some(HttpMethod::Post),
        spec_method("put"@) == Some(HttpMethod::Put),
        spec_method("delete"@) == Some(HttpMethod::Delete),
{
    reveal_strlit("get");
    reveal_strlit("post");
    reveal_strlit("put");
    reveal_strlit("delete");
    assert("get"@.len() == 3);
    assert("post"@.len() == 4);
    assert("put"@.len() == 3);
    assert("delete"@.len() == 6);
    assert("get"@[0] == 'g');
    assert("put"@[0] == 'p');
}

/// The path a string-literal annotation carries; empty for any other literal.
pub open spec fn annotation_path(a: AnnotationArgV) -> Seq<char> {
    match a {
        AnnotationArgV::StrLit(path) => path,
        AnnotationArgV::OtherLit => Seq::empty(),
    }
}

/// The `get` route annotation: transforms the declaration into a GET route
/// entry for the annotated path.
pub fn get(decl: FnDecl, attr: AnnotationArg) -> (r: Result<RouteEntry, TransformError>)
    ensures
        r is Ok <==> attr@ is StrLit && all_named(decl@.params),
        attr@ is OtherLit ==> r == Err::<RouteEntry, TransformError>(
            TransformError::AnnotationNotString,
        ),
        attr@ is StrLit && !all_named(decl@.params) ==> r == Err::<RouteEntry, TransformError>(
            TransformError::UnsupportedPattern,
        ),
        r matches Ok(e) ==> entry_matches(e@, decl@, annotation_path(attr@), HttpMethod::Get),
{
    transform("get", decl, attr)
}

/// The `post` route annotation: transforms the declaration into a POST route
/// entry for the annotated path.
pub fn post(decl: FnDecl, attr: AnnotationArg) -> (r: Result<RouteEntry, TransformError>)
    ensures
        r is Ok <==> attr@ is StrLit && all_named(decl@.params),
        attr@ is OtherLit ==> r == Err::<RouteEntry, TransformError>(
            TransformError::AnnotationNotString,
        ),
        attr@ is StrLit && !all_named(decl@.params) ==> r == Err::<RouteEntry, TransformError>(
            TransformError::UnsupportedPattern,
        ),
        r matches Ok(e) ==> entry_matches(e@, decl@, annotation_path(attr@), HttpMethod::Post),
{
    proof {
        lemma_method_keywords();
    }
    transform("post", decl, attr)
}

/// The `put` route annotation: transforms the declaration into a PUT route
/// entry for the annotated path.
pub fn put(decl: FnDecl, attr: AnnotationArg) -> (r: Result<RouteEntry, TransformError>)
    ensures
        r is Ok <==> attr@ is StrLit && all_named(decl@.params),
        attr@ is OtherLit ==> r == Err::<RouteEntry, TransformError>(
            TransformError::AnnotationNotString,
        ),
        attr@ is StrLit && !all_named(decl@.params) ==> r == Err::<RouteEntry, TransformError>(
            TransformError::UnsupportedPattern,
        ),
        r matches Ok(e) ==> entry_matches(e@, decl@, annotation_path(attr@), HttpMethod::Put),
{
    proof {
        lemma_method_keywords();
    }
    transform("put", decl, attr)
}

/// The `delete` route annotation: transforms the declaration into a DELETE
/// route entry for the annotated path.
pub fn delete(decl: FnDecl, attr: AnnotationArg) -> (r: Result<RouteEntry, TransformError>)
    ensures
        r is Ok <==> attr@ is StrLit && all_named(decl@.params),
        attr@ is OtherLit ==> r == Err::<RouteEntry, TransformError>(
            TransformError::AnnotationNotString,
        ),
        attr@ is StrLit && !all_named(decl@.params) ==> r == Err::<RouteEntry, TransformError>(
            TransformError::UnsupportedPattern,
        ),
        r matches Ok(e) ==> entry_matches(e@, decl@, annotation_path(attr@), HttpMethod::Delete),
{
    proof {
        lemma_method_keywords();
    }
    transform("delete", decl, attr)
}

} // verus!
