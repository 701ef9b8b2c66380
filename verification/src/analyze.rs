use vstd::prelude::*;

use crate::model::{
    named_params_view, AnalyzedFn, AnnotationArg, AnnotationArgV, ClassifiedSignature,
    ClassifiedSignatureV, FnDecl, NamedParam, NamedParamV, Param, ParamCategory, ParamPat,
    ParamPatV, ParamV, TransformError, TypeDesc, TypeDescV,
};

verus! {

/// The classification rule: a path type is classified by the exact name of
/// its first path segment — `State`, `CookieSession` and `CookieJar` select
/// their categories, anything else is Body — and every non-path type is Body.
pub open spec fn spec_classify(t: TypeDescV) -> ParamCategory {
    match t {
        TypeDescV::Path { first_segment, .. } => {
            if first_segment == "State"@ {
                ParamCategory::State
            } else if first_segment == "CookieSession"@ {
                ParamCategory::Session
            } else if first_segment == "CookieJar"@ {
                ParamCategory::CookieJar
            } else {
                ParamCategory::Body
            }
        },
        TypeDescV::Other { .. } => ParamCategory::Body,
    }
}

/// The category of an identifier-bound parameter, decided by its type alone.
pub open spec fn param_category(p: NamedParamV) -> ParamCategory {
    spec_classify(p.ty)
}

/// The identifier a pattern binds; empty for a pattern that binds none.
pub open spec fn pat_name(p: ParamPatV) -> Seq<char> {
    match p {
        ParamPatV::Ident(name) => name,
        ParamPatV::Other => Seq::empty(),
    }
}

/// Whether every parameter is bound to a plain identifier.
pub open spec fn all_named(ps: Seq<ParamV>) -> bool {
    forall|i: int| 0 <= i < ps.len() ==> ps[i].pat is Ident
}

/// The identifier-and-type form of one parameter.
pub open spec fn named_param_of(p: ParamV) -> NamedParamV {
    NamedParamV { name: pat_name(p.pat), ty: p.ty }
}

/// The identifier-and-type forms of a parameter list, declaration order kept.
pub open spec fn named_params(ps: Seq<ParamV>) -> Seq<NamedParamV> {
    ps.map_values(|p: ParamV| named_param_of(p))
}

/// The parameters of one category, declaration order kept within the bucket.
pub open spec fn category_bucket(ps: Seq<NamedParamV>, c: ParamCategory) -> Seq<NamedParamV> {
    ps.filter(|p: NamedParamV| param_category(p) == c)
}

/// A classified signature is exactly the given parameter list together with
/// its four category buckets.
pub open spec fn classified_from(sig: ClassifiedSignatureV, ps: Seq<NamedParamV>) -> bool {
    &&& sig.params == ps
    &&& sig.body == category_bucket(ps, ParamCategory::Body)
    &&& sig.state == category_bucket(ps, ParamCategory::State)
    &&& sig.session == category_bucket(ps, ParamCategory::Session)
    &&& sig.cookie_jar == category_bucket(ps, ParamCategory::CookieJar)
}

/// Appending a parameter extends exactly the bucket of its own category and
/// leaves every other bucket unchanged.
proof fn lemma_bucket_push(ps: Seq<NamedParamV>, p: NamedParamV, c: ParamCategory)
    ensures
        category_bucket(ps.push(p), c) == (if param_category(p) == c {
            category_bucket(ps, c).push(p)
        } else {
            category_bucket(ps, c)
        }),
{
    reveal(Seq::filter);
    assert(ps.push(p).drop_last() =~= ps);
    assert(ps.push(p).last() == p);
}

/// Classifies one declared type into its extraction category.
pub fn classify(ty: &TypeDesc) -> (c: ParamCategory)
    ensures
        c == spec_classify(ty@),
{
    match ty {
        TypeDesc::Path { first_segment, .. } => {
            if *first_segment == "State".to_owned() {
                ParamCategory::State
            } else if *first_segment == "CookieSession".to_owned() {
                ParamCategory::Session
            } else if *first_segment == "CookieJar".to_owned() {
                ParamCategory::CookieJar
            } else {
                ParamCategory::Body
            }
        },
        TypeDesc::Other { .. } => ParamCategory::Body,
    }
}

/// The signature analyzer. Checks that the annotation argument is a string
/// literal and that every parameter is bound to a plain identifier, then
/// classifies each parameter by its declared type and groups the parameters
/// into the four category buckets, keeping declaration order everywhere.
/// Returns the declaration unchanged beside the path and the classification.
pub fn analyze(decl: FnDecl, attr: AnnotationArg) -> (r: Result<AnalyzedFn, TransformError>)
    ensures
        r is Ok <==> attr@ is StrLit && all_named(decl@.params),
        attr@ is OtherLit ==> r == Err::<AnalyzedFn, TransformError>(
            TransformError::AnnotationNotString,
        ),
        attr@ is StrLit && !all_named(decl@.params) ==> r == Err::<AnalyzedFn, TransformError>(
            TransformError::UnsupportedPattern,
        ),
        r matches Ok(a) ==> {
            &&& a@.decl == decl@
            &&& (attr@ matches AnnotationArgV::StrLit(path) && a@.path == path)
            &&& classified_from(a@.sig, named_params(decl@.params))
        },
{
    let path: String = match attr {
        AnnotationArg::StrLit(p) => p,
        AnnotationArg::OtherLit => {
            return Err(TransformError::AnnotationNotString);
        },
    };
    let mut params: Vec<NamedParam> = Vec::new();
    let mut body: Vec<NamedParam> = Vec::new();
    let mut state: Vec<NamedParam> = Vec::new();
    let mut session: Vec<NamedParam> = Vec::new();
    let mut cookie_jar: Vec<NamedParam> = Vec::new();
    let ghost all: Seq<ParamV> = decl@.params;
    let mut i: usize = 0;
    while i < decl.params.len()
        invariant
            i <= decl.params.len(),
            all == decl@.params,
            attr@ matches AnnotationArgV::StrLit(q) && q == path@,
            forall|j: int| 0 <= j < i ==> all[j].pat is Ident,
            named_params_view(params@) == named_params(all.take(i as int)),
            named_params_view(body@) == category_bucket(
                named_params(all.take(i as int)),
                ParamCategory::Body,
            ),
            named_params_view(state@) == category_bucket(
                named_params(all.take(i as int)),
                ParamCategory::State,
            ),
            named_params_view(session@) == category_bucket(
                named_params(all.take(i as int)),
                ParamCategory::Session,
            ),
            named_params_view(cookie_jar@) == category_bucket(
                named_params(all.take(i as int)),
                ParamCategory::CookieJar,
            ),
        decreases decl.params.len() - i,
    {
        let p: &Param = &decl.params[i];
        let name: String = match &p.pat {
            ParamPat::Ident(n) => n.clone(),
            ParamPat::Other => {
                assert(!all_named(all));
                return Err(TransformError::UnsupportedPattern);
            },
        };
        let np = NamedParam { name, ty: p.ty.clone() };
        let ghost npv = np@;
        assert(npv == named_param_of(all[i as int]));
        let c = classify(&np.ty);
        params.push(np.clone());
        match c {
            ParamCategory::Body => body.push(np),
            ParamCategory::State => state.push(np),
            ParamCategory::Session => session.push(np),
            ParamCategory::CookieJar => cookie_jar.push(np),
        }
        proof {
            let prefix = named_params(all.take(i as int));
            assert(all.take(i + 1) =~= all.take(i as int).push(all[i as int]));
            assert(named_params(all.take(i + 1)) =~= prefix.push(npv));
            lemma_bucket_push(prefix, npv, ParamCategory::Body);
            lemma_bucket_push(prefix, npv, ParamCategory::State);
            lemma_bucket_push(prefix, npv, ParamCategory::Session);
            lemma_bucket_push(prefix, npv, ParamCategory::CookieJar);
            assert(named_params_view(params@) =~= prefix.push(npv));
            assert(named_params_view(body@) =~= category_bucket(
                named_params(all.take(i + 1)),
                ParamCategory::Body,
            ));
            assert(named_params_view(state@) =~= category_bucket(
                named_params(all.take(i + 1)),
                ParamCategory::State,
            ));
            assert(named_params_view(session@) =~= category_bucket(
                named_params(all.take(i + 1)),
                ParamCategory::Session,
            ));
            assert(named_params_view(cookie_jar@) =~= category_bucket(
                named_params(all.take(i + 1)),
                ParamCategory::CookieJar,
            ));
        }
        i += 1;
    }
    proof {
        assert(all.take(decl.params.len() as int) =~= all);
    }
    Ok(AnalyzedFn {
        decl,
        path,
        sig: ClassifiedSignature { params, body, state, session, cookie_jar },
    })
}

} // verus!
