use vstd::prelude::*;

verus! {

/// How a handler parameter's value is obtained from an incoming request.
#[derive(Clone, Copy, PartialEq, Eq, Structural, Debug)]
pub enum ParamCategory {
    /// Decoded from the request payload.
    Body,
    /// Fetched from shared application state and downcast to the declared type.
    State,
    /// Read from the cookie-backed session.
    Session,
    /// The raw cookie collection, always available.
    CookieJar,
}

/// Position of a category's extraction block in generated code:
/// Body first, then State, then Session, then CookieJar.
pub open spec fn category_rank(c: ParamCategory) -> int {
    match c {
        ParamCategory::Body => 0,
        ParamCategory::State => 1,
        ParamCategory::Session => 2,
        ParamCategory::CookieJar => 3,
    }
}

/// The HTTP method of a route, one of the four supported annotation variants.
#[derive(Clone, Copy, PartialEq, Eq, Structural, Debug)]
pub enum HttpMethod {
    Get,
    Post,
    Put,
    Delete,
}

/// Why a transformation was aborted; each variant is fatal, none is retried.
#[derive(Clone, Copy, PartialEq, Eq, Structural, Debug)]
pub enum TransformError {
    /// The annotation argument was not a string literal.
    AnnotationNotString,
    /// The method keyword is not one of get/post/put/delete.
    UnsupportedMethod,
    /// A parameter is not bound to a plain identifier, so it could not be
    /// forwarded to the generated call.
    UnsupportedPattern,
}

/// Mathematical value of a declared type: either a path type, of which only
/// the first segment decides the extraction category, or any other type form.
pub enum TypeDescV {
    Path { first_segment: Seq<char>, rendered: Seq<char> },
    Other { rendered: Seq<char> },
}

/// A parameter's declared type as written in the signature. `rendered` is the
/// full type text; for a path type `first_segment` is the name of its first
/// path segment, the only part classification reads.
#[derive(Debug)]
pub enum TypeDesc {
    Path { first_segment: String, rendered: String },
    Other { rendered: String },
}

impl Clone for TypeDesc {
    fn clone(&self) -> (r: Self)
        ensures
            r == *self,
    {
        match self {
            TypeDesc::Path { first_segment, rendered } => TypeDesc::Path {
                first_segment: first_segment.clone(),
                rendered: rendered.clone(),
            },
            TypeDesc::Other { rendered } => TypeDesc::Other { rendered: rendered.clone() },
        }
    }
}

impl View for TypeDesc {
    type V = TypeDescV;

    open spec fn view(&self) -> TypeDescV {
        match self {
            TypeDesc::Path { first_segment, rendered } => TypeDescV::Path {
                first_segment: first_segment@,
                rendered: rendered@,
            },
            TypeDesc::Other { rendered } => TypeDescV::Other { rendered: rendered@ },
        }
    }
}

/// Mathematical value of a parameter's binding pattern.
pub enum ParamPatV {
    Ident(Seq<char>),
    Other,
}

/// How a parameter is bound: a plain identifier, or some other pattern
/// (destructuring, `self`, ...) that cannot name a forwarded value.
#[derive(Debug)]
pub enum ParamPat {
    Ident(String),
    Other,
}

impl View for ParamPat {
    type V = ParamPatV;

    open spec fn view(&self) -> ParamPatV {
        match self {
            ParamPat::Ident(name) => ParamPatV::Ident(name@),
            ParamPat::Other => ParamPatV::Other,
        }
    }
}

/// Mathematical value of a typed parameter.
pub struct ParamV {
    pub pat: ParamPatV,
    pub ty: TypeDescV,
}

/// One typed parameter of the annotated function's signature.
#[derive(Debug)]
pub struct Param {
    pub pat: ParamPat,
    pub ty: TypeDesc,
}

impl View for Param {
    type V = ParamV;

    open spec fn view(&self) -> ParamV {
        ParamV { pat: self.pat@, ty: self.ty@ }
    }
}

/// Mathematical value of an identifier-bound parameter.
pub struct NamedParamV {
    pub name: Seq<char>,
    pub ty: TypeDescV,
}

/// A parameter known to be bound to a plain identifier.
#[derive(Debug)]
pub struct NamedParam {
    pub name: String,
    pub ty: TypeDesc,
}

impl Clone for NamedParam {
    fn clone(&self) -> (r: Self)
        ensures
            r == *self,
    {
        NamedParam { name: self.name.clone(), ty: self.ty.clone() }
    }
}

impl View for NamedParam {
    type V = NamedParamV;

    open spec fn view(&self) -> NamedParamV {
        NamedParamV { name: self.name@, ty: self.ty@ }
    }
}

/// Mathematical value of the annotation argument.
pub enum AnnotationArgV {
    StrLit(Seq<char>),
    OtherLit,
}

/// The single argument of a route annotation: the path must be a string
/// literal; any other literal form aborts the transformation.
#[derive(Debug)]
pub enum AnnotationArg {
    StrLit(String),
    OtherLit,
}

impl View for AnnotationArg {
    type V = AnnotationArgV;

    open spec fn view(&self) -> AnnotationArgV {
        match self {
            AnnotationArg::StrLit(path) => AnnotationArgV::StrLit(path@),
            AnnotationArg::OtherLit => AnnotationArgV::OtherLit,
        }
    }
}

/// The views of a parameter list.
pub open spec fn params_view(ps: Seq<Param>) -> Seq<ParamV> {
    ps.map_values(|p: Param| p@)
}

/// The views of an identifier-bound parameter list.
pub open spec fn named_params_view(ps: Seq<NamedParam>) -> Seq<NamedParamV> {
    ps.map_values(|p: NamedParam| p@)
}

/// The views of a list of extraction statements.
pub open spec fn extractions_view(es: Seq<Extraction>) -> Seq<ExtractionV> {
    es.map_values(|e: Extraction| e@)
}

/// The views of a list of argument names.
pub open spec fn strings_view(ss: Seq<String>) -> Seq<Seq<char>> {
    ss.map_values(|s: String| s@)
}

/// Mathematical value of a function declaration.
pub struct FnDeclV {
    pub vis: Seq<char>,
    pub name: Seq<char>,
    pub params: Seq<ParamV>,
    pub source: Seq<char>,
}

/// The annotated function declaration: its visibility and name, its typed
/// parameters in declaration order, and its full source text, which the
/// generated entry point re-declares locally.
#[derive(Debug)]
pub struct FnDecl {
    pub vis: String,
    pub name: String,
    pub params: Vec<Param>,
    pub source: String,
}

impl View for FnDecl {
    type V = FnDeclV;

    open spec fn view(&self) -> FnDeclV {
        FnDeclV {
            vis: self.vis@,
            name: self.name@,
            params: params_view(self.params@),
            source: self.source@,
        }
    }
}

/// Mathematical value of a classified signature.
pub struct ClassifiedSignatureV {
    pub params: Seq<NamedParamV>,
    pub body: Seq<NamedParamV>,
    pub state: Seq<NamedParamV>,
    pub session: Seq<NamedParamV>,
    pub cookie_jar: Seq<NamedParamV>,
}

/// The analyzer's output: all parameters in declaration order, and the four
/// category buckets, each keeping declaration order within the bucket.
#[derive(Debug)]
pub struct ClassifiedSignature {
    pub params: Vec<NamedParam>,
    pub body: Vec<NamedParam>,
    pub state: Vec<NamedParam>,
    pub session: Vec<NamedParam>,
    pub cookie_jar: Vec<NamedParam>,
}

impl View for ClassifiedSignature {
    type V = ClassifiedSignatureV;

    open spec fn view(&self) -> ClassifiedSignatureV {
        ClassifiedSignatureV {
            params: named_params_view(self.params@),
            body: named_params_view(self.body@),
            state: named_params_view(self.state@),
            session: named_params_view(self.session@),
            cookie_jar: named_params_view(self.cookie_jar@),
        }
    }
}

/// Mathematical value of the analyzer's full result.
pub struct AnalyzedFnV {
    pub decl: FnDeclV,
    pub path: Seq<char>,
    pub sig: ClassifiedSignatureV,
}

/// Everything the synthesizer needs: the declaration unchanged, the path
/// taken from the annotation, and the classified signature.
#[derive(Debug)]
pub struct AnalyzedFn {
    pub decl: FnDecl,
    pub path: String,
    pub sig: ClassifiedSignature,
}

impl View for AnalyzedFn {
    type V = AnalyzedFnV;

    open spec fn view(&self) -> AnalyzedFnV {
        AnalyzedFnV { decl: self.decl@, path: self.path@, sig: self.sig@ }
    }
}

/// Mathematical value of a route descriptor.
pub struct RouteSpecV {
    pub method: HttpMethod,
    pub path: Seq<char>,
    pub entry: Seq<char>,
}

/// The route descriptor handed to the router: method, path template, and the
/// identifier of the generated entry point.
#[derive(Debug)]
pub struct RouteSpec {
    pub method: HttpMethod,
    pub path: String,
    pub entry: String,
}

impl View for RouteSpec {
    type V = RouteSpecV;

    open spec fn view(&self) -> RouteSpecV {
        RouteSpecV { method: self.method, path: self.path@, entry: self.entry@ }
    }
}

/// Mathematical value of one extraction statement.
pub struct ExtractionV {
    pub category: ParamCategory,
    pub name: Seq<char>,
    pub ty: TypeDescV,
}

/// One extraction statement of the generated entry point: obtain the value
/// named `name` of declared type `ty` the way `category` prescribes.
#[derive(Debug)]
pub struct Extraction {
    pub category: ParamCategory,
    pub name: String,
    pub ty: TypeDesc,
}

impl View for Extraction {
    type V = ExtractionV;

    open spec fn view(&self) -> ExtractionV {
        ExtractionV { category: self.category, name: self.name@, ty: self.ty@ }
    }
}

/// Mathematical value of a synthesized route entry.
pub struct RouteEntryV {
    pub vis: Seq<char>,
    pub original: FnDeclV,
    pub extractions: Seq<ExtractionV>,
    pub call_args: Seq<Seq<char>>,
    pub route: RouteSpecV,
}

/// The synthesized declaration: a zero-parameter function with the original
/// function's visibility and name whose body re-declares the original,
/// performs the extractions in order, invokes the original with `call_args`
/// in declaration order, and returns the route descriptor.
#[derive(Debug)]
pub struct RouteEntry {
    pub vis: String,
    pub original: FnDecl,
    pub extractions: Vec<Extraction>,
    pub call_args: Vec<String>,
    pub route: RouteSpec,
}

impl View for RouteEntry {
    type V = RouteEntryV;

    open spec fn view(&self) -> RouteEntryV {
        RouteEntryV {
            vis: self.vis@,
            original: self.original@,
            extractions: extractions_view(self.extractions@),
            call_args: strings_view(self.call_args@),
            route: self.route@,
        }
    }
}

} // verus!
