use vstd::prelude::*;

use crate::model::{AnnotationArg, AnnotationArgV, FnDecl, FnDeclV, Param, ParamPat, TypeDesc};
use quote::ToTokens;

verus! {

/// The model of the function declaration that the source text parses to —
/// with `self` receivers left out, since they carry no declared type — or
/// None where the text is not a function item. The parser pins proc-macro2's
/// fallback backend, so lexing and the rendered-text fields alike are
/// functions of the text alone; what the model is on given text only the
/// trusted parser states.
pub uninterp spec fn parsed_decl_of(src: Seq<char>) -> Option<FnDeclV>;

/// The model of the literal that the annotation argument's source text
/// parses to — the path of a string literal, the other-literal marker for
/// every other literal kind — or None where no single literal parses. The
/// parser pins proc-macro2's fallback backend, so the result is a function
/// of the text alone.
pub uninterp spec fn lit_arg_of(src: Seq<char>) -> Option<AnnotationArgV>;

#[verifier::external_type_specification]
#[verifier::external_body]
pub struct ExFnArg(syn::FnArg);

/// Relies on syn's FnArg, Pat and PatIdent: the identifier a plain
/// identifier pattern binds, the other-pattern marker for any other
/// pattern, None for a `self` receiver.
#[verifier::external_body]
fn arg_pattern(arg: &syn::FnArg) -> (r: Option<ParamPat>) {
    match arg {
        syn::FnArg::Typed(pt) => match &*pt.pat {
            syn::Pat::Ident(pi) => Some(ParamPat::Ident(pi.ident.to_string())),
            _ => Some(ParamPat::Other),
        },
        syn::FnArg::Receiver(_) => None,
    }
}

/// Relies on syn's Type, Path and PathSegment and on quote's ToTokens: a
/// path type's first segment name and full text, any other type's full text
/// alone, None for a `self` receiver.
#[verifier::external_body]
fn arg_type(arg: &syn::FnArg) -> (r: Option<TypeDesc>) {
    let pt = match arg {
        syn::FnArg::Typed(pt) => pt,
        syn::FnArg::Receiver(_) => return None,
    };
    let rendered = pt.ty.to_token_stream().to_string();
    Some(match &*pt.ty {
        syn::Type::Path(tp) => TypeDesc::Path {
            first_segment: match tp.path.segments.first() {
                Some(seg) => seg.ident.to_string(),
                None => String::new(),
            },
            rendered,
        },
        _ => TypeDesc::Other { rendered },
    })
}

/// Relies on syn::parse_str::<syn::ItemFn>, on syn's Signature and
/// Punctuated, on proc-macro2's Ident and fallback backend, and on quote's
/// ToTokens: parses the source text of one function item and converts it to
/// the library's model — visibility, name, the typed parameters in
/// declaration order (`self` receivers carry no declared type and are left
/// out), and the declaration's own text. `fallback::force` pins the backend,
/// so rendering does not depend on whether the call runs inside a macro
/// expansion and the result is a function of the text alone, named
/// `parsed_decl_of`.
#[verifier::external_body]
fn parse_and_convert(src: &str) -> (r: Option<FnDecl>)
    ensures
        match r {
            Some(d) => parsed_decl_of(src@) == Some(d@),
            None => parsed_decl_of(src@) is None,
        },
{
    proc_macro2::fallback::force();
    let item = match syn::parse_str::<syn::ItemFn>(src) {
        Ok(item) => item,
        Err(_) => return None,
    };
    let params = item.sig.inputs.iter().filter_map(|a| match (arg_pattern(a), arg_type(a)) {
        (Some(pat), Some(ty)) => Some(Param { pat, ty }),
        _ => None,
    }).collect();
    Some(FnDecl {
        vis: item.vis.to_token_stream().to_string(),
        name: item.sig.ident.to_string(),
        params,
        source: item.to_token_stream().to_string(),
    })
}

/// Relies on syn::parse_str::<syn::Lit>, syn::LitStr::value and
/// proc-macro2's fallback backend: parses the annotation argument as one
/// Rust literal — the value of a string literal, the other-literal marker
/// for every other literal kind, None where no single literal parses.
/// `fallback::force` pins the backend, so the same texts lex the same way
/// everywhere and the result is a function of the text alone, named
/// `lit_arg_of`.
#[verifier::external_body]
fn parse_lit(src: &str) -> (r: Option<AnnotationArg>)
    ensures
        match r {
            Some(a) => lit_arg_of(src@) == Some(a@),
            None => lit_arg_of(src@) is None,
        },
{
    proc_macro2::fallback::force();
    match syn::parse_str::<syn::Lit>(src) {
        Ok(syn::Lit::Str(lit)) => Some(AnnotationArg::StrLit(lit.value())),
        Ok(_) => Some(AnnotationArg::OtherLit),
        Err(_) => None,
    }
}

/// Parses the source text of a function declaration into the library's
/// model: exactly the declaration the text parses to, None where the text is
/// not a function item. The transformation's contracts then pin down the
/// route entry for every declaration value.
pub fn parse_fn_decl(src: &str) -> (r: Option<FnDecl>)
    ensures
        match r {
            Some(d) => parsed_decl_of(src@) == Some(d@),
            None => parsed_decl_of(src@) is None,
        },
{
    parse_and_convert(src)
}

/// Parses the annotation argument's source text into the library's model:
/// exactly the literal the text parses to, None where the text is not a
/// single literal. The transformation's contracts state what each literal
/// form leads to.
pub fn parse_annotation(src: &str) -> (r: Option<AnnotationArg>)
    ensures
        match r {
            Some(a) => lit_arg_of(src@) == Some(a@),
            None => lit_arg_of(src@) is None,
        },
{
    parse_lit(src)
}

} // verus!
