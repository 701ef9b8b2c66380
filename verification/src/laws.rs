use vstd::prelude::*;

use crate::analyze::{
    category_bucket, named_param_of, named_params, param_category, pat_name, spec_classify,
};
use crate::model::{
    category_rank, ExtractionV, FnDeclV, HttpMethod, NamedParamV, ParamCategory, RouteEntryV,
    TypeDescV,
};
use crate::synth::{arg_names, entry_matches, extraction_block};

verus! {

/// Law: a parameter whose type's first path segment is not one of `State`,
/// `CookieSession` and `CookieJar` — any other segment name, also one never
/// seen before — and every non-path type is always classified Body.
pub proof fn lemma_unrecognized_type_is_body(t: TypeDescV)
    requires
        t matches TypeDescV::Path { first_segment, .. } ==> first_segment != "State"@
            && first_segment != "CookieSession"@ && first_segment != "CookieJar"@,
    ensures
        spec_classify(t) == ParamCategory::Body,
{
}

/// Law: a parameter whose type's first path segment is exactly `State` is
/// classified State and never Body, wherever it stands in the parameter
/// list: it lands in the State bucket and in no Body bucket, whatever the
/// parameters around it are.
pub proof fn lemma_state_segment_is_state(ps: Seq<NamedParamV>, i: int)
    requires
        0 <= i < ps.len(),
        ps[i].ty matches TypeDescV::Path { first_segment, .. } && first_segment == "State"@,
    ensures
        param_category(ps[i]) == ParamCategory::State,
        param_category(ps[i]) != ParamCategory::Body,
        category_bucket(ps, ParamCategory::State).contains(ps[i]),
        !category_bucket(ps, ParamCategory::Body).contains(ps[i]),
{
    broadcast use vstd::seq_lib::group_filter_ensures;

    assert(category_bucket(ps, ParamCategory::State).contains(ps[i]));
    if category_bucket(ps, ParamCategory::Body).contains(ps[i]) {
        let bucket = category_bucket(ps, ParamCategory::Body);
        let j = choose|j: int| 0 <= j < bucket.len() && bucket[j] == ps[i];
        assert(param_category(bucket[j]) == ParamCategory::Body);
    }
}

/// Law: the synthesized call passes exactly one argument per typed
/// parameter — the parameter's own identifier — in original declaration
/// order, whatever mix of categories the signature holds.
pub proof fn lemma_call_args_in_declaration_order(
    e: RouteEntryV,
    decl: FnDeclV,
    path: Seq<char>,
    m: HttpMethod,
)
    requires
        entry_matches(e, decl, path, m),
    ensures
        e.call_args.len() == decl.params.len(),
        forall|i: int| 0 <= i < decl.params.len() ==> e.call_args[i] == pat_name(
            decl.params[i].pat,
        ),
{
    let ps = named_params(decl.params);
    assert forall|i: int| 0 <= i < decl.params.len() implies e.call_args[i] == pat_name(
        decl.params[i].pat,
    ) by {
        assert(ps[i] == named_param_of(decl.params[i]));
        assert(arg_names(ps)[i] == ps[i].name);
    }
}

/// Exactly one category bucket takes each parameter, so the four buckets'
/// lengths sum to the parameter count.
proof fn lemma_bucket_partition(ps: Seq<NamedParamV>)
    ensures
        category_bucket(ps, ParamCategory::Body).len() + category_bucket(
            ps,
            ParamCategory::State,
        ).len() + category_bucket(ps, ParamCategory::Session).len() + category_bucket(
            ps,
            ParamCategory::CookieJar,
        ).len() == ps.len(),
    decreases ps.len(),
{
    reveal(Seq::filter);
    if ps.len() > 0 {
        lemma_bucket_partition(ps.drop_last());
    }
}

/// Law: the generated entry point holds exactly one extraction statement per
/// typed parameter — none is extracted twice, none is dropped.
pub proof fn lemma_one_extraction_per_parameter(
    e: RouteEntryV,
    decl: FnDeclV,
    path: Seq<char>,
    m: HttpMethod,
)
    requires
        entry_matches(e, decl, path, m),
    ensures
        e.extractions.len() == decl.params.len(),
{
    lemma_bucket_partition(named_params(decl.params));
}

/// The parameter one extraction statement obtains.
pub open spec fn extraction_param(x: ExtractionV) -> NamedParamV {
    NamedParamV { name: x.name, ty: x.ty }
}

/// The parameters a list of extraction statements obtains, in block order.
pub open spec fn extracted_params(xs: Seq<ExtractionV>) -> Seq<NamedParamV> {
    xs.map_values(|x: ExtractionV| extraction_param(x))
}

/// An extraction block obtains exactly its bucket, in bucket order.
proof fn lemma_block_extracts_bucket(qs: Seq<NamedParamV>, c: ParamCategory)
    ensures
        extracted_params(extraction_block(qs, c)) == qs,
{
    assert(extracted_params(extraction_block(qs, c)) =~= qs);
}

/// The four buckets of a parameter list hold, among them, exactly the
/// parameters of the list.
proof fn lemma_buckets_partition_multiset(ps: Seq<NamedParamV>)
    ensures
        category_bucket(ps, ParamCategory::Body).to_multiset().add(
            category_bucket(ps, ParamCategory::State).to_multiset(),
        ).add(category_bucket(ps, ParamCategory::Session).to_multiset()).add(
            category_bucket(ps, ParamCategory::CookieJar).to_multiset(),
        ) == ps.to_multiset(),
    decreases ps.len(),
{
    broadcast use vstd::seq_lib::group_to_multiset_ensures;
    broadcast use vstd::multiset::group_multiset_axioms;

    reveal(Seq::filter);
    if ps.len() == 0 {
        assert(category_bucket(ps, ParamCategory::Body).to_multiset().add(
            category_bucket(ps, ParamCategory::State).to_multiset(),
        ).add(category_bucket(ps, ParamCategory::Session).to_multiset()).add(
            category_bucket(ps, ParamCategory::CookieJar).to_multiset(),
        ) =~= ps.to_multiset());
    } else {
        let prefix = ps.drop_last();
        let last = ps.last();
        lemma_buckets_partition_multiset(prefix);
        assert(ps =~= prefix.push(last));
        assert(prefix.push(last).to_multiset() =~= prefix.to_multiset().insert(last));
        assert(category_bucket(ps, ParamCategory::Body).to_multiset().add(
            category_bucket(ps, ParamCategory::State).to_multiset(),
        ).add(category_bucket(ps, ParamCategory::Session).to_multiset()).add(
            category_bucket(ps, ParamCategory::CookieJar).to_multiset(),
        ) =~= ps.to_multiset());
    }
}

/// Law: the generated extraction statements obtain exactly the declared
/// parameters — each parameter extracted once, none twice, none dropped —
/// whatever order the fixed blocks impose on them.
pub proof fn lemma_each_parameter_extracted_once(
    e: RouteEntryV,
    decl: FnDeclV,
    path: Seq<char>,
    m: HttpMethod,
)
    requires
        entry_matches(e, decl, path, m),
    ensures
        extracted_params(e.extractions).to_multiset() == named_params(decl.params).to_multiset(),
{
    broadcast use vstd::seq_lib::lemma_multiset_commutative;

    let ps = named_params(decl.params);
    let q0 = category_bucket(ps, ParamCategory::Body);
    let q1 = category_bucket(ps, ParamCategory::State);
    let q2 = category_bucket(ps, ParamCategory::Session);
    let q3 = category_bucket(ps, ParamCategory::CookieJar);
    let b0 = extraction_block(q0, ParamCategory::Body);
    let b1 = extraction_block(q1, ParamCategory::State);
    let b2 = extraction_block(q2, ParamCategory::Session);
    let b3 = extraction_block(q3, ParamCategory::CookieJar);
    lemma_block_extracts_bucket(q0, ParamCategory::Body);
    lemma_block_extracts_bucket(q1, ParamCategory::State);
    lemma_block_extracts_bucket(q2, ParamCategory::Session);
    lemma_block_extracts_bucket(q3, ParamCategory::CookieJar);
    assert(extracted_params(e.extractions) =~= q0 + q1 + q2 + q3);
    lemma_buckets_partition_multiset(ps);
}

/// Every statement of one extraction block carries that block's category.
proof fn lemma_block_category(ps: Seq<NamedParamV>, c: ParamCategory)
    ensures
        forall|k: int| 0 <= k < extraction_block(ps, c).len() ==> #[trigger] extraction_block(
            ps,
            c,
        )[k].category == c,
{
}

/// Law: the extraction blocks of the generated code always stand in the
/// fixed order Body, then State, then Session, then CookieJar, however the
/// parameters were ordered in the original signature.
pub proof fn lemma_extraction_blocks_ordered(
    e: RouteEntryV,
    decl: FnDeclV,
    path: Seq<char>,
    m: HttpMethod,
)
    requires
        entry_matches(e, decl, path, m),
    ensures
        forall|i: int, j: int| 0 <= i <= j < e.extractions.len() ==> category_rank(
            #[trigger] e.extractions[i].category,
        ) <= category_rank(#[trigger] e.extractions[j].category),
{
    let ps = named_params(decl.params);
    let b0 = extraction_block(category_bucket(ps, ParamCategory::Body), ParamCategory::Body);
    let b1 = extraction_block(category_bucket(ps, ParamCategory::State), ParamCategory::State);
    let b2 = extraction_block(category_bucket(ps, ParamCategory::Session), ParamCategory::Session);
    let b3 = extraction_block(
        category_bucket(ps, ParamCategory::CookieJar),
        ParamCategory::CookieJar,
    );
    lemma_block_category(category_bucket(ps, ParamCategory::Body), ParamCategory::Body);
    lemma_block_category(category_bucket(ps, ParamCategory::State), ParamCategory::State);
    lemma_block_category(category_bucket(ps, ParamCategory::Session), ParamCategory::Session);
    lemma_block_category(category_bucket(ps, ParamCategory::CookieJar), ParamCategory::CookieJar);
    assert forall|k: int| 0 <= k < e.extractions.len() implies category_rank(
        #[trigger] e.extractions[k].category,
    ) == rank_at(b0.len() as int, b1.len() as int, b2.len() as int, k) by {
        if k < b0.len() {
            assert(e.extractions[k] == b0[k]);
        } else if k < b0.len() + b1.len() {
            assert(e.extractions[k] == b1[k - b0.len()]);
        } else if k < b0.len() + b1.len() + b2.len() {
            assert(e.extractions[k] == b2[k - b0.len() - b1.len()]);
        } else {
            assert(e.extractions[k] == b3[k - b0.len() - b1.len() - b2.len()]);
        }
    }
}

/// The rank of the block that position `k` falls in, for blocks of the given
/// three leading lengths.
pub open spec fn rank_at(n0: int, n1: int, n2: int, k: int) -> int {
    if k < n0 {
        0
    } else if k < n0 + n1 {
        1
    } else if k < n0 + n1 + n2 {
        2
    } else {
        3
    }
}

} // verus!
