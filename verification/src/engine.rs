use vstd::prelude::*;
use vstd::string::*;

use crate::age_sex::{_age_sex_v2, age_sex_attributes, is_disabled, is_male};
use crate::hierarchy::{_apply_hierarchy, survivors};
use crate::interactions::{_apply_interactions, interactions};
use crate::registry::{fresh_registry, CoefficientRegistry};
use crate::scoring::{
    _get_community_model_reg_a_score, _get_community_model_reg_d_score,
    _get_institutional_reg_score, _get_new_enrollee_score, coefficients_of, marked_each,
    model_code, model_list, model_variables, models, regression_of, score_name, Model,
    Regression,
};
use crate::table::Table;
use crate::text::{
    append_names, distinct, distinct_names, lemma_concat_contains, listed, push_if, str_equal,
    tag_if,
};
use crate::{PrivateRAFInput, PublicRAFInputs, RAFAttribute};

verus! {

/// The HCCs of a list of diagnosis codes: the lists that the codes map to,
/// one after the other in the order of the codes. A code without an entry
/// contributes nothing; repetitions stay.
pub open spec fn mapped_hccs(dx_to_cc: Map<Seq<char>, Seq<Seq<char>>>, codes: Seq<Seq<char>>) -> Seq<
    Seq<char>,
> {
    codes.map_values(|code: Seq<char>| listed(dx_to_cc, code)).flatten()
}

/// The HCCs of a beneficiary that survive the hierarchy.
pub open spec fn surviving_hccs(public: &PublicRAFInputs, private: &PrivateRAFInput) -> Seq<
    Seq<char>,
> {
    survivors(
        public.hcc_hierarchies@,
        mapped_hccs(public.dx_to_cc@, private.diagnosis_codes.deep_view()),
    )
}

/// The demographic tags of a beneficiary, with `LTIMCAID` after them for the
/// long-term institutionalized.
pub open spec fn demographic_tags(private: &PrivateRAFInput) -> Seq<Seq<char>> {
    age_sex_attributes(private.age as int, private.sex@, private.entitlement_reason_code@)
        + tag_if(private.long_term_institutionalized, "LTIMCAID"@)
}

/// The attribute list of a beneficiary: demographic tags, surviving HCCs and
/// interactions, each tag once, at the place of its first occurrence. The
/// interactions take the same disabled flag as the demographic tags.
pub open spec fn attributes_of(public: &PublicRAFInputs, private: &PrivateRAFInput) -> Seq<
    Seq<char>,
> {
    let hccs = surviving_hccs(public, private);
    distinct(
        demographic_tags(private) + hccs + interactions(
            hccs,
            is_disabled(private.age as int, private.entitlement_reason_code@),
        ),
    )
}

/// The names that the scoring pass of a model looks up for a beneficiary.
pub open spec fn pass_variables(
    public: &PublicRAFInputs,
    private: &PrivateRAFInput,
    model: Model,
) -> Seq<Seq<char>> {
    model_variables(
        regression_of(model),
        model_code(model),
        is_male(private.sex@),
        public.hcc_labels@.dom(),
        attributes_of(public, private),
    )
}

/// The terms of the score of a model for a beneficiary: the coefficients,
/// in order, of the names that its pass looks up and the coefficient table
/// holds.
pub open spec fn pass_terms(
    public: &PublicRAFInputs,
    private: &PrivateRAFInput,
    model: Model,
) -> Seq<u32> {
    coefficients_of(
        fresh_registry(public.hcc_coefficients@),
        pass_variables(public, private, model),
    )
}

/// The names that the passes of the first `n` models look up, one pass after
/// the other.
pub open spec fn looked_up(public: &PublicRAFInputs, private: &PrivateRAFInput, n: int) -> Seq<
    Seq<char>,
>
    decreases n,
{
    if n <= 0 {
        Seq::empty()
    } else {
        looked_up(public, private, n - 1) + pass_variables(public, private, models()[n - 1])
    }
}

/// Maps each diagnosis code to its HCCs and strings the lists together.
pub fn map_diagnoses(
    dx_to_cc: &Table<Vec<String>>,
    diagnosis_codes: &Vec<String>,
) -> (hccs: Vec<String>)
    ensures
        hccs.deep_view() == mapped_hccs(dx_to_cc@, diagnosis_codes.deep_view()),
{
    let ghost codes = diagnosis_codes.deep_view();
    let ghost lists = dx_to_cc@;
    let ghost list_of = |code: Seq<char>| listed(lists, code);
    let mut hccs: Vec<String> = Vec::new();
    let mut i: usize = 0;
    assert(codes.subrange(0, 0).map_values(list_of) =~= Seq::<Seq<Seq<char>>>::empty());
    assert(hccs.deep_view() =~= Seq::<Seq<char>>::empty());
    while i < diagnosis_codes.len()
        invariant
            i <= diagnosis_codes.len(),
            codes == diagnosis_codes.deep_view(),
            lists == dx_to_cc@,
            list_of == |code: Seq<char>| listed(lists, code),
            hccs.deep_view() == codes.subrange(0, i as int).map_values(list_of).flatten(),
        decreases diagnosis_codes.len() - i,
    {
        let ghost before = hccs.deep_view();
        let ghost walked = codes.subrange(0, i as int).map_values(list_of);
        proof {
            assert(codes.subrange(0, i + 1).map_values(list_of) =~= walked.push(
                list_of(codes[i as int]),
            ));
            walked.lemma_flatten_push(list_of(codes[i as int]));
        }
        match dx_to_cc.get(diagnosis_codes[i].as_str()) {
            Some(list) => {
                append_names(&mut hccs, list);
            },
            None => {
                assert(before + Seq::<Seq<char>>::empty() =~= before);
            },
        }
        i += 1;
    }
    assert(codes.subrange(0, i as int) =~= codes);
    hccs
}

/// Derives the attribute list of a beneficiary: maps the diagnoses to HCCs,
/// applies the hierarchy, derives demographic tags and interactions, and
/// unites the three lists.
pub fn raf_attributes(
    public_inputs: &PublicRAFInputs,
    private_input: &PrivateRAFInput,
) -> (tags: Vec<String>)
    ensures
        tags.deep_view() == attributes_of(public_inputs, private_input),
        tags.deep_view().no_duplicates(),
{
    let hcc_list = map_diagnoses(&public_inputs.dx_to_cc, &private_input.diagnosis_codes);
    let mut all = _age_sex_v2(
        private_input.age,
        private_input.sex.as_str(),
        private_input.entitlement_reason_code.as_str(),
    );
    push_if(&mut all, private_input.long_term_institutionalized, "LTIMCAID");
    let final_hcc_list = _apply_hierarchy(&public_inputs.hcc_hierarchies, &hcc_list);
    let disabled = private_input.age < 65 && !str_equal(
        private_input.entitlement_reason_code.as_str(),
        "0",
    );
    let final_interactions = _apply_interactions(&final_hcc_list, disabled);
    append_names(&mut all, &final_hcc_list);
    append_names(&mut all, &final_interactions);
    distinct_names(&all)
}

/// The terms of the score of one model: dispatches to the pass of its
/// regression.
pub fn score_model(
    model: Model,
    private_input: &PrivateRAFInput,
    public_inputs: &PublicRAFInputs,
    all_raf_attributes: &Vec<String>,
    registry: &mut CoefficientRegistry,
) -> (terms: Vec<u32>)
    ensures
        terms@ == coefficients_of(
            old(registry)@,
            model_variables(
                regression_of(model),
                model_code(model),
                is_male(private_input.sex@),
                public_inputs.hcc_labels@.dom(),
                all_raf_attributes.deep_view(),
            ),
        ),
        final(registry)@ == marked_each(
            old(registry)@,
            model_variables(
                regression_of(model),
                model_code(model),
                is_male(private_input.sex@),
                public_inputs.hcc_labels@.dom(),
                all_raf_attributes.deep_view(),
            ),
        ),
        final(registry).attributes.names() == old(registry).attributes.names(),
{
    let code = String::from_str(model.code());
    match model.regression() {
        Regression::CommunityAged => _get_community_model_reg_a_score(
            code,
            private_input,
            public_inputs,
            all_raf_attributes,
            registry,
        ),
        Regression::CommunityDisabled => _get_community_model_reg_d_score(
            code,
            public_inputs,
            all_raf_attributes,
            registry,
        ),
        Regression::Institutional => _get_institutional_reg_score(
            code,
            public_inputs,
            all_raf_attributes,
            registry,
        ),
        Regression::NewEnrollee => _get_new_enrollee_score(code, all_raf_attributes, registry),
    }
}

/// The terms of the score of one model, under the name of the score.
#[derive(Debug)]
pub struct ModelScore {
    pub model: Model,
    pub name: String,
    /// The coefficients to be summed, as bit patterns, in the order of summation.
    pub terms: Vec<u32>,
}

/// What a scoring call yields: the terms of the nine scores, and the registry
/// with the variables flagged that a pass has used.
#[derive(Debug)]
pub struct Scoring {
    pub scores: Vec<ModelScore>,
    pub registry: CoefficientRegistry,
}

/// What a registry holds for a list of names does not depend on the flags.
pub proof fn lemma_marking_keeps_coefficients(
    registry: Map<Seq<char>, RAFAttribute>,
    used: Seq<Seq<char>>,
    names: Seq<Seq<char>>,
)
    ensures
        coefficients_of(marked_each(registry, used), names) == coefficients_of(registry, names),
{
    let after = marked_each(registry, used);
    let held = |name: Seq<char>| registry.contains_key(name);
    let held_after = |name: Seq<char>| after.contains_key(name);
    assert(held =~= held_after);
    let found = names.filter(held);
    assert forall|i: int| 0 <= i < found.len() implies registry.contains_key(
        #[trigger] found[i],
    ) by {
        names.lemma_filter_pred(held, i);
    }
    assert(found.map_values(|name: Seq<char>| after[name].coefficient) =~= found.map_values(
        |name: Seq<char>| registry[name].coefficient,
    ));
}

/// Flagging one list of names and then another flags the names of both.
pub proof fn lemma_marked_in_turn(
    registry: Map<Seq<char>, RAFAttribute>,
    first: Seq<Seq<char>>,
    then: Seq<Seq<char>>,
)
    ensures
        marked_each(marked_each(registry, first), then) == marked_each(registry, first + then),
{
    lemma_concat_contains(first, then);
    assert(marked_each(marked_each(registry, first), then) =~= marked_each(
        registry,
        first + then,
    ));
}

/// Scores a beneficiary: derives the attribute list, builds the registry of
/// the coefficient table, and runs the passes of the nine models in order.
/// Each score is the sum of its terms times the normalization factor.
pub fn score_all_models(
    public_inputs: &PublicRAFInputs,
    private_input: &PrivateRAFInput,
) -> (outcome: Scoring)
    ensures
        outcome.scores.len() == 9,
        forall|k: int|
            0 <= k < 9 ==> {
                let score = #[trigger] outcome.scores[k];
                &&& score.model == models()[k]
                &&& score.name@ == score_name(models()[k])
                &&& score.terms@ == pass_terms(public_inputs, private_input, models()[k])
            },
        outcome.registry@ == marked_each(
            fresh_registry(public_inputs.hcc_coefficients@),
            looked_up(public_inputs, private_input, 9),
        ),
        outcome.registry.attributes.names() == public_inputs.hcc_coefficients.names(),
{
    let ghost fresh = fresh_registry(public_inputs.hcc_coefficients@);
    let all_raf_attributes = raf_attributes(public_inputs, private_input);
    let mut registry = CoefficientRegistry::new(&public_inputs.hcc_coefficients);
    let list = model_list();
    let mut scores: Vec<ModelScore> = Vec::new();
    let mut k: usize = 0;
    assert(registry@ =~= marked_each(fresh, looked_up(public_inputs, private_input, 0)));
    while k < 9
        invariant
            k <= 9,
            list@ == models(),
            fresh == fresh_registry(public_inputs.hcc_coefficients@),
            all_raf_attributes.deep_view() == attributes_of(public_inputs, private_input),
            scores.len() == k,
            forall|j: int|
                0 <= j < k ==> {
                    let score = #[trigger] scores[j];
                    &&& score.model == models()[j]
                    &&& score.name@ == score_name(models()[j])
                    &&& score.terms@ == pass_terms(public_inputs, private_input, models()[j])
                },
            registry@ == marked_each(fresh, looked_up(public_inputs, private_input, k as int)),
            registry.attributes.names() == public_inputs.hcc_coefficients.names(),
        decreases 9 - k,
    {
        let model = list[k];
        let ghost used = looked_up(public_inputs, private_input, k as int);
        let ghost names = pass_variables(public_inputs, private_input, model);
        let terms = score_model(
            model,
            private_input,
            public_inputs,
            &all_raf_attributes,
            &mut registry,
        );
        proof {
            lemma_marking_keeps_coefficients(fresh, used, names);
            lemma_marked_in_turn(fresh, used, names);
        }
        scores.push(ModelScore { model, name: String::from_str(model.score_key()), terms });
        k += 1;
    }
    Scoring { scores, registry }
}

} // verus!
