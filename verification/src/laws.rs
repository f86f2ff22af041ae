use vstd::prelude::*;

use crate::age_sex::{
    enrollee_band, is_disabled, lemma_enrollee_name_head, lemma_flags_are_no_buckets,
    lemma_new_enrollee_name_head, new_enrollee_band,
};
use crate::engine::{attributes_of, demographic_tags, mapped_hccs, pass_terms, surviving_hccs};
use crate::hierarchy::{inferiors, lemma_more_candidates_keep_survivors};
use crate::interactions::{
    community_interactions, institutional_interactions, interactions, lemma_categories_grow,
    lemma_community_interactions, lemma_institutional_interactions, lemma_interactions,
    payment_count_name, payment_count_tags,
};
use crate::scoring::{
    coefficients_of, model_variables, originally_disabled_variable, permitted, prefixed,
    regression_variables, selected, Model, Regression,
};
use crate::subsequence::{
    embeds, lemma_embeds_concat, lemma_embeds_contains, lemma_embeds_filter, lemma_embeds_itself,
    lemma_embeds_map,
};
use crate::text::{distinct, lemma_concat_contains, lemma_distinct, listed, tag_if};
use crate::{PrivateRAFInput, PublicRAFInputs, RAFAttribute};

verus! {

/// Whether two model payloads hold the same tables, whatever the order of
/// their entries.
pub open spec fn same_model(a: &PublicRAFInputs, b: &PublicRAFInputs) -> bool {
    &&& a.hcc_coefficients@ == b.hcc_coefficients@
    &&& a.hcc_hierarchies@ == b.hcc_hierarchies@
    &&& a.hcc_labels@.dom() == b.hcc_labels@.dom()
    &&& a.dx_to_cc@ == b.dx_to_cc@
}

/// Whether two beneficiaries have the same data, as far as scoring reads it.
pub open spec fn same_beneficiary(a: &PrivateRAFInput, b: &PrivateRAFInput) -> bool {
    &&& a.diagnosis_codes.deep_view() == b.diagnosis_codes.deep_view()
    &&& a.age == b.age
    &&& a.sex@ == b.sex@
    &&& a.entitlement_reason_code@ == b.entitlement_reason_code@
    &&& a.long_term_institutionalized == b.long_term_institutionalized
}

/// Scoring is determined by its inputs: the same tables and the same
/// beneficiary give the same attribute list and, for every model, the same
/// terms in the same order. The order of the entries of a table, the texts
/// of the labels, the normalization factor, the eligibility code and the
/// Medicaid status have no part in them.
pub proof fn lemma_scoring_is_determined(
    public: &PublicRAFInputs,
    private: &PrivateRAFInput,
    other_public: &PublicRAFInputs,
    other_private: &PrivateRAFInput,
    model: Model,
)
    requires
        same_model(public, other_public),
        same_beneficiary(private, other_private),
    ensures
        attributes_of(public, private) == attributes_of(other_public, other_private),
        pass_terms(public, private, model) == pass_terms(other_public, other_private, model),
{
}

/// The demographic tags of a beneficiary are distinct, and none of them is a
/// payment-count bucket.
pub proof fn lemma_demographic_tags(private: &PrivateRAFInput)
    ensures
        demographic_tags(private).no_duplicates(),
        forall|n: nat| !demographic_tags(private).contains(#[trigger] payment_count_name(n)),
{
    let tags = demographic_tags(private);
    let age = private.age as int;
    let sex = private.sex@;
    let orec = private.entitlement_reason_code@;
    let male = sex == "M"@;
    lemma_enrollee_name_head(male, enrollee_band(age));
    lemma_new_enrollee_name_head(male, new_enrollee_band(age, orec));
    lemma_flags_are_no_buckets();
    reveal_strlit("DISABL");
    reveal_strlit("ORIGDS");
    reveal_strlit("LTIMCAID");
    reveal_strlit("D1");
    reveal_strlit("D2");
    reveal_strlit("D3");
    reveal_strlit("D4");
    reveal_strlit("D5");
    reveal_strlit("D6");
    reveal_strlit("D7");
    reveal_strlit("D8");
    reveal_strlit("D9");
    reveal_strlit("D10P");
    assert forall|i: int| 0 <= i < tags.len() implies (#[trigger] tags[i]).len() > 0 && (tags[i][0]
        == 'M' || tags[i][0] == 'F' || tags[i][0] == 'N' || tags[i][0] == 'O' || tags[i][0] == 'L'
        || tags[i] == "DISABL"@) by {}
    assert forall|i: int, j: int| 0 <= i < tags.len() && 0 <= j < tags.len() && i != j implies tags[i]
        != tags[j] by {
        assert(tags[0][0] == 'M' || tags[0][0] == 'F');
        assert(tags[1][0] == 'N');
        assert("DISABL"@[0] == 'D');
        assert("ORIGDS"@[0] == 'O');
        assert("LTIMCAID"@[0] == 'L');
    }
    assert forall|n: nat| !tags.contains(#[trigger] payment_count_name(n)) by {
        let name = payment_count_name(n);
        assert(name[0] == 'D' && name[1] != 'I');
        assert("DISABL"@[1] == 'I');
        if tags.contains(name) {
            let i = tags.index_of(name);
            assert(tags[i] == name);
        }
    }
}

/// A list without repetitions is its own `distinct`.
pub proof fn lemma_distinct_of_distinct(names: Seq<Seq<char>>)
    requires
        names.no_duplicates(),
    ensures
        distinct(names) == names,
    decreases names.len(),
{
    if names.len() > 0 {
        let front = names.drop_last();
        lemma_distinct_of_distinct(front);
        if front.contains(names.last()) {
            let i = front.index_of(names.last());
            assert(names[i] == names[names.len() - 1]);
        }
        assert(front.push(names.last()) =~= names);
    }
}

/// A beneficiary without diagnoses has no HCC, no interaction and no
/// payment-count bucket: the attribute list is the list of the demographic
/// tags.
pub proof fn lemma_no_diagnoses(public: &PublicRAFInputs, private: &PrivateRAFInput)
    requires
        private.diagnosis_codes.deep_view().len() == 0,
    ensures
        surviving_hccs(public, private) == Seq::<Seq<char>>::empty(),
        attributes_of(public, private) == demographic_tags(private),
        forall|n: nat| !attributes_of(public, private).contains(#[trigger] payment_count_name(n)),
{
    let codes = private.diagnosis_codes.deep_view();
    let hccs = mapped_hccs(public.dx_to_cc@, codes);
    assert(hccs =~= Seq::<Seq<char>>::empty());
    let kept = surviving_hccs(public, private);
    assert(kept =~= Seq::<Seq<char>>::empty());
    let disabled = is_disabled(private.age as int, private.entitlement_reason_code@);
    assert(interactions(kept, disabled) =~= Seq::<Seq<char>>::empty());
    assert(demographic_tags(private) + kept + interactions(kept, disabled) =~= demographic_tags(
        private,
    ));
    lemma_demographic_tags(private);
    lemma_distinct_of_distinct(demographic_tags(private));
}

/// The HCCs of a longer list of diagnosis codes are those of its first part,
/// then those of the rest.
pub proof fn lemma_mapped_hccs_of_concat(
    dx_to_cc: Map<Seq<char>, Seq<Seq<char>>>,
    codes: Seq<Seq<char>>,
    more: Seq<Seq<char>>,
)
    ensures
        mapped_hccs(dx_to_cc, codes + more) == mapped_hccs(dx_to_cc, codes) + mapped_hccs(
            dx_to_cc,
            more,
        ),
{
    let list_of = |code: Seq<char>| listed(dx_to_cc, code);
    assert((codes + more).map_values(list_of) =~= codes.map_values(list_of) + more.map_values(
        list_of,
    ));
    vstd::seq_lib::lemma_flatten_concat(codes.map_values(list_of), more.map_values(list_of));
}

/// An interaction other than the payment-count bucket that fires for a list
/// of HCCs fires for every list that holds the same HCCs and more.
pub proof fn lemma_more_hccs_keep_interactions(
    hccs: Seq<Seq<char>>,
    more: Seq<Seq<char>>,
    disabled: bool,
    tag: Seq<char>,
)
    requires
        forall|hcc: Seq<char>| hccs.contains(hcc) ==> more.contains(hcc),
        community_interactions(hccs).contains(tag) || institutional_interactions(
            hccs,
            disabled,
        ).contains(tag),
    ensures
        community_interactions(more).contains(tag) || institutional_interactions(
            more,
            disabled,
        ).contains(tag),
{
    lemma_categories_grow(hccs, more);
    lemma_community_interactions(hccs, tag);
    lemma_community_interactions(more, tag);
    lemma_institutional_interactions(hccs, disabled, tag);
    lemma_institutional_interactions(more, disabled, tag);
}

/// Coverage grows with the diagnoses: a beneficiary whose list of diagnosis
/// codes goes on after that of another, and who is otherwise the same, has
/// every attribute of the other, but for the payment-count bucket, which
/// changes with the number of surviving HCCs. The further diagnoses must
/// bring no HCC that lists a surviving HCC of the other among its inferiors:
/// such an HCC takes the place of the one that it suppresses.
pub proof fn lemma_more_diagnoses_keep_attributes(
    public: &PublicRAFInputs,
    private: &PrivateRAFInput,
    longer: &PrivateRAFInput,
    more: Seq<Seq<char>>,
    tag: Seq<char>,
)
    requires
        longer.diagnosis_codes.deep_view() == private.diagnosis_codes.deep_view() + more,
        longer.age == private.age,
        longer.sex@ == private.sex@,
        longer.entitlement_reason_code@ == private.entitlement_reason_code@,
        longer.long_term_institutionalized == private.long_term_institutionalized,
        forall|k: int, i: int|
            0 <= k < mapped_hccs(public.dx_to_cc@, more).len() && 0 <= i < surviving_hccs(
                public,
                private,
            ).len() ==> !inferiors(
                public.hcc_hierarchies@,
                #[trigger] mapped_hccs(public.dx_to_cc@, more)[k],
            ).contains(#[trigger] surviving_hccs(public, private)[i]),
        attributes_of(public, private).contains(tag),
        !payment_count_tags(surviving_hccs(public, private).len()).contains(tag),
    ensures
        attributes_of(public, longer).contains(tag),
{
    let disabled = is_disabled(private.age as int, private.entitlement_reason_code@);
    let codes = private.diagnosis_codes.deep_view();
    let kept = surviving_hccs(public, private);
    let kept_longer = surviving_hccs(public, longer);
    let tags = demographic_tags(private);
    let all = tags + kept + interactions(kept, disabled);
    let all_longer = tags + kept_longer + interactions(kept_longer, disabled);
    lemma_mapped_hccs_of_concat(public.dx_to_cc@, codes, more);
    lemma_more_candidates_keep_survivors(
        public.hcc_hierarchies@,
        mapped_hccs(public.dx_to_cc@, codes),
        mapped_hccs(public.dx_to_cc@, more),
    );
    assert forall|hcc: Seq<char>| kept.contains(hcc) implies kept_longer.contains(hcc) by {
        let i = kept.index_of(hcc);
        assert(kept_longer[i] == hcc);
    }
    lemma_distinct(all);
    lemma_distinct(all_longer);
    lemma_concat_contains(tags, kept);
    lemma_concat_contains(tags + kept, interactions(kept, disabled));
    lemma_concat_contains(tags, kept_longer);
    lemma_concat_contains(tags + kept_longer, interactions(kept_longer, disabled));
    assert(all.contains(tag));
    lemma_interactions(kept, disabled, tag);
    lemma_interactions(kept_longer, disabled, tag);
    if !tags.contains(tag) && !kept.contains(tag) {
        lemma_more_hccs_keep_interactions(kept, kept_longer, disabled, tag);
    }
    assert(all_longer.contains(tag));
}

/// More tags give the same terms and more: where a tag list is another
/// with further tags put in, a scoring pass looks up the names of the other
/// in the same order, with further names between them, and finds the terms
/// of the other in the same order, with further terms between them. (The
/// score is the sum of the terms, which the caller makes in binary32.)
pub proof fn lemma_more_tags_give_more_terms(
    regression: Regression,
    model: Seq<char>,
    male: bool,
    hccs: Set<Seq<char>>,
    registry: Map<Seq<char>, RAFAttribute>,
    tags: Seq<Seq<char>>,
    more_tags: Seq<Seq<char>>,
)
    requires
        embeds(tags, more_tags),
    ensures
        embeds(
            model_variables(regression, model, male, hccs, tags),
            model_variables(regression, model, male, hccs, more_tags),
        ),
        embeds(
            coefficients_of(registry, model_variables(regression, model, male, hccs, tags)),
            coefficients_of(registry, model_variables(regression, model, male, hccs, more_tags)),
        ),
{
    let names = model_variables(regression, model, male, hccs, tags);
    let more_names = model_variables(regression, model, male, hccs, more_tags);
    let taken = if regression == Regression::NewEnrollee {
        Set::<Seq<char>>::empty()
    } else {
        hccs
    };
    let variables = regression_variables(regression);
    let keep = |tag: Seq<char>| permitted(variables, taken, tag);
    let name_of = |tag: Seq<char>| prefixed(model, tag);
    lemma_embeds_filter(tags, more_tags, keep);
    lemma_embeds_map(tags.filter(keep), more_tags.filter(keep), name_of);
    assert(embeds(
        selected(variables, taken, model, tags),
        selected(variables, taken, model, more_tags),
    ));
    if regression == Regression::CommunityAged {
        let split = originally_disabled_variable(model, male);
        let flag = tags.contains("ORIGDS"@);
        let more_flag = more_tags.contains("ORIGDS"@);
        if flag {
            lemma_embeds_contains(tags, more_tags, "ORIGDS"@);
            lemma_embeds_itself(tag_if(true, split));
        }
        assert(embeds(tag_if(flag, split), tag_if(more_flag, split)));
        lemma_embeds_concat(
            selected(variables, taken, model, tags),
            selected(variables, taken, model, more_tags),
            tag_if(flag, split),
            tag_if(more_flag, split),
        );
    }
    assert(embeds(names, more_names));
    let held = |name: Seq<char>| registry.contains_key(name);
    let value = |name: Seq<char>| registry[name].coefficient;
    lemma_embeds_filter(names, more_names, held);
    lemma_embeds_map(names.filter(held), more_names.filter(held), value);
}

} // verus!
