use vstd::prelude::*;
use vstd::string::*;

use crate::age_sex::{enrollee_key, enrollee_name};
use crate::interactions::{payment_count_key, payment_count_name};
use crate::registry::CoefficientRegistry;
use crate::table::Table;
use crate::text::{append_names, contains_name, push_if, push_name, push_str_name, str_equal, tag_if};
use crate::utils::{build_ne_reg_variable_list, ne_reg_variables};
use crate::{PrivateRAFInput, PublicRAFInputs, RAFAttribute};

verus! {

/// The four regressions: each has its own list of permitted variables.
#[derive(Clone, Copy, Debug, PartialEq, Eq, Structural)]
pub enum Regression {
    CommunityAged,
    CommunityDisabled,
    Institutional,
    NewEnrollee,
}

/// The nine models that are scored.
#[derive(Clone, Copy, Debug, PartialEq, Eq, Structural)]
pub enum Model {
    CommunityNA,
    CommunityND,
    CommunityFBA,
    CommunityFBD,
    CommunityPBA,
    CommunityPBD,
    Institutional,
    NewEnrollee,
    SnpNewEnrollee,
}

/// The code of a model: the prefix of its variables in the coefficient table.
pub open spec fn model_code(model: Model) -> Seq<char> {
    match model {
        Model::CommunityNA => "CNA"@,
        Model::CommunityND => "CND"@,
        Model::CommunityFBA => "CFA"@,
        Model::CommunityFBD => "CFD"@,
        Model::CommunityPBA => "CPA"@,
        Model::CommunityPBD => "CPD"@,
        Model::Institutional => "INS"@,
        Model::NewEnrollee => "NE"@,
        Model::SnpNewEnrollee => "SNPNE"@,
    }
}

/// The name under which the score of a model is reported.
pub open spec fn score_name(model: Model) -> Seq<char> {
    match model {
        Model::CommunityNA => "SCORE_COMMUNITY_NA"@,
        Model::CommunityND => "SCORE_COMMUNITY_ND"@,
        Model::CommunityFBA => "SCORE_COMMUNITY_FBA"@,
        Model::CommunityFBD => "SCORE_COMMUNITY_FBD"@,
        Model::CommunityPBA => "SCORE_COMMUNITY_PBA"@,
        Model::CommunityPBD => "SCORE_COMMUNITY_PBD"@,
        Model::Institutional => "SCORE_INSTITUTIONAL"@,
        Model::NewEnrollee => "SCORE_NEW_ENROLLEE"@,
        Model::SnpNewEnrollee => "SCORE_SNP_NEW_ENROLLEE"@,
    }
}

/// The regression that a model is scored with.
pub open spec fn regression_of(model: Model) -> Regression {
    match model {
        Model::CommunityNA => Regression::CommunityAged,
        Model::CommunityND => Regression::CommunityDisabled,
        Model::CommunityFBA => Regression::CommunityAged,
        Model::CommunityFBD => Regression::CommunityDisabled,
        Model::CommunityPBA => Regression::CommunityAged,
        Model::CommunityPBD => Regression::CommunityDisabled,
        Model::Institutional => Regression::Institutional,
        Model::NewEnrollee => Regression::NewEnrollee,
        Model::SnpNewEnrollee => Regression::NewEnrollee,
    }
}

/// The nine models, in the order in which they are scored.
pub open spec fn models() -> Seq<Model> {
    seq![
        Model::CommunityNA,
        Model::CommunityND,
        Model::CommunityFBA,
        Model::CommunityFBD,
        Model::CommunityPBA,
        Model::CommunityPBD,
        Model::Institutional,
        Model::NewEnrollee,
        Model::SnpNewEnrollee,
    ]
}

impl Model {
    /// The code of the model.
    pub fn code(&self) -> (code: &'static str)
        ensures
            code@ == model_code(*self),
    {
        match self {
            Model::CommunityNA => "CNA",
            Model::CommunityND => "CND",
            Model::CommunityFBA => "CFA",
            Model::CommunityFBD => "CFD",
            Model::CommunityPBA => "CPA",
            Model::CommunityPBD => "CPD",
            Model::Institutional => "INS",
            Model::NewEnrollee => "NE",
            Model::SnpNewEnrollee => "SNPNE",
        }
    }

    /// The name under which the score of the model is reported.
    pub fn score_key(&self) -> (name: &'static str)
        ensures
            name@ == score_name(*self),
    {
        match self {
            Model::CommunityNA => "SCORE_COMMUNITY_NA",
            Model::CommunityND => "SCORE_COMMUNITY_ND",
            Model::CommunityFBA => "SCORE_COMMUNITY_FBA",
            Model::CommunityFBD => "SCORE_COMMUNITY_FBD",
            Model::CommunityPBA => "SCORE_COMMUNITY_PBA",
            Model::CommunityPBD => "SCORE_COMMUNITY_PBD",
            Model::Institutional => "SCORE_INSTITUTIONAL",
            Model::NewEnrollee => "SCORE_NEW_ENROLLEE",
            Model::SnpNewEnrollee => "SCORE_SNP_NEW_ENROLLEE",
        }
    }

    /// The regression that the model is scored with.
    pub fn regression(&self) -> (regression: Regression)
        ensures
            regression == regression_of(*self),
    {
        match self {
            Model::CommunityNA => Regression::CommunityAged,
            Model::CommunityND => Regression::CommunityDisabled,
            Model::CommunityFBA => Regression::CommunityAged,
            Model::CommunityFBD => Regression::CommunityDisabled,
            Model::CommunityPBA => Regression::CommunityAged,
            Model::CommunityPBD => Regression::CommunityDisabled,
            Model::Institutional => Regression::Institutional,
            Model::NewEnrollee => Regression::NewEnrollee,
            Model::SnpNewEnrollee => Regression::NewEnrollee,
        }
    }
}

/// The nine models, in the order in which they are scored.
pub fn model_list() -> (list: Vec<Model>)
    ensures
        list@ == models(),
{
    let mut list: Vec<Model> = Vec::new();
    list.push(Model::CommunityNA);
    list.push(Model::CommunityND);
    list.push(Model::CommunityFBA);
    list.push(Model::CommunityFBD);
    list.push(Model::CommunityPBA);
    list.push(Model::CommunityPBD);
    list.push(Model::Institutional);
    list.push(Model::NewEnrollee);
    list.push(Model::SnpNewEnrollee);
    assert(list@ =~= models());
    list
}

/// The enrollee buckets of `bands` consecutive age bands from `first_band`
/// on: those of the female sex by rising age, then those of the male sex.
pub open spec fn enrollee_buckets(first_band: int, bands: int) -> Seq<Seq<char>> {
    Seq::new((2 * bands) as nat, |i: int| enrollee_name(i >= bands, first_band + i % bands))
}

/// The six interactions of the community models.
pub open spec fn community_interaction_names() -> Seq<Seq<char>> {
    seq![
        "DIABETES_HF_V28"@,
        "HF_CHR_LUNG_V28"@,
        "HF_KIDNEY_V28"@,
        "CHR_LUNG_CARD_RESP_FAIL_V28"@,
        "HF_HCC238_V28"@,
        "gSubUseDisorder_gPsych_V28"@,
    ]
}

/// The interactions of the institutional model: the community interactions
/// but the psychiatric one, then the five interactions with the disabled flag.
pub open spec fn institutional_interaction_names() -> Seq<Seq<char>> {
    seq![
        "DIABETES_HF_V28"@,
        "HF_CHR_LUNG_V28"@,
        "HF_KIDNEY_V28"@,
        "CHR_LUNG_CARD_RESP_FAIL_V28"@,
        "HF_HCC238_V28"@,
        "DISABLED_CANCER_V28"@,
        "DISABLED_NEURO_V28"@,
        "DISABLED_HF_V28"@,
        "DISABLED_CHR_LUNG_V28"@,
        "DISABLED_ULCER_V28"@,
    ]
}

/// The ten payment-count buckets, `D1` to `D9` and `D10P`.
pub open spec fn payment_count_names() -> Seq<Seq<char>> {
    Seq::new(10, |i: int| payment_count_name((i + 1) as nat))
}

/// The variables that a regression permits besides the payment HCCs.
pub open spec fn regression_variables(regression: Regression) -> Seq<Seq<char>> {
    match regression {
        Regression::CommunityAged => enrollee_buckets(5, 7) + community_interaction_names()
            + payment_count_names(),
        Regression::CommunityDisabled => enrollee_buckets(0, 5) + community_interaction_names()
            + payment_count_names(),
        Regression::Institutional => enrollee_buckets(0, 12) + seq!["LTIMCAID"@, "ORIGDS"@]
            + institutional_interaction_names() + payment_count_names(),
        Regression::NewEnrollee => ne_reg_variables(),
    }
}

/// Builds the enrollee buckets of `bands` consecutive age bands from
/// `first_band` on.
pub fn enrollee_bucket_keys(first_band: usize, bands: usize) -> (list: Vec<String>)
    requires
        first_band + bands <= usize::MAX,
        2 * bands <= usize::MAX,
    ensures
        list.deep_view() == enrollee_buckets(first_band as int, bands as int),
{
    let mut list: Vec<String> = Vec::new();
    let mut i: usize = 0;
    while i < 2 * bands
        invariant
            first_band + bands <= usize::MAX,
            2 * bands <= usize::MAX,
            i <= 2 * bands,
            list.len() == i,
            forall|k: int|
                0 <= k < i ==> #[trigger] list.deep_view()[k] == enrollee_name(
                    k >= bands,
                    first_band + k % (bands as int),
                ),
        decreases 2 * bands - i,
    {
        push_name(&mut list, enrollee_key(i >= bands, first_band + i % bands));
        i += 1;
    }
    assert(list.deep_view() =~= enrollee_buckets(first_band as int, bands as int));
    list
}

/// Builds the list of the six interactions of the community models.
pub fn community_interaction_keys() -> (list: Vec<String>)
    ensures
        list.deep_view() == community_interaction_names(),
{
    let mut list: Vec<String> = Vec::new();
    push_str_name(&mut list, "DIABETES_HF_V28");
    push_str_name(&mut list, "HF_CHR_LUNG_V28");
    push_str_name(&mut list, "HF_KIDNEY_V28");
    push_str_name(&mut list, "CHR_LUNG_CARD_RESP_FAIL_V28");
    push_str_name(&mut list, "HF_HCC238_V28");
    push_str_name(&mut list, "gSubUseDisorder_gPsych_V28");
    assert(list.deep_view() =~= community_interaction_names());
    list
}

/// Builds the list of the interactions of the institutional model.
pub fn institutional_interaction_keys() -> (list: Vec<String>)
    ensures
        list.deep_view() == institutional_interaction_names(),
{
    let mut list: Vec<String> = Vec::new();
    push_str_name(&mut list, "DIABETES_HF_V28");
    push_str_name(&mut list, "HF_CHR_LUNG_V28");
    push_str_name(&mut list, "HF_KIDNEY_V28");
    push_str_name(&mut list, "CHR_LUNG_CARD_RESP_FAIL_V28");
    push_str_name(&mut list, "HF_HCC238_V28");
    push_str_name(&mut list, "DISABLED_CANCER_V28");
    push_str_name(&mut list, "DISABLED_NEURO_V28");
    push_str_name(&mut list, "DISABLED_HF_V28");
    push_str_name(&mut list, "DISABLED_CHR_LUNG_V28");
    push_str_name(&mut list, "DISABLED_ULCER_V28");
    assert(list.deep_view() =~= institutional_interaction_names());
    list
}

/// Builds the list of the ten payment-count buckets.
pub fn payment_count_keys() -> (list: Vec<String>)
    ensures
        list.deep_view() == payment_count_names(),
{
    let mut list: Vec<String> = Vec::new();
    let mut i: usize = 0;
    while i < 10
        invariant
            i <= 10,
            list.len() == i,
            forall|k: int|
                0 <= k < i ==> #[trigger] list.deep_view()[k] == payment_count_name((k + 1) as nat),
        decreases 10 - i,
    {
        match payment_count_key(i + 1) {
            Some(name) => push_str_name(&mut list, name),
            None => {},
        }
        i += 1;
    }
    assert(list.deep_view() =~= payment_count_names());
    list
}

/// Builds the list of the variables that a regression permits besides the
/// payment HCCs.
pub fn regression_variable_list(regression: Regression) -> (list: Vec<String>)
    ensures
        list.deep_view() == regression_variables(regression),
{
    match regression {
        Regression::CommunityAged => {
            let mut list = enrollee_bucket_keys(5, 7);
            append_names(&mut list, &community_interaction_keys());
            append_names(&mut list, &payment_count_keys());
            list
        },
        Regression::CommunityDisabled => {
            let mut list = enrollee_bucket_keys(0, 5);
            append_names(&mut list, &community_interaction_keys());
            append_names(&mut list, &payment_count_keys());
            list
        },
        Regression::Institutional => {
            let mut list = enrollee_bucket_keys(0, 12);
            let mut flags: Vec<String> = Vec::new();
            push_str_name(&mut flags, "LTIMCAID");
            push_str_name(&mut flags, "ORIGDS");
            assert(flags.deep_view() =~= seq!["LTIMCAID"@, "ORIGDS"@]);
            append_names(&mut list, &flags);
            append_names(&mut list, &institutional_interaction_keys());
            append_names(&mut list, &payment_count_keys());
            list
        },
        Regression::NewEnrollee => build_ne_reg_variable_list(),
    }
}

/// Whether a scoring pass takes up a tag: the regression's list holds it, or
/// it is one of the payment HCCs.
pub open spec fn permitted(variables: Seq<Seq<char>>, hccs: Set<Seq<char>>, tag: Seq<char>) -> bool {
    variables.contains(tag) || hccs.contains(tag)
}

/// A variable name with the code of its model before it.
pub open spec fn prefixed(model: Seq<char>, tag: Seq<char>) -> Seq<char> {
    model + "_"@ + tag
}

/// The model-prefixed names of the tags that a scoring pass takes up, in the
/// order of the tags.
pub open spec fn selected(
    variables: Seq<Seq<char>>,
    hccs: Set<Seq<char>>,
    model: Seq<char>,
    tags: Seq<Seq<char>>,
) -> Seq<Seq<char>> {
    tags.filter(|tag: Seq<char>| permitted(variables, hccs, tag)).map_values(
        |tag: Seq<char>| prefixed(model, tag),
    )
}

/// The variable that splits `ORIGDS` by sex in the community aged models.
pub open spec fn originally_disabled_variable(model: Seq<char>, male: bool) -> Seq<char> {
    if male {
        model + "_OriginallyDisabled_Male"@
    } else {
        model + "_OriginallyDisabled_Female"@
    }
}

/// The coefficients that a registry holds for a list of names, in the order
/// of the names. A name that the registry does not hold contributes nothing.
pub open spec fn coefficients_of(registry: Map<Seq<char>, RAFAttribute>, names: Seq<Seq<char>>) -> Seq<
    u32,
> {
    names.filter(|name: Seq<char>| registry.contains_key(name)).map_values(
        |name: Seq<char>| registry[name].coefficient,
    )
}

/// The registry after each of `names` has been used.
pub open spec fn marked_each(registry: Map<Seq<char>, RAFAttribute>, names: Seq<Seq<char>>) -> Map<
    Seq<char>,
    RAFAttribute,
> {
    Map::new(
        |name: Seq<char>| registry.contains_key(name),
        |name: Seq<char>|
            if names.contains(name) {
                RAFAttribute { coefficient: registry[name].coefficient, is_true: true }
            } else {
                registry[name]
            },
    )
}

/// Filters the tags of a beneficiary by the variables that a regression
/// permits and by the payment HCCs, and puts the code of the model before
/// each tag that is left.
pub fn select_variables(
    model: &str,
    variables: &Vec<String>,
    hcc_labels: &Table<String>,
    tags: &Vec<String>,
) -> (names: Vec<String>)
    ensures
        names.deep_view() == selected(
            variables.deep_view(),
            hcc_labels@.dom(),
            model@,
            tags.deep_view(),
        ),
{
    let ghost keep = |tag: Seq<char>| permitted(variables.deep_view(), hcc_labels@.dom(), tag);
    let ghost name_of = |tag: Seq<char>| prefixed(model@, tag);
    let ghost all = tags.deep_view();
    let mut names: Vec<String> = Vec::new();
    let mut i: usize = 0;
    assert(all.subrange(0, 0) =~= Seq::<Seq<char>>::empty());
    assert(names.deep_view() =~= all.subrange(0, 0).filter(keep).map_values(name_of)) by {
        reveal(Seq::filter);
    }
    while i < tags.len()
        invariant
            i <= tags.len(),
            all == tags.deep_view(),
            keep == |tag: Seq<char>| permitted(variables.deep_view(), hcc_labels@.dom(), tag),
            name_of == |tag: Seq<char>| prefixed(model@, tag),
            names.deep_view() == all.subrange(0, i as int).filter(keep).map_values(name_of),
        decreases tags.len() - i,
    {
        let ghost before = names.deep_view();
        let tag = &tags[i];
        proof {
            assert(all.subrange(0, i + 1) =~= all.subrange(0, i as int).push(all[i as int]));
            all.subrange(0, i as int).lemma_filter_push(all[i as int], keep);
        }
        if contains_name(variables, tag.as_str()) || hcc_labels.contains_key(tag.as_str()) {
            let mut name = String::from_str(model);
            name.append("_");
            name.append(tag.as_str());
            push_name(&mut names, name);
            assert(names.deep_view() =~= all.subrange(0, i + 1).filter(keep).map_values(name_of));
        }
        i += 1;
    }
    assert(all.subrange(0, i as int) =~= all);
    names
}

/// Looks up each name in the registry, in order, and returns the
/// coefficients found. Every name that the registry holds is flagged as used;
/// a name that it does not hold is passed over.
pub fn collect_coefficients(
    registry: &mut CoefficientRegistry,
    names: &Vec<String>,
) -> (terms: Vec<u32>)
    ensures
        terms@ == coefficients_of(old(registry)@, names.deep_view()),
        final(registry)@ == marked_each(old(registry)@, names.deep_view()),
        final(registry).attributes.names() == old(registry).attributes.names(),
{
    let ghost start = registry@;
    let ghost all = names.deep_view();
    let ghost held = |name: Seq<char>| start.contains_key(name);
    let ghost value = |name: Seq<char>| start[name].coefficient;
    let mut terms: Vec<u32> = Vec::new();
    let mut i: usize = 0;
    assert(all.subrange(0, 0) =~= Seq::<Seq<char>>::empty());
    assert(terms@ =~= all.subrange(0, 0).filter(held).map_values(value)) by {
        reveal(Seq::filter);
    }
    assert(registry@ =~= marked_each(start, all.subrange(0, 0)));
    while i < names.len()
        invariant
            i <= names.len(),
            all == names.deep_view(),
            held == |name: Seq<char>| start.contains_key(name),
            value == |name: Seq<char>| start[name].coefficient,
            terms@ == all.subrange(0, i as int).filter(held).map_values(value),
            registry@ == marked_each(start, all.subrange(0, i as int)),
            registry.attributes.names() == old(registry).attributes.names(),
        decreases names.len() - i,
    {
        let ghost terms_before = terms@;
        let ghost registry_before = registry@;
        let name = &names[i];
        proof {
            assert(all.subrange(0, i + 1) =~= all.subrange(0, i as int).push(all[i as int]));
            all.subrange(0, i as int).lemma_filter_push(all[i as int], held);
        }
        match registry.lookup(name.as_str()) {
            Some(coefficient) => {
                terms.push(coefficient);
                registry.mark_used(name.as_str());
                assert(terms@ =~= all.subrange(0, i + 1).filter(held).map_values(value));
            },
            None => {},
        }
        assert(registry@ =~= marked_each(start, all.subrange(0, i + 1))) by {
            assert forall|k: Seq<char>|
                all.subrange(0, i + 1).contains(k) <==> (all.subrange(0, i as int).contains(k)
                    || k == all[i as int]) by {
                if all.subrange(0, i as int).contains(k) {
                    let j = all.subrange(0, i as int).index_of(k);
                    assert(all.subrange(0, i + 1)[j] == k);
                }
                if k == all[i as int] {
                    assert(all.subrange(0, i + 1)[i as int] == k);
                }
            }
        }
        i += 1;
    }
    assert(all.subrange(0, i as int) =~= all);
    terms
}

/// The names that a scoring pass looks up: the tags that the regression
/// permits, each with the model code before it, and for the community aged
/// regression, where `ORIGDS` is among the tags, the variable that splits it
/// by sex. The new-enrollee regression takes no payment HCCs.
pub open spec fn model_variables(
    regression: Regression,
    model: Seq<char>,
    male: bool,
    hccs: Set<Seq<char>>,
    tags: Seq<Seq<char>>,
) -> Seq<Seq<char>> {
    match regression {
        Regression::CommunityAged => selected(regression_variables(regression), hccs, model, tags)
            + tag_if(tags.contains("ORIGDS"@), originally_disabled_variable(model, male)),
        Regression::CommunityDisabled => selected(
            regression_variables(regression),
            hccs,
            model,
            tags,
        ),
        Regression::Institutional => selected(regression_variables(regression), hccs, model, tags),
        Regression::NewEnrollee => selected(
            regression_variables(regression),
            Set::empty(),
            model,
            tags,
        ),
    }
}

/// The terms of a community aged score (models `CNA`, `CFA`, `CPA`): the
/// coefficients, in order, of the variables that the pass looks up and the
/// registry holds. The score is their sum. Every variable found is flagged
/// as used.
pub fn _get_community_model_reg_a_score(
    model: String,
    private_input: &PrivateRAFInput,
    public_inputs: &PublicRAFInputs,
    all_raf_attributes: &Vec<String>,
    registry: &mut CoefficientRegistry,
) -> (terms: Vec<u32>)
    ensures
        terms@ == coefficients_of(
            old(registry)@,
            model_variables(
                Regression::CommunityAged,
                model@,
                private_input.sex@ == "M"@,
                public_inputs.hcc_labels@.dom(),
                all_raf_attributes.deep_view(),
            ),
        ),
        final(registry)@ == marked_each(
            old(registry)@,
            model_variables(
                Regression::CommunityAged,
                model@,
                private_input.sex@ == "M"@,
                public_inputs.hcc_labels@.dom(),
                all_raf_attributes.deep_view(),
            ),
        ),
        final(registry).attributes.names() == old(registry).attributes.names(),
{
    let variables = regression_variable_list(Regression::CommunityAged);
    let mut raf_keys = select_variables(
        model.as_str(),
        &variables,
        &public_inputs.hcc_labels,
        all_raf_attributes,
    );
    let male = str_equal(private_input.sex.as_str(), "M");
    let mut origds_key = model;
    origds_key.append(
        if male {
            "_OriginallyDisabled_Male"
        } else {
            "_OriginallyDisabled_Female"
        },
    );
    push_if(&mut raf_keys, contains_name(all_raf_attributes, "ORIGDS"), origds_key.as_str());
    collect_coefficients(registry, &raf_keys)
}

/// The terms of a community disabled score (models `CND`, `CFD`, `CPD`).
pub fn _get_community_model_reg_d_score(
    model: String,
    public_inputs: &PublicRAFInputs,
    all_raf_attributes: &Vec<String>,
    registry: &mut CoefficientRegistry,
) -> (terms: Vec<u32>)
    ensures
        terms@ == coefficients_of(
            old(registry)@,
            model_variables(
                Regression::CommunityDisabled,
                model@,
                false,
                public_inputs.hcc_labels@.dom(),
                all_raf_attributes.deep_view(),
            ),
        ),
        final(registry)@ == marked_each(
            old(registry)@,
            model_variables(
                Regression::CommunityDisabled,
                model@,
                false,
                public_inputs.hcc_labels@.dom(),
                all_raf_attributes.deep_view(),
            ),
        ),
        final(registry).attributes.names() == old(registry).attributes.names(),
{
    let variables = regression_variable_list(Regression::CommunityDisabled);
    let raf_keys = select_variables(
        model.as_str(),
        &variables,
        &public_inputs.hcc_labels,
        all_raf_attributes,
    );
    collect_coefficients(registry, &raf_keys)
}

/// The terms of the institutional score (model `INS`).
pub fn _get_institutional_reg_score(
    model: String,
    public_inputs: &PublicRAFInputs,
    all_raf_attributes: &Vec<String>,
    registry: &mut CoefficientRegistry,
) -> (terms: Vec<u32>)
    ensures
        terms@ == coefficients_of(
            old(registry)@,
            model_variables(
                Regression::Institutional,
                model@,
                false,
                public_inputs.hcc_labels@.dom(),
                all_raf_attributes.deep_view(),
            ),
        ),
        final(registry)@ == marked_each(
            old(registry)@,
            model_variables(
                Regression::Institutional,
                model@,
                false,
                public_inputs.hcc_labels@.dom(),
                all_raf_attributes.deep_view(),
            ),
        ),
        final(registry).attributes.names() == old(registry).attributes.names(),
{
    let variables = regression_variable_list(Regression::Institutional);
    let raf_keys = select_variables(
        model.as_str(),
        &variables,
        &public_inputs.hcc_labels,
        all_raf_attributes,
    );
    collect_coefficients(registry, &raf_keys)
}

/// The terms of a new-enrollee score (models `NE`, `SNPNE`).
pub fn _get_new_enrollee_score(
    model: String,
    all_raf_attributes: &Vec<String>,
    registry: &mut CoefficientRegistry,
) -> (terms: Vec<u32>)
    ensures
        terms@ == coefficients_of(
            old(registry)@,
            model_variables(
                Regression::NewEnrollee,
                model@,
                false,
                Set::empty(),
                all_raf_attributes.deep_view(),
            ),
        ),
        final(registry)@ == marked_each(
            old(registry)@,
            model_variables(
                Regression::NewEnrollee,
                model@,
                false,
                Set::empty(),
                all_raf_attributes.deep_view(),
            ),
        ),
        final(registry).attributes.names() == old(registry).attributes.names(),
{
    let new_enrollee_vars = regression_variable_list(Regression::NewEnrollee);
    let no_hccs: Table<String> = Table::new();
    assert(no_hccs@.dom() =~= Set::<Seq<char>>::empty());
    let raf_keys = select_variables(
        model.as_str(),
        &new_enrollee_vars,
        &no_hccs,
        all_raf_attributes,
    );
    collect_coefficients(registry, &raf_keys)
}

} // verus!
