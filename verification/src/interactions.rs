use vstd::prelude::*;

use crate::text::{
    append_names, contains_name, lemma_concat_contains, lemma_tag_if_contains, names_if, push_if,
    tag_if,
};

verus! {

/// The eleven diagnostic categories, each an indicator that is set when at
/// least one HCC of its group is present.
#[derive(Clone, Copy, Debug, PartialEq, Eq, Structural)]
pub struct DiagnosticCategories {
    pub cancer: bool,
    pub diabetes: bool,
    pub card_resp_fail: bool,
    pub hf: bool,
    pub chr_lung: bool,
    pub kidney: bool,
    pub sepsis: bool,
    pub sub_use_disorder: bool,
    pub psychiatric: bool,
    pub neuro: bool,
    pub ulcer: bool,
}

/// `CANCER_V28`: any of HCC17 to HCC23.
pub open spec fn cancer(hccs: Seq<Seq<char>>) -> bool {
    hccs.contains("HCC17"@) || hccs.contains("HCC18"@) || hccs.contains("HCC19"@)
        || hccs.contains("HCC20"@) || hccs.contains("HCC21"@) || hccs.contains("HCC22"@)
        || hccs.contains("HCC23"@)
}

/// `DIABETES_V28`: any of HCC35 to HCC38.
pub open spec fn diabetes(hccs: Seq<Seq<char>>) -> bool {
    hccs.contains("HCC35"@) || hccs.contains("HCC36"@) || hccs.contains("HCC37"@)
        || hccs.contains("HCC38"@)
}

/// `CARD_RESP_FAIL`: any of HCC211 to HCC213.
pub open spec fn card_resp_fail(hccs: Seq<Seq<char>>) -> bool {
    hccs.contains("HCC211"@) || hccs.contains("HCC212"@) || hccs.contains("HCC213"@)
}

/// `HF_V28`: any of HCC221 to HCC226.
pub open spec fn hf(hccs: Seq<Seq<char>>) -> bool {
    hccs.contains("HCC221"@) || hccs.contains("HCC222"@) || hccs.contains("HCC223"@)
        || hccs.contains("HCC224"@) || hccs.contains("HCC225"@) || hccs.contains("HCC226"@)
}

/// `CHR_LUNG_V28`: any of HCC276 to HCC280.
pub open spec fn chr_lung(hccs: Seq<Seq<char>>) -> bool {
    hccs.contains("HCC276"@) || hccs.contains("HCC277"@) || hccs.contains("HCC278"@)
        || hccs.contains("HCC279"@) || hccs.contains("HCC280"@)
}

/// `KIDNEY_V28`: any of HCC326 to HCC329.
pub open spec fn kidney(hccs: Seq<Seq<char>>) -> bool {
    hccs.contains("HCC326"@) || hccs.contains("HCC327"@) || hccs.contains("HCC328"@)
        || hccs.contains("HCC329"@)
}

/// `SEPSIS`: HCC2.
pub open spec fn sepsis(hccs: Seq<Seq<char>>) -> bool {
    hccs.contains("HCC2"@)
}

/// `gSubUseDisorder_V28`: any of HCC135 to HCC139.
pub open spec fn sub_use_disorder(hccs: Seq<Seq<char>>) -> bool {
    hccs.contains("HCC135"@) || hccs.contains("HCC136"@) || hccs.contains("HCC137"@)
        || hccs.contains("HCC138"@) || hccs.contains("HCC139"@)
}

/// `gPsychiatric_V28`: any of HCC151 to HCC155.
pub open spec fn psychiatric(hccs: Seq<Seq<char>>) -> bool {
    hccs.contains("HCC151"@) || hccs.contains("HCC152"@) || hccs.contains("HCC153"@)
        || hccs.contains("HCC154"@) || hccs.contains("HCC155"@)
}

/// `NEURO_V28`: any of HCC180, 181, 182, 190, 191, 192, 195, 196, 198, 199.
pub open spec fn neuro(hccs: Seq<Seq<char>>) -> bool {
    hccs.contains("HCC180"@) || hccs.contains("HCC181"@) || hccs.contains("HCC182"@)
        || hccs.contains("HCC190"@) || hccs.contains("HCC191"@) || hccs.contains("HCC192"@)
        || hccs.contains("HCC195"@) || hccs.contains("HCC196"@) || hccs.contains("HCC198"@)
        || hccs.contains("HCC199"@)
}

/// `ULCER_V28`: any of HCC379 to HCC382.
pub open spec fn ulcer(hccs: Seq<Seq<char>>) -> bool {
    hccs.contains("HCC379"@) || hccs.contains("HCC380"@) || hccs.contains("HCC381"@)
        || hccs.contains("HCC382"@)
}

/// The diagnostic categories of a list of HCCs.
pub open spec fn categories_of(hccs: Seq<Seq<char>>) -> DiagnosticCategories {
    DiagnosticCategories {
        cancer: cancer(hccs),
        diabetes: diabetes(hccs),
        card_resp_fail: card_resp_fail(hccs),
        hf: hf(hccs),
        chr_lung: chr_lung(hccs),
        kidney: kidney(hccs),
        sepsis: sepsis(hccs),
        sub_use_disorder: sub_use_disorder(hccs),
        psychiatric: psychiatric(hccs),
        neuro: neuro(hccs),
        ulcer: ulcer(hccs),
    }
}

/// The community-model interactions that fire: each is the product of two
/// indicators, the second operand of `HF_HCC238_V28` being the presence of HCC238.
pub open spec fn community_interactions(hccs: Seq<Seq<char>>) -> Seq<Seq<char>> {
    let c = categories_of(hccs);
    tag_if(c.diabetes && c.hf, "DIABETES_HF_V28"@)
        + tag_if(c.hf && c.chr_lung, "HF_CHR_LUNG_V28"@)
        + tag_if(c.hf && c.kidney, "HF_KIDNEY_V28"@)
        + tag_if(c.chr_lung && c.card_resp_fail, "CHR_LUNG_CARD_RESP_FAIL_V28"@)
        + tag_if(c.hf && hccs.contains("HCC238"@), "HF_HCC238_V28"@)
        + tag_if(c.sub_use_disorder && c.psychiatric, "gSubUseDisorder_gPsych_V28"@)
}

/// The institutional-model interactions that fire: each is the product of the
/// disabled flag and one diagnostic category.
pub open spec fn institutional_interactions(hccs: Seq<Seq<char>>, disabled: bool) -> Seq<
    Seq<char>,
> {
    let c = categories_of(hccs);
    tag_if(disabled && c.cancer, "DISABLED_CANCER_V28"@)
        + tag_if(disabled && c.neuro, "DISABLED_NEURO_V28"@)
        + tag_if(disabled && c.hf, "DISABLED_HF_V28"@)
        + tag_if(disabled && c.chr_lung, "DISABLED_CHR_LUNG_V28"@)
        + tag_if(disabled && c.ulcer, "DISABLED_ULCER_V28"@)
}

/// The name of the payment-count bucket for `n` HCCs, `1 <= n`: `D1` to `D9`,
/// and `D10P` from ten on.
pub open spec fn payment_count_name(n: nat) -> Seq<char> {
    if n == 1 {
        "D1"@
    } else if n == 2 {
        "D2"@
    } else if n == 3 {
        "D3"@
    } else if n == 4 {
        "D4"@
    } else if n == 5 {
        "D5"@
    } else if n == 6 {
        "D6"@
    } else if n == 7 {
        "D7"@
    } else if n == 8 {
        "D8"@
    } else if n == 9 {
        "D9"@
    } else {
        "D10P"@
    }
}

/// The payment-count bucket of `n` HCCs: none for zero, else one tag.
pub open spec fn payment_count_tags(n: nat) -> Seq<Seq<char>> {
    tag_if(n >= 1, payment_count_name(n))
}

/// Every interaction tag of value one, in a fixed order: community
/// interactions, institutional interactions, payment-count bucket.
pub open spec fn interactions(hccs: Seq<Seq<char>>, disabled: bool) -> Seq<Seq<char>> {
    community_interactions(hccs) + institutional_interactions(hccs, disabled)
        + payment_count_tags(hccs.len())
}

/// A community interaction fires exactly where both of its operands are set.
pub proof fn lemma_community_interactions(hccs: Seq<Seq<char>>, tag: Seq<char>)
    ensures
        community_interactions(hccs).contains(tag) <==> {
            let c = categories_of(hccs);
            ||| (tag == "DIABETES_HF_V28"@ && c.diabetes && c.hf)
            ||| (tag == "HF_CHR_LUNG_V28"@ && c.hf && c.chr_lung)
            ||| (tag == "HF_KIDNEY_V28"@ && c.hf && c.kidney)
            ||| (tag == "CHR_LUNG_CARD_RESP_FAIL_V28"@ && c.chr_lung && c.card_resp_fail)
            ||| (tag == "HF_HCC238_V28"@ && c.hf && hccs.contains("HCC238"@))
            ||| (tag == "gSubUseDisorder_gPsych_V28"@ && c.sub_use_disorder && c.psychiatric)
        },
{
    let c = categories_of(hccs);
    let t1 = tag_if(c.diabetes && c.hf, "DIABETES_HF_V28"@);
    let t2 = tag_if(c.hf && c.chr_lung, "HF_CHR_LUNG_V28"@);
    let t3 = tag_if(c.hf && c.kidney, "HF_KIDNEY_V28"@);
    let t4 = tag_if(c.chr_lung && c.card_resp_fail, "CHR_LUNG_CARD_RESP_FAIL_V28"@);
    let t5 = tag_if(c.hf && hccs.contains("HCC238"@), "HF_HCC238_V28"@);
    let t6 = tag_if(c.sub_use_disorder && c.psychiatric, "gSubUseDisorder_gPsych_V28"@);
    lemma_tag_if_contains(c.diabetes && c.hf, "DIABETES_HF_V28"@, tag);
    lemma_tag_if_contains(c.hf && c.chr_lung, "HF_CHR_LUNG_V28"@, tag);
    lemma_tag_if_contains(c.hf && c.kidney, "HF_KIDNEY_V28"@, tag);
    lemma_tag_if_contains(c.chr_lung && c.card_resp_fail, "CHR_LUNG_CARD_RESP_FAIL_V28"@, tag);
    lemma_tag_if_contains(c.hf && hccs.contains("HCC238"@), "HF_HCC238_V28"@, tag);
    lemma_tag_if_contains(
        c.sub_use_disorder && c.psychiatric,
        "gSubUseDisorder_gPsych_V28"@,
        tag,
    );
    lemma_concat_contains(t1, t2);
    lemma_concat_contains(t1 + t2, t3);
    lemma_concat_contains(t1 + t2 + t3, t4);
    lemma_concat_contains(t1 + t2 + t3 + t4, t5);
    lemma_concat_contains(t1 + t2 + t3 + t4 + t5, t6);
    assert(community_interactions(hccs) == t1 + t2 + t3 + t4 + t5 + t6);
}

/// An institutional interaction fires exactly where the disabled flag and
/// its diagnostic category are set.
pub proof fn lemma_institutional_interactions(hccs: Seq<Seq<char>>, disabled: bool, tag: Seq<char>)
    ensures
        institutional_interactions(hccs, disabled).contains(tag) <==> {
            let c = categories_of(hccs);
            disabled && {
                ||| (tag == "DISABLED_CANCER_V28"@ && c.cancer)
                ||| (tag == "DISABLED_NEURO_V28"@ && c.neuro)
                ||| (tag == "DISABLED_HF_V28"@ && c.hf)
                ||| (tag == "DISABLED_CHR_LUNG_V28"@ && c.chr_lung)
                ||| (tag == "DISABLED_ULCER_V28"@ && c.ulcer)
            }
        },
{
    let c = categories_of(hccs);
    let t1 = tag_if(disabled && c.cancer, "DISABLED_CANCER_V28"@);
    let t2 = tag_if(disabled && c.neuro, "DISABLED_NEURO_V28"@);
    let t3 = tag_if(disabled && c.hf, "DISABLED_HF_V28"@);
    let t4 = tag_if(disabled && c.chr_lung, "DISABLED_CHR_LUNG_V28"@);
    let t5 = tag_if(disabled && c.ulcer, "DISABLED_ULCER_V28"@);
    lemma_tag_if_contains(disabled && c.cancer, "DISABLED_CANCER_V28"@, tag);
    lemma_tag_if_contains(disabled && c.neuro, "DISABLED_NEURO_V28"@, tag);
    lemma_tag_if_contains(disabled && c.hf, "DISABLED_HF_V28"@, tag);
    lemma_tag_if_contains(disabled && c.chr_lung, "DISABLED_CHR_LUNG_V28"@, tag);
    lemma_tag_if_contains(disabled && c.ulcer, "DISABLED_ULCER_V28"@, tag);
    lemma_concat_contains(t1, t2);
    lemma_concat_contains(t1 + t2, t3);
    lemma_concat_contains(t1 + t2 + t3, t4);
    lemma_concat_contains(t1 + t2 + t3 + t4, t5);
    assert(institutional_interactions(hccs, disabled) == t1 + t2 + t3 + t4 + t5);
}

/// The interaction tags are those of the community interactions, of the
/// institutional interactions and of the payment-count bucket.
pub proof fn lemma_interactions(hccs: Seq<Seq<char>>, disabled: bool, tag: Seq<char>)
    ensures
        interactions(hccs, disabled).contains(tag) <==> (community_interactions(hccs).contains(tag)
            || institutional_interactions(hccs, disabled).contains(tag) || payment_count_tags(
            hccs.len(),
        ).contains(tag)),
{
    lemma_concat_contains(
        community_interactions(hccs),
        institutional_interactions(hccs, disabled),
    );
    lemma_concat_contains(
        community_interactions(hccs) + institutional_interactions(hccs, disabled),
        payment_count_tags(hccs.len()),
    );
}

/// The diagnostic categories grow with the HCCs: a category that is set for
/// a list of HCCs is set for every list that holds the same HCCs and more.
pub proof fn lemma_categories_grow(hccs: Seq<Seq<char>>, more: Seq<Seq<char>>)
    requires
        forall|hcc: Seq<char>| hccs.contains(hcc) ==> more.contains(hcc),
    ensures
        cancer(hccs) ==> cancer(more),
        diabetes(hccs) ==> diabetes(more),
        card_resp_fail(hccs) ==> card_resp_fail(more),
        hf(hccs) ==> hf(more),
        chr_lung(hccs) ==> chr_lung(more),
        kidney(hccs) ==> kidney(more),
        sepsis(hccs) ==> sepsis(more),
        sub_use_disorder(hccs) ==> sub_use_disorder(more),
        psychiatric(hccs) ==> psychiatric(more),
        neuro(hccs) ==> neuro(more),
        ulcer(hccs) ==> ulcer(more),
{
}

/// Computes the eleven diagnostic categories of a list of HCCs.
pub fn diagnostic_categories(hccs: &Vec<String>) -> (c: DiagnosticCategories)
    ensures
        c == categories_of(hccs.deep_view()),
{
    DiagnosticCategories {
        cancer: contains_name(hccs, "HCC17") || contains_name(hccs, "HCC18") || contains_name(
            hccs,
            "HCC19",
        ) || contains_name(hccs, "HCC20") || contains_name(hccs, "HCC21") || contains_name(
            hccs,
            "HCC22",
        ) || contains_name(hccs, "HCC23"),
        diabetes: contains_name(hccs, "HCC35") || contains_name(hccs, "HCC36") || contains_name(
            hccs,
            "HCC37",
        ) || contains_name(hccs, "HCC38"),
        card_resp_fail: contains_name(hccs, "HCC211") || contains_name(hccs, "HCC212")
            || contains_name(hccs, "HCC213"),
        hf: contains_name(hccs, "HCC221") || contains_name(hccs, "HCC222") || contains_name(
            hccs,
            "HCC223",
        ) || contains_name(hccs, "HCC224") || contains_name(hccs, "HCC225") || contains_name(
            hccs,
            "HCC226",
        ),
        chr_lung: contains_name(hccs, "HCC276") || contains_name(hccs, "HCC277") || contains_name(
            hccs,
            "HCC278",
        ) || contains_name(hccs, "HCC279") || contains_name(hccs, "HCC280"),
        kidney: contains_name(hccs, "HCC326") || contains_name(hccs, "HCC327") || contains_name(
            hccs,
            "HCC328",
        ) || contains_name(hccs, "HCC329"),
        sepsis: contains_name(hccs, "HCC2"),
        sub_use_disorder: contains_name(hccs, "HCC135") || contains_name(hccs, "HCC136")
            || contains_name(hccs, "HCC137") || contains_name(hccs, "HCC138") || contains_name(
            hccs,
            "HCC139",
        ),
        psychiatric: contains_name(hccs, "HCC151") || contains_name(hccs, "HCC152")
            || contains_name(hccs, "HCC153") || contains_name(hccs, "HCC154") || contains_name(
            hccs,
            "HCC155",
        ),
        neuro: contains_name(hccs, "HCC180") || contains_name(hccs, "HCC181") || contains_name(
            hccs,
            "HCC182",
        ) || contains_name(hccs, "HCC190") || contains_name(hccs, "HCC191") || contains_name(
            hccs,
            "HCC192",
        ) || contains_name(hccs, "HCC195") || contains_name(hccs, "HCC196") || contains_name(
            hccs,
            "HCC198",
        ) || contains_name(hccs, "HCC199"),
        ulcer: contains_name(hccs, "HCC379") || contains_name(hccs, "HCC380") || contains_name(
            hccs,
            "HCC381",
        ) || contains_name(hccs, "HCC382"),
    }
}

/// The name of the payment-count bucket for `n` HCCs: none for zero.
pub fn payment_count_key(n: usize) -> (name: Option<&'static str>)
    ensures
        name is Some <==> n >= 1,
        name is Some ==> name->0@ == payment_count_name(n as nat),
{
    if n == 0 {
        None
    } else if n == 1 {
        Some("D1")
    } else if n == 2 {
        Some("D2")
    } else if n == 3 {
        Some("D3")
    } else if n == 4 {
        Some("D4")
    } else if n == 5 {
        Some("D5")
    } else if n == 6 {
        Some("D6")
    } else if n == 7 {
        Some("D7")
    } else if n == 8 {
        Some("D8")
    } else if n == 9 {
        Some("D9")
    } else {
        Some("D10P")
    }
}

/// The community-model interactions that fire for these HCCs.
pub fn community_tags(hccs: &Vec<String>) -> (tags: Vec<String>)
    ensures
        tags.deep_view() == community_interactions(hccs.deep_view()),
{
    let c = diagnostic_categories(hccs);
    let has_hcc238 = contains_name(hccs, "HCC238");
    let mut tags = names_if(c.diabetes && c.hf, "DIABETES_HF_V28");
    push_if(&mut tags, c.hf && c.chr_lung, "HF_CHR_LUNG_V28");
    push_if(&mut tags, c.hf && c.kidney, "HF_KIDNEY_V28");
    push_if(&mut tags, c.chr_lung && c.card_resp_fail, "CHR_LUNG_CARD_RESP_FAIL_V28");
    push_if(&mut tags, c.hf && has_hcc238, "HF_HCC238_V28");
    push_if(&mut tags, c.sub_use_disorder && c.psychiatric, "gSubUseDisorder_gPsych_V28");
    tags
}

/// The institutional-model interactions that fire for these HCCs.
pub fn institutional_tags(hccs: &Vec<String>, is_disabled: bool) -> (tags: Vec<String>)
    ensures
        tags.deep_view() == institutional_interactions(hccs.deep_view(), is_disabled),
{
    let c = diagnostic_categories(hccs);
    let mut tags = names_if(is_disabled && c.cancer, "DISABLED_CANCER_V28");
    push_if(&mut tags, is_disabled && c.neuro, "DISABLED_NEURO_V28");
    push_if(&mut tags, is_disabled && c.hf, "DISABLED_HF_V28");
    push_if(&mut tags, is_disabled && c.chr_lung, "DISABLED_CHR_LUNG_V28");
    push_if(&mut tags, is_disabled && c.ulcer, "DISABLED_ULCER_V28");
    tags
}

/// Derives the interaction tags of a beneficiary from the HCCs that survived
/// the hierarchy and from the disabled flag. Only tags of value one are
/// returned; the HCCs themselves and the diagnostic categories are not.
pub fn _apply_interactions(
    patient_hcc_list: &Vec<String>,
    is_disabled: bool,
) -> (tags: Vec<String>)
    ensures
        tags.deep_view() == interactions(patient_hcc_list.deep_view(), is_disabled),
{
    let mut tags = community_tags(patient_hcc_list);
    let institutional = institutional_tags(patient_hcc_list, is_disabled);
    append_names(&mut tags, &institutional);
    match payment_count_key(patient_hcc_list.len()) {
        Some(name) => push_if(&mut tags, true, name),
        None => {
            assert(tags.deep_view() + Seq::<Seq<char>>::empty() =~= tags.deep_view());
        },
    }
    tags
}

} // verus!
