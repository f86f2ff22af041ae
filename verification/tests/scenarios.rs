use zero_raf_core::age_sex::_age_sex_v2;
use zero_raf_core::engine::{map_diagnoses, raf_attributes, score_all_models, Scoring};
use zero_raf_core::hierarchy::_apply_hierarchy;
use zero_raf_core::interactions::{_apply_interactions, diagnostic_categories};
use zero_raf_core::scoring::Model;
use zero_raf_core::table::Table;
use zero_raf_core::{PrivateRAFInput, PublicRAFInputs};

fn names(list: &[&str]) -> Vec<String> {
    list.iter().map(|s| s.to_string()).collect()
}

fn public_inputs(
    coefficients: &[(&str, f32)],
    hierarchies: &[(&str, &[&str])],
    labels: &[&str],
    dx_to_cc: &[(&str, &[&str])],
) -> PublicRAFInputs {
    let mut hcc_coefficients = Table::<u32>::new();
    for (name, value) in coefficients {
        hcc_coefficients.insert(name.to_string(), value.to_bits());
    }
    let mut hcc_hierarchies = Table::<Vec<String>>::new();
    for (superior, inferiors) in hierarchies {
        hcc_hierarchies.insert(superior.to_string(), names(inferiors));
    }
    let mut hcc_labels = Table::<String>::new();
    for label in labels {
        hcc_labels.insert(label.to_string(), format!("label of {}", label));
    }
    let mut table = Table::<Vec<String>>::new();
    for (dx, ccs) in dx_to_cc {
        table.insert(dx.to_string(), names(ccs));
    }
    PublicRAFInputs {
        hcc_coefficients,
        hcc_hierarchies,
        hcc_labels,
        dx_to_cc: table,
        norm_factor: 1.0f32.to_bits(),
    }
}

fn beneficiary(age: i32, sex: &str, orec: &str, diagnoses: &[&str]) -> PrivateRAFInput {
    PrivateRAFInput {
        diagnosis_codes: names(diagnoses),
        age,
        sex: sex.to_string(),
        eligibility_code: "CNA".to_string(),
        entitlement_reason_code: orec.to_string(),
        medicaid_status: false,
        long_term_institutionalized: false,
    }
}

fn score(outcome: &Scoring, name: &str, norm_factor: u32) -> f32 {
    let entry = outcome.scores.iter().find(|s| s.name == name).unwrap();
    let mut sum: f32 = 0.0;
    for term in entry.terms.iter() {
        sum += f32::from_bits(*term);
    }
    sum * f32::from_bits(norm_factor)
}

fn close(a: f32, b: f32) -> bool {
    (a - b).abs() < 1e-6
}

#[test]
fn aged_male_without_diagnoses() {
    let public = public_inputs(
        &[
            ("CNA_M70_74", 0.4),
            ("CFA_M70_74", 0.5),
            ("CPA_M70_74", 0.6),
            ("INS_M70_74", 1.2),
            ("CND_M70_74", 9.0),
            ("CNA_HCC17", 2.0),
            ("CNA_D1", 0.3),
        ],
        &[],
        &["HCC17"],
        &[],
    );
    let private = beneficiary(70, "M", "0", &[]);
    let outcome = score_all_models(&public, &private);
    assert_eq!(outcome.scores.len(), 9);
    assert_eq!(score(&outcome, "SCORE_COMMUNITY_NA", public.norm_factor), 0.4);
    assert_eq!(score(&outcome, "SCORE_COMMUNITY_FBA", public.norm_factor), 0.5);
    assert_eq!(score(&outcome, "SCORE_COMMUNITY_PBA", public.norm_factor), 0.6);
    assert_eq!(score(&outcome, "SCORE_INSTITUTIONAL", public.norm_factor), 1.2);
    assert_eq!(score(&outcome, "SCORE_COMMUNITY_ND", public.norm_factor), 0.0);
    assert_eq!(score(&outcome, "SCORE_COMMUNITY_FBD", public.norm_factor), 0.0);
    assert_eq!(score(&outcome, "SCORE_COMMUNITY_PBD", public.norm_factor), 0.0);
    assert_eq!(score(&outcome, "SCORE_NEW_ENROLLEE", public.norm_factor), 0.0);
    assert_eq!(score(&outcome, "SCORE_SNP_NEW_ENROLLEE", public.norm_factor), 0.0);
}

#[test]
fn scores_come_in_the_order_of_the_models() {
    let public = public_inputs(&[], &[], &[], &[]);
    let private = beneficiary(70, "M", "0", &[]);
    let outcome = score_all_models(&public, &private);
    let got: Vec<&str> = outcome.scores.iter().map(|s| s.name.as_str()).collect();
    assert_eq!(
        got,
        vec![
            "SCORE_COMMUNITY_NA",
            "SCORE_COMMUNITY_ND",
            "SCORE_COMMUNITY_FBA",
            "SCORE_COMMUNITY_FBD",
            "SCORE_COMMUNITY_PBA",
            "SCORE_COMMUNITY_PBD",
            "SCORE_INSTITUTIONAL",
            "SCORE_NEW_ENROLLEE",
            "SCORE_SNP_NEW_ENROLLEE",
        ]
    );
    assert_eq!(outcome.scores[0].model, Model::CommunityNA);
    assert_eq!(outcome.scores[8].model, Model::SnpNewEnrollee);
    assert_eq!(Model::CommunityFBD.code(), "CFD");
    assert_eq!(Model::SnpNewEnrollee.code(), "SNPNE");
}

#[test]
fn hierarchy_suppression_scenario() {
    let hier: &[(&str, &[&str])] = &[("HCC17", &["HCC18", "HCC19"])];
    let mut table = Table::<Vec<String>>::new();
    table.insert("HCC17".to_string(), names(&["HCC18", "HCC19"]));
    assert_eq!(_apply_hierarchy(&table, &names(&["HCC17", "HCC19"])), names(&["HCC17"]));

    let public = public_inputs(
        &[("CNA_HCC17", 2.0), ("CNA_HCC19", 1.0), ("CNA_M75_79", 0.5)],
        hier,
        &["HCC17", "HCC18", "HCC19"],
        &[("C7800", &["HCC17"]), ("C9000", &["HCC19"])],
    );
    let private = beneficiary(75, "M", "0", &["C7800", "C9000"]);
    let outcome = score_all_models(&public, &private);
    assert_eq!(score(&outcome, "SCORE_COMMUNITY_NA", public.norm_factor), 2.5);
}

#[test]
fn diabetes_and_heart_failure_interact() {
    let kept = names(&["HCC37", "HCC221"]);
    assert!(_apply_interactions(&kept, false).contains(&"DIABETES_HF_V28".to_string()));

    let public = public_inputs(
        &[
            ("CNA_HCC37", 0.3),
            ("CNA_HCC221", 0.4),
            ("CNA_DIABETES_HF_V28", 0.11),
            ("CNA_M75_79", 0.5),
        ],
        &[],
        &["HCC37", "HCC221"],
        &[("E1122", &["HCC37"]), ("I5020", &["HCC221"])],
    );
    let private = beneficiary(75, "M", "0", &["E1122", "I5020"]);
    let outcome = score_all_models(&public, &private);
    assert!(close(score(&outcome, "SCORE_COMMUNITY_NA", public.norm_factor), 1.31));
}

#[test]
fn originally_disabled_woman() {
    let tags = _age_sex_v2(70, "F", "1");
    assert_eq!(tags, names(&["F70_74", "NEF70_74", "ORIGDS"]));

    let public = public_inputs(
        &[
            ("CNA_OriginallyDisabled_Female", 0.2),
            ("CNA_OriginallyDisabled_Male", 7.0),
            ("CNA_F70_74", 0.35),
            ("CND_OriginallyDisabled_Female", 5.0),
            ("INS_ORIGDS", 0.25),
        ],
        &[],
        &[],
        &[],
    );
    let private = beneficiary(70, "F", "1", &[]);
    let outcome = score_all_models(&public, &private);
    assert!(close(score(&outcome, "SCORE_COMMUNITY_NA", public.norm_factor), 0.55));
    assert_eq!(score(&outcome, "SCORE_COMMUNITY_ND", public.norm_factor), 0.0);
    assert_eq!(score(&outcome, "SCORE_INSTITUTIONAL", public.norm_factor), 0.25);
}

#[test]
fn originally_disabled_man_takes_the_male_variable() {
    let public = public_inputs(
        &[
            ("CFA_OriginallyDisabled_Female", 0.2),
            ("CFA_OriginallyDisabled_Male", 0.75),
        ],
        &[],
        &[],
        &[],
    );
    let private = beneficiary(66, "M", "1", &[]);
    let outcome = score_all_models(&public, &private);
    assert_eq!(score(&outcome, "SCORE_COMMUNITY_FBA", public.norm_factor), 0.75);
}

#[test]
fn payment_count_is_capped_at_ten() {
    let twelve = names(&[
        "HCC1", "HCC2", "HCC6", "HCC17", "HCC35", "HCC48", "HCC62", "HCC77", "HCC92", "HCC107",
        "HCC125", "HCC135",
    ]);
    let tags = _apply_interactions(&twelve, false);
    assert!(tags.contains(&"D10P".to_string()));
    assert!(!tags.contains(&"D12".to_string()));
    assert!(!tags.contains(&"D9".to_string()));

    let dx: Vec<(String, Vec<String>)> =
        twelve.iter().map(|h| (format!("DX{}", h), vec![h.clone()])).collect();
    let mut public = public_inputs(&[("CNA_D10P", 0.7)], &[], &[], &[]);
    for (code, hccs) in dx.iter() {
        public.dx_to_cc.insert(code.clone(), hccs.clone());
    }
    let codes: Vec<String> = dx.iter().map(|d| d.0.clone()).collect();
    let mut private = beneficiary(75, "M", "0", &[]);
    private.diagnosis_codes = codes;
    let outcome = score_all_models(&public, &private);
    assert_eq!(score(&outcome, "SCORE_COMMUNITY_NA", public.norm_factor), 0.7);
}

#[test]
fn payment_count_buckets_one_to_ten() {
    let pool = names(&[
        "HCC1", "HCC2", "HCC6", "HCC17", "HCC35", "HCC48", "HCC62", "HCC77", "HCC92", "HCC107",
        "HCC125",
    ]);
    assert_eq!(_apply_interactions(&Vec::new(), true), Vec::<String>::new());
    for n in 1..=9 {
        let tags = _apply_interactions(&pool[..n].to_vec(), false);
        assert_eq!(tags, vec![format!("D{}", n)]);
    }
    assert_eq!(_apply_interactions(&pool[..10].to_vec(), false), names(&["D10P"]));
    assert_eq!(_apply_interactions(&pool, false), names(&["D10P"]));
}

#[test]
fn new_enrollee_at_sixty_four() {
    let tags = _age_sex_v2(64, "M", "1");
    assert!(tags.contains(&"NEM60_64".to_string()));
    assert!(!tags.contains(&"NEM65".to_string()));
    assert_eq!(tags, names(&["M60_64", "NEM60_64", "DISABL"]));
    assert_eq!(_age_sex_v2(64, "M", "2"), names(&["M60_64", "NEM60_64", "DISABL"]));
    assert_eq!(_age_sex_v2(64, "M", "0"), names(&["M60_64", "NEM65"]));
}

#[test]
fn ages_at_the_edges_of_the_bands() {
    let enrollee = |age: i32| _age_sex_v2(age, "F", "0")[0].clone();
    let new_enrollee = |age: i32| _age_sex_v2(age, "F", "1")[1].clone();
    assert_eq!(enrollee(34), "F0_34");
    assert_eq!(enrollee(35), "F35_44");
    assert_eq!(enrollee(44), "F35_44");
    assert_eq!(enrollee(45), "F45_54");
    assert_eq!(enrollee(54), "F45_54");
    assert_eq!(enrollee(55), "F55_59");
    assert_eq!(enrollee(59), "F55_59");
    assert_eq!(enrollee(60), "F60_64");
    assert_eq!(enrollee(64), "F60_64");
    assert_eq!(enrollee(65), "F65_69");
    assert_eq!(enrollee(69), "F65_69");
    assert_eq!(enrollee(70), "F70_74");
    assert_eq!(enrollee(94), "F90_94");
    assert_eq!(enrollee(95), "F95_GT");
    assert_eq!(enrollee(120), "F95_GT");
    assert_eq!(enrollee(0), "F0_34");
    assert_eq!(enrollee(-3), "F0_34");

    assert_eq!(new_enrollee(34), "NEF0_34");
    assert_eq!(new_enrollee(35), "NEF35_44");
    assert_eq!(new_enrollee(63), "NEF60_64");
    assert_eq!(new_enrollee(64), "NEF60_64");
    assert_eq!(new_enrollee(65), "NEF65");
    assert_eq!(new_enrollee(66), "NEF66");
    assert_eq!(new_enrollee(67), "NEF67");
    assert_eq!(new_enrollee(68), "NEF68");
    assert_eq!(new_enrollee(69), "NEF69");
    assert_eq!(new_enrollee(70), "NEF70_74");
    assert_eq!(new_enrollee(74), "NEF70_74");
    assert_eq!(new_enrollee(75), "NEF75_79");
    assert_eq!(new_enrollee(80), "NEF80_84");
    assert_eq!(new_enrollee(85), "NEF85_89");
    assert_eq!(new_enrollee(90), "NEF90_94");
    assert_eq!(new_enrollee(94), "NEF90_94");
    assert_eq!(new_enrollee(95), "NEF95_GT");
}

#[test]
fn every_beneficiary_has_one_bucket_of_each_kind() {
    for age in [-1, 0, 34, 35, 64, 65, 66, 69, 70, 94, 95, 110] {
        for sex in ["M", "F", "X", ""] {
            for orec in ["0", "1", "2", "3", "9"] {
                let tags = _age_sex_v2(age, sex, orec);
                let new_enrollee = tags.iter().filter(|t| t.starts_with("NE")).count();
                let enrollee = tags
                    .iter()
                    .filter(|t| t.starts_with('F') || t.starts_with('M'))
                    .count();
                assert_eq!(new_enrollee, 1);
                assert_eq!(enrollee, 1);
                let origds = tags.contains(&"ORIGDS".to_string());
                let disabl = tags.contains(&"DISABL".to_string());
                assert_eq!(origds, orec == "1" && age >= 65);
                assert_eq!(disabl, orec != "0" && age < 65);
                assert!(!(origds && disabl));
            }
        }
    }
}

#[test]
fn other_sex_codes_count_as_female() {
    assert_eq!(_age_sex_v2(50, "X", "0"), names(&["F45_54", "NEF45_54"]));
    assert_eq!(_age_sex_v2(50, "m", "0"), names(&["F45_54", "NEF45_54"]));
    assert_eq!(_age_sex_v2(50, "M", "0"), names(&["M45_54", "NEM45_54"]));
}

#[test]
fn no_diagnoses_leave_the_demographic_tags() {
    let public = public_inputs(
        &[("CNA_M75_79", 0.5), ("CNA_HCC17", 2.0), ("CNA_D1", 0.1), ("INS_LTIMCAID", 0.3)],
        &[("HCC17", &["HCC18"])],
        &["HCC17"],
        &[("C7800", &["HCC17"])],
    );
    let mut private = beneficiary(75, "M", "0", &[]);
    assert_eq!(raf_attributes(&public, &private), names(&["M75_79", "NEM75_79"]));
    let outcome = score_all_models(&public, &private);
    assert_eq!(score(&outcome, "SCORE_COMMUNITY_NA", public.norm_factor), 0.5);
    assert_eq!(score(&outcome, "SCORE_INSTITUTIONAL", public.norm_factor), 0.0);

    private.long_term_institutionalized = true;
    assert_eq!(raf_attributes(&public, &private), names(&["M75_79", "NEM75_79", "LTIMCAID"]));
    let outcome = score_all_models(&public, &private);
    assert_eq!(score(&outcome, "SCORE_INSTITUTIONAL", public.norm_factor), 0.3);
    assert_eq!(score(&outcome, "SCORE_COMMUNITY_NA", public.norm_factor), 0.5);
}

#[test]
fn unknown_diagnoses_are_dropped_and_repeats_kept() {
    let mut dx_to_cc = Table::<Vec<String>>::new();
    dx_to_cc.insert("B20".to_string(), names(&["HCC1", "HCC6"]));
    dx_to_cc.insert("E1122".to_string(), names(&["HCC37"]));
    let hccs = map_diagnoses(&dx_to_cc, &names(&["E1122", "ZZZ", "B20", "E1122"]));
    assert_eq!(hccs, names(&["HCC37", "HCC1", "HCC6", "HCC37"]));
    assert_eq!(map_diagnoses(&dx_to_cc, &Vec::new()), Vec::<String>::new());
}

#[test]
fn each_attribute_is_counted_once() {
    let public = public_inputs(
        &[("CNA_HCC37", 0.3), ("CNA_F65_69", 0.25), ("CNA_D1", 0.0625), ("CNA_D2", 0.125)],
        &[],
        &["HCC37"],
        &[("E1122", &["HCC37"]), ("E1121", &["HCC37"])],
    );
    let private = beneficiary(65, "F", "0", &["E1122", "E1121"]);
    let tags = raf_attributes(&public, &private);
    assert_eq!(tags, names(&["F65_69", "NEF65", "HCC37", "D1"]));
    let outcome = score_all_models(&public, &private);
    assert!(close(score(&outcome, "SCORE_COMMUNITY_NA", public.norm_factor), 0.3 + 0.25 + 0.0625));
}

#[test]
fn interactions_take_the_disabled_flag_of_the_demographics() {
    let public = public_inputs(
        &[("INS_DISABLED_CANCER_V28", 0.5), ("INS_HCC17", 1.0)],
        &[],
        &["HCC17"],
        &[("C7800", &["HCC17"])],
    );
    let disabled = beneficiary(50, "F", "1", &["C7800"]);
    assert!(raf_attributes(&public, &disabled).contains(&"DISABLED_CANCER_V28".to_string()));
    let outcome = score_all_models(&public, &disabled);
    assert_eq!(score(&outcome, "SCORE_INSTITUTIONAL", public.norm_factor), 1.5);

    let aged = beneficiary(70, "F", "0", &["C7800"]);
    assert!(!raf_attributes(&public, &aged).contains(&"DISABLED_CANCER_V28".to_string()));
    let young_aged_code = beneficiary(50, "F", "0", &["C7800"]);
    assert!(!raf_attributes(&public, &young_aged_code).contains(&"DISABLED_CANCER_V28".to_string()));
}

#[test]
fn normalization_factor_scales_each_score() {
    let mut public = public_inputs(
        &[("CNA_M70_74", 0.4), ("CNA_HCC37", 0.3), ("INS_M70_74", 1.25)],
        &[],
        &["HCC37"],
        &[("E1122", &["HCC37"])],
    );
    let private = beneficiary(70, "M", "0", &["E1122"]);
    let outcome = score_all_models(&public, &private);
    let once: Vec<f32> =
        outcome.scores.iter().map(|s| score(&outcome, &s.name, 1.5f32.to_bits())).collect();
    public.norm_factor = 3.0f32.to_bits();
    let outcome = score_all_models(&public, &private);
    let twice: Vec<f32> =
        outcome.scores.iter().map(|s| score(&outcome, &s.name, public.norm_factor)).collect();
    for k in 0..9 {
        assert_eq!(twice[k], 2.0 * once[k]);
    }
    assert!(close(once[0], 1.5 * 0.7));
}

#[test]
fn scoring_twice_gives_the_same_terms() {
    let public = public_inputs(
        &[("CNA_M70_74", 0.4), ("CNA_HCC37", 0.3), ("CNA_D1", 0.2)],
        &[],
        &["HCC37"],
        &[("E1122", &["HCC37"])],
    );
    let shuffled = public_inputs(
        &[("CNA_D1", 0.2), ("CNA_HCC37", 0.3), ("CNA_M70_74", 0.4)],
        &[],
        &["HCC37"],
        &[("E1122", &["HCC37"])],
    );
    let private = beneficiary(70, "M", "0", &["E1122"]);
    let first = score_all_models(&public, &private);
    let second = score_all_models(&public, &private);
    let third = score_all_models(&shuffled, &private);
    for k in 0..9 {
        assert_eq!(first.scores[k].terms, second.scores[k].terms);
        assert_eq!(first.scores[k].terms, third.scores[k].terms);
        assert_eq!(first.scores[k].name, third.scores[k].name);
    }
    assert_eq!(
        first.scores[0].terms,
        vec![0.4f32.to_bits(), 0.3f32.to_bits(), 0.2f32.to_bits()]
    );
}

#[test]
fn used_coefficients_are_flagged() {
    let public = public_inputs(
        &[("CNA_M70_74", 0.4), ("CNA_HCC37", 0.3), ("CFA_M70_74", 0.45), ("CNA_F70_74", 0.1)],
        &[],
        &["HCC37"],
        &[],
    );
    let private = beneficiary(70, "M", "0", &[]);
    let outcome = score_all_models(&public, &private);
    assert_eq!(
        outcome.registry.used_coefficients(),
        vec![
            ("CNA_M70_74".to_string(), 0.4f32.to_bits()),
            ("CFA_M70_74".to_string(), 0.45f32.to_bits()),
        ]
    );
    assert!(outcome.registry.is_used("CNA_M70_74"));
    assert!(!outcome.registry.is_used("CNA_HCC37"));
    assert!(!outcome.registry.is_used("CNA_NOTHING"));
}

#[test]
fn more_diagnoses_keep_the_survivors() {
    let mut hier = Table::<Vec<String>>::new();
    hier.insert("HCC17".to_string(), names(&["HCC18", "HCC19"]));
    hier.insert("HCC35".to_string(), names(&["HCC36", "HCC37", "HCC38"]));
    let fewer = names(&["HCC18", "HCC37"]);
    let kept_fewer = _apply_hierarchy(&hier, &fewer);
    assert_eq!(kept_fewer, names(&["HCC18", "HCC37"]));

    let more = names(&["HCC18", "HCC37", "HCC1", "HCC19", "HCC48", "HCC37"]);
    let kept_more = _apply_hierarchy(&hier, &more);
    assert_eq!(kept_more, names(&["HCC18", "HCC37", "HCC1", "HCC19", "HCC48"]));
    assert_eq!(&kept_more[..kept_fewer.len()], &kept_fewer[..]);

    let with_superiors = names(&["HCC18", "HCC37", "HCC17", "HCC19", "HCC35", "HCC36"]);
    assert_eq!(_apply_hierarchy(&hier, &with_superiors), names(&["HCC17", "HCC35"]));
}

#[test]
fn a_dominated_diagnosis_is_not_scored_whatever_its_place() {
    let coefficients: &[(&str, f32)] = &[
        ("CNA_HCC17", 2.0),
        ("CNA_HCC19", 1.0),
        ("CNA_M75_79", 0.5),
        ("CNA_D1", 0.25),
        ("CNA_D2", 8.0),
    ];
    let hier: &[(&str, &[&str])] = &[("HCC17", &["HCC18", "HCC19"])];
    let dx: &[(&str, &[&str])] = &[("C7800", &["HCC17"]), ("C9000", &["HCC19"])];
    let public = public_inputs(coefficients, hier, &["HCC17", "HCC18", "HCC19"], dx);
    let first = beneficiary(75, "M", "0", &["C9000", "C7800"]);
    let second = beneficiary(75, "M", "0", &["C7800", "C9000"]);
    assert_eq!(raf_attributes(&public, &first), names(&["M75_79", "NEM75_79", "HCC17", "D1"]));
    assert_eq!(raf_attributes(&public, &second), names(&["M75_79", "NEM75_79", "HCC17", "D1"]));
    let outcome = score_all_models(&public, &first);
    assert_eq!(score(&outcome, "SCORE_COMMUNITY_NA", public.norm_factor), 2.75);
    let outcome = score_all_models(&public, &second);
    assert_eq!(score(&outcome, "SCORE_COMMUNITY_NA", public.norm_factor), 2.75);
}

#[test]
fn diagnostic_categories_follow_their_groups() {
    let c = diagnostic_categories(&names(&["HCC23", "HCC213", "HCC2", "HCC199", "HCC382"]));
    assert!(c.cancer && c.card_resp_fail && c.sepsis && c.neuro && c.ulcer);
    assert!(!c.diabetes && !c.hf && !c.chr_lung && !c.kidney);
    assert!(!c.sub_use_disorder && !c.psychiatric);
    let c = diagnostic_categories(&names(&["HCC35", "HCC226", "HCC276", "HCC329", "HCC135", "HCC155"]));
    assert!(c.diabetes && c.hf && c.chr_lung && c.kidney && c.sub_use_disorder && c.psychiatric);
    assert!(!c.cancer && !c.card_resp_fail && !c.sepsis && !c.neuro && !c.ulcer);
    let c = diagnostic_categories(&names(&["HCC24", "HCC39", "HCC183", "HCC20X"]));
    assert!(!c.cancer && !c.diabetes && !c.neuro);
}

#[test]
fn all_interactions_in_their_order() {
    let hccs = names(&[
        "HCC17", "HCC36", "HCC211", "HCC222", "HCC277", "HCC326", "HCC136", "HCC152", "HCC180",
        "HCC379", "HCC238",
    ]);
    assert_eq!(
        _apply_interactions(&hccs, true),
        names(&[
            "DIABETES_HF_V28",
            "HF_CHR_LUNG_V28",
            "HF_KIDNEY_V28",
            "CHR_LUNG_CARD_RESP_FAIL_V28",
            "HF_HCC238_V28",
            "gSubUseDisorder_gPsych_V28",
            "DISABLED_CANCER_V28",
            "DISABLED_NEURO_V28",
            "DISABLED_HF_V28",
            "DISABLED_CHR_LUNG_V28",
            "DISABLED_ULCER_V28",
            "D10P",
        ])
    );
    assert_eq!(_apply_interactions(&names(&["HCC238"]), true), names(&["D1"]));
    assert_eq!(
        _apply_interactions(&names(&["HCC238", "HCC221"]), false),
        names(&["HF_HCC238_V28", "D2"])
    );
}
