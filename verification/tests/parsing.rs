use zero_raf_core::fields::{chars_of, is_space_char, remove_char, split, trim};
use zero_raf_core::utils::{
    build_ne_reg_variable_list, dx_to_cc_from_records, group_text, hier_entry,
    hiers_from_matches, label_entry, labels_from_matches, match_line, parse_dx_to_cc,
    parse_hcc_coefficients, parse_hcc_labels, parse_hier,
    parse_hcc_coefficient_rows, parse_inferiors, ParseError,
};

fn lines(list: &[&str]) -> Vec<String> {
    list.iter().map(|s| s.to_string()).collect()
}

#[test]
fn label_lines_give_identifier_and_label() {
    let labels = parse_hcc_labels(&lines(&[
        " %LET HCCV28_list115 = %STR(",
        "  HCC1  =\"HIV/AIDS \"",
        "  HCC463  =\"Artificial Openings for Feeding or Elimination \"",
        "  CC201  =\"Seizure Disorders and Convulsions \"",
        "no entry on this line",
        "",
        "HCC17=\"Cancer Metastatic to Lung, Liver, Brain, and Other Organs\" trailing",
    ]))
    .unwrap();
    assert_eq!(labels.len(), 4);
    assert_eq!("HIV/AIDS ", labels.get("HCC1").unwrap());
    assert_eq!(
        "Artificial Openings for Feeding or Elimination ",
        labels.get("HCC463").unwrap()
    );
    assert_eq!("Seizure Disorders and Convulsions ", labels.get("CC201").unwrap());
    assert_eq!(
        "Cancer Metastatic to Lung, Liver, Brain, and Other Organs",
        labels.get("HCC17").unwrap()
    );
    assert!(labels.get("HCC2").is_none());
    assert_eq!(labels.key_at(0), "HCC1");
    assert_eq!(labels.key_at(3), "HCC17");
}

#[test]
fn a_repeated_label_takes_the_later_text() {
    let labels =
        parse_hcc_labels(&lines(&["HCC1 = \"first\"", "HCC2 = \"other\"", "HCC1 = \"second\""]))
            .unwrap();
    assert_eq!(labels.len(), 2);
    assert_eq!(labels.get("HCC1").unwrap(), "second");
    assert_eq!(labels.key_at(0), "HCC1");
    assert_eq!(labels.key_at(1), "HCC2");
    assert_eq!(parse_hcc_labels(&Vec::new()).unwrap().len(), 0);
}

#[test]
fn hierarchy_lines_give_superior_and_inferiors() {
    let hiers = parse_hier(&lines(&[
        " %MACRO V28115H1;",
        " %SET0(CC=17    , HIER=%STR(18, 19, 20, 21, 22, 23 ));",
        " %SET0(CC=154   , HIER=%STR(155 ));",
        " %SET0(CC=180   , HIER=%STR(181, 182, 253, 254 ));",
        " %SET0(CC=222   , HIER=%STR(223,224 ,225,  226, 227));",
        " %MEND V28115H1;",
    ]))
    .unwrap();
    assert_eq!(hiers.len(), 4);
    assert_eq!(
        hiers.get("HCC17").unwrap(),
        &lines(&["HCC18", "HCC19", "HCC20", "HCC21", "HCC22", "HCC23"])
    );
    assert_eq!(hiers.get("HCC154").unwrap(), &lines(&["HCC155"]));
    let hcc180 = hiers.get("HCC180").unwrap();
    assert!(hcc180.contains(&"HCC181".to_string()));
    assert!(hcc180.contains(&"HCC182".to_string()));
    assert!(hcc180.contains(&"HCC253".to_string()));
    assert!(hcc180.contains(&"HCC254".to_string()));
    assert_eq!(
        hiers.get("HCC222").unwrap(),
        &lines(&["HCC223", "HCC224", "HCC225", "HCC226", "HCC227"])
    );
    assert!(hiers.get("HCC18").is_none());
}

#[test]
fn inferiors_are_trimmed_and_prefixed() {
    assert_eq!(parse_inferiors("18, 19 ,20"), lines(&["HCC18", "HCC19", "HCC20"]));
    assert_eq!(parse_inferiors(" 155 "), lines(&["HCC155"]));
    assert_eq!(parse_inferiors("1,,2"), lines(&["HCC1", "HCC", "HCC2"]));
    assert_eq!(parse_inferiors(""), lines(&["HCC"]));
}

#[test]
fn diagnosis_records_are_grouped_by_code() {
    let dx2cc = parse_dx_to_cc(b"B20\t1\nB4481\t280\nA0103\t115\nB20\t6\n").unwrap();
    assert_eq!(dx2cc.len(), 3);
    assert_eq!(dx2cc.get("B20").unwrap(), &lines(&["HCC1", "HCC6"]));
    assert!(dx2cc.get("B4481").unwrap().contains(&"HCC280".to_string()));
    assert_eq!(dx2cc.get("A0103").unwrap(), &lines(&["HCC115"]));
    assert_eq!(dx2cc.key_at(0), "B20");
    assert_eq!(dx2cc.key_at(1), "B4481");
    assert_eq!(dx2cc.key_at(2), "A0103");
    assert_eq!(parse_dx_to_cc(b"").unwrap().len(), 0);
}

#[test]
fn diagnosis_records_take_the_first_two_fields() {
    let records = vec![lines(&["B20", "1", "extra"]), lines(&["B20", " 6"])];
    let dx2cc = dx_to_cc_from_records(&records).unwrap();
    assert_eq!(dx2cc.get("B20").unwrap(), &lines(&["HCC1", "HCC 6"]));
}

#[test]
fn coefficient_lines_give_names_and_value_texts() {
    let fields = parse_hcc_coefficients(
        "\"CNA_F65_69\", \"CNA_HCC381\" ,INS_DIABETES_HF_V28,\"SNPNE_MCAID_ORIGDIS_NEM95_GT\"\n",
        "0.33, 1.075 ,0.209,2.573\n",
    )
    .unwrap();
    assert_eq!(
        fields,
        vec![
            ("CNA_F65_69".to_string(), "0.33".to_string()),
            ("CNA_HCC381".to_string(), "1.075".to_string()),
            ("INS_DIABETES_HF_V28".to_string(), "0.209".to_string()),
            ("SNPNE_MCAID_ORIGDIS_NEM95_GT".to_string(), "2.573".to_string()),
        ]
    );
    let values: Vec<f32> = fields.iter().map(|f| f.1.parse::<f32>().unwrap()).collect();
    assert_eq!(values, vec![0.33, 1.075, 0.209, 2.573]);
    assert_eq!(
        parse_hcc_coefficients("", "").unwrap(),
        vec![("".to_string(), "".to_string())]
    );
}

#[test]
fn every_parse_error_has_an_input() {
    assert_eq!(match_line("(", "text"), Err(ParseError::Pattern));
    assert_eq!(label_entry(&vec![Some("x".to_string())]), Err(ParseError::MissingGroup));
    assert_eq!(
        label_entry(&vec![Some("x".to_string()), None, Some("y".to_string())]),
        Err(ParseError::MissingGroup)
    );
    assert_eq!(
        hier_entry(&vec![Some("x".to_string()), Some("17".to_string()), None]),
        Err(ParseError::MissingGroup)
    );
    assert_eq!(parse_dx_to_cc(b"B20\t1\nB21\n").err(), Some(ParseError::Records));
    assert_eq!(parse_dx_to_cc(b"B20\t1\n\xff\xfe\t2\n").err(), Some(ParseError::Records));
    assert_eq!(parse_dx_to_cc(b"B20\nB21\n").err(), Some(ParseError::MissingField));
    assert_eq!(
        dx_to_cc_from_records(&vec![lines(&["B20", "1"]), lines(&["B21"])]).err(),
        Some(ParseError::MissingField)
    );
    assert_eq!(
        dx_to_cc_from_records(&vec![Vec::new()]).err(),
        Some(ParseError::MissingField)
    );
    assert_eq!(parse_hcc_coefficients("a,b,c", "1,2"), Err(ParseError::LengthMismatch));
    assert_eq!(parse_hcc_coefficients("a", "1,"), Err(ParseError::LengthMismatch));
    assert!(ParseError::Pattern.message().contains("pattern"));
    assert!(ParseError::MissingGroup.message().contains("group"));
    assert!(ParseError::Records.message().contains("records"));
    assert!(ParseError::MissingField.message().contains("two fields"));
    assert!(ParseError::LengthMismatch.message().contains("length"));
}

#[test]
fn match_line_returns_the_groups_of_the_first_match() {
    let found = match_line("(a+)(b)?(c)", "xx aac aabc").unwrap().unwrap();
    assert_eq!(found, vec![Some("aac".to_string()), Some("aa".to_string()), None, Some("c".to_string())]);
    assert_eq!(match_line("a+", "bbb"), Ok(None));
    assert_eq!(group_text(&found, 1), Some("aa".to_string()));
    assert_eq!(group_text(&found, 2), None);
    assert_eq!(group_text(&found, 4), None);
    assert_eq!(
        label_entry(&vec![None, Some("HCC1".to_string()), Some("HIV".to_string())]),
        Ok(("HCC1".to_string(), "HIV".to_string()))
    );
    assert_eq!(
        hier_entry(&vec![None, Some("17".to_string()), Some("18, 19".to_string())]),
        Ok(("HCC17".to_string(), lines(&["HCC18", "HCC19"])))
    );
}

#[test]
fn split_keeps_empty_pieces() {
    assert_eq!(split("a,b,c", ','), lines(&["a", "b", "c"]));
    assert_eq!(split("", ','), lines(&[""]));
    assert_eq!(split(",", ','), lines(&["", ""]));
    assert_eq!(split("a,,b,", ','), lines(&["a", "", "b", ""]));
    assert_eq!(split("no separator", ','), lines(&["no separator"]));
    assert_eq!(split("é,ü\t,x", ','), lines(&["é", "ü\t", "x"]));
    for text in ["a,b", ",,", "x", "", " , é, "] {
        let expected: Vec<String> = text.split(',').map(|s| s.to_string()).collect();
        assert_eq!(split(text, ','), expected);
    }
}

#[test]
fn trim_removes_white_space_at_both_ends() {
    assert_eq!(trim("  a b \t\n"), "a b");
    assert_eq!(trim(""), "");
    assert_eq!(trim(" \t "), "");
    assert_eq!(trim("x"), "x");
    assert_eq!(trim("\u{a0}\u{2003}é \u{3000}"), "é");
    for text in ["  a b \r\n", "\u{85}x\u{1680}", "\u{200b}x", "\u{202f}\u{205f}y\u{2028}\u{2029}"] {
        assert_eq!(trim(text), text.trim());
    }
    for c in ['\t', '\n', '\u{b}', '\u{c}', '\r', ' ', '\u{85}', '\u{a0}', '\u{2000}', '\u{200a}'] {
        assert!(is_space_char(c));
    }
    for c in ['a', '_', '0', '\u{8}', '\u{e}', '\u{200b}', '\u{1f}', '\u{feff}'] {
        assert!(!is_space_char(c));
    }
    for code in 0u32..0x3100 {
        if let Some(c) = char::from_u32(code) {
            assert_eq!(is_space_char(c), c.is_whitespace());
        }
    }
}

#[test]
fn remove_char_drops_every_occurrence() {
    assert_eq!(remove_char("\"CNA_F65_69\"", '"'), "CNA_F65_69");
    assert_eq!(remove_char("a\"b\"\"c", '"'), "abc");
    assert_eq!(remove_char("", '"'), "");
    assert_eq!(remove_char("\"\"", '"'), "");
    assert_eq!(remove_char("héllo", 'l'), "héo");
    assert_eq!(chars_of("héllo"), vec!['h', 'é', 'l', 'l', 'o']);
}

#[test]
fn new_enrollee_variables_in_their_order() {
    let list = build_ne_reg_variable_list();
    assert_eq!(list.len(), 108);
    assert_eq!(list[0], "NMCAID_ORIGDS_NEF65");
    assert_eq!(list[1], "NMCAID_NORIGDS_NEF65");
    assert_eq!(list[2], "MCAID_ORIGDS_NEF65");
    assert_eq!(list[3], "MCAID_NORIGDS_NEF65");
    assert_eq!(list[4], "NMCAID_ORIGDS_NEF66");
    assert_eq!(list[40], "NMCAID_ORIGDS_NEF95_GT");
    assert_eq!(list[44], "NMCAID_ORIGDS_NEM65");
    assert_eq!(list[87], "MCAID_NORIGDS_NEM95_GT");
    assert_eq!(list[88], "NMCAID_NORIGDS_NEF0_34");
    assert_eq!(list[89], "MCAID_NORIGDS_NEF0_34");
    assert_eq!(list[97], "MCAID_NORIGDS_NEF60_64");
    assert_eq!(list[98], "NMCAID_NORIGDS_NEM0_34");
    assert_eq!(list[107], "MCAID_NORIGDS_NEM60_64");
    assert!(list.contains(&"MCAID_ORIGDS_NEM75_79".to_string()));
    assert!(!list.contains(&"NMCAID_ORIGDS_NEM60_64".to_string()));
    let mut sorted = list.clone();
    sorted.sort();
    sorted.dedup();
    assert_eq!(sorted.len(), 108);
}

#[test]
fn coefficient_rows_give_names_and_value_texts() {
    let fields =
        parse_hcc_coefficient_rows(b"CNA_F65_69,0.33\n\"CNA_HCC381\", 1.075\nINS_HCC17 ,2\n")
            .unwrap();
    assert_eq!(
        fields,
        vec![
            ("CNA_F65_69".to_string(), "0.33".to_string()),
            ("CNA_HCC381".to_string(), "1.075".to_string()),
            ("INS_HCC17".to_string(), "2".to_string()),
        ]
    );
    let lines = parse_hcc_coefficients("CNA_F65_69,\"CNA_HCC381\",INS_HCC17", "0.33, 1.075,2");
    assert_eq!(lines.unwrap(), fields);
    assert_eq!(parse_hcc_coefficient_rows(b"").unwrap(), Vec::new());
    assert_eq!(parse_hcc_coefficient_rows(b"a\nb\n").err(), Some(ParseError::MissingField));
    assert_eq!(parse_hcc_coefficient_rows(b"a,1\nb\n").err(), Some(ParseError::Records));
}

fn groups(list: &[Option<&str>]) -> Option<Vec<Option<String>>> {
    Some(list.iter().map(|g| g.map(|s| s.to_string())).collect())
}

#[test]
fn labels_are_built_from_what_was_found() {
    let found = vec![
        None,
        groups(&[Some("HCC1 =\"HIV/AIDS \""), Some("HCC1"), Some("HIV/AIDS ")]),
        groups(&[None, Some("CC201"), Some("Seizure Disorders and Convulsions ")]),
        None,
        groups(&[None, Some("HCC1"), Some("later")]),
    ];
    let labels = labels_from_matches(&found).unwrap();
    assert_eq!(labels.len(), 2);
    assert_eq!(labels.key_at(0), "HCC1");
    assert_eq!(labels.key_at(1), "CC201");
    assert_eq!(labels.get("HCC1").unwrap(), "later");
    assert_eq!(labels.get("CC201").unwrap(), "Seizure Disorders and Convulsions ");
    assert_eq!(labels_from_matches(&Vec::new()).unwrap().len(), 0);
    assert_eq!(labels_from_matches(&vec![None, None]).unwrap().len(), 0);

    let broken = vec![
        groups(&[None, Some("HCC1"), Some("HIV")]),
        groups(&[None, Some("HCC2")]),
        groups(&[None, Some("HCC3"), Some("other")]),
    ];
    assert_eq!(labels_from_matches(&broken).err(), Some(ParseError::MissingGroup));
    let broken = vec![groups(&[None, None, Some("HIV")])];
    assert_eq!(labels_from_matches(&broken).err(), Some(ParseError::MissingGroup));
}

#[test]
fn hierarchies_are_built_from_what_was_found() {
    let found = vec![
        groups(&[None, Some("17"), Some("18, 19 ,20")]),
        None,
        groups(&[None, Some("154"), Some("155 ")]),
        groups(&[None, Some("17"), Some("23")]),
    ];
    let hiers = hiers_from_matches(&found).unwrap();
    assert_eq!(hiers.len(), 2);
    assert_eq!(hiers.key_at(0), "HCC17");
    assert_eq!(hiers.key_at(1), "HCC154");
    assert_eq!(hiers.get("HCC17").unwrap(), &lines(&["HCC23"]));
    assert_eq!(hiers.get("HCC154").unwrap(), &lines(&["HCC155"]));
    assert_eq!(hiers_from_matches(&Vec::new()).unwrap().len(), 0);
    let broken = vec![groups(&[None, Some("17"), Some("18")]), groups(&[None, Some("18"), None])];
    assert_eq!(hiers_from_matches(&broken).err(), Some(ParseError::MissingGroup));
}
