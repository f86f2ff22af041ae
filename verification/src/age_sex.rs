use vstd::prelude::*;
use vstd::string::*;

use crate::text::{push_if, push_name, str_equal, tag_if};

verus! {

/// The enrollee age band of an age, numbered from 0: up to 34, 35 to 44,
/// 45 to 54, 55 to 59, then five-year bands up to 90 to 94, and 95 or more.
pub open spec fn enrollee_band(age: int) -> int {
    if age <= 34 {
        0
    } else if age < 45 {
        1
    } else if age < 55 {
        2
    } else if age < 60 {
        3
    } else if age < 65 {
        4
    } else if age < 70 {
        5
    } else if age < 75 {
        6
    } else if age < 80 {
        7
    } else if age < 85 {
        8
    } else if age < 90 {
        9
    } else if age < 95 {
        10
    } else {
        11
    }
}

/// The label of an enrollee age band.
pub open spec fn band_label(band: int) -> Seq<char> {
    if band == 0 {
        "0_34"@
    } else if band == 1 {
        "35_44"@
    } else if band == 2 {
        "45_54"@
    } else if band == 3 {
        "55_59"@
    } else if band == 4 {
        "60_64"@
    } else if band == 5 {
        "65_69"@
    } else if band == 6 {
        "70_74"@
    } else if band == 7 {
        "75_79"@
    } else if band == 8 {
        "80_84"@
    } else if band == 9 {
        "85_89"@
    } else if band == 10 {
        "90_94"@
    } else {
        "95_GT"@
    }
}

/// The new-enrollee age band of an age, numbered from 0. Bands 0 to 4 are
/// those of the enrollee bands below 65; bands 5 to 9 are the single years 65
/// to 69; bands 10 to 15 are 70 to 74 up to 95 or more. At 64 the entitlement
/// reason decides: entitled by age (`"0"`) counts as 65 already, any other
/// reason stays in 60 to 64.
pub open spec fn new_enrollee_band(age: int, orec: Seq<char>) -> int {
    if age <= 34 {
        0
    } else if age < 45 {
        1
    } else if age < 55 {
        2
    } else if age < 60 {
        3
    } else if age < 64 {
        4
    } else if age == 64 {
        if orec != "0"@ {
            4
        } else {
            5
        }
    } else if age < 70 {
        age - 60
    } else if age < 75 {
        10
    } else if age < 80 {
        11
    } else if age < 85 {
        12
    } else if age < 90 {
        13
    } else if age < 95 {
        14
    } else {
        15
    }
}

/// The label of a new-enrollee age band.
pub open spec fn new_enrollee_band_label(band: int) -> Seq<char> {
    if band == 0 {
        "0_34"@
    } else if band == 1 {
        "35_44"@
    } else if band == 2 {
        "45_54"@
    } else if band == 3 {
        "55_59"@
    } else if band == 4 {
        "60_64"@
    } else if band == 5 {
        "65"@
    } else if band == 6 {
        "66"@
    } else if band == 7 {
        "67"@
    } else if band == 8 {
        "68"@
    } else if band == 9 {
        "69"@
    } else if band == 10 {
        "70_74"@
    } else if band == 11 {
        "75_79"@
    } else if band == 12 {
        "80_84"@
    } else if band == 13 {
        "85_89"@
    } else if band == 14 {
        "90_94"@
    } else {
        "95_GT"@
    }
}

/// Whether a sex code counts as male. Every code but `"M"` counts as female.
pub open spec fn is_male(sex: Seq<char>) -> bool {
    sex == "M"@
}

/// The letter that a bucket name carries for the sex.
pub open spec fn sex_letter(male: bool) -> Seq<char> {
    if male {
        "M"@
    } else {
        "F"@
    }
}

/// The name of an enrollee bucket: sex letter, then band label.
pub open spec fn enrollee_name(male: bool, band: int) -> Seq<char> {
    sex_letter(male) + band_label(band)
}

/// The name of a new-enrollee bucket: `NE`, sex letter, then band label.
pub open spec fn new_enrollee_name(male: bool, band: int) -> Seq<char> {
    "NE"@ + sex_letter(male) + new_enrollee_band_label(band)
}

/// Whether a tag is the name of one of the 24 enrollee buckets.
pub open spec fn is_enrollee_bucket(tag: Seq<char>) -> bool {
    exists|male: bool, band: int| 0 <= band < 12 && tag == #[trigger] enrollee_name(male, band)
}

/// Whether a tag is the name of one of the 32 new-enrollee buckets.
pub open spec fn is_new_enrollee_bucket(tag: Seq<char>) -> bool {
    exists|male: bool, band: int|
        0 <= band < 16 && tag == #[trigger] new_enrollee_name(male, band)
}

/// `DISABL`: under 65 and entitled for a reason other than age.
pub open spec fn is_disabled(age: int, orec: Seq<char>) -> bool {
    age < 65 && orec != "0"@
}

/// `ORIGDS`: entitled by disability (`"1"`) and not disabled now.
pub open spec fn is_originally_disabled(age: int, orec: Seq<char>) -> bool {
    orec == "1"@ && !is_disabled(age, orec)
}

/// The demographic tags of a beneficiary: the enrollee bucket, the
/// new-enrollee bucket, then `DISABL` and `ORIGDS` where they hold.
pub open spec fn age_sex_attributes(age: int, sex: Seq<char>, orec: Seq<char>) -> Seq<Seq<char>> {
    seq![
        enrollee_name(is_male(sex), enrollee_band(age)),
        new_enrollee_name(is_male(sex), new_enrollee_band(age, orec)),
    ] + tag_if(is_disabled(age, orec), "DISABL"@) + tag_if(
        is_originally_disabled(age, orec),
        "ORIGDS"@,
    )
}

/// An enrollee bucket name starts with the sex letter, `F` or `M`.
pub proof fn lemma_enrollee_name_head(male: bool, band: int)
    ensures
        enrollee_name(male, band).len() > 0,
        enrollee_name(male, band)[0] == (if male {
            'M'
        } else {
            'F'
        }),
{
    reveal_strlit("M");
    reveal_strlit("F");
}

/// A new-enrollee bucket name starts with `N`.
pub proof fn lemma_new_enrollee_name_head(male: bool, band: int)
    ensures
        new_enrollee_name(male, band).len() > 0,
        new_enrollee_name(male, band)[0] == 'N',
{
    reveal_strlit("NE");
}

/// The two flag tags are the name of no bucket, and differ from each other.
pub proof fn lemma_flags_are_no_buckets()
    ensures
        !is_enrollee_bucket("DISABL"@),
        !is_enrollee_bucket("ORIGDS"@),
        !is_new_enrollee_bucket("DISABL"@),
        !is_new_enrollee_bucket("ORIGDS"@),
        "DISABL"@ != "ORIGDS"@,
{
    reveal_strlit("DISABL");
    reveal_strlit("ORIGDS");
    assert("DISABL"@[0] != "ORIGDS"@[0]);
    assert forall|male: bool, band: int|
        "DISABL"@ != #[trigger] enrollee_name(male, band) && "ORIGDS"@ != enrollee_name(
            male,
            band,
        ) by {
        lemma_enrollee_name_head(male, band);
    }
    assert forall|male: bool, band: int|
        "DISABL"@ != #[trigger] new_enrollee_name(male, band) && "ORIGDS"@ != new_enrollee_name(
            male,
            band,
        ) by {
        lemma_new_enrollee_name_head(male, band);
    }
}

/// No name is both an enrollee bucket and a new-enrollee bucket.
pub proof fn lemma_bucket_kinds_are_disjoint(tag: Seq<char>)
    ensures
        !(is_enrollee_bucket(tag) && is_new_enrollee_bucket(tag)),
{
    if is_enrollee_bucket(tag) && is_new_enrollee_bucket(tag) {
        let (m1, b1) = choose|male: bool, band: int|
            0 <= band < 12 && tag == #[trigger] enrollee_name(male, band);
        let (m2, b2) = choose|male: bool, band: int|
            0 <= band < 16 && tag == #[trigger] new_enrollee_name(male, band);
        lemma_enrollee_name_head(m1, b1);
        lemma_new_enrollee_name_head(m2, b2);
    }
}

/// Exactly one enrollee bucket and exactly one new-enrollee bucket are among
/// the demographic tags of every beneficiary: the first tag is the only
/// enrollee bucket, the second the only new-enrollee bucket.
pub proof fn lemma_one_bucket_of_each_kind(age: int, sex: Seq<char>, orec: Seq<char>)
    ensures
        forall|i: int|
            0 <= i < age_sex_attributes(age, sex, orec).len() ==> (is_enrollee_bucket(
                #[trigger] age_sex_attributes(age, sex, orec)[i],
            ) <==> i == 0),
        forall|i: int|
            0 <= i < age_sex_attributes(age, sex, orec).len() ==> (is_new_enrollee_bucket(
                #[trigger] age_sex_attributes(age, sex, orec)[i],
            ) <==> i == 1),
{
    let a = age_sex_attributes(age, sex, orec);
    let male = is_male(sex);
    assert(a[0] == enrollee_name(male, enrollee_band(age)));
    assert(a[1] == new_enrollee_name(male, new_enrollee_band(age, orec)));
    assert(is_enrollee_bucket(a[0]));
    assert(is_new_enrollee_bucket(a[1]));
    lemma_bucket_kinds_are_disjoint(a[0]);
    lemma_bucket_kinds_are_disjoint(a[1]);
    lemma_flags_are_no_buckets();
    assert forall|i: int| 2 <= i < a.len() implies a[i] == "DISABL"@ || a[i] == "ORIGDS"@ by {}
}

/// `ORIGDS` is among the demographic tags exactly for a beneficiary of 65 or
/// more who was entitled by disability, `DISABL` exactly for one under 65 who
/// is entitled for a reason other than age; the two never come together.
pub proof fn lemma_flag_tags(age: int, sex: Seq<char>, orec: Seq<char>)
    ensures
        age_sex_attributes(age, sex, orec).contains("ORIGDS"@) <==> (orec == "1"@ && age >= 65),
        age_sex_attributes(age, sex, orec).contains("DISABL"@) <==> is_disabled(age, orec),
        !(age_sex_attributes(age, sex, orec).contains("ORIGDS"@) && age_sex_attributes(
            age,
            sex,
            orec,
        ).contains("DISABL"@)),
{
    let a = age_sex_attributes(age, sex, orec);
    reveal_strlit("0");
    reveal_strlit("1");
    assert("0"@ != "1"@) by {
        assert("0"@[0] != "1"@[0]);
    }
    lemma_flags_are_no_buckets();
    lemma_one_bucket_of_each_kind(age, sex, orec);
    assert(is_enrollee_bucket(a[0]));
    assert(is_new_enrollee_bucket(a[1]));
    if is_disabled(age, orec) {
        assert(a[2] == "DISABL"@);
    }
    if is_originally_disabled(age, orec) {
        assert(a[a.len() - 1] == "ORIGDS"@);
    }
}

/// The enrollee age band of an age.
pub fn enrollee_band_of(age: i32) -> (band: usize)
    ensures
        band == enrollee_band(age as int),
        band < 12,
{
    if age <= 34 {
        0
    } else if age < 45 {
        1
    } else if age < 55 {
        2
    } else if age < 60 {
        3
    } else if age < 65 {
        4
    } else if age < 70 {
        5
    } else if age < 75 {
        6
    } else if age < 80 {
        7
    } else if age < 85 {
        8
    } else if age < 90 {
        9
    } else if age < 95 {
        10
    } else {
        11
    }
}

/// The new-enrollee age band of an age and entitlement reason.
pub fn new_enrollee_band_of(age: i32, orec: &str) -> (band: usize)
    ensures
        band == new_enrollee_band(age as int, orec@),
        band < 16,
{
    if age <= 34 {
        0
    } else if age < 45 {
        1
    } else if age < 55 {
        2
    } else if age < 60 {
        3
    } else if age < 64 {
        4
    } else if age == 64 {
        if !str_equal(orec, "0") {
            4
        } else {
            5
        }
    } else if age == 65 {
        5
    } else if age == 66 {
        6
    } else if age == 67 {
        7
    } else if age == 68 {
        8
    } else if age == 69 {
        9
    } else if age < 75 {
        10
    } else if age < 80 {
        11
    } else if age < 85 {
        12
    } else if age < 90 {
        13
    } else if age < 95 {
        14
    } else {
        15
    }
}

/// The label of an enrollee age band.
pub fn band_label_of(band: usize) -> (label: &'static str)
    ensures
        label@ == band_label(band as int),
{
    if band == 0 {
        "0_34"
    } else if band == 1 {
        "35_44"
    } else if band == 2 {
        "45_54"
    } else if band == 3 {
        "55_59"
    } else if band == 4 {
        "60_64"
    } else if band == 5 {
        "65_69"
    } else if band == 6 {
        "70_74"
    } else if band == 7 {
        "75_79"
    } else if band == 8 {
        "80_84"
    } else if band == 9 {
        "85_89"
    } else if band == 10 {
        "90_94"
    } else {
        "95_GT"
    }
}

/// The label of a new-enrollee age band.
pub fn new_enrollee_band_label_of(band: usize) -> (label: &'static str)
    ensures
        label@ == new_enrollee_band_label(band as int),
{
    if band == 0 {
        "0_34"
    } else if band == 1 {
        "35_44"
    } else if band == 2 {
        "45_54"
    } else if band == 3 {
        "55_59"
    } else if band == 4 {
        "60_64"
    } else if band == 5 {
        "65"
    } else if band == 6 {
        "66"
    } else if band == 7 {
        "67"
    } else if band == 8 {
        "68"
    } else if band == 9 {
        "69"
    } else if band == 10 {
        "70_74"
    } else if band == 11 {
        "75_79"
    } else if band == 12 {
        "80_84"
    } else if band == 13 {
        "85_89"
    } else if band == 14 {
        "90_94"
    } else {
        "95_GT"
    }
}

/// The name of the enrollee bucket of a sex and band.
pub fn enrollee_key(male: bool, band: usize) -> (name: String)
    ensures
        name@ == enrollee_name(male, band as int),
{
    let mut name = String::from_str(if male {
        "M"
    } else {
        "F"
    });
    name.append(band_label_of(band));
    name
}

/// The name of the new-enrollee bucket of a sex and band.
pub fn new_enrollee_key(male: bool, band: usize) -> (name: String)
    ensures
        name@ == new_enrollee_name(male, band as int),
{
    let mut name = String::from_str("NE");
    name.append(if male {
        "M"
    } else {
        "F"
    });
    name.append(new_enrollee_band_label_of(band));
    name
}

/// Derives the demographic tags of a beneficiary from age, sex and the
/// original reason for entitlement: the enrollee bucket, the new-enrollee
/// bucket, then `DISABL` and `ORIGDS` where they hold.
pub fn _age_sex_v2(age: i32, sex: &str, orec: &str) -> (tags: Vec<String>)
    ensures
        tags.deep_view() == age_sex_attributes(age as int, sex@, orec@),
        forall|i: int|
            0 <= i < tags.len() ==> (is_enrollee_bucket(#[trigger] tags.deep_view()[i]) <==> i
                == 0),
        forall|i: int|
            0 <= i < tags.len() ==> (is_new_enrollee_bucket(#[trigger] tags.deep_view()[i]) <==> i
                == 1),
        tags.deep_view().contains("ORIGDS"@) <==> (orec@ == "1"@ && age >= 65),
        tags.deep_view().contains("DISABL"@) <==> (orec@ != "0"@ && age < 65),
{
    let male = str_equal(sex, "M");
    let disabled = age < 65 && !str_equal(orec, "0");
    let originally_disabled = str_equal(orec, "1") && !disabled;
    let mut tags: Vec<String> = Vec::new();
    push_name(&mut tags, enrollee_key(male, enrollee_band_of(age)));
    push_name(&mut tags, new_enrollee_key(male, new_enrollee_band_of(age, orec)));
    assert(tags.deep_view() =~= seq![
        enrollee_name(is_male(sex@), enrollee_band(age as int)),
        new_enrollee_name(is_male(sex@), new_enrollee_band(age as int, orec@)),
    ]);
    push_if(&mut tags, disabled, "DISABL");
    push_if(&mut tags, originally_disabled, "ORIGDS");
    proof {
        lemma_one_bucket_of_each_kind(age as int, sex@, orec@);
        lemma_flag_tags(age as int, sex@, orec@);
    }
    tags
}

} // verus!
