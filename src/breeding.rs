//! Breeding rules: the checks before a pair is formed, and the scores and
//! advice of a pair analysis. Scores are whole hundredths of a point (a
//! score of 85.0 is 8500); relationship coefficients are tenths of a
//! percent (12.5% is 125).
use vstd::prelude::*;
use vstd::string::StringExecFns;
use chrono::Datelike;

verus! {

/// A calendar day.
#[derive(Debug, Clone, Copy, PartialEq, Eq, Structural)]
pub struct CalendarDate {
    pub year: i32,
    pub month: u32,
    pub day: u32,
}

/// `year` is a leap year of the Gregorian calendar.
pub open spec fn is_leap_year(year: int) -> bool {
    (year % 4 == 0 && year % 100 != 0) || year % 400 == 0
}

/// The number of days of a month.
pub open spec fn days_in_month(year: int, month: int) -> int {
    if month == 2 {
        if is_leap_year(year) { 29 } else { 28 }
    } else if month == 4 || month == 6 || month == 9 || month == 11 {
        30
    } else {
        31
    }
}

/// The date exists in the Gregorian calendar.
pub open spec fn valid_date(d: CalendarDate) -> bool {
    1 <= d.month <= 12 && 1 <= d.day <= days_in_month(d.year as int, d.month as int)
}

/// The date that the text `s` gives in the form year-month-day, if any.
pub uninterp spec fn parsed_date(s: Seq<char>) -> Option<CalendarDate>;

/// Relies on `chrono::NaiveDate`'s `FromStr` (year-month-day): the date that
/// the text names, which is a real calendar day, or none.
#[verifier::external_body]
fn parse_calendar_date(s: &str) -> (r: Option<CalendarDate>)
    ensures
        r == parsed_date(s@),
        r is Some ==> valid_date(r->Some_0),
{
    match s.parse::<chrono::NaiveDate>() {
        Ok(d) => Some(CalendarDate { year: d.year(), month: d.month(), day: d.day() }),
        Err(_) => None,
    }
}

/// Why a pair cannot be formed.
#[derive(Debug, Clone, Copy, PartialEq, Eq, Structural)]
pub enum PairCheckError {
    /// The pairing date is not a calendar day in year-month-day form.
    InvalidDate,
    /// The chosen sire is not recorded as male.
    SireNotMale,
    /// The chosen dam is not recorded as female.
    DamNotFemale,
    /// The sire or the dam is already in an active pair.
    AlreadyPaired,
    /// The chosen nest box is taken.
    NestBoxUnavailable,
}

/// A nest box can take a new pair: it is marked available, or no pair is
/// recorded in it.
pub open spec fn nest_box_free(status: Seq<char>, current_pair_id: Option<i64>) -> bool {
    status == "available"@ || current_pair_id is None
}

/// Whether a nest box can take a new pair (see `nest_box_free`).
pub fn nest_box_available(status: &String, current_pair_id: Option<i64>) -> (r: bool)
    ensures
        r == nest_box_free(status@, current_pair_id),
{
    *status == String::from_str("available") || current_pair_id.is_none()
}

/// The checks before a pair is formed, in order: the pairing date parses,
/// the sire is "male", the dam is "female", neither is in an active pair,
/// and the chosen nest box (its status and current pair), if any, is free.
/// Gives the pairing date.
pub fn validate_breeding_pair(
    pair_date: &str,
    sire_sex: &String,
    dam_sex: &String,
    active_pairs: i64,
    nest_box: Option<(String, Option<i64>)>,
) -> (r: Result<CalendarDate, PairCheckError>)
    ensures
        parsed_date(pair_date@) is None ==> r == Err::<CalendarDate, PairCheckError>(
            PairCheckError::InvalidDate,
        ),
        parsed_date(pair_date@) is Some ==> r == (if sire_sex@ != "male"@ {
            Err(PairCheckError::SireNotMale)
        } else if dam_sex@ != "female"@ {
            Err(PairCheckError::DamNotFemale)
        } else if active_pairs > 0 {
            Err(PairCheckError::AlreadyPaired)
        } else if nest_box is Some && !nest_box_free(nest_box->Some_0.0@, nest_box->Some_0.1) {
            Err(PairCheckError::NestBoxUnavailable)
        } else {
            Ok(parsed_date(pair_date@)->Some_0)
        }),
        r is Ok ==> valid_date(r->Ok_0),
{
    let date = match parse_calendar_date(pair_date) {
        Some(d) => d,
        None => return Err(PairCheckError::InvalidDate),
    };
    if *sire_sex != String::from_str("male") {
        return Err(PairCheckError::SireNotMale);
    }
    if *dam_sex != String::from_str("female") {
        return Err(PairCheckError::DamNotFemale);
    }
    if active_pairs > 0 {
        return Err(PairCheckError::AlreadyPaired);
    }
    if let Some((status, current_pair_id)) = &nest_box {
        if !nest_box_available(status, *current_pair_id) {
            return Err(PairCheckError::NestBoxUnavailable);
        }
    }
    Ok(date)
}

/// An optional date field: absent stays absent, present must parse.
pub fn parse_optional_date(s: &Option<String>) -> (r: Result<Option<CalendarDate>, PairCheckError>)
    ensures
        match s {
            None => r == Ok::<Option<CalendarDate>, PairCheckError>(None),
            Some(t) => match parsed_date(t@) {
                Some(d) => r == Ok::<Option<CalendarDate>, PairCheckError>(Some(d)),
                None => r == Err::<Option<CalendarDate>, PairCheckError>(
                    PairCheckError::InvalidDate,
                ),
            },
        },
{
    match s {
        None => Ok(None),
        Some(t) => match parse_calendar_date(t.as_str()) {
            Some(d) => Ok(Some(d)),
            None => Err(PairCheckError::InvalidDate),
        },
    }
}

/// What a pair analysis reads of a pigeon.
#[derive(Debug, Clone)]
pub struct PairCandidate {
    pub id: i64,
    /// Year of birth.
    pub year: i32,
    /// 0: male, 1: female, 2: unknown.
    pub sex: i32,
    pub strain: Option<String>,
    /// 1: active; anything else: inactive.
    pub status: i32,
    pub sire_id: Option<i64>,
    pub dam_id: Option<i64>,
}

/// Both parents are recorded and the same value.
pub open spec fn same_parent(a: Option<i64>, b: Option<i64>) -> bool {
    a is Some && a == b
}

/// The relationship coefficient of a pair, in tenths of a percent: 250 when
/// one is the other's parent (the dam's sire is the sire, or the sire's dam
/// is the dam) or when both parents are shared, 125 when one is, else 0.
pub open spec fn kinship(sire: PairCandidate, dam: PairCandidate) -> int {
    if dam.sire_id == Some(sire.id) || sire.dam_id == Some(dam.id) {
        250
    } else if sire.id != dam.id && same_parent(sire.sire_id, dam.sire_id) && same_parent(
        sire.dam_id,
        dam.dam_id,
    ) {
        250
    } else if sire.id != dam.id && (same_parent(sire.sire_id, dam.sire_id) || same_parent(
        sire.dam_id,
        dam.dam_id,
    )) {
        125
    } else {
        0
    }
}

fn shares_parent(a: Option<i64>, b: Option<i64>) -> (r: bool)
    ensures
        r == same_parent(a, b),
{
    match (a, b) {
        (Some(x), Some(y)) => x == y,
        _ => false,
    }
}

/// The relationship coefficient of a pair (see `kinship`).
pub fn calculate_relationship_coefficient(sire: &PairCandidate, dam: &PairCandidate) -> (r: u32)
    ensures
        r as int == kinship(*sire, *dam),
{
    if dam.sire_id == Some(sire.id) || sire.dam_id == Some(dam.id) {
        return 250;
    }
    let same_sire = shares_parent(sire.sire_id, dam.sire_id);
    let same_dam = shares_parent(sire.dam_id, dam.dam_id);
    if sire.id != dam.id && same_sire && same_dam {
        250
    } else if sire.id != dam.id && (same_sire || same_dam) {
        125
    } else {
        0
    }
}

/// Strain score: 85 for one shared strain, 70 for two strains, 60 when
/// either is unknown.
pub open spec fn strain_score(sire: Option<String>, dam: Option<String>) -> int {
    match (sire, dam) {
        (Some(a), Some(b)) => if a@ == b@ { 8500 } else { 7000 },
        _ => 6000,
    }
}

/// The strain compatibility of a pair.
#[derive(Debug, Clone)]
pub struct BreedCompatibility {
    pub sire_strain: Option<String>,
    pub dam_strain: Option<String>,
    pub compatibility_score: u32,
    pub advantages: Vec<String>,
    pub considerations: Vec<String>,
}

/// The strain compatibility of a pair (see `strain_score`).
pub fn analyze_breed_compatibility(sire: &PairCandidate, dam: &PairCandidate) -> (r: BreedCompatibility)
    ensures
        r.sire_strain == sire.strain,
        r.dam_strain == dam.strain,
        r.compatibility_score as int == strain_score(sire.strain, dam.strain),
        texts(r.advantages@) == seq!["品种纯度保持"@, "遗传稳定性好"@],
        texts(r.considerations@) == seq!["避免过度近亲繁殖"@, "注意遗传多样性"@],
{
    let compatibility_score = match (&sire.strain, &dam.strain) {
        (Some(a), Some(b)) => if *a == *b {
            8500
        } else {
            7000
        },
        _ => 6000,
    };
    let mut advantages: Vec<String> = Vec::new();
    push_text(&mut advantages, "品种纯度保持");
    push_text(&mut advantages, "遗传稳定性好");
    let mut considerations: Vec<String> = Vec::new();
    push_text(&mut considerations, "避免过度近亲繁殖");
    push_text(&mut considerations, "注意遗传多样性");
    assert(texts(advantages@) =~= seq!["品种纯度保持"@, "遗传稳定性好"@]);
    assert(texts(considerations@) =~= seq!["避免过度近亲繁殖"@, "注意遗传多样性"@]);
    BreedCompatibility {
        sire_strain: crate::pigeon::copy_text(&sire.strain),
        dam_strain: crate::pigeon::copy_text(&dam.strain),
        compatibility_score,
        advantages,
        considerations,
    }
}

/// How well the ages of a pair suit breeding.
#[derive(Debug, Clone)]
pub struct AgeSuitability {
    pub sire_age: i64,
    pub dam_age: i64,
    pub optimal_breeding_age: bool,
    pub score: u32,
    pub recommendations: Vec<String>,
}

/// Advice on the ages of a pair with the given age score.
pub open spec fn age_advice(score: int) -> Seq<Seq<char>> {
    if score < 8000 {
        seq!["建议选择更适宜繁殖年龄的鸽子"@]
    } else {
        seq!["年龄适宜，可以进行繁殖"@]
    }
}

/// Age score of a sire: 90 from two to six years, else 60.
pub open spec fn sire_age_score(age: int) -> int {
    if 2 <= age <= 6 { 9000 } else { 6000 }
}

/// Age score of a dam: 90 from one to five years, else 60.
pub open spec fn dam_age_score(age: int) -> int {
    if 1 <= age <= 5 { 9000 } else { 6000 }
}

/// The ages of a pair in `current_year` and the mean of their age scores;
/// optimal from 80 up.
pub fn analyze_age_suitability(current_year: i32, sire: &PairCandidate, dam: &PairCandidate) -> (r:
    AgeSuitability)
    ensures
        r.sire_age == current_year - sire.year,
        r.dam_age == current_year - dam.year,
        r.score as int == (sire_age_score(r.sire_age as int) + dam_age_score(r.dam_age as int)) / 2,
        r.optimal_breeding_age == (r.score >= 8000),
        texts(r.recommendations@) == age_advice(r.score as int),
{
    let sire_age = current_year as i64 - sire.year as i64;
    let dam_age = current_year as i64 - dam.year as i64;
    let sire_score: u32 = if 2 <= sire_age && sire_age <= 6 {
        9000
    } else {
        6000
    };
    let dam_score: u32 = if 1 <= dam_age && dam_age <= 5 {
        9000
    } else {
        6000
    };
    let score = (sire_score + dam_score) / 2;
    let mut recommendations: Vec<String> = Vec::new();
    if score < 8000 {
        push_text(&mut recommendations, "建议选择更适宜繁殖年龄的鸽子");
    } else {
        push_text(&mut recommendations, "年龄适宜，可以进行繁殖");
    }
    assert(texts(recommendations@) =~= age_advice(score as int));
    AgeSuitability { sire_age, dam_age, optimal_breeding_age: score >= 8000, score, recommendations }
}

/// Health score of a pair: 90 when both are active, 70 when one is, else 50.
pub open spec fn health_score(sire_status: i32, dam_status: i32) -> int {
    if sire_status == 1 && dam_status == 1 {
        9000
    } else if sire_status == 1 || dam_status == 1 {
        7000
    } else {
        5000
    }
}

/// The health compatibility of a pair.
#[derive(Debug, Clone)]
pub struct HealthCompatibility {
    pub sire_health_status: String,
    pub dam_health_status: String,
    pub compatibility_score: u32,
    pub health_considerations: Vec<String>,
}

/// "active" for status 1, else "inactive".
pub open spec fn status_text(status: i32) -> Seq<char> {
    if status == 1 { "active"@ } else { "inactive"@ }
}

fn status_name(status: i32) -> (r: String)
    ensures
        r@ == status_text(status),
{
    if status == 1 {
        String::from_str("active")
    } else {
        String::from_str("inactive")
    }
}

/// The health compatibility of a pair (see `health_score`).
pub fn analyze_health_compatibility(sire: &PairCandidate, dam: &PairCandidate) -> (r:
    HealthCompatibility)
    ensures
        r.sire_health_status@ == status_text(sire.status),
        r.dam_health_status@ == status_text(dam.status),
        r.compatibility_score as int == health_score(sire.status, dam.status),
        texts(r.health_considerations@) == seq!["确保双方鸽子健康状态良好"@, "定期进行健康检查"@],
{
    let compatibility_score = if sire.status == 1 && dam.status == 1 {
        9000
    } else if sire.status == 1 || dam.status == 1 {
        7000
    } else {
        5000
    };
    let mut health_considerations: Vec<String> = Vec::new();
    push_text(&mut health_considerations, "确保双方鸽子健康状态良好");
    push_text(&mut health_considerations, "定期进行健康检查");
    assert(texts(health_considerations@) =~= seq!["确保双方鸽子健康状态良好"@, "定期进行健康检查"@]);
    HealthCompatibility {
        sire_health_status: status_name(sire.status),
        dam_health_status: status_name(dam.status),
        compatibility_score,
        health_considerations,
    }
}

/// The overall score of a pair: a quarter of the strain score, a quarter of
/// the age score, a fifth of the health score, and 30% of 100 less a kinship
/// penalty; the penalty is 50 less the coefficient (in percent) when the
/// coefficient is above 12.5%, else nothing. Rounded down to a hundredth.
pub open spec fn overall_score(relationship: int, breed: int, age: int, health: int) -> int {
    let penalty = if relationship > 125 { 5000 - relationship * 10 } else { 0 };
    (breed * 25 + age * 25 + health * 20 + (10000 - penalty) * 30) / 100
}

/// The overall score of a pair (see `overall_score`).
pub fn calculate_compatibility_score(relationship_coefficient: u32, breed_score: u32, age_score: u32, health_score: u32) -> (r: i64)
    requires
        relationship_coefficient <= 1000,
        breed_score <= 10000,
        age_score <= 10000,
        health_score <= 10000,
    ensures
        r as int == overall_score(
            relationship_coefficient as int,
            breed_score as int,
            age_score as int,
            health_score as int,
        ),
{
    let penalty: i64 = if relationship_coefficient > 125 {
        5000 - relationship_coefficient as i64 * 10
    } else {
        0
    };
    let sum: i64 = breed_score as i64 * 25 + age_score as i64 * 25 + health_score as i64 * 20 + (
    10000 - penalty) * 30;
    sum / 100
}

/// The texts of some strings.
pub open spec fn texts(v: Seq<String>) -> Seq<Seq<char>> {
    v.map_values(|s: String| s@)
}

/// Advice on a pair: a warning on close kinship (above 12.5%), a verdict on
/// the overall score (from 80 good, from 60 middling, else poor), and a
/// warning when either bird is already in an active pair.
pub open spec fn pair_advice(relationship: int, score: int, already_paired: bool) -> Seq<Seq<char>> {
    let kin: Seq<Seq<char>> = if relationship > 125 {
        seq!["⚠️ 血缘关系较近，建议避免配对"@]
    } else {
        seq![]
    };
    let verdict = if score >= 8000 {
        "✅ 配对兼容性良好，推荐进行繁殖"@
    } else if score >= 6000 {
        "⚠️ 配对兼容性中等，建议谨慎考虑"@
    } else {
        "❌ 配对兼容性较低，不建议进行繁殖"@
    };
    let paired: Seq<Seq<char>> = if already_paired {
        seq!["⚠️ 其中一只鸽子已存在活跃配对"@]
    } else {
        seq![]
    };
    kin.push(verdict) + paired
}

/// Appends `text` to `out`.
fn push_text(out: &mut Vec<String>, text: &str)
    ensures
        texts(final(out)@) == texts(old(out)@).push(text@),
{
    let ghost before = out@;
    out.push(String::from_str(text));
    assert(texts(out@) =~= texts(before).push(text@));
}

/// Advice on a pair (see `pair_advice`).
pub fn generate_breeding_recommendations(relationship_coefficient: u32, compatibility_score: i64, already_paired: bool) -> (r: Vec<String>)
    ensures
        texts(r@) == pair_advice(relationship_coefficient as int, compatibility_score as int, already_paired),
{
    let mut recommendations: Vec<String> = Vec::new();
    if relationship_coefficient > 125 {
        push_text(&mut recommendations, "⚠️ 血缘关系较近，建议避免配对");
    }
    if compatibility_score >= 8000 {
        push_text(&mut recommendations, "✅ 配对兼容性良好，推荐进行繁殖");
    } else if compatibility_score >= 6000 {
        push_text(&mut recommendations, "⚠️ 配对兼容性中等，建议谨慎考虑");
    } else {
        push_text(&mut recommendations, "❌ 配对兼容性较低，不建议进行繁殖");
    }
    if already_paired {
        push_text(&mut recommendations, "⚠️ 其中一只鸽子已存在活跃配对");
    }
    assert(texts(recommendations@) =~= pair_advice(
        relationship_coefficient as int,
        compatibility_score as int,
        already_paired,
    ));
    recommendations
}

/// A full analysis of a prospective pair.
#[derive(Debug, Clone)]
pub struct PairCompatibilityAnalysis {
    pub sire_id: i64,
    pub dam_id: i64,
    /// Tenths of a percent.
    pub relationship_coefficient: u32,
    pub breed_compatibility: BreedCompatibility,
    pub age_suitability: AgeSuitability,
    pub health_compatibility: HealthCompatibility,
    /// Hundredths of a point.
    pub overall_score: i64,
    pub recommendations: Vec<String>,
}

/// Why a pair cannot be analysed.
#[derive(Debug, Clone, Copy, PartialEq, Eq, Structural)]
pub enum BreedingError {
    /// The sire is not male or the dam is not female.
    WrongSexes,
}

/// Analyses a prospective pair in `current_year`: kinship, strains, ages,
/// health, the overall score and advice. The sire must be male (0) and the
/// dam female (1).
pub fn analyze_pair_compatibility(
    sire: &PairCandidate,
    dam: &PairCandidate,
    current_year: i32,
    already_paired: bool,
) -> (r: Result<PairCompatibilityAnalysis, BreedingError>)
    ensures
        (sire.sex != 0 || dam.sex != 1) ==> r == Err::<PairCompatibilityAnalysis, BreedingError>(
            BreedingError::WrongSexes,
        ),
        (sire.sex == 0 && dam.sex == 1) ==> r is Ok,
        r is Ok ==> ({
            let a = r->Ok_0;
            let rel = kinship(*sire, *dam);
            let breed = strain_score(sire.strain, dam.strain);
            let age = a.age_suitability.score as int;
            let health = health_score(sire.status, dam.status);
            let overall = overall_score(rel, breed, age, health);
            &&& a.sire_id == sire.id
            &&& a.dam_id == dam.id
            &&& a.relationship_coefficient as int == rel
            &&& a.breed_compatibility.compatibility_score as int == breed
            &&& a.breed_compatibility.sire_strain == sire.strain
            &&& a.breed_compatibility.dam_strain == dam.strain
            &&& a.age_suitability.sire_age == current_year - sire.year
            &&& a.age_suitability.dam_age == current_year - dam.year
            &&& age == (sire_age_score(a.age_suitability.sire_age as int) + dam_age_score(
                a.age_suitability.dam_age as int,
            )) / 2
            &&& a.age_suitability.optimal_breeding_age == (age >= 8000)
            &&& texts(a.age_suitability.recommendations@) == age_advice(age)
            &&& texts(a.breed_compatibility.advantages@) == seq!["品种纯度保持"@, "遗传稳定性好"@]
            &&& texts(a.breed_compatibility.considerations@) == seq!["避免过度近亲繁殖"@, "注意遗传多样性"@]
            &&& texts(a.health_compatibility.health_considerations@) == seq![
                "确保双方鸽子健康状态良好"@,
                "定期进行健康检查"@,
            ]
            &&& a.health_compatibility.compatibility_score as int == health
            &&& a.health_compatibility.sire_health_status@ == status_text(sire.status)
            &&& a.health_compatibility.dam_health_status@ == status_text(dam.status)
            &&& a.overall_score as int == overall
            &&& texts(a.recommendations@) == pair_advice(rel, overall, already_paired)
        }),
{
    if sire.sex != 0 || dam.sex != 1 {
        return Err(BreedingError::WrongSexes);
    }
    let relationship_coefficient = calculate_relationship_coefficient(sire, dam);
    let breed_compatibility = analyze_breed_compatibility(sire, dam);
    let age_suitability = analyze_age_suitability(current_year, sire, dam);
    let health_compatibility = analyze_health_compatibility(sire, dam);
    let overall_score = calculate_compatibility_score(
        relationship_coefficient,
        breed_compatibility.compatibility_score,
        age_suitability.score,
        health_compatibility.compatibility_score,
    );
    let recommendations = generate_breeding_recommendations(
        relationship_coefficient,
        overall_score,
        already_paired,
    );
    Ok(
        PairCompatibilityAnalysis {
            sire_id: sire.id,
            dam_id: dam.id,
            relationship_coefficient,
            breed_compatibility,
            age_suitability,
            health_compatibility,
            overall_score,
            recommendations,
        },
    )
}

/// Expected benefits of a pair: a good hatch and survival rate from an
/// overall 80, good offspring from a strain score of 80, breeding success
/// at suitable ages.
pub open spec fn benefits_of(a: PairCompatibilityAnalysis) -> Seq<Seq<char>> {
    benefits_from(
        a.overall_score as int,
        a.breed_compatibility.compatibility_score as int,
        a.age_suitability.optimal_breeding_age,
    )
}

/// Expected benefits from an overall score, a strain score and whether the
/// ages are suitable (see `benefits_of`).
pub open spec fn benefits_from(overall: int, breed: int, optimal_age: bool) -> Seq<Seq<char>> {
    let s1: Seq<Seq<char>> = if overall >= 8000 {
        seq!["预计孵化率和成活率较高"@]
    } else {
        seq![]
    };
    let s2: Seq<Seq<char>> = if breed >= 8000 {
        seq!["后品种质优良"@]
    } else {
        seq![]
    };
    let s3: Seq<Seq<char>> = if optimal_age {
        seq!["繁殖成功率预期良好"@]
    } else {
        seq![]
    };
    s1 + s2 + s3
}

/// Expected benefits of a pair (see `benefits_of`).
pub fn predict_breeding_benefits(compatibility: &PairCompatibilityAnalysis) -> (r: Vec<String>)
    ensures
        texts(r@) == benefits_of(*compatibility),
{
    let mut benefits: Vec<String> = Vec::new();
    if compatibility.overall_score >= 8000 {
        push_text(&mut benefits, "预计孵化率和成活率较高");
    }
    if compatibility.breed_compatibility.compatibility_score >= 8000 {
        push_text(&mut benefits, "后品种质优良");
    }
    if compatibility.age_suitability.optimal_breeding_age {
        push_text(&mut benefits, "繁殖成功率预期良好");
    }
    assert(texts(benefits@) =~= benefits_of(*compatibility));
    benefits
}

/// Risks of a pair: inbreeding above 12.5%, an age score under 70, a health
/// score under 70.
pub open spec fn risks_of(a: PairCompatibilityAnalysis) -> Seq<Seq<char>> {
    risks_from(
        a.relationship_coefficient as int,
        a.age_suitability.score as int,
        a.health_compatibility.compatibility_score as int,
    )
}

/// Risks from a kinship coefficient, an age score and a health score (see
/// `risks_of`).
pub open spec fn risks_from(relationship: int, age: int, health: int) -> Seq<Seq<char>> {
    let s1: Seq<Seq<char>> = if relationship > 125 {
        seq!["近亲繁殖风险"@]
    } else {
        seq![]
    };
    let s2: Seq<Seq<char>> = if age < 7000 {
        seq!["年龄不适宜可能导致繁殖成功率降低"@]
    } else {
        seq![]
    };
    let s3: Seq<Seq<char>> = if health < 7000 {
        seq!["健康状况可能影响繁殖效果"@]
    } else {
        seq![]
    };
    s1 + s2 + s3
}

/// Risks of a pair (see `risks_of`).
pub fn identify_breeding_risks(compatibility: &PairCompatibilityAnalysis) -> (r: Vec<String>)
    ensures
        texts(r@) == risks_of(*compatibility),
{
    let mut risks: Vec<String> = Vec::new();
    if compatibility.relationship_coefficient > 125 {
        push_text(&mut risks, "近亲繁殖风险");
    }
    if compatibility.age_suitability.score < 7000 {
        push_text(&mut risks, "年龄不适宜可能导致繁殖成功率降低");
    }
    if compatibility.health_compatibility.compatibility_score < 7000 {
        push_text(&mut risks, "健康状况可能影响繁殖效果");
    }
    assert(texts(risks@) =~= risks_of(*compatibility));
    risks
}

/// One step of a breeding schedule.
#[derive(Debug, Clone)]
pub struct BreedingScheduleItem {
    pub pair_id: i64,
    pub recommended_action: String,
    /// 3 before 2 before 1.
    pub priority: i32,
    pub estimated_timeline: String,
    pub resource_requirements: Vec<String>,
}

/// What a schedule knows of a pair.
#[derive(Debug, Clone, Copy, PartialEq, Eq, Structural)]
pub struct PairStanding {
    pub pair_id: i64,
    /// The pair's status is "active".
    pub active: bool,
    /// The pair's overall score, in hundredths.
    pub overall_score: i64,
}

/// The action and priority for a pair: an active pair scoring 80 or more
/// goes on breeding (1), a weaker active pair is considered for separation
/// (2), any other pair is evaluated for re-pairing (3).
pub open spec fn suitability(p: PairStanding) -> (Seq<char>, int) {
    if p.active {
        if p.overall_score >= 8000 {
            ("continue_breeding"@, 1)
        } else {
            ("consider_separation"@, 2)
        }
    } else {
        ("evaluate_repairing"@, 3)
    }
}

/// The schedule step of a pair (see `suitability`); it takes two to four
/// weeks and needs a nest box, feed and medical supplies.
pub fn analyze_pair_suitability(pair: &PairStanding) -> (r: BreedingScheduleItem)
    ensures
        r.pair_id == pair.pair_id,
        r.recommended_action@ == suitability(*pair).0,
        r.priority as int == suitability(*pair).1,
        r.estimated_timeline@ == "2-4周"@,
        texts(r.resource_requirements@) == seq!["巢箱"@, "饲料"@, "医疗用品"@],
{
    let (recommended_action, priority) = if pair.active {
        if pair.overall_score >= 8000 {
            (String::from_str("continue_breeding"), 1)
        } else {
            (String::from_str("consider_separation"), 2)
        }
    } else {
        (String::from_str("evaluate_repairing"), 3)
    };
    let mut resource_requirements: Vec<String> = Vec::new();
    push_text(&mut resource_requirements, "巢箱");
    push_text(&mut resource_requirements, "饲料");
    push_text(&mut resource_requirements, "医疗用品");
    assert(texts(resource_requirements@) =~= seq!["巢箱"@, "饲料"@, "医疗用品"@]);
    BreedingScheduleItem {
        pair_id: pair.pair_id,
        recommended_action,
        priority,
        estimated_timeline: String::from_str("2-4周"),
        resource_requirements,
    }
}

/// A breeding schedule for a set of pairs.
#[derive(Debug, Clone)]
pub struct BreedingScheduleOptimization {
    pub total_pairs: usize,
    /// Priority 3 first, then 2, then 1; pairs of one priority in the given
    /// order.
    pub optimized_schedule: Vec<BreedingScheduleItem>,
    /// Pairs to house.
    pub nest_boxes_needed: usize,
    /// Nest boxes free.
    pub nest_boxes_available: i64,
    pub recommendations: Vec<String>,
}

/// A pair has the given priority.
pub open spec fn priority_is(priority: int) -> spec_fn(PairStanding) -> bool {
    |p: PairStanding| suitability(p).1 == priority
}

/// The pairs, those of priority 3 first, then 2, then 1, each group in the
/// given order.
pub open spec fn schedule_order(pairs: Seq<PairStanding>) -> Seq<PairStanding> {
    pairs.filter(priority_is(3)) + pairs.filter(priority_is(2)) + pairs.filter(priority_is(1))
}

/// `item` is the schedule step of `pair` (see `analyze_pair_suitability`).
pub open spec fn step_of(item: BreedingScheduleItem, pair: PairStanding) -> bool {
    &&& item.pair_id == pair.pair_id
    &&& item.recommended_action@ == suitability(pair).0
    &&& item.priority as int == suitability(pair).1
    &&& item.estimated_timeline@ == "2-4周"@
    &&& texts(item.resource_requirements@) == seq!["巢箱"@, "饲料"@, "医疗用品"@]
}

/// `items` are the steps of `pairs`, one for one.
pub open spec fn steps_of(items: Seq<BreedingScheduleItem>, pairs: Seq<PairStanding>) -> bool {
    items.len() == pairs.len() && forall|k: int| 0 <= k < items.len() ==> step_of(#[trigger] items[k], pairs[k])
}

/// General advice on a schedule: to start with the urgent pairs when more
/// than half have priority 2 or below, that nest boxes are short (the
/// schedule always reports their use), and to reassess the plan regularly.
pub open spec fn schedule_advice(pairs: Seq<PairStanding>) -> Seq<Seq<char>> {
    let urgent = pairs.filter(|p: PairStanding| suitability(p).1 <= 2).len();
    let first: Seq<Seq<char>> = if urgent > pairs.len() / 2 {
        seq!["建议优先处理高优先级配对"@]
    } else {
        seq![]
    };
    first + seq!["巢箱资源紧张，考虑增加巢箱或调整配对时间"@, "定期评估繁殖效果，及时调整计划"@]
}

/// Appends to `out` the steps of the pairs of one priority, in order.
fn push_with_priority(pairs: &Vec<PairStanding>, priority: i32, out: &mut Vec<BreedingScheduleItem>)
    ensures
        final(out)@.len() == old(out)@.len() + pairs@.filter(priority_is(priority as int)).len(),
        forall|k: int| 0 <= k < old(out)@.len() ==> final(out)@[k] == old(out)@[k],
        forall|k: int|
            old(out)@.len() <= k < final(out)@.len() ==> step_of(
                #[trigger] final(out)@[k],
                pairs@.filter(priority_is(priority as int))[k - old(out)@.len()],
            ),
{
    let ghost s = pairs@;
    let ghost start = out@;
    let ghost pred = priority_is(priority as int);
    let mut i: usize = 0;
    while i < pairs.len()
        invariant
            0 <= i <= s.len(),
            s == pairs@,
            pred == priority_is(priority as int),
            out@.len() == start.len() + s.subrange(0, i as int).filter(pred).len(),
            forall|k: int| 0 <= k < start.len() ==> out@[k] == start[k],
            forall|k: int|
                start.len() <= k < out@.len() ==> step_of(
                    #[trigger] out@[k],
                    s.subrange(0, i as int).filter(pred)[k - start.len()],
                ),
        decreases s.len() - i,
    {
        proof {
            reveal(Seq::filter);
        }
        assert(s.subrange(0, i + 1).drop_last() =~= s.subrange(0, i as int));
        let ghost before = s.subrange(0, i as int).filter(pred);
        let item = analyze_pair_suitability(&pairs[i]);
        if item.priority == priority {
            out.push(item);
            assert(s.subrange(0, i + 1).filter(pred) == before.push(s[i as int]));
            assert forall|k: int| start.len() <= k < out@.len() implies step_of(
                #[trigger] out@[k],
                before.push(s[i as int])[k - start.len()],
            ) by {
                if k < out@.len() - 1 {
                    assert(before.push(s[i as int])[k - start.len()] == before[k - start.len()]);
                }
            }
        }
        i = i + 1;
    }
    assert(s.subrange(0, s.len() as int) =~= s);
}

/// A schedule for the given pairs: the step of each pair (see
/// `analyze_pair_suitability`), priority 3 first, then 2, then 1, keeping
/// the given order within a priority; the nest boxes needed (one per pair)
/// against those free; and general advice.
pub fn optimize_breeding_schedule(active_pairs: &Vec<PairStanding>, available_nest_boxes: i64) -> (r:
    BreedingScheduleOptimization)
    ensures
        r.total_pairs == active_pairs@.len(),
        steps_of(r.optimized_schedule@, schedule_order(active_pairs@)),
        r.nest_boxes_needed == active_pairs@.len(),
        r.nest_boxes_available == available_nest_boxes,
        texts(r.recommendations@) == schedule_advice(active_pairs@),
{
    let ghost p3 = active_pairs@.filter(priority_is(3));
    let ghost p2 = active_pairs@.filter(priority_is(2));
    let ghost p1 = active_pairs@.filter(priority_is(1));
    let mut schedule: Vec<BreedingScheduleItem> = Vec::new();
    push_with_priority(active_pairs, 3, &mut schedule);
    let ghost s3 = schedule@;
    push_with_priority(active_pairs, 2, &mut schedule);
    let ghost s2 = schedule@;
    push_with_priority(active_pairs, 1, &mut schedule);
    proof {
        let order = schedule_order(active_pairs@);
        assert(order == p3 + p2 + p1);
        assert forall|k: int| 0 <= k < schedule@.len() implies step_of(
            #[trigger] schedule@[k],
            order[k],
        ) by {
            if k < p3.len() {
                assert(schedule@[k] == s2[k]);
                assert(s2[k] == s3[k]);
                assert(order[k] == p3[k]);
            } else if k < p3.len() + p2.len() {
                assert(schedule@[k] == s2[k]);
                assert(order[k] == p2[k - p3.len()]);
            } else {
                assert(order[k] == p1[k - p3.len() - p2.len()]);
            }
        }
    }
    let recommendations = generate_schedule_recommendations(active_pairs);
    BreedingScheduleOptimization {
        total_pairs: active_pairs.len(),
        optimized_schedule: schedule,
        nest_boxes_needed: active_pairs.len(),
        nest_boxes_available: available_nest_boxes,
        recommendations,
    }
}

/// General advice on a schedule (see `schedule_advice`).
pub fn generate_schedule_recommendations(pairs: &Vec<PairStanding>) -> (r: Vec<String>)
    ensures
        texts(r@) == schedule_advice(pairs@),
{
    let ghost s = pairs@;
    let ghost pred = |p: PairStanding| suitability(p).1 <= 2;
    let mut urgent: usize = 0;
    let mut i: usize = 0;
    while i < pairs.len()
        invariant
            0 <= i <= s.len(),
            s == pairs@,
            pred == (|p: PairStanding| suitability(p).1 <= 2),
            urgent as nat == s.subrange(0, i as int).filter(pred).len(),
            urgent <= i,
        decreases s.len() - i,
    {
        proof {
            reveal(Seq::filter);
        }
        assert(s.subrange(0, i + 1).drop_last() =~= s.subrange(0, i as int));
        if pairs[i].active {
            urgent = urgent + 1;
        }
        i = i + 1;
    }
    assert(s.subrange(0, s.len() as int) =~= s);
    let mut recommendations: Vec<String> = Vec::new();
    if urgent > pairs.len() / 2 {
        push_text(&mut recommendations, "建议优先处理高优先级配对");
    }
    push_text(&mut recommendations, "巢箱资源紧张，考虑增加巢箱或调整配对时间");
    push_text(&mut recommendations, "定期评估繁殖效果，及时调整计划");
    assert(texts(recommendations@) =~= schedule_advice(pairs@));
    recommendations
}

/// A suggested pair.
#[derive(Debug, Clone)]
pub struct BreedingRecommendation {
    pub sire_id: i64,
    pub dam_id: i64,
    /// Hundredths of a point.
    pub compatibility_score: i64,
    pub expected_benefits: Vec<String>,
    pub potential_risks: Vec<String>,
}

/// `x` placed into `s` after every entry that scores at least as much
/// (into a list ranked highest first, after its equals).
pub open spec fn insert_by_score(s: Seq<BreedingRecommendation>, x: BreedingRecommendation) -> Seq<
    BreedingRecommendation,
>
    decreases s.len(),
{
    if s.len() == 0 {
        seq![x]
    } else if s.last().compatibility_score >= x.compatibility_score {
        s.push(x)
    } else {
        insert_by_score(s.drop_last(), x).push(s.last())
    }
}

/// `s` ranked by score, highest first; equal scores keep their order.
pub open spec fn rank_by_score(s: Seq<BreedingRecommendation>) -> Seq<BreedingRecommendation>
    decreases s.len(),
{
    if s.len() == 0 {
        seq![]
    } else {
        insert_by_score(rank_by_score(s.drop_last()), s.last())
    }
}

/// The suggestions worth making: a score of at least 70.
pub open spec fn worth_recommending() -> spec_fn(BreedingRecommendation) -> bool {
    |r: BreedingRecommendation| r.compatibility_score >= 7000
}

/// The first `n` entries of `s`, or all of them.
pub open spec fn first_n(s: Seq<BreedingRecommendation>, n: int) -> Seq<BreedingRecommendation> {
    if n < s.len() {
        s.take(n)
    } else {
        s
    }
}

/// The number of suggestions to give: `limit`, 10 when absent; a negative
/// limit sets no bound.
pub open spec fn limit_of(limit: Option<i32>) -> int {
    match limit {
        Some(l) => if l < 0 { u64::MAX as int } else { l as int },
        None => 10,
    }
}

/// A list ranked highest score first.
pub open spec fn ranked(s: Seq<BreedingRecommendation>) -> bool {
    forall|a: int, b: int| 0 <= a < b < s.len() ==> s[a].compatibility_score >= s[b].compatibility_score
}

/// Placing `x` at position `j` of a ranked list, after all entries that score
/// at least as much and before all that score less, is `insert_by_score`.
proof fn lemma_insert_at(s: Seq<BreedingRecommendation>, x: BreedingRecommendation, j: int)
    requires
        0 <= j <= s.len(),
        forall|k: int| 0 <= k < j ==> s[k].compatibility_score >= x.compatibility_score,
        forall|k: int| j <= k < s.len() ==> s[k].compatibility_score < x.compatibility_score,
    ensures
        insert_by_score(s, x) == s.insert(j, x),
    decreases s.len(),
{
    if s.len() == 0 {
        assert(s.insert(j, x) =~= seq![x]);
    } else if s.last().compatibility_score >= x.compatibility_score {
        assert(j == s.len());
        assert(s.insert(j, x) =~= s.push(x));
    } else {
        let t = s.drop_last();
        lemma_insert_at(t, x, j);
        assert(t.insert(j, x).push(s.last()) =~= s.insert(j, x));
    }
}

/// Ranking keeps a list ranked.
pub proof fn lemma_rank_by_score_ranked(s: Seq<BreedingRecommendation>)
    ensures
        ranked(rank_by_score(s)),
        rank_by_score(s).len() == s.len(),
    decreases s.len(),
{
    if s.len() > 0 {
        lemma_rank_by_score_ranked(s.drop_last());
        lemma_insert_ranked(rank_by_score(s.drop_last()), s.last());
    }
}

/// Inserting by score into a ranked list keeps it ranked.
pub proof fn lemma_insert_ranked(s: Seq<BreedingRecommendation>, x: BreedingRecommendation)
    requires
        ranked(s),
    ensures
        ranked(insert_by_score(s, x)),
        insert_by_score(s, x).len() == s.len() + 1,
        forall|k: int| 0 <= k < insert_by_score(s, x).len() ==> #[trigger] insert_by_score(s, x)[k]
            == x || s.contains(insert_by_score(s, x)[k]),
    decreases s.len(),
{
    if s.len() > 0 && s.last().compatibility_score < x.compatibility_score {
        let t = s.drop_last();
        assert(ranked(t));
        lemma_insert_ranked(t, x);
        let r = insert_by_score(t, x);
        assert forall|k: int| 0 <= k < r.len() implies #[trigger] r[k].compatibility_score
            >= s.last().compatibility_score by {
            if r[k] != x {
                assert(t.contains(r[k]));
                let m = choose|m: int| 0 <= m < t.len() && t[m] == r[k];
                assert(s[m] == t[m]);
            }
        }
        assert forall|k: int| 0 <= k < r.push(s.last()).len() implies #[trigger] r.push(s.last())[k]
            == x || s.contains(r.push(s.last())[k]) by {
            if k < r.len() && r[k] != x {
                let m = choose|m: int| 0 <= m < t.len() && t[m] == r[k];
                assert(s[m] == t[m]);
            } else if k == r.len() {
                assert(s[s.len() - 1] == s.last());
            }
        }
    } else if s.len() > 0 {
        assert forall|k: int| 0 <= k < s.push(x).len() implies #[trigger] s.push(x)[k] == x
            || s.contains(s.push(x)[k]) by {
            if k < s.len() {
                assert(s[k] == s.push(x)[k]);
            }
        }
    }
}

/// Keeps the suggestions that score at least 70, ranks them highest first
/// (equal scores in the given order) and keeps the first `limit` (see
/// `limit_of`).
pub fn rank_recommendations(recommendations: Vec<BreedingRecommendation>, limit: Option<i32>) -> (r:
    Vec<BreedingRecommendation>)
    ensures
        r@ == first_n(
            rank_by_score(recommendations@.filter(worth_recommending())),
            limit_of(limit),
        ),
{
    let ghost input = recommendations@;
    let total = recommendations.len();
    let ghost pred = worth_recommending();
    let mut ranked_list: Vec<BreedingRecommendation> = Vec::new();
    let mut rest = recommendations;
    let mut taken: Vec<BreedingRecommendation> = Vec::new();
    // Take the entries from the back, so that each `pop` yields the next one
    // counted from the front once the list is reversed.
    let ghost n = input.len();
    while rest.len() > 0
        invariant
            rest@.len() + taken@.len() == n,
            n == input.len(),
            forall|k: int| 0 <= k < rest@.len() ==> rest@[k] == input[k],
            forall|k: int| 0 <= k < taken@.len() ==> #[trigger] taken@[k] == input[n - 1 - k],
        decreases rest@.len(),
    {
        let x = rest.pop().unwrap();
        taken.push(x);
    }
    let mut i: usize = 0;
    while taken.len() > 0
        invariant
            taken@.len() + i == n,
            n == input.len(),
            n == total,
            forall|k: int| 0 <= k < taken@.len() ==> #[trigger] taken@[k] == input[n - 1 - k],
            pred == worth_recommending(),
            ranked_list@ == rank_by_score(input.subrange(0, i as int).filter(pred)),
        decreases taken@.len(),
    {
        let x = taken.pop().unwrap();
        assert(x == input[i as int]);
        proof {
            reveal(Seq::filter);
        }
        assert(input.subrange(0, i + 1).drop_last() =~= input.subrange(0, i as int));
        let ghost before = input.subrange(0, i as int).filter(pred);
        if x.compatibility_score >= 7000 {
            proof {
                lemma_rank_by_score_ranked(before);
            }
            let mut j: usize = ranked_list.len();
            while j > 0 && ranked_list[j - 1].compatibility_score < x.compatibility_score
                invariant
                    0 <= j <= ranked_list@.len(),
                    ranked(ranked_list@),
                    forall|k: int| j <= k < ranked_list@.len() ==> ranked_list@[k].compatibility_score
                        < x.compatibility_score,
                decreases j,
            {
                j = j - 1;
            }
            proof {
                assert forall|k: int| 0 <= k < j implies ranked_list@[k].compatibility_score
                    >= x.compatibility_score by {
                    assert(ranked_list@[k].compatibility_score >= ranked_list@[j - 1].compatibility_score);
                }
                lemma_insert_at(ranked_list@, x, j as int);
                assert(before.push(x).drop_last() =~= before);
            }
            assert(input.subrange(0, i + 1).filter(pred) == before.push(x));
            ranked_list.insert(j, x);
        }
        i = i + 1;
    }
    assert(input.subrange(0, n as int) =~= input);
    let bound: usize = match limit {
        Some(l) => if l < 0 {
            usize::MAX
        } else {
            l as usize
        },
        None => 10,
    };
    if bound < ranked_list.len() {
        ranked_list.truncate(bound);
    }
    ranked_list
}

/// The age score of a pair in `year` (see `analyze_age_suitability`).
pub open spec fn age_score_of(sire: PairCandidate, dam: PairCandidate, year: i32) -> int {
    (sire_age_score(year - sire.year) + dam_age_score(year - dam.year)) / 2
}

/// The overall score of a pair in `year` (see `analyze_pair_compatibility`).
pub open spec fn pair_overall(sire: PairCandidate, dam: PairCandidate, year: i32) -> int {
    overall_score(
        kinship(sire, dam),
        strain_score(sire.strain, dam.strain),
        age_score_of(sire, dam, year),
        health_score(sire.status, dam.status),
    )
}

/// The roles in a pair of `target` and `candidate`: a male target is the
/// sire, any other target the dam.
pub open spec fn roles(target: PairCandidate, candidate: PairCandidate) -> (PairCandidate, PairCandidate) {
    if target.sex == 0 {
        (target, candidate)
    } else {
        (candidate, target)
    }
}

/// The suggestion of pairing `target` with `candidate` in `current_year`,
/// with roles by the target's sex (see `roles`): none unless the sire is
/// male and the dam female; else the pair, its overall score, benefits and
/// risks. `already_paired` tells whether either bird is in an active pair.
pub fn recommend_pair(
    target: &PairCandidate,
    candidate: &PairCandidate,
    current_year: i32,
    already_paired: bool,
) -> (r: Option<BreedingRecommendation>)
    ensures
        ({
            let (sire, dam) = roles(*target, *candidate);
            let overall = pair_overall(sire, dam, current_year);
            let age = age_score_of(sire, dam, current_year);
            &&& (r is Some <==> (sire.sex == 0 && dam.sex == 1))
            &&& r is Some ==> ({
                let rec = r->Some_0;
                &&& rec.sire_id == sire.id
                &&& rec.dam_id == dam.id
                &&& rec.compatibility_score as int == overall
                &&& texts(rec.expected_benefits@) == benefits_from(
                    overall,
                    strain_score(sire.strain, dam.strain),
                    age >= 8000,
                )
                &&& texts(rec.potential_risks@) == risks_from(
                    kinship(sire, dam),
                    age,
                    health_score(sire.status, dam.status),
                )
            })
        }),
{
    let analysis = if target.sex == 0 {
        analyze_pair_compatibility(target, candidate, current_year, already_paired)
    } else {
        analyze_pair_compatibility(candidate, target, current_year, already_paired)
    };
    match analysis {
        Err(_) => None,
        Ok(a) => {
            let expected_benefits = predict_breeding_benefits(&a);
            let potential_risks = identify_breeding_risks(&a);
            Some(
                BreedingRecommendation {
                    sire_id: a.sire_id,
                    dam_id: a.dam_id,
                    compatibility_score: a.overall_score,
                    expected_benefits,
                    potential_risks,
                },
            )
        },
    }
}

} // verus!
