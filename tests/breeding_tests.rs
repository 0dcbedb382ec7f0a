use pigeon_planner::breeding::{
    analyze_age_suitability, analyze_pair_compatibility, calculate_compatibility_score,
    calculate_relationship_coefficient, generate_breeding_recommendations,
    generate_schedule_recommendations, identify_breeding_risks, nest_box_available,
    optimize_breeding_schedule, parse_optional_date, predict_breeding_benefits, recommend_pair,
    validate_breeding_pair, BreedingError, CalendarDate, PairCandidate, PairCheckError,
    PairStanding,
};
use pigeon_planner::health::{HealthCondition, ReminderPriority, ReminderStatus, ReminderType, TreatmentStatus};

fn candidate(id: i64, sex: i32, year: i32, strain: Option<&str>, sire: Option<i64>, dam: Option<i64>) -> PairCandidate {
    PairCandidate { id, year, sex, strain: strain.map(|s| s.to_string()), status: 1, sire_id: sire, dam_id: dam }
}

#[test]
fn pair_validation_accepts_good_pair() {
    let d = validate_breeding_pair("2024-03-15", &"male".to_string(), &"female".to_string(), 0, None);
    assert_eq!(d, Ok(CalendarDate { year: 2024, month: 3, day: 15 }));
}

#[test]
fn pair_validation_errors_in_order() {
    let m = "male".to_string();
    let f = "female".to_string();
    assert_eq!(validate_breeding_pair("2024-02-30", &f, &m, 3, None), Err(PairCheckError::InvalidDate));
    assert_eq!(validate_breeding_pair("15/03/2024", &m, &f, 0, None), Err(PairCheckError::InvalidDate));
    assert_eq!(validate_breeding_pair("2024-03-15", &f, &m, 3, None), Err(PairCheckError::SireNotMale));
    assert_eq!(validate_breeding_pair("2024-03-15", &m, &m, 3, None), Err(PairCheckError::DamNotFemale));
    assert_eq!(validate_breeding_pair("2024-03-15", &m, &f, 1, None), Err(PairCheckError::AlreadyPaired));
    let taken = Some(("occupied".to_string(), Some(7)));
    assert_eq!(validate_breeding_pair("2024-03-15", &m, &f, 0, taken), Err(PairCheckError::NestBoxUnavailable));
    let idle = Some(("maintenance".to_string(), None));
    assert!(validate_breeding_pair("2024-03-15", &m, &f, 0, idle).is_ok());
}

#[test]
fn nest_box_rules() {
    assert!(nest_box_available(&"available".to_string(), Some(3)));
    assert!(nest_box_available(&"occupied".to_string(), None));
    assert!(!nest_box_available(&"occupied".to_string(), Some(3)));
}

#[test]
fn optional_dates() {
    assert_eq!(parse_optional_date(&None), Ok(None));
    assert_eq!(parse_optional_date(&Some("2023-12-01".to_string())), Ok(Some(CalendarDate { year: 2023, month: 12, day: 1 })));
    assert_eq!(parse_optional_date(&Some("2023-13-01".to_string())), Err(PairCheckError::InvalidDate));
}

#[test]
fn kinship_values() {
    let father = candidate(1, 0, 2018, None, None, None);
    let daughter = candidate(2, 1, 2021, None, Some(1), Some(9));
    assert_eq!(calculate_relationship_coefficient(&father, &daughter), 250);
    let brother = candidate(3, 0, 2021, None, Some(1), Some(9));
    assert_eq!(calculate_relationship_coefficient(&brother, &daughter), 250);
    let half = candidate(4, 0, 2021, None, Some(1), Some(8));
    assert_eq!(calculate_relationship_coefficient(&half, &daughter), 125);
    let orphan_a = candidate(5, 0, 2021, None, None, None);
    let orphan_b = candidate(6, 1, 2021, None, None, None);
    assert_eq!(calculate_relationship_coefficient(&orphan_a, &orphan_b), 0);
}

#[test]
fn age_scores() {
    let sire = candidate(1, 0, 2020, None, None, None);
    let dam = candidate(2, 1, 2022, None, None, None);
    let a = analyze_age_suitability(2024, &sire, &dam);
    assert_eq!((a.sire_age, a.dam_age, a.score, a.optimal_breeding_age), (4, 2, 9000, true));
    let old = candidate(3, 0, 2010, None, None, None);
    let a = analyze_age_suitability(2024, &old, &dam);
    assert_eq!((a.score, a.optimal_breeding_age), (7500, false));
}

#[test]
fn compatibility_formula() {
    // 85*0.25 + 90*0.25 + 90*0.20 + 100*0.30 = 91.75
    assert_eq!(calculate_compatibility_score(0, 8500, 9000, 9000), 9175);
    // Parent and child: penalty 50 - 25 = 25, so the last term is 75*0.30.
    assert_eq!(calculate_compatibility_score(250, 8500, 9000, 9000), 8425);
    assert_eq!(calculate_compatibility_score(125, 6000, 6000, 5000), 7000);
}

#[test]
fn pair_analysis() {
    let sire = candidate(1, 0, 2020, Some("Janssen"), None, None);
    let dam = candidate(2, 1, 2022, Some("Janssen"), None, None);
    let a = analyze_pair_compatibility(&sire, &dam, 2024, false).unwrap();
    assert_eq!(a.relationship_coefficient, 0);
    assert_eq!(a.breed_compatibility.compatibility_score, 8500);
    assert_eq!(a.health_compatibility.compatibility_score, 9000);
    assert_eq!(a.health_compatibility.sire_health_status, "active");
    assert_eq!(a.overall_score, 9175);
    assert_eq!(a.recommendations, vec!["✅ 配对兼容性良好，推荐进行繁殖".to_string()]);
    assert_eq!(predict_breeding_benefits(&a).len(), 3);
    assert!(identify_breeding_risks(&a).is_empty());
    assert_eq!(analyze_pair_compatibility(&dam, &sire, 2024, false).unwrap_err(), BreedingError::WrongSexes);
}

#[test]
fn weak_pair_gets_warnings() {
    let mut sire = candidate(1, 0, 2010, None, None, None);
    sire.status = 0;
    let mut dam = candidate(2, 1, 2012, None, Some(1), None);
    dam.status = 0;
    let a = analyze_pair_compatibility(&sire, &dam, 2024, true).unwrap();
    assert_eq!(a.relationship_coefficient, 250);
    assert_eq!(a.overall_score, 1500 + 1500 + 1000 + 2250);
    assert_eq!(
        a.recommendations,
        vec![
            "⚠️ 血缘关系较近，建议避免配对".to_string(),
            "⚠️ 配对兼容性中等，建议谨慎考虑".to_string(),
            "⚠️ 其中一只鸽子已存在活跃配对".to_string(),
        ]
    );
    assert_eq!(identify_breeding_risks(&a).len(), 3);
    assert!(predict_breeding_benefits(&a).is_empty());
}

#[test]
fn poor_advice() {
    assert_eq!(generate_breeding_recommendations(0, 5999, false), vec!["❌ 配对兼容性较低，不建议进行繁殖".to_string()]);
}

#[test]
fn middling_advice() {
    assert_eq!(generate_breeding_recommendations(0, 6000, false), vec!["⚠️ 配对兼容性中等，建议谨慎考虑".to_string()]);
}

#[test]
fn schedule_orders_by_priority() {
    let pairs = vec![
        PairStanding { pair_id: 10, active: true, overall_score: 9000 },
        PairStanding { pair_id: 11, active: false, overall_score: 9000 },
        PairStanding { pair_id: 12, active: true, overall_score: 5000 },
        PairStanding { pair_id: 13, active: false, overall_score: 1000 },
    ];
    let s = optimize_breeding_schedule(&pairs, 2);
    let order: Vec<(i64, i32)> = s.optimized_schedule.iter().map(|i| (i.pair_id, i.priority)).collect();
    assert_eq!(order, vec![(11, 3), (13, 3), (12, 2), (10, 1)]);
    assert_eq!(s.optimized_schedule[0].recommended_action, "evaluate_repairing");
    assert_eq!(s.optimized_schedule[3].recommended_action, "continue_breeding");
    assert_eq!(s.total_pairs, 4);
    assert_eq!(s.nest_boxes_needed, 4);
    assert_eq!(s.recommendations.len(), 2);
}

#[test]
fn schedule_advice_for_urgent_pairs() {
    let pairs = vec![
        PairStanding { pair_id: 1, active: true, overall_score: 9000 },
        PairStanding { pair_id: 2, active: true, overall_score: 100 },
    ];
    let r = generate_schedule_recommendations(&pairs);
    assert_eq!(r[0], "建议优先处理高优先级配对");
    assert_eq!(r.len(), 3);
}

#[test]
fn status_names() {
    assert_eq!(HealthCondition::Fair.as_str(), "fair");
    assert_eq!(TreatmentStatus::Discontinued.as_str(), "discontinued");
    assert_eq!(ReminderStatus::Postponed.as_str(), "postponed");
    assert_eq!(ReminderPriority::High.as_str(), "high");
    assert_eq!(ReminderType::TreatmentFollowUp.as_str(), "treatment_followup");
}

#[test]
fn recommendation_roles_follow_target_sex() {
    let hen = candidate(2, 1, 2022, Some("Janssen"), None, None);
    let cock = candidate(1, 0, 2020, Some("Janssen"), None, None);
    let r = recommend_pair(&hen, &cock, 2024, false).unwrap();
    assert_eq!((r.sire_id, r.dam_id, r.compatibility_score), (1, 2, 9175));
    assert_eq!(r.expected_benefits.len(), 3);
    assert!(r.potential_risks.is_empty());
    let r = recommend_pair(&cock, &hen, 2024, false).unwrap();
    assert_eq!((r.sire_id, r.dam_id), (1, 2));
    let other_hen = candidate(3, 1, 2021, None, None, None);
    assert!(recommend_pair(&hen, &other_hen, 2024, false).is_none());
}

#[test]
fn analysis_carries_advice_lists() {
    let sire = candidate(1, 0, 2010, None, None, None);
    let dam = candidate(2, 1, 2022, None, None, None);
    let a = analyze_pair_compatibility(&sire, &dam, 2024, false).unwrap();
    assert_eq!(a.age_suitability.recommendations, vec!["建议选择更适宜繁殖年龄的鸽子".to_string()]);
    assert_eq!(a.breed_compatibility.advantages, vec!["品种纯度保持".to_string(), "遗传稳定性好".to_string()]);
    assert_eq!(a.breed_compatibility.considerations.len(), 2);
    assert_eq!(a.health_compatibility.health_considerations[1], "定期进行健康检查");
}

#[test]
fn schedule_steps_carry_their_plan() {
    let pairs = vec![PairStanding { pair_id: 5, active: true, overall_score: 8000 }];
    let s = optimize_breeding_schedule(&pairs, 1);
    let step = &s.optimized_schedule[0];
    assert_eq!(step.estimated_timeline, "2-4周");
    assert_eq!(step.resource_requirements, vec!["巢箱".to_string(), "饲料".to_string(), "医疗用品".to_string()]);
    assert_eq!(step.priority, 1);
}
