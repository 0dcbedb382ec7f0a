use pigeon_planner::pedigree::Pedigree;
use pigeon_planner::pedigree_service::{InbreedingRisk, LineType, PedigreeService, PurityScore};
use pigeon_planner::pigeon::PedigreeNode;

fn bird(id: i32, name: Option<&str>, sire: Option<i32>, dam: Option<i32>, strain: Option<&str>) -> PedigreeNode {
    PedigreeNode {
        id,
        ring_number: format!("R{}", id),
        year: 2019,
        name: name.map(|s| s.to_string()),
        sire_id: sire,
        dam_id: dam,
        generation: 0,
        sex: 2,
        color: None,
        strain: strain.map(|s| s.to_string()),
        loft: None,
    }
}

/// 1 x 2 gives 3 and 4; 3 x 4 gives 5; 6 is a stranger; 7 is a child of 5.
fn service() -> PedigreeService {
    PedigreeService::new(Pedigree::new(vec![
        bird(1, Some("冠军一号"), None, None, Some("Janssen")),
        bird(2, Some("名鸽公主"), None, None, Some("Janssen")),
        bird(3, None, Some(1), Some(2), Some("Janssen")),
        bird(4, Some("小王子"), Some(1), Some(2), Some("Sion")),
        bird(5, None, Some(3), Some(4), None),
        bird(6, None, None, None, None),
        bird(7, None, Some(5), Some(6), Some("Sion")),
    ]))
}

fn gens(nodes: &[PedigreeNode]) -> Vec<(i32, i32)> {
    nodes.iter().map(|n| (n.id, n.generation)).collect()
}

#[test]
fn service_ancestors_walk_dam_branch_first() {
    let s = service();
    let a = s.get_all_ancestors(5, 10);
    assert_eq!(gens(&a), vec![(5, 1), (4, 2), (2, 3), (1, 3), (3, 2), (2, 3), (1, 3)]);
    assert_eq!(gens(&s.get_all_ancestors(5, 2)), vec![(5, 1), (4, 2), (3, 2)]);
    assert_eq!(gens(&s.get_all_ancestors(5, 1)), vec![(5, 1)]);
    assert!(s.get_all_ancestors(5, 0).is_empty());
}

#[test]
fn descendants_by_generation() {
    let s = service();
    let d = s.get_all_descendants(1, 10);
    assert_eq!(gens(&d), vec![(3, 2), (4, 2), (5, 3), (5, 3), (7, 4), (7, 4)]);
    assert_eq!(gens(&s.get_all_descendants(1, 2)), vec![(3, 2), (4, 2)]);
    assert!(s.get_all_descendants(7, 10).is_empty());
}

#[test]
fn complete_pedigree() {
    let s = service();
    let t = s.get_complete_pedigree(3, 3).unwrap();
    assert_eq!(t.root_pigeon.id, 3);
    assert_eq!(t.root_pigeon.generation, 1);
    assert_eq!(gens(&t.ancestors), vec![(3, 1), (2, 2), (1, 2)]);
    assert_eq!(gens(&t.descendants), vec![(5, 2), (7, 3)]);
    assert!(s.get_complete_pedigree(30, 3).is_err());
}

#[test]
fn sire_and_dam_lines() {
    let s = service();
    assert_eq!(gens(&s.get_sire_line(7, 10)), vec![(7, 1), (5, 2), (3, 3), (1, 4)]);
    assert_eq!(gens(&s.get_dam_line(7, 10)), vec![(7, 1), (6, 2)]);
    assert_eq!(gens(&s.get_sire_line(7, 2)), vec![(7, 1), (5, 2)]);
    assert!(s.get_sire_line(70, 10).is_empty());
}

#[test]
fn shared_ancestors_are_listed_once() {
    let s = service();
    let a = s.get_all_ancestors(3, 10);
    let b = s.get_all_ancestors(4, 10);
    let common = s.find_common_ancestors(&a, &b);
    assert_eq!(gens(&common), vec![(2, 2), (1, 2)]);
}

#[test]
fn full_siblings_coefficient() {
    let s = service();
    let r = s.analyze_relationship(3, 4);
    assert_eq!(r.relationship_type, "full-sibling");
    // Two shared ancestors, each one link from either pigeon: 2 * 2^-2 = 1/2.
    assert_eq!(r.relationship_coefficient, 1u128 << 63);
    assert_eq!(r.inbreeding_risk, InbreedingRisk::High);
    assert_eq!(r.breeding_recommendation, "不建议配对，近交系数过高");
}

#[test]
fn unrelated_pair_has_no_risk() {
    let s = service();
    let r = s.analyze_relationship(1, 6);
    assert_eq!(r.relationship_type, "unrelated");
    assert_eq!(r.relationship_coefficient, 0);
    assert_eq!(r.inbreeding_risk, InbreedingRisk::Minimal);
    assert_eq!(r.breeding_recommendation, "推荐的配对，近交风险很低");
}

#[test]
fn half_sibling_with_one_shared_ancestor() {
    let s = PedigreeService::new(Pedigree::new(vec![
        bird(1, None, None, None, None),
        bird(2, None, Some(1), None, None),
        bird(3, None, Some(1), None, None),
    ]));
    let r = s.analyze_relationship(2, 3);
    assert_eq!(r.relationship_type, "half-sibling");
    // One shared ancestor, one link on each side: 2^-2.
    assert_eq!(r.relationship_coefficient, 1u128 << 62);
    assert_eq!(r.inbreeding_risk, InbreedingRisk::High);
}

#[test]
fn risk_bands() {
    let s = service();
    assert_eq!(s.assess_inbreeding_risk(1u128 << 62), InbreedingRisk::High);
    assert_eq!(s.assess_inbreeding_risk((1u128 << 62) - 1), InbreedingRisk::Medium);
    assert_eq!(s.assess_inbreeding_risk(1u128 << 60), InbreedingRisk::Low);
    assert_eq!(s.assess_inbreeding_risk((1u128 << 60) - 1), InbreedingRisk::Minimal);
    assert_eq!(s.generate_breeding_recommendation(1u128 << 63), "不建议配对，近交系数过高");
}

#[test]
fn coefficient_ignores_far_paths() {
    let s = service();
    let mut far = bird(9, None, None, None, None);
    far.generation = 40;
    let p = vec![far.clone()];
    let c = s.calculate_relationship_coefficient(&p, &p, &p);
    assert_eq!(c, 0);
    far.generation = 33;
    let p = vec![far];
    assert_eq!(s.calculate_relationship_coefficient(&p, &p, &p), 1);
}

fn aged(id: i32, year: i32, sire: Option<i32>, dam: Option<i32>) -> PedigreeNode {
    let mut b = bird(id, None, sire, dam, None);
    b.year = year;
    b
}

#[test]
fn inbreeding_of_full_sibling_mating() {
    let s = PedigreeService::new(Pedigree::new(vec![
        aged(1, 2015, None, None),
        aged(2, 2015, None, None),
        aged(3, 2018, Some(1), Some(2)),
        aged(4, 2018, Some(1), Some(2)),
        aged(5, 2020, Some(3), Some(4)),
        aged(6, 2020, Some(3), None),
    ]));
    // Offspring of full siblings: 1/4.
    assert_eq!(s.calculate_inbreeding_coefficient_advanced(5), 1u128 << 62);
    // Kinship of full siblings is 1/4, of a parent and child 1/4, of a pigeon with itself 1/2.
    assert_eq!(s.kinship(Some(3), Some(4), 16), 1u128 << 62);
    assert_eq!(s.kinship(Some(1), Some(3), 16), 1u128 << 62);
    assert_eq!(s.kinship(Some(1), Some(1), 16), 1u128 << 63);
    assert_eq!(s.calculate_inbreeding_coefficient_advanced(3), 0);
    assert_eq!(s.calculate_inbreeding_coefficient_advanced(6), 0);
    assert_eq!(s.calculate_inbreeding_coefficient_advanced(99), 0);
}

#[test]
fn inbreeding_stays_within_one() {
    // Each pigeon is bred from its own parent and itself, generation after generation.
    let mut birds = vec![aged(1, 2000, None, None)];
    for i in 2..30 {
        birds.push(aged(i, 2000 + i, Some(i - 1), Some(i - 1)));
    }
    let s = PedigreeService::new(Pedigree::new(birds));
    let f = s.calculate_inbreeding_coefficient_advanced(29);
    assert!(f > 1u128 << 63);
    assert!(f <= 1u128 << 64);
}

#[test]
fn breed_purity_ranks_strains() {
    let s = service();
    let a = s.analyze_breed_purity(5);
    // Ancestry of 5 up to generation 5: 5, 4, 2, 1, 3, 2, 1.
    assert_eq!(a.total_ancestors, 6);
    let ranked: Vec<(String, i32)> = a.strain_purity.iter().map(|e| (e.strain.clone(), e.count)).collect();
    assert_eq!(ranked, vec![("Janssen".to_string(), 5), ("Sion".to_string(), 1)]);
    assert_eq!(a.purity_score, PurityScore::Good);
    assert_eq!(a.recommended_breeding_strategy, "品种纯度良好，可在保持纯度的同时适当引入新血");
}

#[test]
fn breed_purity_without_strains() {
    let s = service();
    let a = s.analyze_breed_purity(6);
    assert_eq!(a.total_ancestors, 0);
    assert!(a.strain_purity.is_empty());
    assert_eq!(a.purity_score, PurityScore::Poor);
    assert_eq!(a.recommended_breeding_strategy, "建议纯系繁殖以建立稳定的品种特征");
}

#[test]
fn line_strength_scores() {
    let s = service();
    let a = s.analyze_line_strength(3);
    // Sire line 3, 1 (one champion): 20 + 20; dam line 3, 2 (a famous bird): 20 + 20.
    assert_eq!(a.sire_line_depth, 2);
    assert_eq!(a.dam_line_depth, 2);
    assert_eq!(a.sire_line_strength, 40);
    assert_eq!(a.dam_line_strength, 40);
    assert_eq!(a.dominant_line, LineType::Balanced);
    assert_eq!(a.notable_ancestors.iter().map(|n| n.id).collect::<Vec<_>>(), vec![1, 2]);
    let b = s.analyze_line_strength(7);
    assert_eq!(b.sire_line_strength, 60);
    assert_eq!(b.dam_line_strength, 20);
    assert_eq!(b.dominant_line, LineType::Sire);
}

#[test]
fn line_strength_is_capped() {
    let s = service();
    let line: Vec<PedigreeNode> = (0..8).map(|i| bird(i, Some("冠军"), None, None, None)).collect();
    assert_eq!(s.calculate_line_strength_score(&line), 100);
    assert_eq!(s.calculate_line_strength_score(&Vec::new()), 0);
}

#[test]
fn notable_names_include_princes() {
    let s = service();
    let sire = vec![bird(4, Some("小王子"), None, None, None), bird(8, Some("普通"), None, None, None)];
    let dam = vec![bird(2, Some("名鸽公主"), None, None, None)];
    let n = s.find_notable_ancestors(&sire, &dam);
    assert_eq!(n.iter().map(|x| x.id).collect::<Vec<_>>(), vec![4, 2]);
    // A prince alone does not count towards line strength.
    assert_eq!(s.calculate_line_strength_score(&sire), 20);
}
