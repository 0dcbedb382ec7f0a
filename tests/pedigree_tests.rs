use pigeon_planner::pedigree::{
    calculate_inbreeding_coefficient, calculate_line_depth, calculate_relationship,
    calculate_relationship_between, check_parent_update, collect_all_ancestors, find_common_ancestors,
    generate_relationship_description, get_pedigree_stats, get_pigeon_pedigree,
    update_parent_relationship, Fraction, ParentError, Pedigree, PedigreeError,
};
use pigeon_planner::pigeon::{ParentRelationshipUpdate, PedigreeNode};

fn bird(id: i32, name: Option<&str>, sire: Option<i32>, dam: Option<i32>, sex: i32) -> PedigreeNode {
    PedigreeNode {
        id,
        ring_number: format!("CHN-2020-{:04}", id),
        year: 2020,
        name: name.map(|s| s.to_string()),
        sire_id: sire,
        dam_id: dam,
        generation: 0,
        sex,
        color: None,
        strain: None,
        loft: None,
    }
}

/// 1 and 2 are the parents of 3 and 4; 3 and 4 are the parents of 5.
fn family() -> Pedigree {
    Pedigree::new(vec![
        bird(1, Some("老父"), None, None, 0),
        bird(2, Some("老母"), None, None, 1),
        bird(3, None, Some(1), Some(2), 0),
        bird(4, Some("小母"), Some(1), Some(2), 1),
        bird(5, Some("孙子"), Some(3), Some(4), 0),
    ])
}

fn ids(nodes: &[PedigreeNode]) -> Vec<(i32, i32)> {
    nodes.iter().map(|n| (n.id, n.generation)).collect()
}

#[test]
fn pedigree_tree_lists_sire_branch_then_dam_branch() {
    let p = family();
    let tree = get_pigeon_pedigree(&p, 5, None).unwrap();
    assert_eq!(tree.root_pigeon.id, 5);
    assert_eq!(tree.root_pigeon.generation, 1);
    assert_eq!(tree.generations, 4);
    assert_eq!(ids(&tree.ancestors), vec![(3, 2), (1, 3), (2, 3), (4, 2), (1, 3), (2, 3)]);
    assert!(tree.descendants.is_empty());
}

#[test]
fn pedigree_tree_respects_generation_ceiling() {
    let p = family();
    let tree = get_pigeon_pedigree(&p, 5, Some(2)).unwrap();
    assert_eq!(ids(&tree.ancestors), vec![(3, 2), (4, 2)]);
    let tree = get_pigeon_pedigree(&p, 5, Some(1)).unwrap();
    assert!(tree.ancestors.is_empty());
}

#[test]
fn pedigree_tree_of_missing_pigeon_fails() {
    let p = family();
    assert_eq!(get_pigeon_pedigree(&p, 99, None).unwrap_err(), PedigreeError::NotFound);
}

#[test]
fn dangling_parent_ends_branch() {
    let p = Pedigree::new(vec![bird(1, None, Some(77), Some(2), 0), bird(2, None, None, None, 1)]);
    let all = collect_all_ancestors(&p, 1);
    assert_eq!(ids(&all), vec![(1, 1), (2, 2)]);
}

#[test]
fn sire_relationship_is_detected_first() {
    let p = family();
    let (kind, distance, common) = calculate_relationship_between(&p, 3, 1);
    assert_eq!(kind, "sire");
    assert_eq!(distance, 1);
    assert!(common.is_empty());
    let (kind, distance, _) = calculate_relationship_between(&p, 3, 2);
    assert_eq!(kind, "dam");
    assert_eq!(distance, 1);
}

#[test]
fn siblings_share_ancestors() {
    let p = family();
    let (kind, distance, common) = calculate_relationship_between(&p, 3, 4);
    assert_eq!(kind, "sibling");
    assert_eq!(distance, 2);
    assert_eq!(common.iter().map(|n| n.id).collect::<Vec<_>>(), vec![1, 2]);
}

#[test]
fn unrelated_pigeons() {
    let p = Pedigree::new(vec![bird(1, None, None, None, 0), bird(2, None, None, None, 1)]);
    let (kind, distance, common) = calculate_relationship_between(&p, 1, 2);
    assert_eq!(kind, "unrelated");
    assert_eq!(distance, 0);
    assert!(common.is_empty());
}

#[test]
fn common_ancestors_keep_first_collection_order() {
    let p = family();
    let common = find_common_ancestors(&p, 5, 3);
    assert_eq!(ids(&common), vec![(3, 2), (1, 3), (2, 3), (1, 3), (2, 3)]);
}

#[test]
fn relationship_result_has_description() {
    let p = family();
    let r = calculate_relationship(&p, 4, 1).unwrap();
    assert_eq!(r.relationship_type, "sire");
    assert_eq!(r.relationship_description, "老父 是 小母 的父亲");
    let r = calculate_relationship(&p, 3, 2).unwrap();
    assert_eq!(r.relationship_type, "dam");
    assert_eq!(r.relationship_description, "老母 是 CHN-2020-0003 的母亲");
    let r = calculate_relationship(&p, 3, 4).unwrap();
    assert_eq!(r.relationship_description, "CHN-2020-0003 和 小母 是全同胞关系");
    assert_eq!(calculate_relationship(&p, 3, 42).unwrap_err(), PedigreeError::NotFound);
}

#[test]
fn description_of_unknown_kind() {
    let a = bird(1, Some("甲"), None, None, 0);
    let b = bird(2, None, None, None, 1);
    let text = generate_relationship_description(&"half-sibling".to_string(), 2, &a, &b);
    assert_eq!(text, "甲 和 CHN-2020-0002 是半同胞关系");
    let text = generate_relationship_description(&"cousin".to_string(), 3, &a, &b);
    assert_eq!(text, "甲 和 CHN-2020-0002 无直接血缘关系");
}

#[test]
fn line_depths() {
    let p = family();
    assert_eq!(calculate_line_depth(&p, 5, true), Ok(2));
    assert_eq!(calculate_line_depth(&p, 5, false), Ok(2));
    assert_eq!(calculate_line_depth(&p, 1, true), Ok(0));
    assert_eq!(calculate_line_depth(&p, 50, true), Err(PedigreeError::NotFound));
}

#[test]
fn line_depth_detects_cycle() {
    let p = Pedigree::new(vec![bird(1, None, Some(2), None, 0), bird(2, None, Some(1), None, 0)]);
    assert_eq!(calculate_line_depth(&p, 1, true), Err(PedigreeError::CycleDetected));
}

#[test]
fn line_depth_fails_on_dangling_parent() {
    let p = Pedigree::new(vec![bird(1, None, Some(9), None, 0)]);
    assert_eq!(calculate_line_depth(&p, 1, true), Err(PedigreeError::NotFound));
}

#[test]
fn inbreeding_ratio_counts_repeats() {
    let p = family();
    let all = collect_all_ancestors(&p, 5);
    assert_eq!(all.len(), 7);
    assert_eq!(calculate_inbreeding_coefficient(&all), Fraction { numerator: 2, denominator: 7 });
    assert_eq!(calculate_inbreeding_coefficient(&all[..1].to_vec()), Fraction { numerator: 0, denominator: 1 });
    assert_eq!(calculate_inbreeding_coefficient(&Vec::new()), Fraction { numerator: 0, denominator: 1 });
}

#[test]
fn stats_of_a_grandchild() {
    let p = family();
    let st = get_pedigree_stats(&p, 5).unwrap();
    assert_eq!(st.pigeon_id, 5);
    assert_eq!(st.total_ancestors, 7);
    assert_eq!(st.unique_ancestors, 5);
    assert_eq!(st.sire_line_depth, 2);
    assert_eq!(st.dam_line_depth, 2);
    assert_eq!(st.total_generations, 2);
    assert_eq!(st.inbreeding_coefficient, Fraction { numerator: 2, denominator: 7 });
    assert_eq!(get_pedigree_stats(&p, 8).unwrap_err(), PedigreeError::NotFound);
}

#[test]
fn parent_update_keeps_absent_parent() {
    let mut p = family();
    let changed = update_parent_relationship(&mut p, &ParentRelationshipUpdate { pigeon_id: 5, sire_id: Some(1), dam_id: None });
    assert_eq!(changed, Ok(true));
    assert_eq!(p.nodes[4].sire_id, Some(1));
    assert_eq!(p.nodes[4].dam_id, Some(4));
    let changed = update_parent_relationship(&mut p, &ParentRelationshipUpdate { pigeon_id: 70, sire_id: Some(1), dam_id: Some(2) });
    assert_eq!(changed, Ok(false));
}

#[test]
fn parent_update_refuses_bad_parents() {
    let mut p = family();
    let missing = ParentRelationshipUpdate { pigeon_id: 5, sire_id: Some(77), dam_id: None };
    assert_eq!(update_parent_relationship(&mut p, &missing), Err(ParentError::ParentNotFound));
    let female_sire = ParentRelationshipUpdate { pigeon_id: 5, sire_id: Some(2), dam_id: None };
    assert_eq!(update_parent_relationship(&mut p, &female_sire), Err(ParentError::SireNotMale));
    let grandson_as_sire = ParentRelationshipUpdate { pigeon_id: 1, sire_id: Some(5), dam_id: None };
    assert_eq!(update_parent_relationship(&mut p, &grandson_as_sire), Err(ParentError::CreatesCycle));
    assert_eq!(p.nodes[4].sire_id, Some(3));
    assert_eq!(p.nodes[0].sire_id, None);
}

#[test]
fn parent_check_rules() {
    let p = family();
    let ok = ParentRelationshipUpdate { pigeon_id: 5, sire_id: Some(1), dam_id: Some(2) };
    assert_eq!(check_parent_update(&p, &ok), Ok(()));
    let keep = ParentRelationshipUpdate { pigeon_id: 5, sire_id: None, dam_id: None };
    assert_eq!(check_parent_update(&p, &keep), Ok(()));
    let missing = ParentRelationshipUpdate { pigeon_id: 50, sire_id: None, dam_id: None };
    assert_eq!(check_parent_update(&p, &missing), Err(ParentError::PigeonNotFound));
    let ghost_sire = ParentRelationshipUpdate { pigeon_id: 5, sire_id: Some(60), dam_id: None };
    assert_eq!(check_parent_update(&p, &ghost_sire), Err(ParentError::ParentNotFound));
    let own = ParentRelationshipUpdate { pigeon_id: 3, sire_id: Some(3), dam_id: None };
    assert_eq!(check_parent_update(&p, &own), Err(ParentError::OwnParent));
    let female_sire = ParentRelationshipUpdate { pigeon_id: 5, sire_id: Some(2), dam_id: None };
    assert_eq!(check_parent_update(&p, &female_sire), Err(ParentError::SireNotMale));
    let male_dam = ParentRelationshipUpdate { pigeon_id: 5, sire_id: Some(1), dam_id: Some(3) };
    assert_eq!(check_parent_update(&p, &male_dam), Err(ParentError::DamNotFemale));
    let daughter_as_dam = ParentRelationshipUpdate { pigeon_id: 2, sire_id: None, dam_id: Some(4) };
    assert_eq!(check_parent_update(&p, &daughter_as_dam), Err(ParentError::CreatesCycle));
    let son_as_sire = ParentRelationshipUpdate { pigeon_id: 1, sire_id: Some(3), dam_id: None };
    assert_eq!(check_parent_update(&p, &son_as_sire), Err(ParentError::CreatesCycle));
}
