use pigeon_planner::statements::{build_update_statement, like_pattern};

fn cols(names: &[&str]) -> Vec<String> {
    names.iter().map(|s| s.to_string()).collect()
}

#[test]
fn update_sets_only_present_fields() {
    let columns = cols(&["race_name", "race_date", "distance_km", "notes"]);
    let s = build_update_statement("races", &columns, &vec![true, false, true, false]).unwrap();
    assert_eq!(s, "UPDATE races SET race_name = ?, distance_km = ?, updated_at = CURRENT_TIMESTAMP WHERE id = ?");
}

#[test]
fn update_of_one_field() {
    let columns = cols(&["status"]);
    let s = build_update_statement("races", &columns, &vec![true]).unwrap();
    assert_eq!(s, "UPDATE races SET status = ?, updated_at = CURRENT_TIMESTAMP WHERE id = ?");
}

#[test]
fn update_without_fields_is_none() {
    let columns = cols(&["race_name", "notes"]);
    assert_eq!(build_update_statement("races", &columns, &vec![false, false]), None);
    assert_eq!(build_update_statement("races", &Vec::new(), &Vec::new()), None);
}

#[test]
fn like_pattern_wraps_query() {
    assert_eq!(like_pattern("CHN-2023"), "%CHN-2023%");
    assert_eq!(like_pattern(""), "%%");
}
