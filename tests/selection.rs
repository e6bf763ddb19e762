use openmw_config::select::user_config_path;

#[test]
fn empty_candidates_give_the_fallback() {
    let fallback = "/home/u/.config/openmw".to_string();
    let none: Vec<&String> = Vec::new();
    assert_eq!(user_config_path(&none, &fallback), fallback);
}

#[test]
fn last_candidate_wins() {
    let a = "/etc/openmw".to_string();
    let b = "/usr/share/openmw".to_string();
    let c = "/home/u/.config/openmw".to_string();
    let fallback = "/fallback".to_string();
    assert_eq!(user_config_path(&vec![&a, &b, &c], &fallback), c);
}

#[test]
fn single_candidate_beats_the_fallback() {
    let a = "/etc/openmw".to_string();
    let fallback = "/fallback".to_string();
    assert_eq!(user_config_path(&vec![&a], &fallback), a);
}
