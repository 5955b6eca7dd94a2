use mod_mail::candidates::{candidate_list, SharedGuild};
use mod_mail::config::Config;

fn shared(id: u64, name: &str) -> SharedGuild {
    SharedGuild { id, name: String::from(name) }
}

fn config(id: i64, role: Option<&str>) -> Config {
    Config {
        server_id: id,
        moderator_role: role.map(String::from),
        category: None,
    }
}

#[test]
fn candidates_are_filtered_and_sorted_by_name() {
    let sh = vec![shared(1, "Gamma"), shared(2, "Alpha"), shared(3, "Beta")];
    let cs = vec![
        config(1, Some("Mods")),
        config(2, None),  // no moderator role: Alpha is out
        config(3, Some("Staff")),
    ];
    let r = candidate_list(&sh, &cs);
    assert_eq!(r.len(), 2);
    assert_eq!(r[0].name, "Beta");
    assert_eq!(r[0].config.server_id, 3);
    assert_eq!(r[0].config.moderator_role.as_deref(), Some("Staff"));
    assert_eq!(r[1].name, "Gamma");
    assert_eq!(r[1].config.server_id, 1);
}

#[test]
fn configs_of_unshared_servers_are_ignored() {
    let sh = vec![shared(1, "Alpha")];
    let cs = vec![config(99, Some("Mods"))];
    let r = candidate_list(&sh, &cs);
    assert!(r.is_empty());
}

#[test]
fn duplicate_names_keep_the_greater_identifier() {
    let sh = vec![shared(5, "Same"), shared(6, "Same")];
    let cs = vec![config(5, Some("A")), config(6, Some("B"))];
    let r = candidate_list(&sh, &cs);
    assert_eq!(r.len(), 1);
    assert_eq!(r[0].name, "Same");
    assert_eq!(r[0].config.server_id, 6);
}

#[test]
fn negative_stored_identifier_matches_its_bit_pattern() {
    // a very large platform identifier is stored as a negative column value
    let big = u64::MAX - 4;
    let sh = vec![shared(big, "Huge")];
    let cs = vec![config(big as i64, Some("Mods"))];
    let r = candidate_list(&sh, &cs);
    assert_eq!(r.len(), 1);
    assert_eq!(r[0].name, "Huge");
}
