use indexmap::IndexMap;
use table_selection::{get_group_columns, get_rows, GroupColumn, PropertyColumn, User};

fn user(id: &str, groups: &[(&str, bool)]) -> User {
    let mut map = IndexMap::new();
    for (name, member) in groups {
        map.insert(name.to_string(), *member);
    }
    User {
        id: id.to_string(),
        name: format!("name of {}", id),
        properties: IndexMap::new(),
        groups: map,
    }
}

#[test]
fn group_columns_follow_first_user() {
    let users = vec![
        user("u1", &[("staff", true), ("admins", false), ("guests", true)]),
        user("u2", &[("other", true)]),
    ];
    let columns = get_group_columns(&users);
    let ids: Vec<&str> = columns.iter().map(|c| c.id.as_str()).collect();
    assert_eq!(ids, vec!["staff", "admins", "guests"]);
    let groups: Vec<&str> = columns.iter().map(|c| c.group.as_str()).collect();
    assert_eq!(groups, vec!["staff", "admins", "guests"]);
}

#[test]
fn group_columns_empty_without_users() {
    assert!(get_group_columns(&[]).is_empty());
}

#[test]
fn rows_keep_user_order_and_ids() {
    let users = vec![user("a", &[]), user("b", &[]), user("c", &[])];
    let rows = get_rows(users);
    let ids: Vec<&str> = rows.iter().map(|r| r.id.as_str()).collect();
    assert_eq!(ids, vec!["a", "b", "c"]);
    assert_eq!(rows[1].user.id, "b");
    assert_eq!(rows[2].user.name, "name of c");
    assert!(get_rows(vec![]).is_empty());
}

#[test]
fn group_membership_lookup() {
    let rows = get_rows(vec![user("u1", &[("staff", true), ("admins", false)])]);
    assert!(GroupColumn::new("staff".to_string(), "staff".to_string()).access(&rows[0]));
    assert!(!GroupColumn::new("admins".to_string(), "admins".to_string()).access(&rows[0]));
    assert!(!GroupColumn::new("absent".to_string(), "absent".to_string()).access(&rows[0]));
}

#[test]
fn property_lookup() {
    let mut u = user("u1", &[]);
    u.properties.insert("city".to_string(), "Bern".to_string());
    let rows = get_rows(vec![u]);
    let city = PropertyColumn::new("city".to_string(), "city".to_string());
    assert_eq!(city.access(&rows[0]), "Bern");
    let zip = PropertyColumn::new("zip".to_string(), "zip".to_string());
    assert_eq!(zip.access(&rows[0]), "");
}
