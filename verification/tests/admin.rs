use letter::admin::admin_dashboard;
use letter::admin::change_password_form;
use letter::store::Store;

#[test]
fn the_dashboard_greets_the_operator_by_name() {
    let page = admin_dashboard("admin");
    assert!(page.contains("<p>Welcome admin!</p>"));
    assert!(page.contains("<title>Admin dashboard</title>"));
}

#[test]
fn get_username_finds_the_seeded_user() {
    let mut store = Store::new();
    store.insert_user(7, "admin", "irrelevant");
    assert_eq!(store.get_username(7).as_deref(), Some("admin"));
    assert_eq!(store.get_username(8), None);
}

#[test]
fn the_password_form_asks_for_all_three_fields() {
    let page = change_password_form();
    assert!(page.contains("name=\"current_password\""));
    assert!(page.contains("name=\"new_password\""));
    assert!(page.contains("name=\"new_password_check\""));
}
