use chatapp::adapters::IdType;
use chatapp::api::contacts::{GetContactsQuery, UpdateContactBody};

#[test]
fn page_query_asks_for_the_first_twenty_unless_told() {
    let q = GetContactsQuery { page: None, per_page: None };
    assert_eq!(q.page(), 1);
    assert_eq!(q.per_page(), 20);
    assert_eq!(q.window(), (Some(0), Some(20)));
}

#[test]
fn page_query_passes_over_the_pages_before() {
    let q = GetContactsQuery { page: Some(3), per_page: Some(10) };
    assert_eq!((q.page(), q.per_page()), (3, 10));
    assert_eq!(q.window(), (Some(20), Some(10)));
    let q = GetContactsQuery { page: Some(2), per_page: None };
    assert_eq!(q.window(), (Some(20), Some(20)));
    let q = GetContactsQuery { page: None, per_page: Some(7) };
    assert_eq!(q.window(), (Some(0), Some(7)));
}

#[test]
fn page_query_passes_over_nothing_where_the_product_is_negative() {
    let q = GetContactsQuery { page: Some(0), per_page: Some(10) };
    assert_eq!(q.window(), (Some(0), Some(10)));
    let q = GetContactsQuery { page: Some(5), per_page: Some(-1) };
    assert_eq!(q.window(), (Some(0), Some(-1)));
    let q = GetContactsQuery { page: Some(-3), per_page: Some(-2) };
    assert_eq!(q.window(), (Some(8), Some(-2)));
    let q = GetContactsQuery { page: Some(i32::MIN), per_page: Some(i32::MAX) };
    assert_eq!(q.window(), (Some(0), Some(i32::MAX)));
}

#[test]
fn page_query_does_not_wrap() {
    let q = GetContactsQuery { page: Some(i32::MAX), per_page: Some(i32::MAX) };
    assert_eq!(q.window(), (Some(2147483646u64 * 2147483647u64), Some(i32::MAX)));
    let q = GetContactsQuery { page: Some(i32::MIN), per_page: Some(i32::MIN) };
    assert_eq!(q.window(), (Some(2147483649u64 * 2147483648u64), Some(i32::MIN)));
}

#[test]
fn changes_become_a_command_for_the_contact() {
    let body = UpdateContactBody { name: Some("Arya".to_string()), email: None };
    let cmd = body.command("53e37d08776f724e42000000".to_string());
    assert_eq!(cmd.id, IdType::String("53e37d08776f724e42000000".to_string()));
    assert_eq!(cmd.name.as_deref(), Some("Arya"));
    assert_eq!(cmd.email, None);
    let body = UpdateContactBody { name: None, email: Some("a@x.com".to_string()) };
    let cmd = body.command(String::new());
    assert_eq!(cmd.id, IdType::String(String::new()));
    assert_eq!((cmd.name, cmd.email.as_deref()), (None, Some("a@x.com")));
}
