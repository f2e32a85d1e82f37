use chatapp::adapters::mongo::repository::{Filter, FindOptions, MongoRepository};
use chatapp::adapters::{IdType, ObjectId};
use chatapp::models::{Channel, Contact, Message};

fn oid(n: u8) -> ObjectId {
    ObjectId { bytes: [n; 12] }
}

fn hex(n: u8) -> String {
    oid(n).to_hex()
}

fn contacts() -> MongoRepository<Contact> {
    MongoRepository::new("contacts")
}

fn is_native(filter: &Filter, n: u8) -> bool {
    matches!(filter, Filter::NativeId(o) if *o == oid(n))
}

#[test]
fn repository_knows_its_collection() {
    assert_eq!(contacts().collection, "contacts");
    assert_eq!(MongoRepository::<Channel>::new("channels").collection, "channels");
}

#[test]
fn update_and_delete_match_the_identifier_as_it_stands() {
    let repo = contacts();
    let jon = Contact::from_parts(oid(1), "Jon", "jon@x.com", 0, 0);
    assert!(is_native(&repo.update_filter(&jon), 1));
    assert!(is_native(&repo.delete_filter(&IdType::ObjectId(oid(2))), 2));
    let by_text = repo.delete_filter(&IdType::String(hex(2)));
    assert!(matches!(by_text, Filter::TextId(s) if s == hex(2)));
}

#[test]
fn get_reads_a_text_as_a_native_identifier() {
    let repo = contacts();
    assert!(is_native(&repo.get_filter(&IdType::ObjectId(oid(3))).unwrap(), 3));
    assert!(is_native(&repo.get_filter(&IdType::String(hex(3))).unwrap(), 3));
    assert!(is_native(&repo.get_filter(&IdType::String(hex(3).to_uppercase())).unwrap(), 3));
    assert!(repo.get_filter(&IdType::String("jon".to_string())).is_none());
    assert!(repo.get_filter(&IdType::String(String::new())).is_none());
}

#[test]
fn writes_fail_where_nothing_matched_or_the_store_failed() {
    let repo = contacts();
    assert!(repo.updated(Ok(1)).is_ok());
    assert!(repo.deleted(Ok(1)).is_ok());
    assert!(repo.updated(Ok(2)).is_ok());
    assert_eq!(repo.updated(Ok(0)).unwrap_err().message, "Entity not found");
    assert_eq!(repo.deleted(Ok(0)).unwrap_err().message, "Entity not found");
    assert_eq!(repo.updated(Err("connection reset".to_string())).unwrap_err().message, "connection reset");
    assert_eq!(repo.deleted(Err("timed out".to_string())).unwrap_err().message, "timed out");
}

#[test]
fn create_hands_the_entity_back_or_the_text_of_the_failure() {
    let repo = contacts();
    let jon = Contact::from_parts(oid(1), "Jon", "jon@x.com", 5, 6);
    let stored = repo.created(&jon, Ok(())).unwrap();
    assert_eq!((stored.id, stored.name.as_str(), stored.email.as_str()), (oid(1), "Jon", "jon@x.com"));
    assert_eq!((stored.created_at, stored.updated_at), (5, 6));
    let err = repo.created(&jon, Err("E11000 duplicate key error".to_string())).unwrap_err();
    assert_eq!(err.message, "E11000 duplicate key error");
}

#[test]
fn list_asks_for_the_first_hundred_unless_told() {
    let repo = contacts();
    let q = repo.list_query(None, None);
    assert!(q.filter.is_none());
    assert_eq!(q.options, FindOptions { skip: Some(0), limit: Some(100), newest_first: false });
    let q = repo.list_query(Some(40), Some(20));
    assert_eq!(q.options, FindOptions { skip: Some(40), limit: Some(20), newest_first: false });
    let q = repo.list_query(Some(u64::MAX), Some(i32::MIN));
    assert_eq!(q.options.skip, Some(u64::MAX));
    assert_eq!(q.options.limit, Some(-2147483648));
}

#[test]
fn list_reports_the_count_of_the_store() {
    let repo = contacts();
    let jon = Contact::from_parts(oid(1), "Jon", "jon@x.com", 0, 0);
    let (total, page) = repo.listed(Ok(vec![jon]), Ok(250)).unwrap();
    assert_eq!(total, 250);
    assert_eq!(page.len(), 1);
    assert_eq!(page[0].name, "Jon");
    assert_eq!(repo.listed(Ok(vec![]), Ok(0)).unwrap().0, 0);
    assert_eq!(repo.listed(Ok(vec![]), Ok(2147483647)).unwrap().0, 2147483647);
    assert_eq!(repo.listed(Ok(vec![]), Ok(2147483648)).unwrap().0, 2147483647);
    assert_eq!(repo.listed(Ok(vec![]), Ok(u64::MAX)).unwrap().0, 2147483647);
}

#[test]
fn list_fails_with_the_text_of_the_first_failure() {
    let repo = contacts();
    let err = repo.listed(Err("find failed".to_string()), Ok(3)).unwrap_err();
    assert_eq!(err.message, "find failed");
    let err = repo.listed(Ok(vec![]), Err("count failed".to_string())).unwrap_err();
    assert_eq!(err.message, "count failed");
    let err = repo
        .listed(Err("find failed".to_string()), Err("count failed".to_string()))
        .unwrap_err();
    assert_eq!(err.message, "find failed");
}

#[test]
fn query_for_many_gives_what_the_store_gave() {
    let repo = contacts();
    let jon = Contact::from_parts(oid(1), "Jon", "jon@x.com", 0, 0);
    let arya = Contact::from_parts(oid(2), "Arya", "arya@x.com", 0, 0);
    let all = repo.answered(Some(Ok(vec![jon, arya]))).unwrap();
    assert_eq!(all.iter().map(|c| c.name.as_str()).collect::<Vec<_>>(), vec!["Jon", "Arya"]);
    assert!(repo.answered(None).unwrap().is_empty());
    assert_eq!(repo.answered(Some(Err("cursor lost".to_string()))).unwrap_err().message, "cursor lost");
}

#[test]
fn contact_query_is_by_exact_email() {
    assert!(matches!(contacts().find_by_email_filter("jon@x.com"), Filter::Email(e) if e == "jon@x.com"));
}

#[test]
fn channel_queries_name_the_participants() {
    let repo: MongoRepository<Channel> = MongoRepository::new("channels");
    let q = repo.find_by_contact_id_query(&IdType::String(hex(4))).unwrap();
    assert!(matches!(q.filter, Some(Filter::Participant(o)) if o == oid(4)));
    assert_eq!(q.options, FindOptions { skip: None, limit: None, newest_first: false });
    assert!(repo.find_by_contact_id_query(&IdType::String("x".to_string())).is_none());

    let f = repo
        .get_by_contact_ids_filter(&vec![IdType::ObjectId(oid(1)), IdType::String(hex(2))])
        .unwrap();
    assert!(matches!(f, Filter::Participants(list) if list == vec![oid(1), oid(2)]));
    let f = repo.get_by_contact_ids_filter(&vec![]).unwrap();
    assert!(matches!(f, Filter::Participants(list) if list.is_empty()));
    assert!(repo
        .get_by_contact_ids_filter(&vec![IdType::ObjectId(oid(1)), IdType::String("x".to_string())])
        .is_none());
}

#[test]
fn message_query_is_by_channel_newest_first() {
    let repo: MongoRepository<Message> = MongoRepository::new("messages");
    let q = repo.get_by_channel_id_query(&IdType::ObjectId(oid(9)), 100, 0).unwrap();
    assert!(matches!(q.filter, Some(Filter::Channel(o)) if o == oid(9)));
    assert_eq!(q.options, FindOptions { skip: Some(0), limit: Some(100), newest_first: true });
    let q = repo.get_by_channel_id_query(&IdType::String(hex(9)), -3, 7).unwrap();
    assert!(matches!(q.filter, Some(Filter::Channel(o)) if o == oid(9)));
    assert_eq!(q.options, FindOptions { skip: Some(7), limit: Some(-3), newest_first: true });
    assert!(repo.get_by_channel_id_query(&IdType::String("general".to_string()), 100, 0).is_none());
}
