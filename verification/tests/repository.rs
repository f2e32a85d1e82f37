use chatapp::adapters::{mock_contact_repo, mock_repo, IdType, InMemoryRepository, Model, Repository};
use chatapp::models::{Channel, ChannelType, Contact, Message};
use chatapp::adapters::ObjectId;

fn oid(n: u8) -> ObjectId {
    ObjectId { bytes: [n; 12] }
}

fn contact(n: u8, name: &str) -> Contact {
    Contact::from_parts(oid(n), name, &format!("{name}@x.com"), 10, 20)
}

#[test]
fn created_entity_is_found_under_its_identifier() {
    let mut repo = mock_contact_repo();
    let jon = contact(1, "jon");
    let stored = repo.create(&jon).unwrap();
    assert_eq!(stored.id, jon.id);
    assert_eq!(stored.name, "jon");
    assert_eq!(stored.email, "jon@x.com");
    assert_eq!(stored.created_at, 10);
    assert_eq!(stored.updated_at, 20);
    let found = repo.get(&jon.id()).unwrap();
    assert_eq!(found.id, jon.id);
    assert_eq!(found.name, jon.name);
    assert_eq!(found.email, jon.email);
    assert_eq!(found.created_at, jon.created_at);
    assert_eq!(found.updated_at, jon.updated_at);
    assert!(repo.get(&IdType::ObjectId(oid(2))).is_none());
    assert!(repo.get(&IdType::String(jon.id.to_hex())).is_none());
}

#[test]
fn deleted_entity_is_gone_and_cannot_be_deleted_again() {
    let mut repo = mock_contact_repo();
    let jon = contact(1, "jon");
    let arya = contact(2, "arya");
    repo.create(&jon).unwrap();
    repo.create(&arya).unwrap();
    assert!(repo.delete(&jon.id()).is_ok());
    assert!(repo.get(&jon.id()).is_none());
    let err = repo.delete(&jon.id()).unwrap_err();
    assert_eq!(err.message, "Entity not found");
    assert_eq!(err.to_string(), "Entity not found");
    let (total, all) = repo.list(None, None).unwrap();
    assert_eq!(total, 1);
    assert_eq!(all[0].name, "arya");
}

#[test]
fn update_of_a_missing_entity_fails_and_changes_nothing() {
    let mut repo = mock_contact_repo();
    let jon = contact(1, "jon");
    repo.create(&jon).unwrap();
    let err = repo.update(&contact(2, "arya")).unwrap_err();
    assert_eq!(err.message, "Entity not found");
    let (total, all) = repo.list(None, None).unwrap();
    assert_eq!(total, 1);
    assert_eq!(all.len(), 1);
    assert_eq!(all[0].name, "jon");
    assert_eq!(all[0].id, jon.id);
}

#[test]
fn update_replaces_in_place() {
    let mut repo = mock_contact_repo();
    repo.create(&contact(1, "jon")).unwrap();
    repo.create(&contact(2, "arya")).unwrap();
    repo.create(&contact(3, "sansa")).unwrap();
    assert!(repo.update(&contact(2, "nobody")).is_ok());
    let (_, all) = repo.list(None, None).unwrap();
    let names: Vec<&str> = all.iter().map(|c| c.name.as_str()).collect();
    assert_eq!(names, vec!["jon", "nobody", "sansa"]);
}

#[test]
fn first_of_two_entities_with_one_identifier_is_the_one_found() {
    let mut repo = mock_contact_repo();
    repo.create(&contact(1, "first")).unwrap();
    repo.create(&contact(1, "second")).unwrap();
    assert_eq!(repo.get(&IdType::ObjectId(oid(1))).unwrap().name, "first");
    repo.delete(&IdType::ObjectId(oid(1))).unwrap();
    assert_eq!(repo.get(&IdType::ObjectId(oid(1))).unwrap().name, "second");
}

#[test]
fn list_reports_every_entity_and_hands_out_all_of_them() {
    let mut repo = mock_contact_repo();
    for n in 0..5u8 {
        repo.create(&contact(n, "c")).unwrap();
    }
    let (total, all) = repo.list(Some(1), Some(2)).unwrap();
    assert_eq!(total, 5);
    assert_eq!(all.len(), 5);
    let (total, all) = repo.list(None, None).unwrap();
    assert_eq!(total, 5);
    let ids: Vec<ObjectId> = all.iter().map(|c| c.id).collect();
    assert_eq!(ids, vec![oid(0), oid(1), oid(2), oid(3), oid(4)]);
}

#[test]
fn store_of_any_entity_starts_empty() {
    let mut channels: InMemoryRepository<Channel> = mock_repo();
    assert_eq!(channels.list(None, None).unwrap().0, 0);
    let channel = Channel::from_parts(oid(7), "n", ChannelType::Group, &vec![], 1, 2);
    channels.create(&channel).unwrap();
    let found = channels.get(&channel.id()).unwrap();
    assert_eq!(found.name.as_deref(), Some("n"));
    assert_eq!(found.channel_type, ChannelType::Group);
    assert_eq!((found.created_at, found.updated_at), (1, 2));
    let messages: InMemoryRepository<Message> = mock_repo();
    assert!(messages.entities.is_empty());
}

#[test]
fn new_entities_carry_what_they_were_given() {
    let contact = Contact::new("Jon Snow", "jon@winterfell.com");
    assert_eq!(contact.name, "Jon Snow");
    assert_eq!(contact.email, "jon@winterfell.com");
    assert_eq!(contact.id(), IdType::ObjectId(contact.id));
    assert!(contact.created_at > 1_600_000_000);
    assert!(contact.updated_at > 1_600_000_000);
    let ids = vec![contact.id(), IdType::String("x".to_string())];
    let channel = Channel::new("north", ChannelType::Private, &ids);
    assert_eq!(channel.name.as_deref(), Some("north"));
    assert_eq!(channel.channel_type, ChannelType::Private);
    assert_eq!(channel.contact_ids, ids);
    assert_eq!(channel.id(), IdType::ObjectId(channel.id));
    let message = Message::new(&channel.id(), &ids[0], &ids[1], "hello");
    assert_eq!(message.channel_id, channel.id());
    assert_eq!(message.from, ids[0]);
    assert_eq!(message.to, ids[1]);
    assert_eq!(message.content, "hello");
    assert_eq!(message.id(), IdType::ObjectId(message.id));
    let copy = message.clone();
    assert_eq!(copy.id, message.id);
    assert_eq!(copy.content, message.content);
    assert_ne!(Contact::new("a", "b").id, Contact::new("a", "b").id);
}
