use chatapp::adapters::channel_repository::ChannelRepository;
use chatapp::adapters::{
    mock_channel_repo, mock_contact_repo, mock_message_repo, IdType, Model, Repository,
};
use chatapp::commands;
use chatapp::models::{Channel, ChannelType, Contact};
use chatapp::services::message_handlers::{private_pair, require_channel, require_contact};
use chatapp::services::MessageService;

fn add_test_contacts(repo: &mut impl Repository<Contact>) -> Vec<Contact> {
    let c1 = repo
        .create(&Contact::new("Sansa Stark", "sansa@winterfell.com"))
        .unwrap();
    let c2 = repo
        .create(&Contact::new("Eddard Stark", "eddard@winterfell.com"))
        .unwrap();
    vec![c1, c2]
}

fn add_test_channel(repo: &mut impl Repository<Channel>, contacts: &[Contact]) -> Channel {
    let cmd = commands::CreateChannel {
        name: "The North Remembers".to_string(),
        channel_type: ChannelType::Private,
        contact_ids: vec![contacts[0].id(), contacts[1].id()],
    };
    repo.create(&Channel::new(
        &cmd.name,
        cmd.channel_type.clone(),
        &cmd.contact_ids,
    ))
    .unwrap()
}

#[test]
fn message_handlers_can_send_message() {
    let repo = mock_message_repo();
    let mut contact_repo = mock_contact_repo();
    let mut channel_repo = mock_channel_repo();

    let contacts = add_test_contacts(&mut contact_repo);
    let _channel = add_test_channel(&mut channel_repo, &contacts);

    let mut service = MessageService::new(repo, channel_repo, contact_repo);

    let cmd = commands::SendMessage {
        channel_id: None,
        from: contacts[0].id(),
        to: contacts[1].id(),
        content: "The north remembers!".to_string(),
    };
    let res = service.send_message(&cmd);

    let (_total, channels) = service.channel_repository.list(None, None).unwrap();
    assert_eq!(channels.len(), 1, "Should not have created a new channel");
    assert!(res.is_ok());

    let messages = service.get_messages(&channels[0].id()).unwrap();
    assert_eq!(messages.len(), 1, "Should have created a new message");
    let message = messages.first().unwrap();
    assert_eq!(message.from, cmd.from);
    assert_eq!(message.to, cmd.to);
    assert_eq!(message.content, cmd.content);
}

#[test]
fn find_by_contact_ids() {
    let mut repo = mock_channel_repo();
    let mut contacts_repo = mock_contact_repo();
    let contacts = add_test_contacts(&mut contacts_repo);
    let test_channel = add_test_channel(&mut repo, &contacts);

    let channel = repo
        .get_by_contact_ids(&vec![contacts[0].id(), contacts[1].id()])
        .unwrap();
    assert_eq!(channel.id(), test_channel.id());

    let swapped = repo
        .get_by_contact_ids(&vec![contacts[1].id(), contacts[0].id(), contacts[1].id()])
        .unwrap();
    assert_eq!(swapped.id(), test_channel.id());

    assert!(repo.get_by_contact_ids(&vec![contacts[0].id()]).is_none());
    let stranger = Contact::new("Petyr Baelish", "petyr@vale.com");
    assert!(repo
        .get_by_contact_ids(&vec![contacts[0].id(), contacts[1].id(), stranger.id()])
        .is_none());
    assert!(repo.get_by_contact_ids(&vec![]).is_none());
}

#[test]
fn two_messages_between_two_contacts_share_one_new_private_channel() {
    let mut contact_repo = mock_contact_repo();
    let jon = contact_repo.create(&Contact::new("Jon", "jon@x.com")).unwrap();
    let arya = contact_repo.create(&Contact::new("Arya", "arya@x.com")).unwrap();
    let mut service = MessageService::new(mock_message_repo(), mock_channel_repo(), contact_repo);

    let cmd = commands::SendMessage {
        channel_id: None,
        from: jon.id(),
        to: arya.id(),
        content: "hi".to_string(),
    };
    assert!(service.send_message(&cmd).is_ok());
    assert!(service.send_message(&cmd).is_ok());

    let (total, channels) = service.channel_repository.list(None, None).unwrap();
    assert_eq!(total, 1);
    assert_eq!(channels.len(), 1);
    assert_eq!(channels[0].channel_type, ChannelType::Private);
    assert_eq!(channels[0].name.as_deref(), Some(""));
    assert_eq!(channels[0].contact_ids, vec![jon.id(), arya.id()]);

    let (total, all) = service.repository.list(None, None).unwrap();
    assert_eq!(total, 2);
    assert_eq!(all.len(), 2);
    let messages = service.get_messages(&channels[0].id()).unwrap();
    assert_eq!(messages.len(), 2);
    for m in messages.iter() {
        assert_eq!(m.channel_id, channels[0].id());
        assert_eq!(m.from, jon.id());
        assert_eq!(m.to, arya.id());
        assert_eq!(m.content, "hi");
    }
}

#[test]
fn message_to_a_missing_contact_names_the_identifier() {
    let mut contact_repo = mock_contact_repo();
    let jon = contact_repo.create(&Contact::new("Jon", "jon@x.com")).unwrap();
    let mut service = MessageService::new(mock_message_repo(), mock_channel_repo(), contact_repo);
    let ghost = Contact::new("Ghost", "ghost@x.com");

    let err = service
        .send_message(&commands::SendMessage {
            channel_id: None,
            from: jon.id(),
            to: ghost.id(),
            content: "hi".to_string(),
        })
        .unwrap_err();
    assert_eq!(err.message, format!("Contact with id {} not found", ghost.id.to_hex()));
    assert_eq!(err.to_string(), err.message);

    let err = service
        .send_message(&commands::SendMessage {
            channel_id: None,
            from: IdType::String("winterfell".to_string()),
            to: jon.id(),
            content: "hi".to_string(),
        })
        .unwrap_err();
    assert_eq!(err.message, "Contact with id winterfell not found");

    assert_eq!(service.channel_repository.list(None, None).unwrap().0, 0);
    assert_eq!(service.repository.list(None, None).unwrap().0, 0);
}

#[test]
fn message_into_a_named_channel_uses_it_or_fails_without_it() {
    let mut contact_repo = mock_contact_repo();
    let mut channel_repo = mock_channel_repo();
    let contacts = add_test_contacts(&mut contact_repo);
    let group = channel_repo
        .create(&Channel::new("Council", ChannelType::Group, &vec![contacts[0].id()]))
        .unwrap();
    let mut service = MessageService::new(mock_message_repo(), channel_repo, contact_repo);

    let missing = Channel::new("Nowhere", ChannelType::Group, &vec![]);
    let err = service
        .send_message(&commands::SendMessage {
            channel_id: Some(missing.id()),
            from: contacts[0].id(),
            to: contacts[1].id(),
            content: "lost".to_string(),
        })
        .unwrap_err();
    assert_eq!(err.message, format!("Channel with id {} not found", missing.id.to_hex()));
    assert_eq!(service.repository.list(None, None).unwrap().0, 0);

    service
        .send_message(&commands::SendMessage {
            channel_id: Some(group.id()),
            from: contacts[0].id(),
            to: contacts[1].id(),
            content: "found".to_string(),
        })
        .unwrap();
    let (total, channels) = service.channel_repository.list(None, None).unwrap();
    assert_eq!(total, 1);
    assert_eq!(channels[0].id, group.id);
    let messages = service.get_messages(&group.id()).unwrap();
    assert_eq!(messages.len(), 1);
    assert_eq!(messages[0].content, "found");
    assert_eq!(messages[0].channel_id, group.id());
}

#[test]
fn decisions_on_messages_depend_on_what_was_found() {
    let jon = Contact::new("Jon", "jon@x.com");
    let arya = Contact::new("Arya", "arya@x.com");
    let text = IdType::String("raven".to_string());
    assert_eq!(require_contact(None, &text).unwrap_err().message, "Contact with id raven not found");
    assert_eq!(require_channel(None, &text).unwrap_err().message, "Channel with id raven not found");
    assert_eq!(require_contact(Some(jon.clone()), &text).unwrap().id, jon.id);
    let channel = Channel::new("c", ChannelType::Group, &vec![]);
    assert_eq!(require_channel(Some(channel.clone()), &channel.id()).unwrap().id, channel.id);
    assert_eq!(private_pair(&jon, &arya), vec![jon.id(), arya.id()]);
}
