use crate::adapters::{IdType, IdView, Model, ObjectId};
use crate::models::clock::utc_now;
use vstd::prelude::*;

verus! {

/// What a message is: its identifier, the identifier of the channel that it
/// belongs to, the identifiers of the contact that sent it and of the contact
/// that it is for, its text, and the seconds since 1970 at which it was created
/// and last updated.
pub struct MessageView {
    pub id: Seq<u8>,
    pub channel_id: IdView,
    pub from: IdView,
    pub to: IdView,
    pub content: Seq<char>,
    pub created_at: int,
    pub updated_at: int,
}

/// A message.
#[derive(Debug)]
pub struct Message {
    pub id: ObjectId,
    pub channel_id: IdType,
    /// The id of the contact that sent the message
    pub from: IdType,
    /// The id of the contact that received the message
    pub to: IdType,
    pub content: String,
    pub created_at: i64,
    pub updated_at: i64,
}

impl View for Message {
    type V = MessageView;

    open spec fn view(&self) -> MessageView {
        MessageView {
            id: self.id@,
            channel_id: self.channel_id@,
            from: self.from@,
            to: self.to@,
            content: self.content@,
            created_at: self.created_at as int,
            updated_at: self.updated_at as int,
        }
    }
}

impl Clone for Message {
    fn clone(&self) -> (r: Message)
        ensures
            r@ == self@,
    {
        Message {
            id: self.id,
            channel_id: self.channel_id.clone(),
            from: self.from.clone(),
            to: self.to.clone(),
            content: self.content.clone(),
            created_at: self.created_at,
            updated_at: self.updated_at,
        }
    }
}

impl Model for Message {
    open spec fn id_of(v: MessageView) -> IdView {
        IdView::Native(v.id)
    }

    proof fn clone_keeps_view(a: &Message, b: &Message) {
    }

    fn id(&self) -> (r: IdType) {
        IdType::ObjectId(self.id)
    }
}

impl Message {
    /// The message with the given identifier, channel, sender, receiver, text
    /// and times.
    pub fn from_parts(
        id: ObjectId,
        channel_id: &IdType,
        from: &IdType,
        to: &IdType,
        content: &str,
        created_at: i64,
        updated_at: i64,
    ) -> (r: Message)
        ensures
            r@ == (MessageView {
                id: id@,
                channel_id: channel_id@,
                from: from@,
                to: to@,
                content: content@,
                created_at: created_at as int,
                updated_at: updated_at as int,
            }),
    {
        Message {
            id,
            channel_id: channel_id.clone(),
            from: from.clone(),
            to: to.clone(),
            content: content.to_owned(),
            created_at,
            updated_at,
        }
    }

    /// A new message in the given channel, from one contact to another, with the
    /// given text. Its identifier is fresh, and it is created and updated now.
    pub fn new(channel_id: &IdType, from: &IdType, to: &IdType, content: &str) -> (r: Message)
        ensures
            r@.channel_id == channel_id@,
            r@.from == from@,
            r@.to == to@,
            r@.content == content@,
    {
        let id = ObjectId::new();
        let created_at: i64 = utc_now();
        let updated_at: i64 = utc_now();
        Message::from_parts(id, channel_id, from, to, content, created_at, updated_at)
    }
}

} // verus!
