use crate::adapters::IdType;
use crate::models::ChannelType;
use vstd::prelude::*;

verus! {

/// Send a text from one contact to another, into the given channel or, where
/// none is given, into the private channel of the two.
pub struct SendMessage {
    pub channel_id: Option<IdType>,
    pub from: IdType,
    pub to: IdType,
    pub content: String,
}

/// Create a contact with a name and an email address.
#[derive(Debug)]
pub struct CreateContact {
    pub name: String,
    pub email: String,
}

/// Give the contact with the identifier a new name, a new email address, or
/// both.
#[derive(Debug)]
pub struct UpdateContact {
    pub id: IdType,
    pub name: Option<String>,
    pub email: Option<String>,
}

/// Create a channel with a name, of a kind, for some contacts.
pub struct CreateChannel {
    pub name: String,
    pub channel_type: ChannelType,
    pub contact_ids: Vec<IdType>,
}

} // verus!
