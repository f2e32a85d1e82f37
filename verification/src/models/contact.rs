use crate::adapters::{IdType, IdView, Model, ObjectId};
use crate::models::clock::utc_now;
use vstd::prelude::*;

verus! {

/// What a contact is: its identifier, name, email address, and the seconds
/// since 1970 at which it was created and last updated.
pub struct ContactView {
    pub id: Seq<u8>,
    pub name: Seq<char>,
    pub email: Seq<char>,
    pub created_at: int,
    pub updated_at: int,
}

/// A contact.
#[derive(Debug)]
pub struct Contact {
    pub id: ObjectId,
    pub name: String,
    pub email: String,
    pub created_at: i64,
    pub updated_at: i64,
}

impl View for Contact {
    type V = ContactView;

    open spec fn view(&self) -> ContactView {
        ContactView {
            id: self.id@,
            name: self.name@,
            email: self.email@,
            created_at: self.created_at as int,
            updated_at: self.updated_at as int,
        }
    }
}

impl Clone for Contact {
    fn clone(&self) -> (r: Contact)
        ensures
            r@ == self@,
    {
        Contact {
            id: self.id,
            name: self.name.clone(),
            email: self.email.clone(),
            created_at: self.created_at,
            updated_at: self.updated_at,
        }
    }
}

impl Model for Contact {
    open spec fn id_of(v: ContactView) -> IdView {
        IdView::Native(v.id)
    }

    proof fn clone_keeps_view(a: &Contact, b: &Contact) {
    }

    fn id(&self) -> (r: IdType) {
        IdType::ObjectId(self.id)
    }
}

impl Contact {
    /// The contact with the given identifier, name, email address and times.
    pub fn from_parts(id: ObjectId, name: &str, email: &str, created_at: i64, updated_at: i64) -> (r:
        Contact)
        ensures
            r@ == (ContactView {
                id: id@,
                name: name@,
                email: email@,
                created_at: created_at as int,
                updated_at: updated_at as int,
            }),
    {
        Contact { id, name: name.to_owned(), email: email.to_owned(), created_at, updated_at }
    }

    /// A new contact with the given name and email address. Its identifier is
    /// fresh, and it is created and updated now.
    pub fn new(name: &str, email: &str) -> (r: Contact)
        ensures
            r@.name == name@,
            r@.email == email@,
    {
        let id = ObjectId::new();
        let created_at: i64 = utc_now();
        let updated_at: i64 = utc_now();
        Contact::from_parts(id, name, email, created_at, updated_at)
    }
}

} // verus!
