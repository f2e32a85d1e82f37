use crate::adapters::base::Repository;
use crate::adapters::lookup::{first_hit, option_view};
use crate::models::{Contact, ContactView};
use vstd::prelude::*;

verus! {

/// For each contact, whether its email address is `email`.
pub open spec fn email_hits(contacts: Seq<ContactView>, email: Seq<char>) -> Seq<bool> {
    Seq::new(contacts.len(), |i: int| contacts[i].email == email)
}

/// The first contact whose email address is `email`.
pub open spec fn lookup_email(contacts: Seq<ContactView>, email: Seq<char>) -> Option<
    ContactView,
> {
    match first_hit(email_hits(contacts, email)) {
        Some(i) => Some(contacts[i]),
        None => None,
    }
}

/// A store of contacts, which can also be asked for a contact by its email
/// address.
pub trait ContactRepository: Repository<Contact> {
    /// The first contact held whose email address is exactly `email`, or
    /// nothing.
    fn find_by_email(&self, email: &str) -> (r: Option<Contact>)
        ensures
            Self::faithful() ==> option_view(r) == lookup_email(self.entities(), email@),
    ;
}

} // verus!
