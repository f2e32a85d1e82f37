use crate::adapters::base::{
    found, listed, IdType, IdView, Model, Repository, RepositoryError,
};
use crate::adapters::contact_repository::{email_hits, lookup_email, ContactRepository};
use crate::adapters::lookup::{id_hits, index_of_id, lemma_first_hit, option_view, views};
use crate::commands;
use crate::models::{Contact, ContactView};
use vstd::prelude::*;

verus! {

/// The message of the error for an email address that a contact already has.
pub open spec fn already_exists_message(email: Seq<char>) -> Seq<char> {
    "Contact with email "@ + email + " already exists"@
}

/// The message of the error for an identifier that no contact has.
pub open spec fn contact_not_found_message() -> Seq<char> {
    "Contact not found"@
}

/// The contact `c` with the name and the email address replaced, each where one
/// is given.
pub open spec fn with_changes(
    c: ContactView,
    name: Option<Seq<char>>,
    email: Option<Seq<char>>,
) -> ContactView {
    ContactView {
        name: match name {
            Some(n) => n,
            None => c.name,
        },
        email: match email {
            Some(e) => e,
            None => c.email,
        },
        ..c
    }
}

/// The view of a text that may be missing.
pub open spec fn text_view(o: Option<String>) -> Option<Seq<char>> {
    match o {
        Some(s) => Some(s@),
        None => None,
    }
}

/// How creating a contact with `name` and `email` ends, on contacts `before`:
/// with the contact `Ok(c)` or the message of an error, and with the contacts
/// `after`. An email address that a contact already has is refused; otherwise
/// the new contact is added at the end, unless the store fails.
pub open spec fn contact_created(
    before: Seq<ContactView>,
    name: Seq<char>,
    email: Seq<char>,
    outcome: Result<ContactView, Seq<char>>,
    after: Seq<ContactView>,
) -> bool {
    match lookup_email(before, email) {
        Some(_) => outcome == Err::<ContactView, Seq<char>>(already_exists_message(email)) && after
            == before,
        None => match outcome {
            Ok(c) => c.name == name && c.email == email && after == before.push(c),
            Err(_) => after == before,
        },
    }
}

/// How updating the contact found under `key` ends, on contacts `before`: a
/// missing contact is an error, and otherwise the contact is replaced by itself
/// with the changes, unless the store fails.
pub open spec fn contact_updated(
    before: Seq<ContactView>,
    key: Option<IdView>,
    name: Option<Seq<char>>,
    email: Option<Seq<char>>,
    outcome: Result<ContactView, Seq<char>>,
    after: Seq<ContactView>,
) -> bool {
    let at = match key {
        Some(k) => index_of_id::<Contact>(before, k),
        None => None,
    };
    match at {
        None => outcome == Err::<ContactView, Seq<char>>(contact_not_found_message()) && after
            == before,
        Some(i) => match outcome {
            Ok(c) => c == with_changes(before[i], name, email) && after == before.update(i, c),
            Err(_) => after == before,
        },
    }
}

/// The contacts among `contacts` whose email address is `email`.
pub open spec fn contacts_with_email(contacts: Seq<ContactView>, email: Seq<char>) -> Seq<
    ContactView,
> {
    contacts.filter(|c: ContactView| c.email == email)
}

/// Where no contact is found under an email address, no contact has it.
pub proof fn lemma_no_contact_with_email(contacts: Seq<ContactView>, email: Seq<char>)
    requires
        lookup_email(contacts, email) is None,
    ensures
        contacts_with_email(contacts, email).len() == 0,
{
    let with = contacts_with_email(contacts, email);
    let pred = |c: ContactView| c.email == email;
    if with.len() > 0 {
        contacts.lemma_filter_pred(pred, 0);
        assert(with.contains(with[0]));
        contacts.lemma_filter_contains_rev(pred, with[0]);
        let i = choose|i: int| 0 <= i < contacts.len() && contacts[i] == with[0];
        lemma_first_hit(email_hits(contacts, email));
        assert(email_hits(contacts, email)[i]);
    }
}

/// After a contact was created with an email address, a second contact with
/// that address is refused, whatever its name: the second call fails with the
/// message that the address is taken and changes nothing, and exactly one
/// contact has the address.
pub proof fn second_contact_is_refused(
    before: Seq<ContactView>,
    email: Seq<char>,
    first_name: Seq<char>,
    first: ContactView,
    between: Seq<ContactView>,
    second_name: Seq<char>,
    second: Result<ContactView, Seq<char>>,
    after: Seq<ContactView>,
)
    requires
        contact_created(before, first_name, email, Ok(first), between),
        contact_created(between, second_name, email, second, after),
    ensures
        second == Err::<ContactView, Seq<char>>(already_exists_message(email)),
        after == between,
        contacts_with_email(after, email).len() == 1,
{
    assert(lookup_email(before, email) is None);
    assert(between == before.push(first));
    lemma_first_hit(email_hits(before, email));
    let hits = email_hits(between, email);
    assert(hits[before.len() as int]);
    lemma_first_hit(hits);
    assert(lookup_email(between, email) is Some);
    lemma_no_contact_with_email(before, email);
    reveal(Seq::filter);
    assert(between.drop_last() =~= before);
}

/// What a service call gave, as views: the value, or the message of the error.
pub open spec fn outcome_view<T: View>(r: Result<T, RepositoryError>) -> Result<T::V, Seq<char>> {
    match r {
        Ok(t) => Ok(t@),
        Err(e) => Err(e.message@),
    }
}

/// Refuses the email address where a contact was found that has it.
pub fn refuse_taken_email(existing: &Option<Contact>, email: &str) -> (r: Result<
    (),
    RepositoryError,
>)
    ensures
        match existing {
            Some(_) => r matches Err(e) && e.message@ == already_exists_message(email@),
            None => r is Ok,
        },
{
    match existing {
        Some(_) => {
            let message = String::from_str("Contact with email ").concat(email).concat(
                " already exists",
            );
            Err(RepositoryError { message })
        },
        None => Ok(()),
    }
}

/// The contact that was found, or the error that says that there is none.
pub fn require_contact(found: Option<Contact>) -> (r: Result<Contact, RepositoryError>)
    ensures
        match found {
            Some(c) => r matches Ok(contact) && contact == c,
            None => r matches Err(e) && e.message@ == contact_not_found_message(),
        },
{
    match found {
        Some(c) => Ok(c),
        None => Err(RepositoryError { message: "Contact not found".to_owned() }),
    }
}

/// The contact with the name and the email address of the command, each where
/// the command gives one.
pub fn apply_changes(contact: Contact, cmd: &commands::UpdateContact) -> (r: Contact)
    ensures
        r@ == with_changes(contact@, text_view(cmd.name), text_view(cmd.email)),
{
    let mut contact = contact;
    if let Some(name) = &cmd.name {
        contact.name = name.clone();
    }
    if let Some(email) = &cmd.email {
        contact.email = email.clone();
    }
    contact
}

/// The operations on contacts, over any store of contacts.
pub struct ContactService<R: ContactRepository> {
    pub repository: R,
}

impl<R: ContactRepository> ContactService<R> {
    /// The service over the given store.
    pub fn new(repo: R) -> (r: Self)
        ensures
            r.repository == repo,
    {
        ContactService { repository: repo }
    }

    /// The number of contacts and the contacts, as the store lists them.
    pub fn list(&self, skip: Option<u64>, limit: Option<i32>) -> (r: Result<
        (i32, Vec<Contact>),
        RepositoryError,
    >)
        ensures
            R::faithful() && R::unfailing() ==> r is Ok,
            R::faithful() ==> (r matches Ok((total, contacts)) ==> listed(
                self.repository.entities(),
                R::paginates(),
                skip,
                limit,
                total as int,
                views(contacts@),
            )),
    {
        self.repository.list(skip, limit)
    }

    /// The contact that the store finds under the text as an identifier.
    pub fn get(&self, id: &str) -> (r: Option<Contact>)
        ensures
            R::faithful() ==> option_view(r) == found::<Contact>(
                self.repository.entities(),
                R::key_for(IdView::Text(id@)),
            ),
    {
        let id_type = IdType::String(id.to_owned());
        self.repository.get(&id_type)
    }

    /// Creates a contact, unless a contact already has the email address. The
    /// contact has the name and the email address of the command, whatever the
    /// store.
    pub fn create_contact(&mut self, cmd: &commands::CreateContact) -> (r: Result<
        Contact,
        RepositoryError,
    >)
        ensures
            r matches Ok(c) ==> c@.name == cmd.name@ && c@.email == cmd.email@,
            R::faithful() ==> contact_created(
                old(self).repository.entities(),
                cmd.name@,
                cmd.email@,
                outcome_view(r),
                final(self).repository.entities(),
            ),
            R::faithful() && R::unfailing() && lookup_email(
                old(self).repository.entities(),
                cmd.email@,
            ) is None ==> r is Ok,
    {
        let contact = Contact::new(cmd.name.as_str(), cmd.email.as_str());
        let existing = self.repository.find_by_email(contact.email.as_str());
        match refuse_taken_email(&existing, contact.email.as_str()) {
            Ok(_) => (),
            Err(e) => {
                return Err(e);
            },
        }
        match self.repository.create(&contact) {
            Ok(_) => Ok(contact),
            Err(e) => Err(e),
        }
    }

    /// Changes the name, the email address or both of the contact that the
    /// store finds under the identifier. The contact that comes back has the
    /// name and the email address that the command gives, whatever the store.
    pub fn update_contact(&mut self, cmd: &commands::UpdateContact) -> (r: Result<
        Contact,
        RepositoryError,
    >)
        ensures
            r matches Ok(c) ==> {
                &&& cmd.name matches Some(name) ==> c@.name == name@
                &&& cmd.email matches Some(email) ==> c@.email == email@
            },
            R::faithful() ==> contact_updated(
                old(self).repository.entities(),
                R::key_for(cmd.id@),
                text_view(cmd.name),
                text_view(cmd.email),
                outcome_view(r),
                final(self).repository.entities(),
            ),
            R::faithful() && R::unfailing() && found::<Contact>(
                old(self).repository.entities(),
                R::key_for(cmd.id@),
            ) is Some ==> r is Ok,
    {
        let contact = match require_contact(self.repository.get(&cmd.id)) {
            Ok(c) => c,
            Err(e) => {
                return Err(e);
            },
        };
        proof {
            if R::faithful() {
                let before = self.repository.entities();
                let key = R::key_for(cmd.id@).unwrap();
                lemma_first_hit(id_hits::<Contact>(before, key));
            }
        }
        let contact = apply_changes(contact, cmd);
        match self.repository.update(&contact) {
            Ok(_) => Ok(contact),
            Err(e) => Err(e),
        }
    }
}

} // verus!
