use crate::adapters::base::{not_found_message, IdType, IdView, Model, RepositoryError};
use crate::adapters::lookup::{total_count, views};
use crate::adapters::object_id::ObjectId;
use crate::models::channel::id_views;
use crate::models::{Channel, Contact, Message};
use std::marker::PhantomData;
use vstd::prelude::*;

verus! {

/// Which documents of a collection a query is about.
#[derive(Debug)]
pub enum Filter {
    /// The document whose native identifier is this one.
    NativeId(ObjectId),
    /// The documents whose field `id` is this text.
    TextId(String),
    /// The documents whose field `email` is this text.
    Email(String),
    /// The documents that hold this native identifier among their `contact_ids`.
    Participant(ObjectId),
    /// The documents whose `contact_ids` hold each of these native
    /// identifiers, and as many identifiers as are listed here.
    Participants(Vec<ObjectId>),
    /// The documents whose `channel_id` is this native identifier.
    Channel(ObjectId),
}

/// What a filter is, apart from how it is stored.
pub enum FilterView {
    NativeId(Seq<u8>),
    TextId(Seq<char>),
    Email(Seq<char>),
    Participant(Seq<u8>),
    Participants(Seq<Seq<u8>>),
    Channel(Seq<u8>),
}

impl View for Filter {
    type V = FilterView;

    open spec fn view(&self) -> FilterView {
        match self {
            Filter::NativeId(o) => FilterView::NativeId(o@),
            Filter::TextId(s) => FilterView::TextId(s@),
            Filter::Email(s) => FilterView::Email(s@),
            Filter::Participant(o) => FilterView::Participant(o@),
            Filter::Participants(list) => FilterView::Participants(views(list@)),
            Filter::Channel(o) => FilterView::Channel(o@),
        }
    }
}

/// How many of the documents that a filter matches a query asks for, and in
/// which order.
#[derive(Clone, Copy, Debug, PartialEq, Eq)]
pub struct FindOptions {
    /// How many documents to pass over.
    pub skip: Option<u64>,
    /// How many documents to hand out at most.
    pub limit: Option<i64>,
    /// Whether the documents come by `created_at`, the newest first.
    pub newest_first: bool,
}

/// A query for many documents: a filter, or none for the whole collection, and
/// the options.
#[derive(Debug)]
pub struct Query {
    pub filter: Option<Filter>,
    pub options: FindOptions,
}

/// What a query is, apart from how it is stored.
pub struct QueryView {
    pub filter: Option<FilterView>,
    pub options: FindOptions,
}

impl View for Query {
    type V = QueryView;

    open spec fn view(&self) -> QueryView {
        QueryView {
            filter: match self.filter {
                Some(f) => Some(f@),
                None => None,
            },
            options: self.options,
        }
    }
}

/// The filter that matches what is held under the identifier as it stands: a
/// native identifier in the store's own field, a text in the field `id`.
pub open spec fn id_filter(id: IdView) -> FilterView {
    match id {
        IdView::Text(s) => FilterView::TextId(s),
        IdView::Native(b) => FilterView::NativeId(b),
    }
}

/// The native identifiers that the identifiers in `ids` name, where every one
/// of them names one.
pub open spec fn natives(ids: Seq<IdView>) -> Option<Seq<Seq<u8>>> {
    if forall|i: int| 0 <= i < ids.len() ==> (#[trigger] ids[i]).native() is Some {
        Some(Seq::new(ids.len(), |i: int| ids[i].native().unwrap()))
    } else {
        None
    }
}

/// The document store's side of a repository of entities of type `M`, kept in
/// one collection: what to ask the store for each operation, and what the
/// store's answer means. Talking to the store is left to the caller.
pub struct MongoRepository<M> {
    /// The name of the collection.
    pub collection: String,
    pub entity: PhantomData<M>,
}

/// What the store said of a write: how many documents it concerned, or the
/// text of the store's error.
pub open spec fn write_result(outcome: Result<u64, String>) -> Result<(), Seq<char>> {
    match outcome {
        Ok(n) => if n == 0 {
            Err(not_found_message())
        } else {
            Ok(())
        },
        Err(text) => Err(text@),
    }
}

/// What a call gave, as views: nothing, or the message of the error.
pub open spec fn unit_outcome(r: Result<(), RepositoryError>) -> Result<(), Seq<char>> {
    match r {
        Ok(_) => Ok(()),
        Err(e) => Err(e.message@),
    }
}

/// What a write that concerned `n` documents, or failed, means for the caller.
fn written(outcome: Result<u64, String>) -> (r: Result<(), RepositoryError>)
    ensures
        unit_outcome(r) == write_result(outcome),
{
    match outcome {
        Ok(n) => if n == 0 {
            Err(RepositoryError { message: "Entity not found".to_owned() })
        } else {
            Ok(())
        },
        Err(text) => Err(RepositoryError { message: text }),
    }
}

impl<M: Model> MongoRepository<M> {
    /// The repository of the collection with the given name.
    pub fn new(collection_name: &str) -> (r: Self)
        ensures
            r.collection@ == collection_name@,
    {
        MongoRepository { collection: collection_name.to_owned(), entity: PhantomData }
    }

    /// What `create` gives after the store was asked to insert the entity: the
    /// entity, or an error with the text of the store's.
    pub fn created(&self, model: &M, outcome: Result<(), String>) -> (r: Result<
        M,
        RepositoryError,
    >)
        ensures
            match outcome {
                Ok(_) => r matches Ok(stored) && stored@ == model@,
                Err(text) => r matches Err(e) && e.message@ == text@,
            },
    {
        match outcome {
            Ok(_) => {
                let stored = model.clone();
                proof {
                    M::clone_keeps_view(model, &stored);
                }
                Ok(stored)
            },
            Err(text) => Err(RepositoryError { message: text }),
        }
    }

    /// The filter of `update`: the document that is held under the entity's
    /// own identifier is to be replaced.
    pub fn update_filter(&self, model: &M) -> (r: Filter)
        ensures
            r@ == id_filter(M::id_of(model@)),
    {
        match model.id() {
            IdType::String(s) => Filter::TextId(s),
            IdType::ObjectId(o) => Filter::NativeId(o),
        }
    }

    /// What `update` gives after the store was asked to replace a document and
    /// said how many documents the filter matched: an error where it matched
    /// none, and an error with the text of the store's where the store failed.
    pub fn updated(&self, outcome: Result<u64, String>) -> (r: Result<(), RepositoryError>)
        ensures
            unit_outcome(r) == write_result(outcome),
    {
        written(outcome)
    }

    /// The filter of `delete`: the document that is held under the identifier
    /// is to be removed.
    pub fn delete_filter(&self, id: &IdType) -> (r: Filter)
        ensures
            r@ == id_filter(id@),
    {
        match id {
            IdType::String(s) => Filter::TextId(s.clone()),
            IdType::ObjectId(o) => Filter::NativeId(*o),
        }
    }

    /// What `delete` gives after the store was asked to remove a document and
    /// said how many it removed: an error where it removed none, and an error
    /// with the text of the store's where the store failed.
    pub fn deleted(&self, outcome: Result<u64, String>) -> (r: Result<(), RepositoryError>)
        ensures
            unit_outcome(r) == write_result(outcome),
    {
        written(outcome)
    }

    /// The filter of `get`: the document whose native identifier the
    /// identifier names. A text that names none finds nothing, and the store
    /// need not be asked.
    pub fn get_filter(&self, id: &IdType) -> (r: Option<Filter>)
        ensures
            match id@.native() {
                Some(b) => r matches Some(f) && f@ == FilterView::NativeId(b),
                None => r is None,
            },
    {
        let object_id = match id.to_object_id() {
            Some(o) => o,
            None => {
                return None;
            },
        };
        Some(Filter::NativeId(object_id))
    }

    /// The query of `list`: the whole collection in the store's order, without
    /// the first `skip` documents and `limit` of them at most; from the start
    /// and 100 at most where it is not told.
    pub fn list_query(&self, skip: Option<u64>, limit: Option<i32>) -> (r: Query)
        ensures
            r@ == (QueryView {
                filter: None,
                options: FindOptions {
                    skip: Some(
                        match skip {
                            Some(n) => n,
                            None => 0,
                        },
                    ),
                    limit: Some(
                        match limit {
                            Some(n) => n as i64,
                            None => 100,
                        },
                    ),
                    newest_first: false,
                },
            }),
    {
        let skip: u64 = match skip {
            Some(n) => n,
            None => 0,
        };
        let limit: i32 = match limit {
            Some(n) => n,
            None => 100,
        };
        Query {
            filter: None,
            options: FindOptions { skip: Some(skip), limit: Some(limit as i64), newest_first: false },
        }
    }

    /// What `list` gives after the store was asked for the documents of the
    /// query and for the number of documents in the collection: the number,
    /// held to the largest that fits, and the entities; or an error with the
    /// text of the store's, that of the query before that of the count.
    pub fn listed(&self, found: Result<Vec<M>, String>, count: Result<u64, String>) -> (r: Result<
        (i32, Vec<M>),
        RepositoryError,
    >)
        ensures
            match (found, count) {
                (Ok(models), Ok(n)) => r matches Ok((total, entities)) && total == total_count(
                    n as nat,
                ) && entities == models,
                (Ok(_), Err(text)) => r matches Err(e) && e.message@ == text@,
                (Err(text), _) => r matches Err(e) && e.message@ == text@,
            },
    {
        let models = match found {
            Ok(models) => models,
            Err(text) => {
                return Err(RepositoryError { message: text });
            },
        };
        let count: u64 = match count {
            Ok(n) => n,
            Err(text) => {
                return Err(RepositoryError { message: text });
            },
        };
        let total: i32 = if count > 0x7fff_ffff {
            0x7fff_ffff
        } else {
            count as i32
        };
        Ok((total, models))
    }

    /// What a query for many entities gives: the entities that the store
    /// handed out, none where there was nothing to ask the store, or an error
    /// with the text of the store's.
    pub fn answered(&self, outcome: Option<Result<Vec<M>, String>>) -> (r: Result<
        Vec<M>,
        RepositoryError,
    >)
        ensures
            match outcome {
                Some(Ok(models)) => r matches Ok(entities) && entities == models,
                Some(Err(text)) => r matches Err(e) && e.message@ == text@,
                None => r matches Ok(entities) && entities@.len() == 0,
            },
    {
        match outcome {
            Some(Ok(models)) => Ok(models),
            Some(Err(text)) => Err(RepositoryError { message: text }),
            None => Ok(Vec::new()),
        }
    }
}

impl MongoRepository<Contact> {
    /// The filter of `find_by_email`: the documents with exactly this email
    /// address.
    pub fn find_by_email_filter(&self, email: &str) -> (r: Filter)
        ensures
            r@ == FilterView::Email(email@),
    {
        Filter::Email(email.to_owned())
    }
}

impl MongoRepository<Channel> {
    /// The query of `find_by_contact_id`: the channels that hold the contact
    /// among their participants. A text that names no native identifier names
    /// no contact, and the store need not be asked.
    pub fn find_by_contact_id_query(&self, contact_id: &IdType) -> (r: Option<Query>)
        ensures
            match contact_id@.native() {
                Some(b) => r matches Some(q) && q@ == (QueryView {
                    filter: Some(FilterView::Participant(b)),
                    options: FindOptions { skip: None, limit: None, newest_first: false },
                }),
                None => r is None,
            },
    {
        let object_id = match contact_id.to_object_id() {
            Some(o) => o,
            None => {
                return None;
            },
        };
        Some(
            Query {
                filter: Some(Filter::Participant(object_id)),
                options: FindOptions { skip: None, limit: None, newest_first: false },
            },
        )
    }

    /// The filter of `get_by_contact_ids`: the channels whose participants are
    /// exactly the given contacts. Where one of the identifiers is a text that
    /// names no native identifier, no channel is found, and the store need not
    /// be asked.
    pub fn get_by_contact_ids_filter(&self, contact_ids: &Vec<IdType>) -> (r: Option<Filter>)
        ensures
            match natives(id_views(contact_ids@)) {
                Some(list) => r matches Some(f) && f@ == FilterView::Participants(list),
                None => r is None,
            },
    {
        let mut ids: Vec<ObjectId> = Vec::new();
        let mut i: usize = 0;
        while i < contact_ids.len()
            invariant
                i <= contact_ids.len(),
                ids.len() == i,
                forall|j: int| 0 <= j < i ==> (#[trigger] id_views(contact_ids@)[j]).native() == Some(
                    ids[j]@,
                ),
            decreases contact_ids.len() - i,
        {
            match contact_ids[i].to_object_id() {
                Some(o) => {
                    ids.push(o);
                },
                None => {
                    assert(id_views(contact_ids@)[i as int].native() is None);
                    return None;
                },
            }
            i += 1;
        }
        assert(views(ids@) =~= natives(id_views(contact_ids@)).unwrap());
        Some(Filter::Participants(ids))
    }
}

impl MongoRepository<Message> {
    /// The query of `get_by_channel_id`: the messages of the channel, the
    /// newest first, without the first `offset` of them and `limit` of them at
    /// most. A text that names no native identifier names no channel, and the
    /// store need not be asked.
    pub fn get_by_channel_id_query(&self, channel_id: &IdType, limit: i64, offset: u64) -> (r:
        Option<Query>)
        ensures
            match channel_id@.native() {
                Some(b) => r matches Some(q) && q@ == (QueryView {
                    filter: Some(FilterView::Channel(b)),
                    options: FindOptions {
                        skip: Some(offset),
                        limit: Some(limit),
                        newest_first: true,
                    },
                }),
                None => r is None,
            },
    {
        let object_id = match channel_id.to_object_id() {
            Some(o) => o,
            None => {
                return None;
            },
        };
        Some(
            Query {
                filter: Some(Filter::Channel(object_id)),
                options: FindOptions { skip: Some(offset), limit: Some(limit), newest_first: true },
            },
        )
    }
}

} // verus!
