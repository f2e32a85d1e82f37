use crate::adapters::base::{
    not_found_message, IdType, IdView, Model, Repository, RepositoryError,
};
use crate::adapters::channel_repository::{
    channels_of, keys_for, participant_hits, same_participants, ChannelRepository,
};
use crate::adapters::contact_repository::{email_hits, ContactRepository};
use crate::adapters::lookup::{
    id_hits, index_of_id, lemma_first_hit, lemma_first_hit_at, views, window,
};
use crate::adapters::message_repository::{
    lemma_newest_first, lemma_put_by_time_at, messages_in, newest_first, put_by_time,
    MessageRepository,
};
use crate::models::channel::id_views;
use crate::models::{Channel, ChannelView, Contact, Message, MessageView};
use vstd::prelude::*;

verus! {

/// A store that keeps its entities in a list, in the order in which they were
/// added.
pub struct InMemoryRepository<M> {
    pub entities: Vec<M>,
}

impl<M: Model> InMemoryRepository<M> {
    /// The index of the first entity held under the identifier.
    fn position(&self, id: &IdType) -> (r: Option<usize>)
        ensures
            match r {
                Some(i) => index_of_id::<M>(views(self.entities@), id@) == Some(i as int),
                None => index_of_id::<M>(views(self.entities@), id@) is None,
            },
    {
        let ghost hits = id_hits::<M>(views(self.entities@), id@);
        let mut i: usize = 0;
        while i < self.entities.len()
            invariant
                i <= self.entities.len(),
                hits == id_hits::<M>(views(self.entities@), id@),
                forall|j: int| 0 <= j < i ==> !hits[j],
            decreases self.entities.len() - i,
        {
            let entity_id = self.entities[i].id();
            if entity_id == *id {
                proof {
                    lemma_first_hit_at(hits, i as int);
                }
                return Some(i);
            }
            i += 1;
        }
        proof {
            lemma_first_hit(hits);
        }
        None
    }

    /// A copy of every entity held, in order.
    fn all(&self) -> (r: Vec<M>)
        ensures
            views(r@) == views(self.entities@),
    {
        let mut out: Vec<M> = Vec::new();
        let mut i: usize = 0;
        while i < self.entities.len()
            invariant
                i <= self.entities.len(),
                out.len() == i,
                forall|j: int| 0 <= j < i ==> out[j]@ == self.entities[j]@,
            decreases self.entities.len() - i,
        {
            let copy = self.entities[i].clone();
            proof {
                M::clone_keeps_view(&self.entities[i as int], &copy);
            }
            out.push(copy);
            i += 1;
        }
        assert(views(out@) =~= views(self.entities@));
        out
    }
}

impl<M: Model> Repository<M> for InMemoryRepository<M> {
    open spec fn entities(&self) -> Seq<M::V> {
        views(self.entities@)
    }

    open spec fn faithful() -> bool {
        true
    }

    open spec fn unfailing() -> bool {
        true
    }

    open spec fn key_for(id: IdView) -> Option<IdView> {
        Some(id)
    }

    open spec fn paginates() -> bool {
        false
    }

    fn create(&mut self, entity: &M) -> (r: Result<M, RepositoryError>) {
        let kept = entity.clone();
        let stored = entity.clone();
        proof {
            M::clone_keeps_view(entity, &kept);
            M::clone_keeps_view(entity, &stored);
        }
        self.entities.push(kept);
        assert(views(self.entities@) =~= views(old(self).entities@).push(entity@));
        Ok(stored)
    }

    fn update(&mut self, entity: &M) -> (r: Result<(), RepositoryError>)
        ensures
            r matches Err(e) ==> e.message@ == not_found_message(),
    {
        let id = entity.id();
        match self.position(&id) {
            None => Err(RepositoryError { message: "Entity not found".to_owned() }),
            Some(index) => {
                let kept = entity.clone();
                proof {
                    M::clone_keeps_view(entity, &kept);
                }
                self.entities.set(index, kept);
                assert(views(self.entities@) =~= views(old(self).entities@).update(
                    index as int,
                    entity@,
                ));
                Ok(())
            },
        }
    }

    fn delete(&mut self, id: &IdType) -> (r: Result<(), RepositoryError>)
        ensures
            r matches Err(e) ==> e.message@ == not_found_message(),
    {
        match self.position(id) {
            None => Err(RepositoryError { message: "Entity not found".to_owned() }),
            Some(index) => {
                self.entities.remove(index);
                assert(views(self.entities@) =~= views(old(self).entities@).remove(index as int));
                Ok(())
            },
        }
    }

    fn get(&self, id: &IdType) -> (r: Option<M>) {
        match self.position(id) {
            None => None,
            Some(index) => {
                let found = self.entities[index].clone();
                proof {
                    M::clone_keeps_view(&self.entities[index as int], &found);
                }
                Some(found)
            },
        }
    }

    fn list(&self, skip: Option<u64>, limit: Option<i32>) -> (r: Result<
        (i32, Vec<M>),
        RepositoryError,
    >) {
        let len: usize = self.entities.len();
        let total: i32 = if len > 0x7fff_ffff {
            0x7fff_ffff
        } else {
            len as i32
        };
        Ok((total, self.all()))
    }
}

impl ContactRepository for InMemoryRepository<Contact> {
    fn find_by_email(&self, email: &str) -> (r: Option<Contact>) {
        let wanted = email.to_owned();
        let ghost hits = email_hits(views(self.entities@), email@);
        let mut i: usize = 0;
        while i < self.entities.len()
            invariant
                i <= self.entities.len(),
                wanted@ == email@,
                hits == email_hits(views(self.entities@), email@),
                forall|j: int| 0 <= j < i ==> !hits[j],
            decreases self.entities.len() - i,
        {
            if self.entities[i].email == wanted {
                proof {
                    lemma_first_hit_at(hits, i as int);
                }
                return Some(self.entities[i].clone());
            }
            i += 1;
        }
        proof {
            lemma_first_hit(hits);
        }
        None
    }
}

/// Whether `id` is among `ids`.
fn holds_id(ids: &Vec<IdType>, id: &IdType) -> (r: bool)
    ensures
        r == id_views(ids@).contains(id@),
{
    let mut i: usize = 0;
    while i < ids.len()
        invariant
            i <= ids.len(),
            forall|j: int| 0 <= j < i ==> id_views(ids@)[j] != id@,
        decreases ids.len() - i,
    {
        if ids[i] == *id {
            assert(id_views(ids@)[i as int] == id@);
            return true;
        }
        i += 1;
    }
    false
}

/// Whether every identifier in `of` is among `ids`.
fn holds_all(ids: &Vec<IdType>, of: &Vec<IdType>) -> (r: bool)
    ensures
        r == id_views(of@).to_set().subset_of(id_views(ids@).to_set()),
{
    let mut i: usize = 0;
    while i < of.len()
        invariant
            i <= of.len(),
            forall|j: int| 0 <= j < i ==> id_views(ids@).contains(#[trigger] id_views(of@)[j]),
        decreases of.len() - i,
    {
        if !holds_id(ids, &of[i]) {
            assert(id_views(of@).contains(id_views(of@)[i as int]));
            assert(id_views(of@).to_set().contains(of[i as int]@));
            return false;
        }
        i += 1;
    }
    assert forall|x: IdView| id_views(of@).to_set().contains(x) implies id_views(
        ids@,
    ).to_set().contains(x) by {
        let j = choose|j: int| 0 <= j < id_views(of@).len() && id_views(of@)[j] == x;
        assert(id_views(ids@).contains(id_views(of@)[j]));
    }
    true
}

/// Whether the two lists name the same contacts.
fn same_ids(a: &Vec<IdType>, b: &Vec<IdType>) -> (r: bool)
    ensures
        r == same_participants(id_views(a@), id_views(b@)),
{
    let r = holds_all(a, b) && holds_all(b, a);
    proof {
        if r {
            assert(id_views(a@).to_set() =~= id_views(b@).to_set());
        }
    }
    r
}

impl ChannelRepository for InMemoryRepository<Channel> {
    fn find_by_contact_id(&self, contact_id: &IdType) -> (r: Result<Vec<Channel>, RepositoryError>) {
        let mut channels: Vec<Channel> = Vec::new();
        let mut i: usize = 0;
        proof {
            reveal(Seq::filter);
        }
        assert(views(self.entities@).take(0) =~= Seq::<ChannelView>::empty());
        while i < self.entities.len()
            invariant
                i <= self.entities.len(),
                views(channels@) == channels_of(views(self.entities@).take(i as int), contact_id@),
            decreases self.entities.len() - i,
        {
            let ghost before = views(self.entities@).take(i as int);
            let ghost upto = views(self.entities@).take(i + 1);
            proof {
                reveal(Seq::filter);
                assert(upto.drop_last() =~= before);
                assert(upto.last() == self.entities[i as int]@);
            }
            if holds_id(&self.entities[i].contact_ids, contact_id) {
                let ghost was = views(channels@);
                channels.push(self.entities[i].clone());
                assert(views(channels@) =~= was.push(self.entities[i as int]@));
            }
            i += 1;
        }
        assert(views(self.entities@).take(i as int) =~= views(self.entities@));
        Ok(channels)
    }

    fn get_by_contact_ids(&self, contact_ids: &Vec<IdType>) -> (r: Option<Channel>) {
        let ghost hits = participant_hits(views(self.entities@), id_views(contact_ids@));
        proof {
            let ids = id_views(contact_ids@);
            assert(keys_for::<Self>(ids) matches Some(keys) && keys =~= ids);
        }
        let mut i: usize = 0;
        while i < self.entities.len()
            invariant
                i <= self.entities.len(),
                keys_for::<Self>(id_views(contact_ids@)) == Some(id_views(contact_ids@)),
                hits == participant_hits(views(self.entities@), id_views(contact_ids@)),
                forall|j: int| 0 <= j < i ==> !hits[j],
            decreases self.entities.len() - i,
        {
            if same_ids(&self.entities[i].contact_ids, contact_ids) {
                proof {
                    lemma_first_hit_at(hits, i as int);
                }
                return Some(self.entities[i].clone());
            }
            i += 1;
        }
        proof {
            lemma_first_hit(hits);
        }
        None
    }
}

/// Puts the message in behind every message that is at least as new.
fn put_in(sorted: &mut Vec<Message>, m: Message)
    ensures
        views(final(sorted)@) == put_by_time(views(old(sorted)@), m@),
{
    let mut p: usize = sorted.len();
    while p > 0 && sorted[p - 1].created_at < m.created_at
        invariant
            p <= sorted.len(),
            forall|i: int| p <= i < sorted.len() ==> sorted[i].created_at < m.created_at,
        decreases p,
    {
        p -= 1;
    }
    proof {
        lemma_put_by_time_at(views(sorted@), m@, p as int);
    }
    let ghost before = views(sorted@);
    let ghost put = m@;
    sorted.insert(p, m);
    assert(views(sorted@) =~= before.insert(p as int, put));
}

/// A copy of the part of `items` that lies `offset` items from the start and
/// holds `limit` items at most.
fn cut(items: &Vec<Message>, offset: u64, limit: i64) -> (r: Vec<Message>)
    ensures
        views(r@) == window(views(items@), offset as nat, limit as int),
{
    let len: usize = items.len();
    let start: usize = if offset >= len as u64 {
        len
    } else {
        offset as usize
    };
    let rest: usize = len - start;
    let end: usize = if limit == 0 {
        len
    } else {
        let most: u64 = if limit == i64::MIN {
            0x8000_0000_0000_0000
        } else if limit < 0 {
            (-limit) as u64
        } else {
            limit as u64
        };
        if most >= rest as u64 {
            len
        } else {
            start + most as usize
        }
    };
    let mut out: Vec<Message> = Vec::new();
    let mut i: usize = start;
    while i < end
        invariant
            start <= i <= end <= items.len(),
            out.len() == i - start,
            forall|j: int| 0 <= j < out.len() ==> out[j]@ == items[start + j]@,
        decreases end - i,
    {
        out.push(items[i].clone());
        i += 1;
    }
    assert(views(out@) =~= window(views(items@), offset as nat, limit as int));
    out
}

impl MessageRepository for InMemoryRepository<Message> {
    fn get_by_channel_id(&self, channel_id: &IdType, limit: i64, offset: u64) -> (r: Result<
        Vec<Message>,
        RepositoryError,
    >)
        ensures
            r matches Ok(messages) && views(messages@) == window(
                newest_first(messages_in(self.entities(), channel_id@)),
                offset as nat,
                limit as int,
            ),
    {
        let mut found: Vec<Message> = Vec::new();
        let mut i: usize = 0;
        proof {
            reveal(Seq::filter);
        }
        assert(views(self.entities@).take(0) =~= Seq::<MessageView>::empty());
        while i < self.entities.len()
            invariant
                i <= self.entities.len(),
                views(found@) == newest_first(
                    messages_in(views(self.entities@).take(i as int), channel_id@),
                ),
            decreases self.entities.len() - i,
        {
            let ghost before = views(self.entities@).take(i as int);
            let ghost upto = views(self.entities@).take(i + 1);
            proof {
                reveal(Seq::filter);
                assert(upto.drop_last() =~= before);
                assert(upto.last() == self.entities[i as int]@);
            }
            if self.entities[i].channel_id == *channel_id {
                proof {
                    let kept = messages_in(before, channel_id@);
                    assert(messages_in(upto, channel_id@) == kept.push(upto.last()));
                    assert(kept.push(upto.last()).drop_last() =~= kept);
                }
                put_in(&mut found, self.entities[i].clone());
            }
            i += 1;
        }
        assert(views(self.entities@).take(i as int) =~= views(self.entities@));
        let messages = cut(&found, offset, limit);
        proof {
            lemma_newest_first(messages_in(self.entities(), channel_id@));
        }
        Ok(messages)
    }
}

/// An empty store of messages.
pub fn mock_message_repo() -> (r: InMemoryRepository<Message>)
    ensures
        r.entities@.len() == 0,
{
    InMemoryRepository { entities: Vec::new() }
}

/// An empty store of channels.
pub fn mock_channel_repo() -> (r: InMemoryRepository<Channel>)
    ensures
        r.entities@.len() == 0,
{
    InMemoryRepository { entities: Vec::new() }
}

/// An empty store of entities of any one type.
pub fn mock_repo<M: Model>() -> (r: InMemoryRepository<M>)
    ensures
        r.entities@.len() == 0,
{
    InMemoryRepository { entities: Vec::new() }
}

/// An empty store of contacts.
pub fn mock_contact_repo() -> (r: InMemoryRepository<Contact>)
    ensures
        r.entities@.len() == 0,
{
    InMemoryRepository { entities: Vec::new() }
}

} // verus!
