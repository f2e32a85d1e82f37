use crate::adapters::lookup::{
    id_hits, index_of_id, is_first_hit, lemma_first_hit, lemma_first_hit_at, lookup, option_view,
    total_count, views, window,
};
use crate::adapters::object_id::{
    hex_id_bytes, hex_id_text, hex_text_reads_back, is_hex_id, ObjectId,
};
use vstd::prelude::*;
use vstd::std_specs::cmp::PartialEqSpecImpl;

verus! {

/// What an identifier is, apart from how it is stored: a text, or the twelve
/// bytes of a native identifier.
pub enum IdView {
    Text(Seq<char>),
    Native(Seq<u8>),
}

impl IdView {
    /// The identifier as it is written in messages: a text as it stands, a native
    /// identifier as 24 lower-case hexadecimal digits.
    pub open spec fn text(self) -> Seq<char> {
        match self {
            IdView::Text(s) => s,
            IdView::Native(b) => hex_id_text(b),
        }
    }

    /// The native identifier that this identifier names, where it names one: a
    /// native identifier itself, and a text that spells one.
    pub open spec fn native(self) -> Option<Seq<u8>> {
        match self {
            IdView::Text(s) => if is_hex_id(s) {
                Some(hex_id_bytes(s))
            } else {
                None
            },
            IdView::Native(b) => Some(b),
        }
    }
}

/// The text of a native identifier names that identifier.
pub proof fn native_text_names_itself(bytes: Seq<u8>)
    requires
        bytes.len() == 12,
    ensures
        IdView::Text(IdView::Native(bytes).text()).native() == Some(bytes),
{
    hex_text_reads_back(bytes);
}

/// The identifier of an entity: a text, or a native identifier of the document
/// store. Two identifiers are equal when they are of the same kind and hold the
/// same value.
#[derive(Debug)]
pub enum IdType {
    String(String),
    ObjectId(ObjectId),
}

impl View for IdType {
    type V = IdView;

    open spec fn view(&self) -> IdView {
        match self {
            IdType::String(s) => IdView::Text(s@),
            IdType::ObjectId(o) => IdView::Native(o@),
        }
    }
}

impl Clone for IdType {
    fn clone(&self) -> (r: IdType)
        ensures
            r@ == self@,
    {
        match self {
            IdType::String(s) => IdType::String(s.clone()),
            IdType::ObjectId(o) => IdType::ObjectId(*o),
        }
    }
}

impl PartialEq for IdType {
    fn eq(&self, other: &IdType) -> (r: bool) {
        match (self, other) {
            (IdType::String(a), IdType::String(b)) => *a == *b,
            (IdType::ObjectId(a), IdType::ObjectId(b)) => *a == *b,
            _ => false,
        }
    }
}

impl Eq for IdType {

}

impl PartialEqSpecImpl for IdType {
    open spec fn obeys_eq_spec() -> bool {
        true
    }

    open spec fn eq_spec(&self, other: &IdType) -> bool {
        self@ == other@
    }
}

impl IdType {
    /// The identifier as a text, for messages.
    pub fn to_string(&self) -> (r: String)
        ensures
            r@ == self@.text(),
    {
        match self {
            IdType::String(s) => s.clone(),
            IdType::ObjectId(o) => o.to_hex(),
        }
    }

    /// The native identifier that this identifier names, or nothing where a text
    /// does not spell one.
    pub fn to_object_id(&self) -> (r: Option<ObjectId>)
        ensures
            r is Some <==> self@.native() is Some,
            r matches Some(o) ==> Some(o@) == self@.native(),
    {
        match self {
            IdType::String(s) => ObjectId::parse_str(s.as_str()),
            IdType::ObjectId(o) => Some(*o),
        }
    }
}

/// What every stored type offers: its identifier, and a copy of itself.
pub trait Model: View + Clone + Sized {
    /// The identifier of an entity, read from its view.
    spec fn id_of(v: Self::V) -> IdView;

    /// A clone is the same entity.
    proof fn clone_keeps_view(a: &Self, b: &Self)
        requires
            cloned::<Self>(*a, *b),
        ensures
            a@ == b@,
    ;

    fn id(&self) -> (r: IdType)
        ensures
            r@ == Self::id_of(self@),
    ;
}

/// The page that a listing hands out where it is asked to pass over `skip`
/// entities and to hand out at most `limit`: from the start and at most 100
/// where it is not told.
pub open spec fn page<A>(entities: Seq<A>, skip: Option<u64>, limit: Option<i32>) -> Seq<A> {
    window(
        entities,
        match skip {
            Some(n) => n as nat,
            None => 0,
        },
        match limit {
            Some(n) => n as int,
            None => 100,
        },
    )
}

/// The view of what a call gave, where it gave a value.
pub open spec fn ok_view<T: View, E>(r: Result<T, E>) -> Option<T::V> {
    match r {
        Ok(t) => Some(t@),
        Err(_) => None,
    }
}

/// How adding `entity` ends, on entities `before`: with the entity as it is
/// stored, or with none where the store refused, and with the entities `after`.
/// The entity is stored as it was given and added at the end; a store that
/// refuses changes nothing.
pub open spec fn created<M: Model>(
    before: Seq<M::V>,
    entity: M::V,
    stored: Option<M::V>,
    after: Seq<M::V>,
) -> bool {
    match stored {
        Some(s) => s == entity && after == before.push(entity),
        None => after == before,
    }
}

/// How replacing by `entity` ends, on entities `before`: done or not, and with
/// the entities `after`. Where it is done, the entity stands in the place of
/// the first one that had its identifier; where none had it, it is not done;
/// and where it is not done, nothing changes.
pub open spec fn updated<M: Model>(
    before: Seq<M::V>,
    entity: M::V,
    done: bool,
    after: Seq<M::V>,
) -> bool {
    match index_of_id::<M>(before, M::id_of(entity)) {
        Some(i) => after == if done {
            before.update(i, entity)
        } else {
            before
        },
        None => !done && after == before,
    }
}

/// How removing by `id` ends, on entities `before`: done or not, and with the
/// entities `after`. Where it is done, the first entity that had the identifier
/// is gone; where none had it, it is not done; and where it is not done,
/// nothing changes.
pub open spec fn deleted<M: Model>(
    before: Seq<M::V>,
    id: IdView,
    done: bool,
    after: Seq<M::V>,
) -> bool {
    match index_of_id::<M>(before, id) {
        Some(i) => after == if done {
            before.remove(i)
        } else {
            before
        },
        None => !done && after == before,
    }
}

/// What a lookup under `key` finds among `entities`: the first entity that has
/// the identifier, and nothing where the store could not read the identifier.
pub open spec fn found<M: Model>(entities: Seq<M::V>, key: Option<IdView>) -> Option<M::V> {
    match key {
        Some(k) => lookup::<M>(entities, k),
        None => None,
    }
}

/// Whether a listing of `entities` reports `total` and hands out `handed`: the
/// number of entities, and all of them or, where the store paginates, the page
/// asked for.
pub open spec fn listed<A>(
    entities: Seq<A>,
    paginates: bool,
    skip: Option<u64>,
    limit: Option<i32>,
    total: int,
    handed: Seq<A>,
) -> bool {
    &&& total == total_count(entities.len())
    &&& handed == if paginates {
        page(entities, skip, limit)
    } else {
        entities
    }
}

/// A store of entities of one type, whatever keeps them.
///
/// The contract speaks of the entities held, in the order in which the store
/// keeps them. It binds a store that says of itself that `entities` is a
/// faithful account of what it holds; of a store that does not say so, as of one
/// kept by a service that this library cannot look into, it says nothing.
/// Stores differ in three more things, which each says of itself: whether an
/// operation can fail for a reason of the store's own, how a lookup reads the
/// identifier that it is handed, and whether a listing is cut to the page asked
/// for.
pub trait Repository<M: Model> {
    /// The entities held.
    open spec fn entities(&self) -> Seq<M::V> {
        Seq::empty()
    }

    /// Whether `entities` is a faithful account of what the store holds.
    open spec fn faithful() -> bool {
        false
    }

    /// Whether no operation of this store fails for a reason of its own.
    open spec fn unfailing() -> bool {
        false
    }

    /// The identifier under which a lookup looks for an entity when it is
    /// handed `id`, or nothing where the store cannot read `id` as one of its
    /// own.
    open spec fn key_for(id: IdView) -> Option<IdView> {
        Some(id)
    }

    /// Whether `list` cuts what it hands out to the page asked for.
    open spec fn paginates() -> bool {
        true
    }

    /// Adds the entity at the end. A store may refuse; then nothing changes.
    fn create(&mut self, entity: &M) -> (r: Result<M, RepositoryError>)
        ensures
            Self::faithful() ==> created::<M>(
                old(self).entities(),
                entity@,
                ok_view(r),
                final(self).entities(),
            ),
            Self::faithful() && Self::unfailing() ==> r is Ok,
    ;

    /// Puts the entity in the place of the first one that has its identifier.
    /// Fails where none has it, and then, as after any failure, nothing changes.
    fn update(&mut self, entity: &M) -> (r: Result<(), RepositoryError>)
        ensures
            Self::faithful() ==> updated::<M>(
                old(self).entities(),
                entity@,
                r is Ok,
                final(self).entities(),
            ),
            Self::faithful() && Self::unfailing() && index_of_id::<M>(
                old(self).entities(),
                M::id_of(entity@),
            ) is Some ==> r is Ok,
    ;

    /// Removes the first entity that has the identifier. Fails where none has
    /// it, and then, as after any failure, nothing changes.
    fn delete(&mut self, id: &IdType) -> (r: Result<(), RepositoryError>)
        ensures
            Self::faithful() ==> deleted::<M>(
                old(self).entities(),
                id@,
                r is Ok,
                final(self).entities(),
            ),
            Self::faithful() && Self::unfailing() && index_of_id::<M>(old(self).entities(), id@)
                is Some ==> r is Ok,
    ;

    /// The first entity held under the identifier, or nothing.
    fn get(&self, id: &IdType) -> (r: Option<M>)
        ensures
            Self::faithful() ==> option_view(r) == found::<M>(self.entities(), Self::key_for(id@)),
    ;

    /// The number of entities held, and the entities: all of them, or the page
    /// asked for where the store paginates.
    fn list(&self, skip: Option<u64>, limit: Option<i32>) -> (r: Result<
        (i32, Vec<M>),
        RepositoryError,
    >)
        ensures
            Self::faithful() && Self::unfailing() ==> r is Ok,
            Self::faithful() ==> (r matches Ok((total, entities)) ==> listed(
                self.entities(),
                Self::paginates(),
                skip,
                limit,
                total as int,
                views(entities@),
            )),
    ;
}

/// An entity that was added is what is then found under its identifier. This
/// holds exactly where no entity was found under that identifier before, or that
/// very entity was.
pub proof fn created_is_found<M: Model>(before: Seq<M::V>, entity: M::V, after: Seq<M::V>)
    requires
        lookup::<M>(before, M::id_of(entity)) is None || lookup::<M>(before, M::id_of(entity))
            == Some(entity),
        created::<M>(before, entity, Some(entity), after),
    ensures
        found::<M>(after, Some(M::id_of(entity))) == Some(entity),
{
    let id = M::id_of(entity);
    lemma_first_hit(id_hits::<M>(before, id));
    assert forall|j: int| 0 <= j < before.len() implies id_hits::<M>(after, id)[j] == id_hits::<M>(
        before,
        id,
    )[j] by {
        assert(after[j] == before[j]);
    }
    match index_of_id::<M>(before, id) {
        Some(i) => {
            assert(is_first_hit(id_hits::<M>(after, id), i));
            lemma_first_hit_at(id_hits::<M>(after, id), i);
        },
        None => {
            assert(is_first_hit(id_hits::<M>(after, id), before.len() as int));
            lemma_first_hit_at(id_hits::<M>(after, id), before.len() as int);
        },
    }
}

/// An entity that was added and then removed by its identifier is gone: the
/// entities are those from before, under that identifier nothing is found, and
/// to remove by it once more is to fail and to change nothing. This holds
/// exactly where no entity had that identifier before.
pub proof fn created_then_deleted_is_gone<M: Model>(
    before: Seq<M::V>,
    entity: M::V,
    with: Seq<M::V>,
    without: Seq<M::V>,
    again_done: bool,
    after: Seq<M::V>,
)
    requires
        index_of_id::<M>(before, M::id_of(entity)) is None,
        created::<M>(before, entity, Some(entity), with),
        deleted::<M>(with, M::id_of(entity), true, without),
        deleted::<M>(without, M::id_of(entity), again_done, after),
    ensures
        without == before,
        found::<M>(without, Some(M::id_of(entity))) is None,
        !again_done,
        after == without,
{
    let id = M::id_of(entity);
    lemma_first_hit(id_hits::<M>(before, id));
    assert forall|j: int| 0 <= j < before.len() implies id_hits::<M>(with, id)[j] == id_hits::<M>(
        before,
        id,
    )[j] by {
        assert(with[j] == before[j]);
    }
    assert(is_first_hit(id_hits::<M>(with, id), before.len() as int));
    lemma_first_hit_at(id_hits::<M>(with, id), before.len() as int);
    assert(with.remove(before.len() as int) =~= before);
}

/// To replace by an entity whose identifier no entity has is to fail and to
/// change nothing.
pub proof fn update_of_missing_changes_nothing<M: Model>(
    before: Seq<M::V>,
    entity: M::V,
    done: bool,
    after: Seq<M::V>,
)
    requires
        index_of_id::<M>(before, M::id_of(entity)) is None,
        updated::<M>(before, entity, done, after),
    ensures
        !done,
        after == before,
{
}

/// A listing of a store that paginates reports every entity and hands out as
/// many as are asked for, or as are left behind those passed over: of `n`
/// entities, the lesser of `limit` and `n - skip`. This holds where the number
/// of entities fits the report, no more are passed over than there are, and
/// `limit` is positive: zero stands for no limit.
pub proof fn page_length<A>(entities: Seq<A>, skip: u64, limit: i32, total: int, handed: Seq<A>)
    requires
        entities.len() <= i32::MAX,
        skip <= entities.len(),
        limit > 0,
        listed(entities, true, Some(skip), Some(limit), total, handed),
    ensures
        total == entities.len(),
        handed.len() == if limit <= entities.len() - skip {
            limit as int
        } else {
            entities.len() - skip
        },
{
}

/// A listing of a store that does not paginate reports every entity and hands
/// all of them out, whatever page is asked for.
pub proof fn unpaged_length<A>(
    entities: Seq<A>,
    skip: Option<u64>,
    limit: Option<i32>,
    total: int,
    handed: Seq<A>,
)
    requires
        entities.len() <= i32::MAX,
        listed(entities, false, skip, limit, total, handed),
    ensures
        total == entities.len(),
        handed.len() == entities.len(),
{
}

/// The message of the error for a replacement or a removal that found no
/// entity with the identifier.
pub open spec fn not_found_message() -> Seq<char> {
    "Entity not found"@
}

/// The error of a repository operation: a message.
#[derive(Debug)]
pub struct RepositoryError {
    pub message: String,
}

impl RepositoryError {
    /// The message.
    pub fn to_string(&self) -> (r: String)
        ensures
            r@ == self.message@,
    {
        self.message.clone()
    }
}

} // verus!
