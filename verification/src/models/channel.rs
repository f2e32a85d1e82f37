use crate::adapters::{IdType, IdView, Model, ObjectId};
use crate::models::clock::utc_now;
use vstd::prelude::*;

verus! {

/// The two kinds of channel: one between exactly two contacts, and one for a
/// group.
#[derive(Clone, Copy, Debug, PartialEq, Eq, Structural)]
pub enum ChannelType {
    Private,
    Group,
}

/// The identifiers in `ids`, each as what it is.
pub open spec fn id_views(ids: Seq<IdType>) -> Seq<IdView> {
    ids.map_values(|id: IdType| id@)
}

/// What a channel is: its identifier, its name where it has one, its kind, the
/// identifiers of its participants, and the seconds since 1970 at which it was
/// created and last updated.
pub struct ChannelView {
    pub id: Seq<u8>,
    pub name: Option<Seq<char>>,
    pub channel_type: ChannelType,
    pub contact_ids: Seq<IdView>,
    pub created_at: int,
    pub updated_at: int,
}

/// A channel.
#[derive(Debug)]
pub struct Channel {
    pub id: ObjectId,
    pub name: Option<String>,
    pub channel_type: ChannelType,
    pub contact_ids: Vec<IdType>,
    pub created_at: i64,
    pub updated_at: i64,
}

impl View for Channel {
    type V = ChannelView;

    open spec fn view(&self) -> ChannelView {
        ChannelView {
            id: self.id@,
            name: match self.name {
                Some(n) => Some(n@),
                None => None,
            },
            channel_type: self.channel_type,
            contact_ids: id_views(self.contact_ids@),
            created_at: self.created_at as int,
            updated_at: self.updated_at as int,
        }
    }
}

/// A copy of a list of identifiers.
pub fn clone_ids(ids: &Vec<IdType>) -> (r: Vec<IdType>)
    ensures
        id_views(r@) == id_views(ids@),
{
    let mut out: Vec<IdType> = Vec::new();
    let mut i: usize = 0;
    while i < ids.len()
        invariant
            i <= ids.len(),
            out.len() == i,
            forall|j: int| 0 <= j < i ==> out[j]@ == ids[j]@,
        decreases ids.len() - i,
    {
        out.push(ids[i].clone());
        i += 1;
    }
    assert(id_views(out@) =~= id_views(ids@));
    out
}

impl Clone for Channel {
    fn clone(&self) -> (r: Channel)
        ensures
            r@ == self@,
    {
        Channel {
            id: self.id,
            name: match &self.name {
                Some(n) => Some(n.clone()),
                None => None,
            },
            channel_type: self.channel_type,
            contact_ids: clone_ids(&self.contact_ids),
            created_at: self.created_at,
            updated_at: self.updated_at,
        }
    }
}

impl Model for Channel {
    open spec fn id_of(v: ChannelView) -> IdView {
        IdView::Native(v.id)
    }

    proof fn clone_keeps_view(a: &Channel, b: &Channel) {
    }

    fn id(&self) -> (r: IdType) {
        IdType::ObjectId(self.id)
    }
}

impl Channel {
    /// The channel with the given identifier, name, kind, participants and
    /// times.
    pub fn from_parts(
        id: ObjectId,
        name: &str,
        channel_type: ChannelType,
        contact_ids: &Vec<IdType>,
        created_at: i64,
        updated_at: i64,
    ) -> (r: Channel)
        ensures
            r@ == (ChannelView {
                id: id@,
                name: Some(name@),
                channel_type,
                contact_ids: id_views(contact_ids@),
                created_at: created_at as int,
                updated_at: updated_at as int,
            }),
    {
        Channel {
            id,
            name: Some(name.to_owned()),
            channel_type,
            contact_ids: clone_ids(contact_ids),
            created_at,
            updated_at,
        }
    }

    /// A new channel with the given name, kind and participants. Its identifier
    /// is fresh, and it is created and updated now.
    pub fn new(name: &str, channel_type: ChannelType, contact_ids: &Vec<IdType>) -> (r: Channel)
        ensures
            r@.name == Some(name@),
            r@.channel_type == channel_type,
            r@.contact_ids == id_views(contact_ids@),
    {
        let id = ObjectId::new();
        let created_at: i64 = utc_now();
        let updated_at: i64 = utc_now();
        Channel::from_parts(id, name, channel_type, contact_ids, created_at, updated_at)
    }
}

} // verus!
