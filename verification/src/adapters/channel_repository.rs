use crate::adapters::base::{IdType, IdView, Repository, RepositoryError};
use crate::adapters::lookup::{first_hit, option_view, views};
use crate::models::channel::id_views;
use crate::models::{Channel, ChannelView};
use vstd::prelude::*;

verus! {

/// The channels among `channels` that `contact` takes part in, in order.
pub open spec fn channels_of(channels: Seq<ChannelView>, contact: IdView) -> Seq<ChannelView> {
    channels.filter(|c: ChannelView| c.contact_ids.contains(contact))
}

/// Whether two lists of participants name the same contacts, whatever the
/// order and however often each is named.
pub open spec fn same_participants(a: Seq<IdView>, b: Seq<IdView>) -> bool {
    a.to_set() == b.to_set()
}

/// For each channel, whether its participants are those in `contacts`.
pub open spec fn participant_hits(channels: Seq<ChannelView>, contacts: Seq<IdView>) -> Seq<
    bool,
> {
    Seq::new(channels.len(), |i: int| same_participants(channels[i].contact_ids, contacts))
}

/// The first channel whose participants are those in `contacts`.
pub open spec fn lookup_participants(channels: Seq<ChannelView>, contacts: Seq<IdView>) -> Option<
    ChannelView,
> {
    match first_hit(participant_hits(channels, contacts)) {
        Some(i) => Some(channels[i]),
        None => None,
    }
}

/// The identifiers under which a store looks for the contacts in `ids`, where
/// it can read every one of them.
pub open spec fn keys_for<R: Repository<Channel>>(ids: Seq<IdView>) -> Option<Seq<IdView>> {
    if forall|i: int| 0 <= i < ids.len() ==> R::key_for(#[trigger] ids[i]) is Some {
        Some(Seq::new(ids.len(), |i: int| R::key_for(ids[i]).unwrap()))
    } else {
        None
    }
}

/// A store of channels, which can also be asked for the channels of a contact
/// and for the channel of a set of contacts.
pub trait ChannelRepository: Repository<Channel> + Sized {
    /// The channels that the contact takes part in, in the store's order. An
    /// identifier that the store cannot read names no contact.
    fn find_by_contact_id(&self, contact_id: &IdType) -> (r: Result<Vec<Channel>, RepositoryError>)
        ensures
            Self::faithful() && Self::unfailing() ==> r is Ok,
            Self::faithful() ==> (r matches Ok(channels) ==> views(channels@) == match Self::key_for(
                contact_id@,
            ) {
                Some(key) => channels_of(self.entities(), key),
                None => Seq::empty(),
            }),
    ;

    /// The first channel held whose participants are exactly the given
    /// contacts, in any order, or nothing. Identifiers that the store cannot
    /// read name no channel.
    fn get_by_contact_ids(&self, contact_ids: &Vec<IdType>) -> (r: Option<Channel>)
        ensures
            Self::faithful() ==> option_view(r) == match keys_for::<Self>(id_views(contact_ids@)) {
                Some(keys) => lookup_participants(self.entities(), keys),
                None => None,
            },
    ;
}

} // verus!
