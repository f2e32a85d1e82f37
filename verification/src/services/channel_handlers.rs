use crate::adapters::base::{IdType, IdView, Repository, RepositoryError};
use crate::adapters::channel_repository::{channels_of, ChannelRepository};
use crate::adapters::contact_repository::ContactRepository;
use crate::adapters::lookup::views;
use crate::commands;
use crate::models::channel::id_views;
use crate::models::{Channel, ChannelType, ChannelView};
use vstd::prelude::*;

verus! {

/// The error of an operation on channels: a message.
#[derive(Debug)]
pub struct ChannelError {
    pub message: String,
}

impl ChannelError {
    /// The message.
    pub fn to_string(&self) -> (r: String)
        ensures
            r@ == self.message@,
    {
        self.message.clone()
    }

    /// The error that carries the message of a store's error.
    pub fn from_repository(e: RepositoryError) -> (r: ChannelError)
        ensures
            r.message@ == e.message@,
    {
        ChannelError { message: e.message }
    }
}

/// The message of the error for a private channel that is not for two.
pub open spec fn private_channel_message() -> Seq<char> {
    "Private channels must have exactly 2 contacts"@
}

/// Whether a channel of this kind may have this many participants: a private
/// channel has exactly two, a group any number.
pub open spec fn is_valid_channel(channel_type: ChannelType, participants: nat) -> bool {
    channel_type == ChannelType::Private ==> participants == 2
}

/// How creating a channel ends, on channels `before`: with the channel or the
/// message of an error, and with the channels `after`. A private channel that
/// is not for two is refused; otherwise the new channel is added at the end,
/// unless the store fails.
pub open spec fn channel_created(
    before: Seq<ChannelView>,
    name: Seq<char>,
    channel_type: ChannelType,
    contact_ids: Seq<IdView>,
    outcome: Result<ChannelView, Seq<char>>,
    after: Seq<ChannelView>,
) -> bool {
    if !is_valid_channel(channel_type, contact_ids.len()) {
        outcome == Err::<ChannelView, Seq<char>>(private_channel_message()) && after == before
    } else {
        match outcome {
            Ok(c) => {
                &&& c.name == Some(name)
                &&& c.channel_type == channel_type
                &&& c.contact_ids == contact_ids
                &&& after == before.push(c)
            },
            Err(_) => after == before,
        }
    }
}

/// Whether every private channel among `channels` is for exactly two.
pub open spec fn all_valid(channels: Seq<ChannelView>) -> bool {
    forall|i: int|
        0 <= i < channels.len() ==> is_valid_channel(
            (#[trigger] channels[i]).channel_type,
            channels[i].contact_ids.len(),
        )
}

/// Creating a channel keeps every private channel a channel for two: where it
/// held of the channels before, it holds of the channels after, however the
/// call ended.
pub proof fn created_channel_is_valid(
    before: Seq<ChannelView>,
    name: Seq<char>,
    channel_type: ChannelType,
    contact_ids: Seq<IdView>,
    outcome: Result<ChannelView, Seq<char>>,
    after: Seq<ChannelView>,
)
    requires
        all_valid(before),
        channel_created(before, name, channel_type, contact_ids, outcome, after),
    ensures
        all_valid(after),
{
}

/// What a call gave, as views: the channel, or the message of the error.
pub open spec fn channel_outcome(r: Result<Channel, ChannelError>) -> Result<
    ChannelView,
    Seq<char>,
> {
    match r {
        Ok(c) => Ok(c@),
        Err(e) => Err(e.message@),
    }
}

/// The operations on channels, over any store of channels and any store of
/// contacts.
pub struct ChannelService<R: ChannelRepository, C: ContactRepository> {
    pub repository: R,
    pub contact_repository: C,
}

impl<R: ChannelRepository, C: ContactRepository> ChannelService<R, C> {
    /// The service over the given stores.
    pub fn new(repo: R, contact_repository: C) -> (r: Self)
        ensures
            r.repository == repo,
            r.contact_repository == contact_repository,
    {
        ChannelService { repository: repo, contact_repository }
    }

    /// Creates a channel, unless it is a private one that is not for two; that
    /// one is refused whatever the store.
    pub fn create_channel(&mut self, cmd: &commands::CreateChannel) -> (r: Result<
        Channel,
        ChannelError,
    >)
        ensures
            !is_valid_channel(cmd.channel_type, cmd.contact_ids@.len()) ==> (r matches Err(e)
                && e.message@ == private_channel_message()),
            R::faithful() ==> channel_created(
                old(self).repository.entities(),
                cmd.name@,
                cmd.channel_type,
                id_views(cmd.contact_ids@),
                channel_outcome(r),
                final(self).repository.entities(),
            ),
            R::faithful() && R::unfailing() && is_valid_channel(
                cmd.channel_type,
                cmd.contact_ids@.len(),
            ) ==> r is Ok,
            final(self).contact_repository == old(self).contact_repository,
    {
        match validate_channel(cmd) {
            Ok(_) => (),
            Err(e) => {
                return Err(e);
            },
        }
        let channel = Channel::new(cmd.name.as_str(), cmd.channel_type, &cmd.contact_ids);
        match self.repository.create(&channel) {
            Ok(c) => Ok(c),
            Err(e) => Err(ChannelError::from_repository(e)),
        }
    }

    /// The channels that the contact takes part in, as the store finds them.
    pub fn find_contact_channels(&mut self, contact_id: &IdType) -> (r: Result<
        Vec<Channel>,
        ChannelError,
    >)
        ensures
            R::faithful() && R::unfailing() ==> r is Ok,
            R::faithful() ==> (r matches Ok(channels) ==> views(channels@) == match R::key_for(
                contact_id@,
            ) {
                Some(key) => channels_of(old(self).repository.entities(), key),
                None => Seq::empty(),
            }),
            final(self).repository == old(self).repository,
            final(self).contact_repository == old(self).contact_repository,
    {
        match self.repository.find_by_contact_id(contact_id) {
            Ok(c) => Ok(c),
            Err(e) => Err(ChannelError::from_repository(e)),
        }
    }
}

/// Accepts the command unless it asks for a private channel that is not for
/// two.
pub fn validate_channel(cmd: &commands::CreateChannel) -> (r: Result<(), ChannelError>)
    ensures
        r is Ok <==> is_valid_channel(cmd.channel_type, cmd.contact_ids@.len()),
        r matches Err(e) ==> e.message@ == private_channel_message(),
{
    match cmd.channel_type {
        ChannelType::Private => validate_private_channel(cmd),
        _ => Ok(()),
    }
}

/// Accepts the command where it names exactly two contacts.
pub fn validate_private_channel(cmd: &commands::CreateChannel) -> (r: Result<(), ChannelError>)
    ensures
        r is Ok <==> cmd.contact_ids@.len() == 2,
        r matches Err(e) ==> e.message@ == private_channel_message(),
{
    if cmd.contact_ids.len() != 2 {
        Err(ChannelError { message: "Private channels must have exactly 2 contacts".to_owned() })
    } else {
        Ok(())
    }
}

} // verus!
