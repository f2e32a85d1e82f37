use crate::adapters::base::{found, IdType, IdView, Model, Repository, RepositoryError};
use crate::adapters::channel_repository::{
    keys_for, lookup_participants, participant_hits, ChannelRepository,
};
use crate::adapters::contact_repository::ContactRepository;
use crate::adapters::lookup::{first_hit, id_hits, lemma_first_hit, views, window};
use crate::adapters::message_repository::{
    is_arranged_newest_first, messages_in, MessageRepository,
};
use crate::commands;
use crate::models::channel::id_views;
use crate::models::{Channel, ChannelType, ChannelView, Contact, ContactView, Message, MessageView};
use crate::services::channel_handlers::{all_valid, is_valid_channel};
use vstd::prelude::*;

verus! {

/// The error of an operation on messages: a message.
#[derive(Debug)]
pub struct MessageError {
    pub message: String,
}

impl MessageError {
    /// The message.
    pub fn to_string(&self) -> (r: String)
        ensures
            r@ == self.message@,
    {
        self.message.clone()
    }

    /// The error that carries the message of a store's error.
    pub fn from_repository(e: RepositoryError) -> (r: MessageError)
        ensures
            r.message@ == e.message@,
    {
        MessageError { message: e.message }
    }
}

/// The message of the error for an identifier under which no contact is found.
pub open spec fn no_contact_message(id: IdView) -> Seq<char> {
    "Contact with id "@ + id.text() + " not found"@
}

/// The message of the error for an identifier under which no channel is found.
pub open spec fn no_channel_message(id: IdView) -> Seq<char> {
    "Channel with id "@ + id.text() + " not found"@
}

/// The two participants of the private channel between two contacts.
pub open spec fn pair_of(from: ContactView, to: ContactView) -> Seq<IdView> {
    seq![IdView::Native(from.id), IdView::Native(to.id)]
}

/// Whether `after` is `before` with one channel added at the end: a private
/// channel with an empty name for the given participants.
pub open spec fn private_channel_added(
    before: Seq<ChannelView>,
    participants: Seq<IdView>,
    after: Seq<ChannelView>,
) -> bool {
    &&& after.len() == before.len() + 1
    &&& after.drop_last() == before
    &&& after.last().name == Some(Seq::<char>::empty())
    &&& after.last().channel_type == ChannelType::Private
    &&& after.last().contact_ids == participants
}

/// Whether `after` is `before` with one message added at the end: that of the
/// command, in the given channel.
pub open spec fn message_added(
    before: Seq<MessageView>,
    channel: IdView,
    cmd: commands::SendMessage,
    after: Seq<MessageView>,
) -> bool {
    &&& after.len() == before.len() + 1
    &&& after.drop_last() == before
    &&& after.last().channel_id == channel
    &&& after.last().from == cmd.from@
    &&& after.last().to == cmd.to@
    &&& after.last().content == cmd.content@
}

/// The operations on messages, over any stores of messages, channels and
/// contacts.
pub struct MessageService<R: MessageRepository, H: ChannelRepository, C: ContactRepository> {
    pub repository: R,
    pub channel_repository: H,
    pub contact_repository: C,
}

/// How sending a message ends: `service` in its state before, `after` in its
/// state after.
///
/// The sender and the receiver are looked up, in this order, and the channel
/// where the command names one; the first that is not found is the error, and
/// nothing changes. Where the command names no channel, the first channel whose
/// participants are the two contacts is taken, and where there is none, a
/// private channel for the two is added. The message is then added in that
/// channel. A store that fails leaves its entities as they are: where the
/// store of messages fails, a channel may have been added all the same.
pub open spec fn message_sent<R: MessageRepository, H: ChannelRepository, C: ContactRepository>(
    service: MessageService<R, H, C>,
    cmd: commands::SendMessage,
    outcome: Result<(), Seq<char>>,
    after: MessageService<R, H, C>,
) -> bool {
    let contacts = service.contact_repository.entities();
    let channels = service.channel_repository.entities();
    let messages = service.repository.entities();
    let unchanged = after.channel_repository.entities() == channels
        && after.repository.entities() == messages;
    let refused = |message: Seq<char>| outcome == Err::<(), Seq<char>>(message) && unchanged;
    &&& after.contact_repository == service.contact_repository
    &&& match found::<Contact>(contacts, C::key_for(cmd.from@)) {
        None => refused(no_contact_message(cmd.from@)),
        Some(from) => match found::<Contact>(contacts, C::key_for(cmd.to@)) {
            None => refused(no_contact_message(cmd.to@)),
            Some(to) => match cmd.channel_id {
                Some(id) => match found::<Channel>(channels, H::key_for(id@)) {
                    None => refused(no_channel_message(id@)),
                    Some(channel) => {
                        &&& after.channel_repository.entities() == channels
                        &&& match outcome {
                            Ok(_) => message_added(
                                messages,
                                IdView::Native(channel.id),
                                cmd,
                                after.repository.entities(),
                            ),
                            Err(_) => after.repository.entities() == messages,
                        }
                    },
                },
                None => {
                    let existing = match keys_for::<H>(pair_of(from, to)) {
                        Some(keys) => lookup_participants(channels, keys),
                        None => None,
                    };
                    match existing {
                        Some(channel) => {
                            &&& after.channel_repository.entities() == channels
                            &&& match outcome {
                                Ok(_) => message_added(
                                    messages,
                                    IdView::Native(channel.id),
                                    cmd,
                                    after.repository.entities(),
                                ),
                                Err(_) => after.repository.entities() == messages,
                            }
                        },
                        None => match outcome {
                            Ok(_) => {
                                &&& private_channel_added(
                                    channels,
                                    pair_of(from, to),
                                    after.channel_repository.entities(),
                                )
                                &&& message_added(
                                    messages,
                                    IdView::Native(after.channel_repository.entities().last().id),
                                    cmd,
                                    after.repository.entities(),
                                )
                            },
                            Err(_) => {
                                &&& after.repository.entities() == messages
                                &&& after.channel_repository.entities() == channels
                                    || private_channel_added(
                                    channels,
                                    pair_of(from, to),
                                    after.channel_repository.entities(),
                                )
                            },
                        },
                    }
                },
            },
        },
    }
}

/// Whether sending the message cannot fail but for a store: the sender, the
/// receiver and the channel, where one is named, are found.
pub open spec fn can_send<R: MessageRepository, H: ChannelRepository, C: ContactRepository>(
    service: MessageService<R, H, C>,
    cmd: commands::SendMessage,
) -> bool {
    &&& found::<Contact>(service.contact_repository.entities(), C::key_for(cmd.from@)) is Some
    &&& found::<Contact>(service.contact_repository.entities(), C::key_for(cmd.to@)) is Some
    &&& cmd.channel_id matches Some(id) ==> found::<Channel>(
        service.channel_repository.entities(),
        H::key_for(id@),
    ) is Some
}

/// Whether a channel among `channels` has the identifier `id`.
pub open spec fn has_channel(channels: Seq<ChannelView>, id: IdView) -> bool {
    exists|i: int| 0 <= i < channels.len() && IdView::Native((#[trigger] channels[i]).id) == id
}

/// A message that was sent belongs to a channel that there is: after a call
/// that succeeded, the last message names a channel among the channels.
pub proof fn sent_message_has_its_channel<
    R: MessageRepository,
    H: ChannelRepository,
    C: ContactRepository,
>(
    service: MessageService<R, H, C>,
    cmd: commands::SendMessage,
    after: MessageService<R, H, C>,
)
    requires
        message_sent(service, cmd, Ok(()), after),
    ensures
        after.repository.entities().len() == service.repository.entities().len() + 1,
        has_channel(
            after.channel_repository.entities(),
            after.repository.entities().last().channel_id,
        ),
{
    let contacts = service.contact_repository.entities();
    let channels = service.channel_repository.entities();
    let now = after.channel_repository.entities();
    let from = found::<Contact>(contacts, C::key_for(cmd.from@)).unwrap();
    let to = found::<Contact>(contacts, C::key_for(cmd.to@)).unwrap();
    match cmd.channel_id {
        Some(id) => {
            let key = H::key_for(id@).unwrap();
            lemma_first_hit(id_hits::<Channel>(channels, key));
            let i = first_hit(id_hits::<Channel>(channels, key)).unwrap();
            assert(IdView::Native(now[i].id) == after.repository.entities().last().channel_id);
        },
        None => {
            let existing = match keys_for::<H>(pair_of(from, to)) {
                Some(keys) => lookup_participants(channels, keys),
                None => None,
            };
            match existing {
                Some(channel) => {
                    let keys = keys_for::<H>(pair_of(from, to)).unwrap();
                    lemma_first_hit(participant_hits(channels, keys));
                    let i = first_hit(participant_hits(channels, keys)).unwrap();
                    assert(IdView::Native(now[i].id)
                        == after.repository.entities().last().channel_id);
                },
                None => {
                    let i = now.len() - 1;
                    assert(IdView::Native(now[i].id)
                        == after.repository.entities().last().channel_id);
                },
            }
        },
    }
}

/// A second message between two contacts goes into the channel of the first:
/// where a message was sent without naming a channel, to send it once more adds
/// no channel, and where that succeeds too, there are two messages more than
/// at the start. This holds of a store of channels that looks contacts up under
/// their native identifiers as they stand.
pub proof fn second_message_reuses_channel<
    R: MessageRepository,
    H: ChannelRepository,
    C: ContactRepository,
>(
    service: MessageService<R, H, C>,
    cmd: commands::SendMessage,
    between: MessageService<R, H, C>,
    outcome: Result<(), Seq<char>>,
    after: MessageService<R, H, C>,
)
    requires
        cmd.channel_id is None,
        forall|bytes: Seq<u8>| #[trigger]
            H::key_for(IdView::Native(bytes)) == Some(IdView::Native(bytes)),
        message_sent(service, cmd, Ok(()), between),
        message_sent(between, cmd, outcome, after),
    ensures
        after.channel_repository.entities() == between.channel_repository.entities(),
        outcome is Ok ==> after.repository.entities().len() == service.repository.entities().len()
            + 2,
{
    let contacts = service.contact_repository.entities();
    let from = found::<Contact>(contacts, C::key_for(cmd.from@)).unwrap();
    let to = found::<Contact>(contacts, C::key_for(cmd.to@)).unwrap();
    let pair = pair_of(from, to);
    assert(keys_for::<H>(pair) matches Some(keys) && keys =~= pair);
    let channels = service.channel_repository.entities();
    let now = between.channel_repository.entities();
    if lookup_participants(channels, pair) is None {
        let hits = participant_hits(now, pair);
        assert(now.last().contact_ids == pair);
        assert(hits[now.len() - 1]);
        lemma_first_hit(hits);
    }
}

/// Sending a message keeps every private channel a channel for two: where it
/// held of the channels before, it holds of the channels after, however the
/// call ended.
pub proof fn sent_message_keeps_channels_valid<
    R: MessageRepository,
    H: ChannelRepository,
    C: ContactRepository,
>(
    service: MessageService<R, H, C>,
    cmd: commands::SendMessage,
    outcome: Result<(), Seq<char>>,
    after: MessageService<R, H, C>,
)
    requires
        all_valid(service.channel_repository.entities()),
        message_sent(service, cmd, outcome, after),
    ensures
        all_valid(after.channel_repository.entities()),
{
    let channels = service.channel_repository.entities();
    let now = after.channel_repository.entities();
    if now != channels {
        assert(now.drop_last() == channels);
        assert forall|i: int| 0 <= i < now.len() implies is_valid_channel(
            (#[trigger] now[i]).channel_type,
            now[i].contact_ids.len(),
        ) by {
            if i < channels.len() {
                assert(now[i] == now.drop_last()[i]);
            }
        }
    }
}

/// What a call gave, as views: nothing, or the message of the error.
pub open spec fn sent_outcome(r: Result<(), MessageError>) -> Result<(), Seq<char>> {
    match r {
        Ok(_) => Ok(()),
        Err(e) => Err(e.message@),
    }
}

/// The contact that was found under the identifier, or the error that says
/// that there is none.
pub fn require_contact(found: Option<Contact>, id: &IdType) -> (r: Result<Contact, MessageError>)
    ensures
        match found {
            Some(c) => r matches Ok(contact) && contact == c,
            None => r matches Err(e) && e.message@ == no_contact_message(id@),
        },
{
    match found {
        None => Err(
            MessageError {
                message: String::from_str("Contact with id ").concat(
                    id.to_string().as_str(),
                ).concat(" not found"),
            },
        ),
        Some(c) => Ok(c),
    }
}

/// The channel that was found under the identifier, or the error that says
/// that there is none.
pub fn require_channel(found: Option<Channel>, id: &IdType) -> (r: Result<Channel, MessageError>)
    ensures
        match found {
            Some(c) => r matches Ok(channel) && channel == c,
            None => r matches Err(e) && e.message@ == no_channel_message(id@),
        },
{
    match found {
        None => Err(
            MessageError {
                message: String::from_str("Channel with id ").concat(
                    id.to_string().as_str(),
                ).concat(" not found"),
            },
        ),
        Some(c) => Ok(c),
    }
}

/// The participants of the private channel between two contacts: the
/// identifier of the sender, then that of the receiver.
pub fn private_pair(from: &Contact, to: &Contact) -> (r: Vec<IdType>)
    ensures
        id_views(r@) == pair_of(from@, to@),
{
    let mut pair: Vec<IdType> = Vec::new();
    pair.push(from.id());
    pair.push(to.id());
    assert(id_views(pair@) =~= pair_of(from@, to@));
    pair
}

impl<R: MessageRepository, H: ChannelRepository, C: ContactRepository> MessageService<R, H, C> {
    /// The service over the given stores.
    pub fn new(repo: R, channel_repository: H, contact_repository: C) -> (r: Self)
        ensures
            r.repository == repo,
            r.channel_repository == channel_repository,
            r.contact_repository == contact_repository,
    {
        MessageService { repository: repo, channel_repository, contact_repository }
    }

    /// Sends a message from one contact to another. The store of contacts is
    /// left as it is, whatever the stores.
    pub fn send_message(&mut self, cmd: &commands::SendMessage) -> (r: Result<(), MessageError>)
        ensures
            final(self).contact_repository == old(self).contact_repository,
            R::faithful() && H::faithful() && C::faithful() ==> message_sent(
                *old(self),
                *cmd,
                sent_outcome(r),
                *final(self),
            ),
            R::faithful() && H::faithful() && C::faithful() && R::unfailing() && H::unfailing()
                && can_send(*old(self), *cmd) ==> r is Ok,
    {
        let contact_from = match self.get_contact(&cmd.from) {
            Ok(c) => c,
            Err(e) => {
                return Err(e);
            },
        };
        let contact_to = match self.get_contact(&cmd.to) {
            Ok(c) => c,
            Err(e) => {
                return Err(e);
            },
        };
        let channel = match &cmd.channel_id {
            None => {
                let pair = private_pair(&contact_from, &contact_to);
                match self.create_private_channel(&pair) {
                    Ok(c) => c,
                    Err(e) => {
                        return Err(e);
                    },
                }
            },
            Some(c) => match self.get_channel(c) {
                Ok(c) => c,
                Err(e) => {
                    return Err(e);
                },
            },
        };
        let message = Message::new(&channel.id(), &cmd.from, &cmd.to, cmd.content.as_str());
        match self.repository.create(&message) {
            Ok(_) => {
                assert(R::faithful() ==> self.repository.entities().drop_last() =~= old(
                    self,
                ).repository.entities());
                Ok(())
            },
            Err(e) => Err(MessageError::from_repository(e)),
        }
    }

    /// The contact found under the identifier, or the error that says that
    /// there is none.
    fn get_contact(&self, id: &IdType) -> (r: Result<Contact, MessageError>)
        ensures
            C::faithful() ==> match found::<Contact>(
                self.contact_repository.entities(),
                C::key_for(id@),
            ) {
                Some(c) => r matches Ok(contact) && contact@ == c,
                None => r matches Err(e) && e.message@ == no_contact_message(id@),
            },
    {
        require_contact(self.contact_repository.get(id), id)
    }

    /// The channel found under the identifier, or the error that says that
    /// there is none.
    fn get_channel(&self, id: &IdType) -> (r: Result<Channel, MessageError>)
        ensures
            H::faithful() ==> match found::<Channel>(
                self.channel_repository.entities(),
                H::key_for(id@),
            ) {
                Some(c) => r matches Ok(channel) && channel@ == c,
                None => r matches Err(e) && e.message@ == no_channel_message(id@),
            },
    {
        require_channel(self.channel_repository.get(id), id)
    }

    /// The first channel whose participants are the given contacts, or, where
    /// there is none, a new private channel for them.
    fn create_private_channel(&mut self, contact_ids: &Vec<IdType>) -> (r: Result<
        Channel,
        MessageError,
    >)
        ensures
            final(self).repository == old(self).repository,
            final(self).contact_repository == old(self).contact_repository,
            H::faithful() ==> match (match keys_for::<H>(id_views(contact_ids@)) {
                Some(keys) => lookup_participants(old(self).channel_repository.entities(), keys),
                None => None,
            }) {
                Some(c) => {
                    &&& r matches Ok(channel) && channel@ == c
                    &&& final(self).channel_repository.entities() == old(
                        self,
                    ).channel_repository.entities()
                },
                None => match r {
                    Ok(channel) => {
                        &&& private_channel_added(
                            old(self).channel_repository.entities(),
                            id_views(contact_ids@),
                            final(self).channel_repository.entities(),
                        )
                        &&& final(self).channel_repository.entities().last() == channel@
                    },
                    Err(_) => {
                        &&& !H::unfailing()
                        &&& final(self).channel_repository.entities() == old(
                            self,
                        ).channel_repository.entities()
                    },
                },
            },
    {
        match self.channel_repository.get_by_contact_ids(contact_ids) {
            Some(c) => Ok(c),
            None => {
                let channel = Channel::new("", ChannelType::Private, contact_ids);
                proof {
                    reveal_strlit("");
                    assert(""@ =~= Seq::<char>::empty());
                }
                match self.channel_repository.create(&channel) {
                    Ok(c) => {
                        assert(H::faithful() ==> self.channel_repository.entities().drop_last()
                            =~= old(self).channel_repository.entities());
                        Ok(c)
                    },
                    Err(e) => Err(MessageError::from_repository(e)),
                }
            },
        }
    }

    /// The newest messages of the channel, 100 at most, from the newest to
    /// the oldest.
    pub fn get_messages(&mut self, channel_id: &IdType) -> (r: Result<Vec<Message>, MessageError>)
        ensures
            final(self).repository == old(self).repository,
            final(self).channel_repository == old(self).channel_repository,
            final(self).contact_repository == old(self).contact_repository,
            R::faithful() && R::unfailing() ==> r is Ok,
            R::faithful() ==> (r matches Ok(messages) ==> match R::key_for(channel_id@) {
                Some(key) => exists|arranged: Seq<MessageView>|
                    {
                        &&& #[trigger] is_arranged_newest_first(
                            arranged,
                            messages_in(old(self).repository.entities(), key),
                        )
                        &&& views(messages@) == window(arranged, 0, 100)
                    },
                None => messages@.len() == 0,
            }),
    {
        match self.repository.get_by_channel_id(channel_id, 100, 0) {
            Ok(m) => Ok(m),
            Err(e) => Err(MessageError::from_repository(e)),
        }
    }
}

} // verus!
