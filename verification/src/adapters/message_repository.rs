use crate::adapters::base::{IdType, IdView, Repository, RepositoryError};
use crate::adapters::lookup::{views, window};
use crate::models::{Message, MessageView};
use vstd::prelude::*;

verus! {

/// The messages among `messages` that belong to `channel`, in order.
pub open spec fn messages_in(messages: Seq<MessageView>, channel: IdView) -> Seq<MessageView> {
    messages.filter(|m: MessageView| m.channel_id == channel)
}

/// Whether `s` runs from the newest message to the oldest.
pub open spec fn is_newest_first(s: Seq<MessageView>) -> bool {
    forall|i: int, j: int| 0 <= i <= j < s.len() ==> s[i].created_at >= s[j].created_at
}

/// Whether `arranged` holds the messages of `of`, each as often as `of` does,
/// from the newest to the oldest.
pub open spec fn is_arranged_newest_first(arranged: Seq<MessageView>, of: Seq<MessageView>) -> bool {
    &&& arranged.to_multiset() == of.to_multiset()
    &&& is_newest_first(arranged)
}

/// `s` with `m` put in behind every message that is at least as new as `m`.
pub open spec fn put_by_time(s: Seq<MessageView>, m: MessageView) -> Seq<MessageView>
    decreases s.len(),
{
    if s.len() == 0 {
        seq![m]
    } else if s.last().created_at >= m.created_at {
        s.push(m)
    } else {
        put_by_time(s.drop_last(), m).push(s.last())
    }
}

/// The messages of `s` from the newest to the oldest. Messages of the same
/// second stay in the order that they have in `s`.
pub open spec fn newest_first(s: Seq<MessageView>) -> Seq<MessageView>
    decreases s.len(),
{
    if s.len() == 0 {
        s
    } else {
        put_by_time(newest_first(s.drop_last()), s.last())
    }
}

/// Putting a message in is inserting it at the place behind which every
/// message is older and before which the next one is not.
pub proof fn lemma_put_by_time_at(s: Seq<MessageView>, m: MessageView, p: int)
    requires
        0 <= p <= s.len(),
        forall|i: int| p <= i < s.len() ==> s[i].created_at < m.created_at,
        p > 0 ==> s[p - 1].created_at >= m.created_at,
    ensures
        put_by_time(s, m) == s.insert(p, m),
    decreases s.len(),
{
    if s.len() == 0 {
        assert(seq![m] =~= s.insert(p, m));
    } else if s.last().created_at >= m.created_at {
        assert(p == s.len());
        assert(s.push(m) =~= s.insert(p, m));
    } else {
        assert(p < s.len());
        lemma_put_by_time_at(s.drop_last(), m, p);
        assert(s.drop_last().insert(p, m).push(s.last()) =~= s.insert(p, m));
    }
}

/// Putting a message into messages that run from the newest to the oldest
/// keeps them so, and adds that message and no other.
pub proof fn lemma_put_by_time(s: Seq<MessageView>, m: MessageView)
    requires
        is_newest_first(s),
    ensures
        is_newest_first(put_by_time(s, m)),
        put_by_time(s, m).to_multiset() == s.to_multiset().insert(m),
    decreases s.len(),
{
    s.to_multiset_ensures();
    if s.len() == 0 {
        assert(seq![m] =~= s.push(m));
    } else if s.last().created_at >= m.created_at {
    } else {
        let front = s.drop_last();
        let put = put_by_time(front, m);
        assert(is_newest_first(front));
        lemma_put_by_time(front, m);
        assert(front.push(s.last()) =~= s);
        front.to_multiset_ensures();
        put.to_multiset_ensures();
        assert forall|i: int| 0 <= i < put.len() implies put[i].created_at
            >= s.last().created_at by {
            assert(put.contains(put[i]));
            assert(put.to_multiset().count(put[i]) > 0);
            if put[i] != m {
                assert(front.to_multiset().count(put[i]) > 0);
                assert(front.contains(put[i]));
                let k = choose|k: int| 0 <= k < front.len() && front[k] == put[i];
                assert(s[k] == put[i]);
            }
        }
        assert(put.push(s.last()).to_multiset() =~= s.to_multiset().insert(m));
    }
}

/// The messages from the newest to the oldest are the same messages, and do
/// run from the newest to the oldest.
pub proof fn lemma_newest_first(s: Seq<MessageView>)
    ensures
        is_arranged_newest_first(newest_first(s), s),
    decreases s.len(),
{
    if s.len() > 0 {
        lemma_newest_first(s.drop_last());
        lemma_put_by_time(newest_first(s.drop_last()), s.last());
        s.drop_last().to_multiset_ensures();
        assert(s.drop_last().push(s.last()) =~= s);
    }
}

/// A store of messages, which can also be asked for the messages of a channel.
pub trait MessageRepository: Repository<Message> {
    /// The messages of the channel from the newest to the oldest, without the
    /// first `offset` of them and `limit` of them at most; a `limit` of zero
    /// stands for no limit, and a negative one for its positive value. An
    /// identifier that the store cannot read names no channel.
    fn get_by_channel_id(&self, channel_id: &IdType, limit: i64, offset: u64) -> (r: Result<
        Vec<Message>,
        RepositoryError,
    >)
        ensures
            Self::faithful() && Self::unfailing() ==> r is Ok,
            Self::faithful() ==> (r matches Ok(messages) ==> match Self::key_for(channel_id@) {
                Some(key) => exists|arranged: Seq<MessageView>|
                    {
                        &&& #[trigger] is_arranged_newest_first(
                            arranged,
                            messages_in(self.entities(), key),
                        )
                        &&& views(messages@) == window(arranged, offset as nat, limit as int)
                    },
                None => messages@.len() == 0,
            }),
    ;
}

} // verus!
