//! Subscriptions: who is told about moments, and the toggle that adds or
//! removes a subscription.

use vstd::prelude::*;
use vstd::string::StringExecFns;
use crate::daytype::DayType;

verus! {

/// A destination and the moment that it was last told about.
///
/// The destination is the pair of `guild` and `channel`.
#[derive(Clone, Copy, Debug, PartialEq, Eq)]
pub struct Subscription {
    pub guild: u64,
    pub channel: u64,
    pub last_message: Option<DayType>,
}

/// A subscription as the store holds it, under the key that the store gave it.
#[derive(Clone, Copy, Debug, PartialEq, Eq)]
pub struct SubscriptionDoc {
    pub id: u128,
    pub data: Subscription,
}

impl SubscriptionDoc {
    /// The record that the store holds under `id`.
    pub fn new(id: u128, data: Subscription) -> (doc: Self)
        ensures
            doc == (SubscriptionDoc { id, data }),
    {
        SubscriptionDoc { id, data }
    }

    /// Whether the destination was told about `moment` already: the moment
    /// that it was last told about is this one.
    pub open spec fn served(self, moment: DayType) -> bool {
        self.data.last_message == Some(moment)
    }

    /// Whether the destination was told about `moment` already.
    pub fn is_served(&self, moment: DayType) -> (served: bool)
        ensures
            served == self.served(moment),
    {
        match self.data.last_message {
            Some(last) => last == moment,
            None => false,
        }
    }

    /// The record to write in place of this one once a message went out:
    /// the same destination, told last about `last_message`.
    pub fn update(&self, last_message: Option<DayType>) -> (record: Subscription)
        ensures
            record == (Subscription {
                guild: self.data.guild,
                channel: self.data.channel,
                last_message,
            }),
    {
        Subscription { guild: self.guild(), channel: self.channel(), last_message }
    }

    pub fn id(&self) -> (id: u128)
        ensures
            id == self.id,
    {
        self.id
    }

    pub fn last_message(&self) -> (last_message: Option<DayType>)
        ensures
            last_message == self.data.last_message,
    {
        self.data.last_message
    }

    pub fn channel(&self) -> (channel: u64)
        ensures
            channel == self.data.channel,
    {
        self.data.channel
    }

    pub fn guild(&self) -> (guild: u64)
        ensures
            guild == self.data.guild,
    {
        self.data.guild
    }
}

/// How a toggle ended.
#[derive(Debug, PartialEq, Eq)]
pub enum SubscriptionHandleResult {
    Added(Subscription),
    Removed(Subscription),
    Error(String),
}

/// How a toggle ended, with the error as the text that it is.
pub enum HandleResultView {
    Added(Subscription),
    Removed(Subscription),
    Error(Seq<char>),
}

impl View for SubscriptionHandleResult {
    type V = HandleResultView;

    open spec fn view(&self) -> HandleResultView {
        match self {
            SubscriptionHandleResult::Added(subscription) => HandleResultView::Added(*subscription),
            SubscriptionHandleResult::Removed(subscription) => HandleResultView::Removed(
                *subscription,
            ),
            SubscriptionHandleResult::Error(text) => HandleResultView::Error(text@),
        }
    }
}

/// What the store answered to a step of the toggle.
#[derive(Debug, PartialEq, Eq)]
pub enum StoreReply {
    /// There is no store to ask.
    Missing,
    /// The records of the destination were deleted, this many; or the store
    /// failed, with this message.
    Deleted(Result<usize, String>),
    /// The subscription was inserted; or the store failed, with this message.
    Inserted(Result<(), String>),
}

/// The next step of a toggle.
#[derive(Debug, PartialEq, Eq)]
pub enum ToggleStep {
    /// Delete every record of the subscription's destination, then hand the
    /// store's answer and the subscription to `Subscription::handle`.
    DeleteMatching(Subscription),
    /// Insert the subscription, then hand the store's answer and the
    /// subscription to `Subscription::handle`.
    Insert(Subscription),
    /// The toggle is over.
    Done(SubscriptionHandleResult),
}

/// The next step of a toggle, with an error as the text that it is.
pub enum ToggleStepView {
    DeleteMatching(Subscription),
    Insert(Subscription),
    Done(HandleResultView),
}

impl View for ToggleStep {
    type V = ToggleStepView;

    open spec fn view(&self) -> ToggleStepView {
        match self {
            ToggleStep::DeleteMatching(subscription) => ToggleStepView::DeleteMatching(
                *subscription,
            ),
            ToggleStep::Insert(subscription) => ToggleStepView::Insert(*subscription),
            ToggleStep::Done(result) => ToggleStepView::Done(result@),
        }
    }
}

/// The text of a name that may be unknown.
pub open spec fn name_or(name: Option<String>, unknown: &str) -> Seq<char> {
    match name {
        Some(known) => known@,
        None => unknown@,
    }
}

/// The sentence that confirms a toggle.
pub open spec fn confirmation(
    channel_name: Option<String>,
    guild_name: Option<String>,
    subscribed: bool,
) -> Seq<char> {
    let verb = if subscribed {
        "Subscribed to"@
    } else {
        "Unsubscribed from"@
    };
    verb + " "@ + name_or(channel_name, "this channel") + " in "@ + name_or(
        guild_name,
        "this guild",
    )
}

/// How the toggle of `subscription` goes on after the store's answer.
pub open spec fn toggle_step(subscription: Subscription, reply: StoreReply) -> ToggleStepView {
    match reply {
        StoreReply::Missing => ToggleStepView::Done(
            HandleResultView::Error("Database not in shared data"@),
        ),
        StoreReply::Deleted(Ok(count)) => if count != 0 {
            ToggleStepView::Done(HandleResultView::Removed(subscription))
        } else {
            ToggleStepView::Insert(
                Subscription {
                    guild: subscription.guild,
                    channel: subscription.channel,
                    last_message: None,
                },
            )
        },
        StoreReply::Deleted(Err(message)) => ToggleStepView::Done(
            HandleResultView::Error("Error removing: "@ + message@),
        ),
        StoreReply::Inserted(Ok(_)) => ToggleStepView::Done(HandleResultView::Added(subscription)),
        StoreReply::Inserted(Err(message)) => ToggleStepView::Done(
            HandleResultView::Error("Error inserting: "@ + message@),
        ),
    }
}

/// How a toggle begins for a destination whose guild may be unknown.
pub open spec fn toggle_start(guild_id: Option<u64>, channel_id: u64) -> ToggleStepView {
    match guild_id {
        Some(guild) => ToggleStepView::DeleteMatching(
            Subscription { guild, channel: channel_id, last_message: None },
        ),
        None => ToggleStepView::Done(HandleResultView::Error("No GuildId provided"@)),
    }
}

impl Subscription {
    /// Whether the subscription is one of the destination.
    pub fn is_of(&self, guild: u64, channel: u64) -> (of: bool)
        ensures
            of == is_for(*self, guild, channel),
    {
        self.guild == guild && self.channel == channel
    }

    /// A subscription of the destination that was told about nothing yet.
    pub fn new(guild: u64, channel: u64) -> (subscription: Self)
        ensures
            subscription == (Subscription { guild, channel, last_message: None }),
    {
        Subscription { guild, channel, last_message: None }
    }

    /// The sentence that confirms a toggle: what was done, and to which
    /// channel of which guild, each by its name where that is known.
    pub fn format_to_string(
        channel_name: Option<String>,
        guild_name: Option<String>,
        subscribed: bool,
    ) -> (text: String)
        ensures
            text@ == confirmation(channel_name, guild_name, subscribed),
    {
        let verb: &str = if subscribed {
            "Subscribed to"
        } else {
            "Unsubscribed from"
        };
        let mut text = String::from_str(verb);
        text.append(" ");
        match &channel_name {
            Some(known) => text.append(known.as_str()),
            None => text.append("this channel"),
        }
        text.append(" in ");
        match &guild_name {
            Some(known) => text.append(known.as_str()),
            None => text.append("this guild"),
        }
        text
    }

    /// Begins the toggle of a destination: with a guild, the records of the
    /// destination are to be deleted first; without one, the toggle fails.
    pub fn create_and_handle(guild_id: Option<u64>, channel_id: u64) -> (step: ToggleStep)
        ensures
            step@ == toggle_start(guild_id, channel_id),
    {
        match guild_id {
            Some(guild) => ToggleStep::DeleteMatching(Subscription::new(guild, channel_id)),
            None => ToggleStep::Done(
                SubscriptionHandleResult::Error(String::from_str("No GuildId provided")),
            ),
        }
    }

    /// Goes on with the toggle after the store's answer. Where records were
    /// deleted, the subscription was removed. Where none was, a fresh
    /// subscription of the same destination, told about nothing yet, is to
    /// be inserted, and once it is, it was added. A failure of the store
    /// ends the toggle with the store's message.
    pub fn handle(self, reply: StoreReply) -> (step: ToggleStep)
        ensures
            step@ == toggle_step(self, reply),
    {
        match reply {
            StoreReply::Missing => ToggleStep::Done(
                SubscriptionHandleResult::Error(String::from_str("Database not in shared data")),
            ),
            StoreReply::Deleted(Ok(count)) => {
                if count != 0 {
                    ToggleStep::Done(SubscriptionHandleResult::Removed(self))
                } else {
                    ToggleStep::Insert(Subscription::new(self.guild, self.channel))
                }
            },
            StoreReply::Deleted(Err(message)) => {
                let text = String::from_str("Error removing: ").concat(message.as_str());
                ToggleStep::Done(SubscriptionHandleResult::Error(text))
            },
            StoreReply::Inserted(Ok(_)) => ToggleStep::Done(SubscriptionHandleResult::Added(self)),
            StoreReply::Inserted(Err(message)) => {
                let text = String::from_str("Error inserting: ").concat(message.as_str());
                ToggleStep::Done(SubscriptionHandleResult::Error(text))
            },
        }
    }
}

/// Whether the subscription is one of the destination.
pub open spec fn is_for(subscription: Subscription, guild: u64, channel: u64) -> bool {
    subscription.guild == guild && subscription.channel == channel
}

/// How many of the records are of the destination.
pub open spec fn count_for(records: Seq<Subscription>, guild: u64, channel: u64) -> nat {
    records.filter(|record: Subscription| is_for(record, guild, channel)).len()
}

/// The records without those of the destination, in their order.
pub open spec fn without(records: Seq<Subscription>, guild: u64, channel: u64) -> Seq<
    Subscription,
> {
    records.filter(|record: Subscription| !is_for(record, guild, channel))
}

/// How a step that ends the toggle ended it.
pub open spec fn ending(step: ToggleStepView) -> HandleResultView {
    match step {
        ToggleStepView::Done(result) => result,
        _ => HandleResultView::Error(Seq::empty()),
    }
}

/// What a toggle of the destination makes of the records of a store that
/// does not fail, and how it ends: the store deletes the records of the
/// destination and says how many they were; where the toggle then asks for
/// an insert, the store puts the subscription behind the others.
pub open spec fn toggled(records: Seq<Subscription>, guild: u64, channel: u64) -> (
    Seq<Subscription>,
    HandleResultView,
) {
    let kept = without(records, guild, channel);
    let deleted = StoreReply::Deleted(Ok(count_for(records, guild, channel) as usize));
    match toggle_start(Some(guild), channel) {
        ToggleStepView::DeleteMatching(subscription) => match toggle_step(subscription, deleted) {
            ToggleStepView::Insert(fresh) => (
                kept.push(fresh),
                ending(toggle_step(fresh, StoreReply::Inserted(Ok(())))),
            ),
            step => (kept, ending(step)),
        },
        step => (records, ending(step)),
    }
}

/// Of records that hold none of the destination, none is taken out and
/// none is counted.
proof fn lemma_none_for(records: Seq<Subscription>, guild: u64, channel: u64)
    requires
        forall|i: int| 0 <= i < records.len() ==> !is_for(#[trigger] records[i], guild, channel),
    ensures
        count_for(records, guild, channel) == 0,
        without(records, guild, channel) == records,
    decreases records.len(),
{
    reveal(Seq::filter);
    if records.len() > 0 {
        lemma_none_for(records.drop_last(), guild, channel);
        assert(records.drop_last().push(records.last()) == records);
    }
}

/// What is left without the records of the destination holds none of them.
proof fn lemma_without_holds_none(records: Seq<Subscription>, guild: u64, channel: u64)
    ensures
        forall|i: int|
            0 <= i < without(records, guild, channel).len() ==> !is_for(
                #[trigger] without(records, guild, channel)[i],
                guild,
                channel,
            ),
{
    broadcast use vstd::seq_lib::group_filter_ensures;

}

/// A record of the destination that is put behind the others counts as one more.
proof fn lemma_count_after_push(
    records: Seq<Subscription>,
    fresh: Subscription,
    guild: u64,
    channel: u64,
)
    requires
        is_for(fresh, guild, channel),
    ensures
        count_for(records.push(fresh), guild, channel) == count_for(records, guild, channel) + 1,
        without(records.push(fresh), guild, channel) == without(records, guild, channel),
{
    reveal(Seq::filter);
    assert(records.push(fresh).drop_last() == records);
}

/// No record of the destination is counted if and only if each record is
/// of another destination.
pub proof fn lemma_count_is_zero(records: Seq<Subscription>, guild: u64, channel: u64)
    ensures
        count_for(records, guild, channel) == 0 <==> forall|i: int|
            0 <= i < records.len() ==> !is_for(#[trigger] records[i], guild, channel),
{
    let wanted = |record: Subscription| is_for(record, guild, channel);
    if forall|i: int| 0 <= i < records.len() ==> !is_for(#[trigger] records[i], guild, channel) {
        lemma_none_for(records, guild, channel);
    } else {
        let i = choose|i: int| 0 <= i < records.len() && is_for(#[trigger] records[i], guild, channel);
        broadcast use vstd::seq_lib::group_filter_ensures;

        assert(wanted(records[i]));
        assert(records.filter(wanted).contains(records[i]));
    }
}

/// A toggle turns the presence of a destination over: a store that held
/// records of it holds none afterwards, and the toggle ends as a removal;
/// a store that held none holds one afterwards, told about nothing yet, and
/// the toggle ends as an addition. Records of other destinations stay.
pub proof fn lemma_toggle_turns_over(records: Seq<Subscription>, guild: u64, channel: u64)
    requires
        count_for(records, guild, channel) <= usize::MAX,
    ensures
        ({
            let fresh = Subscription { guild, channel, last_message: None };
            let (after, result) = toggled(records, guild, channel);
            if count_for(records, guild, channel) == 0 {
                &&& result == HandleResultView::Added(fresh)
                &&& after == records.push(fresh)
                &&& count_for(after, guild, channel) == 1
            } else {
                &&& result == HandleResultView::Removed(fresh)
                &&& after == without(records, guild, channel)
                &&& count_for(after, guild, channel) == 0
            }
        }),
{
    let fresh = Subscription { guild, channel, last_message: None };
    lemma_without_holds_none(records, guild, channel);
    lemma_none_for(without(records, guild, channel), guild, channel);
    if count_for(records, guild, channel) == 0 {
        lemma_count_is_zero(records, guild, channel);
        lemma_none_for(records, guild, channel);
        lemma_count_after_push(records, fresh, guild, channel);
    }
}

/// The round trip of the toggle: toggled twice in a row, a destination
/// that the store held no record of is added, then removed, and the store
/// ends as it began, with no record of the destination.
pub proof fn lemma_toggle_round_trip(records: Seq<Subscription>, guild: u64, channel: u64)
    requires
        count_for(records, guild, channel) == 0,
    ensures
        ({
            let fresh = Subscription { guild, channel, last_message: None };
            let (once, first) = toggled(records, guild, channel);
            let (twice, second) = toggled(once, guild, channel);
            &&& first == HandleResultView::Added(fresh)
            &&& second == HandleResultView::Removed(fresh)
            &&& count_for(twice, guild, channel) == 0
            &&& twice == records
        }),
{
    let fresh = Subscription { guild, channel, last_message: None };
    lemma_toggle_turns_over(records, guild, channel);
    lemma_toggle_turns_over(records.push(fresh), guild, channel);
    lemma_count_is_zero(records, guild, channel);
    lemma_none_for(records, guild, channel);
    lemma_count_after_push(records, fresh, guild, channel);
}

} // verus!
