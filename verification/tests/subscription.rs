use moment_dispatch::daytype::{DayType, Time};
use moment_dispatch::subscription::{
    StoreReply, Subscription, SubscriptionDoc, SubscriptionHandleResult, ToggleStep,
};

/// A store that holds its records in memory and never fails.
struct Records {
    held: Vec<Subscription>,
}

impl Records {
    fn delete_matching(&mut self, guild: u64, channel: u64) -> usize {
        let before = self.held.len();
        self.held.retain(|record| !record.is_of(guild, channel));
        before - self.held.len()
    }

    fn count(&self, guild: u64, channel: u64) -> usize {
        self.held.iter().filter(|record| record.is_of(guild, channel)).count()
    }

    fn toggle(&mut self, guild: Option<u64>, channel: u64) -> SubscriptionHandleResult {
        let mut step = Subscription::create_and_handle(guild, channel);
        loop {
            step = match step {
                ToggleStep::DeleteMatching(subscription) => {
                    let count = self.delete_matching(subscription.guild, subscription.channel);
                    subscription.handle(StoreReply::Deleted(Ok(count)))
                }
                ToggleStep::Insert(subscription) => {
                    self.held.push(subscription);
                    subscription.handle(StoreReply::Inserted(Ok(())))
                }
                ToggleStep::Done(result) => return result,
            };
        }
    }
}

#[test]
fn a_subscription_is_of_its_guild_and_channel() {
    let told = Subscription {
        guild: 11,
        channel: 22,
        last_message: Some(DayType::Friday(Time::AfterWork)),
    };
    for subscription in [Subscription::new(11, 22), told] {
        assert!(subscription.is_of(11, 22));
        assert!(!subscription.is_of(11, 23));
        assert!(!subscription.is_of(12, 22));
        assert!(!subscription.is_of(22, 11));
    }
}

#[test]
fn a_new_subscription_was_told_about_nothing() {
    let subscription = Subscription::new(11, 22);
    assert_eq!(subscription, Subscription { guild: 11, channel: 22, last_message: None });
}

#[test]
fn a_record_hands_out_its_parts() {
    let data = Subscription {
        guild: 11,
        channel: 22,
        last_message: Some(DayType::Friday(Time::Evening)),
    };
    let doc = SubscriptionDoc::new(0x1234_5678_9abc_def0_1234_5678_9abc_def0, data);
    assert_eq!(doc.id(), 0x1234_5678_9abc_def0_1234_5678_9abc_def0);
    assert_eq!(doc.guild(), 11);
    assert_eq!(doc.channel(), 22);
    assert_eq!(doc.last_message(), Some(DayType::Friday(Time::Evening)));
}

#[test]
fn an_update_keeps_the_destination() {
    let doc = SubscriptionDoc::new(5, Subscription::new(11, 22));
    assert_eq!(
        doc.update(Some(DayType::Sunday(Time::MidDay))),
        Subscription { guild: 11, channel: 22, last_message: Some(DayType::Sunday(Time::MidDay)) }
    );
    assert_eq!(doc.update(None), Subscription::new(11, 22));
}

#[test]
fn served_means_told_about_this_very_moment() {
    let moment = DayType::Friday(Time::AfterWork);
    let fresh = SubscriptionDoc::new(1, Subscription::new(1, 2));
    assert!(!fresh.is_served(moment));
    let told = SubscriptionDoc::new(1, fresh.update(Some(moment)));
    assert!(told.is_served(moment));
    assert!(!told.is_served(DayType::Friday(Time::Evening)));
    assert!(!told.is_served(DayType::WorkDay(Time::AfterWork)));
    assert!(!told.is_served(DayType::Saturday(Time::AfterWork)));
}

#[test]
fn the_confirmation_names_channel_and_guild() {
    assert_eq!(
        Subscription::format_to_string(
            Some(String::from("general")),
            Some(String::from("Farm")),
            true
        ),
        "Subscribed to general in Farm"
    );
    assert_eq!(
        Subscription::format_to_string(
            Some(String::from("general")),
            Some(String::from("Farm")),
            false
        ),
        "Unsubscribed from general in Farm"
    );
}

#[test]
fn the_confirmation_falls_back_where_a_name_is_unknown() {
    assert_eq!(
        Subscription::format_to_string(None, None, true),
        "Subscribed to this channel in this guild"
    );
    assert_eq!(
        Subscription::format_to_string(None, Some(String::from("Farm")), false),
        "Unsubscribed from this channel in Farm"
    );
    assert_eq!(
        Subscription::format_to_string(Some(String::from("general")), None, true),
        "Subscribed to general in this guild"
    );
}

#[test]
fn the_confirmation_keeps_names_as_they_are() {
    assert_eq!(
        Subscription::format_to_string(Some(String::new()), Some(String::from("a in b")), true),
        "Subscribed to  in a in b"
    );
}

#[test]
fn a_toggle_without_a_guild_fails() {
    assert_eq!(
        Subscription::create_and_handle(None, 22),
        ToggleStep::Done(SubscriptionHandleResult::Error(String::from("No GuildId provided")))
    );
}

#[test]
fn a_toggle_begins_by_deleting() {
    assert_eq!(
        Subscription::create_and_handle(Some(11), 22),
        ToggleStep::DeleteMatching(Subscription { guild: 11, channel: 22, last_message: None })
    );
}

#[test]
fn deleted_records_mean_removed() {
    let subscription = Subscription::new(11, 22);
    assert_eq!(
        subscription.handle(StoreReply::Deleted(Ok(1))),
        ToggleStep::Done(SubscriptionHandleResult::Removed(subscription))
    );
    assert_eq!(
        subscription.handle(StoreReply::Deleted(Ok(usize::MAX))),
        ToggleStep::Done(SubscriptionHandleResult::Removed(subscription))
    );
}

#[test]
fn no_deleted_record_means_insert() {
    let subscription = Subscription::new(11, 22);
    assert_eq!(subscription.handle(StoreReply::Deleted(Ok(0))), ToggleStep::Insert(subscription));
}

#[test]
fn what_is_inserted_was_told_about_nothing() {
    let told = Subscription {
        guild: 11,
        channel: 22,
        last_message: Some(DayType::Friday(Time::AfterWork)),
    };
    assert_eq!(
        told.handle(StoreReply::Deleted(Ok(0))),
        ToggleStep::Insert(Subscription { guild: 11, channel: 22, last_message: None })
    );
}

#[test]
fn an_insert_means_added() {
    let subscription = Subscription::new(11, 22);
    assert_eq!(
        subscription.handle(StoreReply::Inserted(Ok(()))),
        ToggleStep::Done(SubscriptionHandleResult::Added(subscription))
    );
}

#[test]
fn a_failed_delete_ends_the_toggle() {
    let subscription = Subscription::new(11, 22);
    assert_eq!(
        subscription.handle(StoreReply::Deleted(Err(String::from("disk full")))),
        ToggleStep::Done(SubscriptionHandleResult::Error(String::from("Error removing: disk full")))
    );
}

#[test]
fn a_failed_insert_ends_the_toggle() {
    let subscription = Subscription::new(11, 22);
    assert_eq!(
        subscription.handle(StoreReply::Inserted(Err(String::from("disk full")))),
        ToggleStep::Done(SubscriptionHandleResult::Error(String::from(
            "Error inserting: disk full"
        )))
    );
}

#[test]
fn a_missing_store_ends_the_toggle() {
    let subscription = Subscription::new(11, 22);
    assert_eq!(
        subscription.handle(StoreReply::Missing),
        ToggleStep::Done(SubscriptionHandleResult::Error(String::from(
            "Database not in shared data"
        )))
    );
}

#[test]
fn toggled_twice_a_destination_is_added_then_removed() {
    let mut store = Records { held: vec![Subscription::new(1, 1), Subscription::new(11, 23)] };
    let before = store.held.clone();
    assert_eq!(
        store.toggle(Some(11), 22),
        SubscriptionHandleResult::Added(Subscription::new(11, 22))
    );
    assert_eq!(store.count(11, 22), 1);
    assert_eq!(
        store.toggle(Some(11), 22),
        SubscriptionHandleResult::Removed(Subscription::new(11, 22))
    );
    assert_eq!(store.count(11, 22), 0);
    assert_eq!(store.held, before);
}

#[test]
fn a_toggle_removes_a_destination_that_was_told_about_a_moment() {
    let told = Subscription {
        guild: 11,
        channel: 22,
        last_message: Some(DayType::Friday(Time::AfterWork)),
    };
    let mut store = Records { held: vec![told, Subscription::new(11, 23), told] };
    assert_eq!(
        store.toggle(Some(11), 22),
        SubscriptionHandleResult::Removed(Subscription::new(11, 22))
    );
    assert_eq!(store.held, vec![Subscription::new(11, 23)]);
    assert_eq!(
        store.toggle(Some(11), 22),
        SubscriptionHandleResult::Added(Subscription::new(11, 22))
    );
    assert_eq!(store.held, vec![Subscription::new(11, 23), Subscription::new(11, 22)]);
}

#[test]
fn a_toggle_without_a_guild_leaves_the_store_alone() {
    let mut store = Records { held: vec![Subscription::new(1, 22)] };
    assert_eq!(
        store.toggle(None, 22),
        SubscriptionHandleResult::Error(String::from("No GuildId provided"))
    );
    assert_eq!(store.held, vec![Subscription::new(1, 22)]);
}
