use guild_steward::purge::{delete_all_messages, PurgeStep};

// A channel that lists its first `batch_size` messages and deletes what it is told to.
fn purge(channel: &mut Vec<u64>, batch_size: usize) -> usize {
    let mut round_trips = 0;
    loop {
        let batch: Vec<u64> = channel.iter().take(batch_size).copied().collect();
        match delete_all_messages(batch) {
            PurgeStep::Finished => return round_trips,
            PurgeStep::Delete { message_ids } => {
                channel.retain(|m| !message_ids.contains(m));
                round_trips += 1;
                assert!(round_trips <= 1_000, "the purge must end");
            },
        }
    }
}

#[test]
fn empty_batch_ends_the_purge() {
    assert_eq!(delete_all_messages(Vec::new()), PurgeStep::Finished);
}

#[test]
fn batch_is_deleted_whole() {
    assert_eq!(delete_all_messages(vec![3, 1, 2]), PurgeStep::Delete { message_ids: vec![3, 1, 2] });
    assert_eq!(delete_all_messages(vec![9]), PurgeStep::Delete { message_ids: vec![9] });
}

#[test]
fn purge_of_an_empty_channel_deletes_nothing() {
    let mut channel: Vec<u64> = Vec::new();
    assert_eq!(purge(&mut channel, 100), 0);
    assert!(channel.is_empty());
}

#[test]
fn purge_takes_as_many_round_trips_as_there_are_batches() {
    for (n, batch_size, expected) in
        [(1u64, 100usize, 1usize), (100, 100, 1), (101, 100, 2), (250, 100, 3), (7, 1, 7), (10, 3, 4)]
    {
        let mut channel: Vec<u64> = (1..=n).collect();
        assert_eq!(purge(&mut channel, batch_size), expected);
        assert!(channel.is_empty());
    }
}
