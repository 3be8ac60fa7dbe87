use oracle::BoundedBytes;
use oracle::Error;
use oracle::Event;
use oracle::FeedEvent;
use oracle::Pallet;
use oracle::SubmitError;

/// Bounds of the reference host configuration: 1200 records, an age of 600
/// rounds (one hour of six-second rounds), 64 KiB payloads.
const MAX_EVENTS_IN_FEED: u32 = 1200;
const MAX_EVENT_AGE: u64 = 600;
const MAX_EVENT_BYTES: u32 = 65536;

fn vec_to_bounded_vec(vec: Vec<u8>) -> BoundedBytes {
    BoundedBytes::try_new(vec, MAX_EVENT_BYTES).unwrap()
}

/// Simulates round production: finalizes each round in turn and initializes
/// the next, exactly as the host scheduler drives the engine's hooks.
fn run_to_block(pallet: &mut Pallet, block: &mut u64, n: u64) {
    while *block < n {
        if *block > 1 {
            pallet.on_finalize(*block);
        }
        *block += 1;
        pallet.on_initialize(*block);
    }
}

#[test]
fn test_basic_works() {
    let mut pallet = Pallet::new(MAX_EVENTS_IN_FEED, MAX_EVENT_AGE, MAX_EVENT_BYTES);
    let dummy_value = b"Dummy value for testing".to_vec();

    // Only an authorized origin may submit a new feed event.
    assert_eq!(
        pallet.submit_event(false, vec_to_bounded_vec(dummy_value.clone()), 1),
        Err(SubmitError::OriginRejected)
    );
    assert_eq!(pallet.feed().len(), 0);

    assert!(pallet.submit_event(true, vec_to_bounded_vec(dummy_value.clone()), 1).is_ok());

    // Make sure the notification is emitted.
    assert_eq!(
        pallet.events().last().cloned().expect("Event expected. Should not fail"),
        Event::NewFeedEvent { value: dummy_value.clone(), round: 1 }
    );

    // Read the feed and assert an expected result.
    let feed_event = pallet.feed();
    assert_eq!(feed_event.len(), 1);
    assert_eq!(
        feed_event[0],
        FeedEvent { value: vec_to_bounded_vec(dummy_value), round_recorded: 1 }
    );
}

#[test]
fn test_max_events_age() {
    let mut pallet = Pallet::new(MAX_EVENTS_IN_FEED, MAX_EVENT_AGE, MAX_EVENT_BYTES);
    let mut block: u64 = 1;

    // Dummy add 100 events into the feed, advancing the round after each.
    for i in 0..100u64 {
        let dummy_value = format!("Dummy value for testing - {}", i).as_bytes().to_vec();
        assert!(pallet.submit_event(true, vec_to_bounded_vec(dummy_value), block).is_ok());
        block = i + 1;
    }

    // Make sure the feed has 100 events.
    assert_eq!(pallet.feed().len(), 100);

    // Advance by one hour of rounds and 51 more, to see if events are removed.
    run_to_block(&mut pallet, &mut block, 51 + MAX_EVENT_AGE);

    // We have 50 events in the feed, even though we advanced by 51 rounds:
    // events are only filtered out when a round is finalized.
    let new_feed = pallet.feed();
    assert_eq!(new_feed.len(), 50);

    // Check the order of the surviving events, oldest to newest.
    for i in 0..50usize {
        assert_eq!(
            new_feed[i],
            FeedEvent {
                value: vec_to_bounded_vec(
                    format!("Dummy value for testing - {}", i + 50).as_bytes().to_vec()
                ),
                round_recorded: (i + 50) as u64,
            }
        );
    }
}

#[test]
fn capacity_of_two_rejects_third() {
    let mut pallet = Pallet::new(2, MAX_EVENT_AGE, MAX_EVENT_BYTES);
    let x = b"X".to_vec();
    let y = b"Y".to_vec();
    let z = b"Z".to_vec();

    assert_eq!(pallet.append(vec_to_bounded_vec(x.clone()), 1), Ok(()));
    assert_eq!(pallet.append(vec_to_bounded_vec(y.clone()), 1), Ok(()));
    assert_eq!(
        pallet.append(vec_to_bounded_vec(z), 1),
        Err(Error::EventTooLarge)
    );

    // The rejected append left the feed unchanged: same length, same contents.
    let feed = pallet.feed();
    assert_eq!(feed.len(), 2);
    assert_eq!(feed[0], FeedEvent { value: vec_to_bounded_vec(x), round_recorded: 1 });
    assert_eq!(feed[1], FeedEvent { value: vec_to_bounded_vec(y), round_recorded: 1 });
}

#[test]
fn submit_reports_capacity_error() {
    let mut pallet = Pallet::new(1, MAX_EVENT_AGE, MAX_EVENT_BYTES);
    assert_eq!(pallet.submit_event(true, vec_to_bounded_vec(b"a".to_vec()), 1), Ok(()));
    assert_eq!(
        pallet.submit_event(true, vec_to_bounded_vec(b"b".to_vec()), 1),
        Err(SubmitError::EventTooLarge)
    );
    // No notification is emitted for the rejected submission.
    assert_eq!(pallet.events().len(), 1);
}

#[test]
fn record_survives_until_age_passes() {
    let mut pallet = Pallet::new(10, 60, MAX_EVENT_BYTES);
    assert!(pallet.submit_event(true, vec_to_bounded_vec(b"aged".to_vec()), 1).is_ok());

    // At round 50 the threshold saturates to 0, so the record survives.
    pallet.on_finalize(50);
    assert_eq!(pallet.feed().len(), 1);

    // At round 61 the threshold is 1 and the record, recorded at 1, survives.
    pallet.on_finalize(61);
    assert_eq!(pallet.feed().len(), 1);

    // At round 62 the threshold is 2 and the record is evicted.
    pallet.on_finalize(62);
    assert_eq!(pallet.feed().len(), 0);
}

#[test]
fn max_age_zero_evicts_at_next_round() {
    let mut pallet = Pallet::new(10, 0, MAX_EVENT_BYTES);
    assert!(pallet.submit_event(true, vec_to_bounded_vec(b"short".to_vec()), 1).is_ok());

    // Finalizing the round of insertion keeps the record (1 >= 1 - 0).
    pallet.on_finalize(1);
    assert_eq!(pallet.feed().len(), 1);

    // The very next round evicts it.
    pallet.on_finalize(2);
    assert_eq!(pallet.feed().len(), 0);
}

#[test]
fn no_eviction_before_max_age_round() {
    let mut pallet = Pallet::new(10, 60, MAX_EVENT_BYTES);
    assert!(pallet.submit_event(true, vec_to_bounded_vec(b"early".to_vec()), 0).is_ok());

    // Until the current round reaches the maximum age, the threshold clamps
    // to 0 and nothing is evicted, even a record recorded at round 0.
    pallet.on_finalize(60);
    assert_eq!(pallet.feed().len(), 1);

    pallet.on_finalize(61);
    assert_eq!(pallet.feed().len(), 0);
}

#[test]
fn sweep_of_empty_feed_is_empty() {
    let mut pallet = Pallet::new(10, 60, MAX_EVENT_BYTES);
    pallet.sweep(1000);
    assert_eq!(pallet.feed().len(), 0);
}

#[test]
fn sweep_keeps_relative_order() {
    let mut pallet = Pallet::new(10, 60, MAX_EVENT_BYTES);
    assert_eq!(pallet.append(vec_to_bounded_vec(b"a".to_vec()), 5), Ok(()));
    assert_eq!(pallet.append(vec_to_bounded_vec(b"b".to_vec()), 1), Ok(()));
    assert_eq!(pallet.append(vec_to_bounded_vec(b"c".to_vec()), 7), Ok(()));
    assert_eq!(pallet.append(vec_to_bounded_vec(b"d".to_vec()), 2), Ok(()));

    // Threshold 63 - 60 = 3: the records of rounds 5 and 7 survive, in the
    // order in which they were appended.
    pallet.sweep(63);
    let feed = pallet.feed();
    assert_eq!(feed.len(), 2);
    assert_eq!(feed[0], FeedEvent { value: vec_to_bounded_vec(b"a".to_vec()), round_recorded: 5 });
    assert_eq!(feed[1], FeedEvent { value: vec_to_bounded_vec(b"c".to_vec()), round_recorded: 7 });
}

#[test]
fn sweep_twice_gives_same_feed() {
    let mut pallet = Pallet::new(10, 60, MAX_EVENT_BYTES);
    for round in 1..7u64 {
        let value = format!("r{}", round).into_bytes();
        assert_eq!(pallet.append(vec_to_bounded_vec(value), round), Ok(()));
    }

    pallet.sweep(64);
    let after_first: Vec<FeedEvent> = pallet.feed().clone();
    assert_eq!(after_first.len(), 3);

    pallet.sweep(64);
    assert_eq!(pallet.feed(), &after_first);
}

#[test]
fn oversized_payload_rejected_at_construction() {
    let bytes = vec![7u8; 17];
    match BoundedBytes::try_new(bytes.clone(), 16) {
        Ok(_) => panic!("a payload over the bound must not construct"),
        Err(returned) => assert_eq!(returned, bytes),
    }
}

#[test]
fn payload_at_bound_constructs() {
    let bytes = vec![7u8; 16];
    let payload = BoundedBytes::try_new(bytes.clone(), 16).unwrap();
    assert_eq!(payload.len(), 16);
    assert_eq!(payload.into_inner(), bytes);
}

#[test]
fn notification_emitted_per_successful_append() {
    let mut pallet = Pallet::new(10, 60, MAX_EVENT_BYTES);
    assert_eq!(pallet.submit_event(true, vec_to_bounded_vec(b"one".to_vec()), 3), Ok(()));
    assert_eq!(pallet.submit_event(true, vec_to_bounded_vec(b"two".to_vec()), 4), Ok(()));
    assert_eq!(
        pallet.events(),
        &vec![
            Event::NewFeedEvent { value: b"one".to_vec(), round: 3 },
            Event::NewFeedEvent { value: b"two".to_vec(), round: 4 },
        ]
    );
}

#[test]
fn rejected_origin_changes_nothing() {
    let mut pallet = Pallet::new(10, 60, MAX_EVENT_BYTES);
    assert_eq!(pallet.submit_event(true, vec_to_bounded_vec(b"kept".to_vec()), 1), Ok(()));
    assert_eq!(
        pallet.submit_event(false, vec_to_bounded_vec(b"blocked".to_vec()), 2),
        Err(SubmitError::OriginRejected)
    );
    assert_eq!(pallet.feed().len(), 1);
    assert_eq!(pallet.events().len(), 1);
}
