use log_pipeline::batch::{advance, Action, MessageEvent, MessageState};
use log_pipeline::metadata::Metadata;
use log_pipeline::model::NormalizedLog;

fn sample_log(text: &str) -> NormalizedLog {
    let mut metadata = Metadata::new();
    metadata.insert("log_id".to_string(), "abc".to_string());
    NormalizedLog {
        tenant_id: "t1".to_string(),
        text: text.to_string(),
        source: Some("json".to_string()),
        timestamp: None,
        tags: None,
        metadata: Some(metadata),
    }
}

#[test]
fn message_is_taken_from_delivery_to_the_store() {
    let log = sample_log("call 555-1234");
    let (state, action) = advance(MessageState::Received, MessageEvent::Decoded { log }).unwrap();
    assert!(matches!(state, MessageState::Decoded { .. }));
    assert!(matches!(action, Action::Sleep { millis: 650 }));

    let (state, action) = advance(state, MessageEvent::DelayElapsed).unwrap();
    assert!(matches!(state, MessageState::Assembled));
    match action {
        Action::Persist { record } => {
            assert_eq!(record.tenant_id, "t1");
            assert_eq!(record.log_id, "abc");
            assert_eq!(record.source, "json");
            assert_eq!(record.original_text, "call 555-1234");
            assert_eq!(record.modified_data, "call [REDACTED]");
        }
        other => panic!("unexpected action: {:?}", other),
    }

    let (state, action) = advance(state, MessageEvent::Stored).unwrap();
    assert!(matches!(state, MessageState::Persisted));
    assert!(matches!(action, Action::Finish));
}

#[test]
fn empty_text_asks_for_no_delay() {
    let log = sample_log("");
    let (_, action) = advance(MessageState::Received, MessageEvent::Decoded { log }).unwrap();
    assert!(matches!(action, Action::Sleep { millis: 0 }));
}

#[test]
fn message_that_cannot_be_read_is_skipped() {
    let (state, action) = advance(MessageState::Received, MessageEvent::Undecodable).unwrap();
    assert!(matches!(state, MessageState::DecodeFailed));
    assert!(matches!(action, Action::Finish));
}

#[test]
fn store_failure_ends_the_attempt() {
    let (state, action) = advance(MessageState::Assembled, MessageEvent::StoreFailed).unwrap();
    assert!(matches!(state, MessageState::PersistenceFailed));
    assert!(matches!(action, Action::Finish));
}

#[test]
fn nothing_follows_a_final_state() {
    let events = || {
        vec![
            MessageEvent::Decoded { log: sample_log("x") },
            MessageEvent::Undecodable,
            MessageEvent::DelayElapsed,
            MessageEvent::Stored,
            MessageEvent::StoreFailed,
        ]
    };
    for event in events() {
        assert!(advance(MessageState::Persisted, event).is_none());
    }
    for event in events() {
        assert!(advance(MessageState::DecodeFailed, event).is_none());
    }
    for event in events() {
        assert!(advance(MessageState::PersistenceFailed, event).is_none());
    }
}

#[test]
fn event_out_of_turn_causes_no_step() {
    assert!(advance(MessageState::Received, MessageEvent::DelayElapsed).is_none());
    assert!(advance(MessageState::Received, MessageEvent::Stored).is_none());
    assert!(advance(MessageState::Received, MessageEvent::StoreFailed).is_none());
    let decoded = || MessageState::Decoded { log: sample_log("x") };
    assert!(advance(decoded(), MessageEvent::Undecodable).is_none());
    assert!(advance(decoded(), MessageEvent::Stored).is_none());
    assert!(advance(decoded(), MessageEvent::StoreFailed).is_none());
    assert!(advance(decoded(), MessageEvent::Decoded { log: sample_log("y") }).is_none());
    assert!(advance(MessageState::Assembled, MessageEvent::DelayElapsed).is_none());
    assert!(advance(MessageState::Assembled, MessageEvent::Undecodable).is_none());
}

#[test]
fn one_bad_message_does_not_stop_the_batch() {
    let deliveries = vec![
        Some(sample_log("first 555-1234")),
        None,
        Some(sample_log("third")),
    ];
    let mut stored = Vec::new();
    let mut skipped = 0;
    for (index, delivery) in deliveries.into_iter().enumerate() {
        let event = match delivery {
            Some(log) => MessageEvent::Decoded { log },
            None => MessageEvent::Undecodable,
        };
        let (mut state, mut action) = advance(MessageState::Received, event).unwrap();
        loop {
            let event = match action {
                Action::Sleep { .. } => MessageEvent::DelayElapsed,
                Action::Persist { record } => {
                    if index == 0 {
                        MessageEvent::StoreFailed
                    } else {
                        stored.push(record.modified_data);
                        MessageEvent::Stored
                    }
                }
                Action::Finish => break,
            };
            let next = advance(state, event).unwrap();
            state = next.0;
            action = next.1;
        }
        if !matches!(state, MessageState::Persisted) {
            skipped += 1;
        }
    }
    assert_eq!(stored, vec!["third".to_string()]);
    assert_eq!(skipped, 2);
}
