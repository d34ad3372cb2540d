use coremidi::packet::ump::MidiMessageType;
use coremidi::prelude::{EventListBuffer, MidiEndpoint, MidiError, MidiProtocol, MidiResult};
use coremidi::receiver::{event_channel, records_from_event_list, MidiEventRecord, MAX_RECEIVER_CAPACITY};

#[test]
fn receiver_capacity_is_validated() -> MidiResult<()> {
    assert!(matches!(event_channel(0), Err(MidiError::InvalidArgument(_))));
    assert_eq!(
        event_channel(0).err(),
        Some(MidiError::InvalidArgument("receiver capacity must be between 1 and 65536 records".to_string()))
    );
    assert!(matches!(
        event_channel(MAX_RECEIVER_CAPACITY + 1),
        Err(MidiError::InvalidArgument(_))
    ));
    let (_sink, receiver) = event_channel(1)?;
    assert_eq!(receiver.capacity(), 1);
    assert_eq!(receiver.buffered_count(), 0);
    assert_eq!(receiver.dropped_count(), 0);
    assert!(!receiver.is_closed());
    Ok(())
}

#[test]
fn records_keep_at_most_sixty_four_words() {
    let words: Vec<u32> = (0..70).map(|i| 0x4000_0000 | i).collect();
    let record = MidiEventRecord::from_event_words(99, 2, 7, &words);
    assert_eq!(record.timestamp(), 99);
    assert_eq!(record.protocol(), Some(MidiProtocol::Midi2));
    assert_eq!(record.source(), Some(MidiEndpoint::from_raw(7)));
    assert_eq!(record.words().len(), 64);
    assert_eq!(record.words(), &words[..64]);
    assert_eq!(record.message_type(), Some(MidiMessageType::ChannelVoice2));

    let empty = MidiEventRecord::from_event_words(1, 9, 0, &[]);
    assert_eq!(empty.protocol(), None);
    assert_eq!(empty.source(), None);
    assert!(empty.words().is_empty());
    assert_eq!(empty.message_type(), None);
}

#[test]
fn receiver_keeps_the_newest_records_when_full() -> MidiResult<()> {
    let (sink, receiver) = event_channel(4)?;
    for i in 0..10u32 {
        sink.push_record(MidiEventRecord::from_event_words(u64::from(100 + i), 1, 5, &[0x2090_3C00 | i]));
    }
    assert_eq!(receiver.buffered_count(), 4);
    assert_eq!(receiver.dropped_count(), 6);
    let mut seen = Vec::new();
    while let Some(record) = receiver.try_next() {
        seen.push(record.timestamp());
    }
    assert_eq!(seen, vec![106, 107, 108, 109]);
    assert!(!receiver.is_closed());
    drop(sink);
    assert!(receiver.is_closed());
    Ok(())
}

#[test]
fn event_lists_become_one_record_per_packet() -> MidiResult<()> {
    let mut events = EventListBuffer::with_capacity(MidiProtocol::Midi1, 256);
    events.add_packet_words(11, &[0x2090_3C64])?;
    events.add_packet_words(12, &[0x2080_3C00, 0x1234_5678])?;
    let (sink, receiver) = event_channel(16)?;
    sink.push_event_list(events.as_event_list(), 42);
    let first = receiver.try_next().expect("first record");
    assert_eq!(first.timestamp(), 11);
    assert_eq!(first.words(), &[0x2090_3C64]);
    assert_eq!(first.protocol(), Some(MidiProtocol::Midi1));
    assert_eq!(first.source(), Some(MidiEndpoint::from_raw(42)));
    let second = receiver.try_next().expect("second record");
    assert_eq!(second.timestamp(), 12);
    assert_eq!(second.words(), &[0x2080_3C00, 0x1234_5678]);
    assert!(receiver.try_next().is_none());
    assert_eq!(receiver.dropped_count(), 0);
    Ok(())
}

#[test]
fn event_list_records_follow_the_packets_in_order() -> MidiResult<()> {
    let mut events = EventListBuffer::with_capacity(MidiProtocol::Midi2, 512);
    events.add_packet_words(3, &[0x4090_3C00, 0xFFFF_0000])?;
    let long: Vec<u32> = (0..70).collect();
    events.add_packet_words(4, &long)?;
    events.add_packet_words(5, &[])?;
    let records = records_from_event_list(events.as_event_list(), 9);
    assert_eq!(
        records,
        vec![
            MidiEventRecord::from_event_words(3, 2, 9, &[0x4090_3C00, 0xFFFF_0000]),
            MidiEventRecord::from_event_words(4, 2, 9, &long),
            MidiEventRecord::from_event_words(5, 2, 9, &[]),
        ]
    );
    assert_eq!(records[1].words(), &long[..64]);

    let (sink, receiver) = event_channel(8)?;
    sink.push_event_list(events.as_event_list(), 9);
    let mut pushed = Vec::new();
    while let Some(record) = receiver.try_next() {
        pushed.push(record);
    }
    assert_eq!(pushed, records);
    Ok(())
}
