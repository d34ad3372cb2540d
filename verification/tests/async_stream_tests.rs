use coremidi::async_api::{new_stream_pair, OwnedEventList};
use coremidi::prelude::{EventListBuffer, EventListRef, MidiError, MidiProtocol, MidiResult};

#[test]
fn test_owned_event_list_from_null() {
    let owned = OwnedEventList::copy_from(EventListRef::from_words(&[]));
    assert!(owned.is_none());
}

#[test]
fn test_stream_capacity_is_validated() {
    assert!(matches!(
        new_stream_pair::<u32>(0),
        Err(MidiError::InvalidArgument(_))
    ));
    assert!(matches!(
        new_stream_pair::<()>(0),
        Err(MidiError::InvalidArgument(ref m)) if m == "async stream capacity must be > 0"
    ));
    let (stream, sender) = new_stream_pair::<u32>(2).expect("capacity 2 is accepted");
    sender.push(5);
    assert_eq!(stream.capacity(), 2);
    assert_eq!(stream.try_next(), Some(5));
}

#[test]
fn owned_event_lists_copy_packets_and_clamp_words() -> MidiResult<()> {
    let mut events = EventListBuffer::with_capacity(MidiProtocol::Midi2, 1024);
    events.add_packet_words(7, &[0x4090_3C00, 0xFFFF_0000])?;
    let long: Vec<u32> = (0..70).collect();
    events.add_packet_words(8, &long)?;
    let owned = OwnedEventList::copy_from(events.as_event_list()).expect("known protocol");
    assert_eq!(owned.protocol, MidiProtocol::Midi2);
    assert_eq!(owned.packets.len(), 2);
    assert_eq!(owned.packets[0].timeStamp, 7);
    assert_eq!(owned.packets[0].wordCount, 2);
    assert_eq!(&owned.packets[0].words[..2], &[0x4090_3C00, 0xFFFF_0000]);
    assert!(owned.packets[0].words[2..].iter().all(|w| *w == 0));
    assert_eq!(owned.packets[1].wordCount, 70);
    assert_eq!(owned.packets[1].words[63], 63);
    assert_eq!(
        OwnedEventList::copy_from(EventListRef::from_words(&[9, 0])).map(|l| l.packets.len()),
        None
    );
    Ok(())
}
