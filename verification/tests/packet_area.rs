use coremidi::packet::ump::{
    MidiCvStatus, MidiMessage128, MidiMessage64, MidiMessage96, MidiMessageType, MidiNoteAttribute,
    MidiPerNoteManagementOptions, MidiProgramChangeOptions, MidiSysExStatus, MidiSystemStatus,
    MidiUtilityStatus, UmpStreamMessageFormat, UmpStreamMessageStatus,
};
use coremidi::packet::list::PacketLayout;
use coremidi::prelude::{
    EventListBuffer, EventListRef, MidiError, MidiProtocol, MidiResult, PacketListBuffer,
    PacketListRef,
};

#[test]
fn packet_and_event_buffers_roundtrip() -> MidiResult<()> {
    let mut packets = PacketListBuffer::with_capacity(256);
    packets.add_packet(10, &[0x90, 60, 100])?;
    let packet = packets
        .as_packet_list()
        .iter()
        .next()
        .expect("packet present");
    assert_eq!(packet.timestamp(), 10);
    assert_eq!(packet.bytes(), &[0x90, 60, 100]);

    let mut events = EventListBuffer::with_capacity(MidiProtocol::Midi2, 256);
    events.add_packet_words(20, &[0x4123_4567, 0x89AB_CDEF])?;
    let event = events.as_event_list().iter().next().expect("event present");
    assert_eq!(event.timestamp(), 20);
    assert_eq!(event.words(), &[0x4123_4567, 0x89AB_CDEF]);
    assert_eq!(event.message_type(), Some(MidiMessageType::ChannelVoice2));
    assert_eq!(events.as_event_list().protocol(), Some(MidiProtocol::Midi2));

    assert_eq!(
        MidiMessageType::from_up_word(0xF123_4567),
        Some(MidiMessageType::Stream)
    );
    assert_eq!(MidiCvStatus::from_raw(0x9), Some(MidiCvStatus::NoteOn));
    assert_eq!(
        MidiSystemStatus::from_raw(0xFE),
        Some(MidiSystemStatus::ActiveSensing)
    );
    assert_eq!(
        MidiSysExStatus::from_raw(0x9),
        Some(MidiSysExStatus::MixedDataSetPayload)
    );
    assert_eq!(
        MidiUtilityStatus::from_raw(0x4),
        Some(MidiUtilityStatus::TicksSinceLastEvent)
    );
    assert_eq!(
        UmpStreamMessageFormat::from_raw(0x02),
        Some(UmpStreamMessageFormat::Continuing)
    );
    assert_eq!(
        UmpStreamMessageStatus::from_raw(0x10),
        Some(UmpStreamMessageStatus::FunctionBlockDiscovery)
    );
    assert_eq!(
        MidiNoteAttribute::from_raw(0x3),
        Some(MidiNoteAttribute::Pitch)
    );
    assert_eq!(MidiProgramChangeOptions::BANK_VALID().bits(), 0x1);
    assert_eq!(
        (MidiPerNoteManagementOptions::RESET() | MidiPerNoteManagementOptions::DETACH()).bits(),
        0x3
    );

    let message64 = MidiMessage64::new(0x4123_4567, 0x89AB_CDEF);
    let message96 = MidiMessage96::from([0xD123_4567, 0x89AB_CDEF, 0x0123_4567]);
    let message128 = MidiMessage128::new(0xF123_4567, 0x89AB_CDEF, 0x0123_4567, 0x89AB_CDEF);
    assert_eq!(message64.words(), [0x4123_4567, 0x89AB_CDEF]);
    assert_eq!(
        message64.message_type(),
        Some(MidiMessageType::ChannelVoice2)
    );
    assert_eq!(message96.words(), [0xD123_4567, 0x89AB_CDEF, 0x0123_4567]);
    assert_eq!(message96.message_type(), Some(MidiMessageType::FlexData));
    assert_eq!(
        message128.words(),
        [0xF123_4567, 0x89AB_CDEF, 0x0123_4567, 0x89AB_CDEF]
    );
    assert_eq!(message128.message_type(), Some(MidiMessageType::Stream));
    Ok(())
}

fn packet_contents(buffer: &PacketListBuffer) -> Vec<(u64, Vec<u8>)> {
    let mut contents = Vec::new();
    let mut packets = buffer.as_packet_list().iter();
    while let Some(packet) = packets.next() {
        contents.push((packet.timestamp(), packet.bytes().to_vec()));
    }
    contents
}

fn event_contents(buffer: &EventListBuffer) -> Vec<(u64, Vec<u32>)> {
    let mut contents = Vec::new();
    let mut packets = buffer.as_event_list().iter();
    while let Some(packet) = packets.next() {
        contents.push((packet.timestamp(), packet.words().to_vec()));
    }
    contents
}

#[test]
fn cloned_packet_list_buffer_keeps_writing_after_the_original_is_dropped() -> MidiResult<()> {
    let mut original = PacketListBuffer::with_capacity(256);
    original.add_packet(1, &[0x90, 60, 100])?;
    let mut clone = original.clone();
    drop(original);

    clone.add_packet(2, &[0x80, 60, 0])?;
    clone.add_packet(3, &[0xB0, 7, 64])?;

    assert_eq!(
        packet_contents(&clone),
        vec![
            (1, vec![0x90, 60, 100]),
            (2, vec![0x80, 60, 0]),
            (3, vec![0xB0, 7, 64]),
        ]
    );
    Ok(())
}

#[test]
fn packet_list_buffer_clones_write_independently() -> MidiResult<()> {
    let mut original = PacketListBuffer::with_capacity(256);
    original.add_packet(1, &[0x90, 60, 100])?;
    let mut clone = original.clone();

    clone.add_packet(2, &[0x80, 60, 0])?;
    original.add_packet(3, &[0xB0, 7, 64])?;

    assert_eq!(
        packet_contents(&original),
        vec![(1, vec![0x90, 60, 100]), (3, vec![0xB0, 7, 64])]
    );
    assert_eq!(
        packet_contents(&clone),
        vec![(1, vec![0x90, 60, 100]), (2, vec![0x80, 60, 0])]
    );

    clone.clear();
    clone.add_packet(4, &[0xC0, 5])?;
    assert_eq!(packet_contents(&clone), vec![(4, vec![0xC0, 5])]);
    assert_eq!(original.as_packet_list().packet_count(), 2);
    Ok(())
}

#[test]
fn cloned_event_list_buffer_keeps_writing_after_the_original_is_dropped() -> MidiResult<()> {
    let mut original = EventListBuffer::with_capacity(MidiProtocol::Midi2, 256);
    original.add_packet_words(1, &[0x4090_3C00, 0xFFFF_0000])?;
    let mut clone = original.clone();
    drop(original);

    clone.add_packet_words(2, &[0x4080_3C00, 0x0000_0000])?;
    clone.add_packet_words(3, &[0x40B0_0700, 0x8000_0000])?;

    assert_eq!(
        event_contents(&clone),
        vec![
            (1, vec![0x4090_3C00, 0xFFFF_0000]),
            (2, vec![0x4080_3C00, 0x0000_0000]),
            (3, vec![0x40B0_0700, 0x8000_0000]),
        ]
    );
    assert_eq!(clone.as_event_list().protocol(), Some(MidiProtocol::Midi2));
    Ok(())
}

#[test]
fn event_list_buffer_clones_write_independently() -> MidiResult<()> {
    let mut original = EventListBuffer::with_capacity(MidiProtocol::Midi2, 256);
    original.add_packet_words(1, &[0x4090_3C00, 0xFFFF_0000])?;
    let mut clone = original.clone();

    clone.add_packet_words(2, &[0x4080_3C00, 0x0000_0000])?;
    original.add_packet_words(3, &[0x40B0_0700, 0x8000_0000])?;

    assert_eq!(
        event_contents(&original),
        vec![
            (1, vec![0x4090_3C00, 0xFFFF_0000]),
            (3, vec![0x40B0_0700, 0x8000_0000]),
        ]
    );
    assert_eq!(
        event_contents(&clone),
        vec![
            (1, vec![0x4090_3C00, 0xFFFF_0000]),
            (2, vec![0x4080_3C00, 0x0000_0000]),
        ]
    );
    Ok(())
}

#[test]
fn packet_list_buffer_reports_a_full_buffer() {
    let mut buffer = PacketListBuffer::with_capacity(0);
    let capacity = buffer.capacity_bytes();
    let payload = vec![0xF0_u8; capacity];
    assert_eq!(
        buffer.add_packet(1, &payload),
        Err(MidiError::BufferTooSmall {
            requested: capacity,
            available: capacity,
        })
    );
    assert_eq!(buffer.as_packet_list().packet_count(), 0);
}

#[test]
fn packet_list_image_layout_is_little_endian_and_word_aligned() -> MidiResult<()> {
    let mut packets = PacketListBuffer::with_capacity(64);
    packets.add_packet(0x0102_0304_0506_0708, &[0x90, 60, 100])?;
    packets.add_packet(2, &[0xF8])?;
    let bytes = packets.as_bytes();
    assert_eq!(&bytes[0..4], &[2, 0, 0, 0]);
    assert_eq!(&bytes[4..12], &[8, 7, 6, 5, 4, 3, 2, 1]);
    assert_eq!(&bytes[12..14], &[3, 0]);
    assert_eq!(&bytes[14..17], &[0x90, 60, 100]);
    // the second packet starts at the next 4-byte boundary after 17
    assert_eq!(&bytes[20..28], &[2, 0, 0, 0, 0, 0, 0, 0]);
    assert_eq!(&bytes[28..30], &[1, 0]);
    assert_eq!(bytes[30], 0xF8);

    let reread = PacketListRef::from_bytes(bytes);
    assert_eq!(reread.packet_count(), 2);
    let mut it = reread.iter();
    assert_eq!(it.next().map(|p| p.timestamp()), Some(0x0102_0304_0506_0708));
    assert_eq!(it.next().map(|p| p.bytes().to_vec()), Some(vec![0xF8]));
    assert!(it.next().is_none());
    Ok(())
}

#[test]
fn packed_packet_lists_place_packets_back_to_back() -> MidiResult<()> {
    let mut packets = PacketListBuffer::with_capacity_and_layout(64, PacketLayout::Packed);
    assert_eq!(packets.layout(), PacketLayout::Packed);
    packets.add_packet(1, &[0x90, 60, 100])?;
    packets.add_packet(2, &[0xF8])?;
    let bytes = packets.as_bytes();
    assert_eq!(&bytes[0..4], &[2, 0, 0, 0]);
    // the second packet starts right after the first one's 3 data bytes
    assert_eq!(&bytes[17..25], &[2, 0, 0, 0, 0, 0, 0, 0]);
    assert_eq!(&bytes[25..27], &[1, 0]);
    assert_eq!(bytes[27], 0xF8);
    assert_eq!(packet_contents(&packets), vec![(1, vec![0x90, 60, 100]), (2, vec![0xF8])]);
    let reread = PacketListRef::from_bytes_with_layout(bytes, PacketLayout::Packed);
    let mut it = reread.iter();
    assert_eq!(it.next().map(|p| p.bytes().to_vec()), Some(vec![0x90, 60, 100]));
    assert_eq!(it.next().map(|p| p.timestamp()), Some(2));
    assert!(it.next().is_none());
    assert_eq!(PacketListBuffer::with_capacity(64).layout(), PacketLayout::WordAligned);
    Ok(())
}

#[test]
fn packet_list_buffer_refuses_oversized_payloads() {
    let mut packets = PacketListBuffer::with_capacity(70_000);
    let payload = vec![0u8; 65_536];
    assert_eq!(
        packets.add_packet(1, &payload),
        Err(MidiError::InvalidArgument(
            "MIDIPacket payloads larger than 65535 bytes must be split across packets".to_string()
        ))
    );
    assert_eq!(packets.as_packet_list().packet_count(), 0);
    let fits = vec![0u8; 65_535];
    assert!(packets.add_packet(1, &fits).is_ok());
    assert_eq!(packets.as_packet_list().packet_count(), 1);
}

#[test]
fn packet_list_buffer_grows_storage_to_a_whole_list() {
    let small = PacketListBuffer::with_capacity(1);
    assert!(small.capacity_bytes() >= 256);
    assert_eq!(small.capacity_bytes() % 8, 0);
    let large = PacketListBuffer::with_capacity(1001);
    assert_eq!(large.capacity_bytes(), 1008);
}

#[test]
fn truncated_packet_list_images_stop_reading() {
    // header says two packets, but only the first fits the bytes
    let mut bytes = vec![2, 0, 0, 0];
    bytes.extend_from_slice(&[1, 0, 0, 0, 0, 0, 0, 0]);
    bytes.extend_from_slice(&[2, 0, 0x90, 60]);
    // the second packet starts at byte 16 and announces 200 bytes
    bytes.extend_from_slice(&[9, 0, 0, 0, 0, 0, 0, 0, 200, 0]);
    let list = PacketListRef::from_bytes(&bytes);
    assert_eq!(list.packet_count(), 2);
    let mut it = list.iter();
    let first = it.next().expect("first packet fits");
    assert_eq!(first.bytes(), &[0x90, 60]);
    assert!(it.next().is_none());
    assert!(PacketListRef::from_bytes(&[1, 0]).iter().next().is_none());
}

#[test]
fn event_list_buffer_reports_a_full_buffer() -> MidiResult<()> {
    let mut events = EventListBuffer::with_capacity(MidiProtocol::Midi1, 0);
    let capacity = events.capacity_bytes();
    let words = vec![0x2090_3C64_u32; capacity / 4];
    assert_eq!(
        events.add_packet_words(5, &words),
        Err(MidiError::BufferTooSmall {
            requested: words.len() * 4,
            available: capacity,
        })
    );
    assert_eq!(events.as_event_list().packet_count(), 0);
    events.add_packet_words(5, &[0x2090_3C64])?;
    events.clear();
    assert_eq!(events.as_event_list().packet_count(), 0);
    assert_eq!(events.protocol(), MidiProtocol::Midi1);
    Ok(())
}

#[test]
fn event_list_image_is_read_back() -> MidiResult<()> {
    let mut events = EventListBuffer::with_capacity(MidiProtocol::Midi1, 128);
    events.add_packet_words(0x1_0000_0002, &[0x2090_3C64])?;
    let image = events.as_words();
    assert_eq!(image[0], 1);
    assert_eq!(image[1], 1);
    assert_eq!(image[2], 2);
    assert_eq!(image[3], 1);
    assert_eq!(image[4], 1);
    assert_eq!(image[5], 0x2090_3C64);
    let list = EventListRef::from_words(image);
    assert_eq!(list.protocol(), Some(MidiProtocol::Midi1));
    let packet = list.iter().next().expect("packet");
    assert_eq!(packet.timestamp(), 0x1_0000_0002);
    assert_eq!(packet.word_count(), 1);
    assert_eq!(packet.message_type(), Some(MidiMessageType::ChannelVoice1));
    assert_eq!(EventListRef::from_words(&[7, 0]).protocol(), None);
    assert_eq!(EventListRef::from_words(&[7, 0]).protocol_raw(), 7);
    Ok(())
}

#[test]
fn ump_message_helpers_roundtrip() {
    let message = MidiMessage64::new(1, 2);
    assert_eq!(MidiMessage64::from_raw(message.as_raw()).words(), [1, 2]);
    let words: [u32; 2] = message.into();
    assert_eq!(words, [1, 2]);
    assert_eq!(MidiMessage64::new(0x1000_0000, 0).message_type(), Some(MidiMessageType::System));
    assert_eq!(MidiMessageType::from_up_word(0x6000_0000), None);
    assert_eq!(MidiMessageType::from_raw(0x3), Some(MidiMessageType::SysEx));
    assert_eq!(MidiMessageType::Data128.as_raw(), 0x5);
    assert_eq!(MidiSystemStatus::ACTIVE_SENDING, MidiSystemStatus::ActiveSensing);
    assert_eq!(MidiCvStatus::NoteOn.as_raw(), 0x9);
    assert_eq!(MidiCvStatus::from_raw(0x7), None);
    assert_eq!(MidiNoteAttribute::from_raw(0x0), Some(MidiNoteAttribute::NoAttribute));
    assert_eq!(MidiProtocol::from_raw(2), Some(MidiProtocol::Midi2));
    assert_eq!(MidiProtocol::Midi1.as_raw(), 1);
    assert_eq!(MidiProtocol::from_raw(3), None);
}

#[test]
fn option_flags_combine_by_bits() {
    let bank = MidiProgramChangeOptions::BANK_VALID();
    assert!(bank.contains(MidiProgramChangeOptions::BANK_VALID()));
    assert!(MidiProgramChangeOptions::empty().is_empty());
    assert_eq!((bank & MidiProgramChangeOptions::empty()).bits(), 0);
    assert_eq!((bank ^ bank).bits(), 0);
    let mut both = MidiPerNoteManagementOptions::RESET();
    both |= MidiPerNoteManagementOptions::DETACH();
    assert_eq!(both.bits(), 0x3);
    assert!(both.contains(MidiPerNoteManagementOptions::DETACH()));
    assert_eq!(MidiPerNoteManagementOptions::from_bits_retain(0x81).bits(), 0x81);
    both &= MidiPerNoteManagementOptions::RESET();
    assert_eq!(both.bits(), 0x1);
    both ^= MidiPerNoteManagementOptions::from_bits_retain(0x3);
    assert_eq!(both.bits(), 0x2);
    let mut program = MidiProgramChangeOptions::empty();
    program |= MidiProgramChangeOptions::BANK_VALID();
    assert_eq!(program.bits(), 0x1);
    program ^= MidiProgramChangeOptions::from_bits_retain(0x3);
    assert_eq!(program.bits(), 0x2);
    program &= MidiProgramChangeOptions::BANK_VALID();
    assert!(program.is_empty());
    assert_eq!(u8::from(MidiProgramChangeOptions::from(0x1_u8)), 0x1);
}
