use critical_section::RestoreState;
use defmt_serial::defmt_serial;
use defmt_serial::release;
use defmt_serial::Buffer;
use defmt_serial::GlobalSerialLogger;

fn token() -> RestoreState {
    RestoreState::invalid()
}

#[test]
fn two_writes_arrive_in_call_order_between_one_pair_of_markers() {
    let mut buffer = Buffer::new();
    let mut logger = GlobalSerialLogger::new();
    defmt_serial(&mut logger, &mut buffer);
    logger.acquire(token());
    logger.write(&[0x01, 0x02, 0x03]);
    logger.write(&[0x04]);
    logger.release();
    release(&mut logger);
    // 0x00 opens the stream, 0x70 0x00 closes the frame of four bytes.
    assert_eq!(buffer.bytes(), &[0x00, 0x01, 0x02, 0x03, 0x04, 0x70, 0x00]);
    let payload = &buffer.bytes()[1..5];
    assert_eq!(payload, &[0x01, 0x02, 0x03, 0x04]);
    let separators = buffer.bytes().iter().filter(|&&b| b == 0x00).count();
    assert_eq!(separators, 2);
}

#[test]
fn chunking_of_the_payload_does_not_change_the_wire() {
    let mut whole = Buffer::new();
    let mut split = Buffer::new();
    {
        let mut logger = GlobalSerialLogger::new();
        defmt_serial(&mut logger, &mut whole);
        logger.acquire(token());
        logger.write(&[0x01, 0x02, 0x03, 0x04]);
        logger.release();
    }
    {
        let mut logger = GlobalSerialLogger::new();
        defmt_serial(&mut logger, &mut split);
        logger.acquire(token());
        logger.write(&[0x01]);
        logger.write(&[]);
        logger.write(&[0x02, 0x03]);
        logger.write(&[0x04]);
        logger.release();
    }
    assert_eq!(whole.bytes(), split.bytes());
}

#[test]
fn empty_frame_is_only_its_markers() {
    let mut buffer = Buffer::new();
    let mut logger = GlobalSerialLogger::new();
    defmt_serial(&mut logger, &mut buffer);
    logger.acquire(token());
    logger.release();
    release(&mut logger);
    assert_eq!(buffer.bytes(), &[0x00, 0x00]);
}

#[test]
fn zero_bytes_of_the_payload_are_folded_into_the_closing_bytes() {
    let mut buffer = Buffer::new();
    let mut logger = GlobalSerialLogger::new();
    defmt_serial(&mut logger, &mut buffer);
    logger.acquire(token());
    logger.write(&[0x00, 0x01]);
    logger.release();
    release(&mut logger);
    assert_eq!(buffer.bytes(), &[0x00, 0x01, 0x7D, 0x00]);
}

#[test]
fn frames_follow_one_another_whole() {
    let mut buffer = Buffer::new();
    let mut logger = GlobalSerialLogger::new();
    defmt_serial(&mut logger, &mut buffer);
    let frames: [&[&[u8]]; 3] = [&[&[0x11], &[0x12, 0x13]], &[&[0x21]], &[&[0x31, 0x32], &[0x33]]];
    for frame in frames {
        logger.acquire(token());
        for chunk in frame {
            logger.write(chunk);
        }
        logger.release();
        assert!(!logger.is_taken());
    }
    release(&mut logger);
    assert_eq!(
        buffer.bytes(),
        &[
            0x00, // opens the stream, once
            0x11, 0x12, 0x13, 0x78, 0x00, // first frame
            0x21, 0x7E, 0x00, // second frame
            0x31, 0x32, 0x33, 0x78, 0x00, // third frame
        ]
    );
}

#[test]
fn interrupted_context_ends_its_frame_before_the_other_starts() {
    let mut buffer = Buffer::new();
    let mut logger = GlobalSerialLogger::new();
    defmt_serial(&mut logger, &mut buffer);

    // The first context is in the middle of its frame.
    logger.acquire(token());
    logger.write(&[0xA1]);
    // A second context that shows up now finds the logger taken and has to wait.
    assert!(logger.is_taken());
    logger.write(&[0xA2]);
    logger.release();

    // Only now can the second context log.
    assert!(!logger.is_taken());
    logger.acquire(token());
    logger.write(&[0xB1, 0xB2]);
    logger.release();
    release(&mut logger);

    let bytes = buffer.bytes();
    assert_eq!(bytes, &[0x00, 0xA1, 0xA2, 0x7C, 0x00, 0xB1, 0xB2, 0x7C, 0x00]);
    let end_of_first = bytes.iter().position(|&b| b == 0x7C).unwrap() + 1;
    let start_of_second = bytes.iter().position(|&b| b == 0xB1).unwrap();
    assert!(end_of_first < start_of_second);
}

#[test]
fn acquire_takes_the_logger_and_release_frees_it() {
    let mut buffer = Buffer::new();
    let mut logger = GlobalSerialLogger::new();
    assert!(!logger.is_taken());
    defmt_serial(&mut logger, &mut buffer);
    assert!(!logger.is_taken());
    logger.acquire(token());
    assert!(logger.is_taken());
    logger.write(&[0x01]);
    assert!(logger.is_taken());
    logger.flush();
    assert!(logger.is_taken());
    logger.release();
    assert!(!logger.is_taken());
    // With the frame over the transport can be taken out again.
    release(&mut logger);
    assert!(!logger.is_registered());
}

#[test]
fn release_hands_back_the_token_of_the_frame() {
    let mut logger: GlobalSerialLogger<Buffer> = GlobalSerialLogger::new();
    let given = token();
    logger.acquire(given);
    let back = logger.release();
    assert_eq!(format!("{:?}", back), format!("{:?}", given));
}

#[test]
fn flush_reaches_the_transport() {
    let mut buffer = Buffer::new();
    let mut logger = GlobalSerialLogger::new();
    defmt_serial(&mut logger, &mut buffer);
    logger.acquire(token());
    logger.write(&[0x01, 0x02, 0x03]);
    logger.flush();
    logger.write(&[0x04]);
    logger.release();
    release(&mut logger);
    assert_eq!(buffer.bytes().len(), 7);
    // One opening byte and three bytes of payload had gone out by then.
    assert_eq!(buffer.flushed(), 4);
}

#[test]
fn flush_after_the_frame_covers_the_whole_frame() {
    let mut buffer = Buffer::new();
    let mut logger = GlobalSerialLogger::new();
    defmt_serial(&mut logger, &mut buffer);
    logger.acquire(token());
    logger.write(&[0x01]);
    logger.release();
    logger.flush();
    release(&mut logger);
    assert_eq!(buffer.bytes(), &[0x00, 0x01, 0x7E, 0x00]);
    assert_eq!(buffer.flushed(), 4);
}
