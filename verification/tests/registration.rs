use critical_section::RestoreState;
use defmt_serial::defmt_serial;
use defmt_serial::release;
use defmt_serial::Buffer;
use defmt_serial::EraseWrite;
use defmt_serial::GlobalSerialLogger;

#[test]
fn new_logger_is_idle_and_empty() {
    let logger: GlobalSerialLogger<Buffer> = GlobalSerialLogger::new();
    assert!(!logger.is_taken());
    assert!(!logger.is_registered());
}

#[test]
fn registered_slot_reports_itself_taken_up() {
    let mut first = Buffer::new();
    let mut logger = GlobalSerialLogger::new();
    assert!(!logger.is_registered());
    defmt_serial(&mut logger, &mut first);
    // A second registration would now be refused: the slot is not empty.
    assert!(logger.is_registered());
    logger.acquire(RestoreState::invalid());
    logger.write(&[0x01]);
    logger.release();
    assert!(logger.is_registered());
}

#[test]
fn unconfigured_logger_drops_everything_quietly() {
    let mut logger: GlobalSerialLogger<Buffer> = GlobalSerialLogger::new();
    logger.acquire(RestoreState::invalid());
    logger.write(&[0x01, 0x02, 0x03]);
    logger.flush();
    logger.release();
    logger.flush();
    assert!(!logger.is_registered());
    assert!(!logger.is_taken());
}

#[test]
fn writes_after_unregistering_deliver_nothing() {
    let mut buffer = Buffer::new();
    let mut logger = GlobalSerialLogger::new();
    defmt_serial(&mut logger, &mut buffer);
    logger.acquire(RestoreState::invalid());
    logger.write(&[0x01]);
    logger.release();
    release(&mut logger);
    assert!(!logger.is_registered());

    logger.write(&[0xEE]);
    logger.acquire(RestoreState::invalid());
    logger.write(&[0xEE, 0xEE]);
    logger.flush();
    logger.release();

    assert_eq!(buffer.bytes(), &[0x00, 0x01, 0x7E, 0x00]);
    assert_eq!(buffer.flushed(), 0);
}

#[test]
fn fresh_registration_after_unregistering_is_served() {
    let mut first = Buffer::new();
    let mut second = Buffer::new();
    let mut logger = GlobalSerialLogger::new();

    defmt_serial(&mut logger, &mut first);
    logger.acquire(RestoreState::invalid());
    logger.write(&[0x01]);
    logger.release();
    release(&mut logger);

    // Logged while nothing is registered: lost.
    logger.acquire(RestoreState::invalid());
    logger.write(&[0x02]);
    logger.release();

    assert!(!logger.is_registered());
    defmt_serial(&mut logger, &mut second);
    assert!(logger.is_registered());
    logger.acquire(RestoreState::invalid());
    logger.write(&[0x03]);
    logger.release();
    release(&mut logger);

    assert_eq!(first.bytes(), &[0x00, 0x01, 0x7E, 0x00]);
    // The encoder opened its stream long ago: the new transport sees no opening byte.
    assert_eq!(second.bytes(), &[0x03, 0x7E, 0x00]);
}

#[test]
fn unregistering_an_empty_slot_changes_nothing() {
    let mut logger: GlobalSerialLogger<Buffer> = GlobalSerialLogger::new();
    release(&mut logger);
    assert!(!logger.is_registered());
    assert!(!logger.is_taken());
}

#[test]
fn registration_keeps_what_the_transport_held_before() {
    let mut buffer = Buffer::new();
    buffer.write(&[0xF0, 0xF1]);
    let mut logger = GlobalSerialLogger::new();
    defmt_serial(&mut logger, &mut buffer);
    logger.acquire(RestoreState::invalid());
    logger.write(&[0x01]);
    logger.release();
    release(&mut logger);
    assert_eq!(buffer.bytes(), &[0xF0, 0xF1, 0x00, 0x01, 0x7E, 0x00]);
}
