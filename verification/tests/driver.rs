use firmware_update::codec::UpdateRequest;
use firmware_update::page::PageBuffer;
use firmware_update::signpost_tock_firmware_update::{
    FlashAction, FlashStatus, SignpostTockFirmwareUpdate, State, UpdateError, COMMAND_QUERY,
    COMMAND_TRIGGER,
};

const ZERO: UpdateRequest = UpdateRequest { source: 0, destination: 0, length: 0, crc: 0 };

const SAMPLE: [u8; 16] = [
    0x00, 0x00, 0x01, 0x00, 0x00, 0x00, 0x06, 0x00, 0x00, 0x40, 0x00, 0x00, 0xEF, 0xBE, 0xAD, 0xDE,
];

const OTHER: [u8; 16] = [1, 0, 0, 0, 2, 0, 0, 0, 3, 0, 0, 0, 4, 0, 0, 0];

fn sample_request() -> UpdateRequest {
    UpdateRequest {
        source: 0x0001_0000,
        destination: 0x0006_0000,
        length: 0x0000_4000,
        crc: 0xDEAD_BEEF,
    }
}

fn fresh_driver() -> SignpostTockFirmwareUpdate {
    SignpostTockFirmwareUpdate::new(PageBuffer { bytes: [0x11u8; 512] })
}

fn reading_driver() -> SignpostTockFirmwareUpdate {
    let mut driver = fresh_driver();
    driver.provide_configuration(&SAMPLE).unwrap();
    driver.trigger_update().unwrap();
    driver
}

fn written_page(action: FlashAction) -> [u8; 512] {
    match action {
        FlashAction::WritePage { page_index, buffer } => {
            assert_eq!(page_index, 2);
            buffer.bytes
        }
        other => panic!("expected a write of the flags page, got {:?}", other),
    }
}

#[test]
fn new_driver_is_idle_and_unconfigured() {
    let driver = fresh_driver();
    assert_eq!(driver.state(), State::Idle);
    assert_eq!(driver.pending_config(), None);
    assert_eq!(driver.transaction(), ZERO);
    assert!(driver.holds_page());
}

#[test]
fn configuration_of_sixteen_bytes_is_stored() {
    let mut driver = fresh_driver();
    assert_eq!(driver.provide_configuration(&SAMPLE), Ok(()));
    assert_eq!(driver.pending_config(), Some(SAMPLE));
    assert_eq!(driver.state(), State::Idle);
    assert_eq!(driver.transaction(), ZERO);
    assert!(driver.holds_page());
}

#[test]
fn configuration_of_another_size_is_refused() {
    for len in [0usize, 1, 4, 15, 17, 32, 512] {
        let mut driver = fresh_driver();
        assert_eq!(driver.provide_configuration(&vec![0xABu8; len]), Err(UpdateError::InvalidSize));
        assert_eq!(driver.pending_config(), None);
        assert_eq!(driver.state(), State::Idle);
        assert!(driver.holds_page());
    }
}

#[test]
fn refused_configuration_leaves_the_stored_one() {
    for len in [0usize, 15, 17, 64] {
        let mut driver = fresh_driver();
        driver.provide_configuration(&SAMPLE).unwrap();
        assert_eq!(driver.provide_configuration(&vec![0xABu8; len]), Err(UpdateError::InvalidSize));
        assert_eq!(driver.pending_config(), Some(SAMPLE));
        assert!(driver.trigger_update().is_ok());
        assert_eq!(driver.transaction(), sample_request());
    }
}

#[test]
fn trigger_without_configuration_is_refused() {
    let mut driver = fresh_driver();
    assert_eq!(driver.trigger_update(), Err(UpdateError::NoConfiguration));
    assert_eq!(driver.state(), State::Idle);
    assert!(driver.holds_page());
    assert_eq!(driver.transaction(), ZERO);
}

#[test]
fn trigger_hands_out_the_page_buffer_for_a_read_of_page_two() {
    let mut driver = fresh_driver();
    driver.provide_configuration(&SAMPLE).unwrap();
    assert_eq!(
        driver.trigger_update(),
        Ok(FlashAction::ReadPage { page_index: 2, buffer: PageBuffer { bytes: [0x11u8; 512] } })
    );
    assert_eq!(driver.state(), State::AwaitingPageForPatch);
    assert!(!driver.holds_page());
    assert_eq!(driver.transaction(), sample_request());
    assert_eq!(driver.pending_config(), Some(SAMPLE));
}

#[test]
fn trigger_then_read_completion_writes_the_flag_block() {
    let mut driver = reading_driver();
    let page = PageBuffer { bytes: [0xA5u8; 512] };
    let bytes = written_page(driver.on_page_read_complete(page, FlashStatus::CommandComplete));
    assert_eq!(bytes[492], 1);
    assert_eq!(&bytes[493..496], &[0, 0, 0]);
    assert_eq!(&bytes[496..500], &[0x00, 0x00, 0x01, 0x00]);
    assert_eq!(&bytes[500..504], &[0x00, 0x00, 0x06, 0x00]);
    assert_eq!(&bytes[504..508], &[0x00, 0x40, 0x00, 0x00]);
    assert_eq!(&bytes[508..512], &[0xEF, 0xBE, 0xAD, 0xDE]);
    assert!(bytes[..492].iter().all(|byte| *byte == 0xA5));
    assert_eq!(driver.state(), State::AwaitingWriteCompletion);
    assert!(!driver.holds_page());
}

#[test]
fn second_configuration_replaces_the_first() {
    let mut driver = fresh_driver();
    assert_eq!(driver.provide_configuration(&OTHER), Ok(()));
    assert_eq!(driver.provide_configuration(&SAMPLE), Ok(()));
    assert_eq!(driver.pending_config(), Some(SAMPLE));
    assert!(driver.trigger_update().is_ok());
    assert_eq!(driver.transaction(), sample_request());
    let page = PageBuffer { bytes: [0u8; 512] };
    let bytes = written_page(driver.on_page_read_complete(page, FlashStatus::CommandComplete));
    assert_eq!(&bytes[496..], &SAMPLE);
}

#[test]
fn trigger_while_reading_is_refused() {
    let mut driver = reading_driver();
    assert_eq!(driver.trigger_update(), Err(UpdateError::ReservationConflict));
    assert_eq!(driver.state(), State::AwaitingPageForPatch);
    assert_eq!(driver.transaction(), sample_request());
    assert_eq!(driver.pending_config(), Some(SAMPLE));
    assert!(!driver.holds_page());
}

#[test]
fn trigger_while_writing_is_refused() {
    let mut driver = reading_driver();
    driver.on_page_read_complete(PageBuffer { bytes: [0u8; 512] }, FlashStatus::CommandComplete);
    assert_eq!(driver.trigger_update(), Err(UpdateError::ReservationConflict));
    assert_eq!(driver.state(), State::AwaitingWriteCompletion);
    assert_eq!(driver.transaction(), sample_request());
    assert!(!driver.holds_page());
}

#[test]
fn refused_trigger_does_not_change_what_is_written() {
    let mut undisturbed = reading_driver();
    let mut disturbed = reading_driver();
    assert_eq!(disturbed.trigger_update(), Err(UpdateError::ReservationConflict));
    assert_eq!(disturbed.command(COMMAND_TRIGGER), Err(UpdateError::ReservationConflict));
    let expected = undisturbed
        .on_page_read_complete(PageBuffer { bytes: [0x3Cu8; 512] }, FlashStatus::CommandComplete);
    let actual = disturbed
        .on_page_read_complete(PageBuffer { bytes: [0x3Cu8; 512] }, FlashStatus::CommandComplete);
    assert_eq!(actual, expected);
    assert_eq!(disturbed.state(), undisturbed.state());
}

#[test]
fn configuration_provided_in_flight_does_not_reach_the_transaction() {
    let mut driver = reading_driver();
    assert_eq!(driver.provide_configuration(&OTHER), Ok(()));
    assert_eq!(driver.pending_config(), Some(OTHER));
    assert_eq!(driver.state(), State::AwaitingPageForPatch);
    assert_eq!(driver.transaction(), sample_request());
    let page = PageBuffer { bytes: [0u8; 512] };
    let bytes = written_page(driver.on_page_read_complete(page, FlashStatus::CommandComplete));
    assert_eq!(&bytes[496..], &SAMPLE);
}

#[test]
fn read_completion_does_not_look_at_the_status() {
    let mut ok = reading_driver();
    let mut failed = reading_driver();
    let from_ok =
        ok.on_page_read_complete(PageBuffer { bytes: [9u8; 512] }, FlashStatus::CommandComplete);
    let from_failed =
        failed.on_page_read_complete(PageBuffer { bytes: [9u8; 512] }, FlashStatus::FlashError);
    assert_eq!(from_ok, from_failed);
    assert_eq!(ok.state(), State::AwaitingWriteCompletion);
    assert_eq!(failed.state(), State::AwaitingWriteCompletion);
}

#[test]
fn read_completion_out_of_turn_patches_and_keeps_the_state() {
    let mut driver = fresh_driver();
    let page = PageBuffer { bytes: [0xEEu8; 512] };
    let bytes = written_page(driver.on_page_read_complete(page, FlashStatus::CommandComplete));
    assert_eq!(bytes[492], 1);
    assert!(bytes[493..].iter().all(|byte| *byte == 0));
    assert!(bytes[..492].iter().all(|byte| *byte == 0xEE));
    assert_eq!(driver.state(), State::Idle);
    assert!(driver.holds_page());
}

#[test]
fn write_completion_changes_nothing() {
    let mut driver = reading_driver();
    let bytes = written_page(
        driver.on_page_read_complete(PageBuffer { bytes: [0u8; 512] }, FlashStatus::CommandComplete),
    );
    for status in [FlashStatus::CommandComplete, FlashStatus::FlashError] {
        driver.on_page_write_complete(PageBuffer { bytes }, status);
        assert_eq!(driver.state(), State::AwaitingWriteCompletion);
        assert!(!driver.holds_page());
        assert_eq!(driver.transaction(), sample_request());
        assert_eq!(driver.pending_config(), Some(SAMPLE));
        assert_eq!(driver.trigger_update(), Err(UpdateError::ReservationConflict));
    }
}

#[test]
fn erase_completion_changes_nothing() {
    let mut idle = fresh_driver();
    idle.on_erase_complete(FlashStatus::CommandComplete);
    assert_eq!(idle.state(), State::Idle);
    assert!(idle.holds_page());
    assert_eq!(idle.pending_config(), None);
    let mut reading = reading_driver();
    reading.on_erase_complete(FlashStatus::FlashError);
    assert_eq!(reading.state(), State::AwaitingPageForPatch);
    assert_eq!(reading.transaction(), sample_request());
}

#[test]
fn query_always_succeeds() {
    let mut driver = fresh_driver();
    assert_eq!(driver.query_capability(), Ok(()));
    driver.provide_configuration(&SAMPLE).unwrap();
    driver.trigger_update().unwrap();
    assert_eq!(driver.query_capability(), Ok(()));
}

#[test]
fn command_numbers() {
    assert_eq!(COMMAND_QUERY, 0);
    assert_eq!(COMMAND_TRIGGER, 1);
}

#[test]
fn command_zero_reports_presence() {
    let mut driver = fresh_driver();
    assert_eq!(driver.command(0), Ok(None));
    assert_eq!(driver.state(), State::Idle);
    let mut reading = reading_driver();
    assert_eq!(reading.command(0), Ok(None));
    assert_eq!(reading.state(), State::AwaitingPageForPatch);
}

#[test]
fn command_one_triggers_the_update() {
    let mut driver = fresh_driver();
    assert_eq!(driver.command(1), Err(UpdateError::NoConfiguration));
    driver.provide_configuration(&SAMPLE).unwrap();
    assert_eq!(
        driver.command(1),
        Ok(Some(FlashAction::ReadPage {
            page_index: 2,
            buffer: PageBuffer { bytes: [0x11u8; 512] }
        }))
    );
    assert_eq!(driver.state(), State::AwaitingPageForPatch);
    assert_eq!(driver.transaction(), sample_request());
    assert_eq!(driver.command(1), Err(UpdateError::ReservationConflict));
}

#[test]
fn other_commands_are_unsupported() {
    for command_num in [2usize, 3, 16, usize::MAX] {
        let mut driver = fresh_driver();
        driver.provide_configuration(&SAMPLE).unwrap();
        assert_eq!(driver.command(command_num), Err(UpdateError::UnsupportedCommand));
        assert_eq!(driver.state(), State::Idle);
        assert!(driver.holds_page());
        assert_eq!(driver.transaction(), ZERO);
    }
}
