use management_app::app::{service, BootCall, RecordingPlatform, RNG_DATA_LEN};
use management_app::channel::AID;
use management_app::command::{ADMIN, LOCKED, REBOOT, RNG, UPDATE, UUID, VERSION, WINK};
use management_app::{
    apdu_request, hid_commands, hid_request, App, Command, Error, HidError, Interface, Reboot,
    Reply, Request, Service, Status,
};

const DEVICE_UUID: [u8; 16] = [
    0x00, 0x11, 0x22, 0x33, 0x44, 0x55, 0x66, 0x77, 0x88, 0x99, 0xAA, 0xBB, 0xCC, 0xDD, 0xEE, 0xFF,
];

fn endpoint(locked: bool) -> App<RecordingPlatform> {
    App::new(RecordingPlatform::new(locked), DEVICE_UUID, 0x0102_0304)
}

fn total_reboots(app: &App<RecordingPlatform>) -> usize {
    app.boot().calls.len()
}

fn count(app: &App<RecordingPlatform>, call: BootCall) -> usize {
    app.boot().calls.iter().filter(|c| **c == call).count()
}

#[test]
fn resolves_every_known_code() {
    assert_eq!(Command::try_from(WINK), Ok(Command::Wink));
    assert_eq!(Command::try_from(UPDATE), Ok(Command::Update));
    assert_eq!(Command::try_from(REBOOT), Ok(Command::Reboot));
    assert_eq!(Command::try_from(RNG), Ok(Command::Rng));
    assert_eq!(Command::try_from(VERSION), Ok(Command::Version));
    assert_eq!(Command::try_from(UUID), Ok(Command::Uuid));
    assert_eq!(Command::try_from(LOCKED), Ok(Command::Locked));
    assert_eq!(Command::try_from(0x51u8), Ok(Command::Update));
    assert_eq!(Command::try_from(0x08u8), Ok(Command::Wink));
}

#[test]
fn rejects_unknown_codes() {
    for code in [0x00u8, 0x01, 0x40, 0x52, 0x64, 0x72, 0x7F, 0x80, 0xFF] {
        assert_eq!(Command::try_from(code), Err(Error::UnsupportedCommand));
    }
}

#[test]
fn resolution_is_total() {
    let mut known = 0;
    for code in 0..=255u8 {
        if Command::try_from(code).is_ok() {
            known += 1;
        }
    }
    assert_eq!(known, 7);
}

#[test]
fn namespace_matches_direct_codes() {
    for code in 0..=255u8 {
        if code == ADMIN {
            continue;
        }
        for rest in [vec![], vec![0x01], vec![0x00, 0x05]] {
            let mut namespaced = vec![code];
            namespaced.extend_from_slice(&rest);
            assert_eq!(hid_request(ADMIN, &namespaced), hid_request(code, &rest));
        }
    }
}

#[test]
fn namespace_without_payload_is_invalid_length() {
    assert_eq!(hid_request(ADMIN, &[]), Err(HidError::InvalidLength));
}

#[test]
fn flag_byte_positions() {
    assert_eq!(
        hid_request(ADMIN, &[UPDATE, 0x01, 0x09]),
        Ok(Request { command: Command::Update, flag: Some(0x01) })
    );
    assert_eq!(
        hid_request(ADMIN, &[VERSION]),
        Ok(Request { command: Command::Version, flag: None })
    );
    assert_eq!(
        hid_request(UPDATE, &[0x01]),
        Ok(Request { command: Command::Update, flag: Some(0x01) })
    );
    assert_eq!(hid_request(WINK, &[]), Ok(Request { command: Command::Wink, flag: None }));
    assert_eq!(
        apdu_request(UPDATE, 0x01, Interface::Contactless),
        Ok(Request { command: Command::Update, flag: Some(0x01) })
    );
}

#[test]
fn registered_vendor_commands() {
    assert_eq!(hid_commands(), vec![0x08, 0x72, 0x51, 0x53, 0x60, 0x61, 0x62, 0x63]);
}

#[test]
fn application_identifier() {
    assert_eq!(AID, [0xA0, 0x00, 0x00, 0x08, 0x47, 0x00, 0x00, 0x00, 0x01]);
}

#[test]
fn error_mappings() {
    assert_eq!(HidError::from(Error::InvalidLength), HidError::InvalidLength);
    assert_eq!(HidError::from(Error::UnsupportedCommand), HidError::InvalidCommand);
    assert_eq!(HidError::from(Error::NotAvailable), HidError::NotAvailable);
    assert_eq!(Status::from(Error::InvalidLength), Status::WrongLength);
    assert_eq!(Status::from(Error::UnsupportedCommand), Status::InstructionNotSupportedOrInvalid);
    assert_eq!(Status::from(Error::NotAvailable), Status::ConditionsOfUseNotSatisfied);
}

#[test]
fn services_needed() {
    assert_eq!(service(Command::Update), Some(Service::ConfirmPresence { timeout_ms: 15_000 }));
    assert_eq!(service(Command::Rng), Some(Service::RandomBytes { len: 57 }));
    assert_eq!(service(Command::Wink), Some(Service::Wink { seconds: 10 }));
    assert_eq!(service(Command::Reboot), None);
    assert_eq!(service(Command::Version), None);
    assert_eq!(service(Command::Uuid), None);
    assert_eq!(service(Command::Locked), None);
}

#[test]
fn version_is_big_endian() {
    let mut app = endpoint(false);
    let mut out = Vec::new();
    assert_eq!(app.exec(Command::Version, None, Reply::Nothing, &mut out), Ok(()));
    assert_eq!(out, vec![0x01, 0x02, 0x03, 0x04]);

    let mut app = App::new(RecordingPlatform::new(false), DEVICE_UUID, 0xDEAD_BEEF);
    let mut out = Vec::new();
    assert_eq!(app.exec(Command::Version, Some(0x01), Reply::Nothing, &mut out), Ok(()));
    assert_eq!(out, vec![0xDE, 0xAD, 0xBE, 0xEF]);
    assert_eq!(app.version(), 0xDEAD_BEEF);
}

#[test]
fn uuid_is_returned_verbatim() {
    let mut app = endpoint(false);
    let mut out = Vec::new();
    assert_eq!(app.exec(Command::Uuid, None, Reply::Nothing, &mut out), Ok(()));
    assert_eq!(out, DEVICE_UUID.to_vec());
    assert_eq!(app.uuid(), DEVICE_UUID);
}

#[test]
fn response_is_appended_to() {
    let mut app = endpoint(false);
    let mut out = vec![0xAA];
    assert_eq!(app.exec(Command::Version, None, Reply::Nothing, &mut out), Ok(()));
    assert_eq!(out, vec![0xAA, 0x01, 0x02, 0x03, 0x04]);
}

#[test]
fn random_bytes_fill_one_packet() {
    let mut app = endpoint(false);
    let Some(Service::RandomBytes { len }) = service(Command::Rng) else {
        panic!("random bytes need the client");
    };
    assert_eq!(len, RNG_DATA_LEN);
    let drawn: Vec<u8> = (0..len).map(|i| (i * 7) as u8).collect();
    let mut out = Vec::new();
    assert_eq!(app.exec(Command::Rng, None, Reply::Random(drawn.clone()), &mut out), Ok(()));
    assert_eq!(out.len(), 57);
    assert_eq!(out, drawn);
}

#[test]
fn locked_status_is_one_byte() {
    let mut app = endpoint(true);
    let mut out = Vec::new();
    assert_eq!(app.exec(Command::Locked, None, Reply::Nothing, &mut out), Ok(()));
    assert_eq!(out, vec![1]);

    let mut app = endpoint(false);
    let mut out = Vec::new();
    assert_eq!(app.exec(Command::Locked, None, Reply::Nothing, &mut out), Ok(()));
    assert_eq!(out, vec![0]);
}

#[test]
fn wink_writes_nothing() {
    let mut app = endpoint(false);
    let mut out = Vec::new();
    assert_eq!(app.exec(Command::Wink, None, Reply::Nothing, &mut out), Ok(()));
    assert!(out.is_empty());
    assert_eq!(total_reboots(&app), 0);
}

#[test]
fn reboot_over_contact_reboots() {
    let mut app = endpoint(false);
    let request = apdu_request(REBOOT, 0x00, Interface::Contact).unwrap();
    let mut out = Vec::new();
    assert_eq!(app.exec_apdu(request, Reply::Nothing, &mut out), Ok(()));
    assert_eq!(count(&app, BootCall::Reboot), 1);
    assert!(out.is_empty());
}

/// Runs one smartcard-channel call the way the transport glue does: the
/// executor is only reached with a resolved request.
fn apdu_call(
    app: &mut App<RecordingPlatform>,
    instruction: u8,
    p1: u8,
    interface: Interface,
    reply: Reply,
    out: &mut Vec<u8>,
) -> Result<(), Status> {
    let request = apdu_request(instruction, p1, interface)?;
    app.exec_apdu(request, reply, out)
}

#[test]
fn reboot_over_contactless_is_refused() {
    let mut app = endpoint(false);
    let mut out = Vec::new();
    assert_eq!(
        apdu_call(&mut app, REBOOT, 0x00, Interface::Contactless, Reply::Nothing, &mut out),
        Err(Status::ConditionsOfUseNotSatisfied)
    );
    assert_eq!(total_reboots(&app), 0);
    assert!(out.is_empty());

    assert_eq!(apdu_call(&mut app, REBOOT, 0x00, Interface::Contact, Reply::Nothing, &mut out), Ok(()));
    assert_eq!(count(&app, BootCall::Reboot), 1);
}

#[test]
fn unknown_instruction_never_reaches_the_platform() {
    let mut app = endpoint(false);
    let mut out = Vec::new();
    assert_eq!(
        apdu_call(&mut app, 0x64, 0x01, Interface::Contact, Reply::Nothing, &mut out),
        Err(Status::InstructionNotSupportedOrInvalid)
    );
    assert_eq!(total_reboots(&app), 0);
    assert!(out.is_empty());
}

#[test]
fn version_and_wink_leave_the_platform_alone() {
    let mut app = endpoint(false);
    let mut out = Vec::new();
    assert_eq!(app.exec(Command::Version, Some(0x01), Reply::Nothing, &mut out), Ok(()));
    assert_eq!(app.exec(Command::Wink, Some(0x01), Reply::Nothing, &mut out), Ok(()));
    assert_eq!(app.exec(Command::Locked, Some(0x01), Reply::Nothing, &mut out), Ok(()));
    assert_eq!(total_reboots(&app), 0);
}

#[test]
fn reboot_over_vendor_channel() {
    let mut app = endpoint(false);
    let request = hid_request(REBOOT, &[]).unwrap();
    let mut out = Vec::new();
    assert_eq!(app.exec_hid(request, Reply::Nothing, &mut out), Ok(()));
    assert_eq!(count(&app, BootCall::Reboot), 1);
}

#[test]
fn update_without_presence_is_not_available() {
    let mut app = endpoint(false);
    let mut out = Vec::new();
    assert_eq!(
        app.exec(Command::Update, Some(0x01), Reply::Presence(false), &mut out),
        Err(Error::NotAvailable)
    );
    assert!(out.is_empty());
    assert_eq!(total_reboots(&app), 0);

    let request = hid_request(UPDATE, &[]).unwrap();
    assert_eq!(
        app.exec_hid(request, Reply::Presence(false), &mut out),
        Err(HidError::NotAvailable)
    );
    let request = apdu_request(UPDATE, 0x00, Interface::Contact).unwrap();
    assert_eq!(
        app.exec_apdu(request, Reply::Presence(false), &mut out),
        Err(Status::ConditionsOfUseNotSatisfied)
    );
    assert_eq!(total_reboots(&app), 0);
}

#[test]
fn update_with_flag_one_is_destructive() {
    let mut app = endpoint(false);
    let mut out = Vec::new();
    assert_eq!(app.exec(Command::Update, Some(0x01), Reply::Presence(true), &mut out), Ok(()));
    assert_eq!(count(&app, BootCall::FirmwareUpdateDestructive), 1);
    assert_eq!(count(&app, BootCall::FirmwareUpdate), 0);
    assert!(out.is_empty());
}

#[test]
fn update_with_other_flags_is_normal() {
    for flag in [None, Some(0x00), Some(0x02), Some(0xFF)] {
        let mut app = endpoint(false);
        let mut out = Vec::new();
        assert_eq!(app.exec(Command::Update, flag, Reply::Presence(true), &mut out), Ok(()));
        assert_eq!(count(&app, BootCall::FirmwareUpdate), 1);
        assert_eq!(count(&app, BootCall::FirmwareUpdateDestructive), 0);
    }
}

#[test]
fn namespaced_update_flag_reaches_executor() {
    let mut app = endpoint(false);
    let request = hid_request(ADMIN, &[UPDATE, 0x01]).unwrap();
    let mut out = Vec::new();
    assert_eq!(app.exec_hid(request, Reply::Presence(true), &mut out), Ok(()));
    assert_eq!(count(&app, BootCall::FirmwareUpdateDestructive), 1);
}

#[test]
fn unknown_codes_are_unsupported_on_both_channels() {
    for code in [0x00u8, 0x52, 0x64, 0x80, 0xFF] {
        assert_eq!(hid_request(code, &[0x01]), Err(HidError::InvalidCommand));
        assert_eq!(hid_request(ADMIN, &[code, 0x01]), Err(HidError::InvalidCommand));
        assert_eq!(
            apdu_request(code, 0x00, Interface::Contact),
            Err(Status::InstructionNotSupportedOrInvalid)
        );
    }
    assert_eq!(apdu_request(ADMIN, 0x00, Interface::Contact), Err(Status::InstructionNotSupportedOrInvalid));
}

#[test]
fn update_reply_of_another_kind_is_no_presence() {
    let mut app = endpoint(false);
    let mut out = Vec::new();
    assert_eq!(app.exec(Command::Update, Some(0x01), Reply::Nothing, &mut out), Err(Error::NotAvailable));
    assert!(out.is_empty());
    assert_eq!(total_reboots(&app), 0);
}
