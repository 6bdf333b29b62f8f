use vstd::prelude::*;

use crate::channel::{hid_error_of, status_of, HidError, Request, Status};
use crate::command::{Command, Error};

verus! {

/// Seconds the user has to confirm presence before an update.
pub const USER_PRESENCE_TIMEOUT_SECS: u32 = 15;

/// Number of random bytes returned, filling one HID packet.
pub const RNG_DATA_LEN: usize = 57;

/// Seconds the device winks for.
pub const WINK_SECS: u64 = 10;

/// Reboot and boot-status operations of the platform.
///
/// On a device the three reboot methods do not return; a test double may
/// return instead, so that the caller goes on. `log` is the sequence of
/// reboots asked of the platform, oldest first.
pub trait Reboot {
    /// The reboots asked of the platform so far.
    spec fn log(&self) -> Seq<BootCall>;

    /// Whether the bootloader is locked down.
    spec fn is_locked(&self) -> bool;

    /// Reboots the device.
    fn reboot(&mut self)
        ensures
            final(self).log() == old(self).log().push(BootCall::Reboot),
    ;

    /// Reboots the device into its firmware update mode.
    fn reboot_to_firmware_update(&mut self)
        ensures
            final(self).log() == old(self).log().push(BootCall::FirmwareUpdate),
    ;

    /// Reboots the device into firmware update mode the destructive but
    /// more reliable way.
    fn reboot_to_firmware_update_destructive(&mut self)
        ensures
            final(self).log() == old(self).log().push(BootCall::FirmwareUpdateDestructive),
    ;

    /// Whether the bootloader is locked down (secure boot enabled).
    fn locked(&self) -> (r: bool)
        ensures
            r == self.is_locked(),
    ;
}

/// A reboot the endpoint asked of its platform.
#[derive(Clone, Copy, Debug, PartialEq, Eq, Structural)]
pub enum BootCall {
    Reboot,
    FirmwareUpdate,
    FirmwareUpdateDestructive,
}

/// A platform that records the reboots asked of it instead of performing
/// them, and reports a fixed lock status.
pub struct RecordingPlatform {
    pub calls: Vec<BootCall>,
    pub locked: bool,
}

impl RecordingPlatform {
    /// A platform with no reboots recorded yet.
    pub fn new(locked: bool) -> (r: Self)
        ensures
            r.calls@ == Seq::<BootCall>::empty(),
            r.locked == locked,
    {
        RecordingPlatform { calls: Vec::new(), locked }
    }
}

impl Reboot for RecordingPlatform {
    open spec fn log(&self) -> Seq<BootCall> {
        self.calls@
    }

    open spec fn is_locked(&self) -> bool {
        self.locked
    }

    fn reboot(&mut self) {
        self.calls.push(BootCall::Reboot);
    }

    fn reboot_to_firmware_update(&mut self) {
        self.calls.push(BootCall::FirmwareUpdate);
    }

    fn reboot_to_firmware_update_destructive(&mut self) {
        self.calls.push(BootCall::FirmwareUpdateDestructive);
    }

    fn locked(&self) -> (r: bool) {
        self.locked
    }
}

/// A round trip to the secure-execution client that a command needs
/// before it can be executed.
#[derive(Clone, Copy, Debug, PartialEq, Eq, Structural)]
pub enum Service {
    ConfirmPresence { timeout_ms: u32 },
    RandomBytes { len: usize },
    Wink { seconds: u64 },
}

/// What the secure-execution client answered.
#[derive(Clone, Debug)]
pub enum Reply {
    /// No answer carries data (no service, or a wink).
    Nothing,
    /// Whether the user confirmed presence in time.
    Presence(bool),
    /// The random bytes drawn.
    Random(Vec<u8>),
}

/// The client service each command needs before it runs.
pub open spec fn service_of(command: Command) -> Option<Service> {
    match command {
        Command::Update => Some(
            Service::ConfirmPresence { timeout_ms: (USER_PRESENCE_TIMEOUT_SECS * 1000) as u32 },
        ),
        Command::Rng => Some(Service::RandomBytes { len: RNG_DATA_LEN }),
        Command::Wink => Some(Service::Wink { seconds: WINK_SECS }),
        _ => None,
    }
}

/// A random-bytes reply carrying exactly the bytes asked for.
pub open spec fn random_reply(reply: Reply) -> bool {
    reply is Random && reply->Random_0@.len() == RNG_DATA_LEN
}

/// The four bytes of `v`, most significant first.
pub open spec fn be_bytes(v: u32) -> Seq<u8> {
    seq![(v >> 24u32) as u8, (v >> 16u32) as u8, (v >> 8u32) as u8, v as u8]
}

/// The bytes a command appends to the response, given the device identity,
/// the lock status the platform reports and the client's reply.
pub open spec fn output_of(
    uuid: Seq<u8>,
    version: u32,
    locked: bool,
    command: Command,
    reply: Reply,
) -> Seq<u8> {
    match command {
        Command::Locked => seq![if locked { 1u8 } else { 0u8 }],
        Command::Rng => match reply {
            Reply::Random(bytes) => bytes@,
            _ => Seq::empty(),
        },
        Command::Uuid => uuid,
        Command::Version => be_bytes(version),
        _ => Seq::empty(),
    }
}

/// The reboots a command asks of the platform.
pub open spec fn boot_calls_of(command: Command, flag: Option<u8>, reply: Reply) -> Seq<BootCall> {
    match command {
        Command::Reboot => seq![BootCall::Reboot],
        Command::Update => if reply == Reply::Presence(true) {
            if flag == Some(1u8) {
                seq![BootCall::FirmwareUpdateDestructive]
            } else {
                seq![BootCall::FirmwareUpdate]
            }
        } else {
            Seq::empty()
        },
        _ => Seq::empty(),
    }
}

/// The result of executing a command.
pub open spec fn result_of(command: Command, reply: Reply) -> Result<(), Error> {
    if command == Command::Update && reply != Reply::Presence(true) {
        Err(Error::NotAvailable)
    } else {
        Ok(())
    }
}

/// The secure-execution service a command needs first, if any.
pub fn service(command: Command) -> (r: Option<Service>)
    ensures
        r == service_of(command),
{
    match command {
        Command::Update => Some(
            Service::ConfirmPresence { timeout_ms: USER_PRESENCE_TIMEOUT_SECS * 1000 },
        ),
        Command::Rng => Some(Service::RandomBytes { len: RNG_DATA_LEN }),
        Command::Wink => Some(Service::Wink { seconds: WINK_SECS }),
        _ => None,
    }
}

/// The management endpoint: device identity and the platform's reboot
/// operations, fixed at construction.
pub struct App<R: Reboot> {
    boot: R,
    uuid: [u8; 16],
    version: u32,
}

impl<R: Reboot> App<R> {
    /// The device UUID given at construction.
    pub closed spec fn uuid_spec(&self) -> Seq<u8> {
        self.uuid@
    }

    /// The firmware version given at construction.
    pub closed spec fn version_spec(&self) -> u32 {
        self.version
    }

    /// The platform operations given at construction, in their current state.
    pub closed spec fn boot_spec(&self) -> R {
        self.boot
    }

    /// An endpoint over the given platform operations and device identity.
    pub fn new(boot: R, uuid: [u8; 16], version: u32) -> (r: Self)
        ensures
            r.uuid_spec() == uuid@,
            r.version_spec() == version,
            r.boot_spec() == boot,
    {
        App { boot, uuid, version }
    }

    /// The device UUID.
    pub fn uuid(&self) -> (r: [u8; 16])
        ensures
            r@ == self.uuid_spec(),
    {
        self.uuid
    }

    /// The firmware version.
    pub fn version(&self) -> (r: u32)
        ensures
            r == self.version_spec(),
    {
        self.version
    }

    /// The platform's reboot operations.
    pub fn boot(&self) -> (r: &R)
        ensures
            *r == self.boot_spec(),
    {
        &self.boot
    }

    /// Executes a command, appending its output to `response`.
    ///
    /// `reply` is what the secure-execution client answered to
    /// `service(command)`; for an update, a reply of another kind counts as
    /// no presence.
    pub fn exec(&mut self, command: Command, flag: Option<u8>, reply: Reply, response: &mut Vec<u8>) -> (r:
        Result<(), Error>)
        requires
            command == Command::Rng ==> random_reply(reply),
        ensures
            r == result_of(command, reply),
            final(self).uuid_spec() == old(self).uuid_spec(),
            final(self).version_spec() == old(self).version_spec(),
            final(self).boot_spec().log() == old(self).boot_spec().log() + boot_calls_of(command, flag, reply),
            boot_calls_of(command, flag, reply).len() == 0 ==> final(self).boot_spec() == old(self).boot_spec(),
            final(response)@ == old(response)@ + output_of(
                old(self).uuid_spec(),
                old(self).version_spec(),
                old(self).boot_spec().is_locked(),
                command,
                reply,
            ),
    {
        let ghost reply0 = reply;
        let ghost start = response@;
        let ghost uuid = self.uuid_spec();
        let ghost version = self.version_spec();
        let ghost is_locked = self.boot.is_locked();
        match command {
            Command::Reboot => {
                self.boot.reboot();
            },
            Command::Locked => {
                let locked = self.boot.locked();
                response.push(if locked { 1u8 } else { 0u8 });
                assert(response@ =~= start + output_of(uuid, version, is_locked, command, reply0));
                return Ok(());
            },
            Command::Rng => {
                match reply {
                    Reply::Random(bytes) => {
                        let mut bytes = bytes;
                        response.append(&mut bytes);
                    },
                    _ => {},
                }
            },
            Command::Update => {
                let present = match reply {
                    Reply::Presence(p) => p,
                    _ => false,
                };
                if present {
                    if flag == Some(0x01u8) {
                        self.boot.reboot_to_firmware_update_destructive();
                    } else {
                        self.boot.reboot_to_firmware_update();
                    }
                } else {
                    assert(response@ =~= start + output_of(uuid, version, is_locked, command, reply0));
                    return Err(Error::NotAvailable);
                }
            },
            Command::Uuid => {
                response.extend_from_slice(&self.uuid);
            },
            Command::Version => {
                let v = self.version;
                response.push(#[verifier::truncate] ((v >> 24u32) as u8));
                response.push(#[verifier::truncate] ((v >> 16u32) as u8));
                response.push(#[verifier::truncate] ((v >> 8u32) as u8));
                response.push(#[verifier::truncate] (v as u8));
            },
            Command::Wink => {},
        }
        assert(response@ =~= start + output_of(uuid, version, is_locked, command, reply0));
        Ok(())
    }
    /// Executes a vendor-channel request, reporting errors in that channel's terms.
    pub fn exec_hid(&mut self, request: Request, reply: Reply, response: &mut Vec<u8>) -> (r: Result<
        (),
        HidError,
    >)
        requires
            request.command == Command::Rng ==> random_reply(reply),
        ensures
            r == match result_of(request.command, reply) {
                Ok(()) => Ok::<(), HidError>(()),
                Err(e) => Err(hid_error_of(e)),
            },
            final(self).uuid_spec() == old(self).uuid_spec(),
            final(self).version_spec() == old(self).version_spec(),
            final(self).boot_spec().log() == old(self).boot_spec().log() + boot_calls_of(request.command, request.flag, reply),
            boot_calls_of(request.command, request.flag, reply).len() == 0 ==> final(self).boot_spec() == old(self).boot_spec(),
            final(response)@ == old(response)@ + output_of(
                old(self).uuid_spec(),
                old(self).version_spec(),
                old(self).boot_spec().is_locked(),
                request.command,
                reply,
            ),
    {
        match self.exec(request.command, request.flag, reply, response) {
            Ok(()) => Ok(()),
            Err(e) => Err(HidError::from(e)),
        }
    }

    /// Executes a smartcard-channel request, reporting errors as status words.
    pub fn exec_apdu(&mut self, request: Request, reply: Reply, response: &mut Vec<u8>) -> (r:
        Result<(), Status>)
        requires
            request.command == Command::Rng ==> random_reply(reply),
        ensures
            r == match result_of(request.command, reply) {
                Ok(()) => Ok::<(), Status>(()),
                Err(e) => Err(status_of(e)),
            },
            final(self).uuid_spec() == old(self).uuid_spec(),
            final(self).version_spec() == old(self).version_spec(),
            final(self).boot_spec().log() == old(self).boot_spec().log() + boot_calls_of(request.command, request.flag, reply),
            boot_calls_of(request.command, request.flag, reply).len() == 0 ==> final(self).boot_spec() == old(self).boot_spec(),
            final(response)@ == old(response)@ + output_of(
                old(self).uuid_spec(),
                old(self).version_spec(),
                old(self).boot_spec().is_locked(),
                request.command,
                reply,
            ),
    {
        match self.exec(request.command, request.flag, reply, response) {
            Ok(()) => Ok(()),
            Err(e) => Err(Status::from(e)),
        }
    }
}

} // verus!
