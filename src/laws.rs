use vstd::prelude::*;

use crate::app::{
    be_bytes, boot_calls_of, output_of, result_of, service_of, BootCall, Reply, Service,
    RNG_DATA_LEN,
};
use crate::channel::{apdu_request_of, hid_request_of, HidError, Interface, Status};
use crate::command::{command_of, Command, Error, ADMIN, REBOOT};

verus! {

/// A code other than the namespace code resolves the same way when sent
/// directly and when sent as the first payload byte of the namespace code,
/// with the same flag byte following it.
pub proof fn lemma_namespace_agrees(code: u8, rest: Seq<u8>)
    requires
        code != ADMIN,
    ensures
        hid_request_of(ADMIN, seq![code] + rest) == hid_request_of(code, rest),
{
    assert((seq![code] + rest).drop_first() =~= rest);
    assert((seq![code] + rest)[0] == code);
}

/// The version response is the big-endian encoding of the version: four
/// bytes that read back as the version.
pub proof fn lemma_version_response(uuid: Seq<u8>, version: u32, locked: bool)
    ensures
        output_of(uuid, version, locked, Command::Version, Reply::Nothing) == be_bytes(version),
        be_bytes(version).len() == 4,
        be_bytes(version)[0] as int * 0x1000000 + be_bytes(version)[1] as int * 0x10000
            + be_bytes(version)[2] as int * 0x100 + be_bytes(version)[3] as int == version as int,
{
    let b0 = (version >> 24u32) as u8;
    let b1 = (version >> 16u32) as u8;
    let b2 = (version >> 8u32) as u8;
    let b3 = version as u8;
    assert((b0 as u32) * 0x1000000u32 + (b1 as u32) * 0x10000u32 + (b2 as u32) * 0x100u32
        + (b3 as u32) == version) by (bit_vector)
        requires
            b0 == (version >> 24u32) as u8,
            b1 == (version >> 16u32) as u8,
            b2 == (version >> 8u32) as u8,
            b3 == version as u8,
    ;
}

/// The UUID response is the UUID itself, byte for byte.
pub proof fn lemma_uuid_response(uuid: Seq<u8>, version: u32, locked: bool)
    ensures
        output_of(uuid, version, locked, Command::Uuid, Reply::Nothing) == uuid,
{
}

/// The random-bytes command asks the client for exactly the packet's worth
/// of bytes, and the response is exactly that long when the client hands
/// them over.
pub proof fn lemma_random_response_len(uuid: Seq<u8>, version: u32, locked: bool, reply: Reply)
    requires
        reply is Random,
        reply->Random_0@.len() == RNG_DATA_LEN,
    ensures
        service_of(Command::Rng) == Some(Service::RandomBytes { len: RNG_DATA_LEN }),
        output_of(uuid, version, locked, Command::Rng, reply).len() == 57,
{
}

/// Over any interface but the contact one, a reboot on the smartcard
/// channel is refused before anything is executed.
pub proof fn lemma_reboot_only_over_contact(p1: u8, interface: Interface)
    requires
        interface != Interface::Contact,
    ensures
        apdu_request_of(REBOOT, p1, interface) == Err::<crate::channel::Request, Status>(
            Status::ConditionsOfUseNotSatisfied,
        ),
{
}

/// An update without confirmed presence fails with `NotAvailable`, asks for
/// no reboot and writes nothing.
pub proof fn lemma_update_needs_presence(
    uuid: Seq<u8>,
    version: u32,
    locked: bool,
    flag: Option<u8>,
)
    ensures
        result_of(Command::Update, Reply::Presence(false)) == Err::<(), Error>(Error::NotAvailable),
        boot_calls_of(Command::Update, flag, Reply::Presence(false)) == Seq::<BootCall>::empty(),
        output_of(uuid, version, locked, Command::Update, Reply::Presence(false))
            == Seq::<u8>::empty(),
{
}

/// With confirmed presence an update reboots into firmware update mode: the
/// destructive way exactly when the flag byte is present and equals one.
pub proof fn lemma_update_variant(flag: Option<u8>)
    ensures
        result_of(Command::Update, Reply::Presence(true)) == Ok::<(), Error>(()),
        flag == Some(1u8) ==> boot_calls_of(Command::Update, flag, Reply::Presence(true)) == seq![
            BootCall::FirmwareUpdateDestructive,
        ],
        flag != Some(1u8) ==> boot_calls_of(Command::Update, flag, Reply::Presence(true)) == seq![
            BootCall::FirmwareUpdate,
        ],
{
}

/// A code that stands for no command yields no request on either channel,
/// only the channel's unsupported-command error.
pub proof fn lemma_unresolvable_rejected(code: u8, payload: Seq<u8>, p1: u8, interface: Interface)
    requires
        command_of(code) is None,
    ensures
        code != ADMIN ==> hid_request_of(code, payload) == Err::<crate::channel::Request, HidError>(
            HidError::InvalidCommand,
        ),
        hid_request_of(ADMIN, seq![code] + payload) == Err::<crate::channel::Request, HidError>(
            HidError::InvalidCommand,
        ),
        apdu_request_of(code, p1, interface) == Err::<crate::channel::Request, Status>(
            Status::InstructionNotSupportedOrInvalid,
        ),
{
    assert((seq![code] + payload)[0] == code);
}

} // verus!
