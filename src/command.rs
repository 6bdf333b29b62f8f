use vstd::prelude::*;

verus! {

/// The seven operations of the management endpoint.
#[derive(Clone, Copy, Debug, PartialEq, Eq, Structural)]
pub enum Command {
    Update,
    Reboot,
    Rng,
    Version,
    Uuid,
    Locked,
    Wink,
}

/// Errors raised while resolving or executing a request.
#[derive(Clone, Copy, Debug, PartialEq, Eq, Structural)]
pub enum Error {
    InvalidLength,
    NotAvailable,
    UnsupportedCommand,
}

/// Vendor command acting as a namespace: the first payload byte holds the command.
pub const ADMIN: u8 = 0x72;
/// Legacy vendor command: enter firmware update mode.
pub const UPDATE: u8 = 0x51;
/// Legacy vendor command: reboot.
pub const REBOOT: u8 = 0x53;
/// Legacy vendor command: random bytes.
pub const RNG: u8 = 0x60;
/// Legacy vendor command: firmware version.
pub const VERSION: u8 = 0x61;
/// Legacy vendor command: device UUID.
pub const UUID: u8 = 0x62;
/// Legacy vendor command: bootloader lock status.
pub const LOCKED: u8 = 0x63;
/// Standard CTAPHID wink command.
pub const WINK: u8 = 0x08;

/// What resolving a raw code gives: its command, or `UnsupportedCommand`.
pub open spec fn resolve(code: u8) -> Result<Command, Error> {
    match command_of(code) {
        Some(c) => Ok(c),
        None => Err(Error::UnsupportedCommand),
    }
}

/// The command that a raw code stands for, if any.
pub open spec fn command_of(code: u8) -> Option<Command> {
    if code == WINK {
        Some(Command::Wink)
    } else if code == UPDATE {
        Some(Command::Update)
    } else if code == REBOOT {
        Some(Command::Reboot)
    } else if code == RNG {
        Some(Command::Rng)
    } else if code == VERSION {
        Some(Command::Version)
    } else if code == UUID {
        Some(Command::Uuid)
    } else if code == LOCKED {
        Some(Command::Locked)
    } else {
        None
    }
}

impl TryFrom<u8> for Command {
    type Error = Error;

    /// Resolves a raw command byte: a legacy vendor code or the wink code.
    fn try_from(code: u8) -> (r: Result<Command, Error>)
        ensures
            r == resolve(code),
    {
        match code {
            WINK => Ok(Command::Wink),
            UPDATE => Ok(Command::Update),
            REBOOT => Ok(Command::Reboot),
            RNG => Ok(Command::Rng),
            VERSION => Ok(Command::Version),
            UUID => Ok(Command::Uuid),
            LOCKED => Ok(Command::Locked),
            _ => Err(Error::UnsupportedCommand),
        }
    }
}

impl vstd::std_specs::convert::TryFromSpecImpl<u8> for Command {
    open spec fn obeys_try_from_spec() -> bool {
        true
    }

    open spec fn try_from_spec(code: u8) -> Result<Command, Error> {
        resolve(code)
    }
}

} // verus!
