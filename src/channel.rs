use vstd::prelude::*;

use crate::command::{resolve, Command, Error, ADMIN};

verus! {

/// Errors of the CTAPHID vendor channel.
#[derive(Clone, Copy, Debug, PartialEq, Eq, Structural)]
pub enum HidError {
    InvalidLength,
    InvalidCommand,
    NotAvailable,
}

/// ISO 7816 status words that the smartcard channel reports.
#[derive(Clone, Copy, Debug, PartialEq, Eq, Structural)]
pub enum Status {
    WrongLength,
    ConditionsOfUseNotSatisfied,
    InstructionNotSupportedOrInvalid,
}

/// The physical interface an APDU arrived on.
#[derive(Clone, Copy, Debug, PartialEq, Eq, Structural)]
pub enum Interface {
    Contact,
    Contactless,
}

/// A resolved request: the command and its optional flag byte.
#[derive(Clone, Copy, Debug, PartialEq, Eq, Structural)]
pub struct Request {
    pub command: Command,
    pub flag: Option<u8>,
}

/// Application identifier of the management application.
pub const AID: [u8; 9] = [0xA0, 0x00, 0x00, 0x08, 0x47, 0x00, 0x00, 0x00, 0x01];

/// The vendor-channel error for each endpoint error.
pub open spec fn hid_error_of(e: Error) -> HidError {
    match e {
        Error::InvalidLength => HidError::InvalidLength,
        Error::NotAvailable => HidError::NotAvailable,
        Error::UnsupportedCommand => HidError::InvalidCommand,
    }
}

/// The status word for each endpoint error.
pub open spec fn status_of(e: Error) -> Status {
    match e {
        Error::InvalidLength => Status::WrongLength,
        Error::NotAvailable => Status::ConditionsOfUseNotSatisfied,
        Error::UnsupportedCommand => Status::InstructionNotSupportedOrInvalid,
    }
}

impl From<Error> for HidError {
    fn from(e: Error) -> (r: HidError)
        ensures
            r == hid_error_of(e),
    {
        match e {
            Error::InvalidLength => HidError::InvalidLength,
            Error::NotAvailable => HidError::NotAvailable,
            Error::UnsupportedCommand => HidError::InvalidCommand,
        }
    }
}

impl vstd::std_specs::convert::FromSpecImpl<Error> for HidError {
    open spec fn obeys_from_spec() -> bool {
        true
    }

    open spec fn from_spec(e: Error) -> HidError {
        hid_error_of(e)
    }
}

impl From<Error> for Status {
    fn from(e: Error) -> (r: Status)
        ensures
            r == status_of(e),
    {
        match e {
            Error::InvalidLength => Status::WrongLength,
            Error::NotAvailable => Status::ConditionsOfUseNotSatisfied,
            Error::UnsupportedCommand => Status::InstructionNotSupportedOrInvalid,
        }
    }
}

impl vstd::std_specs::convert::FromSpecImpl<Error> for Status {
    open spec fn obeys_from_spec() -> bool {
        true
    }

    open spec fn from_spec(e: Error) -> Status {
        status_of(e)
    }
}

/// The first byte of a sequence, if any.
pub open spec fn first_of(s: Seq<u8>) -> Option<u8> {
    if s.len() > 0 {
        Some(s[0])
    } else {
        None
    }
}

/// What the vendor channel makes of a command code and its payload.
///
/// The namespace code takes the command from the first payload byte and the
/// flag from the second; any other code is resolved itself, with the flag in
/// the first payload byte.
pub open spec fn hid_request_of(code: u8, payload: Seq<u8>) -> Result<Request, HidError> {
    if code == ADMIN {
        if payload.len() == 0 {
            Err(HidError::InvalidLength)
        } else {
            match resolve(payload[0]) {
                Ok(c) => Ok(Request { command: c, flag: first_of(payload.drop_first()) }),
                Err(e) => Err(hid_error_of(e)),
            }
        }
    } else {
        match resolve(code) {
            Ok(c) => Ok(Request { command: c, flag: first_of(payload) }),
            Err(e) => Err(hid_error_of(e)),
        }
    }
}

/// What the smartcard channel makes of an instruction byte, its `p1` and
/// the interface: a reboot is only taken over the contact interface.
pub open spec fn apdu_request_of(instruction: u8, p1: u8, interface: Interface) -> Result<
    Request,
    Status,
> {
    match resolve(instruction) {
        Ok(c) => if c == Command::Reboot && interface != Interface::Contact {
            Err(Status::ConditionsOfUseNotSatisfied)
        } else {
            Ok(Request { command: c, flag: Some(p1) })
        },
        Err(e) => Err(status_of(e)),
    }
}

/// The commands the vendor channel registers for: wink, the namespace code
/// and every legacy vendor code.
pub fn hid_commands() -> (r: Vec<u8>)
    ensures
        r@ == seq![
            crate::command::WINK,
            ADMIN,
            crate::command::UPDATE,
            crate::command::REBOOT,
            crate::command::RNG,
            crate::command::VERSION,
            crate::command::UUID,
            crate::command::LOCKED,
        ],
{
    vec![
        crate::command::WINK,
        ADMIN,
        crate::command::UPDATE,
        crate::command::REBOOT,
        crate::command::RNG,
        crate::command::VERSION,
        crate::command::UUID,
        crate::command::LOCKED,
    ]
}

/// Resolves a vendor-channel call into a request.
pub fn hid_request(code: u8, payload: &[u8]) -> (r: Result<Request, HidError>)
    ensures
        r == hid_request_of(code, payload@),
{
    if code == ADMIN {
        if payload.len() == 0 {
            return Err(HidError::InvalidLength);
        }
        let command = match Command::try_from(payload[0]) {
            Ok(c) => c,
            Err(e) => return Err(HidError::from(e)),
        };
        let flag = if payload.len() > 1 {
            Some(payload[1])
        } else {
            None
        };
        proof {
            assert(first_of(payload@.drop_first()) == flag);
        }
        Ok(Request { command, flag })
    } else {
        let command = match Command::try_from(code) {
            Ok(c) => c,
            Err(e) => return Err(HidError::from(e)),
        };
        let flag = if payload.len() > 0 {
            Some(payload[0])
        } else {
            None
        };
        Ok(Request { command, flag })
    }
}

/// Resolves a smartcard-channel call into a request, applying the rule that
/// a reboot is only taken over the contact interface.
pub fn apdu_request(instruction: u8, p1: u8, interface: Interface) -> (r: Result<Request, Status>)
    ensures
        r == apdu_request_of(instruction, p1, interface),
{
    let command = match Command::try_from(instruction) {
        Ok(c) => c,
        Err(e) => return Err(Status::from(e)),
    };
    if command == Command::Reboot && interface != Interface::Contact {
        return Err(Status::ConditionsOfUseNotSatisfied);
    }
    Ok(Request { command, flag: Some(p1) })
}

} // verus!
