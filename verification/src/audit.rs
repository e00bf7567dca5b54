//! Auditing policy options and the tags that identify them in the device's
//! option store.

use vstd::prelude::*;

verus! {

/// Auditing policy options.
#[derive(Copy, Clone, Debug, Eq, PartialEq, Structural, Hash)]
pub enum AuditOption {
    /// Audit logging disabled.
    Off,
    /// Audit logging enabled.
    On,
    /// Audit logging permanently enabled; not possible to turn off.
    Fix,
}

impl AuditOption {
    /// The byte denoting this audit option.
    pub open spec fn spec_to_u8(self) -> u8 {
        match self {
            AuditOption::Off => 0x00,
            AuditOption::On => 0x01,
            AuditOption::Fix => 0x02,
        }
    }

    /// The audit option denoted by a byte, if any.
    pub open spec fn spec_from_u8(byte: u8) -> Option<AuditOption> {
        match byte {
            0x00 => Some(AuditOption::Off),
            0x01 => Some(AuditOption::On),
            0x02 => Some(AuditOption::Fix),
            _ => None,
        }
    }

    /// Convert an unsigned byte into an audit option (if valid).
    pub fn from_u8(byte: u8) -> (r: Option<Self>)
        ensures
            r == Self::spec_from_u8(byte),
    {
        match byte {
            0x00 => Some(AuditOption::Off),
            0x01 => Some(AuditOption::On),
            0x02 => Some(AuditOption::Fix),
            _ => None,
        }
    }

    /// Serialize this audit option as a byte.
    pub fn to_u8(self) -> (r: u8)
        ensures
            r == self.spec_to_u8(),
    {
        match self {
            AuditOption::Off => 0x00,
            AuditOption::On => 0x01,
            AuditOption::Fix => 0x02,
        }
    }
}

/// Decoding the byte of an audit option yields the option back.
pub proof fn lemma_audit_option_roundtrip(option: AuditOption)
    ensures
        AuditOption::spec_from_u8(option.spec_to_u8()) == Some(option),
{
}

/// Tags which identify different types of auditing options.
#[derive(Copy, Clone, Debug, Eq, PartialEq, Structural, Hash)]
pub enum AuditTag {
    /// Forced auditing of all commands.
    Force,
    /// Per-command audit configuration.
    Command,
}

impl AuditTag {
    /// The byte denoting this audit tag.
    pub open spec fn spec_to_u8(self) -> u8 {
        match self {
            AuditTag::Force => 0x01,
            AuditTag::Command => 0x03,
        }
    }

    /// The audit tag denoted by a byte, if any.
    pub open spec fn spec_from_u8(byte: u8) -> Option<AuditTag> {
        match byte {
            0x01 => Some(AuditTag::Force),
            0x03 => Some(AuditTag::Command),
            _ => None,
        }
    }

    /// Convert an unsigned byte into an audit tag (if valid).
    pub fn from_u8(byte: u8) -> (r: Option<Self>)
        ensures
            r == Self::spec_from_u8(byte),
    {
        match byte {
            0x01 => Some(AuditTag::Force),
            0x03 => Some(AuditTag::Command),
            _ => None,
        }
    }

    /// Serialize this audit tag as a byte.
    pub fn to_u8(self) -> (r: u8)
        ensures
            r == self.spec_to_u8(),
    {
        match self {
            AuditTag::Force => 0x01,
            AuditTag::Command => 0x03,
        }
    }
}

/// Audit settings for a particular command.
#[derive(Copy, Clone, Debug, Eq, PartialEq, Structural, Hash)]
pub struct AuditCommand {
    /// The command code being audited.
    pub command: crate::codes::CommandCode,
    /// Audit settings for this command.
    pub audit: AuditOption,
}

} // verus!
