//! Error taxonomy of the engine.
//!
//! Configuration and platform errors abort construction before any hardware
//! is armed; runtime errors are returned without side effects on engine
//! state; teardown errors are non-fatal and aggregated so that teardown can
//! proceed best-effort.

use vstd::prelude::*;

verus! {

/// A configuration was rejected before any resource was acquired.
#[derive(Clone, Copy, Debug, PartialEq, Eq, Structural)]
pub enum ConfigError {
    /// A pin is zero, out of the addressable range, or repeated.
    InvalidPin,
    /// A pin belongs to the reserved set.
    BannedPin,
    /// More pins were given than there are channels.
    TooManyChannels,
}

impl ConfigError {
    /// A short description, in place of a `Display` implementation.
    pub fn message(&self) -> (r: &'static str)
        ensures
            r@ == self.spec_message(),
    {
        match self {
            ConfigError::InvalidPin => "invalid gpio pin",
            ConfigError::BannedPin => "banned gpio pin",
            ConfigError::TooManyChannels => "number of pins exceeds max number of channels",
        }
    }

    pub open spec fn spec_message(&self) -> Seq<char> {
        match self {
            ConfigError::InvalidPin => "invalid gpio pin"@,
            ConfigError::BannedPin => "banned gpio pin"@,
            ConfigError::TooManyChannels => "number of pins exceeds max number of channels"@,
        }
    }
}

/// Acquiring a platform resource failed; the board cannot be constructed.
#[derive(Clone, Copy, Debug, PartialEq, Eq, Structural)]
pub enum PlatformError {
    /// Neither the kernel-provided mailbox node nor a manually created one
    /// could be opened.
    MailboxOpenFailed,
    /// The mailbox transaction itself returned a failure.
    MailboxIoFailed,
    /// The board-revision word does not decode to a known board type.
    UnknownBoardModel,
    /// The privileged memory device could not be opened or mapped.
    PeripheralMapFailed,
    /// The mapped view of the mailbox allocation is not page aligned.
    UnalignedMapping,
}

impl PlatformError {
    /// A short description, in place of a `Display` implementation.
    pub fn message(&self) -> (r: &'static str)
        ensures
            r@ == self.spec_message(),
    {
        match self {
            PlatformError::MailboxOpenFailed => "cannot open mailbox device file",
            PlatformError::MailboxIoFailed => "mailbox ioctl failed",
            PlatformError::UnknownBoardModel => "unable to detect board model from board revision",
            PlatformError::PeripheralMapFailed => "failed to map peripheral",
            PlatformError::UnalignedMapping => "virtual address is not page aligned",
        }
    }

    pub open spec fn spec_message(&self) -> Seq<char> {
        match self {
            PlatformError::MailboxOpenFailed => "cannot open mailbox device file"@,
            PlatformError::MailboxIoFailed => "mailbox ioctl failed"@,
            PlatformError::UnknownBoardModel => "unable to detect board model from board revision"@,
            PlatformError::PeripheralMapFailed => "failed to map peripheral"@,
            PlatformError::UnalignedMapping => "virtual address is not page aligned"@,
        }
    }
}

/// A per-call failure of a running board; prior duty cycles keep running.
#[derive(Clone, Copy, Debug, PartialEq, Eq, Structural)]
pub enum RuntimeError {
    /// The pin is not part of the configured pin set.
    UnknownChannel,
    /// The duty fraction lies outside the unit interval.
    FractionOutOfRange,
}

impl RuntimeError {
    /// A short description, in place of a `Display` implementation.
    pub fn message(&self) -> (r: &'static str)
        ensures
            r@ == self.spec_message(),
    {
        match self {
            RuntimeError::UnknownChannel => "pin is not one of the known pins",
            RuntimeError::FractionOutOfRange => "duty fraction out of range",
        }
    }

    pub open spec fn spec_message(&self) -> Seq<char> {
        match self {
            RuntimeError::UnknownChannel => "pin is not one of the known pins"@,
            RuntimeError::FractionOutOfRange => "duty fraction out of range"@,
        }
    }
}

/// A non-fatal failure during teardown.  Teardown proceeds best-effort even
/// after a partial failure, since leaking a hardware mapping is worse than
/// one additional reported error.
#[derive(Clone, Copy, Debug, PartialEq, Eq, Structural)]
pub enum TeardownError {
    /// Unmapping the mailbox allocation failed.
    UnmapFailed,
    /// Unlocking the mailbox allocation failed.
    UnlockFailed,
    /// Releasing the mailbox allocation failed.
    FreeFailed,
    /// Closing the mailbox handle failed.
    CloseFailed,
}

impl TeardownError {
    /// A short description, in place of a `Display` implementation.
    pub fn message(&self) -> (r: &'static str)
        ensures
            r@ == self.spec_message(),
    {
        match self {
            TeardownError::UnmapFailed => "unmapping mailbox memory failed",
            TeardownError::UnlockFailed => "unlocking mailbox memory failed",
            TeardownError::FreeFailed => "freeing mailbox memory failed",
            TeardownError::CloseFailed => "closing mailbox handle failed",
        }
    }

    pub open spec fn spec_message(&self) -> Seq<char> {
        match self {
            TeardownError::UnmapFailed => "unmapping mailbox memory failed"@,
            TeardownError::UnlockFailed => "unlocking mailbox memory failed"@,
            TeardownError::FreeFailed => "freeing mailbox memory failed"@,
            TeardownError::CloseFailed => "closing mailbox handle failed"@,
        }
    }
}

} // verus!
