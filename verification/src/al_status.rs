//! AL (application layer) status codes reported by a slave when a state
//! transition fails.

use vstd::prelude::*;

verus! {

/// AL status code, decoded from the 16-bit code a slave reports.
#[derive(Clone, Copy, Debug, PartialEq, Eq, Structural, Hash)]
pub enum AlStatus {
    /// No error.
    NoError,
    /// Unspecified error.
    UnspecifiedError,
    /// No memory.
    NoMemory,
    /// Invalid requested state change.
    InvalidRequestedStateChange,
    /// Unknown requested state.
    UnknownRequestedState,
    /// Bootstrap not supported.
    BootstrapNotSupported,
    /// No valid firmware.
    NoValidFirmware,
    /// Invalid mailbox configuration (first code).
    InvalidMailboxConfig,
    /// Invalid mailbox configuration (second code).
    InvalidMailboxConfig2,
    /// Invalid sync manager configuration.
    InvalidSyncManagerConfiguration,
    /// No valid inputs available.
    NoValidInputsAvailable,
    /// No valid outputs.
    NoValidOutputs,
    /// Synchronization error.
    SynchronizationError,
    /// Sync manager watchdog.
    SyncManagerWatchdog,
    /// Invalid sync manager types.
    InvalidSyncManagerTypes,
    /// Invalid output configuration.
    InvalidOutputConfiguration,
    /// Invalid input configuration.
    InvalidInputConfiguration,
    /// Invalid watchdog configuration.
    InvalidWatchdogConfiguration,
    /// Slave needs cold start.
    SlaveNeedsColdStart,
    /// Slave needs INIT.
    SlaveNeedsInit,
    /// Slave needs PREOP.
    SlaveNeedsPreOp,
    /// Slave needs SAFEOP.
    SlaveNeedsSafeOp,
    /// Invalid input mapping.
    InvalidInputMapping,
    /// Invalid output mapping.
    InvalidOutputMapping,
    /// Inconsistent settings.
    InconsistentSettings,
    /// Freerun not supported.
    FreerunNotSupported,
    /// Synchronisation not supported.
    SynchronisationNotSupported,
    /// Freerun needs 3-buffer mode.
    FreerunNeeds3BufferMode,
    /// Background watchdog.
    BackgroundWatchdog,
    /// No valid inputs and outputs.
    NovalidInputsAndOutputs,
    /// Fatal sync error.
    FatalSyncError,
    /// No sync error.
    NoSyncError,
    /// Invalid input FMMU configuration.
    InvalidInputFmmuConfiguration,
    /// Invalid DC SYNC configuration.
    InvalidDcSyncConfiguration,
    /// Invalid DC latch configuration.
    InvalidDcLatchConfiguration,
    /// PLL error.
    PllError,
    /// DC sync I/O error.
    DcSyncIoError,
    /// DC sync timeout error.
    DcSyncTimeoutError,
    /// DC invalid sync cycle time.
    DcInvalidSyncCycleTime,
    /// DC invalid sync0 cycle time.
    DcInvalidSync0CycleTime,
    /// DC invalid sync1 cycle time.
    DcInvalidSync1CycleTime,
    /// Mailbox AoE.
    MbxAoe,
    /// Mailbox EoE.
    MbxEoe,
    /// Mailbox CoE.
    MbxCoe,
    /// Mailbox FoE.
    MbxFoe,
    /// Mailbox SoE.
    MbxSoe,
    /// Mailbox VoE.
    MbcVoe,
    /// EEPROM no access.
    EepromNoAccess,
    /// EEPROM error.
    EeepromError,
    /// Slave restarted locally.
    SlaveRestartedLocally,
    /// Device identification value updated.
    DeviceIdValueUpdated,
    /// Application controller available.
    ApplicationControllerAvailable,
    /// Any code this model does not know.
    Unknown,
}

/// The status named by a 16-bit AL status code; codes outside the table
/// decode to `Unknown`.
pub open spec fn spec_al_status_from_u16(code: u16) -> AlStatus {
    match code {
        0x0000u16 => AlStatus::NoError,
        0x0001u16 => AlStatus::UnspecifiedError,
        0x0002u16 => AlStatus::NoMemory,
        0x0011u16 => AlStatus::InvalidRequestedStateChange,
        0x0012u16 => AlStatus::UnknownRequestedState,
        0x0013u16 => AlStatus::BootstrapNotSupported,
        0x0014u16 => AlStatus::NoValidFirmware,
        0x0015u16 => AlStatus::InvalidMailboxConfig,
        0x0016u16 => AlStatus::InvalidMailboxConfig2,
        0x0017u16 => AlStatus::InvalidSyncManagerConfiguration,
        0x0018u16 => AlStatus::NoValidInputsAvailable,
        0x0019u16 => AlStatus::NoValidOutputs,
        0x001Au16 => AlStatus::SynchronizationError,
        0x001Bu16 => AlStatus::SyncManagerWatchdog,
        0x001Cu16 => AlStatus::InvalidSyncManagerTypes,
        0x001Du16 => AlStatus::InvalidOutputConfiguration,
        0x001Eu16 => AlStatus::InvalidInputConfiguration,
        0x001Fu16 => AlStatus::InvalidWatchdogConfiguration,
        0x0020u16 => AlStatus::SlaveNeedsColdStart,
        0x0021u16 => AlStatus::SlaveNeedsInit,
        0x0022u16 => AlStatus::SlaveNeedsPreOp,
        0x0023u16 => AlStatus::SlaveNeedsSafeOp,
        0x0024u16 => AlStatus::InvalidInputMapping,
        0x0025u16 => AlStatus::InvalidOutputMapping,
        0x0026u16 => AlStatus::InconsistentSettings,
        0x0027u16 => AlStatus::FreerunNotSupported,
        0x0028u16 => AlStatus::SynchronisationNotSupported,
        0x0029u16 => AlStatus::FreerunNeeds3BufferMode,
        0x002Au16 => AlStatus::BackgroundWatchdog,
        0x002Bu16 => AlStatus::NovalidInputsAndOutputs,
        0x002Cu16 => AlStatus::FatalSyncError,
        0x002Du16 => AlStatus::NoSyncError,
        0x002Eu16 => AlStatus::InvalidInputFmmuConfiguration,
        0x0030u16 => AlStatus::InvalidDcSyncConfiguration,
        0x0031u16 => AlStatus::InvalidDcLatchConfiguration,
        0x0032u16 => AlStatus::PllError,
        0x0033u16 => AlStatus::DcSyncIoError,
        0x0034u16 => AlStatus::DcSyncTimeoutError,
        0x0035u16 => AlStatus::DcInvalidSyncCycleTime,
        0x0036u16 => AlStatus::DcInvalidSync0CycleTime,
        0x0037u16 => AlStatus::DcInvalidSync1CycleTime,
        0x0041u16 => AlStatus::MbxAoe,
        0x0042u16 => AlStatus::MbxEoe,
        0x0043u16 => AlStatus::MbxCoe,
        0x0044u16 => AlStatus::MbxFoe,
        0x0045u16 => AlStatus::MbxSoe,
        0x004Fu16 => AlStatus::MbcVoe,
        0x0050u16 => AlStatus::EepromNoAccess,
        0x0051u16 => AlStatus::EeepromError,
        0x0060u16 => AlStatus::SlaveRestartedLocally,
        0x0061u16 => AlStatus::DeviceIdValueUpdated,
        0x00f0u16 => AlStatus::ApplicationControllerAvailable,
        _ => AlStatus::Unknown,
    }
}

impl AlStatus {
    /// Decodes the AL status code a slave reports.
    pub fn from_u16(code: u16) -> (r: AlStatus)
        ensures
            r == spec_al_status_from_u16(code),
    {
        match code {
            0x0000 => AlStatus::NoError,
            0x0001 => AlStatus::UnspecifiedError,
            0x0002 => AlStatus::NoMemory,
            0x0011 => AlStatus::InvalidRequestedStateChange,
            0x0012 => AlStatus::UnknownRequestedState,
            0x0013 => AlStatus::BootstrapNotSupported,
            0x0014 => AlStatus::NoValidFirmware,
            0x0015 => AlStatus::InvalidMailboxConfig,
            0x0016 => AlStatus::InvalidMailboxConfig2,
            0x0017 => AlStatus::InvalidSyncManagerConfiguration,
            0x0018 => AlStatus::NoValidInputsAvailable,
            0x0019 => AlStatus::NoValidOutputs,
            0x001A => AlStatus::SynchronizationError,
            0x001B => AlStatus::SyncManagerWatchdog,
            0x001C => AlStatus::InvalidSyncManagerTypes,
            0x001D => AlStatus::InvalidOutputConfiguration,
            0x001E => AlStatus::InvalidInputConfiguration,
            0x001F => AlStatus::InvalidWatchdogConfiguration,
            0x0020 => AlStatus::SlaveNeedsColdStart,
            0x0021 => AlStatus::SlaveNeedsInit,
            0x0022 => AlStatus::SlaveNeedsPreOp,
            0x0023 => AlStatus::SlaveNeedsSafeOp,
            0x0024 => AlStatus::InvalidInputMapping,
            0x0025 => AlStatus::InvalidOutputMapping,
            0x0026 => AlStatus::InconsistentSettings,
            0x0027 => AlStatus::FreerunNotSupported,
            0x0028 => AlStatus::SynchronisationNotSupported,
            0x0029 => AlStatus::FreerunNeeds3BufferMode,
            0x002A => AlStatus::BackgroundWatchdog,
            0x002B => AlStatus::NovalidInputsAndOutputs,
            0x002C => AlStatus::FatalSyncError,
            0x002D => AlStatus::NoSyncError,
            0x002E => AlStatus::InvalidInputFmmuConfiguration,
            0x0030 => AlStatus::InvalidDcSyncConfiguration,
            0x0031 => AlStatus::InvalidDcLatchConfiguration,
            0x0032 => AlStatus::PllError,
            0x0033 => AlStatus::DcSyncIoError,
            0x0034 => AlStatus::DcSyncTimeoutError,
            0x0035 => AlStatus::DcInvalidSyncCycleTime,
            0x0036 => AlStatus::DcInvalidSync0CycleTime,
            0x0037 => AlStatus::DcInvalidSync1CycleTime,
            0x0041 => AlStatus::MbxAoe,
            0x0042 => AlStatus::MbxEoe,
            0x0043 => AlStatus::MbxCoe,
            0x0044 => AlStatus::MbxFoe,
            0x0045 => AlStatus::MbxSoe,
            0x004F => AlStatus::MbcVoe,
            0x0050 => AlStatus::EepromNoAccess,
            0x0051 => AlStatus::EeepromError,
            0x0060 => AlStatus::SlaveRestartedLocally,
            0x0061 => AlStatus::DeviceIdValueUpdated,
            0x00f0 => AlStatus::ApplicationControllerAvailable,
            _ => AlStatus::Unknown,
        }
    }
}

} // verus!
