//! Unit kinds, health states, and the typed request selectors that queries
//! hand to the gateway, each with its exact raw code.

use vstd::prelude::*;

verus! {

/// Kind of die a chip is.
#[derive(Debug, Clone, Copy, PartialEq, Eq, Structural)]
pub enum UnitType {
    /// Compute die.
    NPU,
    /// Management controller die.
    MCU,
    /// Control processor die.
    CPU,
    /// Any undocumented unit-type code.
    Invalid,
}

impl UnitType {
    /// Decodes the gateway's raw unit-type code; every undocumented code is
    /// surfaced as `Invalid`, never as a misleading kind.
    pub fn from_raw(raw: u32) -> (r: UnitType)
        ensures
            raw == 0 ==> r == UnitType::NPU,
            raw == 1 ==> r == UnitType::MCU,
            raw == 2 ==> r == UnitType::CPU,
            raw > 2 ==> r == UnitType::Invalid,
    {
        match raw {
            0 => UnitType::NPU,
            1 => UnitType::MCU,
            2 => UnitType::CPU,
            _ => UnitType::Invalid,
        }
    }
}

/// Health of a chip as reported by the health query.
#[derive(Debug, Clone, Copy, PartialEq, Eq, Structural)]
pub enum HealthState {
    /// Fully functional.
    Health,
    /// General alarm raised.
    GeneralWarn,
    /// Important alarm raised.
    ImportantWarn,
    /// Emergency alarm raised.
    EmergencyWarn,
    /// The device was not found or has not started.
    DeviceNotFoundOrNotStarted,
    /// Any undocumented health code.
    Unknown,
}

impl HealthState {
    /// Decodes the gateway's raw health code; every undocumented code is
    /// surfaced as `Unknown`.
    pub fn from_raw(raw: u32) -> (r: HealthState)
        ensures
            raw == 0 ==> r == HealthState::Health,
            raw == 1 ==> r == HealthState::GeneralWarn,
            raw == 2 ==> r == HealthState::ImportantWarn,
            raw == 3 ==> r == HealthState::EmergencyWarn,
            raw == 0xffffffffu32 ==> r == HealthState::DeviceNotFoundOrNotStarted,
            raw > 3 && raw != 0xffffffffu32 ==> r == HealthState::Unknown,
    {
        match raw {
            0 => HealthState::Health,
            1 => HealthState::GeneralWarn,
            2 => HealthState::ImportantWarn,
            3 => HealthState::EmergencyWarn,
            0xffffffff => HealthState::DeviceNotFoundOrNotStarted,
            _ => HealthState::Unknown,
        }
    }
}

/// Die selector for the die-information query.
#[derive(Debug, Clone, Copy, PartialEq, Eq, Structural)]
pub enum DieType {
    /// The N die.
    NDie,
    /// The V die.
    VDie,
}

impl DieType {
    /// Raw selector code handed to the gateway.
    pub fn to_raw(&self) -> (r: u32)
        ensures
            *self == DieType::NDie ==> r == 0,
            *self == DieType::VDie ==> r == 1,
    {
        match self {
            DieType::NDie => 0,
            DieType::VDie => 1,
        }
    }
}

/// Memory device selector for the ECC-information query.
#[derive(Debug, Clone, Copy, PartialEq, Eq, Structural)]
pub enum DeviceType {
    /// DDR memory.
    DDR,
    /// SRAM memory.
    SRAM,
    /// High-bandwidth memory.
    HBM,
    /// The NPU device itself.
    NPU,
}

impl DeviceType {
    /// Raw selector code handed to the gateway.
    pub fn to_raw(&self) -> (r: u32)
        ensures
            *self == DeviceType::DDR ==> r == 0,
            *self == DeviceType::SRAM ==> r == 1,
            *self == DeviceType::HBM ==> r == 2,
            *self == DeviceType::NPU ==> r == 3,
    {
        match self {
            DeviceType::DDR => 0,
            DeviceType::SRAM => 1,
            DeviceType::HBM => 2,
            DeviceType::NPU => 3,
        }
    }
}

/// Clock selector for the frequency query.
#[derive(Debug, Clone, Copy, PartialEq, Eq, Structural)]
pub enum FrequencyType {
    /// DDR memory clock.
    DDR,
    /// Control CPU clock.
    CtrlCpu,
    /// High-bandwidth memory clock.
    HBM,
    /// Current AI-core clock.
    AICoreCurrent,
    /// Maximum AI-core clock.
    AICoreMax,
}

impl FrequencyType {
    /// Raw selector code handed to the gateway.
    pub fn to_raw(&self) -> (r: u32)
        ensures
            *self == FrequencyType::DDR ==> r == 1,
            *self == FrequencyType::CtrlCpu ==> r == 2,
            *self == FrequencyType::HBM ==> r == 6,
            *self == FrequencyType::AICoreCurrent ==> r == 7,
            *self == FrequencyType::AICoreMax ==> r == 9,
    {
        match self {
            FrequencyType::DDR => 1,
            FrequencyType::CtrlCpu => 2,
            FrequencyType::HBM => 6,
            FrequencyType::AICoreCurrent => 7,
            FrequencyType::AICoreMax => 9,
        }
    }
}

/// Resource selector for the utilization-rate query.
#[derive(Debug, Clone, Copy, PartialEq, Eq, Structural)]
pub enum UtilizationType {
    /// Device memory.
    Memory,
    /// AI cores.
    AICore,
    /// AI CPUs.
    AICpu,
    /// Control CPU.
    CtrlCpu,
    /// Memory bandwidth.
    MemoryBandwidth,
    /// High-bandwidth memory.
    HBM,
    /// High-bandwidth memory bandwidth.
    HbmBandwidth,
}

impl UtilizationType {
    /// Raw selector code handed to the gateway.
    pub fn to_raw_value(&self) -> (r: u32)
        ensures
            *self == UtilizationType::Memory ==> r == 1,
            *self == UtilizationType::AICore ==> r == 2,
            *self == UtilizationType::AICpu ==> r == 3,
            *self == UtilizationType::CtrlCpu ==> r == 4,
            *self == UtilizationType::MemoryBandwidth ==> r == 5,
            *self == UtilizationType::HBM ==> r == 6,
            *self == UtilizationType::HbmBandwidth ==> r == 10,
    {
        match self {
            UtilizationType::Memory => 1,
            UtilizationType::AICore => 2,
            UtilizationType::AICpu => 3,
            UtilizationType::CtrlCpu => 4,
            UtilizationType::MemoryBandwidth => 5,
            UtilizationType::HBM => 6,
            UtilizationType::HbmBandwidth => 10,
        }
    }
}

/// Strategy used when the compute power of a chip is split into virtual
/// devices.
#[derive(Debug, Clone, Copy, PartialEq, Eq, Structural)]
pub enum VChipPowerSplittingMode {
    /// Container partitioning.
    Container,
    /// Virtual-machine partitioning.
    VM,
}

impl VChipPowerSplittingMode {
    /// Raw mode code handed to the gateway.
    pub fn to_raw(&self) -> (r: i32)
        ensures
            *self == VChipPowerSplittingMode::Container ==> r == 0,
            *self == VChipPowerSplittingMode::VM ==> r == 1,
    {
        match self {
            VChipPowerSplittingMode::Container => 0,
            VChipPowerSplittingMode::VM => 1,
        }
    }
}

/// How a virtual-chip creation request selects its ID and resource template.
#[derive(Debug, Clone, PartialEq, Eq)]
pub enum VChipCreateParam {
    /// Let the gateway assign the next available ID.
    NextId,
    /// Request one specific ID together with a resource template name.
    SpecificId {
        /// The requested virtual-chip ID; the reserved wildcard ID is never
        /// a legal request.
        id: u32,
        /// Name of the resource template to instantiate.
        template_name: String,
    },
    /// Let the gateway assign the ID, instantiating the named resource
    /// template.
    TemplateName(String),
}

} // verus!
