//! Chip of a management unit, with its telemetry accessors. Each accessor
//! issues exactly one gateway call, translates the status, and decodes the
//! raw out-parameters into one typed value.

use crate::device::card::Card;
use crate::enums::{DeviceType, DieType, FrequencyType, HealthState, UnitType, UtilizationType};
use crate::error::{check_value_i32, check_value_u32, dcmi_try, DCMIError, DCMIResult};
use crate::gateway::DcmiGateway;
use crate::structs::{
    spec_component_from_raw, AICPUInfo, AICoreInfo, BoardInfo, CGroupInfo, ChipInfo,
    ChipPCIEErrorRate, ComponentType, DieInfo, DomainPCIEInfo, ECCInfo, ELabelInfo, FlashInfo,
    HBMInfo, LLCPerf, ManagerSensorId, MemoryInfo, PCIEInfo, SensorInfo,
};
use vstd::prelude::*;

verus! {

/// The raw health value meaning that the queried device does not exist.
pub const HEALTH_DEVICE_NOT_FOUND: u32 = 0xffffffff;

/// Buffer length asked for when the simplified error description is
/// queried.
pub const ERROR_STRING_SIMPLIFIED_LEN: u32 = 48;

/// Buffer length asked for when the detailed error description is queried.
pub const ERROR_STRING_DETAILED_LEN: u32 = 256;

/// The buffer length a description query asks the gateway for.
pub fn error_string_len(query_simplified_info: bool) -> (r: u32)
    ensures
        query_simplified_info ==> r == ERROR_STRING_SIMPLIFIED_LEN,
        !query_simplified_info ==> r == ERROR_STRING_DETAILED_LEN,
{
    if query_simplified_info {
        ERROR_STRING_SIMPLIFIED_LEN
    } else {
        ERROR_STRING_DETAILED_LEN
    }
}

/// Decodes a raw health value: the documented "device not found" value is
/// the entity-not-exist error, exactly; every other value is the health
/// state of its table entry.
pub fn health_from_raw(raw: u32) -> (r: DCMIResult<HealthState>)
    ensures
        raw == HEALTH_DEVICE_NOT_FOUND <==> r == Err::<HealthState, DCMIError>(
            DCMIError::DeviceNotExist,
        ),
        raw == 0 ==> r == Ok::<HealthState, DCMIError>(HealthState::Health),
        raw == 1 ==> r == Ok::<HealthState, DCMIError>(HealthState::GeneralWarn),
        raw == 2 ==> r == Ok::<HealthState, DCMIError>(HealthState::ImportantWarn),
        raw == 3 ==> r == Ok::<HealthState, DCMIError>(HealthState::EmergencyWarn),
        raw > 3 && raw != HEALTH_DEVICE_NOT_FOUND ==> r == Ok::<HealthState, DCMIError>(
            HealthState::Unknown,
        ),
{
    if raw == HEALTH_DEVICE_NOT_FOUND {
        Err(DCMIError::DeviceNotExist)
    } else {
        Ok(HealthState::from_raw(raw))
    }
}

/// Chip of a management unit, borrowing the card that hosts it.
#[derive(Debug)]
pub struct Chip<'a, 'b, G: DcmiGateway> where 'b: 'a {
    /// The chip ID; opaque, with no guaranteed stability across
    /// re-enumeration.
    pub id: u32,
    /// The card hosting this chip.
    pub card: &'a Card<'b, G>,
    /// The unit kind captured at discovery time, when known; absent for a
    /// chip built from a bare ID.
    pub unit_type: Option<UnitType>,
}

impl<'a, 'b, G: DcmiGateway> Chip<'a, 'b, G> where 'b: 'a {
    /// Creates a chip from a bare ID, with no unit kind captured.
    ///
    /// # Warning
    /// It is your responsibility to ensure that the chip ID is valid.
    pub fn new_unchecked(card: &'a Card<'b, G>, chip_id: u32) -> (r: Self)
        ensures
            r.id == chip_id,
            r.card == card,
            r.unit_type is None,
    {
        Chip { id: chip_id, card, unit_type: None }
    }

    /// Queries the ID of this chip.
    pub fn id(&self) -> (r: u32)
        ensures
            r == self.id,
    {
        self.id
    }

    /// Queries the card of this chip.
    ///
    /// # Returns
    /// card
    pub fn card(&self) -> (r: &Card<'b, G>)
        ensures
            r == self.card,
    {
        self.card
    }

    /// Queries the type of this chip: the kind captured at discovery when
    /// there is one, otherwise one gateway query.
    ///
    /// # Notes
    /// Only NPU and MCU chips support the underlying query.
    pub fn get_type(&self) -> (r: DCMIResult<UnitType>)
        ensures
            self.unit_type matches Some(t) ==> r == Ok::<UnitType, DCMIError>(t),
            r matches Err(e) ==> self.unit_type is None && e is NativeCallFailed,
    {
        if let Some(unit_type) = self.unit_type {
            Ok(unit_type)
        } else {
            let (status, raw) = self.card.dcmi.dcmi_get_device_type(self.card.id, self.id);
            if let Err(e) = dcmi_try(status) {
                return Err(e);
            }
            Ok(UnitType::from_raw(raw))
        }
    }

    /// Queries the chip information.
    ///
    /// # Notes
    /// Only NPU and MCU chips support this query.
    pub fn get_info(&self) -> (r: DCMIResult<ChipInfo>)
        ensures
            r matches Err(e) ==> e is NativeCallFailed || e == DCMIError::DecodeFailure,
    {
        let (status, raw) = self.card.dcmi.dcmi_get_device_chip_info(self.card.id, self.id);
        if let Err(e) = dcmi_try(status) {
            return Err(e);
        }
        ChipInfo::from_raw(&raw)
    }

    /// Queries the PCIE information.
    ///
    /// # Warning
    /// Only NPU chips have PCIE information.
    pub fn get_pcie_info(&self) -> (r: DCMIResult<PCIEInfo>)
        ensures
            r matches Err(e) ==> e is NativeCallFailed,
    {
        let (status, raw) = self.card.dcmi.dcmi_get_device_pcie_info(self.card.id, self.id);
        if let Err(e) = dcmi_try(status) {
            return Err(e);
        }
        Ok(PCIEInfo::from_raw(&raw))
    }

    /// Queries the PCIE information together with its domain.
    ///
    /// # Warning
    /// Only NPU chips have PCIE and domain information.
    pub fn get_domain_pcie_info(&self) -> (r: DCMIResult<DomainPCIEInfo>)
        ensures
            r matches Err(e) ==> e is NativeCallFailed,
    {
        let (status, raw) = self.card.dcmi.dcmi_get_device_pcie_info_v2(self.card.id, self.id);
        if let Err(e) = dcmi_try(status) {
            return Err(e);
        }
        Ok(DomainPCIEInfo::from_raw(&raw))
    }

    /// Queries the board information.
    ///
    /// # Notes
    /// When the chip is an NPU only `board_id` and `slot_id` are
    /// meaningful, and `slot_id` names the PCIE slot of the chip; when the
    /// chip is an MCU every field is meaningful, and `slot_id` names the
    /// position of the card.
    ///
    /// Only NPU and MCU chips support this query.
    pub fn get_board_info(&self) -> (r: DCMIResult<BoardInfo>)
        ensures
            r matches Err(e) ==> e is NativeCallFailed,
    {
        let (status, raw) = self.card.dcmi.dcmi_get_device_board_info(self.card.id, self.id);
        if let Err(e) = dcmi_try(status) {
            return Err(e);
        }
        Ok(BoardInfo::from_raw(&raw))
    }

    /// Queries the electronic label information.
    ///
    /// # Notes
    /// Only NPU and MCU chips support this query.
    pub fn get_elabel_info(&self) -> (r: DCMIResult<ELabelInfo>)
        ensures
            r matches Err(e) ==> e is NativeCallFailed || e == DCMIError::DecodeFailure,
    {
        let (status, raw) = self.card.dcmi.dcmi_get_device_elabel_info(self.card.id, self.id);
        if let Err(e) = dcmi_try(status) {
            return Err(e);
        }
        ELabelInfo::from_raw(&raw)
    }

    /// Queries the power draw, unit: 0.1 W.
    ///
    /// # Notes
    /// Only NPU chips support this query.
    pub fn get_power_info(&self) -> (r: DCMIResult<u32>)
        ensures
            r matches Err(e) ==> e is NativeCallFailed,
    {
        let (status, power) = self.card.dcmi.dcmi_get_device_power_info(self.card.id, self.id);
        if let Err(e) = dcmi_try(status) {
            return Err(e);
        }
        Ok(power as u32)
    }

    /// Queries the identifier of the selected die.
    ///
    /// # Notes
    /// Only NPU chips support this query.
    pub fn get_die_info(&self, target: DieType) -> (r: DCMIResult<DieInfo>)
        ensures
            r matches Err(e) ==> e is NativeCallFailed,
    {
        let (status, raw) = self.card.dcmi.dcmi_get_device_die_v2(
            self.card.id,
            self.id,
            target.to_raw(),
        );
        if let Err(e) = dcmi_try(status) {
            return Err(e);
        }
        Ok(DieInfo::from_raw(&raw))
    }

    /// Queries the health of this chip. The documented "device not found"
    /// raw value is surfaced as [`DCMIError::DeviceNotExist`], never as a
    /// health state: it is reachable only by handing a stale ID to
    /// [`Chip::new_unchecked`].
    ///
    /// # Notes
    /// Only NPU and MCU chips support this query.
    pub fn get_health(&self) -> (r: DCMIResult<HealthState>)
        ensures
            r matches Ok(h) ==> h != HealthState::DeviceNotFoundOrNotStarted,
            r matches Err(e) ==> e is NativeCallFailed || e == DCMIError::DeviceNotExist,
    {
        let (status, health) = self.card.dcmi.dcmi_get_device_health(self.card.id, self.id);
        if let Err(e) = dcmi_try(status) {
            return Err(e);
        }
        health_from_raw(health)
    }

    /// Builds the error-code list out of a raw reply: the first
    /// `error_count` codes of the buffer, capped at the buffer length.
    pub fn error_codes_from_raw(error_count: i32, codes: &Vec<u32>) -> (r: Vec<u32>)
        ensures
            r@.len() == (if error_count <= 0 {
                0int
            } else if error_count as int <= codes@.len() {
                error_count as int
            } else {
                codes@.len() as int
            }),
            forall|i: int| 0 <= i < r@.len() ==> r@[i] == codes@[i],
    {
        let avail = codes.len();
        let take: usize = if error_count <= 0 {
            0
        } else if error_count as usize <= avail {
            error_count as usize
        } else {
            avail
        };
        let mut r: Vec<u32> = Vec::new();
        let mut i: usize = 0;
        while i < take
            invariant
                i <= take,
                take <= codes@.len(),
                r@.len() == i as int,
                forall|j: int| 0 <= j < i ==> r@[j] == codes@[j],
            decreases take - i,
        {
            r.push(codes[i]);
            i += 1;
        }
        r
    }

    /// Queries the pending error codes.
    ///
    /// # Notes
    /// Only NPU and MCU chips support this query.
    pub fn get_error_code(&self) -> (r: DCMIResult<Vec<u32>>)
        ensures
            r matches Err(e) ==> e is NativeCallFailed,
    {
        let (status, error_count, codes) = self.card.dcmi.dcmi_get_device_errorcode_v2(
            self.card.id,
            self.id,
        );
        if let Err(e) = dcmi_try(status) {
            return Err(e);
        }
        Ok(Self::error_codes_from_raw(error_count, &codes))
    }

    /// Queries the description of one error code.
    ///
    /// # Parameters
    /// - error_code: error code
    /// - query_simplified_info: whether to ask for the simplified
    ///   description, which is shorter than the detailed one
    ///
    /// # Notes
    /// Only NPU and MCU chips support this query.
    pub fn get_error_code_string(&self, error_code: u32, query_simplified_info: bool) -> (r:
        DCMIResult<String>)
        ensures
            r matches Err(e) ==> e is NativeCallFailed || e == DCMIError::DecodeFailure,
    {
        let (status, buf) = self.card.dcmi.dcmi_get_device_errorcode_string(
            self.card.id,
            self.id,
            error_code,
            error_string_len(query_simplified_info),
        );
        if let Err(e) = dcmi_try(status) {
            return Err(e);
        }
        crate::codec::decode_text(&buf)
    }

    /// Queries the flash count.
    ///
    /// # Notes
    /// Only NPU chips support this query; it is not supported inside
    /// compute-power-splitting containers.
    pub fn get_flash_count(&self) -> (r: DCMIResult<u32>)
        ensures
            r matches Err(e) ==> e is NativeCallFailed,
    {
        let (status, flash_count) = self.card.dcmi.dcmi_get_device_flash_count(
            self.card.id,
            self.id,
        );
        if let Err(e) = dcmi_try(status) {
            return Err(e);
        }
        Ok(flash_count)
    }

    /// Queries the information of one flash device.
    ///
    /// # Parameters
    /// - flash_id: flash ID, below the count reported by
    ///   [`Chip::get_flash_count`]
    ///
    /// # Notes
    /// Only NPU chips support this query; it is not supported inside
    /// compute-power-splitting containers.
    pub fn get_flash_info(&self, flash_id: u32) -> (r: DCMIResult<FlashInfo>)
        ensures
            r matches Err(e) ==> e is NativeCallFailed,
    {
        let (status, raw) = self.card.dcmi.dcmi_get_device_flash_info_v2(
            self.card.id,
            self.id,
            flash_id,
        );
        if let Err(e) = dcmi_try(status) {
            return Err(e);
        }
        Ok(FlashInfo::from_raw(&raw))
    }

    /// Queries the AI core information.
    ///
    /// # Notes
    /// Only NPU chips support this query.
    pub fn get_ai_core_info(&self) -> (r: DCMIResult<AICoreInfo>)
        ensures
            r matches Err(e) ==> e is NativeCallFailed,
    {
        let (status, raw) = self.card.dcmi.dcmi_get_device_aicore_info(self.card.id, self.id);
        if let Err(e) = dcmi_try(status) {
            return Err(e);
        }
        Ok(AICoreInfo::from_raw(&raw))
    }

    /// Queries the AI CPU information.
    ///
    /// # Notes
    /// Only NPU chips support this query.
    pub fn get_ai_cpu_info(&self) -> (r: DCMIResult<AICPUInfo>)
        ensures
            r matches Err(e) ==> e is NativeCallFailed,
    {
        let (status, raw) = self.card.dcmi.dcmi_get_device_aicpu_info(self.card.id, self.id);
        if let Err(e) = dcmi_try(status) {
            return Err(e);
        }
        Ok(AICPUInfo::from_raw(&raw))
    }

    /// Queries the system time: seconds from the start of 1970 to the
    /// present.
    ///
    /// # Notes
    /// Only NPU chips support this query.
    pub fn get_system_time(&self) -> (r: DCMIResult<u32>)
        ensures
            r matches Err(e) ==> e is NativeCallFailed,
    {
        let (status, system_time) = self.card.dcmi.dcmi_get_device_system_time(
            self.card.id,
            self.id,
        );
        if let Err(e) = dcmi_try(status) {
            return Err(e);
        }
        Ok(system_time)
    }

    /// Queries the temperature, unit: 1 degree Celsius. A reply holding a
    /// documented data sentinel is surfaced as the matching error, never as
    /// a plausible-looking temperature.
    ///
    /// # Notes
    /// Only NPU and MCU chips support this query.
    pub fn get_temperature(&self) -> (r: DCMIResult<i32>)
        ensures
            r matches Ok(t) ==> t != 0x7ffd && t != 0x7fff,
            r matches Err(e) ==> e is NativeCallFailed || e == DCMIError::InvalidData || e
                == DCMIError::ReadError,
    {
        let (status, temperature) = self.card.dcmi.dcmi_get_device_temperature(
            self.card.id,
            self.id,
        );
        if let Err(e) = dcmi_try(status) {
            return Err(e);
        }
        check_value_i32(temperature)
    }

    /// Queries the voltage, unit: 0.01 V. A reply holding a documented data
    /// sentinel is surfaced as the matching error, never as a
    /// plausible-looking voltage.
    ///
    /// # Notes
    /// Only NPU and MCU chips support this query.
    pub fn get_voltage(&self) -> (r: DCMIResult<u32>)
        ensures
            r matches Ok(v) ==> v != 0x7ffd && v != 0x7fff,
            r matches Err(e) ==> e is NativeCallFailed || e == DCMIError::InvalidData || e
                == DCMIError::ReadError,
    {
        let (status, voltage) = self.card.dcmi.dcmi_get_device_voltage(self.card.id, self.id);
        if let Err(e) = dcmi_try(status) {
            return Err(e);
        }
        check_value_u32(voltage)
    }

    /// Queries the PCIE error counters, with every bit-packed per-lane
    /// status word expanded into exactly 32 booleans.
    ///
    /// # Notes
    /// Only NPU chips support this query.
    pub fn get_pcie_error_cnt(&self) -> (r: DCMIResult<ChipPCIEErrorRate>)
        ensures
            r matches Ok(rate) ==> rate.pcs_rcv_err_status@.len() == 32
                && rate.symbol_unlock_err_status@.len() == 32 && rate.phy_lane_err_status@.len()
                == 32,
            r matches Err(e) ==> e is NativeCallFailed,
    {
        let (status, raw) = self.card.dcmi.dcmi_get_device_pcie_error_cnt(self.card.id, self.id);
        if let Err(e) = dcmi_try(status) {
            return Err(e);
        }
        Ok(ChipPCIEErrorRate::from_raw(&raw))
    }

    /// Queries the ECC information of the selected memory device.
    ///
    /// # Parameters
    /// - target: device type; only [`DeviceType::DDR`] and
    ///   [`DeviceType::HBM`] are supported by the interface
    pub fn get_ecc_info(&self, target: DeviceType) -> (r: DCMIResult<ECCInfo>)
        ensures
            r matches Err(e) ==> e is NativeCallFailed,
    {
        let (status, raw) = self.card.dcmi.dcmi_get_device_ecc_info(
            self.card.id,
            self.id,
            target.to_raw(),
        );
        if let Err(e) = dcmi_try(status) {
            return Err(e);
        }
        Ok(ECCInfo::from_raw(&raw))
    }

    /// Queries the frequency of the selected clock, unit: 1 MHz.
    pub fn get_frequency(&self, target: FrequencyType) -> (r: DCMIResult<u32>)
        ensures
            r matches Err(e) ==> e is NativeCallFailed,
    {
        let (status, frequency) = self.card.dcmi.dcmi_get_device_frequency(
            self.card.id,
            self.id,
            target.to_raw(),
        );
        if let Err(e) = dcmi_try(status) {
            return Err(e);
        }
        Ok(frequency)
    }

    /// Queries the high-bandwidth-memory information.
    ///
    /// # Warning
    /// Only some NPU chips have high-bandwidth memory.
    pub fn get_hbm_info(&self) -> (r: DCMIResult<HBMInfo>)
        ensures
            r matches Err(e) ==> e is NativeCallFailed,
    {
        let (status, raw) = self.card.dcmi.dcmi_get_device_hbm_info(self.card.id, self.id);
        if let Err(e) = dcmi_try(status) {
            return Err(e);
        }
        Ok(HBMInfo::from_raw(&raw))
    }

    /// Queries the memory information.
    ///
    /// # Warning
    /// Only some NPU chips have memory information.
    pub fn get_memory_info(&self) -> (r: DCMIResult<MemoryInfo>)
        ensures
            r matches Err(e) ==> e is NativeCallFailed,
    {
        let (status, raw) = self.card.dcmi.dcmi_get_device_memory_info_v3(self.card.id, self.id);
        if let Err(e) = dcmi_try(status) {
            return Err(e);
        }
        Ok(MemoryInfo::from_raw(&raw))
    }

    /// Queries the utilization rate of the selected resource, unit: 1%.
    ///
    /// # Notes
    /// When the AI cores are profiled the reported AI-core rate is zero and
    /// carries no meaning. Inside compute-power-splitting containers only
    /// [`UtilizationType::Memory`] and [`UtilizationType::HbmBandwidth`]
    /// are supported, and the reported HBM bandwidth is zero.
    pub fn get_utilization_rate(&self, target: UtilizationType) -> (r: DCMIResult<u32>)
        ensures
            r matches Err(e) ==> e is NativeCallFailed,
    {
        let (status, rate) = self.card.dcmi.dcmi_get_device_utilization_rate(
            self.card.id,
            self.id,
            target.to_raw_value(),
        );
        if let Err(e) = dcmi_try(status) {
            return Err(e);
        }
        Ok(rate)
    }

    /// Queries a sensor. The payload representation is fixed by the
    /// requested identifier, per the table of
    /// [`ManagerSensorId::query_result_type`]; the payload itself is never
    /// inspected to guess it.
    ///
    /// # Parameters
    /// - target: the sensor to query; the reserved invalid identifier is a
    ///   caller bug and is ruled out before any call
    pub fn get_sensor_info(&self, target: ManagerSensorId) -> (r: DCMIResult<SensorInfo>)
        requires
            target != ManagerSensorId::Invalid,
        ensures
            r matches Ok(s) ==> crate::structs::spec_query_result_type(target) == Some(
                s.spec_type(),
            ),
            r matches Err(e) ==> e is NativeCallFailed,
    {
        let (status, raw) = self.card.dcmi.dcmi_get_device_sensor_info(
            self.card.id,
            self.id,
            target.to_raw(),
        );
        if let Err(e) = dcmi_try(status) {
            return Err(e);
        }
        Ok(SensorInfo::from_raw(&raw, target.query_result_type()))
    }

    /// Queries the board ID.
    pub fn get_board_id(&self) -> (r: DCMIResult<u32>)
        ensures
            r matches Err(e) ==> e is NativeCallFailed,
    {
        let (status, board_id) = self.card.dcmi.dcmi_get_device_board_id(self.card.id, self.id);
        if let Err(e) = dcmi_try(status) {
            return Err(e);
        }
        Ok(board_id)
    }

    /// Queries the number of upgradable components.
    pub fn get_component_count(&self) -> (r: DCMIResult<u32>)
        ensures
            r matches Err(e) ==> e is NativeCallFailed,
    {
        let (status, count) = self.card.dcmi.dcmi_get_device_component_count(
            self.card.id,
            self.id,
        );
        if let Err(e) = dcmi_try(status) {
            return Err(e);
        }
        Ok(count)
    }

    /// Decodes a list of raw component codes; one undocumented code fails
    /// the whole list, never yielding a misleading component.
    pub fn components_from_raw(codes: &Vec<u32>) -> (r: DCMIResult<Vec<ComponentType>>)
        ensures
            r matches Ok(cs) ==> cs@.len() == codes@.len() && (forall|i: int|
                0 <= i < cs@.len() ==> Some(#[trigger] cs@[i]) == spec_component_from_raw(
                    codes@[i],
                )),
            r is Err ==> r == Err::<Vec<ComponentType>, DCMIError>(DCMIError::DecodeFailure) && (
            exists|i: int|
                0 <= i < codes@.len() && (#[trigger] spec_component_from_raw(codes@[i])) is None),
    {
        let mut components: Vec<ComponentType> = Vec::new();
        let mut i: usize = 0;
        let n = codes.len();
        while i < n
            invariant
                i <= n,
                n == codes@.len(),
                components@.len() == i as int,
                forall|j: int|
                    0 <= j < i ==> Some(#[trigger] components@[j]) == spec_component_from_raw(
                        codes@[j],
                    ),
            decreases n - i,
        {
            match ComponentType::from_raw(codes[i]) {
                Some(c) => components.push(c),
                None => {
                    assert(spec_component_from_raw(codes@[i as int]) is None);
                    return Err(DCMIError::DecodeFailure);
                },
            }
            i += 1;
        }
        Ok(components)
    }

    /// Queries the component list.
    ///
    /// # Parameters
    /// - component_num: component count, as reported by
    ///   [`Chip::get_component_count`]
    pub fn get_component_list(&self, component_num: u32) -> (r: DCMIResult<Vec<ComponentType>>)
        ensures
            r matches Err(e) ==> e is NativeCallFailed || e == DCMIError::DecodeFailure,
    {
        let (status, codes) = self.card.dcmi.dcmi_get_device_component_list(
            self.card.id,
            self.id,
            component_num,
        );
        if let Err(e) = dcmi_try(status) {
            return Err(e);
        }
        Self::components_from_raw(&codes)
    }

    /// Queries the version of the selected component.
    pub fn get_component_static_version(&self, target: ComponentType) -> (r: DCMIResult<String>)
        ensures
            r matches Err(e) ==> e is NativeCallFailed || e == DCMIError::DecodeFailure,
    {
        let (status, buf) = self.card.dcmi.dcmi_get_device_component_static_version(
            self.card.id,
            self.id,
            target.to_raw(),
        );
        if let Err(e) = dcmi_try(status) {
            return Err(e);
        }
        crate::codec::decode_text(&buf)
    }

    /// Queries the control-group information.
    pub fn get_cgroup_info(&self) -> (r: DCMIResult<CGroupInfo>)
        ensures
            r matches Err(e) ==> e is NativeCallFailed,
    {
        let (status, raw) = self.card.dcmi.dcmi_get_device_cgroup_info(self.card.id, self.id);
        if let Err(e) = dcmi_try(status) {
            return Err(e);
        }
        Ok(CGroupInfo::from_raw(&raw))
    }

    /// Queries the last-level-cache performance: read and write hit rates
    /// and throughput.
    pub fn get_llc_perf(&self) -> (r: DCMIResult<LLCPerf>)
        ensures
            r matches Err(e) ==> e is NativeCallFailed,
    {
        let (status, raw) = self.card.dcmi.dcmi_get_device_llc_perf_para(self.card.id, self.id);
        if let Err(e) = dcmi_try(status) {
            return Err(e);
        }
        Ok(LLCPerf::from_raw(&raw))
    }
}

} // verus!
