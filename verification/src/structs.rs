//! Typed telemetry values and the decoders that build each one from the raw
//! out-parameters of a single gateway call.

use crate::codec::{decode_text, spec_decode_text, unpack_bit_flags};
use crate::error::{DCMIError, DCMIResult};
use crate::gateway::{
    RawAiCoreInfo, RawAiCpuInfo, RawBoardInfo, RawCgroupInfo, RawChipInfo, RawDieInfo,
    RawDomainPcieInfo, RawEccInfo, RawElabelInfo, RawFlashInfo, RawHbmInfo, RawLlcPerf,
    RawMemoryInfo, RawPcieErrRate, RawPcieInfo, RawSensorInfo, RawVChipOutput, DIE_ID_COUNT,
    MAX_CORE_NUM,
};
use vstd::prelude::*;

verus! {

/// Chip information.
#[derive(Debug, PartialEq, Eq, Clone)]
pub struct ChipInfo {
    /// Chip type.
    pub chip_type: String,
    /// Chip name.
    pub chip_name: String,
    /// Chip version.
    pub chip_version: String,
    /// Chip AI core count; for MCU and CPU chips this field carries no
    /// meaning.
    pub ai_core_count: u32,
}

impl ChipInfo {
    /// Decodes raw chip information; each text buffer must be terminated
    /// and hold valid text.
    pub fn from_raw(raw: &RawChipInfo) -> (r: DCMIResult<ChipInfo>)
        ensures
            r matches Ok(info) ==> {
                &&& spec_decode_text(raw.chip_type@) == Some(info.chip_type@)
                &&& spec_decode_text(raw.chip_name@) == Some(info.chip_name@)
                &&& spec_decode_text(raw.chip_ver@) == Some(info.chip_version@)
                &&& info.ai_core_count == raw.aicore_cnt
            },
            r is Err ==> r == Err::<ChipInfo, DCMIError>(DCMIError::DecodeFailure) && (
            spec_decode_text(raw.chip_type@) is None || spec_decode_text(raw.chip_name@) is None
                || spec_decode_text(raw.chip_ver@) is None),
    {
        let chip_type = match decode_text(&raw.chip_type) {
            Ok(s) => s,
            Err(e) => {
                return Err(e);
            },
        };
        let chip_name = match decode_text(&raw.chip_name) {
            Ok(s) => s,
            Err(e) => {
                return Err(e);
            },
        };
        let chip_version = match decode_text(&raw.chip_ver) {
            Ok(s) => s,
            Err(e) => {
                return Err(e);
            },
        };
        Ok(ChipInfo { chip_type, chip_name, chip_version, ai_core_count: raw.aicore_cnt })
    }
}

/// PCIE information.
#[derive(Debug, PartialEq, Eq, Clone, Structural)]
pub struct PCIEInfo {
    /// Device ID.
    pub device_id: u32,
    /// Vender ID.
    pub vender_id: u32,
    /// Subvender ID.
    pub subvender_id: u32,
    /// Subdevice ID.
    pub subdevice_id: u32,
    /// BDF device ID.
    pub bdf_device_id: u32,
    /// BDF bus ID.
    pub bdf_bus_id: u32,
    /// BDF function ID.
    pub bdf_func_id: u32,
}

impl PCIEInfo {
    /// Decodes raw PCIE information; a plain field-for-field reading.
    pub fn from_raw(raw: &RawPcieInfo) -> (r: PCIEInfo)
        ensures
            r == (PCIEInfo {
                device_id: raw.deviceid,
                vender_id: raw.venderid,
                subvender_id: raw.subvenderid,
                subdevice_id: raw.subdeviceid,
                bdf_device_id: raw.bdf_deviceid,
                bdf_bus_id: raw.bdf_busid,
                bdf_func_id: raw.bdf_funcid,
            }),
    {
        PCIEInfo {
            device_id: raw.deviceid,
            vender_id: raw.venderid,
            subvender_id: raw.subvenderid,
            subdevice_id: raw.subdeviceid,
            bdf_device_id: raw.bdf_deviceid,
            bdf_bus_id: raw.bdf_busid,
            bdf_func_id: raw.bdf_funcid,
        }
    }
}

/// PCIE information with its domain.
#[derive(Debug, PartialEq, Eq, Clone, Structural)]
pub struct DomainPCIEInfo {
    /// PCIE information.
    pub pcie_info: PCIEInfo,
    /// Domain.
    pub domain: i32,
}

impl DomainPCIEInfo {
    /// Decodes raw PCIE information together with its domain.
    pub fn from_raw(raw: &RawDomainPcieInfo) -> (r: DomainPCIEInfo)
        ensures
            r == (DomainPCIEInfo {
                pcie_info: PCIEInfo {
                    device_id: raw.pcie.deviceid,
                    vender_id: raw.pcie.venderid,
                    subvender_id: raw.pcie.subvenderid,
                    subdevice_id: raw.pcie.subdeviceid,
                    bdf_device_id: raw.pcie.bdf_deviceid,
                    bdf_bus_id: raw.pcie.bdf_busid,
                    bdf_func_id: raw.pcie.bdf_funcid,
                },
                domain: raw.domain,
            }),
    {
        DomainPCIEInfo { pcie_info: PCIEInfo::from_raw(&raw.pcie), domain: raw.domain }
    }
}

/// Board information.
///
/// When the chip is an NPU only `board_id` and `slot_id` are meaningful and
/// `slot_id` names the PCIE slot of the chip; when the chip is an MCU every
/// field is meaningful and `slot_id` names the position of the card.
#[derive(Debug, PartialEq, Eq, Clone, Structural)]
pub struct BoardInfo {
    /// Board ID.
    pub board_id: u32,
    /// PCB ID.
    pub pcb_id: u32,
    /// BOM ID.
    pub bom_id: u32,
    /// Slot ID.
    pub slot_id: u32,
}

impl BoardInfo {
    /// Decodes raw board information; a plain field-for-field reading.
    pub fn from_raw(raw: &RawBoardInfo) -> (r: BoardInfo)
        ensures
            r == (BoardInfo {
                board_id: raw.board_id,
                pcb_id: raw.pcb_id,
                bom_id: raw.bom_id,
                slot_id: raw.slot_id,
            }),
    {
        BoardInfo {
            board_id: raw.board_id,
            pcb_id: raw.pcb_id,
            bom_id: raw.bom_id,
            slot_id: raw.slot_id,
        }
    }
}

/// Electronic label information.
#[derive(Debug, PartialEq, Eq, Clone)]
pub struct ELabelInfo {
    /// Product name.
    pub product_name: String,
    /// Model.
    pub model: String,
    /// Manufacturer.
    pub manufacturer: String,
    /// Serial number.
    pub serial_number: String,
}

impl ELabelInfo {
    /// Decodes a raw electronic label; each of the four text buffers kept
    /// must be terminated and hold valid text.
    pub fn from_raw(raw: &RawElabelInfo) -> (r: DCMIResult<ELabelInfo>)
        ensures
            r matches Ok(info) ==> {
                &&& spec_decode_text(raw.product_name@) == Some(info.product_name@)
                &&& spec_decode_text(raw.model@) == Some(info.model@)
                &&& spec_decode_text(raw.manufacturer@) == Some(info.manufacturer@)
                &&& spec_decode_text(raw.serial_number@) == Some(info.serial_number@)
            },
            r is Err ==> r == Err::<ELabelInfo, DCMIError>(DCMIError::DecodeFailure) && (
            spec_decode_text(raw.product_name@) is None || spec_decode_text(raw.model@) is None
                || spec_decode_text(raw.manufacturer@) is None || spec_decode_text(
                raw.serial_number@,
            ) is None),
    {
        let product_name = match decode_text(&raw.product_name) {
            Ok(s) => s,
            Err(e) => {
                return Err(e);
            },
        };
        let model = match decode_text(&raw.model) {
            Ok(s) => s,
            Err(e) => {
                return Err(e);
            },
        };
        let manufacturer = match decode_text(&raw.manufacturer) {
            Ok(s) => s,
            Err(e) => {
                return Err(e);
            },
        };
        let serial_number = match decode_text(&raw.serial_number) {
            Ok(s) => s,
            Err(e) => {
                return Err(e);
            },
        };
        Ok(ELabelInfo { product_name, model, manufacturer, serial_number })
    }
}

/// Die identifier.
#[derive(Debug, PartialEq, Eq, Clone)]
pub struct DieInfo {
    /// SOC die identifier words.
    pub soc_die: [u32; DIE_ID_COUNT],
}

impl DieInfo {
    /// Decodes a raw die identifier; a plain field-for-field reading.
    pub fn from_raw(raw: &RawDieInfo) -> (r: DieInfo)
        ensures
            r.soc_die@ == raw.soc_die@,
    {
        DieInfo { soc_die: raw.soc_die }
    }
}

/// Flash device information.
#[derive(Debug, PartialEq, Eq, Clone, Structural)]
pub struct FlashInfo {
    /// Flash ID.
    pub flash_id: u64,
    /// Device ID.
    pub device_id: u16,
    /// Vendor code.
    pub vendor: u16,
    /// Health status: the raw state word equals the documented healthy
    /// state.
    pub is_health: bool,
    /// Flash size.
    pub size: u64,
    /// Sector count.
    pub sector_count: u32,
    /// Manufacturer ID.
    pub manufacturer_id: u16,
}

impl FlashInfo {
    /// Decodes raw flash information; the raw state word is folded into a
    /// health flag.
    pub fn from_raw(raw: &RawFlashInfo) -> (r: FlashInfo)
        ensures
            r == (FlashInfo {
                flash_id: raw.flash_id,
                device_id: raw.device_id,
                vendor: raw.vendor,
                is_health: raw.state == 0x8,
                size: raw.size,
                sector_count: raw.sector_count,
                manufacturer_id: raw.manufacturer_id,
            }),
    {
        FlashInfo {
            flash_id: raw.flash_id,
            device_id: raw.device_id,
            vendor: raw.vendor,
            is_health: raw.state == 0x8,
            size: raw.size,
            sector_count: raw.sector_count,
            manufacturer_id: raw.manufacturer_id,
        }
    }
}

/// AI core information.
#[derive(Debug, PartialEq, Eq, Clone, Structural)]
pub struct AICoreInfo {
    /// Rated frequency, MHz.
    pub frequency: u32,
    /// Current frequency, MHz.
    pub current_frequency: u32,
}

impl AICoreInfo {
    /// Decodes raw AI-core information; a plain field-for-field reading.
    pub fn from_raw(raw: &RawAiCoreInfo) -> (r: AICoreInfo)
        ensures
            r == (AICoreInfo { frequency: raw.freq, current_frequency: raw.cur_freq }),
    {
        AICoreInfo { frequency: raw.freq, current_frequency: raw.cur_freq }
    }
}

/// AI CPU information.
#[derive(Debug, PartialEq, Eq, Clone)]
pub struct AICPUInfo {
    /// Maximum frequency, MHz.
    pub max_frequency: u32,
    /// Current frequency, MHz.
    pub current_frequency: u32,
    /// AI CPU number.
    pub aicpu_num: u32,
    /// Utilization rate of each core.
    pub util_rate: [u32; MAX_CORE_NUM],
}

impl AICPUInfo {
    /// Decodes raw AI-CPU information; a plain field-for-field reading.
    pub fn from_raw(raw: &RawAiCpuInfo) -> (r: AICPUInfo)
        ensures
            r.max_frequency == raw.max_freq,
            r.current_frequency == raw.cur_freq,
            r.aicpu_num == raw.aicpu_num,
            r.util_rate@ == raw.util_rate@,
    {
        AICPUInfo {
            max_frequency: raw.max_freq,
            current_frequency: raw.cur_freq,
            aicpu_num: raw.aicpu_num,
            util_rate: raw.util_rate,
        }
    }
}

/// Memory information.
#[derive(Debug, PartialEq, Eq, Clone, Structural)]
pub struct MemoryInfo {
    /// Memory size, MB.
    pub memory_size: u64,
    /// Available memory, MB: free plus free huge pages times the huge page
    /// size.
    pub memory_available: u64,
    /// Frequency.
    pub freq: u32,
    /// Huge page size, KB.
    pub huge_page_size: u64,
    /// Huge pages total.
    pub huge_pages_total: u64,
    /// Huge pages free.
    pub huge_pages_free: u64,
    /// Utilization of the DDR memory.
    pub utilization: u32,
}

impl MemoryInfo {
    /// Decodes raw memory information; a plain field-for-field reading.
    pub fn from_raw(raw: &RawMemoryInfo) -> (r: MemoryInfo)
        ensures
            r == (MemoryInfo {
                memory_size: raw.memory_size,
                memory_available: raw.memory_available,
                freq: raw.freq,
                huge_page_size: raw.hugepagesize,
                huge_pages_total: raw.hugepages_total,
                huge_pages_free: raw.hugepages_free,
                utilization: raw.utiliza,
            }),
    {
        MemoryInfo {
            memory_size: raw.memory_size,
            memory_available: raw.memory_available,
            freq: raw.freq,
            huge_page_size: raw.hugepagesize,
            huge_pages_total: raw.hugepages_total,
            huge_pages_free: raw.hugepages_free,
            utilization: raw.utiliza,
        }
    }
}

/// High-bandwidth-memory information.
#[derive(Debug, PartialEq, Eq, Clone, Structural)]
pub struct HBMInfo {
    /// HBM total size, MB.
    pub memory_size: u64,
    /// HBM frequency, MHz.
    pub frequency: u32,
    /// HBM memory usage, MB.
    pub memory_usage: u64,
    /// HBM temperature.
    pub temperature: i32,
    /// HBM bandwidth utilization rate.
    pub bandwidth_util_rate: u32,
}

impl HBMInfo {
    /// Decodes raw HBM information; a plain field-for-field reading.
    pub fn from_raw(raw: &RawHbmInfo) -> (r: HBMInfo)
        ensures
            r == (HBMInfo {
                memory_size: raw.memory_size,
                frequency: raw.freq,
                memory_usage: raw.memory_usage,
                temperature: raw.temp,
                bandwidth_util_rate: raw.bandwith_util_rate,
            }),
    {
        HBMInfo {
            memory_size: raw.memory_size,
            frequency: raw.freq,
            memory_usage: raw.memory_usage,
            temperature: raw.temp,
            bandwidth_util_rate: raw.bandwith_util_rate,
        }
    }
}

/// Chip PCIE error rate: interrupt flags, counters, and three per-lane
/// status sequences expanded from bit-packed words.
#[derive(Debug, PartialEq, Eq, Clone)]
pub struct ChipPCIEErrorRate {
    /// Deskew FIFO overflow interrupt status.
    pub deskew_fifo_overflow_intr_status: bool,
    /// Symbol unlock interrupt status.
    pub symbol_unlock_intr_status: bool,
    /// Deskew unlock interrupt status.
    pub deskew_unlock_intr_status: bool,
    /// Phystatus timeout interrupt status.
    pub phystatus_timeout_intr_status: bool,
    /// Symbol unlock counter.
    pub symbol_unlock_counter: u32,
    /// PCS RX error count.
    pub pcs_rx_err_cnt: u32,
    /// PHY lane error counter.
    pub phy_lane_err_counter: u32,
    /// PCS receive error status, one boolean per lane bit.
    pub pcs_rcv_err_status: Vec<bool>,
    /// Symbol unlock error status, one boolean per lane bit.
    pub symbol_unlock_err_status: Vec<bool>,
    /// PHY lane error status, one boolean per lane bit.
    pub phy_lane_err_status: Vec<bool>,
    /// DL LCRC error number.
    pub dl_lcrc_err_num: u32,
    /// DL DCRC error number.
    pub dl_dcrc_err_num: u32,
}

impl ChipPCIEErrorRate {
    /// Decodes raw PCIE error counters: each interrupt word becomes a flag,
    /// and each bit-packed status word is expanded into exactly 32 booleans,
    /// least-significant bit first.
    pub fn from_raw(raw: &RawPcieErrRate) -> (r: ChipPCIEErrorRate)
        ensures
            r.deskew_fifo_overflow_intr_status == (raw.reg_deskew_fifo_overflow_intr_status != 0),
            r.symbol_unlock_intr_status == (raw.reg_symbol_unlock_intr_status != 0),
            r.deskew_unlock_intr_status == (raw.reg_deskew_unlock_intr_status != 0),
            r.phystatus_timeout_intr_status == (raw.reg_phystatus_timeout_intr_status != 0),
            r.symbol_unlock_counter == raw.symbol_unlock_counter,
            r.pcs_rx_err_cnt == raw.pcs_rx_err_cnt,
            r.phy_lane_err_counter == raw.phy_lane_err_counter,
            r.pcs_rcv_err_status@.len() == 32,
            forall|i: int|
                0 <= i < 32 ==> r.pcs_rcv_err_status@[i] == (((raw.pcs_rcv_err_status >> (
                i as u32)) & 1u32) == 1u32),
            r.symbol_unlock_err_status@.len() == 32,
            forall|i: int|
                0 <= i < 32 ==> r.symbol_unlock_err_status@[i] == (((raw.symbol_unlock_err_status
                    >> (i as u32)) & 1u32) == 1u32),
            r.phy_lane_err_status@.len() == 32,
            forall|i: int|
                0 <= i < 32 ==> r.phy_lane_err_status@[i] == (((raw.phy_lane_err_status >> (
                i as u32)) & 1u32) == 1u32),
            r.dl_lcrc_err_num == raw.dl_lcrc_err_num,
            r.dl_dcrc_err_num == raw.dl_dcrc_err_num,
    {
        ChipPCIEErrorRate {
            deskew_fifo_overflow_intr_status: raw.reg_deskew_fifo_overflow_intr_status != 0,
            symbol_unlock_intr_status: raw.reg_symbol_unlock_intr_status != 0,
            deskew_unlock_intr_status: raw.reg_deskew_unlock_intr_status != 0,
            phystatus_timeout_intr_status: raw.reg_phystatus_timeout_intr_status != 0,
            symbol_unlock_counter: raw.symbol_unlock_counter,
            pcs_rx_err_cnt: raw.pcs_rx_err_cnt,
            phy_lane_err_counter: raw.phy_lane_err_counter,
            pcs_rcv_err_status: unpack_bit_flags(raw.pcs_rcv_err_status),
            symbol_unlock_err_status: unpack_bit_flags(raw.symbol_unlock_err_status),
            phy_lane_err_status: unpack_bit_flags(raw.phy_lane_err_status),
            dl_lcrc_err_num: raw.dl_lcrc_err_num,
            dl_dcrc_err_num: raw.dl_dcrc_err_num,
        }
    }
}

/// ECC information.
#[derive(Debug, PartialEq, Eq, Clone, Structural)]
pub struct ECCInfo {
    /// ECC enable flag.
    pub enable_flag: bool,
    /// Single bit error count.
    pub single_bit_error_cnt: u32,
    /// Double bit error count.
    pub double_bit_error_cnt: u32,
    /// Total single bit error count.
    pub total_single_bit_error_cnt: u32,
    /// Total double bit error count.
    pub total_double_bit_error_cnt: u32,
    /// Single bit isolated pages count.
    pub single_bit_isolated_pages_cnt: u32,
    /// Double bit isolated pages count.
    pub double_bit_isolated_pages_cnt: u32,
}

impl ECCInfo {
    /// Decodes raw ECC information; the raw enable word becomes a flag.
    pub fn from_raw(raw: &RawEccInfo) -> (r: ECCInfo)
        ensures
            r == (ECCInfo {
                enable_flag: raw.enable_flag != 0,
                single_bit_error_cnt: raw.single_bit_error_cnt,
                double_bit_error_cnt: raw.double_bit_error_cnt,
                total_single_bit_error_cnt: raw.total_single_bit_error_cnt,
                total_double_bit_error_cnt: raw.total_double_bit_error_cnt,
                single_bit_isolated_pages_cnt: raw.single_bit_isolated_pages_cnt,
                double_bit_isolated_pages_cnt: raw.double_bit_isolated_pages_cnt,
            }),
    {
        ECCInfo {
            enable_flag: raw.enable_flag != 0,
            single_bit_error_cnt: raw.single_bit_error_cnt,
            double_bit_error_cnt: raw.double_bit_error_cnt,
            total_single_bit_error_cnt: raw.total_single_bit_error_cnt,
            total_double_bit_error_cnt: raw.total_double_bit_error_cnt,
            single_bit_isolated_pages_cnt: raw.single_bit_isolated_pages_cnt,
            double_bit_isolated_pages_cnt: raw.double_bit_isolated_pages_cnt,
        }
    }
}

/// Output of a virtual-chip creation.
#[derive(Debug, PartialEq, Eq, Clone, Structural)]
pub struct VChipOutput {
    /// The virtual-chip ID actually allocated.
    pub vchip_id: u32,
    /// Allocated PCIE bus.
    pub pcie_bus: u32,
    /// Allocated PCIE device.
    pub pcie_device: u32,
    /// Allocated PCIE function.
    pub pcie_func: u32,
    /// The group ID actually allocated.
    pub vfg_id: u32,
}

impl VChipOutput {
    /// Decodes a raw creation output; a plain field-for-field reading.
    pub fn from_raw(raw: &RawVChipOutput) -> (r: VChipOutput)
        ensures
            r == (VChipOutput {
                vchip_id: raw.vdev_id,
                pcie_bus: raw.pcie_bus,
                pcie_device: raw.pcie_device,
                pcie_func: raw.pcie_func,
                vfg_id: raw.vfg_id,
            }),
    {
        VChipOutput {
            vchip_id: raw.vdev_id,
            pcie_bus: raw.pcie_bus,
            pcie_device: raw.pcie_device,
            pcie_func: raw.pcie_func,
            vfg_id: raw.vfg_id,
        }
    }
}

/// Control-group information.
#[derive(Debug, PartialEq, Eq, Clone, Structural)]
pub struct CGroupInfo {
    /// Memory limit in bytes.
    pub limit_in_bytes: u64,
    /// Maximum usage in bytes.
    pub max_usage_in_bytes: u64,
    /// Usage in bytes.
    pub usage_in_bytes: u64,
}

impl CGroupInfo {
    /// Decodes raw control-group information; a plain field-for-field
    /// reading.
    pub fn from_raw(raw: &RawCgroupInfo) -> (r: CGroupInfo)
        ensures
            r == (CGroupInfo {
                limit_in_bytes: raw.limit_in_bytes,
                max_usage_in_bytes: raw.max_usage_in_bytes,
                usage_in_bytes: raw.usage_in_bytes,
            }),
    {
        CGroupInfo {
            limit_in_bytes: raw.limit_in_bytes,
            max_usage_in_bytes: raw.max_usage_in_bytes,
            usage_in_bytes: raw.usage_in_bytes,
        }
    }
}

/// Last-level-cache performance.
#[derive(Debug, PartialEq, Eq, Clone, Structural)]
pub struct LLCPerf {
    /// LLC write hit rate, percent.
    pub write_hit_rate: u32,
    /// LLC read hit rate, percent.
    pub read_hit_rate: u32,
    /// LLC throughput, KB/s.
    pub throughput: u32,
}

/// Identifier of a manager sensor.
#[derive(Debug, PartialEq, Eq, Clone, Copy, Structural)]
pub enum ManagerSensorId {
    /// Cluster temperature.
    ClusterTemperature,
    /// Peripheral temperature.
    PeripheralTemperature,
    /// AI core 0 temperature.
    AiCore0Temperature,
    /// AI core 1 temperature.
    AiCore1Temperature,
    /// AI core limit.
    AiCoreLimit,
    /// AI core total pulse period.
    AiCoreTotalPer,
    /// AI core eliminable period.
    AiCoreElimPer,
    /// AI core base frequency.
    AiCoreBaseFreq,
    /// NPU DDR frequency.
    NpuDdrFreq,
    /// Thermal threshold pair.
    ThermalThreshold,
    /// NTC sensor temperatures.
    NtcTemperature,
    /// SOC temperature.
    SocTemperature,
    /// Optical module temperature.
    FpTemperature,
    /// N-die temperature.
    NDieTemperature,
    /// On-chip memory temperature.
    HbmTemperature,
    /// The reserved invalid identifier; never a legal query target.
    Invalid,
}

/// The raw code of each manager sensor identifier.
pub open spec fn spec_sensor_id_raw(id: ManagerSensorId) -> u32 {
    match id {
        ManagerSensorId::ClusterTemperature => 0,
        ManagerSensorId::PeripheralTemperature => 1,
        ManagerSensorId::AiCore0Temperature => 2,
        ManagerSensorId::AiCore1Temperature => 3,
        ManagerSensorId::AiCoreLimit => 4,
        ManagerSensorId::AiCoreTotalPer => 5,
        ManagerSensorId::AiCoreElimPer => 6,
        ManagerSensorId::AiCoreBaseFreq => 7,
        ManagerSensorId::NpuDdrFreq => 8,
        ManagerSensorId::ThermalThreshold => 9,
        ManagerSensorId::NtcTemperature => 10,
        ManagerSensorId::SocTemperature => 11,
        ManagerSensorId::FpTemperature => 12,
        ManagerSensorId::NDieTemperature => 13,
        ManagerSensorId::HbmTemperature => 14,
        ManagerSensorId::Invalid => 255,
    }
}

/// The representation each sensor identifier's payload uses; `None` only
/// for the reserved invalid identifier.
pub open spec fn spec_query_result_type(id: ManagerSensorId) -> Option<SensorInfoType> {
    match id {
        ManagerSensorId::ClusterTemperature => Some(SensorInfoType::UChar),
        ManagerSensorId::PeripheralTemperature => Some(SensorInfoType::UChar),
        ManagerSensorId::AiCore0Temperature => Some(SensorInfoType::UChar),
        ManagerSensorId::AiCore1Temperature => Some(SensorInfoType::UChar),
        ManagerSensorId::AiCoreLimit => Some(SensorInfoType::UChar),
        ManagerSensorId::AiCoreTotalPer => Some(SensorInfoType::UChar),
        ManagerSensorId::AiCoreElimPer => Some(SensorInfoType::UChar),
        ManagerSensorId::AiCoreBaseFreq => Some(SensorInfoType::UShort),
        ManagerSensorId::NpuDdrFreq => Some(SensorInfoType::UShort),
        ManagerSensorId::ThermalThreshold => Some(SensorInfoType::Temp),
        ManagerSensorId::NtcTemperature => Some(SensorInfoType::NtcTmp),
        ManagerSensorId::SocTemperature => Some(SensorInfoType::UChar),
        ManagerSensorId::FpTemperature => Some(SensorInfoType::Int),
        ManagerSensorId::NDieTemperature => Some(SensorInfoType::Int),
        ManagerSensorId::HbmTemperature => Some(SensorInfoType::Int),
        ManagerSensorId::Invalid => None,
    }
}

/// The identifier-to-representation table is in lock step with the
/// identifier enum: every identifier except the reserved invalid one has
/// exactly one payload representation.
pub proof fn lemma_sensor_table_total(id: ManagerSensorId)
    ensures
        id != ManagerSensorId::Invalid <==> spec_query_result_type(id) is Some,
{
}

impl ManagerSensorId {
    /// Raw identifier code handed to the gateway.
    pub fn to_raw(&self) -> (r: u32)
        ensures
            r == spec_sensor_id_raw(*self),
    {
        match self {
            ManagerSensorId::ClusterTemperature => 0,
            ManagerSensorId::PeripheralTemperature => 1,
            ManagerSensorId::AiCore0Temperature => 2,
            ManagerSensorId::AiCore1Temperature => 3,
            ManagerSensorId::AiCoreLimit => 4,
            ManagerSensorId::AiCoreTotalPer => 5,
            ManagerSensorId::AiCoreElimPer => 6,
            ManagerSensorId::AiCoreBaseFreq => 7,
            ManagerSensorId::NpuDdrFreq => 8,
            ManagerSensorId::ThermalThreshold => 9,
            ManagerSensorId::NtcTemperature => 10,
            ManagerSensorId::SocTemperature => 11,
            ManagerSensorId::FpTemperature => 12,
            ManagerSensorId::NDieTemperature => 13,
            ManagerSensorId::HbmTemperature => 14,
            ManagerSensorId::Invalid => 255,
        }
    }

    /// The representation this identifier's payload uses. The reserved
    /// invalid identifier has no representation and is a caller bug, ruled
    /// out before any call.
    pub fn query_result_type(&self) -> (r: SensorInfoType)
        requires
            *self != ManagerSensorId::Invalid,
        ensures
            spec_query_result_type(*self) == Some(r),
    {
        match self {
            ManagerSensorId::ClusterTemperature
            | ManagerSensorId::PeripheralTemperature
            | ManagerSensorId::AiCore0Temperature
            | ManagerSensorId::AiCore1Temperature
            | ManagerSensorId::AiCoreLimit
            | ManagerSensorId::AiCoreTotalPer
            | ManagerSensorId::AiCoreElimPer
            | ManagerSensorId::SocTemperature => SensorInfoType::UChar,
            ManagerSensorId::AiCoreBaseFreq | ManagerSensorId::NpuDdrFreq => SensorInfoType::UShort,
            ManagerSensorId::ThermalThreshold => SensorInfoType::Temp,
            ManagerSensorId::NtcTemperature => SensorInfoType::NtcTmp,
            ManagerSensorId::FpTemperature
            | ManagerSensorId::NDieTemperature
            | ManagerSensorId::HbmTemperature => SensorInfoType::Int,
            ManagerSensorId::Invalid => SensorInfoType::UChar,  // unreachable by the precondition
        }
    }
}

/// A decoded sensor payload.
#[derive(Debug, PartialEq, Eq, Clone)]
pub enum SensorInfo {
    /// Unsigned char sensor info.
    UChar(u8),
    /// Unsigned short sensor info.
    UShort(u16),
    /// Unsigned int sensor info.
    UInt(u32),
    /// Int sensor info.
    Int(i32),
    /// Temperature threshold pair.
    Temp([i8; 2]),
    /// NTC temperature sensor info.
    NtcTmp([i32; 4]),
    /// Raw data words.
    Data([u32; 16]),
}

/// The representation of a sensor payload.
#[derive(Debug, PartialEq, Eq, Clone, Copy, Structural)]
pub enum SensorInfoType {
    /// Unsigned char.
    UChar,
    /// Unsigned short.
    UShort,
    /// Unsigned int.
    UInt,
    /// Int.
    Int,
    /// Temperature threshold pair.
    Temp,
    /// NTC temperatures.
    NtcTmp,
    /// Raw data words.
    Data,
}

impl SensorInfo {
    /// The representation this payload was decoded as.
    pub open spec fn spec_type(&self) -> SensorInfoType {
        match self {
            SensorInfo::UChar(_) => SensorInfoType::UChar,
            SensorInfo::UShort(_) => SensorInfoType::UShort,
            SensorInfo::UInt(_) => SensorInfoType::UInt,
            SensorInfo::Int(_) => SensorInfoType::Int,
            SensorInfo::Temp(_) => SensorInfoType::Temp,
            SensorInfo::NtcTmp(_) => SensorInfoType::NtcTmp,
            SensorInfo::Data(_) => SensorInfoType::Data,
        }
    }

    /// Extracts the representation named by `sensor_info_type` from the raw
    /// payload union. The representation comes from the requested sensor
    /// identifier, never from inspecting the payload.
    pub fn from_raw(raw: &RawSensorInfo, sensor_info_type: SensorInfoType) -> (r: SensorInfo)
        ensures
            r.spec_type() == sensor_info_type,
            sensor_info_type == SensorInfoType::UChar ==> r == SensorInfo::UChar(raw.uchar),
            sensor_info_type == SensorInfoType::UShort ==> r == SensorInfo::UShort(raw.ushort),
            sensor_info_type == SensorInfoType::UInt ==> r == SensorInfo::UInt(raw.uint),
            sensor_info_type == SensorInfoType::Int ==> r == SensorInfo::Int(raw.iint),
            sensor_info_type == SensorInfoType::Temp ==> r == SensorInfo::Temp(raw.temp),
            sensor_info_type == SensorInfoType::NtcTmp ==> r == SensorInfo::NtcTmp(raw.ntc_tmp),
            sensor_info_type == SensorInfoType::Data ==> r == SensorInfo::Data(raw.data),
    {
        match sensor_info_type {
            SensorInfoType::UChar => SensorInfo::UChar(raw.uchar),
            SensorInfoType::UShort => SensorInfo::UShort(raw.ushort),
            SensorInfoType::UInt => SensorInfo::UInt(raw.uint),
            SensorInfoType::Int => SensorInfo::Int(raw.iint),
            SensorInfoType::Temp => SensorInfo::Temp(raw.temp),
            SensorInfoType::NtcTmp => SensorInfo::NtcTmp(raw.ntc_tmp),
            SensorInfoType::Data => SensorInfo::Data(raw.data),
        }
    }
}

/// An upgradable component of a chip.
#[derive(Debug, PartialEq, Eq, Clone, Copy, Structural)]
pub enum ComponentType {
    /// Nve.
    Nve,
    /// XLoader.
    XLoader,
    /// M3FW.
    M3FW,
    /// UEFI.
    UEFI,
    /// TEE.
    TEE,
    /// Kernel.
    Kernel,
    /// DTB.
    DTB,
    /// RootFS.
    RootFS,
    /// IMU.
    IMU,
    /// IMP.
    IMP,
    /// AI CPU.
    AiCPU,
    /// HBoot 1A.
    HBoot1A,
    /// HBoot 1B.
    HBoot1B,
    /// HBoot 2.
    HBoot2,
    /// DDR.
    DDR,
    /// LP.
    LP,
    /// HSM.
    HSM,
    /// Safety island.
    SafetyIsland,
    /// HiLink.
    HiLink,
    /// Raw data.
    RawData,
    /// SysDrv.
    SysDrv,
    /// Ads app.
    AdsApp,
    /// Com isolator.
    ComIsolator,
    /// Cluster.
    Cluster,
    /// Customized.
    Customized,
    /// System base configuration.
    SysBaseConfig,
    /// System recovery.
    Recovery,
    /// HiLink 2.
    HiLink2,
    /// Logic built-in self test.
    LogicBist,
    /// Memory built-in self test.
    MemoryBist,
    /// ATF.
    ATF,
    /// User base configuration.
    UserBaseConfig,
    /// BootROM.
    BootROM,
    /// Upper bound marker of the plain components.
    Max,
    /// Upgrade and reset all components.
    UpgradeAndResetAllComponent,
    /// Upgrade all image components.
    UpgradeAllImageComponent,
    /// Upgrade all firmware components.
    UpgradeAllFirmwareComponent,
    /// Upgrade all components.
    UpgradeAllComponent,
}

/// The raw code of each component type.
pub open spec fn spec_component_raw(c: ComponentType) -> u32 {
    match c {
        ComponentType::Nve => 0,
        ComponentType::XLoader => 1,
        ComponentType::M3FW => 2,
        ComponentType::UEFI => 3,
        ComponentType::TEE => 4,
        ComponentType::Kernel => 5,
        ComponentType::DTB => 6,
        ComponentType::RootFS => 7,
        ComponentType::IMU => 8,
        ComponentType::IMP => 9,
        ComponentType::AiCPU => 10,
        ComponentType::HBoot1A => 11,
        ComponentType::HBoot1B => 12,
        ComponentType::HBoot2 => 13,
        ComponentType::DDR => 14,
        ComponentType::LP => 15,
        ComponentType::HSM => 16,
        ComponentType::SafetyIsland => 17,
        ComponentType::HiLink => 18,
        ComponentType::RawData => 19,
        ComponentType::SysDrv => 20,
        ComponentType::AdsApp => 21,
        ComponentType::ComIsolator => 22,
        ComponentType::Cluster => 23,
        ComponentType::Customized => 24,
        ComponentType::SysBaseConfig => 25,
        ComponentType::Recovery => 26,
        ComponentType::HiLink2 => 27,
        ComponentType::LogicBist => 28,
        ComponentType::MemoryBist => 29,
        ComponentType::ATF => 30,
        ComponentType::UserBaseConfig => 31,
        ComponentType::BootROM => 32,
        ComponentType::Max => 33,
        ComponentType::UpgradeAndResetAllComponent => 4294967292,
        ComponentType::UpgradeAllImageComponent => 4294967293,
        ComponentType::UpgradeAllFirmwareComponent => 4294967294,
        ComponentType::UpgradeAllComponent => 4294967295,
    }
}

/// The component type of each documented raw code; `None` for any
/// undocumented code.
pub open spec fn spec_component_from_raw(raw: u32) -> Option<ComponentType> {
    match raw {
        0 => Some(ComponentType::Nve),
        1 => Some(ComponentType::XLoader),
        2 => Some(ComponentType::M3FW),
        3 => Some(ComponentType::UEFI),
        4 => Some(ComponentType::TEE),
        5 => Some(ComponentType::Kernel),
        6 => Some(ComponentType::DTB),
        7 => Some(ComponentType::RootFS),
        8 => Some(ComponentType::IMU),
        9 => Some(ComponentType::IMP),
        10 => Some(ComponentType::AiCPU),
        11 => Some(ComponentType::HBoot1A),
        12 => Some(ComponentType::HBoot1B),
        13 => Some(ComponentType::HBoot2),
        14 => Some(ComponentType::DDR),
        15 => Some(ComponentType::LP),
        16 => Some(ComponentType::HSM),
        17 => Some(ComponentType::SafetyIsland),
        18 => Some(ComponentType::HiLink),
        19 => Some(ComponentType::RawData),
        20 => Some(ComponentType::SysDrv),
        21 => Some(ComponentType::AdsApp),
        22 => Some(ComponentType::ComIsolator),
        23 => Some(ComponentType::Cluster),
        24 => Some(ComponentType::Customized),
        25 => Some(ComponentType::SysBaseConfig),
        26 => Some(ComponentType::Recovery),
        27 => Some(ComponentType::HiLink2),
        28 => Some(ComponentType::LogicBist),
        29 => Some(ComponentType::MemoryBist),
        30 => Some(ComponentType::ATF),
        31 => Some(ComponentType::UserBaseConfig),
        32 => Some(ComponentType::BootROM),
        33 => Some(ComponentType::Max),
        4294967292 => Some(ComponentType::UpgradeAndResetAllComponent),
        4294967293 => Some(ComponentType::UpgradeAllImageComponent),
        4294967294 => Some(ComponentType::UpgradeAllFirmwareComponent),
        4294967295 => Some(ComponentType::UpgradeAllComponent),
        _ => None,
    }
}

/// Every component type's raw code decodes back to that very component:
/// the two direction tables are in lock step.
pub proof fn lemma_component_codes_in_lockstep(c: ComponentType)
    ensures
        spec_component_from_raw(spec_component_raw(c)) == Some(c),
{
}

impl ComponentType {
    /// Raw component code handed to the gateway.
    pub fn to_raw(&self) -> (r: u32)
        ensures
            r == spec_component_raw(*self),
    {
        match self {
            ComponentType::Nve => 0,
            ComponentType::XLoader => 1,
            ComponentType::M3FW => 2,
            ComponentType::UEFI => 3,
            ComponentType::TEE => 4,
            ComponentType::Kernel => 5,
            ComponentType::DTB => 6,
            ComponentType::RootFS => 7,
            ComponentType::IMU => 8,
            ComponentType::IMP => 9,
            ComponentType::AiCPU => 10,
            ComponentType::HBoot1A => 11,
            ComponentType::HBoot1B => 12,
            ComponentType::HBoot2 => 13,
            ComponentType::DDR => 14,
            ComponentType::LP => 15,
            ComponentType::HSM => 16,
            ComponentType::SafetyIsland => 17,
            ComponentType::HiLink => 18,
            ComponentType::RawData => 19,
            ComponentType::SysDrv => 20,
            ComponentType::AdsApp => 21,
            ComponentType::ComIsolator => 22,
            ComponentType::Cluster => 23,
            ComponentType::Customized => 24,
            ComponentType::SysBaseConfig => 25,
            ComponentType::Recovery => 26,
            ComponentType::HiLink2 => 27,
            ComponentType::LogicBist => 28,
            ComponentType::MemoryBist => 29,
            ComponentType::ATF => 30,
            ComponentType::UserBaseConfig => 31,
            ComponentType::BootROM => 32,
            ComponentType::Max => 33,
            ComponentType::UpgradeAndResetAllComponent => 4294967292,
            ComponentType::UpgradeAllImageComponent => 4294967293,
            ComponentType::UpgradeAllFirmwareComponent => 4294967294,
            ComponentType::UpgradeAllComponent => 4294967295,
        }
    }

    /// Decodes a raw component code; an undocumented code yields `None`,
    /// never a misleading component.
    pub fn from_raw(raw: u32) -> (r: Option<ComponentType>)
        ensures
            r == spec_component_from_raw(raw),
    {
        match raw {
            0 => Some(ComponentType::Nve),
            1 => Some(ComponentType::XLoader),
            2 => Some(ComponentType::M3FW),
            3 => Some(ComponentType::UEFI),
            4 => Some(ComponentType::TEE),
            5 => Some(ComponentType::Kernel),
            6 => Some(ComponentType::DTB),
            7 => Some(ComponentType::RootFS),
            8 => Some(ComponentType::IMU),
            9 => Some(ComponentType::IMP),
            10 => Some(ComponentType::AiCPU),
            11 => Some(ComponentType::HBoot1A),
            12 => Some(ComponentType::HBoot1B),
            13 => Some(ComponentType::HBoot2),
            14 => Some(ComponentType::DDR),
            15 => Some(ComponentType::LP),
            16 => Some(ComponentType::HSM),
            17 => Some(ComponentType::SafetyIsland),
            18 => Some(ComponentType::HiLink),
            19 => Some(ComponentType::RawData),
            20 => Some(ComponentType::SysDrv),
            21 => Some(ComponentType::AdsApp),
            22 => Some(ComponentType::ComIsolator),
            23 => Some(ComponentType::Cluster),
            24 => Some(ComponentType::Customized),
            25 => Some(ComponentType::SysBaseConfig),
            26 => Some(ComponentType::Recovery),
            27 => Some(ComponentType::HiLink2),
            28 => Some(ComponentType::LogicBist),
            29 => Some(ComponentType::MemoryBist),
            30 => Some(ComponentType::ATF),
            31 => Some(ComponentType::UserBaseConfig),
            32 => Some(ComponentType::BootROM),
            33 => Some(ComponentType::Max),
            4294967292 => Some(ComponentType::UpgradeAndResetAllComponent),
            4294967293 => Some(ComponentType::UpgradeAllImageComponent),
            4294967294 => Some(ComponentType::UpgradeAllFirmwareComponent),
            4294967295 => Some(ComponentType::UpgradeAllComponent),
            _ => None,
        }
    }
}

impl LLCPerf {
    /// Decodes raw last-level-cache counters; a plain field-for-field
    /// reading.
    pub fn from_raw(raw: &RawLlcPerf) -> (r: LLCPerf)
        ensures
            r == (LLCPerf {
                write_hit_rate: raw.wr_hit_rate,
                read_hit_rate: raw.rd_hit_rate,
                throughput: raw.throughput,
            }),
    {
        LLCPerf {
            write_hit_rate: raw.wr_hit_rate,
            read_hit_rate: raw.rd_hit_rate,
            throughput: raw.throughput,
        }
    }
}

} // verus!
