//! The raw call surface of the management interface, as one capability
//! trait: every entry point takes plain integers and hands back a signed
//! status plus its out-parameters as plain values.
//!
//! Two interchangeable implementations exist outside this crate, one linked
//! against the native library and one resolving it at runtime; tests drive
//! the hierarchy with an in-memory implementation. Nothing is assumed about
//! any implementation: every contract of this crate states what holds
//! whatever an implementation returns.

use vstd::prelude::*;

verus! {

/// Number of words in a die identifier.
pub const DIE_ID_COUNT: usize = 5;

/// Maximum number of AI-CPU cores reported per chip.
pub const MAX_CORE_NUM: usize = 16;

/// Raw chip information: three NUL-terminated text buffers and a core count.
#[derive(Debug, Clone, PartialEq, Eq)]
pub struct RawChipInfo {
    /// Chip type, as a NUL-terminated text buffer.
    pub chip_type: Vec<u8>,
    /// Chip name, as a NUL-terminated text buffer.
    pub chip_name: Vec<u8>,
    /// Chip version, as a NUL-terminated text buffer.
    pub chip_ver: Vec<u8>,
    /// Number of AI cores.
    pub aicore_cnt: u32,
}

/// Raw PCIE location and identification of a chip.
#[derive(Debug, Clone, PartialEq, Eq, Structural)]
pub struct RawPcieInfo {
    /// Device ID.
    pub deviceid: u32,
    /// Vender ID.
    pub venderid: u32,
    /// Subvender ID.
    pub subvenderid: u32,
    /// Subdevice ID.
    pub subdeviceid: u32,
    /// BDF device ID.
    pub bdf_deviceid: u32,
    /// BDF bus ID.
    pub bdf_busid: u32,
    /// BDF function ID.
    pub bdf_funcid: u32,
}

/// Raw PCIE information together with its domain.
#[derive(Debug, Clone, PartialEq, Eq, Structural)]
pub struct RawDomainPcieInfo {
    /// PCIE location and identification.
    pub pcie: RawPcieInfo,
    /// PCIE domain.
    pub domain: i32,
}

/// Raw board identification of a chip.
#[derive(Debug, Clone, PartialEq, Eq, Structural)]
pub struct RawBoardInfo {
    /// Board ID.
    pub board_id: u32,
    /// PCB ID.
    pub pcb_id: u32,
    /// BOM ID.
    pub bom_id: u32,
    /// Slot ID.
    pub slot_id: u32,
}

/// Raw electronic label: five NUL-terminated text buffers.
#[derive(Debug, Clone, PartialEq, Eq)]
pub struct RawElabelInfo {
    /// Product name buffer.
    pub product_name: Vec<u8>,
    /// Model buffer.
    pub model: Vec<u8>,
    /// Manufacturer buffer.
    pub manufacturer: Vec<u8>,
    /// Manufacture date buffer.
    pub manufacturer_date: Vec<u8>,
    /// Serial number buffer.
    pub serial_number: Vec<u8>,
}

/// Raw die identifier.
#[derive(Debug, Clone, PartialEq, Eq)]
pub struct RawDieInfo {
    /// The die identifier words.
    pub soc_die: [u32; DIE_ID_COUNT],
}

/// Raw flash device information.
#[derive(Debug, Clone, PartialEq, Eq, Structural)]
pub struct RawFlashInfo {
    /// Flash ID.
    pub flash_id: u64,
    /// Device ID.
    pub device_id: u16,
    /// Vendor code.
    pub vendor: u16,
    /// Raw state word; the documented healthy state is `0x8`.
    pub state: u32,
    /// Flash size.
    pub size: u64,
    /// Sector count.
    pub sector_count: u32,
    /// Manufacturer ID.
    pub manufacturer_id: u16,
}

/// Raw AI-core frequencies.
#[derive(Debug, Clone, PartialEq, Eq, Structural)]
pub struct RawAiCoreInfo {
    /// Rated frequency, MHz.
    pub freq: u32,
    /// Current frequency, MHz.
    pub cur_freq: u32,
}

/// Raw AI-CPU frequencies and per-core utilization.
#[derive(Debug, Clone, PartialEq, Eq)]
pub struct RawAiCpuInfo {
    /// Maximum frequency, MHz.
    pub max_freq: u32,
    /// Current frequency, MHz.
    pub cur_freq: u32,
    /// Number of AI CPUs.
    pub aicpu_num: u32,
    /// Utilization rate of each core.
    pub util_rate: [u32; MAX_CORE_NUM],
}

/// Raw memory information.
#[derive(Debug, Clone, PartialEq, Eq, Structural)]
pub struct RawMemoryInfo {
    /// Memory size, MB.
    pub memory_size: u64,
    /// Available memory, MB.
    pub memory_available: u64,
    /// Memory frequency.
    pub freq: u32,
    /// Huge page size, KB.
    pub hugepagesize: u64,
    /// Total huge pages.
    pub hugepages_total: u64,
    /// Free huge pages.
    pub hugepages_free: u64,
    /// DDR memory utilization.
    pub utiliza: u32,
}

/// Raw high-bandwidth-memory information.
#[derive(Debug, Clone, PartialEq, Eq, Structural)]
pub struct RawHbmInfo {
    /// Total size, MB.
    pub memory_size: u64,
    /// Frequency, MHz.
    pub freq: u32,
    /// Used memory, MB.
    pub memory_usage: u64,
    /// Temperature.
    pub temp: i32,
    /// Bandwidth utilization rate.
    pub bandwith_util_rate: u32,
}

/// Raw PCIE error counters and bit-packed per-lane status words.
#[derive(Debug, Clone, PartialEq, Eq, Structural)]
pub struct RawPcieErrRate {
    /// Deskew FIFO overflow interrupt status word.
    pub reg_deskew_fifo_overflow_intr_status: u32,
    /// Symbol unlock interrupt status word.
    pub reg_symbol_unlock_intr_status: u32,
    /// Deskew unlock interrupt status word.
    pub reg_deskew_unlock_intr_status: u32,
    /// Phystatus timeout interrupt status word.
    pub reg_phystatus_timeout_intr_status: u32,
    /// Symbol unlock counter.
    pub symbol_unlock_counter: u32,
    /// PCS RX error count.
    pub pcs_rx_err_cnt: u32,
    /// PHY lane error counter.
    pub phy_lane_err_counter: u32,
    /// Bit-packed PCS receive error status, one bit per lane.
    pub pcs_rcv_err_status: u32,
    /// Bit-packed symbol unlock error status, one bit per lane.
    pub symbol_unlock_err_status: u32,
    /// Bit-packed PHY lane error status, one bit per lane.
    pub phy_lane_err_status: u32,
    /// DL LCRC error number.
    pub dl_lcrc_err_num: u32,
    /// DL DCRC error number.
    pub dl_dcrc_err_num: u32,
}

/// Raw ECC information.
#[derive(Debug, Clone, PartialEq, Eq, Structural)]
pub struct RawEccInfo {
    /// ECC enable flag; non-zero means enabled.
    pub enable_flag: i32,
    /// Single-bit error count.
    pub single_bit_error_cnt: u32,
    /// Double-bit error count.
    pub double_bit_error_cnt: u32,
    /// Total single-bit error count.
    pub total_single_bit_error_cnt: u32,
    /// Total double-bit error count.
    pub total_double_bit_error_cnt: u32,
    /// Single-bit isolated pages count.
    pub single_bit_isolated_pages_cnt: u32,
    /// Double-bit isolated pages count.
    pub double_bit_isolated_pages_cnt: u32,
}

/// The sensor payload union, seen through each of its representations. Which
/// one holds real data is determined by the requested sensor identifier, not
/// by the payload itself.
#[derive(Debug, Clone, PartialEq, Eq)]
pub struct RawSensorInfo {
    /// The payload as a single unsigned byte.
    pub uchar: u8,
    /// The payload as an unsigned short.
    pub ushort: u16,
    /// The payload as an unsigned word.
    pub uint: u32,
    /// The payload as a signed word.
    pub iint: i32,
    /// The payload as a two-element threshold pair.
    pub temp: [i8; 2],
    /// The payload as the four NTC sensor temperatures.
    pub ntc_tmp: [i32; 4],
    /// The payload as sixteen raw words.
    pub data: [u32; 16],
}

/// Raw control-group information.
#[derive(Debug, Clone, PartialEq, Eq, Structural)]
pub struct RawCgroupInfo {
    /// Memory limit in bytes.
    pub limit_in_bytes: u64,
    /// Maximum usage in bytes.
    pub max_usage_in_bytes: u64,
    /// Usage in bytes.
    pub usage_in_bytes: u64,
}

/// Raw last-level-cache performance counters.
#[derive(Debug, Clone, PartialEq, Eq, Structural)]
pub struct RawLlcPerf {
    /// Write hit rate, percent.
    pub wr_hit_rate: u32,
    /// Read hit rate, percent.
    pub rd_hit_rate: u32,
    /// Throughput, KB/s.
    pub throughput: u32,
}

/// Raw virtual-chip creation request.
#[derive(Debug, Clone, PartialEq, Eq)]
pub struct RawVChipRequest {
    /// Requested virtual-chip ID; the reserved wildcard ID asks the gateway
    /// to assign the next available one.
    pub vdev_id: u32,
    /// Requested group ID.
    pub vfg_id: u32,
    /// Resource template name as text bytes, without a terminator.
    pub template_name: Vec<u8>,
}

/// Raw virtual-chip creation output.
#[derive(Debug, Clone, PartialEq, Eq, Structural)]
pub struct RawVChipOutput {
    /// The virtual-chip ID actually allocated.
    pub vdev_id: u32,
    /// Allocated PCIE bus.
    pub pcie_bus: u32,
    /// Allocated PCIE device.
    pub pcie_device: u32,
    /// Allocated PCIE function.
    pub pcie_func: u32,
    /// The group ID actually allocated.
    pub vfg_id: u32,
}

/// The raw call surface, one method per native entry point. Each call is a
/// single synchronous round trip returning the raw signed status (zero is
/// success) together with the call's out-parameters; out-parameters carry
/// defined data only when the status is zero.
///
/// Implementations live outside this crate. No method carries a contract:
/// callers in this crate state what holds of every possible reply.
pub trait DcmiGateway {
    /// Lists the present management units: status, unit count, and the ID
    /// buffer the count refers into.
    fn dcmi_get_card_list(&self) -> (i32, i32, Vec<i32>);

    /// Number of chips in a card: status and chip count.
    fn dcmi_get_device_num_in_card(&self, card_id: u32) -> (i32, i32);

    /// Chip IDs in a card: status, the maximum compute-chip index, and the
    /// MCU and CPU chip IDs, each `-1` when absent.
    fn dcmi_get_device_id_in_card(&self, card_id: u32) -> (i32, i32, i32, i32);

    /// Unit type of a chip: status and raw unit-type code.
    fn dcmi_get_device_type(&self, card_id: u32, chip_id: u32) -> (i32, u32);

    /// Chip information: status and raw chip info.
    fn dcmi_get_device_chip_info(&self, card_id: u32, chip_id: u32) -> (i32, RawChipInfo);

    /// PCIE information: status and raw PCIE info.
    fn dcmi_get_device_pcie_info(&self, card_id: u32, chip_id: u32) -> (i32, RawPcieInfo);

    /// PCIE information with domain: status and raw domain PCIE info.
    fn dcmi_get_device_pcie_info_v2(&self, card_id: u32, chip_id: u32) -> (i32, RawDomainPcieInfo);

    /// Board information: status and raw board info.
    fn dcmi_get_device_board_info(&self, card_id: u32, chip_id: u32) -> (i32, RawBoardInfo);

    /// Electronic label: status and raw label buffers.
    fn dcmi_get_device_elabel_info(&self, card_id: u32, chip_id: u32) -> (i32, RawElabelInfo);

    /// Power draw: status and power in tenths of a watt.
    fn dcmi_get_device_power_info(&self, card_id: u32, chip_id: u32) -> (i32, i32);

    /// Die identifier of the selected die: status and raw die info.
    fn dcmi_get_device_die_v2(&self, card_id: u32, chip_id: u32, die_type: u32) -> (
        i32,
        RawDieInfo,
    );

    /// Health: status and raw health code.
    fn dcmi_get_device_health(&self, card_id: u32, chip_id: u32) -> (i32, u32);

    /// Error codes: status, error count, and the code buffer the count
    /// refers into.
    fn dcmi_get_device_errorcode_v2(&self, card_id: u32, chip_id: u32) -> (i32, i32, Vec<u32>);

    /// Description of one error code: status and a NUL-terminated text
    /// buffer of at most `len` bytes.
    fn dcmi_get_device_errorcode_string(
        &self,
        card_id: u32,
        chip_id: u32,
        error_code: u32,
        len: u32,
    ) -> (i32, Vec<u8>);

    /// Number of flash devices: status and count.
    fn dcmi_get_device_flash_count(&self, card_id: u32, chip_id: u32) -> (i32, u32);

    /// Information of one flash device: status and raw flash info.
    fn dcmi_get_device_flash_info_v2(&self, card_id: u32, chip_id: u32, flash_id: u32) -> (
        i32,
        RawFlashInfo,
    );

    /// AI-core information: status and raw info.
    fn dcmi_get_device_aicore_info(&self, card_id: u32, chip_id: u32) -> (i32, RawAiCoreInfo);

    /// AI-CPU information: status and raw info.
    fn dcmi_get_device_aicpu_info(&self, card_id: u32, chip_id: u32) -> (i32, RawAiCpuInfo);

    /// System time: status and seconds since the epoch.
    fn dcmi_get_device_system_time(&self, card_id: u32, chip_id: u32) -> (i32, u32);

    /// Temperature: status and degrees Celsius, possibly a data sentinel.
    fn dcmi_get_device_temperature(&self, card_id: u32, chip_id: u32) -> (i32, i32);

    /// Voltage: status and hundredths of a volt, possibly a data sentinel.
    fn dcmi_get_device_voltage(&self, card_id: u32, chip_id: u32) -> (i32, u32);

    /// PCIE error counters: status and raw counters.
    fn dcmi_get_device_pcie_error_cnt(&self, card_id: u32, chip_id: u32) -> (i32, RawPcieErrRate);

    /// ECC information of the selected memory device: status and raw info.
    fn dcmi_get_device_ecc_info(&self, card_id: u32, chip_id: u32, device_type: u32) -> (
        i32,
        RawEccInfo,
    );

    /// Frequency of the selected clock: status and MHz.
    fn dcmi_get_device_frequency(&self, card_id: u32, chip_id: u32, freq_type: u32) -> (i32, u32);

    /// High-bandwidth-memory information: status and raw info.
    fn dcmi_get_device_hbm_info(&self, card_id: u32, chip_id: u32) -> (i32, RawHbmInfo);

    /// Memory information: status and raw info.
    fn dcmi_get_device_memory_info_v3(&self, card_id: u32, chip_id: u32) -> (i32, RawMemoryInfo);

    /// Utilization rate of the selected resource: status and percent.
    fn dcmi_get_device_utilization_rate(&self, card_id: u32, chip_id: u32, util_type: u32) -> (
        i32,
        u32,
    );

    /// Sensor payload of the requested sensor: status and the payload union
    /// seen through each representation.
    fn dcmi_get_device_sensor_info(&self, card_id: u32, chip_id: u32, sensor_id: u32) -> (
        i32,
        RawSensorInfo,
    );

    /// Board ID: status and ID.
    fn dcmi_get_device_board_id(&self, card_id: u32, chip_id: u32) -> (i32, u32);

    /// Number of upgradable components: status and count.
    fn dcmi_get_device_component_count(&self, card_id: u32, chip_id: u32) -> (i32, u32);

    /// Raw component type codes, at most `component_num` of them: status and
    /// codes.
    fn dcmi_get_device_component_list(&self, card_id: u32, chip_id: u32, component_num: u32) -> (
        i32,
        Vec<u32>,
    );

    /// Version of the selected component: status and a NUL-terminated text
    /// buffer.
    fn dcmi_get_device_component_static_version(
        &self,
        card_id: u32,
        chip_id: u32,
        component_type: u32,
    ) -> (i32, Vec<u8>);

    /// Control-group information: status and raw info.
    fn dcmi_get_device_cgroup_info(&self, card_id: u32, chip_id: u32) -> (i32, RawCgroupInfo);

    /// Last-level-cache performance: status and raw counters.
    fn dcmi_get_device_llc_perf_para(&self, card_id: u32, chip_id: u32) -> (i32, RawLlcPerf);

    /// Creates a virtual chip on a chip: status and the allocation actually
    /// made.
    fn dcmi_create_vdevice(&self, card_id: u32, chip_id: u32, request: &RawVChipRequest) -> (
        i32,
        RawVChipOutput,
    );

    /// Destroys the virtual chip with the given ID, or every one under the
    /// chip when handed the reserved wildcard ID.
    fn dcmi_set_destroy_vdevice(&self, card_id: u32, chip_id: u32, vdev_id: u32) -> i32;

    /// Sets the session-wide compute-power splitting mode.
    fn dcmi_set_vdevice_mode(&self, mode: i32) -> i32;

    /// Reads the session-wide compute-power splitting mode.
    fn dcmi_get_vdevice_mode(&self) -> (i32, i32);

    /// Sets the session-wide virtual-chip recovery mode.
    fn dcmi_set_vnpu_config_recover_mode(&self, mode: u32) -> i32;

    /// Reads the session-wide virtual-chip recovery mode.
    fn dcmi_get_vnpu_config_recover_mode(&self) -> (i32, u32);
}

} // verus!
