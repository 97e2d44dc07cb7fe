//! Tests of the card/chip/vchip hierarchy against an in-memory gateway.

use std::cell::{Cell, RefCell};

use hw_dcmi_wrapper::device::card::Card;
use hw_dcmi_wrapper::device::chip::{health_from_raw, Chip};
use hw_dcmi_wrapper::device::vchip::{
    recovery_mode_from_raw, recovery_mode_to_raw, splitting_mode_from_raw, VChip,
};
use hw_dcmi_wrapper::enums::{HealthState, UnitType, VChipCreateParam, VChipPowerSplittingMode};
use hw_dcmi_wrapper::error::DCMIError;
use hw_dcmi_wrapper::gateway::{
    DcmiGateway, RawAiCoreInfo, RawAiCpuInfo, RawBoardInfo, RawCgroupInfo, RawChipInfo,
    RawDieInfo, RawDomainPcieInfo, RawEccInfo, RawElabelInfo, RawFlashInfo, RawHbmInfo, RawLlcPerf,
    RawMemoryInfo, RawPcieErrRate, RawPcieInfo, RawSensorInfo, RawVChipOutput, RawVChipRequest,
};
use hw_dcmi_wrapper::structs::{ManagerSensorId, SensorInfo};

/// A faithful in-memory gateway: fixed topology, configurable telemetry,
/// a live virtual-chip table, and a counter of every call made. When
/// `fail_status` is non-zero every call returns it and changes nothing.
#[derive(Debug)]
struct FakeGateway {
    card_ids: Vec<i32>,
    device_id_max: i32,
    mcu_id: i32,
    cpu_id: i32,
    temperature: Cell<i32>,
    health: Cell<u32>,
    sensor: RefCell<RawSensorInfo>,
    vchips: RefCell<Vec<(u32, u32, u32)>>,
    next_vdev_id: Cell<u32>,
    splitting_mode: Cell<i32>,
    recovery_mode: Cell<u32>,
    calls: Cell<u32>,
    fail_status: Cell<i32>,
}

impl FakeGateway {
    fn new() -> Self {
        FakeGateway {
            card_ids: vec![0, 1],
            device_id_max: 1,
            mcu_id: -1,
            cpu_id: -1,
            temperature: Cell::new(45),
            health: Cell::new(0),
            sensor: RefCell::new(blank_sensor()),
            vchips: RefCell::new(Vec::new()),
            next_vdev_id: Cell::new(100),
            splitting_mode: Cell::new(0),
            recovery_mode: Cell::new(0),
            calls: Cell::new(0),
            fail_status: Cell::new(0),
        }
    }

    fn bump(&self) -> i32 {
        self.calls.set(self.calls.get() + 1);
        self.fail_status.get()
    }

    fn total_calls(&self) -> u32 {
        self.calls.get()
    }

    fn live_vchips_on(&self, card_id: u32, chip_id: u32) -> usize {
        self.vchips
            .borrow()
            .iter()
            .filter(|(c, d, _)| *c == card_id && *d == chip_id)
            .count()
    }
}

fn blank_sensor() -> RawSensorInfo {
    RawSensorInfo {
        uchar: 0,
        ushort: 0,
        uint: 0,
        iint: 0,
        temp: [0, 0],
        ntc_tmp: [0, 0, 0, 0],
        data: [0; 16],
    }
}

fn text_field(text: &[u8], size: usize) -> Vec<u8> {
    let mut v = text.to_vec();
    v.resize(size, 0);
    v
}

impl DcmiGateway for FakeGateway {
    fn dcmi_get_card_list(&self) -> (i32, i32, Vec<i32>) {
        let status = self.bump();
        let mut buffer = vec![-1; 64];
        for (i, id) in self.card_ids.iter().enumerate() {
            buffer[i] = *id;
        }
        (status, self.card_ids.len() as i32, buffer)
    }

    fn dcmi_get_device_num_in_card(&self, _card_id: u32) -> (i32, i32) {
        (self.bump(), self.device_id_max)
    }

    fn dcmi_get_device_id_in_card(&self, _card_id: u32) -> (i32, i32, i32, i32) {
        (self.bump(), self.device_id_max, self.mcu_id, self.cpu_id)
    }

    fn dcmi_get_device_type(&self, _card_id: u32, _chip_id: u32) -> (i32, u32) {
        (self.bump(), 0)
    }

    fn dcmi_get_device_chip_info(&self, _card_id: u32, _chip_id: u32) -> (i32, RawChipInfo) {
        (
            self.bump(),
            RawChipInfo {
                chip_type: text_field(b"Ascend", 32),
                chip_name: text_field(b"910", 32),
                chip_ver: text_field(b"V1", 32),
                aicore_cnt: 30,
            },
        )
    }

    fn dcmi_get_device_pcie_info(&self, _card_id: u32, _chip_id: u32) -> (i32, RawPcieInfo) {
        (
            self.bump(),
            RawPcieInfo {
                deviceid: 1,
                venderid: 2,
                subvenderid: 3,
                subdeviceid: 4,
                bdf_deviceid: 5,
                bdf_busid: 6,
                bdf_funcid: 7,
            },
        )
    }

    fn dcmi_get_device_pcie_info_v2(
        &self,
        card_id: u32,
        chip_id: u32,
    ) -> (i32, RawDomainPcieInfo) {
        let (status, pcie) = self.dcmi_get_device_pcie_info(card_id, chip_id);
        (status, RawDomainPcieInfo { pcie, domain: 9 })
    }

    fn dcmi_get_device_board_info(&self, _card_id: u32, _chip_id: u32) -> (i32, RawBoardInfo) {
        (self.bump(), RawBoardInfo { board_id: 1, pcb_id: 2, bom_id: 3, slot_id: 4 })
    }

    fn dcmi_get_device_elabel_info(&self, _card_id: u32, _chip_id: u32) -> (i32, RawElabelInfo) {
        (
            self.bump(),
            RawElabelInfo {
                product_name: text_field(b"Atlas", 256),
                model: text_field(b"A300", 256),
                manufacturer: text_field(b"Huawei", 256),
                manufacturer_date: text_field(b"2024", 256),
                serial_number: text_field(b"SN1", 256),
            },
        )
    }

    fn dcmi_get_device_power_info(&self, _card_id: u32, _chip_id: u32) -> (i32, i32) {
        (self.bump(), 1500)
    }

    fn dcmi_get_device_die_v2(&self, _card_id: u32, _chip_id: u32, _die_type: u32) -> (
        i32,
        RawDieInfo,
    ) {
        (self.bump(), RawDieInfo { soc_die: [1, 2, 3, 4, 5] })
    }

    fn dcmi_get_device_health(&self, _card_id: u32, _chip_id: u32) -> (i32, u32) {
        (self.bump(), self.health.get())
    }

    fn dcmi_get_device_errorcode_v2(&self, _card_id: u32, _chip_id: u32) -> (i32, i32, Vec<u32>) {
        let status = self.bump();
        let mut buffer = vec![0; 128];
        buffer[0] = 0x8001;
        buffer[1] = 0x8002;
        (status, 2, buffer)
    }

    fn dcmi_get_device_errorcode_string(
        &self,
        _card_id: u32,
        _chip_id: u32,
        _error_code: u32,
        len: u32,
    ) -> (i32, Vec<u8>) {
        (self.bump(), text_field(b"overheat", len as usize))
    }

    fn dcmi_get_device_flash_count(&self, _card_id: u32, _chip_id: u32) -> (i32, u32) {
        (self.bump(), 1)
    }

    fn dcmi_get_device_flash_info_v2(&self, _card_id: u32, _chip_id: u32, _flash_id: u32) -> (
        i32,
        RawFlashInfo,
    ) {
        (
            self.bump(),
            RawFlashInfo {
                flash_id: 1,
                device_id: 2,
                vendor: 3,
                state: 0x8,
                size: 4,
                sector_count: 5,
                manufacturer_id: 6,
            },
        )
    }

    fn dcmi_get_device_aicore_info(&self, _card_id: u32, _chip_id: u32) -> (i32, RawAiCoreInfo) {
        (self.bump(), RawAiCoreInfo { freq: 1000, cur_freq: 900 })
    }

    fn dcmi_get_device_aicpu_info(&self, _card_id: u32, _chip_id: u32) -> (i32, RawAiCpuInfo) {
        (
            self.bump(),
            RawAiCpuInfo { max_freq: 2000, cur_freq: 1800, aicpu_num: 4, util_rate: [3; 16] },
        )
    }

    fn dcmi_get_device_system_time(&self, _card_id: u32, _chip_id: u32) -> (i32, u32) {
        (self.bump(), 1_700_000_000)
    }

    fn dcmi_get_device_temperature(&self, _card_id: u32, _chip_id: u32) -> (i32, i32) {
        (self.bump(), self.temperature.get())
    }

    fn dcmi_get_device_voltage(&self, _card_id: u32, _chip_id: u32) -> (i32, u32) {
        (self.bump(), 80)
    }

    fn dcmi_get_device_pcie_error_cnt(&self, _card_id: u32, _chip_id: u32) -> (
        i32,
        RawPcieErrRate,
    ) {
        (
            self.bump(),
            RawPcieErrRate {
                reg_deskew_fifo_overflow_intr_status: 0,
                reg_symbol_unlock_intr_status: 0,
                reg_deskew_unlock_intr_status: 0,
                reg_phystatus_timeout_intr_status: 0,
                symbol_unlock_counter: 0,
                pcs_rx_err_cnt: 0,
                phy_lane_err_counter: 0,
                pcs_rcv_err_status: 0b110,
                symbol_unlock_err_status: 0,
                phy_lane_err_status: 0,
                dl_lcrc_err_num: 0,
                dl_dcrc_err_num: 0,
            },
        )
    }

    fn dcmi_get_device_ecc_info(&self, _card_id: u32, _chip_id: u32, _device_type: u32) -> (
        i32,
        RawEccInfo,
    ) {
        (
            self.bump(),
            RawEccInfo {
                enable_flag: 1,
                single_bit_error_cnt: 0,
                double_bit_error_cnt: 0,
                total_single_bit_error_cnt: 0,
                total_double_bit_error_cnt: 0,
                single_bit_isolated_pages_cnt: 0,
                double_bit_isolated_pages_cnt: 0,
            },
        )
    }

    fn dcmi_get_device_frequency(&self, _card_id: u32, _chip_id: u32, _freq_type: u32) -> (
        i32,
        u32,
    ) {
        (self.bump(), 1200)
    }

    fn dcmi_get_device_hbm_info(&self, _card_id: u32, _chip_id: u32) -> (i32, RawHbmInfo) {
        (
            self.bump(),
            RawHbmInfo {
                memory_size: 32768,
                freq: 1200,
                memory_usage: 1024,
                temp: 40,
                bandwith_util_rate: 5,
            },
        )
    }

    fn dcmi_get_device_memory_info_v3(&self, _card_id: u32, _chip_id: u32) -> (
        i32,
        RawMemoryInfo,
    ) {
        (
            self.bump(),
            RawMemoryInfo {
                memory_size: 65536,
                memory_available: 60000,
                freq: 2400,
                hugepagesize: 2048,
                hugepages_total: 16,
                hugepages_free: 8,
                utiliza: 10,
            },
        )
    }

    fn dcmi_get_device_utilization_rate(&self, _card_id: u32, _chip_id: u32, _util_type: u32) -> (
        i32,
        u32,
    ) {
        (self.bump(), 37)
    }

    fn dcmi_get_device_sensor_info(&self, _card_id: u32, _chip_id: u32, _sensor_id: u32) -> (
        i32,
        RawSensorInfo,
    ) {
        (self.bump(), self.sensor.borrow().clone())
    }

    fn dcmi_get_device_board_id(&self, _card_id: u32, _chip_id: u32) -> (i32, u32) {
        (self.bump(), 0x3000)
    }

    fn dcmi_get_device_component_count(&self, _card_id: u32, _chip_id: u32) -> (i32, u32) {
        (self.bump(), 2)
    }

    fn dcmi_get_device_component_list(
        &self,
        _card_id: u32,
        _chip_id: u32,
        component_num: u32,
    ) -> (i32, Vec<u32>) {
        let status = self.bump();
        let codes = vec![5, 7];
        (status, codes.into_iter().take(component_num as usize).collect())
    }

    fn dcmi_get_device_component_static_version(
        &self,
        _card_id: u32,
        _chip_id: u32,
        _component_type: u32,
    ) -> (i32, Vec<u8>) {
        (self.bump(), text_field(b"1.0.0", 256))
    }

    fn dcmi_get_device_cgroup_info(&self, _card_id: u32, _chip_id: u32) -> (i32, RawCgroupInfo) {
        (
            self.bump(),
            RawCgroupInfo { limit_in_bytes: 100, max_usage_in_bytes: 50, usage_in_bytes: 25 },
        )
    }

    fn dcmi_get_device_llc_perf_para(&self, _card_id: u32, _chip_id: u32) -> (i32, RawLlcPerf) {
        (self.bump(), RawLlcPerf { wr_hit_rate: 90, rd_hit_rate: 95, throughput: 4000 })
    }

    fn dcmi_create_vdevice(&self, card_id: u32, chip_id: u32, request: &RawVChipRequest) -> (
        i32,
        RawVChipOutput,
    ) {
        let status = self.bump();
        let blank = RawVChipOutput { vdev_id: 0, pcie_bus: 0, pcie_device: 0, pcie_func: 0, vfg_id: 0 };
        if status != 0 {
            return (status, blank);
        }
        let id = if request.vdev_id == u32::MAX {
            let id = self.next_vdev_id.get();
            self.next_vdev_id.set(id + 1);
            id
        } else {
            request.vdev_id
        };
        self.vchips.borrow_mut().push((card_id, chip_id, id));
        (
            0,
            RawVChipOutput {
                vdev_id: id,
                pcie_bus: 1,
                pcie_device: 2,
                pcie_func: 3,
                vfg_id: request.vfg_id,
            },
        )
    }

    fn dcmi_set_destroy_vdevice(&self, card_id: u32, chip_id: u32, vdev_id: u32) -> i32 {
        let status = self.bump();
        if status != 0 {
            return status;
        }
        let mut vchips = self.vchips.borrow_mut();
        let before = vchips.len();
        if vdev_id == 65535 {
            vchips.retain(|(c, d, _)| !(*c == card_id && *d == chip_id));
            0
        } else {
            vchips.retain(|(c, d, v)| !(*c == card_id && *d == chip_id && *v == vdev_id));
            if vchips.len() == before {
                -8008
            } else {
                0
            }
        }
    }

    fn dcmi_set_vdevice_mode(&self, mode: i32) -> i32 {
        let status = self.bump();
        if status == 0 {
            self.splitting_mode.set(mode);
        }
        status
    }

    fn dcmi_get_vdevice_mode(&self) -> (i32, i32) {
        (self.bump(), self.splitting_mode.get())
    }

    fn dcmi_set_vnpu_config_recover_mode(&self, mode: u32) -> i32 {
        let status = self.bump();
        if status == 0 {
            self.recovery_mode.set(mode);
        }
        status
    }

    fn dcmi_get_vnpu_config_recover_mode(&self) -> (i32, u32) {
        (self.bump(), self.recovery_mode.get())
    }
}

#[test]
fn enumeration_reports_each_card_in_order() {
    let gateway = FakeGateway::new();
    let cards = Card::query_cards(&gateway).unwrap();
    assert_eq!(cards.len(), 2);
    assert_eq!(cards[0].id(), 0);
    assert_eq!(cards[1].id(), 1);
}

#[test]
fn chip_count_is_idempotent_across_requeries() {
    let gateway = FakeGateway::new();
    let cards = Card::query_cards(&gateway).unwrap();
    for card in &cards {
        let first = card.get_chip_num().unwrap();
        let (chips, _, _) = card.get_chips().unwrap();
        let second = card.get_chip_num().unwrap();
        assert_eq!(first, second);
        assert_eq!(chips.len() as u32, second);
    }
}

#[test]
fn absent_special_chips_become_none() {
    let gateway = FakeGateway::new();
    let card = Card::new_unchecked(&gateway, 0);
    let (chips, mcu, cpu) = card.get_chips().unwrap();
    assert_eq!(chips.len(), 1);
    assert_eq!(chips[0].id(), 0);
    assert_eq!(chips[0].get_type().unwrap(), UnitType::NPU);
    assert!(mcu.is_none());
    assert!(cpu.is_none());
}

#[test]
fn present_special_chips_carry_their_kind() {
    let mut gateway = FakeGateway::new();
    gateway.mcu_id = 7;
    gateway.cpu_id = 8;
    let card = Card::new_unchecked(&gateway, 0);
    let (_, mcu, cpu) = card.get_chips().unwrap();
    let mcu = mcu.unwrap();
    let cpu = cpu.unwrap();
    assert_eq!(mcu.id(), 7);
    assert_eq!(mcu.get_type().unwrap(), UnitType::MCU);
    assert_eq!(cpu.id(), 8);
    assert_eq!(cpu.get_type().unwrap(), UnitType::CPU);
}

#[test]
fn reserved_vchip_id_is_rejected_without_any_gateway_call() {
    let gateway = FakeGateway::new();
    let card = Card::new_unchecked(&gateway, 0);
    let chip = Chip::new_unchecked(&card, 0);
    let calls_before = gateway.total_calls();
    let result = VChip::create(
        &chip,
        VChipCreateParam::SpecificId { id: 65535, template_name: "vir03_1c_8g".to_string() },
    );
    assert_eq!(result.unwrap_err(), DCMIError::InvalidParameter);
    assert_eq!(gateway.total_calls(), calls_before);
}

#[test]
fn create_then_destroy_leaves_the_vchip_count_unchanged() {
    let gateway = FakeGateway::new();
    let card = Card::new_unchecked(&gateway, 0);
    let chip = Chip::new_unchecked(&card, 0);
    let before = gateway.live_vchips_on(0, 0);
    let (out, vchip) =
        VChip::create(&chip, VChipCreateParam::TemplateName("vir03_1c_8g".to_string())).unwrap();
    assert_eq!(gateway.live_vchips_on(0, 0), before + 1);
    assert_eq!(vchip.id(), out.vchip_id);
    assert_eq!(vchip.vfg_id(), out.vfg_id);
    vchip.destroy().unwrap();
    assert_eq!(gateway.live_vchips_on(0, 0), before);
}

#[test]
fn created_vchip_is_bound_to_the_allocated_id() {
    let gateway = FakeGateway::new();
    let card = Card::new_unchecked(&gateway, 0);
    let chip = Chip::new_unchecked(&card, 0);
    let (out, vchip) = VChip::create(
        &chip,
        VChipCreateParam::SpecificId { id: 12, template_name: "vir03_1c_8g".to_string() },
    )
    .unwrap();
    assert_eq!(out.vchip_id, 12);
    assert_eq!(vchip.id(), 12);
    let (out2, vchip2) = VChip::create(&chip, VChipCreateParam::NextId).unwrap();
    assert_eq!(out2.vchip_id, 100);
    assert_eq!(vchip2.id(), 100);
}

#[test]
fn destroy_all_leaves_zero_live_vchips() {
    let gateway = FakeGateway::new();
    let card = Card::new_unchecked(&gateway, 0);
    let chip = Chip::new_unchecked(&card, 0);
    for _ in 0..3 {
        VChip::create(&chip, VChipCreateParam::NextId).unwrap();
    }
    assert_eq!(gateway.live_vchips_on(0, 0), 3);
    VChip::destory_all(&chip).unwrap();
    assert_eq!(gateway.live_vchips_on(0, 0), 0);
}

#[test]
fn temperature_sentinel_is_surfaced_as_invalid_data() {
    let gateway = FakeGateway::new();
    gateway.temperature.set(0x7ffd);
    let card = Card::new_unchecked(&gateway, 0);
    let chip = Chip::new_unchecked(&card, 0);
    assert_eq!(chip.get_temperature(), Err(DCMIError::InvalidData));
    gateway.temperature.set(0x7fff);
    assert_eq!(chip.get_temperature(), Err(DCMIError::ReadError));
    gateway.temperature.set(45);
    assert_eq!(chip.get_temperature(), Ok(45));
}

#[test]
fn ntc_sensor_decodes_to_exactly_the_ntc_variant() {
    let gateway = FakeGateway::new();
    gateway.sensor.borrow_mut().ntc_tmp = [10, 11, 12, 13];
    let card = Card::new_unchecked(&gateway, 0);
    let chip = Chip::new_unchecked(&card, 0);
    let info = chip.get_sensor_info(ManagerSensorId::NtcTemperature).unwrap();
    assert_eq!(info, SensorInfo::NtcTmp([10, 11, 12, 13]));
}

#[test]
fn health_not_found_value_is_a_distinct_error() {
    let gateway = FakeGateway::new();
    gateway.health.set(0xffffffff);
    let card = Card::new_unchecked(&gateway, 0);
    let chip = Chip::new_unchecked(&card, 0);
    assert_eq!(chip.get_health(), Err(DCMIError::DeviceNotExist));
    gateway.health.set(1);
    assert_eq!(chip.get_health(), Ok(HealthState::GeneralWarn));
}

#[test]
fn error_code_list_is_cut_at_the_reported_count() {
    let gateway = FakeGateway::new();
    let card = Card::new_unchecked(&gateway, 0);
    let chip = Chip::new_unchecked(&card, 0);
    assert_eq!(chip.get_error_code().unwrap(), vec![0x8001, 0x8002]);
}

#[test]
fn error_code_string_is_cut_at_its_terminator() {
    let gateway = FakeGateway::new();
    let card = Card::new_unchecked(&gateway, 0);
    let chip = Chip::new_unchecked(&card, 0);
    assert_eq!(
        chip.get_error_code_string(0x8001, true).unwrap(),
        "overheat".to_string()
    );
}

#[test]
fn recovery_mode_round_trips_through_the_gateway() {
    let gateway = FakeGateway::new();
    let anti_mode = !VChip::get_recovery_mode(&gateway).unwrap();
    VChip::set_recovery_mode(&gateway, anti_mode).unwrap();
    let new_mode = VChip::get_recovery_mode(&gateway).unwrap();
    assert_eq!(anti_mode, new_mode);
}

#[test]
fn splitting_mode_round_trips_through_the_gateway() {
    let gateway = FakeGateway::new();
    VChip::set_compute_power_splitting_mode(&gateway, VChipPowerSplittingMode::VM).unwrap();
    assert_eq!(
        VChip::get_compute_power_splitting_mode(&gateway).unwrap(),
        VChipPowerSplittingMode::VM
    );
    VChip::set_compute_power_splitting_mode(&gateway, VChipPowerSplittingMode::Container).unwrap();
    assert_eq!(
        VChip::get_compute_power_splitting_mode(&gateway).unwrap(),
        VChipPowerSplittingMode::Container
    );
}

#[test]
fn telemetry_accessors_decode_the_fake_payloads() {
    let gateway = FakeGateway::new();
    let card = Card::new_unchecked(&gateway, 0);
    let chip = Chip::new_unchecked(&card, 0);
    let info = chip.get_info().unwrap();
    assert_eq!(info.chip_type, "Ascend");
    assert_eq!(info.chip_name, "910");
    assert_eq!(info.chip_version, "V1");
    assert_eq!(info.ai_core_count, 30);
    let pcie = chip.get_pcie_info().unwrap();
    assert_eq!(pcie.device_id, 1);
    assert_eq!(pcie.bdf_func_id, 7);
    let domain_pcie = chip.get_domain_pcie_info().unwrap();
    assert_eq!(domain_pcie.domain, 9);
    assert_eq!(domain_pcie.pcie_info, pcie);
    let elabel = chip.get_elabel_info().unwrap();
    assert_eq!(elabel.product_name, "Atlas");
    assert_eq!(elabel.serial_number, "SN1");
    assert_eq!(chip.get_power_info().unwrap(), 1500);
    assert_eq!(chip.get_board_id().unwrap(), 0x3000);
    assert_eq!(chip.get_system_time().unwrap(), 1_700_000_000);
    assert_eq!(chip.get_voltage().unwrap(), 80);
    let memory = chip.get_memory_info().unwrap();
    assert_eq!(memory.memory_size, 65536);
    assert_eq!(memory.huge_page_size, 2048);
    let hbm = chip.get_hbm_info().unwrap();
    assert_eq!(hbm.memory_size, 32768);
    assert_eq!(hbm.temperature, 40);
    let rate = chip.get_pcie_error_cnt().unwrap();
    assert_eq!(rate.pcs_rcv_err_status.len(), 32);
    assert!(rate.pcs_rcv_err_status[1] && rate.pcs_rcv_err_status[2]);
    assert!(!rate.pcs_rcv_err_status[0]);
    let components = chip
        .get_component_list(chip.get_component_count().unwrap())
        .unwrap();
    assert_eq!(
        components,
        vec![
            hw_dcmi_wrapper::structs::ComponentType::Kernel,
            hw_dcmi_wrapper::structs::ComponentType::RootFS
        ]
    );
    let board = chip.get_board_info().unwrap();
    assert_eq!(board.board_id, 1);
    assert_eq!(board.slot_id, 4);
    let die = chip
        .get_die_info(hw_dcmi_wrapper::enums::DieType::VDie)
        .unwrap();
    assert_eq!(die.soc_die, [1, 2, 3, 4, 5]);
    assert_eq!(chip.get_flash_count().unwrap(), 1);
    let flash = chip.get_flash_info(0).unwrap();
    assert!(flash.is_health);
    assert_eq!(flash.flash_id, 1);
    let ai_core = chip.get_ai_core_info().unwrap();
    assert_eq!(ai_core.frequency, 1000);
    assert_eq!(ai_core.current_frequency, 900);
    let ai_cpu = chip.get_ai_cpu_info().unwrap();
    assert_eq!(ai_cpu.aicpu_num, 4);
    assert_eq!(ai_cpu.util_rate, [3; 16]);
    let ecc = chip
        .get_ecc_info(hw_dcmi_wrapper::enums::DeviceType::HBM)
        .unwrap();
    assert!(ecc.enable_flag);
    assert_eq!(
        chip.get_frequency(hw_dcmi_wrapper::enums::FrequencyType::AICoreCurrent)
            .unwrap(),
        1200
    );
    assert_eq!(
        chip.get_utilization_rate(hw_dcmi_wrapper::enums::UtilizationType::Memory)
            .unwrap(),
        37
    );
    let cgroup = chip.get_cgroup_info().unwrap();
    assert_eq!(cgroup.limit_in_bytes, 100);
    let llc = chip.get_llc_perf().unwrap();
    assert_eq!(llc.read_hit_rate, 95);
    assert_eq!(llc.write_hit_rate, 90);
    assert_eq!(llc.throughput, 4000);
    assert_eq!(
        chip.get_component_static_version(hw_dcmi_wrapper::structs::ComponentType::Kernel)
            .unwrap(),
        "1.0.0".to_string()
    );
}

#[test]
fn enumeration_counts_are_clamped_to_the_buffer_and_the_maximum() {
    let gateway = FakeGateway::new();
    let buffer: Vec<i32> = (0..64).collect();
    assert_eq!(Card::cards_from_raw(&gateway, 100, &buffer).len(), 64);
    assert_eq!(Card::cards_from_raw(&gateway, -1, &buffer).len(), 0);
    assert_eq!(Card::cards_from_raw(&gateway, 3, &buffer).len(), 3);
    let short: Vec<i32> = vec![5, 6];
    let cards = Card::cards_from_raw(&gateway, 64, &short);
    assert_eq!(cards.len(), 2);
    assert_eq!(cards[1].id(), 6);
    let card = Card::new_unchecked(&gateway, 0);
    let (npus, _, _) = card.chips_from_raw(0, -1, -1);
    assert!(npus.is_empty());
    let codes = vec![9, 8, 7];
    assert_eq!(Chip::<FakeGateway>::error_codes_from_raw(2, &codes), vec![9, 8]);
    assert_eq!(Chip::<FakeGateway>::error_codes_from_raw(10, &codes), vec![9, 8, 7]);
    assert_eq!(Chip::<FakeGateway>::error_codes_from_raw(-1, &codes), Vec::<u32>::new());
}

#[test]
fn unknown_component_code_fails_the_whole_list() {
    let codes = vec![5, 40, 7];
    assert_eq!(
        Chip::<FakeGateway>::components_from_raw(&codes),
        Err(DCMIError::DecodeFailure)
    );
}

#[test]
fn failing_status_is_translated_with_its_raw_code() {
    let gateway = FakeGateway::new();
    gateway.fail_status.set(-8005);
    let expected = DCMIError::NativeCallFailed { code: -8005 };
    assert_eq!(Card::query_cards(&gateway).unwrap_err(), expected);
    let card = Card::new_unchecked(&gateway, 0);
    assert_eq!(card.get_chip_num().unwrap_err(), expected);
    let chip = Chip::new_unchecked(&card, 0);
    assert_eq!(chip.get_temperature().unwrap_err(), expected);
    assert_eq!(chip.get_memory_info().unwrap_err(), expected);
    assert_eq!(VChip::destory_all(&chip).unwrap_err(), expected);
    assert_eq!(
        VChip::create(&chip, VChipCreateParam::NextId).unwrap_err(),
        expected
    );
}

#[test]
fn mode_codes_translate_exactly_in_both_directions() {
    assert_eq!(splitting_mode_from_raw(0), Ok(VChipPowerSplittingMode::Container));
    assert_eq!(splitting_mode_from_raw(1), Ok(VChipPowerSplittingMode::VM));
    assert_eq!(splitting_mode_from_raw(2), Err(DCMIError::DecodeFailure));
    assert_eq!(splitting_mode_from_raw(-1), Err(DCMIError::DecodeFailure));
    assert_eq!(VChipPowerSplittingMode::Container.to_raw(), 0);
    assert_eq!(VChipPowerSplittingMode::VM.to_raw(), 1);
    assert_eq!(recovery_mode_from_raw(0), Ok(false));
    assert_eq!(recovery_mode_from_raw(1), Ok(true));
    assert_eq!(recovery_mode_from_raw(7), Err(DCMIError::DecodeFailure));
    assert_eq!(recovery_mode_to_raw(true), 1);
    assert_eq!(recovery_mode_to_raw(false), 0);
}

#[test]
fn health_raw_value_decodes_exactly() {
    assert_eq!(health_from_raw(0xffffffff), Err(DCMIError::DeviceNotExist));
    assert_eq!(health_from_raw(0), Ok(HealthState::Health));
    assert_eq!(health_from_raw(3), Ok(HealthState::EmergencyWarn));
    assert_eq!(health_from_raw(17), Ok(HealthState::Unknown));
}

#[test]
fn unknown_gateway_mode_is_a_decode_failure() {
    let gateway = FakeGateway::new();
    gateway.splitting_mode.set(7);
    assert_eq!(
        VChip::get_compute_power_splitting_mode(&gateway),
        Err(DCMIError::DecodeFailure)
    );
    gateway.recovery_mode.set(9);
    assert_eq!(VChip::get_recovery_mode(&gateway), Err(DCMIError::DecodeFailure));
}
