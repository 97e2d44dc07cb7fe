//! Virtual chip carved out of a chip, and the session-scoped mode toggles
//! of the compute-power splitting machinery.

use crate::device::chip::Chip;
use crate::enums::{VChipCreateParam, VChipPowerSplittingMode};
use crate::error::{dcmi_try, DCMIError, DCMIResult};
use crate::gateway::{DcmiGateway, RawVChipRequest};
use crate::structs::VChipOutput;
use vstd::prelude::*;
use vstd::string::StrSliceExecFns;
use vstd::utf8::encode_utf8;

verus! {

/// The reserved virtual-chip ID: it means "every virtual chip" in a
/// destroy request, so it is never a legal specific-ID creation target.
pub const VCHIP_WILDCARD_ID: u32 = 65535;

/// The creation-request ID that asks the gateway to allocate the next
/// available virtual-chip ID itself.
pub const VCHIP_AUTO_ASSIGN_ID: u32 = 0xffffffff;

/// Decodes the raw compute-power splitting mode; a code outside the two
/// documented values is a decode failure, never a guessed mode.
pub fn splitting_mode_from_raw(raw: i32) -> (r: DCMIResult<VChipPowerSplittingMode>)
    ensures
        raw == 0 ==> r == Ok::<VChipPowerSplittingMode, DCMIError>(
            VChipPowerSplittingMode::Container,
        ),
        raw == 1 ==> r == Ok::<VChipPowerSplittingMode, DCMIError>(VChipPowerSplittingMode::VM),
        raw != 0 && raw != 1 ==> r == Err::<VChipPowerSplittingMode, DCMIError>(
            DCMIError::DecodeFailure,
        ),
{
    match raw {
        0 => Ok(VChipPowerSplittingMode::Container),
        1 => Ok(VChipPowerSplittingMode::VM),
        _ => Err(DCMIError::DecodeFailure),
    }
}

/// Decodes the raw recovery mode; a code outside the two documented values
/// is a decode failure, never a guessed mode.
pub fn recovery_mode_from_raw(raw: u32) -> (r: DCMIResult<bool>)
    ensures
        raw == 0 ==> r == Ok::<bool, DCMIError>(false),
        raw == 1 ==> r == Ok::<bool, DCMIError>(true),
        raw > 1 ==> r == Err::<bool, DCMIError>(DCMIError::DecodeFailure),
{
    match raw {
        0 => Ok(false),
        1 => Ok(true),
        _ => Err(DCMIError::DecodeFailure),
    }
}

/// Encodes the recovery mode as the raw code handed to the gateway.
pub fn recovery_mode_to_raw(mode: bool) -> (r: u32)
    ensures
        mode ==> r == 1,
        !mode ==> r == 0,
{
    if mode {
        1
    } else {
        0
    }
}

/// Virtual chip, borrowing the chip it was carved out of. A value of this
/// type exists only between a successful creation and its destruction.
#[derive(Debug)]
pub struct VChip<'a, 'b, 'c, G: DcmiGateway> where 'b: 'a, 'c: 'b {
    /// The virtual-chip ID.
    pub id: u32,
    /// The virtual-chip group ID.
    pub vfg_id: u32,
    /// The chip hosting this virtual chip.
    pub chip: &'a Chip<'b, 'c, G>,
}

impl<'a, 'b, 'c, G: DcmiGateway> VChip<'a, 'b, 'c, G> where 'b: 'a, 'c: 'b {
    /// Creates a virtual-chip value from bare IDs.
    ///
    /// # Warning
    /// It is your responsibility to ensure that the virtual chip ID is
    /// valid.
    pub fn new_unchecked(chip: &'a Chip<'b, 'c, G>, id: u32, vfg_id: u32) -> (r: Self)
        ensures
            r.id == id,
            r.vfg_id == vfg_id,
            r.chip == chip,
    {
        VChip { id, vfg_id, chip }
    }

    /// Queries the ID of this virtual chip.
    pub fn id(&self) -> (r: u32)
        ensures
            r == self.id,
    {
        self.id
    }

    /// Queries the group ID of this virtual chip.
    pub fn vfg_id(&self) -> (r: u32)
        ensures
            r == self.vfg_id,
    {
        self.vfg_id
    }

    /// Queries the chip of this virtual chip.
    ///
    /// # Returns
    /// chip
    pub fn chip(&self) -> (r: &Chip<'b, 'c, G>)
        ensures
            r == self.chip,
    {
        self.chip
    }

    /// Encodes a creation parameter into the raw request: the auto-assign
    /// ID asks the gateway to allocate one, and the template name travels
    /// as its text bytes.
    pub fn request_from_param(param: &VChipCreateParam) -> (r: RawVChipRequest)
        ensures
            param is NextId ==> r.vdev_id == VCHIP_AUTO_ASSIGN_ID && r.template_name@.len() == 0,
            param matches VChipCreateParam::SpecificId { id, template_name } ==> r.vdev_id == id
                && r.template_name@ == encode_utf8(template_name@),
            param matches VChipCreateParam::TemplateName(name) ==> r.vdev_id
                == VCHIP_AUTO_ASSIGN_ID && r.template_name@ == encode_utf8(name@),
            r.vfg_id == 0,
    {
        match param {
            VChipCreateParam::NextId => RawVChipRequest {
                vdev_id: VCHIP_AUTO_ASSIGN_ID,
                vfg_id: 0,
                template_name: Vec::new(),
            },
            VChipCreateParam::SpecificId { id, template_name } => RawVChipRequest {
                vdev_id: *id,
                vfg_id: 0,
                template_name: template_name.as_str().as_bytes_vec(),
            },
            VChipCreateParam::TemplateName(name) => RawVChipRequest {
                vdev_id: VCHIP_AUTO_ASSIGN_ID,
                vfg_id: 0,
                template_name: name.as_str().as_bytes_vec(),
            },
        }
    }

    /// Creates a virtual chip on `chip`.
    ///
    /// A request for the reserved wildcard ID fails with an
    /// invalid-parameter error before any gateway call. On success the
    /// returned virtual chip is bound to the ID and group ID the gateway
    /// actually allocated, which may differ from any hint in `param`.
    ///
    /// # Parameters
    /// - chip: the chip to create a virtual chip on
    /// - param: virtual chip creation parameters
    ///
    /// # Returns
    /// the raw creation output, with the allocated PCIE location, and the
    /// live virtual chip
    pub fn create(chip: &'a Chip<'b, 'c, G>, param: VChipCreateParam) -> (r: DCMIResult<
        (VChipOutput, Self),
    >)
        ensures
            (param matches VChipCreateParam::SpecificId { id, .. } && id == VCHIP_WILDCARD_ID)
                <==> r == Err::<(VChipOutput, Self), DCMIError>(DCMIError::InvalidParameter),
            r matches Ok(t) ==> t.1.id == t.0.vchip_id && t.1.vfg_id == t.0.vfg_id && t.1.chip
                == chip,
            r matches Err(e) ==> e == DCMIError::InvalidParameter || e is NativeCallFailed,
    {
        if let VChipCreateParam::SpecificId { id, .. } = &param {
            if *id == VCHIP_WILDCARD_ID {
                return Err(DCMIError::InvalidParameter);
            }
        }
        let request = Self::request_from_param(&param);
        let (status, out) = chip.card.dcmi.dcmi_create_vdevice(chip.card.id, chip.id, &request);
        if let Err(e) = dcmi_try(status) {
            return Err(e);
        }
        let vchip = VChip::new_unchecked(chip, out.vdev_id, out.vfg_id);
        Ok((VChipOutput::from_raw(&out), vchip))
    }

    /// Destroys every virtual chip on `chip`, in one gateway call with the
    /// reserved wildcard ID. Takes and returns no virtual-chip values, as
    /// it may destroy ones not locally tracked.
    ///
    /// # Parameters
    /// - chip: the chip whose virtual chips are all destroyed
    pub fn destory_all(chip: &'a Chip<'b, 'c, G>) -> (r: DCMIResult<()>)
        ensures
            r matches Err(e) ==> e is NativeCallFailed,
    {
        let status = chip.card.dcmi.dcmi_set_destroy_vdevice(
            chip.card.id,
            chip.id,
            VCHIP_WILDCARD_ID,
        );
        dcmi_try(status)
    }

    /// Sets the session-scoped compute-power splitting mode.
    ///
    /// # Warning
    /// Make sure that no virtual chip is created while the mode is being
    /// changed; the gateway does not enforce this.
    pub fn set_compute_power_splitting_mode(dcmi: &G, mode: VChipPowerSplittingMode) -> (r:
        DCMIResult<()>)
        ensures
            r matches Err(e) ==> e is NativeCallFailed,
    {
        dcmi_try(dcmi.dcmi_set_vdevice_mode(mode.to_raw()))
    }

    /// Queries the session-scoped compute-power splitting mode. A raw mode
    /// outside the two documented values is a decode failure, never a
    /// guessed mode.
    pub fn get_compute_power_splitting_mode(dcmi: &G) -> (r: DCMIResult<VChipPowerSplittingMode>)
        ensures
            r matches Err(e) ==> e is NativeCallFailed || e == DCMIError::DecodeFailure,
    {
        let (status, mode) = dcmi.dcmi_get_vdevice_mode();
        if let Err(e) = dcmi_try(status) {
            return Err(e);
        }
        splitting_mode_from_raw(mode)
    }

    /// Sets the session-scoped recovery mode: whether virtual-chip
    /// configuration persists recovery.
    pub fn set_recovery_mode(dcmi: &G, mode: bool) -> (r: DCMIResult<()>)
        ensures
            r matches Err(e) ==> e is NativeCallFailed,
    {
        dcmi_try(dcmi.dcmi_set_vnpu_config_recover_mode(recovery_mode_to_raw(mode)))
    }

    /// Queries the session-scoped recovery mode. A raw mode outside the two
    /// documented values is a decode failure, never a guessed mode.
    pub fn get_recovery_mode(dcmi: &G) -> (r: DCMIResult<bool>)
        ensures
            r matches Err(e) ==> e is NativeCallFailed || e == DCMIError::DecodeFailure,
    {
        let (status, mode) = dcmi.dcmi_get_vnpu_config_recover_mode();
        if let Err(e) = dcmi_try(status) {
            return Err(e);
        }
        recovery_mode_from_raw(mode)
    }

    /// Destroys this virtual chip, consuming it: one gateway call keyed by
    /// the card, chip, and virtual-chip IDs.
    pub fn destroy(self) -> (r: DCMIResult<()>)
        ensures
            r matches Err(e) ==> e is NativeCallFailed,
    {
        let status = self.chip.card.dcmi.dcmi_set_destroy_vdevice(
            self.chip.card.id,
            self.chip.id,
            self.id,
        );
        dcmi_try(status)
    }
}

} // verus!
