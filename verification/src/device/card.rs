//! NPU management unit.

use crate::device::chip::Chip;
use crate::enums::UnitType;
use crate::error::{dcmi_try, DCMIError, DCMIResult};
use crate::gateway::DcmiGateway;
use vstd::prelude::*;

verus! {

/// The most management units the interface can report.
pub const CARD_MAX_NUM: usize = 64;

/// NPU management unit, borrowing the gateway it was enumerated from.
#[derive(Debug)]
pub struct Card<'a, G: DcmiGateway> {
    /// The gateway every query of this card goes through.
    pub dcmi: &'a G,
    /// The card ID; opaque, with no guaranteed stability across
    /// re-enumeration.
    pub id: u32,
}

/// How many entries of an enumeration reply are meaningful: the reported
/// count, clamped to the buffer and to the fixed maximum.
pub open spec fn spec_card_take(card_num: i32, available: int) -> int {
    let cap = if available < CARD_MAX_NUM as int {
        available
    } else {
        CARD_MAX_NUM as int
    };
    if card_num <= 0 {
        0
    } else if card_num as int <= cap {
        card_num as int
    } else {
        cap
    }
}

impl<'a, G: DcmiGateway> Card<'a, G> {
    /// Creates a card from a bare ID.
    ///
    /// # Warning
    /// It is your responsibility to ensure that the card ID is valid.
    pub fn new_unchecked(dcmi: &'a G, id: u32) -> (r: Card<'a, G>)
        ensures
            r.id == id,
            r.dcmi == dcmi,
    {
        Card { dcmi, id }
    }

    /// Queries the ID of this card.
    pub fn id(&self) -> (r: u32)
        ensures
            r == self.id,
    {
        self.id
    }

    /// Builds the card list out of a raw enumeration reply: one card per
    /// meaningful buffer entry, in the gateway's order.
    pub fn cards_from_raw(dcmi: &'a G, card_num: i32, card_list: &Vec<i32>) -> (r: Vec<
        Card<'a, G>,
    >)
        ensures
            r@.len() == spec_card_take(card_num, card_list@.len() as int),
            forall|i: int|
                0 <= i < r@.len() ==> (#[trigger] r@[i]).id == card_list@[i] as u32 && r@[i].dcmi
                    == dcmi,
    {
        let avail = card_list.len();
        let cap = if avail < CARD_MAX_NUM {
            avail
        } else {
            CARD_MAX_NUM
        };
        let take: usize = if card_num <= 0 {
            0
        } else if card_num as usize <= cap {
            card_num as usize
        } else {
            cap
        };
        let mut cards: Vec<Card<'a, G>> = Vec::new();
        let mut i: usize = 0;
        while i < take
            invariant
                i <= take,
                take <= card_list@.len(),
                cards@.len() == i as int,
                forall|j: int|
                    0 <= j < i ==> cards@[j].id == card_list@[j] as u32 && cards@[j].dcmi == dcmi,
            decreases take - i,
        {
            cards.push(Card { dcmi, id: card_list[i] as u32 });
            i += 1;
        }
        cards
    }

    /// Enumerates the management units now present, in the order the
    /// gateway reports them; the interface bounds them to a fixed maximum.
    ///
    /// # Returns
    /// NPU management unit list
    pub fn query_cards(dcmi: &'a G) -> (r: DCMIResult<Vec<Card<'a, G>>>)
        ensures
            r matches Ok(cards) ==> cards@.len() <= CARD_MAX_NUM as int && (forall|i: int|
                0 <= i < cards@.len() ==> (#[trigger] cards@[i]).dcmi == dcmi),
            r matches Err(e) ==> e is NativeCallFailed,
    {
        let (status, card_num, card_list) = dcmi.dcmi_get_card_list();
        if let Err(e) = dcmi_try(status) {
            return Err(e);
        }
        Ok(Self::cards_from_raw(dcmi, card_num, &card_list))
    }

    /// Queries the number of chips in this management unit.
    ///
    /// # Returns
    /// number of NPU chips
    pub fn get_chip_num(&self) -> (r: DCMIResult<u32>)
        ensures
            r matches Err(e) ==> e is NativeCallFailed,
    {
        let (status, device_num) = self.dcmi.dcmi_get_device_num_in_card(self.id);
        if let Err(e) = dcmi_try(status) {
            return Err(e);
        }
        Ok(device_num as u32)
    }

    /// Builds the chip triple out of a raw reply: the maximum compute-chip
    /// index becomes a zero-based contiguous ID sequence, and each `-1`
    /// special-purpose ID becomes absence.
    pub fn chips_from_raw<'s>(&'s self, device_id_max: i32, mcu_id: i32, cpu_id: i32) -> (r: (
        Vec<Chip<'s, 'a, G>>,
        Option<Chip<'s, 'a, G>>,
        Option<Chip<'s, 'a, G>>,
    ))
        ensures
            r.0@.len() == (if device_id_max <= 0 {
                0int
            } else {
                device_id_max as int
            }),
            forall|i: int|
                0 <= i < r.0@.len() ==> r.0@[i].id == i as u32 && r.0@[i].card == self
                    && r.0@[i].unit_type == Some(UnitType::NPU),
            mcu_id == -1 ==> r.1 is None,
            mcu_id != -1 ==> (r.1 matches Some(c) && c.id == mcu_id as u32 && c.card == self
                && c.unit_type == Some(UnitType::MCU)),
            cpu_id == -1 ==> r.2 is None,
            cpu_id != -1 ==> (r.2 matches Some(c) && c.id == cpu_id as u32 && c.card == self
                && c.unit_type == Some(UnitType::CPU)),
    {
        let npu_count: u32 = if device_id_max <= 0 {
            0
        } else {
            device_id_max as u32
        };
        let mut npu_chips: Vec<Chip<'s, 'a, G>> = Vec::new();
        let mut i: u32 = 0;
        while i < npu_count
            invariant
                i <= npu_count,
                npu_chips@.len() == i as int,
                forall|j: int|
                    0 <= j < i ==> npu_chips@[j].id == j as u32 && npu_chips@[j].card == self
                        && npu_chips@[j].unit_type == Some(UnitType::NPU),
            decreases npu_count - i,
        {
            npu_chips.push(Chip { id: i, card: self, unit_type: Some(UnitType::NPU) });
            i += 1;
        }
        let mcu_chip = if mcu_id != -1 {
            Some(Chip { id: mcu_id as u32, card: self, unit_type: Some(UnitType::MCU) })
        } else {
            None
        };
        let cpu_chip = if cpu_id != -1 {
            Some(Chip { id: cpu_id as u32, card: self, unit_type: Some(UnitType::CPU) })
        } else {
            None
        };
        (npu_chips, mcu_chip, cpu_chip)
    }

    /// Gets the (NPU chip list, MCU chip, CPU chip) of this management
    /// unit.
    ///
    /// # Returns
    /// each element of the returned triple means:
    /// - the NPU chip list, with zero-based contiguous IDs
    /// - the MCU chip, absent when the unit has none
    /// - the CPU chip, absent when the unit has none
    pub fn get_chips<'s>(&'s self) -> (r: DCMIResult<
        (Vec<Chip<'s, 'a, G>>, Option<Chip<'s, 'a, G>>, Option<Chip<'s, 'a, G>>),
    >)
        ensures
            r matches Ok(t) ==> (forall|i: int|
                0 <= i < t.0@.len() ==> (#[trigger] t.0@[i]).id == i as u32 && t.0@[i].card == self
                    && t.0@[i].unit_type == Some(UnitType::NPU)) && (t.1 matches Some(c) ==> c.card
                == self && c.unit_type == Some(UnitType::MCU)) && (t.2 matches Some(c) ==> c.card
                == self && c.unit_type == Some(UnitType::CPU)),
            r matches Err(e) ==> e is NativeCallFailed,
    {
        let (status, device_id_max, mcu_id, cpu_id) = self.dcmi.dcmi_get_device_id_in_card(
            self.id,
        );
        if let Err(e) = dcmi_try(status) {
            return Err(e);
        }
        Ok(self.chips_from_raw(device_id_max, mcu_id, cpu_id))
    }
}

} // verus!
