//! The headset models that the library knows, and how each one is asked.

use crate::scaling::Scaling;
use vstd::prelude::*;

verus! {

/// USB vendor number of SteelSeries.
pub const STEELSERIES_VID: u16 = 0x1038;

/// Length of the frame written to a headset.
pub const REQUEST_BUFFER_SIZE: usize = 32;

/// Length of the frame read back from a headset.
pub const REPORT_BUFFER_SIZE: usize = 32;

/// The headset models, each standing for its USB product number.
#[allow(non_camel_case_types)]
#[derive(Debug, Copy, Clone, PartialEq, Eq, Structural)]
pub enum ArctisPID {
    Arctis7_2019,
    Arctis7_2017,
    ArctisPro_Wireless,
    ArctisPro_2019,
    ArctisPro_GameDac,
    Arctis1W,
    Arctis1X,
    Arctis7X,
    Arctis7P,
    Arctis9,
    Arctis7_Plus,
    Arctis7_Plus_Destiny,
    Arctis7P_Plus,
    Arctis7X_Plus,
    ArctisNova7,
    ArctisNova7X,
    ArctisNova7P,
}

impl ArctisPID {
    /// The USB product number of the model.
    pub open spec fn product_id(self) -> u16 {
        match self {
            ArctisPID::Arctis7_2019 => 0x12ad,
            ArctisPID::Arctis7_2017 => 0x1260,
            ArctisPID::ArctisPro_Wireless => 0x1290,
            ArctisPID::ArctisPro_2019 => 0x1252,
            ArctisPID::ArctisPro_GameDac => 0x1280,
            ArctisPID::Arctis1W => 0x12b3,
            ArctisPID::Arctis1X => 0x12b6,
            ArctisPID::Arctis7X => 0x12d7,
            ArctisPID::Arctis7P => 0x12d5,
            ArctisPID::Arctis9 => 0x12c2,
            ArctisPID::Arctis7_Plus => 0x220e,
            ArctisPID::Arctis7_Plus_Destiny => 0x2236,
            ArctisPID::Arctis7P_Plus => 0x2212,
            ArctisPID::Arctis7X_Plus => 0x2216,
            ArctisPID::ArctisNova7 => 0x2202,
            ArctisPID::ArctisNova7X => 0x2206,
            ArctisPID::ArctisNova7P => 0x220a,
        }
    }
}

impl Into<u16> for ArctisPID {
    /// The USB product number of the model.
    fn into(self) -> u16 {
        match self {
            ArctisPID::Arctis7_2019 => 0x12ad,
            ArctisPID::Arctis7_2017 => 0x1260,
            ArctisPID::ArctisPro_Wireless => 0x1290,
            ArctisPID::ArctisPro_2019 => 0x1252,
            ArctisPID::ArctisPro_GameDac => 0x1280,
            ArctisPID::Arctis1W => 0x12b3,
            ArctisPID::Arctis1X => 0x12b6,
            ArctisPID::Arctis7X => 0x12d7,
            ArctisPID::Arctis7P => 0x12d5,
            ArctisPID::Arctis9 => 0x12c2,
            ArctisPID::Arctis7_Plus => 0x220e,
            ArctisPID::Arctis7_Plus_Destiny => 0x2236,
            ArctisPID::Arctis7P_Plus => 0x2212,
            ArctisPID::Arctis7X_Plus => 0x2216,
            ArctisPID::ArctisNova7 => 0x2202,
            ArctisPID::ArctisNova7X => 0x2206,
            ArctisPID::ArctisNova7P => 0x220a,
        }
    }
}

impl vstd::std_specs::convert::IntoSpecImpl<u16> for ArctisPID {
    open spec fn obeys_into_spec() -> bool {
        true
    }

    open spec fn into_spec(self) -> u16 {
        self.product_id()
    }
}

/// What the library knows of one headset model.
#[derive(Debug, Copy, Clone, PartialEq, Eq)]
pub struct Device<'a> {
    /// Name shown to the user.
    pub name: &'a str,
    /// The model, and with it the product number.
    pub pid: ArctisPID,
    /// First byte of every frame exchanged with the model.
    pub reportid: u8,
    /// The byte that asks the model for its battery level.
    pub addr_battery: u8,
    /// Where the raw battery byte stands in the reply.
    pub idx_battery: u8,
    /// How the raw battery byte is decoded.
    pub calculate_battery: Scaling,
}

impl<'a> Device<'a> {
    /// The battery byte lies inside the reply and the decoding is sound.
    pub open spec fn well_formed(&self) -> bool {
        &&& self.idx_battery < REPORT_BUFFER_SIZE
        &&& self.calculate_battery.well_formed()
    }

    /// The frame that asks for the battery level: the report number, the
    /// battery address, and zeros up to the full length.
    pub open spec fn request_spec(&self) -> Seq<u8> {
        Seq::new(
            REQUEST_BUFFER_SIZE as nat,
            |i: int|
                if i == 0 {
                    self.reportid
                } else if i == 1 {
                    self.addr_battery
                } else {
                    0u8
                },
        )
    }

    /// The battery level that the reply `report` carries.
    pub open spec fn battery_percent_spec(&self, report: Seq<u8>) -> int {
        self.calculate_battery.apply_spec(report[self.idx_battery as int])
    }

    /// Tells whether the battery byte lies inside the reply and the decoding
    /// is sound, which is what `read_battery_percent` asks of a device.
    pub fn is_well_formed(&self) -> (sound: bool)
        ensures
            sound == self.well_formed(),
    {
        (self.idx_battery as usize) < REPORT_BUFFER_SIZE && self.calculate_battery.is_well_formed()
    }

    /// Builds the frame that asks the headset for its battery level.
    pub fn generate_request(&self) -> (frame: [u8; REQUEST_BUFFER_SIZE])
        ensures
            frame@ == self.request_spec(),
    {
        let frame: [u8; REQUEST_BUFFER_SIZE] = [
            self.reportid,
            self.addr_battery,
            0,
            0,
            0,
            0,
            0,
            0,
            0,
            0,
            0,
            0,
            0,
            0,
            0,
            0,
            0,
            0,
            0,
            0,
            0,
            0,
            0,
            0,
            0,
            0,
            0,
            0,
            0,
            0,
            0,
            0,
        ];
        assert(frame@ =~= self.request_spec());
        frame
    }

    /// Decodes the battery level from the reply `report`.
    pub fn read_battery_percent(&self, report: &[u8; REPORT_BUFFER_SIZE]) -> (level: u8)
        requires
            self.well_formed(),
        ensures
            level == self.battery_percent_spec(report@),
    {
        let index: usize = self.idx_battery as usize;
        self.calculate_battery.apply(report[index])
    }
}

/// Number of headset models in the table.
pub const DEVICE_COUNT: usize = 17;

/// The table of known headset models, in the order in which it is searched.
pub open spec fn registry() -> Seq<Device<'static>> {
    seq![
        Device {
            name: "Arctis 7 (2019)",
            pid: ArctisPID::Arctis7_2019,
            reportid: 0x06,
            addr_battery: 0x18,
            idx_battery: 2,
            calculate_battery: Scaling::Identity,
        },
        Device {
            name: "Arctis 7 (2017)",
            pid: ArctisPID::Arctis7_2017,
            reportid: 0x06,
            addr_battery: 0x18,
            idx_battery: 2,
            calculate_battery: Scaling::Identity,
        },
        Device {
            name: "Arctis Pro Wireless",
            pid: ArctisPID::ArctisPro_Wireless,
            reportid: 0x40,
            addr_battery: 0xaa,
            idx_battery: 0,
            calculate_battery: Scaling::DiscreteLevels { levels: 4 },
        },
        Device {
            name: "Arctis Pro 2019",
            pid: ArctisPID::ArctisPro_2019,
            reportid: 0x06,
            addr_battery: 0x18,
            idx_battery: 2,
            calculate_battery: Scaling::Identity,
        },
        Device {
            name: "Arctis Pro GameDac",
            pid: ArctisPID::ArctisPro_GameDac,
            reportid: 0x06,
            addr_battery: 0x18,
            idx_battery: 2,
            calculate_battery: Scaling::Identity,
        },
        Device {
            name: "Arctis 9",
            pid: ArctisPID::Arctis9,
            reportid: 0x00,
            addr_battery: 0x20,
            idx_battery: 4,
            calculate_battery: Scaling::LinearOffset { min: 100, max: 154 },
        },
        Device {
            name: "Arctis 1 Wireless",
            pid: ArctisPID::Arctis1W,
            reportid: 0x06,
            addr_battery: 0x12,
            idx_battery: 3,
            calculate_battery: Scaling::Identity,
        },
        Device {
            name: "Arctis 1 Xbox",
            pid: ArctisPID::Arctis1X,
            reportid: 0x06,
            addr_battery: 0x12,
            idx_battery: 3,
            calculate_battery: Scaling::Identity,
        },
        Device {
            name: "Arctis 7X",
            pid: ArctisPID::Arctis7X,
            reportid: 0x06,
            addr_battery: 0x12,
            idx_battery: 3,
            calculate_battery: Scaling::Identity,
        },
        Device {
            name: "Arctis 7P",
            pid: ArctisPID::Arctis7P,
            reportid: 0x06,
            addr_battery: 0x12,
            idx_battery: 3,
            calculate_battery: Scaling::Identity,
        },
        Device {
            name: "Arctis 7 Plus",
            pid: ArctisPID::Arctis7_Plus,
            reportid: 0x00,
            addr_battery: 0xb0,
            idx_battery: 2,
            calculate_battery: Scaling::DiscreteLevels { levels: 4 },
        },
        Device {
            name: "Arctis 7 Destiny Plus",
            pid: ArctisPID::Arctis7_Plus_Destiny,
            reportid: 0x00,
            addr_battery: 0xb0,
            idx_battery: 3,
            calculate_battery: Scaling::DiscreteLevels { levels: 4 },
        },
        Device {
            name: "Arctis 7P Plus",
            pid: ArctisPID::Arctis7P_Plus,
            reportid: 0x00,
            addr_battery: 0xb0,
            idx_battery: 2,
            calculate_battery: Scaling::DiscreteLevels { levels: 4 },
        },
        Device {
            name: "Arctis 7X Plus",
            pid: ArctisPID::Arctis7X_Plus,
            reportid: 0x00,
            addr_battery: 0xb0,
            idx_battery: 2,
            calculate_battery: Scaling::DiscreteLevels { levels: 4 },
        },
        Device {
            name: "Arctis Nova 7",
            pid: ArctisPID::ArctisNova7,
            reportid: 0x00,
            addr_battery: 0xb0,
            idx_battery: 2,
            calculate_battery: Scaling::DiscreteLevels { levels: 4 },
        },
        Device {
            name: "Arctis Nova 7X",
            pid: ArctisPID::ArctisNova7X,
            reportid: 0x00,
            addr_battery: 0xb0,
            idx_battery: 2,
            calculate_battery: Scaling::DiscreteLevels { levels: 4 },
        },
        Device {
            name: "Arctis Nova 7P",
            pid: ArctisPID::ArctisNova7P,
            reportid: 0x00,
            addr_battery: 0xb0,
            idx_battery: 2,
            calculate_battery: Scaling::DiscreteLevels { levels: 4 },
        },
    ]
}

/// The table of known headset models.
pub fn arctis_devices() -> (table: [Device<'static>; DEVICE_COUNT])
    ensures
        table@ == registry(),
{
    let table: [Device<'static>; DEVICE_COUNT] = [
        Device {
            name: "Arctis 7 (2019)",
            pid: ArctisPID::Arctis7_2019,
            reportid: 0x06,
            addr_battery: 0x18,
            idx_battery: 2,
            calculate_battery: Scaling::Identity,
        },
        Device {
            name: "Arctis 7 (2017)",
            pid: ArctisPID::Arctis7_2017,
            reportid: 0x06,
            addr_battery: 0x18,
            idx_battery: 2,
            calculate_battery: Scaling::Identity,
        },
        Device {
            name: "Arctis Pro Wireless",
            pid: ArctisPID::ArctisPro_Wireless,
            reportid: 0x40,
            addr_battery: 0xaa,
            idx_battery: 0,
            calculate_battery: Scaling::DiscreteLevels { levels: 4 },
        },
        Device {
            name: "Arctis Pro 2019",
            pid: ArctisPID::ArctisPro_2019,
            reportid: 0x06,
            addr_battery: 0x18,
            idx_battery: 2,
            calculate_battery: Scaling::Identity,
        },
        Device {
            name: "Arctis Pro GameDac",
            pid: ArctisPID::ArctisPro_GameDac,
            reportid: 0x06,
            addr_battery: 0x18,
            idx_battery: 2,
            calculate_battery: Scaling::Identity,
        },
        Device {
            name: "Arctis 9",
            pid: ArctisPID::Arctis9,
            reportid: 0x00,
            addr_battery: 0x20,
            idx_battery: 4,
            calculate_battery: Scaling::LinearOffset { min: 100, max: 154 },
        },
        Device {
            name: "Arctis 1 Wireless",
            pid: ArctisPID::Arctis1W,
            reportid: 0x06,
            addr_battery: 0x12,
            idx_battery: 3,
            calculate_battery: Scaling::Identity,
        },
        Device {
            name: "Arctis 1 Xbox",
            pid: ArctisPID::Arctis1X,
            reportid: 0x06,
            addr_battery: 0x12,
            idx_battery: 3,
            calculate_battery: Scaling::Identity,
        },
        Device {
            name: "Arctis 7X",
            pid: ArctisPID::Arctis7X,
            reportid: 0x06,
            addr_battery: 0x12,
            idx_battery: 3,
            calculate_battery: Scaling::Identity,
        },
        Device {
            name: "Arctis 7P",
            pid: ArctisPID::Arctis7P,
            reportid: 0x06,
            addr_battery: 0x12,
            idx_battery: 3,
            calculate_battery: Scaling::Identity,
        },
        Device {
            name: "Arctis 7 Plus",
            pid: ArctisPID::Arctis7_Plus,
            reportid: 0x00,
            addr_battery: 0xb0,
            idx_battery: 2,
            calculate_battery: Scaling::DiscreteLevels { levels: 4 },
        },
        Device {
            name: "Arctis 7 Destiny Plus",
            pid: ArctisPID::Arctis7_Plus_Destiny,
            reportid: 0x00,
            addr_battery: 0xb0,
            idx_battery: 3,
            calculate_battery: Scaling::DiscreteLevels { levels: 4 },
        },
        Device {
            name: "Arctis 7P Plus",
            pid: ArctisPID::Arctis7P_Plus,
            reportid: 0x00,
            addr_battery: 0xb0,
            idx_battery: 2,
            calculate_battery: Scaling::DiscreteLevels { levels: 4 },
        },
        Device {
            name: "Arctis 7X Plus",
            pid: ArctisPID::Arctis7X_Plus,
            reportid: 0x00,
            addr_battery: 0xb0,
            idx_battery: 2,
            calculate_battery: Scaling::DiscreteLevels { levels: 4 },
        },
        Device {
            name: "Arctis Nova 7",
            pid: ArctisPID::ArctisNova7,
            reportid: 0x00,
            addr_battery: 0xb0,
            idx_battery: 2,
            calculate_battery: Scaling::DiscreteLevels { levels: 4 },
        },
        Device {
            name: "Arctis Nova 7X",
            pid: ArctisPID::ArctisNova7X,
            reportid: 0x00,
            addr_battery: 0xb0,
            idx_battery: 2,
            calculate_battery: Scaling::DiscreteLevels { levels: 4 },
        },
        Device {
            name: "Arctis Nova 7P",
            pid: ArctisPID::ArctisNova7P,
            reportid: 0x00,
            addr_battery: 0xb0,
            idx_battery: 2,
            calculate_battery: Scaling::DiscreteLevels { levels: 4 },
        },
    ];
    assert(table@ =~= registry());
    table
}

/// The table's entry number `index` is the one for the USB vendor and
/// product numbers given.
pub open spec fn is_entry_for(index: int, vendor_id: u16, product_id: u16) -> bool {
    &&& 0 <= index < registry().len()
    &&& vendor_id == STEELSERIES_VID
    &&& registry()[index].pid.product_id() == product_id
}

/// The table's entry for the USB vendor and product numbers given, if it has
/// one: the first entry, in the order of the table, with that product number.
///
/// The entries are tried one by one, so that the entry for given numbers can
/// be read off without a search. `lemma_lookup_is_the_entry` says the same
/// over `is_entry_for`.
pub open spec fn lookup(vendor_id: u16, product_id: u16) -> Option<Device<'static>> {
    let table = registry();
    if vendor_id != STEELSERIES_VID {
        None
    } else if table[0].pid.product_id() == product_id {
        Some(table[0])
    } else if table[1].pid.product_id() == product_id {
        Some(table[1])
    } else if table[2].pid.product_id() == product_id {
        Some(table[2])
    } else if table[3].pid.product_id() == product_id {
        Some(table[3])
    } else if table[4].pid.product_id() == product_id {
        Some(table[4])
    } else if table[5].pid.product_id() == product_id {
        Some(table[5])
    } else if table[6].pid.product_id() == product_id {
        Some(table[6])
    } else if table[7].pid.product_id() == product_id {
        Some(table[7])
    } else if table[8].pid.product_id() == product_id {
        Some(table[8])
    } else if table[9].pid.product_id() == product_id {
        Some(table[9])
    } else if table[10].pid.product_id() == product_id {
        Some(table[10])
    } else if table[11].pid.product_id() == product_id {
        Some(table[11])
    } else if table[12].pid.product_id() == product_id {
        Some(table[12])
    } else if table[13].pid.product_id() == product_id {
        Some(table[13])
    } else if table[14].pid.product_id() == product_id {
        Some(table[14])
    } else if table[15].pid.product_id() == product_id {
        Some(table[15])
    } else if table[16].pid.product_id() == product_id {
        Some(table[16])
    } else {
        None
    }
}

/// Two models never share a product number.
pub proof fn lemma_product_id_injective(first: ArctisPID, second: ArctisPID)
    ensures
        first.product_id() == second.product_id() ==> first == second,
{
}

/// No two entries of the table answer to the same vendor and product numbers.
pub proof fn lemma_registry_keys_distinct()
    ensures
        registry().len() == DEVICE_COUNT,
        forall|i: int, j: int|
            0 <= i < j < registry().len() ==> registry()[i].pid.product_id()
                != registry()[j].pid.product_id(),
        forall|i: int, j: int, vendor_id: u16, product_id: u16|
            is_entry_for(i, vendor_id, product_id) && is_entry_for(j, vendor_id, product_id) ==> i
                == j,
{
    assert forall|i: int, j: int| 0 <= i < j < registry().len() implies registry()[i].pid.product_id()
        != registry()[j].pid.product_id() by {
        lemma_product_id_injective(registry()[i].pid, registry()[j].pid);
    }
}

/// Every model has an entry in the table, and every entry is well formed.
pub proof fn lemma_registry_complete(pid: ArctisPID)
    ensures
        lookup(STEELSERIES_VID, pid.product_id()) matches Some(device) && device.pid == pid,
        forall|i: int| 0 <= i < registry().len() ==> (#[trigger] registry()[i]).well_formed(),
{
}

/// `lookup` gives the one entry of the table that answers to the vendor and
/// product numbers given, and nothing where the table has no such entry.
pub proof fn lemma_lookup_is_the_entry(vendor_id: u16, product_id: u16)
    ensures
        match lookup(vendor_id, product_id) {
            Some(device) => exists|i: int|
                is_entry_for(i, vendor_id, product_id) && registry()[i] == device,
            None => forall|i: int| !is_entry_for(i, vendor_id, product_id),
        },
{
    match lookup(vendor_id, product_id) {
        Some(device) => {
            let i = choose|i: int| 0 <= i < registry().len() && registry()[i] == device;
            assert(is_entry_for(i, vendor_id, product_id) && registry()[i] == device);
        },
        None => {},
    }
}

/// Looks up the headset model that an attached device with the USB vendor and
/// product numbers given is.
pub fn find_device(vendor_id: u16, product_id: u16) -> (found: Option<Device<'static>>)
    ensures
        found == lookup(vendor_id, product_id),
        found matches Some(device) ==> device.well_formed(),
{
    if vendor_id != STEELSERIES_VID {
        return None;
    }
    let table = arctis_devices();
    let mut index: usize = 0;
    while index < DEVICE_COUNT
        invariant
            index <= DEVICE_COUNT,
            vendor_id == STEELSERIES_VID,
            table@ == registry(),
            forall|i: int|
                0 <= i < index ==> (#[trigger] registry()[i]).pid.product_id() != product_id,
        decreases DEVICE_COUNT - index,
    {
        let candidate = table[index];
        let candidate_id: u16 = candidate.pid.into();
        if candidate_id == product_id {
            proof {
                lemma_registry_complete(candidate.pid);
            }
            return Some(candidate);
        }
        index += 1;
    }
    None
}

} // verus!
