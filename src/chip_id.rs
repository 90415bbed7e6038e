//! The chip identification record that the device reports.

use vstd::prelude::*;
use crate::header::take_array;

verus! {

/// Length of the part of the record that is parsed.
pub const CHIP_ID_LEN: usize = 101;

/// The chip identification record, field by field, as raw bytes.
#[derive(Debug, PartialEq, Eq)]
pub struct ChipId {
    /// Bytes 0 to 3.
    pub version: [u8; 4],
    /// Bytes 4 to 19.
    pub fl_chip_info: [u8; 16],
    /// Bytes 20 to 27.
    pub func_test_info: [u8; 8],
    /// Bytes 28 to 31.
    pub silicon_rev: [u8; 4],
    /// Bytes 32 and 33.
    pub package_type_id: [u8; 2],
    /// Bytes 36 to 39.
    pub prov_info: [u8; 4],
    /// Bytes 40 and 41.
    pub provisioning_date: [u8; 2],
    /// Bytes 42 to 45.
    pub hsm_ver: [u8; 4],
    /// Bytes 46 to 49.
    pub prog_ver: [u8; 4],
    /// Bytes 52 to 67.
    pub serial_number: [u8; 16],
    /// Bytes 68 to 83.
    pub part_number: [u8; 16],
    /// Bytes 84 and 85.
    pub prov_templ_ver: [u8; 2],
    /// Bytes 86 to 89.
    pub prov_templ_tag: [u8; 4],
    /// Bytes 90 and 91.
    pub prov_spec_ver: [u8; 2],
    /// Bytes 92 to 95.
    pub prov_spec_tag: [u8; 4],
    /// Bytes 96 to 100.
    pub batch_id: [u8; 5],
}

/// Whether `c` holds the fields of the record laid out in `b`.
pub open spec fn chip_id_of(b: Seq<u8>, c: ChipId) -> bool {
    &&& c.version@ == b.subrange(0, 4)
    &&& c.fl_chip_info@ == b.subrange(4, 20)
    &&& c.func_test_info@ == b.subrange(20, 28)
    &&& c.silicon_rev@ == b.subrange(28, 32)
    &&& c.package_type_id@ == b.subrange(32, 34)
    &&& c.prov_info@ == b.subrange(36, 40)
    &&& c.provisioning_date@ == b.subrange(40, 42)
    &&& c.hsm_ver@ == b.subrange(42, 46)
    &&& c.prog_ver@ == b.subrange(46, 50)
    &&& c.serial_number@ == b.subrange(52, 68)
    &&& c.part_number@ == b.subrange(68, 84)
    &&& c.prov_templ_ver@ == b.subrange(84, 86)
    &&& c.prov_templ_tag@ == b.subrange(86, 90)
    &&& c.prov_spec_ver@ == b.subrange(90, 92)
    &&& c.prov_spec_tag@ == b.subrange(92, 96)
    &&& c.batch_id@ == b.subrange(96, 101)
}

/// The big-endian number of two bytes.
pub open spec fn be16(hi: u8, lo: u8) -> int {
    256 * hi + lo
}

/// The numbers that the record's fields stand for.
#[derive(Debug, PartialEq, Eq)]
pub struct ChipIdDetails {
    /// Version of the provisioning info.
    pub prov_info_ver: u8,
    /// Fab identifier from the provisioning info.
    pub fab_id: u16,
    /// Short part number identifier from the provisioning info.
    pub pn_id: u16,
    /// Provisioning date.
    pub provisioning_date: u16,
    /// First byte of the serial number.
    pub sn: u8,
    /// Fab identifier from the serial number.
    pub sn_fab_id: u32,
    /// Part number identifier from the serial number.
    pub sn_pn_id: u32,
    /// Fabrication date from the serial number.
    pub fab_date: u16,
    /// Lot identifier, bytes 6 to 10 of the serial number.
    pub lot_id: Vec<u8>,
    /// Wafer identifier.
    pub wafer_id: u8,
    /// Die X coordinate on the wafer.
    pub x_coord: u16,
    /// Die Y coordinate on the wafer.
    pub y_coord: u16,
    /// The text of the long part number, when its length byte is in range.
    pub part_number_text: Option<Vec<u8>>,
    /// Provisioning template version.
    pub prov_templ_ver: u16,
    /// Provisioning specification version.
    pub prov_spec_ver: u16,
}

/// The 24-bit big-endian number in bytes 1 to 3 of the serial number.
pub open spec fn fab_data(c: ChipId) -> int {
    65536 * c.serial_number@[1] + 256 * c.serial_number@[2] + c.serial_number@[3]
}

/// Whether `d` holds what the fields of `c` stand for.
pub open spec fn details_of(c: ChipId, d: ChipIdDetails) -> bool {
    let p = c.prov_info@;
    let s = c.serial_number@;
    let n = c.part_number@;
    &&& d.prov_info_ver == p[0]
    &&& d.fab_id == be16(p[1], (p[2] % 16) as u8)
    &&& d.pn_id == be16((p[2] / 16) as u8, p[3])
    &&& d.provisioning_date == be16(c.provisioning_date@[0], c.provisioning_date@[1])
    &&& d.sn == s[0]
    &&& d.sn_fab_id == (fab_data(c) / 4096) % 4096
    &&& d.sn_pn_id == fab_data(c) % 4096
    &&& d.fab_date == be16(s[4], s[5])
    &&& d.lot_id@ == s.subrange(6, 11)
    &&& d.wafer_id == s[11]
    &&& d.x_coord == be16(s[12], s[13])
    &&& d.y_coord == be16(s[14], s[15])
    &&& (if 0 < n[0] < 16 {
        d.part_number_text matches Some(t) && t@ == n.subrange(1, n[0] + 1)
    } else {
        d.part_number_text is None
    })
    &&& d.prov_templ_ver == be16(c.prov_templ_ver@[0], c.prov_templ_ver@[1])
    &&& d.prov_spec_ver == be16(c.prov_spec_ver@[0], c.prov_spec_ver@[1])
}

fn read_be16(hi: u8, lo: u8) -> (r: u16)
    ensures
        r == be16(hi, lo),
{
    256 * (hi as u16) + lo as u16
}

fn copy_range(b: &[u8], from: usize, to: usize) -> (r: Vec<u8>)
    requires
        from <= to <= b@.len(),
    ensures
        r@ == b@.subrange(from as int, to as int),
{
    let mut out: Vec<u8> = Vec::new();
    let mut i: usize = from;
    while i < to
        invariant
            from <= i <= to <= b@.len(),
            out@ == b@.subrange(from as int, i as int),
        decreases to - i,
    {
        out.push(b[i]);
        i = i + 1;
        assert(out@ =~= b@.subrange(from as int, i as int));
    }
    out
}

impl ChipId {
    /// Parses the record from its first 101 bytes; a shorter slice is refused.
    pub fn parse(bytes: &[u8]) -> (r: Result<ChipId, &'static str>)
        ensures
            bytes@.len() < CHIP_ID_LEN ==> r == Err::<ChipId, &'static str>(
                "Chip ID slice too short",
            ),
            bytes@.len() >= CHIP_ID_LEN ==> (r matches Ok(c) && chip_id_of(bytes@, c)),
    {
        if bytes.len() < CHIP_ID_LEN {
            return Err("Chip ID slice too short");
        }
        Ok(
            ChipId {
                version: take_array(bytes, 0),
                fl_chip_info: take_array(bytes, 4),
                func_test_info: take_array(bytes, 20),
                silicon_rev: take_array(bytes, 28),
                package_type_id: take_array(bytes, 32),
                prov_info: take_array(bytes, 36),
                provisioning_date: take_array(bytes, 40),
                hsm_ver: take_array(bytes, 42),
                prog_ver: take_array(bytes, 46),
                serial_number: take_array(bytes, 52),
                part_number: take_array(bytes, 68),
                prov_templ_ver: take_array(bytes, 84),
                prov_templ_tag: take_array(bytes, 86),
                prov_spec_ver: take_array(bytes, 90),
                prov_spec_tag: take_array(bytes, 92),
                batch_id: take_array(bytes, 96),
            },
        )
    }

    /// Decodes the numbers that the fields stand for.
    pub fn details(&self) -> (d: ChipIdDetails)
        ensures
            details_of(*self, d),
    {
        let p = &self.prov_info;
        let s = &self.serial_number;
        let n = &self.part_number;
        let fab_data: u32 = 65536 * (s[1] as u32) + 256 * (s[2] as u32) + s[3] as u32;
        let pn_len = n[0] as usize;
        let part_number_text = if 0 < pn_len && pn_len < 16 {
            Some(copy_range(n, 1, pn_len + 1))
        } else {
            None
        };
        ChipIdDetails {
            prov_info_ver: p[0],
            fab_id: read_be16(p[1], p[2] % 16),
            pn_id: read_be16(p[2] / 16, p[3]),
            provisioning_date: read_be16(self.provisioning_date[0], self.provisioning_date[1]),
            sn: s[0],
            sn_fab_id: (fab_data / 4096) % 4096,
            sn_pn_id: fab_data % 4096,
            fab_date: read_be16(s[4], s[5]),
            lot_id: copy_range(s, 6, 11),
            wafer_id: s[11],
            x_coord: read_be16(s[12], s[13]),
            y_coord: read_be16(s[14], s[15]),
            part_number_text,
            prov_templ_ver: read_be16(self.prov_templ_ver[0], self.prov_templ_ver[1]),
            prov_spec_ver: read_be16(self.prov_spec_ver[0], self.prov_spec_ver[1]),
        }
    }
}

impl<'a> TryFrom<&'a [u8]> for ChipId {
    type Error = &'static str;

    /// Parses the record as [`ChipId::parse`] does.
    fn try_from(bytes: &'a [u8]) -> (r: Result<ChipId, &'static str>)
        ensures
            bytes@.len() < CHIP_ID_LEN ==> r == Err::<ChipId, &'static str>(
                "Chip ID slice too short",
            ),
            bytes@.len() >= CHIP_ID_LEN ==> (r matches Ok(c) && chip_id_of(bytes@, c)),
    {
        let r = ChipId::parse(bytes);
        proof {
            if r is Ok {
                let c = r->Ok_0;
                let d = choose|d: ChipId| chip_id_of(bytes@, d);
                assert(d.version =~= c.version);
                assert(d.fl_chip_info =~= c.fl_chip_info);
                assert(d.func_test_info =~= c.func_test_info);
                assert(d.silicon_rev =~= c.silicon_rev);
                assert(d.package_type_id =~= c.package_type_id);
                assert(d.prov_info =~= c.prov_info);
                assert(d.provisioning_date =~= c.provisioning_date);
                assert(d.hsm_ver =~= c.hsm_ver);
                assert(d.prog_ver =~= c.prog_ver);
                assert(d.serial_number =~= c.serial_number);
                assert(d.part_number =~= c.part_number);
                assert(d.prov_templ_ver =~= c.prov_templ_ver);
                assert(d.prov_templ_tag =~= c.prov_templ_tag);
                assert(d.prov_spec_ver =~= c.prov_spec_ver);
                assert(d.prov_spec_tag =~= c.prov_spec_tag);
                assert(d.batch_id =~= c.batch_id);
            }
        }
        r
    }
}

impl<'a> vstd::std_specs::convert::TryFromSpecImpl<&'a [u8]> for ChipId {
    open spec fn obeys_try_from_spec() -> bool {
        true
    }

    open spec fn try_from_spec(bytes: &'a [u8]) -> Result<ChipId, &'static str> {
        if bytes@.len() < CHIP_ID_LEN {
            Err("Chip ID slice too short")
        } else {
            Ok(choose|c: ChipId| chip_id_of(bytes@, c))
        }
    }
}

} // verus!
