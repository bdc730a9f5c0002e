//! The list of connected mice: their display names and instance ids, read
//! from what the system reports of each device.
use vstd::prelude::*;
use vstd::string::StringExecFns;

use crate::text::{
    before_last, cut_before_last, decode_utf16_lossy, has_prefix, starts_with,
    strip_trailing_nuls, utf16_decode_lossy, without_trailing_nuls,
};

verus! {

/// A connected mouse.
#[derive(Clone, Debug)]
pub struct DeviceInfo {
    pub name: String,
    pub id: String,
}

/// What the system reports of a mouse: its HID product and manufacturer
/// strings (UTF-16 buffers, absent when they could not be read) and the
/// bytes of its instance-id property (UTF-16, little-endian).
#[derive(Clone, Debug)]
pub struct RawMouseDevice {
    pub product: Option<Vec<u16>>,
    pub manufacturer: Option<Vec<u16>>,
    pub instance_id: Vec<u8>,
}

/// The characters of a HID string buffer, without the NULs that pad it.
pub open spec fn hid_string(units: Seq<u16>) -> Seq<char> {
    without_trailing_nuls(utf16_decode_lossy(units))
}

/// The units of an optional buffer.
pub open spec fn units_of(b: Option<Vec<u16>>) -> Option<Seq<u16>> {
    match b {
        Some(v) => Some(v@),
        None => None,
    }
}

/// The display name of a mouse: empty without a product string; the
/// product alone when there is no manufacturer string or the product
/// already starts with it; else the manufacturer, a space and the product.
pub open spec fn display_name(product: Option<Seq<u16>>, manufacturer: Option<Seq<u16>>) -> Seq<char> {
    match product {
        None => Seq::empty(),
        Some(p) => {
            let ps = hid_string(p);
            match manufacturer {
                None => ps,
                Some(m) => {
                    let ms = hid_string(m);
                    if has_prefix(ps, ms) {
                        ps
                    } else {
                        ms + " "@ + ps
                    }
                },
            }
        },
    }
}

/// Little-endian UTF-16 units of a byte buffer; an odd last byte is dropped.
pub open spec fn le_units(bytes: Seq<u8>) -> Seq<u16> {
    Seq::new(bytes.len() / 2, |i: int| (bytes[2 * i] + 256 * bytes[2 * i + 1]) as u16)
}

/// The device id of a mouse: its instance id without the padding NULs and
/// without the part from the last backslash on.
pub open spec fn device_id(bytes: Seq<u8>) -> Seq<char> {
    before_last(without_trailing_nuls(utf16_decode_lossy(le_units(bytes))), '\\')
}

/// The display name of a mouse.
pub fn device_name(product: &Option<Vec<u16>>, manufacturer: &Option<Vec<u16>>) -> (name: String)
    ensures
        name@ == display_name(units_of(*product), units_of(*manufacturer)),
{
    match product {
        None => String::new(),
        Some(p) => {
            let ps = strip_trailing_nuls(decode_utf16_lossy(p.as_slice()).as_str());
            match manufacturer {
                None => ps,
                Some(m) => {
                    let ms = strip_trailing_nuls(decode_utf16_lossy(m.as_slice()).as_str());
                    if starts_with(ps.as_str(), ms.as_str()) {
                        ps
                    } else {
                        ms.concat(" ").concat(ps.as_str())
                    }
                },
            }
        },
    }
}

/// The little-endian UTF-16 units of `bytes`.
pub fn units_from_le_bytes(bytes: &Vec<u8>) -> (units: Vec<u16>)
    ensures
        units@ == le_units(bytes@),
{
    let len = bytes.len();
    let n = len / 2;
    let mut units: Vec<u16> = Vec::new();
    let mut i: usize = 0;
    while i < n
        invariant
            len == bytes@.len(),
            n == bytes@.len() / 2,
            i <= n,
            units@.len() == i,
            forall|j: int| 0 <= j < i ==> #[trigger] units@[j] == le_units(bytes@)[j],
        decreases n - i,
    {
        assert(2 * i + 1 < bytes@.len());
        let lo = bytes[2 * i] as u16;
        let hi = bytes[2 * i + 1] as u16;
        units.push(lo + 256 * hi);
        i = i + 1;
    }
    assert(units@ =~= le_units(bytes@));
    units
}

/// The device id of a mouse from the bytes of its instance id.
pub fn instance_id(bytes: &Vec<u8>) -> (id: String)
    ensures
        id@ == device_id(bytes@),
{
    let units = units_from_le_bytes(bytes);
    let s = strip_trailing_nuls(decode_utf16_lossy(units.as_slice()).as_str());
    cut_before_last(s.as_str(), '\\')
}

/// A mouse as (display name, id).
pub open spec fn entry_of(raw: RawMouseDevice) -> (Seq<char>, Seq<char>) {
    (display_name(units_of(raw.product), units_of(raw.manufacturer)), device_id(raw.instance_id@))
}

/// Some entry of the list has this id.
pub open spec fn has_id(entries: Seq<(Seq<char>, Seq<char>)>, id: Seq<char>) -> bool {
    exists|i: int| 0 <= i < entries.len() && #[trigger] entries[i].1 == id
}

/// The list of the first `n` mice: each mouse in order, unless a mouse
/// before it has the same id.
pub open spec fn collected(raws: Seq<RawMouseDevice>, n: int) -> Seq<(Seq<char>, Seq<char>)>
    decreases n,
{
    if n <= 0 {
        Seq::empty()
    } else {
        let prev = collected(raws, n - 1);
        let e = entry_of(raws[n - 1]);
        if has_id(prev, e.1) {
            prev
        } else {
            prev.push(e)
        }
    }
}

/// A device list as (display name, id) pairs.
pub open spec fn entries_of(devices: Seq<DeviceInfo>) -> Seq<(Seq<char>, Seq<char>)> {
    devices.map_values(|d: DeviceInfo| (d.name@, d.id@))
}

/// Whether some device of the list has the id `id`.
fn list_has_id(devices: &Vec<DeviceInfo>, id: &String) -> (r: bool)
    ensures
        r == has_id(entries_of(devices@), id@),
{
    let mut i: usize = 0;
    while i < devices.len()
        invariant
            i <= devices@.len(),
            forall|j: int| 0 <= j < i ==> #[trigger] devices@[j].id@ != id@,
        decreases devices@.len() - i,
    {
        if devices[i].id == *id {
            assert(entries_of(devices@)[i as int].1 == id@);
            return true;
        }
        i = i + 1;
    }
    assert forall|j: int| 0 <= j < entries_of(devices@).len() implies #[trigger] entries_of(
        devices@,
    )[j].1 != id@ by {
        assert(devices@[j].id@ != id@);
    }
    false
}

/// The connected mice, each listed once: the first mouse with a given id
/// stands for all of them.
pub fn collect_devices(raws: &Vec<RawMouseDevice>) -> (devices: Vec<DeviceInfo>)
    ensures
        entries_of(devices@) == collected(raws@, raws@.len() as int),
{
    let mut devices: Vec<DeviceInfo> = Vec::new();
    let mut k: usize = 0;
    while k < raws.len()
        invariant
            k <= raws@.len(),
            entries_of(devices@) == collected(raws@, k as int),
        decreases raws@.len() - k,
    {
        let raw = &raws[k];
        let name = device_name(&raw.product, &raw.manufacturer);
        let id = instance_id(&raw.instance_id);
        if !list_has_id(&devices, &id) {
            let ghost before = devices@;
            devices.push(DeviceInfo { name, id });
            assert(entries_of(devices@) =~= entries_of(before).push(entry_of(raws@[k as int])));
        }
        k = k + 1;
    }
    devices
}

/// No two entries of the list have the same id.
pub open spec fn ids_distinct(entries: Seq<(Seq<char>, Seq<char>)>) -> bool {
    forall|i: int, j: int| 0 <= i < j < entries.len() ==> #[trigger] entries[i].1 != #[trigger] entries[j].1
}

/// The device list holds each id once, and every mouse's id is in it.
pub proof fn lemma_collected_ids(raws: Seq<RawMouseDevice>, n: int)
    requires
        0 <= n <= raws.len(),
    ensures
        ids_distinct(collected(raws, n)),
        forall|k: int| 0 <= k < n ==> has_id(collected(raws, n), #[trigger] entry_of(raws[k]).1),
    decreases n,
{
    if n > 0 {
        lemma_collected_ids(raws, n - 1);
        let prev = collected(raws, n - 1);
        let e = entry_of(raws[n - 1]);
        if !has_id(prev, e.1) {
            let cur = prev.push(e);
            assert forall|k: int| 0 <= k < n implies has_id(cur, #[trigger] entry_of(raws[k]).1) by {
                if k < n - 1 {
                    let i = choose|i: int| 0 <= i < prev.len() && #[trigger] prev[i].1 == entry_of(raws[k]).1;
                    assert(cur[i].1 == entry_of(raws[k]).1);
                } else {
                    assert(cur[prev.len() as int].1 == e.1);
                }
            }
        }
    }
}

} // verus!

verus! {

/// A display name starts with the manufacturer string and ends with the
/// product string; it is the product string alone when that already starts
/// with the manufacturer string (or there is none), and otherwise the two
/// joined by one space. Without a product string the name is empty.
pub proof fn lemma_display_name_laws(product: Option<Seq<u16>>, manufacturer: Option<Seq<u16>>)
    ensures
        product is None ==> display_name(product, manufacturer).len() == 0,
        product matches Some(p) ==> {
            let n = display_name(product, manufacturer);
            let ps = hid_string(p);
            &&& n.len() >= ps.len()
            &&& n.subrange(n.len() - ps.len(), n.len() as int) == ps
            &&& manufacturer matches Some(m) ==> {
                let ms = hid_string(m);
                &&& has_prefix(n, ms)
                &&& (n == ps <==> has_prefix(ps, ms))
                &&& n != ps ==> n.len() == ms.len() + 1 + ps.len() && n[ms.len() as int] == ' '
            }
            &&& manufacturer is None ==> n == ps
        },
{
    reveal_strlit(" ");
    if let Some(p) = product {
        let n = display_name(product, manufacturer);
        let ps = hid_string(p);
        match manufacturer {
            None => {
                assert(n.subrange(0, n.len() as int) =~= n);
            },
            Some(m) => {
                let ms = hid_string(m);
                if has_prefix(ps, ms) {
                    assert(n.subrange(0, n.len() as int) =~= n);
                } else {
                    assert(n =~= ms + " "@ + ps);
                    assert(n.subrange(n.len() - ps.len(), n.len() as int) =~= ps);
                    assert(n.subrange(0, ms.len() as int) =~= ms);
                }
            },
        }
    }
}

/// Every entry of the device list is the entry of the first mouse with its
/// id, and the list is no longer than the number of mice.
pub proof fn lemma_collected_first(raws: Seq<RawMouseDevice>, n: int)
    requires
        0 <= n <= raws.len(),
    ensures
        collected(raws, n).len() <= n,
        forall|k: int|
            0 <= k < collected(raws, n).len() ==> exists|i: int|
                0 <= i < n && #[trigger] collected(raws, n)[k] == entry_of(raws[i]) && forall|j: int|
                    0 <= j < i ==> (#[trigger] entry_of(raws[j])).1 != entry_of(raws[i]).1,
    decreases n,
{
    if n > 0 {
        lemma_collected_first(raws, n - 1);
        lemma_collected_ids(raws, n - 1);
        let prev = collected(raws, n - 1);
        let e = entry_of(raws[n - 1]);
        if !has_id(prev, e.1) {
            let cur = prev.push(e);
            assert forall|k: int| 0 <= k < cur.len() implies exists|i: int|
                0 <= i < n && #[trigger] cur[k] == entry_of(raws[i]) && forall|j: int|
                    0 <= j < i ==> (#[trigger] entry_of(raws[j])).1 != entry_of(raws[i]).1 by {
                if k < prev.len() {
                    assert(cur[k] == prev[k]);
                } else {
                    assert forall|j: int| 0 <= j < n - 1 implies (#[trigger] entry_of(raws[j])).1
                        != e.1 by {
                        assert(has_id(prev, entry_of(raws[j]).1));
                    }
                    assert(cur[k] == entry_of(raws[n - 1]));
                }
            }
        }
    }
}

} // verus!
