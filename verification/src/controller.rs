//! Identifier resolution over the device directory.
//!
//! The device controller translates a device identifier into a concrete
//! record by listing the directory (through the directory cache) and
//! scanning it in order; control operations then delegate to the upstream
//! client with the resolved record.  The scan is the part with a meaning of
//! its own and lives here: case-sensitive exact match, first match wins.

use vstd::prelude::*;

use crate::device::{Device, DeviceView, Devices};
use crate::error::Error;

verus! {

/// The first record of `ds` whose identifier is `id`, if any.
pub open spec fn first_match(ds: Seq<DeviceView>, id: Seq<char>) -> Option<DeviceView>
    decreases ds.len(),
{
    if ds.len() == 0 {
        None
    } else if ds[0].device == id {
        Some(ds[0])
    } else {
        first_match(ds.drop_first(), id)
    }
}

/// Law — resolution: a resolved record is a record of the directory whose
/// identifier matches, no earlier record matches, and a failed resolution
/// means no record of the directory matches at all.
pub proof fn lemma_first_match_characterization(ds: Seq<DeviceView>, id: Seq<char>)
    ensures
        match first_match(ds, id) {
            Some(d) => exists|i: int|
                0 <= i < ds.len() && ds[i] == d && ds[i].device == id && (forall|j: int|
                    0 <= j < i ==> ds[j].device != id),
            None => forall|i: int| 0 <= i < ds.len() ==> ds[i].device != id,
        },
    decreases ds.len(),
{
    if ds.len() == 0 {
    } else if ds[0].device == id {
        let i: int = 0;
        assert(0 <= i < ds.len() && ds[i] == ds[0] && ds[i].device == id && (forall|j: int|
            0 <= j < i ==> ds[j].device != id));
    } else {
        let tail = ds.drop_first();
        lemma_first_match_characterization(tail, id);
        assert(forall|k: int| 0 <= k < tail.len() ==> tail[k] == ds[k + 1]);
        match first_match(ds, id) {
            Some(d) => {
                let i0 = choose|i0: int|
                    0 <= i0 < tail.len() && tail[i0] == d && tail[i0].device == id && (forall|
                        j: int,
                    |
                        0 <= j < i0 ==> tail[j].device != id);
                let i = i0 + 1;
                assert(ds[i] == tail[i0]);
                assert(forall|j: int| 1 <= j < i ==> ds[j] == tail[j - 1]);
                assert(forall|j: int| 0 <= j < i ==> ds[j].device != id);
                assert(0 <= i < ds.len() && ds[i] == d && ds[i].device == id && (forall|j: int|
                    0 <= j < i ==> ds[j].device != id));
            },
            None => {
                assert(forall|i: int| 1 <= i < ds.len() ==> ds[i] == tail[i - 1]);
            },
        }
    }
}

/// Resolve a device identifier against the current directory listing:
/// returns the first record whose identifier equals `id` exactly
/// (case-sensitive), and fails with `DeviceNotFound(id)` when no record
/// matches.  O(n) by design: directories are household-sized.
pub fn resolve(devices: &Devices, id: &str) -> (r: Result<Device, Error>)
    ensures
        match first_match(devices@, id@) {
            Some(dv) => r matches Ok(d) && d@ == dv,
            None => r matches Err(e) && e matches Error::DeviceNotFound(s) && s@ == id@,
        },
{
    let needle = id.to_owned();
    let n = devices.devices.len();
    let mut i: usize = 0;
    proof {
        assert(devices@.skip(0) =~= devices@);
    }
    while i < n
        invariant
            i <= n,
            n == devices.devices@.len(),
            n == devices@.len(),
            needle@ == id@,
            first_match(devices@, id@) == first_match(devices@.skip(i as int), id@),
        decreases n - i,
    {
        proof {
            assert(devices@.skip(i as int)[0] == devices@[i as int]);
            assert(devices@[i as int] == devices.devices@[i as int]@);
        }
        if devices.devices[i].device == needle {
            return Ok(devices.devices[i].clone());
        }
        proof {
            assert(devices@.skip(i as int).drop_first() =~= devices@.skip(i as int + 1));
        }
        i = i + 1;
    }
    proof {
        assert(devices@.skip(n as int) =~= Seq::<DeviceView>::empty());
    }
    Err(Error::DeviceNotFound(needle))
}

} // verus!
