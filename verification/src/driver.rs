//! The layout of the buffer that carries the settings to the driver: a
//! header, the settings of each profile, then the settings of each device.
use vstd::prelude::*;

verus! {

/// Where the parts of the driver's buffer lie, in bytes.
#[derive(Copy, Clone, Debug, PartialEq, Eq, Structural)]
pub struct IoLayout {
    /// Start of the profiles' settings (the header's size).
    pub modifier_offset: usize,
    /// Size of the profiles' settings.
    pub modifier_data_size: usize,
    /// Start of the devices' settings.
    pub device_offset: usize,
    /// Size of the devices' settings.
    pub device_data_size: usize,
    /// Size of the whole buffer.
    pub total_size: usize,
}

/// The layout of a buffer with a header of `io_base_size` bytes,
/// `num_profiles` profiles of `modifier_size` bytes and `num_devices`
/// devices of `device_size` bytes; `None` when its size exceeds `usize`.
pub fn io_layout(
    io_base_size: usize,
    modifier_size: usize,
    num_profiles: usize,
    device_size: usize,
    num_devices: usize,
) -> (r: Option<IoLayout>)
    ensures
        r is Some <==> io_base_size + modifier_size * num_profiles + device_size * num_devices
            <= usize::MAX,
        r matches Some(l) ==> {
            &&& l.modifier_offset == io_base_size
            &&& l.modifier_data_size == modifier_size * num_profiles
            &&& l.device_offset == io_base_size + modifier_size * num_profiles
            &&& l.device_data_size == device_size * num_devices
            &&& l.total_size == io_base_size + modifier_size * num_profiles + device_size
                * num_devices
        },
{
    proof {
        assert(0 <= modifier_size * num_profiles) by (nonlinear_arith);
        assert(0 <= device_size * num_devices) by (nonlinear_arith);
    }
    let modifier_data_size = match modifier_size.checked_mul(num_profiles) {
        Some(m) => m,
        None => return None,
    };
    let device_data_size = match device_size.checked_mul(num_devices) {
        Some(d) => d,
        None => return None,
    };
    let device_offset = match io_base_size.checked_add(modifier_data_size) {
        Some(o) => o,
        None => return None,
    };
    let total_size = match device_offset.checked_add(device_data_size) {
        Some(t) => t,
        None => return None,
    };
    Some(
        IoLayout {
            modifier_offset: io_base_size,
            modifier_data_size,
            device_offset,
            device_data_size,
            total_size,
        },
    )
}

impl IoLayout {
    /// Where the settings of profile `i` start, for profiles of
    /// `modifier_size` bytes.
    pub fn profile_offset(&self, modifier_size: usize, i: usize) -> (o: usize)
        requires
            i * modifier_size < self.modifier_data_size,
            self.modifier_offset + self.modifier_data_size <= usize::MAX,
        ensures
            o == self.modifier_offset + i * modifier_size,
    {
        self.modifier_offset + i * modifier_size
    }
}

} // verus!
