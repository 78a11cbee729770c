//! Device properties reported by the HIP runtime, in a Rust-friendly form.
use vstd::prelude::*;
use vstd::utf8::{valid_utf8, decode_utf8};
use crate::text::owned;

verus! {

/// A selected subset of a HIP device's properties.
pub struct DeviceProperties {
    pub device_id: i32,
    pub name: String,
    pub total_global_mem: usize,
    pub compute_major: i32,
    pub compute_minor: i32,
    pub pci_bus_id: i32,
    pub pci_device_id: i32,
    pub max_threads_per_block: i32,
    pub gcn_arch_name: String,
}

impl Default for DeviceProperties {
    fn default() -> (r: DeviceProperties)
        ensures
            r.device_id == 0,
            r.name@.len() == 0,
            r.total_global_mem == 0,
            r.compute_major == 0,
            r.compute_minor == 0,
            r.pci_bus_id == 0,
            r.pci_device_id == 0,
            r.max_threads_per_block == 0,
            r.gcn_arch_name@.len() == 0,
    {
        DeviceProperties {
            device_id: 0,
            name: String::new(),
            total_global_mem: 0,
            compute_major: 0,
            compute_minor: 0,
            pci_bus_id: 0,
            pci_device_id: 0,
            max_threads_per_block: 0,
            gcn_arch_name: String::new(),
        }
    }
}

/// The fields of the runtime's device property record that are read, as
/// plain values; the character arrays as their bytes.
pub struct RawDeviceProps {
    pub name: Vec<u8>,
    pub total_global_mem: usize,
    pub major: i32,
    pub minor: i32,
    pub pci_bus_id: i32,
    pub pci_device_id: i32,
    pub max_threads_per_block: i32,
    pub gcn_arch_name: Vec<u8>,
}

/// Which text field could not be read.
#[derive(Debug, PartialEq, Eq, Structural)]
pub enum DevicePropertiesError {
    Name,
    GcnArchName,
}

impl DevicePropertiesError {
    /// The error message.
    pub fn message(&self) -> (r: String)
        ensures
            r@ == match self {
                DevicePropertiesError::Name => "Failed to parse device name"@,
                DevicePropertiesError::GcnArchName => "Failed to parse GCN arch name"@,
            },
    {
        match self {
            DevicePropertiesError::Name => owned("Failed to parse device name"),
            DevicePropertiesError::GcnArchName => owned("Failed to parse GCN arch name"),
        }
    }
}

/// The position of the first NUL byte.
pub open spec fn first_nul(bytes: Seq<u8>) -> int {
    choose|k: int| 0 <= k < bytes.len() && bytes[k] == 0 && forall|j: int| 0 <= j < k ==> bytes[j] != 0
}

/// The bytes before the first NUL byte.
pub open spec fn c_string_bytes(bytes: Seq<u8>) -> Seq<u8> {
    bytes.take(first_nul(bytes))
}

/// The text of a NUL-terminated byte array: the UTF-8 decoding of the bytes
/// before the first NUL, if they are valid UTF-8.
pub open spec fn c_string_text(bytes: Seq<u8>) -> Option<Seq<char>> {
    if valid_utf8(c_string_bytes(bytes)) {
        Some(decode_utf8(c_string_bytes(bytes)))
    } else {
        None
    }
}

/// `std::str::from_utf8` then `to_string`. Claims that the bytes convert
/// exactly when they are valid UTF-8, and then to their decoding, as
/// vstd's `valid_utf8` and `decode_utf8` define them.
#[verifier::external_body]
fn utf8_to_string(bytes: &[u8]) -> (r: Option<String>)
    ensures
        r is Some <==> valid_utf8(bytes@),
        r matches Some(s) ==> s@ == decode_utf8(bytes@),
{
    match std::str::from_utf8(bytes) {
        Ok(s) => Some(s.to_string()),
        Err(_) => None,
    }
}

/// Converts a NUL-terminated fixed-size character array to a `String`:
/// `None` when the text before the NUL is not valid UTF-8.
pub fn c_chars_to_string(c_chars: &[u8]) -> (r: Option<String>)
    requires
        exists|k: int| 0 <= k < c_chars@.len() && c_chars@[k] == 0,
    ensures
        r.deep_view() == c_string_text(c_chars@),
{
    let mut prefix: Vec<u8> = Vec::new();
    let mut i: usize = 0;
    while i < c_chars.len() && c_chars[i] != 0
        invariant
            i <= c_chars@.len(),
            prefix@ == c_chars@.take(i as int),
            forall|j: int| 0 <= j < i ==> c_chars@[j] != 0,
            exists|k: int| 0 <= k < c_chars@.len() && c_chars@[k] == 0,
        decreases c_chars@.len() - i,
    {
        prefix.push(c_chars[i]);
        assert(prefix@ =~= c_chars@.take(i + 1));
        i = i + 1;
    }
    proof {
        if i == c_chars@.len() {
            let k = choose|k: int| 0 <= k < c_chars@.len() && c_chars@[k] == 0;
            assert(c_chars@[k] != 0);
        }
        let f = first_nul(c_chars@);
        assert(0 <= i < c_chars@.len() && c_chars@[i as int] == 0 && forall|j: int| 0 <= j < i ==> c_chars@[j] != 0);
        assert(f == i as int) by {
            if f < i {
                assert(c_chars@[f] != 0);
            } else if f > i {
                assert(c_chars@[i as int] != 0);
            }
        }
    }
    utf8_to_string(prefix.as_slice())
}

impl DeviceProperties {
    /// The properties of device `id` from the runtime's record: the numbers
    /// carried over, the name and the architecture name read as NUL-terminated
    /// text (an error names the field that is not valid UTF-8).
    pub fn try_from(id: i32, raw: &RawDeviceProps) -> (r: Result<DeviceProperties, DevicePropertiesError>)
        requires
            exists|k: int| 0 <= k < raw.name@.len() && raw.name@[k] == 0,
            exists|k: int| 0 <= k < raw.gcn_arch_name@.len() && raw.gcn_arch_name@[k] == 0,
        ensures
            c_string_text(raw.name@) is None ==> r == Err::<DeviceProperties, DevicePropertiesError>(
                DevicePropertiesError::Name,
            ),
            c_string_text(raw.name@) is Some && c_string_text(raw.gcn_arch_name@) is None ==> r == Err::<
                DeviceProperties,
                DevicePropertiesError,
            >(DevicePropertiesError::GcnArchName),
            r matches Ok(p) ==> {
                &&& Some(p.name@) == c_string_text(raw.name@)
                &&& Some(p.gcn_arch_name@) == c_string_text(raw.gcn_arch_name@)
                &&& p.device_id == id
                &&& p.total_global_mem == raw.total_global_mem
                &&& p.compute_major == raw.major
                &&& p.compute_minor == raw.minor
                &&& p.pci_bus_id == raw.pci_bus_id
                &&& p.pci_device_id == raw.pci_device_id
                &&& p.max_threads_per_block == raw.max_threads_per_block
            },
            (c_string_text(raw.name@) is Some && c_string_text(raw.gcn_arch_name@) is Some) ==> r is Ok,
    {
        let name = match c_chars_to_string(raw.name.as_slice()) {
            Some(s) => s,
            None => {
                return Err(DevicePropertiesError::Name);
            },
        };
        let gcn_arch_name = match c_chars_to_string(raw.gcn_arch_name.as_slice()) {
            Some(s) => s,
            None => {
                return Err(DevicePropertiesError::GcnArchName);
            },
        };
        Ok(DeviceProperties {
            device_id: id,
            name,
            total_global_mem: raw.total_global_mem,
            compute_major: raw.major,
            compute_minor: raw.minor,
            pci_bus_id: raw.pci_bus_id,
            pci_device_id: raw.pci_device_id,
            max_threads_per_block: raw.max_threads_per_block,
            gcn_arch_name,
        })
    }
}

} // verus!
