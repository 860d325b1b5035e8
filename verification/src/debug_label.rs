//! Debug names and labels: Vulkan takes them as NUL-terminated byte strings.
use vstd::prelude::*;
use vstd::string::StringSliceAdditionalSpecFns;

verus! {

/// The bytes of `name` followed by a terminating NUL.
pub fn label_bytes(name: &str) -> (bytes: Vec<u8>)
    ensures
        bytes@ == name.spec_bytes().push(0u8),
{
    let raw = name.as_bytes();
    let mut bytes: Vec<u8> = Vec::new();
    let mut i: usize = 0;
    while i < raw.len()
        invariant
            i <= raw@.len(),
            raw@ == name.spec_bytes(),
            bytes@ =~= raw@.take(i as int),
        decreases raw@.len() - i,
    {
        bytes.push(raw[i]);
        i += 1;
    }
    bytes.push(0u8);
    assert(raw@.take(raw@.len() as int) =~= raw@);
    bytes
}

} // verus!
