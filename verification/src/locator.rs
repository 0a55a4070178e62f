use vstd::prelude::*;

verus! {

/// Whether one enumerated device's exposed identity matches the target
/// address byte for byte. A device exposing no identity never matches.
pub open spec fn identity_matches(id: Option<Vec<u8>>, target: Seq<u8>) -> bool {
    match id {
        Option::Some(bytes) => bytes@ == target,
        Option::None => false,
    }
}

/// Byte-for-byte equality of two byte strings.
pub fn bytes_equal(a: &Vec<u8>, b: &Vec<u8>) -> (r: bool)
    ensures
        r == (a@ == b@),
{
    if a.len() != b.len() {
        return false;
    }
    let mut i: usize = 0;
    while i < a.len()
        invariant
            i <= a.len(),
            a.len() == b.len(),
            forall|j: int| 0 <= j < i ==> a@[j] == b@[j],
        decreases a.len() - i,
    {
        if a[i] != b[i] {
            return false;
        }
        i = i + 1;
    }
    proof {
        assert(a@ =~= b@);
    }
    true
}

/// Picks the device a locate call returns: the position of the first
/// device, in enumeration order, whose exposed unique identity equals the
/// target address byte for byte. Devices exposing no identity are
/// skipped. `None` means the target is absent — a normal outcome, not a
/// failure. Any target string is accepted; no format is assumed.
pub fn find_device_with_mac(identities: &Vec<Option<Vec<u8>>>, target: &Vec<u8>) -> (r: Option<
    usize,
>)
    ensures
        r matches Some(i) ==> {
            &&& i < identities@.len()
            &&& identity_matches(identities@[i as int], target@)
            &&& forall|j: int| 0 <= j < i ==> !identity_matches(identities@[j], target@)
        },
        r is None ==> forall|j: int|
            0 <= j < identities@.len() ==> !identity_matches(identities@[j], target@),
{
    let mut i: usize = 0;
    while i < identities.len()
        invariant
            i <= identities.len(),
            forall|j: int| 0 <= j < i ==> !identity_matches(identities@[j], target@),
        decreases identities.len() - i,
    {
        match &identities[i] {
            Option::Some(bytes) => {
                if bytes_equal(bytes, target) {
                    return Some(i);
                }
            },
            Option::None => {},
        }
        i = i + 1;
    }
    None
}

} // verus!
