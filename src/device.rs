use vstd::prelude::*;
use crate::packet::{Packet, Raw};

verus! {

/// The position of the first interface called `name` among the enumerated
/// interface names, if there is one.
pub fn find_device(names: &Vec<String>, name: &String) -> (r: Option<usize>)
    ensures
        r is None <==> (forall|j: int| 0 <= j < names@.len() ==> names@[j]@ != name@),
        r matches Some(i) ==> i < names@.len() && names@[i as int]@ == name@ && (forall|j: int|
            0 <= j < i ==> names@[j]@ != name@),
{
    let mut i: usize = 0;
    while i < names.len()
        invariant
            0 <= i <= names@.len(),
            forall|j: int| 0 <= j < i ==> names@[j]@ != name@,
        decreases names@.len() - i,
    {
        if names[i] == *name {
            return Some(i);
        }
        i = i + 1;
    }
    None
}

/// What a device hands out for a received packet. Without an inspection
/// hook, the packet itself. With one, the hook is called once, on the packet
/// and the hardware address of the receiving device, and its result is
/// handed out: the packet, possibly changed, or `None` to drop it. The hook
/// runs on the reading thread and must not block.
pub fn deliver<F: Fn(Packet<Raw>, [u8; 6]) -> Option<Packet<Raw>>>(
    packet: Packet<Raw>,
    mac_address: [u8; 6],
    hook: Option<&F>,
) -> (r: Option<Packet<Raw>>)
    requires
        hook matches Some(f) ==> f.requires((packet, mac_address)),
    ensures
        hook is None ==> r == Some(packet),
        hook matches Some(f) ==> f.ensures((packet, mac_address), r),
{
    match hook {
        Some(f) => f(packet, mac_address),
        None => Some(packet),
    }
}

} // verus!
