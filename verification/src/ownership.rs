//! Exclusive ownership of the USB register blocks.
//!
//! A [`HardwareOwnership`] token is the license to touch one USB core's
//! register blocks. It is constructed in exactly one place, [`claim`],
//! against a registry of addresses already spoken for, so constructing a
//! second token over the same registers is refused before any register
//! access could happen, as a caller bug rather than a deferred fault.

use vstd::prelude::*;

verus! {

/// Constructing a token over registers that are already owned.
#[derive(Clone, Copy, PartialEq, Eq, Structural, Debug)]
pub enum OwnershipError {
    /// One of the register blocks is already claimed, or the two blocks
    /// are the same.
    AlreadyClaimed,
}

/// The addresses of every register block a token has been issued for.
///
/// The caller creates one registry for the life of the program and threads
/// it through every [`claim`].
pub struct OwnershipRegistry {
    claimed: Vec<usize>,
}

impl OwnershipRegistry {
    /// Whether a register block at `addr` has already been claimed.
    pub closed spec fn is_claimed(&self, addr: usize) -> bool {
        self.claimed@.contains(addr)
    }

    /// The claimed addresses, in claim order.
    pub closed spec fn claimed_addrs(&self) -> Seq<usize> {
        self.claimed@
    }

    /// A registry with nothing claimed.
    pub fn new() -> (r: OwnershipRegistry)
        ensures
            r.claimed_addrs() == Seq::<usize>::empty(),
            forall|a: usize| !r.is_claimed(a),
    {
        OwnershipRegistry { claimed: Vec::new() }
    }
}

/// Exclusive, registry-checked ownership of one USB core's register
/// blocks: the core registers and the PHY registers.
#[derive(Debug)]
pub struct HardwareOwnership {
    usb: usize,
    usbphy: usize,
}

impl HardwareOwnership {
    /// The address of the owned USB core register block.
    pub closed spec fn usb_addr(&self) -> usize {
        self.usb
    }

    /// The address of the owned USBPHY register block.
    pub closed spec fn usbphy_addr(&self) -> usize {
        self.usbphy
    }

    /// The address of the owned USB core register block.
    pub fn usb_address(&self) -> (r: usize)
        ensures
            r == self.usb_addr(),
    {
        self.usb
    }

    /// The address of the owned USBPHY register block.
    pub fn usbphy_address(&self) -> (r: usize)
        ensures
            r == self.usbphy_addr(),
    {
        self.usbphy
    }
}

/// Claim exclusive ownership of the register blocks at `usb` and `usbphy`.
///
/// Succeeds exactly when the two addresses are distinct and neither is
/// already claimed in `registry`; then both are recorded there. Refused
/// otherwise, leaving the registry unchanged.
pub fn claim(registry: &mut OwnershipRegistry, usb: usize, usbphy: usize) -> (r: Result<
    HardwareOwnership,
    OwnershipError,
>)
    ensures
        (r is Ok) == (!old(registry).is_claimed(usb) && !old(registry).is_claimed(usbphy) && usb
            != usbphy),
        r matches Ok(h) ==> h.usb_addr() == usb && h.usbphy_addr() == usbphy
            && final(registry).claimed_addrs() == old(registry).claimed_addrs().push(usb).push(
            usbphy,
        ),
        r is Err ==> *final(registry) == *old(registry) && r == Err::<
            HardwareOwnership,
            OwnershipError,
        >(OwnershipError::AlreadyClaimed),
{
    if usb == usbphy || contains_addr(&registry.claimed, usb) || contains_addr(
        &registry.claimed,
        usbphy,
    ) {
        Err(OwnershipError::AlreadyClaimed)
    } else {
        registry.claimed.push(usb);
        registry.claimed.push(usbphy);
        Ok(HardwareOwnership { usb, usbphy })
    }
}

/// Whether `v` holds `a`.
fn contains_addr(v: &Vec<usize>, a: usize) -> (r: bool)
    ensures
        r == v@.contains(a),
{
    let mut i: usize = 0;
    while i < v.len()
        invariant
            i <= v@.len(),
            forall|j: int| 0 <= j < i ==> v@[j] != a,
        decreases v@.len() - i,
    {
        if v[i] == a {
            return true;
        }
        i = i + 1;
    }
    false
}

} // verus!
