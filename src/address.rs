use vstd::prelude::*;

verus! {

/// A network host address: an IPv4 address as its 32-bit value, or an IPv6
/// address as its 128-bit value (both in network order, most significant first).
#[derive(Clone, Copy, Debug, PartialEq, Eq, Structural)]
pub enum IpAddress {
    V4(u32),
    V6(u128),
}

impl IpAddress {
    pub open spec fn is_v4_spec(self) -> bool {
        self is V4
    }

    /// Whether this is an IPv4 address.
    pub fn is_v4(&self) -> (r: bool)
        ensures
            r == self.is_v4_spec(),
    {
        match self {
            IpAddress::V4(_) => true,
            IpAddress::V6(_) => false,
        }
    }
}

} // verus!
