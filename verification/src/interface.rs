//! The interface enumerator: descriptors of network interfaces, and the
//! choice of one by its name.

use crate::address::{Ipv4Address, MacAddress};
use vstd::prelude::*;

verus! {

/// A network that an interface has an address in.
#[derive(Clone, Copy, Debug, PartialEq, Eq)]
pub enum IpNetwork {
    /// An IPv4 address and the length of its network prefix.
    V4 { address: Ipv4Address, prefix: u8 },
    /// An IPv6 address, as its sixteen octets, and the length of its network
    /// prefix.
    V6 { octets: [u8; 16], prefix: u8 },
}

/// A snapshot of one network interface of the operating system.
#[derive(Debug, PartialEq, Eq)]
pub struct NetworkInterface {
    /// The name of the interface, such as `eth0`.
    pub name: String,
    /// A description of the interface; empty where the system has none.
    pub description: String,
    /// The index that the system gives the interface.
    pub index: u32,
    /// The hardware address, if the interface has one.
    pub mac: Option<MacAddress>,
    /// The networks that the interface has an address in.
    pub ips: Vec<IpNetwork>,
    /// The operational flags, as the system reports them.
    pub flags: u32,
}

/// Why the monitor cannot be configured as asked.
#[derive(Clone, Copy, Debug, PartialEq, Eq, Structural)]
pub enum ConfigurationError {
    /// No interface has the name asked for.
    InterfaceNotFound,
}

/// Whether `interfaces[at]` is the first interface named `name`.
pub open spec fn is_first_named(
    interfaces: Seq<NetworkInterface>,
    name: Seq<char>,
    at: int,
) -> bool {
    &&& 0 <= at < interfaces.len()
    &&& interfaces[at].name@ == name
    &&& forall|before: int| 0 <= before < at ==> (#[trigger] interfaces[before]).name@ != name
}

/// Whether some interface is named `name`.
pub open spec fn is_listed(interfaces: Seq<NetworkInterface>, name: Seq<char>) -> bool {
    exists|at: int| 0 <= at < interfaces.len() && (#[trigger] interfaces[at]).name@ == name
}

/// Finds the first interface whose name is exactly `name`; the comparison
/// distinguishes upper and lower case. Fails with `InterfaceNotFound` where
/// `name` is empty or no interface has it.
pub fn find_by_name<'a>(interfaces: &'a Vec<NetworkInterface>, name: &str) -> (found: Result<
    &'a NetworkInterface,
    ConfigurationError,
>)
    ensures
        found is Ok <==> name@.len() > 0 && is_listed(interfaces@, name@),
        found matches Ok(interface) ==> exists|at: int|
            #![trigger interfaces@[at]]
            is_first_named(interfaces@, name@, at) && *interface == interfaces@[at],
        found matches Err(error) ==> error == ConfigurationError::InterfaceNotFound,
{
    if name.is_empty() {
        return Err(ConfigurationError::InterfaceNotFound);
    }
    let wanted = name.to_owned();
    let mut at: usize = 0;
    while at < interfaces.len()
        invariant
            at <= interfaces@.len(),
            wanted@ == name@,
            name@.len() > 0,
            forall|before: int|
                0 <= before < at ==> (#[trigger] interfaces@[before]).name@ != name@,
        decreases interfaces@.len() - at,
    {
        if interfaces[at].name == wanted {
            assert(is_first_named(interfaces@, name@, at as int));
            return Ok(&interfaces[at]);
        }
        at += 1;
    }
    Err(ConfigurationError::InterfaceNotFound)
}

/// A name leads to one interface at most: the first that has it.
pub proof fn lemma_first_named_is_unique(
    interfaces: Seq<NetworkInterface>,
    name: Seq<char>,
    one: int,
    other: int,
)
    requires
        is_first_named(interfaces, name, one),
        is_first_named(interfaces, name, other),
    ensures
        one == other,
{
    if one < other {
        assert(interfaces[one].name@ != name);
    } else if other < one {
        assert(interfaces[other].name@ != name);
    }
}

} // verus!
