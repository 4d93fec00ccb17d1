//! The interface catalog: the set of usable physical uplinks.
//!
//! Discovery itself (querying the operating system) happens outside this
//! crate; what arrives here is the raw report, one entry per link. This
//! module holds the verified filter that keeps the administratively-up,
//! non-loopback links that carry an IPv4 address, and the catalog the rest
//! of the engine reads.

use vstd::prelude::*;

use crate::classifier::Ipv4Address;

verus! {

/// One usable physical uplink. Immutable once discovered; the index is the
/// stable join key across the engine.
#[derive(Debug)]
pub struct PhysicalInterface {
    pub name: String,
    pub description: String,
    pub ip_address: Ipv4Address,
    pub index: u32,
}

impl Clone for PhysicalInterface {
    fn clone(&self) -> (r: Self)
        ensures
            r == *self,
    {
        PhysicalInterface {
            name: self.name.clone(),
            description: self.description.clone(),
            ip_address: self.ip_address,
            index: self.index,
        }
    }
}

/// One address of an operating-system-reported link: either an IPv4 address,
/// carried in full, or something else (the filter only needs to know it is
/// not IPv4).
#[derive(Debug, Clone, Copy)]
pub enum RawAddress {
    V4(Ipv4Address),
    Other,
}

/// What the operating system reports of one link, before any filtering.
#[derive(Debug)]
pub struct RawInterface {
    pub name: String,
    pub description: String,
    pub index: u32,
    pub is_up: bool,
    pub is_loopback: bool,
    pub addresses: Vec<RawAddress>,
}

/// Whether a reported link passes the usability filter: administratively up,
/// not the loopback, and with at least one address.
pub open spec fn spec_usable(i: &RawInterface) -> bool {
    i.is_up && !i.is_loopback && i.addresses@.len() > 0
}

/// The first IPv4 address in a link's address list, if any.
pub open spec fn spec_first_v4(addrs: Seq<RawAddress>) -> Option<Ipv4Address>
    decreases addrs.len(),
{
    if addrs.len() == 0 {
        None
    } else {
        match addrs[0] {
            RawAddress::V4(a) => Some(a),
            RawAddress::Other => spec_first_v4(addrs.drop_first()),
        }
    }
}

/// The catalog entry a usable link becomes. Meaningful only when
/// `spec_first_v4` found an address.
pub open spec fn spec_catalog_entry(i: &RawInterface) -> PhysicalInterface {
    PhysicalInterface {
        name: i.name,
        description: i.description,
        ip_address: spec_first_v4(i.addresses@)->Some_0,
        index: i.index,
    }
}

/// The catalog a raw report yields: every usable link with an IPv4 address,
/// in report order.
pub open spec fn spec_select_usable(raw: Seq<RawInterface>) -> Seq<PhysicalInterface>
    decreases raw.len(),
{
    if raw.len() == 0 {
        Seq::empty()
    } else {
        let front = spec_select_usable(raw.drop_last());
        let i = raw.last();
        if spec_usable(&i) && spec_first_v4(i.addresses@) is Some {
            front.push(spec_catalog_entry(&i))
        } else {
            front
        }
    }
}

/// The first IPv4 address in a link's address list, if any.
fn first_v4(addrs: &Vec<RawAddress>) -> (r: Option<Ipv4Address>)
    ensures
        r == spec_first_v4(addrs@),
{
    let n = addrs.len();
    assert(addrs@.skip(0) =~= addrs@);
    for j in 0..n
        invariant
            n == addrs@.len(),
            spec_first_v4(addrs@) == spec_first_v4(addrs@.skip(j as int)),
    {
        match addrs[j] {
            RawAddress::V4(a) => {
                assert(addrs@.skip(j as int)[0] == addrs@[j as int]);
                return Some(a);
            },
            RawAddress::Other => {
                assert(addrs@.skip(j as int)[0] == addrs@[j as int]);
                assert(addrs@.skip(j as int).drop_first() =~= addrs@.skip(j + 1));
            },
        }
    }
    assert(addrs@.skip(n as int).len() == 0);
    None
}

/// Filter a raw operating-system report down to the usable catalog: keep the
/// links that are up, not the loopback and not address-less, each with its
/// first IPv4 address.
pub fn select_usable_interfaces(raw: Vec<RawInterface>) -> (r: Vec<PhysicalInterface>)
    ensures
        r@ == spec_select_usable(raw@),
{
    let mut result: Vec<PhysicalInterface> = Vec::new();
    let n = raw.len();
    for i in 0..n
        invariant
            n == raw@.len(),
            result@ == spec_select_usable(raw@.take(i as int)),
    {
        let entry = &raw[i];
        if entry.is_up && !entry.is_loopback && entry.addresses.len() > 0 {
            match first_v4(&entry.addresses) {
                Some(address) => {
                    result.push(PhysicalInterface {
                        name: entry.name.clone(),
                        description: entry.description.clone(),
                        ip_address: address,
                        index: entry.index,
                    });
                },
                None => {},
            }
        }
        assert(raw@.take(i + 1).drop_last() =~= raw@.take(i as int));
        assert(raw@.take(i + 1).last() == raw@[i as int]);
    }
    assert(raw@.take(n as int) =~= raw@);
    result
}

/// The catalog of usable physical interfaces, refreshed at adapter startup
/// and held for the adapter's lifetime.
pub struct InterfaceManager {
    pub interfaces: Vec<PhysicalInterface>,
}

impl InterfaceManager {
    /// Build the catalog from an already-filtered interface list.
    pub fn new(interfaces: Vec<PhysicalInterface>) -> (r: Self)
        ensures
            r.interfaces == interfaces,
    {
        InterfaceManager { interfaces }
    }

    /// The first interface of the catalog, if any.
    pub fn get_primary_interface(&self) -> (r: Option<&PhysicalInterface>)
        ensures
            match r {
                Some(p) => self.interfaces@.len() > 0 && *p == self.interfaces@[0],
                None => self.interfaces@.len() == 0,
            },
    {
        if self.interfaces.len() == 0 {
            None
        } else {
            Some(&self.interfaces[0])
        }
    }

    /// Every interface of the catalog, in discovery order.
    pub fn get_all_interfaces(&self) -> (r: &Vec<PhysicalInterface>)
        ensures
            r == &self.interfaces,
    {
        &self.interfaces
    }
}

} // verus!
