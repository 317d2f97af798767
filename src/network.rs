use vstd::prelude::*;
use vstd::string::*;
use std::collections::VecDeque;

verus! {

/// An IP address, by its numeric parts.
#[derive(Clone, Copy, Debug, PartialEq, Eq)]
pub enum IpAddress {
    V4 { octets: [u8; 4] },
    V6 { segments: [u16; 8] },
}

/// A network interface of the host and its addresses.
#[derive(Debug)]
pub struct NetworkInterface {
    pub name: String,
    pub ip_addresses: Vec<IpAddress>,
}

pub open spec fn starts_with(s: Seq<char>, prefix: Seq<char>) -> bool {
    prefix.len() <= s.len() && s.take(prefix.len() as int) == prefix
}

/// Whether an interface of this name can be chosen: the one whose name
/// starts with the requested prefix, or, when none is requested, a wired
/// (`en`) or wireless (`wl`) one.
pub open spec fn is_candidate(name: Seq<char>, requested: Option<Seq<char>>) -> bool {
    match requested {
        Some(prefix) => starts_with(name, prefix),
        None => starts_with(name, "en"@) || starts_with(name, "wl"@),
    }
}

/// The name prefix that was asked for, if any.
pub open spec fn requested_prefix(override_interface: Option<&str>) -> Option<Seq<char>> {
    match override_interface {
        Some(p) => Some(p@),
        None => None,
    }
}

/// Whether `s` starts with `prefix`.
fn has_prefix(s: &str, prefix: &str) -> (r: bool)
    ensures
        r == starts_with(s@, prefix@),
{
    let n = s.unicode_len();
    let m = prefix.unicode_len();
    if m > n {
        return false;
    }
    let mut k: usize = 0;
    while k < m
        invariant
            n == s@.len(),
            m == prefix@.len(),
            m <= n,
            k <= m,
            forall|j: int| 0 <= j < k ==> s@[j] == prefix@[j],
        decreases m - k,
    {
        if s.get_char(k) != prefix.get_char(k) {
            assert(s@.take(m as int)[k as int] != prefix@[k as int]);
            return false;
        }
        k = k + 1;
    }
    assert(s@.take(m as int) =~= prefix@);
    true
}

impl NetworkInterface {
    /// An equal interface.
    pub fn copy(&self) -> (r: Self)
        ensures
            r.name@ == self.name@,
            r.ip_addresses@ == self.ip_addresses@,
    {
        let mut ip_addresses: Vec<IpAddress> = Vec::new();
        let mut k: usize = 0;
        while k < self.ip_addresses.len()
            invariant
                k <= self.ip_addresses@.len(),
                ip_addresses@ == self.ip_addresses@.take(k as int),
            decreases self.ip_addresses@.len() - k,
        {
            ip_addresses.push(self.ip_addresses[k]);
            assert(self.ip_addresses@.take(k + 1) =~= self.ip_addresses@.take(k as int).push(
                self.ip_addresses@[k as int],
            ));
            k = k + 1;
        }
        assert(self.ip_addresses@.take(k as int) =~= self.ip_addresses@);
        NetworkInterface { name: self.name.clone(), ip_addresses }
    }
}

/// Selects the interface whose address the application is reached at: the
/// first whose name starts with `override_interface`, or, without one, the
/// first wired or wireless interface.
pub fn select_network_interface(
    select_from: &Vec<NetworkInterface>,
    override_interface: Option<&str>,
) -> (r: Option<NetworkInterface>)
    ensures
        match r {
            Some(chosen) => exists|k: int|
                0 <= k < select_from@.len() && is_candidate(
                    select_from@[k].name@,
                    requested_prefix(override_interface),
                ) && (forall|j: int|
                    0 <= j < k ==> !is_candidate(
                        select_from@[j].name@,
                        requested_prefix(override_interface),
                    )) && chosen.name@ == select_from@[k].name@ && chosen.ip_addresses@
                    == select_from@[k].ip_addresses@,
            None => forall|j: int|
                0 <= j < select_from@.len() ==> !is_candidate(
                    select_from@[j].name@,
                    requested_prefix(override_interface),
                ),
        },
{
    let ghost requested = requested_prefix(override_interface);
    let mut k: usize = 0;
    while k < select_from.len()
        invariant
            k <= select_from@.len(),
            requested == requested_prefix(override_interface),
            forall|j: int| 0 <= j < k ==> !is_candidate(select_from@[j].name@, requested),
        decreases select_from@.len() - k,
    {
        let name = select_from[k].name.as_str();
        let fits = match override_interface {
            Some(prefix) => has_prefix(name, prefix),
            None => has_prefix(name, "en") || has_prefix(name, "wl"),
        };
        if fits {
            return Some(select_from[k].copy());
        }
        k = k + 1;
    }
    None
}

/// Adds `ip` to `deque`: an IPv4 address at the front, an IPv6 one at the
/// back, so that folding a list of addresses puts the IPv4 ones first.
pub fn v4_first(mut deque: VecDeque<IpAddress>, ip: &IpAddress) -> (r: VecDeque<IpAddress>)
    ensures
        r@ == v4_first_step(deque@, *ip),
{
    match ip {
        IpAddress::V4 { .. } => deque.push_front(*ip),
        IpAddress::V6 { .. } => deque.push_back(*ip),
    }
    deque
}

pub open spec fn v4_first_step(s: Seq<IpAddress>, ip: IpAddress) -> Seq<IpAddress> {
    match ip {
        IpAddress::V4 { .. } => seq![ip] + s,
        IpAddress::V6 { .. } => s.push(ip),
    }
}

/// The addresses as folding `v4_first` over them, from an empty deque, orders
/// them.
pub open spec fn v4_first_order(addresses: Seq<IpAddress>) -> Seq<IpAddress>
    decreases addresses.len(),
{
    if addresses.len() == 0 {
        Seq::empty()
    } else {
        v4_first_step(v4_first_order(addresses.drop_last()), addresses.last())
    }
}

/// The address to advertise for an interface: the first of its addresses
/// once `v4_first` has ordered them, if it has any.
pub fn host_address(addresses: &Vec<IpAddress>) -> (r: Option<IpAddress>)
    ensures
        addresses@.len() == 0 ==> r is None,
        addresses@.len() > 0 ==> r == Some(v4_first_order(addresses@)[0]),
{
    let mut ordered: VecDeque<IpAddress> = VecDeque::new();
    let mut k: usize = 0;
    while k < addresses.len()
        invariant
            k <= addresses@.len(),
            ordered@ == v4_first_order(addresses@.take(k as int)),
            ordered@.len() == k,
        decreases addresses@.len() - k,
    {
        proof {
            assert(addresses@.take(k + 1).drop_last() =~= addresses@.take(k as int));
        }
        ordered = v4_first(ordered, &addresses[k]);
        k = k + 1;
    }
    assert(addresses@.take(k as int) =~= addresses@);
    if ordered.len() == 0 {
        None
    } else {
        Some(ordered[0])
    }
}

} // verus!
