//! Client addresses and their reduction to a network.
//!
//! A metric labelled by client address would have one series for each client.
//! The metrics that carry an address therefore carry the client's network
//! instead: the first 20 bits of an IPv4 address, the first 32 bits of an IPv6
//! address.

use vstd::prelude::*;

verus! {

/// Prefix length to which IPv4 addresses are reduced.
pub const QUIC_INITIAL_METRICS_V4_PREFIX: u8 = 20;

/// Prefix length to which IPv6 addresses are reduced.
pub const QUIC_INITIAL_METRICS_V6_PREFIX: u8 = 32;

/// An IP address of either family, held as the number that its octets spell
/// in network order: `203.0.113.77` is `V4(0xcb00_714d)`.
#[derive(Clone, Copy, Debug, PartialEq, Eq, Structural, Hash)]
pub enum IpAddress {
    V4(u32),
    V6(u128),
}

/// `bits` with all but its `prefix` most significant bits cleared.
pub open spec fn v4_network_bits(bits: u32, prefix: u8) -> u32 {
    if prefix >= 32 {
        bits
    } else {
        bits & !(u32::MAX >> (prefix as u32))
    }
}

/// `bits` with all but its `prefix` most significant bits cleared.
pub open spec fn v6_network_bits(bits: u128, prefix: u8) -> u128 {
    if prefix >= 128 {
        bits
    } else {
        bits & !(u128::MAX >> (prefix as u128))
    }
}

impl IpAddress {
    /// Number of bits in an address of this family.
    pub open spec fn bit_len(self) -> nat {
        match self {
            IpAddress::V4(_) => 32,
            IpAddress::V6(_) => 128,
        }
    }

    /// The lowest address of the network that holds this address and has a
    /// prefix of `prefix` bits.
    pub open spec fn network(self, prefix: u8) -> IpAddress {
        match self {
            IpAddress::V4(bits) => IpAddress::V4(v4_network_bits(bits, prefix)),
            IpAddress::V6(bits) => IpAddress::V6(v6_network_bits(bits, prefix)),
        }
    }

    /// The prefix length to which an address of this family is reduced.
    pub open spec fn metrics_prefix(self) -> u8 {
        match self {
            IpAddress::V4(_) => QUIC_INITIAL_METRICS_V4_PREFIX,
            IpAddress::V6(_) => QUIC_INITIAL_METRICS_V6_PREFIX,
        }
    }

    /// The network to which this address is reduced.
    pub open spec fn reduced(self) -> IpAddress {
        self.network(self.metrics_prefix())
    }

    /// Whether this is an IPv4 address.
    pub fn is_ipv4(&self) -> (r: bool)
        ensures
            r == (*self is V4),
    {
        match self {
            IpAddress::V4(_) => true,
            IpAddress::V6(_) => false,
        }
    }

    /// Whether this is an IPv6 address.
    pub fn is_ipv6(&self) -> (r: bool)
        ensures
            r == (*self is V6),
    {
        match self {
            IpAddress::V4(_) => false,
            IpAddress::V6(_) => true,
        }
    }
}

/// `ipnetwork::IpNetwork`: an address together with a prefix length. Nothing
/// is known of a value but what [`ip_network_ip`] and [`ip_network_prefix`]
/// name.
#[verifier::external_type_specification]
#[verifier::external_body]
pub struct ExIpNetwork(ipnetwork::IpNetwork);

/// `ipnetwork::IpNetworkError`: why no network was made. It is never looked
/// into.
#[verifier::external_type_specification]
#[verifier::external_body]
pub struct ExIpNetworkError(ipnetwork::IpNetworkError);

/// The address that a network holds: what `ipnetwork::IpNetwork::ip` returns
/// for it, which is the address that the network was made with.
pub uninterp spec fn ip_network_ip(net: ipnetwork::IpNetwork) -> IpAddress;

/// The prefix length that a network holds: what
/// `ipnetwork::IpNetwork::prefix` returns for it, which is the prefix length
/// that the network was made with.
pub uninterp spec fn ip_network_prefix(net: ipnetwork::IpNetwork) -> u8;

/// `ipnetwork::IpNetwork::new`: refuses a prefix of more than 32 bits for an
/// IPv4 address, or of more than 128 bits for an IPv6 address, and otherwise
/// gives a network that holds the address and the prefix as given. This is
/// taken from the outside crate and not proved.
#[verifier::external_body]
fn ip_network_new(ip: IpAddress, prefix: u8) -> (r: Result<
    ipnetwork::IpNetwork,
    ipnetwork::IpNetworkError,
>)
    ensures
        r is Ok <==> prefix <= ip.bit_len(),
        r matches Ok(net) ==> ip_network_ip(net) == ip && ip_network_prefix(net) == prefix,
{
    match ip {
        IpAddress::V4(bits) => ipnetwork::IpNetwork::new(bits.to_be_bytes().into(), prefix),
        IpAddress::V6(bits) => ipnetwork::IpNetwork::new(bits.to_be_bytes().into(), prefix),
    }
}

/// `ipnetwork::IpNetwork::network`, asked of the `Ipv4Network` or the
/// `Ipv6Network` inside, to which it hands the question: the lowest address of
/// the network, which is the address that the network holds with all bits
/// below the prefix cleared. This is taken from the outside crate and not
/// proved.
#[verifier::external_body]
fn ip_network_network(net: &ipnetwork::IpNetwork) -> (r: IpAddress)
    ensures
        r == ip_network_ip(*net).network(ip_network_prefix(*net)),
{
    match net {
        ipnetwork::IpNetwork::V4(v4) => IpAddress::V4(v4.network().into()),
        ipnetwork::IpNetwork::V6(v6) => IpAddress::V6(v6.network().into()),
    }
}

/// The network of `ip` under a prefix of `prefix` bits, or nothing where the
/// prefix is longer than the address.
pub fn network_of(ip: IpAddress, prefix: u8) -> (r: Option<IpAddress>)
    ensures
        r == if prefix <= ip.bit_len() {
            Some(ip.network(prefix))
        } else {
            None
        },
{
    match ip_network_new(ip, prefix) {
        Ok(ip_net) => Some(ip_network_network(&ip_net)),
        Err(_) => None,
    }
}

/// The network of a client, as a metric carries it: an address of which only
/// the bits of the prefix can be set.
#[derive(Clone, Copy, Debug, PartialEq, Eq, Structural, Hash)]
pub struct NetworkPrefix {
    network: IpAddress,
}

impl View for NetworkPrefix {
    type V = IpAddress;

    closed spec fn view(&self) -> IpAddress {
        self.network
    }
}

impl NetworkPrefix {
    #[verifier::type_invariant]
    spec fn host_bits_clear(self) -> bool {
        self.network.reduced() == self.network
    }

    /// The lowest address of the network. Reducing it again changes nothing.
    pub fn network(&self) -> (a: IpAddress)
        ensures
            a == self@,
            a.reduced() == a,
    {
        proof {
            use_type_invariant(self);
        }
        self.network
    }

    /// The number of leading bits that all addresses of the network share.
    pub fn prefix_len(&self) -> (n: u8)
        ensures
            n == self@.metrics_prefix(),
            self@ is V4 ==> n == 20,
            self@ is V6 ==> n == 32,
    {
        if self.network.is_ipv4() {
            QUIC_INITIAL_METRICS_V4_PREFIX
        } else {
            QUIC_INITIAL_METRICS_V6_PREFIX
        }
    }
}

/// What the reducer owes for `ip`: the network that `ip` reduces to, always.
pub open spec fn is_reduction_of(ip: IpAddress, r: Option<NetworkPrefix>) -> bool {
    r matches Some(p) && p@ == ip.reduced()
}

/// Reduces a client address to its network, /20 for IPv4 and /32 for IPv6, so
/// that a metric labelled by it has one series for each network and not one
/// for each client. A caller that gets nothing must drop the observation.
pub fn quic_expensive_metrics_ip_reduce(ip: IpAddress) -> (r: Option<NetworkPrefix>)
    ensures
        is_reduction_of(ip, r),
        ip matches IpAddress::V4(bits) ==> r.unwrap()@ == IpAddress::V4(bits & 0xffff_f000),
        ip matches IpAddress::V6(bits) ==> r.unwrap()@ == IpAddress::V6(
            bits & 0xffff_ffff_0000_0000_0000_0000_0000_0000,
        ),
{
    let prefix = if ip.is_ipv4() {
        QUIC_INITIAL_METRICS_V4_PREFIX
    } else {
        QUIC_INITIAL_METRICS_V6_PREFIX
    };

    if let Some(network) = network_of(ip, prefix) {
        proof {
            lemma_reduced_idempotent(ip);
            match ip {
                IpAddress::V4(bits) => lemma_reduced_v4(bits),
                IpAddress::V6(bits) => lemma_reduced_v6(bits),
            }
        }
        Some(NetworkPrefix { network })
    } else {
        None
    }
}

/// Reducing an IPv4 address keeps its family and clears its lower 12 bits.
pub proof fn lemma_reduced_v4(bits: u32)
    ensures
        IpAddress::V4(bits).metrics_prefix() == 20,
        IpAddress::V4(bits).reduced() == IpAddress::V4(bits & 0xffff_f000),
        (bits & 0xffff_f000) == bits - bits % 0x1000,
{
    assert(bits & !(u32::MAX >> 20u32) == bits & 0xffff_f000) by (bit_vector);
    assert((bits & 0xffff_f000) == bits - bits % 0x1000) by (bit_vector);
}

/// Reducing an IPv6 address keeps its family and clears its lower 96 bits.
pub proof fn lemma_reduced_v6(bits: u128)
    ensures
        IpAddress::V6(bits).metrics_prefix() == 32,
        IpAddress::V6(bits).reduced() == IpAddress::V6(
            bits & 0xffff_ffff_0000_0000_0000_0000_0000_0000,
        ),
        (bits & 0xffff_ffff_0000_0000_0000_0000_0000_0000) == bits - bits
            % 0x1_0000_0000_0000_0000_0000_0000,
{
    assert(bits & !(u128::MAX >> 32u128) == bits & 0xffff_ffff_0000_0000_0000_0000_0000_0000)
        by (bit_vector);
    assert((bits & 0xffff_ffff_0000_0000_0000_0000_0000_0000) == bits - bits
        % 0x1_0000_0000_0000_0000_0000_0000) by (bit_vector);
}

/// A reduced address is its own reduction.
pub proof fn lemma_reduced_idempotent(ip: IpAddress)
    ensures
        ip.reduced().reduced() == ip.reduced(),
{
    match ip {
        IpAddress::V4(bits) => {
            let m = !(u32::MAX >> 20u32);
            assert((bits & m) & m == bits & m) by (bit_vector);
        },
        IpAddress::V6(bits) => {
            let m = !(u128::MAX >> 32u128);
            assert((bits & m) & m == bits & m) by (bit_vector);
        },
    }
}

/// Two addresses reduce to the same network exactly when they are of one
/// family and agree on the bits of the prefix.
pub proof fn lemma_reduced_same_network(a: IpAddress, b: IpAddress)
    ensures
        a.reduced() == b.reduced() <==> match (a, b) {
            (IpAddress::V4(x), IpAddress::V4(y)) => x / 0x1000 == y / 0x1000,
            (IpAddress::V6(x), IpAddress::V6(y)) => x / 0x1_0000_0000_0000_0000_0000_0000 == y
                / 0x1_0000_0000_0000_0000_0000_0000,
            _ => false,
        },
{
    match (a, b) {
        (IpAddress::V4(x), IpAddress::V4(y)) => {
            assert((x & !(u32::MAX >> 20u32) == y & !(u32::MAX >> 20u32)) <==> (x / 0x1000 == y
                / 0x1000)) by (bit_vector);
        },
        (IpAddress::V6(x), IpAddress::V6(y)) => {
            assert((x & !(u128::MAX >> 32u128) == y & !(u128::MAX >> 32u128)) <==> (x
                / 0x1_0000_0000_0000_0000_0000_0000 == y / 0x1_0000_0000_0000_0000_0000_0000))
                by (bit_vector);
        },
        _ => {},
    }
}

/// The reducer has one answer for each address: whatever two calls on the
/// same address return is the same value.
pub proof fn lemma_reduction_deterministic(
    ip: IpAddress,
    first: Option<NetworkPrefix>,
    second: Option<NetworkPrefix>,
)
    requires
        is_reduction_of(ip, first),
        is_reduction_of(ip, second),
    ensures
        first == second,
{
}

} // verus!
