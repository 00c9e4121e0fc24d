//! Internet addresses, and which of them are public.
use vstd::prelude::*;

verus! {

/// An internet address: the four octets of an IPv4 address, or the eight segments of an IPv6
/// address.
#[derive(Clone, Copy, Debug)]
pub enum IpAddress {
    V4([u8; 4]),
    V6([u16; 8]),
}

/// Private: 10.0.0.0/8, 172.16.0.0/12 and 192.168.0.0/16.
pub open spec fn private_v4(octets: Seq<u8>) -> bool {
    octets[0] == 10 || (octets[0] == 172 && 16 <= octets[1] <= 31) || (octets[0] == 192
        && octets[1] == 168)
}

/// For documentation: 192.0.2.0/24, 198.51.100.0/24 and 203.0.113.0/24.
pub open spec fn documentation_v4(octets: Seq<u8>) -> bool {
    ||| octets[0] == 192 && octets[1] == 0 && octets[2] == 2
    ||| octets[0] == 198 && octets[1] == 51 && octets[2] == 100
    ||| octets[0] == 203 && octets[1] == 0 && octets[2] == 113
}

/// Public IPv4: not of this network (0.0.0.0/8), private, loopback (127.0.0.0/8), link-local
/// (169.254.0.0/16), shared (100.64.0.0/10), for benchmarks (198.18.0.0/15), for
/// documentation, multicast (224.0.0.0/4) or reserved (240.0.0.0/4).
pub open spec fn public_v4(octets: Seq<u8>) -> bool {
    &&& octets[0] != 0
    &&& octets[0] != 127
    &&& octets[0] < 224
    &&& !private_v4(octets)
    &&& !documentation_v4(octets)
    &&& !(octets[0] == 169 && octets[1] == 254)
    &&& !(octets[0] == 100 && 64 <= octets[1] <= 127)
    &&& !(octets[0] == 198 && 18 <= octets[1] <= 19)
}

/// The first segments are those of an IPv4-mapped address, `::ffff:0:0/96`.
pub open spec fn mapped_v4(segments: Seq<u16>) -> bool {
    segments.take(6) == seq![0u16, 0, 0, 0, 0, 0xffff]
}

/// The IPv4 address that the last two segments hold.
pub open spec fn embedded_v4(segments: Seq<u16>) -> Seq<u8> {
    seq![
        (segments[6] / 256) as u8,
        (segments[6] % 256) as u8,
        (segments[7] / 256) as u8,
        (segments[7] % 256) as u8,
    ]
}

/// Public IPv6, of an address that is not IPv4-mapped: not the unspecified address, the
/// loopback address, multicast (ff00::/8), unique-local (fc00::/7) or link-local (fe80::/10).
pub open spec fn public_v6(segments: Seq<u16>) -> bool {
    &&& segments != seq![0u16, 0, 0, 0, 0, 0, 0, 0]
    &&& segments != seq![0u16, 0, 0, 0, 0, 0, 0, 1]
    &&& segments[0] < 0xff00
    &&& !(0xfc00 <= segments[0] < 0xfe00)
    &&& !(0xfe80 <= segments[0] < 0xfec0)
}

/// The address is a public one. An IPv4-mapped address is where its IPv4 address is.
pub open spec fn is_public(address: IpAddress) -> bool {
    match address {
        IpAddress::V4(octets) => public_v4(octets@),
        IpAddress::V6(segments) => if mapped_v4(segments@) {
            public_v4(embedded_v4(segments@))
        } else {
            public_v6(segments@)
        },
    }
}

fn public_octets(a: u8, b: u8, c: u8, d: u8) -> (public: bool)
    ensures
        public == public_v4(seq![a, b, c, d]),
{
    let private = a == 10 || (a == 172 && 16 <= b && b <= 31) || (a == 192 && b == 168);
    let documentation = (a == 192 && b == 0 && c == 2) || (a == 198 && b == 51 && c == 100) || (a
        == 203 && b == 0 && c == 113);
    !(private || documentation || a == 0 || a == 127 || a >= 224 || (a == 169 && b == 254) || (a
        == 100 && 64 <= b && b <= 127) || (a == 198 && (b == 18 || b == 19)))
}

/// Whether an address is public.
pub fn public_ip(address: &IpAddress) -> (public: bool)
    ensures
        public == is_public(*address),
{
    match address {
        IpAddress::V4(octets) => {
            let public = public_octets(octets[0], octets[1], octets[2], octets[3]);
            assert(octets@ =~= seq![octets@[0], octets@[1], octets@[2], octets@[3]]);
            public
        },
        IpAddress::V6(segments) => {
            let s: &[u16; 8] = segments;
            let zeros = s[0] == 0 && s[1] == 0 && s[2] == 0 && s[3] == 0 && s[4] == 0;
            proof {
                let prefix = seq![0u16, 0, 0, 0, 0, 0xffff];
                if zeros && s@[5] == 0xffff {
                    assert(s@.take(6) =~= prefix);
                } else if s@.take(6) == prefix {
                    assert(forall|i: int| 0 <= i < 6 ==> s@[i] == s@.take(6)[i]);
                    assert(s@[0] == prefix[0] && s@[1] == prefix[1] && s@[2] == prefix[2] && s@[3]
                        == prefix[3] && s@[4] == prefix[4] && s@[5] == prefix[5]);
                }
            }
            if zeros && s[5] == 0xffff {
                return public_octets(
                    (s[6] / 256) as u8,
                    (s[6] % 256) as u8,
                    (s[7] / 256) as u8,
                    (s[7] % 256) as u8,
                );
            }
            let leading = zeros && s[5] == 0 && s[6] == 0;
            proof {
                let none = seq![0u16, 0, 0, 0, 0, 0, 0, 0];
                let own = seq![0u16, 0, 0, 0, 0, 0, 0, 1];
                if leading && s@[7] == 0 {
                    assert(s@ =~= none);
                }
                if leading && s@[7] == 1 {
                    assert(s@ =~= own);
                }
                assert(none[0] == 0 && none[1] == 0 && none[2] == 0 && none[3] == 0 && none[4] == 0
                    && none[5] == 0 && none[6] == 0 && none[7] == 0);
                assert(own[0] == 0 && own[1] == 0 && own[2] == 0 && own[3] == 0 && own[4] == 0
                    && own[5] == 0 && own[6] == 0 && own[7] == 1);
            }
            !((leading && (s[7] == 0 || s[7] == 1)) || s[0] >= 0xff00 || (0xfc00 <= s[0] && s[0]
                < 0xfe00) || (0xfe80 <= s[0] && s[0] < 0xfec0))
        },
    }
}

/// All of the addresses are public, and there is at least one.
pub open spec fn all_public(addresses: Seq<IpAddress>) -> bool {
    addresses.len() > 0 && forall|i: int|
        0 <= i < addresses.len() ==> is_public(#[trigger] addresses[i])
}

/// Whether there is at least one address, and all of them are public.
pub fn are_public(addresses: &Vec<IpAddress>) -> (public: bool)
    ensures
        public == all_public(addresses@),
{
    let mut i: usize = 0;
    while i < addresses.len()
        invariant
            i <= addresses@.len(),
            forall|j: int| 0 <= j < i ==> is_public(#[trigger] addresses@[j]),
        decreases addresses@.len() - i,
    {
        if !public_ip(&addresses[i]) {
            return false;
        }
        i = i + 1;
    }
    addresses.len() > 0
}

/// An IPv4 address is public exactly when its IPv4-mapped form is: mapping hides nothing.
pub proof fn law_mapped_addresses_are_judged_as_ipv4(octets: [u8; 4], segments: [u16; 8])
    requires
        mapped_v4(segments@),
        embedded_v4(segments@) == octets@,
    ensures
        is_public(IpAddress::V6(segments)) == is_public(IpAddress::V4(octets)),
{
}

/// Whether a number lies in a range, both ends in it.
pub open spec fn between(low: int, number: int, high: int) -> bool {
    low <= number <= high
}

/// An IPv4 address, taken as a number of thirty-two bits, is public exactly when it lies in
/// none of the ranges that are set aside: 0.0.0.0/8, 10.0.0.0/8, 100.64.0.0/10, 127.0.0.0/8,
/// 169.254.0.0/16, 172.16.0.0/12, 192.0.2.0/24, 192.168.0.0/16, 198.18.0.0/15, 198.51.100.0/24,
/// 203.0.113.0/24, and all from 224.0.0.0 on.
pub proof fn law_public_ipv4_addresses_are_outside_the_reserved_ranges(octets: [u8; 4])
    ensures
        ({
            let number = octets@[0] * 0x100_0000 + octets@[1] * 0x1_0000 + octets@[2] * 0x100
                + octets@[3];
            is_public(IpAddress::V4(octets)) <==> {
                &&& !between(0x0000_0000, number, 0x00ff_ffff)
                &&& !between(0x0a00_0000, number, 0x0aff_ffff)
                &&& !between(0x6440_0000, number, 0x647f_ffff)
                &&& !between(0x7f00_0000, number, 0x7fff_ffff)
                &&& !between(0xa9fe_0000, number, 0xa9fe_ffff)
                &&& !between(0xac10_0000, number, 0xac1f_ffff)
                &&& !between(0xc000_0200, number, 0xc000_02ff)
                &&& !between(0xc0a8_0000, number, 0xc0a8_ffff)
                &&& !between(0xc612_0000, number, 0xc613_ffff)
                &&& !between(0xc633_6400, number, 0xc633_64ff)
                &&& !between(0xcb00_7100, number, 0xcb00_71ff)
                &&& !between(0xe000_0000, number, 0xffff_ffff)
            }
        }),
{
}

/// An IPv6 address that is not IPv4-mapped is public exactly when its first segment is below
/// fc00, or from fe00 to fe7f or from fec0 to feff, and it is neither `::` nor `::1`.
pub proof fn law_public_ipv6_addresses_are_outside_the_reserved_ranges(segments: [u16; 8])
    requires
        !(segments@[0] == 0 && segments@[1] == 0 && segments@[2] == 0 && segments@[3] == 0
            && segments@[4] == 0 && segments@[5] == 0xffff),
    ensures
        is_public(IpAddress::V6(segments)) <==> {
            let first = segments@[0] as int;
            &&& between(0, first, 0xfbff) || between(0xfe00, first, 0xfe7f) || between(
                0xfec0,
                first,
                0xfeff,
            )
            &&& segments@[7] > 1 || exists|i: int| 0 <= i < 7 && #[trigger] segments@[i] != 0
        },
{
    let s = segments@;
    let none = seq![0u16, 0, 0, 0, 0, 0, 0, 0];
    let own = seq![0u16, 0, 0, 0, 0, 0, 0, 1];
    let prefix = seq![0u16, 0, 0, 0, 0, 0xffff];
    if mapped_v4(s) {
        assert(forall|i: int| 0 <= i < 6 ==> #[trigger] s[i] == s.take(6)[i]);
        assert(s[0] == prefix[0] && s[1] == prefix[1] && s[2] == prefix[2] && s[3] == prefix[3]
            && s[4] == prefix[4] && s[5] == prefix[5]);
    }
    if s == none || s == own {
        assert forall|i: int| 0 <= i < 7 implies #[trigger] s[i] == 0 by {
            assert(none[i] == 0 && own[i] == 0);
        }
        assert(none[7] == 0 && own[7] == 1);
    } else if forall|i: int| 0 <= i < 7 ==> #[trigger] s[i] == 0 {
        if s[7] == 0 {
            assert(s =~= none);
        }
        if s[7] == 1 {
            assert(s =~= own);
        }
    }
}

/// An IPv4-mapped address, `::ffff:` and the four octets, is public exactly when the address of
/// those octets is.
pub proof fn law_mapping_keeps_what_is_public(octets: [u8; 4], segments: [u16; 8])
    requires
        segments@[0] == 0 && segments@[1] == 0 && segments@[2] == 0 && segments@[3] == 0
            && segments@[4] == 0 && segments@[5] == 0xffff,
        segments@[6] == octets@[0] * 256 + octets@[1],
        segments@[7] == octets@[2] * 256 + octets@[3],
    ensures
        is_public(IpAddress::V6(segments)) == is_public(IpAddress::V4(octets)),
{
    assert(segments@.take(6) =~= seq![0u16, 0, 0, 0, 0, 0xffff]);
    assert(embedded_v4(segments@) =~= octets@);
}

/// A list of addresses is public exactly when it has one and none of them is not: adding an
/// address that is not public to any list spoils it, wherever it stands.
pub proof fn law_one_address_spoils_a_list(
    before: Seq<IpAddress>,
    one: IpAddress,
    after: Seq<IpAddress>,
)
    ensures
        !is_public(one) ==> !all_public(before + seq![one] + after),
        !all_public(Seq::<IpAddress>::empty()),
        is_public(one) ==> all_public(seq![one]),
        all_public(before) && is_public(one) ==> all_public(before.push(one)),
{
    let whole = before + seq![one] + after;
    assert(whole[before.len() as int] == one);
    if all_public(before) && is_public(one) {
        let longer = before.push(one);
        assert forall|i: int| 0 <= i < longer.len() implies is_public(#[trigger] longer[i]) by {
            if i < before.len() {
                assert(longer[i] == before[i]);
            }
        }
    }
}

} // verus!
