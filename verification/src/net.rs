//! Plain models of addresses and subnets: an IP address as its bytes, a
//! subnet as an address plus a prefix length, and the wire conversion
//! between a netmask's bytes and that prefix length.

use vstd::prelude::*;

verus! {

/// An IP address, as its raw bytes.
#[derive(Clone, Copy, Debug, PartialEq, Eq)]
pub enum IpAddress {
    V4([u8; 4]),
    V6([u8; 16]),
}

impl IpAddress {
    /// The longest prefix an address of this family allows.
    pub open spec fn max_prefix(self) -> int {
        match self {
            IpAddress::V4(_) => 32,
            IpAddress::V6(_) => 128,
        }
    }

    /// The longest prefix an address of this family allows.
    pub fn max_prefix_len(&self) -> (r: u8)
        ensures
            r == self.max_prefix(),
    {
        match self {
            IpAddress::V4(_) => 32,
            IpAddress::V6(_) => 128,
        }
    }
}

/// A subnet: an address and a prefix length.
#[derive(Clone, Copy, Debug, PartialEq, Eq)]
pub struct IpNetwork {
    pub addr: IpAddress,
    pub prefix_len: u8,
}

impl IpNetwork {
    /// The prefix length fits the address family.
    pub open spec fn wf(self) -> bool {
        self.prefix_len <= self.addr.max_prefix()
    }

    /// A subnet from an address and a prefix length; `None` exactly when
    /// the prefix is too long for the address family.
    pub fn new(addr: IpAddress, prefix_len: u8) -> (r: Option<IpNetwork>)
        ensures
            prefix_len <= addr.max_prefix() ==> r == Some(IpNetwork { addr, prefix_len }),
            prefix_len > addr.max_prefix() ==> r is None,
            r matches Some(n) ==> n.wf(),
    {
        if prefix_len <= addr.max_prefix_len() {
            Some(IpNetwork { addr, prefix_len })
        } else {
            None
        }
    }
}

/// How many bits are set in one byte.
pub open spec fn ones8(b: u8) -> nat
    decreases b,
{
    if b == 0 {
        0
    } else {
        (b % 2) as nat + ones8(b / 2)
    }
}

/// A set bit counts no more than the value it sits in.
proof fn lemma_ones8_le(b: u8)
    ensures
        ones8(b) <= b,
    decreases b,
{
    if b > 0 {
        lemma_ones8_le(b / 2);
    }
}

/// Count the set bits of one byte.
pub fn count_ones_u8(b: u8) -> (r: u8)
    ensures
        r == ones8(b),
        r <= b,
{
    proof {
        lemma_ones8_le(b);
    }
    let mut x = b;
    let mut c: u8 = 0;
    while x > 0
        invariant
            c + ones8(x) == ones8(b),
            ones8(b) <= b,
        decreases x,
    {
        proof {
            lemma_ones8_le(x / 2);
        }
        c = c + x % 2;
        x = x / 2;
    }
    c
}

/// How many bits are set over all bytes of a netmask.
pub open spec fn mask_ones(m: Seq<u8>) -> nat
    decreases m.len(),
{
    if m.len() == 0 {
        0
    } else {
        ones8(m[0]) + mask_ones(m.drop_first())
    }
}

proof fn lemma_mask_ones_split(m: Seq<u8>, i: int)
    requires
        0 <= i < m.len(),
    ensures
        mask_ones(m.subrange(i, m.len() as int)) == ones8(m[i]) + mask_ones(
            m.subrange(i + 1, m.len() as int),
        ),
{
    let rest = m.subrange(i, m.len() as int);
    assert(rest[0] == m[i]);
    assert(rest.drop_first() =~= m.subrange(i + 1, m.len() as int));
}

/// The number of set bits in the netmask's bytes, or `None` once it is
/// clear the count exceeds the longest possible prefix.
pub fn mask_bit_count(mask: &Vec<u8>) -> (r: Option<u8>)
    ensures
        mask_ones(mask@) <= 128 ==> r == Some((mask_ones(mask@)) as u8),
        mask_ones(mask@) > 128 ==> r is None,
{
    let mut total: u32 = 0;
    let mut i: usize = 0;
    proof {
        assert(mask@.subrange(0, mask@.len() as int) =~= mask@);
    }
    while i < mask.len()
        invariant
            i <= mask@.len(),
            total <= 128,
            total + mask_ones(mask@.subrange(i as int, mask@.len() as int)) == mask_ones(mask@),
        decreases mask@.len() - i,
    {
        proof {
            lemma_mask_ones_split(mask@, i as int);
        }
        let c = count_ones_u8(mask[i]);
        total = total + c as u32;
        if total > 128 {
            return None;
        }
        i += 1;
    }
    proof {
        assert(mask@.subrange(mask@.len() as int, mask@.len() as int) =~= Seq::<u8>::empty());
    }
    Some(total as u8)
}

/// The subnet encoded on the wire as an `{address, mask}` pair: the prefix
/// length is the number of set bits in the mask's bytes. `None` when either
/// part is absent or the count does not fit the address family.
pub fn subnet_from_parts(ip: Option<IpAddress>, mask: Option<Vec<u8>>) -> (r: Option<IpNetwork>)
    ensures
        match (ip, mask) {
            (Some(a), Some(m)) => {
                if mask_ones(m@) <= a.max_prefix() {
                    r == Some(IpNetwork { addr: a, prefix_len: (mask_ones(m@)) as u8 })
                } else {
                    r is None
                }
            },
            _ => r is None,
        },
        r matches Some(n) ==> n.wf(),
{
    match (ip, mask) {
        (Some(a), Some(m)) => {
            match mask_bit_count(&m) {
                Some(prefix) => IpNetwork::new(a, prefix),
                None => None,
            }
        },
        _ => None,
    }
}

/// The byte a netmask holds when `k` of its eight bits, from the top, are
/// ones.
pub open spec fn leading_ones_byte(k: int) -> u8 {
    if k <= 0 {
        0u8
    } else if k == 1 {
        0x80u8
    } else if k == 2 {
        0xc0u8
    } else if k == 3 {
        0xe0u8
    } else if k == 4 {
        0xf0u8
    } else if k == 5 {
        0xf8u8
    } else if k == 6 {
        0xfcu8
    } else if k == 7 {
        0xfeu8
    } else {
        0xffu8
    }
}

/// How many of a byte's bits, from the top, belong to a prefix of `p` bits
/// when the byte sits at position `j` of the mask.
pub open spec fn byte_prefix_bits(p: int, j: int) -> int {
    if p - 8 * j >= 8 {
        8
    } else if p - 8 * j <= 0 {
        0
    } else {
        p - 8 * j
    }
}

fn leading_ones_byte_exec(k: u8) -> (r: u8)
    ensures
        r == leading_ones_byte(k as int),
{
    if k == 0 {
        0
    } else if k == 1 {
        0x80
    } else if k == 2 {
        0xc0
    } else if k == 3 {
        0xe0
    } else if k == 4 {
        0xf0
    } else if k == 5 {
        0xf8
    } else if k == 6 {
        0xfc
    } else if k == 7 {
        0xfe
    } else {
        0xff
    }
}

/// The sixteen netmask bytes that encode a subnet's prefix length on the
/// wire: whole bytes of ones, then the remaining bits from the top of the
/// next byte, then zeros.
pub fn mask_bytes_of_prefix(prefix_len: u8) -> (r: Vec<u8>)
    ensures
        r@.len() == 16,
        forall|j: int|
            0 <= j < 16 ==> r@[j] == leading_ones_byte(byte_prefix_bits(prefix_len as int, j)),
{
    let mut out: Vec<u8> = Vec::new();
    let mut j: usize = 0;
    while j < 16
        invariant
            j <= 16,
            out@.len() == j,
            forall|t: int|
                0 <= t < j ==> out@[t] == leading_ones_byte(
                    byte_prefix_bits(prefix_len as int, t),
                ),
        decreases 16 - j,
    {
        let lo: u8 = if prefix_len >= 8 * (j as u8) + 8 {
            8
        } else if prefix_len <= 8 * (j as u8) {
            0
        } else {
            prefix_len - 8 * (j as u8)
        };
        out.push(leading_ones_byte_exec(lo));
        j += 1;
    }
    out
}

} // verus!
