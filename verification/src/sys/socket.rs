//! A bare socket descriptor, and the byte order of the network.
use vstd::prelude::*;

verus! {

/// `x` with its two bytes in the other order.
pub open spec fn swapped16(x: u16) -> u16 {
    ((x & 0xff) << 8) | (x >> 8)
}

/// `x` with its four bytes in the opposite order.
pub open spec fn swapped32(x: u32) -> u32 {
    ((x & 0xff) << 24) | ((x & 0xff00) << 8) | ((x >> 8) & 0xff00) | (x >> 24)
}

/// Swapping the bytes twice gives the number back.
pub proof fn lemma_swapped_twice(x: u16, y: u32)
    by (bit_vector)
    ensures
        swapped16(swapped16(x)) == x,
        swapped32(swapped32(y)) == y,
{
}

/// `u16::to_be`: the number as it is on a machine that stores the high byte
/// first, and with its bytes swapped on one that stores the low byte first.
#[verifier::external_body]
fn to_be16(x: u16) -> (r: u16)
    ensures
        r == network16(x),
{
    x.to_be()
}

/// `u16::from_be`: the number as it is on a machine that stores the high
/// byte first, and with its bytes swapped on one that stores the low byte
/// first.
#[verifier::external_body]
fn from_be16(x: u16) -> (r: u16)
    ensures
        r == network16(x),
{
    u16::from_be(x)
}

/// `u32::to_be`: the number as it is on a machine that stores the high byte
/// first, and with its bytes in the opposite order on one that stores the
/// low byte first.
#[verifier::external_body]
fn to_be32(x: u32) -> (r: u32)
    ensures
        r == network32(x),
{
    x.to_be()
}

/// `u32::from_be`: the number as it is on a machine that stores the high
/// byte first, and with its bytes in the opposite order on one that stores
/// the low byte first.
#[verifier::external_body]
fn from_be32(x: u32) -> (r: u32)
    ensures
        r == network32(x),
{
    u32::from_be(x)
}

/// A 16-bit number from the order of this machine to that of the network.
pub fn htons(hostshort: u16) -> (r: u16)
    ensures
        r == network16(hostshort),
{
    to_be16(hostshort)
}

/// A 16-bit number from the order of the network to that of this machine.
pub fn ntohs(netshort: u16) -> (r: u16)
    ensures
        r == network16(netshort),
{
    from_be16(netshort)
}

/// A 32-bit number from the order of this machine to that of the network.
pub fn htonl(hostlong: u32) -> (r: u32)
    ensures
        r == network32(hostlong),
{
    to_be32(hostlong)
}

/// A 32-bit number from the order of the network to that of this machine.
pub fn ntohl(netlong: u32) -> (r: u32)
    ensures
        r == network32(netlong),
{
    from_be32(netlong)
}

/// Whether this machine stores the high byte of a number first, as the
/// network does.
pub open spec fn high_byte_first() -> bool {
    vstd::endian::endianness() == vstd::endian::Endian::Big
}

/// What a 16-bit number becomes on its way between the order of this
/// machine and that of the network: itself where the machine stores the
/// high byte first, and the number with its bytes swapped where it stores
/// the low byte first.
pub open spec fn network16(x: u16) -> u16 {
    if high_byte_first() {
        x
    } else {
        swapped16(x)
    }
}

/// What a 32-bit number becomes on its way between the order of this
/// machine and that of the network: itself where the machine stores the
/// high byte first, and the number with its bytes in the opposite order
/// where it stores the low byte first.
pub open spec fn network32(x: u32) -> u32 {
    if high_byte_first() {
        x
    } else {
        swapped32(x)
    }
}

/// A number that went to the order of the network and back is the number
/// that set out, and so in the other direction.
pub proof fn lemma_network_round_trip(x: u16, y: u32)
    ensures
        network16(network16(x)) == x,
        network32(network32(y)) == y,
{
    lemma_swapped_twice(x, y);
}

/// A socket known by its descriptor alone.
#[derive(Debug, Clone)]
pub struct Socket {
    fd: i32,
}

impl Socket {
    /// The descriptor.
    pub closed spec fn spec_fileno(&self) -> i32 {
        self.fd
    }

    /// The socket of the descriptor `fd`.
    pub fn new_by_fd(fd: i32) -> (r: Socket)
        ensures
            r.spec_fileno() == fd,
    {
        Socket { fd: fd }
    }

    /// The descriptor.
    pub fn fileno(&self) -> (r: i32)
        ensures
            r == self.spec_fileno(),
    {
        self.fd
    }
}

} // verus!
