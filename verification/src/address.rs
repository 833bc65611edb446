//! Hardware addresses.

use vstd::prelude::*;

verus! {

/// A 48-bit hardware address.
#[derive(Debug, Clone, Copy, PartialEq, Eq, Hash)]
pub struct MacAddress {
    octets: [u8; 6],
}

impl View for MacAddress {
    type V = Seq<u8>;

    /// The six octets, in the order they are written.
    closed spec fn view(&self) -> Seq<u8> {
        self.octets@
    }
}

/// The octets that the `mac_address` crate reads out of a text, such as
/// `00:11:22:33:44:55`; `None` for a text that it does not take for an
/// address.
pub uninterp spec fn parsed_octets(text: Seq<char>) -> Option<Seq<u8>>;

/// `mac_address::MacAddress::from_str` and `bytes`: the octets read out of
/// the text, if it is taken for an address.
#[verifier::external_body]
fn parse_octets(text: &str) -> (octets: Option<[u8; 6]>)
    ensures
        octets is Some <==> parsed_octets(text@) is Some,
        octets matches Some(o) ==> parsed_octets(text@) == Some(o@),
{
    match text.parse::<mac_address::MacAddress>() {
        Ok(mac) => Some(mac.bytes()),
        Err(_) => None,
    }
}

/// The number that six octets spell, the first octet highest.
pub open spec fn octets_key(octets: Seq<u8>) -> nat
    recommends
        octets.len() == 6,
{
    (octets[0] as nat) * 0x100_0000_0000 + (octets[1] as nat) * 0x1_0000_0000 + (octets[2] as nat)
        * 0x100_0000 + (octets[3] as nat) * 0x1_0000 + (octets[4] as nat) * 0x100 + (
    octets[5] as nat)
}

/// Two numbers that agree have the same last digit to base 256 and the same
/// digits before it.
proof fn lemma_same_digits(hi: int, lo: int, other_hi: int, other_lo: int)
    requires
        0 <= lo < 256,
        0 <= other_lo < 256,
        hi * 256 + lo == other_hi * 256 + other_lo,
    ensures
        hi == other_hi,
        lo == other_lo,
{
}

impl MacAddress {
    /// The address as one number, by which collections find it.
    pub open spec fn spec_key(&self) -> nat {
        octets_key(self@)
    }

    /// The address with the given octets.
    pub fn new(bytes: [u8; 6]) -> (mac: MacAddress)
        ensures
            mac@ == bytes@,
    {
        MacAddress { octets: bytes }
    }

    /// The address that a text spells, if it spells one.
    pub fn parse(text: &str) -> (mac: Option<MacAddress>)
        ensures
            mac is Some <==> parsed_octets(text@) is Some,
            mac matches Some(m) ==> parsed_octets(text@) == Some(m@),
    {
        match parse_octets(text) {
            Some(octets) => Some(MacAddress::new(octets)),
            None => None,
        }
    }

    /// The six octets.
    pub fn bytes(&self) -> (bytes: [u8; 6])
        ensures
            bytes@ == self@,
    {
        self.octets
    }

    /// The address as one number, the first octet highest.
    pub fn key(&self) -> (key: u64)
        ensures
            key == self.spec_key(),
            key < 0x1_0000_0000_0000,
    {
        let o = &self.octets;
        (o[0] as u64) * 0x100_0000_0000 + (o[1] as u64) * 0x1_0000_0000 + (o[2] as u64) * 0x100_0000
            + (o[3] as u64) * 0x1_0000 + (o[4] as u64) * 0x100 + (o[5] as u64)
    }

    /// Two addresses with the same key have the same octets.
    pub proof fn lemma_key_injective(a: MacAddress, b: MacAddress)
        requires
            a.spec_key() == b.spec_key(),
        ensures
            a@ == b@,
    {
        let x = a@;
        let y = b@;
        assert(x.len() == 6 && y.len() == 6);
        let x4 = (((x[0] * 256 + x[1]) * 256 + x[2]) * 256 + x[3]) * 256 + x[4];
        let y4 = (((y[0] * 256 + y[1]) * 256 + y[2]) * 256 + y[3]) * 256 + y[4];
        assert(octets_key(x) == x4 * 256 + x[5]);
        assert(octets_key(y) == y4 * 256 + y[5]);
        lemma_same_digits(x4, x[5] as int, y4, y[5] as int);
        let x3 = ((x[0] * 256 + x[1]) * 256 + x[2]) * 256 + x[3];
        let y3 = ((y[0] * 256 + y[1]) * 256 + y[2]) * 256 + y[3];
        lemma_same_digits(x3, x[4] as int, y3, y[4] as int);
        let x2 = (x[0] * 256 + x[1]) * 256 + x[2];
        let y2 = (y[0] * 256 + y[1]) * 256 + y[2];
        lemma_same_digits(x2, x[3] as int, y2, y[3] as int);
        let x1 = x[0] * 256 + x[1];
        let y1 = y[0] * 256 + y[1];
        lemma_same_digits(x1, x[2] as int, y1, y[2] as int);
        lemma_same_digits(x[0] as int, x[1] as int, y[0] as int, y[1] as int);
        assert(x =~= y);
    }
}

} // verus!
