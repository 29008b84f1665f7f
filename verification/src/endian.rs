//! Byte order.
use vstd::prelude::*;
use crate::codec::{be_value, decode_unsigned, le_value, lemma_be_value_bound, lemma_pow256_values};
use crate::error::{BinResult, Error, ErrorView};
use crate::io::{Cursor, IoError, Stream};
use crate::options::ReadOptions;

verus! {

/// The order in which the bytes of a number stand in the stream.
#[derive(Clone, Copy, Debug, PartialEq, Eq, Structural)]
pub enum Endian {
    /// Most significant byte first.
    Big,
    /// Least significant byte first.
    Little,
    /// The order of the machine that runs the read.
    Native,
}

pub use Endian::Big as BE;
pub use Endian::Little as LE;
pub use Endian::Native as NE;

impl Endian {
    /// The byte order that a mark read as a big-endian number stands for.
    pub open spec fn be_bom_spec(bom: u16) -> Option<Endian> {
        if bom == 0xFEFF {
            Some(Endian::Big)
        } else if bom == 0xFFFE {
            Some(Endian::Little)
        } else {
            None
        }
    }

    /// The byte order that a mark read as a little-endian number stands for.
    pub open spec fn le_bom_spec(bom: u16) -> Option<Endian> {
        if bom == 0xFEFF {
            Some(Endian::Little)
        } else if bom == 0xFFFE {
            Some(Endian::Big)
        } else {
            None
        }
    }

    /// Tells the byte order from a byte order mark that was read as a big-endian number.
    pub fn from_be_bom(bom: u16) -> (r: Option<Endian>)
        ensures
            r == Self::be_bom_spec(bom),
    {
        if bom == 0xFEFF {
            Some(Endian::Big)
        } else if bom == 0xFFFE {
            Some(Endian::Little)
        } else {
            None
        }
    }

    /// Tells the byte order from a byte order mark that was read as a little-endian number.
    pub fn from_le_bom(bom: u16) -> (r: Option<Endian>)
        ensures
            r == Self::le_bom_spec(bom),
    {
        if bom == 0xFEFF {
            Some(Endian::Little)
        } else if bom == 0xFFFE {
            Some(Endian::Big)
        } else {
            None
        }
    }

    /// The byte order that the byte order mark at the position of a stream
    /// stands for, with the mark taken as a big-endian number of two bytes.
    /// Two other bytes are a bad magic.
    pub open spec fn bom_spec(stream: Stream) -> Result<(Endian, u64), ErrorView> {
        match stream.take(2) {
            None => Err(ErrorView::Io(IoError::UnexpectedEof)),
            Some(bytes) => match Self::be_bom_spec(be_value(bytes) as u16) {
                Some(endian) => Ok((endian, stream.skip(2).pos)),
                None => Err(ErrorView::BadMagic { pos: stream.pos, found: bytes }),
            },
        }
    }

    /// Reads a byte order mark of two bytes and tells the byte order from it.
    /// The context has no say: the mark is taken as a big-endian number, and
    /// what comes back depends on the stream alone. Where fewer than two
    /// bytes are left the stream stays where it stood; else it ends behind
    /// the two bytes, whether they are a mark or not.
    pub fn parse_bom(reader: &mut Cursor, _options: &ReadOptions, _args: &()) -> (r: BinResult<
        Endian,
    >)
        ensures
            match Self::bom_spec(old(reader)@) {
                Ok((endian, end)) => r is Ok && r->Ok_0 == endian,
                Err(e) => r is Err && r->Err_0@ == e,
            },
            final(reader)@ == (if old(reader)@.take(2) is Some {
                old(reader)@.skip(2)
            } else {
                old(reader)@
            }),
    {
        let pos: u64 = reader.position();
        let bytes: Vec<u8> = match reader.read_exact(2) {
            Ok(b) => b,
            Err(e) => {
                return Err(Error::Io(e));
            },
        };
        proof {
            lemma_be_value_bound(bytes@);
            lemma_pow256_values();
        }
        let bom: u16 = decode_unsigned(bytes.as_slice(), true) as u16;
        match Endian::from_be_bom(bom) {
            Some(endian) => Ok(endian),
            None => Err(Error::BadMagic { pos, found: bytes }),
        }
    }

    /// Whether numbers are read most significant byte first under this order,
    /// on a machine whose own order is little-endian if `native_little`.
    pub open spec fn is_big(self, native_little: bool) -> bool {
        match self {
            Endian::Big => true,
            Endian::Little => false,
            Endian::Native => !native_little,
        }
    }

    /// The name of the order.
    pub fn name(&self) -> (r: &'static str)
        ensures
            r@ == self.name_spec(),
    {
        match self {
            Endian::Big => "Big",
            Endian::Little => "Little",
            Endian::Native => "Native",
        }
    }

    /// The name of the order, as contracts see it.
    pub open spec fn name_spec(self) -> Seq<char> {
        match self {
            Endian::Big => "Big"@,
            Endian::Little => "Little"@,
            Endian::Native => "Native"@,
        }
    }
}

impl Default for Endian {
    fn default() -> (r: Endian)
        ensures
            r == Endian::Native,
    {
        Endian::Native
    }
}

/// `u16::from_ne_bytes`: the number that two bytes stand for in the byte order
/// of the machine. Which of the two orders that is, the call does not say.
#[verifier::external_body]
fn u16_from_ne_bytes(bytes: [u8; 2]) -> (r: u16)
    ensures
        r == be_value(bytes@) || r == le_value(bytes@),
{
    u16::from_ne_bytes(bytes)
}

/// Asks the machine for its byte order: true where it is little-endian.
pub(crate) fn native_is_little() -> bool {
    let probe: [u8; 2] = [1, 0];
    is_little_reading(probe, u16_from_ne_bytes(probe))
}

/// Whether `native`, the number that a machine takes two bytes for, is their
/// little-endian reading.
pub fn is_little_reading(bytes: [u8; 2], native: u16) -> (r: bool)
    ensures
        r == (native == le_value(bytes@)),
{
    proof {
        let reversed = bytes@.reverse();
        assert(reversed.len() == 2);
        assert(reversed.last() == bytes@[0]);
        assert(reversed.drop_last() == seq![bytes@[1]]);
        assert(reversed.drop_last().drop_last() == Seq::<u8>::empty());
        reveal_with_fuel(be_value, 3);
        assert(le_value(bytes@) == bytes@[1] as nat * 256 + bytes@[0] as nat);
    }
    let low: u16 = bytes[0] as u16;
    let high: u16 = bytes[1] as u16;
    native == high * 256 + low
}

} // verus!
