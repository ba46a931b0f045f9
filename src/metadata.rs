//! The calling contract of metadata codecs.
use vstd::prelude::*;

use crate::error::MetadataError;

verus! {

/// A value that can be stored as the metadata of a row.
///
/// A codec is correct when what `encode` writes, `decode` reads back as the
/// same value.
pub trait MetadataRoundtrip: Sized {
    /// The value that `bytes` decode to, if they decode at all.
    spec fn decoded(bytes: Seq<u8>) -> Option<Self>;

    fn encode(&self) -> (r: Result<Vec<u8>, MetadataError>)
        ensures
            r matches Ok(bytes) ==> Self::decoded(bytes@) == Some(*self),
    ;

    fn decode(bytes: &[u8]) -> (r: Result<Self, MetadataError>)
        ensures
            match Self::decoded(bytes@) {
                Some(v) => r matches Ok(w) && w == v,
                None => r is Err,
            },
    ;
}

/// The four bytes of a `u32`, least significant first.
pub open spec fn le_word(bytes: Seq<u8>) -> u32
    recommends
        bytes.len() == 4,
{
    (bytes[0] as u32) | ((bytes[1] as u32) << 8u32) | ((bytes[2] as u32) << 16u32) | ((
    bytes[3] as u32) << 24u32)
}

/// A `u32` is stored as its four bytes, least significant first.
impl MetadataRoundtrip for u32 {
    open spec fn decoded(bytes: Seq<u8>) -> Option<u32> {
        if bytes.len() == 4 {
            Some(le_word(bytes))
        } else {
            None
        }
    }

    fn encode(&self) -> (r: Result<Vec<u8>, MetadataError>) {
        let x: u32 = *self;
        let b0: u8 = (x & 0xff) as u8;
        let b1: u8 = ((x >> 8u32) & 0xff) as u8;
        let b2: u8 = ((x >> 16u32) & 0xff) as u8;
        let b3: u8 = ((x >> 24u32) & 0xff) as u8;
        let bytes: Vec<u8> = vec![b0, b1, b2, b3];
        assert(((b0 as u32) | ((b1 as u32) << 8u32) | ((b2 as u32) << 16u32) | ((b3 as u32)
            << 24u32)) == x) by (bit_vector)
            requires
                b0 == (x & 0xff) as u8,
                b1 == ((x >> 8u32) & 0xff) as u8,
                b2 == ((x >> 16u32) & 0xff) as u8,
                b3 == ((x >> 24u32) & 0xff) as u8,
        ;
        Ok(bytes)
    }

    fn decode(bytes: &[u8]) -> (r: Result<u32, MetadataError>) {
        if bytes.len() != 4 {
            return Err(
                MetadataError::RoundtripError { value: String::from_str("expected four bytes") },
            );
        }
        let w: u32 = (bytes[0] as u32) | ((bytes[1] as u32) << 8u32) | ((bytes[2] as u32)
            << 16u32) | ((bytes[3] as u32) << 24u32);
        Ok(w)
    }
}

} // verus!
