//! The two fields of the disc header that locate the file-system table (FST).
//! Both are 32-bit big-endian numbers at fixed positions.

use vstd::prelude::*;
use crate::error::Error;

verus! {

/// The number that the four bytes of `s` from position `at` on spell out, most
/// significant byte first.
pub open spec fn be_u32_at(s: Seq<u8>, at: int) -> int
    recommends
        0 <= at,
        at + 4 <= s.len(),
{
    s[at] * 0x100_0000 + s[at + 1] * 0x1_0000 + s[at + 2] * 0x100 + s[at + 3]
}

/// Reads the big-endian number at position `at` of `image`. Fails if the image
/// holds fewer than four bytes from there on.
pub fn read_be_u32(image: &[u8], at: usize) -> (r: Result<u32, Error>)
    ensures
        r is Ok <==> at + 4 <= image@.len(),
        r matches Ok(v) ==> v == be_u32_at(image@, at as int),
        r matches Err(e) ==> e == Error::Io,
{
    if image.len() < 4 || at > image.len() - 4 {
        return Err(Error::Io);
    }
    let b0: u32 = image[at] as u32;
    let b1: u32 = image[at + 1] as u32;
    let b2: u32 = image[at + 2] as u32;
    let b3: u32 = image[at + 3] as u32;
    Ok(b0 * 0x100_0000 + b1 * 0x1_0000 + b2 * 0x100 + b3)
}

/// https://www.gc-forever.com/yagcd/chap14.html#sec14.8.1
#[derive(Clone, Copy, Debug, PartialEq, Eq)]
pub struct GCMHeader {
    /// Offset to FST inside GCM
    pub fst_offset: u32,
    /// Size of FST
    pub fst_size: u32,
}

impl GCMHeader {
    pub const FST_OFFSET: u32 = 0x424;  // length = 0x4

    pub const FST_SIZE_OFFSET: u32 = 0x428;  // length = 0x4

    /// The image is long enough to hold both fields.
    pub open spec fn present(image: Seq<u8>) -> bool {
        Self::FST_OFFSET + 4 <= image.len() && Self::FST_SIZE_OFFSET + 4 <= image.len()
    }

    /// The header that the bytes of `image` spell out.
    pub open spec fn parsed(image: Seq<u8>) -> GCMHeader
        recommends
            Self::present(image),
    {
        GCMHeader {
            fst_offset: be_u32_at(image, Self::FST_OFFSET as int) as u32,
            fst_size: be_u32_at(image, Self::FST_SIZE_OFFSET as int) as u32,
        }
    }

    /// Reads the header of `image`. Fails if the image ends before the end of
    /// either field.
    pub fn new(image: &[u8]) -> (r: Result<GCMHeader, Error>)
        ensures
            r is Ok <==> Self::present(image@),
            r matches Ok(header) ==> {
                &&& header == Self::parsed(image@)
                &&& header.fst_offset == be_u32_at(image@, Self::FST_OFFSET as int)
                &&& header.fst_size == be_u32_at(image@, Self::FST_SIZE_OFFSET as int)
            },
            r matches Err(e) ==> e == Error::Io,
    {
        let fst_offset = match read_be_u32(image, Self::FST_OFFSET as usize) {
            Ok(v) => v,
            Err(e) => { return Err(e); },
        };
        let fst_size = match read_be_u32(image, Self::FST_SIZE_OFFSET as usize) {
            Ok(v) => v,
            Err(e) => { return Err(e); },
        };
        Ok(GCMHeader { fst_offset, fst_size })
    }
}

/// An entry of the file-system table. The table is located, not read, so an
/// entry holds nothing yet.
#[derive(Debug)]
pub struct FstEntry {}

} // verus!
