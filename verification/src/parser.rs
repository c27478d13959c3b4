//! The format of a cartridge image.

use vstd::prelude::*;

verus! {

/// Why a cartridge image cannot be loaded.
#[derive(Clone, Copy, Debug, PartialEq, Eq, Structural)]
pub enum FormatError {
    /// The image does not begin with the four signature bytes.
    Signature,
    /// The image ends before the header or the pages it announces do.
    Truncated,
    /// The pattern data is no whole number of tiles, or more than the
    /// pattern table holds.
    PatternSize,
}

/// Bytes of the header; the pages follow it.
pub const HEADER_SIZE: usize = 16;

/// Bytes of a page of program memory.
pub const PRG_SIZE: usize = 0x4000;

/// Bytes of a page of pattern data.
pub const CHR_SIZE: usize = 0x2000;

/// The signature that a cartridge image begins with.
pub open spec fn signature() -> Seq<u8> {
    seq![0x4Eu8, 0x45u8, 0x53u8, 0x1Au8]
}

/// One of the bytes present where the signature stands differs from it.
pub open spec fn signature_broken(bytes: Seq<u8>) -> bool {
    exists|i: int| 0 <= i < 4 && i < bytes.len() && bytes[i] != signature()[i]
}

/// Where the program pages end, in an image that holds its whole header.
pub open spec fn program_end(bytes: Seq<u8>) -> int {
    HEADER_SIZE + PRG_SIZE * bytes[4]
}

/// Where the pattern pages end, in an image that holds its whole header.
pub open spec fn pattern_end(bytes: Seq<u8>) -> int {
    program_end(bytes) + CHR_SIZE * bytes[5]
}

/// What a cartridge image holds: program memory, pattern data and the flags
/// byte. Byte 4 of the header counts the program pages, byte 5 the pattern
/// pages, and byte 6 holds the flags.
pub open spec fn image(bytes: Seq<u8>) -> Result<(Seq<u8>, Seq<u8>, u8), FormatError> {
    if signature_broken(bytes) {
        Err(FormatError::Signature)
    } else if bytes.len() < HEADER_SIZE || bytes.len() < pattern_end(bytes) {
        Err(FormatError::Truncated)
    } else {
        Ok(
            (
                bytes.subrange(HEADER_SIZE as int, program_end(bytes)),
                bytes.subrange(program_end(bytes), pattern_end(bytes)),
                bytes[6],
            ),
        )
    }
}

/// Copies the bytes from `from` up to `to`.
fn copy_range(bytes: &[u8], from: usize, to: usize) -> (v: Vec<u8>)
    requires
        from <= to <= bytes@.len(),
    ensures
        v@ == bytes@.subrange(from as int, to as int),
{
    let mut v: Vec<u8> = Vec::new();
    let mut i: usize = from;
    while i < to
        invariant
            from <= i <= to <= bytes@.len(),
            v@ == bytes@.subrange(from as int, i as int),
        decreases to - i,
    {
        v.push(bytes[i]);
        i += 1;
    }
    v
}

/// Takes a cartridge image apart into program memory, pattern data and the
/// flags byte.
pub fn parser(bytes: &[u8]) -> (r: Result<(Vec<u8>, Vec<u8>, u8), FormatError>)
    ensures
        match r {
            Ok((prg, chr, flags)) => image(bytes@) == Ok::<(Seq<u8>, Seq<u8>, u8), FormatError>(
                (prg@, chr@, flags),
            ),
            Err(e) => image(bytes@) == Err::<(Seq<u8>, Seq<u8>, u8), FormatError>(e),
        },
{
    let verify: [u8; 4] = [0x4E, 0x45, 0x53, 0x1A];
    let mut i: usize = 0;
    while i < 4 && i < bytes.len()
        invariant
            i <= 4,
            i <= bytes@.len(),
            verify@ == signature(),
            forall|j: int| 0 <= j < i ==> bytes@[j] == signature()[j],
        decreases 4 - i,
    {
        if bytes[i] != verify[i] {
            return Err(FormatError::Signature);
        }
        i += 1;
    }
    if bytes.len() < HEADER_SIZE {
        return Err(FormatError::Truncated);
    }
    let prg_pages: usize = PRG_SIZE * (bytes[4] as usize);
    let chr_pages: usize = CHR_SIZE * (bytes[5] as usize);
    let flag6 = bytes[6];
    let prg_end: usize = HEADER_SIZE + prg_pages;
    let chr_end: usize = prg_end + chr_pages;
    if bytes.len() < chr_end {
        return Err(FormatError::Truncated);
    }
    let prg = copy_range(bytes, HEADER_SIZE, prg_end);
    let chr = copy_range(bytes, prg_end, chr_end);
    Ok((prg, chr, flag6))
}

/// An image that loads gives back whole pages: as many bytes of program
/// memory and of pattern data as its header announces.
pub proof fn lemma_image_sizes(bytes: Seq<u8>)
    ensures
        image(bytes) matches Ok(parts) ==> parts.0.len() == PRG_SIZE * bytes[4] && parts.1.len()
            == CHR_SIZE * bytes[5] && parts.2 == bytes[6],
{
}

} // verus!
