//! The footer: the fixed-size record that closes a JPNG file.

use crate::decimal::{decimal, push_decimal};
use crate::error::JpngError;
use crate::le::{
    le_u16, le_u32, lemma_bytes_of_le_u16, lemma_bytes_of_le_u32, lemma_le_u16_of_bytes,
    lemma_le_u32_of_bytes, push_u16_le, push_u32_le, read_u16_le, read_u32_le, u16_le, u32_le,
};
use std::ops::Range;
use vstd::prelude::*;

verus! {

/// The magic number of the format: the ASCII letters "JPNG".
pub const JPNG_IDENTIFIER: u32 = 0x4A50_4E47;

/// The number of bytes a footer takes in a file.
pub const FOOTER_SIZE: usize = 16;

/// The record at the end of a JPNG file.
///
/// On disk it is 16 bytes, every integer little-endian, in the order of the
/// fields below.
#[derive(Copy, Clone, Debug)]
pub struct JpngFooter {
    /// Length in bytes of the base image, which opens the file.
    pub image_size: u32,
    /// Length in bytes of the mask, which follows the base image.
    pub mask_size: u32,
    /// The footer's own length as the file states it.
    pub footer_size: u16,
    pub major_version: u8,
    pub minor_version: u8,
    /// The magic number as the file states it.
    pub identifier: u32,
}

impl JpngFooter {
    /// Whether the footer carries the format's magic number.
    pub open spec fn is_valid(self) -> bool {
        self.identifier == JPNG_IDENTIFIER
    }

    /// The fields that 16 bytes spell, whatever they are.
    pub open spec fn decode(data: Seq<u8>) -> JpngFooter
        recommends
            data.len() == FOOTER_SIZE,
    {
        JpngFooter {
            image_size: le_u32(data.subrange(0, 4)),
            mask_size: le_u32(data.subrange(4, 8)),
            footer_size: le_u16(data.subrange(8, 10)),
            major_version: data[10],
            minor_version: data[11],
            identifier: le_u32(data.subrange(12, 16)),
        }
    }

    /// What parsing `data` gives: the footer, or the reason there is none.
    pub open spec fn parse(data: Seq<u8>) -> Result<JpngFooter, JpngError> {
        if data.len() != FOOTER_SIZE {
            Err(JpngError::InvalidFooterLen)
        } else if Self::decode(data).identifier != JPNG_IDENTIFIER {
            Err(JpngError::InvalidImage)
        } else {
            Ok(Self::decode(data))
        }
    }

    /// The 16 bytes that spell this footer.
    pub open spec fn encode(self) -> Seq<u8> {
        u32_le(self.image_size) + u32_le(self.mask_size) + u16_le(self.footer_size)
            + seq![self.major_version, self.minor_version] + u32_le(self.identifier)
    }

    /// Parses a footer from exactly [`FOOTER_SIZE`] bytes.
    pub fn new(data: &[u8]) -> (r: Result<Self, JpngError>)
        ensures
            r == Self::parse(data@),
            data@.len() != FOOTER_SIZE ==> r == Err::<Self, JpngError>(JpngError::InvalidFooterLen),
            data@.len() == FOOTER_SIZE && le_u32(data@.subrange(12, 16)) != JPNG_IDENTIFIER
                ==> r == Err::<Self, JpngError>(JpngError::InvalidImage),
            r matches Ok(footer) ==> footer.is_valid(),
    {
        if data.len() != FOOTER_SIZE {
            return Err(JpngError::InvalidFooterLen);
        }
        let footer = JpngFooter {
            image_size: read_u32_le(vstd::slice::slice_subrange(data, 0, 4)),
            mask_size: read_u32_le(vstd::slice::slice_subrange(data, 4, 8)),
            footer_size: read_u16_le(vstd::slice::slice_subrange(data, 8, 10)),
            major_version: data[10],
            minor_version: data[11],
            identifier: read_u32_le(vstd::slice::slice_subrange(data, 12, 16)),
        };
        if footer.identifier != JPNG_IDENTIFIER {
            return Err(JpngError::InvalidImage);
        }
        Ok(footer)
    }

    /// Writes the footer out as the [`FOOTER_SIZE`] bytes that close a file.
    pub fn to_bytes(&self) -> (out: Vec<u8>)
        ensures
            out@ == self.encode(),
            out@.len() == FOOTER_SIZE,
    {
        let mut out: Vec<u8> = Vec::new();
        push_u32_le(&mut out, self.image_size);
        push_u32_le(&mut out, self.mask_size);
        push_u16_le(&mut out, self.footer_size);
        out.push(self.major_version);
        out.push(self.minor_version);
        push_u32_le(&mut out, self.identifier);
        assert(out@ =~= self.encode());
        out
    }

    /// The footer of a file that is yet to be written: version 1.0, the
    /// magic number in place, and both sizes still zero.
    pub fn default() -> (footer: Self)
        ensures
            footer == (JpngFooter {
                image_size: 0,
                mask_size: 0,
                footer_size: FOOTER_SIZE as u16,
                major_version: 1,
                minor_version: 0,
                identifier: JPNG_IDENTIFIER,
            }),
            footer.is_valid(),
    {
        JpngFooter {
            image_size: 0,
            mask_size: 0,
            footer_size: FOOTER_SIZE as u16,
            major_version: 1,
            minor_version: 0,
            identifier: JPNG_IDENTIFIER,
        }
    }

    /// The version as text: major and minor in decimal with a dot between.
    pub open spec fn version_text(self) -> Seq<char> {
        decimal(self.major_version as nat) + seq!['.'] + decimal(self.minor_version as nat)
    }

    /// The format version that the footer declares, such as "1.0".
    pub fn version(&self) -> (text: String)
        ensures
            text@ == self.version_text(),
    {
        let mut text = String::new();
        push_decimal(&mut text, self.major_version);
        proof {
            reveal_strlit(".");
        }
        text.append(".");
        push_decimal(&mut text, self.minor_version);
        assert(text@ =~= self.version_text());
        text
    }

    /// Where the base image lies in the file: the first `image_size` bytes.
    pub fn image_range(&self) -> (range: Range<usize>)
        ensures
            range.start == 0,
            range.end == self.image_size,
    {
        Range { start: 0, end: self.image_size as usize }
    }

    /// Where the mask lies in the file: the `mask_size` bytes that follow the
    /// base image.
    ///
    /// The end of the range has to fit in a `usize`; where that is 64 bits
    /// wide, it does for every footer.
    pub fn mask_range(&self) -> (range: Range<usize>)
        requires
            self.image_size + self.mask_size <= usize::MAX,
        ensures
            range.start == self.image_size,
            range.end == self.image_size + self.mask_size,
    {
        Range {
            start: self.image_size as usize,
            end: self.image_size as usize + self.mask_size as usize,
        }
    }
}

/// A footer with the magic number in place survives being written out and
/// parsed again, field for field.
pub proof fn lemma_parse_encode(footer: JpngFooter)
    requires
        footer.is_valid(),
    ensures
        footer.encode().len() == FOOTER_SIZE,
        JpngFooter::parse(footer.encode()) == Ok::<JpngFooter, JpngError>(footer),
{
    let bytes = footer.encode();
    assert(bytes.subrange(0, 4) =~= u32_le(footer.image_size));
    assert(bytes.subrange(4, 8) =~= u32_le(footer.mask_size));
    assert(bytes.subrange(8, 10) =~= u16_le(footer.footer_size));
    assert(bytes.subrange(12, 16) =~= u32_le(footer.identifier));
    lemma_le_u32_of_bytes(footer.image_size);
    lemma_le_u32_of_bytes(footer.mask_size);
    lemma_le_u16_of_bytes(footer.footer_size);
    lemma_le_u32_of_bytes(footer.identifier);
}

/// The bytes that parse to a footer are the bytes that the footer is written
/// out as: no two buffers spell the same footer.
pub proof fn lemma_encode_parse(data: Seq<u8>, footer: JpngFooter)
    requires
        JpngFooter::parse(data) == Ok::<JpngFooter, JpngError>(footer),
    ensures
        footer.encode() == data,
{
    lemma_bytes_of_le_u32(data.subrange(0, 4));
    lemma_bytes_of_le_u32(data.subrange(4, 8));
    lemma_bytes_of_le_u16(data.subrange(8, 10));
    lemma_bytes_of_le_u32(data.subrange(12, 16));
    assert(footer.encode() =~= data);
}

} // verus!
