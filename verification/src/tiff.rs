//! The header of a baseline TIFF file: little-endian, uncompressed RGB,
//! eight bits per channel, one strip.
//!
//! The header is a fixed 168-byte prefix: the byte-order mark and magic
//! number, one image file directory of eleven fields, and the out-of-line
//! values (the three per-channel bit depths and the two resolution
//! rationals) that the directory points into.  The pixel strip begins
//! immediately after the header; [`lemma_pixel_data_follows_header`] states
//! that the recorded strip offset equals the header's length.  Writing the
//! bytes to a file is the caller's part.

use vstd::prelude::*;

verus! {

/// Directory tag: image width in pixels.
pub const TAG_IMAGE_WIDTH: u16 = 0x100;

/// Directory tag: image height in pixels.
pub const TAG_IMAGE_LENGTH: u16 = 0x101;

/// Directory tag: bits per channel.
pub const TAG_BITS_PER_SAMPLE: u16 = 0x102;

/// Directory tag: compression scheme.
pub const TAG_COMPRESSION: u16 = 0x103;

/// Directory tag: colour interpretation of the samples.
pub const TAG_PHOTOMETRIC_INTERPRETATION: u16 = 0x106;

/// Directory tag: byte offset of each pixel strip.
pub const TAG_STRIP_OFFSETS: u16 = 0x111;

/// Directory tag: channels per pixel.
pub const TAG_SAMPLES_PER_PIXEL: u16 = 0x115;

/// Directory tag: rows in each pixel strip.
pub const TAG_ROWS_PER_STRIP: u16 = 0x116;

/// Directory tag: length in bytes of each pixel strip.
pub const TAG_STRIP_BYTE_COUNTS: u16 = 0x117;

/// Directory tag: horizontal resolution.
pub const TAG_X_RESOLUTION: u16 = 0x11A;

/// Directory tag: vertical resolution.
pub const TAG_Y_RESOLUTION: u16 = 0x11B;

/// Field type: 16-bit unsigned integer.
pub const FIELD_TYPE_SHORT: u16 = 3;

/// Field type: 32-bit unsigned integer.
pub const FIELD_TYPE_LONG: u16 = 4;

/// Field type: unsigned fraction, two 32-bit words.
pub const FIELD_TYPE_RATIONAL: u16 = 5;

/// Fields in the image file directory.
pub const DIRECTORY_FIELDS: u16 = 11;

/// Byte offset of the first out-of-line value, the three per-channel bit
/// depths: the 8-byte file header, the field count, eleven 12-byte fields
/// and the 4-byte next-directory pointer come first.
pub const BITS_PER_SAMPLE_OFFSET: u32 = 8 + 2 + 11 * 12 + 4;

/// Byte offset of the horizontal-resolution rational.
pub const X_RESOLUTION_OFFSET: u32 = BITS_PER_SAMPLE_OFFSET + 6;

/// Byte offset of the vertical-resolution rational.
pub const Y_RESOLUTION_OFFSET: u32 = X_RESOLUTION_OFFSET + 8;

/// Length in bytes of the whole header; the pixel strip starts here.
pub const TIFF_HEADER_LEN: u32 = Y_RESOLUTION_OFFSET + 8;

/// Resolution recorded on both axes, in pixels per unit.
pub const RESOLUTION: u32 = 300;

/// The two bytes of `x`, least significant first.
pub open spec fn le16(x: u16) -> Seq<u8> {
    seq![(x & 0xFF) as u8, ((x >> 8) & 0xFF) as u8]
}

/// The four bytes of `x`, least significant first.
pub open spec fn le32(x: u32) -> Seq<u8> {
    seq![
        (x & 0xFF) as u8,
        ((x >> 8) & 0xFF) as u8,
        ((x >> 16) & 0xFF) as u8,
        ((x >> 24) & 0xFF) as u8,
    ]
}

/// One 12-byte directory field: tag, field type, value count, and the value
/// word (a small value left-justified in four bytes, or an offset to an
/// out-of-line value).
pub open spec fn ifd_entry(tag: u16, field_type: u16, count: u32, value: u32) -> Seq<u8> {
    le16(tag) + le16(field_type) + le32(count) + le32(value)
}

/// The whole header for a `width` by `height` image: byte-order mark "II"
/// and magic number 42, the directory offset, the directory itself, and the
/// out-of-line bit depths and resolutions.
pub open spec fn tiff_header_bytes(width: u32, height: u32) -> Seq<u8> {
    seq![0x49u8, 0x49u8, 42u8, 0u8, 8u8, 0u8, 0u8, 0u8, 11u8, 0u8]
        + ifd_entry(TAG_IMAGE_WIDTH, FIELD_TYPE_SHORT, 1, width)
        + ifd_entry(TAG_IMAGE_LENGTH, FIELD_TYPE_SHORT, 1, height)
        + ifd_entry(TAG_BITS_PER_SAMPLE, FIELD_TYPE_SHORT, 3, BITS_PER_SAMPLE_OFFSET)
        + ifd_entry(TAG_COMPRESSION, FIELD_TYPE_SHORT, 1, 1)
        + ifd_entry(TAG_PHOTOMETRIC_INTERPRETATION, FIELD_TYPE_SHORT, 1, 2)
        + ifd_entry(TAG_STRIP_OFFSETS, FIELD_TYPE_SHORT, 1, TIFF_HEADER_LEN)
        + ifd_entry(TAG_SAMPLES_PER_PIXEL, FIELD_TYPE_SHORT, 1, 3)
        + ifd_entry(TAG_ROWS_PER_STRIP, FIELD_TYPE_SHORT, 1, height)
        + ifd_entry(TAG_STRIP_BYTE_COUNTS, FIELD_TYPE_LONG, 1, (width * height * 3) as u32)
        + ifd_entry(TAG_X_RESOLUTION, FIELD_TYPE_RATIONAL, 1, X_RESOLUTION_OFFSET)
        + ifd_entry(TAG_Y_RESOLUTION, FIELD_TYPE_RATIONAL, 1, Y_RESOLUTION_OFFSET)
        + seq![0u8, 0u8, 0u8, 0u8]
        + seq![8u8, 0u8, 8u8, 0u8, 8u8, 0u8]
        + le32(RESOLUTION) + seq![1u8, 0u8, 0u8, 0u8]
        + le32(RESOLUTION) + seq![1u8, 0u8, 0u8, 0u8]
}

/// Append one byte.
fn push_byte(buf: &mut Vec<u8>, byte: u8)
    ensures
        final(buf)@ == old(buf)@ + seq![byte],
{
    buf.push(byte);
    proof {
        assert(buf@ =~= old(buf)@ + seq![byte]);
    }
}

/// Append the two bytes of `x`, least significant first.
fn push_le16(buf: &mut Vec<u8>, x: u16)
    ensures
        final(buf)@ == old(buf)@ + le16(x),
{
    proof {
        assert(x & 0xFF < 256 && (x >> 8) & 0xFF < 256) by (bit_vector);
    }
    buf.push((x & 0xFF) as u8);
    buf.push(((x >> 8) & 0xFF) as u8);
    proof {
        assert(buf@ =~= old(buf)@ + le16(x));
    }
}

/// Append the four bytes of `x`, least significant first.
fn push_le32(buf: &mut Vec<u8>, x: u32)
    ensures
        final(buf)@ == old(buf)@ + le32(x),
{
    proof {
        assert(x & 0xFF < 256 && (x >> 8) & 0xFF < 256 && (x >> 16) & 0xFF < 256 && (x >> 24)
            & 0xFF < 256) by (bit_vector);
    }
    buf.push((x & 0xFF) as u8);
    buf.push(((x >> 8) & 0xFF) as u8);
    buf.push(((x >> 16) & 0xFF) as u8);
    buf.push(((x >> 24) & 0xFF) as u8);
    proof {
        assert(buf@ =~= old(buf)@ + le32(x));
    }
}

/// Append one 12-byte directory field.
pub fn push_field(buf: &mut Vec<u8>, tag: u16, field_type: u16, count: u32, value: u32)
    ensures
        final(buf)@ == old(buf)@ + ifd_entry(tag, field_type, count, value),
{
    push_le16(buf, tag);
    push_le16(buf, field_type);
    push_le32(buf, count);
    push_le32(buf, value);
    proof {
        assert(buf@ =~= old(buf)@ + ifd_entry(tag, field_type, count, value));
    }
}

/// The header bytes for a `width` by `height` image whose strip of
/// `width * height * 3` pixel bytes fits a 32-bit length field.
pub fn tiff_header(width: u32, height: u32) -> (r: Vec<u8>)
    requires
        width * height * 3 <= u32::MAX,
    ensures
        r@ == tiff_header_bytes(width, height),
        r@.len() == TIFF_HEADER_LEN,
{
    let mut buf: Vec<u8> = Vec::new();
    push_byte(&mut buf, 0x49);  // "II": little-endian byte order
    push_byte(&mut buf, 0x49);
    push_byte(&mut buf, 42);
    push_byte(&mut buf, 0);
    push_byte(&mut buf, 8);  // the directory starts right after this offset
    push_byte(&mut buf, 0);
    push_byte(&mut buf, 0);
    push_byte(&mut buf, 0);
    push_byte(&mut buf, 11);
    push_byte(&mut buf, 0);
    proof {
        assert(buf@ =~= seq![0x49u8, 0x49u8, 42u8, 0u8, 8u8, 0u8, 0u8, 0u8, 11u8, 0u8]);
    }
    let strip_bytes: u32 = width * height * 3;
    push_field(&mut buf, TAG_IMAGE_WIDTH, FIELD_TYPE_SHORT, 1, width);
    push_field(&mut buf, TAG_IMAGE_LENGTH, FIELD_TYPE_SHORT, 1, height);
    push_field(&mut buf, TAG_BITS_PER_SAMPLE, FIELD_TYPE_SHORT, 3, BITS_PER_SAMPLE_OFFSET);
    push_field(&mut buf, TAG_COMPRESSION, FIELD_TYPE_SHORT, 1, 1);
    push_field(&mut buf, TAG_PHOTOMETRIC_INTERPRETATION, FIELD_TYPE_SHORT, 1, 2);
    push_field(&mut buf, TAG_STRIP_OFFSETS, FIELD_TYPE_SHORT, 1, TIFF_HEADER_LEN);
    push_field(&mut buf, TAG_SAMPLES_PER_PIXEL, FIELD_TYPE_SHORT, 1, 3);
    push_field(&mut buf, TAG_ROWS_PER_STRIP, FIELD_TYPE_SHORT, 1, height);
    push_field(&mut buf, TAG_STRIP_BYTE_COUNTS, FIELD_TYPE_LONG, 1, strip_bytes);
    push_field(&mut buf, TAG_X_RESOLUTION, FIELD_TYPE_RATIONAL, 1, X_RESOLUTION_OFFSET);
    push_field(&mut buf, TAG_Y_RESOLUTION, FIELD_TYPE_RATIONAL, 1, Y_RESOLUTION_OFFSET);
    push_byte(&mut buf, 0);  // no further directory
    push_byte(&mut buf, 0);
    push_byte(&mut buf, 0);
    push_byte(&mut buf, 0);
    push_byte(&mut buf, 8);  // eight bits for each of the three channels
    push_byte(&mut buf, 0);
    push_byte(&mut buf, 8);
    push_byte(&mut buf, 0);
    push_byte(&mut buf, 8);
    push_byte(&mut buf, 0);
    push_le32(&mut buf, RESOLUTION);
    push_byte(&mut buf, 1);  // denominator of the resolution fraction
    push_byte(&mut buf, 0);
    push_byte(&mut buf, 0);
    push_byte(&mut buf, 0);
    push_le32(&mut buf, RESOLUTION);
    push_byte(&mut buf, 1);
    push_byte(&mut buf, 0);
    push_byte(&mut buf, 0);
    push_byte(&mut buf, 0);
    proof {
        assert(buf@ =~= tiff_header_bytes(width, height));
    }
    buf
}

/// The strip offset recorded in the directory equals the header's length:
/// the pixel data follows the header immediately.
pub proof fn lemma_pixel_data_follows_header(width: u32, height: u32)
    ensures
        tiff_header_bytes(width, height).len() == TIFF_HEADER_LEN,
{
}

} // verus!
