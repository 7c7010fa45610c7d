//! Codec for Flash projector bundles: a container file laid out as
//! `[EXE bytes][SWF bytes][4-byte magic signature][4-byte little-endian SWF size]`.
//! The codec detects bundles, reads the recorded movie size, extracts either
//! segment, and builds new bundles. It is pure: all operations work on
//! in-memory byte buffers and perform no I/O.
use vstd::prelude::*;

verus! {

use vstd::arithmetic::div_mod::{lemma_breakdown, lemma_small_mod};

/// The trailer's magic signature, as the byte sequence stored in the file.
pub open spec fn spec_signature() -> Seq<u8> {
    seq![86u8, 52u8, 18u8, 250u8]
}

/// A buffer is a bundle when it is long enough to hold the 8-byte trailer
/// and the 4 bytes at `len - 8` are the magic signature.
pub open spec fn spec_is_bundle(s: Seq<u8>) -> bool {
    &&& s.len() >= 8
    &&& s[s.len() - 8] == 86u8
    &&& s[s.len() - 7] == 52u8
    &&& s[s.len() - 6] == 18u8
    &&& s[s.len() - 5] == 250u8
}

/// The value of four bytes read as a little-endian unsigned 32-bit integer.
pub open spec fn spec_le32(b0: u8, b1: u8, b2: u8, b3: u8) -> int {
    b0 + b1 * 0x100 + b2 * 0x10000 + b3 * 0x1000000
}

/// The SWF size recorded in a bundle's trailer: its final four bytes read
/// little-endian.
pub open spec fn spec_trailer_size(s: Seq<u8>) -> int
    recommends
        s.len() >= 4,
{
    spec_le32(s[s.len() - 4], s[s.len() - 3], s[s.len() - 2], s[s.len() - 1])
}

/// Check whether the buffer is a bundled SWF/EXE, i.e. carries the magic
/// signature where the trailer puts it. A buffer shorter than the trailer
/// is never a bundle.
pub fn buf_is_bundle(buf: &Vec<u8>) -> (r: bool)
    ensures
        r == spec_is_bundle(buf@),
{
    if buf.len() < 8 {
        return false;
    }
    let n: usize = buf.len();
    buf[n - 8] == 86 && buf[n - 7] == 52 && buf[n - 6] == 18 && buf[n - 5] == 250
}

/// If the buffer is a bundle, return the size of the embedded SWF file in
/// bytes, as its trailer records it; else return `None`. The recorded size is
/// not checked against the buffer's actual length: that is the extraction
/// operations' concern.
pub fn swf_size_from_buf(buf: &Vec<u8>) -> (r: Option<u32>)
    ensures
        spec_is_bundle(buf@) ==> r == Some(spec_trailer_size(buf@) as u32),
        !spec_is_bundle(buf@) ==> r is None,
{
    if !buf_is_bundle(buf) {
        return None;
    }
    let n: usize = buf.len();
    let size: u32 = buf[n - 4] as u32 + (buf[n - 3] as u32) * 0x100 + (buf[n - 2] as u32)
        * 0x10000 + (buf[n - 1] as u32) * 0x1000000;
    Some(size)
}

/// Failures the codec reports instead of reading out of bounds or truncating.
/// A buffer that is not a bundle at all is signalled by `None` from
/// `swf_size_from_buf`, not by a variant here.
#[derive(Clone, Copy, Debug, PartialEq, Eq)]
pub enum BundleError {
    /// The buffer is too short to hold the trailer plus the claimed SWF size.
    BufferTooShort,
    /// The SWF payload is too large for the 32-bit size field of the trailer.
    SizeOverflow,
}

/// The SWF segment of a bundle: the `size` bytes just before the 8-byte
/// trailer.
pub open spec fn spec_swf_segment(s: Seq<u8>, size: int) -> Seq<u8>
    recommends
        0 <= size,
        size + 8 <= s.len(),
{
    s.subrange(s.len() - 8 - size, s.len() - 8)
}

/// The EXE segment of a bundle: everything before the SWF segment.
pub open spec fn spec_exe_segment(s: Seq<u8>, size: int) -> Seq<u8>
    recommends
        0 <= size,
        size + 8 <= s.len(),
{
    s.subrange(0, s.len() - 8 - size)
}

/// Return a copy of the SWF segment of the bundle `buf`, given the size of
/// the SWF file (obtained with `swf_size_from_buf`). Fails when the buffer
/// cannot hold `size` bytes plus the trailer.
pub fn swf_bytes_from_buf(buf: &Vec<u8>, size: &u32) -> (r: Result<Vec<u8>, BundleError>)
    ensures
        *size + 8 <= buf@.len() ==> (r matches Ok(v) && v@ == spec_swf_segment(buf@, *size as int)),
        *size + 8 > buf@.len() ==> r == Err::<Vec<u8>, BundleError>(BundleError::BufferTooShort),
{
    let length: usize = buf.len();
    if length < 8 || length - 8 < *size as usize {
        return Err(BundleError::BufferTooShort);
    }
    let start: usize = length - 8 - *size as usize;
    let seg: &[u8] = vstd::slice::slice_subrange(buf.as_slice(), start, length - 8);
    Ok(vstd::slice::slice_to_vec(seg))
}

/// Return a copy of the EXE segment (the standalone projector) of the bundle
/// `buf`, given the size of the SWF file. Fails when the buffer cannot hold
/// `size` bytes plus the trailer.
pub fn exe_bytes_from_buf(buf: &Vec<u8>, size: &u32) -> (r: Result<Vec<u8>, BundleError>)
    ensures
        *size + 8 <= buf@.len() ==> (r matches Ok(v) && v@ == spec_exe_segment(buf@, *size as int)),
        *size + 8 > buf@.len() ==> r == Err::<Vec<u8>, BundleError>(BundleError::BufferTooShort),
{
    let length: usize = buf.len();
    if length < 8 || length - 8 < *size as usize {
        return Err(BundleError::BufferTooShort);
    }
    let seg: &[u8] = vstd::slice::slice_subrange(buf.as_slice(), 0, length - 8 - *size as usize);
    Ok(vstd::slice::slice_to_vec(seg))
}

/// The four little-endian bytes of an unsigned 32-bit value.
pub open spec fn spec_le_bytes(n: int) -> Seq<u8>
    recommends
        0 <= n <= u32::MAX,
{
    seq![
        (n % 0x100) as u8,
        ((n / 0x100) % 0x100) as u8,
        ((n / 0x10000) % 0x100) as u8,
        ((n / 0x1000000) % 0x100) as u8,
    ]
}

/// The bundle built from a movie and an executable: the executable's bytes,
/// then the movie's, then the trailer (magic signature and little-endian
/// movie size).
pub open spec fn spec_bundle(swf: Seq<u8>, exe: Seq<u8>) -> Seq<u8>
    recommends
        swf.len() <= u32::MAX,
{
    exe + swf + spec_signature() + spec_le_bytes(swf.len() as int)
}

/// Bundle the bytes of a SWF file together with the bytes of a standalone
/// executable. Both input buffers are consumed: on success the SWF buffer is
/// left empty and the EXE buffer holds the whole bundle, of which a fresh
/// copy is returned. Fails, leaving both buffers untouched, when the SWF is
/// too large for the trailer's 32-bit size field.
pub fn bundle_swf_exe_bytes(swf: &mut Vec<u8>, exe: &mut Vec<u8>) -> (r: Result<
    Vec<u8>,
    BundleError,
>)
    ensures
        old(swf)@.len() <= u32::MAX ==> (r matches Ok(v) && v@ == spec_bundle(
            old(swf)@,
            old(exe)@,
        ) && final(exe)@ == v@ && final(swf)@ == Seq::<u8>::empty()),
        old(swf)@.len() > u32::MAX ==> r == Err::<Vec<u8>, BundleError>(BundleError::SizeOverflow)
            && final(swf)@ == old(swf)@ && final(exe)@ == old(exe)@,
{
    if swf.len() > u32::MAX as usize {
        return Err(BundleError::SizeOverflow);
    }
    let size: u32 = swf.len() as u32;
    exe.append(swf);
    exe.push(86);
    exe.push(52);
    exe.push(18);
    exe.push(250);
    exe.push((size % 0x100) as u8);
    exe.push(((size / 0x100) % 0x100) as u8);
    exe.push(((size / 0x10000) % 0x100) as u8);
    exe.push(((size / 0x1000000) % 0x100) as u8);
    proof {
        assert(exe@ =~= spec_bundle(old(swf)@, old(exe)@));
    }
    Ok(vstd::slice::slice_to_vec(exe.as_slice()))
}

/// Encoding a 32-bit value as four little-endian bytes and reading them back
/// yields the value again.
pub proof fn lemma_le_round_trip(n: int)
    requires
        0 <= n <= u32::MAX,
    ensures
        spec_le32(
            spec_le_bytes(n)[0],
            spec_le_bytes(n)[1],
            spec_le_bytes(n)[2],
            spec_le_bytes(n)[3],
        ) == n,
{
    lemma_small_mod(n as nat, 0x100000000);
    lemma_breakdown(n, 0x1000000, 0x100);
    lemma_breakdown(n, 0x10000, 0x100);
    lemma_breakdown(n, 0x100, 0x100);
}

/// Detection soundness: a bundle built from any movie and executable carries
/// the magic signature, so `buf_is_bundle` accepts it.
pub proof fn lemma_bundle_detected(swf: Seq<u8>, exe: Seq<u8>)
    ensures
        spec_is_bundle(spec_bundle(swf, exe)),
{
    let b = spec_bundle(swf, exe);
    assert(b[b.len() - 8] == 86u8);
    assert(b[b.len() - 7] == 52u8);
    assert(b[b.len() - 6] == 18u8);
    assert(b[b.len() - 5] == 250u8);
}

/// Round trip: extracting the SWF and EXE segments of a bundle built from
/// any movie and executable gives back exactly the movie and the executable.
pub proof fn lemma_bundle_round_trip(swf: Seq<u8>, exe: Seq<u8>)
    requires
        swf.len() <= u32::MAX,
    ensures
        spec_swf_segment(spec_bundle(swf, exe), swf.len() as int) == swf,
        spec_exe_segment(spec_bundle(swf, exe), swf.len() as int) == exe,
{
    let b = spec_bundle(swf, exe);
    assert(spec_swf_segment(b, swf.len() as int) =~= swf);
    assert(spec_exe_segment(b, swf.len() as int) =~= exe);
}

/// Size fidelity: the trailer of a bundle built from any movie and executable
/// records exactly the movie's byte length, so `swf_size_from_buf` returns it.
pub proof fn lemma_bundle_size_fidelity(swf: Seq<u8>, exe: Seq<u8>)
    requires
        swf.len() <= u32::MAX,
    ensures
        spec_trailer_size(spec_bundle(swf, exe)) == swf.len(),
{
    let b = spec_bundle(swf, exe);
    let n = swf.len() as int;
    assert(b[b.len() - 4] == spec_le_bytes(n)[0]);
    assert(b[b.len() - 3] == spec_le_bytes(n)[1]);
    assert(b[b.len() - 2] == spec_le_bytes(n)[2]);
    assert(b[b.len() - 1] == spec_le_bytes(n)[3]);
    lemma_le_round_trip(n);
}

/// Detection completeness, negative: a buffer shorter than the trailer, or
/// one whose four bytes at `len - 8` are not the magic signature, is not a
/// bundle, so `buf_is_bundle` rejects it.
pub proof fn lemma_not_a_bundle(b: Seq<u8>)
    requires
        b.len() < 8 || b.subrange(b.len() - 8, b.len() - 4) != spec_signature(),
    ensures
        !spec_is_bundle(b),
{
    if b.len() >= 8 && spec_is_bundle(b) {
        assert(b.subrange(b.len() - 8, b.len() - 4) =~= spec_signature());
    }
}

/// Segment disjointness: the EXE segment, the SWF segment and the 8-byte
/// trailer of a valid bundle partition it exactly, with no overlap or gap.
pub proof fn lemma_segments_partition(b: Seq<u8>, size: int)
    requires
        spec_is_bundle(b),
        0 <= size,
        size + 8 <= b.len(),
    ensures
        spec_exe_segment(b, size).len() + spec_swf_segment(b, size).len() + 8 == b.len(),
        spec_exe_segment(b, size) + spec_swf_segment(b, size) + b.subrange(
            b.len() - 8,
            b.len() as int,
        ) == b,
{
    assert(spec_exe_segment(b, size) + spec_swf_segment(b, size) + b.subrange(
        b.len() - 8,
        b.len() as int,
    ) =~= b);
}

} // verus!
