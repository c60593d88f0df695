//! The compression pass of the package format: an XZ stream at the highest
//! preset.

use vstd::prelude::*;

verus! {

/// What decoding `stream` as one XZ stream yields: the bytes that were
/// compressed, or `None` where `stream` is corrupt or ends too soon.
pub uninterp spec fn xz_unpacked(stream: Seq<u8>) -> Option<Seq<u8>>;

/// Compresses `data` with `xz2::write::XzEncoder` at preset 9. The encoder
/// reports failure as an I/O error, which is `None` here. What it hands back on
/// success is an XZ stream that decodes to `data`.
#[verifier::external_body]
pub(crate) fn xz_compress(data: &[u8]) -> (res: Option<Vec<u8>>)
    ensures
        res matches Some(stream) ==> xz_unpacked(stream@) == Some(data@),
{
    let mut encoder = xz2::write::XzEncoder::new(Vec::new(), 9);
    std::io::Write::write_all(&mut encoder, data).ok()?;
    encoder.finish().ok()
}

/// Decompresses `stream` by reading `xz2::read::XzDecoder` to its end. The
/// decoder reports a corrupt or truncated stream as an I/O error, which is
/// `None` here.
#[verifier::external_body]
pub(crate) fn xz_decompress(stream: &[u8]) -> (res: Option<Vec<u8>>)
    ensures
        res is Some <==> xz_unpacked(stream@) is Some,
        res matches Some(data) ==> xz_unpacked(stream@) == Some(data@),
{
    let mut data = Vec::new();
    std::io::Read::read_to_end(&mut xz2::read::XzDecoder::new(stream), &mut data).ok()?;
    Some(data)
}

} // verus!
