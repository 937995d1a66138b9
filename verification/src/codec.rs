use vstd::prelude::*;
use base64::Engine as _;

verus! {

/// What raw Snappy block compression returns for a byte sequence.
pub uninterp spec fn snappy_of(data: Seq<u8>) -> Seq<u8>;

/// What decoding standard base64 returns for a text: the decoded bytes, or
/// `None` when the text is not valid standard base64.
pub uninterp spec fn base64_standard_decoded(text: Seq<char>) -> Option<Seq<u8>>;

/// A byte sequence within the Snappy block format's size limit: the worst-case
/// compressed length must fit in 32 bits.
pub open spec fn compressible(data: Seq<u8>) -> bool {
    32 + data.len() + data.len() / 6 <= 0xFFFF_FFFF
}

/// Relies on `snap::raw::Encoder::compress_vec`: raw Snappy compression is a
/// deterministic function of the input bytes and succeeds whenever the input
/// is within the format's size limit.
#[verifier::external_body]
pub(crate) fn snappy_compress(data: &Vec<u8>) -> (r: Vec<u8>)
    requires
        compressible(data@),
    ensures
        r@ == snappy_of(data@),
{
    let mut encoder = snap::raw::Encoder::new();
    encoder.compress_vec(data.as_slice()).expect("compression failed")
}

/// Relies on `snap::raw::Decoder::decompress_vec`: raw Snappy decoding inverts
/// compression, so the compressed form of any byte sequence decompresses to
/// exactly that sequence.
#[verifier::external_body]
pub(crate) fn snappy_decompress(data: &Vec<u8>) -> (r: Result<Vec<u8>, String>)
    ensures
        r matches Ok(d) ==> forall|s: Seq<u8>| #[trigger] snappy_of(s) == data@ ==> d@ == s,
        r is Err ==> forall|s: Seq<u8>| #[trigger] snappy_of(s) != data@,
{
    let mut decoder = snap::raw::Decoder::new();
    decoder.decompress_vec(data.as_slice()).map_err(|e| format!("{}", e))
}

/// Relies on the standard-alphabet engine of the base64 crate: decoding is a
/// deterministic function of the input text, and returns bytes exactly when
/// the text is valid standard base64.
#[verifier::external_body]
pub(crate) fn base64_decode(text: &String) -> (r: Result<Vec<u8>, String>)
    ensures
        r is Ok <==> base64_standard_decoded(text@) is Some,
        r matches Ok(bytes) ==> base64_standard_decoded(text@) == Some(bytes@),
{
    base64::engine::general_purpose::STANDARD
        .decode(text.as_str())
        .map_err(|e| format!("{}", e))
}

/// Compressing a report and decompressing the result returns the original
/// report: the block codec used for submission is lossless.
pub fn compress_round_trip(report: &Vec<u8>) -> (r: Vec<u8>)
    requires
        compressible(report@),
    ensures
        r@ == report@,
{
    let compressed = snappy_compress(report);
    proof {
        assert(snappy_of(report@) == compressed@);
    }
    match snappy_decompress(&compressed) {
        Ok(original) => original,
        Err(_) => vstd::pervasive::unreached(),
    }
}

} // verus!
