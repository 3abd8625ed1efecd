//! Content-encoding-aware request body decoder.
//!
//! A request body arrives with an optional `Content-Encoding` token. An
//! absent token or `"none"` means the body is passed through unchanged;
//! `"deflate"` means the body is a zlib-wrapped stream (a deliberate
//! accommodation of a client that labels zlib data as deflate); `"gzip"`
//! means a gzip stream that may hold several concatenated members. Any
//! other token is rejected, and a stream that does not decompress under
//! the declared scheme is rejected with an error naming that scheme.

use vstd::prelude::*;
use vstd::slice::slice_to_vec;
use std::io::Read;
use crate::text::str_eq;

verus! {

broadcast use vstd::string::group_string_axioms;

/// The compression scheme a request body declared.
#[derive(Clone, Copy, Debug, PartialEq, Eq, Structural)]
pub enum Scheme {
    Zlib,
    Gzip,
}

/// Why a request body could not be decoded.
#[derive(Clone, Debug)]
pub enum DecodeError {
    /// The `Content-Encoding` header value was not valid text; carries the
    /// text-decoding error's description.
    InvalidHeader { detail: String },
    /// The `Content-Encoding` token is none of `none`, `deflate`, `gzip`;
    /// carries the offending token.
    UnsupportedEncoding { token: String },
    /// The body did not decompress under the declared scheme; carries the
    /// decompressor's error description.
    CorruptStream { scheme: Scheme, detail: String },
}

/// The scheme's name, as the error messages spell it.
pub open spec fn scheme_name_spec(s: Scheme) -> Seq<char> {
    match s {
        Scheme::Zlib => "zlib"@,
        Scheme::Gzip => "gzip"@,
    }
}

impl Scheme {
    /// The scheme's name, as the error messages spell it.
    pub fn name(&self) -> (r: &'static str)
        ensures
            r@ == scheme_name_spec(*self),
    {
        match self {
            Scheme::Zlib => "zlib",
            Scheme::Gzip => "gzip",
        }
    }
}

/// How a decode failure reads: a bad header as `invalid content-encoding:
/// <detail>`, an unknown token as `unsupported content-encoding "<token>"`,
/// a corrupt stream as `not a <scheme> request body: <detail>`.
pub open spec fn decode_error_message_spec(e: DecodeError) -> Seq<char> {
    match e {
        DecodeError::InvalidHeader { detail } => "invalid content-encoding: "@ + detail@,
        DecodeError::UnsupportedEncoding { token } => "unsupported content-encoding \""@ + token@
            + "\""@,
        DecodeError::CorruptStream { scheme, detail } => "not a "@ + scheme_name_spec(scheme)
            + " request body: "@ + detail@,
    }
}

impl DecodeError {
    /// Renders this error as text.
    pub fn message(&self) -> (r: String)
        ensures
            r@ == decode_error_message_spec(*self),
    {
        match self {
            DecodeError::InvalidHeader { detail } => {
                let mut m = "invalid content-encoding: ".to_owned();
                m.append(detail.as_str());
                m
            },
            DecodeError::UnsupportedEncoding { token } => {
                let mut m = "unsupported content-encoding \"".to_owned();
                m.append(token.as_str());
                m.append("\"");
                m
            },
            DecodeError::CorruptStream { scheme, detail } => {
                let mut m = "not a ".to_owned();
                m.append(scheme.name());
                m.append(" request body: ");
                m.append(detail.as_str());
                m
            },
        }
    }
}

/// The mathematical outcome of decoding: which error comes, and with which
/// token or scheme, for every declared encoding and body.
pub enum DecodeFailure {
    Unsupported { token: Seq<char> },
    Corrupt { scheme: Scheme },
}

/// The bytes that the zlib format assigns to a stream: `Some` exactly when
/// the stream is a well-formed zlib stream, holding its decompression.
/// Named here, stated by [`zlib_decompress`].
pub uninterp spec fn zlib_inflate(stream: Seq<u8>) -> Option<Seq<u8>>;

/// The bytes that the gzip format (allowing several concatenated members)
/// assigns to a stream: `Some` exactly when the stream decompresses.
/// Named here, stated by [`gzip_decompress`].
pub uninterp spec fn gzip_inflate(stream: Seq<u8>) -> Option<Seq<u8>>;

/// Relies on flate2's `read::ZlibDecoder` together with `Read::read_to_end`:
/// reading the decoder to the end yields the decompressed bytes of a zlib
/// stream, or an error when the input is not one. The outcome depends on the
/// input bytes alone, so it is named by [`zlib_inflate`].
#[verifier::external_body]
fn zlib_decompress(body: &[u8]) -> (r: Result<Vec<u8>, String>)
    ensures
        match r {
            Ok(out) => zlib_inflate(body@) == Some(out@),
            Err(_) => zlib_inflate(body@) is None,
        },
{
    let mut decoder = flate2::read::ZlibDecoder::new(body);
    let mut decoded = vec![];
    match decoder.read_to_end(&mut decoded) {
        Ok(_) => Ok(decoded),
        Err(e) => Err(e.to_string()),
    }
}

/// Relies on flate2's `read::MultiGzDecoder` together with
/// `Read::read_to_end`: reading the decoder to the end yields the
/// decompressed bytes of all concatenated gzip members, or an error when the
/// input is not a gzip stream. The outcome depends on the input bytes alone,
/// so it is named by [`gzip_inflate`].
#[verifier::external_body]
fn gzip_decompress(body: &[u8]) -> (r: Result<Vec<u8>, String>)
    ensures
        match r {
            Ok(out) => gzip_inflate(body@) == Some(out@),
            Err(_) => gzip_inflate(body@) is None,
        },
{
    let mut decoder = flate2::read::MultiGzDecoder::new(body);
    let mut decoded = vec![];
    match decoder.read_to_end(&mut decoded) {
        Ok(_) => Ok(decoded),
        Err(e) => Err(e.to_string()),
    }
}

/// What [`decode_body`] returns for a declared encoding and a raw body:
/// identity for an absent or `none` token, the zlib decompression for
/// `deflate`, the gzip decompression for `gzip`, and failure otherwise.
pub open spec fn decode_spec(content_encoding: Option<Seq<char>>, body: Seq<u8>) -> Result<
    Seq<u8>,
    DecodeFailure,
> {
    match content_encoding {
        None => Ok(body),
        Some(token) => if token == "none"@ {
            Ok(body)
        } else if token == "deflate"@ {
            match zlib_inflate(body) {
                Some(out) => Ok(out),
                None => Err(DecodeFailure::Corrupt { scheme: Scheme::Zlib }),
            }
        } else if token == "gzip"@ {
            match gzip_inflate(body) {
                Some(out) => Ok(out),
                None => Err(DecodeFailure::Corrupt { scheme: Scheme::Gzip }),
            }
        } else {
            Err(DecodeFailure::Unsupported { token })
        },
    }
}

/// Decodes a request body under its declared `Content-Encoding` token.
///
/// A pure, synchronous transformation: no retry, no side effect. The
/// `detail` carried by a `CorruptStream` error is the decompressor's own
/// description and is not pinned down here; everything else is.
pub fn decode_body(content_encoding: Option<&str>, body: &[u8]) -> (r: Result<
    Vec<u8>,
    DecodeError,
>)
    ensures
        match r {
            Ok(out) => decode_spec(content_encoding.deep_view(), body@) == Ok::<_, DecodeFailure>(
                out@,
            ),
            Err(e) => match e {
                DecodeError::UnsupportedEncoding { token } => decode_spec(
                    content_encoding.deep_view(),
                    body@,
                ) == Err::<Seq<u8>, _>(DecodeFailure::Unsupported { token: token@ }),
                DecodeError::CorruptStream { scheme, detail: _ } => decode_spec(
                    content_encoding.deep_view(),
                    body@,
                ) == Err::<Seq<u8>, _>(DecodeFailure::Corrupt { scheme }),
                DecodeError::InvalidHeader { .. } => false,
            },
        },
{
    match content_encoding {
        None => Ok(slice_to_vec(body)),
        Some(token) => {
            if str_eq(token, "none") {
                Ok(slice_to_vec(body))
            } else if str_eq(token, "deflate") {
                match zlib_decompress(body) {
                    Ok(out) => Ok(out),
                    Err(detail) => Err(DecodeError::CorruptStream { scheme: Scheme::Zlib, detail }),
                }
            } else if str_eq(token, "gzip") {
                match gzip_decompress(body) {
                    Ok(out) => Ok(out),
                    Err(detail) => Err(DecodeError::CorruptStream { scheme: Scheme::Gzip, detail }),
                }
            } else {
                Err(DecodeError::UnsupportedEncoding { token: token.to_owned() })
            }
        },
    }
}

/// Decoding under an absent or `none` token returns the body unchanged,
/// whatever the body holds.
pub proof fn lemma_decode_identity(content_encoding: Option<Seq<char>>, body: Seq<u8>)
    requires
        content_encoding is None || content_encoding == Some("none"@),
    ensures
        decode_spec(content_encoding, body) == Ok::<_, DecodeFailure>(body),
{
}

/// Decoding under `deflate` returns exactly what the zlib format assigns to
/// the stream: any stream obtained by zlib-compressing `x` decodes back to
/// `x`, and a stream that is not well-formed zlib is rejected.
pub proof fn lemma_decode_deflate_round_trip(stream: Seq<u8>, x: Seq<u8>)
    requires
        zlib_inflate(stream) == Some(x),
    ensures
        decode_spec(Some("deflate"@), stream) == Ok::<_, DecodeFailure>(x),
{
    reveal_strlit("none");
    reveal_strlit("deflate");
    // The two tokens differ already in length.
    assert("none"@.len() == 4);
    assert("deflate"@.len() == 7);
}

/// Decoding under `gzip` returns exactly what the gzip format assigns to the
/// stream: any stream obtained by gzip-compressing `x` decodes back to `x`,
/// and a stream that is not well-formed gzip is rejected.
pub proof fn lemma_decode_gzip_round_trip(stream: Seq<u8>, x: Seq<u8>)
    requires
        gzip_inflate(stream) == Some(x),
    ensures
        decode_spec(Some("gzip"@), stream) == Ok::<_, DecodeFailure>(x),
{
    reveal_strlit("none");
    reveal_strlit("deflate");
    reveal_strlit("gzip");
    // The three tokens have pairwise distinct views: two differ in length
    // from `gzip`'s, and `none` differs from it in its first character.
    assert("none"@.len() == 4);
    assert("deflate"@.len() == 7);
    assert("gzip"@ =~= seq!['g', 'z', 'i', 'p']);
    assert("none"@[0] == 'n');
}

/// A stream that is not well-formed under its declared scheme is always
/// rejected with that scheme's corrupt-stream error, never passed through
/// as it stands.
pub proof fn lemma_decode_corrupt_stream_fails(stream: Seq<u8>)
    ensures
        zlib_inflate(stream) is None ==> decode_spec(Some("deflate"@), stream) == Err::<
            Seq<u8>,
            _,
        >(DecodeFailure::Corrupt { scheme: Scheme::Zlib }),
        gzip_inflate(stream) is None ==> decode_spec(Some("gzip"@), stream) == Err::<Seq<u8>, _>(
            DecodeFailure::Corrupt { scheme: Scheme::Gzip },
        ),
{
    reveal_strlit("none");
    reveal_strlit("deflate");
    reveal_strlit("gzip");
    // The three tokens have pairwise distinct views: two differ in length
    // from `gzip`'s, and `none` differs from it in its first character.
    assert("none"@.len() == 4);
    assert("deflate"@.len() == 7);
    assert("gzip"@ =~= seq!['g', 'z', 'i', 'p']);
    assert("none"@[0] == 'n');
}

/// Decoding under a token that names no supported scheme always fails with
/// an unsupported-encoding error carrying that token.
pub proof fn lemma_decode_unknown_token_fails(token: Seq<char>, body: Seq<u8>)
    requires
        token != "none"@,
        token != "deflate"@,
        token != "gzip"@,
    ensures
        decode_spec(Some(token), body) == Err::<Seq<u8>, _>(
            DecodeFailure::Unsupported { token },
        ),
{
}

} // verus!
