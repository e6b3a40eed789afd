//! The message codecs: gzip through `flate2` and zstd through `zstd`.

use crate::status::{Code, Status, StatusView};
use crate::text::{
    decimal, lemma_numeral_stands_for_its_number, push_decimal, value_of,
};
use std::io::{Read, Write};
use vstd::arithmetic::power2::{
    lemma2_to64, lemma_pow2_strictly_increases, lemma_pow2_unfold, pow2,
};
use vstd::prelude::*;
use vstd::slice::slice_to_vec;

verus! {

/// Compression encoding types.
#[derive(Debug, Clone, Copy, PartialEq, Eq, Structural)]
#[non_exhaustive]
pub enum CompressionEncoding {
    /// Gzip compression.
    Gzip,
    /// Zstd compression.
    Zstd,
    /// No compression.
    Identity,
}

/// The result of a codec as plain values: bytes, or the text of an error.
pub type Outcome = Result<Seq<u8>, Seq<char>>;

pub open spec fn outcome(r: Result<Vec<u8>, String>) -> Outcome {
    match r {
        Ok(v) => Ok(v@),
        Err(e) => Err(e@),
    }
}

/// What `flate2` makes of `data` at its default level.
pub uninterp spec fn gzip_compressed(data: Seq<u8>) -> Result<Seq<u8>, Seq<char>>;

/// What reading at most `limit` bytes out of the gzip stream `data` gives.
pub uninterp spec fn gzip_decompressed(data: Seq<u8>, limit: u64) -> Result<Seq<u8>, Seq<char>>;

/// What `zstd` makes of `data` at a level and with a window of
/// `2^window_log` bytes.
pub uninterp spec fn zstd_compressed(data: Seq<u8>, level: i32, window_log: u32) -> Result<
    Seq<u8>,
    Seq<char>,
>;

/// What reading at most `limit` bytes out of the zstd stream `data` gives where
/// windows of more than `2^window_log_max` bytes are refused.
pub uninterp spec fn zstd_decompressed(data: Seq<u8>, window_log_max: u32, limit: u64) -> Result<
    Seq<u8>,
    Seq<char>,
>;

/// The first `limit` elements, or all where there are fewer.
pub open spec fn at_most(data: Seq<u8>, limit: u64) -> Seq<u8> {
    if data.len() <= limit {
        data
    } else {
        data.take(limit as int)
    }
}

/// Reading the gzip stream `z` gives `data`, up to the limit.
pub open spec fn gzip_reads_back(z: Seq<u8>, data: Seq<u8>) -> bool {
    forall|limit: u64| #[trigger]
        gzip_decompressed(z, limit) == Outcome::Ok(at_most(data, limit))
}

/// Reading the zstd stream `z` gives `data`, up to the limit, where a window of
/// `2^window_log` bytes is let through. Where it is not, reading gives that or
/// fails.
pub open spec fn zstd_reads_back(z: Seq<u8>, window_log: u32, data: Seq<u8>) -> bool {
    forall|window_log_max: u32, limit: u64|
        10 <= window_log_max <= 27 ==> match #[trigger] zstd_decompressed(
            z,
            window_log_max,
            limit,
        ) {
            Ok(out) => out == at_most(data, limit),
            Err(_) => window_log > window_log_max,
        }
}

/// `flate2::write::GzEncoder`, fed all of `data` at the default level and
/// finished. What it makes can be read back.
#[verifier::external_body]
fn gzip_compress(data: &[u8]) -> (r: Result<Vec<u8>, String>)
    ensures
        outcome(r) == gzip_compressed(data@),
        r matches Ok(z) ==> gzip_reads_back(z@, data@),
{
    let mut encoder = flate2::write::GzEncoder::new(Vec::new(), flate2::Compression::default());
    match encoder.write_all(data) {
        Ok(()) => encoder.finish().map_err(|e| e.to_string()),
        Err(e) => Err(e.to_string()),
    }
}

/// `flate2::read::GzDecoder` on `data`, read to its end or to `limit` bytes,
/// whichever comes first.
#[verifier::external_body]
fn gzip_decompress(data: &[u8], limit: u64) -> (r: Result<Vec<u8>, String>)
    ensures
        outcome(r) == gzip_decompressed(data@, limit),
        r matches Ok(out) ==> out@.len() <= limit,
{
    let mut out = Vec::new();
    match flate2::read::GzDecoder::new(data).take(limit).read_to_end(&mut out) {
        Ok(_) => Ok(out),
        Err(e) => Err(e.to_string()),
    }
}

/// `zstd::stream::write::Encoder` with its window set, fed all of `data` and
/// finished. The frame declares the window it was given, and can be read back
/// by a decoder that lets such a window through.
#[verifier::external_body]
fn zstd_compress(data: &[u8], level: i32, window_log: u32) -> (r: Result<Vec<u8>, String>)
    requires
        0 <= level <= 22,
        10 <= window_log <= 27,
    ensures
        outcome(r) == zstd_compressed(data@, level, window_log),
        r matches Ok(z) ==> zstd_reads_back(z@, window_log, data@),
{
    let mut encoder = match zstd::stream::write::Encoder::new(Vec::new(), level) {
        Ok(encoder) => encoder,
        Err(e) => return Err(e.to_string()),
    };
    if let Err(e) = encoder.set_parameter(zstd::zstd_safe::CParameter::WindowLog(window_log)) {
        return Err(e.to_string());
    }
    match encoder.write_all(data) {
        Ok(()) => encoder.finish().map_err(|e| e.to_string()),
        Err(e) => Err(e.to_string()),
    }
}

/// `zstd::stream::Decoder` on `data` with its window bounded, read to its end
/// or to `limit` bytes, whichever comes first.
#[verifier::external_body]
fn zstd_decompress(data: &[u8], window_log_max: u32, limit: u64) -> (r: Result<Vec<u8>, String>)
    requires
        10 <= window_log_max <= 27,
    ensures
        outcome(r) == zstd_decompressed(data@, window_log_max, limit),
        r matches Ok(out) ==> out@.len() <= limit,
{
    let mut decoder = match zstd::stream::Decoder::new(data) {
        Ok(decoder) => decoder,
        Err(e) => return Err(e.to_string()),
    };
    if let Err(e) = decoder.window_log_max(window_log_max) {
        return Err(e.to_string());
    }
    let mut out = Vec::new();
    match decoder.take(limit).read_to_end(&mut out) {
        Ok(_) => Ok(out),
        Err(e) => Err(e.to_string()),
    }
}

/// How many binary digits a number has: none for zero.
pub open spec fn bit_length(n: nat) -> nat
    decreases n,
{
    if n == 0 {
        0
    } else {
        1 + bit_length(n / 2)
    }
}

/// The window for a buffer of `size` bytes: the bit length of the size, within
/// what zstd allows.
pub open spec fn window_log(size: nat) -> nat {
    let bits = bit_length(size);
    if bits < 10 {
        10
    } else if bits > 27 {
        27
    } else {
        bits
    }
}

/// The largest window that a decoder with an output cap of `max` bytes lets
/// through: the one for that many bytes, and three bits more for encoders that
/// declare a default window.
pub open spec fn window_ceiling(max: nat) -> nat {
    if window_log(max) + 3 > 27 {
        27
    } else {
        window_log(max) + 3
    }
}

/// The zstd window for a buffer of `size` bytes. Both sides of the codec use
/// it.
pub fn window_log_for(size: usize) -> (r: u32)
    ensures
        r == window_log(size as nat),
{
    let mut n: usize = size;
    let mut bits: u32 = 0;
    while n > 0 && bits < 28
        invariant
            bits <= 28,
            bit_length(size as nat) == bits + bit_length(n as nat),
        decreases n,
    {
        n = n / 2;
        bits = bits + 1;
    }
    if bits < 10 {
        10
    } else if bits > 27 {
        27
    } else {
        bits
    }
}

/// A decompressed message that exceeds its cap.
#[derive(Debug)]
pub struct DecompressedSizeExceeded {
    /// The codec's name.
    pub codec: &'static str,
    /// The cap.
    pub max: usize,
}

/// Why a message was not decompressed.
#[derive(Debug)]
pub enum DecompressError {
    /// It would exceed the cap.
    SizeExceeded(DecompressedSizeExceeded),
    /// The codec failed, with this text.
    Codec(String),
}

/// Why a message was not decompressed.
#[verifier::ext_equal]
pub enum DecompressErrorView {
    SizeExceeded { codec: Seq<char>, max: nat },
    Codec(Seq<char>),
}

impl View for DecompressError {
    type V = DecompressErrorView;

    open spec fn view(&self) -> DecompressErrorView {
        match self {
            DecompressError::SizeExceeded(e) => DecompressErrorView::SizeExceeded {
                codec: e.codec@,
                max: e.max as nat,
            },
            DecompressError::Codec(text) => DecompressErrorView::Codec(text@),
        }
    }
}

/// What is told of a message that exceeds its cap.
pub open spec fn exceeded_text(codec: Seq<char>, max: nat) -> Seq<char> {
    "decompressed "@ + codec + " message exceeds max_decompressed_size of "@ + decimal(max)
        + " bytes"@
}

impl DecompressedSizeExceeded {
    /// What is told of the message.
    pub fn message(&self) -> (r: String)
        ensures
            r@ == exceeded_text(self.codec@, self.max as nat),
    {
        let mut text = String::new();
        text.append("decompressed ");
        text.append(self.codec);
        text.append(" message exceeds max_decompressed_size of ");
        push_decimal(&mut text, self.max);
        text.append(" bytes");
        assert(text@ =~= exceeded_text(self.codec@, self.max as nat));
        text
    }
}

/// What is made of a message that was read with a limit of one byte past the
/// cap.
pub open spec fn bounded(read: Outcome, max: nat, codec: Seq<char>) -> Result<
    Seq<u8>,
    DecompressErrorView,
> {
    match read {
        Err(text) => Err(DecompressErrorView::Codec(text)),
        Ok(out) => if out.len() > max {
            Err(DecompressErrorView::SizeExceeded { codec, max })
        } else {
            Ok(out)
        },
    }
}

/// How much is read of a message at most: one byte past the cap, which shows
/// that the cap was crossed.
pub open spec fn read_limit(max: usize) -> u64 {
    if max == u64::MAX {
        u64::MAX
    } else {
        (max + 1) as u64
    }
}

/// Judges a message that was read with a limit of `read_limit`: one that fills
/// the limit is over the cap.
pub fn read_bounded(read: Result<Vec<u8>, String>, max: usize, codec: &'static str) -> (r: Result<
    Vec<u8>,
    DecompressError,
>)
    ensures
        match r {
            Ok(out) => bounded(outcome(read), max as nat, codec@) == Ok::<_, DecompressErrorView>(
                out@,
            ),
            Err(e) => bounded(outcome(read), max as nat, codec@) == Err::<Seq<u8>, _>(e@),
        },
{
    match read {
        Err(text) => Err(DecompressError::Codec(text)),
        Ok(out) => {
            if out.len() > max {
                Err(DecompressError::SizeExceeded(DecompressedSizeExceeded { codec, max }))
            } else {
                Ok(out)
            }
        },
    }
}

impl CompressionEncoding {
    /// The name of this encoding in `grpc-encoding` and `grpc-accept-encoding`.
    pub open spec fn name(self) -> Option<Seq<char>> {
        match self {
            CompressionEncoding::Gzip => Some("gzip"@),
            CompressionEncoding::Zstd => Some("zstd"@),
            CompressionEncoding::Identity => None,
        }
    }

    /// The name of this encoding in `grpc-encoding` and `grpc-accept-encoding`,
    /// or `None` where it never compresses.
    pub fn wire_name(self) -> (r: Option<&'static str>)
        ensures
            r is Some == self.name() is Some,
            r matches Some(name) ==> self.name() == Some(name@),
    {
        match self {
            CompressionEncoding::Gzip => Some("gzip"),
            CompressionEncoding::Zstd => Some("zstd"),
            CompressionEncoding::Identity => None,
        }
    }

    /// What compressing `data` gives.
    pub open spec fn compressed(self, data: Seq<u8>) -> Outcome {
        match self {
            CompressionEncoding::Gzip => gzip_compressed(data),
            CompressionEncoding::Zstd => zstd_compressed(data, 0, window_log(data.len()) as u32),
            CompressionEncoding::Identity => Ok(data),
        }
    }

    /// What decompressing `data` gives where a message may expand to `max`
    /// bytes.
    pub open spec fn decompressed(self, data: Seq<u8>, max: usize) -> Result<
        Seq<u8>,
        DecompressErrorView,
    > {
        match self {
            CompressionEncoding::Gzip => bounded(
                gzip_decompressed(data, read_limit(max)),
                max as nat,
                "gzip"@,
            ),
            CompressionEncoding::Zstd => bounded(
                zstd_decompressed(data, window_ceiling(max as nat) as u32, read_limit(max)),
                max as nat,
                "zstd"@,
            ),
            CompressionEncoding::Identity => Ok(data),
        }
    }

    /// Decompressing `z` gives `data` wherever `data` fits, and fails wherever
    /// it does not: for the size, unless the cap is so small that it rules out
    /// the window for `data`.
    pub open spec fn reads_back(self, z: Seq<u8>, data: Seq<u8>) -> bool {
        forall|max: usize|
            match #[trigger] self.decompressed(z, max) {
                Ok(out) => out == data && (data.len() <= max || self is Identity),
                Err(e) => data.len() > max && !(self is Identity) && (self is Gzip || window_log(
                    data.len(),
                ) <= window_ceiling(max as nat) ==> e is SizeExceeded),
            }
    }

    /// Compresses `data`. The zstd window is sized to the payload, so that a
    /// decoder with a small cap lets it through.
    pub fn compress_bytes(self, data: &[u8]) -> (r: Result<Vec<u8>, String>)
        ensures
            outcome(r) == self.compressed(data@),
            r matches Ok(z) ==> self.reads_back(z@, data@),
    {
        match self {
            CompressionEncoding::Gzip => {
                let r = gzip_compress(data);
                proof {
                    assert(data@.len() == data.len());
                    if r is Ok {
                        lemma_gzip_round_trip(r->Ok_0@, data@);
                    }
                }
                r
            },
            CompressionEncoding::Zstd => {
                let wl: u32 = window_log_for(data.len());
                let r = zstd_compress(data, 0, wl);
                proof {
                    if r is Ok {
                        lemma_zstd_round_trip(r->Ok_0@, data@);
                    }
                }
                r
            },
            CompressionEncoding::Identity => Ok(slice_to_vec(data)),
        }
    }

    /// Decompresses `data`. The decompressor is never let to produce more than
    /// one byte past `max_decompressed_size`, and the window that a zstd frame
    /// may ask for follows the cap.
    pub fn decompress_bytes(self, data: &[u8], max_decompressed_size: usize) -> (r: Result<
        Vec<u8>,
        DecompressError,
    >)
        ensures
            match r {
                Ok(out) => self.decompressed(data@, max_decompressed_size) == Ok::<
                    _,
                    DecompressErrorView,
                >(out@),
                Err(e) => self.decompressed(data@, max_decompressed_size) == Err::<Seq<u8>, _>(e@),
            },
    {
        let limit: u64 = (max_decompressed_size as u64).saturating_add(1);
        match self {
            CompressionEncoding::Gzip => {
                read_bounded(gzip_decompress(data, limit), max_decompressed_size, "gzip")
            },
            CompressionEncoding::Zstd => {
                let base: u32 = window_log_for(max_decompressed_size) + 3;
                let ceiling: u32 = if base > 27 {
                    27
                } else {
                    base
                };
                read_bounded(
                    zstd_decompress(data, ceiling, limit),
                    max_decompressed_size,
                    "zstd",
                )
            },
            CompressionEncoding::Identity => Ok(slice_to_vec(data)),
        }
    }
}

/// The status for a message that was not decompressed: too large a message
/// exhausts a resource, anything else is a corrupt stream.
pub open spec fn decompress_status(e: DecompressErrorView) -> StatusView {
    match e {
        DecompressErrorView::SizeExceeded { codec, max } => StatusView::plain(
            Code::ResourceExhausted,
            exceeded_text(codec, max),
        ),
        DecompressErrorView::Codec(text) => StatusView::plain(
            Code::Internal,
            "failed to decompress gRPC message: "@ + text,
        ),
    }
}

/// The status for a message that was not decompressed.
pub fn decompress_error_to_status(e: &DecompressError) -> (r: Status)
    ensures
        r@ == decompress_status(e@),
{
    match e {
        DecompressError::SizeExceeded(exceeded) => Status::new(
            Code::ResourceExhausted,
            exceeded.message(),
        ),
        DecompressError::Codec(text) => {
            let mut message = String::new();
            message.append("failed to decompress gRPC message: ");
            message.append(text.as_str());
            assert(message@ =~= "failed to decompress gRPC message: "@ + text@);
            Status::new(Code::Internal, message)
        },
    }
}

/// Where reading a gzip stream gives a message back, decompressing it gives the
/// message back under every cap that the message is within, and fails for the
/// size under every other.
pub proof fn lemma_gzip_round_trip(z: Seq<u8>, data: Seq<u8>)
    requires
        gzip_reads_back(z, data),
        data.len() <= usize::MAX,
    ensures
        CompressionEncoding::Gzip.reads_back(z, data),
{
    let gzip = CompressionEncoding::Gzip;
    assert forall|max: usize|
        match #[trigger] gzip.decompressed(z, max) {
            Ok(out) => out == data && data.len() <= max,
            Err(e) => data.len() > max && e is SizeExceeded,
        } by {
        assert(gzip_decompressed(z, read_limit(max)) == Outcome::Ok(
            at_most(data, read_limit(max)),
        ));
    }
}

/// Where reading a zstd stream gives a message back, and the stream declares
/// the window for the message's length, decompressing it gives the message back
/// under every cap that the message is within, and fails under every other: for
/// the size, where the cap lets the window through.
pub proof fn lemma_zstd_round_trip(z: Seq<u8>, data: Seq<u8>)
    requires
        zstd_reads_back(z, window_log(data.len()) as u32, data),
        data.len() <= usize::MAX,
    ensures
        CompressionEncoding::Zstd.reads_back(z, data),
{
    let zstd = CompressionEncoding::Zstd;
    assert forall|max: usize|
        match #[trigger] zstd.decompressed(z, max) {
            Ok(out) => out == data && data.len() <= max,
            Err(e) => data.len() > max && (window_log(data.len()) <= window_ceiling(max as nat)
                ==> e is SizeExceeded),
        } by {
        let read = zstd_decompressed(z, window_ceiling(max as nat) as u32, read_limit(max));
        if data.len() <= max {
            lemma_window_within_ceiling(data.len(), max as nat);
        }
    }
}

/// A message that a codec decompressed is within the cap, however small the
/// input it came from.
pub proof fn lemma_decompressed_within_cap(encoding: CompressionEncoding, data: Seq<u8>, max: usize)
    requires
        !(encoding is Identity),
        encoding.decompressed(data, max) is Ok,
    ensures
        encoding.decompressed(data, max)->Ok_0.len() <= max,
{
}

proof fn lemma_bit_length_monotone(a: nat, b: nat)
    requires
        a <= b,
    ensures
        bit_length(a) <= bit_length(b),
    decreases b,
{
    if a > 0 {
        lemma_bit_length_monotone(a / 2, b / 2);
    }
}

/// A frame compressed from a message of `len` bytes declares a window that a
/// decoder with a cap of at least `len` bytes lets through.
pub proof fn lemma_window_within_ceiling(len: nat, max: nat)
    requires
        len <= max,
    ensures
        window_log(len) <= window_ceiling(max),
{
    lemma_bit_length_monotone(len, max);
}

/// What a codec compressed it decompresses to every byte of what went in, under
/// every cap that this is within, and under every other cap it fails: gzip for
/// the size.
pub proof fn lemma_codec_round_trip(
    encoding: CompressionEncoding,
    data: &[u8],
    compressed: Vec<u8>,
    z: &[u8],
    max: usize,
    r: Result<Vec<u8>, DecompressError>,
)
    requires
        call_ensures(
            CompressionEncoding::compress_bytes,
            (encoding, data),
            Ok::<Vec<u8>, String>(compressed),
        ),
        z@ == compressed@,
        call_ensures(CompressionEncoding::decompress_bytes, (encoding, z, max), r),
    ensures
        r matches Ok(out) ==> out@ == data@,
        data@.len() <= max || encoding is Identity ==> r is Ok,
        data@.len() > max && !(encoding is Identity) ==> r is Err,
        data@.len() > max && encoding is Gzip ==> (r matches Err(e) && e is SizeExceeded),
        encoding is Identity ==> compressed@ == data@,
{
    assert(encoding.reads_back(z@, data@));
    let again = encoding.decompressed(z@, max);
}

/// Gzip and zstd have their names on the wire, and no compression has none.
pub proof fn lemma_wire_names(encoding: CompressionEncoding, r: Option<&'static str>)
    requires
        call_ensures(CompressionEncoding::wire_name, (encoding,), r),
    ensures
        encoding is Gzip ==> (r matches Some(name) && name@ == "gzip"@),
        encoding is Zstd ==> (r matches Some(name) && name@ == "zstd"@),
        encoding is Identity ==> r is None,
{
}

proof fn lemma_bit_length_bounds(n: nat)
    ensures
        n < pow2(bit_length(n)),
        n > 0 ==> bit_length(n) > 0 && pow2((bit_length(n) - 1) as nat) <= n,
    decreases n,
{
    lemma2_to64();
    if n > 0 {
        lemma_bit_length_bounds(n / 2);
        lemma_pow2_unfold(bit_length(n));
        if n > 1 {
            lemma_pow2_unfold((bit_length(n) - 1) as nat);
        }
    }
}

proof fn lemma_window_bounds(size: nat)
    ensures
        10 <= window_log(size) <= 27,
        window_log(size) < 27 ==> size < pow2(window_log(size)),
        window_log(size) > 10 ==> size >= pow2((window_log(size) - 1) as nat),
{
    lemma_bit_length_bounds(size);
    let bits = bit_length(size);
    if bits < 10 {
        lemma_pow2_strictly_increases(bits, 10);
    }
    if bits > 27 {
        lemma_pow2_strictly_increases(26, (bits - 1) as nat);
    }
}

/// The window for a buffer is the smallest power of two that is larger than it,
/// between two to the tenth and two to the twenty-seventh.
pub proof fn lemma_window_is_the_smallest(size: usize, r: u32)
    requires
        call_ensures(window_log_for, (size,), r),
    ensures
        10 <= r <= 27,
        r < 27 ==> size < pow2(r as nat),
        r > 10 ==> size >= pow2((r - 1) as nat),
{
    lemma_window_bounds(size as nat);
}

/// A message is compressed by the codec's own crate: by gzip as it is, and by
/// zstd at its default level with the smallest window that is larger than the
/// message.
pub proof fn lemma_what_compresses(
    encoding: CompressionEncoding,
    data: &[u8],
    r: Result<Vec<u8>, String>,
)
    requires
        call_ensures(CompressionEncoding::compress_bytes, (encoding, data), r),
    ensures
        encoding is Gzip ==> outcome(r) == gzip_compressed(data@),
        encoding is Zstd ==> exists|window: u32|
            10 <= window <= 27 && (window < 27 ==> data@.len() < pow2(window as nat)) && (window
                > 10 ==> data@.len() >= pow2((window - 1) as nat)) && outcome(r)
                == #[trigger] zstd_compressed(data@, 0, window),
        encoding is Identity ==> (r matches Ok(out) && out@ == data@),
{
    lemma_window_bounds(data@.len());
    assert(encoding is Zstd ==> outcome(r) == zstd_compressed(
        data@,
        0,
        window_log(data@.len()) as u32,
    ));
}

/// A message is decompressed by the codec's own crate, which is never let to give
/// more than one byte past the cap. A zstd frame may ask for a window of at most
/// eight times the one for the cap. Where more comes than the cap allows the
/// message fails for its size, and where the codec fails, with what it told.
pub proof fn lemma_what_decompresses(
    encoding: CompressionEncoding,
    data: &[u8],
    max: usize,
    r: Result<Vec<u8>, DecompressError>,
)
    requires
        call_ensures(CompressionEncoding::decompress_bytes, (encoding, data, max), r),
        max < u64::MAX,
    ensures
        encoding is Identity ==> (r matches Ok(out) && out@ == data@),
        encoding is Gzip ==> match gzip_decompressed(data@, (max + 1) as u64) {
            Ok(out) => if out.len() <= max {
                r matches Ok(v) && v@ == out
            } else {
                r matches Err(DecompressError::SizeExceeded(e)) && e.max == max && e.codec@
                    == "gzip"@
            },
            Err(text) => r matches Err(DecompressError::Codec(t)) && t@ == text,
        },
        encoding is Zstd ==> exists|window: u32|
            {
                &&& 13 <= window <= 27
                &&& window < 27 ==> max < pow2((window - 3) as nat)
                &&& 13 < window < 27 ==> max >= pow2((window - 4) as nat)
                &&& window == 27 ==> max >= pow2(23)
                &&& match #[trigger] zstd_decompressed(data@, window, (max + 1) as u64) {
                    Ok(out) => if out.len() <= max {
                        r matches Ok(v) && v@ == out
                    } else {
                        r matches Err(DecompressError::SizeExceeded(e)) && e.max == max
                            && e.codec@ == "zstd"@
                    },
                    Err(text) => r matches Err(DecompressError::Codec(t)) && t@ == text,
                }
            },
        !(encoding is Identity) ==> (r matches Ok(out) ==> out@.len() <= max),
{
    lemma_window_bounds(max as nat);
    let window = window_ceiling(max as nat) as u32;
    assert(read_limit(max) == max + 1);
    if window_log(max as nat) > 24 {
        lemma_pow2_strictly_increases(23, (window_log(max as nat) - 1) as nat);
    }
    let read = zstd_decompressed(data@, window, (max + 1) as u64);
}

/// What was read is judged by its length alone: it is given where it is within
/// the cap and fails for the size where it is not, and a failure to read is told
/// as it is.
pub proof fn lemma_reads_are_judged(
    read: Result<Vec<u8>, String>,
    max: usize,
    codec: &'static str,
    r: Result<Vec<u8>, DecompressError>,
)
    requires
        call_ensures(read_bounded, (read, max, codec), r),
    ensures
        read matches Ok(out) ==> (r is Ok <==> out@.len() <= max) && (r matches Ok(v) ==> v@
            == out@) && (r matches Err(e) ==> (e matches DecompressError::SizeExceeded(x) && x.max
            == max && x.codec@ == codec@)),
        read matches Err(text) ==> (r matches Err(DecompressError::Codec(t)) && t@ == text@),
{
}

/// A message that exceeds the cap exhausts a resource, and anything else that
/// keeps a message from being decompressed is an internal error. Either status
/// tells what was wrong: the codec and the cap in decimal, or what the codec
/// told.
pub proof fn lemma_decompression_failures_are_told(e: DecompressError, r: Status)
    requires
        call_ensures(decompress_error_to_status, (&e,), r),
    ensures
        e is SizeExceeded <==> r@.code == Code::ResourceExhausted,
        e is Codec <==> r@.code == Code::Internal,
        e matches DecompressError::Codec(text) ==> r@.message
            == "failed to decompress gRPC message: "@ + text@,
        e matches DecompressError::SizeExceeded(x) ==> exists|digits: Seq<char>|
            value_of(digits, 10) == x.max && r@.message == #[trigger] ("decompressed "@ + x.codec@
                + " message exceeds max_decompressed_size of "@ + digits + " bytes"@),
{
    if let DecompressError::SizeExceeded(x) = e {
        lemma_numeral_stands_for_its_number(x.max as nat, 10);
        let digits = decimal(x.max as nat);
        assert(value_of(digits, 10) == x.max && r@.message == ("decompressed "@ + x.codec@
            + " message exceeds max_decompressed_size of "@ + digits + " bytes"@));
    }
}

/// A message past the cap is told with the codec and the cap in decimal.
pub proof fn lemma_exceeded_size_is_told(e: DecompressedSizeExceeded, r: String)
    requires
        call_ensures(DecompressedSizeExceeded::message, (&e,), r),
    ensures
        exists|digits: Seq<char>|
            value_of(digits, 10) == e.max && r@ == #[trigger] ("decompressed "@ + e.codec@
                + " message exceeds max_decompressed_size of "@ + digits + " bytes"@),
{
    lemma_numeral_stands_for_its_number(e.max as nat, 10);
    let digits = decimal(e.max as nat);
    assert(value_of(digits, 10) == e.max && r@ == ("decompressed "@ + e.codec@
        + " message exceeds max_decompressed_size of "@ + digits + " bytes"@));
}

} // verus!
