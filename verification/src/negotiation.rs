//! Which bodies are compressed: what the two sides tell each other in headers.

use crate::buffer::buffered;
use crate::codec::CompressionEncoding;
use crate::compression::{CompressionBody, Direction, DEFAULT_MAX_DECOMPRESSED_SIZE};
use crate::headers::{
    accept_encoding_contains, accepts, all_visible, blank, bytes_equal, first_value, header_entries,
    header_get, header_insert, header_name, header_remove, is_item, is_space, is_word, lemma_lists,
    lemma_lower_name, lists, lookup_name, stands_alone, trim_end, trim_start, visible, without,
    HeadersFull, MAX_NAMES,
};
use crate::metadata::Entries;
use crate::middleware::GrpcMiddleware;
use http::HeaderMap;
use vstd::prelude::*;
use vstd::utf8::encode_utf8;

verus! {

/// Compression middleware configuration.
#[derive(Debug, Clone, Copy)]
pub struct CompressionMiddleware {
    /// The codec.
    pub encoding: CompressionEncoding,
    /// How many bytes a message may expand to.
    pub max_decompressed_size: usize,
}

impl CompressionMiddleware {
    /// Create a new compression middleware with the default cap on what a
    /// message may expand to.
    pub fn new(encoding: CompressionEncoding) -> (r: Self)
        ensures
            r.encoding == encoding,
            r.max_decompressed_size == DEFAULT_MAX_DECOMPRESSED_SIZE,
    {
        CompressionMiddleware { encoding, max_decompressed_size: DEFAULT_MAX_DECOMPRESSED_SIZE }
    }

    /// Create a gzip compression middleware.
    pub fn gzip() -> (r: Self)
        ensures
            r.encoding == CompressionEncoding::Gzip,
            r.max_decompressed_size == DEFAULT_MAX_DECOMPRESSED_SIZE,
    {
        Self::new(CompressionEncoding::Gzip)
    }

    /// Create a zstd compression middleware.
    pub fn zstd() -> (r: Self)
        ensures
            r.encoding == CompressionEncoding::Zstd,
            r.max_decompressed_size == DEFAULT_MAX_DECOMPRESSED_SIZE,
    {
        Self::new(CompressionEncoding::Zstd)
    }

    /// Set how many bytes a single message may expand to. The bound is for each
    /// message by itself, and is kept while the message is decompressed.
    pub fn with_max_decompressed_size(self, max_decompressed_size: usize) -> (r: Self)
        ensures
            r == (CompressionMiddleware { max_decompressed_size, ..self }),
    {
        CompressionMiddleware { max_decompressed_size, ..self }
    }

    /// Get the compression encoding.
    pub fn encoding(&self) -> (r: CompressionEncoding)
        ensures
            r == self.encoding,
    {
        self.encoding
    }

    /// Get the configured maximum decompressed message size.
    pub fn max_decompressed_size(&self) -> (r: usize)
        ensures
            r == self.max_decompressed_size,
    {
        self.max_decompressed_size
    }

    /// Wrap a server-side service so that it decompresses requests and
    /// compresses responses.
    pub fn wrap_server<S>(&self, service: S) -> (r: CompressionService<S>)
        ensures
            r == (CompressionService {
                inner: service,
                encoding: self.encoding,
                max_decompressed_size: self.max_decompressed_size,
            }),
    {
        CompressionService {
            inner: service,
            encoding: self.encoding,
            max_decompressed_size: self.max_decompressed_size,
        }
    }

    /// Wrap a client-side channel so that it compresses requests and
    /// decompresses responses.
    pub fn wrap_channel<S>(&self, channel: S) -> (r: CompressionClientService<S>)
        ensures
            r == (CompressionClientService {
                inner: channel,
                encoding: self.encoding,
                max_decompressed_size: self.max_decompressed_size,
            }),
    {
        CompressionClientService {
            inner: channel,
            encoding: self.encoding,
            max_decompressed_size: self.max_decompressed_size,
        }
    }
}

impl<S> GrpcMiddleware<S> for CompressionMiddleware {
    type Service = CompressionService<S>;

    fn wrap(self, service: S) -> (r: CompressionService<S>)
        ensures
            r == (CompressionService {
                inner: service,
                encoding: self.encoding,
                max_decompressed_size: self.max_decompressed_size,
            }),
    {
        self.wrap_server(service)
    }
}

/// The entry that tells in which encoding a body is.
pub open spec fn encoding_entry() -> Seq<u8> {
    encode_utf8("grpc-encoding"@)
}

/// The entry that tells which encodings are taken.
pub open spec fn accept_entry() -> Seq<u8> {
    encode_utf8("grpc-accept-encoding"@)
}

/// Whether the entries tell that a body is in the named encoding.
pub open spec fn encoded_with(entries: Entries, name: Seq<char>) -> bool {
    first_value(entries, lookup_name(encoding_entry())) == Some(encode_utf8(name))
}

/// What a server does with a request and its response.
#[derive(Debug, Clone, Copy, PartialEq, Eq, Structural)]
pub struct ServerPlan {
    /// The request body is decompressed.
    pub decompress: bool,
    /// The response body is compressed.
    pub compress_response: bool,
}

/// What a server with an encoding makes of the headers of a request: its plan,
/// and the headers that the inner service gets. Without an encoding, nothing is
/// touched.
pub open spec fn server_request(encoding: CompressionEncoding, entries: Entries) -> (
    ServerPlan,
    Entries,
) {
    match encoding.name() {
        None => (ServerPlan { decompress: false, compress_response: false }, entries),
        Some(name) => {
            let decompress = encoded_with(entries, name);
            let plan = ServerPlan { decompress, compress_response: accepts(entries, name) };
            (
                plan,
                if decompress {
                    without(entries, lookup_name(encoding_entry()))
                } else {
                    entries
                },
            )
        },
    }
}

/// The headers of a message whose body is compressed.
pub open spec fn marked(encoding: CompressionEncoding, entries: Entries) -> Entries {
    match encoding.name() {
        None => entries,
        Some(name) => entries.insert(encoding_entry(), seq![encode_utf8(name)]),
    }
}

/// What a client with an encoding sends as the headers of a request.
pub open spec fn client_request(encoding: CompressionEncoding, entries: Entries) -> Entries {
    match encoding.name() {
        None => entries,
        Some(name) => marked(encoding, entries).insert(accept_entry(), seq![encode_utf8(name)]),
    }
}

/// What a client with an encoding makes of the headers of a response: whether
/// the body is decompressed, and the headers that the caller gets.
pub open spec fn client_response(encoding: CompressionEncoding, entries: Entries) -> (
    bool,
    Entries,
) {
    match encoding.name() {
        None => (false, entries),
        Some(name) => if encoded_with(entries, name) {
            (true, without(entries, lookup_name(encoding_entry())))
        } else {
            (false, entries)
        },
    }
}

/// Server-side service produced by [`CompressionMiddleware::wrap_server`].
pub struct CompressionService<S> {
    /// The service that gets decompressed requests.
    pub inner: S,
    /// The codec.
    pub encoding: CompressionEncoding,
    /// How many bytes a message may expand to.
    pub max_decompressed_size: usize,
}

impl<S: Clone> Clone for CompressionService<S> {
    fn clone(&self) -> (r: Self)
        ensures
            cloned(self.inner, r.inner),
            r.encoding == self.encoding,
            r.max_decompressed_size == self.max_decompressed_size,
    {
        CompressionService {
            inner: self.inner.clone(),
            encoding: self.encoding,
            max_decompressed_size: self.max_decompressed_size,
        }
    }
}

impl<S> CompressionService<S> {
    /// Decides on a request by its headers. The request body is decompressed
    /// where the client told that it is in this encoding, and the response is
    /// compressed where the client takes this encoding.
    pub fn on_request(&self, headers: &mut HeaderMap) -> (r: ServerPlan)
        ensures
            server_request(self.encoding, header_entries(*old(headers))) == (
                r,
                header_entries(*final(headers)),
            ),
    {
        let our_name = match self.encoding.wire_name() {
            Some(name) => name,
            None => return ServerPlan { decompress: false, compress_response: false },
        };
        let compress_response = accept_encoding_contains(headers, our_name);
        let decompress = is_encoded_with(headers, our_name);
        if decompress {
            header_remove(headers, "grpc-encoding");
        }
        ServerPlan { decompress, compress_response }
    }

    /// Marks the headers of a response that is compressed according to the
    /// plan, and tells whether it is. Fails where the headers have no place for
    /// the mark.
    pub fn on_response(&self, plan: ServerPlan, headers: &mut HeaderMap) -> (r: Result<
        bool,
        HeadersFull,
    >)
        ensures
            match r {
                Ok(marks) => marks == (plan.compress_response && self.encoding.name() is Some)
                    && header_entries(*final(headers)) == (if marks {
                    marked(self.encoding, header_entries(*old(headers)))
                } else {
                    header_entries(*old(headers))
                }),
                Err(_) => plan.compress_response && self.encoding.name() is Some && header_entries(
                    *old(headers),
                ).dom().len() > MAX_NAMES && header_entries(*final(headers)) == header_entries(
                    *old(headers),
                ),
            },
    {
        if !plan.compress_response {
            return Ok(false);
        }
        match self.encoding.wire_name() {
            Some(name) => if mark(headers, self.encoding, name) {
                Ok(true)
            } else {
                Err(HeadersFull)
            },
            None => Ok(false),
        }
    }

    /// The body that decompresses a request.
    pub fn request_body<B>(&self, body: B) -> (r: CompressionBody<B>)
        ensures
            r.inner == body,
            r.encoding == self.encoding,
            r.direction == Direction::Decompress,
            r.max_decompressed_size == self.max_decompressed_size,
            buffered(r.buf) == Seq::<u8>::empty(),
            !r.inner_done,
    {
        CompressionBody::new(
            body,
            self.encoding,
            Direction::Decompress,
            self.max_decompressed_size,
        )
    }

    /// The body that compresses a response.
    pub fn response_body<B>(&self, body: B) -> (r: CompressionBody<B>)
        ensures
            r.inner == body,
            r.encoding == self.encoding,
            r.direction == Direction::Compress,
            r.max_decompressed_size == self.max_decompressed_size,
            buffered(r.buf) == Seq::<u8>::empty(),
            !r.inner_done,
    {
        CompressionBody::new(body, self.encoding, Direction::Compress, self.max_decompressed_size)
    }
}

/// Client-side service produced by [`CompressionMiddleware::wrap_channel`].
pub struct CompressionClientService<S> {
    /// The channel that gets compressed requests.
    pub inner: S,
    /// The codec.
    pub encoding: CompressionEncoding,
    /// How many bytes a message may expand to.
    pub max_decompressed_size: usize,
}

impl<S: Clone> Clone for CompressionClientService<S> {
    fn clone(&self) -> (r: Self)
        ensures
            cloned(self.inner, r.inner),
            r.encoding == self.encoding,
            r.max_decompressed_size == self.max_decompressed_size,
    {
        CompressionClientService {
            inner: self.inner.clone(),
            encoding: self.encoding,
            max_decompressed_size: self.max_decompressed_size,
        }
    }
}

impl<S> CompressionClientService<S> {
    /// Marks the headers of a request, and tells whether its body is
    /// compressed. Fails where the headers have no place for both marks; the
    /// first one may then stand there.
    pub fn on_request(&self, headers: &mut HeaderMap) -> (r: Result<bool, HeadersFull>)
        ensures
            match r {
                Ok(compresses) => compresses == (self.encoding.name() is Some) && header_entries(
                    *final(headers),
                ) == client_request(self.encoding, header_entries(*old(headers))),
                Err(_) => self.encoding.name() is Some && header_entries(
                    *old(headers),
                ).dom().len() >= MAX_NAMES && (header_entries(*final(headers)) == header_entries(
                    *old(headers),
                ) || header_entries(*final(headers)) == marked(
                    self.encoding,
                    header_entries(*old(headers)),
                )),
            },
    {
        match self.encoding.wire_name() {
            Some(name) => {
                proof {
                    lemma_wire_texts();
                }
                if mark(headers, self.encoding, name) && header_insert(
                    headers,
                    "grpc-accept-encoding",
                    name,
                ) {
                    Ok(true)
                } else {
                    Err(HeadersFull)
                }
            },
            None => Ok(false),
        }
    }

    /// Decides on a response by its headers: its body is decompressed where
    /// the server used this encoding.
    pub fn on_response(&self, headers: &mut HeaderMap) -> (r: bool)
        ensures
            client_response(self.encoding, header_entries(*old(headers))) == (
                r,
                header_entries(*final(headers)),
            ),
    {
        match self.encoding.wire_name() {
            Some(name) => {
                let decompress = is_encoded_with(headers, name);
                if decompress {
                    header_remove(headers, "grpc-encoding");
                }
                decompress
            },
            None => false,
        }
    }

    /// The body that compresses a request.
    pub fn request_body<B>(&self, body: B) -> (r: CompressionBody<B>)
        ensures
            r.inner == body,
            r.encoding == self.encoding,
            r.direction == Direction::Compress,
            r.max_decompressed_size == self.max_decompressed_size,
            buffered(r.buf) == Seq::<u8>::empty(),
            !r.inner_done,
    {
        CompressionBody::new(body, self.encoding, Direction::Compress, self.max_decompressed_size)
    }

    /// The body that decompresses a response.
    pub fn response_body<B>(&self, body: B) -> (r: CompressionBody<B>)
        ensures
            r.inner == body,
            r.encoding == self.encoding,
            r.direction == Direction::Decompress,
            r.max_decompressed_size == self.max_decompressed_size,
            buffered(r.buf) == Seq::<u8>::empty(),
            !r.inner_done,
    {
        CompressionBody::new(
            body,
            self.encoding,
            Direction::Decompress,
            self.max_decompressed_size,
        )
    }
}

fn is_encoded_with(headers: &HeaderMap, name: &str) -> (r: bool)
    ensures
        r == encoded_with(header_entries(*headers), name@),
{
    match header_get(headers, "grpc-encoding") {
        Some(value) => bytes_equal(value, name.as_bytes()),
        None => false,
    }
}

fn mark(headers: &mut HeaderMap, encoding: CompressionEncoding, name: &'static str) -> (r: bool)
    requires
        encoding.name() == Some(name@),
    ensures
        header_entries(*final(headers)) == (if r {
            marked(encoding, header_entries(*old(headers)))
        } else {
            header_entries(*old(headers))
        }),
        header_entries(*final(headers)).dom().len() <= header_entries(*old(headers)).dom().len()
            + 1,
        header_entries(*old(headers)).dom().len() <= MAX_NAMES ==> r,
{
    proof {
        lemma_wire_texts();
    }
    header_insert(headers, "grpc-encoding", name)
}

proof fn lemma_wire_texts()
    ensures
        header_name(encoding_entry()) == Some(encoding_entry()),
        lookup_name(encoding_entry()) == Some(encoding_entry()),
        header_name(accept_entry()) == Some(accept_entry()),
        lookup_name(accept_entry()) == Some(accept_entry()),
        encoding_entry() != accept_entry(),
        all_visible(encode_utf8("gzip"@)),
        all_visible(encode_utf8("zstd"@)),
        encode_utf8("gzip"@).len() == 4,
        encode_utf8("zstd"@).len() == 4,
        encode_utf8("gzip"@) != encode_utf8("zstd"@),
        forall|i: int| 0 <= i < 4 ==> 0x61 <= #[trigger] encode_utf8("gzip"@)[i] <= 0x7a,
        forall|i: int| 0 <= i < 4 ==> 0x61 <= #[trigger] encode_utf8("zstd"@)[i] <= 0x7a,
{
    reveal_strlit("grpc-encoding");
    reveal_strlit("grpc-accept-encoding");
    reveal_strlit("gzip");
    reveal_strlit("zstd");
    lemma_lower_name("grpc-encoding"@);
    lemma_lower_name("grpc-accept-encoding"@);
    lemma_lower_name("gzip"@);
    lemma_lower_name("zstd"@);
    assert(encode_utf8("gzip"@)[0] == 'g' as u8);
    assert(encode_utf8("zstd"@)[0] == 'z' as u8);
}

proof fn lemma_single_item(name: Seq<u8>)
    requires
        name.len() > 0,
        forall|i: int| 0 <= i < name.len() ==> 0x61 <= #[trigger] name[i] <= 0x7a,
    ensures
        lists(name, name),
{
    assert(name.subrange(0, name.len() as int) =~= name);
    assert(is_item(name, 0, name.len() as int));
    assert(!blank(name[0]) && !blank(name.last()));
    assert(trim_end(trim_start(name)) == name);
}

/// A request that a client sends with an encoding is decompressed by a server
/// with the same encoding, and its response is compressed; the client
/// decompresses that response. Neither side leaves its mark to the other's
/// inner service or caller.
pub proof fn lemma_same_encoding_agrees(
    encoding: CompressionEncoding,
    request: Entries,
    response: Entries,
)
    requires
        !(encoding is Identity),
    ensures
        server_request(encoding, client_request(encoding, request)).0 == (ServerPlan {
            decompress: true,
            compress_response: true,
        }),
        !server_request(encoding, client_request(encoding, request)).1.dom().contains(
            encoding_entry(),
        ),
        client_response(encoding, marked(encoding, response)).0,
        client_response(encoding, marked(encoding, response)).1 == response.remove(
            encoding_entry(),
        ),
{
    lemma_wire_texts();
    let name = encoding.name()->0;
    lemma_single_item(encode_utf8(name));
    assert(marked(encoding, response).remove(encoding_entry()) =~= response.remove(
        encoding_entry(),
    ));
}

/// A request or a response in another encoding, or in none, is passed on as it
/// is.
pub proof fn lemma_other_encoding_passes(
    ours: CompressionEncoding,
    theirs: CompressionEncoding,
    entries: Entries,
)
    requires
        ours != theirs,
    ensures
        !(theirs is Identity) ==> server_request(ours, client_request(theirs, entries)) == (
            ServerPlan { decompress: false, compress_response: false },
            client_request(theirs, entries),
        ),
        !(theirs is Identity) ==> client_response(ours, marked(theirs, entries)) == (
            false,
            marked(theirs, entries),
        ),
        !entries.dom().contains(encoding_entry()) ==> client_response(ours, entries) == (
            false,
            entries,
        ),
        !entries.dom().contains(encoding_entry()) ==> !server_request(ours, entries).0.decompress
            && server_request(ours, entries).1 == entries,
{
    lemma_wire_texts();
    if ours.name() is Some && theirs.name() is Some {
        let list = encode_utf8(theirs.name()->0);
        let name = encode_utf8(ours.name()->0);
        assert forall|i: int, j: int| #[trigger] is_item(list, i, j) implies trim_end(
            trim_start(list.subrange(i, j)),
        ) != name by {
            if i > 0 {
                assert(list[i - 1] == 0x2c);
            }
            if j < list.len() {
                assert(list[j] == 0x2c);
            }
            assert(list.subrange(0, list.len() as int) =~= list);
            assert(!blank(list[0]) && !blank(list.last()));
        }
    }
}

/// The codec's name on the wire, and none for no compression.
pub open spec fn codec_name(encoding: CompressionEncoding) -> Option<Seq<u8>> {
    match encoding {
        CompressionEncoding::Gzip => Some(encode_utf8("gzip"@)),
        CompressionEncoding::Zstd => Some(encode_utf8("zstd"@)),
        CompressionEncoding::Identity => None,
    }
}

/// Whether the response to a request is compressed rests on
/// `grpc-accept-encoding` alone: it is just where the first value of that entry
/// is visible text in which the codec's name stands alone between commas or
/// ends, whether or not the request itself is compressed.
pub proof fn lemma_response_follows_accepted_encodings<S>(
    service: CompressionService<S>,
    headers: &mut HeaderMap,
    plan: ServerPlan,
)
    requires
        call_ensures(CompressionService::<S>::on_request, (&service, headers), plan),
    ensures
        ({
            let values = header_entries(*old(headers))[encode_utf8("grpc-accept-encoding"@)];
            plan.compress_response <==> {
                &&& codec_name(service.encoding) is Some
                &&& header_entries(*old(headers)).dom().contains(
                    encode_utf8("grpc-accept-encoding"@),
                )
                &&& values.len() > 0
                &&& forall|k: int|
                    0 <= k < values[0].len() ==> 32 <= #[trigger] values[0][k] <= 126
                        || values[0][k] == 9
                &&& exists|i: int, a: int, b: int, j: int| #[trigger]
                    stands_alone(values[0], codec_name(service.encoding)->0, i, a, b, j)
            }
        }),
{
    lemma_wire_texts();
    if let Some(name) = codec_name(service.encoding) {
        let value = header_entries(*headers)[encode_utf8("grpc-accept-encoding"@)][0];
        assert forall|k: int| 0 <= k < name.len() implies !is_space(#[trigger] name[k]) && name[k]
            != ',' as u8 by {
            assert(0x61 <= name[k] <= 0x7a);
        }
        lemma_lists(value, name);
        if all_visible(value) {
            assert forall|k: int| 0 <= k < value.len() implies 32 <= #[trigger] value[k] <= 126
                || value[k] == 9 by {
                assert(visible(value[k]));
            }
        }
        if forall|k: int| 0 <= k < value.len() ==> 32 <= #[trigger] value[k] <= 126 || value[k]
            == 9 {
            assert(all_visible(value));
        }
    }
}

/// Two requests that take the same encodings have their responses compressed
/// alike, whatever else they hold and however they are encoded themselves.
pub proof fn lemma_request_encoding_leaves_response_alone<S>(
    service: CompressionService<S>,
    one: &mut HeaderMap,
    other: &mut HeaderMap,
    plan: ServerPlan,
    other_plan: ServerPlan,
)
    requires
        call_ensures(CompressionService::<S>::on_request, (&service, one), plan),
        call_ensures(CompressionService::<S>::on_request, (&service, other), other_plan),
        ({
            let name = encode_utf8("grpc-accept-encoding"@);
            &&& header_entries(*one).dom().contains(name) == header_entries(
                *other,
            ).dom().contains(name)
            &&& header_entries(*one)[name] == header_entries(*other)[name]
        }),
    ensures
        plan.compress_response == other_plan.compress_response,
{
    lemma_wire_texts();
}

/// Whether a request is decompressed rests on `grpc-encoding` alone: it is just
/// where the first value of that entry is the codec's name. The entry is then
/// removed and nothing else; otherwise the headers are left as they are.
pub proof fn lemma_request_follows_its_encoding<S>(
    service: CompressionService<S>,
    headers: &mut HeaderMap,
    plan: ServerPlan,
)
    requires
        call_ensures(CompressionService::<S>::on_request, (&service, headers), plan),
    ensures
        ({
            let name = encode_utf8("grpc-encoding"@);
            let before = header_entries(*old(headers));
            &&& plan.decompress <==> before.dom().contains(name) && before[name].len() > 0 && Some(
                before[name][0],
            ) == codec_name(service.encoding)
            &&& plan.decompress ==> header_entries(*final(headers)) == before.remove(name)
            &&& !plan.decompress ==> header_entries(*final(headers)) == before
        }),
{
    lemma_wire_texts();
}

/// A response that is compressed tells the codec's name, as the only value of
/// `grpc-encoding`, and keeps every other header. One that is not compressed
/// keeps all of them. Headers with few names always have a place for the mark.
pub proof fn lemma_compressed_response_is_marked<S>(
    service: CompressionService<S>,
    plan: ServerPlan,
    headers: &mut HeaderMap,
    r: Result<bool, HeadersFull>,
)
    requires
        call_ensures(CompressionService::<S>::on_response, (&service, plan, headers), r),
    ensures
        ({
            let name = encode_utf8("grpc-encoding"@);
            let before = header_entries(*old(headers));
            let after = header_entries(*final(headers));
            &&& before.dom().len() <= 6553 ==> r is Ok
            &&& r == Ok::<bool, HeadersFull>(true) ==> plan.compress_response && codec_name(
                service.encoding,
            ) is Some && after.dom().contains(name) && after[name] == seq![
                codec_name(service.encoding)->0,
            ] && after.remove(name) == before.remove(name)
            &&& r == Ok::<bool, HeadersFull>(false) ==> !(plan.compress_response && codec_name(
                service.encoding,
            ) is Some) && after == before
            &&& r is Err ==> after == before
        }),
{
    lemma_wire_texts();
    let name = encode_utf8("grpc-encoding"@);
    let before = header_entries(*headers);
    assert(marked(service.encoding, before).remove(name) =~= before.remove(name));
}

/// A request that is compressed tells the codec's name, as the only value of
/// `grpc-encoding` and of `grpc-accept-encoding`, and keeps every other header.
pub proof fn lemma_compressed_request_is_marked<S>(
    service: CompressionClientService<S>,
    headers: &mut HeaderMap,
    r: Result<bool, HeadersFull>,
)
    requires
        call_ensures(CompressionClientService::<S>::on_request, (&service, headers), r),
    ensures
        ({
            let encoding = encode_utf8("grpc-encoding"@);
            let accept = encode_utf8("grpc-accept-encoding"@);
            let before = header_entries(*old(headers));
            let after = header_entries(*final(headers));
            &&& before.dom().len() < 6553 ==> r is Ok
            &&& r matches Ok(compresses) ==> compresses == codec_name(service.encoding) is Some
            &&& r == Ok::<bool, HeadersFull>(true) ==> after.dom().contains(encoding)
                && after.dom().contains(accept) && after[encoding] == seq![
                codec_name(service.encoding)->0,
            ] && after[accept] == seq![codec_name(service.encoding)->0] && after.remove(
                encoding,
            ).remove(accept) == before.remove(encoding).remove(accept)
            &&& r == Ok::<bool, HeadersFull>(false) ==> after == before
        }),
{
    lemma_wire_texts();
    let encoding = encode_utf8("grpc-encoding"@);
    let accept = encode_utf8("grpc-accept-encoding"@);
    let before = header_entries(*headers);
    assert(client_request(service.encoding, before).remove(encoding).remove(accept)
        =~= before.remove(encoding).remove(accept));
}

/// A response is decompressed just where the first value of `grpc-encoding` is
/// the codec's name. The entry is then removed and nothing else; otherwise the
/// headers are left as they are.
pub proof fn lemma_response_follows_its_encoding<S>(
    service: CompressionClientService<S>,
    headers: &mut HeaderMap,
    r: bool,
)
    requires
        call_ensures(CompressionClientService::<S>::on_response, (&service, headers), r),
    ensures
        ({
            let name = encode_utf8("grpc-encoding"@);
            let before = header_entries(*old(headers));
            &&& r <==> before.dom().contains(name) && before[name].len() > 0 && Some(
                before[name][0],
            ) == codec_name(service.encoding)
            &&& r ==> header_entries(*final(headers)) == before.remove(name)
            &&& !r ==> header_entries(*final(headers)) == before
        }),
{
    lemma_wire_texts();
}

/// A server decompresses requests and compresses responses, and a client the
/// other way round, all with the codec and the cap that the middleware was made
/// with.
pub proof fn lemma_sides_rewrite_opposite_ways<S, B>(
    middleware: CompressionMiddleware,
    service: S,
    channel: S,
    body: B,
    server: CompressionService<S>,
    client: CompressionClientService<S>,
    requested: CompressionBody<B>,
    responded: CompressionBody<B>,
    sent: CompressionBody<B>,
    received: CompressionBody<B>,
)
    requires
        call_ensures(CompressionMiddleware::wrap_server::<S>, (&middleware, service), server),
        call_ensures(CompressionMiddleware::wrap_channel::<S>, (&middleware, channel), client),
        call_ensures(CompressionService::<S>::request_body::<B>, (&server, body), requested),
        call_ensures(CompressionService::<S>::response_body::<B>, (&server, body), responded),
        call_ensures(CompressionClientService::<S>::request_body::<B>, (&client, body), sent),
        call_ensures(CompressionClientService::<S>::response_body::<B>, (&client, body), received),
    ensures
        requested.direction is Decompress,
        responded.direction is Compress,
        sent.direction is Compress,
        received.direction is Decompress,
        forall|b: CompressionBody<B>|
            b == requested || b == responded || b == sent || b == received ==> #[trigger] b.inner
                == body && b.encoding == middleware.encoding && b.max_decompressed_size
                == middleware.max_decompressed_size && !b.inner_done && buffered(b.buf)
                == Seq::<u8>::empty(),
        server.inner == service,
        client.inner == channel,
{
}

/// Compression middleware lets a message expand to four MiB where nothing else
/// was set, has the codec that it is named for, and tells what it holds.
pub proof fn lemma_compression_settings(
    encoding: CompressionEncoding,
    fresh: CompressionMiddleware,
    gzip: CompressionMiddleware,
    zstd: CompressionMiddleware,
    max: usize,
    capped: CompressionMiddleware,
    told: CompressionEncoding,
    cap: usize,
)
    requires
        call_ensures(CompressionMiddleware::new, (encoding,), fresh),
        call_ensures(CompressionMiddleware::gzip, (), gzip),
        call_ensures(CompressionMiddleware::zstd, (), zstd),
        call_ensures(CompressionMiddleware::with_max_decompressed_size, (fresh, max), capped),
        call_ensures(CompressionMiddleware::encoding, (&capped,), told),
        call_ensures(CompressionMiddleware::max_decompressed_size, (&capped,), cap),
    ensures
        fresh.encoding == encoding && fresh.max_decompressed_size == 4194304,
        gzip.encoding is Gzip && gzip.max_decompressed_size == 4194304,
        zstd.encoding is Zstd && zstd.max_decompressed_size == 4194304,
        capped.encoding == encoding && capped.max_decompressed_size == max,
        told == encoding,
        cap == max,
{
}

/// Whether an encoding is taken rests on the first value of
/// `grpc-accept-encoding`: it is just where that is visible text in which the
/// name stands alone between commas or ends.
pub proof fn lemma_taken_encodings(headers: HeaderMap, name: &str, r: bool)
    requires
        call_ensures(accept_encoding_contains, (&headers, name), r),
        is_word(encode_utf8(name@)),
    ensures
        ({
            let values = header_entries(headers)[encode_utf8("grpc-accept-encoding"@)];
            r <==> {
                &&& header_entries(headers).dom().contains(encode_utf8("grpc-accept-encoding"@))
                &&& values.len() > 0
                &&& all_visible(values[0])
                &&& exists|i: int, a: int, b: int, j: int| #[trigger]
                    stands_alone(values[0], encode_utf8(name@), i, a, b, j)
            }
        }),
{
    lemma_wire_texts();
    lemma_lists(
        header_entries(headers)[encode_utf8("grpc-accept-encoding"@)][0],
        encode_utf8(name@),
    );
}

} // verus!
