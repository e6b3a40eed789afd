//! Interceptors: what is read from and put into the metadata of requests.

use crate::headers::{
    all_visible, bytes_equal, bytes_of, is_lower, is_visible, lemma_lower_name,
    lemma_name_spells_itself, lookup_name, visible, HeadersFull, MAX_NAMES,
};
use crate::metadata::{
    ascii_key, ends_with_bin, has_room_for, is_value, metadata_entries, metadata_get, metadata_value_of,
    set_metadata, with_value, Entries,
};
use crate::status::{Code, Status, StatusView};
use crate::text::{
    is_plain, lemma_encode_concat, lemma_numeral_injective, lemma_numeral_plain,
    lemma_numeral_stands_for_its_number, lower_hex, opt_text, to_lower_hex, value_of,
};
use crate::time::{epoch_now, is_epoch_reading, nanos};
use std::time::Duration;
use tonic::metadata::MetadataMap;
use vstd::prelude::*;
use vstd::slice::slice_subrange;
use vstd::utf8::{
    encode_utf8, encode_utf8_decode_utf8, is_ascii_chars, is_ascii_chars_encode_utf8,
};

verus! {

/// Logging interceptor that logs requests.
#[derive(Debug, Clone, Copy)]
pub struct LoggingInterceptor {
    /// Whether metadata is logged.
    pub log_metadata: bool,
}

impl LoggingInterceptor {
    /// Create a new logging interceptor.
    pub fn new() -> (r: Self)
        ensures
            !r.log_metadata,
    {
        LoggingInterceptor { log_metadata: false }
    }

    /// Enable logging of metadata.
    pub fn with_metadata(self) -> (r: Self)
        ensures
            r.log_metadata,
    {
        LoggingInterceptor { log_metadata: true }
    }
}

impl Default for LoggingInterceptor {
    fn default() -> (r: Self)
        ensures
            !r.log_metadata,
    {
        LoggingInterceptor::new()
    }
}

/// Compares two byte strings for equality. Every byte is looked at, so that
/// how long it takes does not tell how many leading bytes agree.
pub fn constant_time_eq(a: &[u8], b: &[u8]) -> (r: bool)
    ensures
        r == (a@ == b@),
{
    if a.len() != b.len() {
        return false;
    }
    let mut diff: u8 = 0;
    let mut i: usize = 0;
    assert(a@.take(0) =~= b@.take(0));
    while i < a.len()
        invariant
            i <= a@.len(),
            a@.len() == b@.len(),
            diff == 0 <==> a@.take(i as int) == b@.take(i as int),
        decreases a@.len() - i,
    {
        let x = a[i];
        let y = b[i];
        proof {
            assert((diff | (x ^ y)) == 0 <==> diff == 0 && x == y) by (bit_vector);
            let (p, q) = (a@.take(i as int), b@.take(i as int));
            assert(a@.take(i + 1) =~= p.push(x));
            assert(b@.take(i + 1) =~= q.push(y));
            assert(p.push(x).drop_last() =~= p);
            assert(q.push(y).drop_last() =~= q);
            assert(p.push(x).last() == x && q.push(y).last() == y);
        }
        diff = diff | (x ^ y);
        i = i + 1;
    }
    assert(a@.take(i as int) =~= a@);
    assert(b@.take(i as int) =~= b@);
    diff == 0
}

/// Decides on requests by their metadata, in a way that the caller brings.
pub trait AuthValidator {
    /// Whether the validator may be asked.
    spec fn may_check(&self, metadata: &MetadataMap) -> bool;

    /// Whether the validator may give this answer.
    spec fn may_answer(
        &self,
        metadata: &MetadataMap,
        answer: std::result::Result<(), Status>,
    ) -> bool;

    /// Decides on a request.
    fn check(&self, metadata: &MetadataMap) -> (r: std::result::Result<(), Status>)
        requires
            self.may_check(metadata),
        ensures
            self.may_answer(metadata, r),
    ;
}

/// The validator of an interceptor that goes by a token or a key and is never
/// asked. Asked all the same, it refuses.
#[derive(Debug, Clone, Copy)]
pub struct NoValidator;

impl AuthValidator for NoValidator {
    open spec fn may_check(&self, metadata: &MetadataMap) -> bool {
        true
    }

    open spec fn may_answer(
        &self,
        metadata: &MetadataMap,
        answer: std::result::Result<(), Status>,
    ) -> bool {
        answer matches Err(s) && s@ == StatusView::plain(Code::Unauthenticated, "No validator"@)
    }

    fn check(&self, metadata: &MetadataMap) -> (r: std::result::Result<(), Status>) {
        Err(Status::new(Code::Unauthenticated, String::from("No validator")))
    }
}

/// A function as a validator.
#[derive(Debug)]
pub struct FnValidator<F>(pub F);

impl<F: Clone> Clone for FnValidator<F> {
    fn clone(&self) -> (r: Self)
        ensures
            cloned(self.0, r.0),
    {
        FnValidator(self.0.clone())
    }
}

impl<F: Fn(&MetadataMap) -> std::result::Result<(), Status>> AuthValidator for FnValidator<F> {
    open spec fn may_check(&self, metadata: &MetadataMap) -> bool {
        call_requires(self.0, (metadata,))
    }

    open spec fn may_answer(
        &self,
        metadata: &MetadataMap,
        answer: std::result::Result<(), Status>,
    ) -> bool {
        call_ensures(self.0, (metadata,), answer)
    }

    fn check(&self, metadata: &MetadataMap) -> (r: std::result::Result<(), Status>) {
        (self.0)(metadata)
    }
}

/// How requests are authenticated.
pub enum AuthType<V> {
    /// By a bearer token in `authorization`.
    Bearer(String),
    /// By a key under a header of its own.
    ApiKey { header: String, key: String },
    /// By a validator.
    Custom(V),
}

/// Authentication interceptor: attaches credentials to requests, or validates
/// those of requests that come in.
pub struct AuthInterceptor<V = NoValidator> {
    /// How requests are authenticated.
    pub auth_type: AuthType<V>,
}

/// Whether one way of authenticating is a copy of another.
pub open spec fn same_auth<V: Clone>(a: AuthType<V>, b: AuthType<V>) -> bool {
    match (a, b) {
        (AuthType::Bearer(s), AuthType::Bearer(t)) => s@ == t@,
        (
            AuthType::ApiKey { header: h, key: k },
            AuthType::ApiKey { header: i, key: l },
        ) => h@ == i@ && k@ == l@,
        (AuthType::Custom(v), AuthType::Custom(w)) => cloned(v, w),
        _ => false,
    }
}

impl<V: Clone> Clone for AuthInterceptor<V> {
    fn clone(&self) -> (r: Self)
        ensures
            same_auth(self.auth_type, r.auth_type),
    {
        let auth_type = match &self.auth_type {
            AuthType::Bearer(token) => AuthType::Bearer(token.clone()),
            AuthType::ApiKey { header, key } => AuthType::ApiKey {
                header: header.clone(),
                key: key.clone(),
            },
            AuthType::Custom(v) => AuthType::Custom(v.clone()),
        };
        AuthInterceptor { auth_type }
    }
}

/// What follows the prefix, where the bytes start with it.
pub open spec fn after_prefix(s: Seq<u8>, prefix: Seq<u8>) -> Option<Seq<u8>> {
    if prefix.is_prefix_of(s) {
        Some(s.skip(prefix.len() as int))
    } else {
        None
    }
}

/// The text that is found in the metadata under a key, as bytes.
pub open spec fn text_under(entries: Entries, key: Seq<char>) -> Option<Seq<u8>> {
    match metadata_value_of(entries, encode_utf8(key)) {
        Some(v) => if all_visible(v) {
            Some(v)
        } else {
            None
        },
        None => None,
    }
}

/// The answer to a request by what it brought and what is expected.
pub open spec fn credential_answer(
    provided: Option<Seq<u8>>,
    expected: Seq<u8>,
    missing: Seq<char>,
    invalid: Seq<char>,
) -> std::result::Result<(), StatusView> {
    match provided {
        None => Err(StatusView::plain(Code::Unauthenticated, missing)),
        Some(p) => if p == expected {
            Ok(())
        } else {
            Err(StatusView::plain(Code::Unauthenticated, invalid))
        },
    }
}

/// The answer to a request that should bring a bearer token.
pub open spec fn bearer_answer(entries: Entries, token: Seq<char>) -> std::result::Result<
    (),
    StatusView,
> {
    let provided = match text_under(entries, "authorization"@) {
        Some(v) => after_prefix(v, encode_utf8("Bearer "@)),
        None => None,
    };
    credential_answer(
        provided,
        encode_utf8(token),
        "Missing bearer token"@,
        "Invalid token"@,
    )
}

/// The answer to a request that should bring an API key.
pub open spec fn api_key_answer(
    entries: Entries,
    header: Seq<char>,
    key: Seq<char>,
) -> std::result::Result<(), StatusView> {
    credential_answer(
        text_under(entries, header),
        encode_utf8(key),
        "Missing API key"@,
        "Invalid API key"@,
    )
}

/// Whether an answer is the one told.
pub open spec fn answers(
    r: std::result::Result<(), Status>,
    told: std::result::Result<(), StatusView>,
) -> bool {
    match r {
        Ok(()) => told is Ok,
        Err(s) => told == Err::<(), StatusView>(s@),
    }
}

impl AuthInterceptor<NoValidator> {
    /// Create a bearer token interceptor.
    pub fn bearer(token: impl Into<String>) -> (r: Self)
        ensures
            r.auth_type matches AuthType::Bearer(t) && call_ensures(
                Into::<String>::into,
                (token,),
                t,
            ),
    {
        AuthInterceptor { auth_type: AuthType::Bearer(token.into()) }
    }

    /// Create an API key interceptor.
    pub fn api_key(header: impl Into<String>, key: impl Into<String>) -> (r: Self)
        ensures
            r.auth_type matches AuthType::ApiKey { header: h, key: k } && call_ensures(
                Into::<String>::into,
                (header,),
                h,
            ) && call_ensures(Into::<String>::into, (key,), k),
    {
        AuthInterceptor { auth_type: AuthType::ApiKey { header: header.into(), key: key.into() } }
    }
}

impl<F: Fn(&MetadataMap) -> std::result::Result<(), Status>> AuthInterceptor<FnValidator<F>> {
    /// Create a custom auth interceptor.
    pub fn custom(validator: F) -> (r: Self)
        ensures
            r.auth_type == AuthType::Custom(FnValidator(validator)),
    {
        AuthInterceptor { auth_type: AuthType::Custom(FnValidator(validator)) }
    }
}

impl<V: AuthValidator> AuthInterceptor<V> {
    /// Whether a request with this metadata may be validated: a validator of
    /// the caller's own may have conditions of its own.
    pub open spec fn may_validate(&self, metadata: &MetadataMap) -> bool {
        self.auth_type matches AuthType::Custom(v) ==> v.may_check(metadata)
    }

    /// Validate request authentication (for server-side use).
    pub fn validate(&self, metadata: &MetadataMap) -> (r: std::result::Result<(), Status>)
        requires
            self.may_validate(metadata),
        ensures
            match self.auth_type {
                AuthType::Bearer(token) => answers(
                    r,
                    bearer_answer(metadata_entries(*metadata), token@),
                ),
                AuthType::ApiKey { header, key } => answers(
                    r,
                    api_key_answer(metadata_entries(*metadata), header@, key@),
                ),
                AuthType::Custom(v) => v.may_answer(metadata, r),
            },
    {
        match &self.auth_type {
            AuthType::Bearer(expected) => {
                let provided = match visible_text(metadata, "authorization") {
                    Some(value) => strip_prefix(value, "Bearer ".as_bytes()),
                    None => None,
                };
                check_credential(
                    provided,
                    expected.as_str().as_bytes(),
                    "Missing bearer token",
                    "Invalid token",
                )
            },
            AuthType::ApiKey { header, key } => check_credential(
                visible_text(metadata, header.as_str()),
                key.as_str().as_bytes(),
                "Missing API key",
                "Invalid API key",
            ),
            AuthType::Custom(validator) => validator.check(metadata),
        }
    }

    /// Add authentication to the metadata of a request (for client-side use).
    /// Credentials that metadata cannot carry are left out, and validators add
    /// nothing. Fails where metadata has no place for them.
    pub fn add_auth(&self, metadata: &mut MetadataMap) -> (r: std::result::Result<
        (),
        HeadersFull,
    >)
        ensures
            metadata_entries(*final(metadata)) == (if r is Ok {
                with_auth(self.auth_type, metadata_entries(*old(metadata)))
            } else {
                metadata_entries(*old(metadata))
            }),
            has_room_for_auth(self.auth_type, metadata_entries(*old(metadata))) ==> r is Ok,
    {
        match &self.auth_type {
            AuthType::Bearer(token) => {
                let mut value = String::new();
                value.append("Bearer ");
                value.append(token.as_str());
                assert(value@ =~= "Bearer "@ + token@);
                set_metadata(metadata, "authorization", value.as_str())
            },
            AuthType::ApiKey { header, key } => {
                set_metadata(metadata, header.as_str(), key.as_str())
            },
            AuthType::Custom(_) => Ok(()),
        }
    }
}

/// Whether credentials are sure to be added to the metadata of a request: it has
/// room for them, or there is nothing to add.
pub open spec fn has_room_for_auth<V>(auth_type: AuthType<V>, entries: Entries) -> bool {
    match auth_type {
        AuthType::Bearer(token) => has_room_for(
            entries,
            encode_utf8("authorization"@),
            encode_utf8("Bearer "@ + token@),
        ),
        AuthType::ApiKey { header, key } => has_room_for(
            entries,
            encode_utf8(header@),
            encode_utf8(key@),
        ),
        AuthType::Custom(_) => true,
    }
}

/// The entries of a request once credentials were attached.
pub open spec fn with_auth<V>(auth_type: AuthType<V>, entries: Entries) -> Entries {
    match auth_type {
        AuthType::Bearer(token) => with_value(
            entries,
            encode_utf8("authorization"@),
            encode_utf8("Bearer "@ + token@),
        ),
        AuthType::ApiKey { header, key } => with_value(
            entries,
            encode_utf8(header@),
            encode_utf8(key@),
        ),
        AuthType::Custom(_) => entries,
    }
}

fn visible_text<'a>(metadata: &'a MetadataMap, key: &str) -> (r: Option<&'a [u8]>)
    ensures
        bytes_of(r) == text_under(metadata_entries(*metadata), key@),
{
    match metadata_get(metadata, key) {
        Some(value) => if is_visible(value) {
            Some(value)
        } else {
            None
        },
        None => None,
    }
}

fn strip_prefix<'a>(s: &'a [u8], prefix: &[u8]) -> (r: Option<&'a [u8]>)
    ensures
        bytes_of(r) == after_prefix(s@, prefix@),
{
    if s.len() < prefix.len() {
        return None;
    }
    assert(s@.subrange(0, prefix@.len() as int) =~= s@.take(prefix@.len() as int));
    if bytes_equal(slice_subrange(s, 0, prefix.len()), prefix) {
        assert(s@.skip(prefix@.len() as int) =~= s@.subrange(
            prefix@.len() as int,
            s@.len() as int,
        ));
        Some(slice_subrange(s, prefix.len(), s.len()))
    } else {
        None
    }
}

fn check_credential(
    provided: Option<&[u8]>,
    expected: &[u8],
    missing: &str,
    invalid: &str,
) -> (r: std::result::Result<(), Status>)
    ensures
        answers(r, credential_answer(bytes_of(provided), expected@, missing@, invalid@)),
{
    match provided {
        None => Err(Status::new(Code::Unauthenticated, String::from(missing))),
        Some(p) => {
            if constant_time_eq(p, expected) {
                Ok(())
            } else {
                Err(Status::new(Code::Unauthenticated, String::from(invalid)))
            }
        },
    }
}

/// Metrics interceptor that records request timing through a callback, which
/// receives the method's name, the duration in milliseconds and whether the
/// request succeeded.
#[derive(Debug)]
pub struct MetricsInterceptor<F> {
    /// The callback.
    pub on_complete: F,
}

impl<F: Fn(&str, u64, bool)> MetricsInterceptor<F> {
    /// Create a new metrics interceptor with a callback.
    pub fn new(on_complete: F) -> (r: Self)
        ensures
            r.on_complete == on_complete,
    {
        MetricsInterceptor { on_complete }
    }

    /// Record a completed request.
    pub fn record(&self, method: &str, duration_ms: u64, success: bool)
        requires
            call_requires(self.on_complete, (method, duration_ms, success)),
        ensures
            call_ensures(self.on_complete, (method, duration_ms, success), ()),
    {
        (self.on_complete)(method, duration_ms, success)
    }
}

/// Request ID interceptor that adds and propagates request IDs.
#[derive(Debug)]
pub struct RequestIdInterceptor {
    /// The header that carries the ID.
    pub header_name: String,
}

/// Bytes of ASCII as text.
pub open spec fn ascii_text(bytes: Seq<u8>) -> Seq<char> {
    bytes.map_values(|b: u8| b as char)
}

/// The request ID that metadata carries under a header.
pub open spec fn request_id(entries: Entries, header: Seq<char>) -> Option<Seq<char>> {
    match text_under(entries, header) {
        Some(v) => Some(ascii_text(v)),
        None => None,
    }
}

/// The entries once a request ID was put under a header.
pub open spec fn with_request_id(entries: Entries, header: Seq<char>, id: Seq<char>) -> Entries {
    with_value(entries, encode_utf8(header), encode_utf8(id))
}

/// The request ID that is made at a time since the epoch, which stands for the
/// epoch itself where the clock is before it.
pub open spec fn id_at(since_epoch: Option<Duration>) -> Seq<char> {
    match since_epoch {
        Some(d) => lower_hex(nanos(d) as nat),
        None => lower_hex(0),
    }
}

fn to_text(bytes: &[u8]) -> (r: String)
    requires
        all_visible(bytes@),
    ensures
        r@ == ascii_text(bytes@),
{
    let mut text = String::new();
    let mut i: usize = 0;
    while i < bytes.len()
        invariant
            i <= bytes@.len(),
            text@ == ascii_text(bytes@.take(i as int)),
        decreases bytes@.len() - i,
    {
        text.push(bytes[i] as char);
        assert(ascii_text(bytes@.take(i + 1)) =~= ascii_text(bytes@.take(i as int)).push(
            bytes@[i as int] as char,
        ));
        i = i + 1;
    }
    assert(bytes@.take(i as int) =~= bytes@);
    text
}

impl RequestIdInterceptor {
    /// Create a new request ID interceptor.
    pub fn new() -> (r: Self)
        ensures
            r.header_name@ == "x-request-id"@,
    {
        RequestIdInterceptor { header_name: String::from("x-request-id") }
    }

    /// Create with a custom header name.
    pub fn with_header(header: impl Into<String>) -> (r: Self)
        ensures
            call_ensures(Into::<String>::into, (header,), r.header_name),
    {
        RequestIdInterceptor { header_name: header.into() }
    }

    /// Extract request ID from metadata.
    pub fn extract_request_id(&self, metadata: &MetadataMap) -> (r: Option<String>)
        ensures
            opt_text(r) == request_id(metadata_entries(*metadata), self.header_name@),
    {
        match visible_text(metadata, self.header_name.as_str()) {
            Some(value) => Some(to_text(value)),
            None => None,
        }
    }

    /// The request ID for a time since the epoch.
    pub fn request_id_at(since_epoch: Option<Duration>) -> (r: String)
        ensures
            r@ == id_at(since_epoch),
    {
        match since_epoch {
            Some(d) => to_lower_hex(d.as_nanos()),
            None => to_lower_hex(0),
        }
    }

    /// Generate a new request ID from the system's clock.
    pub fn generate_request_id() -> (r: String)
        ensures
            exists|since_epoch: Option<Duration>|
                is_epoch_reading(since_epoch) && r@ == #[trigger] id_at(since_epoch),
    {
        let since_epoch = epoch_now();
        let id = Self::request_id_at(since_epoch);
        assert(id@ == id_at(since_epoch));
        id
    }

    /// Puts a request ID into metadata, where the header and the ID can stand
    /// there. Fails where metadata has no place for it.
    pub fn attach(&self, metadata: &mut MetadataMap, id: &str) -> (r: std::result::Result<
        (),
        HeadersFull,
    >)
        ensures
            metadata_entries(*final(metadata)) == (if r is Ok {
                with_request_id(metadata_entries(*old(metadata)), self.header_name@, id@)
            } else {
                metadata_entries(*old(metadata))
            }),
            has_room_for(
                metadata_entries(*old(metadata)),
                encode_utf8(self.header_name@),
                encode_utf8(id@),
            ) ==> r is Ok,
    {
        set_metadata(metadata, self.header_name.as_str(), id)
    }

    /// Sees to it that metadata carries a request ID: the one that it has, or a
    /// new one. Fails where metadata has no place for it.
    pub fn propagate(&self, metadata: &mut MetadataMap) -> (r: std::result::Result<
        (),
        HeadersFull,
    >)
        ensures
            r is Ok ==> match request_id(metadata_entries(*old(metadata)), self.header_name@) {
                Some(id) => metadata_entries(*final(metadata)) == with_request_id(
                    metadata_entries(*old(metadata)),
                    self.header_name@,
                    id,
                ),
                None => exists|since_epoch: Option<Duration>|
                    is_epoch_reading(since_epoch) && metadata_entries(*final(metadata))
                        == with_request_id(
                        metadata_entries(*old(metadata)),
                        self.header_name@,
                        #[trigger] id_at(since_epoch),
                    ),
            },
            r is Err ==> metadata_entries(*final(metadata)) == metadata_entries(*old(metadata)),
            r is Err ==> ascii_key(encode_utf8(self.header_name@)) is Some && metadata_entries(
                *old(metadata),
            ).dom().len() > MAX_NAMES,
    {
        let id = match self.extract_request_id(metadata) {
            Some(id) => id,
            None => Self::generate_request_id(),
        };
        self.attach(metadata, id.as_str())
    }
}

impl Default for RequestIdInterceptor {
    fn default() -> (r: Self)
        ensures
            r.header_name@ == "x-request-id"@,
    {
        RequestIdInterceptor::new()
    }
}

proof fn lemma_plain_bytes(s: Seq<char>)
    requires
        is_plain(s),
    ensures
        all_visible(encode_utf8(s)),
        is_value(encode_utf8(s)),
        ascii_text(encode_utf8(s)) == s,
{
    assert(is_ascii_chars(s));
    is_ascii_chars_encode_utf8(s);
    let b = encode_utf8(s);
    assert forall|i: int| 0 <= i < b.len() implies visible(#[trigger] b[i]) && b[i] as char
        == s[i] by {
        let c = s[i];
        assert(' ' <= c <= '~' || c == '\t');
        assert(c as u8 as char == c);
    }
    assert(ascii_text(b) =~= s);
}

proof fn lemma_authorization_key()
    ensures
        ascii_key(encode_utf8("authorization"@)) == Some(encode_utf8("authorization"@)),
        lookup_name(encode_utf8("authorization"@)) == Some(encode_utf8("authorization"@)),
        !ends_with_bin(encode_utf8("authorization"@)),
{
    reveal_strlit("authorization");
    lemma_lower_name("authorization"@);
    assert(encode_utf8("authorization"@)[9] == 't' as u8);
}

proof fn lemma_bearer_value(token: Seq<char>)
    requires
        is_plain(token),
    ensures
        is_value(encode_utf8("Bearer "@ + token)),
        all_visible(encode_utf8("Bearer "@ + token)),
        after_prefix(encode_utf8("Bearer "@ + token), encode_utf8("Bearer "@)) == Some(
            encode_utf8(token),
        ),
{
    reveal_strlit("Bearer ");
    let prefix = "Bearer "@;
    assert(is_plain(prefix));
    assert(is_plain(prefix + token));
    lemma_plain_bytes(prefix + token);
    lemma_encode_concat(prefix, token);
    let b = encode_utf8(prefix + token);
    assert(b.skip(encode_utf8(prefix).len() as int) =~= encode_utf8(token));
    assert(encode_utf8(prefix).is_prefix_of(b));
}

/// A request to which a bearer token was added is accepted where that token is
/// expected, and refused as invalid where another is. The token is plain text.
pub proof fn lemma_bearer_round_trip(token: String, expected: Seq<char>, entries: Entries)
    requires
        is_plain(token@),
    ensures
        bearer_answer(with_auth(AuthType::<NoValidator>::Bearer(token), entries), expected) == (
        if token@ == expected {
            Ok::<(), StatusView>(())
        } else {
            Err(StatusView::plain(Code::Unauthenticated, "Invalid token"@))
        }),
{
    lemma_authorization_key();
    lemma_bearer_value(token@);
    encode_utf8_decode_utf8(token@);
    encode_utf8_decode_utf8(expected);
}

/// A request to which an API key was added is accepted where that key is
/// expected under the same header, and refused as invalid where another is. The
/// key is plain text, and the header is one of text metadata.
pub proof fn lemma_api_key_round_trip(
    header: String,
    key: String,
    expected: Seq<char>,
    entries: Entries,
)
    requires
        is_plain(key@),
        ascii_key(encode_utf8(header@)) is Some,
        !ends_with_bin(encode_utf8(header@)),
    ensures
        api_key_answer(
            with_auth(AuthType::<NoValidator>::ApiKey { header, key }, entries),
            header@,
            expected,
        ) == (if key@ == expected {
            Ok::<(), StatusView>(())
        } else {
            Err(StatusView::plain(Code::Unauthenticated, "Invalid API key"@))
        }),
{
    lemma_name_spells_itself(encode_utf8(header@));
    lemma_plain_bytes(key@);
    encode_utf8_decode_utf8(key@);
    encode_utf8_decode_utf8(expected);
}

/// A request that brings nothing under the header is refused.
pub proof fn lemma_no_credentials_refused(
    header: Seq<char>,
    expected: Seq<char>,
    entries: Entries,
)
    requires
        lookup_name(encode_utf8(header)) matches Some(name) ==> !entries.dom().contains(name),
    ensures
        api_key_answer(entries, header, expected) == Err::<(), StatusView>(
            StatusView::plain(Code::Unauthenticated, "Missing API key"@),
        ),
        header == "authorization"@ ==> bearer_answer(entries, expected) == Err::<(), StatusView>(
            StatusView::plain(Code::Unauthenticated, "Missing bearer token"@),
        ),
{
}

/// A request ID of plain text that was put into metadata is found there again.
pub proof fn lemma_request_id_reads_back(entries: Entries, header: Seq<char>, id: Seq<char>)
    requires
        is_plain(id),
        ascii_key(encode_utf8(header)) is Some,
        !ends_with_bin(encode_utf8(header)),
    ensures
        request_id(with_request_id(entries, header, id), header) == Some(id),
{
    lemma_name_spells_itself(encode_utf8(header));
    lemma_plain_bytes(id);
}

/// A request ID that was found is plain text, so propagating it keeps it.
pub proof fn lemma_propagation_keeps_id(entries: Entries, header: Seq<char>)
    requires
        request_id(entries, header) is Some,
        ascii_key(encode_utf8(header)) is Some,
        !ends_with_bin(encode_utf8(header)),
    ensures
        request_id(
            with_request_id(entries, header, request_id(entries, header)->0),
            header,
        ) == request_id(entries, header),
{
    let v = text_under(entries, header)->0;
    assert forall|i: int| 0 <= i < v.len() implies ' ' <= #[trigger] ascii_text(v)[i] <= '~'
        || ascii_text(v)[i] == '\t' by {
        assert(visible(v[i]));
    }
    lemma_request_id_reads_back(entries, header, ascii_text(v));
}

/// A request ID that was made at any time is carried by the metadata that it
/// was put into.
pub proof fn lemma_generated_id_is_carried(
    entries: Entries,
    header: Seq<char>,
    since_epoch: Option<Duration>,
)
    requires
        ascii_key(encode_utf8(header)) is Some,
        !ends_with_bin(encode_utf8(header)),
    ensures
        request_id(with_request_id(entries, header, id_at(since_epoch)), header) == Some(
            id_at(since_epoch),
        ),
{
    match since_epoch {
        Some(d) => lemma_numeral_plain(nanos(d) as nat, 16),
        None => lemma_numeral_plain(0, 16),
    }
    lemma_request_id_reads_back(entries, header, id_at(since_epoch));
}

/// Request IDs made at different nanoseconds differ.
pub proof fn lemma_ids_differ(a: Duration, b: Duration)
    requires
        nanos(a) != nanos(b),
    ensures
        id_at(Some(a)) != id_at(Some(b)),
{
    if id_at(Some(a)) == id_at(Some(b)) {
        lemma_numeral_injective(nanos(a) as nat, nanos(b) as nat, 16);
    }
}

/// A request is let through by a bearer token just where the first value of
/// `authorization` is visible text that reads `Bearer`, a space and the token.
/// It is refused as unauthenticated otherwise: as one without a token where the
/// value is not of that form, and as one with a wrong token where it is.
pub proof fn lemma_bearer_decides<V: AuthValidator>(
    auth: AuthInterceptor<V>,
    token: String,
    metadata: MetadataMap,
    r: std::result::Result<(), Status>,
)
    requires
        auth.auth_type == AuthType::<V>::Bearer(token),
        call_ensures(AuthInterceptor::<V>::validate, (&auth, &metadata), r),
    ensures
        ({
            let key = encode_utf8("authorization"@);
            let entries = metadata_entries(metadata);
            let prefix = encode_utf8("Bearer "@);
            let there = entries.dom().contains(key) && entries[key].len() > 0 && (forall|k: int|
                0 <= k < entries[key][0].len() ==> 32 <= #[trigger] entries[key][0][k] <= 126
                    || entries[key][0][k] == 9);
            &&& r is Ok <==> there && entries[key][0] == encode_utf8("Bearer "@ + token@)
            &&& r matches Err(s) ==> s@.code == Code::Unauthenticated && s@.message == (
            if there && prefix.is_prefix_of(entries[key][0]) {
                "Invalid token"@
            } else {
                "Missing bearer token"@
            })
        }),
{
    let key = encode_utf8("authorization"@);
    let entries = metadata_entries(metadata);
    let prefix = encode_utf8("Bearer "@);
    lemma_authorization_key();
    lemma_encode_concat("Bearer "@, token@);
    if entries.dom().contains(key) && entries[key].len() > 0 {
        let v = entries[key][0];
        lemma_visible_bytes(v);
        if prefix.is_prefix_of(v) {
            assert(v =~= prefix + v.skip(prefix.len() as int));
        }
        assert((prefix + encode_utf8(token@)).skip(prefix.len() as int) =~= encode_utf8(token@));
        assert(prefix.is_prefix_of(prefix + encode_utf8(token@)));
    }
}

proof fn lemma_visible_bytes(v: Seq<u8>)
    ensures
        all_visible(v) <==> forall|k: int|
            0 <= k < v.len() ==> 32 <= #[trigger] v[k] <= 126 || v[k] == 9,
{
    if all_visible(v) {
        assert forall|k: int| 0 <= k < v.len() implies 32 <= #[trigger] v[k] <= 126 || v[k]
            == 9 by {
            assert(visible(v[k]));
        }
    }
    if forall|k: int| 0 <= k < v.len() ==> 32 <= #[trigger] v[k] <= 126 || v[k] == 9 {
        assert forall|k: int| 0 <= k < v.len() implies visible(#[trigger] v[k]) by {
            assert(32 <= v[k] <= 126 || v[k] == 9);
        }
    }
}

/// A request is let through by an API key just where the first value under the
/// header is visible text that reads the key. It is refused as unauthenticated
/// otherwise: as one without a key where there is no such text, and as one with
/// a wrong key where there is. The header is a short name in lower case.
pub proof fn lemma_api_key_decides<V: AuthValidator>(
    auth: AuthInterceptor<V>,
    header: String,
    key: String,
    metadata: MetadataMap,
    r: std::result::Result<(), Status>,
)
    requires
        auth.auth_type == (AuthType::<V>::ApiKey { header, key }),
        is_lower(header@),
        1 <= header@.len() <= 64,
        !ends_with_bin(encode_utf8(header@)),
        call_ensures(AuthInterceptor::<V>::validate, (&auth, &metadata), r),
    ensures
        ({
            let name = encode_utf8(header@);
            let entries = metadata_entries(metadata);
            let there = entries.dom().contains(name) && entries[name].len() > 0 && (forall|k: int|
                0 <= k < entries[name][0].len() ==> 32 <= #[trigger] entries[name][0][k] <= 126
                    || entries[name][0][k] == 9);
            &&& r is Ok <==> there && entries[name][0] == encode_utf8(key@)
            &&& r matches Err(s) ==> s@.code == Code::Unauthenticated && s@.message == (if there {
                "Invalid API key"@
            } else {
                "Missing API key"@
            })
        }),
{
    lemma_lower_name(header@);
    let entries = metadata_entries(metadata);
    let name = encode_utf8(header@);
    if entries.dom().contains(name) && entries[name].len() > 0 {
        lemma_visible_bytes(entries[name][0]);
    }
}

/// What one interceptor adds another accepts just where it expects the same
/// token, whatever credentials the request brought before. The token is plain
/// text.
pub proof fn lemma_added_token_is_accepted<V: AuthValidator, W: AuthValidator>(
    sender: AuthInterceptor<V>,
    receiver: AuthInterceptor<W>,
    token: String,
    expected: String,
    metadata: &mut MetadataMap,
    received: MetadataMap,
    r: std::result::Result<(), Status>,
)
    requires
        sender.auth_type == AuthType::<V>::Bearer(token),
        receiver.auth_type == AuthType::<W>::Bearer(expected),
        is_plain(token@),
        call_ensures(
            AuthInterceptor::<V>::add_auth,
            (&sender, metadata),
            Ok::<(), HeadersFull>(()),
        ),
        metadata_entries(received) == metadata_entries(*final(metadata)),
        call_ensures(AuthInterceptor::<W>::validate, (&receiver, &received), r),
    ensures
        r is Ok <==> token@ == expected@,
        r matches Err(s) ==> s@.code == Code::Unauthenticated,
        metadata_entries(*final(metadata)).remove(encode_utf8("authorization"@))
            == metadata_entries(*old(metadata)).remove(encode_utf8("authorization"@)),
        metadata_entries(*final(metadata))[encode_utf8("authorization"@)] == seq![
            encode_utf8("Bearer "@ + token@),
        ],
{
    let before = metadata_entries(*metadata);
    lemma_authorization_key();
    lemma_bearer_value(token@);
    lemma_bearer_round_trip(token, expected@, before);
    assert(with_auth(sender.auth_type, before).remove(encode_utf8("authorization"@))
        =~= before.remove(encode_utf8("authorization"@)));
}

/// What one interceptor adds under a header another accepts just where it
/// expects the same key there, whatever the request brought before. The key is
/// plain text, and the header one of text metadata.
pub proof fn lemma_added_key_is_accepted<V: AuthValidator, W: AuthValidator>(
    sender: AuthInterceptor<V>,
    receiver: AuthInterceptor<W>,
    header: String,
    key: String,
    expected: String,
    metadata: &mut MetadataMap,
    received: MetadataMap,
    r: std::result::Result<(), Status>,
)
    requires
        sender.auth_type == (AuthType::<V>::ApiKey { header, key }),
        receiver.auth_type == (AuthType::<W>::ApiKey { header, key: expected }),
        is_plain(key@),
        ascii_key(encode_utf8(header@)) is Some,
        !ends_with_bin(encode_utf8(header@)),
        call_ensures(
            AuthInterceptor::<V>::add_auth,
            (&sender, metadata),
            Ok::<(), HeadersFull>(()),
        ),
        metadata_entries(received) == metadata_entries(*final(metadata)),
        call_ensures(AuthInterceptor::<W>::validate, (&receiver, &received), r),
    ensures
        r is Ok <==> key@ == expected@,
        r matches Err(s) ==> s@.code == Code::Unauthenticated,
{
    lemma_api_key_round_trip(header, key, expected@, metadata_entries(*metadata));
}

/// Metadata with few names takes credentials for sure, and a validator of the
/// caller's own adds nothing and is asked as it is. What was not added left the
/// metadata as it was.
pub proof fn lemma_adding_credentials<V: AuthValidator>(
    auth: AuthInterceptor<V>,
    metadata: &mut MetadataMap,
    r: std::result::Result<(), HeadersFull>,
    asked: MetadataMap,
    answer: std::result::Result<(), Status>,
)
    requires
        call_ensures(AuthInterceptor::<V>::add_auth, (&auth, metadata), r),
        call_ensures(AuthInterceptor::<V>::validate, (&auth, &asked), answer),
    ensures
        metadata_entries(*old(metadata)).dom().len() <= 6553 ==> r is Ok,
        r is Err ==> metadata_entries(*final(metadata)) == metadata_entries(*old(metadata)),
        auth.auth_type is Custom ==> r is Ok && metadata_entries(*final(metadata))
            == metadata_entries(*old(metadata)),
        auth.auth_type matches AuthType::Custom(v) ==> v.may_answer(&asked, answer),
{
}

/// Interceptors are made of what they are given: the token, the header and the
/// key, each in its place, and request IDs stand under `x-request-id` or under
/// the header that was asked for. Two byte strings compare equal just where they
/// are.
pub proof fn lemma_interceptors_hold_what_they_are_given(
    token: &str,
    header: &str,
    key: &str,
    bearer: AuthInterceptor<NoValidator>,
    api_key: AuthInterceptor<NoValidator>,
    ids: RequestIdInterceptor,
    own: RequestIdInterceptor,
    a: &[u8],
    b: &[u8],
    equal: bool,
)
    requires
        call_ensures(AuthInterceptor::<NoValidator>::bearer, (token,), bearer),
        call_ensures(AuthInterceptor::<NoValidator>::api_key, (header, key), api_key),
        call_ensures(RequestIdInterceptor::new, (), ids),
        call_ensures(RequestIdInterceptor::with_header, (header,), own),
        call_ensures(constant_time_eq, (a, b), equal),
    ensures
        bearer.auth_type matches AuthType::Bearer(t) && t@ == token@,
        api_key.auth_type matches AuthType::ApiKey { header: h, key: k } && h@ == header@ && k@
            == key@,
        ids.header_name@ == "x-request-id"@,
        own.header_name@ == header@,
        equal <==> a@.len() == b@.len() && forall|i: int|
            0 <= i < a@.len() ==> #[trigger] a@[i] == b@[i],
{
    assert(equal <==> a@ =~= b@);
}

/// A request ID that was put into metadata is found there again, and every other
/// entry is kept. The ID is plain text, and the header one of text metadata.
pub proof fn lemma_attached_id_is_found(
    ids: RequestIdInterceptor,
    metadata: &mut MetadataMap,
    id: &str,
    received: MetadataMap,
    r: Option<String>,
)
    requires
        is_plain(id@),
        ascii_key(encode_utf8(ids.header_name@)) is Some,
        !ends_with_bin(encode_utf8(ids.header_name@)),
        call_ensures(
            RequestIdInterceptor::attach,
            (&ids, metadata, id),
            Ok::<(), HeadersFull>(()),
        ),
        metadata_entries(received) == metadata_entries(*final(metadata)),
        call_ensures(RequestIdInterceptor::extract_request_id, (&ids, &received), r),
    ensures
        r matches Some(found) && found@ == id@,
        ({
            let key = ascii_key(encode_utf8(ids.header_name@))->0;
            metadata_entries(*final(metadata)).remove(key) == metadata_entries(
                *old(metadata),
            ).remove(key)
        }),
{
    let before = metadata_entries(*metadata);
    let key = ascii_key(encode_utf8(ids.header_name@))->0;
    lemma_request_id_reads_back(before, ids.header_name@, id@);
    assert(with_request_id(before, ids.header_name@, id@).remove(key) =~= before.remove(key));
}

/// A request ID that metadata carries is kept by propagating it, and where it
/// carries none, it carries one afterwards. The header is one of text metadata.
pub proof fn lemma_propagated_id_is_found(
    ids: RequestIdInterceptor,
    metadata: &mut MetadataMap,
    received: MetadataMap,
    before: Option<String>,
    after: Option<String>,
)
    requires
        ascii_key(encode_utf8(ids.header_name@)) is Some,
        !ends_with_bin(encode_utf8(ids.header_name@)),
        call_ensures(RequestIdInterceptor::extract_request_id, (&ids, metadata), before),
        call_ensures(
            RequestIdInterceptor::propagate,
            (&ids, metadata),
            Ok::<(), HeadersFull>(()),
        ),
        metadata_entries(received) == metadata_entries(*final(metadata)),
        call_ensures(RequestIdInterceptor::extract_request_id, (&ids, &received), after),
    ensures
        after is Some,
        before matches Some(id) ==> after->0@ == id@,
        before is None ==> exists|since: Option<Duration>|
            is_epoch_reading(since) && after->0@ == #[trigger] id_at(since) && value_of(
                after->0@,
                16,
            ) == (match since {
                Some(d) => nanos(d) as int,
                None => 0,
            }),
{
    let entries = metadata_entries(*metadata);
    let header = ids.header_name@;
    if before is Some {
        lemma_propagation_keeps_id(entries, header);
    } else {
        let since = choose|since: Option<Duration>|
            is_epoch_reading(since) && metadata_entries(*final(metadata)) == with_request_id(
                entries,
                header,
                #[trigger] id_at(since),
            );
        lemma_generated_id_is_carried(entries, header, since);
        let n = match since {
            Some(d) => nanos(d) as nat,
            None => 0,
        };
        lemma_numeral_stands_for_its_number(n, 16);
        assert(after->0@ == id_at(since));
    }
}

/// The request ID for a time is its nanoseconds since the epoch in lower-case
/// hexadecimal, without leading zeros, and zero for a time before the epoch. A
/// generated one is the ID for the time that the system's clock shows.
pub proof fn lemma_id_tells_the_time(since: Option<Duration>, r: String, generated: String)
    requires
        call_ensures(RequestIdInterceptor::request_id_at, (since,), r),
        call_ensures(RequestIdInterceptor::generate_request_id, (), generated),
    ensures
        since matches Some(d) ==> value_of(r@, 16) == nanos(d),
        since is None ==> r@ == seq!['0'],
        r@.len() >= 1,
        r@.len() > 1 ==> r@[0] != '0',
        exists|at: Option<Duration>| #[trigger]
            id_at(at) == generated@ && is_epoch_reading(at) && value_of(generated@, 16) == (match at {
                Some(d) => nanos(d) as int,
                None => 0,
            }),
{
    let n = match since {
        Some(d) => nanos(d) as nat,
        None => 0,
    };
    lemma_numeral_stands_for_its_number(n, 16);
    if n == 0 {
        assert(r@ =~= seq!['0']);
    }
    let at = choose|at: Option<Duration>|
        is_epoch_reading(at) && generated@ == #[trigger] id_at(at);
    let m = match at {
        Some(d) => nanos(d) as nat,
        None => 0,
    };
    lemma_numeral_stands_for_its_number(m, 16);
    assert(id_at(at) == generated@);
}

/// The request ID that metadata carries is the first value under the header,
/// where that is visible text. The header is a short name in lower case.
pub proof fn lemma_first_value_is_the_id(
    ids: RequestIdInterceptor,
    metadata: MetadataMap,
    r: Option<String>,
)
    requires
        is_lower(ids.header_name@),
        1 <= ids.header_name@.len() <= 64,
        !ends_with_bin(encode_utf8(ids.header_name@)),
        call_ensures(RequestIdInterceptor::extract_request_id, (&ids, &metadata), r),
    ensures
        ({
            let name = encode_utf8(ids.header_name@);
            let entries = metadata_entries(metadata);
            &&& r is Some <==> entries.dom().contains(name) && entries[name].len() > 0 && (forall|
                k: int,
            |
                0 <= k < entries[name][0].len() ==> 32 <= #[trigger] entries[name][0][k] <= 126
                    || entries[name][0][k] == 9)
            &&& r matches Some(id) ==> id@.len() == entries[name][0].len() && forall|k: int|
                0 <= k < id@.len() ==> #[trigger] id@[k] == entries[name][0][k] as char
        }),
{
    lemma_lower_name(ids.header_name@);
    let entries = metadata_entries(metadata);
    let name = encode_utf8(ids.header_name@);
    if entries.dom().contains(name) && entries[name].len() > 0 {
        lemma_visible_bytes(entries[name][0]);
    }
}

/// Credentials are added as they are: a bearer token behind `Bearer` and a space
/// under `authorization`, and a key under its header. What holds control
/// characters, tabs aside, is left out. The header is a short name in lower case.
pub proof fn lemma_credentials_are_added<V: AuthValidator>(
    auth: AuthInterceptor<V>,
    name: Seq<u8>,
    value: Seq<u8>,
    metadata: &mut MetadataMap,
)
    requires
        match auth.auth_type {
            AuthType::Bearer(token) => name == encode_utf8("authorization"@) && value
                == encode_utf8("Bearer "@ + token@),
            AuthType::ApiKey { header, key } => name == encode_utf8(header@) && value
                == encode_utf8(key@) && is_lower(header@) && 1 <= header@.len() <= 64
                && !ends_with_bin(encode_utf8(header@)),
            AuthType::Custom(_) => false,
        },
        call_ensures(
            AuthInterceptor::<V>::add_auth,
            (&auth, metadata),
            Ok::<(), HeadersFull>(()),
        ),
    ensures
        (forall|k: int|
            0 <= k < value.len() ==> (#[trigger] value[k] >= 32 && value[k] != 127) || value[k]
                == 9) ==> metadata_entries(*final(metadata)) == metadata_entries(
            *old(metadata),
        ).insert(name, seq![value]),
        !(forall|k: int|
            0 <= k < value.len() ==> (#[trigger] value[k] >= 32 && value[k] != 127) || value[k]
                == 9) ==> metadata_entries(*final(metadata)) == metadata_entries(*old(metadata)),
{
    lemma_authorization_key();
    if let AuthType::ApiKey { header, key } = auth.auth_type {
        lemma_lower_name(header@);
    }
    let fits = forall|k: int|
        0 <= k < value.len() ==> (#[trigger] value[k] >= 32 && value[k] != 127) || value[k] == 9;
    assert(is_value(value) <==> fits) by {
        if is_value(value) {
            assert forall|k: int| 0 <= k < value.len() implies (#[trigger] value[k] >= 32
                && value[k] != 127) || value[k] == 9 by {}
        }
    }
}

/// A key under a header that ends in `-bin` is never found, since that is not
/// text metadata.
pub proof fn lemma_binary_headers_bring_no_key<V: AuthValidator>(
    auth: AuthInterceptor<V>,
    header: String,
    key: String,
    metadata: MetadataMap,
    r: std::result::Result<(), Status>,
)
    requires
        auth.auth_type == (AuthType::<V>::ApiKey { header, key }),
        encode_utf8(header@).len() >= 4,
        encode_utf8(header@).skip(encode_utf8(header@).len() - 4) == seq![
            '-' as u8,
            'b' as u8,
            'i' as u8,
            'n' as u8,
        ],
        call_ensures(AuthInterceptor::<V>::validate, (&auth, &metadata), r),
    ensures
        r matches Err(s) && s@.code == Code::Unauthenticated && s@.message == "Missing API key"@,
{
    let h = encode_utf8(header@);
    let tail = h.skip(h.len() - 4);
    assert(tail[0] == h[h.len() - 4] && tail[1] == h[h.len() - 3] && tail[2] == h[h.len() - 2]
        && tail[3] == h[h.len() - 1]);
}

/// Interceptors that log, measure or go by a validator hold what they are given,
/// a copy of credentials is the same credentials, and what is measured is handed
/// to the callback as it is.
pub proof fn lemma_other_interceptors_hold_what_they_are_given<F: Fn(&str, u64, bool), G: Fn(
    &MetadataMap,
) -> std::result::Result<(), Status>>(
    plain: LoggingInterceptor,
    before: LoggingInterceptor,
    verbose: LoggingInterceptor,
    on_complete: F,
    metrics: MetricsInterceptor<F>,
    method: &str,
    duration_ms: u64,
    success: bool,
    validator: G,
    custom: AuthInterceptor<FnValidator<G>>,
    auth: AuthInterceptor<NoValidator>,
    copy: AuthInterceptor<NoValidator>,
)
    requires
        call_ensures(LoggingInterceptor::new, (), plain),
        call_ensures(LoggingInterceptor::with_metadata, (before,), verbose),
        call_ensures(MetricsInterceptor::<F>::new, (on_complete,), metrics),
        call_ensures(
            MetricsInterceptor::<F>::record,
            (&metrics, method, duration_ms, success),
            (),
        ),
        call_ensures(AuthInterceptor::<FnValidator<G>>::custom, (validator,), custom),
        call_ensures(<AuthInterceptor<NoValidator> as Clone>::clone, (&auth,), copy),
    ensures
        !plain.log_metadata,
        verbose.log_metadata,
        metrics.on_complete == on_complete,
        call_ensures(on_complete, (method, duration_ms, success), ()),
        custom.auth_type == AuthType::Custom(FnValidator(validator)),
        auth.auth_type matches AuthType::Bearer(t) ==> (copy.auth_type matches AuthType::Bearer(u)
            && u@ == t@),
        auth.auth_type matches AuthType::ApiKey { header: h, key: k } ==> (
        copy.auth_type matches AuthType::ApiKey { header: i, key: l } && i@ == h@ && l@ == k@),
{
}

} // verus!
