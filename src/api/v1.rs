//! Version 1 of the API: the credential facade and the interceptor that
//! authenticates every outbound call.

use crate::config::ApiConfig;
use crate::extensions::{
    header_char_ok, header_if_valid, header_value_encodable, header_value_ok, metadata_entries, metadata_key_ok, MetadataExt,
    METADATA_MAX_SIZE,
};
use tonic::metadata::MetadataMap;
use tonic::{Extensions, Request, Status};
use vstd::multiset::Multiset;
use vstd::prelude::*;

verus! {

// region: outside items
/// Declares `tonic::Request`, an outbound call with its metadata.
#[verifier::external_type_specification]
#[verifier::external_body]
#[verifier::reject_recursive_types(T)]
pub struct ExRequest<T>(Request<T>);

/// Declares `http::Extensions` (re-exported by `tonic`), the typed extras of a call.
#[verifier::external_type_specification]
#[verifier::external_body]
pub struct ExExtensions(Extensions);

/// The `(key, value)` pairs of a request's metadata map.
pub uninterp spec fn request_entries(r: Request<()>) -> Multiset<(Seq<char>, Seq<char>)>;

/// The extensions a request carries.
pub uninterp spec fn request_extensions(r: Request<()>) -> Extensions;

/// Relies on `tonic::Request::into_parts`: hands out the request's own
/// metadata map, extensions and message.
#[verifier::external_body]
fn request_into_parts(request: Request<()>) -> (r: (MetadataMap, Extensions, ()))
    ensures
        metadata_entries(r.0) == request_entries(request),
        r.1 == request_extensions(request),
{
    request.into_parts()
}

/// Relies on `tonic::Request::from_parts`: the request carries the given map
/// and extensions.
#[verifier::external_body]
fn request_from_parts(metadata: MetadataMap, extensions: Extensions) -> (r: Request<()>)
    ensures
        request_entries(r) == metadata_entries(metadata),
        request_extensions(r) == extensions,
{
    Request::from_parts(metadata, extensions, ())
}

/// Relies on `MetadataMap::len`: the number of values the map holds, over
/// all its keys.
#[verifier::external_body]
fn metadata_len(metadata: &MetadataMap) -> (r: usize)
    ensures
        r == metadata_entries(*metadata).len(),
{
    metadata.len()
}

/// A request identifier as a random version-4 UUID renders: 36 lower-case
/// hexadecimal digits and hyphens, the hyphens at 8, 13, 18 and 23.
pub open spec fn request_id_shape(s: Seq<char>) -> bool {
    &&& s.len() == 36
    &&& forall|i: int|
        0 <= i < 36 ==> if i == 8 || i == 13 || i == 18 || i == 23 {
            #[trigger] s[i] == '-'
        } else {
            ('0' <= s[i] && s[i] <= '9') || ('a' <= s[i] && s[i] <= 'f')
        }
}

/// Relies on `uuid::Uuid::new_v4` and its `Display`, which renders the
/// hyphenated lower-case form. The identifier is random: nothing but its
/// shape is known.
#[verifier::external_body]
fn new_request_id() -> (r: String)
    ensures
        request_id_shape(r@),
{
    uuid::Uuid::new_v4().to_string()
}
// endregion

// region: interceptor data
/// What an interceptor injects into each request: the token and, when set,
/// the application name.
pub struct InterceptorData {
    pub token: String,
    pub app_name: Option<String>,
}

/// The text of an optional string.
pub open spec fn opt_view(o: Option<String>) -> Option<Seq<char>> {
    match o {
        Some(s) => Some(s@),
        None => None,
    }
}

pub const AUTHORIZATION_KEY: &'static str = "authorization";

pub const REQUEST_ID_KEY: &'static str = "x-request-id";

pub const APP_NAME_KEY: &'static str = "x-app-name";

pub const BEARER_PREFIX: &'static str = "Bearer ";

/// The value of the `authorization` header for `token`.
pub open spec fn bearer(token: Seq<char>) -> Seq<char> {
    BEARER_PREFIX@ + token
}

/// The headers one call receives from an interceptor holding `token` and
/// `app_name`, with `request_id` drawn for that call. A value that cannot be
/// encoded as a header is skipped.
pub open spec fn stamped_headers(
    token: Seq<char>,
    app_name: Option<Seq<char>>,
    request_id: Seq<char>,
) -> Multiset<(Seq<char>, Seq<char>)> {
    header_if_valid(AUTHORIZATION_KEY@, bearer(token)).add(
        header_if_valid(REQUEST_ID_KEY@, request_id),
    ).add(
        match app_name {
            Some(n) => header_if_valid(APP_NAME_KEY@, n),
            None => Multiset::empty(),
        },
    )
}

/// The headers of the two entries that do not vary from call to call.
pub open spec fn fixed_headers(token: Seq<char>, app_name: Option<Seq<char>>) -> Multiset<
    (Seq<char>, Seq<char>),
> {
    header_if_valid(AUTHORIZATION_KEY@, bearer(token)).add(
        match app_name {
            Some(n) => header_if_valid(APP_NAME_KEY@, n),
            None => Multiset::empty(),
        },
    )
}
// endregion

// region: interceptor
/// An interceptor that can be built from its data `D`.
pub trait IntercemptorWithNew<D>: Sized {
    /// The interceptor stamps requests from `data`.
    spec fn holds(&self, data: D) -> bool;

    /// Creates the interceptor.
    fn new(data: D) -> (r: Self)
        ensures
            r.holds(data),
    ;

    /// Stamps an outbound request before it is sent.
    fn call(&mut self, request: Request<()>) -> core::result::Result<Request<()>, Status>;

    /// Keys of the headers this interceptor skips on every call because their
    /// values cannot be encoded, for a caller to report.
    fn skipped_headers(&self) -> Vec<&'static str> {
        Vec::new()
    }
}

/// Keys of the fixed headers whose values cannot be encoded.
pub open spec fn skipped_keys(token: Seq<char>, app_name: Option<Seq<char>>) -> Seq<&'static str> {
    let auth = if header_value_ok(bearer(token)) {
        Seq::empty()
    } else {
        seq![AUTHORIZATION_KEY]
    };
    match app_name {
        Some(n) => if header_value_ok(n) {
            auth
        } else {
            auth.push(APP_NAME_KEY)
        },
        None => auth,
    }
}

/// The interceptor of the Tinkoff API: a bearer token, a fresh request id
/// and, when set, the application name.
pub struct TinkoffInterceptor {
    pub data: InterceptorData,
}

proof fn lemma_keys_ok()
    ensures
        metadata_key_ok(AUTHORIZATION_KEY@),
        metadata_key_ok(REQUEST_ID_KEY@),
        metadata_key_ok(APP_NAME_KEY@),
{
    reveal_strlit("authorization");
    reveal_strlit("x-request-id");
    reveal_strlit("x-app-name");
    reveal_strlit("-bin");
    assert(AUTHORIZATION_KEY@.subrange(9, 13) != "-bin"@) by {
        assert(AUTHORIZATION_KEY@.subrange(9, 13)[0] != "-bin"@[0]);
    }
    assert(REQUEST_ID_KEY@.subrange(8, 12) != "-bin"@) by {
        assert(REQUEST_ID_KEY@.subrange(8, 12)[0] != "-bin"@[0]);
    }
    assert(APP_NAME_KEY@.subrange(6, 10) != "-bin"@) by {
        assert(APP_NAME_KEY@.subrange(6, 10)[0] != "-bin"@[0]);
    }
}

impl TinkoffInterceptor {
    /// The headers this interceptor adds to a call whose id is `request_id`.
    pub open spec fn headers_for(&self, request_id: Seq<char>) -> Multiset<(Seq<char>, Seq<char>)> {
        stamped_headers(self.data.token@, opt_view(self.data.app_name), request_id)
    }

    /// Appends this interceptor's headers to `metadata`, with `request_id`
    /// as the request identifier; a value that cannot be encoded is skipped.
    pub fn stamp(&self, metadata: &mut MetadataMap, request_id: &str)
        requires
            metadata_entries(*old(metadata)).len() + 3 < METADATA_MAX_SIZE,
        ensures
            metadata_entries(*final(metadata)) == metadata_entries(*old(metadata)).add(
                self.headers_for(request_id@),
            ),
    {
        proof {
            lemma_keys_ok();
        }
        let ghost m0 = metadata_entries(*metadata);
        let auth = String::from_str(BEARER_PREFIX).concat(self.data.token.as_str());
        metadata.safe_append(AUTHORIZATION_KEY, auth.as_str(), "Failed to insert token");
        metadata.safe_append(REQUEST_ID_KEY, request_id, "Failed to insert request id");
        match &self.data.app_name {
            Some(app_name) => {
                metadata.safe_append(APP_NAME_KEY, app_name.as_str(), "Failed to insert app name");
            },
            None => {},
        }
        assert(metadata_entries(*metadata) =~= m0.add(self.headers_for(request_id@)));
    }
}

impl IntercemptorWithNew<InterceptorData> for TinkoffInterceptor {
    open spec fn holds(&self, data: InterceptorData) -> bool {
        self.data == data
    }

    fn new(data: InterceptorData) -> (r: Self)
        ensures
            r.data == data,
    {
        TinkoffInterceptor { data }
    }

    fn skipped_headers(&self) -> (r: Vec<&'static str>)
        ensures
            r@ == skipped_keys(self.data.token@, opt_view(self.data.app_name)),
    {
        let mut skipped: Vec<&'static str> = Vec::new();
        let auth = String::from_str(BEARER_PREFIX).concat(self.data.token.as_str());
        if !header_value_encodable(auth.as_str()) {
            skipped.push(AUTHORIZATION_KEY);
        }
        match &self.data.app_name {
            Some(app_name) => {
                if !header_value_encodable(app_name.as_str()) {
                    skipped.push(APP_NAME_KEY);
                }
            },
            None => {},
        }
        proof {
            assert(skipped@ =~= skipped_keys(self.data.token@, opt_view(self.data.app_name)));
        }
        skipped
    }

    /// Stamps `request` with a freshly drawn request id, keeping its
    /// extensions, its (empty) message and every value it already held.
    /// A request whose map already holds `METADATA_MAX_SIZE - 3` values or
    /// more, under however many keys, is passed on unstamped, since the map
    /// might then be unable to take the three headers. Drawing the id panics
    /// only if the system's random source fails.
    fn call(&mut self, request: Request<()>) -> (r: core::result::Result<Request<()>, Status>)
        ensures
            *final(self) == *old(self),
            r is Ok,
            r matches Ok(q) ==> request_extensions(q) == request_extensions(request),
            r matches Ok(q) ==> if request_entries(request).len() + 3 < METADATA_MAX_SIZE {
                exists|id: Seq<char>|
                    request_id_shape(id) && request_entries(q) == request_entries(request).add(
                        old(self).headers_for(id),
                    )
            } else {
                request_entries(q) == request_entries(request)
            },
    {
        let (mut metadata, extensions, _) = request_into_parts(request);
        if metadata_len(&metadata) < METADATA_MAX_SIZE - 3 {
            let id = new_request_id();
            self.stamp(&mut metadata, id.as_str());
        }
        Ok(request_from_parts(metadata, extensions))
    }
}
// endregion

// region: facade
/// A facade that hands every service client its own interceptor `I`, built
/// from data `D` taken from the facade's current credentials.
pub trait InvestApiTrait<D, I: IntercemptorWithNew<D>>: Sized {
    /// Creates the facade with `token` and no application name.
    fn with_token(token: String) -> Self;

    /// `data` reflects the facade's current credentials.
    spec fn current(&self, data: D) -> bool;

    /// The data for a new interceptor, taken from the current credentials.
    fn interceptor_data(&self) -> (r: D)
        ensures
            self.current(r),
    ;

    /// A fresh interceptor for one service client, built from data taken from
    /// the current credentials. Each client gets its own, so later changes to
    /// the facade never reach clients made before them.
    fn interceptor(&self) -> (r: I)
        ensures
            exists|d: D| self.current(d) && r.holds(d),
    {
        let data = self.interceptor_data();
        let ghost taken = data;
        let r = I::new(data);
        assert(self.current(taken) && r.holds(taken));
        r
    }
}

/// The Tinkoff Invest API facade: the credentials every client is stamped with.
/// It has no `Debug`, so that the token is never printed.
#[derive(Clone)]
pub struct InvestApi {
    pub token: String,
    pub app_name: Option<String>,
}

impl InvestApiTrait<InterceptorData, TinkoffInterceptor> for InvestApi {
    open spec fn current(&self, data: InterceptorData) -> bool {
        &&& data.token@ == self.token@
        &&& opt_view(data.app_name) == opt_view(self.app_name)
    }

    fn with_token(token: String) -> (r: Self)
        ensures
            r.token@ == token@,
            r.app_name is None,
    {
        InvestApi { token, app_name: None }
    }

    fn interceptor_data(&self) -> (r: InterceptorData)
        ensures
            r.token@ == self.token@,
            opt_view(r.app_name) == opt_view(self.app_name),
    {
        let app_name = match &self.app_name {
            Some(n) => Some(n.clone()),
            None => None,
        };
        InterceptorData { token: self.token.clone(), app_name }
    }
}

impl InvestApi {
    /// The facade for the token of `config`, with no application name.
    pub fn from_config(config: &ApiConfig) -> (r: InvestApi)
        ensures
            r.token@ == config.TINKOFF_TOKEN@,
            r.app_name is None,
    {
        InvestApi::with_token(config.TINKOFF_TOKEN.clone())
    }

    /// Sets the application name sent with every call.
    pub fn with_app_name(self, app_name: String) -> (r: Self)
        ensures
            r.token@ == self.token@,
            opt_view(r.app_name) == Some(app_name@),
    {
        InvestApi { token: self.token, app_name: Some(app_name) }
    }

    /// `interceptor` holds exactly the credentials of this facade.
    pub open spec fn stamps_for(&self, interceptor: TinkoffInterceptor) -> bool {
        &&& interceptor.data.token@ == self.token@
        &&& opt_view(interceptor.data.app_name) == opt_view(self.app_name)
    }

    /// A fresh interceptor for one client, built from this facade's credentials.
    pub fn tinkoff_interceptor(&self) -> (r: TinkoffInterceptor)
        ensures
            self.stamps_for(r),
    {
        TinkoffInterceptor::new(self.interceptor_data())
    }
}
// endregion

// region: laws
/// For a header-safe token and application name, each call gets exactly one
/// `authorization` value, the bearer form of the token, and exactly one
/// `x-app-name` value, the application name, when one is set and none
/// otherwise; whatever the request id. A drawn request id is always sent,
/// exactly once.
pub proof fn lemma_credentials_stamped_once(
    token: Seq<char>,
    app_name: Option<Seq<char>>,
    request_id: Seq<char>,
    value: Seq<char>,
)
    requires
        header_value_ok(token),
        app_name matches Some(n) ==> header_value_ok(n),
    ensures
        stamped_headers(token, app_name, request_id).count((AUTHORIZATION_KEY@, value)) == if value
            == bearer(token) {
            1nat
        } else {
            0nat
        },
        stamped_headers(token, app_name, request_id).count((APP_NAME_KEY@, value)) == if app_name
            == Some(value) {
            1nat
        } else {
            0nat
        },
        request_id_shape(request_id) ==> stamped_headers(token, app_name, request_id).count(
            (REQUEST_ID_KEY@, request_id),
        ) == 1,
{
    reveal_strlit("authorization");
    reveal_strlit("x-request-id");
    reveal_strlit("x-app-name");
    reveal_strlit("Bearer ");
    assert(AUTHORIZATION_KEY@ != REQUEST_ID_KEY@) by {
        assert(AUTHORIZATION_KEY@.len() != REQUEST_ID_KEY@.len());
    }
    assert(AUTHORIZATION_KEY@ != APP_NAME_KEY@) by {
        assert(AUTHORIZATION_KEY@.len() != APP_NAME_KEY@.len());
    }
    assert(APP_NAME_KEY@ != REQUEST_ID_KEY@) by {
        assert(APP_NAME_KEY@.len() != REQUEST_ID_KEY@.len());
    }
    if request_id_shape(request_id) {
        assert forall|i: int| 0 <= i < request_id.len() implies #[trigger] header_char_ok(
            request_id[i],
        ) by {
            assert(request_id[i] == '-' || ('0' <= request_id[i] && request_id[i] <= '9') || (
            'a' <= request_id[i] && request_id[i] <= 'f'));
        }
    }
    let b = bearer(token);
    assert forall|i: int| 0 <= i < b.len() implies #[trigger] header_char_ok(b[i]) by {
        if i >= 7 {
            assert(b[i] == token[i - 7]);
        }
    }
}

/// Two interceptors made from the same facade, for two clients, stamp the
/// same credentials: whatever data each was built from, as long as it
/// reflected the facade's credentials, their headers agree on everything but
/// the request id, whatever ids the two calls draw.
pub proof fn lemma_clients_share_credentials(
    api: InvestApi,
    first: TinkoffInterceptor,
    second: TinkoffInterceptor,
    first_data: InterceptorData,
    second_data: InterceptorData,
    first_id: Seq<char>,
    second_id: Seq<char>,
)
    requires
        api.current(first_data),
        first.holds(first_data),
        api.current(second_data),
        second.holds(second_data),
    ensures
        first.headers_for(first_id) == fixed_headers(api.token@, opt_view(api.app_name)).add(
            header_if_valid(REQUEST_ID_KEY@, first_id),
        ),
        second.headers_for(second_id) == fixed_headers(api.token@, opt_view(api.app_name)).add(
            header_if_valid(REQUEST_ID_KEY@, second_id),
        ),
{
    assert(first.headers_for(first_id) =~= fixed_headers(api.token@, opt_view(api.app_name)).add(
        header_if_valid(REQUEST_ID_KEY@, first_id),
    ));
    assert(second.headers_for(second_id) =~= fixed_headers(
        api.token@,
        opt_view(api.app_name),
    ).add(header_if_valid(REQUEST_ID_KEY@, second_id)));
}
// endregion

} // verus!
