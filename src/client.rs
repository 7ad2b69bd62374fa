use crate::account::{encoded_account_id, hex_of, sha256_of};
use crate::login::{
    empty_body, interpret_login_response, login_outcome, AuthError, DataUser, ErrorResponse, LoginData,
    ResponseLoginRequest,
};
use crate::request::{
    headers_view, profile_header_list, profile_headers, push_header, AppProfile, Header, Method,
    RequestPlan,
};
use vstd::prelude::*;
use vstd::utf8::encode_utf8;

verus! {

/// A user's login name and password; used for one login and not kept.
#[derive(Debug, Clone)]
pub struct Credentials {
    pub username: String,
    pub password: String,
}

/// Host of the service when no region is chosen.
pub open spec fn default_base_url() -> Seq<char> {
    "https://api.libreview.io"@
}

/// Host of the service for a region: `https://api-{region}.libreview.io`, or
/// the default host without one.
pub open spec fn base_url_for(region: Option<String>) -> Seq<char> {
    match region {
        Some(r) => "https://api-"@ + r@ + ".libreview.io"@,
        None => default_base_url(),
    }
}

/// Decimal text of an integer, with a leading `-` when negative.
pub open spec fn decimal_of(n: int) -> Seq<char> {
    if n < 0 {
        seq!['-'] + digits_of((-n) as nat)
    } else {
        digits_of(n as nat)
    }
}

/// Decimal digits of a natural number, without leading zeros.
pub open spec fn digits_of(n: nat) -> Seq<char>
    decreases n,
{
    if n < 10 {
        seq![digit_char(n)]
    } else {
        digits_of(n / 10) + seq![digit_char(n % 10)]
    }
}

pub open spec fn digit_char(d: nat) -> char {
    seq!['0', '1', '2', '3', '4', '5', '6', '7', '8', '9'][d as int]
}

/// The decimal digit of a value below ten, as text.
fn digit_text(d: u32) -> (r: &'static str)
    requires
        d < 10,
    ensures
        r@ == seq![digit_char(d as nat)],
{
    let r = match d {
        0 => "0",
        1 => "1",
        2 => "2",
        3 => "3",
        4 => "4",
        5 => "5",
        6 => "6",
        7 => "7",
        8 => "8",
        _ => "9",
    };
    proof {
        reveal_strlit("0");
        reveal_strlit("1");
        reveal_strlit("2");
        reveal_strlit("3");
        reveal_strlit("4");
        reveal_strlit("5");
        reveal_strlit("6");
        reveal_strlit("7");
        reveal_strlit("8");
        reveal_strlit("9");
        assert(r@ =~= seq![digit_char(d as nat)]);
    }
    r
}

/// Appends the decimal digits of `n`.
fn append_digits(out: &mut String, n: u32)
    ensures
        final(out)@ == old(out)@ + digits_of(n as nat),
    decreases n,
{
    if n >= 10 {
        append_digits(out, n / 10);
    }
    out.append(digit_text(n % 10));
    assert(out@ =~= old(out)@ + digits_of(n as nat));
}

/// Decimal text of an integer, with a leading `-` when negative.
pub fn decimal(n: i32) -> (r: String)
    ensures
        r@ == decimal_of(n as int),
{
    let mut text = String::new();
    if n < 0 {
        text.append("-");
        let magnitude: u32 = (0 - (n as i64)) as u32;
        append_digits(&mut text, magnitude);
        proof {
            reveal_strlit("-");
            assert(text@ =~= decimal_of(n as int));
        }
    } else {
        append_digits(&mut text, n as u32);
        assert(text@ =~= decimal_of(n as int));
    }
    text
}

pub open spec fn connections_url(base: Seq<char>) -> Seq<char> {
    base + "/llu/connections"@
}

pub open spec fn connection_graph_url(base: Seq<char>, id: Seq<char>) -> Seq<char> {
    base + "/llu/connections/"@ + id + "/graph"@
}

pub open spec fn glucose_history_url(base: Seq<char>, num_periods: int, period: int) -> Seq<char> {
    base + "/glucoseHistory?numPeriods="@ + decimal_of(num_periods) + "&period="@ + decimal_of(
        period,
    )
}

pub open spec fn log_book_url(base: Seq<char>, id: Seq<char>) -> Seq<char> {
    base + "/llu/connections/"@ + id + "/logbook"@
}

/// The header that carries the bearer token.
pub open spec fn bearer_header(token: Seq<char>) -> (Seq<char>, Seq<char>) {
    ("Authorization"@, "Bearer "@ + token)
}

/// The account identifier of a user id, as the endpoints that want it expect.
pub open spec fn account_id_of(user_id: Seq<char>) -> Seq<char> {
    hex_of(sha256_of(encode_utf8(user_id)))
}

/// Headers of the connection, graph and history endpoints.
pub open spec fn ios_headers(token: Seq<char>, user_id: Seq<char>) -> Seq<(Seq<char>, Seq<char>)> {
    profile_headers(AppProfile::Ios) + seq![
        ("Content-Type"@, "application/json;charset=UTF-8"@),
        ("account-id"@, account_id_of(user_id)),
        bearer_header(token),
    ]
}

/// Headers of the log book endpoint.
pub open spec fn log_book_headers(token: Seq<char>) -> Seq<(Seq<char>, Seq<char>)> {
    profile_headers(AppProfile::AndroidLogBook) + seq![bearer_header(token)]
}

/// What a client holds, seen as texts.
pub ghost struct ClientView {
    pub token: Seq<char>,
    pub user_id: Seq<char>,
    pub region: Option<String>,
    pub base_url: Seq<char>,
}

/// An authenticated client of the service: a bearer token, the user it
/// belongs to, and the host that the region selects. Nothing in it changes
/// after construction.
pub struct LibreLinkClient {
    token: String,
    user_data: DataUser,
    base_url: String,
    region: Option<String>,
}

impl View for LibreLinkClient {
    type V = ClientView;

    closed spec fn view(&self) -> ClientView {
        ClientView {
            token: self.token@,
            user_id: self.user_data.id@,
            region: self.region,
            base_url: self.base_url@,
        }
    }
}

/// The host for a region.
fn resolve_base_url(region: &Option<String>) -> (r: String)
    ensures
        r@ == base_url_for(*region),
{
    match region {
        Some(r) => {
            let mut url = String::from_str("https://api-");
            url.append(r.as_str());
            url.append(".libreview.io");
            url
        },
        None => String::from_str("https://api.libreview.io"),
    }
}

impl LibreLinkClient {
    #[verifier::type_invariant]
    spec fn base_url_matches_region(&self) -> bool {
        self.base_url@ == base_url_for(self.region)
    }

    /// A client for a token obtained elsewhere, without logging in.
    pub fn from_token(token: String, user_id: String, region: Option<String>) -> (r: Self)
        ensures
            r@ == (ClientView {
                token: token@,
                user_id: user_id@,
                region: region,
                base_url: base_url_for(region),
            }),
    {
        let base_url = resolve_base_url(&region);
        LibreLinkClient { token, user_data: DataUser { id: user_id }, base_url, region }
    }

    /// A client for what a successful login returned.
    pub fn from_login_data(data: LoginData, region: Option<String>) -> (r: Self)
        ensures
            r@ == (ClientView {
                token: data.auth_ticket.token@,
                user_id: data.user.id@,
                region: region,
                base_url: base_url_for(region),
            }),
    {
        LibreLinkClient::from_token(data.auth_ticket.token, data.user.id, region)
    }

    /// Establishes a session from a login response: its raw body and its
    /// decodings in the success and failure shapes (`None` where the body
    /// does not have that shape). A session holds the login's token and user
    /// and the host of the region; a failure is the login's error.
    pub fn from_login_response(
        body: &str,
        success: Option<ResponseLoginRequest>,
        failure: Option<ErrorResponse>,
        region: Option<String>,
    ) -> (r: Result<Self, AuthError>)
        ensures
            r is Ok <==> !empty_body(body@) && success is Some,
            r is Ok ==> r->Ok_0@ == (ClientView {
                token: success->0.data.auth_ticket.token@,
                user_id: success->0.data.user.id@,
                region: region,
                base_url: base_url_for(region),
            }),
            r is Err ==> login_outcome(body@, success, failure, Err(r->Err_0)),
    {
        match interpret_login_response(body, success, failure) {
            Ok(data) => Ok(LibreLinkClient::from_login_data(data, region)),
            Err(e) => Err(e),
        }
    }

    pub fn token(&self) -> (r: &str)
        ensures
            r@ == self@.token,
    {
        self.token.as_str()
    }

    pub fn user_id(&self) -> (r: &str)
        ensures
            r@ == self@.user_id,
    {
        self.user_data.id.as_str()
    }

    pub fn region(&self) -> (r: &Option<String>)
        ensures
            *r == self@.region,
    {
        &self.region
    }

    pub fn base_url(&self) -> (r: &str)
        ensures
            r@ == self@.base_url,
            r@ == base_url_for(self@.region),
    {
        proof {
            use_type_invariant(self);
        }
        self.base_url.as_str()
    }

    /// The account identifier of this client's user.
    pub fn get_encoded_account_id(&self) -> (r: String)
        ensures
            r@ == account_id_of(self@.user_id),
    {
        encoded_account_id(self.user_data.id.as_str())
    }

    /// Headers of the connection, graph and history endpoints.
    fn ios_header_list(&self) -> (r: Vec<Header>)
        ensures
            headers_view(r@) == ios_headers(self@.token, self@.user_id),
    {
        let mut headers = profile_header_list(AppProfile::Ios);
        push_header(&mut headers, "Content-Type", String::from_str("application/json;charset=UTF-8"));
        push_header(&mut headers, "account-id", self.get_encoded_account_id());
        push_header(&mut headers, "Authorization", self.bearer_value());
        assert(headers_view(headers@) =~= ios_headers(self@.token, self@.user_id));
        headers
    }

    fn bearer_value(&self) -> (r: String)
        ensures
            r@ == "Bearer "@ + self@.token,
    {
        let mut value = String::from_str("Bearer ");
        value.append(self.token.as_str());
        value
    }

    /// The request that lists the connections of the account.
    pub fn connections_request(&self) -> (r: RequestPlan)
        ensures
            r.method == Method::Get,
            r.url@ == connections_url(base_url_for(self@.region)),
            headers_view(r.headers@) == ios_headers(self@.token, self@.user_id),
    {
        let mut url = String::from_str(self.base_url());
        url.append("/llu/connections");
        RequestPlan { method: Method::Get, url, headers: self.ios_header_list() }
    }

    /// The request for the glucose graph of one connection.
    pub fn connection_graph_request(&self, connection_id: &str) -> (r: RequestPlan)
        ensures
            r.method == Method::Get,
            r.url@ == connection_graph_url(base_url_for(self@.region), connection_id@),
            headers_view(r.headers@) == ios_headers(self@.token, self@.user_id),
    {
        let mut url = String::from_str(self.base_url());
        url.append("/llu/connections/");
        url.append(connection_id);
        url.append("/graph");
        RequestPlan { method: Method::Get, url, headers: self.ios_header_list() }
    }

    /// The request for the aggregated glucose history over `num_periods`
    /// periods of `period` days.
    pub fn glucose_history_request(&self, num_periods: i32, period: i32) -> (r: RequestPlan)
        ensures
            r.method == Method::Get,
            r.url@ == glucose_history_url(
                base_url_for(self@.region),
                num_periods as int,
                period as int,
            ),
            headers_view(r.headers@) == ios_headers(self@.token, self@.user_id),
    {
        let mut url = String::from_str(self.base_url());
        url.append("/glucoseHistory?numPeriods=");
        url.append(decimal(num_periods).as_str());
        url.append("&period=");
        url.append(decimal(period).as_str());
        RequestPlan { method: Method::Get, url, headers: self.ios_header_list() }
    }

    /// The request for the log book of one connection.
    pub fn log_book_request(&self, connection_id: &str) -> (r: RequestPlan)
        ensures
            r.method == Method::Get,
            r.url@ == log_book_url(base_url_for(self@.region), connection_id@),
            headers_view(r.headers@) == log_book_headers(self@.token),
    {
        let mut url = String::from_str(self.base_url());
        url.append("/llu/connections/");
        url.append(connection_id);
        url.append("/logbook");
        let mut headers = profile_header_list(AppProfile::AndroidLogBook);
        push_header(&mut headers, "Authorization", self.bearer_value());
        assert(headers_view(headers@) =~= log_book_headers(self@.token));
        RequestPlan { method: Method::Get, url, headers }
    }
}

} // verus!
