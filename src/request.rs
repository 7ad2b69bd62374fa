use vstd::prelude::*;

verus! {

/// One HTTP header, name and value.
#[derive(Debug, Clone)]
pub struct Header {
    pub name: String,
    pub value: String,
}

impl View for Header {
    type V = (Seq<char>, Seq<char>);

    open spec fn view(&self) -> (Seq<char>, Seq<char>) {
        (self.name@, self.value@)
    }
}

/// HTTP method of a request.
#[derive(Debug, Clone, Copy, PartialEq, Eq, Structural)]
pub enum Method {
    Get,
    Post,
}

/// Everything that a transport needs to send one request of this client,
/// but the body.
#[derive(Debug, Clone)]
pub struct RequestPlan {
    pub method: Method,
    pub url: String,
    pub headers: Vec<Header>,
}

/// The headers of a list, as pairs of texts.
pub open spec fn headers_view(h: Seq<Header>) -> Seq<(Seq<char>, Seq<char>)> {
    h.map_values(|x: Header| x@)
}

/// The app identity that a request presents: the service answers each
/// endpoint only to the app versions it expects there.
#[derive(Debug, Clone, Copy, PartialEq, Eq, Structural)]
pub enum AppProfile {
    /// The iOS app, version 4.12.0: the connection and history endpoints.
    Ios,
    /// The Android app, version 4.7.1: the log book.
    AndroidLogBook,
    /// The Android app, version 4.2.1: the login.
    AndroidLogin,
}

pub open spec fn profile_version(p: AppProfile) -> Seq<char> {
    match p {
        AppProfile::Ios => "4.12.0"@,
        AppProfile::AndroidLogBook => "4.7.1"@,
        AppProfile::AndroidLogin => "4.2.1"@,
    }
}

pub open spec fn profile_product(p: AppProfile) -> Seq<char> {
    match p {
        AppProfile::Ios => "llu.ios"@,
        _ => "llu.android"@,
    }
}

pub open spec fn profile_user_agent(p: AppProfile) -> Seq<char> {
    match p {
        AppProfile::Ios => IOS_USER_AGENT@,
        _ => ANDROID_USER_AGENT@,
    }
}

/// The identification headers of a profile: user agent, version, product.
pub open spec fn profile_headers(p: AppProfile) -> Seq<(Seq<char>, Seq<char>)> {
    seq![
        ("User-Agent"@, profile_user_agent(p)),
        ("version"@, profile_version(p)),
        ("product"@, profile_product(p)),
    ]
}

pub const IOS_USER_AGENT: &'static str = "Mozilla/5.0 (iPhone; CPU OS 17_4.1 like Mac OS X) AppleWebKit/536.26 (KHTML, like Gecko) Version/17.4.1 Mobile/10A5355d Safari/8536.25";

pub const ANDROID_USER_AGENT: &'static str = "Apidog/1.0.0 (https://apidog.com)";

impl AppProfile {
    pub fn version(&self) -> (r: &'static str)
        ensures
            r@ == profile_version(*self),
    {
        match self {
            AppProfile::Ios => "4.12.0",
            AppProfile::AndroidLogBook => "4.7.1",
            AppProfile::AndroidLogin => "4.2.1",
        }
    }

    pub fn product(&self) -> (r: &'static str)
        ensures
            r@ == profile_product(*self),
    {
        match self {
            AppProfile::Ios => "llu.ios",
            _ => "llu.android",
        }
    }

    pub fn user_agent(&self) -> (r: &'static str)
        ensures
            r@ == profile_user_agent(*self),
    {
        match self {
            AppProfile::Ios => IOS_USER_AGENT,
            _ => ANDROID_USER_AGENT,
        }
    }
}

/// Appends a header to a list.
pub fn push_header(headers: &mut Vec<Header>, name: &str, value: String)
    ensures
        headers_view(final(headers)@) == headers_view(old(headers)@).push((name@, value@)),
{
    let ghost before = headers@;
    headers.push(Header { name: String::from_str(name), value });
    assert(headers_view(headers@) =~= headers_view(before).push((name@, value@)));
}

/// The identification headers of a profile, as a new list.
pub fn profile_header_list(p: AppProfile) -> (r: Vec<Header>)
    ensures
        headers_view(r@) == profile_headers(p),
{
    let mut headers: Vec<Header> = Vec::new();
    assert(headers_view(headers@) =~= Seq::<(Seq<char>, Seq<char>)>::empty());
    push_header(&mut headers, "User-Agent", String::from_str(p.user_agent()));
    push_header(&mut headers, "version", String::from_str(p.version()));
    push_header(&mut headers, "product", String::from_str(p.product()));
    assert(headers_view(headers@) =~= profile_headers(p));
    headers
}

} // verus!
