use vstd::prelude::*;

verus! {

/// Something that can be asked for over HTTP: it knows its URL.
pub trait Api {
    /// The URL of the request.
    spec fn url(&self) -> Seq<char>;

    fn assemble(&self) -> (r: String)
        ensures
            r@ == self.url(),
    ;
}

/// The services wthrr asks for a location.
#[derive(PartialEq, Eq, Structural, Debug, Clone, Copy)]
pub enum ApiName {
    GeoIp,
    OpenMeteo,
    OpenStreetMap,
}

/// A location query: which service, for which address, in which language.
pub struct ApiQuery<'a> {
    api: ApiName,
    address: &'a str,
    language: &'a str,
}

impl<'a> View for ApiQuery<'a> {
    type V = (ApiName, Seq<char>, Seq<char>);

    closed spec fn view(&self) -> (ApiName, Seq<char>, Seq<char>) {
        (self.api, self.address@, self.language@)
    }
}

/// The request a query turns into.
pub enum LocationQuery<'a> {
    GeoIp(GeoIpLocationQuery),
    OpenMeteo(OpenMeteoLocationQuery<'a>),
    OpenStreetMap(OpenStreetMapLocationQuery<'a>),
}

impl<'a> ApiQuery<'a> {
    /// The request for the service of this query.
    pub fn convert(&self) -> (r: LocationQuery<'a>)
        ensures
            r.url() == location_url(self@.0, self@.1, self@.2),
    {
        match &self.api {
            ApiName::GeoIp => LocationQuery::GeoIp(GeoIpLocationQuery {}),
            ApiName::OpenMeteo => LocationQuery::OpenMeteo(
                OpenMeteoLocationQuery { address: self.address, language: self.language },
            ),
            ApiName::OpenStreetMap => LocationQuery::OpenStreetMap(
                OpenStreetMapLocationQuery { address: self.address, language: self.language },
            ),
        }
    }

    /// The query that locates the user by their IP address.
    pub fn geo_ip() -> (r: Self)
        ensures
            r@ == (ApiName::GeoIp, ""@, ""@),
    {
        Self { api: ApiName::GeoIp, ..Default::default() }
    }

    /// The query for an address at a service, with answers in a language.
    pub fn location(api: ApiName, address: &'a str, language: &'a str) -> (r: Self)
        ensures
            r@ == (api, address@, language@),
    {
        Self { api, address, language }
    }
}

impl Default for ApiQuery<'_> {
    fn default() -> (r: Self)
        ensures
            r@ == (ApiName::OpenMeteo, ""@, ""@),
    {
        Self { api: ApiName::OpenMeteo, address: "", language: "" }
    }
}

/// The URL a service is asked at for an address, in a language.
pub open spec fn location_url(api: ApiName, address: Seq<char>, language: Seq<char>) -> Seq<char> {
    match api {
        ApiName::GeoIp => "https://api.geoip.rs"@,
        ApiName::OpenMeteo => "https://geocoding-api.open-meteo.com/v1/search?name="@ + address
            + "&language="@ + language,
        ApiName::OpenStreetMap => "https://nominatim.openstreetmap.org/search?q="@ + address
            + "&accept-language="@ + language + "&limit=1&format=jsonv2"@,
    }
}

/// A request that has a message for when it fails.
pub trait ErrorMessage {
    fn error_message() -> String;
}

pub struct GeoIpLocationQuery;

impl Api for GeoIpLocationQuery {
    open spec fn url(&self) -> Seq<char> {
        location_url(ApiName::GeoIp, Seq::empty(), Seq::empty())
    }

    fn assemble(&self) -> (r: String) {
        String::from_str("https://api.geoip.rs")
    }
}

pub struct OpenMeteoLocationQuery<'a> {
    address: &'a str,
    language: &'a str,
}

impl Api for OpenMeteoLocationQuery<'_> {
    closed spec fn url(&self) -> Seq<char> {
        location_url(ApiName::OpenMeteo, self.address@, self.language@)
    }

    fn assemble(&self) -> (r: String) {
        let mut r = String::from_str("https://geocoding-api.open-meteo.com/v1/search?name=");
        r.append(self.address);
        r.append("&language=");
        r.append(self.language);
        r
    }
}

pub struct OpenStreetMapLocationQuery<'a> {
    address: &'a str,
    language: &'a str,
}

impl Api for OpenStreetMapLocationQuery<'_> {
    closed spec fn url(&self) -> Seq<char> {
        location_url(ApiName::OpenStreetMap, self.address@, self.language@)
    }

    fn assemble(&self) -> (r: String) {
        let mut r = String::from_str("https://nominatim.openstreetmap.org/search?q=");
        r.append(self.address);
        r.append("&accept-language=");
        r.append(self.language);
        r.append("&limit=1&format=jsonv2");
        r
    }
}

impl Api for LocationQuery<'_> {
    open spec fn url(&self) -> Seq<char> {
        match self {
            LocationQuery::GeoIp(q) => q.url(),
            LocationQuery::OpenMeteo(q) => q.url(),
            LocationQuery::OpenStreetMap(q) => q.url(),
        }
    }

    fn assemble(&self) -> (r: String) {
        match self {
            LocationQuery::GeoIp(q) => q.assemble(),
            LocationQuery::OpenMeteo(q) => q.assemble(),
            LocationQuery::OpenStreetMap(q) => q.assemble(),
        }
    }
}

} // verus!
