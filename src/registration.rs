//! Device identity, registration outcomes and the asset bundle that
//! registration hands over.
use crate::assets::Blobs;
use crate::text::{decimal, push_decimal};
use crate::wire::{group_map, groups_view, groups_well_formed, lists_map, ImageGroups};
use std::collections::HashMap;
use vstd::prelude::*;

verus! {

/// Port of the server when none is given.
pub const DEFAULT_SERVER_PORT: u16 = 8080;

/// The base URL of the server at `host`, on `port` or the default port.
pub open spec fn server_url_spec(host: Seq<char>, port: Option<u16>) -> Seq<char> {
    let p = match port {
        Some(p) => p,
        None => DEFAULT_SERVER_PORT,
    };
    "http://"@ + host + ":"@ + decimal(p as nat)
}

pub fn server_url(host: &str, port: Option<u16>) -> (r: String)
    ensures
        r@ == server_url_spec(host@, port),
{
    let p: u16 = match port {
        Some(p) => p,
        None => DEFAULT_SERVER_PORT,
    };
    let mut s = String::from_str("http://");
    s.append(host);
    s.append(":");
    push_decimal(&mut s, p as u64);
    s
}

/// The registration endpoint of the server at `server_url`.
pub fn registration_url(server_url: &str) -> (r: String)
    ensures
        r@ == server_url@ + "/api/register"@,
{
    let mut s = String::from_str(server_url);
    s.append("/api/register");
    s
}

/// The data endpoint of the server at `server_url` for the client with MAC
/// address `mac`.
pub fn sensor_data_url(server_url: &str, mac: &str) -> (r: String)
    ensures
        r@ == server_url@ + "/api/sensor-data?mac_address="@ + mac@,
{
    let mut s = String::from_str(server_url);
    s.append("/api/sensor-data?mac_address=");
    s.append(mac);
    s
}

/// The lowercase form of a text.
pub uninterp spec fn lower_of(s: Seq<char>) -> Seq<char>;

/// Relies on `str::to_lowercase`: the result depends on the characters alone.
#[verifier::external_body]
fn lowercase(s: &str) -> (r: String)
    ensures
        r@ == lower_of(s@),
{
    s.to_lowercase()
}

/// The MAC address in the form the server keys clients by: lower case.
pub fn normalize_mac(mac: &str) -> (r: String)
    ensures
        r@ == lower_of(mac@),
{
    lowercase(mac)
}

/// The answer of the liveness endpoint of a server that is up.
pub open spec fn alive_body() -> Seq<u8> {
    seq![0x4fu8, 0x4bu8]
}

/// The liveness endpoint of the server at `server_url`.
pub fn health_url(server_url: &str) -> (r: String)
    ensures
        r@ == server_url@ + "/api/health"@,
{
    let mut s = String::from_str(server_url);
    s.append("/api/health");
    s
}

/// Whether a liveness probe answered with `status` and `body` says the
/// server is up: a success status and exactly the text "OK".
pub fn is_alive(status: u16, body: &[u8]) -> (r: bool)
    ensures
        r == (200 <= status < 300 && body@ == alive_body()),
{
    let ok = 200 <= status && status < 300 && body.len() == 2 && body[0] == 0x4f && body[1] == 0x4b;
    proof {
        if 200 <= status < 300 && body@ == alive_body() {
            assert(body@[0] == 0x4f && body@[1] == 0x4b);
        }
        if ok {
            assert(body@ =~= alive_body());
        }
    }
    ok
}

/// What an HTTP status says about a request.
#[derive(Clone, Copy, Debug, PartialEq, Eq, Structural)]
pub enum StatusClass {
    /// Below 400.
    Success,
    /// 403: the server knows the client and has not activated it.
    NotActive,
    /// 404: the server does not know the client.
    NotRegistered,
    /// Any other status from 400 up.
    Failed,
}

pub open spec fn status_class_spec(status: u16) -> StatusClass {
    if status < 400 {
        StatusClass::Success
    } else if status == 403 {
        StatusClass::NotActive
    } else if status == 404 {
        StatusClass::NotRegistered
    } else {
        StatusClass::Failed
    }
}

pub fn classify_status(status: u16) -> (r: StatusClass)
    ensures
        r == status_class_spec(status),
{
    if status < 400 {
        StatusClass::Success
    } else if status == 403 {
        StatusClass::NotActive
    } else if status == 404 {
        StatusClass::NotRegistered
    } else {
        StatusClass::Failed
    }
}

/// What an error body said.
pub enum ErrorBody {
    /// The body is no JSON.
    Unreadable,
    /// The body is JSON; its reason, where an "error" member, or failing
    /// that a "message" member, holds a string.
    Json(Option<String>),
}

/// Why registration failed.
pub enum RegistrationError {
    /// The server refused with this status, from 400 up.
    Rejected { status: u16, body: ErrorBody },
    /// The request did not reach the server or got no answer.
    Transport,
    /// The asset bundle of a successful registration does not decode.
    InvalidBundle,
}

/// What a member of a JSON object holds, as far as an error reason goes.
pub enum Member {
    /// The object has no such member, or the body is no object.
    Missing,
    /// The member is there and is no string.
    NotText,
    /// The member is this string.
    Text(String),
}

/// The reason an error body gives: the "error" member where there is one,
/// else the "message" member, provided the member taken is a string.
pub open spec fn reason_spec(error: Member, message: Member) -> Option<Seq<char>> {
    let taken = match error {
        Member::Missing => message,
        _ => error,
    };
    match taken {
        Member::Text(t) => Some(t@),
        _ => None,
    }
}

pub fn reason_from(error: Member, message: Member) -> (r: Option<String>)
    ensures
        match r {
            Some(t) => reason_spec(error, message) == Some(t@),
            None => reason_spec(error, message) is None,
        },
{
    let taken = match error {
        Member::Missing => message,
        _ => error,
    };
    match taken {
        Member::Text(t) => Some(t),
        _ => None,
    }
}

impl Member {
    /// `None` for a missing member, `Some(None)` for one that is no string,
    /// `Some(Some(t))` for the string `t`.
    pub open spec fn view_opt(self) -> Option<Option<Seq<char>>> {
        match self {
            Member::Missing => None,
            Member::NotText => Some(None),
            Member::Text(t) => Some(Some(t@)),
        }
    }
}

/// What the member `key` of the JSON value in `body` holds, as
/// `Member::view_opt` writes it; `None` when the body is no JSON.
pub uninterp spec fn json_member_of(body: Seq<u8>, key: Seq<char>) -> Option<Option<Option<Seq<char>>>>;

/// Relies on `serde_json::from_slice` into a `serde_json::Value`, then
/// `Value::get` with a string key (the member of an object, nothing for a
/// missing member or a value that is no object) and `Value::as_str` on the
/// member. The outcome depends on the body and the key alone.
#[verifier::external_body]
fn json_member_text(body: &[u8], key: &str) -> (r: Option<Member>)
    ensures
        match r {
            Some(m) => json_member_of(body@, key@) == Some(m.view_opt()),
            None => json_member_of(body@, key@) is None,
        },
{
    let v: serde_json::Value = serde_json::from_slice(body).ok()?;
    Some(match v.get(key) {
        None => Member::Missing,
        Some(m) => match m.as_str() {
            Some(t) => Member::Text(t.to_string()),
            None => Member::NotText,
        },
    })
}

impl ErrorBody {
    /// `None` for a body that is no JSON, `Some(reason)` otherwise.
    pub open spec fn view_opt(self) -> Option<Option<Seq<char>>> {
        match self {
            ErrorBody::Unreadable => None,
            ErrorBody::Json(Some(t)) => Some(Some(t@)),
            ErrorBody::Json(None) => Some(None),
        }
    }
}

/// The text of a member that is a string.
pub open spec fn text_of(m: Option<Option<Seq<char>>>) -> Option<Seq<char>> {
    match m {
        Some(Some(t)) => Some(t),
        _ => None,
    }
}

/// What an error body says: nothing when it is no JSON; otherwise its
/// reason, the "error" member where there is one, else the "message"
/// member, kept only when the member taken is a string.
pub open spec fn error_body_of(body: Seq<u8>) -> Option<Option<Seq<char>>> {
    match json_member_of(body, "error"@) {
        None => None,
        Some(None) => match json_member_of(body, "message"@) {
            Some(m) => Some(text_of(m)),
            None => Some(None),
        },
        Some(e) => Some(text_of(e)),
    }
}

/// Reads the reason out of an error body.
pub fn read_error_body(body: &[u8]) -> (r: ErrorBody)
    ensures
        r.view_opt() == error_body_of(body@),
{
    proof {
        reveal_strlit("error");
        reveal_strlit("message");
    }
    match json_member_text(body, "error") {
        None => ErrorBody::Unreadable,
        Some(Member::Missing) => match json_member_text(body, "message") {
            Some(m) => ErrorBody::Json(reason_from(Member::Missing, m)),
            None => ErrorBody::Json(None),
        },
        Some(e) => ErrorBody::Json(reason_from(e, Member::Missing)),
    }
}

/// The outcome of a registration answered with `status`, whose body, for a
/// refusal, is read by `read_error_body`.
pub fn check_registration_status(status: u16, body: &[u8]) -> (r: Result<(), RegistrationError>)
    ensures
        status < 400 <==> r is Ok,
        r matches Err(e) ==> e matches RegistrationError::Rejected { status: s, body: b } && s == status
            && b.view_opt() == error_body_of(body@),
{
    if status < 400 {
        Ok(())
    } else {
        Err(RegistrationError::Rejected { status, body: read_error_body(body) })
    }
}

/// The text of a registration failure.
pub open spec fn failure_text(e: RegistrationError) -> Seq<char> {
    match e {
        RegistrationError::Rejected { status, body } => match body {
            ErrorBody::Json(Some(reason)) => "Registration failed: "@ + reason@,
            ErrorBody::Json(None) => if status == 403 {
                "Registration failed: client not active"@
            } else {
                "Registration failed: Unknown error"@
            },
            ErrorBody::Unreadable => if status == 403 {
                "Registration failed: client not active"@
            } else {
                "Registration failed with status: "@ + decimal(status as nat)
            },
        },
        RegistrationError::Transport => "Registration failed: server not reachable"@,
        RegistrationError::InvalidBundle => "Registration failed: invalid static data"@,
    }
}

impl RegistrationError {
    /// Whether the server refused because the client is not active.
    pub fn is_not_active(&self) -> (r: bool)
        ensures
            r == (*self matches RegistrationError::Rejected { status, .. } && status == 403),
    {
        match self {
            RegistrationError::Rejected { status, .. } => *status == 403,
            _ => false,
        }
    }

    /// A one-line description of the failure.
    pub fn message(&self) -> (r: String)
        ensures
            r@ == failure_text(*self),
    {
        match self {
            RegistrationError::Rejected { status, body } => match body {
                ErrorBody::Json(Some(reason)) => {
                    let mut s = String::from_str("Registration failed: ");
                    s.append(reason.as_str());
                    s
                },
                ErrorBody::Json(None) => if *status == 403 {
                    String::from_str("Registration failed: client not active")
                } else {
                    String::from_str("Registration failed: Unknown error")
                },
                ErrorBody::Unreadable => if *status == 403 {
                    String::from_str("Registration failed: client not active")
                } else {
                    let mut s = String::from_str("Registration failed with status: ");
                    push_decimal(&mut s, *status as u64);
                    s
                },
            },
            RegistrationError::Transport => String::from_str("Registration failed: server not reachable"),
            RegistrationError::InvalidBundle => String::from_str("Registration failed: invalid static data"),
        }
    }
}

/// The fonts, static images and conditional images of a bundle, if it decodes.
pub uninterp spec fn bundle_of(bytes: Seq<u8>) -> Option<
    (
        Map<Seq<char>, Seq<u8>>,
        Map<Seq<char>, Seq<u8>>,
        Map<Seq<char>, Map<Seq<char>, Seq<u8>>>,
    ),
>;

/// The fields of a static client data bundle, in order.
type BundleMaps = (
    HashMap<String, Vec<u8>>,
    HashMap<String, Vec<u8>>,
    HashMap<String, HashMap<String, Vec<u8>>>,
);

/// Relies on `bincode::deserialize` into the three maps of a static client
/// data bundle (a struct of three maps, which bincode lays out as the tuple
/// of its fields). The maps depend on the bytes alone; the entries of the
/// images are listed once each, in the maps' own order.
#[verifier::external_body]
fn decode_bundle(bytes: &[u8]) -> (r: Result<StaticClientData, bincode::Error>)
    ensures
        match r {
            Ok(b) => bundle_of(bytes@) matches Some(m) && {
                &&& b.text_data.deep_view() == m.0
                &&& lists_map(b.static_image_data@, m.1)
                &&& groups_well_formed(groups_view(b.conditional_image_data@))
                &&& group_map(groups_view(b.conditional_image_data@)) == m.2
            },
            Err(_) => bundle_of(bytes@) is None,
        },
{
    let (text, images, groups): BundleMaps = bincode::deserialize(bytes)?;
    Ok(StaticClientData {
        text_data: text,
        static_image_data: images.into_iter().collect(),
        conditional_image_data: groups.into_iter().map(|(id, g)| (id, g.into_iter().collect())).collect(),
    })
}

/// The assets a successful registration hands over.
pub struct RegistrationResult {
    pub success: bool,
    pub message: String,
    /// Font family → font bytes.
    pub text_data: HashMap<String, Vec<u8>>,
    /// Element id → image bytes.
    pub static_image_data: Blobs,
    /// Element id → (image name → image bytes).
    pub conditional_image_data: ImageGroups,
}

/// Takes the asset bundle out of the body of a successful registration.
pub fn process_static_preparation_data(bytes: &[u8]) -> (r: Result<RegistrationResult, RegistrationError>)
    ensures
        match r {
            Ok(res) => bundle_of(bytes@) matches Some(m) && {
                &&& res.success
                &&& res.message@ == "Client registered successfully with static data"@
                &&& res.text_data.deep_view() == m.0
                &&& lists_map(res.static_image_data@, m.1)
                &&& groups_well_formed(groups_view(res.conditional_image_data@))
                &&& group_map(groups_view(res.conditional_image_data@)) == m.2
            },
            Err(e) => bundle_of(bytes@) is None && e is InvalidBundle,
        },
{
    match decode_bundle(bytes) {
        Ok(data) => Ok(
            RegistrationResult {
                success: true,
                message: String::from_str("Client registered successfully with static data"),
                text_data: data.text_data,
                static_image_data: data.static_image_data,
                conditional_image_data: data.conditional_image_data,
            },
        ),
        Err(_) => Err(RegistrationError::InvalidBundle),
    }
}

/// Static client data received from the registration endpoint.
pub struct StaticClientData {
    /// Font family → font bytes.
    pub text_data: HashMap<String, Vec<u8>>,
    /// Element id → image bytes.
    pub static_image_data: Blobs,
    /// Element id → (image name → image bytes).
    pub conditional_image_data: ImageGroups,
}

/// The identity a client registers with.
pub struct ClientRegistration {
    pub mac_address: String,
    pub ip_address: String,
    pub resolution_width: u32,
    pub resolution_height: u32,
    pub name: Option<String>,
}

/// The answer of the JSON registration dialect.
pub struct RegistrationResponse {
    pub success: bool,
    pub message: String,
    pub client: Option<RegisteredClient>,
}

/// A client as the server records it.
pub struct RegisteredClient {
    pub mac_address: String,
    pub name: String,
    pub ip_address: String,
    pub resolution_width: u32,
    pub resolution_height: u32,
    pub active: bool,
    pub last_seen: u64,
    pub display_config: sensor_core::DisplayConfig,
}

/// What a client says about itself to the server at `server_url`.
pub struct SensorBridgeClient {
    server_url: String,
    mac_address: String,
    ip_address: String,
    resolution_width: u32,
    resolution_height: u32,
}

impl SensorBridgeClient {
    pub closed spec fn spec_server_url(&self) -> Seq<char> {
        self.server_url@
    }

    pub closed spec fn spec_mac_address(&self) -> Seq<char> {
        self.mac_address@
    }

    pub closed spec fn spec_ip_address(&self) -> Seq<char> {
        self.ip_address@
    }

    pub closed spec fn spec_resolution(&self) -> (u32, u32) {
        (self.resolution_width, self.resolution_height)
    }

    /// A client of the server at `server_host`, on `server_port` or the
    /// default port, for a display of `resolution`, on a machine with MAC
    /// address `mac` (kept in lower case) and local address `ip`.
    pub fn new(server_host: &str, server_port: Option<u16>, resolution: (u32, u32), mac: &str, ip: String) -> (c: Self)
        ensures
            c.spec_server_url() == server_url_spec(server_host@, server_port),
            c.spec_mac_address() == lower_of(mac@),
            c.spec_ip_address() == ip@,
            c.spec_resolution() == resolution,
    {
        SensorBridgeClient {
            server_url: server_url(server_host, server_port),
            mac_address: normalize_mac(mac),
            ip_address: ip,
            resolution_width: resolution.0,
            resolution_height: resolution.1,
        }
    }

    pub fn server_url(&self) -> (r: &str)
        ensures
            r@ == self.spec_server_url(),
    {
        self.server_url.as_str()
    }

    pub fn mac_address(&self) -> (r: &str)
        ensures
            r@ == self.spec_mac_address(),
    {
        self.mac_address.as_str()
    }

    /// The registration request, under the optional device `name`.
    pub fn registration(&self, name: Option<String>) -> (r: ClientRegistration)
        ensures
            r.mac_address@ == self.spec_mac_address(),
            r.ip_address@ == self.spec_ip_address(),
            (r.resolution_width, r.resolution_height) == self.spec_resolution(),
            r.name == name,
    {
        ClientRegistration {
            mac_address: self.mac_address.clone(),
            ip_address: self.ip_address.clone(),
            resolution_width: self.resolution_width,
            resolution_height: self.resolution_height,
            name,
        }
    }

    pub fn registration_url(&self) -> (r: String)
        ensures
            r@ == self.spec_server_url() + "/api/register"@,
    {
        registration_url(self.server_url.as_str())
    }

    pub fn sensor_data_url(&self) -> (r: String)
        ensures
            r@ == self.spec_server_url() + "/api/sensor-data?mac_address="@ + self.spec_mac_address(),
    {
        sensor_data_url(self.server_url.as_str(), self.mac_address.as_str())
    }
}

} // verus!
