//! A verified core for a television-control client that authenticates
//! against a remote service with the OAuth2 authorization-code flow (with
//! PKCE), manages the credential's lifecycle, and keeps two lazily
//! populated lookup directories (channels and devices).
//!
//! The host application around this library does the actual I/O: HTTP
//! requests, the local callback HTTP server, opening the browser, and the
//! reading and writing of the persisted files. Everything the client
//! decides or computes — the acquire/refresh/re-authenticate decision,
//! PKCE challenge handling, URL construction, response classification,
//! directory grouping and lookup — lives here, with contracts.
use vstd::prelude::*;

pub mod cache;
pub mod channels;
pub mod devices;
pub mod errors;
pub mod flow;
pub mod lifecycle;
pub mod oauth;
pub mod pkce;
pub mod recordings;
pub mod response;
pub mod search;
pub mod server;
pub mod strutil;
pub mod token;
pub mod utils;

use crate::channels::all_groups_nonempty;
use crate::channels::channels_view;
use crate::channels::ChannelMap;
use crate::oauth::Config;
use crate::oauth::ConfigView;
use crate::strutil::decimal_digits;
use crate::strutil::parse_u16;
use crate::strutil::spec_parse_u16;
use crate::strutil::to_upper;
use crate::strutil::u16_to_string;
use crate::strutil::upper_of;
use crate::token::Token;
use crate::token::TokenView;

verus! {

/// The remote-control keys the client can press.
#[derive(Clone, Copy, PartialEq, Eq, Structural, Debug)]
pub enum KeyCode {
    Play,
    Pause,
    Stop,
    FastForward,
    Rewind,
    Exit,
}

/// A key's name.
pub open spec fn spec_key_name(c: KeyCode) -> Seq<char> {
    match c {
        KeyCode::Play => "Play"@,
        KeyCode::Pause => "Pause"@,
        KeyCode::Stop => "Stop"@,
        KeyCode::FastForward => "FastForward"@,
        KeyCode::Rewind => "Rewind"@,
        KeyCode::Exit => "Exit"@,
    }
}

/// What convert_case's upper-snake conversion returns: a function of the
/// input characters alone.
pub uninterp spec fn upper_snake_of(s: Seq<char>) -> Seq<char>;

/// Relies on convert_case's `Casing::to_case` with `Case::UpperSnake`:
/// the result depends on the input characters alone.
#[verifier::external_body]
fn to_upper_snake(s: &str) -> (r: String)
    ensures
        r@ == upper_snake_of(s@),
{
    convert_case::Casing::to_case(&s, convert_case::Case::UpperSnake)
}

impl KeyCode {
    /// The key's name.
    pub fn name(&self) -> (r: String)
        ensures
            r@ == spec_key_name(*self),
    {
        match self {
            KeyCode::Play => String::from_str("Play"),
            KeyCode::Pause => String::from_str("Pause"),
            KeyCode::Stop => String::from_str("Stop"),
            KeyCode::FastForward => String::from_str("FastForward"),
            KeyCode::Rewind => String::from_str("Rewind"),
            KeyCode::Exit => String::from_str("Exit"),
        }
    }

    /// The code the remote API expects: the key's name in upper snake
    /// case (`FastForward` becomes `FAST_FORWARD`).
    pub fn api_code(&self) -> (r: String)
        ensures
            r@ == upper_snake_of(spec_key_name(*self)),
    {
        let n = self.name();
        to_upper_snake(n.as_str())
    }
}

/// What a tune command can point at.
#[derive(Clone, Copy, PartialEq, Eq, Structural, Debug)]
pub enum TuningTarget {
    Channel,
    Recording,
    VOD,
}

impl TuningTarget {
    /// The target's segment in the tune path.
    pub open spec fn spec_segment(self) -> Seq<char> {
        match self {
            TuningTarget::Channel => "channel"@,
            TuningTarget::Recording => "recording"@,
            TuningTarget::VOD => "vod"@,
        }
    }

    /// The form parameter that carries the tune identifier.
    pub open spec fn spec_id_param(self) -> Seq<char> {
        match self {
            TuningTarget::Channel => "channelNumber"@,
            TuningTarget::Recording => "mediaId"@,
            TuningTarget::VOD => "mediaId"@,
        }
    }

    /// The target's segment in the tune path.
    pub fn segment(&self) -> (r: String)
        ensures
            r@ == self.spec_segment(),
    {
        match self {
            TuningTarget::Channel => String::from_str("channel"),
            TuningTarget::Recording => String::from_str("recording"),
            TuningTarget::VOD => String::from_str("vod"),
        }
    }

    /// The form parameter that carries the tune identifier.
    pub fn id_param(&self) -> (r: String)
        ensures
            r@ == self.spec_id_param(),
    {
        match self {
            TuningTarget::Channel => String::from_str("channelNumber"),
            TuningTarget::Recording => String::from_str("mediaId"),
            TuningTarget::VOD => String::from_str("mediaId"),
        }
    }
}

/// The absolute URL of an API endpoint.
pub fn api_url(api_host: &str, endpoint: &str) -> (u: String)
    ensures
        u@ == "https://"@ + api_host@ + endpoint@,
{
    let mut u = String::new();
    u.append("https://");
    u.append(api_host);
    u.append(endpoint);
    proof {
        assert(u@ =~= "https://"@ + api_host@ + endpoint@);
    }
    u
}

/// The request that pressing a key sends: the device's processKey path
/// and the keyCode form value.
pub fn press_key_request(code: &KeyCode, device_id: &str) -> (r: (String, String))
    ensures
        r.0@ == "/devices/"@ + device_id@ + "/remote/processKey/"@,
        r.1@ == upper_snake_of(spec_key_name(*code)),
{
    let mut path = String::new();
    path.append("/devices/");
    path.append(device_id);
    path.append("/remote/processKey/");
    proof {
        assert(path@ =~= "/devices/"@ + device_id@ + "/remote/processKey/"@);
    }
    (path, code.api_code())
}

/// The path a tune command posts to.
pub open spec fn spec_tune_path(target: TuningTarget, device_id: Seq<char>) -> Seq<char> {
    "/devices/"@ + device_id + "/remote/tune/"@ + target.spec_segment() + "/"@
}

/// Whether resolving the tune identifier needs the channel directory:
/// only a channel target whose identifier is not itself a broadcast
/// number.
pub fn needs_channel_map(target: &TuningTarget, id: &str) -> (r: bool)
    ensures
        r == (*target is Channel && spec_parse_u16(id@) is None),
{
    match target {
        TuningTarget::Channel => parse_u16(id).is_none(),
        _ => false,
    }
}

/// The request a tune command sends: the tune path for the device and
/// target, the identifier parameter's name, and its value. A channel
/// identifier that is a broadcast number is used as that number; any
/// other is looked up in the channel directory by uppercased call sign,
/// resolving to the first listed channel's number, or passed through
/// unchanged when the directory does not know it.
pub fn tune_request(
    target: &TuningTarget,
    id: &String,
    device_id: &str,
    channels: Option<&ChannelMap>,
) -> (r: (String, String, String))
    requires
        (*target is Channel && spec_parse_u16(id@) is None) ==> (channels matches Some(m)
            && m.wf() && all_groups_nonempty(m@)),
    ensures
        r.0@ == spec_tune_path(*target, device_id@),
        r.1@ == target.spec_id_param(),
        !(*target is Channel) ==> r.2@ == id@,
        *target is Channel ==> (spec_parse_u16(id@) matches Some(n) ==> r.2@ == decimal_digits(
            n as int,
        )),
        (*target is Channel && spec_parse_u16(id@) is None) ==> r.2@ == ({
            let m = channels->0@;
            let k = upper_of(id@);
            if m.contains_key(k) {
                decimal_digits(m[k][0].number as int)
            } else {
                id@
            }
        }),
{
    let mut path = String::new();
    path.append("/devices/");
    path.append(device_id);
    path.append("/remote/tune/");
    let seg = target.segment();
    path.append(seg.as_str());
    path.append("/");
    proof {
        assert(path@ =~= spec_tune_path(*target, device_id@));
    }
    let param = target.id_param();
    let value: String = match target {
        TuningTarget::Channel => {
            match parse_u16(id.as_str()) {
                Some(n) => u16_to_string(n),
                None => {
                    let m = channels.unwrap();
                    let key = to_upper(id.as_str());
                    match m.get(&key) {
                        Some(v) => {
                            proof {
                                assert(m@[key@].len() > 0);
                                assert(v@.len() == channels_view(v@).len());
                                assert(channels_view(v@)[0] == v@[0]@);
                            }
                            u16_to_string(v[0].number())
                        },
                        None => id.clone(),
                    }
                },
            }
        },
        _ => id.clone(),
    };
    (path, param, value)
}

/// The persisted client configuration: the API host, the OAuth client
/// configuration, and the last acquired credential, if any.
#[derive(Debug)]
pub struct ClientConfig {
    api_host: String,
    oauth: Config,
    token: Option<Token>,
}

/// The mathematical content of a [`ClientConfig`].
pub struct ClientConfigView {
    pub api_host: Seq<char>,
    pub oauth: ConfigView,
    pub token: Option<TokenView>,
}

impl View for ClientConfig {
    type V = ClientConfigView;

    closed spec fn view(&self) -> ClientConfigView {
        ClientConfigView {
            api_host: self.api_host@,
            oauth: self.oauth@,
            token: match self.token {
                None => None,
                Some(t) => Some(t@),
            },
        }
    }
}

impl ClientConfig {
    pub fn new(api_host: String, oauth: Config, token: Option<Token>) -> (c: ClientConfig)
        ensures
            c@.api_host == api_host@,
            c@.oauth == oauth@,
            match token {
                None => c@.token is None,
                Some(t) => c@.token == Some(t@),
            },
    {
        ClientConfig { api_host, oauth, token }
    }

    pub fn api_host(&self) -> (r: &String)
        ensures
            r@ == self@.api_host,
    {
        &self.api_host
    }

    pub fn oauth(&self) -> (r: &Config)
        ensures
            r@ == self@.oauth,
    {
        &self.oauth
    }

    pub fn token(&self) -> (r: &Option<Token>)
        ensures
            match r {
                None => self@.token is None,
                Some(t) => self@.token == Some(t@),
            },
    {
        &self.token
    }

    /// Splits the configuration into its parts, handing the credential
    /// slot its persisted content.
    pub fn into_parts(self) -> (r: (String, Config, Option<Token>))
        ensures
            r.0@ == self@.api_host,
            r.1@ == self@.oauth,
            match r.2 {
                None => self@.token is None,
                Some(t) => self@.token == Some(t@),
            },
    {
        let ClientConfig { api_host, oauth, token } = self;
        (api_host, oauth, token)
    }
}

} // verus!
