//! Where the upstream platform is reached, and how the gateway presents
//! itself to it.

use vstd::prelude::*;
use vstd::std_specs::convert::FromSpecImpl;

verus! {

/// Identity service of the platform's production deployment.
pub const DEFAULT_IDENTITY_URL: &'static str = "https://identity.bitwarden.com";

/// API service of the platform's production deployment.
pub const DEFAULT_API_URL: &'static str = "https://api.bitwarden.com";

/// The user agent under which the gateway calls the upstream platform.
pub const USER_AGENT: &'static str = "bws_rest_proxy";

/// What a [`Settings`] value holds.
pub struct SettingsView {
    pub identity_url: Seq<char>,
    pub api_url: Seq<char>,
}

/// The base URLs of the upstream platform. Set once when the process starts
/// and never changed.
#[derive(Debug)]
pub struct Settings {
    identity_url: String,
    api_url: String,
}

impl View for Settings {
    type V = SettingsView;

    closed spec fn view(&self) -> SettingsView {
        SettingsView { identity_url: self.identity_url@, api_url: self.api_url@ }
    }
}

impl Clone for Settings {
    fn clone(&self) -> (copy: Settings)
        ensures
            copy@ == self@,
    {
        Settings { identity_url: self.identity_url.clone(), api_url: self.api_url.clone() }
    }
}

/// The URL that is used where `given` is the caller's choice and `default`
/// the production endpoint.
pub open spec fn url_or_default(given: Option<String>, default: Seq<char>) -> Seq<char> {
    match given {
        Some(url) => url@,
        None => default,
    }
}

/// The settings with each URL that is given, and the production endpoint in
/// place of each that is not.
pub fn settings(identity_url: Option<String>, api_url: Option<String>) -> (settings: Settings)
    ensures
        settings@.identity_url == url_or_default(identity_url, DEFAULT_IDENTITY_URL@),
        settings@.api_url == url_or_default(api_url, DEFAULT_API_URL@),
{
    let identity_url = match identity_url {
        Some(url) => url,
        None => DEFAULT_IDENTITY_URL.to_string(),
    };
    let api_url = match api_url {
        Some(url) => url,
        None => DEFAULT_API_URL.to_string(),
    };
    Settings { identity_url, api_url }
}

/// The kinds of client that the upstream platform tells apart.
#[allow(non_camel_case_types)]
#[derive(Clone, Copy, Debug, PartialEq, Eq, Structural)]
pub enum DeviceType {
    Android,
    iOS,
    ChromeExtension,
    FirefoxExtension,
    OperaExtension,
    EdgeExtension,
    WindowsDesktop,
    MacOsDesktop,
    LinuxDesktop,
    ChromeBrowser,
    FirefoxBrowser,
    OperaBrowser,
    EdgeBrowser,
    IEBrowser,
    UnknownBrowser,
    AndroidAmazon,
    UWP,
    SafariBrowser,
    VivaldiBrowser,
    VivaldiExtension,
    SafariExtension,
    SDK,
}

/// What a [`ClientSettings`] value holds.
pub struct ClientSettingsView {
    pub identity_url: Seq<char>,
    pub api_url: Seq<char>,
    pub user_agent: Seq<char>,
    pub device_type: DeviceType,
}

/// How one upstream client session is set up.
#[derive(Debug)]
pub struct ClientSettings {
    pub identity_url: String,
    pub api_url: String,
    pub user_agent: String,
    pub device_type: DeviceType,
}

impl View for ClientSettings {
    type V = ClientSettingsView;

    open spec fn view(&self) -> ClientSettingsView {
        ClientSettingsView {
            identity_url: self.identity_url@,
            api_url: self.api_url@,
            user_agent: self.user_agent@,
            device_type: self.device_type,
        }
    }
}

/// The session settings that go with the base URLs `settings`: the gateway's
/// user agent, and the device type of an SDK client.
pub open spec fn client_settings_for(settings: SettingsView) -> ClientSettingsView {
    ClientSettingsView {
        identity_url: settings.identity_url,
        api_url: settings.api_url,
        user_agent: USER_AGENT@,
        device_type: DeviceType::SDK,
    }
}

/// `from` is specified by its own `ensures`, over views: no spec function
/// can build the strings of the value that it returns.
impl FromSpecImpl<Settings> for ClientSettings {
    open spec fn obeys_from_spec() -> bool {
        false
    }

    open spec fn from_spec(val: Settings) -> ClientSettings {
        arbitrary()
    }
}

impl From<Settings> for ClientSettings {
    fn from(val: Settings) -> (client: ClientSettings)
        ensures
            client@ == client_settings_for(val@),
    {
        ClientSettings {
            identity_url: val.identity_url,
            api_url: val.api_url,
            user_agent: USER_AGENT.to_string(),
            device_type: DeviceType::SDK,
        }
    }
}

} // verus!
