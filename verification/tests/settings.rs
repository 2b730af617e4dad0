use bws_rest_proxy::{settings, ClientSettings, DeviceType};

#[test]
fn settings_default_to_the_production_endpoints() {
    let client = ClientSettings::from(settings(None, None));
    assert_eq!(client.identity_url, "https://identity.bitwarden.com");
    assert_eq!(client.api_url, "https://api.bitwarden.com");
}

#[test]
fn settings_keep_the_urls_that_are_given() {
    let client = ClientSettings::from(settings(
        Some("https://identity.example.org".to_string()),
        Some("https://api.example.org".to_string()),
    ));
    assert_eq!(client.identity_url, "https://identity.example.org");
    assert_eq!(client.api_url, "https://api.example.org");
}

#[test]
fn settings_default_each_url_on_its_own() {
    let client = ClientSettings::from(settings(None, Some("http://localhost:4000".to_string())));
    assert_eq!(client.identity_url, "https://identity.bitwarden.com");
    assert_eq!(client.api_url, "http://localhost:4000");
    let client = ClientSettings::from(settings(Some("".to_string()), None));
    assert_eq!(client.identity_url, "");
    assert_eq!(client.api_url, "https://api.bitwarden.com");
}

#[test]
fn client_presents_itself_as_the_gateway() {
    let client = ClientSettings::from(settings(None, None));
    assert_eq!(client.user_agent, "bws_rest_proxy");
    assert_eq!(client.device_type, DeviceType::SDK);
}

#[test]
fn settings_clone_keeps_both_urls() {
    let urls = settings(Some("a".to_string()), Some("b".to_string()));
    let client = ClientSettings::from(urls.clone());
    assert_eq!(client.identity_url, "a");
    assert_eq!(client.api_url, "b");
}
