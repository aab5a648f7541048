use unifi_exporter::client::{classify_response, ClientError, UnifiClient};
use unifi_exporter::telemetry::{Site, SitesResponse};

fn site(id: Option<&str>) -> Site {
    Site {
        id: id.map(|s| s.to_string()),
        internal_reference: Some("default".to_string()),
        name: Some("Default".to_string()),
    }
}

fn sites(data: Vec<Site>) -> SitesResponse {
    let n = data.len() as u32;
    SitesResponse { offset: 0, limit: 25, count: n, total_count: n, data }
}

#[test]
fn success_status_keeps_body() {
    assert_eq!(classify_response(200, "{}".to_string()), Ok("{}".to_string()));
    assert_eq!(classify_response(204, String::new()), Ok(String::new()));
}

#[test]
fn unauthorized_and_forbidden_mean_auth_expired() {
    assert_eq!(classify_response(401, "no".to_string()), Err(ClientError::AuthExpired));
    assert_eq!(classify_response(403, "no".to_string()), Err(ClientError::AuthExpired));
}

#[test]
fn other_statuses_are_remote_errors() {
    assert_eq!(
        classify_response(500, "boom".to_string()),
        Err(ClientError::Remote { status: 500, body: "boom".to_string() })
    );
    assert_eq!(
        classify_response(404, String::new()),
        Err(ClientError::Remote { status: 404, body: String::new() })
    );
    assert_eq!(
        classify_response(302, "moved".to_string()),
        Err(ClientError::Remote { status: 302, body: "moved".to_string() })
    );
}

#[test]
fn invalid_endpoint_is_refused() {
    assert!(matches!(
        UnifiClient::new("not a url", "SECRET".to_string()),
        Err(ClientError::InvalidUrl)
    ));
}

#[test]
fn endpoint_is_normalised_by_the_url_parser() {
    let c = UnifiClient::new("https://192.168.3.254", "SECRET".to_string()).unwrap();
    assert_eq!(c.endpoint(), "https://192.168.3.254/");
    assert_eq!(c.api_token(), "SECRET");
    assert!(!c.is_ready());
}

#[test]
fn info_and_sites_urls_replace_the_endpoint_path() {
    let c = UnifiClient::new("https://controller.lan:8443/ignored/path", "t".to_string()).unwrap();
    assert_eq!(
        c.info_url().unwrap(),
        "https://controller.lan:8443/proxy/network/integration/v1/info"
    );
    assert_eq!(
        c.sites_url().unwrap(),
        "https://controller.lan:8443/proxy/network/integration/v1/sites"
    );
}

#[test]
fn device_requests_wait_for_discovery() {
    let c = UnifiClient::new("https://192.168.3.254", "t".to_string()).unwrap();
    assert!(matches!(c.devices_url(), Err(ClientError::NotReady)));
    assert!(matches!(c.device_stats_url("abc"), Err(ClientError::NotReady)));
}

#[test]
fn first_site_sets_the_request_paths() {
    let mut c = UnifiClient::new("https://192.168.3.254", "t".to_string()).unwrap();
    let r = c.set_site_from(&sites(vec![site(Some("88f7af54")), site(Some("second"))]));
    assert!(r.is_ok());
    assert!(c.is_ready());
    assert_eq!(c.site_id(), Some("88f7af54".to_string()));
    assert_eq!(
        c.devices_url().unwrap(),
        "https://192.168.3.254/proxy/network/integration/v1/sites/88f7af54/devices"
    );
    assert_eq!(
        c.device_stats_url("dev-1").unwrap(),
        "https://192.168.3.254/proxy/network/integration/v1/sites/88f7af54/devices/dev-1/statistics/latest"
    );
}

#[test]
fn empty_sites_collection_is_no_group_found() {
    let mut c = UnifiClient::new("https://192.168.3.254", "t".to_string()).unwrap();
    assert!(matches!(c.set_site_from(&sites(vec![])), Err(ClientError::NoGroupFound)));
    assert!(!c.is_ready());
}

#[test]
fn first_site_without_id_is_no_group_found() {
    let mut c = UnifiClient::new("https://192.168.3.254", "t".to_string()).unwrap();
    let r = c.set_site_from(&sites(vec![site(None), site(Some("later"))]));
    assert!(matches!(r, Err(ClientError::NoGroupFound)));
    assert!(!c.is_ready());
}

#[test]
fn reset_forgets_the_site() {
    let mut c = UnifiClient::new("https://192.168.3.254", "t".to_string()).unwrap();
    c.set_site_from(&sites(vec![site(Some("default"))])).unwrap();
    c.reset();
    assert!(!c.is_ready());
    assert_eq!(c.site_id(), None);
    assert!(matches!(c.devices_url(), Err(ClientError::NotReady)));
}
