use roku_remote::discovery::{endpoints_from_locations, SEARCH_MX, SEARCH_TARGET};
use roku_remote::key::RokuKey;
use roku_remote::remote::{
    first_responder, ItemData, RokuRemote, SearchOutcome, SearchStatus, USER_ROLE,
};
use roku_remote::roku::{ConnectError, DeviceEndpoint, HttpReply, Roku};

const INFO_XML: &str = "<device-info><model-name>Roku Ultra</model-name><friendly-device-name>Living Room</friendly-device-name></device-info>";
const APPS_XML: &str = "<apps><app id=\"12\" type=\"appl\">Netflix</app></apps>";

fn loc(s: &str) -> Option<Vec<u8>> {
    Some(s.as_bytes().to_vec())
}

fn connected(host: &str) -> Roku {
    Roku::new(
        DeviceEndpoint::new(host.to_string()),
        Some(HttpReply { status: 200, body: INFO_XML.to_string() }),
        Some(HttpReply { status: 200, body: APPS_XML.to_string() }),
    )
    .expect("connects")
}

fn app_names(r: &RokuRemote) -> Vec<String> {
    r.apps().iter().map(|a| a.name.clone()).collect()
}

#[test]
fn search_parameters() {
    assert_eq!(SEARCH_TARGET, "roku:ecp");
    assert_eq!(SEARCH_MX, 5);
}

#[test]
fn no_responders_give_no_endpoints() {
    assert!(endpoints_from_locations(&Vec::new()).is_empty());
}

#[test]
fn endpoints_keep_arrival_order_and_skip_bad_replies() {
    let replies = vec![
        loc("http://10.0.0.5:8060/"),
        None,
        loc("not a url"),
        loc("http://192.168.1.20:8060/"),
        loc("mailto:someone@example.com"),
        loc("http://Living-Room.local:8060/"),
        loc("http://[fe80::1]:8060/"),
    ];
    let found = endpoints_from_locations(&replies);
    let hosts: Vec<&str> = found.iter().map(|e| e.host.as_str()).collect();
    assert_eq!(hosts, vec!["10.0.0.5", "192.168.1.20", "living-room.local", "[fe80::1]"]);
}

#[test]
fn first_responder_wins() {
    let found = endpoints_from_locations(&vec![loc("http://10.0.0.5:8060/"), loc("http://10.0.0.6:8060/")]);
    assert_eq!(first_responder(found).expect("one").host, "10.0.0.5");
    assert!(first_responder(Vec::new()).is_none());
}

#[test]
fn second_search_request_is_ignored_while_searching() {
    let mut r = RokuRemote::new();
    assert_eq!(r.status(), SearchStatus::Idle);
    assert!(r.find_roku());
    assert_eq!(r.status(), SearchStatus::Searching);
    assert_eq!(r.status_str(), "Searching");
    assert!(!r.find_roku());
    assert_eq!(r.status(), SearchStatus::Searching);
    assert!(r.search_done(SearchOutcome::NotFound));
    assert!(!r.search_done(SearchOutcome::Connected(connected("10.0.0.9"))));
    assert_eq!(r.name(), "<Not Connected>");
    assert!(r.roku().is_none());
    assert_eq!(r.status_str(), "Idle");
}

#[test]
fn scenario_device_found_and_connected() {
    let mut r = RokuRemote::new();
    assert!(r.find_roku());
    let found = endpoints_from_locations(&vec![loc("http://10.0.0.5:8060/")]);
    let endpoint = first_responder(found).expect("one device");
    let roku = Roku::new(
        endpoint,
        Some(HttpReply { status: 200, body: INFO_XML.to_string() }),
        Some(HttpReply { status: 200, body: APPS_XML.to_string() }),
    )
    .expect("connects");
    assert!(r.search_done(SearchOutcome::Connected(roku)));
    assert_eq!(r.status(), SearchStatus::Idle);
    assert_eq!(r.name(), "Living Room");
    assert_eq!(app_names(&r), vec!["Netflix".to_string()]);
    let roku = r.roku().as_ref().expect("connected");
    assert_eq!(roku.keypress_url(RokuKey::Home), "http://10.0.0.5:8060/keypress/Home");
    assert_eq!(roku.launch_app_url(12), "http://10.0.0.5:8060/launch/12");
}

#[test]
fn scenario_no_device_found() {
    let mut r = RokuRemote::new();
    assert!(r.find_roku());
    let found = endpoints_from_locations(&Vec::new());
    assert!(first_responder(found).is_none());
    assert!(r.search_done(SearchOutcome::NotFound));
    assert_eq!(r.status(), SearchStatus::Idle);
    assert_eq!(r.name(), "<Not Connected>");
    assert!(r.apps().is_empty());
    assert_eq!(r.row_count(), 0);
    assert!(r.roku().is_none());
}

#[test]
fn failed_search_clears_apps_and_keeps_client() {
    let mut r = RokuRemote::new();
    assert!(r.find_roku());
    assert!(r.search_done(SearchOutcome::Connected(connected("10.0.0.5"))));
    assert_eq!(r.row_count(), 1);
    assert!(r.find_roku());
    assert!(r.search_done(SearchOutcome::ConnectFailed(ConnectError::CatalogFetch)));
    assert_eq!(r.name(), "<Not Connected>");
    assert_eq!(r.row_count(), 0);
    assert_eq!(r.roku().as_ref().expect("kept").endpoint.host, "10.0.0.5");
}

#[test]
fn new_search_replaces_client() {
    let mut r = RokuRemote::new();
    assert!(r.find_roku());
    assert!(r.search_done(SearchOutcome::Connected(connected("10.0.0.5"))));
    assert!(r.find_roku());
    assert!(r.search_done(SearchOutcome::Connected(connected("10.0.0.7"))));
    let roku = r.roku().as_ref().expect("connected");
    assert_eq!(roku.keypress_url(RokuKey::Back), "http://10.0.0.7:8060/keypress/Back");
}

#[test]
fn list_model_data() {
    let mut r = RokuRemote::new();
    assert!(r.find_roku());
    assert!(r.search_done(SearchOutcome::Connected(connected("10.0.0.5"))));
    assert!(matches!(r.data(0, USER_ROLE), ItemData::Name(ref n) if n == "Netflix"));
    assert!(matches!(r.data(0, USER_ROLE + 1), ItemData::AppId(12)));
    match r.data(0, USER_ROLE + 2) {
        ItemData::ColorCode(c) => assert_eq!(c.len(), 7),
        _ => panic!("expected a colour code"),
    }
    assert!(matches!(r.data(0, USER_ROLE + 3), ItemData::Nothing));
    assert!(matches!(r.data(0, 0), ItemData::Nothing));
    assert!(matches!(r.data(1, USER_ROLE), ItemData::Nothing));
    assert!(matches!(r.data(-1, USER_ROLE), ItemData::Nothing));
}
