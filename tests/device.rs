use roku_remote::key::RokuKey;
use roku_remote::roku::{
    command_result, parse_app_list, parse_device_info, CommandError, ConnectError, DeviceEndpoint,
    HttpReply, Roku,
};

const INFO_XML: &str = "<?xml version=\"1.0\" encoding=\"UTF-8\" ?>\n<device-info>\n  <model-name>Roku Ultra</model-name>\n  <friendly-device-name>Living Room</friendly-device-name>\n</device-info>\n";

const APPS_XML: &str = "<?xml version=\"1.0\" encoding=\"UTF-8\" ?>\n<apps>\n  <app id=\"12\" type=\"appl\" version=\"4.1.218\">Netflix</app>\n</apps>\n";

fn ok_reply(body: &str) -> Option<HttpReply> {
    Some(HttpReply { status: 200, body: body.to_string() })
}

fn endpoint() -> DeviceEndpoint {
    DeviceEndpoint::new("10.0.0.5".to_string())
}

#[test]
fn key_names_are_exact_path_segments() {
    assert_eq!(RokuKey::Home.to_str(), "Home");
    assert_eq!(RokuKey::Rev.to_str(), "Rev");
    assert_eq!(RokuKey::Fwd.to_str(), "Fwd");
    assert_eq!(RokuKey::Play.to_str(), "Play");
    assert_eq!(RokuKey::Select.to_str(), "Select");
    assert_eq!(RokuKey::Left.to_str(), "Left");
    assert_eq!(RokuKey::Right.to_str(), "Right");
    assert_eq!(RokuKey::Down.to_str(), "Down");
    assert_eq!(RokuKey::Up.to_str(), "Up");
    assert_eq!(RokuKey::Back.to_str(), "Back");
    assert_eq!(RokuKey::InstantReplay.to_str(), "InstantReplay");
    assert_eq!(RokuKey::Info.to_str(), "Info");
    assert_eq!(RokuKey::Backspace.to_str(), "Backspace");
    assert_eq!(RokuKey::Search.to_str(), "Search");
    assert_eq!(RokuKey::Enter.to_str(), "Enter");
}

#[test]
fn default_key_is_select() {
    assert_eq!(RokuKey::default(), RokuKey::Select);
}

#[test]
fn device_info_has_one_key_per_child() {
    let xml = "<device-info><a>1</a><b>two</b><c/></device-info>";
    let info = parse_device_info(xml).expect("well-formed");
    assert_eq!(info.get("a"), "1");
    assert_eq!(info.get("b"), "two");
    assert_eq!(info.get("c"), "");
    assert_eq!(info.get("d"), "");
    assert_eq!(info.get("A"), "");
}

#[test]
fn device_info_later_duplicate_wins() {
    let info = parse_device_info("<r><k>old</k><k>new</k></r>").expect("well-formed");
    assert_eq!(info.get("k"), "new");
}

#[test]
fn device_info_rejects_malformed_xml() {
    assert!(parse_device_info("<device-info><a>1</device-info>").is_none());
    assert!(parse_device_info("").is_none());
    assert!(parse_device_info("not xml").is_none());
}

#[test]
fn catalog_keeps_only_launchable_apps_in_order() {
    let xml = "<apps><app id=\"12\" type=\"appl\">Netflix</app><app id=\"55545\" type=\"ssvr\">Aquarium</app><app id=\"837\" type=\"appl\">YouTube</app><app id=\"2\" type=\"menu\">Home</app><app id=\"50539\" type=\"appl\">Twitch</app></apps>";
    let apps = parse_app_list(xml).expect("well-formed");
    let got: Vec<(usize, &str)> = apps.iter().map(|a| (a.id, a.name.as_str())).collect();
    assert_eq!(got, vec![(12, "Netflix"), (837, "YouTube"), (50539, "Twitch")]);
}

#[test]
fn catalog_skips_non_app_elements_and_untyped_apps() {
    let xml = "<apps><channel id=\"1\" type=\"appl\">X</channel><app id=\"3\">Untyped</app><app id=\"4\" type=\"appl\">Kept</app></apps>";
    let apps = parse_app_list(xml).expect("well-formed");
    assert_eq!(apps.len(), 1);
    assert_eq!(apps[0].id, 4);
    assert_eq!(apps[0].name, "Kept");
}

#[test]
fn catalog_fails_on_bad_id_of_launchable_app() {
    assert!(parse_app_list("<apps><app id=\"x1\" type=\"appl\">Bad</app></apps>").is_none());
    assert!(parse_app_list("<apps><app type=\"appl\">NoId</app></apps>").is_none());
    assert!(parse_app_list("<apps><app id=\"-1\" type=\"appl\">Neg</app></apps>").is_none());
    assert!(parse_app_list("<apps><app id=\"99999999999999999999999\" type=\"appl\">Big</app></apps>").is_none());
}

#[test]
fn catalog_ignores_bad_id_of_other_entries() {
    let apps = parse_app_list("<apps><app id=\"zz\" type=\"ssvr\">Saver</app><app id=\"+7\" type=\"appl\">Seven</app></apps>").expect("ok");
    assert_eq!(apps.len(), 1);
    assert_eq!(apps[0].id, 7);
}

#[test]
fn catalog_app_without_text_has_empty_name() {
    let apps = parse_app_list("<apps><app id=\"5\" type=\"appl\"/></apps>").expect("ok");
    assert_eq!(apps[0].name, "");
}

#[test]
fn catalog_of_empty_root_is_empty() {
    assert!(parse_app_list("<apps/>").expect("ok").is_empty());
}

#[test]
fn catalog_parse_is_repeatable() {
    let first = parse_app_list(APPS_XML).expect("ok");
    let second = parse_app_list(APPS_XML).expect("ok");
    assert_eq!(first.len(), second.len());
    for (a, b) in first.iter().zip(second.iter()) {
        assert_eq!(a.id, b.id);
        assert_eq!(a.name, b.name);
    }
}

#[test]
fn client_built_from_both_documents() {
    let roku = Roku::new(endpoint(), ok_reply(INFO_XML), ok_reply(APPS_XML)).expect("connects");
    assert_eq!(roku.get_device_info("model-name"), "Roku Ultra");
    assert_eq!(roku.get_friendly_name(), "Living Room");
    assert_eq!(roku.get_device_info("serial-number"), "");
    assert_eq!(roku.app_list.len(), 1);
    assert_eq!(roku.app_list[0].id, 12);
    assert_eq!(roku.app_list[0].name, "Netflix");
    assert_eq!(roku.endpoint.host, "10.0.0.5");
}

#[test]
fn client_fails_when_metadata_fetch_fails() {
    let r = Roku::new(endpoint(), None, ok_reply(APPS_XML));
    assert!(matches!(r, Err(ConnectError::MetadataFetch)));
    let r = Roku::new(endpoint(), Some(HttpReply { status: 500, body: INFO_XML.to_string() }), ok_reply(APPS_XML));
    assert!(matches!(r, Err(ConnectError::MetadataFetch)));
    let r = Roku::new(endpoint(), ok_reply("<broken"), ok_reply(APPS_XML));
    assert!(matches!(r, Err(ConnectError::MetadataFetch)));
}

#[test]
fn client_fails_when_catalog_fetch_fails() {
    let r = Roku::new(endpoint(), ok_reply(INFO_XML), None);
    assert!(matches!(r, Err(ConnectError::CatalogFetch)));
    let r = Roku::new(endpoint(), ok_reply(INFO_XML), Some(HttpReply { status: 404, body: String::new() }));
    assert!(matches!(r, Err(ConnectError::CatalogFetch)));
    let r = Roku::new(endpoint(), ok_reply(INFO_XML), ok_reply("<apps><app type=\"appl\">x</app></apps>"));
    assert!(matches!(r, Err(ConnectError::CatalogFetch)));
}

#[test]
fn request_urls() {
    let e = endpoint();
    assert_eq!(e.device_info_url(), "http://10.0.0.5:8060/query/device-info");
    assert_eq!(e.app_list_url(), "http://10.0.0.5:8060/query/apps");
    assert_eq!(e.keypress_url(RokuKey::Home), "http://10.0.0.5:8060/keypress/Home");
    assert_eq!(e.keypress_url(RokuKey::InstantReplay), "http://10.0.0.5:8060/keypress/InstantReplay");
    assert_eq!(e.launch_url(12), "http://10.0.0.5:8060/launch/12");
    assert_eq!(e.launch_url(0), "http://10.0.0.5:8060/launch/0");
    assert_eq!(e.launch_url(50539), "http://10.0.0.5:8060/launch/50539");
}

#[test]
fn keypress_home_on_connected_client() {
    let roku = Roku::new(endpoint(), ok_reply(INFO_XML), ok_reply(APPS_XML)).expect("connects");
    assert_eq!(roku.keypress_url(RokuKey::Home), "http://10.0.0.5:8060/keypress/Home");
    assert_eq!(roku.launch_app_url(837), "http://10.0.0.5:8060/launch/837");
    assert_eq!(command_result(Some(200)), Ok(()));
    assert_eq!(command_result(Some(500)), Err(CommandError::Status(500)));
    assert_eq!(command_result(None), Err(CommandError::Transport));
}

#[test]
fn command_status_bounds() {
    assert_eq!(command_result(Some(204)), Ok(()));
    assert_eq!(command_result(Some(299)), Ok(()));
    assert_eq!(command_result(Some(199)), Err(CommandError::Status(199)));
    assert_eq!(command_result(Some(300)), Err(CommandError::Status(300)));
}
