use andon::meross::{
    authorization, default_region, device_topic, envelope, matching_uuids, request_headers,
    DeviceEntry, DeviceListReply,
};
use andon::util::{
    md5_hex, random_alnum_upper, random_hex, reading_millis, reading_secs, unix_millis, unix_secs,
};
use andon::{
    lookup_devices, Delivery, DeviceLookup, LoginFlow, LoginReply, LoginStep, MerossSink, Region,
};

fn s(x: &str) -> String {
    x.to_string()
}

#[test]
fn region_bases() {
    assert_eq!(Region::Eu.api_base(), "https://iotx-eu.meross.com");
    assert_eq!(Region::Us.api_base(), "https://iotx-us.meross.com");
    assert_eq!(Region::Ap.api_base(), "https://iotx-ap.meross.com");
    assert_eq!(Region::Custom(s("https://x.test")).api_base(), "https://x.test");
}

#[test]
fn region_names() {
    assert!(matches!(Region::from_name(s("eu")), Region::Eu));
    assert!(matches!(Region::from_name(s("us")), Region::Us));
    assert!(matches!(Region::from_name(s("ap")), Region::Ap));
    assert!(matches!(Region::from_name(s("EU")), Region::Custom(u) if u == "EU"));
    assert_eq!(default_region(), "us");
}

#[test]
fn md5_known_vectors() {
    assert_eq!(md5_hex(""), "d41d8cd98f00b204e9800998ecf8427e");
    assert_eq!(md5_hex("abc"), "900150983cd24fb0d6963f7d28e17f72");
}

#[test]
fn envelope_is_signed_over_its_parts() {
    let env = envelope("{\"a\":1}");
    assert_eq!(env.params, "eyJhIjoxfQ==");
    assert_eq!(env.nonce.len(), 16);
    assert!(env.nonce.chars().all(|c| c.is_ascii_digit() || c.is_ascii_uppercase()));
    let text = format!("23x17ahWarFH6w29{}{}{}", env.timestamp, env.nonce, env.params);
    assert_eq!(env.sign, md5_hex(&text));
    assert!(env.timestamp > 1_600_000_000_000);
}

#[test]
fn authorization_header() {
    assert_eq!(authorization(None), "Basic");
    assert_eq!(authorization(Some("tok")), "Basic tok");
}

fn reply(status: Option<i64>, domain: Option<&str>) -> LoginReply {
    LoginReply {
        api_status: status,
        domain: domain.map(s),
        user_id: Some(s("u1")),
        key: Some(s("k1")),
        token: Some(s("t1")),
        mqtt_domain: Some(s("mqtt.test")),
    }
}

#[test]
fn login_follows_one_redirect() {
    let mut flow = LoginFlow::new("https://iotx-us.meross.com", "pw");
    assert_eq!(flow.password_md5(), md5_hex("pw"));
    assert_eq!(flow.url(), "https://iotx-us.meross.com/v1/Auth/signIn");
    assert!(matches!(flow.step(reply(Some(1030), Some("https://eu.test"))), LoginStep::Retry));
    assert_eq!(flow.url(), "https://eu.test/v1/Auth/signIn");
    match flow.step(reply(Some(1030), Some("https://ap.test"))) {
        LoginStep::Failed(m) => assert_eq!(m, "login failed (apiStatus 1030)"),
        _ => panic!("a second redirect must fail"),
    }
    match flow.step(reply(Some(1030), None)) {
        LoginStep::Failed(m) => assert_eq!(m, "region redirect with no domain"),
        _ => panic!("a redirect without a domain must fail"),
    }
    assert_eq!(flow.url(), "https://eu.test/v1/Auth/signIn");
    match flow.step(reply(Some(0), None)) {
        LoginStep::Done(sess) => {
            assert_eq!(sess.user_id, "u1");
            assert_eq!(sess.key, "k1");
            assert_eq!(sess.token, "t1");
            assert_eq!(sess.mqtt_domain, "mqtt.test");
            assert_eq!(sess.api_base, "https://eu.test");
            assert_eq!(sess.app_id.len(), 32);
            assert_eq!(sess.client_id(), format!("app:{}", sess.app_id));
            assert_eq!(sess.mqtt_password(), md5_hex("u1k1"));
            assert_eq!(sess.device_list_url(), "https://eu.test/v1/Device/devList");
            let h = sess.message_header("Appliance.Control.ToggleX", "SET");
            assert_eq!(h.from, format!("/app/u1-{}/subscribe", sess.app_id));
            assert_eq!(h.message_id.len(), 32);
            assert_eq!(h.sign, md5_hex(&format!("{}k1{}", h.message_id, h.timestamp)));
            assert_eq!(h.method, "SET");
            assert_eq!(h.namespace, "Appliance.Control.ToggleX");
            assert_eq!(h.payload_version, 1);
            assert_eq!(h.trigger_src, "andon");
        }
        _ => panic!("login should succeed"),
    }
}

#[test]
fn login_errors() {
    let mut flow = LoginFlow::new("https://x", "pw");
    match flow.step(reply(Some(1030), None)) {
        LoginStep::Failed(m) => assert_eq!(m, "region redirect with no domain"),
        _ => panic!(),
    }
    match flow.step(reply(None, None)) {
        LoginStep::Failed(m) => assert_eq!(m, "login failed (apiStatus -1)"),
        _ => panic!(),
    }
    let mut r = reply(Some(0), None);
    r.token = None;
    match flow.step(r) {
        LoginStep::Failed(m) => assert_eq!(m, "missing field `token`"),
        _ => panic!(),
    }
    let mut r = reply(Some(0), None);
    r.user_id = None;
    r.key = None;
    match flow.step(r) {
        LoginStep::Failed(m) => assert_eq!(m, "missing field `userid`"),
        _ => panic!(),
    }
}

#[test]
fn device_lookup() {
    let entry = |n: Option<&str>, u: Option<&str>| DeviceEntry { name: n.map(s), uuid: u.map(s) };
    let reply = DeviceListReply {
        api_status: Some(0),
        devices: Some(vec![
            entry(Some("Plug"), Some("u1")),
            entry(Some("Other"), Some("u2")),
            entry(Some("Plug"), None),
            entry(None, Some("u3")),
            entry(Some("Plug"), Some("u4")),
        ]),
    };
    assert_eq!(matching_uuids(&reply, "Plug"), Ok(vec![s("u1"), s("u4")]));
    assert_eq!(matching_uuids(&reply, "None"), Ok(vec![]));
    let failed = DeviceListReply { api_status: Some(3), devices: None };
    assert_eq!(matching_uuids(&failed, "Plug"), Err(s("devList failed")));
    let not_array = DeviceListReply { api_status: Some(0), devices: None };
    assert_eq!(matching_uuids(&not_array, "Plug"), Err(s("devList data is not an array")));
}

#[test]
fn topics_and_toggles() {
    assert_eq!(device_topic("abc"), "/appliance/abc/subscribe");
    let sink = MerossSink::new(s("alarm"), s("Light"), s("e"), s("p"), Region::Eu).with_channel(1);
    let t = sink.toggle(true);
    assert_eq!((t.channel, t.on, t.onoff()), (1, true, 1));
    let c = sink.clear_command();
    assert_eq!((c.channel, c.on, c.onoff()), (1, false, 0));
    let copy = sink.clone();
    assert_eq!(copy.name(), "alarm");
    assert_eq!(copy.email(), "e");
    assert_eq!(copy.password(), "p");
    assert_eq!(copy.channel(), 1);
}

#[test]
fn random_strings_have_requested_shape() {
    for n in [0usize, 1, 2, 15, 30, 32] {
        let h = random_hex(n);
        assert_eq!(h.len(), n);
        assert!(h.chars().all(|c| c.is_ascii_digit() || ('a'..='f').contains(&c)));
        let a = random_alnum_upper(n);
        assert_eq!(a.len(), n);
        assert!(a.chars().all(|c| c.is_ascii_digit() || c.is_ascii_uppercase()));
    }
}

#[test]
fn clock_reads_after_2020() {
    assert!(unix_secs() > 1_600_000_000);
    assert!(unix_millis() > 1_600_000_000_000);
}

#[test]
fn request_headers_identify_the_app() {
    let h = request_headers();
    assert_eq!(h.len(), 5);
    assert_eq!(h[0], ("AppType", "MMS"));
    assert_eq!(h[3], ("vender", "meross"));
    assert_eq!(h[4], ("User-Agent", "MerossIOT/3.39.0"));
}

#[test]
fn clock_readings_convert() {
    assert_eq!(reading_secs(Some((2, 345_678_901))), 2);
    assert_eq!(reading_millis(Some((2, 345_678_901))), 2345);
    assert_eq!(reading_secs(None), 0);
    assert_eq!(reading_millis(None), 0);
}

#[test]
fn millis_of_a_reading_divided_are_its_seconds() {
    for t in [Some((0u64, 0u32)), Some((7, 999_999_999)), Some((u64::MAX, 999_999_999)), None] {
        assert_eq!(reading_millis(t) / 1000, reading_secs(t) as u128);
    }
}

#[test]
fn device_lookup_outcomes() {
    let entry = |n: &str, u: &str| DeviceEntry { name: Some(s(n)), uuid: Some(s(u)) };
    let reply = DeviceListReply {
        api_status: Some(0),
        devices: Some(vec![entry("Plug", "u1"), entry("Other", "u2"), entry("Plug", "u3")]),
    };
    match lookup_devices(&reply, "Plug") {
        DeviceLookup::Found(u) => assert_eq!(u, vec![s("u1"), s("u3")]),
        _ => panic!("devices should be found"),
    }
    assert!(matches!(lookup_devices(&reply, "Lamp"), DeviceLookup::NoneMatched));
    let failed = DeviceListReply { api_status: Some(1), devices: None };
    match lookup_devices(&failed, "Plug") {
        DeviceLookup::Failed(m) => assert_eq!(m, "devList failed"),
        _ => panic!("lookup should fail"),
    }
    let not_array = DeviceListReply { api_status: Some(0), devices: None };
    match lookup_devices(&not_array, "Plug") {
        DeviceLookup::Failed(m) => assert_eq!(m, "devList data is not an array"),
        _ => panic!("lookup should fail"),
    }
}

#[test]
fn delivery_counts_acknowledgements() {
    assert!(Delivery::new(&vec![]).is_none());
    let mut d = Delivery::new(&vec![s("a"), s("b")]).expect("two devices");
    assert_eq!(d.topics(), &vec![s("/appliance/a/subscribe"), s("/appliance/b/subscribe")]);
    assert!(!d.done());
    assert!(!d.on_event(false));
    assert!(!d.on_event(true));
    assert!(d.on_event(true));
    assert!(d.done());
    assert!(d.on_event(true));
}
