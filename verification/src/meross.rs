use vstd::prelude::*;
use vstd::string::StringSliceAdditionalSpecFns;

use crate::text::{decimal, decimal_string, signed_decimal, signed_decimal_string};
use crate::util::{
    base64_of, base64_standard, is_hex_char, is_reading, is_upper_alnum_char, md5_hex, md5_hex_of,
    millis_of, random_alnum_upper, random_hex, unix_millis, unix_secs,
};

verus! {

broadcast use vstd::string::group_string_axioms;

/// The shared secret that signs cloud API requests.
pub const SECRET: &'static str = "23x17ahWarFH6w29";

/// The device namespace of relay commands.
pub const TOGGLE_NAMESPACE: &'static str = "Appliance.Control.ToggleX";

/// The method that sets a relay.
pub const TOGGLE_METHOD: &'static str = "SET";

/// The MQTT broker port (TLS).
pub const MQTT_PORT: u16 = 443;

/// The MQTT keep-alive interval, in seconds.
pub const MQTT_KEEP_ALIVE_SECS: u64 = 30;

/// How long to wait for every publish acknowledgement, in seconds.
pub const PUBACK_TIMEOUT_SECS: u64 = 20;

/// The headers every cloud API request carries besides `Authorization`.
pub fn request_headers() -> (h: Vec<(&'static str, &'static str)>)
    ensures
        h@.len() == 5,
        h@[0].0@ == "AppType"@ && h@[0].1@ == "MMS"@,
        h@[1].0@ == "AppVersion"@ && h@[1].1@ == "3.39.0"@,
        h@[2].0@ == "AppLanguage"@ && h@[2].1@ == "EN"@,
        h@[3].0@ == "vender"@ && h@[3].1@ == "meross"@,
        h@[4].0@ == "User-Agent"@ && h@[4].1@ == "MerossIOT/3.39.0"@,
{
    let mut h = Vec::new();
    h.push(("AppType", "MMS"));
    h.push(("AppVersion", "3.39.0"));
    h.push(("AppLanguage", "EN"));
    h.push(("vender", "meross"));
    h.push(("User-Agent", "MerossIOT/3.39.0"));
    h
}

/// `a` and `b` hold the same text.
pub fn same_text(a: &str, b: &str) -> (same: bool)
    ensures
        same == (a@ == b@),
{
    let x = a.to_string();
    let y = b.to_string();
    x == y
}

/// `a` followed by `b`.
pub fn join2(a: &str, b: &str) -> (s: String)
    ensures
        s@ == a@ + b@,
{
    let mut s = a.to_string();
    s.append(b);
    s
}

/// `a`, `b`, `c` in turn.
pub fn join3(a: &str, b: &str, c: &str) -> (s: String)
    ensures
        s@ == a@ + b@ + c@,
{
    let mut s = a.to_string();
    s.append(b);
    s.append(c);
    s
}

/// Meross cloud region.
#[derive(Debug)]
pub enum Region {
    Eu,
    Us,
    Ap,
    /// Supply a full HTTPS base URL.
    Custom(String),
}

impl Clone for Region {
    fn clone(&self) -> (r: Self)
        ensures
            r == *self,
    {
        match self {
            Region::Eu => Region::Eu,
            Region::Us => Region::Us,
            Region::Ap => Region::Ap,
            Region::Custom(url) => Region::Custom(url.clone()),
        }
    }
}

/// The API base URL of a region.
pub open spec fn region_base(r: Region) -> Seq<char> {
    match r {
        Region::Eu => "https://iotx-eu.meross.com"@,
        Region::Us => "https://iotx-us.meross.com"@,
        Region::Ap => "https://iotx-ap.meross.com"@,
        Region::Custom(url) => url@,
    }
}

/// The API base URL of the region a configuration names.
pub open spec fn named_region_base(name: Seq<char>) -> Seq<char> {
    if name == "eu"@ {
        "https://iotx-eu.meross.com"@
    } else if name == "us"@ {
        "https://iotx-us.meross.com"@
    } else if name == "ap"@ {
        "https://iotx-ap.meross.com"@
    } else {
        name
    }
}

impl Region {
    pub fn api_base(&self) -> (base: &str)
        ensures
            base@ == region_base(*self),
    {
        match self {
            Region::Eu => "https://iotx-eu.meross.com",
            Region::Us => "https://iotx-us.meross.com",
            Region::Ap => "https://iotx-ap.meross.com",
            Region::Custom(url) => url.as_str(),
        }
    }

    /// The region named in a configuration: `"eu"`, `"us"` and `"ap"` are
    /// the cloud regions, anything else is taken as a base URL.
    pub fn from_name(name: String) -> (r: Self)
        ensures
            name@ == "eu"@ ==> r == Region::Eu,
            name@ == "us"@ ==> r == Region::Us,
            name@ == "ap"@ ==> r == Region::Ap,
            name@ != "eu"@ && name@ != "us"@ && name@ != "ap"@ ==> (r matches Region::Custom(
                url,
            ) && url@ == name@),
            region_base(r) == named_region_base(name@),
    {
        proof {
            reveal_strlit("eu");
            reveal_strlit("us");
            reveal_strlit("ap");
            assert("eu"@[0] != "us"@[0]);
            assert("eu"@[0] != "ap"@[0]);
            assert("us"@[0] != "ap"@[0]);
        }
        if same_text(name.as_str(), "eu") {
            Region::Eu
        } else if same_text(name.as_str(), "us") {
            Region::Us
        } else if same_text(name.as_str(), "ap") {
            Region::Ap
        } else {
            Region::Custom(name)
        }
    }
}

/// The region used when a configuration names none.
pub fn default_region() -> (name: String)
    ensures
        name@ == "us"@,
{
    "us".to_string()
}

// ── request signing ──────────────────────────────────

/// The signed envelope that carries the parameters of a cloud API request.
pub struct RequestEnvelope {
    /// Base64 of the JSON parameters.
    pub params: String,
    /// Lowercase MD5 hex of secret, timestamp, nonce and params.
    pub sign: String,
    /// Milliseconds since the Unix epoch.
    pub timestamp: u128,
    /// Sixteen random uppercase letters and digits.
    pub nonce: String,
}

/// The signature of a request: MD5 of the secret, the decimal timestamp,
/// the nonce and the encoded parameters, in that order.
pub open spec fn request_sign(timestamp: nat, nonce: Seq<char>, params: Seq<char>) -> Seq<char> {
    md5_hex_of(SECRET@ + decimal(timestamp) + nonce + params)
}

/// Wraps the JSON text of request parameters in a signed envelope.
pub fn envelope(params_json: &str) -> (env: RequestEnvelope)
    requires
        params_json.spec_bytes().len() <= usize::MAX / 2,
    ensures
        env.params@ == base64_standard(params_json.spec_bytes()),
        env.nonce@.len() == 16,
        forall|i: int| 0 <= i < 16 ==> is_upper_alnum_char(#[trigger] env.nonce@[i]),
        env.sign@ == request_sign(env.timestamp as nat, env.nonce@, env.params@),
        exists|t: Option<(u64, u32)>| is_reading(t) && env.timestamp as nat == millis_of(t),
{
    let params = base64_of(params_json);
    let nonce = random_alnum_upper(16);
    let timestamp = unix_millis();
    let ts = decimal_string(timestamp);
    let mut text = SECRET.to_string();
    text.append(ts.as_str());
    text.append(nonce.as_str());
    text.append(params.as_str());
    let sign = md5_hex(text.as_str());
    RequestEnvelope { params, sign, timestamp, nonce }
}

/// The `Authorization` header of a request, carrying the session token
/// once logged in.
pub fn authorization(token: Option<&str>) -> (header: String)
    ensures
        header@ == (match token {
            None => "Basic"@,
            Some(t) => "Basic "@ + t@,
        }),
{
    match token {
        None => "Basic".to_string(),
        Some(t) => join2("Basic ", t),
    }
}

// ── login ────────────────────────────────────────────

/// Credentials and endpoints returned by a successful login.
pub struct Session {
    pub user_id: String,
    pub key: String,
    pub token: String,
    pub mqtt_domain: String,
    /// Derived app identifier used in the MQTT client id and in the
    /// `from` field of device messages.
    pub app_id: String,
    /// The API base URL after any region redirect.
    pub api_base: String,
}

/// The fields of a login reply that the login logic reads.
pub struct LoginReply {
    /// `apiStatus`, when it is an integer.
    pub api_status: Option<i64>,
    /// `data.domain`: the base URL of the right region.
    pub domain: Option<String>,
    /// `data.userid`.
    pub user_id: Option<String>,
    /// `data.key`.
    pub key: Option<String>,
    /// `data.token`.
    pub token: Option<String>,
    /// `data.mqttDomain`.
    pub mqtt_domain: Option<String>,
}

/// What to do after a login reply.
pub enum LoginStep {
    /// Sign in again against the redirected base URL.
    Retry,
    /// Give up with this message.
    Failed(String),
    /// Logged in.
    Done(Session),
}

/// The API status of a reply, `-1` when absent.
pub open spec fn status_of(s: Option<i64>) -> i64 {
    match s {
        Some(v) => v,
        None => -1i64,
    }
}

/// The error for a missing string field.
pub open spec fn missing_field(key: Seq<char>) -> Seq<char> {
    "missing field `"@ + key + "`"@
}

/// The login of one account: signs in against a base URL and follows a
/// single wrong-region redirect (API status 1030).
pub struct LoginFlow {
    base: String,
    redirected: bool,
    password_md5: String,
}

/// The abstract state of a login: where to sign in, and whether the one
/// redirect was already followed.
pub struct LoginView {
    pub base: Seq<char>,
    pub redirected: bool,
}

impl View for LoginFlow {
    type V = LoginView;

    closed spec fn view(&self) -> LoginView {
        LoginView { base: self.base@, redirected: self.redirected }
    }
}

impl LoginFlow {
    pub closed spec fn spec_password_md5(&self) -> Seq<char> {
        self.password_md5@
    }

    /// A login that starts at `api_base`.
    pub fn new(api_base: &str, password: &str) -> (flow: Self)
        ensures
            flow@.base == api_base@,
            !flow@.redirected,
            flow.spec_password_md5() == md5_hex_of(password@),
    {
        LoginFlow {
            base: api_base.to_string(),
            redirected: false,
            password_md5: md5_hex(password),
        }
    }

    /// The MD5 hex of the password, as the sign-in parameters carry it.
    pub fn password_md5(&self) -> (p: &str)
        ensures
            p@ == self.spec_password_md5(),
    {
        self.password_md5.as_str()
    }

    /// The sign-in URL at the current base.
    pub fn url(&self) -> (u: String)
        ensures
            u@ == self@.base + "/v1/Auth/signIn"@,
    {
        join2(self.base.as_str(), "/v1/Auth/signIn")
    }

    /// Decides what a sign-in reply means. A wrong-region reply (status 1030)
    /// without a domain always fails; with a domain it is followed once, and a
    /// second one fails like any other non-zero status.
    pub fn step(&mut self, reply: LoginReply) -> (step: LoginStep)
        ensures
            final(self).spec_password_md5() == old(self).spec_password_md5(),
            ({
                let status = status_of(reply.api_status);
                if status == 1030 && reply.domain is None {
                    &&& step matches LoginStep::Failed(m) && m@
                        == "region redirect with no domain"@
                    &&& final(self)@ == old(self)@
                } else if status == 1030 && !old(self)@.redirected {
                    &&& step is Retry
                    &&& final(self)@ == (LoginView { base: reply.domain.unwrap()@, redirected: true })
                } else if status != 0 {
                    &&& step matches LoginStep::Failed(m) && m@ == "login failed (apiStatus "@
                        + signed_decimal(status as int) + ")"@
                    &&& final(self)@ == old(self)@
                } else {
                    &&& final(self)@ == old(self)@
                    &&& match (reply.user_id, reply.key, reply.token, reply.mqtt_domain) {
                        (Some(u), Some(k), Some(t), Some(q)) => step matches LoginStep::Done(s) && {
                            &&& s.user_id@ == u@
                            &&& s.key@ == k@
                            &&& s.token@ == t@
                            &&& s.mqtt_domain@ == q@
                            &&& s.api_base@ == old(self)@.base
                            &&& s.app_id@.len() == 32
                            &&& exists|r: Seq<char>|
                                {
                                    &&& r.len() == 32
                                    &&& forall|i: int| 0 <= i < 32 ==> is_hex_char(#[trigger] r[i])
                                    &&& s.app_id@ == md5_hex_of("API"@ + r)
                                }
                        },
                        (None, _, _, _) => step matches LoginStep::Failed(m) && m@
                            == missing_field("userid"@),
                        (Some(_), None, _, _) => step matches LoginStep::Failed(m) && m@
                            == missing_field("key"@),
                        (Some(_), Some(_), None, _) => step matches LoginStep::Failed(m) && m@
                            == missing_field("token"@),
                        (Some(_), Some(_), Some(_), None) => step matches LoginStep::Failed(m)
                            && m@ == missing_field("mqttDomain"@),
                    }
                }
            }),
    {
        let status = match reply.api_status {
            Some(v) => v,
            None => -1,
        };
        if status == 1030 {
            match reply.domain {
                None => {
                    return LoginStep::Failed("region redirect with no domain".to_string());
                },
                Some(d) => {
                    if !self.redirected {
                        self.base = d;
                        self.redirected = true;
                        return LoginStep::Retry;
                    }
                },
            }
        }
        if status != 0 {
            let code = signed_decimal_string(status);
            return LoginStep::Failed(join3("login failed (apiStatus ", code.as_str(), ")"));
        }
        let user_id = match reply.user_id {
            Some(u) => u,
            None => return LoginStep::Failed(join3("missing field `", "userid", "`")),
        };
        let key = match reply.key {
            Some(k) => k,
            None => return LoginStep::Failed(join3("missing field `", "key", "`")),
        };
        let token = match reply.token {
            Some(t) => t,
            None => return LoginStep::Failed(join3("missing field `", "token", "`")),
        };
        let mqtt_domain = match reply.mqtt_domain {
            Some(q) => q,
            None => return LoginStep::Failed(join3("missing field `", "mqttDomain", "`")),
        };
        let seed = random_hex(32);
        let app_id = md5_hex(join2("API", seed.as_str()).as_str());
        LoginStep::Done(
            Session {
                user_id,
                key,
                token,
                mqtt_domain,
                app_id,
                api_base: self.base.clone(),
            },
        )
    }
}

// ── device list ──────────────────────────────────────

/// One entry of the device list, as far as the lookup reads it.
pub struct DeviceEntry {
    /// `devName`, when it is a string.
    pub name: Option<String>,
    /// `uuid`, when it is a string.
    pub uuid: Option<String>,
}

/// The fields of a device-list reply that the lookup reads.
pub struct DeviceListReply {
    /// `apiStatus`, when it is an integer.
    pub api_status: Option<i64>,
    /// `data`, when it is an array.
    pub devices: Option<Vec<DeviceEntry>>,
}

/// The UUIDs, in list order, of the entries named `name` that carry one.
pub open spec fn uuids_named(devices: Seq<DeviceEntry>, name: Seq<char>) -> Seq<Seq<char>>
    decreases devices.len(),
{
    if devices.len() == 0 {
        Seq::empty()
    } else {
        let rest = uuids_named(devices.drop_last(), name);
        let e = devices.last();
        match (e.name, e.uuid) {
            (Some(n), Some(u)) => if n@ == name {
                rest.push(u@)
            } else {
                rest
            },
            _ => rest,
        }
    }
}

/// A device entry named exactly `name` that carries a UUID.
pub open spec fn named_exactly(name: Seq<char>) -> spec_fn(DeviceEntry) -> bool {
    |e: DeviceEntry| e.name is Some && e.name->0@ == name && e.uuid is Some
}

proof fn lemma_uuids_named_filter(devices: Seq<DeviceEntry>, name: Seq<char>)
    ensures
        uuids_named(devices, name) == devices.filter(named_exactly(name)).map_values(
            |e: DeviceEntry| e.uuid->0@,
        ),
    decreases devices.len(),
{
    reveal(Seq::filter);
    if devices.len() > 0 {
        lemma_uuids_named_filter(devices.drop_last(), name);
        let f = |e: DeviceEntry| e.uuid->0@;
        let sub = devices.drop_last().filter(named_exactly(name));
        if named_exactly(name)(devices.last()) {
            assert(sub.push(devices.last()).map_values(f) =~= sub.map_values(f).push(
                f(devices.last()),
            ));
        }
    }
}

/// The lookup by name is exact: the UUIDs found are, in list order, those
/// of the entries whose name equals `name` exactly and that carry a UUID;
/// so each one belongs to such an entry, and each such entry gives one.
pub proof fn law_uuids_named_exactly(devices: Seq<DeviceEntry>, name: Seq<char>)
    ensures
        uuids_named(devices, name).len() == devices.filter(named_exactly(name)).len(),
        forall|i: int|
            #![trigger uuids_named(devices, name)[i]]
            0 <= i < uuids_named(devices, name).len() ==> exists|j: int|
                0 <= j < devices.len() && (#[trigger] devices[j]).name is Some && devices[j].name->0@
                    =~= name && devices[j].uuid is Some && devices[j].uuid->0@ =~= uuids_named(
                    devices,
                    name,
                )[i],
        forall|j: int|
            0 <= j < devices.len() && (#[trigger] devices[j]).name is Some && devices[j].name->0@
                == name && devices[j].uuid is Some ==> uuids_named(devices, name).contains(
                devices[j].uuid->0@,
            ),
{
    lemma_uuids_named_filter(devices, name);
    let p = named_exactly(name);
    let kept = devices.filter(p);
    let found = uuids_named(devices, name);
    broadcast use vstd::seq_lib::group_filter_ensures;
    assert forall|i: int| #![trigger found[i]] 0 <= i < found.len() implies exists|j: int|
        0 <= j < devices.len() && (#[trigger] devices[j]).name is Some && devices[j].name->0@
            =~= name && devices[j].uuid is Some && devices[j].uuid->0@ =~= found[i] by {
        assert(p(kept[i]));
        assert(kept.contains(kept[i]));
        devices.lemma_filter_contains_rev(p, kept[i]);
        assert(devices.contains(kept[i]));
        let j = choose|j: int| 0 <= j < devices.len() && devices[j] == kept[i];
        assert(devices[j] == kept[i]);
        assert(found[i] == kept[i].uuid->0@);
    }
    assert forall|j: int|
        0 <= j < devices.len() && (#[trigger] devices[j]).name is Some && devices[j].name->0@
            == name && devices[j].uuid is Some implies found.contains(devices[j].uuid->0@) by {
        assert(p(devices[j]));
        assert(kept.contains(devices[j]));
        let i = choose|i: int| 0 <= i < kept.len() && kept[i] == devices[j];
        assert(found[i] == devices[j].uuid->0@);
    }
}

/// The UUIDs of every device whose name is exactly `device_name`.
pub fn matching_uuids(reply: &DeviceListReply, device_name: &str) -> (r: Result<Vec<String>, String>)
    ensures
        status_of(reply.api_status) != 0 ==> (r matches Err(m) && m@ == "devList failed"@),
        status_of(reply.api_status) == 0 && reply.devices is None ==> (r matches Err(m) && m@
            == "devList data is not an array"@),
        status_of(reply.api_status) == 0 && reply.devices is Some ==> (r matches Ok(u)
            && u@.map_values(|s: String| s@) == uuids_named(reply.devices->0@, device_name@)),
{
    let status = match reply.api_status {
        Some(v) => v,
        None => -1,
    };
    if status != 0 {
        return Err("devList failed".to_string());
    }
    let devices = match &reply.devices {
        Some(d) => d,
        None => return Err("devList data is not an array".to_string()),
    };
    let mut uuids: Vec<String> = Vec::new();
    let mut i: usize = 0;
    while i < devices.len()
        invariant
            i <= devices.len(),
            uuids@.map_values(|s: String| s@) == uuids_named(devices@.take(i as int), device_name@),
        decreases devices.len() - i,
    {
        let e = &devices[i];
        proof {
            let t = devices@.take(i as int + 1);
            assert(t.drop_last() =~= devices@.take(i as int));
            assert(t.last() == *e);
        }
        match (&e.name, &e.uuid) {
            (Some(n), Some(u)) => {
                if same_text(n.as_str(), device_name) {
                    let ghost before = uuids@;
                    uuids.push(u.clone());
                    proof {
                        assert(uuids@.map_values(|s: String| s@) =~= before.map_values(
                            |s: String| s@,
                        ).push(u@));
                    }
                }
            },
            _ => {},
        }
        i = i + 1;
    }
    proof {
        assert(devices@.take(devices@.len() as int) =~= devices@);
    }
    Ok(uuids)
}

/// What looking up a plug's devices came to.
pub enum DeviceLookup {
    /// The UUIDs of the devices of that name, at least one, in list order.
    Found(Vec<String>),
    /// The list holds no device of that name: there is nothing to drive.
    NoneMatched,
    /// The list could not be read; the message says why.
    Failed(String),
}

/// Looks up the devices a plug sink drives.
pub fn lookup_devices(reply: &DeviceListReply, device_name: &str) -> (r: DeviceLookup)
    ensures
        status_of(reply.api_status) != 0 ==> (r matches DeviceLookup::Failed(m) && m@
            == "devList failed"@),
        status_of(reply.api_status) == 0 && reply.devices is None ==> (r matches DeviceLookup::Failed(
            m,
        ) && m@ == "devList data is not an array"@),
        status_of(reply.api_status) == 0 && reply.devices is Some ==> ({
            let named = uuids_named(reply.devices->0@, device_name@);
            if named.len() == 0 {
                r is NoneMatched
            } else {
                r matches DeviceLookup::Found(u) && u@.map_values(|s: String| s@) == named
            }
        }),
{
    match matching_uuids(reply, device_name) {
        Ok(u) => {
            if u.len() == 0 {
                DeviceLookup::NoneMatched
            } else {
                DeviceLookup::Found(u)
            }
        },
        Err(m) => DeviceLookup::Failed(m),
    }
}

// ── device messages ──────────────────────────────────

/// One device message on its way: a topic per device, and how many
/// acknowledgements are still awaited.
pub struct Delivery {
    topics: Vec<String>,
    remaining: usize,
}

/// The abstract state of a delivery.
pub struct DeliveryView {
    pub topics: Seq<Seq<char>>,
    pub remaining: nat,
}

impl View for Delivery {
    type V = DeliveryView;

    closed spec fn view(&self) -> DeliveryView {
        DeliveryView { topics: self.topics@.map_values(|t: String| t@), remaining: self.remaining as nat }
    }
}

/// The topic of the device `uuid`.
pub open spec fn topic_of(uuid: Seq<char>) -> Seq<char> {
    "/appliance/"@ + uuid + "/subscribe"@
}

impl Delivery {
    /// The delivery of one message to every device of `uuids`; `None` when
    /// there are none, as then nothing is published and nothing awaited.
    pub fn new(uuids: &Vec<String>) -> (d: Option<Delivery>)
        ensures
            d is None <==> uuids@.len() == 0,
            d matches Some(x) ==> {
                &&& x@.topics.len() == uuids@.len()
                &&& forall|i: int| 0 <= i < uuids@.len() ==> #[trigger] x@.topics[i] == topic_of(uuids@[i]@)
                &&& x@.remaining == uuids@.len()
            },
    {
        if uuids.len() == 0 {
            return None;
        }
        let mut topics: Vec<String> = Vec::new();
        let mut i: usize = 0;
        while i < uuids.len()
            invariant
                i <= uuids@.len(),
                topics@.len() == i,
                forall|k: int| 0 <= k < i ==> #[trigger] topics@[k]@ == topic_of(uuids@[k]@),
            decreases uuids@.len() - i,
        {
            topics.push(device_topic(uuids[i].as_str()));
            i = i + 1;
        }
        Some(Delivery { topics, remaining: uuids.len() })
    }

    /// The topics to publish to, one per device, in order.
    pub fn topics(&self) -> (t: &Vec<String>)
        ensures
            t@.map_values(|x: String| x@) == self@.topics,
    {
        &self.topics
    }

    /// Whether every acknowledgement has arrived.
    pub fn done(&self) -> (b: bool)
        ensures
            b == (self@.remaining == 0),
    {
        self.remaining == 0
    }

    /// Counts one event of the connection: an acknowledgement of a
    /// publication settles one device; any other event changes nothing.
    /// Says whether every acknowledgement has now arrived.
    pub fn on_event(&mut self, is_ack: bool) -> (done: bool)
        ensures
            final(self)@.topics == old(self)@.topics,
            final(self)@.remaining == (if is_ack && old(self)@.remaining > 0 {
                (old(self)@.remaining - 1) as nat
            } else {
                old(self)@.remaining
            }),
            done == (final(self)@.remaining == 0),
    {
        if is_ack && self.remaining > 0 {
            self.remaining = self.remaining - 1;
        }
        self.remaining == 0
    }
}

/// The header of a signed device message.
pub struct MessageHeader {
    /// `/app/{user_id}-{app_id}/subscribe`.
    pub from: String,
    /// Thirty-two random lowercase hex digits.
    pub message_id: String,
    pub method: String,
    pub namespace: String,
    pub payload_version: u8,
    /// Lowercase MD5 hex of message id, session key and timestamp.
    pub sign: String,
    /// Seconds since the Unix epoch.
    pub timestamp: u64,
    pub trigger_src: String,
}

/// The relay command of a smart plug.
#[derive(Debug, Clone, Copy, PartialEq, Eq, Structural)]
pub struct Toggle {
    /// Relay channel; 0 is the main outlet.
    pub channel: u8,
    /// Switch on (`onoff` 1) or off (`onoff` 0).
    pub on: bool,
}

impl Toggle {
    /// The `onoff` value of the command.
    pub fn onoff(&self) -> (v: u8)
        ensures
            v == (if self.on {
                1u8
            } else {
                0u8
            }),
    {
        if self.on {
            1
        } else {
            0
        }
    }
}

/// The MQTT topic a device listens on.
pub fn device_topic(uuid: &str) -> (topic: String)
    ensures
        topic@ == "/appliance/"@ + uuid@ + "/subscribe"@,
{
    join3("/appliance/", uuid, "/subscribe")
}

impl Session {
    /// The device-list URL of this session.
    pub fn device_list_url(&self) -> (u: String)
        ensures
            u@ == self.api_base@ + "/v1/Device/devList"@,
    {
        join2(self.api_base.as_str(), "/v1/Device/devList")
    }

    /// The MQTT password: MD5 hex of user id and key.
    pub fn mqtt_password(&self) -> (p: String)
        ensures
            p@ == md5_hex_of(self.user_id@ + self.key@),
    {
        md5_hex(join2(self.user_id.as_str(), self.key.as_str()).as_str())
    }

    /// The MQTT client id: `app:` and the app id.
    pub fn client_id(&self) -> (c: String)
        ensures
            c@ == "app:"@ + self.app_id@,
    {
        join2("app:", self.app_id.as_str())
    }

    /// A signed header for a device message with a fresh message id and
    /// the current time.
    pub fn message_header(&self, namespace: &str, method: &str) -> (h: MessageHeader)
        ensures
            h.from@ == "/app/"@ + self.user_id@ + "-"@ + self.app_id@ + "/subscribe"@,
            h.message_id@.len() == 32,
            forall|i: int| 0 <= i < 32 ==> is_hex_char(#[trigger] h.message_id@[i]),
            h.method@ == method@,
            h.namespace@ == namespace@,
            h.payload_version == 1,
            h.sign@ == md5_hex_of(h.message_id@ + self.key@ + decimal(h.timestamp as nat)),
            h.trigger_src@ == "andon"@,
    {
        let message_id = random_hex(32);
        let timestamp = unix_secs();
        let ts = decimal_string(timestamp as u128);
        let sign = md5_hex(join3(message_id.as_str(), self.key.as_str(), ts.as_str()).as_str());
        let mut from = join3("/app/", self.user_id.as_str(), "-");
        from.append(self.app_id.as_str());
        from.append("/subscribe");
        MessageHeader {
            from,
            message_id,
            method: method.to_string(),
            namespace: namespace.to_string(),
            payload_version: 1,
            sign,
            timestamp,
            trigger_src: "andon".to_string(),
        }
    }
}

} // verus!
