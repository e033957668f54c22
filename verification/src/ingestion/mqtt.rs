use vstd::prelude::*;
use crate::util::ids::uuid_text;
use crate::util::text::uuid_hyphenated;

verus! {

/// Subscribes to the trucks' MQTT topics.
#[derive(Clone, Debug)]
pub struct MqttIngestionHandler {
    pub broker: String,
    pub username: Option<String>,
    pub password: Option<String>,
}

impl MqttIngestionHandler {
    pub fn new(broker: &str, username: Option<String>, password: Option<String>) -> (h: Self)
        ensures
            h.broker@ == broker@,
            h.username == username,
            h.password == password,
    {
        MqttIngestionHandler { broker: String::from_str(broker), username, password }
    }

    /// URL of the broker.
    pub fn broker(&self) -> (b: &str)
        ensures
            b@ == self.broker@,
    {
        self.broker.as_str()
    }

    /// Identifier the server connects under: `truck-central-server-<uuid>`.
    pub fn client_id(instance: u128) -> (id: String)
        ensures
            id@ == "truck-central-server-"@ + uuid_hyphenated(instance),
    {
        let mut id = String::from_str("truck-central-server-");
        let u = uuid_text(instance);
        id.append(u.as_str());
        id
    }

    /// Login to present: the user name, with an empty password when none
    /// is configured; no login when no user name is configured.
    pub fn credentials(&self) -> (c: Option<(String, String)>)
        ensures
            match self.username {
                Some(u) => c matches Some(p) && p.0@ == u@ && p.1@ == (match self.password {
                    Some(pw) => pw@,
                    None => Seq::<char>::empty(),
                }),
                None => c is None,
            },
    {
        match &self.username {
            Some(u) => {
                let pw = match &self.password {
                    Some(p) => p.clone(),
                    None => String::new(),
                };
                Some((u.clone(), pw))
            },
            None => None,
        }
    }

    /// Topic filters the server subscribes to, one per event kind.
    pub fn subscriptions() -> (topics: Vec<&'static str>)
        ensures
            topics@.map_values(|t: &str| t@) == seq![
                "truck/+/telemetry"@,
                "truck/+/alert"@,
                "truck/+/ml"@,
                "truck/+/health"@,
            ],
    {
        let mut topics: Vec<&'static str> = Vec::new();
        topics.push("truck/+/telemetry");
        topics.push("truck/+/alert");
        topics.push("truck/+/ml");
        topics.push("truck/+/health");
        assert(topics@.map_values(|t: &str| t@) =~= seq![
            "truck/+/telemetry"@,
            "truck/+/alert"@,
            "truck/+/ml"@,
            "truck/+/health"@,
        ]);
        topics
    }
}

} // verus!
