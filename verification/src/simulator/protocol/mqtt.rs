use vstd::prelude::*;
use crate::ingestion::{mqtt_routing, EventKind, Routing};
use crate::util::text::{lemma_split_append_plain, lemma_split_append_sep, split_on};

verus! {

/// The topic a truck's state is published on: `truck/<truck>/telemetry`.
pub open spec fn telemetry_topic(truck_id: Seq<char>) -> Seq<char> {
    "truck/"@ + truck_id + "/telemetry"@
}

/// Publishes truck states over MQTT.
#[derive(Clone, Debug)]
pub struct MqttHandler {
    pub port: u16,
}

impl MqttHandler {
    pub fn new(port: u16) -> (h: Self)
        ensures
            h.port == port,
    {
        MqttHandler { port }
    }

    /// The topic a truck's state is published on.
    pub fn topic_for(truck_id: &str) -> (t: String)
        ensures
            t@ == telemetry_topic(truck_id@),
    {
        let mut t = String::from_str("truck/");
        t.append(truck_id);
        t.append("/telemetry");
        t
    }

    /// The client name the simulator publishes a truck's state under:
    /// `simulator-<truck>`.
    pub fn client_id_for(truck_id: &str) -> (c: String)
        ensures
            c@ == "simulator-"@ + truck_id@,
    {
        let mut c = String::from_str("simulator-");
        c.append(truck_id);
        c
    }
}

/// A state the simulator publishes reaches the server's telemetry
/// pipeline: the server routes the topic of any truck whose identifier
/// holds no `/` to telemetry.
pub proof fn lemma_published_topic_is_telemetry(truck_id: Seq<char>)
    requires
        !truck_id.contains('/'),
    ensures
        mqtt_routing(telemetry_topic(truck_id)) == Routing::Dispatch(EventKind::Telemetry),
{
    reveal_strlit("truck/");
    reveal_strlit("/telemetry");
    reveal_strlit("telemetry");
    let truck = seq!['t', 'r', 'u', 'c', 'k'];
    let word = seq!['t', 'e', 'l', 'e', 'm', 'e', 't', 'r', 'y'];
    assert("truck/"@ =~= truck.push('/'));
    assert("/telemetry"@ =~= seq!['/'] + word);
    assert("telemetry"@ =~= word);
    assert(!truck.contains('/')) by {
        if truck.contains('/') {
            let k = choose|k: int| 0 <= k < truck.len() && truck[k] == '/';
        }
    }
    assert(!word.contains('/')) by {
        if word.contains('/') {
            let k = choose|k: int| 0 <= k < word.len() && word[k] == '/';
        }
    }
    let empty: Seq<char> = seq![];
    lemma_split_append_plain(empty, truck, '/');
    assert(empty + truck =~= truck);
    assert(split_on(empty, '/') =~= seq![empty]);
    assert(split_on(truck, '/') =~= seq![truck]);
    lemma_split_append_sep(truck, '/');
    let a = truck.push('/');
    assert(split_on(a, '/') =~= seq![truck, empty]);
    lemma_split_append_plain(a, truck_id, '/');
    let b = a + truck_id;
    assert(split_on(b, '/') =~= seq![truck, truck_id]);
    lemma_split_append_sep(b, '/');
    let c = b.push('/');
    assert(split_on(c, '/') =~= seq![truck, truck_id, empty]);
    lemma_split_append_plain(c, word, '/');
    assert(split_on(c + word, '/') =~= seq![truck, truck_id, word]);
    assert(telemetry_topic(truck_id) =~= c + word);
}

} // verus!
