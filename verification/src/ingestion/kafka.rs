use vstd::prelude::*;

verus! {

/// Consumes the trucks' Kafka topic.
#[derive(Clone, Debug)]
pub struct KafkaIngestionHandler {
    pub brokers: Vec<String>,
    pub topic: String,
}

pub open spec fn texts(v: Seq<String>) -> Seq<Seq<char>> {
    v.map_values(|s: String| s@)
}

/// Pieces joined with a separator between neighbours.
pub open spec fn joined(parts: Seq<Seq<char>>, sep: Seq<char>) -> Seq<char>
    decreases parts.len(),
{
    if parts.len() == 0 {
        seq![]
    } else if parts.len() == 1 {
        parts[0]
    } else {
        joined(parts.drop_last(), sep) + sep + parts.last()
    }
}

impl KafkaIngestionHandler {
    pub fn new(brokers: &[String], topic: &str) -> (h: Self)
        ensures
            texts(h.brokers@) == texts(brokers@),
            h.topic@ == topic@,
    {
        let mut copied: Vec<String> = Vec::new();
        let mut i: usize = 0;
        while i < brokers.len()
            invariant
                i <= brokers@.len(),
                texts(copied@) == texts(brokers@.take(i as int)),
            decreases brokers@.len() - i,
        {
            let ghost prev = copied@;
            let b = brokers[i].clone();
            copied.push(b);
            assert(copied@ =~= prev.push(b));
            assert(brokers@.take(i + 1) =~= brokers@.take(i as int).push(brokers@[i as int]));
            assert(texts(prev.push(b)) =~= texts(prev).push(b@));
            assert(texts(brokers@.take(i as int).push(brokers@[i as int])) =~= texts(
                brokers@.take(i as int),
            ).push(brokers@[i as int]@));
            i = i + 1;
        }
        assert(brokers@.take(i as int) =~= brokers@);
        KafkaIngestionHandler { brokers: copied, topic: String::from_str(topic) }
    }

    /// Topic consumed.
    pub fn topic(&self) -> (t: &str)
        ensures
            t@ == self.topic@,
    {
        self.topic.as_str()
    }

    /// The `bootstrap.servers` setting: the brokers separated by commas.
    pub fn bootstrap_servers(&self) -> (s: String)
        ensures
            s@ == joined(texts(self.brokers@), ","@),
    {
        let mut s = String::new();
        let mut i: usize = 0;
        while i < self.brokers.len()
            invariant
                i <= self.brokers@.len(),
                s@ == joined(texts(self.brokers@.take(i as int)), ","@),
            decreases self.brokers@.len() - i,
        {
            let ghost before = texts(self.brokers@.take(i as int));
            assert(texts(self.brokers@.take(i + 1)).drop_last() =~= before);
            assert(texts(self.brokers@.take(i + 1)).last() == self.brokers@[i as int]@);
            if i > 0 {
                s.append(",");
            } else {
                assert(before =~= seq![]);
            }
            s.append(self.brokers[i].as_str());
            assert(s@ =~= joined(texts(self.brokers@.take(i + 1)), ","@));
            i = i + 1;
        }
        assert(self.brokers@.take(i as int) =~= self.brokers@);
        s
    }

    /// Consumer settings, as key and value: group, brokers, manual commits,
    /// session timeout and where a new group starts reading.
    pub fn consumer_settings(&self) -> (settings: Vec<(&'static str, String)>)
        ensures
            settings@.len() == 5,
            settings@[0].0@ == "group.id"@ && settings@[0].1@ == "truck-central-server"@,
            settings@[1].0@ == "bootstrap.servers"@ && settings@[1].1@ == joined(
                texts(self.brokers@),
                ","@,
            ),
            settings@[2].0@ == "enable.auto.commit"@ && settings@[2].1@ == "false"@,
            settings@[3].0@ == "session.timeout.ms"@ && settings@[3].1@ == "6000"@,
            settings@[4].0@ == "auto.offset.reset"@ && settings@[4].1@ == "earliest"@,
    {
        let mut settings: Vec<(&'static str, String)> = Vec::new();
        settings.push(("group.id", String::from_str("truck-central-server")));
        settings.push(("bootstrap.servers", self.bootstrap_servers()));
        settings.push(("enable.auto.commit", String::from_str("false")));
        settings.push(("session.timeout.ms", String::from_str("6000")));
        settings.push(("auto.offset.reset", String::from_str("earliest")));
        settings
    }
}

} // verus!
