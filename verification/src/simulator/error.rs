use vstd::prelude::*;

verus! {

/// What can go wrong while the simulator runs. Errors raised by the
/// transport and serialisation layers are carried as their messages.
#[derive(Clone, Debug)]
pub enum SimulatorError {
    ConfigError(String),
    MqttError(String),
    HttpError(String),
    WebSocketError(String),
    SimulationError(String),
    TruckNotFound(String),
    ScenarioNotFound(String),
    IoError(String),
    SerializeError(String),
    Closed,
}

/// The human-readable text of an error.
pub open spec fn error_text(e: SimulatorError) -> Seq<char> {
    match e {
        SimulatorError::ConfigError(m) => "Configuration error: "@ + m@,
        SimulatorError::MqttError(m) => "MQTT error: "@ + m@,
        SimulatorError::HttpError(m) => "HTTP error: "@ + m@,
        SimulatorError::WebSocketError(m) => "WebSocket error: "@ + m@,
        SimulatorError::SimulationError(m) => "Simulation error: "@ + m@,
        SimulatorError::TruckNotFound(m) => "Truck not found: "@ + m@,
        SimulatorError::ScenarioNotFound(m) => "Scenario not found: "@ + m@,
        SimulatorError::IoError(m) => "IO error: "@ + m@,
        SimulatorError::SerializeError(m) => "Serialization error: "@ + m@,
        SimulatorError::Closed => "Simulator closed"@,
    }
}

impl SimulatorError {
    /// The text the error displays as.
    pub fn message(&self) -> (s: String)
        ensures
            s@ == error_text(*self),
    {
        let (prefix, detail): (&str, &str) = match self {
            SimulatorError::ConfigError(m) => ("Configuration error: ", m.as_str()),
            SimulatorError::MqttError(m) => ("MQTT error: ", m.as_str()),
            SimulatorError::HttpError(m) => ("HTTP error: ", m.as_str()),
            SimulatorError::WebSocketError(m) => ("WebSocket error: ", m.as_str()),
            SimulatorError::SimulationError(m) => ("Simulation error: ", m.as_str()),
            SimulatorError::TruckNotFound(m) => ("Truck not found: ", m.as_str()),
            SimulatorError::ScenarioNotFound(m) => ("Scenario not found: ", m.as_str()),
            SimulatorError::IoError(m) => ("IO error: ", m.as_str()),
            SimulatorError::SerializeError(m) => ("Serialization error: ", m.as_str()),
            SimulatorError::Closed => ("Simulator closed", ""),
        };
        let mut s = String::from_str(prefix);
        s.append(detail);
        proof {
            reveal_strlit("");
        }
        s
    }
}

} // verus!
