//! Basilisk client library: gateway registration payloads, the service-bus
//! wire frames, and the decisions a bus connection makes about them.

pub mod basilisk_client;
pub mod bus_client;
pub mod bus_session;
pub mod connect_retry;
pub mod error;
pub mod gateway_api;
pub mod metrics;
pub mod payload;
pub mod protocol;
pub mod text;
pub mod text_map;

pub use basilisk_client::BasiliskClientConfig;
pub use bus_client::{ForwardRequest, RequestResponder, ServiceBusRequest};
pub use bus_session::BusSession;
pub use error::{ClientError, ClientResult};
pub use gateway_api::{
    AuthInfo, GatewayApiClient, InstanceInfo, RegistrationRequest, RegistrationResponse,
};
pub use payload::{Payload, PayloadValue, PayloadValueView};
pub use protocol::{
    protocol_types, ServiceBusEventEnvelope, ServiceBusForwardRequest, ServiceBusForwardResponse,
    ServiceBusProtocolMessage, UtcTimestamp,
};
pub use text_map::{TextMap, TextMapEntry};
