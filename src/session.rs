//! The parts of the MQTT client that the library calls: its option set, its
//! publishing handle and the error a publish can end in.
use crate::publisher::PublishRequest;
use rumqttc::{Client, ClientError, MqttOptions, QoS};
use std::time::Duration;
use vstd::prelude::*;

verus! {

#[verifier::external_type_specification]
#[verifier::external_body]
pub struct ExMqttOptions(MqttOptions);

#[verifier::external_type_specification]
#[verifier::external_body]
pub struct ExClient(Client);

#[verifier::external_type_specification]
#[verifier::external_body]
pub struct ExClientError(ClientError);

/// The delivery guarantee asked of the broker for a published message.
#[derive(Clone, Copy, Debug, PartialEq, Eq, Structural)]
pub enum Delivery {
    AtMostOnce,
    AtLeastOnce,
    ExactlyOnce,
}

/// Relies on rumqttc::MqttOptions::new, which only stores the identity, the
/// host and the port beside its defaults.
#[verifier::external_body]
pub(crate) fn options_new(identity: &String, host: &String, port: u16) -> MqttOptions {
    MqttOptions::new(identity.as_str(), host.as_str(), port)
}

/// Relies on rumqttc::MqttOptions::set_keep_alive, which panics only on a
/// duration under one second other than zero; a whole number of seconds is
/// never one.
#[verifier::external_body]
pub(crate) fn set_keep_alive_secs(options: &mut MqttOptions, secs: u64) {
    options.set_keep_alive(Duration::from_secs(secs));
}

/// Relies on rumqttc::MqttOptions::set_inflight, which panics on zero.
#[verifier::external_body]
pub(crate) fn set_inflight(options: &mut MqttOptions, inflight: u16)
    requires
        inflight != 0,
{
    options.set_inflight(inflight);
}

/// Relies on rumqttc::Client::publish, which hands one publish request to the
/// event loop. Whether that succeeds depends on the event loop, so nothing is
/// stated of the result.
#[verifier::external_body]
pub(crate) fn publish(client: &Client, request: PublishRequest) -> Result<(), ClientError> {
    let qos = match request.delivery {
        Delivery::AtMostOnce => QoS::AtMostOnce,
        Delivery::AtLeastOnce => QoS::AtLeastOnce,
        Delivery::ExactlyOnce => QoS::ExactlyOnce,
    };
    client.publish(request.topic, qos, request.retain, request.payload)
}

} // verus!
