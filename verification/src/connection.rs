//! One streaming connection, as a state machine that is turned from
//! outside.
//!
//! Whoever runs a connection says that it has been opened, then waits for a
//! sample of a subscribed vehicle or for a frame from the client, says what
//! happened, and carries out what comes back: the frame to send, the
//! subscription to ask a simulator for, or the end of the connection.

use crate::number::int_text;
use crate::streaming::{
    deserialize_field_names, encode_line, fields_of_names, serialize_fields, DataError, ErrorType,
    FromServerStreamingMessage, StreamingData, StreamingFields, ToServerStreamingMessage,
};
use crate::text::split;
use crate::tokens::{
    access_held, validate_access_token, AccessClaims, Config, ScopeEnum, TokenValidationError,
};
use crate::types::{parse_id, VehicleGuid};
use crate::vehicles::{find_by_guid, position_of_guid, Vehicle};
use std::collections::HashMap;
use vstd::prelude::*;

verus! {

/// Why a connection ends, or what the client has to be told.
#[derive(Debug, PartialEq, Eq)]
pub enum SocketError {
    /// The client is told, and the connection goes on.
    ReportableError(DataError),
    /// The connection ends without a word; the text is for the log.
    NotReportableError(String),
}

/// What can happen to a connection.
#[derive(Debug, PartialEq, Eq)]
pub enum SocketEvent {
    /// The connection has been opened.
    Opened,
    /// A subscribed vehicle has published a sample.
    Sample { vehicle_id: VehicleGuid, data: StreamingData },
    /// The samples of a subscribed vehicle have come to an end.
    StreamEnded { vehicle_id: VehicleGuid },
    /// The client has sent a message; `None` for a text that is none of the
    /// messages a client may send.
    Message(Option<ToServerStreamingMessage>),
    /// The client has sent bytes that are no text.
    Undecodable,
    Ping,
    Pong,
    /// The client has closed the connection.
    Close,
    /// Receiving from the client has failed.
    ReceiveFailed,
    /// The connection is gone.
    End,
    /// The simulator has granted the subscription that was asked for.
    Subscribed { vehicle_id: VehicleGuid, fields: Vec<StreamingFields> },
    /// The simulator has turned the subscription down.
    SubscribeFailed(DataError),
    /// A frame could not be sent.
    SendFailed,
}

/// A subscription to ask a simulator for.
#[derive(Debug, PartialEq, Eq)]
pub struct SubscribeRequest {
    /// The position of the vehicle in the fleet.
    pub index: usize,
    pub vehicle_id: VehicleGuid,
    pub fields: Vec<StreamingFields>,
}

/// What a client asks for with a message.
#[derive(Debug, PartialEq, Eq)]
pub enum ClientRequest {
    Subscribe(SubscribeRequest),
    Unsubscribe(VehicleGuid),
}

/// What a turn asks of whoever runs the connection.
#[derive(Debug, PartialEq, Eq)]
pub struct Turn {
    /// A frame to send to the client.
    pub send: Option<FromServerStreamingMessage>,
    /// A subscription to ask a simulator for.
    pub subscribe: Option<SubscribeRequest>,
    /// Whether the connection ends, and if so how.
    pub done: Option<Result<(), SocketError>>,
}

/// A streaming connection: the subscriptions of its client.
#[derive(Debug, PartialEq, Eq)]
pub struct Connection {
    /// The fields asked for of each vehicle, under the number of its
    /// streaming identifier.
    pub subscriptions: HashMap<u64, Vec<StreamingFields>>,
}

/// The subscriptions as a map from the vehicle to the fields asked for.
pub open spec fn map_of(subscriptions: Map<u64, Vec<StreamingFields>>) -> Map<
    VehicleGuid,
    Seq<StreamingFields>,
> {
    Map::new(
        |guid: VehicleGuid| subscriptions.contains_key(guid.0),
        |guid: VehicleGuid| subscriptions[guid.0]@,
    )
}

impl View for Connection {
    type V = Map<VehicleGuid, Seq<StreamingFields>>;

    open spec fn view(&self) -> Map<VehicleGuid, Seq<StreamingFields>> {
        map_of(self.subscriptions@)
    }
}

/// The error frame that tells the client what it did wrong with `tag`.
pub open spec fn is_client_error(e: DataError, tag: Seq<char>, value: Seq<char>) -> bool {
    e.tag@ == tag && e.error_type == ErrorType::ClientError && e.value@ == value
}

/// What a message asks for, given what the check of its token has brought:
/// the claims of an access token, or nothing.
///
/// A subscription needs a token that carries the scope for vehicle data and
/// names a vehicle of the fleet by its streaming identifier; the names of
/// the fields are read leniently. To end a subscription it takes no more
/// than the identifier.
pub open spec fn request_of(
    message: ToServerStreamingMessage,
    claims: Option<AccessClaims>,
    vehicles: Seq<Vehicle>,
) -> Result<(Option<int>, VehicleGuid, Seq<StreamingFields>), (Seq<char>, Seq<char>)> {
    match message {
        ToServerStreamingMessage::DataSubscribeOauth { token, value, tag } => match claims {
            None => Err((tag@, "Invalid token"@)),
            Some(c) => if !c.scopes.has(ScopeEnum::VehicleDeviceData) {
                Err((tag@, "Invalid scope"@))
            } else {
                match parse_id(tag@) {
                    None => Err((tag@, "Invalid vehicle id"@)),
                    Some(guid) => match position_of_guid(vehicles, VehicleGuid(guid)) {
                        None => Err((tag@, "Invalid vehicle id"@)),
                        Some(i) => Ok(
                            (Some(i), VehicleGuid(guid), fields_of_names(split(value@, ','))),
                        ),
                    },
                }
            },
        },
        ToServerStreamingMessage::DataUnsubscribe { tag } => match parse_id(tag@) {
            None => Err((tag@, "Invalid vehicle id"@)),
            Some(guid) => Ok((None, VehicleGuid(guid), Seq::empty())),
        },
    }
}

/// Whether `r` is the decision on a message, given what the check of its
/// token has brought: the request that `request_of` finds in it, for a
/// vehicle of the fleet, or the failure to report to the client under the
/// tag of the message.
pub open spec fn is_decision(
    r: Result<ClientRequest, SocketError>,
    message: ToServerStreamingMessage,
    claims: Option<AccessClaims>,
    vehicles: Seq<Vehicle>,
) -> bool {
    match request_of(message, claims, vehicles) {
        Ok((Some(i), guid, fields)) => r matches Ok(ClientRequest::Subscribe(request))
            && request.index == i && request.vehicle_id == guid && request.fields@ == fields && 0
            <= i < vehicles.len() && vehicles[i].vehicle_id == guid,
        Ok((None, guid, _)) => r matches Ok(ClientRequest::Unsubscribe(g)) && g == guid,
        Err((tag, value)) => r matches Err(SocketError::ReportableError(e)) && is_client_error(
            e,
            tag,
            value,
        ),
    }
}

/// Decides what a message asks for once its token has been checked.
pub fn decide_request(
    message: &ToServerStreamingMessage,
    claims: Option<AccessClaims>,
    vehicles: &Vec<Vehicle>,
) -> (r: Result<ClientRequest, SocketError>)
    ensures
        is_decision(r, *message, claims, vehicles@),
{
    match message {
        ToServerStreamingMessage::DataSubscribeOauth { token, value, tag } => {
            let claims: AccessClaims = match claims {
                Some(c) => c,
                None => {
                    return Err(
                        SocketError::ReportableError(
                            DataError::new(tag.as_str(), ErrorType::ClientError, "Invalid token"),
                        ),
                    );
                },
            };
            if !claims.scopes.contains(ScopeEnum::VehicleDeviceData) {
                return Err(
                    SocketError::ReportableError(
                        DataError::new(tag.as_str(), ErrorType::ClientError, "Invalid scope"),
                    ),
                );
            }
            let vehicle_id: VehicleGuid = match VehicleGuid::from_str(tag.as_str()) {
                Ok(guid) => guid,
                Err(_) => {
                    return Err(
                        SocketError::ReportableError(
                            DataError::new(
                                tag.as_str(),
                                ErrorType::ClientError,
                                "Invalid vehicle id",
                            ),
                        ),
                    );
                },
            };
            let index: usize = match find_by_guid(vehicles, vehicle_id) {
                Some(i) => i,
                None => {
                    return Err(
                        SocketError::ReportableError(
                            DataError::new(
                                tag.as_str(),
                                ErrorType::ClientError,
                                "Invalid vehicle id",
                            ),
                        ),
                    );
                },
            };
            let fields: Vec<StreamingFields> = deserialize_field_names(value.as_str());
            Ok(ClientRequest::Subscribe(SubscribeRequest { index, vehicle_id, fields }))
        },
        ToServerStreamingMessage::DataUnsubscribe { tag } => {
            match VehicleGuid::from_str(tag.as_str()) {
                Ok(guid) => Ok(ClientRequest::Unsubscribe(guid)),
                Err(_) => Err(
                    SocketError::ReportableError(
                        DataError::new(tag.as_str(), ErrorType::ClientError, "Invalid vehicle id"),
                    ),
                ),
            }
        },
    }
}

/// The claims that a check has let through, if it has let any through.
pub open spec fn passed(validated: Result<AccessClaims, TokenValidationError>) -> Option<
    AccessClaims,
> {
    match validated {
        Ok(claims) => Some(claims),
        Err(_) => None,
    }
}

/// Decides what a message asks for, given what the check of its token has
/// brought: a token that did not pass, whatever was wrong with it, counts
/// for no claims at all.
pub fn decide_validated(
    message: &ToServerStreamingMessage,
    validated: Result<AccessClaims, TokenValidationError>,
    vehicles: &Vec<Vehicle>,
) -> (r: Result<ClientRequest, SocketError>)
    ensures
        is_decision(r, *message, passed(validated), vehicles@),
{
    match validated {
        Ok(claims) => decide_request(message, Some(claims), vehicles),
        Err(_) => decide_request(message, None, vehicles),
    }
}

/// The claims of an access token that the token of a message carries under
/// `secret`, if the message has a token and the token carries such claims.
pub open spec fn held_by(message: ToServerStreamingMessage, secret: Seq<char>) -> Option<
    AccessClaims,
> {
    match message {
        ToServerStreamingMessage::DataSubscribeOauth { token, .. } => access_held(secret, token@),
        ToServerStreamingMessage::DataUnsubscribe { .. } => None,
    }
}

/// Decides what a message of the client asks for.
///
/// The token of a subscription is checked first; whether a token that
/// carries the claims of an access token passes is for the signing library
/// and the clock to say. The decision is that of `decide_request`, for the
/// claims that the token carries or for none; a message without a token, or
/// with a token that carries no such claims, is decided for none.
pub fn process_client_message(
    message: &ToServerStreamingMessage,
    config: &Config,
    vehicles: &Vec<Vehicle>,
) -> (r: Result<ClientRequest, SocketError>)
    ensures
        is_decision(r, *message, None, vehicles@) || (held_by(*message, config.secret@) is Some
            && is_decision(r, *message, held_by(*message, config.secret@), vehicles@)),
        r matches Err(e) ==> e is ReportableError,
{
    match message {
        ToServerStreamingMessage::DataSubscribeOauth { token, .. } => {
            let validated: Result<AccessClaims, TokenValidationError> = validate_access_token(
                token.as_str(),
                config,
            );
            decide_validated(message, validated, vehicles)
        },
        ToServerStreamingMessage::DataUnsubscribe { .. } => decide_request(message, None, vehicles),
    }
}

impl Turn {
    fn nothing() -> (r: Self)
        ensures
            r.send is None,
            r.subscribe is None,
            r.done is None,
    {
        Turn { send: None, subscribe: None, done: None }
    }

    fn send(message: FromServerStreamingMessage) -> (r: Self)
        ensures
            r.send == Some(message),
            r.subscribe is None,
            r.done is None,
    {
        Turn { send: Some(message), subscribe: None, done: None }
    }

    fn fail(text: &str) -> (r: Self)
        ensures
            r.send is None,
            r.subscribe is None,
            r.done matches Some(Err(SocketError::NotReportableError(s))) && s@ == text@,
    {
        Turn {
            send: None,
            subscribe: None,
            done: Some(Err(SocketError::NotReportableError(text.to_owned()))),
        }
    }
}

/// Whether `turn` and the subscriptions `after` are what a message makes of
/// the subscriptions `before`, given what `request_of` finds in it: a
/// subscription is asked of the simulator, for the vehicle and the fields
/// that the message names; the end of one takes effect at once; and a
/// failure is reported under the tag of the message, while the connection
/// goes on.
pub open spec fn is_reaction(
    before: Map<VehicleGuid, Seq<StreamingFields>>,
    after: Map<VehicleGuid, Seq<StreamingFields>>,
    turn: Turn,
    asked: Result<(Option<int>, VehicleGuid, Seq<StreamingFields>), (Seq<char>, Seq<char>)>,
    vehicles: Seq<Vehicle>,
) -> bool {
    &&& turn.done is None
    &&& match asked {
        Ok((Some(i), guid, fields)) => {
            &&& after == before
            &&& turn.send is None
            &&& turn.subscribe matches Some(request) && request.index == i && request.vehicle_id
                == guid && request.fields@ == fields
            &&& 0 <= i < vehicles.len() && vehicles[i].vehicle_id == guid
        },
        Ok((None, guid, _)) => {
            &&& after == before.remove(guid)
            &&& turn.send is None
            &&& turn.subscribe is None
        },
        Err((tag, value)) => {
            &&& after == before
            &&& turn.send matches Some(FromServerStreamingMessage::DataError(e))
                && is_client_error(e, tag, value)
            &&& turn.subscribe is None
        },
    }
}

/// Whether `turn` and the subscriptions `after` are what an event makes of
/// the subscriptions `before`, where tokens are checked under `secret`. A
/// message is reacted to for the claims that its token carries or for none.
pub open spec fn is_turn(
    before: Map<VehicleGuid, Seq<StreamingFields>>,
    after: Map<VehicleGuid, Seq<StreamingFields>>,
    turn: Turn,
    event: SocketEvent,
    secret: Seq<char>,
    vehicles: Seq<Vehicle>,
) -> bool {
    match event {
        SocketEvent::Opened => {
            &&& after == before
            &&& turn.send == Some(
                FromServerStreamingMessage::ControlHello { connection_timeout: 30000 },
            )
            &&& turn.subscribe is None
            &&& turn.done is None
        },
        SocketEvent::Sample { vehicle_id, data } => {
            &&& after == before
            &&& turn.subscribe is None
            &&& turn.done is None
            &&& if before.contains_key(vehicle_id) {
                turn.send matches Some(FromServerStreamingMessage::DataUpdate { tag, value })
                    && tag@ == int_text(vehicle_id.0 as int) && value@ == encode_line(
                    before[vehicle_id],
                    data@,
                )
            } else {
                turn.send is None
            }
        },
        SocketEvent::StreamEnded { vehicle_id } => {
            &&& after == before.remove(vehicle_id)
            &&& turn.subscribe is None
            &&& turn.done is None
            &&& turn.send matches Some(FromServerStreamingMessage::DataError(e)) && e.tag@
                == int_text(vehicle_id.0 as int) && e.error_type == ErrorType::VehicleDisconnected
                && e.value@ == "disconnected"@
        },
        SocketEvent::Message(None) => {
            &&& after == before
            &&& turn.send is None
            &&& turn.subscribe is None
            &&& turn.done is None
        },
        SocketEvent::Message(Some(message)) => {
            ||| is_reaction(before, after, turn, request_of(message, None, vehicles), vehicles)
            ||| held_by(message, secret) is Some && is_reaction(
                before,
                after,
                turn,
                request_of(message, held_by(message, secret), vehicles),
                vehicles,
            )
        },
        SocketEvent::Subscribed { vehicle_id, fields } => {
            &&& after == before.insert(vehicle_id, fields@)
            &&& turn.send is None
            &&& turn.subscribe is None
            &&& turn.done is None
        },
        SocketEvent::SubscribeFailed(e) => {
            &&& after == before
            &&& turn.send == Some(FromServerStreamingMessage::DataError(e))
            &&& turn.subscribe is None
            &&& turn.done is None
        },
        SocketEvent::Ping | SocketEvent::Pong => {
            &&& after == before
            &&& turn.send is None
            &&& turn.subscribe is None
            &&& turn.done is None
        },
        SocketEvent::Close | SocketEvent::End => {
            &&& after == before
            &&& turn.send is None
            &&& turn.subscribe is None
            &&& turn.done matches Some(Ok(()))
        },
        SocketEvent::Undecodable | SocketEvent::ReceiveFailed | SocketEvent::SendFailed => {
            &&& after == before
            &&& turn.send is None
            &&& turn.subscribe is None
            &&& turn.done matches Some(Err(SocketError::NotReportableError(_)))
        },
    }
}

impl Connection {
    /// A connection without subscriptions.
    pub fn new() -> (r: Self)
        ensures
            r@ == Map::<VehicleGuid, Seq<StreamingFields>>::empty(),
    {
        let r = Connection { subscriptions: HashMap::new() };
        assert(r@ =~= Map::<VehicleGuid, Seq<StreamingFields>>::empty());
        r
    }

    /// The fields that the client has asked for of the vehicle, if it has
    /// subscribed to it.
    pub fn fields_of(&self, vehicle_id: VehicleGuid) -> (r: Option<&Vec<StreamingFields>>)
        ensures
            match r {
                Some(fields) => self@.contains_key(vehicle_id) && self@[vehicle_id] == fields@,
                None => !self@.contains_key(vehicle_id),
            },
    {
        self.subscriptions.get(&vehicle_id.0)
    }

    /// Ends the subscription to the vehicle, if there is one.
    pub fn remove(&mut self, vehicle_id: VehicleGuid)
        ensures
            final(self)@ == old(self)@.remove(vehicle_id),
    {
        self.subscriptions.remove(&vehicle_id.0);
        assert(self@ =~= old(self)@.remove(vehicle_id));
    }

    /// Subscribes to the vehicle for the given fields, in place of any
    /// earlier subscription to the same vehicle.
    pub fn insert(&mut self, vehicle_id: VehicleGuid, fields: Vec<StreamingFields>)
        ensures
            final(self)@ == old(self)@.insert(vehicle_id, fields@),
    {
        self.subscriptions.insert(vehicle_id.0, fields);
        assert(self@ =~= old(self)@.insert(vehicle_id, fields@));
    }

    /// Takes one turn of the connection.
    ///
    /// A connection that has been opened greets its client. A sample of a
    /// subscribed vehicle is sent on as a line for the fields
    /// of the subscription. The end of a vehicle's samples ends the
    /// subscription and is reported. A message is decided by
    /// `process_client_message`: a subscription is asked of the simulator,
    /// the end of one takes effect at once, and a failure is reported while
    /// the connection goes on. Pings and texts that are no message are
    /// passed over. The connection ends in peace when the client closes it,
    /// and without a word when bytes are no text, when receiving fails, or
    /// when a frame cannot be sent.
    pub fn handle_socket_internal(
        &mut self,
        event: SocketEvent,
        config: &Config,
        vehicles: &Vec<Vehicle>,
    ) -> (turn: Turn)
        ensures
            is_turn(old(self)@, final(self)@, turn, event, config.secret@, vehicles@),
    {
        match event {
            SocketEvent::Opened => Turn::send(FromServerStreamingMessage::hello()),
            SocketEvent::Sample { vehicle_id, data } => {
                match self.fields_of(vehicle_id) {
                    Some(fields) => {
                        let value: String = serialize_fields(fields, &data);
                        Turn::send(FromServerStreamingMessage::data_update(vehicle_id, value))
                    },
                    None => Turn::nothing(),
                }
            },
            SocketEvent::StreamEnded { vehicle_id } => {
                self.remove(vehicle_id);
                Turn::send(
                    FromServerStreamingMessage::DataError(DataError::disconnected(vehicle_id)),
                )
            },
            SocketEvent::Message(None) => Turn::nothing(),
            SocketEvent::Message(Some(message)) => {
                let decision = process_client_message(&message, config, vehicles);
                let ghost claims = if is_decision(decision, message, None, vehicles@) {
                    None
                } else {
                    held_by(message, config.secret@)
                };
                let turn = match decision {
                    Ok(ClientRequest::Subscribe(request)) => Turn {
                        send: None,
                        subscribe: Some(request),
                        done: None,
                    },
                    Ok(ClientRequest::Unsubscribe(vehicle_id)) => {
                        self.remove(vehicle_id);
                        Turn::nothing()
                    },
                    Err(SocketError::ReportableError(e)) => Turn::send(
                        FromServerStreamingMessage::DataError(e),
                    ),
                    Err(SocketError::NotReportableError(text)) => Turn {
                        send: None,
                        subscribe: None,
                        done: None,
                    },
                };
                assert(is_reaction(
                    old(self)@,
                    self@,
                    turn,
                    request_of(message, claims, vehicles@),
                    vehicles@,
                ));
                turn
            },
            SocketEvent::Subscribed { vehicle_id, fields } => {
                self.insert(vehicle_id, fields);
                Turn::nothing()
            },
            SocketEvent::SubscribeFailed(e) => Turn::send(FromServerStreamingMessage::DataError(e)),
            SocketEvent::Ping => Turn::nothing(),
            SocketEvent::Pong => Turn::nothing(),
            SocketEvent::Close => Turn { send: None, subscribe: None, done: Some(Ok(())) },
            SocketEvent::End => Turn { send: None, subscribe: None, done: Some(Ok(())) },
            SocketEvent::Undecodable => Turn::fail("Could not parse message"),
            SocketEvent::ReceiveFailed => Turn::fail("Error receiving message"),
            SocketEvent::SendFailed => Turn::fail("Could not send message"),
        }
    }
}

/// What is left to do when a connection has ended.
#[derive(Debug, PartialEq, Eq)]
pub struct Farewell {
    /// A last frame to send to the client.
    pub send: Option<FromServerStreamingMessage>,
    /// Whether to close the socket in good order.
    pub close: bool,
}

/// Decides how a connection is wound up: one that ended in peace is closed
/// in good order, one that ended with something to report reports it, and
/// one that ended without a word is dropped.
pub fn handle_socket(outcome: Result<(), SocketError>) -> (r: Farewell)
    ensures
        match outcome {
            Ok(()) => r.send is None && r.close,
            Err(SocketError::ReportableError(e)) => r.send == Some(
                FromServerStreamingMessage::DataError(e),
            ) && !r.close,
            Err(SocketError::NotReportableError(_)) => r.send is None && !r.close,
        },
{
    match outcome {
        Ok(()) => Farewell { send: None, close: true },
        Err(SocketError::ReportableError(e)) => Farewell {
            send: Some(send_error(e)),
            close: false,
        },
        Err(SocketError::NotReportableError(_)) => Farewell { send: None, close: false },
    }
}

/// The frame that reports an error to the client.
pub fn send_error(error: DataError) -> (r: FromServerStreamingMessage)
    ensures
        r == FromServerStreamingMessage::DataError(error),
{
    FromServerStreamingMessage::DataError(error)
}

} // verus!
