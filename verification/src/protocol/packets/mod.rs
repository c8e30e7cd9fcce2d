//! The packets of the protocol: their bodies, how each is read and written, and each packet's id,
//! state and direction.
//!
//! A packet is sent as its length, then its id, then its body. Which body follows an id depends on
//! the connection's state and on the direction the packet travels.
//!
//! https://minecraft.wiki/w/Java_Edition_protocol

pub mod packet_definer;
pub mod packet_parts;

use crate::network::{length_prefixed, spec_length_prefixed};
use crate::protocol::packets::packet_definer::{PacketDirection, PacketState};
use crate::protocol::serialization::serializer_types::{PrefixedArray, PrefixedOptional};
use crate::protocol::serialization::var_int::{lemma_varint_round_trip, read_varint, spec_varint_bytes, spec_varint_parse, write_varint, VarInt};
use crate::protocol::serialization::{
    deserialized, lemma_remaining_advance, ErrKind, McDeserialize, McDeserializer, McRoundTrip, McSerialize, McSerializer,
    ParseResult, SerializingErr,
};
use crate::protocol::game::info::registry::RegistryDataPacketInternal;
use crate::protocol::game::player::ClientStatusAction;
use crate::protocol::game::world::chunk::ChunkData;
use crate::protocol::game::world::chunk::LightData;
use crate::protocol::packets::packet_parts::ChunkBiomeData;
use crate::protocol::packets::packet_parts::CustomReportDetails;
use crate::protocol::packets::packet_parts::GameEventType;
use crate::protocol::packets::packet_parts::LoginCookieResponseSpec;
use crate::protocol::packets::packet_parts::LoginPluginSpec;
use crate::protocol::packets::packet_parts::PlayerAbilityFlags;
use crate::protocol::packets::packet_parts::PlayerInputFlags;
use crate::protocol::packets::packet_parts::PlayerPositionFlags;
use crate::protocol::packets::packet_parts::ResourcePackEntry;
use crate::protocol::packets::packet_parts::block::BlockFace;
use crate::protocol::packets::packet_parts::block::TestBlockMode;
use crate::protocol::packets::packet_parts::debug::CustomReportDetail;
use crate::protocol::packets::packet_parts::debug::DebugSampleType;
use crate::protocol::packets::packet_parts::entity::EntityStatusEnum;
use crate::protocol::packets::packet_parts::player::PlayerActionStatus;
use crate::protocol::packets::packet_parts::sound::StopSoundDetails;
use crate::protocol::packets::packet_parts::stats::StatisticAward;
use crate::protocol_types::datatypes::game_types::Position;
use crate::protocol_types::datatypes::nbt::NbtCompound;
use crate::protocol::packets::packet_parts::{lemma_bytes_parse_all, lemma_login_cookie_round_trip, lemma_login_plugin_round_trip, spec_login_cookie_wf, spec_login_plugin_wf};
use vstd::prelude::*;

verus! {

/// A value followed by every byte left reads back as it was written, when nothing follows it.
pub proof fn lemma_then_bytes_round_trip<A: McRoundTrip>(a: A::V, d: Seq<u8>)
    requires
        A::spec_can_serialize(a),
        A::spec_well_formed(a),
    ensures
        <(A, Vec<u8>)>::spec_deserialize(<(A, Vec<u8>)>::spec_serialize((a, d)))
            == Ok::<((A::V, Seq<u8>), nat), ErrKind>(((a, d), <(A, Vec<u8>)>::spec_serialize((a, d)).len())),
{
    let ab = A::spec_serialize(a);
    let db = Vec::<u8>::spec_serialize(d);
    A::lemma_round_trip(a, db);
    assert((ab + db).skip(ab.len() as int) == db);
    lemma_bytes_parse_all(d);
}

/// A variable-length integer followed by a value that reads back whole reads back as it was
/// written, when nothing follows it.
pub proof fn lemma_varint_then_round_trip<B: McSerialize + McDeserialize>(a: VarInt, b: B::V)
    requires
        B::spec_deserialize(B::spec_serialize(b)) == Ok::<(B::V, nat), ErrKind>((b, B::spec_serialize(b).len())),
    ensures
        <(VarInt, B)>::spec_deserialize(<(VarInt, B)>::spec_serialize((a, b)))
            == Ok::<((VarInt, B::V), nat), ErrKind>(((a, b), <(VarInt, B)>::spec_serialize((a, b)).len())),
{
    let ab = VarInt::spec_serialize(a);
    let bb = B::spec_serialize(b);
    VarInt::lemma_round_trip(a, bb);
    assert((ab + bb).skip(ab.len() as int) == bb);
}

/// The fields of [`HandshakingPacket`] as they are sent, in order.
pub type HandshakingPacketFields = (VarInt, (String, (u16, VarInt)));

/// The body of the Handshaking packet (handshaking state, to the server, id 0x00).
#[derive(Debug, Clone, PartialEq)]
pub struct HandshakingPacket {
    pub protocol_version: VarInt,
    pub server_address: String,
    pub port: u16,
    pub next_state: VarInt,
}

impl DeepView for HandshakingPacket {
    type V = <HandshakingPacketFields as DeepView>::V;

    open spec fn deep_view(&self) -> Self::V {
        (self.protocol_version.deep_view(), (self.server_address.deep_view(), (self.port.deep_view(), self.next_state.deep_view())))
    }
}

impl McSerialize for HandshakingPacket {
    open spec fn spec_serialize(v: Self::V) -> Seq<u8> {
        HandshakingPacketFields::spec_serialize(v)
    }

    open spec fn spec_can_serialize(v: Self::V) -> bool {
        HandshakingPacketFields::spec_can_serialize(v)
    }

    fn mc_serialize(&self, serializer: &mut McSerializer) -> (r: Result<(), SerializingErr>) {
        let _ = self.protocol_version.mc_serialize(serializer);
        let _ = self.server_address.mc_serialize(serializer);
        let _ = self.port.mc_serialize(serializer);
        let _ = self.next_state.mc_serialize(serializer);
        assert(serializer.output@ == old(serializer).output@ + Self::spec_serialize(self.deep_view()));
        Ok(())
    }
}

impl McDeserialize for HandshakingPacket {
    open spec fn spec_deserialize(s: Seq<u8>) -> ParseResult<Self::V> {
        HandshakingPacketFields::spec_deserialize(s)
    }

    proof fn lemma_deserialize_len(s: Seq<u8>) {
        HandshakingPacketFields::lemma_deserialize_len(s);
    }

    fn mc_deserialize(deserializer: &mut McDeserializer) -> (r: Result<HandshakingPacket, SerializingErr>) {
        let (protocol_version, (server_address, (port, next_state))) = HandshakingPacketFields::mc_deserialize(deserializer)?;
        Ok(HandshakingPacket { protocol_version, server_address, port, next_state })
    }
}

impl McRoundTrip for HandshakingPacket {
    open spec fn spec_well_formed(v: Self::V) -> bool {
        HandshakingPacketFields::spec_well_formed(v)
    }

    proof fn lemma_round_trip(v: Self::V, rest: Seq<u8>) {
        HandshakingPacketFields::lemma_round_trip(v, rest);
    }
}
impl HandshakingPacket {
    pub fn new(protocol_version: VarInt, server_address: String, port: u16, next_state: VarInt) -> (p: Self)
        ensures
            p == (HandshakingPacket { protocol_version, server_address, port, next_state }),
    {
        HandshakingPacket { protocol_version, server_address, port, next_state }
    }
}

/// The fields of [`PingResponsePacket`] as they are sent, in order.
pub type PingResponsePacketFields = u64;

/// The body of the PingResponse packet (status state, to the client, id 0x01).
#[derive(Debug, Clone, PartialEq)]
pub struct PingResponsePacket {
    pub payload: u64,
}

impl DeepView for PingResponsePacket {
    type V = <PingResponsePacketFields as DeepView>::V;

    open spec fn deep_view(&self) -> Self::V {
        self.payload.deep_view()
    }
}

impl McSerialize for PingResponsePacket {
    open spec fn spec_serialize(v: Self::V) -> Seq<u8> {
        PingResponsePacketFields::spec_serialize(v)
    }

    open spec fn spec_can_serialize(v: Self::V) -> bool {
        PingResponsePacketFields::spec_can_serialize(v)
    }

    fn mc_serialize(&self, serializer: &mut McSerializer) -> (r: Result<(), SerializingErr>) {
        let _ = self.payload.mc_serialize(serializer);
        Ok(())
    }
}

impl McDeserialize for PingResponsePacket {
    open spec fn spec_deserialize(s: Seq<u8>) -> ParseResult<Self::V> {
        PingResponsePacketFields::spec_deserialize(s)
    }

    proof fn lemma_deserialize_len(s: Seq<u8>) {
        PingResponsePacketFields::lemma_deserialize_len(s);
    }

    fn mc_deserialize(deserializer: &mut McDeserializer) -> (r: Result<PingResponsePacket, SerializingErr>) {
        let payload = PingResponsePacketFields::mc_deserialize(deserializer)?;
        Ok(PingResponsePacket { payload })
    }
}

impl McRoundTrip for PingResponsePacket {
    open spec fn spec_well_formed(v: Self::V) -> bool {
        PingResponsePacketFields::spec_well_formed(v)
    }

    proof fn lemma_round_trip(v: Self::V, rest: Seq<u8>) {
        PingResponsePacketFields::lemma_round_trip(v, rest);
    }
}
impl PingResponsePacket {
    pub fn new(payload: u64) -> (p: Self)
        ensures
            p == (PingResponsePacket { payload }),
    {
        PingResponsePacket { payload }
    }
}

/// The body of the StatusRequest packet (status state, to the server, id 0x00).
#[derive(Debug, Clone, PartialEq)]
pub struct StatusRequestPacket {}

impl DeepView for StatusRequestPacket {
    type V = ();

    open spec fn deep_view(&self) -> () {
        ()
    }
}

impl StatusRequestPacket {
    pub fn new() -> (p: Self)
        ensures
            p == (StatusRequestPacket {}),
    {
        StatusRequestPacket {}
    }
}

impl McSerialize for StatusRequestPacket {
    /// An empty body.
    open spec fn spec_serialize(v: ()) -> Seq<u8> {
        Seq::<u8>::empty()
    }

    open spec fn spec_can_serialize(v: ()) -> bool {
        true
    }

    fn mc_serialize(&self, serializer: &mut McSerializer) -> (r: Result<(), SerializingErr>) {
        assert(serializer.output@ + Seq::<u8>::empty() == serializer.output@);
        Ok(())
    }
}

impl McDeserialize for StatusRequestPacket {
    open spec fn spec_deserialize(s: Seq<u8>) -> ParseResult<()> {
        Ok(((), 0nat))
    }

    proof fn lemma_deserialize_len(s: Seq<u8>) {
    }

    fn mc_deserialize(deserializer: &mut McDeserializer) -> (r: Result<StatusRequestPacket, SerializingErr>) {
        Ok(StatusRequestPacket {})
    }
}

impl McRoundTrip for StatusRequestPacket {
    open spec fn spec_well_formed(v: ()) -> bool {
        true
    }

    proof fn lemma_round_trip(v: (), rest: Seq<u8>) {
        assert(Seq::<u8>::empty() + rest == rest);
    }
}

/// The fields of [`PingRequestPacket`] as they are sent, in order.
pub type PingRequestPacketFields = i64;

/// The body of the PingRequest packet (status state, to the server, id 0x01).
#[derive(Debug, Clone, PartialEq)]
pub struct PingRequestPacket {
    pub payload: i64,
}

impl DeepView for PingRequestPacket {
    type V = <PingRequestPacketFields as DeepView>::V;

    open spec fn deep_view(&self) -> Self::V {
        self.payload.deep_view()
    }
}

impl McSerialize for PingRequestPacket {
    open spec fn spec_serialize(v: Self::V) -> Seq<u8> {
        PingRequestPacketFields::spec_serialize(v)
    }

    open spec fn spec_can_serialize(v: Self::V) -> bool {
        PingRequestPacketFields::spec_can_serialize(v)
    }

    fn mc_serialize(&self, serializer: &mut McSerializer) -> (r: Result<(), SerializingErr>) {
        let _ = self.payload.mc_serialize(serializer);
        Ok(())
    }
}

impl McDeserialize for PingRequestPacket {
    open spec fn spec_deserialize(s: Seq<u8>) -> ParseResult<Self::V> {
        PingRequestPacketFields::spec_deserialize(s)
    }

    proof fn lemma_deserialize_len(s: Seq<u8>) {
        PingRequestPacketFields::lemma_deserialize_len(s);
    }

    fn mc_deserialize(deserializer: &mut McDeserializer) -> (r: Result<PingRequestPacket, SerializingErr>) {
        let payload = PingRequestPacketFields::mc_deserialize(deserializer)?;
        Ok(PingRequestPacket { payload })
    }
}

impl McRoundTrip for PingRequestPacket {
    open spec fn spec_well_formed(v: Self::V) -> bool {
        PingRequestPacketFields::spec_well_formed(v)
    }

    proof fn lemma_round_trip(v: Self::V, rest: Seq<u8>) {
        PingRequestPacketFields::lemma_round_trip(v, rest);
    }
}
impl PingRequestPacket {
    pub fn new(payload: i64) -> (p: Self)
        ensures
            p == (PingRequestPacket { payload }),
    {
        PingRequestPacket { payload }
    }
}

/// The fields of [`SetCompressionPacket`] as they are sent, in order.
pub type SetCompressionPacketFields = VarInt;

/// The body of the SetCompression packet (login state, to the client, id 0x03).
#[derive(Debug, Clone, PartialEq)]
pub struct SetCompressionPacket {
    pub threshold: VarInt,
}

impl DeepView for SetCompressionPacket {
    type V = <SetCompressionPacketFields as DeepView>::V;

    open spec fn deep_view(&self) -> Self::V {
        self.threshold.deep_view()
    }
}

impl McSerialize for SetCompressionPacket {
    open spec fn spec_serialize(v: Self::V) -> Seq<u8> {
        SetCompressionPacketFields::spec_serialize(v)
    }

    open spec fn spec_can_serialize(v: Self::V) -> bool {
        SetCompressionPacketFields::spec_can_serialize(v)
    }

    fn mc_serialize(&self, serializer: &mut McSerializer) -> (r: Result<(), SerializingErr>) {
        let _ = self.threshold.mc_serialize(serializer);
        Ok(())
    }
}

impl McDeserialize for SetCompressionPacket {
    open spec fn spec_deserialize(s: Seq<u8>) -> ParseResult<Self::V> {
        SetCompressionPacketFields::spec_deserialize(s)
    }

    proof fn lemma_deserialize_len(s: Seq<u8>) {
        SetCompressionPacketFields::lemma_deserialize_len(s);
    }

    fn mc_deserialize(deserializer: &mut McDeserializer) -> (r: Result<SetCompressionPacket, SerializingErr>) {
        let threshold = SetCompressionPacketFields::mc_deserialize(deserializer)?;
        Ok(SetCompressionPacket { threshold })
    }
}

impl McRoundTrip for SetCompressionPacket {
    open spec fn spec_well_formed(v: Self::V) -> bool {
        SetCompressionPacketFields::spec_well_formed(v)
    }

    proof fn lemma_round_trip(v: Self::V, rest: Seq<u8>) {
        SetCompressionPacketFields::lemma_round_trip(v, rest);
    }
}
impl SetCompressionPacket {
    pub fn new(threshold: VarInt) -> (p: Self)
        ensures
            p == (SetCompressionPacket { threshold }),
    {
        SetCompressionPacket { threshold }
    }
}

/// The fields of [`LoginPluginRequestPacket`] as they are sent, in order.
pub type LoginPluginRequestPacketFields = (VarInt, (String, Vec<u8>));

/// The body of the LoginPluginRequest packet (login state, to the client, id 0x04).
#[derive(Debug, Clone, PartialEq)]
pub struct LoginPluginRequestPacket {
    pub message_id: VarInt,
    pub channel: String,
    pub data: Vec<u8>,
}

impl DeepView for LoginPluginRequestPacket {
    type V = <LoginPluginRequestPacketFields as DeepView>::V;

    open spec fn deep_view(&self) -> Self::V {
        (self.message_id.deep_view(), (self.channel.deep_view(), self.data.deep_view()))
    }
}

impl McSerialize for LoginPluginRequestPacket {
    open spec fn spec_serialize(v: Self::V) -> Seq<u8> {
        LoginPluginRequestPacketFields::spec_serialize(v)
    }

    open spec fn spec_can_serialize(v: Self::V) -> bool {
        LoginPluginRequestPacketFields::spec_can_serialize(v)
    }

    fn mc_serialize(&self, serializer: &mut McSerializer) -> (r: Result<(), SerializingErr>) {
        let _ = self.message_id.mc_serialize(serializer);
        let _ = self.channel.mc_serialize(serializer);
        let _ = self.data.mc_serialize(serializer);
        assert(serializer.output@ == old(serializer).output@ + Self::spec_serialize(self.deep_view()));
        Ok(())
    }
}

impl McDeserialize for LoginPluginRequestPacket {
    open spec fn spec_deserialize(s: Seq<u8>) -> ParseResult<Self::V> {
        LoginPluginRequestPacketFields::spec_deserialize(s)
    }

    proof fn lemma_deserialize_len(s: Seq<u8>) {
        LoginPluginRequestPacketFields::lemma_deserialize_len(s);
    }

    fn mc_deserialize(deserializer: &mut McDeserializer) -> (r: Result<LoginPluginRequestPacket, SerializingErr>) {
        let (message_id, (channel, data)) = LoginPluginRequestPacketFields::mc_deserialize(deserializer)?;
        Ok(LoginPluginRequestPacket { message_id, channel, data })
    }
}
impl LoginPluginRequestPacket {
    pub fn new(message_id: VarInt, channel: String, data: Vec<u8>) -> (p: Self)
        ensures
            p == (LoginPluginRequestPacket { message_id, channel, data }),
    {
        LoginPluginRequestPacket { message_id, channel, data }
    }
}

/// The fields of [`LoginCookieRequestPacket`] as they are sent, in order.
pub type LoginCookieRequestPacketFields = String;

/// The body of the LoginCookieRequest packet (login state, to the client, id 0x05).
#[derive(Debug, Clone, PartialEq)]
pub struct LoginCookieRequestPacket {
    pub key: String,
}

impl DeepView for LoginCookieRequestPacket {
    type V = <LoginCookieRequestPacketFields as DeepView>::V;

    open spec fn deep_view(&self) -> Self::V {
        self.key.deep_view()
    }
}

impl McSerialize for LoginCookieRequestPacket {
    open spec fn spec_serialize(v: Self::V) -> Seq<u8> {
        LoginCookieRequestPacketFields::spec_serialize(v)
    }

    open spec fn spec_can_serialize(v: Self::V) -> bool {
        LoginCookieRequestPacketFields::spec_can_serialize(v)
    }

    fn mc_serialize(&self, serializer: &mut McSerializer) -> (r: Result<(), SerializingErr>) {
        let _ = self.key.mc_serialize(serializer);
        Ok(())
    }
}

impl McDeserialize for LoginCookieRequestPacket {
    open spec fn spec_deserialize(s: Seq<u8>) -> ParseResult<Self::V> {
        LoginCookieRequestPacketFields::spec_deserialize(s)
    }

    proof fn lemma_deserialize_len(s: Seq<u8>) {
        LoginCookieRequestPacketFields::lemma_deserialize_len(s);
    }

    fn mc_deserialize(deserializer: &mut McDeserializer) -> (r: Result<LoginCookieRequestPacket, SerializingErr>) {
        let key = LoginCookieRequestPacketFields::mc_deserialize(deserializer)?;
        Ok(LoginCookieRequestPacket { key })
    }
}

impl McRoundTrip for LoginCookieRequestPacket {
    open spec fn spec_well_formed(v: Self::V) -> bool {
        LoginCookieRequestPacketFields::spec_well_formed(v)
    }

    proof fn lemma_round_trip(v: Self::V, rest: Seq<u8>) {
        LoginCookieRequestPacketFields::lemma_round_trip(v, rest);
    }
}
impl LoginCookieRequestPacket {
    pub fn new(key: String) -> (p: Self)
        ensures
            p == (LoginCookieRequestPacket { key }),
    {
        LoginCookieRequestPacket { key }
    }
}

/// The fields of [`LoginPluginResponsePacket`] as they are sent, in order.
pub type LoginPluginResponsePacketFields = LoginPluginSpec;

/// The body of the LoginPluginResponse packet (login state, to the server, id 0x02).
#[derive(Debug, Clone, PartialEq)]
pub struct LoginPluginResponsePacket {
    pub response: LoginPluginSpec,
}

impl DeepView for LoginPluginResponsePacket {
    type V = <LoginPluginResponsePacketFields as DeepView>::V;

    open spec fn deep_view(&self) -> Self::V {
        self.response.deep_view()
    }
}

impl McSerialize for LoginPluginResponsePacket {
    open spec fn spec_serialize(v: Self::V) -> Seq<u8> {
        LoginPluginResponsePacketFields::spec_serialize(v)
    }

    open spec fn spec_can_serialize(v: Self::V) -> bool {
        LoginPluginResponsePacketFields::spec_can_serialize(v)
    }

    fn mc_serialize(&self, serializer: &mut McSerializer) -> (r: Result<(), SerializingErr>) {
        let _ = self.response.mc_serialize(serializer);
        Ok(())
    }
}

impl McDeserialize for LoginPluginResponsePacket {
    open spec fn spec_deserialize(s: Seq<u8>) -> ParseResult<Self::V> {
        LoginPluginResponsePacketFields::spec_deserialize(s)
    }

    proof fn lemma_deserialize_len(s: Seq<u8>) {
        LoginPluginResponsePacketFields::lemma_deserialize_len(s);
    }

    fn mc_deserialize(deserializer: &mut McDeserializer) -> (r: Result<LoginPluginResponsePacket, SerializingErr>) {
        let response = LoginPluginResponsePacketFields::mc_deserialize(deserializer)?;
        Ok(LoginPluginResponsePacket { response })
    }
}
impl LoginPluginResponsePacket {
    pub fn new(response: LoginPluginSpec) -> (p: Self)
        ensures
            p == (LoginPluginResponsePacket { response }),
    {
        LoginPluginResponsePacket { response }
    }
}

/// The body of the LoginAcknowledged packet (login state, to the server, id 0x03).
#[derive(Debug, Clone, PartialEq)]
pub struct LoginAcknowledgedPacket {}

impl DeepView for LoginAcknowledgedPacket {
    type V = ();

    open spec fn deep_view(&self) -> () {
        ()
    }
}

impl LoginAcknowledgedPacket {
    pub fn new() -> (p: Self)
        ensures
            p == (LoginAcknowledgedPacket {}),
    {
        LoginAcknowledgedPacket {}
    }
}

impl McSerialize for LoginAcknowledgedPacket {
    /// An empty body.
    open spec fn spec_serialize(v: ()) -> Seq<u8> {
        Seq::<u8>::empty()
    }

    open spec fn spec_can_serialize(v: ()) -> bool {
        true
    }

    fn mc_serialize(&self, serializer: &mut McSerializer) -> (r: Result<(), SerializingErr>) {
        assert(serializer.output@ + Seq::<u8>::empty() == serializer.output@);
        Ok(())
    }
}

impl McDeserialize for LoginAcknowledgedPacket {
    open spec fn spec_deserialize(s: Seq<u8>) -> ParseResult<()> {
        Ok(((), 0nat))
    }

    proof fn lemma_deserialize_len(s: Seq<u8>) {
    }

    fn mc_deserialize(deserializer: &mut McDeserializer) -> (r: Result<LoginAcknowledgedPacket, SerializingErr>) {
        Ok(LoginAcknowledgedPacket {})
    }
}

impl McRoundTrip for LoginAcknowledgedPacket {
    open spec fn spec_well_formed(v: ()) -> bool {
        true
    }

    proof fn lemma_round_trip(v: (), rest: Seq<u8>) {
        assert(Seq::<u8>::empty() + rest == rest);
    }
}

/// The fields of [`LoginCookieResponsePacket`] as they are sent, in order.
pub type LoginCookieResponsePacketFields = LoginCookieResponseSpec;

/// The body of the LoginCookieResponse packet (login state, to the server, id 0x04).
#[derive(Debug, Clone, PartialEq)]
pub struct LoginCookieResponsePacket {
    pub spec: LoginCookieResponseSpec,
}

impl DeepView for LoginCookieResponsePacket {
    type V = <LoginCookieResponsePacketFields as DeepView>::V;

    open spec fn deep_view(&self) -> Self::V {
        self.spec.deep_view()
    }
}

impl McSerialize for LoginCookieResponsePacket {
    open spec fn spec_serialize(v: Self::V) -> Seq<u8> {
        LoginCookieResponsePacketFields::spec_serialize(v)
    }

    open spec fn spec_can_serialize(v: Self::V) -> bool {
        LoginCookieResponsePacketFields::spec_can_serialize(v)
    }

    fn mc_serialize(&self, serializer: &mut McSerializer) -> (r: Result<(), SerializingErr>) {
        let _ = self.spec.mc_serialize(serializer);
        Ok(())
    }
}

impl McDeserialize for LoginCookieResponsePacket {
    open spec fn spec_deserialize(s: Seq<u8>) -> ParseResult<Self::V> {
        LoginCookieResponsePacketFields::spec_deserialize(s)
    }

    proof fn lemma_deserialize_len(s: Seq<u8>) {
        LoginCookieResponsePacketFields::lemma_deserialize_len(s);
    }

    fn mc_deserialize(deserializer: &mut McDeserializer) -> (r: Result<LoginCookieResponsePacket, SerializingErr>) {
        let spec = LoginCookieResponsePacketFields::mc_deserialize(deserializer)?;
        Ok(LoginCookieResponsePacket { spec })
    }
}
impl LoginCookieResponsePacket {
    pub fn new(spec: LoginCookieResponseSpec) -> (p: Self)
        ensures
            p == (LoginCookieResponsePacket { spec }),
    {
        LoginCookieResponsePacket { spec }
    }
}

/// The fields of [`ConfigCookieRequestPacket`] as they are sent, in order.
pub type ConfigCookieRequestPacketFields = String;

/// The body of the ConfigCookieRequest packet (configuration state, to the client, id 0x00).
#[derive(Debug, Clone, PartialEq)]
pub struct ConfigCookieRequestPacket {
    pub key: String,
}

impl DeepView for ConfigCookieRequestPacket {
    type V = <ConfigCookieRequestPacketFields as DeepView>::V;

    open spec fn deep_view(&self) -> Self::V {
        self.key.deep_view()
    }
}

impl McSerialize for ConfigCookieRequestPacket {
    open spec fn spec_serialize(v: Self::V) -> Seq<u8> {
        ConfigCookieRequestPacketFields::spec_serialize(v)
    }

    open spec fn spec_can_serialize(v: Self::V) -> bool {
        ConfigCookieRequestPacketFields::spec_can_serialize(v)
    }

    fn mc_serialize(&self, serializer: &mut McSerializer) -> (r: Result<(), SerializingErr>) {
        let _ = self.key.mc_serialize(serializer);
        Ok(())
    }
}

impl McDeserialize for ConfigCookieRequestPacket {
    open spec fn spec_deserialize(s: Seq<u8>) -> ParseResult<Self::V> {
        ConfigCookieRequestPacketFields::spec_deserialize(s)
    }

    proof fn lemma_deserialize_len(s: Seq<u8>) {
        ConfigCookieRequestPacketFields::lemma_deserialize_len(s);
    }

    fn mc_deserialize(deserializer: &mut McDeserializer) -> (r: Result<ConfigCookieRequestPacket, SerializingErr>) {
        let key = ConfigCookieRequestPacketFields::mc_deserialize(deserializer)?;
        Ok(ConfigCookieRequestPacket { key })
    }
}

impl McRoundTrip for ConfigCookieRequestPacket {
    open spec fn spec_well_formed(v: Self::V) -> bool {
        ConfigCookieRequestPacketFields::spec_well_formed(v)
    }

    proof fn lemma_round_trip(v: Self::V, rest: Seq<u8>) {
        ConfigCookieRequestPacketFields::lemma_round_trip(v, rest);
    }
}
impl ConfigCookieRequestPacket {
    pub fn new(key: String) -> (p: Self)
        ensures
            p == (ConfigCookieRequestPacket { key }),
    {
        ConfigCookieRequestPacket { key }
    }
}

/// The fields of [`ClientboundPluginMessagePacket`] as they are sent, in order.
pub type ClientboundPluginMessagePacketFields = (String, Vec<u8>);

/// The body of the ClientboundPluginMessage packet (configuration state, to the client, id 0x01).
#[derive(Debug, Clone, PartialEq)]
pub struct ClientboundPluginMessagePacket {
    pub channel: String,
    pub data: Vec<u8>,
}

impl DeepView for ClientboundPluginMessagePacket {
    type V = <ClientboundPluginMessagePacketFields as DeepView>::V;

    open spec fn deep_view(&self) -> Self::V {
        (self.channel.deep_view(), self.data.deep_view())
    }
}

impl McSerialize for ClientboundPluginMessagePacket {
    open spec fn spec_serialize(v: Self::V) -> Seq<u8> {
        ClientboundPluginMessagePacketFields::spec_serialize(v)
    }

    open spec fn spec_can_serialize(v: Self::V) -> bool {
        ClientboundPluginMessagePacketFields::spec_can_serialize(v)
    }

    fn mc_serialize(&self, serializer: &mut McSerializer) -> (r: Result<(), SerializingErr>) {
        let _ = self.channel.mc_serialize(serializer);
        let _ = self.data.mc_serialize(serializer);
        assert(serializer.output@ == old(serializer).output@ + Self::spec_serialize(self.deep_view()));
        Ok(())
    }
}

impl McDeserialize for ClientboundPluginMessagePacket {
    open spec fn spec_deserialize(s: Seq<u8>) -> ParseResult<Self::V> {
        ClientboundPluginMessagePacketFields::spec_deserialize(s)
    }

    proof fn lemma_deserialize_len(s: Seq<u8>) {
        ClientboundPluginMessagePacketFields::lemma_deserialize_len(s);
    }

    fn mc_deserialize(deserializer: &mut McDeserializer) -> (r: Result<ClientboundPluginMessagePacket, SerializingErr>) {
        let (channel, data) = ClientboundPluginMessagePacketFields::mc_deserialize(deserializer)?;
        Ok(ClientboundPluginMessagePacket { channel, data })
    }
}
impl ClientboundPluginMessagePacket {
    pub fn new(channel: String, data: Vec<u8>) -> (p: Self)
        ensures
            p == (ClientboundPluginMessagePacket { channel, data }),
    {
        ClientboundPluginMessagePacket { channel, data }
    }
}

/// The body of the FinishConfiguration packet (configuration state, to the client, id 0x03).
#[derive(Debug, Clone, PartialEq)]
pub struct FinishConfigurationPacket {}

impl DeepView for FinishConfigurationPacket {
    type V = ();

    open spec fn deep_view(&self) -> () {
        ()
    }
}

impl FinishConfigurationPacket {
    pub fn new() -> (p: Self)
        ensures
            p == (FinishConfigurationPacket {}),
    {
        FinishConfigurationPacket {}
    }
}

impl McSerialize for FinishConfigurationPacket {
    /// An empty body.
    open spec fn spec_serialize(v: ()) -> Seq<u8> {
        Seq::<u8>::empty()
    }

    open spec fn spec_can_serialize(v: ()) -> bool {
        true
    }

    fn mc_serialize(&self, serializer: &mut McSerializer) -> (r: Result<(), SerializingErr>) {
        assert(serializer.output@ + Seq::<u8>::empty() == serializer.output@);
        Ok(())
    }
}

impl McDeserialize for FinishConfigurationPacket {
    open spec fn spec_deserialize(s: Seq<u8>) -> ParseResult<()> {
        Ok(((), 0nat))
    }

    proof fn lemma_deserialize_len(s: Seq<u8>) {
    }

    fn mc_deserialize(deserializer: &mut McDeserializer) -> (r: Result<FinishConfigurationPacket, SerializingErr>) {
        Ok(FinishConfigurationPacket {})
    }
}

impl McRoundTrip for FinishConfigurationPacket {
    open spec fn spec_well_formed(v: ()) -> bool {
        true
    }

    proof fn lemma_round_trip(v: (), rest: Seq<u8>) {
        assert(Seq::<u8>::empty() + rest == rest);
    }
}

/// The fields of [`KeepAlivePacket`] as they are sent, in order.
pub type KeepAlivePacketFields = i64;

/// The body of the KeepAlive packet (configuration state, to the client, id 0x04).
#[derive(Debug, Clone, PartialEq)]
pub struct KeepAlivePacket {
    pub keep_alive_id: i64,
}

impl DeepView for KeepAlivePacket {
    type V = <KeepAlivePacketFields as DeepView>::V;

    open spec fn deep_view(&self) -> Self::V {
        self.keep_alive_id.deep_view()
    }
}

impl McSerialize for KeepAlivePacket {
    open spec fn spec_serialize(v: Self::V) -> Seq<u8> {
        KeepAlivePacketFields::spec_serialize(v)
    }

    open spec fn spec_can_serialize(v: Self::V) -> bool {
        KeepAlivePacketFields::spec_can_serialize(v)
    }

    fn mc_serialize(&self, serializer: &mut McSerializer) -> (r: Result<(), SerializingErr>) {
        let _ = self.keep_alive_id.mc_serialize(serializer);
        Ok(())
    }
}

impl McDeserialize for KeepAlivePacket {
    open spec fn spec_deserialize(s: Seq<u8>) -> ParseResult<Self::V> {
        KeepAlivePacketFields::spec_deserialize(s)
    }

    proof fn lemma_deserialize_len(s: Seq<u8>) {
        KeepAlivePacketFields::lemma_deserialize_len(s);
    }

    fn mc_deserialize(deserializer: &mut McDeserializer) -> (r: Result<KeepAlivePacket, SerializingErr>) {
        let keep_alive_id = KeepAlivePacketFields::mc_deserialize(deserializer)?;
        Ok(KeepAlivePacket { keep_alive_id })
    }
}

impl McRoundTrip for KeepAlivePacket {
    open spec fn spec_well_formed(v: Self::V) -> bool {
        KeepAlivePacketFields::spec_well_formed(v)
    }

    proof fn lemma_round_trip(v: Self::V, rest: Seq<u8>) {
        KeepAlivePacketFields::lemma_round_trip(v, rest);
    }
}
impl KeepAlivePacket {
    pub fn new(keep_alive_id: i64) -> (p: Self)
        ensures
            p == (KeepAlivePacket { keep_alive_id }),
    {
        KeepAlivePacket { keep_alive_id }
    }
}

/// The fields of [`ConfigurationPingPacket`] as they are sent, in order.
pub type ConfigurationPingPacketFields = i32;

/// The body of the ConfigurationPing packet (configuration state, to the client, id 0x05).
#[derive(Debug, Clone, PartialEq)]
pub struct ConfigurationPingPacket {
    pub payload: i32,
}

impl DeepView for ConfigurationPingPacket {
    type V = <ConfigurationPingPacketFields as DeepView>::V;

    open spec fn deep_view(&self) -> Self::V {
        self.payload.deep_view()
    }
}

impl McSerialize for ConfigurationPingPacket {
    open spec fn spec_serialize(v: Self::V) -> Seq<u8> {
        ConfigurationPingPacketFields::spec_serialize(v)
    }

    open spec fn spec_can_serialize(v: Self::V) -> bool {
        ConfigurationPingPacketFields::spec_can_serialize(v)
    }

    fn mc_serialize(&self, serializer: &mut McSerializer) -> (r: Result<(), SerializingErr>) {
        let _ = self.payload.mc_serialize(serializer);
        Ok(())
    }
}

impl McDeserialize for ConfigurationPingPacket {
    open spec fn spec_deserialize(s: Seq<u8>) -> ParseResult<Self::V> {
        ConfigurationPingPacketFields::spec_deserialize(s)
    }

    proof fn lemma_deserialize_len(s: Seq<u8>) {
        ConfigurationPingPacketFields::lemma_deserialize_len(s);
    }

    fn mc_deserialize(deserializer: &mut McDeserializer) -> (r: Result<ConfigurationPingPacket, SerializingErr>) {
        let payload = ConfigurationPingPacketFields::mc_deserialize(deserializer)?;
        Ok(ConfigurationPingPacket { payload })
    }
}

impl McRoundTrip for ConfigurationPingPacket {
    open spec fn spec_well_formed(v: Self::V) -> bool {
        ConfigurationPingPacketFields::spec_well_formed(v)
    }

    proof fn lemma_round_trip(v: Self::V, rest: Seq<u8>) {
        ConfigurationPingPacketFields::lemma_round_trip(v, rest);
    }
}
impl ConfigurationPingPacket {
    pub fn new(payload: i32) -> (p: Self)
        ensures
            p == (ConfigurationPingPacket { payload }),
    {
        ConfigurationPingPacket { payload }
    }
}

/// The body of the ResetChat packet (configuration state, to the client, id 0x06).
#[derive(Debug, Clone, PartialEq)]
pub struct ResetChatPacket {}

impl DeepView for ResetChatPacket {
    type V = ();

    open spec fn deep_view(&self) -> () {
        ()
    }
}

impl ResetChatPacket {
    pub fn new() -> (p: Self)
        ensures
            p == (ResetChatPacket {}),
    {
        ResetChatPacket {}
    }
}

impl McSerialize for ResetChatPacket {
    /// An empty body.
    open spec fn spec_serialize(v: ()) -> Seq<u8> {
        Seq::<u8>::empty()
    }

    open spec fn spec_can_serialize(v: ()) -> bool {
        true
    }

    fn mc_serialize(&self, serializer: &mut McSerializer) -> (r: Result<(), SerializingErr>) {
        assert(serializer.output@ + Seq::<u8>::empty() == serializer.output@);
        Ok(())
    }
}

impl McDeserialize for ResetChatPacket {
    open spec fn spec_deserialize(s: Seq<u8>) -> ParseResult<()> {
        Ok(((), 0nat))
    }

    proof fn lemma_deserialize_len(s: Seq<u8>) {
    }

    fn mc_deserialize(deserializer: &mut McDeserializer) -> (r: Result<ResetChatPacket, SerializingErr>) {
        Ok(ResetChatPacket {})
    }
}

impl McRoundTrip for ResetChatPacket {
    open spec fn spec_well_formed(v: ()) -> bool {
        true
    }

    proof fn lemma_round_trip(v: (), rest: Seq<u8>) {
        assert(Seq::<u8>::empty() + rest == rest);
    }
}

/// The fields of [`RegistryDataPacket`] as they are sent, in order.
pub type RegistryDataPacketFields = RegistryDataPacketInternal;

/// The body of the RegistryData packet (configuration state, to the client, id 0x07).
#[derive(Debug, Clone, PartialEq)]
pub struct RegistryDataPacket {
    pub packet: RegistryDataPacketInternal,
}

impl DeepView for RegistryDataPacket {
    type V = <RegistryDataPacketFields as DeepView>::V;

    open spec fn deep_view(&self) -> Self::V {
        self.packet.deep_view()
    }
}

impl McSerialize for RegistryDataPacket {
    open spec fn spec_serialize(v: Self::V) -> Seq<u8> {
        RegistryDataPacketFields::spec_serialize(v)
    }

    open spec fn spec_can_serialize(v: Self::V) -> bool {
        RegistryDataPacketFields::spec_can_serialize(v)
    }

    fn mc_serialize(&self, serializer: &mut McSerializer) -> (r: Result<(), SerializingErr>) {
        let _ = self.packet.mc_serialize(serializer);
        Ok(())
    }
}

impl McDeserialize for RegistryDataPacket {
    open spec fn spec_deserialize(s: Seq<u8>) -> ParseResult<Self::V> {
        RegistryDataPacketFields::spec_deserialize(s)
    }

    proof fn lemma_deserialize_len(s: Seq<u8>) {
        RegistryDataPacketFields::lemma_deserialize_len(s);
    }

    fn mc_deserialize(deserializer: &mut McDeserializer) -> (r: Result<RegistryDataPacket, SerializingErr>) {
        let packet = RegistryDataPacketFields::mc_deserialize(deserializer)?;
        Ok(RegistryDataPacket { packet })
    }
}

impl McRoundTrip for RegistryDataPacket {
    open spec fn spec_well_formed(v: Self::V) -> bool {
        RegistryDataPacketFields::spec_well_formed(v)
    }

    proof fn lemma_round_trip(v: Self::V, rest: Seq<u8>) {
        RegistryDataPacketFields::lemma_round_trip(v, rest);
    }
}
impl RegistryDataPacket {
    pub fn new(packet: RegistryDataPacketInternal) -> (p: Self)
        ensures
            p == (RegistryDataPacket { packet }),
    {
        RegistryDataPacket { packet }
    }
}

/// The fields of [`ConfigStoreCookiePacket`] as they are sent, in order.
pub type ConfigStoreCookiePacketFields = (String, PrefixedArray<u8>);

/// The body of the ConfigStoreCookie packet (configuration state, to the client, id 0x0A).
#[derive(Debug, Clone, PartialEq)]
pub struct ConfigStoreCookiePacket {
    pub key: String,
    pub payload: PrefixedArray<u8>,
}

impl DeepView for ConfigStoreCookiePacket {
    type V = <ConfigStoreCookiePacketFields as DeepView>::V;

    open spec fn deep_view(&self) -> Self::V {
        (self.key.deep_view(), self.payload.deep_view())
    }
}

impl McSerialize for ConfigStoreCookiePacket {
    open spec fn spec_serialize(v: Self::V) -> Seq<u8> {
        ConfigStoreCookiePacketFields::spec_serialize(v)
    }

    open spec fn spec_can_serialize(v: Self::V) -> bool {
        ConfigStoreCookiePacketFields::spec_can_serialize(v)
    }

    fn mc_serialize(&self, serializer: &mut McSerializer) -> (r: Result<(), SerializingErr>) {
        let _ = self.key.mc_serialize(serializer);
        let _ = self.payload.mc_serialize(serializer);
        assert(serializer.output@ == old(serializer).output@ + Self::spec_serialize(self.deep_view()));
        Ok(())
    }
}

impl McDeserialize for ConfigStoreCookiePacket {
    open spec fn spec_deserialize(s: Seq<u8>) -> ParseResult<Self::V> {
        ConfigStoreCookiePacketFields::spec_deserialize(s)
    }

    proof fn lemma_deserialize_len(s: Seq<u8>) {
        ConfigStoreCookiePacketFields::lemma_deserialize_len(s);
    }

    fn mc_deserialize(deserializer: &mut McDeserializer) -> (r: Result<ConfigStoreCookiePacket, SerializingErr>) {
        let (key, payload) = ConfigStoreCookiePacketFields::mc_deserialize(deserializer)?;
        Ok(ConfigStoreCookiePacket { key, payload })
    }
}

impl McRoundTrip for ConfigStoreCookiePacket {
    open spec fn spec_well_formed(v: Self::V) -> bool {
        ConfigStoreCookiePacketFields::spec_well_formed(v)
    }

    proof fn lemma_round_trip(v: Self::V, rest: Seq<u8>) {
        ConfigStoreCookiePacketFields::lemma_round_trip(v, rest);
    }
}
impl ConfigStoreCookiePacket {
    pub fn new(key: String, payload: PrefixedArray<u8>) -> (p: Self)
        ensures
            p == (ConfigStoreCookiePacket { key, payload }),
    {
        ConfigStoreCookiePacket { key, payload }
    }
}

/// The fields of [`ConfigTransferPacket`] as they are sent, in order.
pub type ConfigTransferPacketFields = (String, VarInt);

/// The body of the ConfigTransfer packet (configuration state, to the client, id 0x0B).
#[derive(Debug, Clone, PartialEq)]
pub struct ConfigTransferPacket {
    pub host: String,
    pub port: VarInt,
}

impl DeepView for ConfigTransferPacket {
    type V = <ConfigTransferPacketFields as DeepView>::V;

    open spec fn deep_view(&self) -> Self::V {
        (self.host.deep_view(), self.port.deep_view())
    }
}

impl McSerialize for ConfigTransferPacket {
    open spec fn spec_serialize(v: Self::V) -> Seq<u8> {
        ConfigTransferPacketFields::spec_serialize(v)
    }

    open spec fn spec_can_serialize(v: Self::V) -> bool {
        ConfigTransferPacketFields::spec_can_serialize(v)
    }

    fn mc_serialize(&self, serializer: &mut McSerializer) -> (r: Result<(), SerializingErr>) {
        let _ = self.host.mc_serialize(serializer);
        let _ = self.port.mc_serialize(serializer);
        assert(serializer.output@ == old(serializer).output@ + Self::spec_serialize(self.deep_view()));
        Ok(())
    }
}

impl McDeserialize for ConfigTransferPacket {
    open spec fn spec_deserialize(s: Seq<u8>) -> ParseResult<Self::V> {
        ConfigTransferPacketFields::spec_deserialize(s)
    }

    proof fn lemma_deserialize_len(s: Seq<u8>) {
        ConfigTransferPacketFields::lemma_deserialize_len(s);
    }

    fn mc_deserialize(deserializer: &mut McDeserializer) -> (r: Result<ConfigTransferPacket, SerializingErr>) {
        let (host, port) = ConfigTransferPacketFields::mc_deserialize(deserializer)?;
        Ok(ConfigTransferPacket { host, port })
    }
}

impl McRoundTrip for ConfigTransferPacket {
    open spec fn spec_well_formed(v: Self::V) -> bool {
        ConfigTransferPacketFields::spec_well_formed(v)
    }

    proof fn lemma_round_trip(v: Self::V, rest: Seq<u8>) {
        ConfigTransferPacketFields::lemma_round_trip(v, rest);
    }
}
impl ConfigTransferPacket {
    pub fn new(host: String, port: VarInt) -> (p: Self)
        ensures
            p == (ConfigTransferPacket { host, port }),
    {
        ConfigTransferPacket { host, port }
    }
}

/// The fields of [`ClientboundKnownPacksPacket`] as they are sent, in order.
pub type ClientboundKnownPacksPacketFields = PrefixedArray<ResourcePackEntry>;

/// The body of the ClientboundKnownPacks packet (configuration state, to the client, id 0x0E).
#[derive(Debug, Clone, PartialEq)]
pub struct ClientboundKnownPacksPacket {
    pub entries: PrefixedArray<ResourcePackEntry>,
}

impl DeepView for ClientboundKnownPacksPacket {
    type V = <ClientboundKnownPacksPacketFields as DeepView>::V;

    open spec fn deep_view(&self) -> Self::V {
        self.entries.deep_view()
    }
}

impl McSerialize for ClientboundKnownPacksPacket {
    open spec fn spec_serialize(v: Self::V) -> Seq<u8> {
        ClientboundKnownPacksPacketFields::spec_serialize(v)
    }

    open spec fn spec_can_serialize(v: Self::V) -> bool {
        ClientboundKnownPacksPacketFields::spec_can_serialize(v)
    }

    fn mc_serialize(&self, serializer: &mut McSerializer) -> (r: Result<(), SerializingErr>) {
        let _ = self.entries.mc_serialize(serializer);
        Ok(())
    }
}

impl McDeserialize for ClientboundKnownPacksPacket {
    open spec fn spec_deserialize(s: Seq<u8>) -> ParseResult<Self::V> {
        ClientboundKnownPacksPacketFields::spec_deserialize(s)
    }

    proof fn lemma_deserialize_len(s: Seq<u8>) {
        ClientboundKnownPacksPacketFields::lemma_deserialize_len(s);
    }

    fn mc_deserialize(deserializer: &mut McDeserializer) -> (r: Result<ClientboundKnownPacksPacket, SerializingErr>) {
        let entries = ClientboundKnownPacksPacketFields::mc_deserialize(deserializer)?;
        Ok(ClientboundKnownPacksPacket { entries })
    }
}

impl McRoundTrip for ClientboundKnownPacksPacket {
    open spec fn spec_well_formed(v: Self::V) -> bool {
        ClientboundKnownPacksPacketFields::spec_well_formed(v)
    }

    proof fn lemma_round_trip(v: Self::V, rest: Seq<u8>) {
        ClientboundKnownPacksPacketFields::lemma_round_trip(v, rest);
    }
}
impl ClientboundKnownPacksPacket {
    pub fn new(entries: PrefixedArray<ResourcePackEntry>) -> (p: Self)
        ensures
            p == (ClientboundKnownPacksPacket { entries }),
    {
        ClientboundKnownPacksPacket { entries }
    }
}

/// The fields of [`ConfigCustomReportDetailsPacket`] as they are sent, in order.
pub type ConfigCustomReportDetailsPacketFields = PrefixedArray<CustomReportDetails>;

/// The body of the ConfigCustomReportDetails packet (configuration state, to the client, id 0x0F).
#[derive(Debug, Clone, PartialEq)]
pub struct ConfigCustomReportDetailsPacket {
    pub details: PrefixedArray<CustomReportDetails>,
}

impl DeepView for ConfigCustomReportDetailsPacket {
    type V = <ConfigCustomReportDetailsPacketFields as DeepView>::V;

    open spec fn deep_view(&self) -> Self::V {
        self.details.deep_view()
    }
}

impl McSerialize for ConfigCustomReportDetailsPacket {
    open spec fn spec_serialize(v: Self::V) -> Seq<u8> {
        ConfigCustomReportDetailsPacketFields::spec_serialize(v)
    }

    open spec fn spec_can_serialize(v: Self::V) -> bool {
        ConfigCustomReportDetailsPacketFields::spec_can_serialize(v)
    }

    fn mc_serialize(&self, serializer: &mut McSerializer) -> (r: Result<(), SerializingErr>) {
        let _ = self.details.mc_serialize(serializer);
        Ok(())
    }
}

impl McDeserialize for ConfigCustomReportDetailsPacket {
    open spec fn spec_deserialize(s: Seq<u8>) -> ParseResult<Self::V> {
        ConfigCustomReportDetailsPacketFields::spec_deserialize(s)
    }

    proof fn lemma_deserialize_len(s: Seq<u8>) {
        ConfigCustomReportDetailsPacketFields::lemma_deserialize_len(s);
    }

    fn mc_deserialize(deserializer: &mut McDeserializer) -> (r: Result<ConfigCustomReportDetailsPacket, SerializingErr>) {
        let details = ConfigCustomReportDetailsPacketFields::mc_deserialize(deserializer)?;
        Ok(ConfigCustomReportDetailsPacket { details })
    }
}

impl McRoundTrip for ConfigCustomReportDetailsPacket {
    open spec fn spec_well_formed(v: Self::V) -> bool {
        ConfigCustomReportDetailsPacketFields::spec_well_formed(v)
    }

    proof fn lemma_round_trip(v: Self::V, rest: Seq<u8>) {
        ConfigCustomReportDetailsPacketFields::lemma_round_trip(v, rest);
    }
}
impl ConfigCustomReportDetailsPacket {
    pub fn new(details: PrefixedArray<CustomReportDetails>) -> (p: Self)
        ensures
            p == (ConfigCustomReportDetailsPacket { details }),
    {
        ConfigCustomReportDetailsPacket { details }
    }
}

/// The fields of [`ClientInformationPacket`] as they are sent, in order.
pub type ClientInformationPacketFields = (String, (i8, (VarInt, (bool, (u8, (VarInt, (bool, (bool, VarInt))))))));

/// The body of the ClientInformation packet (configuration state, to the server, id 0x00).
#[derive(Debug, Clone, PartialEq)]
pub struct ClientInformationPacket {
    pub locale: String,
    pub view_distance: i8,
    pub chat_mode: VarInt,
    pub chat_colors: bool,
    pub displayed_skin_parts: u8,
    pub main_hand: VarInt,
    pub enable_text_filtering: bool,
    pub allow_server_listing: bool,
    pub particle_status: VarInt,
}

impl DeepView for ClientInformationPacket {
    type V = <ClientInformationPacketFields as DeepView>::V;

    open spec fn deep_view(&self) -> Self::V {
        (self.locale.deep_view(), (self.view_distance.deep_view(), (self.chat_mode.deep_view(), (self.chat_colors.deep_view(), (self.displayed_skin_parts.deep_view(), (self.main_hand.deep_view(), (self.enable_text_filtering.deep_view(), (self.allow_server_listing.deep_view(), self.particle_status.deep_view()))))))))
    }
}

impl McSerialize for ClientInformationPacket {
    open spec fn spec_serialize(v: Self::V) -> Seq<u8> {
        ClientInformationPacketFields::spec_serialize(v)
    }

    open spec fn spec_can_serialize(v: Self::V) -> bool {
        ClientInformationPacketFields::spec_can_serialize(v)
    }

    #[verifier::spinoff_prover]
    #[verifier::rlimit(100)]
    fn mc_serialize(&self, serializer: &mut McSerializer) -> (r: Result<(), SerializingErr>) {
        let ghost l0 = serializer.output@;
        let _ = self.locale.mc_serialize(serializer);
        let ghost l1 = serializer.output@;
        let _ = self.view_distance.mc_serialize(serializer);
        let ghost l2 = serializer.output@;
        let _ = self.chat_mode.mc_serialize(serializer);
        let ghost l3 = serializer.output@;
        let _ = self.chat_colors.mc_serialize(serializer);
        let ghost l4 = serializer.output@;
        let _ = self.displayed_skin_parts.mc_serialize(serializer);
        let ghost l5 = serializer.output@;
        let _ = self.main_hand.mc_serialize(serializer);
        let ghost l6 = serializer.output@;
        let _ = self.enable_text_filtering.mc_serialize(serializer);
        let ghost l7 = serializer.output@;
        let _ = self.allow_server_listing.mc_serialize(serializer);
        let ghost l8 = serializer.output@;
        let _ = self.particle_status.mc_serialize(serializer);
        let ghost l9 = serializer.output@;
        proof {
            vstd::seq_lib::lemma_concat_associative(l7, <bool as McSerialize>::spec_serialize(self.allow_server_listing.deep_view()), <VarInt as McSerialize>::spec_serialize(self.particle_status.deep_view()));
            assert(l9 == l7 + (<bool as McSerialize>::spec_serialize(self.allow_server_listing.deep_view()) + (<VarInt as McSerialize>::spec_serialize(self.particle_status.deep_view()))));
            vstd::seq_lib::lemma_concat_associative(l6, <bool as McSerialize>::spec_serialize(self.enable_text_filtering.deep_view()), <bool as McSerialize>::spec_serialize(self.allow_server_listing.deep_view()) + (<VarInt as McSerialize>::spec_serialize(self.particle_status.deep_view())));
            assert(l9 == l6 + (<bool as McSerialize>::spec_serialize(self.enable_text_filtering.deep_view()) + (<bool as McSerialize>::spec_serialize(self.allow_server_listing.deep_view()) + (<VarInt as McSerialize>::spec_serialize(self.particle_status.deep_view())))));
            vstd::seq_lib::lemma_concat_associative(l5, <VarInt as McSerialize>::spec_serialize(self.main_hand.deep_view()), <bool as McSerialize>::spec_serialize(self.enable_text_filtering.deep_view()) + (<bool as McSerialize>::spec_serialize(self.allow_server_listing.deep_view()) + (<VarInt as McSerialize>::spec_serialize(self.particle_status.deep_view()))));
            assert(l9 == l5 + (<VarInt as McSerialize>::spec_serialize(self.main_hand.deep_view()) + (<bool as McSerialize>::spec_serialize(self.enable_text_filtering.deep_view()) + (<bool as McSerialize>::spec_serialize(self.allow_server_listing.deep_view()) + (<VarInt as McSerialize>::spec_serialize(self.particle_status.deep_view()))))));
            vstd::seq_lib::lemma_concat_associative(l4, <u8 as McSerialize>::spec_serialize(self.displayed_skin_parts.deep_view()), <VarInt as McSerialize>::spec_serialize(self.main_hand.deep_view()) + (<bool as McSerialize>::spec_serialize(self.enable_text_filtering.deep_view()) + (<bool as McSerialize>::spec_serialize(self.allow_server_listing.deep_view()) + (<VarInt as McSerialize>::spec_serialize(self.particle_status.deep_view())))));
            assert(l9 == l4 + (<u8 as McSerialize>::spec_serialize(self.displayed_skin_parts.deep_view()) + (<VarInt as McSerialize>::spec_serialize(self.main_hand.deep_view()) + (<bool as McSerialize>::spec_serialize(self.enable_text_filtering.deep_view()) + (<bool as McSerialize>::spec_serialize(self.allow_server_listing.deep_view()) + (<VarInt as McSerialize>::spec_serialize(self.particle_status.deep_view())))))));
            vstd::seq_lib::lemma_concat_associative(l3, <bool as McSerialize>::spec_serialize(self.chat_colors.deep_view()), <u8 as McSerialize>::spec_serialize(self.displayed_skin_parts.deep_view()) + (<VarInt as McSerialize>::spec_serialize(self.main_hand.deep_view()) + (<bool as McSerialize>::spec_serialize(self.enable_text_filtering.deep_view()) + (<bool as McSerialize>::spec_serialize(self.allow_server_listing.deep_view()) + (<VarInt as McSerialize>::spec_serialize(self.particle_status.deep_view()))))));
            assert(l9 == l3 + (<bool as McSerialize>::spec_serialize(self.chat_colors.deep_view()) + (<u8 as McSerialize>::spec_serialize(self.displayed_skin_parts.deep_view()) + (<VarInt as McSerialize>::spec_serialize(self.main_hand.deep_view()) + (<bool as McSerialize>::spec_serialize(self.enable_text_filtering.deep_view()) + (<bool as McSerialize>::spec_serialize(self.allow_server_listing.deep_view()) + (<VarInt as McSerialize>::spec_serialize(self.particle_status.deep_view()))))))));
            vstd::seq_lib::lemma_concat_associative(l2, <VarInt as McSerialize>::spec_serialize(self.chat_mode.deep_view()), <bool as McSerialize>::spec_serialize(self.chat_colors.deep_view()) + (<u8 as McSerialize>::spec_serialize(self.displayed_skin_parts.deep_view()) + (<VarInt as McSerialize>::spec_serialize(self.main_hand.deep_view()) + (<bool as McSerialize>::spec_serialize(self.enable_text_filtering.deep_view()) + (<bool as McSerialize>::spec_serialize(self.allow_server_listing.deep_view()) + (<VarInt as McSerialize>::spec_serialize(self.particle_status.deep_view())))))));
            assert(l9 == l2 + (<VarInt as McSerialize>::spec_serialize(self.chat_mode.deep_view()) + (<bool as McSerialize>::spec_serialize(self.chat_colors.deep_view()) + (<u8 as McSerialize>::spec_serialize(self.displayed_skin_parts.deep_view()) + (<VarInt as McSerialize>::spec_serialize(self.main_hand.deep_view()) + (<bool as McSerialize>::spec_serialize(self.enable_text_filtering.deep_view()) + (<bool as McSerialize>::spec_serialize(self.allow_server_listing.deep_view()) + (<VarInt as McSerialize>::spec_serialize(self.particle_status.deep_view())))))))));
            vstd::seq_lib::lemma_concat_associative(l1, <i8 as McSerialize>::spec_serialize(self.view_distance.deep_view()), <VarInt as McSerialize>::spec_serialize(self.chat_mode.deep_view()) + (<bool as McSerialize>::spec_serialize(self.chat_colors.deep_view()) + (<u8 as McSerialize>::spec_serialize(self.displayed_skin_parts.deep_view()) + (<VarInt as McSerialize>::spec_serialize(self.main_hand.deep_view()) + (<bool as McSerialize>::spec_serialize(self.enable_text_filtering.deep_view()) + (<bool as McSerialize>::spec_serialize(self.allow_server_listing.deep_view()) + (<VarInt as McSerialize>::spec_serialize(self.particle_status.deep_view()))))))));
            assert(l9 == l1 + (<i8 as McSerialize>::spec_serialize(self.view_distance.deep_view()) + (<VarInt as McSerialize>::spec_serialize(self.chat_mode.deep_view()) + (<bool as McSerialize>::spec_serialize(self.chat_colors.deep_view()) + (<u8 as McSerialize>::spec_serialize(self.displayed_skin_parts.deep_view()) + (<VarInt as McSerialize>::spec_serialize(self.main_hand.deep_view()) + (<bool as McSerialize>::spec_serialize(self.enable_text_filtering.deep_view()) + (<bool as McSerialize>::spec_serialize(self.allow_server_listing.deep_view()) + (<VarInt as McSerialize>::spec_serialize(self.particle_status.deep_view()))))))))));
            vstd::seq_lib::lemma_concat_associative(l0, <String as McSerialize>::spec_serialize(self.locale.deep_view()), <i8 as McSerialize>::spec_serialize(self.view_distance.deep_view()) + (<VarInt as McSerialize>::spec_serialize(self.chat_mode.deep_view()) + (<bool as McSerialize>::spec_serialize(self.chat_colors.deep_view()) + (<u8 as McSerialize>::spec_serialize(self.displayed_skin_parts.deep_view()) + (<VarInt as McSerialize>::spec_serialize(self.main_hand.deep_view()) + (<bool as McSerialize>::spec_serialize(self.enable_text_filtering.deep_view()) + (<bool as McSerialize>::spec_serialize(self.allow_server_listing.deep_view()) + (<VarInt as McSerialize>::spec_serialize(self.particle_status.deep_view())))))))));
            assert(l9 == l0 + (<String as McSerialize>::spec_serialize(self.locale.deep_view()) + (<i8 as McSerialize>::spec_serialize(self.view_distance.deep_view()) + (<VarInt as McSerialize>::spec_serialize(self.chat_mode.deep_view()) + (<bool as McSerialize>::spec_serialize(self.chat_colors.deep_view()) + (<u8 as McSerialize>::spec_serialize(self.displayed_skin_parts.deep_view()) + (<VarInt as McSerialize>::spec_serialize(self.main_hand.deep_view()) + (<bool as McSerialize>::spec_serialize(self.enable_text_filtering.deep_view()) + (<bool as McSerialize>::spec_serialize(self.allow_server_listing.deep_view()) + (<VarInt as McSerialize>::spec_serialize(self.particle_status.deep_view())))))))))));
        }
        Ok(())
    }
}

impl McDeserialize for ClientInformationPacket {
    open spec fn spec_deserialize(s: Seq<u8>) -> ParseResult<Self::V> {
        ClientInformationPacketFields::spec_deserialize(s)
    }

    proof fn lemma_deserialize_len(s: Seq<u8>) {
        ClientInformationPacketFields::lemma_deserialize_len(s);
    }

    fn mc_deserialize(deserializer: &mut McDeserializer) -> (r: Result<ClientInformationPacket, SerializingErr>) {
        let (locale, (view_distance, (chat_mode, (chat_colors, (displayed_skin_parts, (main_hand, (enable_text_filtering, (allow_server_listing, particle_status)))))))) = ClientInformationPacketFields::mc_deserialize(deserializer)?;
        Ok(ClientInformationPacket { locale, view_distance, chat_mode, chat_colors, displayed_skin_parts, main_hand, enable_text_filtering, allow_server_listing, particle_status })
    }
}

impl McRoundTrip for ClientInformationPacket {
    open spec fn spec_well_formed(v: Self::V) -> bool {
        ClientInformationPacketFields::spec_well_formed(v)
    }

    proof fn lemma_round_trip(v: Self::V, rest: Seq<u8>) {
        ClientInformationPacketFields::lemma_round_trip(v, rest);
    }
}
impl ClientInformationPacket {
    pub fn new(locale: String, view_distance: i8, chat_mode: VarInt, chat_colors: bool, displayed_skin_parts: u8, main_hand: VarInt, enable_text_filtering: bool, allow_server_listing: bool, particle_status: VarInt) -> (p: Self)
        ensures
            p == (ClientInformationPacket { locale, view_distance, chat_mode, chat_colors, displayed_skin_parts, main_hand, enable_text_filtering, allow_server_listing, particle_status }),
    {
        ClientInformationPacket { locale, view_distance, chat_mode, chat_colors, displayed_skin_parts, main_hand, enable_text_filtering, allow_server_listing, particle_status }
    }
}

/// The fields of [`CookieResponsePacket`] as they are sent, in order.
pub type CookieResponsePacketFields = (String, PrefixedOptional<PrefixedArray<u8>>);

/// The body of the CookieResponse packet (configuration state, to the server, id 0x01).
#[derive(Debug, Clone, PartialEq)]
pub struct CookieResponsePacket {
    pub key: String,
    pub payload: PrefixedOptional<PrefixedArray<u8>>,
}

impl DeepView for CookieResponsePacket {
    type V = <CookieResponsePacketFields as DeepView>::V;

    open spec fn deep_view(&self) -> Self::V {
        (self.key.deep_view(), self.payload.deep_view())
    }
}

impl McSerialize for CookieResponsePacket {
    open spec fn spec_serialize(v: Self::V) -> Seq<u8> {
        CookieResponsePacketFields::spec_serialize(v)
    }

    open spec fn spec_can_serialize(v: Self::V) -> bool {
        CookieResponsePacketFields::spec_can_serialize(v)
    }

    fn mc_serialize(&self, serializer: &mut McSerializer) -> (r: Result<(), SerializingErr>) {
        let _ = self.key.mc_serialize(serializer);
        let _ = self.payload.mc_serialize(serializer);
        assert(serializer.output@ == old(serializer).output@ + Self::spec_serialize(self.deep_view()));
        Ok(())
    }
}

impl McDeserialize for CookieResponsePacket {
    open spec fn spec_deserialize(s: Seq<u8>) -> ParseResult<Self::V> {
        CookieResponsePacketFields::spec_deserialize(s)
    }

    proof fn lemma_deserialize_len(s: Seq<u8>) {
        CookieResponsePacketFields::lemma_deserialize_len(s);
    }

    fn mc_deserialize(deserializer: &mut McDeserializer) -> (r: Result<CookieResponsePacket, SerializingErr>) {
        let (key, payload) = CookieResponsePacketFields::mc_deserialize(deserializer)?;
        Ok(CookieResponsePacket { key, payload })
    }
}

impl McRoundTrip for CookieResponsePacket {
    open spec fn spec_well_formed(v: Self::V) -> bool {
        CookieResponsePacketFields::spec_well_formed(v)
    }

    proof fn lemma_round_trip(v: Self::V, rest: Seq<u8>) {
        CookieResponsePacketFields::lemma_round_trip(v, rest);
    }
}
impl CookieResponsePacket {
    pub fn new(key: String, payload: PrefixedOptional<PrefixedArray<u8>>) -> (p: Self)
        ensures
            p == (CookieResponsePacket { key, payload }),
    {
        CookieResponsePacket { key, payload }
    }
}

/// The fields of [`ServerboundPluginMessagePacket`] as they are sent, in order.
pub type ServerboundPluginMessagePacketFields = (String, Vec<u8>);

/// The body of the ServerboundPluginMessage packet (configuration state, to the server, id 0x02).
#[derive(Debug, Clone, PartialEq)]
pub struct ServerboundPluginMessagePacket {
    pub channel: String,
    pub data: Vec<u8>,
}

impl DeepView for ServerboundPluginMessagePacket {
    type V = <ServerboundPluginMessagePacketFields as DeepView>::V;

    open spec fn deep_view(&self) -> Self::V {
        (self.channel.deep_view(), self.data.deep_view())
    }
}

impl McSerialize for ServerboundPluginMessagePacket {
    open spec fn spec_serialize(v: Self::V) -> Seq<u8> {
        ServerboundPluginMessagePacketFields::spec_serialize(v)
    }

    open spec fn spec_can_serialize(v: Self::V) -> bool {
        ServerboundPluginMessagePacketFields::spec_can_serialize(v)
    }

    fn mc_serialize(&self, serializer: &mut McSerializer) -> (r: Result<(), SerializingErr>) {
        let _ = self.channel.mc_serialize(serializer);
        let _ = self.data.mc_serialize(serializer);
        assert(serializer.output@ == old(serializer).output@ + Self::spec_serialize(self.deep_view()));
        Ok(())
    }
}

impl McDeserialize for ServerboundPluginMessagePacket {
    open spec fn spec_deserialize(s: Seq<u8>) -> ParseResult<Self::V> {
        ServerboundPluginMessagePacketFields::spec_deserialize(s)
    }

    proof fn lemma_deserialize_len(s: Seq<u8>) {
        ServerboundPluginMessagePacketFields::lemma_deserialize_len(s);
    }

    fn mc_deserialize(deserializer: &mut McDeserializer) -> (r: Result<ServerboundPluginMessagePacket, SerializingErr>) {
        let (channel, data) = ServerboundPluginMessagePacketFields::mc_deserialize(deserializer)?;
        Ok(ServerboundPluginMessagePacket { channel, data })
    }
}
impl ServerboundPluginMessagePacket {
    pub fn new(channel: String, data: Vec<u8>) -> (p: Self)
        ensures
            p == (ServerboundPluginMessagePacket { channel, data }),
    {
        ServerboundPluginMessagePacket { channel, data }
    }
}

/// The body of the AcknowledgeFinishConfiguration packet (configuration state, to the server, id 0x03).
#[derive(Debug, Clone, PartialEq)]
pub struct AcknowledgeFinishConfigurationPacket {}

impl DeepView for AcknowledgeFinishConfigurationPacket {
    type V = ();

    open spec fn deep_view(&self) -> () {
        ()
    }
}

impl AcknowledgeFinishConfigurationPacket {
    pub fn new() -> (p: Self)
        ensures
            p == (AcknowledgeFinishConfigurationPacket {}),
    {
        AcknowledgeFinishConfigurationPacket {}
    }
}

impl McSerialize for AcknowledgeFinishConfigurationPacket {
    /// An empty body.
    open spec fn spec_serialize(v: ()) -> Seq<u8> {
        Seq::<u8>::empty()
    }

    open spec fn spec_can_serialize(v: ()) -> bool {
        true
    }

    fn mc_serialize(&self, serializer: &mut McSerializer) -> (r: Result<(), SerializingErr>) {
        assert(serializer.output@ + Seq::<u8>::empty() == serializer.output@);
        Ok(())
    }
}

impl McDeserialize for AcknowledgeFinishConfigurationPacket {
    open spec fn spec_deserialize(s: Seq<u8>) -> ParseResult<()> {
        Ok(((), 0nat))
    }

    proof fn lemma_deserialize_len(s: Seq<u8>) {
    }

    fn mc_deserialize(deserializer: &mut McDeserializer) -> (r: Result<AcknowledgeFinishConfigurationPacket, SerializingErr>) {
        Ok(AcknowledgeFinishConfigurationPacket {})
    }
}

impl McRoundTrip for AcknowledgeFinishConfigurationPacket {
    open spec fn spec_well_formed(v: ()) -> bool {
        true
    }

    proof fn lemma_round_trip(v: (), rest: Seq<u8>) {
        assert(Seq::<u8>::empty() + rest == rest);
    }
}

/// The fields of [`ServerboundKeepAliveConfigPacket`] as they are sent, in order.
pub type ServerboundKeepAliveConfigPacketFields = i64;

/// The body of the ServerboundKeepAliveConfig packet (configuration state, to the server, id 0x04).
#[derive(Debug, Clone, PartialEq)]
pub struct ServerboundKeepAliveConfigPacket {
    pub keep_alive_id: i64,
}

impl DeepView for ServerboundKeepAliveConfigPacket {
    type V = <ServerboundKeepAliveConfigPacketFields as DeepView>::V;

    open spec fn deep_view(&self) -> Self::V {
        self.keep_alive_id.deep_view()
    }
}

impl McSerialize for ServerboundKeepAliveConfigPacket {
    open spec fn spec_serialize(v: Self::V) -> Seq<u8> {
        ServerboundKeepAliveConfigPacketFields::spec_serialize(v)
    }

    open spec fn spec_can_serialize(v: Self::V) -> bool {
        ServerboundKeepAliveConfigPacketFields::spec_can_serialize(v)
    }

    fn mc_serialize(&self, serializer: &mut McSerializer) -> (r: Result<(), SerializingErr>) {
        let _ = self.keep_alive_id.mc_serialize(serializer);
        Ok(())
    }
}

impl McDeserialize for ServerboundKeepAliveConfigPacket {
    open spec fn spec_deserialize(s: Seq<u8>) -> ParseResult<Self::V> {
        ServerboundKeepAliveConfigPacketFields::spec_deserialize(s)
    }

    proof fn lemma_deserialize_len(s: Seq<u8>) {
        ServerboundKeepAliveConfigPacketFields::lemma_deserialize_len(s);
    }

    fn mc_deserialize(deserializer: &mut McDeserializer) -> (r: Result<ServerboundKeepAliveConfigPacket, SerializingErr>) {
        let keep_alive_id = ServerboundKeepAliveConfigPacketFields::mc_deserialize(deserializer)?;
        Ok(ServerboundKeepAliveConfigPacket { keep_alive_id })
    }
}

impl McRoundTrip for ServerboundKeepAliveConfigPacket {
    open spec fn spec_well_formed(v: Self::V) -> bool {
        ServerboundKeepAliveConfigPacketFields::spec_well_formed(v)
    }

    proof fn lemma_round_trip(v: Self::V, rest: Seq<u8>) {
        ServerboundKeepAliveConfigPacketFields::lemma_round_trip(v, rest);
    }
}
impl ServerboundKeepAliveConfigPacket {
    pub fn new(keep_alive_id: i64) -> (p: Self)
        ensures
            p == (ServerboundKeepAliveConfigPacket { keep_alive_id }),
    {
        ServerboundKeepAliveConfigPacket { keep_alive_id }
    }
}

/// The fields of [`ConfigPongPacket`] as they are sent, in order.
pub type ConfigPongPacketFields = i32;

/// The body of the ConfigPong packet (configuration state, to the server, id 0x05).
#[derive(Debug, Clone, PartialEq)]
pub struct ConfigPongPacket {
    pub id: i32,
}

impl DeepView for ConfigPongPacket {
    type V = <ConfigPongPacketFields as DeepView>::V;

    open spec fn deep_view(&self) -> Self::V {
        self.id.deep_view()
    }
}

impl McSerialize for ConfigPongPacket {
    open spec fn spec_serialize(v: Self::V) -> Seq<u8> {
        ConfigPongPacketFields::spec_serialize(v)
    }

    open spec fn spec_can_serialize(v: Self::V) -> bool {
        ConfigPongPacketFields::spec_can_serialize(v)
    }

    fn mc_serialize(&self, serializer: &mut McSerializer) -> (r: Result<(), SerializingErr>) {
        let _ = self.id.mc_serialize(serializer);
        Ok(())
    }
}

impl McDeserialize for ConfigPongPacket {
    open spec fn spec_deserialize(s: Seq<u8>) -> ParseResult<Self::V> {
        ConfigPongPacketFields::spec_deserialize(s)
    }

    proof fn lemma_deserialize_len(s: Seq<u8>) {
        ConfigPongPacketFields::lemma_deserialize_len(s);
    }

    fn mc_deserialize(deserializer: &mut McDeserializer) -> (r: Result<ConfigPongPacket, SerializingErr>) {
        let id = ConfigPongPacketFields::mc_deserialize(deserializer)?;
        Ok(ConfigPongPacket { id })
    }
}

impl McRoundTrip for ConfigPongPacket {
    open spec fn spec_well_formed(v: Self::V) -> bool {
        ConfigPongPacketFields::spec_well_formed(v)
    }

    proof fn lemma_round_trip(v: Self::V, rest: Seq<u8>) {
        ConfigPongPacketFields::lemma_round_trip(v, rest);
    }
}
impl ConfigPongPacket {
    pub fn new(id: i32) -> (p: Self)
        ensures
            p == (ConfigPongPacket { id }),
    {
        ConfigPongPacket { id }
    }
}

/// The fields of [`ServerboundKnownPacksPacket`] as they are sent, in order.
pub type ServerboundKnownPacksPacketFields = PrefixedArray<ResourcePackEntry>;

/// The body of the ServerboundKnownPacks packet (configuration state, to the server, id 0x07).
#[derive(Debug, Clone, PartialEq)]
pub struct ServerboundKnownPacksPacket {
    pub entries: PrefixedArray<ResourcePackEntry>,
}

impl DeepView for ServerboundKnownPacksPacket {
    type V = <ServerboundKnownPacksPacketFields as DeepView>::V;

    open spec fn deep_view(&self) -> Self::V {
        self.entries.deep_view()
    }
}

impl McSerialize for ServerboundKnownPacksPacket {
    open spec fn spec_serialize(v: Self::V) -> Seq<u8> {
        ServerboundKnownPacksPacketFields::spec_serialize(v)
    }

    open spec fn spec_can_serialize(v: Self::V) -> bool {
        ServerboundKnownPacksPacketFields::spec_can_serialize(v)
    }

    fn mc_serialize(&self, serializer: &mut McSerializer) -> (r: Result<(), SerializingErr>) {
        let _ = self.entries.mc_serialize(serializer);
        Ok(())
    }
}

impl McDeserialize for ServerboundKnownPacksPacket {
    open spec fn spec_deserialize(s: Seq<u8>) -> ParseResult<Self::V> {
        ServerboundKnownPacksPacketFields::spec_deserialize(s)
    }

    proof fn lemma_deserialize_len(s: Seq<u8>) {
        ServerboundKnownPacksPacketFields::lemma_deserialize_len(s);
    }

    fn mc_deserialize(deserializer: &mut McDeserializer) -> (r: Result<ServerboundKnownPacksPacket, SerializingErr>) {
        let entries = ServerboundKnownPacksPacketFields::mc_deserialize(deserializer)?;
        Ok(ServerboundKnownPacksPacket { entries })
    }
}

impl McRoundTrip for ServerboundKnownPacksPacket {
    open spec fn spec_well_formed(v: Self::V) -> bool {
        ServerboundKnownPacksPacketFields::spec_well_formed(v)
    }

    proof fn lemma_round_trip(v: Self::V, rest: Seq<u8>) {
        ServerboundKnownPacksPacketFields::lemma_round_trip(v, rest);
    }
}
impl ServerboundKnownPacksPacket {
    pub fn new(entries: PrefixedArray<ResourcePackEntry>) -> (p: Self)
        ensures
            p == (ServerboundKnownPacksPacket { entries }),
    {
        ServerboundKnownPacksPacket { entries }
    }
}

/// The fields of [`ConfigCustomClickActionPacket`] as they are sent, in order.
pub type ConfigCustomClickActionPacketFields = (String, NbtCompound);

/// The body of the ConfigCustomClickAction packet (configuration state, to the server, id 0x08).
#[derive(Debug, PartialEq)]
pub struct ConfigCustomClickActionPacket {
    pub id: String,
    pub payload: NbtCompound,
}

impl DeepView for ConfigCustomClickActionPacket {
    type V = <ConfigCustomClickActionPacketFields as DeepView>::V;

    open spec fn deep_view(&self) -> Self::V {
        (self.id.deep_view(), self.payload.deep_view())
    }
}

impl McSerialize for ConfigCustomClickActionPacket {
    open spec fn spec_serialize(v: Self::V) -> Seq<u8> {
        ConfigCustomClickActionPacketFields::spec_serialize(v)
    }

    open spec fn spec_can_serialize(v: Self::V) -> bool {
        ConfigCustomClickActionPacketFields::spec_can_serialize(v)
    }

    fn mc_serialize(&self, serializer: &mut McSerializer) -> (r: Result<(), SerializingErr>) {
        let _ = self.id.mc_serialize(serializer);
        let _ = self.payload.mc_serialize(serializer);
        assert(serializer.output@ == old(serializer).output@ + Self::spec_serialize(self.deep_view()));
        Ok(())
    }
}

impl McDeserialize for ConfigCustomClickActionPacket {
    open spec fn spec_deserialize(s: Seq<u8>) -> ParseResult<Self::V> {
        ConfigCustomClickActionPacketFields::spec_deserialize(s)
    }

    proof fn lemma_deserialize_len(s: Seq<u8>) {
        ConfigCustomClickActionPacketFields::lemma_deserialize_len(s);
    }

    fn mc_deserialize(deserializer: &mut McDeserializer) -> (r: Result<ConfigCustomClickActionPacket, SerializingErr>) {
        let (id, payload) = ConfigCustomClickActionPacketFields::mc_deserialize(deserializer)?;
        Ok(ConfigCustomClickActionPacket { id, payload })
    }
}

impl McRoundTrip for ConfigCustomClickActionPacket {
    open spec fn spec_well_formed(v: Self::V) -> bool {
        ConfigCustomClickActionPacketFields::spec_well_formed(v)
    }

    proof fn lemma_round_trip(v: Self::V, rest: Seq<u8>) {
        ConfigCustomClickActionPacketFields::lemma_round_trip(v, rest);
    }
}
impl ConfigCustomClickActionPacket {
    pub fn new(id: String, payload: NbtCompound) -> (p: Self)
        ensures
            p == (ConfigCustomClickActionPacket { id, payload }),
    {
        ConfigCustomClickActionPacket { id, payload }
    }
}

/// The body of the BundleDelimiter packet (play state, to the client, id 0x00).
#[derive(Debug, Clone, PartialEq)]
pub struct BundleDelimiterPacket {}

impl DeepView for BundleDelimiterPacket {
    type V = ();

    open spec fn deep_view(&self) -> () {
        ()
    }
}

impl BundleDelimiterPacket {
    pub fn new() -> (p: Self)
        ensures
            p == (BundleDelimiterPacket {}),
    {
        BundleDelimiterPacket {}
    }
}

impl McSerialize for BundleDelimiterPacket {
    /// An empty body.
    open spec fn spec_serialize(v: ()) -> Seq<u8> {
        Seq::<u8>::empty()
    }

    open spec fn spec_can_serialize(v: ()) -> bool {
        true
    }

    fn mc_serialize(&self, serializer: &mut McSerializer) -> (r: Result<(), SerializingErr>) {
        assert(serializer.output@ + Seq::<u8>::empty() == serializer.output@);
        Ok(())
    }
}

impl McDeserialize for BundleDelimiterPacket {
    open spec fn spec_deserialize(s: Seq<u8>) -> ParseResult<()> {
        Ok(((), 0nat))
    }

    proof fn lemma_deserialize_len(s: Seq<u8>) {
    }

    fn mc_deserialize(deserializer: &mut McDeserializer) -> (r: Result<BundleDelimiterPacket, SerializingErr>) {
        Ok(BundleDelimiterPacket {})
    }
}

impl McRoundTrip for BundleDelimiterPacket {
    open spec fn spec_well_formed(v: ()) -> bool {
        true
    }

    proof fn lemma_round_trip(v: (), rest: Seq<u8>) {
        assert(Seq::<u8>::empty() + rest == rest);
    }
}

/// The fields of [`EntityAnimationPacket`] as they are sent, in order.
pub type EntityAnimationPacketFields = (VarInt, u8);

/// The body of the EntityAnimation packet (play state, to the client, id 0x02).
#[derive(Debug, Clone, PartialEq)]
pub struct EntityAnimationPacket {
    pub entity_id: VarInt,
    pub animation: u8,
}

impl DeepView for EntityAnimationPacket {
    type V = <EntityAnimationPacketFields as DeepView>::V;

    open spec fn deep_view(&self) -> Self::V {
        (self.entity_id.deep_view(), self.animation.deep_view())
    }
}

impl McSerialize for EntityAnimationPacket {
    open spec fn spec_serialize(v: Self::V) -> Seq<u8> {
        EntityAnimationPacketFields::spec_serialize(v)
    }

    open spec fn spec_can_serialize(v: Self::V) -> bool {
        EntityAnimationPacketFields::spec_can_serialize(v)
    }

    fn mc_serialize(&self, serializer: &mut McSerializer) -> (r: Result<(), SerializingErr>) {
        let _ = self.entity_id.mc_serialize(serializer);
        let _ = self.animation.mc_serialize(serializer);
        assert(serializer.output@ == old(serializer).output@ + Self::spec_serialize(self.deep_view()));
        Ok(())
    }
}

impl McDeserialize for EntityAnimationPacket {
    open spec fn spec_deserialize(s: Seq<u8>) -> ParseResult<Self::V> {
        EntityAnimationPacketFields::spec_deserialize(s)
    }

    proof fn lemma_deserialize_len(s: Seq<u8>) {
        EntityAnimationPacketFields::lemma_deserialize_len(s);
    }

    fn mc_deserialize(deserializer: &mut McDeserializer) -> (r: Result<EntityAnimationPacket, SerializingErr>) {
        let (entity_id, animation) = EntityAnimationPacketFields::mc_deserialize(deserializer)?;
        Ok(EntityAnimationPacket { entity_id, animation })
    }
}

impl McRoundTrip for EntityAnimationPacket {
    open spec fn spec_well_formed(v: Self::V) -> bool {
        EntityAnimationPacketFields::spec_well_formed(v)
    }

    proof fn lemma_round_trip(v: Self::V, rest: Seq<u8>) {
        EntityAnimationPacketFields::lemma_round_trip(v, rest);
    }
}
impl EntityAnimationPacket {
    pub fn new(entity_id: VarInt, animation: u8) -> (p: Self)
        ensures
            p == (EntityAnimationPacket { entity_id, animation }),
    {
        EntityAnimationPacket { entity_id, animation }
    }
}

/// The fields of [`AwardStatisticsPacket`] as they are sent, in order.
pub type AwardStatisticsPacketFields = PrefixedArray<StatisticAward>;

/// The body of the AwardStatistics packet (play state, to the client, id 0x03).
#[derive(Debug, Clone, PartialEq)]
pub struct AwardStatisticsPacket {
    pub stats: PrefixedArray<StatisticAward>,
}

impl DeepView for AwardStatisticsPacket {
    type V = <AwardStatisticsPacketFields as DeepView>::V;

    open spec fn deep_view(&self) -> Self::V {
        self.stats.deep_view()
    }
}

impl McSerialize for AwardStatisticsPacket {
    open spec fn spec_serialize(v: Self::V) -> Seq<u8> {
        AwardStatisticsPacketFields::spec_serialize(v)
    }

    open spec fn spec_can_serialize(v: Self::V) -> bool {
        AwardStatisticsPacketFields::spec_can_serialize(v)
    }

    fn mc_serialize(&self, serializer: &mut McSerializer) -> (r: Result<(), SerializingErr>) {
        let _ = self.stats.mc_serialize(serializer);
        Ok(())
    }
}

impl McDeserialize for AwardStatisticsPacket {
    open spec fn spec_deserialize(s: Seq<u8>) -> ParseResult<Self::V> {
        AwardStatisticsPacketFields::spec_deserialize(s)
    }

    proof fn lemma_deserialize_len(s: Seq<u8>) {
        AwardStatisticsPacketFields::lemma_deserialize_len(s);
    }

    fn mc_deserialize(deserializer: &mut McDeserializer) -> (r: Result<AwardStatisticsPacket, SerializingErr>) {
        let stats = AwardStatisticsPacketFields::mc_deserialize(deserializer)?;
        Ok(AwardStatisticsPacket { stats })
    }
}

impl McRoundTrip for AwardStatisticsPacket {
    open spec fn spec_well_formed(v: Self::V) -> bool {
        AwardStatisticsPacketFields::spec_well_formed(v)
    }

    proof fn lemma_round_trip(v: Self::V, rest: Seq<u8>) {
        AwardStatisticsPacketFields::lemma_round_trip(v, rest);
    }
}
impl AwardStatisticsPacket {
    pub fn new(stats: PrefixedArray<StatisticAward>) -> (p: Self)
        ensures
            p == (AwardStatisticsPacket { stats }),
    {
        AwardStatisticsPacket { stats }
    }
}

/// The fields of [`AcknowledgeBlockChangePacket`] as they are sent, in order.
pub type AcknowledgeBlockChangePacketFields = VarInt;

/// The body of the AcknowledgeBlockChange packet (play state, to the client, id 0x04).
#[derive(Debug, Clone, PartialEq)]
pub struct AcknowledgeBlockChangePacket {
    pub sequence_id: VarInt,
}

impl DeepView for AcknowledgeBlockChangePacket {
    type V = <AcknowledgeBlockChangePacketFields as DeepView>::V;

    open spec fn deep_view(&self) -> Self::V {
        self.sequence_id.deep_view()
    }
}

impl McSerialize for AcknowledgeBlockChangePacket {
    open spec fn spec_serialize(v: Self::V) -> Seq<u8> {
        AcknowledgeBlockChangePacketFields::spec_serialize(v)
    }

    open spec fn spec_can_serialize(v: Self::V) -> bool {
        AcknowledgeBlockChangePacketFields::spec_can_serialize(v)
    }

    fn mc_serialize(&self, serializer: &mut McSerializer) -> (r: Result<(), SerializingErr>) {
        let _ = self.sequence_id.mc_serialize(serializer);
        Ok(())
    }
}

impl McDeserialize for AcknowledgeBlockChangePacket {
    open spec fn spec_deserialize(s: Seq<u8>) -> ParseResult<Self::V> {
        AcknowledgeBlockChangePacketFields::spec_deserialize(s)
    }

    proof fn lemma_deserialize_len(s: Seq<u8>) {
        AcknowledgeBlockChangePacketFields::lemma_deserialize_len(s);
    }

    fn mc_deserialize(deserializer: &mut McDeserializer) -> (r: Result<AcknowledgeBlockChangePacket, SerializingErr>) {
        let sequence_id = AcknowledgeBlockChangePacketFields::mc_deserialize(deserializer)?;
        Ok(AcknowledgeBlockChangePacket { sequence_id })
    }
}

impl McRoundTrip for AcknowledgeBlockChangePacket {
    open spec fn spec_well_formed(v: Self::V) -> bool {
        AcknowledgeBlockChangePacketFields::spec_well_formed(v)
    }

    proof fn lemma_round_trip(v: Self::V, rest: Seq<u8>) {
        AcknowledgeBlockChangePacketFields::lemma_round_trip(v, rest);
    }
}
impl AcknowledgeBlockChangePacket {
    pub fn new(sequence_id: VarInt) -> (p: Self)
        ensures
            p == (AcknowledgeBlockChangePacket { sequence_id }),
    {
        AcknowledgeBlockChangePacket { sequence_id }
    }
}

/// The fields of [`SetBlockDestroyStagePacket`] as they are sent, in order.
pub type SetBlockDestroyStagePacketFields = (VarInt, (Position, i8));

/// The body of the SetBlockDestroyStage packet (play state, to the client, id 0x05).
#[derive(Debug, Clone, PartialEq)]
pub struct SetBlockDestroyStagePacket {
    pub entity_id: VarInt,
    pub location: Position,
    pub destroy_stage: i8,
}

impl DeepView for SetBlockDestroyStagePacket {
    type V = <SetBlockDestroyStagePacketFields as DeepView>::V;

    open spec fn deep_view(&self) -> Self::V {
        (self.entity_id.deep_view(), (self.location.deep_view(), self.destroy_stage.deep_view()))
    }
}

impl McSerialize for SetBlockDestroyStagePacket {
    open spec fn spec_serialize(v: Self::V) -> Seq<u8> {
        SetBlockDestroyStagePacketFields::spec_serialize(v)
    }

    open spec fn spec_can_serialize(v: Self::V) -> bool {
        SetBlockDestroyStagePacketFields::spec_can_serialize(v)
    }

    fn mc_serialize(&self, serializer: &mut McSerializer) -> (r: Result<(), SerializingErr>) {
        let _ = self.entity_id.mc_serialize(serializer);
        let _ = self.location.mc_serialize(serializer);
        let _ = self.destroy_stage.mc_serialize(serializer);
        assert(serializer.output@ == old(serializer).output@ + Self::spec_serialize(self.deep_view()));
        Ok(())
    }
}

impl McDeserialize for SetBlockDestroyStagePacket {
    open spec fn spec_deserialize(s: Seq<u8>) -> ParseResult<Self::V> {
        SetBlockDestroyStagePacketFields::spec_deserialize(s)
    }

    proof fn lemma_deserialize_len(s: Seq<u8>) {
        SetBlockDestroyStagePacketFields::lemma_deserialize_len(s);
    }

    fn mc_deserialize(deserializer: &mut McDeserializer) -> (r: Result<SetBlockDestroyStagePacket, SerializingErr>) {
        let (entity_id, (location, destroy_stage)) = SetBlockDestroyStagePacketFields::mc_deserialize(deserializer)?;
        Ok(SetBlockDestroyStagePacket { entity_id, location, destroy_stage })
    }
}

impl McRoundTrip for SetBlockDestroyStagePacket {
    open spec fn spec_well_formed(v: Self::V) -> bool {
        SetBlockDestroyStagePacketFields::spec_well_formed(v)
    }

    proof fn lemma_round_trip(v: Self::V, rest: Seq<u8>) {
        SetBlockDestroyStagePacketFields::lemma_round_trip(v, rest);
    }
}
impl SetBlockDestroyStagePacket {
    pub fn new(entity_id: VarInt, location: Position, destroy_stage: i8) -> (p: Self)
        ensures
            p == (SetBlockDestroyStagePacket { entity_id, location, destroy_stage }),
    {
        SetBlockDestroyStagePacket { entity_id, location, destroy_stage }
    }
}

/// The fields of [`BlockActionPacket`] as they are sent, in order.
pub type BlockActionPacketFields = (Position, (u8, (u8, VarInt)));

/// The body of the BlockAction packet (play state, to the client, id 0x07).
#[derive(Debug, Clone, PartialEq)]
pub struct BlockActionPacket {
    pub location: Position,
    pub action_id: u8,
    pub action_param: u8,
    pub block_type: VarInt,
}

impl DeepView for BlockActionPacket {
    type V = <BlockActionPacketFields as DeepView>::V;

    open spec fn deep_view(&self) -> Self::V {
        (self.location.deep_view(), (self.action_id.deep_view(), (self.action_param.deep_view(), self.block_type.deep_view())))
    }
}

impl McSerialize for BlockActionPacket {
    open spec fn spec_serialize(v: Self::V) -> Seq<u8> {
        BlockActionPacketFields::spec_serialize(v)
    }

    open spec fn spec_can_serialize(v: Self::V) -> bool {
        BlockActionPacketFields::spec_can_serialize(v)
    }

    fn mc_serialize(&self, serializer: &mut McSerializer) -> (r: Result<(), SerializingErr>) {
        let _ = self.location.mc_serialize(serializer);
        let _ = self.action_id.mc_serialize(serializer);
        let _ = self.action_param.mc_serialize(serializer);
        let _ = self.block_type.mc_serialize(serializer);
        assert(serializer.output@ == old(serializer).output@ + Self::spec_serialize(self.deep_view()));
        Ok(())
    }
}

impl McDeserialize for BlockActionPacket {
    open spec fn spec_deserialize(s: Seq<u8>) -> ParseResult<Self::V> {
        BlockActionPacketFields::spec_deserialize(s)
    }

    proof fn lemma_deserialize_len(s: Seq<u8>) {
        BlockActionPacketFields::lemma_deserialize_len(s);
    }

    fn mc_deserialize(deserializer: &mut McDeserializer) -> (r: Result<BlockActionPacket, SerializingErr>) {
        let (location, (action_id, (action_param, block_type))) = BlockActionPacketFields::mc_deserialize(deserializer)?;
        Ok(BlockActionPacket { location, action_id, action_param, block_type })
    }
}

impl McRoundTrip for BlockActionPacket {
    open spec fn spec_well_formed(v: Self::V) -> bool {
        BlockActionPacketFields::spec_well_formed(v)
    }

    proof fn lemma_round_trip(v: Self::V, rest: Seq<u8>) {
        BlockActionPacketFields::lemma_round_trip(v, rest);
    }
}
impl BlockActionPacket {
    pub fn new(location: Position, action_id: u8, action_param: u8, block_type: VarInt) -> (p: Self)
        ensures
            p == (BlockActionPacket { location, action_id, action_param, block_type }),
    {
        BlockActionPacket { location, action_id, action_param, block_type }
    }
}

/// The fields of [`BlockUpdatePacket`] as they are sent, in order.
pub type BlockUpdatePacketFields = (Position, VarInt);

/// The body of the BlockUpdate packet (play state, to the client, id 0x08).
#[derive(Debug, Clone, PartialEq)]
pub struct BlockUpdatePacket {
    pub location: Position,
    pub block_id: VarInt,
}

impl DeepView for BlockUpdatePacket {
    type V = <BlockUpdatePacketFields as DeepView>::V;

    open spec fn deep_view(&self) -> Self::V {
        (self.location.deep_view(), self.block_id.deep_view())
    }
}

impl McSerialize for BlockUpdatePacket {
    open spec fn spec_serialize(v: Self::V) -> Seq<u8> {
        BlockUpdatePacketFields::spec_serialize(v)
    }

    open spec fn spec_can_serialize(v: Self::V) -> bool {
        BlockUpdatePacketFields::spec_can_serialize(v)
    }

    fn mc_serialize(&self, serializer: &mut McSerializer) -> (r: Result<(), SerializingErr>) {
        let _ = self.location.mc_serialize(serializer);
        let _ = self.block_id.mc_serialize(serializer);
        assert(serializer.output@ == old(serializer).output@ + Self::spec_serialize(self.deep_view()));
        Ok(())
    }
}

impl McDeserialize for BlockUpdatePacket {
    open spec fn spec_deserialize(s: Seq<u8>) -> ParseResult<Self::V> {
        BlockUpdatePacketFields::spec_deserialize(s)
    }

    proof fn lemma_deserialize_len(s: Seq<u8>) {
        BlockUpdatePacketFields::lemma_deserialize_len(s);
    }

    fn mc_deserialize(deserializer: &mut McDeserializer) -> (r: Result<BlockUpdatePacket, SerializingErr>) {
        let (location, block_id) = BlockUpdatePacketFields::mc_deserialize(deserializer)?;
        Ok(BlockUpdatePacket { location, block_id })
    }
}

impl McRoundTrip for BlockUpdatePacket {
    open spec fn spec_well_formed(v: Self::V) -> bool {
        BlockUpdatePacketFields::spec_well_formed(v)
    }

    proof fn lemma_round_trip(v: Self::V, rest: Seq<u8>) {
        BlockUpdatePacketFields::lemma_round_trip(v, rest);
    }
}
impl BlockUpdatePacket {
    pub fn new(location: Position, block_id: VarInt) -> (p: Self)
        ensures
            p == (BlockUpdatePacket { location, block_id }),
    {
        BlockUpdatePacket { location, block_id }
    }
}

/// The fields of [`ChunkBatchFinishedPacket`] as they are sent, in order.
pub type ChunkBatchFinishedPacketFields = VarInt;

/// The body of the ChunkBatchFinished packet (play state, to the client, id 0x0B).
#[derive(Debug, Clone, PartialEq)]
pub struct ChunkBatchFinishedPacket {
    pub size: VarInt,
}

impl DeepView for ChunkBatchFinishedPacket {
    type V = <ChunkBatchFinishedPacketFields as DeepView>::V;

    open spec fn deep_view(&self) -> Self::V {
        self.size.deep_view()
    }
}

impl McSerialize for ChunkBatchFinishedPacket {
    open spec fn spec_serialize(v: Self::V) -> Seq<u8> {
        ChunkBatchFinishedPacketFields::spec_serialize(v)
    }

    open spec fn spec_can_serialize(v: Self::V) -> bool {
        ChunkBatchFinishedPacketFields::spec_can_serialize(v)
    }

    fn mc_serialize(&self, serializer: &mut McSerializer) -> (r: Result<(), SerializingErr>) {
        let _ = self.size.mc_serialize(serializer);
        Ok(())
    }
}

impl McDeserialize for ChunkBatchFinishedPacket {
    open spec fn spec_deserialize(s: Seq<u8>) -> ParseResult<Self::V> {
        ChunkBatchFinishedPacketFields::spec_deserialize(s)
    }

    proof fn lemma_deserialize_len(s: Seq<u8>) {
        ChunkBatchFinishedPacketFields::lemma_deserialize_len(s);
    }

    fn mc_deserialize(deserializer: &mut McDeserializer) -> (r: Result<ChunkBatchFinishedPacket, SerializingErr>) {
        let size = ChunkBatchFinishedPacketFields::mc_deserialize(deserializer)?;
        Ok(ChunkBatchFinishedPacket { size })
    }
}

impl McRoundTrip for ChunkBatchFinishedPacket {
    open spec fn spec_well_formed(v: Self::V) -> bool {
        ChunkBatchFinishedPacketFields::spec_well_formed(v)
    }

    proof fn lemma_round_trip(v: Self::V, rest: Seq<u8>) {
        ChunkBatchFinishedPacketFields::lemma_round_trip(v, rest);
    }
}
impl ChunkBatchFinishedPacket {
    pub fn new(size: VarInt) -> (p: Self)
        ensures
            p == (ChunkBatchFinishedPacket { size }),
    {
        ChunkBatchFinishedPacket { size }
    }
}

/// The body of the ChunkBatchStart packet (play state, to the client, id 0x0C).
#[derive(Debug, Clone, PartialEq)]
pub struct ChunkBatchStartPacket {}

impl DeepView for ChunkBatchStartPacket {
    type V = ();

    open spec fn deep_view(&self) -> () {
        ()
    }
}

impl ChunkBatchStartPacket {
    pub fn new() -> (p: Self)
        ensures
            p == (ChunkBatchStartPacket {}),
    {
        ChunkBatchStartPacket {}
    }
}

impl McSerialize for ChunkBatchStartPacket {
    /// An empty body.
    open spec fn spec_serialize(v: ()) -> Seq<u8> {
        Seq::<u8>::empty()
    }

    open spec fn spec_can_serialize(v: ()) -> bool {
        true
    }

    fn mc_serialize(&self, serializer: &mut McSerializer) -> (r: Result<(), SerializingErr>) {
        assert(serializer.output@ + Seq::<u8>::empty() == serializer.output@);
        Ok(())
    }
}

impl McDeserialize for ChunkBatchStartPacket {
    open spec fn spec_deserialize(s: Seq<u8>) -> ParseResult<()> {
        Ok(((), 0nat))
    }

    proof fn lemma_deserialize_len(s: Seq<u8>) {
    }

    fn mc_deserialize(deserializer: &mut McDeserializer) -> (r: Result<ChunkBatchStartPacket, SerializingErr>) {
        Ok(ChunkBatchStartPacket {})
    }
}

impl McRoundTrip for ChunkBatchStartPacket {
    open spec fn spec_well_formed(v: ()) -> bool {
        true
    }

    proof fn lemma_round_trip(v: (), rest: Seq<u8>) {
        assert(Seq::<u8>::empty() + rest == rest);
    }
}

/// The fields of [`ChunkBiomesPacket`] as they are sent, in order.
pub type ChunkBiomesPacketFields = PrefixedArray<ChunkBiomeData>;

/// The body of the ChunkBiomes packet (play state, to the client, id 0x0D).
#[derive(Debug, Clone, PartialEq)]
pub struct ChunkBiomesPacket {
    pub chunk_biome_data: PrefixedArray<ChunkBiomeData>,
}

impl DeepView for ChunkBiomesPacket {
    type V = <ChunkBiomesPacketFields as DeepView>::V;

    open spec fn deep_view(&self) -> Self::V {
        self.chunk_biome_data.deep_view()
    }
}

impl McSerialize for ChunkBiomesPacket {
    open spec fn spec_serialize(v: Self::V) -> Seq<u8> {
        ChunkBiomesPacketFields::spec_serialize(v)
    }

    open spec fn spec_can_serialize(v: Self::V) -> bool {
        ChunkBiomesPacketFields::spec_can_serialize(v)
    }

    fn mc_serialize(&self, serializer: &mut McSerializer) -> (r: Result<(), SerializingErr>) {
        let _ = self.chunk_biome_data.mc_serialize(serializer);
        Ok(())
    }
}

impl McDeserialize for ChunkBiomesPacket {
    open spec fn spec_deserialize(s: Seq<u8>) -> ParseResult<Self::V> {
        ChunkBiomesPacketFields::spec_deserialize(s)
    }

    proof fn lemma_deserialize_len(s: Seq<u8>) {
        ChunkBiomesPacketFields::lemma_deserialize_len(s);
    }

    fn mc_deserialize(deserializer: &mut McDeserializer) -> (r: Result<ChunkBiomesPacket, SerializingErr>) {
        let chunk_biome_data = ChunkBiomesPacketFields::mc_deserialize(deserializer)?;
        Ok(ChunkBiomesPacket { chunk_biome_data })
    }
}

impl McRoundTrip for ChunkBiomesPacket {
    open spec fn spec_well_formed(v: Self::V) -> bool {
        ChunkBiomesPacketFields::spec_well_formed(v)
    }

    proof fn lemma_round_trip(v: Self::V, rest: Seq<u8>) {
        ChunkBiomesPacketFields::lemma_round_trip(v, rest);
    }
}
impl ChunkBiomesPacket {
    pub fn new(chunk_biome_data: PrefixedArray<ChunkBiomeData>) -> (p: Self)
        ensures
            p == (ChunkBiomesPacket { chunk_biome_data }),
    {
        ChunkBiomesPacket { chunk_biome_data }
    }
}

/// The fields of [`ClearTitlesPacket`] as they are sent, in order.
pub type ClearTitlesPacketFields = bool;

/// The body of the ClearTitles packet (play state, to the client, id 0x0E).
#[derive(Debug, Clone, PartialEq)]
pub struct ClearTitlesPacket {
    pub reset: bool,
}

impl DeepView for ClearTitlesPacket {
    type V = <ClearTitlesPacketFields as DeepView>::V;

    open spec fn deep_view(&self) -> Self::V {
        self.reset.deep_view()
    }
}

impl McSerialize for ClearTitlesPacket {
    open spec fn spec_serialize(v: Self::V) -> Seq<u8> {
        ClearTitlesPacketFields::spec_serialize(v)
    }

    open spec fn spec_can_serialize(v: Self::V) -> bool {
        ClearTitlesPacketFields::spec_can_serialize(v)
    }

    fn mc_serialize(&self, serializer: &mut McSerializer) -> (r: Result<(), SerializingErr>) {
        let _ = self.reset.mc_serialize(serializer);
        Ok(())
    }
}

impl McDeserialize for ClearTitlesPacket {
    open spec fn spec_deserialize(s: Seq<u8>) -> ParseResult<Self::V> {
        ClearTitlesPacketFields::spec_deserialize(s)
    }

    proof fn lemma_deserialize_len(s: Seq<u8>) {
        ClearTitlesPacketFields::lemma_deserialize_len(s);
    }

    fn mc_deserialize(deserializer: &mut McDeserializer) -> (r: Result<ClearTitlesPacket, SerializingErr>) {
        let reset = ClearTitlesPacketFields::mc_deserialize(deserializer)?;
        Ok(ClearTitlesPacket { reset })
    }
}

impl McRoundTrip for ClearTitlesPacket {
    open spec fn spec_well_formed(v: Self::V) -> bool {
        ClearTitlesPacketFields::spec_well_formed(v)
    }

    proof fn lemma_round_trip(v: Self::V, rest: Seq<u8>) {
        ClearTitlesPacketFields::lemma_round_trip(v, rest);
    }
}
impl ClearTitlesPacket {
    pub fn new(reset: bool) -> (p: Self)
        ensures
            p == (ClearTitlesPacket { reset }),
    {
        ClearTitlesPacket { reset }
    }
}

/// The fields of [`CloseContainerPacket`] as they are sent, in order.
pub type CloseContainerPacketFields = VarInt;

/// The body of the CloseContainer packet (play state, to the client, id 0x11).
#[derive(Debug, Clone, PartialEq)]
pub struct CloseContainerPacket {
    pub window_id: VarInt,
}

impl DeepView for CloseContainerPacket {
    type V = <CloseContainerPacketFields as DeepView>::V;

    open spec fn deep_view(&self) -> Self::V {
        self.window_id.deep_view()
    }
}

impl McSerialize for CloseContainerPacket {
    open spec fn spec_serialize(v: Self::V) -> Seq<u8> {
        CloseContainerPacketFields::spec_serialize(v)
    }

    open spec fn spec_can_serialize(v: Self::V) -> bool {
        CloseContainerPacketFields::spec_can_serialize(v)
    }

    fn mc_serialize(&self, serializer: &mut McSerializer) -> (r: Result<(), SerializingErr>) {
        let _ = self.window_id.mc_serialize(serializer);
        Ok(())
    }
}

impl McDeserialize for CloseContainerPacket {
    open spec fn spec_deserialize(s: Seq<u8>) -> ParseResult<Self::V> {
        CloseContainerPacketFields::spec_deserialize(s)
    }

    proof fn lemma_deserialize_len(s: Seq<u8>) {
        CloseContainerPacketFields::lemma_deserialize_len(s);
    }

    fn mc_deserialize(deserializer: &mut McDeserializer) -> (r: Result<CloseContainerPacket, SerializingErr>) {
        let window_id = CloseContainerPacketFields::mc_deserialize(deserializer)?;
        Ok(CloseContainerPacket { window_id })
    }
}

impl McRoundTrip for CloseContainerPacket {
    open spec fn spec_well_formed(v: Self::V) -> bool {
        CloseContainerPacketFields::spec_well_formed(v)
    }

    proof fn lemma_round_trip(v: Self::V, rest: Seq<u8>) {
        CloseContainerPacketFields::lemma_round_trip(v, rest);
    }
}
impl CloseContainerPacket {
    pub fn new(window_id: VarInt) -> (p: Self)
        ensures
            p == (CloseContainerPacket { window_id }),
    {
        CloseContainerPacket { window_id }
    }
}

/// The fields of [`SetContainerPropertyPacket`] as they are sent, in order.
pub type SetContainerPropertyPacketFields = (VarInt, (i16, i16));

/// The body of the SetContainerProperty packet (play state, to the client, id 0x13).
#[derive(Debug, Clone, PartialEq)]
pub struct SetContainerPropertyPacket {
    pub window_id: VarInt,
    pub property: i16,
    pub value: i16,
}

impl DeepView for SetContainerPropertyPacket {
    type V = <SetContainerPropertyPacketFields as DeepView>::V;

    open spec fn deep_view(&self) -> Self::V {
        (self.window_id.deep_view(), (self.property.deep_view(), self.value.deep_view()))
    }
}

impl McSerialize for SetContainerPropertyPacket {
    open spec fn spec_serialize(v: Self::V) -> Seq<u8> {
        SetContainerPropertyPacketFields::spec_serialize(v)
    }

    open spec fn spec_can_serialize(v: Self::V) -> bool {
        SetContainerPropertyPacketFields::spec_can_serialize(v)
    }

    fn mc_serialize(&self, serializer: &mut McSerializer) -> (r: Result<(), SerializingErr>) {
        let _ = self.window_id.mc_serialize(serializer);
        let _ = self.property.mc_serialize(serializer);
        let _ = self.value.mc_serialize(serializer);
        assert(serializer.output@ == old(serializer).output@ + Self::spec_serialize(self.deep_view()));
        Ok(())
    }
}

impl McDeserialize for SetContainerPropertyPacket {
    open spec fn spec_deserialize(s: Seq<u8>) -> ParseResult<Self::V> {
        SetContainerPropertyPacketFields::spec_deserialize(s)
    }

    proof fn lemma_deserialize_len(s: Seq<u8>) {
        SetContainerPropertyPacketFields::lemma_deserialize_len(s);
    }

    fn mc_deserialize(deserializer: &mut McDeserializer) -> (r: Result<SetContainerPropertyPacket, SerializingErr>) {
        let (window_id, (property, value)) = SetContainerPropertyPacketFields::mc_deserialize(deserializer)?;
        Ok(SetContainerPropertyPacket { window_id, property, value })
    }
}

impl McRoundTrip for SetContainerPropertyPacket {
    open spec fn spec_well_formed(v: Self::V) -> bool {
        SetContainerPropertyPacketFields::spec_well_formed(v)
    }

    proof fn lemma_round_trip(v: Self::V, rest: Seq<u8>) {
        SetContainerPropertyPacketFields::lemma_round_trip(v, rest);
    }
}
impl SetContainerPropertyPacket {
    pub fn new(window_id: VarInt, property: i16, value: i16) -> (p: Self)
        ensures
            p == (SetContainerPropertyPacket { window_id, property, value }),
    {
        SetContainerPropertyPacket { window_id, property, value }
    }
}

/// The fields of [`CookieRequestPlayPacket`] as they are sent, in order.
pub type CookieRequestPlayPacketFields = String;

/// The body of the CookieRequestPlay packet (play state, to the client, id 0x15).
#[derive(Debug, Clone, PartialEq)]
pub struct CookieRequestPlayPacket {
    pub key: String,
}

impl DeepView for CookieRequestPlayPacket {
    type V = <CookieRequestPlayPacketFields as DeepView>::V;

    open spec fn deep_view(&self) -> Self::V {
        self.key.deep_view()
    }
}

impl McSerialize for CookieRequestPlayPacket {
    open spec fn spec_serialize(v: Self::V) -> Seq<u8> {
        CookieRequestPlayPacketFields::spec_serialize(v)
    }

    open spec fn spec_can_serialize(v: Self::V) -> bool {
        CookieRequestPlayPacketFields::spec_can_serialize(v)
    }

    fn mc_serialize(&self, serializer: &mut McSerializer) -> (r: Result<(), SerializingErr>) {
        let _ = self.key.mc_serialize(serializer);
        Ok(())
    }
}

impl McDeserialize for CookieRequestPlayPacket {
    open spec fn spec_deserialize(s: Seq<u8>) -> ParseResult<Self::V> {
        CookieRequestPlayPacketFields::spec_deserialize(s)
    }

    proof fn lemma_deserialize_len(s: Seq<u8>) {
        CookieRequestPlayPacketFields::lemma_deserialize_len(s);
    }

    fn mc_deserialize(deserializer: &mut McDeserializer) -> (r: Result<CookieRequestPlayPacket, SerializingErr>) {
        let key = CookieRequestPlayPacketFields::mc_deserialize(deserializer)?;
        Ok(CookieRequestPlayPacket { key })
    }
}

impl McRoundTrip for CookieRequestPlayPacket {
    open spec fn spec_well_formed(v: Self::V) -> bool {
        CookieRequestPlayPacketFields::spec_well_formed(v)
    }

    proof fn lemma_round_trip(v: Self::V, rest: Seq<u8>) {
        CookieRequestPlayPacketFields::lemma_round_trip(v, rest);
    }
}
impl CookieRequestPlayPacket {
    pub fn new(key: String) -> (p: Self)
        ensures
            p == (CookieRequestPlayPacket { key }),
    {
        CookieRequestPlayPacket { key }
    }
}

/// The fields of [`SetCooldownPacket`] as they are sent, in order.
pub type SetCooldownPacketFields = (String, VarInt);

/// The body of the SetCooldown packet (play state, to the client, id 0x16).
#[derive(Debug, Clone, PartialEq)]
pub struct SetCooldownPacket {
    pub cooldown_group: String,
    pub cooldown_ticks: VarInt,
}

impl DeepView for SetCooldownPacket {
    type V = <SetCooldownPacketFields as DeepView>::V;

    open spec fn deep_view(&self) -> Self::V {
        (self.cooldown_group.deep_view(), self.cooldown_ticks.deep_view())
    }
}

impl McSerialize for SetCooldownPacket {
    open spec fn spec_serialize(v: Self::V) -> Seq<u8> {
        SetCooldownPacketFields::spec_serialize(v)
    }

    open spec fn spec_can_serialize(v: Self::V) -> bool {
        SetCooldownPacketFields::spec_can_serialize(v)
    }

    fn mc_serialize(&self, serializer: &mut McSerializer) -> (r: Result<(), SerializingErr>) {
        let _ = self.cooldown_group.mc_serialize(serializer);
        let _ = self.cooldown_ticks.mc_serialize(serializer);
        assert(serializer.output@ == old(serializer).output@ + Self::spec_serialize(self.deep_view()));
        Ok(())
    }
}

impl McDeserialize for SetCooldownPacket {
    open spec fn spec_deserialize(s: Seq<u8>) -> ParseResult<Self::V> {
        SetCooldownPacketFields::spec_deserialize(s)
    }

    proof fn lemma_deserialize_len(s: Seq<u8>) {
        SetCooldownPacketFields::lemma_deserialize_len(s);
    }

    fn mc_deserialize(deserializer: &mut McDeserializer) -> (r: Result<SetCooldownPacket, SerializingErr>) {
        let (cooldown_group, cooldown_ticks) = SetCooldownPacketFields::mc_deserialize(deserializer)?;
        Ok(SetCooldownPacket { cooldown_group, cooldown_ticks })
    }
}

impl McRoundTrip for SetCooldownPacket {
    open spec fn spec_well_formed(v: Self::V) -> bool {
        SetCooldownPacketFields::spec_well_formed(v)
    }

    proof fn lemma_round_trip(v: Self::V, rest: Seq<u8>) {
        SetCooldownPacketFields::lemma_round_trip(v, rest);
    }
}
impl SetCooldownPacket {
    pub fn new(cooldown_group: String, cooldown_ticks: VarInt) -> (p: Self)
        ensures
            p == (SetCooldownPacket { cooldown_group, cooldown_ticks }),
    {
        SetCooldownPacket { cooldown_group, cooldown_ticks }
    }
}

/// The fields of [`ChatSuggestionsPacket`] as they are sent, in order.
pub type ChatSuggestionsPacketFields = (VarInt, PrefixedArray<String>);

/// The body of the ChatSuggestions packet (play state, to the client, id 0x17).
#[derive(Debug, Clone, PartialEq)]
pub struct ChatSuggestionsPacket {
    pub action: VarInt,
    pub entries: PrefixedArray<String>,
}

impl DeepView for ChatSuggestionsPacket {
    type V = <ChatSuggestionsPacketFields as DeepView>::V;

    open spec fn deep_view(&self) -> Self::V {
        (self.action.deep_view(), self.entries.deep_view())
    }
}

impl McSerialize for ChatSuggestionsPacket {
    open spec fn spec_serialize(v: Self::V) -> Seq<u8> {
        ChatSuggestionsPacketFields::spec_serialize(v)
    }

    open spec fn spec_can_serialize(v: Self::V) -> bool {
        ChatSuggestionsPacketFields::spec_can_serialize(v)
    }

    fn mc_serialize(&self, serializer: &mut McSerializer) -> (r: Result<(), SerializingErr>) {
        let _ = self.action.mc_serialize(serializer);
        let _ = self.entries.mc_serialize(serializer);
        assert(serializer.output@ == old(serializer).output@ + Self::spec_serialize(self.deep_view()));
        Ok(())
    }
}

impl McDeserialize for ChatSuggestionsPacket {
    open spec fn spec_deserialize(s: Seq<u8>) -> ParseResult<Self::V> {
        ChatSuggestionsPacketFields::spec_deserialize(s)
    }

    proof fn lemma_deserialize_len(s: Seq<u8>) {
        ChatSuggestionsPacketFields::lemma_deserialize_len(s);
    }

    fn mc_deserialize(deserializer: &mut McDeserializer) -> (r: Result<ChatSuggestionsPacket, SerializingErr>) {
        let (action, entries) = ChatSuggestionsPacketFields::mc_deserialize(deserializer)?;
        Ok(ChatSuggestionsPacket { action, entries })
    }
}

impl McRoundTrip for ChatSuggestionsPacket {
    open spec fn spec_well_formed(v: Self::V) -> bool {
        ChatSuggestionsPacketFields::spec_well_formed(v)
    }

    proof fn lemma_round_trip(v: Self::V, rest: Seq<u8>) {
        ChatSuggestionsPacketFields::lemma_round_trip(v, rest);
    }
}
impl ChatSuggestionsPacket {
    pub fn new(action: VarInt, entries: PrefixedArray<String>) -> (p: Self)
        ensures
            p == (ChatSuggestionsPacket { action, entries }),
    {
        ChatSuggestionsPacket { action, entries }
    }
}

/// The fields of [`ClientboundPluginMessagePlayPacket`] as they are sent, in order.
pub type ClientboundPluginMessagePlayPacketFields = (String, Vec<u8>);

/// The body of the ClientboundPluginMessagePlay packet (play state, to the client, id 0x18).
#[derive(Debug, Clone, PartialEq)]
pub struct ClientboundPluginMessagePlayPacket {
    pub channel: String,
    pub data: Vec<u8>,
}

impl DeepView for ClientboundPluginMessagePlayPacket {
    type V = <ClientboundPluginMessagePlayPacketFields as DeepView>::V;

    open spec fn deep_view(&self) -> Self::V {
        (self.channel.deep_view(), self.data.deep_view())
    }
}

impl McSerialize for ClientboundPluginMessagePlayPacket {
    open spec fn spec_serialize(v: Self::V) -> Seq<u8> {
        ClientboundPluginMessagePlayPacketFields::spec_serialize(v)
    }

    open spec fn spec_can_serialize(v: Self::V) -> bool {
        ClientboundPluginMessagePlayPacketFields::spec_can_serialize(v)
    }

    fn mc_serialize(&self, serializer: &mut McSerializer) -> (r: Result<(), SerializingErr>) {
        let _ = self.channel.mc_serialize(serializer);
        let _ = self.data.mc_serialize(serializer);
        assert(serializer.output@ == old(serializer).output@ + Self::spec_serialize(self.deep_view()));
        Ok(())
    }
}

impl McDeserialize for ClientboundPluginMessagePlayPacket {
    open spec fn spec_deserialize(s: Seq<u8>) -> ParseResult<Self::V> {
        ClientboundPluginMessagePlayPacketFields::spec_deserialize(s)
    }

    proof fn lemma_deserialize_len(s: Seq<u8>) {
        ClientboundPluginMessagePlayPacketFields::lemma_deserialize_len(s);
    }

    fn mc_deserialize(deserializer: &mut McDeserializer) -> (r: Result<ClientboundPluginMessagePlayPacket, SerializingErr>) {
        let (channel, data) = ClientboundPluginMessagePlayPacketFields::mc_deserialize(deserializer)?;
        Ok(ClientboundPluginMessagePlayPacket { channel, data })
    }
}
impl ClientboundPluginMessagePlayPacket {
    pub fn new(channel: String, data: Vec<u8>) -> (p: Self)
        ensures
            p == (ClientboundPluginMessagePlayPacket { channel, data }),
    {
        ClientboundPluginMessagePlayPacket { channel, data }
    }
}

/// The fields of [`DebugSamplePacket`] as they are sent, in order.
pub type DebugSamplePacketFields = (PrefixedArray<i64>, DebugSampleType);

/// The body of the DebugSample packet (play state, to the client, id 0x1E).
#[derive(Debug, Clone, PartialEq)]
pub struct DebugSamplePacket {
    pub sample: PrefixedArray<i64>,
    pub sample_type: DebugSampleType,
}

impl DeepView for DebugSamplePacket {
    type V = <DebugSamplePacketFields as DeepView>::V;

    open spec fn deep_view(&self) -> Self::V {
        (self.sample.deep_view(), self.sample_type.deep_view())
    }
}

impl McSerialize for DebugSamplePacket {
    open spec fn spec_serialize(v: Self::V) -> Seq<u8> {
        DebugSamplePacketFields::spec_serialize(v)
    }

    open spec fn spec_can_serialize(v: Self::V) -> bool {
        DebugSamplePacketFields::spec_can_serialize(v)
    }

    fn mc_serialize(&self, serializer: &mut McSerializer) -> (r: Result<(), SerializingErr>) {
        let _ = self.sample.mc_serialize(serializer);
        let _ = self.sample_type.mc_serialize(serializer);
        assert(serializer.output@ == old(serializer).output@ + Self::spec_serialize(self.deep_view()));
        Ok(())
    }
}

impl McDeserialize for DebugSamplePacket {
    open spec fn spec_deserialize(s: Seq<u8>) -> ParseResult<Self::V> {
        DebugSamplePacketFields::spec_deserialize(s)
    }

    proof fn lemma_deserialize_len(s: Seq<u8>) {
        DebugSamplePacketFields::lemma_deserialize_len(s);
    }

    fn mc_deserialize(deserializer: &mut McDeserializer) -> (r: Result<DebugSamplePacket, SerializingErr>) {
        let (sample, sample_type) = DebugSamplePacketFields::mc_deserialize(deserializer)?;
        Ok(DebugSamplePacket { sample, sample_type })
    }
}

impl McRoundTrip for DebugSamplePacket {
    open spec fn spec_well_formed(v: Self::V) -> bool {
        DebugSamplePacketFields::spec_well_formed(v)
    }

    proof fn lemma_round_trip(v: Self::V, rest: Seq<u8>) {
        DebugSamplePacketFields::lemma_round_trip(v, rest);
    }
}
impl DebugSamplePacket {
    pub fn new(sample: PrefixedArray<i64>, sample_type: DebugSampleType) -> (p: Self)
        ensures
            p == (DebugSamplePacket { sample, sample_type }),
    {
        DebugSamplePacket { sample, sample_type }
    }
}

/// The fields of [`EntityEventPacket`] as they are sent, in order.
pub type EntityEventPacketFields = (i32, EntityStatusEnum);

/// The body of the EntityEvent packet (play state, to the client, id 0x22).
#[derive(Debug, Clone, PartialEq)]
pub struct EntityEventPacket {
    pub entity_id: i32,
    pub entity_status: EntityStatusEnum,
}

impl DeepView for EntityEventPacket {
    type V = <EntityEventPacketFields as DeepView>::V;

    open spec fn deep_view(&self) -> Self::V {
        (self.entity_id.deep_view(), self.entity_status.deep_view())
    }
}

impl McSerialize for EntityEventPacket {
    open spec fn spec_serialize(v: Self::V) -> Seq<u8> {
        EntityEventPacketFields::spec_serialize(v)
    }

    open spec fn spec_can_serialize(v: Self::V) -> bool {
        EntityEventPacketFields::spec_can_serialize(v)
    }

    fn mc_serialize(&self, serializer: &mut McSerializer) -> (r: Result<(), SerializingErr>) {
        let _ = self.entity_id.mc_serialize(serializer);
        let _ = self.entity_status.mc_serialize(serializer);
        assert(serializer.output@ == old(serializer).output@ + Self::spec_serialize(self.deep_view()));
        Ok(())
    }
}

impl McDeserialize for EntityEventPacket {
    open spec fn spec_deserialize(s: Seq<u8>) -> ParseResult<Self::V> {
        EntityEventPacketFields::spec_deserialize(s)
    }

    proof fn lemma_deserialize_len(s: Seq<u8>) {
        EntityEventPacketFields::lemma_deserialize_len(s);
    }

    fn mc_deserialize(deserializer: &mut McDeserializer) -> (r: Result<EntityEventPacket, SerializingErr>) {
        let (entity_id, entity_status) = EntityEventPacketFields::mc_deserialize(deserializer)?;
        Ok(EntityEventPacket { entity_id, entity_status })
    }
}

impl McRoundTrip for EntityEventPacket {
    open spec fn spec_well_formed(v: Self::V) -> bool {
        EntityEventPacketFields::spec_well_formed(v)
    }

    proof fn lemma_round_trip(v: Self::V, rest: Seq<u8>) {
        EntityEventPacketFields::lemma_round_trip(v, rest);
    }
}
impl EntityEventPacket {
    pub fn new(entity_id: i32, entity_status: EntityStatusEnum) -> (p: Self)
        ensures
            p == (EntityEventPacket { entity_id, entity_status }),
    {
        EntityEventPacket { entity_id, entity_status }
    }
}

/// The fields of [`TeleportEntityPacket`] as they are sent, in order.
pub type TeleportEntityPacketFields = (VarInt, (u64, (u64, (u64, (u64, (u64, (u64, (u32, (u32, bool)))))))));

/// The body of the TeleportEntity packet (play state, to the client, id 0x23).
#[derive(Debug, Clone, PartialEq)]
pub struct TeleportEntityPacket {
    pub entity_id: VarInt,
    pub x: u64,
    pub y: u64,
    pub z: u64,
    pub velocity_x: u64,
    pub velocity_y: u64,
    pub velocity_z: u64,
    pub yaw: u32,
    pub pitch: u32,
    pub on_ground: bool,
}

impl DeepView for TeleportEntityPacket {
    type V = <TeleportEntityPacketFields as DeepView>::V;

    open spec fn deep_view(&self) -> Self::V {
        (self.entity_id.deep_view(), (self.x.deep_view(), (self.y.deep_view(), (self.z.deep_view(), (self.velocity_x.deep_view(), (self.velocity_y.deep_view(), (self.velocity_z.deep_view(), (self.yaw.deep_view(), (self.pitch.deep_view(), self.on_ground.deep_view())))))))))
    }
}

impl McSerialize for TeleportEntityPacket {
    open spec fn spec_serialize(v: Self::V) -> Seq<u8> {
        TeleportEntityPacketFields::spec_serialize(v)
    }

    open spec fn spec_can_serialize(v: Self::V) -> bool {
        TeleportEntityPacketFields::spec_can_serialize(v)
    }

    #[verifier::spinoff_prover]
    #[verifier::rlimit(100)]
    fn mc_serialize(&self, serializer: &mut McSerializer) -> (r: Result<(), SerializingErr>) {
        let ghost l0 = serializer.output@;
        let _ = self.entity_id.mc_serialize(serializer);
        let ghost l1 = serializer.output@;
        let _ = self.x.mc_serialize(serializer);
        let ghost l2 = serializer.output@;
        let _ = self.y.mc_serialize(serializer);
        let ghost l3 = serializer.output@;
        let _ = self.z.mc_serialize(serializer);
        let ghost l4 = serializer.output@;
        let _ = self.velocity_x.mc_serialize(serializer);
        let ghost l5 = serializer.output@;
        let _ = self.velocity_y.mc_serialize(serializer);
        let ghost l6 = serializer.output@;
        let _ = self.velocity_z.mc_serialize(serializer);
        let ghost l7 = serializer.output@;
        let _ = self.yaw.mc_serialize(serializer);
        let ghost l8 = serializer.output@;
        let _ = self.pitch.mc_serialize(serializer);
        let ghost l9 = serializer.output@;
        let _ = self.on_ground.mc_serialize(serializer);
        let ghost l10 = serializer.output@;
        proof {
            vstd::seq_lib::lemma_concat_associative(l8, <u32 as McSerialize>::spec_serialize(self.pitch.deep_view()), <bool as McSerialize>::spec_serialize(self.on_ground.deep_view()));
            assert(l10 == l8 + (<u32 as McSerialize>::spec_serialize(self.pitch.deep_view()) + (<bool as McSerialize>::spec_serialize(self.on_ground.deep_view()))));
            vstd::seq_lib::lemma_concat_associative(l7, <u32 as McSerialize>::spec_serialize(self.yaw.deep_view()), <u32 as McSerialize>::spec_serialize(self.pitch.deep_view()) + (<bool as McSerialize>::spec_serialize(self.on_ground.deep_view())));
            assert(l10 == l7 + (<u32 as McSerialize>::spec_serialize(self.yaw.deep_view()) + (<u32 as McSerialize>::spec_serialize(self.pitch.deep_view()) + (<bool as McSerialize>::spec_serialize(self.on_ground.deep_view())))));
            vstd::seq_lib::lemma_concat_associative(l6, <u64 as McSerialize>::spec_serialize(self.velocity_z.deep_view()), <u32 as McSerialize>::spec_serialize(self.yaw.deep_view()) + (<u32 as McSerialize>::spec_serialize(self.pitch.deep_view()) + (<bool as McSerialize>::spec_serialize(self.on_ground.deep_view()))));
            assert(l10 == l6 + (<u64 as McSerialize>::spec_serialize(self.velocity_z.deep_view()) + (<u32 as McSerialize>::spec_serialize(self.yaw.deep_view()) + (<u32 as McSerialize>::spec_serialize(self.pitch.deep_view()) + (<bool as McSerialize>::spec_serialize(self.on_ground.deep_view()))))));
            vstd::seq_lib::lemma_concat_associative(l5, <u64 as McSerialize>::spec_serialize(self.velocity_y.deep_view()), <u64 as McSerialize>::spec_serialize(self.velocity_z.deep_view()) + (<u32 as McSerialize>::spec_serialize(self.yaw.deep_view()) + (<u32 as McSerialize>::spec_serialize(self.pitch.deep_view()) + (<bool as McSerialize>::spec_serialize(self.on_ground.deep_view())))));
            assert(l10 == l5 + (<u64 as McSerialize>::spec_serialize(self.velocity_y.deep_view()) + (<u64 as McSerialize>::spec_serialize(self.velocity_z.deep_view()) + (<u32 as McSerialize>::spec_serialize(self.yaw.deep_view()) + (<u32 as McSerialize>::spec_serialize(self.pitch.deep_view()) + (<bool as McSerialize>::spec_serialize(self.on_ground.deep_view())))))));
            vstd::seq_lib::lemma_concat_associative(l4, <u64 as McSerialize>::spec_serialize(self.velocity_x.deep_view()), <u64 as McSerialize>::spec_serialize(self.velocity_y.deep_view()) + (<u64 as McSerialize>::spec_serialize(self.velocity_z.deep_view()) + (<u32 as McSerialize>::spec_serialize(self.yaw.deep_view()) + (<u32 as McSerialize>::spec_serialize(self.pitch.deep_view()) + (<bool as McSerialize>::spec_serialize(self.on_ground.deep_view()))))));
            assert(l10 == l4 + (<u64 as McSerialize>::spec_serialize(self.velocity_x.deep_view()) + (<u64 as McSerialize>::spec_serialize(self.velocity_y.deep_view()) + (<u64 as McSerialize>::spec_serialize(self.velocity_z.deep_view()) + (<u32 as McSerialize>::spec_serialize(self.yaw.deep_view()) + (<u32 as McSerialize>::spec_serialize(self.pitch.deep_view()) + (<bool as McSerialize>::spec_serialize(self.on_ground.deep_view()))))))));
            vstd::seq_lib::lemma_concat_associative(l3, <u64 as McSerialize>::spec_serialize(self.z.deep_view()), <u64 as McSerialize>::spec_serialize(self.velocity_x.deep_view()) + (<u64 as McSerialize>::spec_serialize(self.velocity_y.deep_view()) + (<u64 as McSerialize>::spec_serialize(self.velocity_z.deep_view()) + (<u32 as McSerialize>::spec_serialize(self.yaw.deep_view()) + (<u32 as McSerialize>::spec_serialize(self.pitch.deep_view()) + (<bool as McSerialize>::spec_serialize(self.on_ground.deep_view())))))));
            assert(l10 == l3 + (<u64 as McSerialize>::spec_serialize(self.z.deep_view()) + (<u64 as McSerialize>::spec_serialize(self.velocity_x.deep_view()) + (<u64 as McSerialize>::spec_serialize(self.velocity_y.deep_view()) + (<u64 as McSerialize>::spec_serialize(self.velocity_z.deep_view()) + (<u32 as McSerialize>::spec_serialize(self.yaw.deep_view()) + (<u32 as McSerialize>::spec_serialize(self.pitch.deep_view()) + (<bool as McSerialize>::spec_serialize(self.on_ground.deep_view())))))))));
            vstd::seq_lib::lemma_concat_associative(l2, <u64 as McSerialize>::spec_serialize(self.y.deep_view()), <u64 as McSerialize>::spec_serialize(self.z.deep_view()) + (<u64 as McSerialize>::spec_serialize(self.velocity_x.deep_view()) + (<u64 as McSerialize>::spec_serialize(self.velocity_y.deep_view()) + (<u64 as McSerialize>::spec_serialize(self.velocity_z.deep_view()) + (<u32 as McSerialize>::spec_serialize(self.yaw.deep_view()) + (<u32 as McSerialize>::spec_serialize(self.pitch.deep_view()) + (<bool as McSerialize>::spec_serialize(self.on_ground.deep_view()))))))));
            assert(l10 == l2 + (<u64 as McSerialize>::spec_serialize(self.y.deep_view()) + (<u64 as McSerialize>::spec_serialize(self.z.deep_view()) + (<u64 as McSerialize>::spec_serialize(self.velocity_x.deep_view()) + (<u64 as McSerialize>::spec_serialize(self.velocity_y.deep_view()) + (<u64 as McSerialize>::spec_serialize(self.velocity_z.deep_view()) + (<u32 as McSerialize>::spec_serialize(self.yaw.deep_view()) + (<u32 as McSerialize>::spec_serialize(self.pitch.deep_view()) + (<bool as McSerialize>::spec_serialize(self.on_ground.deep_view()))))))))));
            vstd::seq_lib::lemma_concat_associative(l1, <u64 as McSerialize>::spec_serialize(self.x.deep_view()), <u64 as McSerialize>::spec_serialize(self.y.deep_view()) + (<u64 as McSerialize>::spec_serialize(self.z.deep_view()) + (<u64 as McSerialize>::spec_serialize(self.velocity_x.deep_view()) + (<u64 as McSerialize>::spec_serialize(self.velocity_y.deep_view()) + (<u64 as McSerialize>::spec_serialize(self.velocity_z.deep_view()) + (<u32 as McSerialize>::spec_serialize(self.yaw.deep_view()) + (<u32 as McSerialize>::spec_serialize(self.pitch.deep_view()) + (<bool as McSerialize>::spec_serialize(self.on_ground.deep_view())))))))));
            assert(l10 == l1 + (<u64 as McSerialize>::spec_serialize(self.x.deep_view()) + (<u64 as McSerialize>::spec_serialize(self.y.deep_view()) + (<u64 as McSerialize>::spec_serialize(self.z.deep_view()) + (<u64 as McSerialize>::spec_serialize(self.velocity_x.deep_view()) + (<u64 as McSerialize>::spec_serialize(self.velocity_y.deep_view()) + (<u64 as McSerialize>::spec_serialize(self.velocity_z.deep_view()) + (<u32 as McSerialize>::spec_serialize(self.yaw.deep_view()) + (<u32 as McSerialize>::spec_serialize(self.pitch.deep_view()) + (<bool as McSerialize>::spec_serialize(self.on_ground.deep_view())))))))))));
            vstd::seq_lib::lemma_concat_associative(l0, <VarInt as McSerialize>::spec_serialize(self.entity_id.deep_view()), <u64 as McSerialize>::spec_serialize(self.x.deep_view()) + (<u64 as McSerialize>::spec_serialize(self.y.deep_view()) + (<u64 as McSerialize>::spec_serialize(self.z.deep_view()) + (<u64 as McSerialize>::spec_serialize(self.velocity_x.deep_view()) + (<u64 as McSerialize>::spec_serialize(self.velocity_y.deep_view()) + (<u64 as McSerialize>::spec_serialize(self.velocity_z.deep_view()) + (<u32 as McSerialize>::spec_serialize(self.yaw.deep_view()) + (<u32 as McSerialize>::spec_serialize(self.pitch.deep_view()) + (<bool as McSerialize>::spec_serialize(self.on_ground.deep_view()))))))))));
            assert(l10 == l0 + (<VarInt as McSerialize>::spec_serialize(self.entity_id.deep_view()) + (<u64 as McSerialize>::spec_serialize(self.x.deep_view()) + (<u64 as McSerialize>::spec_serialize(self.y.deep_view()) + (<u64 as McSerialize>::spec_serialize(self.z.deep_view()) + (<u64 as McSerialize>::spec_serialize(self.velocity_x.deep_view()) + (<u64 as McSerialize>::spec_serialize(self.velocity_y.deep_view()) + (<u64 as McSerialize>::spec_serialize(self.velocity_z.deep_view()) + (<u32 as McSerialize>::spec_serialize(self.yaw.deep_view()) + (<u32 as McSerialize>::spec_serialize(self.pitch.deep_view()) + (<bool as McSerialize>::spec_serialize(self.on_ground.deep_view()))))))))))));
        }
        Ok(())
    }
}

impl McDeserialize for TeleportEntityPacket {
    open spec fn spec_deserialize(s: Seq<u8>) -> ParseResult<Self::V> {
        TeleportEntityPacketFields::spec_deserialize(s)
    }

    proof fn lemma_deserialize_len(s: Seq<u8>) {
        TeleportEntityPacketFields::lemma_deserialize_len(s);
    }

    fn mc_deserialize(deserializer: &mut McDeserializer) -> (r: Result<TeleportEntityPacket, SerializingErr>) {
        let (entity_id, (x, (y, (z, (velocity_x, (velocity_y, (velocity_z, (yaw, (pitch, on_ground))))))))) = TeleportEntityPacketFields::mc_deserialize(deserializer)?;
        Ok(TeleportEntityPacket { entity_id, x, y, z, velocity_x, velocity_y, velocity_z, yaw, pitch, on_ground })
    }
}

impl McRoundTrip for TeleportEntityPacket {
    open spec fn spec_well_formed(v: Self::V) -> bool {
        TeleportEntityPacketFields::spec_well_formed(v)
    }

    proof fn lemma_round_trip(v: Self::V, rest: Seq<u8>) {
        TeleportEntityPacketFields::lemma_round_trip(v, rest);
    }
}
impl TeleportEntityPacket {
    pub fn new(entity_id: VarInt, x: u64, y: u64, z: u64, velocity_x: u64, velocity_y: u64, velocity_z: u64, yaw: u32, pitch: u32, on_ground: bool) -> (p: Self)
        ensures
            p == (TeleportEntityPacket { entity_id, x, y, z, velocity_x, velocity_y, velocity_z, yaw, pitch, on_ground }),
    {
        TeleportEntityPacket { entity_id, x, y, z, velocity_x, velocity_y, velocity_z, yaw, pitch, on_ground }
    }
}

/// The fields of [`UnloadChunkPacket`] as they are sent, in order.
pub type UnloadChunkPacketFields = (i32, i32);

/// The body of the UnloadChunk packet (play state, to the client, id 0x25).
#[derive(Debug, Clone, PartialEq)]
pub struct UnloadChunkPacket {
    pub z: i32,
    pub x: i32,
}

impl DeepView for UnloadChunkPacket {
    type V = <UnloadChunkPacketFields as DeepView>::V;

    open spec fn deep_view(&self) -> Self::V {
        (self.z.deep_view(), self.x.deep_view())
    }
}

impl McSerialize for UnloadChunkPacket {
    open spec fn spec_serialize(v: Self::V) -> Seq<u8> {
        UnloadChunkPacketFields::spec_serialize(v)
    }

    open spec fn spec_can_serialize(v: Self::V) -> bool {
        UnloadChunkPacketFields::spec_can_serialize(v)
    }

    fn mc_serialize(&self, serializer: &mut McSerializer) -> (r: Result<(), SerializingErr>) {
        let _ = self.z.mc_serialize(serializer);
        let _ = self.x.mc_serialize(serializer);
        assert(serializer.output@ == old(serializer).output@ + Self::spec_serialize(self.deep_view()));
        Ok(())
    }
}

impl McDeserialize for UnloadChunkPacket {
    open spec fn spec_deserialize(s: Seq<u8>) -> ParseResult<Self::V> {
        UnloadChunkPacketFields::spec_deserialize(s)
    }

    proof fn lemma_deserialize_len(s: Seq<u8>) {
        UnloadChunkPacketFields::lemma_deserialize_len(s);
    }

    fn mc_deserialize(deserializer: &mut McDeserializer) -> (r: Result<UnloadChunkPacket, SerializingErr>) {
        let (z, x) = UnloadChunkPacketFields::mc_deserialize(deserializer)?;
        Ok(UnloadChunkPacket { z, x })
    }
}

impl McRoundTrip for UnloadChunkPacket {
    open spec fn spec_well_formed(v: Self::V) -> bool {
        UnloadChunkPacketFields::spec_well_formed(v)
    }

    proof fn lemma_round_trip(v: Self::V, rest: Seq<u8>) {
        UnloadChunkPacketFields::lemma_round_trip(v, rest);
    }
}
impl UnloadChunkPacket {
    pub fn new(z: i32, x: i32) -> (p: Self)
        ensures
            p == (UnloadChunkPacket { z, x }),
    {
        UnloadChunkPacket { z, x }
    }
}

/// The fields of [`GameEventPacket`] as they are sent, in order.
pub type GameEventPacketFields = (GameEventType, u32);

/// The body of the GameEvent packet (play state, to the client, id 0x26).
#[derive(Debug, Clone, PartialEq)]
pub struct GameEventPacket {
    pub event: GameEventType,
    pub value: u32,
}

impl DeepView for GameEventPacket {
    type V = <GameEventPacketFields as DeepView>::V;

    open spec fn deep_view(&self) -> Self::V {
        (self.event.deep_view(), self.value.deep_view())
    }
}

impl McSerialize for GameEventPacket {
    open spec fn spec_serialize(v: Self::V) -> Seq<u8> {
        GameEventPacketFields::spec_serialize(v)
    }

    open spec fn spec_can_serialize(v: Self::V) -> bool {
        GameEventPacketFields::spec_can_serialize(v)
    }

    fn mc_serialize(&self, serializer: &mut McSerializer) -> (r: Result<(), SerializingErr>) {
        let _ = self.event.mc_serialize(serializer);
        let _ = self.value.mc_serialize(serializer);
        assert(serializer.output@ == old(serializer).output@ + Self::spec_serialize(self.deep_view()));
        Ok(())
    }
}

impl McDeserialize for GameEventPacket {
    open spec fn spec_deserialize(s: Seq<u8>) -> ParseResult<Self::V> {
        GameEventPacketFields::spec_deserialize(s)
    }

    proof fn lemma_deserialize_len(s: Seq<u8>) {
        GameEventPacketFields::lemma_deserialize_len(s);
    }

    fn mc_deserialize(deserializer: &mut McDeserializer) -> (r: Result<GameEventPacket, SerializingErr>) {
        let (event, value) = GameEventPacketFields::mc_deserialize(deserializer)?;
        Ok(GameEventPacket { event, value })
    }
}

impl McRoundTrip for GameEventPacket {
    open spec fn spec_well_formed(v: Self::V) -> bool {
        GameEventPacketFields::spec_well_formed(v)
    }

    proof fn lemma_round_trip(v: Self::V, rest: Seq<u8>) {
        GameEventPacketFields::lemma_round_trip(v, rest);
    }
}
impl GameEventPacket {
    pub fn new(event: GameEventType, value: u32) -> (p: Self)
        ensures
            p == (GameEventPacket { event, value }),
    {
        GameEventPacket { event, value }
    }
}

/// The fields of [`GameTestHighlightPositionPacket`] as they are sent, in order.
pub type GameTestHighlightPositionPacketFields = (Position, Position);

/// The body of the GameTestHighlightPosition packet (play state, to the client, id 0x27).
#[derive(Debug, Clone, PartialEq)]
pub struct GameTestHighlightPositionPacket {
    pub absolute_location: Position,
    pub relative_location: Position,
}

impl DeepView for GameTestHighlightPositionPacket {
    type V = <GameTestHighlightPositionPacketFields as DeepView>::V;

    open spec fn deep_view(&self) -> Self::V {
        (self.absolute_location.deep_view(), self.relative_location.deep_view())
    }
}

impl McSerialize for GameTestHighlightPositionPacket {
    open spec fn spec_serialize(v: Self::V) -> Seq<u8> {
        GameTestHighlightPositionPacketFields::spec_serialize(v)
    }

    open spec fn spec_can_serialize(v: Self::V) -> bool {
        GameTestHighlightPositionPacketFields::spec_can_serialize(v)
    }

    fn mc_serialize(&self, serializer: &mut McSerializer) -> (r: Result<(), SerializingErr>) {
        let _ = self.absolute_location.mc_serialize(serializer);
        let _ = self.relative_location.mc_serialize(serializer);
        assert(serializer.output@ == old(serializer).output@ + Self::spec_serialize(self.deep_view()));
        Ok(())
    }
}

impl McDeserialize for GameTestHighlightPositionPacket {
    open spec fn spec_deserialize(s: Seq<u8>) -> ParseResult<Self::V> {
        GameTestHighlightPositionPacketFields::spec_deserialize(s)
    }

    proof fn lemma_deserialize_len(s: Seq<u8>) {
        GameTestHighlightPositionPacketFields::lemma_deserialize_len(s);
    }

    fn mc_deserialize(deserializer: &mut McDeserializer) -> (r: Result<GameTestHighlightPositionPacket, SerializingErr>) {
        let (absolute_location, relative_location) = GameTestHighlightPositionPacketFields::mc_deserialize(deserializer)?;
        Ok(GameTestHighlightPositionPacket { absolute_location, relative_location })
    }
}

impl McRoundTrip for GameTestHighlightPositionPacket {
    open spec fn spec_well_formed(v: Self::V) -> bool {
        GameTestHighlightPositionPacketFields::spec_well_formed(v)
    }

    proof fn lemma_round_trip(v: Self::V, rest: Seq<u8>) {
        GameTestHighlightPositionPacketFields::lemma_round_trip(v, rest);
    }
}
impl GameTestHighlightPositionPacket {
    pub fn new(absolute_location: Position, relative_location: Position) -> (p: Self)
        ensures
            p == (GameTestHighlightPositionPacket { absolute_location, relative_location }),
    {
        GameTestHighlightPositionPacket { absolute_location, relative_location }
    }
}

/// The fields of [`OpenHorseScreenPacket`] as they are sent, in order.
pub type OpenHorseScreenPacketFields = (VarInt, (VarInt, i32));

/// The body of the OpenHorseScreen packet (play state, to the client, id 0x28).
#[derive(Debug, Clone, PartialEq)]
pub struct OpenHorseScreenPacket {
    pub window_id: VarInt,
    pub slot_count: VarInt,
    pub entity_id: i32,
}

impl DeepView for OpenHorseScreenPacket {
    type V = <OpenHorseScreenPacketFields as DeepView>::V;

    open spec fn deep_view(&self) -> Self::V {
        (self.window_id.deep_view(), (self.slot_count.deep_view(), self.entity_id.deep_view()))
    }
}

impl McSerialize for OpenHorseScreenPacket {
    open spec fn spec_serialize(v: Self::V) -> Seq<u8> {
        OpenHorseScreenPacketFields::spec_serialize(v)
    }

    open spec fn spec_can_serialize(v: Self::V) -> bool {
        OpenHorseScreenPacketFields::spec_can_serialize(v)
    }

    fn mc_serialize(&self, serializer: &mut McSerializer) -> (r: Result<(), SerializingErr>) {
        let _ = self.window_id.mc_serialize(serializer);
        let _ = self.slot_count.mc_serialize(serializer);
        let _ = self.entity_id.mc_serialize(serializer);
        assert(serializer.output@ == old(serializer).output@ + Self::spec_serialize(self.deep_view()));
        Ok(())
    }
}

impl McDeserialize for OpenHorseScreenPacket {
    open spec fn spec_deserialize(s: Seq<u8>) -> ParseResult<Self::V> {
        OpenHorseScreenPacketFields::spec_deserialize(s)
    }

    proof fn lemma_deserialize_len(s: Seq<u8>) {
        OpenHorseScreenPacketFields::lemma_deserialize_len(s);
    }

    fn mc_deserialize(deserializer: &mut McDeserializer) -> (r: Result<OpenHorseScreenPacket, SerializingErr>) {
        let (window_id, (slot_count, entity_id)) = OpenHorseScreenPacketFields::mc_deserialize(deserializer)?;
        Ok(OpenHorseScreenPacket { window_id, slot_count, entity_id })
    }
}

impl McRoundTrip for OpenHorseScreenPacket {
    open spec fn spec_well_formed(v: Self::V) -> bool {
        OpenHorseScreenPacketFields::spec_well_formed(v)
    }

    proof fn lemma_round_trip(v: Self::V, rest: Seq<u8>) {
        OpenHorseScreenPacketFields::lemma_round_trip(v, rest);
    }
}
impl OpenHorseScreenPacket {
    pub fn new(window_id: VarInt, slot_count: VarInt, entity_id: i32) -> (p: Self)
        ensures
            p == (OpenHorseScreenPacket { window_id, slot_count, entity_id }),
    {
        OpenHorseScreenPacket { window_id, slot_count, entity_id }
    }
}

/// The fields of [`HurtAnimationPacket`] as they are sent, in order.
pub type HurtAnimationPacketFields = (VarInt, u32);

/// The body of the HurtAnimation packet (play state, to the client, id 0x29).
#[derive(Debug, Clone, PartialEq)]
pub struct HurtAnimationPacket {
    pub entity_id: VarInt,
    pub yaw: u32,
}

impl DeepView for HurtAnimationPacket {
    type V = <HurtAnimationPacketFields as DeepView>::V;

    open spec fn deep_view(&self) -> Self::V {
        (self.entity_id.deep_view(), self.yaw.deep_view())
    }
}

impl McSerialize for HurtAnimationPacket {
    open spec fn spec_serialize(v: Self::V) -> Seq<u8> {
        HurtAnimationPacketFields::spec_serialize(v)
    }

    open spec fn spec_can_serialize(v: Self::V) -> bool {
        HurtAnimationPacketFields::spec_can_serialize(v)
    }

    fn mc_serialize(&self, serializer: &mut McSerializer) -> (r: Result<(), SerializingErr>) {
        let _ = self.entity_id.mc_serialize(serializer);
        let _ = self.yaw.mc_serialize(serializer);
        assert(serializer.output@ == old(serializer).output@ + Self::spec_serialize(self.deep_view()));
        Ok(())
    }
}

impl McDeserialize for HurtAnimationPacket {
    open spec fn spec_deserialize(s: Seq<u8>) -> ParseResult<Self::V> {
        HurtAnimationPacketFields::spec_deserialize(s)
    }

    proof fn lemma_deserialize_len(s: Seq<u8>) {
        HurtAnimationPacketFields::lemma_deserialize_len(s);
    }

    fn mc_deserialize(deserializer: &mut McDeserializer) -> (r: Result<HurtAnimationPacket, SerializingErr>) {
        let (entity_id, yaw) = HurtAnimationPacketFields::mc_deserialize(deserializer)?;
        Ok(HurtAnimationPacket { entity_id, yaw })
    }
}

impl McRoundTrip for HurtAnimationPacket {
    open spec fn spec_well_formed(v: Self::V) -> bool {
        HurtAnimationPacketFields::spec_well_formed(v)
    }

    proof fn lemma_round_trip(v: Self::V, rest: Seq<u8>) {
        HurtAnimationPacketFields::lemma_round_trip(v, rest);
    }
}
impl HurtAnimationPacket {
    pub fn new(entity_id: VarInt, yaw: u32) -> (p: Self)
        ensures
            p == (HurtAnimationPacket { entity_id, yaw }),
    {
        HurtAnimationPacket { entity_id, yaw }
    }
}

/// The fields of [`ClientboundKeepAlivePacket`] as they are sent, in order.
pub type ClientboundKeepAlivePacketFields = i64;

/// The body of the ClientboundKeepAlive packet (play state, to the client, id 0x2B).
#[derive(Debug, Clone, PartialEq)]
pub struct ClientboundKeepAlivePacket {
    pub keep_alive_id: i64,
}

impl DeepView for ClientboundKeepAlivePacket {
    type V = <ClientboundKeepAlivePacketFields as DeepView>::V;

    open spec fn deep_view(&self) -> Self::V {
        self.keep_alive_id.deep_view()
    }
}

impl McSerialize for ClientboundKeepAlivePacket {
    open spec fn spec_serialize(v: Self::V) -> Seq<u8> {
        ClientboundKeepAlivePacketFields::spec_serialize(v)
    }

    open spec fn spec_can_serialize(v: Self::V) -> bool {
        ClientboundKeepAlivePacketFields::spec_can_serialize(v)
    }

    fn mc_serialize(&self, serializer: &mut McSerializer) -> (r: Result<(), SerializingErr>) {
        let _ = self.keep_alive_id.mc_serialize(serializer);
        Ok(())
    }
}

impl McDeserialize for ClientboundKeepAlivePacket {
    open spec fn spec_deserialize(s: Seq<u8>) -> ParseResult<Self::V> {
        ClientboundKeepAlivePacketFields::spec_deserialize(s)
    }

    proof fn lemma_deserialize_len(s: Seq<u8>) {
        ClientboundKeepAlivePacketFields::lemma_deserialize_len(s);
    }

    fn mc_deserialize(deserializer: &mut McDeserializer) -> (r: Result<ClientboundKeepAlivePacket, SerializingErr>) {
        let keep_alive_id = ClientboundKeepAlivePacketFields::mc_deserialize(deserializer)?;
        Ok(ClientboundKeepAlivePacket { keep_alive_id })
    }
}

impl McRoundTrip for ClientboundKeepAlivePacket {
    open spec fn spec_well_formed(v: Self::V) -> bool {
        ClientboundKeepAlivePacketFields::spec_well_formed(v)
    }

    proof fn lemma_round_trip(v: Self::V, rest: Seq<u8>) {
        ClientboundKeepAlivePacketFields::lemma_round_trip(v, rest);
    }
}
impl ClientboundKeepAlivePacket {
    pub fn new(keep_alive_id: i64) -> (p: Self)
        ensures
            p == (ClientboundKeepAlivePacket { keep_alive_id }),
    {
        ClientboundKeepAlivePacket { keep_alive_id }
    }
}

/// The fields of [`ChunkDataUpdateLightPacket`] as they are sent, in order.
pub type ChunkDataUpdateLightPacketFields = (i32, (i32, (ChunkData, LightData)));

/// The body of the ChunkDataUpdateLight packet (play state, to the client, id 0x2C).
#[derive(Debug, PartialEq)]
pub struct ChunkDataUpdateLightPacket {
    pub x: i32,
    pub z: i32,
    pub data: ChunkData,
    pub light: LightData,
}

impl DeepView for ChunkDataUpdateLightPacket {
    type V = <ChunkDataUpdateLightPacketFields as DeepView>::V;

    open spec fn deep_view(&self) -> Self::V {
        (self.x.deep_view(), (self.z.deep_view(), (self.data.deep_view(), self.light.deep_view())))
    }
}

impl McSerialize for ChunkDataUpdateLightPacket {
    open spec fn spec_serialize(v: Self::V) -> Seq<u8> {
        ChunkDataUpdateLightPacketFields::spec_serialize(v)
    }

    open spec fn spec_can_serialize(v: Self::V) -> bool {
        ChunkDataUpdateLightPacketFields::spec_can_serialize(v)
    }

    fn mc_serialize(&self, serializer: &mut McSerializer) -> (r: Result<(), SerializingErr>) {
        let _ = self.x.mc_serialize(serializer);
        let _ = self.z.mc_serialize(serializer);
        let _ = self.data.mc_serialize(serializer);
        let _ = self.light.mc_serialize(serializer);
        assert(serializer.output@ == old(serializer).output@ + Self::spec_serialize(self.deep_view()));
        Ok(())
    }
}

impl McDeserialize for ChunkDataUpdateLightPacket {
    open spec fn spec_deserialize(s: Seq<u8>) -> ParseResult<Self::V> {
        ChunkDataUpdateLightPacketFields::spec_deserialize(s)
    }

    proof fn lemma_deserialize_len(s: Seq<u8>) {
        ChunkDataUpdateLightPacketFields::lemma_deserialize_len(s);
    }

    fn mc_deserialize(deserializer: &mut McDeserializer) -> (r: Result<ChunkDataUpdateLightPacket, SerializingErr>) {
        let (x, (z, (data, light))) = ChunkDataUpdateLightPacketFields::mc_deserialize(deserializer)?;
        Ok(ChunkDataUpdateLightPacket { x, z, data, light })
    }
}

impl McRoundTrip for ChunkDataUpdateLightPacket {
    open spec fn spec_well_formed(v: Self::V) -> bool {
        ChunkDataUpdateLightPacketFields::spec_well_formed(v)
    }

    proof fn lemma_round_trip(v: Self::V, rest: Seq<u8>) {
        ChunkDataUpdateLightPacketFields::lemma_round_trip(v, rest);
    }
}
impl ChunkDataUpdateLightPacket {
    pub fn new(x: i32, z: i32, data: ChunkData, light: LightData) -> (p: Self)
        ensures
            p == (ChunkDataUpdateLightPacket { x, z, data, light }),
    {
        ChunkDataUpdateLightPacket { x, z, data, light }
    }
}

/// The fields of [`UpdateLightPacket`] as they are sent, in order.
pub type UpdateLightPacketFields = (VarInt, (VarInt, LightData));

/// The body of the UpdateLight packet (play state, to the client, id 0x2F).
#[derive(Debug, Clone, PartialEq)]
pub struct UpdateLightPacket {
    pub x_chunk: VarInt,
    pub y_chunk: VarInt,
    pub data: LightData,
}

impl DeepView for UpdateLightPacket {
    type V = <UpdateLightPacketFields as DeepView>::V;

    open spec fn deep_view(&self) -> Self::V {
        (self.x_chunk.deep_view(), (self.y_chunk.deep_view(), self.data.deep_view()))
    }
}

impl McSerialize for UpdateLightPacket {
    open spec fn spec_serialize(v: Self::V) -> Seq<u8> {
        UpdateLightPacketFields::spec_serialize(v)
    }

    open spec fn spec_can_serialize(v: Self::V) -> bool {
        UpdateLightPacketFields::spec_can_serialize(v)
    }

    fn mc_serialize(&self, serializer: &mut McSerializer) -> (r: Result<(), SerializingErr>) {
        let _ = self.x_chunk.mc_serialize(serializer);
        let _ = self.y_chunk.mc_serialize(serializer);
        let _ = self.data.mc_serialize(serializer);
        assert(serializer.output@ == old(serializer).output@ + Self::spec_serialize(self.deep_view()));
        Ok(())
    }
}

impl McDeserialize for UpdateLightPacket {
    open spec fn spec_deserialize(s: Seq<u8>) -> ParseResult<Self::V> {
        UpdateLightPacketFields::spec_deserialize(s)
    }

    proof fn lemma_deserialize_len(s: Seq<u8>) {
        UpdateLightPacketFields::lemma_deserialize_len(s);
    }

    fn mc_deserialize(deserializer: &mut McDeserializer) -> (r: Result<UpdateLightPacket, SerializingErr>) {
        let (x_chunk, (y_chunk, data)) = UpdateLightPacketFields::mc_deserialize(deserializer)?;
        Ok(UpdateLightPacket { x_chunk, y_chunk, data })
    }
}

impl McRoundTrip for UpdateLightPacket {
    open spec fn spec_well_formed(v: Self::V) -> bool {
        UpdateLightPacketFields::spec_well_formed(v)
    }

    proof fn lemma_round_trip(v: Self::V, rest: Seq<u8>) {
        UpdateLightPacketFields::lemma_round_trip(v, rest);
    }
}
impl UpdateLightPacket {
    pub fn new(x_chunk: VarInt, y_chunk: VarInt, data: LightData) -> (p: Self)
        ensures
            p == (UpdateLightPacket { x_chunk, y_chunk, data }),
    {
        UpdateLightPacket { x_chunk, y_chunk, data }
    }
}

/// The fields of [`UpdateEntityPositionPacket`] as they are sent, in order.
pub type UpdateEntityPositionPacketFields = (VarInt, (i16, (i16, (i16, bool))));

/// The body of the UpdateEntityPosition packet (play state, to the client, id 0x33).
#[derive(Debug, Clone, PartialEq)]
pub struct UpdateEntityPositionPacket {
    pub entity_id: VarInt,
    pub x_delta: i16,
    pub y_delta: i16,
    pub z_delta: i16,
    pub on_ground: bool,
}

impl DeepView for UpdateEntityPositionPacket {
    type V = <UpdateEntityPositionPacketFields as DeepView>::V;

    open spec fn deep_view(&self) -> Self::V {
        (self.entity_id.deep_view(), (self.x_delta.deep_view(), (self.y_delta.deep_view(), (self.z_delta.deep_view(), self.on_ground.deep_view()))))
    }
}

impl McSerialize for UpdateEntityPositionPacket {
    open spec fn spec_serialize(v: Self::V) -> Seq<u8> {
        UpdateEntityPositionPacketFields::spec_serialize(v)
    }

    open spec fn spec_can_serialize(v: Self::V) -> bool {
        UpdateEntityPositionPacketFields::spec_can_serialize(v)
    }

    fn mc_serialize(&self, serializer: &mut McSerializer) -> (r: Result<(), SerializingErr>) {
        let _ = self.entity_id.mc_serialize(serializer);
        let _ = self.x_delta.mc_serialize(serializer);
        let _ = self.y_delta.mc_serialize(serializer);
        let _ = self.z_delta.mc_serialize(serializer);
        let _ = self.on_ground.mc_serialize(serializer);
        assert(serializer.output@ == old(serializer).output@ + Self::spec_serialize(self.deep_view()));
        Ok(())
    }
}

impl McDeserialize for UpdateEntityPositionPacket {
    open spec fn spec_deserialize(s: Seq<u8>) -> ParseResult<Self::V> {
        UpdateEntityPositionPacketFields::spec_deserialize(s)
    }

    proof fn lemma_deserialize_len(s: Seq<u8>) {
        UpdateEntityPositionPacketFields::lemma_deserialize_len(s);
    }

    fn mc_deserialize(deserializer: &mut McDeserializer) -> (r: Result<UpdateEntityPositionPacket, SerializingErr>) {
        let (entity_id, (x_delta, (y_delta, (z_delta, on_ground)))) = UpdateEntityPositionPacketFields::mc_deserialize(deserializer)?;
        Ok(UpdateEntityPositionPacket { entity_id, x_delta, y_delta, z_delta, on_ground })
    }
}

impl McRoundTrip for UpdateEntityPositionPacket {
    open spec fn spec_well_formed(v: Self::V) -> bool {
        UpdateEntityPositionPacketFields::spec_well_formed(v)
    }

    proof fn lemma_round_trip(v: Self::V, rest: Seq<u8>) {
        UpdateEntityPositionPacketFields::lemma_round_trip(v, rest);
    }
}
impl UpdateEntityPositionPacket {
    pub fn new(entity_id: VarInt, x_delta: i16, y_delta: i16, z_delta: i16, on_ground: bool) -> (p: Self)
        ensures
            p == (UpdateEntityPositionPacket { entity_id, x_delta, y_delta, z_delta, on_ground }),
    {
        UpdateEntityPositionPacket { entity_id, x_delta, y_delta, z_delta, on_ground }
    }
}

/// The fields of [`MoveVehiclePacket`] as they are sent, in order.
pub type MoveVehiclePacketFields = (u64, (u64, (u64, (u32, u32))));

/// The body of the MoveVehicle packet (play state, to the client, id 0x37).
#[derive(Debug, Clone, PartialEq)]
pub struct MoveVehiclePacket {
    pub x: u64,
    pub y: u64,
    pub z: u64,
    pub yaw: u32,
    pub pitch: u32,
}

impl DeepView for MoveVehiclePacket {
    type V = <MoveVehiclePacketFields as DeepView>::V;

    open spec fn deep_view(&self) -> Self::V {
        (self.x.deep_view(), (self.y.deep_view(), (self.z.deep_view(), (self.yaw.deep_view(), self.pitch.deep_view()))))
    }
}

impl McSerialize for MoveVehiclePacket {
    open spec fn spec_serialize(v: Self::V) -> Seq<u8> {
        MoveVehiclePacketFields::spec_serialize(v)
    }

    open spec fn spec_can_serialize(v: Self::V) -> bool {
        MoveVehiclePacketFields::spec_can_serialize(v)
    }

    fn mc_serialize(&self, serializer: &mut McSerializer) -> (r: Result<(), SerializingErr>) {
        let _ = self.x.mc_serialize(serializer);
        let _ = self.y.mc_serialize(serializer);
        let _ = self.z.mc_serialize(serializer);
        let _ = self.yaw.mc_serialize(serializer);
        let _ = self.pitch.mc_serialize(serializer);
        assert(serializer.output@ == old(serializer).output@ + Self::spec_serialize(self.deep_view()));
        Ok(())
    }
}

impl McDeserialize for MoveVehiclePacket {
    open spec fn spec_deserialize(s: Seq<u8>) -> ParseResult<Self::V> {
        MoveVehiclePacketFields::spec_deserialize(s)
    }

    proof fn lemma_deserialize_len(s: Seq<u8>) {
        MoveVehiclePacketFields::lemma_deserialize_len(s);
    }

    fn mc_deserialize(deserializer: &mut McDeserializer) -> (r: Result<MoveVehiclePacket, SerializingErr>) {
        let (x, (y, (z, (yaw, pitch)))) = MoveVehiclePacketFields::mc_deserialize(deserializer)?;
        Ok(MoveVehiclePacket { x, y, z, yaw, pitch })
    }
}

impl McRoundTrip for MoveVehiclePacket {
    open spec fn spec_well_formed(v: Self::V) -> bool {
        MoveVehiclePacketFields::spec_well_formed(v)
    }

    proof fn lemma_round_trip(v: Self::V, rest: Seq<u8>) {
        MoveVehiclePacketFields::lemma_round_trip(v, rest);
    }
}
impl MoveVehiclePacket {
    pub fn new(x: u64, y: u64, z: u64, yaw: u32, pitch: u32) -> (p: Self)
        ensures
            p == (MoveVehiclePacket { x, y, z, yaw, pitch }),
    {
        MoveVehiclePacket { x, y, z, yaw, pitch }
    }
}

/// The fields of [`OpenBookPacket`] as they are sent, in order.
pub type OpenBookPacketFields = VarInt;

/// The body of the OpenBook packet (play state, to the client, id 0x38).
#[derive(Debug, Clone, PartialEq)]
pub struct OpenBookPacket {
    pub hand: VarInt,
}

impl DeepView for OpenBookPacket {
    type V = <OpenBookPacketFields as DeepView>::V;

    open spec fn deep_view(&self) -> Self::V {
        self.hand.deep_view()
    }
}

impl McSerialize for OpenBookPacket {
    open spec fn spec_serialize(v: Self::V) -> Seq<u8> {
        OpenBookPacketFields::spec_serialize(v)
    }

    open spec fn spec_can_serialize(v: Self::V) -> bool {
        OpenBookPacketFields::spec_can_serialize(v)
    }

    fn mc_serialize(&self, serializer: &mut McSerializer) -> (r: Result<(), SerializingErr>) {
        let _ = self.hand.mc_serialize(serializer);
        Ok(())
    }
}

impl McDeserialize for OpenBookPacket {
    open spec fn spec_deserialize(s: Seq<u8>) -> ParseResult<Self::V> {
        OpenBookPacketFields::spec_deserialize(s)
    }

    proof fn lemma_deserialize_len(s: Seq<u8>) {
        OpenBookPacketFields::lemma_deserialize_len(s);
    }

    fn mc_deserialize(deserializer: &mut McDeserializer) -> (r: Result<OpenBookPacket, SerializingErr>) {
        let hand = OpenBookPacketFields::mc_deserialize(deserializer)?;
        Ok(OpenBookPacket { hand })
    }
}

impl McRoundTrip for OpenBookPacket {
    open spec fn spec_well_formed(v: Self::V) -> bool {
        OpenBookPacketFields::spec_well_formed(v)
    }

    proof fn lemma_round_trip(v: Self::V, rest: Seq<u8>) {
        OpenBookPacketFields::lemma_round_trip(v, rest);
    }
}
impl OpenBookPacket {
    pub fn new(hand: VarInt) -> (p: Self)
        ensures
            p == (OpenBookPacket { hand }),
    {
        OpenBookPacket { hand }
    }
}

/// The fields of [`OpenSignEditorPacket`] as they are sent, in order.
pub type OpenSignEditorPacketFields = (Position, bool);

/// The body of the OpenSignEditor packet (play state, to the client, id 0x3A).
#[derive(Debug, Clone, PartialEq)]
pub struct OpenSignEditorPacket {
    pub location: Position,
    pub is_front_text: bool,
}

impl DeepView for OpenSignEditorPacket {
    type V = <OpenSignEditorPacketFields as DeepView>::V;

    open spec fn deep_view(&self) -> Self::V {
        (self.location.deep_view(), self.is_front_text.deep_view())
    }
}

impl McSerialize for OpenSignEditorPacket {
    open spec fn spec_serialize(v: Self::V) -> Seq<u8> {
        OpenSignEditorPacketFields::spec_serialize(v)
    }

    open spec fn spec_can_serialize(v: Self::V) -> bool {
        OpenSignEditorPacketFields::spec_can_serialize(v)
    }

    fn mc_serialize(&self, serializer: &mut McSerializer) -> (r: Result<(), SerializingErr>) {
        let _ = self.location.mc_serialize(serializer);
        let _ = self.is_front_text.mc_serialize(serializer);
        assert(serializer.output@ == old(serializer).output@ + Self::spec_serialize(self.deep_view()));
        Ok(())
    }
}

impl McDeserialize for OpenSignEditorPacket {
    open spec fn spec_deserialize(s: Seq<u8>) -> ParseResult<Self::V> {
        OpenSignEditorPacketFields::spec_deserialize(s)
    }

    proof fn lemma_deserialize_len(s: Seq<u8>) {
        OpenSignEditorPacketFields::lemma_deserialize_len(s);
    }

    fn mc_deserialize(deserializer: &mut McDeserializer) -> (r: Result<OpenSignEditorPacket, SerializingErr>) {
        let (location, is_front_text) = OpenSignEditorPacketFields::mc_deserialize(deserializer)?;
        Ok(OpenSignEditorPacket { location, is_front_text })
    }
}

impl McRoundTrip for OpenSignEditorPacket {
    open spec fn spec_well_formed(v: Self::V) -> bool {
        OpenSignEditorPacketFields::spec_well_formed(v)
    }

    proof fn lemma_round_trip(v: Self::V, rest: Seq<u8>) {
        OpenSignEditorPacketFields::lemma_round_trip(v, rest);
    }
}
impl OpenSignEditorPacket {
    pub fn new(location: Position, is_front_text: bool) -> (p: Self)
        ensures
            p == (OpenSignEditorPacket { location, is_front_text }),
    {
        OpenSignEditorPacket { location, is_front_text }
    }
}

/// The fields of [`PingPlayPacket`] as they are sent, in order.
pub type PingPlayPacketFields = i32;

/// The body of the PingPlay packet (play state, to the client, id 0x3B).
#[derive(Debug, Clone, PartialEq)]
pub struct PingPlayPacket {
    pub id: i32,
}

impl DeepView for PingPlayPacket {
    type V = <PingPlayPacketFields as DeepView>::V;

    open spec fn deep_view(&self) -> Self::V {
        self.id.deep_view()
    }
}

impl McSerialize for PingPlayPacket {
    open spec fn spec_serialize(v: Self::V) -> Seq<u8> {
        PingPlayPacketFields::spec_serialize(v)
    }

    open spec fn spec_can_serialize(v: Self::V) -> bool {
        PingPlayPacketFields::spec_can_serialize(v)
    }

    fn mc_serialize(&self, serializer: &mut McSerializer) -> (r: Result<(), SerializingErr>) {
        let _ = self.id.mc_serialize(serializer);
        Ok(())
    }
}

impl McDeserialize for PingPlayPacket {
    open spec fn spec_deserialize(s: Seq<u8>) -> ParseResult<Self::V> {
        PingPlayPacketFields::spec_deserialize(s)
    }

    proof fn lemma_deserialize_len(s: Seq<u8>) {
        PingPlayPacketFields::lemma_deserialize_len(s);
    }

    fn mc_deserialize(deserializer: &mut McDeserializer) -> (r: Result<PingPlayPacket, SerializingErr>) {
        let id = PingPlayPacketFields::mc_deserialize(deserializer)?;
        Ok(PingPlayPacket { id })
    }
}

impl McRoundTrip for PingPlayPacket {
    open spec fn spec_well_formed(v: Self::V) -> bool {
        PingPlayPacketFields::spec_well_formed(v)
    }

    proof fn lemma_round_trip(v: Self::V, rest: Seq<u8>) {
        PingPlayPacketFields::lemma_round_trip(v, rest);
    }
}
impl PingPlayPacket {
    pub fn new(id: i32) -> (p: Self)
        ensures
            p == (PingPlayPacket { id }),
    {
        PingPlayPacket { id }
    }
}

/// The fields of [`PingResponsePlayPacket`] as they are sent, in order.
pub type PingResponsePlayPacketFields = i64;

/// The body of the PingResponsePlay packet (play state, to the client, id 0x3C).
#[derive(Debug, Clone, PartialEq)]
pub struct PingResponsePlayPacket {
    pub payload: i64,
}

impl DeepView for PingResponsePlayPacket {
    type V = <PingResponsePlayPacketFields as DeepView>::V;

    open spec fn deep_view(&self) -> Self::V {
        self.payload.deep_view()
    }
}

impl McSerialize for PingResponsePlayPacket {
    open spec fn spec_serialize(v: Self::V) -> Seq<u8> {
        PingResponsePlayPacketFields::spec_serialize(v)
    }

    open spec fn spec_can_serialize(v: Self::V) -> bool {
        PingResponsePlayPacketFields::spec_can_serialize(v)
    }

    fn mc_serialize(&self, serializer: &mut McSerializer) -> (r: Result<(), SerializingErr>) {
        let _ = self.payload.mc_serialize(serializer);
        Ok(())
    }
}

impl McDeserialize for PingResponsePlayPacket {
    open spec fn spec_deserialize(s: Seq<u8>) -> ParseResult<Self::V> {
        PingResponsePlayPacketFields::spec_deserialize(s)
    }

    proof fn lemma_deserialize_len(s: Seq<u8>) {
        PingResponsePlayPacketFields::lemma_deserialize_len(s);
    }

    fn mc_deserialize(deserializer: &mut McDeserializer) -> (r: Result<PingResponsePlayPacket, SerializingErr>) {
        let payload = PingResponsePlayPacketFields::mc_deserialize(deserializer)?;
        Ok(PingResponsePlayPacket { payload })
    }
}

impl McRoundTrip for PingResponsePlayPacket {
    open spec fn spec_well_formed(v: Self::V) -> bool {
        PingResponsePlayPacketFields::spec_well_formed(v)
    }

    proof fn lemma_round_trip(v: Self::V, rest: Seq<u8>) {
        PingResponsePlayPacketFields::lemma_round_trip(v, rest);
    }
}
impl PingResponsePlayPacket {
    pub fn new(payload: i64) -> (p: Self)
        ensures
            p == (PingResponsePlayPacket { payload }),
    {
        PingResponsePlayPacket { payload }
    }
}

/// The fields of [`PlayerAbilitiesPacket`] as they are sent, in order.
pub type PlayerAbilitiesPacketFields = (PlayerAbilityFlags, (u32, u32));

/// The body of the PlayerAbilities packet (play state, to the client, id 0x3E).
#[derive(Debug, Clone, PartialEq)]
pub struct PlayerAbilitiesPacket {
    pub flags: PlayerAbilityFlags,
    pub flying_speed: u32,
    pub fov_modifier: u32,
}

impl DeepView for PlayerAbilitiesPacket {
    type V = <PlayerAbilitiesPacketFields as DeepView>::V;

    open spec fn deep_view(&self) -> Self::V {
        (self.flags.deep_view(), (self.flying_speed.deep_view(), self.fov_modifier.deep_view()))
    }
}

impl McSerialize for PlayerAbilitiesPacket {
    open spec fn spec_serialize(v: Self::V) -> Seq<u8> {
        PlayerAbilitiesPacketFields::spec_serialize(v)
    }

    open spec fn spec_can_serialize(v: Self::V) -> bool {
        PlayerAbilitiesPacketFields::spec_can_serialize(v)
    }

    fn mc_serialize(&self, serializer: &mut McSerializer) -> (r: Result<(), SerializingErr>) {
        let _ = self.flags.mc_serialize(serializer);
        let _ = self.flying_speed.mc_serialize(serializer);
        let _ = self.fov_modifier.mc_serialize(serializer);
        assert(serializer.output@ == old(serializer).output@ + Self::spec_serialize(self.deep_view()));
        Ok(())
    }
}

impl McDeserialize for PlayerAbilitiesPacket {
    open spec fn spec_deserialize(s: Seq<u8>) -> ParseResult<Self::V> {
        PlayerAbilitiesPacketFields::spec_deserialize(s)
    }

    proof fn lemma_deserialize_len(s: Seq<u8>) {
        PlayerAbilitiesPacketFields::lemma_deserialize_len(s);
    }

    fn mc_deserialize(deserializer: &mut McDeserializer) -> (r: Result<PlayerAbilitiesPacket, SerializingErr>) {
        let (flags, (flying_speed, fov_modifier)) = PlayerAbilitiesPacketFields::mc_deserialize(deserializer)?;
        Ok(PlayerAbilitiesPacket { flags, flying_speed, fov_modifier })
    }
}

impl McRoundTrip for PlayerAbilitiesPacket {
    open spec fn spec_well_formed(v: Self::V) -> bool {
        PlayerAbilitiesPacketFields::spec_well_formed(v)
    }

    proof fn lemma_round_trip(v: Self::V, rest: Seq<u8>) {
        PlayerAbilitiesPacketFields::lemma_round_trip(v, rest);
    }
}
impl PlayerAbilitiesPacket {
    pub fn new(flags: PlayerAbilityFlags, flying_speed: u32, fov_modifier: u32) -> (p: Self)
        ensures
            p == (PlayerAbilitiesPacket { flags, flying_speed, fov_modifier }),
    {
        PlayerAbilitiesPacket { flags, flying_speed, fov_modifier }
    }
}

/// The fields of [`EndCombatPacket`] as they are sent, in order.
pub type EndCombatPacketFields = VarInt;

/// The body of the EndCombat packet (play state, to the client, id 0x40).
#[derive(Debug, Clone, PartialEq)]
pub struct EndCombatPacket {
    pub duration: VarInt,
}

impl DeepView for EndCombatPacket {
    type V = <EndCombatPacketFields as DeepView>::V;

    open spec fn deep_view(&self) -> Self::V {
        self.duration.deep_view()
    }
}

impl McSerialize for EndCombatPacket {
    open spec fn spec_serialize(v: Self::V) -> Seq<u8> {
        EndCombatPacketFields::spec_serialize(v)
    }

    open spec fn spec_can_serialize(v: Self::V) -> bool {
        EndCombatPacketFields::spec_can_serialize(v)
    }

    fn mc_serialize(&self, serializer: &mut McSerializer) -> (r: Result<(), SerializingErr>) {
        let _ = self.duration.mc_serialize(serializer);
        Ok(())
    }
}

impl McDeserialize for EndCombatPacket {
    open spec fn spec_deserialize(s: Seq<u8>) -> ParseResult<Self::V> {
        EndCombatPacketFields::spec_deserialize(s)
    }

    proof fn lemma_deserialize_len(s: Seq<u8>) {
        EndCombatPacketFields::lemma_deserialize_len(s);
    }

    fn mc_deserialize(deserializer: &mut McDeserializer) -> (r: Result<EndCombatPacket, SerializingErr>) {
        let duration = EndCombatPacketFields::mc_deserialize(deserializer)?;
        Ok(EndCombatPacket { duration })
    }
}

impl McRoundTrip for EndCombatPacket {
    open spec fn spec_well_formed(v: Self::V) -> bool {
        EndCombatPacketFields::spec_well_formed(v)
    }

    proof fn lemma_round_trip(v: Self::V, rest: Seq<u8>) {
        EndCombatPacketFields::lemma_round_trip(v, rest);
    }
}
impl EndCombatPacket {
    pub fn new(duration: VarInt) -> (p: Self)
        ensures
            p == (EndCombatPacket { duration }),
    {
        EndCombatPacket { duration }
    }
}

/// The body of the EnterCombat packet (play state, to the client, id 0x41).
#[derive(Debug, Clone, PartialEq)]
pub struct EnterCombatPacket {}

impl DeepView for EnterCombatPacket {
    type V = ();

    open spec fn deep_view(&self) -> () {
        ()
    }
}

impl EnterCombatPacket {
    pub fn new() -> (p: Self)
        ensures
            p == (EnterCombatPacket {}),
    {
        EnterCombatPacket {}
    }
}

impl McSerialize for EnterCombatPacket {
    /// An empty body.
    open spec fn spec_serialize(v: ()) -> Seq<u8> {
        Seq::<u8>::empty()
    }

    open spec fn spec_can_serialize(v: ()) -> bool {
        true
    }

    fn mc_serialize(&self, serializer: &mut McSerializer) -> (r: Result<(), SerializingErr>) {
        assert(serializer.output@ + Seq::<u8>::empty() == serializer.output@);
        Ok(())
    }
}

impl McDeserialize for EnterCombatPacket {
    open spec fn spec_deserialize(s: Seq<u8>) -> ParseResult<()> {
        Ok(((), 0nat))
    }

    proof fn lemma_deserialize_len(s: Seq<u8>) {
    }

    fn mc_deserialize(deserializer: &mut McDeserializer) -> (r: Result<EnterCombatPacket, SerializingErr>) {
        Ok(EnterCombatPacket {})
    }
}

impl McRoundTrip for EnterCombatPacket {
    open spec fn spec_well_formed(v: ()) -> bool {
        true
    }

    proof fn lemma_round_trip(v: (), rest: Seq<u8>) {
        assert(Seq::<u8>::empty() + rest == rest);
    }
}

/// The fields of [`PlayerRotationPacket`] as they are sent, in order.
pub type PlayerRotationPacketFields = (u32, (bool, (u32, bool)));

/// The body of the PlayerRotation packet (play state, to the client, id 0x47).
#[derive(Debug, Clone, PartialEq)]
pub struct PlayerRotationPacket {
    pub yaw: u32,
    pub relative_yaw: bool,
    pub pitch: u32,
    pub relative_pitch: bool,
}

impl DeepView for PlayerRotationPacket {
    type V = <PlayerRotationPacketFields as DeepView>::V;

    open spec fn deep_view(&self) -> Self::V {
        (self.yaw.deep_view(), (self.relative_yaw.deep_view(), (self.pitch.deep_view(), self.relative_pitch.deep_view())))
    }
}

impl McSerialize for PlayerRotationPacket {
    open spec fn spec_serialize(v: Self::V) -> Seq<u8> {
        PlayerRotationPacketFields::spec_serialize(v)
    }

    open spec fn spec_can_serialize(v: Self::V) -> bool {
        PlayerRotationPacketFields::spec_can_serialize(v)
    }

    fn mc_serialize(&self, serializer: &mut McSerializer) -> (r: Result<(), SerializingErr>) {
        let _ = self.yaw.mc_serialize(serializer);
        let _ = self.relative_yaw.mc_serialize(serializer);
        let _ = self.pitch.mc_serialize(serializer);
        let _ = self.relative_pitch.mc_serialize(serializer);
        assert(serializer.output@ == old(serializer).output@ + Self::spec_serialize(self.deep_view()));
        Ok(())
    }
}

impl McDeserialize for PlayerRotationPacket {
    open spec fn spec_deserialize(s: Seq<u8>) -> ParseResult<Self::V> {
        PlayerRotationPacketFields::spec_deserialize(s)
    }

    proof fn lemma_deserialize_len(s: Seq<u8>) {
        PlayerRotationPacketFields::lemma_deserialize_len(s);
    }

    fn mc_deserialize(deserializer: &mut McDeserializer) -> (r: Result<PlayerRotationPacket, SerializingErr>) {
        let (yaw, (relative_yaw, (pitch, relative_pitch))) = PlayerRotationPacketFields::mc_deserialize(deserializer)?;
        Ok(PlayerRotationPacket { yaw, relative_yaw, pitch, relative_pitch })
    }
}

impl McRoundTrip for PlayerRotationPacket {
    open spec fn spec_well_formed(v: Self::V) -> bool {
        PlayerRotationPacketFields::spec_well_formed(v)
    }

    proof fn lemma_round_trip(v: Self::V, rest: Seq<u8>) {
        PlayerRotationPacketFields::lemma_round_trip(v, rest);
    }
}
impl PlayerRotationPacket {
    pub fn new(yaw: u32, relative_yaw: bool, pitch: u32, relative_pitch: bool) -> (p: Self)
        ensures
            p == (PlayerRotationPacket { yaw, relative_yaw, pitch, relative_pitch }),
    {
        PlayerRotationPacket { yaw, relative_yaw, pitch, relative_pitch }
    }
}

/// The fields of [`RecipeBookRemovePacket`] as they are sent, in order.
pub type RecipeBookRemovePacketFields = PrefixedArray<VarInt>;

/// The body of the RecipeBookRemove packet (play state, to the client, id 0x49).
#[derive(Debug, Clone, PartialEq)]
pub struct RecipeBookRemovePacket {
    pub recipes: PrefixedArray<VarInt>,
}

impl DeepView for RecipeBookRemovePacket {
    type V = <RecipeBookRemovePacketFields as DeepView>::V;

    open spec fn deep_view(&self) -> Self::V {
        self.recipes.deep_view()
    }
}

impl McSerialize for RecipeBookRemovePacket {
    open spec fn spec_serialize(v: Self::V) -> Seq<u8> {
        RecipeBookRemovePacketFields::spec_serialize(v)
    }

    open spec fn spec_can_serialize(v: Self::V) -> bool {
        RecipeBookRemovePacketFields::spec_can_serialize(v)
    }

    fn mc_serialize(&self, serializer: &mut McSerializer) -> (r: Result<(), SerializingErr>) {
        let _ = self.recipes.mc_serialize(serializer);
        Ok(())
    }
}

impl McDeserialize for RecipeBookRemovePacket {
    open spec fn spec_deserialize(s: Seq<u8>) -> ParseResult<Self::V> {
        RecipeBookRemovePacketFields::spec_deserialize(s)
    }

    proof fn lemma_deserialize_len(s: Seq<u8>) {
        RecipeBookRemovePacketFields::lemma_deserialize_len(s);
    }

    fn mc_deserialize(deserializer: &mut McDeserializer) -> (r: Result<RecipeBookRemovePacket, SerializingErr>) {
        let recipes = RecipeBookRemovePacketFields::mc_deserialize(deserializer)?;
        Ok(RecipeBookRemovePacket { recipes })
    }
}

impl McRoundTrip for RecipeBookRemovePacket {
    open spec fn spec_well_formed(v: Self::V) -> bool {
        RecipeBookRemovePacketFields::spec_well_formed(v)
    }

    proof fn lemma_round_trip(v: Self::V, rest: Seq<u8>) {
        RecipeBookRemovePacketFields::lemma_round_trip(v, rest);
    }
}
impl RecipeBookRemovePacket {
    pub fn new(recipes: PrefixedArray<VarInt>) -> (p: Self)
        ensures
            p == (RecipeBookRemovePacket { recipes }),
    {
        RecipeBookRemovePacket { recipes }
    }
}

/// The fields of [`RecipeBookSettingsPacket`] as they are sent, in order.
pub type RecipeBookSettingsPacketFields = (bool, (bool, (bool, (bool, (bool, (bool, (bool, bool)))))));

/// The body of the RecipeBookSettings packet (play state, to the client, id 0x4A).
#[derive(Debug, Clone, PartialEq)]
pub struct RecipeBookSettingsPacket {
    pub crafting_open: bool,
    pub crafting_filter: bool,
    pub smelting_open: bool,
    pub smelting_filter: bool,
    pub blasting_open: bool,
    pub blasting_filter: bool,
    pub smoking_open: bool,
    pub smoking_filter: bool,
}

impl DeepView for RecipeBookSettingsPacket {
    type V = <RecipeBookSettingsPacketFields as DeepView>::V;

    open spec fn deep_view(&self) -> Self::V {
        (self.crafting_open.deep_view(), (self.crafting_filter.deep_view(), (self.smelting_open.deep_view(), (self.smelting_filter.deep_view(), (self.blasting_open.deep_view(), (self.blasting_filter.deep_view(), (self.smoking_open.deep_view(), self.smoking_filter.deep_view())))))))
    }
}

impl McSerialize for RecipeBookSettingsPacket {
    open spec fn spec_serialize(v: Self::V) -> Seq<u8> {
        RecipeBookSettingsPacketFields::spec_serialize(v)
    }

    open spec fn spec_can_serialize(v: Self::V) -> bool {
        RecipeBookSettingsPacketFields::spec_can_serialize(v)
    }

    #[verifier::spinoff_prover]
    #[verifier::rlimit(100)]
    fn mc_serialize(&self, serializer: &mut McSerializer) -> (r: Result<(), SerializingErr>) {
        let ghost l0 = serializer.output@;
        let _ = self.crafting_open.mc_serialize(serializer);
        let ghost l1 = serializer.output@;
        let _ = self.crafting_filter.mc_serialize(serializer);
        let ghost l2 = serializer.output@;
        let _ = self.smelting_open.mc_serialize(serializer);
        let ghost l3 = serializer.output@;
        let _ = self.smelting_filter.mc_serialize(serializer);
        let ghost l4 = serializer.output@;
        let _ = self.blasting_open.mc_serialize(serializer);
        let ghost l5 = serializer.output@;
        let _ = self.blasting_filter.mc_serialize(serializer);
        let ghost l6 = serializer.output@;
        let _ = self.smoking_open.mc_serialize(serializer);
        let ghost l7 = serializer.output@;
        let _ = self.smoking_filter.mc_serialize(serializer);
        let ghost l8 = serializer.output@;
        proof {
            vstd::seq_lib::lemma_concat_associative(l6, <bool as McSerialize>::spec_serialize(self.smoking_open.deep_view()), <bool as McSerialize>::spec_serialize(self.smoking_filter.deep_view()));
            assert(l8 == l6 + (<bool as McSerialize>::spec_serialize(self.smoking_open.deep_view()) + (<bool as McSerialize>::spec_serialize(self.smoking_filter.deep_view()))));
            vstd::seq_lib::lemma_concat_associative(l5, <bool as McSerialize>::spec_serialize(self.blasting_filter.deep_view()), <bool as McSerialize>::spec_serialize(self.smoking_open.deep_view()) + (<bool as McSerialize>::spec_serialize(self.smoking_filter.deep_view())));
            assert(l8 == l5 + (<bool as McSerialize>::spec_serialize(self.blasting_filter.deep_view()) + (<bool as McSerialize>::spec_serialize(self.smoking_open.deep_view()) + (<bool as McSerialize>::spec_serialize(self.smoking_filter.deep_view())))));
            vstd::seq_lib::lemma_concat_associative(l4, <bool as McSerialize>::spec_serialize(self.blasting_open.deep_view()), <bool as McSerialize>::spec_serialize(self.blasting_filter.deep_view()) + (<bool as McSerialize>::spec_serialize(self.smoking_open.deep_view()) + (<bool as McSerialize>::spec_serialize(self.smoking_filter.deep_view()))));
            assert(l8 == l4 + (<bool as McSerialize>::spec_serialize(self.blasting_open.deep_view()) + (<bool as McSerialize>::spec_serialize(self.blasting_filter.deep_view()) + (<bool as McSerialize>::spec_serialize(self.smoking_open.deep_view()) + (<bool as McSerialize>::spec_serialize(self.smoking_filter.deep_view()))))));
            vstd::seq_lib::lemma_concat_associative(l3, <bool as McSerialize>::spec_serialize(self.smelting_filter.deep_view()), <bool as McSerialize>::spec_serialize(self.blasting_open.deep_view()) + (<bool as McSerialize>::spec_serialize(self.blasting_filter.deep_view()) + (<bool as McSerialize>::spec_serialize(self.smoking_open.deep_view()) + (<bool as McSerialize>::spec_serialize(self.smoking_filter.deep_view())))));
            assert(l8 == l3 + (<bool as McSerialize>::spec_serialize(self.smelting_filter.deep_view()) + (<bool as McSerialize>::spec_serialize(self.blasting_open.deep_view()) + (<bool as McSerialize>::spec_serialize(self.blasting_filter.deep_view()) + (<bool as McSerialize>::spec_serialize(self.smoking_open.deep_view()) + (<bool as McSerialize>::spec_serialize(self.smoking_filter.deep_view())))))));
            vstd::seq_lib::lemma_concat_associative(l2, <bool as McSerialize>::spec_serialize(self.smelting_open.deep_view()), <bool as McSerialize>::spec_serialize(self.smelting_filter.deep_view()) + (<bool as McSerialize>::spec_serialize(self.blasting_open.deep_view()) + (<bool as McSerialize>::spec_serialize(self.blasting_filter.deep_view()) + (<bool as McSerialize>::spec_serialize(self.smoking_open.deep_view()) + (<bool as McSerialize>::spec_serialize(self.smoking_filter.deep_view()))))));
            assert(l8 == l2 + (<bool as McSerialize>::spec_serialize(self.smelting_open.deep_view()) + (<bool as McSerialize>::spec_serialize(self.smelting_filter.deep_view()) + (<bool as McSerialize>::spec_serialize(self.blasting_open.deep_view()) + (<bool as McSerialize>::spec_serialize(self.blasting_filter.deep_view()) + (<bool as McSerialize>::spec_serialize(self.smoking_open.deep_view()) + (<bool as McSerialize>::spec_serialize(self.smoking_filter.deep_view()))))))));
            vstd::seq_lib::lemma_concat_associative(l1, <bool as McSerialize>::spec_serialize(self.crafting_filter.deep_view()), <bool as McSerialize>::spec_serialize(self.smelting_open.deep_view()) + (<bool as McSerialize>::spec_serialize(self.smelting_filter.deep_view()) + (<bool as McSerialize>::spec_serialize(self.blasting_open.deep_view()) + (<bool as McSerialize>::spec_serialize(self.blasting_filter.deep_view()) + (<bool as McSerialize>::spec_serialize(self.smoking_open.deep_view()) + (<bool as McSerialize>::spec_serialize(self.smoking_filter.deep_view())))))));
            assert(l8 == l1 + (<bool as McSerialize>::spec_serialize(self.crafting_filter.deep_view()) + (<bool as McSerialize>::spec_serialize(self.smelting_open.deep_view()) + (<bool as McSerialize>::spec_serialize(self.smelting_filter.deep_view()) + (<bool as McSerialize>::spec_serialize(self.blasting_open.deep_view()) + (<bool as McSerialize>::spec_serialize(self.blasting_filter.deep_view()) + (<bool as McSerialize>::spec_serialize(self.smoking_open.deep_view()) + (<bool as McSerialize>::spec_serialize(self.smoking_filter.deep_view())))))))));
            vstd::seq_lib::lemma_concat_associative(l0, <bool as McSerialize>::spec_serialize(self.crafting_open.deep_view()), <bool as McSerialize>::spec_serialize(self.crafting_filter.deep_view()) + (<bool as McSerialize>::spec_serialize(self.smelting_open.deep_view()) + (<bool as McSerialize>::spec_serialize(self.smelting_filter.deep_view()) + (<bool as McSerialize>::spec_serialize(self.blasting_open.deep_view()) + (<bool as McSerialize>::spec_serialize(self.blasting_filter.deep_view()) + (<bool as McSerialize>::spec_serialize(self.smoking_open.deep_view()) + (<bool as McSerialize>::spec_serialize(self.smoking_filter.deep_view()))))))));
            assert(l8 == l0 + (<bool as McSerialize>::spec_serialize(self.crafting_open.deep_view()) + (<bool as McSerialize>::spec_serialize(self.crafting_filter.deep_view()) + (<bool as McSerialize>::spec_serialize(self.smelting_open.deep_view()) + (<bool as McSerialize>::spec_serialize(self.smelting_filter.deep_view()) + (<bool as McSerialize>::spec_serialize(self.blasting_open.deep_view()) + (<bool as McSerialize>::spec_serialize(self.blasting_filter.deep_view()) + (<bool as McSerialize>::spec_serialize(self.smoking_open.deep_view()) + (<bool as McSerialize>::spec_serialize(self.smoking_filter.deep_view()))))))))));
        }
        Ok(())
    }
}

impl McDeserialize for RecipeBookSettingsPacket {
    open spec fn spec_deserialize(s: Seq<u8>) -> ParseResult<Self::V> {
        RecipeBookSettingsPacketFields::spec_deserialize(s)
    }

    proof fn lemma_deserialize_len(s: Seq<u8>) {
        RecipeBookSettingsPacketFields::lemma_deserialize_len(s);
    }

    fn mc_deserialize(deserializer: &mut McDeserializer) -> (r: Result<RecipeBookSettingsPacket, SerializingErr>) {
        let (crafting_open, (crafting_filter, (smelting_open, (smelting_filter, (blasting_open, (blasting_filter, (smoking_open, smoking_filter))))))) = RecipeBookSettingsPacketFields::mc_deserialize(deserializer)?;
        Ok(RecipeBookSettingsPacket { crafting_open, crafting_filter, smelting_open, smelting_filter, blasting_open, blasting_filter, smoking_open, smoking_filter })
    }
}

impl McRoundTrip for RecipeBookSettingsPacket {
    open spec fn spec_well_formed(v: Self::V) -> bool {
        RecipeBookSettingsPacketFields::spec_well_formed(v)
    }

    proof fn lemma_round_trip(v: Self::V, rest: Seq<u8>) {
        RecipeBookSettingsPacketFields::lemma_round_trip(v, rest);
    }
}
impl RecipeBookSettingsPacket {
    pub fn new(crafting_open: bool, crafting_filter: bool, smelting_open: bool, smelting_filter: bool, blasting_open: bool, blasting_filter: bool, smoking_open: bool, smoking_filter: bool) -> (p: Self)
        ensures
            p == (RecipeBookSettingsPacket { crafting_open, crafting_filter, smelting_open, smelting_filter, blasting_open, blasting_filter, smoking_open, smoking_filter }),
    {
        RecipeBookSettingsPacket { crafting_open, crafting_filter, smelting_open, smelting_filter, blasting_open, blasting_filter, smoking_open, smoking_filter }
    }
}

/// The fields of [`RemoveEntitiesPacket`] as they are sent, in order.
pub type RemoveEntitiesPacketFields = PrefixedArray<VarInt>;

/// The body of the RemoveEntities packet (play state, to the client, id 0x4B).
#[derive(Debug, Clone, PartialEq)]
pub struct RemoveEntitiesPacket {
    pub entities: PrefixedArray<VarInt>,
}

impl DeepView for RemoveEntitiesPacket {
    type V = <RemoveEntitiesPacketFields as DeepView>::V;

    open spec fn deep_view(&self) -> Self::V {
        self.entities.deep_view()
    }
}

impl McSerialize for RemoveEntitiesPacket {
    open spec fn spec_serialize(v: Self::V) -> Seq<u8> {
        RemoveEntitiesPacketFields::spec_serialize(v)
    }

    open spec fn spec_can_serialize(v: Self::V) -> bool {
        RemoveEntitiesPacketFields::spec_can_serialize(v)
    }

    fn mc_serialize(&self, serializer: &mut McSerializer) -> (r: Result<(), SerializingErr>) {
        let _ = self.entities.mc_serialize(serializer);
        Ok(())
    }
}

impl McDeserialize for RemoveEntitiesPacket {
    open spec fn spec_deserialize(s: Seq<u8>) -> ParseResult<Self::V> {
        RemoveEntitiesPacketFields::spec_deserialize(s)
    }

    proof fn lemma_deserialize_len(s: Seq<u8>) {
        RemoveEntitiesPacketFields::lemma_deserialize_len(s);
    }

    fn mc_deserialize(deserializer: &mut McDeserializer) -> (r: Result<RemoveEntitiesPacket, SerializingErr>) {
        let entities = RemoveEntitiesPacketFields::mc_deserialize(deserializer)?;
        Ok(RemoveEntitiesPacket { entities })
    }
}

impl McRoundTrip for RemoveEntitiesPacket {
    open spec fn spec_well_formed(v: Self::V) -> bool {
        RemoveEntitiesPacketFields::spec_well_formed(v)
    }

    proof fn lemma_round_trip(v: Self::V, rest: Seq<u8>) {
        RemoveEntitiesPacketFields::lemma_round_trip(v, rest);
    }
}
impl RemoveEntitiesPacket {
    pub fn new(entities: PrefixedArray<VarInt>) -> (p: Self)
        ensures
            p == (RemoveEntitiesPacket { entities }),
    {
        RemoveEntitiesPacket { entities }
    }
}

/// The fields of [`RemoveEntityEffectPacket`] as they are sent, in order.
pub type RemoveEntityEffectPacketFields = (VarInt, VarInt);

/// The body of the RemoveEntityEffect packet (play state, to the client, id 0x4C).
#[derive(Debug, Clone, PartialEq)]
pub struct RemoveEntityEffectPacket {
    pub entity_id: VarInt,
    pub effect_id: VarInt,
}

impl DeepView for RemoveEntityEffectPacket {
    type V = <RemoveEntityEffectPacketFields as DeepView>::V;

    open spec fn deep_view(&self) -> Self::V {
        (self.entity_id.deep_view(), self.effect_id.deep_view())
    }
}

impl McSerialize for RemoveEntityEffectPacket {
    open spec fn spec_serialize(v: Self::V) -> Seq<u8> {
        RemoveEntityEffectPacketFields::spec_serialize(v)
    }

    open spec fn spec_can_serialize(v: Self::V) -> bool {
        RemoveEntityEffectPacketFields::spec_can_serialize(v)
    }

    fn mc_serialize(&self, serializer: &mut McSerializer) -> (r: Result<(), SerializingErr>) {
        let _ = self.entity_id.mc_serialize(serializer);
        let _ = self.effect_id.mc_serialize(serializer);
        assert(serializer.output@ == old(serializer).output@ + Self::spec_serialize(self.deep_view()));
        Ok(())
    }
}

impl McDeserialize for RemoveEntityEffectPacket {
    open spec fn spec_deserialize(s: Seq<u8>) -> ParseResult<Self::V> {
        RemoveEntityEffectPacketFields::spec_deserialize(s)
    }

    proof fn lemma_deserialize_len(s: Seq<u8>) {
        RemoveEntityEffectPacketFields::lemma_deserialize_len(s);
    }

    fn mc_deserialize(deserializer: &mut McDeserializer) -> (r: Result<RemoveEntityEffectPacket, SerializingErr>) {
        let (entity_id, effect_id) = RemoveEntityEffectPacketFields::mc_deserialize(deserializer)?;
        Ok(RemoveEntityEffectPacket { entity_id, effect_id })
    }
}

impl McRoundTrip for RemoveEntityEffectPacket {
    open spec fn spec_well_formed(v: Self::V) -> bool {
        RemoveEntityEffectPacketFields::spec_well_formed(v)
    }

    proof fn lemma_round_trip(v: Self::V, rest: Seq<u8>) {
        RemoveEntityEffectPacketFields::lemma_round_trip(v, rest);
    }
}
impl RemoveEntityEffectPacket {
    pub fn new(entity_id: VarInt, effect_id: VarInt) -> (p: Self)
        ensures
            p == (RemoveEntityEffectPacket { entity_id, effect_id }),
    {
        RemoveEntityEffectPacket { entity_id, effect_id }
    }
}

/// The fields of [`ResetScorePacket`] as they are sent, in order.
pub type ResetScorePacketFields = (String, PrefixedOptional<String>);

/// The body of the ResetScore packet (play state, to the client, id 0x4D).
#[derive(Debug, Clone, PartialEq)]
pub struct ResetScorePacket {
    pub entity_name: String,
    pub objective_name: PrefixedOptional<String>,
}

impl DeepView for ResetScorePacket {
    type V = <ResetScorePacketFields as DeepView>::V;

    open spec fn deep_view(&self) -> Self::V {
        (self.entity_name.deep_view(), self.objective_name.deep_view())
    }
}

impl McSerialize for ResetScorePacket {
    open spec fn spec_serialize(v: Self::V) -> Seq<u8> {
        ResetScorePacketFields::spec_serialize(v)
    }

    open spec fn spec_can_serialize(v: Self::V) -> bool {
        ResetScorePacketFields::spec_can_serialize(v)
    }

    fn mc_serialize(&self, serializer: &mut McSerializer) -> (r: Result<(), SerializingErr>) {
        let _ = self.entity_name.mc_serialize(serializer);
        let _ = self.objective_name.mc_serialize(serializer);
        assert(serializer.output@ == old(serializer).output@ + Self::spec_serialize(self.deep_view()));
        Ok(())
    }
}

impl McDeserialize for ResetScorePacket {
    open spec fn spec_deserialize(s: Seq<u8>) -> ParseResult<Self::V> {
        ResetScorePacketFields::spec_deserialize(s)
    }

    proof fn lemma_deserialize_len(s: Seq<u8>) {
        ResetScorePacketFields::lemma_deserialize_len(s);
    }

    fn mc_deserialize(deserializer: &mut McDeserializer) -> (r: Result<ResetScorePacket, SerializingErr>) {
        let (entity_name, objective_name) = ResetScorePacketFields::mc_deserialize(deserializer)?;
        Ok(ResetScorePacket { entity_name, objective_name })
    }
}

impl McRoundTrip for ResetScorePacket {
    open spec fn spec_well_formed(v: Self::V) -> bool {
        ResetScorePacketFields::spec_well_formed(v)
    }

    proof fn lemma_round_trip(v: Self::V, rest: Seq<u8>) {
        ResetScorePacketFields::lemma_round_trip(v, rest);
    }
}
impl ResetScorePacket {
    pub fn new(entity_name: String, objective_name: PrefixedOptional<String>) -> (p: Self)
        ensures
            p == (ResetScorePacket { entity_name, objective_name }),
    {
        ResetScorePacket { entity_name, objective_name }
    }
}

/// The fields of [`SelectAdvancementsTabPacket`] as they are sent, in order.
pub type SelectAdvancementsTabPacketFields = PrefixedOptional<String>;

/// The body of the SelectAdvancementsTab packet (play state, to the client, id 0x53).
#[derive(Debug, Clone, PartialEq)]
pub struct SelectAdvancementsTabPacket {
    pub tab_id: PrefixedOptional<String>,
}

impl DeepView for SelectAdvancementsTabPacket {
    type V = <SelectAdvancementsTabPacketFields as DeepView>::V;

    open spec fn deep_view(&self) -> Self::V {
        self.tab_id.deep_view()
    }
}

impl McSerialize for SelectAdvancementsTabPacket {
    open spec fn spec_serialize(v: Self::V) -> Seq<u8> {
        SelectAdvancementsTabPacketFields::spec_serialize(v)
    }

    open spec fn spec_can_serialize(v: Self::V) -> bool {
        SelectAdvancementsTabPacketFields::spec_can_serialize(v)
    }

    fn mc_serialize(&self, serializer: &mut McSerializer) -> (r: Result<(), SerializingErr>) {
        let _ = self.tab_id.mc_serialize(serializer);
        Ok(())
    }
}

impl McDeserialize for SelectAdvancementsTabPacket {
    open spec fn spec_deserialize(s: Seq<u8>) -> ParseResult<Self::V> {
        SelectAdvancementsTabPacketFields::spec_deserialize(s)
    }

    proof fn lemma_deserialize_len(s: Seq<u8>) {
        SelectAdvancementsTabPacketFields::lemma_deserialize_len(s);
    }

    fn mc_deserialize(deserializer: &mut McDeserializer) -> (r: Result<SelectAdvancementsTabPacket, SerializingErr>) {
        let tab_id = SelectAdvancementsTabPacketFields::mc_deserialize(deserializer)?;
        Ok(SelectAdvancementsTabPacket { tab_id })
    }
}

impl McRoundTrip for SelectAdvancementsTabPacket {
    open spec fn spec_well_formed(v: Self::V) -> bool {
        SelectAdvancementsTabPacketFields::spec_well_formed(v)
    }

    proof fn lemma_round_trip(v: Self::V, rest: Seq<u8>) {
        SelectAdvancementsTabPacketFields::lemma_round_trip(v, rest);
    }
}
impl SelectAdvancementsTabPacket {
    pub fn new(tab_id: PrefixedOptional<String>) -> (p: Self)
        ensures
            p == (SelectAdvancementsTabPacket { tab_id }),
    {
        SelectAdvancementsTabPacket { tab_id }
    }
}

/// The fields of [`SetBorderCenterPacket`] as they are sent, in order.
pub type SetBorderCenterPacketFields = (u64, u64);

/// The body of the SetBorderCenter packet (play state, to the client, id 0x56).
#[derive(Debug, Clone, PartialEq)]
pub struct SetBorderCenterPacket {
    pub x: u64,
    pub z: u64,
}

impl DeepView for SetBorderCenterPacket {
    type V = <SetBorderCenterPacketFields as DeepView>::V;

    open spec fn deep_view(&self) -> Self::V {
        (self.x.deep_view(), self.z.deep_view())
    }
}

impl McSerialize for SetBorderCenterPacket {
    open spec fn spec_serialize(v: Self::V) -> Seq<u8> {
        SetBorderCenterPacketFields::spec_serialize(v)
    }

    open spec fn spec_can_serialize(v: Self::V) -> bool {
        SetBorderCenterPacketFields::spec_can_serialize(v)
    }

    fn mc_serialize(&self, serializer: &mut McSerializer) -> (r: Result<(), SerializingErr>) {
        let _ = self.x.mc_serialize(serializer);
        let _ = self.z.mc_serialize(serializer);
        assert(serializer.output@ == old(serializer).output@ + Self::spec_serialize(self.deep_view()));
        Ok(())
    }
}

impl McDeserialize for SetBorderCenterPacket {
    open spec fn spec_deserialize(s: Seq<u8>) -> ParseResult<Self::V> {
        SetBorderCenterPacketFields::spec_deserialize(s)
    }

    proof fn lemma_deserialize_len(s: Seq<u8>) {
        SetBorderCenterPacketFields::lemma_deserialize_len(s);
    }

    fn mc_deserialize(deserializer: &mut McDeserializer) -> (r: Result<SetBorderCenterPacket, SerializingErr>) {
        let (x, z) = SetBorderCenterPacketFields::mc_deserialize(deserializer)?;
        Ok(SetBorderCenterPacket { x, z })
    }
}

impl McRoundTrip for SetBorderCenterPacket {
    open spec fn spec_well_formed(v: Self::V) -> bool {
        SetBorderCenterPacketFields::spec_well_formed(v)
    }

    proof fn lemma_round_trip(v: Self::V, rest: Seq<u8>) {
        SetBorderCenterPacketFields::lemma_round_trip(v, rest);
    }
}
impl SetBorderCenterPacket {
    pub fn new(x: u64, z: u64) -> (p: Self)
        ensures
            p == (SetBorderCenterPacket { x, z }),
    {
        SetBorderCenterPacket { x, z }
    }
}

/// The fields of [`SetBorderSizePacket`] as they are sent, in order.
pub type SetBorderSizePacketFields = u64;

/// The body of the SetBorderSize packet (play state, to the client, id 0x58).
#[derive(Debug, Clone, PartialEq)]
pub struct SetBorderSizePacket {
    pub diameter: u64,
}

impl DeepView for SetBorderSizePacket {
    type V = <SetBorderSizePacketFields as DeepView>::V;

    open spec fn deep_view(&self) -> Self::V {
        self.diameter.deep_view()
    }
}

impl McSerialize for SetBorderSizePacket {
    open spec fn spec_serialize(v: Self::V) -> Seq<u8> {
        SetBorderSizePacketFields::spec_serialize(v)
    }

    open spec fn spec_can_serialize(v: Self::V) -> bool {
        SetBorderSizePacketFields::spec_can_serialize(v)
    }

    fn mc_serialize(&self, serializer: &mut McSerializer) -> (r: Result<(), SerializingErr>) {
        let _ = self.diameter.mc_serialize(serializer);
        Ok(())
    }
}

impl McDeserialize for SetBorderSizePacket {
    open spec fn spec_deserialize(s: Seq<u8>) -> ParseResult<Self::V> {
        SetBorderSizePacketFields::spec_deserialize(s)
    }

    proof fn lemma_deserialize_len(s: Seq<u8>) {
        SetBorderSizePacketFields::lemma_deserialize_len(s);
    }

    fn mc_deserialize(deserializer: &mut McDeserializer) -> (r: Result<SetBorderSizePacket, SerializingErr>) {
        let diameter = SetBorderSizePacketFields::mc_deserialize(deserializer)?;
        Ok(SetBorderSizePacket { diameter })
    }
}

impl McRoundTrip for SetBorderSizePacket {
    open spec fn spec_well_formed(v: Self::V) -> bool {
        SetBorderSizePacketFields::spec_well_formed(v)
    }

    proof fn lemma_round_trip(v: Self::V, rest: Seq<u8>) {
        SetBorderSizePacketFields::lemma_round_trip(v, rest);
    }
}
impl SetBorderSizePacket {
    pub fn new(diameter: u64) -> (p: Self)
        ensures
            p == (SetBorderSizePacket { diameter }),
    {
        SetBorderSizePacket { diameter }
    }
}

/// The fields of [`SetBorderWarningDelayPacket`] as they are sent, in order.
pub type SetBorderWarningDelayPacketFields = VarInt;

/// The body of the SetBorderWarningDelay packet (play state, to the client, id 0x59).
#[derive(Debug, Clone, PartialEq)]
pub struct SetBorderWarningDelayPacket {
    pub warning_delay: VarInt,
}

impl DeepView for SetBorderWarningDelayPacket {
    type V = <SetBorderWarningDelayPacketFields as DeepView>::V;

    open spec fn deep_view(&self) -> Self::V {
        self.warning_delay.deep_view()
    }
}

impl McSerialize for SetBorderWarningDelayPacket {
    open spec fn spec_serialize(v: Self::V) -> Seq<u8> {
        SetBorderWarningDelayPacketFields::spec_serialize(v)
    }

    open spec fn spec_can_serialize(v: Self::V) -> bool {
        SetBorderWarningDelayPacketFields::spec_can_serialize(v)
    }

    fn mc_serialize(&self, serializer: &mut McSerializer) -> (r: Result<(), SerializingErr>) {
        let _ = self.warning_delay.mc_serialize(serializer);
        Ok(())
    }
}

impl McDeserialize for SetBorderWarningDelayPacket {
    open spec fn spec_deserialize(s: Seq<u8>) -> ParseResult<Self::V> {
        SetBorderWarningDelayPacketFields::spec_deserialize(s)
    }

    proof fn lemma_deserialize_len(s: Seq<u8>) {
        SetBorderWarningDelayPacketFields::lemma_deserialize_len(s);
    }

    fn mc_deserialize(deserializer: &mut McDeserializer) -> (r: Result<SetBorderWarningDelayPacket, SerializingErr>) {
        let warning_delay = SetBorderWarningDelayPacketFields::mc_deserialize(deserializer)?;
        Ok(SetBorderWarningDelayPacket { warning_delay })
    }
}

impl McRoundTrip for SetBorderWarningDelayPacket {
    open spec fn spec_well_formed(v: Self::V) -> bool {
        SetBorderWarningDelayPacketFields::spec_well_formed(v)
    }

    proof fn lemma_round_trip(v: Self::V, rest: Seq<u8>) {
        SetBorderWarningDelayPacketFields::lemma_round_trip(v, rest);
    }
}
impl SetBorderWarningDelayPacket {
    pub fn new(warning_delay: VarInt) -> (p: Self)
        ensures
            p == (SetBorderWarningDelayPacket { warning_delay }),
    {
        SetBorderWarningDelayPacket { warning_delay }
    }
}

/// The fields of [`SetBorderWarningDistancePacket`] as they are sent, in order.
pub type SetBorderWarningDistancePacketFields = VarInt;

/// The body of the SetBorderWarningDistance packet (play state, to the client, id 0x5A).
#[derive(Debug, Clone, PartialEq)]
pub struct SetBorderWarningDistancePacket {
    pub warning_distance: VarInt,
}

impl DeepView for SetBorderWarningDistancePacket {
    type V = <SetBorderWarningDistancePacketFields as DeepView>::V;

    open spec fn deep_view(&self) -> Self::V {
        self.warning_distance.deep_view()
    }
}

impl McSerialize for SetBorderWarningDistancePacket {
    open spec fn spec_serialize(v: Self::V) -> Seq<u8> {
        SetBorderWarningDistancePacketFields::spec_serialize(v)
    }

    open spec fn spec_can_serialize(v: Self::V) -> bool {
        SetBorderWarningDistancePacketFields::spec_can_serialize(v)
    }

    fn mc_serialize(&self, serializer: &mut McSerializer) -> (r: Result<(), SerializingErr>) {
        let _ = self.warning_distance.mc_serialize(serializer);
        Ok(())
    }
}

impl McDeserialize for SetBorderWarningDistancePacket {
    open spec fn spec_deserialize(s: Seq<u8>) -> ParseResult<Self::V> {
        SetBorderWarningDistancePacketFields::spec_deserialize(s)
    }

    proof fn lemma_deserialize_len(s: Seq<u8>) {
        SetBorderWarningDistancePacketFields::lemma_deserialize_len(s);
    }

    fn mc_deserialize(deserializer: &mut McDeserializer) -> (r: Result<SetBorderWarningDistancePacket, SerializingErr>) {
        let warning_distance = SetBorderWarningDistancePacketFields::mc_deserialize(deserializer)?;
        Ok(SetBorderWarningDistancePacket { warning_distance })
    }
}

impl McRoundTrip for SetBorderWarningDistancePacket {
    open spec fn spec_well_formed(v: Self::V) -> bool {
        SetBorderWarningDistancePacketFields::spec_well_formed(v)
    }

    proof fn lemma_round_trip(v: Self::V, rest: Seq<u8>) {
        SetBorderWarningDistancePacketFields::lemma_round_trip(v, rest);
    }
}
impl SetBorderWarningDistancePacket {
    pub fn new(warning_distance: VarInt) -> (p: Self)
        ensures
            p == (SetBorderWarningDistancePacket { warning_distance }),
    {
        SetBorderWarningDistancePacket { warning_distance }
    }
}

/// The fields of [`SetCameraPacket`] as they are sent, in order.
pub type SetCameraPacketFields = VarInt;

/// The body of the SetCamera packet (play state, to the client, id 0x5B).
#[derive(Debug, Clone, PartialEq)]
pub struct SetCameraPacket {
    pub camera_entity_id: VarInt,
}

impl DeepView for SetCameraPacket {
    type V = <SetCameraPacketFields as DeepView>::V;

    open spec fn deep_view(&self) -> Self::V {
        self.camera_entity_id.deep_view()
    }
}

impl McSerialize for SetCameraPacket {
    open spec fn spec_serialize(v: Self::V) -> Seq<u8> {
        SetCameraPacketFields::spec_serialize(v)
    }

    open spec fn spec_can_serialize(v: Self::V) -> bool {
        SetCameraPacketFields::spec_can_serialize(v)
    }

    fn mc_serialize(&self, serializer: &mut McSerializer) -> (r: Result<(), SerializingErr>) {
        let _ = self.camera_entity_id.mc_serialize(serializer);
        Ok(())
    }
}

impl McDeserialize for SetCameraPacket {
    open spec fn spec_deserialize(s: Seq<u8>) -> ParseResult<Self::V> {
        SetCameraPacketFields::spec_deserialize(s)
    }

    proof fn lemma_deserialize_len(s: Seq<u8>) {
        SetCameraPacketFields::lemma_deserialize_len(s);
    }

    fn mc_deserialize(deserializer: &mut McDeserializer) -> (r: Result<SetCameraPacket, SerializingErr>) {
        let camera_entity_id = SetCameraPacketFields::mc_deserialize(deserializer)?;
        Ok(SetCameraPacket { camera_entity_id })
    }
}

impl McRoundTrip for SetCameraPacket {
    open spec fn spec_well_formed(v: Self::V) -> bool {
        SetCameraPacketFields::spec_well_formed(v)
    }

    proof fn lemma_round_trip(v: Self::V, rest: Seq<u8>) {
        SetCameraPacketFields::lemma_round_trip(v, rest);
    }
}
impl SetCameraPacket {
    pub fn new(camera_entity_id: VarInt) -> (p: Self)
        ensures
            p == (SetCameraPacket { camera_entity_id }),
    {
        SetCameraPacket { camera_entity_id }
    }
}

/// The fields of [`SetCenterChunkPacket`] as they are sent, in order.
pub type SetCenterChunkPacketFields = (VarInt, VarInt);

/// The body of the SetCenterChunk packet (play state, to the client, id 0x5C).
#[derive(Debug, Clone, PartialEq)]
pub struct SetCenterChunkPacket {
    pub x: VarInt,
    pub z: VarInt,
}

impl DeepView for SetCenterChunkPacket {
    type V = <SetCenterChunkPacketFields as DeepView>::V;

    open spec fn deep_view(&self) -> Self::V {
        (self.x.deep_view(), self.z.deep_view())
    }
}

impl McSerialize for SetCenterChunkPacket {
    open spec fn spec_serialize(v: Self::V) -> Seq<u8> {
        SetCenterChunkPacketFields::spec_serialize(v)
    }

    open spec fn spec_can_serialize(v: Self::V) -> bool {
        SetCenterChunkPacketFields::spec_can_serialize(v)
    }

    fn mc_serialize(&self, serializer: &mut McSerializer) -> (r: Result<(), SerializingErr>) {
        let _ = self.x.mc_serialize(serializer);
        let _ = self.z.mc_serialize(serializer);
        assert(serializer.output@ == old(serializer).output@ + Self::spec_serialize(self.deep_view()));
        Ok(())
    }
}

impl McDeserialize for SetCenterChunkPacket {
    open spec fn spec_deserialize(s: Seq<u8>) -> ParseResult<Self::V> {
        SetCenterChunkPacketFields::spec_deserialize(s)
    }

    proof fn lemma_deserialize_len(s: Seq<u8>) {
        SetCenterChunkPacketFields::lemma_deserialize_len(s);
    }

    fn mc_deserialize(deserializer: &mut McDeserializer) -> (r: Result<SetCenterChunkPacket, SerializingErr>) {
        let (x, z) = SetCenterChunkPacketFields::mc_deserialize(deserializer)?;
        Ok(SetCenterChunkPacket { x, z })
    }
}

impl McRoundTrip for SetCenterChunkPacket {
    open spec fn spec_well_formed(v: Self::V) -> bool {
        SetCenterChunkPacketFields::spec_well_formed(v)
    }

    proof fn lemma_round_trip(v: Self::V, rest: Seq<u8>) {
        SetCenterChunkPacketFields::lemma_round_trip(v, rest);
    }
}
impl SetCenterChunkPacket {
    pub fn new(x: VarInt, z: VarInt) -> (p: Self)
        ensures
            p == (SetCenterChunkPacket { x, z }),
    {
        SetCenterChunkPacket { x, z }
    }
}

/// The fields of [`SetRenderDistancePacket`] as they are sent, in order.
pub type SetRenderDistancePacketFields = VarInt;

/// The body of the SetRenderDistance packet (play state, to the client, id 0x5D).
#[derive(Debug, Clone, PartialEq)]
pub struct SetRenderDistancePacket {
    pub render_distance: VarInt,
}

impl DeepView for SetRenderDistancePacket {
    type V = <SetRenderDistancePacketFields as DeepView>::V;

    open spec fn deep_view(&self) -> Self::V {
        self.render_distance.deep_view()
    }
}

impl McSerialize for SetRenderDistancePacket {
    open spec fn spec_serialize(v: Self::V) -> Seq<u8> {
        SetRenderDistancePacketFields::spec_serialize(v)
    }

    open spec fn spec_can_serialize(v: Self::V) -> bool {
        SetRenderDistancePacketFields::spec_can_serialize(v)
    }

    fn mc_serialize(&self, serializer: &mut McSerializer) -> (r: Result<(), SerializingErr>) {
        let _ = self.render_distance.mc_serialize(serializer);
        Ok(())
    }
}

impl McDeserialize for SetRenderDistancePacket {
    open spec fn spec_deserialize(s: Seq<u8>) -> ParseResult<Self::V> {
        SetRenderDistancePacketFields::spec_deserialize(s)
    }

    proof fn lemma_deserialize_len(s: Seq<u8>) {
        SetRenderDistancePacketFields::lemma_deserialize_len(s);
    }

    fn mc_deserialize(deserializer: &mut McDeserializer) -> (r: Result<SetRenderDistancePacket, SerializingErr>) {
        let render_distance = SetRenderDistancePacketFields::mc_deserialize(deserializer)?;
        Ok(SetRenderDistancePacket { render_distance })
    }
}

impl McRoundTrip for SetRenderDistancePacket {
    open spec fn spec_well_formed(v: Self::V) -> bool {
        SetRenderDistancePacketFields::spec_well_formed(v)
    }

    proof fn lemma_round_trip(v: Self::V, rest: Seq<u8>) {
        SetRenderDistancePacketFields::lemma_round_trip(v, rest);
    }
}
impl SetRenderDistancePacket {
    pub fn new(render_distance: VarInt) -> (p: Self)
        ensures
            p == (SetRenderDistancePacket { render_distance }),
    {
        SetRenderDistancePacket { render_distance }
    }
}

/// The fields of [`SetDefaultSpawnPositionPacket`] as they are sent, in order.
pub type SetDefaultSpawnPositionPacketFields = (String, (Position, (u32, u32)));

/// The body of the SetDefaultSpawnPosition packet (play state, to the client, id 0x5F).
#[derive(Debug, Clone, PartialEq)]
pub struct SetDefaultSpawnPositionPacket {
    pub dimension_name: String,
    pub location: Position,
    pub yaw: u32,
    pub pitch: u32,
}

impl DeepView for SetDefaultSpawnPositionPacket {
    type V = <SetDefaultSpawnPositionPacketFields as DeepView>::V;

    open spec fn deep_view(&self) -> Self::V {
        (self.dimension_name.deep_view(), (self.location.deep_view(), (self.yaw.deep_view(), self.pitch.deep_view())))
    }
}

impl McSerialize for SetDefaultSpawnPositionPacket {
    open spec fn spec_serialize(v: Self::V) -> Seq<u8> {
        SetDefaultSpawnPositionPacketFields::spec_serialize(v)
    }

    open spec fn spec_can_serialize(v: Self::V) -> bool {
        SetDefaultSpawnPositionPacketFields::spec_can_serialize(v)
    }

    fn mc_serialize(&self, serializer: &mut McSerializer) -> (r: Result<(), SerializingErr>) {
        let _ = self.dimension_name.mc_serialize(serializer);
        let _ = self.location.mc_serialize(serializer);
        let _ = self.yaw.mc_serialize(serializer);
        let _ = self.pitch.mc_serialize(serializer);
        assert(serializer.output@ == old(serializer).output@ + Self::spec_serialize(self.deep_view()));
        Ok(())
    }
}

impl McDeserialize for SetDefaultSpawnPositionPacket {
    open spec fn spec_deserialize(s: Seq<u8>) -> ParseResult<Self::V> {
        SetDefaultSpawnPositionPacketFields::spec_deserialize(s)
    }

    proof fn lemma_deserialize_len(s: Seq<u8>) {
        SetDefaultSpawnPositionPacketFields::lemma_deserialize_len(s);
    }

    fn mc_deserialize(deserializer: &mut McDeserializer) -> (r: Result<SetDefaultSpawnPositionPacket, SerializingErr>) {
        let (dimension_name, (location, (yaw, pitch))) = SetDefaultSpawnPositionPacketFields::mc_deserialize(deserializer)?;
        Ok(SetDefaultSpawnPositionPacket { dimension_name, location, yaw, pitch })
    }
}

impl McRoundTrip for SetDefaultSpawnPositionPacket {
    open spec fn spec_well_formed(v: Self::V) -> bool {
        SetDefaultSpawnPositionPacketFields::spec_well_formed(v)
    }

    proof fn lemma_round_trip(v: Self::V, rest: Seq<u8>) {
        SetDefaultSpawnPositionPacketFields::lemma_round_trip(v, rest);
    }
}
impl SetDefaultSpawnPositionPacket {
    pub fn new(dimension_name: String, location: Position, yaw: u32, pitch: u32) -> (p: Self)
        ensures
            p == (SetDefaultSpawnPositionPacket { dimension_name, location, yaw, pitch }),
    {
        SetDefaultSpawnPositionPacket { dimension_name, location, yaw, pitch }
    }
}

/// The fields of [`DisplayObjectivePacket`] as they are sent, in order.
pub type DisplayObjectivePacketFields = (VarInt, String);

/// The body of the DisplayObjective packet (play state, to the client, id 0x60).
#[derive(Debug, Clone, PartialEq)]
pub struct DisplayObjectivePacket {
    pub position: VarInt,
    pub score_name: String,
}

impl DeepView for DisplayObjectivePacket {
    type V = <DisplayObjectivePacketFields as DeepView>::V;

    open spec fn deep_view(&self) -> Self::V {
        (self.position.deep_view(), self.score_name.deep_view())
    }
}

impl McSerialize for DisplayObjectivePacket {
    open spec fn spec_serialize(v: Self::V) -> Seq<u8> {
        DisplayObjectivePacketFields::spec_serialize(v)
    }

    open spec fn spec_can_serialize(v: Self::V) -> bool {
        DisplayObjectivePacketFields::spec_can_serialize(v)
    }

    fn mc_serialize(&self, serializer: &mut McSerializer) -> (r: Result<(), SerializingErr>) {
        let _ = self.position.mc_serialize(serializer);
        let _ = self.score_name.mc_serialize(serializer);
        assert(serializer.output@ == old(serializer).output@ + Self::spec_serialize(self.deep_view()));
        Ok(())
    }
}

impl McDeserialize for DisplayObjectivePacket {
    open spec fn spec_deserialize(s: Seq<u8>) -> ParseResult<Self::V> {
        DisplayObjectivePacketFields::spec_deserialize(s)
    }

    proof fn lemma_deserialize_len(s: Seq<u8>) {
        DisplayObjectivePacketFields::lemma_deserialize_len(s);
    }

    fn mc_deserialize(deserializer: &mut McDeserializer) -> (r: Result<DisplayObjectivePacket, SerializingErr>) {
        let (position, score_name) = DisplayObjectivePacketFields::mc_deserialize(deserializer)?;
        Ok(DisplayObjectivePacket { position, score_name })
    }
}

impl McRoundTrip for DisplayObjectivePacket {
    open spec fn spec_well_formed(v: Self::V) -> bool {
        DisplayObjectivePacketFields::spec_well_formed(v)
    }

    proof fn lemma_round_trip(v: Self::V, rest: Seq<u8>) {
        DisplayObjectivePacketFields::lemma_round_trip(v, rest);
    }
}
impl DisplayObjectivePacket {
    pub fn new(position: VarInt, score_name: String) -> (p: Self)
        ensures
            p == (DisplayObjectivePacket { position, score_name }),
    {
        DisplayObjectivePacket { position, score_name }
    }
}

/// The fields of [`LinkEntriesPacket`] as they are sent, in order.
pub type LinkEntriesPacketFields = (i32, i32);

/// The body of the LinkEntries packet (play state, to the client, id 0x62).
#[derive(Debug, Clone, PartialEq)]
pub struct LinkEntriesPacket {
    pub attached_id: i32,
    pub holding_id: i32,
}

impl DeepView for LinkEntriesPacket {
    type V = <LinkEntriesPacketFields as DeepView>::V;

    open spec fn deep_view(&self) -> Self::V {
        (self.attached_id.deep_view(), self.holding_id.deep_view())
    }
}

impl McSerialize for LinkEntriesPacket {
    open spec fn spec_serialize(v: Self::V) -> Seq<u8> {
        LinkEntriesPacketFields::spec_serialize(v)
    }

    open spec fn spec_can_serialize(v: Self::V) -> bool {
        LinkEntriesPacketFields::spec_can_serialize(v)
    }

    fn mc_serialize(&self, serializer: &mut McSerializer) -> (r: Result<(), SerializingErr>) {
        let _ = self.attached_id.mc_serialize(serializer);
        let _ = self.holding_id.mc_serialize(serializer);
        assert(serializer.output@ == old(serializer).output@ + Self::spec_serialize(self.deep_view()));
        Ok(())
    }
}

impl McDeserialize for LinkEntriesPacket {
    open spec fn spec_deserialize(s: Seq<u8>) -> ParseResult<Self::V> {
        LinkEntriesPacketFields::spec_deserialize(s)
    }

    proof fn lemma_deserialize_len(s: Seq<u8>) {
        LinkEntriesPacketFields::lemma_deserialize_len(s);
    }

    fn mc_deserialize(deserializer: &mut McDeserializer) -> (r: Result<LinkEntriesPacket, SerializingErr>) {
        let (attached_id, holding_id) = LinkEntriesPacketFields::mc_deserialize(deserializer)?;
        Ok(LinkEntriesPacket { attached_id, holding_id })
    }
}

impl McRoundTrip for LinkEntriesPacket {
    open spec fn spec_well_formed(v: Self::V) -> bool {
        LinkEntriesPacketFields::spec_well_formed(v)
    }

    proof fn lemma_round_trip(v: Self::V, rest: Seq<u8>) {
        LinkEntriesPacketFields::lemma_round_trip(v, rest);
    }
}
impl LinkEntriesPacket {
    pub fn new(attached_id: i32, holding_id: i32) -> (p: Self)
        ensures
            p == (LinkEntriesPacket { attached_id, holding_id }),
    {
        LinkEntriesPacket { attached_id, holding_id }
    }
}

/// The fields of [`SetExperiencePacket`] as they are sent, in order.
pub type SetExperiencePacketFields = (u32, (VarInt, VarInt));

/// The body of the SetExperience packet (play state, to the client, id 0x65).
#[derive(Debug, Clone, PartialEq)]
pub struct SetExperiencePacket {
    pub experience_bar: u32,
    pub level: VarInt,
    pub total_experience: VarInt,
}

impl DeepView for SetExperiencePacket {
    type V = <SetExperiencePacketFields as DeepView>::V;

    open spec fn deep_view(&self) -> Self::V {
        (self.experience_bar.deep_view(), (self.level.deep_view(), self.total_experience.deep_view()))
    }
}

impl McSerialize for SetExperiencePacket {
    open spec fn spec_serialize(v: Self::V) -> Seq<u8> {
        SetExperiencePacketFields::spec_serialize(v)
    }

    open spec fn spec_can_serialize(v: Self::V) -> bool {
        SetExperiencePacketFields::spec_can_serialize(v)
    }

    fn mc_serialize(&self, serializer: &mut McSerializer) -> (r: Result<(), SerializingErr>) {
        let _ = self.experience_bar.mc_serialize(serializer);
        let _ = self.level.mc_serialize(serializer);
        let _ = self.total_experience.mc_serialize(serializer);
        assert(serializer.output@ == old(serializer).output@ + Self::spec_serialize(self.deep_view()));
        Ok(())
    }
}

impl McDeserialize for SetExperiencePacket {
    open spec fn spec_deserialize(s: Seq<u8>) -> ParseResult<Self::V> {
        SetExperiencePacketFields::spec_deserialize(s)
    }

    proof fn lemma_deserialize_len(s: Seq<u8>) {
        SetExperiencePacketFields::lemma_deserialize_len(s);
    }

    fn mc_deserialize(deserializer: &mut McDeserializer) -> (r: Result<SetExperiencePacket, SerializingErr>) {
        let (experience_bar, (level, total_experience)) = SetExperiencePacketFields::mc_deserialize(deserializer)?;
        Ok(SetExperiencePacket { experience_bar, level, total_experience })
    }
}

impl McRoundTrip for SetExperiencePacket {
    open spec fn spec_well_formed(v: Self::V) -> bool {
        SetExperiencePacketFields::spec_well_formed(v)
    }

    proof fn lemma_round_trip(v: Self::V, rest: Seq<u8>) {
        SetExperiencePacketFields::lemma_round_trip(v, rest);
    }
}
impl SetExperiencePacket {
    pub fn new(experience_bar: u32, level: VarInt, total_experience: VarInt) -> (p: Self)
        ensures
            p == (SetExperiencePacket { experience_bar, level, total_experience }),
    {
        SetExperiencePacket { experience_bar, level, total_experience }
    }
}

/// The fields of [`SetHealthPacket`] as they are sent, in order.
pub type SetHealthPacketFields = (u32, (VarInt, u32));

/// The body of the SetHealth packet (play state, to the client, id 0x66).
#[derive(Debug, Clone, PartialEq)]
pub struct SetHealthPacket {
    pub health: u32,
    pub food: VarInt,
    pub saturation: u32,
}

impl DeepView for SetHealthPacket {
    type V = <SetHealthPacketFields as DeepView>::V;

    open spec fn deep_view(&self) -> Self::V {
        (self.health.deep_view(), (self.food.deep_view(), self.saturation.deep_view()))
    }
}

impl McSerialize for SetHealthPacket {
    open spec fn spec_serialize(v: Self::V) -> Seq<u8> {
        SetHealthPacketFields::spec_serialize(v)
    }

    open spec fn spec_can_serialize(v: Self::V) -> bool {
        SetHealthPacketFields::spec_can_serialize(v)
    }

    fn mc_serialize(&self, serializer: &mut McSerializer) -> (r: Result<(), SerializingErr>) {
        let _ = self.health.mc_serialize(serializer);
        let _ = self.food.mc_serialize(serializer);
        let _ = self.saturation.mc_serialize(serializer);
        assert(serializer.output@ == old(serializer).output@ + Self::spec_serialize(self.deep_view()));
        Ok(())
    }
}

impl McDeserialize for SetHealthPacket {
    open spec fn spec_deserialize(s: Seq<u8>) -> ParseResult<Self::V> {
        SetHealthPacketFields::spec_deserialize(s)
    }

    proof fn lemma_deserialize_len(s: Seq<u8>) {
        SetHealthPacketFields::lemma_deserialize_len(s);
    }

    fn mc_deserialize(deserializer: &mut McDeserializer) -> (r: Result<SetHealthPacket, SerializingErr>) {
        let (health, (food, saturation)) = SetHealthPacketFields::mc_deserialize(deserializer)?;
        Ok(SetHealthPacket { health, food, saturation })
    }
}

impl McRoundTrip for SetHealthPacket {
    open spec fn spec_well_formed(v: Self::V) -> bool {
        SetHealthPacketFields::spec_well_formed(v)
    }

    proof fn lemma_round_trip(v: Self::V, rest: Seq<u8>) {
        SetHealthPacketFields::lemma_round_trip(v, rest);
    }
}
impl SetHealthPacket {
    pub fn new(health: u32, food: VarInt, saturation: u32) -> (p: Self)
        ensures
            p == (SetHealthPacket { health, food, saturation }),
    {
        SetHealthPacket { health, food, saturation }
    }
}

/// The fields of [`SetHeldItemPacket`] as they are sent, in order.
pub type SetHeldItemPacketFields = VarInt;

/// The body of the SetHeldItem packet (play state, to the client, id 0x67).
#[derive(Debug, Clone, PartialEq)]
pub struct SetHeldItemPacket {
    pub slot: VarInt,
}

impl DeepView for SetHeldItemPacket {
    type V = <SetHeldItemPacketFields as DeepView>::V;

    open spec fn deep_view(&self) -> Self::V {
        self.slot.deep_view()
    }
}

impl McSerialize for SetHeldItemPacket {
    open spec fn spec_serialize(v: Self::V) -> Seq<u8> {
        SetHeldItemPacketFields::spec_serialize(v)
    }

    open spec fn spec_can_serialize(v: Self::V) -> bool {
        SetHeldItemPacketFields::spec_can_serialize(v)
    }

    fn mc_serialize(&self, serializer: &mut McSerializer) -> (r: Result<(), SerializingErr>) {
        let _ = self.slot.mc_serialize(serializer);
        Ok(())
    }
}

impl McDeserialize for SetHeldItemPacket {
    open spec fn spec_deserialize(s: Seq<u8>) -> ParseResult<Self::V> {
        SetHeldItemPacketFields::spec_deserialize(s)
    }

    proof fn lemma_deserialize_len(s: Seq<u8>) {
        SetHeldItemPacketFields::lemma_deserialize_len(s);
    }

    fn mc_deserialize(deserializer: &mut McDeserializer) -> (r: Result<SetHeldItemPacket, SerializingErr>) {
        let slot = SetHeldItemPacketFields::mc_deserialize(deserializer)?;
        Ok(SetHeldItemPacket { slot })
    }
}

impl McRoundTrip for SetHeldItemPacket {
    open spec fn spec_well_formed(v: Self::V) -> bool {
        SetHeldItemPacketFields::spec_well_formed(v)
    }

    proof fn lemma_round_trip(v: Self::V, rest: Seq<u8>) {
        SetHeldItemPacketFields::lemma_round_trip(v, rest);
    }
}
impl SetHeldItemPacket {
    pub fn new(slot: VarInt) -> (p: Self)
        ensures
            p == (SetHeldItemPacket { slot }),
    {
        SetHeldItemPacket { slot }
    }
}

/// The fields of [`SetPassengersPacket`] as they are sent, in order.
pub type SetPassengersPacketFields = (VarInt, PrefixedArray<VarInt>);

/// The body of the SetPassengers packet (play state, to the client, id 0x69).
#[derive(Debug, Clone, PartialEq)]
pub struct SetPassengersPacket {
    pub entity_id: VarInt,
    pub passengers: PrefixedArray<VarInt>,
}

impl DeepView for SetPassengersPacket {
    type V = <SetPassengersPacketFields as DeepView>::V;

    open spec fn deep_view(&self) -> Self::V {
        (self.entity_id.deep_view(), self.passengers.deep_view())
    }
}

impl McSerialize for SetPassengersPacket {
    open spec fn spec_serialize(v: Self::V) -> Seq<u8> {
        SetPassengersPacketFields::spec_serialize(v)
    }

    open spec fn spec_can_serialize(v: Self::V) -> bool {
        SetPassengersPacketFields::spec_can_serialize(v)
    }

    fn mc_serialize(&self, serializer: &mut McSerializer) -> (r: Result<(), SerializingErr>) {
        let _ = self.entity_id.mc_serialize(serializer);
        let _ = self.passengers.mc_serialize(serializer);
        assert(serializer.output@ == old(serializer).output@ + Self::spec_serialize(self.deep_view()));
        Ok(())
    }
}

impl McDeserialize for SetPassengersPacket {
    open spec fn spec_deserialize(s: Seq<u8>) -> ParseResult<Self::V> {
        SetPassengersPacketFields::spec_deserialize(s)
    }

    proof fn lemma_deserialize_len(s: Seq<u8>) {
        SetPassengersPacketFields::lemma_deserialize_len(s);
    }

    fn mc_deserialize(deserializer: &mut McDeserializer) -> (r: Result<SetPassengersPacket, SerializingErr>) {
        let (entity_id, passengers) = SetPassengersPacketFields::mc_deserialize(deserializer)?;
        Ok(SetPassengersPacket { entity_id, passengers })
    }
}

impl McRoundTrip for SetPassengersPacket {
    open spec fn spec_well_formed(v: Self::V) -> bool {
        SetPassengersPacketFields::spec_well_formed(v)
    }

    proof fn lemma_round_trip(v: Self::V, rest: Seq<u8>) {
        SetPassengersPacketFields::lemma_round_trip(v, rest);
    }
}
impl SetPassengersPacket {
    pub fn new(entity_id: VarInt, passengers: PrefixedArray<VarInt>) -> (p: Self)
        ensures
            p == (SetPassengersPacket { entity_id, passengers }),
    {
        SetPassengersPacket { entity_id, passengers }
    }
}

/// The fields of [`SetSimulationDistancePacket`] as they are sent, in order.
pub type SetSimulationDistancePacketFields = VarInt;

/// The body of the SetSimulationDistance packet (play state, to the client, id 0x6D).
#[derive(Debug, Clone, PartialEq)]
pub struct SetSimulationDistancePacket {
    pub simulation_distance: VarInt,
}

impl DeepView for SetSimulationDistancePacket {
    type V = <SetSimulationDistancePacketFields as DeepView>::V;

    open spec fn deep_view(&self) -> Self::V {
        self.simulation_distance.deep_view()
    }
}

impl McSerialize for SetSimulationDistancePacket {
    open spec fn spec_serialize(v: Self::V) -> Seq<u8> {
        SetSimulationDistancePacketFields::spec_serialize(v)
    }

    open spec fn spec_can_serialize(v: Self::V) -> bool {
        SetSimulationDistancePacketFields::spec_can_serialize(v)
    }

    fn mc_serialize(&self, serializer: &mut McSerializer) -> (r: Result<(), SerializingErr>) {
        let _ = self.simulation_distance.mc_serialize(serializer);
        Ok(())
    }
}

impl McDeserialize for SetSimulationDistancePacket {
    open spec fn spec_deserialize(s: Seq<u8>) -> ParseResult<Self::V> {
        SetSimulationDistancePacketFields::spec_deserialize(s)
    }

    proof fn lemma_deserialize_len(s: Seq<u8>) {
        SetSimulationDistancePacketFields::lemma_deserialize_len(s);
    }

    fn mc_deserialize(deserializer: &mut McDeserializer) -> (r: Result<SetSimulationDistancePacket, SerializingErr>) {
        let simulation_distance = SetSimulationDistancePacketFields::mc_deserialize(deserializer)?;
        Ok(SetSimulationDistancePacket { simulation_distance })
    }
}

impl McRoundTrip for SetSimulationDistancePacket {
    open spec fn spec_well_formed(v: Self::V) -> bool {
        SetSimulationDistancePacketFields::spec_well_formed(v)
    }

    proof fn lemma_round_trip(v: Self::V, rest: Seq<u8>) {
        SetSimulationDistancePacketFields::lemma_round_trip(v, rest);
    }
}
impl SetSimulationDistancePacket {
    pub fn new(simulation_distance: VarInt) -> (p: Self)
        ensures
            p == (SetSimulationDistancePacket { simulation_distance }),
    {
        SetSimulationDistancePacket { simulation_distance }
    }
}

/// The fields of [`UpdateTimePacket`] as they are sent, in order.
pub type UpdateTimePacketFields = (i64, (i64, bool));

/// The body of the UpdateTime packet (play state, to the client, id 0x6F).
#[derive(Debug, Clone, PartialEq)]
pub struct UpdateTimePacket {
    pub world_age: i64,
    pub time_of_day: i64,
    pub time_of_day_increasing: bool,
}

impl DeepView for UpdateTimePacket {
    type V = <UpdateTimePacketFields as DeepView>::V;

    open spec fn deep_view(&self) -> Self::V {
        (self.world_age.deep_view(), (self.time_of_day.deep_view(), self.time_of_day_increasing.deep_view()))
    }
}

impl McSerialize for UpdateTimePacket {
    open spec fn spec_serialize(v: Self::V) -> Seq<u8> {
        UpdateTimePacketFields::spec_serialize(v)
    }

    open spec fn spec_can_serialize(v: Self::V) -> bool {
        UpdateTimePacketFields::spec_can_serialize(v)
    }

    fn mc_serialize(&self, serializer: &mut McSerializer) -> (r: Result<(), SerializingErr>) {
        let _ = self.world_age.mc_serialize(serializer);
        let _ = self.time_of_day.mc_serialize(serializer);
        let _ = self.time_of_day_increasing.mc_serialize(serializer);
        assert(serializer.output@ == old(serializer).output@ + Self::spec_serialize(self.deep_view()));
        Ok(())
    }
}

impl McDeserialize for UpdateTimePacket {
    open spec fn spec_deserialize(s: Seq<u8>) -> ParseResult<Self::V> {
        UpdateTimePacketFields::spec_deserialize(s)
    }

    proof fn lemma_deserialize_len(s: Seq<u8>) {
        UpdateTimePacketFields::lemma_deserialize_len(s);
    }

    fn mc_deserialize(deserializer: &mut McDeserializer) -> (r: Result<UpdateTimePacket, SerializingErr>) {
        let (world_age, (time_of_day, time_of_day_increasing)) = UpdateTimePacketFields::mc_deserialize(deserializer)?;
        Ok(UpdateTimePacket { world_age, time_of_day, time_of_day_increasing })
    }
}

impl McRoundTrip for UpdateTimePacket {
    open spec fn spec_well_formed(v: Self::V) -> bool {
        UpdateTimePacketFields::spec_well_formed(v)
    }

    proof fn lemma_round_trip(v: Self::V, rest: Seq<u8>) {
        UpdateTimePacketFields::lemma_round_trip(v, rest);
    }
}
impl UpdateTimePacket {
    pub fn new(world_age: i64, time_of_day: i64, time_of_day_increasing: bool) -> (p: Self)
        ensures
            p == (UpdateTimePacket { world_age, time_of_day, time_of_day_increasing }),
    {
        UpdateTimePacket { world_age, time_of_day, time_of_day_increasing }
    }
}

/// The fields of [`SetTitleAnimationTimesPacket`] as they are sent, in order.
pub type SetTitleAnimationTimesPacketFields = (i32, (i32, i32));

/// The body of the SetTitleAnimationTimes packet (play state, to the client, id 0x71).
#[derive(Debug, Clone, PartialEq)]
pub struct SetTitleAnimationTimesPacket {
    pub fade_in: i32,
    pub stay: i32,
    pub fade_out: i32,
}

impl DeepView for SetTitleAnimationTimesPacket {
    type V = <SetTitleAnimationTimesPacketFields as DeepView>::V;

    open spec fn deep_view(&self) -> Self::V {
        (self.fade_in.deep_view(), (self.stay.deep_view(), self.fade_out.deep_view()))
    }
}

impl McSerialize for SetTitleAnimationTimesPacket {
    open spec fn spec_serialize(v: Self::V) -> Seq<u8> {
        SetTitleAnimationTimesPacketFields::spec_serialize(v)
    }

    open spec fn spec_can_serialize(v: Self::V) -> bool {
        SetTitleAnimationTimesPacketFields::spec_can_serialize(v)
    }

    fn mc_serialize(&self, serializer: &mut McSerializer) -> (r: Result<(), SerializingErr>) {
        let _ = self.fade_in.mc_serialize(serializer);
        let _ = self.stay.mc_serialize(serializer);
        let _ = self.fade_out.mc_serialize(serializer);
        assert(serializer.output@ == old(serializer).output@ + Self::spec_serialize(self.deep_view()));
        Ok(())
    }
}

impl McDeserialize for SetTitleAnimationTimesPacket {
    open spec fn spec_deserialize(s: Seq<u8>) -> ParseResult<Self::V> {
        SetTitleAnimationTimesPacketFields::spec_deserialize(s)
    }

    proof fn lemma_deserialize_len(s: Seq<u8>) {
        SetTitleAnimationTimesPacketFields::lemma_deserialize_len(s);
    }

    fn mc_deserialize(deserializer: &mut McDeserializer) -> (r: Result<SetTitleAnimationTimesPacket, SerializingErr>) {
        let (fade_in, (stay, fade_out)) = SetTitleAnimationTimesPacketFields::mc_deserialize(deserializer)?;
        Ok(SetTitleAnimationTimesPacket { fade_in, stay, fade_out })
    }
}

impl McRoundTrip for SetTitleAnimationTimesPacket {
    open spec fn spec_well_formed(v: Self::V) -> bool {
        SetTitleAnimationTimesPacketFields::spec_well_formed(v)
    }

    proof fn lemma_round_trip(v: Self::V, rest: Seq<u8>) {
        SetTitleAnimationTimesPacketFields::lemma_round_trip(v, rest);
    }
}
impl SetTitleAnimationTimesPacket {
    pub fn new(fade_in: i32, stay: i32, fade_out: i32) -> (p: Self)
        ensures
            p == (SetTitleAnimationTimesPacket { fade_in, stay, fade_out }),
    {
        SetTitleAnimationTimesPacket { fade_in, stay, fade_out }
    }
}

/// The body of the StartConfiguration packet (play state, to the client, id 0x74).
#[derive(Debug, Clone, PartialEq)]
pub struct StartConfigurationPacket {}

impl DeepView for StartConfigurationPacket {
    type V = ();

    open spec fn deep_view(&self) -> () {
        ()
    }
}

impl StartConfigurationPacket {
    pub fn new() -> (p: Self)
        ensures
            p == (StartConfigurationPacket {}),
    {
        StartConfigurationPacket {}
    }
}

impl McSerialize for StartConfigurationPacket {
    /// An empty body.
    open spec fn spec_serialize(v: ()) -> Seq<u8> {
        Seq::<u8>::empty()
    }

    open spec fn spec_can_serialize(v: ()) -> bool {
        true
    }

    fn mc_serialize(&self, serializer: &mut McSerializer) -> (r: Result<(), SerializingErr>) {
        assert(serializer.output@ + Seq::<u8>::empty() == serializer.output@);
        Ok(())
    }
}

impl McDeserialize for StartConfigurationPacket {
    open spec fn spec_deserialize(s: Seq<u8>) -> ParseResult<()> {
        Ok(((), 0nat))
    }

    proof fn lemma_deserialize_len(s: Seq<u8>) {
    }

    fn mc_deserialize(deserializer: &mut McDeserializer) -> (r: Result<StartConfigurationPacket, SerializingErr>) {
        Ok(StartConfigurationPacket {})
    }
}

impl McRoundTrip for StartConfigurationPacket {
    open spec fn spec_well_formed(v: ()) -> bool {
        true
    }

    proof fn lemma_round_trip(v: (), rest: Seq<u8>) {
        assert(Seq::<u8>::empty() + rest == rest);
    }
}

/// The fields of [`StopSoundPacket`] as they are sent, in order.
pub type StopSoundPacketFields = StopSoundDetails;

/// The body of the StopSound packet (play state, to the client, id 0x75).
#[derive(Debug, Clone, PartialEq)]
pub struct StopSoundPacket {
    pub details: StopSoundDetails,
}

impl DeepView for StopSoundPacket {
    type V = <StopSoundPacketFields as DeepView>::V;

    open spec fn deep_view(&self) -> Self::V {
        self.details.deep_view()
    }
}

impl McSerialize for StopSoundPacket {
    open spec fn spec_serialize(v: Self::V) -> Seq<u8> {
        StopSoundPacketFields::spec_serialize(v)
    }

    open spec fn spec_can_serialize(v: Self::V) -> bool {
        StopSoundPacketFields::spec_can_serialize(v)
    }

    fn mc_serialize(&self, serializer: &mut McSerializer) -> (r: Result<(), SerializingErr>) {
        let _ = self.details.mc_serialize(serializer);
        Ok(())
    }
}

impl McDeserialize for StopSoundPacket {
    open spec fn spec_deserialize(s: Seq<u8>) -> ParseResult<Self::V> {
        StopSoundPacketFields::spec_deserialize(s)
    }

    proof fn lemma_deserialize_len(s: Seq<u8>) {
        StopSoundPacketFields::lemma_deserialize_len(s);
    }

    fn mc_deserialize(deserializer: &mut McDeserializer) -> (r: Result<StopSoundPacket, SerializingErr>) {
        let details = StopSoundPacketFields::mc_deserialize(deserializer)?;
        Ok(StopSoundPacket { details })
    }
}

impl McRoundTrip for StopSoundPacket {
    open spec fn spec_well_formed(v: Self::V) -> bool {
        StopSoundPacketFields::spec_well_formed(v)
    }

    proof fn lemma_round_trip(v: Self::V, rest: Seq<u8>) {
        StopSoundPacketFields::lemma_round_trip(v, rest);
    }
}
impl StopSoundPacket {
    pub fn new(details: StopSoundDetails) -> (p: Self)
        ensures
            p == (StopSoundPacket { details }),
    {
        StopSoundPacket { details }
    }
}

/// The fields of [`StoreCookiePacket`] as they are sent, in order.
pub type StoreCookiePacketFields = (String, PrefixedArray<u8>);

/// The body of the StoreCookie packet (play state, to the client, id 0x76).
#[derive(Debug, Clone, PartialEq)]
pub struct StoreCookiePacket {
    pub key: String,
    pub payload: PrefixedArray<u8>,
}

impl DeepView for StoreCookiePacket {
    type V = <StoreCookiePacketFields as DeepView>::V;

    open spec fn deep_view(&self) -> Self::V {
        (self.key.deep_view(), self.payload.deep_view())
    }
}

impl McSerialize for StoreCookiePacket {
    open spec fn spec_serialize(v: Self::V) -> Seq<u8> {
        StoreCookiePacketFields::spec_serialize(v)
    }

    open spec fn spec_can_serialize(v: Self::V) -> bool {
        StoreCookiePacketFields::spec_can_serialize(v)
    }

    fn mc_serialize(&self, serializer: &mut McSerializer) -> (r: Result<(), SerializingErr>) {
        let _ = self.key.mc_serialize(serializer);
        let _ = self.payload.mc_serialize(serializer);
        assert(serializer.output@ == old(serializer).output@ + Self::spec_serialize(self.deep_view()));
        Ok(())
    }
}

impl McDeserialize for StoreCookiePacket {
    open spec fn spec_deserialize(s: Seq<u8>) -> ParseResult<Self::V> {
        StoreCookiePacketFields::spec_deserialize(s)
    }

    proof fn lemma_deserialize_len(s: Seq<u8>) {
        StoreCookiePacketFields::lemma_deserialize_len(s);
    }

    fn mc_deserialize(deserializer: &mut McDeserializer) -> (r: Result<StoreCookiePacket, SerializingErr>) {
        let (key, payload) = StoreCookiePacketFields::mc_deserialize(deserializer)?;
        Ok(StoreCookiePacket { key, payload })
    }
}

impl McRoundTrip for StoreCookiePacket {
    open spec fn spec_well_formed(v: Self::V) -> bool {
        StoreCookiePacketFields::spec_well_formed(v)
    }

    proof fn lemma_round_trip(v: Self::V, rest: Seq<u8>) {
        StoreCookiePacketFields::lemma_round_trip(v, rest);
    }
}
impl StoreCookiePacket {
    pub fn new(key: String, payload: PrefixedArray<u8>) -> (p: Self)
        ensures
            p == (StoreCookiePacket { key, payload }),
    {
        StoreCookiePacket { key, payload }
    }
}

/// The fields of [`PickupItemPacket`] as they are sent, in order.
pub type PickupItemPacketFields = (VarInt, (VarInt, VarInt));

/// The body of the PickupItem packet (play state, to the client, id 0x7A).
#[derive(Debug, Clone, PartialEq)]
pub struct PickupItemPacket {
    pub collected_entity_id: VarInt,
    pub collector_entity_id: VarInt,
    pub pickup_item_count: VarInt,
}

impl DeepView for PickupItemPacket {
    type V = <PickupItemPacketFields as DeepView>::V;

    open spec fn deep_view(&self) -> Self::V {
        (self.collected_entity_id.deep_view(), (self.collector_entity_id.deep_view(), self.pickup_item_count.deep_view()))
    }
}

impl McSerialize for PickupItemPacket {
    open spec fn spec_serialize(v: Self::V) -> Seq<u8> {
        PickupItemPacketFields::spec_serialize(v)
    }

    open spec fn spec_can_serialize(v: Self::V) -> bool {
        PickupItemPacketFields::spec_can_serialize(v)
    }

    fn mc_serialize(&self, serializer: &mut McSerializer) -> (r: Result<(), SerializingErr>) {
        let _ = self.collected_entity_id.mc_serialize(serializer);
        let _ = self.collector_entity_id.mc_serialize(serializer);
        let _ = self.pickup_item_count.mc_serialize(serializer);
        assert(serializer.output@ == old(serializer).output@ + Self::spec_serialize(self.deep_view()));
        Ok(())
    }
}

impl McDeserialize for PickupItemPacket {
    open spec fn spec_deserialize(s: Seq<u8>) -> ParseResult<Self::V> {
        PickupItemPacketFields::spec_deserialize(s)
    }

    proof fn lemma_deserialize_len(s: Seq<u8>) {
        PickupItemPacketFields::lemma_deserialize_len(s);
    }

    fn mc_deserialize(deserializer: &mut McDeserializer) -> (r: Result<PickupItemPacket, SerializingErr>) {
        let (collected_entity_id, (collector_entity_id, pickup_item_count)) = PickupItemPacketFields::mc_deserialize(deserializer)?;
        Ok(PickupItemPacket { collected_entity_id, collector_entity_id, pickup_item_count })
    }
}

impl McRoundTrip for PickupItemPacket {
    open spec fn spec_well_formed(v: Self::V) -> bool {
        PickupItemPacketFields::spec_well_formed(v)
    }

    proof fn lemma_round_trip(v: Self::V, rest: Seq<u8>) {
        PickupItemPacketFields::lemma_round_trip(v, rest);
    }
}
impl PickupItemPacket {
    pub fn new(collected_entity_id: VarInt, collector_entity_id: VarInt, pickup_item_count: VarInt) -> (p: Self)
        ensures
            p == (PickupItemPacket { collected_entity_id, collector_entity_id, pickup_item_count }),
    {
        PickupItemPacket { collected_entity_id, collector_entity_id, pickup_item_count }
    }
}

/// The fields of [`SetTickingStatePacket`] as they are sent, in order.
pub type SetTickingStatePacketFields = (u32, bool);

/// The body of the SetTickingState packet (play state, to the client, id 0x7D).
#[derive(Debug, Clone, PartialEq)]
pub struct SetTickingStatePacket {
    pub tick_rate: u32,
    pub is_frozen: bool,
}

impl DeepView for SetTickingStatePacket {
    type V = <SetTickingStatePacketFields as DeepView>::V;

    open spec fn deep_view(&self) -> Self::V {
        (self.tick_rate.deep_view(), self.is_frozen.deep_view())
    }
}

impl McSerialize for SetTickingStatePacket {
    open spec fn spec_serialize(v: Self::V) -> Seq<u8> {
        SetTickingStatePacketFields::spec_serialize(v)
    }

    open spec fn spec_can_serialize(v: Self::V) -> bool {
        SetTickingStatePacketFields::spec_can_serialize(v)
    }

    fn mc_serialize(&self, serializer: &mut McSerializer) -> (r: Result<(), SerializingErr>) {
        let _ = self.tick_rate.mc_serialize(serializer);
        let _ = self.is_frozen.mc_serialize(serializer);
        assert(serializer.output@ == old(serializer).output@ + Self::spec_serialize(self.deep_view()));
        Ok(())
    }
}

impl McDeserialize for SetTickingStatePacket {
    open spec fn spec_deserialize(s: Seq<u8>) -> ParseResult<Self::V> {
        SetTickingStatePacketFields::spec_deserialize(s)
    }

    proof fn lemma_deserialize_len(s: Seq<u8>) {
        SetTickingStatePacketFields::lemma_deserialize_len(s);
    }

    fn mc_deserialize(deserializer: &mut McDeserializer) -> (r: Result<SetTickingStatePacket, SerializingErr>) {
        let (tick_rate, is_frozen) = SetTickingStatePacketFields::mc_deserialize(deserializer)?;
        Ok(SetTickingStatePacket { tick_rate, is_frozen })
    }
}

impl McRoundTrip for SetTickingStatePacket {
    open spec fn spec_well_formed(v: Self::V) -> bool {
        SetTickingStatePacketFields::spec_well_formed(v)
    }

    proof fn lemma_round_trip(v: Self::V, rest: Seq<u8>) {
        SetTickingStatePacketFields::lemma_round_trip(v, rest);
    }
}
impl SetTickingStatePacket {
    pub fn new(tick_rate: u32, is_frozen: bool) -> (p: Self)
        ensures
            p == (SetTickingStatePacket { tick_rate, is_frozen }),
    {
        SetTickingStatePacket { tick_rate, is_frozen }
    }
}

/// The fields of [`StepTickPacket`] as they are sent, in order.
pub type StepTickPacketFields = VarInt;

/// The body of the StepTick packet (play state, to the client, id 0x7E).
#[derive(Debug, Clone, PartialEq)]
pub struct StepTickPacket {
    pub tick_steps: VarInt,
}

impl DeepView for StepTickPacket {
    type V = <StepTickPacketFields as DeepView>::V;

    open spec fn deep_view(&self) -> Self::V {
        self.tick_steps.deep_view()
    }
}

impl McSerialize for StepTickPacket {
    open spec fn spec_serialize(v: Self::V) -> Seq<u8> {
        StepTickPacketFields::spec_serialize(v)
    }

    open spec fn spec_can_serialize(v: Self::V) -> bool {
        StepTickPacketFields::spec_can_serialize(v)
    }

    fn mc_serialize(&self, serializer: &mut McSerializer) -> (r: Result<(), SerializingErr>) {
        let _ = self.tick_steps.mc_serialize(serializer);
        Ok(())
    }
}

impl McDeserialize for StepTickPacket {
    open spec fn spec_deserialize(s: Seq<u8>) -> ParseResult<Self::V> {
        StepTickPacketFields::spec_deserialize(s)
    }

    proof fn lemma_deserialize_len(s: Seq<u8>) {
        StepTickPacketFields::lemma_deserialize_len(s);
    }

    fn mc_deserialize(deserializer: &mut McDeserializer) -> (r: Result<StepTickPacket, SerializingErr>) {
        let tick_steps = StepTickPacketFields::mc_deserialize(deserializer)?;
        Ok(StepTickPacket { tick_steps })
    }
}

impl McRoundTrip for StepTickPacket {
    open spec fn spec_well_formed(v: Self::V) -> bool {
        StepTickPacketFields::spec_well_formed(v)
    }

    proof fn lemma_round_trip(v: Self::V, rest: Seq<u8>) {
        StepTickPacketFields::lemma_round_trip(v, rest);
    }
}
impl StepTickPacket {
    pub fn new(tick_steps: VarInt) -> (p: Self)
        ensures
            p == (StepTickPacket { tick_steps }),
    {
        StepTickPacket { tick_steps }
    }
}

/// The fields of [`TransferPacket`] as they are sent, in order.
pub type TransferPacketFields = (String, VarInt);

/// The body of the Transfer packet (play state, to the client, id 0x7F).
#[derive(Debug, Clone, PartialEq)]
pub struct TransferPacket {
    pub host: String,
    pub port: VarInt,
}

impl DeepView for TransferPacket {
    type V = <TransferPacketFields as DeepView>::V;

    open spec fn deep_view(&self) -> Self::V {
        (self.host.deep_view(), self.port.deep_view())
    }
}

impl McSerialize for TransferPacket {
    open spec fn spec_serialize(v: Self::V) -> Seq<u8> {
        TransferPacketFields::spec_serialize(v)
    }

    open spec fn spec_can_serialize(v: Self::V) -> bool {
        TransferPacketFields::spec_can_serialize(v)
    }

    fn mc_serialize(&self, serializer: &mut McSerializer) -> (r: Result<(), SerializingErr>) {
        let _ = self.host.mc_serialize(serializer);
        let _ = self.port.mc_serialize(serializer);
        assert(serializer.output@ == old(serializer).output@ + Self::spec_serialize(self.deep_view()));
        Ok(())
    }
}

impl McDeserialize for TransferPacket {
    open spec fn spec_deserialize(s: Seq<u8>) -> ParseResult<Self::V> {
        TransferPacketFields::spec_deserialize(s)
    }

    proof fn lemma_deserialize_len(s: Seq<u8>) {
        TransferPacketFields::lemma_deserialize_len(s);
    }

    fn mc_deserialize(deserializer: &mut McDeserializer) -> (r: Result<TransferPacket, SerializingErr>) {
        let (host, port) = TransferPacketFields::mc_deserialize(deserializer)?;
        Ok(TransferPacket { host, port })
    }
}

impl McRoundTrip for TransferPacket {
    open spec fn spec_well_formed(v: Self::V) -> bool {
        TransferPacketFields::spec_well_formed(v)
    }

    proof fn lemma_round_trip(v: Self::V, rest: Seq<u8>) {
        TransferPacketFields::lemma_round_trip(v, rest);
    }
}
impl TransferPacket {
    pub fn new(host: String, port: VarInt) -> (p: Self)
        ensures
            p == (TransferPacket { host, port }),
    {
        TransferPacket { host, port }
    }
}

/// The fields of [`EntityEffectPacket`] as they are sent, in order.
pub type EntityEffectPacketFields = (VarInt, (VarInt, (i8, (VarInt, i8))));

/// The body of the EntityEffect packet (play state, to the client, id 0x82).
#[derive(Debug, Clone, PartialEq)]
pub struct EntityEffectPacket {
    pub entity_id: VarInt,
    pub effect_id: VarInt,
    pub amplifier: i8,
    pub duration: VarInt,
    pub flags: i8,
}

impl DeepView for EntityEffectPacket {
    type V = <EntityEffectPacketFields as DeepView>::V;

    open spec fn deep_view(&self) -> Self::V {
        (self.entity_id.deep_view(), (self.effect_id.deep_view(), (self.amplifier.deep_view(), (self.duration.deep_view(), self.flags.deep_view()))))
    }
}

impl McSerialize for EntityEffectPacket {
    open spec fn spec_serialize(v: Self::V) -> Seq<u8> {
        EntityEffectPacketFields::spec_serialize(v)
    }

    open spec fn spec_can_serialize(v: Self::V) -> bool {
        EntityEffectPacketFields::spec_can_serialize(v)
    }

    fn mc_serialize(&self, serializer: &mut McSerializer) -> (r: Result<(), SerializingErr>) {
        let _ = self.entity_id.mc_serialize(serializer);
        let _ = self.effect_id.mc_serialize(serializer);
        let _ = self.amplifier.mc_serialize(serializer);
        let _ = self.duration.mc_serialize(serializer);
        let _ = self.flags.mc_serialize(serializer);
        assert(serializer.output@ == old(serializer).output@ + Self::spec_serialize(self.deep_view()));
        Ok(())
    }
}

impl McDeserialize for EntityEffectPacket {
    open spec fn spec_deserialize(s: Seq<u8>) -> ParseResult<Self::V> {
        EntityEffectPacketFields::spec_deserialize(s)
    }

    proof fn lemma_deserialize_len(s: Seq<u8>) {
        EntityEffectPacketFields::lemma_deserialize_len(s);
    }

    fn mc_deserialize(deserializer: &mut McDeserializer) -> (r: Result<EntityEffectPacket, SerializingErr>) {
        let (entity_id, (effect_id, (amplifier, (duration, flags)))) = EntityEffectPacketFields::mc_deserialize(deserializer)?;
        Ok(EntityEffectPacket { entity_id, effect_id, amplifier, duration, flags })
    }
}

impl McRoundTrip for EntityEffectPacket {
    open spec fn spec_well_formed(v: Self::V) -> bool {
        EntityEffectPacketFields::spec_well_formed(v)
    }

    proof fn lemma_round_trip(v: Self::V, rest: Seq<u8>) {
        EntityEffectPacketFields::lemma_round_trip(v, rest);
    }
}
impl EntityEffectPacket {
    pub fn new(entity_id: VarInt, effect_id: VarInt, amplifier: i8, duration: VarInt, flags: i8) -> (p: Self)
        ensures
            p == (EntityEffectPacket { entity_id, effect_id, amplifier, duration, flags }),
    {
        EntityEffectPacket { entity_id, effect_id, amplifier, duration, flags }
    }
}

/// The fields of [`ProjectilePowerPacket`] as they are sent, in order.
pub type ProjectilePowerPacketFields = (VarInt, u64);

/// The body of the ProjectilePower packet (play state, to the client, id 0x85).
#[derive(Debug, Clone, PartialEq)]
pub struct ProjectilePowerPacket {
    pub entity_id: VarInt,
    pub power: u64,
}

impl DeepView for ProjectilePowerPacket {
    type V = <ProjectilePowerPacketFields as DeepView>::V;

    open spec fn deep_view(&self) -> Self::V {
        (self.entity_id.deep_view(), self.power.deep_view())
    }
}

impl McSerialize for ProjectilePowerPacket {
    open spec fn spec_serialize(v: Self::V) -> Seq<u8> {
        ProjectilePowerPacketFields::spec_serialize(v)
    }

    open spec fn spec_can_serialize(v: Self::V) -> bool {
        ProjectilePowerPacketFields::spec_can_serialize(v)
    }

    fn mc_serialize(&self, serializer: &mut McSerializer) -> (r: Result<(), SerializingErr>) {
        let _ = self.entity_id.mc_serialize(serializer);
        let _ = self.power.mc_serialize(serializer);
        assert(serializer.output@ == old(serializer).output@ + Self::spec_serialize(self.deep_view()));
        Ok(())
    }
}

impl McDeserialize for ProjectilePowerPacket {
    open spec fn spec_deserialize(s: Seq<u8>) -> ParseResult<Self::V> {
        ProjectilePowerPacketFields::spec_deserialize(s)
    }

    proof fn lemma_deserialize_len(s: Seq<u8>) {
        ProjectilePowerPacketFields::lemma_deserialize_len(s);
    }

    fn mc_deserialize(deserializer: &mut McDeserializer) -> (r: Result<ProjectilePowerPacket, SerializingErr>) {
        let (entity_id, power) = ProjectilePowerPacketFields::mc_deserialize(deserializer)?;
        Ok(ProjectilePowerPacket { entity_id, power })
    }
}

impl McRoundTrip for ProjectilePowerPacket {
    open spec fn spec_well_formed(v: Self::V) -> bool {
        ProjectilePowerPacketFields::spec_well_formed(v)
    }

    proof fn lemma_round_trip(v: Self::V, rest: Seq<u8>) {
        ProjectilePowerPacketFields::lemma_round_trip(v, rest);
    }
}
impl ProjectilePowerPacket {
    pub fn new(entity_id: VarInt, power: u64) -> (p: Self)
        ensures
            p == (ProjectilePowerPacket { entity_id, power }),
    {
        ProjectilePowerPacket { entity_id, power }
    }
}

/// The fields of [`CustomReportDetailsPacket`] as they are sent, in order.
pub type CustomReportDetailsPacketFields = PrefixedArray<CustomReportDetail>;

/// The body of the CustomReportDetails packet (play state, to the client, id 0x86).
#[derive(Debug, Clone, PartialEq)]
pub struct CustomReportDetailsPacket {
    pub details: PrefixedArray<CustomReportDetail>,
}

impl DeepView for CustomReportDetailsPacket {
    type V = <CustomReportDetailsPacketFields as DeepView>::V;

    open spec fn deep_view(&self) -> Self::V {
        self.details.deep_view()
    }
}

impl McSerialize for CustomReportDetailsPacket {
    open spec fn spec_serialize(v: Self::V) -> Seq<u8> {
        CustomReportDetailsPacketFields::spec_serialize(v)
    }

    open spec fn spec_can_serialize(v: Self::V) -> bool {
        CustomReportDetailsPacketFields::spec_can_serialize(v)
    }

    fn mc_serialize(&self, serializer: &mut McSerializer) -> (r: Result<(), SerializingErr>) {
        let _ = self.details.mc_serialize(serializer);
        Ok(())
    }
}

impl McDeserialize for CustomReportDetailsPacket {
    open spec fn spec_deserialize(s: Seq<u8>) -> ParseResult<Self::V> {
        CustomReportDetailsPacketFields::spec_deserialize(s)
    }

    proof fn lemma_deserialize_len(s: Seq<u8>) {
        CustomReportDetailsPacketFields::lemma_deserialize_len(s);
    }

    fn mc_deserialize(deserializer: &mut McDeserializer) -> (r: Result<CustomReportDetailsPacket, SerializingErr>) {
        let details = CustomReportDetailsPacketFields::mc_deserialize(deserializer)?;
        Ok(CustomReportDetailsPacket { details })
    }
}

impl McRoundTrip for CustomReportDetailsPacket {
    open spec fn spec_well_formed(v: Self::V) -> bool {
        CustomReportDetailsPacketFields::spec_well_formed(v)
    }

    proof fn lemma_round_trip(v: Self::V, rest: Seq<u8>) {
        CustomReportDetailsPacketFields::lemma_round_trip(v, rest);
    }
}
impl CustomReportDetailsPacket {
    pub fn new(details: PrefixedArray<CustomReportDetail>) -> (p: Self)
        ensures
            p == (CustomReportDetailsPacket { details }),
    {
        CustomReportDetailsPacket { details }
    }
}

/// The body of the ClearDialog packet (play state, to the client, id 0x89).
#[derive(Debug, Clone, PartialEq)]
pub struct ClearDialogPacket {}

impl DeepView for ClearDialogPacket {
    type V = ();

    open spec fn deep_view(&self) -> () {
        ()
    }
}

impl ClearDialogPacket {
    pub fn new() -> (p: Self)
        ensures
            p == (ClearDialogPacket {}),
    {
        ClearDialogPacket {}
    }
}

impl McSerialize for ClearDialogPacket {
    /// An empty body.
    open spec fn spec_serialize(v: ()) -> Seq<u8> {
        Seq::<u8>::empty()
    }

    open spec fn spec_can_serialize(v: ()) -> bool {
        true
    }

    fn mc_serialize(&self, serializer: &mut McSerializer) -> (r: Result<(), SerializingErr>) {
        assert(serializer.output@ + Seq::<u8>::empty() == serializer.output@);
        Ok(())
    }
}

impl McDeserialize for ClearDialogPacket {
    open spec fn spec_deserialize(s: Seq<u8>) -> ParseResult<()> {
        Ok(((), 0nat))
    }

    proof fn lemma_deserialize_len(s: Seq<u8>) {
    }

    fn mc_deserialize(deserializer: &mut McDeserializer) -> (r: Result<ClearDialogPacket, SerializingErr>) {
        Ok(ClearDialogPacket {})
    }
}

impl McRoundTrip for ClearDialogPacket {
    open spec fn spec_well_formed(v: ()) -> bool {
        true
    }

    proof fn lemma_round_trip(v: (), rest: Seq<u8>) {
        assert(Seq::<u8>::empty() + rest == rest);
    }
}

/// The fields of [`ConfirmTeleportPacket`] as they are sent, in order.
pub type ConfirmTeleportPacketFields = VarInt;

/// The body of the ConfirmTeleport packet (play state, to the server, id 0x00).
#[derive(Debug, Clone, PartialEq)]
pub struct ConfirmTeleportPacket {
    pub teleport_id: VarInt,
}

impl DeepView for ConfirmTeleportPacket {
    type V = <ConfirmTeleportPacketFields as DeepView>::V;

    open spec fn deep_view(&self) -> Self::V {
        self.teleport_id.deep_view()
    }
}

impl McSerialize for ConfirmTeleportPacket {
    open spec fn spec_serialize(v: Self::V) -> Seq<u8> {
        ConfirmTeleportPacketFields::spec_serialize(v)
    }

    open spec fn spec_can_serialize(v: Self::V) -> bool {
        ConfirmTeleportPacketFields::spec_can_serialize(v)
    }

    fn mc_serialize(&self, serializer: &mut McSerializer) -> (r: Result<(), SerializingErr>) {
        let _ = self.teleport_id.mc_serialize(serializer);
        Ok(())
    }
}

impl McDeserialize for ConfirmTeleportPacket {
    open spec fn spec_deserialize(s: Seq<u8>) -> ParseResult<Self::V> {
        ConfirmTeleportPacketFields::spec_deserialize(s)
    }

    proof fn lemma_deserialize_len(s: Seq<u8>) {
        ConfirmTeleportPacketFields::lemma_deserialize_len(s);
    }

    fn mc_deserialize(deserializer: &mut McDeserializer) -> (r: Result<ConfirmTeleportPacket, SerializingErr>) {
        let teleport_id = ConfirmTeleportPacketFields::mc_deserialize(deserializer)?;
        Ok(ConfirmTeleportPacket { teleport_id })
    }
}

impl McRoundTrip for ConfirmTeleportPacket {
    open spec fn spec_well_formed(v: Self::V) -> bool {
        ConfirmTeleportPacketFields::spec_well_formed(v)
    }

    proof fn lemma_round_trip(v: Self::V, rest: Seq<u8>) {
        ConfirmTeleportPacketFields::lemma_round_trip(v, rest);
    }
}
impl ConfirmTeleportPacket {
    pub fn new(teleport_id: VarInt) -> (p: Self)
        ensures
            p == (ConfirmTeleportPacket { teleport_id }),
    {
        ConfirmTeleportPacket { teleport_id }
    }
}

/// The fields of [`QueryBlockEntityTagPacket`] as they are sent, in order.
pub type QueryBlockEntityTagPacketFields = (VarInt, Position);

/// The body of the QueryBlockEntityTag packet (play state, to the server, id 0x01).
#[derive(Debug, Clone, PartialEq)]
pub struct QueryBlockEntityTagPacket {
    pub transaction_id: VarInt,
    pub location: Position,
}

impl DeepView for QueryBlockEntityTagPacket {
    type V = <QueryBlockEntityTagPacketFields as DeepView>::V;

    open spec fn deep_view(&self) -> Self::V {
        (self.transaction_id.deep_view(), self.location.deep_view())
    }
}

impl McSerialize for QueryBlockEntityTagPacket {
    open spec fn spec_serialize(v: Self::V) -> Seq<u8> {
        QueryBlockEntityTagPacketFields::spec_serialize(v)
    }

    open spec fn spec_can_serialize(v: Self::V) -> bool {
        QueryBlockEntityTagPacketFields::spec_can_serialize(v)
    }

    fn mc_serialize(&self, serializer: &mut McSerializer) -> (r: Result<(), SerializingErr>) {
        let _ = self.transaction_id.mc_serialize(serializer);
        let _ = self.location.mc_serialize(serializer);
        assert(serializer.output@ == old(serializer).output@ + Self::spec_serialize(self.deep_view()));
        Ok(())
    }
}

impl McDeserialize for QueryBlockEntityTagPacket {
    open spec fn spec_deserialize(s: Seq<u8>) -> ParseResult<Self::V> {
        QueryBlockEntityTagPacketFields::spec_deserialize(s)
    }

    proof fn lemma_deserialize_len(s: Seq<u8>) {
        QueryBlockEntityTagPacketFields::lemma_deserialize_len(s);
    }

    fn mc_deserialize(deserializer: &mut McDeserializer) -> (r: Result<QueryBlockEntityTagPacket, SerializingErr>) {
        let (transaction_id, location) = QueryBlockEntityTagPacketFields::mc_deserialize(deserializer)?;
        Ok(QueryBlockEntityTagPacket { transaction_id, location })
    }
}

impl McRoundTrip for QueryBlockEntityTagPacket {
    open spec fn spec_well_formed(v: Self::V) -> bool {
        QueryBlockEntityTagPacketFields::spec_well_formed(v)
    }

    proof fn lemma_round_trip(v: Self::V, rest: Seq<u8>) {
        QueryBlockEntityTagPacketFields::lemma_round_trip(v, rest);
    }
}
impl QueryBlockEntityTagPacket {
    pub fn new(transaction_id: VarInt, location: Position) -> (p: Self)
        ensures
            p == (QueryBlockEntityTagPacket { transaction_id, location }),
    {
        QueryBlockEntityTagPacket { transaction_id, location }
    }
}

/// The fields of [`BundleItemSelectedPacket`] as they are sent, in order.
pub type BundleItemSelectedPacketFields = (VarInt, VarInt);

/// The body of the BundleItemSelected packet (play state, to the server, id 0x02).
#[derive(Debug, Clone, PartialEq)]
pub struct BundleItemSelectedPacket {
    pub slot_of_bundle: VarInt,
    pub slot_in_bundle: VarInt,
}

impl DeepView for BundleItemSelectedPacket {
    type V = <BundleItemSelectedPacketFields as DeepView>::V;

    open spec fn deep_view(&self) -> Self::V {
        (self.slot_of_bundle.deep_view(), self.slot_in_bundle.deep_view())
    }
}

impl McSerialize for BundleItemSelectedPacket {
    open spec fn spec_serialize(v: Self::V) -> Seq<u8> {
        BundleItemSelectedPacketFields::spec_serialize(v)
    }

    open spec fn spec_can_serialize(v: Self::V) -> bool {
        BundleItemSelectedPacketFields::spec_can_serialize(v)
    }

    fn mc_serialize(&self, serializer: &mut McSerializer) -> (r: Result<(), SerializingErr>) {
        let _ = self.slot_of_bundle.mc_serialize(serializer);
        let _ = self.slot_in_bundle.mc_serialize(serializer);
        assert(serializer.output@ == old(serializer).output@ + Self::spec_serialize(self.deep_view()));
        Ok(())
    }
}

impl McDeserialize for BundleItemSelectedPacket {
    open spec fn spec_deserialize(s: Seq<u8>) -> ParseResult<Self::V> {
        BundleItemSelectedPacketFields::spec_deserialize(s)
    }

    proof fn lemma_deserialize_len(s: Seq<u8>) {
        BundleItemSelectedPacketFields::lemma_deserialize_len(s);
    }

    fn mc_deserialize(deserializer: &mut McDeserializer) -> (r: Result<BundleItemSelectedPacket, SerializingErr>) {
        let (slot_of_bundle, slot_in_bundle) = BundleItemSelectedPacketFields::mc_deserialize(deserializer)?;
        Ok(BundleItemSelectedPacket { slot_of_bundle, slot_in_bundle })
    }
}

impl McRoundTrip for BundleItemSelectedPacket {
    open spec fn spec_well_formed(v: Self::V) -> bool {
        BundleItemSelectedPacketFields::spec_well_formed(v)
    }

    proof fn lemma_round_trip(v: Self::V, rest: Seq<u8>) {
        BundleItemSelectedPacketFields::lemma_round_trip(v, rest);
    }
}
impl BundleItemSelectedPacket {
    pub fn new(slot_of_bundle: VarInt, slot_in_bundle: VarInt) -> (p: Self)
        ensures
            p == (BundleItemSelectedPacket { slot_of_bundle, slot_in_bundle }),
    {
        BundleItemSelectedPacket { slot_of_bundle, slot_in_bundle }
    }
}

/// The fields of [`ChangeGameModePacket`] as they are sent, in order.
pub type ChangeGameModePacketFields = u8;

/// The body of the ChangeGameMode packet (play state, to the server, id 0x04).
#[derive(Debug, Clone, PartialEq)]
pub struct ChangeGameModePacket {
    pub gamemode: u8,
}

impl DeepView for ChangeGameModePacket {
    type V = <ChangeGameModePacketFields as DeepView>::V;

    open spec fn deep_view(&self) -> Self::V {
        self.gamemode.deep_view()
    }
}

impl McSerialize for ChangeGameModePacket {
    open spec fn spec_serialize(v: Self::V) -> Seq<u8> {
        ChangeGameModePacketFields::spec_serialize(v)
    }

    open spec fn spec_can_serialize(v: Self::V) -> bool {
        ChangeGameModePacketFields::spec_can_serialize(v)
    }

    fn mc_serialize(&self, serializer: &mut McSerializer) -> (r: Result<(), SerializingErr>) {
        let _ = self.gamemode.mc_serialize(serializer);
        Ok(())
    }
}

impl McDeserialize for ChangeGameModePacket {
    open spec fn spec_deserialize(s: Seq<u8>) -> ParseResult<Self::V> {
        ChangeGameModePacketFields::spec_deserialize(s)
    }

    proof fn lemma_deserialize_len(s: Seq<u8>) {
        ChangeGameModePacketFields::lemma_deserialize_len(s);
    }

    fn mc_deserialize(deserializer: &mut McDeserializer) -> (r: Result<ChangeGameModePacket, SerializingErr>) {
        let gamemode = ChangeGameModePacketFields::mc_deserialize(deserializer)?;
        Ok(ChangeGameModePacket { gamemode })
    }
}

impl McRoundTrip for ChangeGameModePacket {
    open spec fn spec_well_formed(v: Self::V) -> bool {
        ChangeGameModePacketFields::spec_well_formed(v)
    }

    proof fn lemma_round_trip(v: Self::V, rest: Seq<u8>) {
        ChangeGameModePacketFields::lemma_round_trip(v, rest);
    }
}
impl ChangeGameModePacket {
    pub fn new(gamemode: u8) -> (p: Self)
        ensures
            p == (ChangeGameModePacket { gamemode }),
    {
        ChangeGameModePacket { gamemode }
    }
}

/// The fields of [`AcknowledgeMessagePacket`] as they are sent, in order.
pub type AcknowledgeMessagePacketFields = VarInt;

/// The body of the AcknowledgeMessage packet (play state, to the server, id 0x05).
#[derive(Debug, Clone, PartialEq)]
pub struct AcknowledgeMessagePacket {
    pub message_count: VarInt,
}

impl DeepView for AcknowledgeMessagePacket {
    type V = <AcknowledgeMessagePacketFields as DeepView>::V;

    open spec fn deep_view(&self) -> Self::V {
        self.message_count.deep_view()
    }
}

impl McSerialize for AcknowledgeMessagePacket {
    open spec fn spec_serialize(v: Self::V) -> Seq<u8> {
        AcknowledgeMessagePacketFields::spec_serialize(v)
    }

    open spec fn spec_can_serialize(v: Self::V) -> bool {
        AcknowledgeMessagePacketFields::spec_can_serialize(v)
    }

    fn mc_serialize(&self, serializer: &mut McSerializer) -> (r: Result<(), SerializingErr>) {
        let _ = self.message_count.mc_serialize(serializer);
        Ok(())
    }
}

impl McDeserialize for AcknowledgeMessagePacket {
    open spec fn spec_deserialize(s: Seq<u8>) -> ParseResult<Self::V> {
        AcknowledgeMessagePacketFields::spec_deserialize(s)
    }

    proof fn lemma_deserialize_len(s: Seq<u8>) {
        AcknowledgeMessagePacketFields::lemma_deserialize_len(s);
    }

    fn mc_deserialize(deserializer: &mut McDeserializer) -> (r: Result<AcknowledgeMessagePacket, SerializingErr>) {
        let message_count = AcknowledgeMessagePacketFields::mc_deserialize(deserializer)?;
        Ok(AcknowledgeMessagePacket { message_count })
    }
}

impl McRoundTrip for AcknowledgeMessagePacket {
    open spec fn spec_well_formed(v: Self::V) -> bool {
        AcknowledgeMessagePacketFields::spec_well_formed(v)
    }

    proof fn lemma_round_trip(v: Self::V, rest: Seq<u8>) {
        AcknowledgeMessagePacketFields::lemma_round_trip(v, rest);
    }
}
impl AcknowledgeMessagePacket {
    pub fn new(message_count: VarInt) -> (p: Self)
        ensures
            p == (AcknowledgeMessagePacket { message_count }),
    {
        AcknowledgeMessagePacket { message_count }
    }
}

/// The fields of [`ChatCommandPacket`] as they are sent, in order.
pub type ChatCommandPacketFields = String;

/// The body of the ChatCommand packet (play state, to the server, id 0x06).
#[derive(Debug, Clone, PartialEq)]
pub struct ChatCommandPacket {
    pub command: String,
}

impl DeepView for ChatCommandPacket {
    type V = <ChatCommandPacketFields as DeepView>::V;

    open spec fn deep_view(&self) -> Self::V {
        self.command.deep_view()
    }
}

impl McSerialize for ChatCommandPacket {
    open spec fn spec_serialize(v: Self::V) -> Seq<u8> {
        ChatCommandPacketFields::spec_serialize(v)
    }

    open spec fn spec_can_serialize(v: Self::V) -> bool {
        ChatCommandPacketFields::spec_can_serialize(v)
    }

    fn mc_serialize(&self, serializer: &mut McSerializer) -> (r: Result<(), SerializingErr>) {
        let _ = self.command.mc_serialize(serializer);
        Ok(())
    }
}

impl McDeserialize for ChatCommandPacket {
    open spec fn spec_deserialize(s: Seq<u8>) -> ParseResult<Self::V> {
        ChatCommandPacketFields::spec_deserialize(s)
    }

    proof fn lemma_deserialize_len(s: Seq<u8>) {
        ChatCommandPacketFields::lemma_deserialize_len(s);
    }

    fn mc_deserialize(deserializer: &mut McDeserializer) -> (r: Result<ChatCommandPacket, SerializingErr>) {
        let command = ChatCommandPacketFields::mc_deserialize(deserializer)?;
        Ok(ChatCommandPacket { command })
    }
}

impl McRoundTrip for ChatCommandPacket {
    open spec fn spec_well_formed(v: Self::V) -> bool {
        ChatCommandPacketFields::spec_well_formed(v)
    }

    proof fn lemma_round_trip(v: Self::V, rest: Seq<u8>) {
        ChatCommandPacketFields::lemma_round_trip(v, rest);
    }
}
impl ChatCommandPacket {
    pub fn new(command: String) -> (p: Self)
        ensures
            p == (ChatCommandPacket { command }),
    {
        ChatCommandPacket { command }
    }
}

/// The fields of [`ChunkBatchReceivedPacket`] as they are sent, in order.
pub type ChunkBatchReceivedPacketFields = u32;

/// The body of the ChunkBatchReceived packet (play state, to the server, id 0x0A).
#[derive(Debug, Clone, PartialEq)]
pub struct ChunkBatchReceivedPacket {
    pub rate: u32,
}

impl DeepView for ChunkBatchReceivedPacket {
    type V = <ChunkBatchReceivedPacketFields as DeepView>::V;

    open spec fn deep_view(&self) -> Self::V {
        self.rate.deep_view()
    }
}

impl McSerialize for ChunkBatchReceivedPacket {
    open spec fn spec_serialize(v: Self::V) -> Seq<u8> {
        ChunkBatchReceivedPacketFields::spec_serialize(v)
    }

    open spec fn spec_can_serialize(v: Self::V) -> bool {
        ChunkBatchReceivedPacketFields::spec_can_serialize(v)
    }

    fn mc_serialize(&self, serializer: &mut McSerializer) -> (r: Result<(), SerializingErr>) {
        let _ = self.rate.mc_serialize(serializer);
        Ok(())
    }
}

impl McDeserialize for ChunkBatchReceivedPacket {
    open spec fn spec_deserialize(s: Seq<u8>) -> ParseResult<Self::V> {
        ChunkBatchReceivedPacketFields::spec_deserialize(s)
    }

    proof fn lemma_deserialize_len(s: Seq<u8>) {
        ChunkBatchReceivedPacketFields::lemma_deserialize_len(s);
    }

    fn mc_deserialize(deserializer: &mut McDeserializer) -> (r: Result<ChunkBatchReceivedPacket, SerializingErr>) {
        let rate = ChunkBatchReceivedPacketFields::mc_deserialize(deserializer)?;
        Ok(ChunkBatchReceivedPacket { rate })
    }
}

impl McRoundTrip for ChunkBatchReceivedPacket {
    open spec fn spec_well_formed(v: Self::V) -> bool {
        ChunkBatchReceivedPacketFields::spec_well_formed(v)
    }

    proof fn lemma_round_trip(v: Self::V, rest: Seq<u8>) {
        ChunkBatchReceivedPacketFields::lemma_round_trip(v, rest);
    }
}
impl ChunkBatchReceivedPacket {
    pub fn new(rate: u32) -> (p: Self)
        ensures
            p == (ChunkBatchReceivedPacket { rate }),
    {
        ChunkBatchReceivedPacket { rate }
    }
}

/// The fields of [`ClientCommandPacket`] as they are sent, in order.
pub type ClientCommandPacketFields = ClientStatusAction;

/// The body of the ClientCommand packet (play state, to the server, id 0x0B).
#[derive(Debug, Clone, PartialEq)]
pub struct ClientCommandPacket {
    pub action: ClientStatusAction,
}

impl DeepView for ClientCommandPacket {
    type V = <ClientCommandPacketFields as DeepView>::V;

    open spec fn deep_view(&self) -> Self::V {
        self.action.deep_view()
    }
}

impl McSerialize for ClientCommandPacket {
    open spec fn spec_serialize(v: Self::V) -> Seq<u8> {
        ClientCommandPacketFields::spec_serialize(v)
    }

    open spec fn spec_can_serialize(v: Self::V) -> bool {
        ClientCommandPacketFields::spec_can_serialize(v)
    }

    fn mc_serialize(&self, serializer: &mut McSerializer) -> (r: Result<(), SerializingErr>) {
        let _ = self.action.mc_serialize(serializer);
        Ok(())
    }
}

impl McDeserialize for ClientCommandPacket {
    open spec fn spec_deserialize(s: Seq<u8>) -> ParseResult<Self::V> {
        ClientCommandPacketFields::spec_deserialize(s)
    }

    proof fn lemma_deserialize_len(s: Seq<u8>) {
        ClientCommandPacketFields::lemma_deserialize_len(s);
    }

    fn mc_deserialize(deserializer: &mut McDeserializer) -> (r: Result<ClientCommandPacket, SerializingErr>) {
        let action = ClientCommandPacketFields::mc_deserialize(deserializer)?;
        Ok(ClientCommandPacket { action })
    }
}

impl McRoundTrip for ClientCommandPacket {
    open spec fn spec_well_formed(v: Self::V) -> bool {
        ClientCommandPacketFields::spec_well_formed(v)
    }

    proof fn lemma_round_trip(v: Self::V, rest: Seq<u8>) {
        ClientCommandPacketFields::lemma_round_trip(v, rest);
    }
}
impl ClientCommandPacket {
    pub fn new(action: ClientStatusAction) -> (p: Self)
        ensures
            p == (ClientCommandPacket { action }),
    {
        ClientCommandPacket { action }
    }
}

/// The body of the ClientTickEnd packet (play state, to the server, id 0x0C).
#[derive(Debug, Clone, PartialEq)]
pub struct ClientTickEndPacket {}

impl DeepView for ClientTickEndPacket {
    type V = ();

    open spec fn deep_view(&self) -> () {
        ()
    }
}

impl ClientTickEndPacket {
    pub fn new() -> (p: Self)
        ensures
            p == (ClientTickEndPacket {}),
    {
        ClientTickEndPacket {}
    }
}

impl McSerialize for ClientTickEndPacket {
    /// An empty body.
    open spec fn spec_serialize(v: ()) -> Seq<u8> {
        Seq::<u8>::empty()
    }

    open spec fn spec_can_serialize(v: ()) -> bool {
        true
    }

    fn mc_serialize(&self, serializer: &mut McSerializer) -> (r: Result<(), SerializingErr>) {
        assert(serializer.output@ + Seq::<u8>::empty() == serializer.output@);
        Ok(())
    }
}

impl McDeserialize for ClientTickEndPacket {
    open spec fn spec_deserialize(s: Seq<u8>) -> ParseResult<()> {
        Ok(((), 0nat))
    }

    proof fn lemma_deserialize_len(s: Seq<u8>) {
    }

    fn mc_deserialize(deserializer: &mut McDeserializer) -> (r: Result<ClientTickEndPacket, SerializingErr>) {
        Ok(ClientTickEndPacket {})
    }
}

impl McRoundTrip for ClientTickEndPacket {
    open spec fn spec_well_formed(v: ()) -> bool {
        true
    }

    proof fn lemma_round_trip(v: (), rest: Seq<u8>) {
        assert(Seq::<u8>::empty() + rest == rest);
    }
}

/// The fields of [`ClientInformationPlayPacket`] as they are sent, in order.
pub type ClientInformationPlayPacketFields = (String, (i8, (VarInt, (bool, (u8, (VarInt, (bool, (bool, VarInt))))))));

/// The body of the ClientInformationPlay packet (play state, to the server, id 0x0D).
#[derive(Debug, Clone, PartialEq)]
pub struct ClientInformationPlayPacket {
    pub locale: String,
    pub view_distance: i8,
    pub chat_mode: VarInt,
    pub chat_colors: bool,
    pub displayed_skin_parts: u8,
    pub main_hand: VarInt,
    pub enable_text_filtering: bool,
    pub allow_server_listing: bool,
    pub particle_status: VarInt,
}

impl DeepView for ClientInformationPlayPacket {
    type V = <ClientInformationPlayPacketFields as DeepView>::V;

    open spec fn deep_view(&self) -> Self::V {
        (self.locale.deep_view(), (self.view_distance.deep_view(), (self.chat_mode.deep_view(), (self.chat_colors.deep_view(), (self.displayed_skin_parts.deep_view(), (self.main_hand.deep_view(), (self.enable_text_filtering.deep_view(), (self.allow_server_listing.deep_view(), self.particle_status.deep_view()))))))))
    }
}

impl McSerialize for ClientInformationPlayPacket {
    open spec fn spec_serialize(v: Self::V) -> Seq<u8> {
        ClientInformationPlayPacketFields::spec_serialize(v)
    }

    open spec fn spec_can_serialize(v: Self::V) -> bool {
        ClientInformationPlayPacketFields::spec_can_serialize(v)
    }

    #[verifier::spinoff_prover]
    #[verifier::rlimit(100)]
    fn mc_serialize(&self, serializer: &mut McSerializer) -> (r: Result<(), SerializingErr>) {
        let ghost l0 = serializer.output@;
        let _ = self.locale.mc_serialize(serializer);
        let ghost l1 = serializer.output@;
        let _ = self.view_distance.mc_serialize(serializer);
        let ghost l2 = serializer.output@;
        let _ = self.chat_mode.mc_serialize(serializer);
        let ghost l3 = serializer.output@;
        let _ = self.chat_colors.mc_serialize(serializer);
        let ghost l4 = serializer.output@;
        let _ = self.displayed_skin_parts.mc_serialize(serializer);
        let ghost l5 = serializer.output@;
        let _ = self.main_hand.mc_serialize(serializer);
        let ghost l6 = serializer.output@;
        let _ = self.enable_text_filtering.mc_serialize(serializer);
        let ghost l7 = serializer.output@;
        let _ = self.allow_server_listing.mc_serialize(serializer);
        let ghost l8 = serializer.output@;
        let _ = self.particle_status.mc_serialize(serializer);
        let ghost l9 = serializer.output@;
        proof {
            vstd::seq_lib::lemma_concat_associative(l7, <bool as McSerialize>::spec_serialize(self.allow_server_listing.deep_view()), <VarInt as McSerialize>::spec_serialize(self.particle_status.deep_view()));
            assert(l9 == l7 + (<bool as McSerialize>::spec_serialize(self.allow_server_listing.deep_view()) + (<VarInt as McSerialize>::spec_serialize(self.particle_status.deep_view()))));
            vstd::seq_lib::lemma_concat_associative(l6, <bool as McSerialize>::spec_serialize(self.enable_text_filtering.deep_view()), <bool as McSerialize>::spec_serialize(self.allow_server_listing.deep_view()) + (<VarInt as McSerialize>::spec_serialize(self.particle_status.deep_view())));
            assert(l9 == l6 + (<bool as McSerialize>::spec_serialize(self.enable_text_filtering.deep_view()) + (<bool as McSerialize>::spec_serialize(self.allow_server_listing.deep_view()) + (<VarInt as McSerialize>::spec_serialize(self.particle_status.deep_view())))));
            vstd::seq_lib::lemma_concat_associative(l5, <VarInt as McSerialize>::spec_serialize(self.main_hand.deep_view()), <bool as McSerialize>::spec_serialize(self.enable_text_filtering.deep_view()) + (<bool as McSerialize>::spec_serialize(self.allow_server_listing.deep_view()) + (<VarInt as McSerialize>::spec_serialize(self.particle_status.deep_view()))));
            assert(l9 == l5 + (<VarInt as McSerialize>::spec_serialize(self.main_hand.deep_view()) + (<bool as McSerialize>::spec_serialize(self.enable_text_filtering.deep_view()) + (<bool as McSerialize>::spec_serialize(self.allow_server_listing.deep_view()) + (<VarInt as McSerialize>::spec_serialize(self.particle_status.deep_view()))))));
            vstd::seq_lib::lemma_concat_associative(l4, <u8 as McSerialize>::spec_serialize(self.displayed_skin_parts.deep_view()), <VarInt as McSerialize>::spec_serialize(self.main_hand.deep_view()) + (<bool as McSerialize>::spec_serialize(self.enable_text_filtering.deep_view()) + (<bool as McSerialize>::spec_serialize(self.allow_server_listing.deep_view()) + (<VarInt as McSerialize>::spec_serialize(self.particle_status.deep_view())))));
            assert(l9 == l4 + (<u8 as McSerialize>::spec_serialize(self.displayed_skin_parts.deep_view()) + (<VarInt as McSerialize>::spec_serialize(self.main_hand.deep_view()) + (<bool as McSerialize>::spec_serialize(self.enable_text_filtering.deep_view()) + (<bool as McSerialize>::spec_serialize(self.allow_server_listing.deep_view()) + (<VarInt as McSerialize>::spec_serialize(self.particle_status.deep_view())))))));
            vstd::seq_lib::lemma_concat_associative(l3, <bool as McSerialize>::spec_serialize(self.chat_colors.deep_view()), <u8 as McSerialize>::spec_serialize(self.displayed_skin_parts.deep_view()) + (<VarInt as McSerialize>::spec_serialize(self.main_hand.deep_view()) + (<bool as McSerialize>::spec_serialize(self.enable_text_filtering.deep_view()) + (<bool as McSerialize>::spec_serialize(self.allow_server_listing.deep_view()) + (<VarInt as McSerialize>::spec_serialize(self.particle_status.deep_view()))))));
            assert(l9 == l3 + (<bool as McSerialize>::spec_serialize(self.chat_colors.deep_view()) + (<u8 as McSerialize>::spec_serialize(self.displayed_skin_parts.deep_view()) + (<VarInt as McSerialize>::spec_serialize(self.main_hand.deep_view()) + (<bool as McSerialize>::spec_serialize(self.enable_text_filtering.deep_view()) + (<bool as McSerialize>::spec_serialize(self.allow_server_listing.deep_view()) + (<VarInt as McSerialize>::spec_serialize(self.particle_status.deep_view()))))))));
            vstd::seq_lib::lemma_concat_associative(l2, <VarInt as McSerialize>::spec_serialize(self.chat_mode.deep_view()), <bool as McSerialize>::spec_serialize(self.chat_colors.deep_view()) + (<u8 as McSerialize>::spec_serialize(self.displayed_skin_parts.deep_view()) + (<VarInt as McSerialize>::spec_serialize(self.main_hand.deep_view()) + (<bool as McSerialize>::spec_serialize(self.enable_text_filtering.deep_view()) + (<bool as McSerialize>::spec_serialize(self.allow_server_listing.deep_view()) + (<VarInt as McSerialize>::spec_serialize(self.particle_status.deep_view())))))));
            assert(l9 == l2 + (<VarInt as McSerialize>::spec_serialize(self.chat_mode.deep_view()) + (<bool as McSerialize>::spec_serialize(self.chat_colors.deep_view()) + (<u8 as McSerialize>::spec_serialize(self.displayed_skin_parts.deep_view()) + (<VarInt as McSerialize>::spec_serialize(self.main_hand.deep_view()) + (<bool as McSerialize>::spec_serialize(self.enable_text_filtering.deep_view()) + (<bool as McSerialize>::spec_serialize(self.allow_server_listing.deep_view()) + (<VarInt as McSerialize>::spec_serialize(self.particle_status.deep_view())))))))));
            vstd::seq_lib::lemma_concat_associative(l1, <i8 as McSerialize>::spec_serialize(self.view_distance.deep_view()), <VarInt as McSerialize>::spec_serialize(self.chat_mode.deep_view()) + (<bool as McSerialize>::spec_serialize(self.chat_colors.deep_view()) + (<u8 as McSerialize>::spec_serialize(self.displayed_skin_parts.deep_view()) + (<VarInt as McSerialize>::spec_serialize(self.main_hand.deep_view()) + (<bool as McSerialize>::spec_serialize(self.enable_text_filtering.deep_view()) + (<bool as McSerialize>::spec_serialize(self.allow_server_listing.deep_view()) + (<VarInt as McSerialize>::spec_serialize(self.particle_status.deep_view()))))))));
            assert(l9 == l1 + (<i8 as McSerialize>::spec_serialize(self.view_distance.deep_view()) + (<VarInt as McSerialize>::spec_serialize(self.chat_mode.deep_view()) + (<bool as McSerialize>::spec_serialize(self.chat_colors.deep_view()) + (<u8 as McSerialize>::spec_serialize(self.displayed_skin_parts.deep_view()) + (<VarInt as McSerialize>::spec_serialize(self.main_hand.deep_view()) + (<bool as McSerialize>::spec_serialize(self.enable_text_filtering.deep_view()) + (<bool as McSerialize>::spec_serialize(self.allow_server_listing.deep_view()) + (<VarInt as McSerialize>::spec_serialize(self.particle_status.deep_view()))))))))));
            vstd::seq_lib::lemma_concat_associative(l0, <String as McSerialize>::spec_serialize(self.locale.deep_view()), <i8 as McSerialize>::spec_serialize(self.view_distance.deep_view()) + (<VarInt as McSerialize>::spec_serialize(self.chat_mode.deep_view()) + (<bool as McSerialize>::spec_serialize(self.chat_colors.deep_view()) + (<u8 as McSerialize>::spec_serialize(self.displayed_skin_parts.deep_view()) + (<VarInt as McSerialize>::spec_serialize(self.main_hand.deep_view()) + (<bool as McSerialize>::spec_serialize(self.enable_text_filtering.deep_view()) + (<bool as McSerialize>::spec_serialize(self.allow_server_listing.deep_view()) + (<VarInt as McSerialize>::spec_serialize(self.particle_status.deep_view())))))))));
            assert(l9 == l0 + (<String as McSerialize>::spec_serialize(self.locale.deep_view()) + (<i8 as McSerialize>::spec_serialize(self.view_distance.deep_view()) + (<VarInt as McSerialize>::spec_serialize(self.chat_mode.deep_view()) + (<bool as McSerialize>::spec_serialize(self.chat_colors.deep_view()) + (<u8 as McSerialize>::spec_serialize(self.displayed_skin_parts.deep_view()) + (<VarInt as McSerialize>::spec_serialize(self.main_hand.deep_view()) + (<bool as McSerialize>::spec_serialize(self.enable_text_filtering.deep_view()) + (<bool as McSerialize>::spec_serialize(self.allow_server_listing.deep_view()) + (<VarInt as McSerialize>::spec_serialize(self.particle_status.deep_view())))))))))));
        }
        Ok(())
    }
}

impl McDeserialize for ClientInformationPlayPacket {
    open spec fn spec_deserialize(s: Seq<u8>) -> ParseResult<Self::V> {
        ClientInformationPlayPacketFields::spec_deserialize(s)
    }

    proof fn lemma_deserialize_len(s: Seq<u8>) {
        ClientInformationPlayPacketFields::lemma_deserialize_len(s);
    }

    fn mc_deserialize(deserializer: &mut McDeserializer) -> (r: Result<ClientInformationPlayPacket, SerializingErr>) {
        let (locale, (view_distance, (chat_mode, (chat_colors, (displayed_skin_parts, (main_hand, (enable_text_filtering, (allow_server_listing, particle_status)))))))) = ClientInformationPlayPacketFields::mc_deserialize(deserializer)?;
        Ok(ClientInformationPlayPacket { locale, view_distance, chat_mode, chat_colors, displayed_skin_parts, main_hand, enable_text_filtering, allow_server_listing, particle_status })
    }
}

impl McRoundTrip for ClientInformationPlayPacket {
    open spec fn spec_well_formed(v: Self::V) -> bool {
        ClientInformationPlayPacketFields::spec_well_formed(v)
    }

    proof fn lemma_round_trip(v: Self::V, rest: Seq<u8>) {
        ClientInformationPlayPacketFields::lemma_round_trip(v, rest);
    }
}
impl ClientInformationPlayPacket {
    pub fn new(locale: String, view_distance: i8, chat_mode: VarInt, chat_colors: bool, displayed_skin_parts: u8, main_hand: VarInt, enable_text_filtering: bool, allow_server_listing: bool, particle_status: VarInt) -> (p: Self)
        ensures
            p == (ClientInformationPlayPacket { locale, view_distance, chat_mode, chat_colors, displayed_skin_parts, main_hand, enable_text_filtering, allow_server_listing, particle_status }),
    {
        ClientInformationPlayPacket { locale, view_distance, chat_mode, chat_colors, displayed_skin_parts, main_hand, enable_text_filtering, allow_server_listing, particle_status }
    }
}

/// The fields of [`CommandSuggestionsRequestPacket`] as they are sent, in order.
pub type CommandSuggestionsRequestPacketFields = (VarInt, String);

/// The body of the CommandSuggestionsRequest packet (play state, to the server, id 0x0E).
#[derive(Debug, Clone, PartialEq)]
pub struct CommandSuggestionsRequestPacket {
    pub transaction_id: VarInt,
    pub text: String,
}

impl DeepView for CommandSuggestionsRequestPacket {
    type V = <CommandSuggestionsRequestPacketFields as DeepView>::V;

    open spec fn deep_view(&self) -> Self::V {
        (self.transaction_id.deep_view(), self.text.deep_view())
    }
}

impl McSerialize for CommandSuggestionsRequestPacket {
    open spec fn spec_serialize(v: Self::V) -> Seq<u8> {
        CommandSuggestionsRequestPacketFields::spec_serialize(v)
    }

    open spec fn spec_can_serialize(v: Self::V) -> bool {
        CommandSuggestionsRequestPacketFields::spec_can_serialize(v)
    }

    fn mc_serialize(&self, serializer: &mut McSerializer) -> (r: Result<(), SerializingErr>) {
        let _ = self.transaction_id.mc_serialize(serializer);
        let _ = self.text.mc_serialize(serializer);
        assert(serializer.output@ == old(serializer).output@ + Self::spec_serialize(self.deep_view()));
        Ok(())
    }
}

impl McDeserialize for CommandSuggestionsRequestPacket {
    open spec fn spec_deserialize(s: Seq<u8>) -> ParseResult<Self::V> {
        CommandSuggestionsRequestPacketFields::spec_deserialize(s)
    }

    proof fn lemma_deserialize_len(s: Seq<u8>) {
        CommandSuggestionsRequestPacketFields::lemma_deserialize_len(s);
    }

    fn mc_deserialize(deserializer: &mut McDeserializer) -> (r: Result<CommandSuggestionsRequestPacket, SerializingErr>) {
        let (transaction_id, text) = CommandSuggestionsRequestPacketFields::mc_deserialize(deserializer)?;
        Ok(CommandSuggestionsRequestPacket { transaction_id, text })
    }
}

impl McRoundTrip for CommandSuggestionsRequestPacket {
    open spec fn spec_well_formed(v: Self::V) -> bool {
        CommandSuggestionsRequestPacketFields::spec_well_formed(v)
    }

    proof fn lemma_round_trip(v: Self::V, rest: Seq<u8>) {
        CommandSuggestionsRequestPacketFields::lemma_round_trip(v, rest);
    }
}
impl CommandSuggestionsRequestPacket {
    pub fn new(transaction_id: VarInt, text: String) -> (p: Self)
        ensures
            p == (CommandSuggestionsRequestPacket { transaction_id, text }),
    {
        CommandSuggestionsRequestPacket { transaction_id, text }
    }
}

/// The body of the AcknowledgeConfiguration packet (play state, to the server, id 0x0F).
#[derive(Debug, Clone, PartialEq)]
pub struct AcknowledgeConfigurationPacket {}

impl DeepView for AcknowledgeConfigurationPacket {
    type V = ();

    open spec fn deep_view(&self) -> () {
        ()
    }
}

impl AcknowledgeConfigurationPacket {
    pub fn new() -> (p: Self)
        ensures
            p == (AcknowledgeConfigurationPacket {}),
    {
        AcknowledgeConfigurationPacket {}
    }
}

impl McSerialize for AcknowledgeConfigurationPacket {
    /// An empty body.
    open spec fn spec_serialize(v: ()) -> Seq<u8> {
        Seq::<u8>::empty()
    }

    open spec fn spec_can_serialize(v: ()) -> bool {
        true
    }

    fn mc_serialize(&self, serializer: &mut McSerializer) -> (r: Result<(), SerializingErr>) {
        assert(serializer.output@ + Seq::<u8>::empty() == serializer.output@);
        Ok(())
    }
}

impl McDeserialize for AcknowledgeConfigurationPacket {
    open spec fn spec_deserialize(s: Seq<u8>) -> ParseResult<()> {
        Ok(((), 0nat))
    }

    proof fn lemma_deserialize_len(s: Seq<u8>) {
    }

    fn mc_deserialize(deserializer: &mut McDeserializer) -> (r: Result<AcknowledgeConfigurationPacket, SerializingErr>) {
        Ok(AcknowledgeConfigurationPacket {})
    }
}

impl McRoundTrip for AcknowledgeConfigurationPacket {
    open spec fn spec_well_formed(v: ()) -> bool {
        true
    }

    proof fn lemma_round_trip(v: (), rest: Seq<u8>) {
        assert(Seq::<u8>::empty() + rest == rest);
    }
}

/// The fields of [`ClickContainerButtonPacket`] as they are sent, in order.
pub type ClickContainerButtonPacketFields = (VarInt, VarInt);

/// The body of the ClickContainerButton packet (play state, to the server, id 0x10).
#[derive(Debug, Clone, PartialEq)]
pub struct ClickContainerButtonPacket {
    pub window_id: VarInt,
    pub button_id: VarInt,
}

impl DeepView for ClickContainerButtonPacket {
    type V = <ClickContainerButtonPacketFields as DeepView>::V;

    open spec fn deep_view(&self) -> Self::V {
        (self.window_id.deep_view(), self.button_id.deep_view())
    }
}

impl McSerialize for ClickContainerButtonPacket {
    open spec fn spec_serialize(v: Self::V) -> Seq<u8> {
        ClickContainerButtonPacketFields::spec_serialize(v)
    }

    open spec fn spec_can_serialize(v: Self::V) -> bool {
        ClickContainerButtonPacketFields::spec_can_serialize(v)
    }

    fn mc_serialize(&self, serializer: &mut McSerializer) -> (r: Result<(), SerializingErr>) {
        let _ = self.window_id.mc_serialize(serializer);
        let _ = self.button_id.mc_serialize(serializer);
        assert(serializer.output@ == old(serializer).output@ + Self::spec_serialize(self.deep_view()));
        Ok(())
    }
}

impl McDeserialize for ClickContainerButtonPacket {
    open spec fn spec_deserialize(s: Seq<u8>) -> ParseResult<Self::V> {
        ClickContainerButtonPacketFields::spec_deserialize(s)
    }

    proof fn lemma_deserialize_len(s: Seq<u8>) {
        ClickContainerButtonPacketFields::lemma_deserialize_len(s);
    }

    fn mc_deserialize(deserializer: &mut McDeserializer) -> (r: Result<ClickContainerButtonPacket, SerializingErr>) {
        let (window_id, button_id) = ClickContainerButtonPacketFields::mc_deserialize(deserializer)?;
        Ok(ClickContainerButtonPacket { window_id, button_id })
    }
}

impl McRoundTrip for ClickContainerButtonPacket {
    open spec fn spec_well_formed(v: Self::V) -> bool {
        ClickContainerButtonPacketFields::spec_well_formed(v)
    }

    proof fn lemma_round_trip(v: Self::V, rest: Seq<u8>) {
        ClickContainerButtonPacketFields::lemma_round_trip(v, rest);
    }
}
impl ClickContainerButtonPacket {
    pub fn new(window_id: VarInt, button_id: VarInt) -> (p: Self)
        ensures
            p == (ClickContainerButtonPacket { window_id, button_id }),
    {
        ClickContainerButtonPacket { window_id, button_id }
    }
}

/// The fields of [`CloseContainerServerPacket`] as they are sent, in order.
pub type CloseContainerServerPacketFields = VarInt;

/// The body of the CloseContainerServer packet (play state, to the server, id 0x12).
#[derive(Debug, Clone, PartialEq)]
pub struct CloseContainerServerPacket {
    pub window_id: VarInt,
}

impl DeepView for CloseContainerServerPacket {
    type V = <CloseContainerServerPacketFields as DeepView>::V;

    open spec fn deep_view(&self) -> Self::V {
        self.window_id.deep_view()
    }
}

impl McSerialize for CloseContainerServerPacket {
    open spec fn spec_serialize(v: Self::V) -> Seq<u8> {
        CloseContainerServerPacketFields::spec_serialize(v)
    }

    open spec fn spec_can_serialize(v: Self::V) -> bool {
        CloseContainerServerPacketFields::spec_can_serialize(v)
    }

    fn mc_serialize(&self, serializer: &mut McSerializer) -> (r: Result<(), SerializingErr>) {
        let _ = self.window_id.mc_serialize(serializer);
        Ok(())
    }
}

impl McDeserialize for CloseContainerServerPacket {
    open spec fn spec_deserialize(s: Seq<u8>) -> ParseResult<Self::V> {
        CloseContainerServerPacketFields::spec_deserialize(s)
    }

    proof fn lemma_deserialize_len(s: Seq<u8>) {
        CloseContainerServerPacketFields::lemma_deserialize_len(s);
    }

    fn mc_deserialize(deserializer: &mut McDeserializer) -> (r: Result<CloseContainerServerPacket, SerializingErr>) {
        let window_id = CloseContainerServerPacketFields::mc_deserialize(deserializer)?;
        Ok(CloseContainerServerPacket { window_id })
    }
}

impl McRoundTrip for CloseContainerServerPacket {
    open spec fn spec_well_formed(v: Self::V) -> bool {
        CloseContainerServerPacketFields::spec_well_formed(v)
    }

    proof fn lemma_round_trip(v: Self::V, rest: Seq<u8>) {
        CloseContainerServerPacketFields::lemma_round_trip(v, rest);
    }
}
impl CloseContainerServerPacket {
    pub fn new(window_id: VarInt) -> (p: Self)
        ensures
            p == (CloseContainerServerPacket { window_id }),
    {
        CloseContainerServerPacket { window_id }
    }
}

/// The fields of [`ChangeContainerSlotStatePacket`] as they are sent, in order.
pub type ChangeContainerSlotStatePacketFields = (VarInt, (VarInt, bool));

/// The body of the ChangeContainerSlotState packet (play state, to the server, id 0x13).
#[derive(Debug, Clone, PartialEq)]
pub struct ChangeContainerSlotStatePacket {
    pub slot_id: VarInt,
    pub window_id: VarInt,
    pub state: bool,
}

impl DeepView for ChangeContainerSlotStatePacket {
    type V = <ChangeContainerSlotStatePacketFields as DeepView>::V;

    open spec fn deep_view(&self) -> Self::V {
        (self.slot_id.deep_view(), (self.window_id.deep_view(), self.state.deep_view()))
    }
}

impl McSerialize for ChangeContainerSlotStatePacket {
    open spec fn spec_serialize(v: Self::V) -> Seq<u8> {
        ChangeContainerSlotStatePacketFields::spec_serialize(v)
    }

    open spec fn spec_can_serialize(v: Self::V) -> bool {
        ChangeContainerSlotStatePacketFields::spec_can_serialize(v)
    }

    fn mc_serialize(&self, serializer: &mut McSerializer) -> (r: Result<(), SerializingErr>) {
        let _ = self.slot_id.mc_serialize(serializer);
        let _ = self.window_id.mc_serialize(serializer);
        let _ = self.state.mc_serialize(serializer);
        assert(serializer.output@ == old(serializer).output@ + Self::spec_serialize(self.deep_view()));
        Ok(())
    }
}

impl McDeserialize for ChangeContainerSlotStatePacket {
    open spec fn spec_deserialize(s: Seq<u8>) -> ParseResult<Self::V> {
        ChangeContainerSlotStatePacketFields::spec_deserialize(s)
    }

    proof fn lemma_deserialize_len(s: Seq<u8>) {
        ChangeContainerSlotStatePacketFields::lemma_deserialize_len(s);
    }

    fn mc_deserialize(deserializer: &mut McDeserializer) -> (r: Result<ChangeContainerSlotStatePacket, SerializingErr>) {
        let (slot_id, (window_id, state)) = ChangeContainerSlotStatePacketFields::mc_deserialize(deserializer)?;
        Ok(ChangeContainerSlotStatePacket { slot_id, window_id, state })
    }
}

impl McRoundTrip for ChangeContainerSlotStatePacket {
    open spec fn spec_well_formed(v: Self::V) -> bool {
        ChangeContainerSlotStatePacketFields::spec_well_formed(v)
    }

    proof fn lemma_round_trip(v: Self::V, rest: Seq<u8>) {
        ChangeContainerSlotStatePacketFields::lemma_round_trip(v, rest);
    }
}
impl ChangeContainerSlotStatePacket {
    pub fn new(slot_id: VarInt, window_id: VarInt, state: bool) -> (p: Self)
        ensures
            p == (ChangeContainerSlotStatePacket { slot_id, window_id, state }),
    {
        ChangeContainerSlotStatePacket { slot_id, window_id, state }
    }
}

/// The fields of [`CookieResponsePlayPacket`] as they are sent, in order.
pub type CookieResponsePlayPacketFields = (String, PrefixedOptional<PrefixedArray<u8>>);

/// The body of the CookieResponsePlay packet (play state, to the server, id 0x14).
#[derive(Debug, Clone, PartialEq)]
pub struct CookieResponsePlayPacket {
    pub key: String,
    pub payload: PrefixedOptional<PrefixedArray<u8>>,
}

impl DeepView for CookieResponsePlayPacket {
    type V = <CookieResponsePlayPacketFields as DeepView>::V;

    open spec fn deep_view(&self) -> Self::V {
        (self.key.deep_view(), self.payload.deep_view())
    }
}

impl McSerialize for CookieResponsePlayPacket {
    open spec fn spec_serialize(v: Self::V) -> Seq<u8> {
        CookieResponsePlayPacketFields::spec_serialize(v)
    }

    open spec fn spec_can_serialize(v: Self::V) -> bool {
        CookieResponsePlayPacketFields::spec_can_serialize(v)
    }

    fn mc_serialize(&self, serializer: &mut McSerializer) -> (r: Result<(), SerializingErr>) {
        let _ = self.key.mc_serialize(serializer);
        let _ = self.payload.mc_serialize(serializer);
        assert(serializer.output@ == old(serializer).output@ + Self::spec_serialize(self.deep_view()));
        Ok(())
    }
}

impl McDeserialize for CookieResponsePlayPacket {
    open spec fn spec_deserialize(s: Seq<u8>) -> ParseResult<Self::V> {
        CookieResponsePlayPacketFields::spec_deserialize(s)
    }

    proof fn lemma_deserialize_len(s: Seq<u8>) {
        CookieResponsePlayPacketFields::lemma_deserialize_len(s);
    }

    fn mc_deserialize(deserializer: &mut McDeserializer) -> (r: Result<CookieResponsePlayPacket, SerializingErr>) {
        let (key, payload) = CookieResponsePlayPacketFields::mc_deserialize(deserializer)?;
        Ok(CookieResponsePlayPacket { key, payload })
    }
}

impl McRoundTrip for CookieResponsePlayPacket {
    open spec fn spec_well_formed(v: Self::V) -> bool {
        CookieResponsePlayPacketFields::spec_well_formed(v)
    }

    proof fn lemma_round_trip(v: Self::V, rest: Seq<u8>) {
        CookieResponsePlayPacketFields::lemma_round_trip(v, rest);
    }
}
impl CookieResponsePlayPacket {
    pub fn new(key: String, payload: PrefixedOptional<PrefixedArray<u8>>) -> (p: Self)
        ensures
            p == (CookieResponsePlayPacket { key, payload }),
    {
        CookieResponsePlayPacket { key, payload }
    }
}

/// The fields of [`ServerboundPluginMessagePlayPacket`] as they are sent, in order.
pub type ServerboundPluginMessagePlayPacketFields = (String, Vec<u8>);

/// The body of the ServerboundPluginMessagePlay packet (play state, to the server, id 0x15).
#[derive(Debug, Clone, PartialEq)]
pub struct ServerboundPluginMessagePlayPacket {
    pub channel: String,
    pub data: Vec<u8>,
}

impl DeepView for ServerboundPluginMessagePlayPacket {
    type V = <ServerboundPluginMessagePlayPacketFields as DeepView>::V;

    open spec fn deep_view(&self) -> Self::V {
        (self.channel.deep_view(), self.data.deep_view())
    }
}

impl McSerialize for ServerboundPluginMessagePlayPacket {
    open spec fn spec_serialize(v: Self::V) -> Seq<u8> {
        ServerboundPluginMessagePlayPacketFields::spec_serialize(v)
    }

    open spec fn spec_can_serialize(v: Self::V) -> bool {
        ServerboundPluginMessagePlayPacketFields::spec_can_serialize(v)
    }

    fn mc_serialize(&self, serializer: &mut McSerializer) -> (r: Result<(), SerializingErr>) {
        let _ = self.channel.mc_serialize(serializer);
        let _ = self.data.mc_serialize(serializer);
        assert(serializer.output@ == old(serializer).output@ + Self::spec_serialize(self.deep_view()));
        Ok(())
    }
}

impl McDeserialize for ServerboundPluginMessagePlayPacket {
    open spec fn spec_deserialize(s: Seq<u8>) -> ParseResult<Self::V> {
        ServerboundPluginMessagePlayPacketFields::spec_deserialize(s)
    }

    proof fn lemma_deserialize_len(s: Seq<u8>) {
        ServerboundPluginMessagePlayPacketFields::lemma_deserialize_len(s);
    }

    fn mc_deserialize(deserializer: &mut McDeserializer) -> (r: Result<ServerboundPluginMessagePlayPacket, SerializingErr>) {
        let (channel, data) = ServerboundPluginMessagePlayPacketFields::mc_deserialize(deserializer)?;
        Ok(ServerboundPluginMessagePlayPacket { channel, data })
    }
}
impl ServerboundPluginMessagePlayPacket {
    pub fn new(channel: String, data: Vec<u8>) -> (p: Self)
        ensures
            p == (ServerboundPluginMessagePlayPacket { channel, data }),
    {
        ServerboundPluginMessagePlayPacket { channel, data }
    }
}

/// The fields of [`DebugSubscriptionRequestPacket`] as they are sent, in order.
pub type DebugSubscriptionRequestPacketFields = VarInt;

/// The body of the DebugSubscriptionRequest packet (play state, to the server, id 0x16).
#[derive(Debug, Clone, PartialEq)]
pub struct DebugSubscriptionRequestPacket {
    pub request_type: VarInt,
}

impl DeepView for DebugSubscriptionRequestPacket {
    type V = <DebugSubscriptionRequestPacketFields as DeepView>::V;

    open spec fn deep_view(&self) -> Self::V {
        self.request_type.deep_view()
    }
}

impl McSerialize for DebugSubscriptionRequestPacket {
    open spec fn spec_serialize(v: Self::V) -> Seq<u8> {
        DebugSubscriptionRequestPacketFields::spec_serialize(v)
    }

    open spec fn spec_can_serialize(v: Self::V) -> bool {
        DebugSubscriptionRequestPacketFields::spec_can_serialize(v)
    }

    fn mc_serialize(&self, serializer: &mut McSerializer) -> (r: Result<(), SerializingErr>) {
        let _ = self.request_type.mc_serialize(serializer);
        Ok(())
    }
}

impl McDeserialize for DebugSubscriptionRequestPacket {
    open spec fn spec_deserialize(s: Seq<u8>) -> ParseResult<Self::V> {
        DebugSubscriptionRequestPacketFields::spec_deserialize(s)
    }

    proof fn lemma_deserialize_len(s: Seq<u8>) {
        DebugSubscriptionRequestPacketFields::lemma_deserialize_len(s);
    }

    fn mc_deserialize(deserializer: &mut McDeserializer) -> (r: Result<DebugSubscriptionRequestPacket, SerializingErr>) {
        let request_type = DebugSubscriptionRequestPacketFields::mc_deserialize(deserializer)?;
        Ok(DebugSubscriptionRequestPacket { request_type })
    }
}

impl McRoundTrip for DebugSubscriptionRequestPacket {
    open spec fn spec_well_formed(v: Self::V) -> bool {
        DebugSubscriptionRequestPacketFields::spec_well_formed(v)
    }

    proof fn lemma_round_trip(v: Self::V, rest: Seq<u8>) {
        DebugSubscriptionRequestPacketFields::lemma_round_trip(v, rest);
    }
}
impl DebugSubscriptionRequestPacket {
    pub fn new(request_type: VarInt) -> (p: Self)
        ensures
            p == (DebugSubscriptionRequestPacket { request_type }),
    {
        DebugSubscriptionRequestPacket { request_type }
    }
}

/// The fields of [`EditBookPacket`] as they are sent, in order.
pub type EditBookPacketFields = (VarInt, (PrefixedArray<String>, PrefixedOptional<String>));

/// The body of the EditBook packet (play state, to the server, id 0x17).
#[derive(Debug, Clone, PartialEq)]
pub struct EditBookPacket {
    pub slot: VarInt,
    pub entries: PrefixedArray<String>,
    pub title: PrefixedOptional<String>,
}

impl DeepView for EditBookPacket {
    type V = <EditBookPacketFields as DeepView>::V;

    open spec fn deep_view(&self) -> Self::V {
        (self.slot.deep_view(), (self.entries.deep_view(), self.title.deep_view()))
    }
}

impl McSerialize for EditBookPacket {
    open spec fn spec_serialize(v: Self::V) -> Seq<u8> {
        EditBookPacketFields::spec_serialize(v)
    }

    open spec fn spec_can_serialize(v: Self::V) -> bool {
        EditBookPacketFields::spec_can_serialize(v)
    }

    fn mc_serialize(&self, serializer: &mut McSerializer) -> (r: Result<(), SerializingErr>) {
        let _ = self.slot.mc_serialize(serializer);
        let _ = self.entries.mc_serialize(serializer);
        let _ = self.title.mc_serialize(serializer);
        assert(serializer.output@ == old(serializer).output@ + Self::spec_serialize(self.deep_view()));
        Ok(())
    }
}

impl McDeserialize for EditBookPacket {
    open spec fn spec_deserialize(s: Seq<u8>) -> ParseResult<Self::V> {
        EditBookPacketFields::spec_deserialize(s)
    }

    proof fn lemma_deserialize_len(s: Seq<u8>) {
        EditBookPacketFields::lemma_deserialize_len(s);
    }

    fn mc_deserialize(deserializer: &mut McDeserializer) -> (r: Result<EditBookPacket, SerializingErr>) {
        let (slot, (entries, title)) = EditBookPacketFields::mc_deserialize(deserializer)?;
        Ok(EditBookPacket { slot, entries, title })
    }
}

impl McRoundTrip for EditBookPacket {
    open spec fn spec_well_formed(v: Self::V) -> bool {
        EditBookPacketFields::spec_well_formed(v)
    }

    proof fn lemma_round_trip(v: Self::V, rest: Seq<u8>) {
        EditBookPacketFields::lemma_round_trip(v, rest);
    }
}
impl EditBookPacket {
    pub fn new(slot: VarInt, entries: PrefixedArray<String>, title: PrefixedOptional<String>) -> (p: Self)
        ensures
            p == (EditBookPacket { slot, entries, title }),
    {
        EditBookPacket { slot, entries, title }
    }
}

/// The fields of [`QueryEntityTagPacket`] as they are sent, in order.
pub type QueryEntityTagPacketFields = (VarInt, VarInt);

/// The body of the QueryEntityTag packet (play state, to the server, id 0x18).
#[derive(Debug, Clone, PartialEq)]
pub struct QueryEntityTagPacket {
    pub transaction_id: VarInt,
    pub entity_id: VarInt,
}

impl DeepView for QueryEntityTagPacket {
    type V = <QueryEntityTagPacketFields as DeepView>::V;

    open spec fn deep_view(&self) -> Self::V {
        (self.transaction_id.deep_view(), self.entity_id.deep_view())
    }
}

impl McSerialize for QueryEntityTagPacket {
    open spec fn spec_serialize(v: Self::V) -> Seq<u8> {
        QueryEntityTagPacketFields::spec_serialize(v)
    }

    open spec fn spec_can_serialize(v: Self::V) -> bool {
        QueryEntityTagPacketFields::spec_can_serialize(v)
    }

    fn mc_serialize(&self, serializer: &mut McSerializer) -> (r: Result<(), SerializingErr>) {
        let _ = self.transaction_id.mc_serialize(serializer);
        let _ = self.entity_id.mc_serialize(serializer);
        assert(serializer.output@ == old(serializer).output@ + Self::spec_serialize(self.deep_view()));
        Ok(())
    }
}

impl McDeserialize for QueryEntityTagPacket {
    open spec fn spec_deserialize(s: Seq<u8>) -> ParseResult<Self::V> {
        QueryEntityTagPacketFields::spec_deserialize(s)
    }

    proof fn lemma_deserialize_len(s: Seq<u8>) {
        QueryEntityTagPacketFields::lemma_deserialize_len(s);
    }

    fn mc_deserialize(deserializer: &mut McDeserializer) -> (r: Result<QueryEntityTagPacket, SerializingErr>) {
        let (transaction_id, entity_id) = QueryEntityTagPacketFields::mc_deserialize(deserializer)?;
        Ok(QueryEntityTagPacket { transaction_id, entity_id })
    }
}

impl McRoundTrip for QueryEntityTagPacket {
    open spec fn spec_well_formed(v: Self::V) -> bool {
        QueryEntityTagPacketFields::spec_well_formed(v)
    }

    proof fn lemma_round_trip(v: Self::V, rest: Seq<u8>) {
        QueryEntityTagPacketFields::lemma_round_trip(v, rest);
    }
}
impl QueryEntityTagPacket {
    pub fn new(transaction_id: VarInt, entity_id: VarInt) -> (p: Self)
        ensures
            p == (QueryEntityTagPacket { transaction_id, entity_id }),
    {
        QueryEntityTagPacket { transaction_id, entity_id }
    }
}

/// The fields of [`JigsawGeneratePacket`] as they are sent, in order.
pub type JigsawGeneratePacketFields = (Position, (VarInt, bool));

/// The body of the JigsawGenerate packet (play state, to the server, id 0x1A).
#[derive(Debug, Clone, PartialEq)]
pub struct JigsawGeneratePacket {
    pub location: Position,
    pub levels: VarInt,
    pub keep_jigsaws: bool,
}

impl DeepView for JigsawGeneratePacket {
    type V = <JigsawGeneratePacketFields as DeepView>::V;

    open spec fn deep_view(&self) -> Self::V {
        (self.location.deep_view(), (self.levels.deep_view(), self.keep_jigsaws.deep_view()))
    }
}

impl McSerialize for JigsawGeneratePacket {
    open spec fn spec_serialize(v: Self::V) -> Seq<u8> {
        JigsawGeneratePacketFields::spec_serialize(v)
    }

    open spec fn spec_can_serialize(v: Self::V) -> bool {
        JigsawGeneratePacketFields::spec_can_serialize(v)
    }

    fn mc_serialize(&self, serializer: &mut McSerializer) -> (r: Result<(), SerializingErr>) {
        let _ = self.location.mc_serialize(serializer);
        let _ = self.levels.mc_serialize(serializer);
        let _ = self.keep_jigsaws.mc_serialize(serializer);
        assert(serializer.output@ == old(serializer).output@ + Self::spec_serialize(self.deep_view()));
        Ok(())
    }
}

impl McDeserialize for JigsawGeneratePacket {
    open spec fn spec_deserialize(s: Seq<u8>) -> ParseResult<Self::V> {
        JigsawGeneratePacketFields::spec_deserialize(s)
    }

    proof fn lemma_deserialize_len(s: Seq<u8>) {
        JigsawGeneratePacketFields::lemma_deserialize_len(s);
    }

    fn mc_deserialize(deserializer: &mut McDeserializer) -> (r: Result<JigsawGeneratePacket, SerializingErr>) {
        let (location, (levels, keep_jigsaws)) = JigsawGeneratePacketFields::mc_deserialize(deserializer)?;
        Ok(JigsawGeneratePacket { location, levels, keep_jigsaws })
    }
}

impl McRoundTrip for JigsawGeneratePacket {
    open spec fn spec_well_formed(v: Self::V) -> bool {
        JigsawGeneratePacketFields::spec_well_formed(v)
    }

    proof fn lemma_round_trip(v: Self::V, rest: Seq<u8>) {
        JigsawGeneratePacketFields::lemma_round_trip(v, rest);
    }
}
impl JigsawGeneratePacket {
    pub fn new(location: Position, levels: VarInt, keep_jigsaws: bool) -> (p: Self)
        ensures
            p == (JigsawGeneratePacket { location, levels, keep_jigsaws }),
    {
        JigsawGeneratePacket { location, levels, keep_jigsaws }
    }
}

/// The fields of [`ServerboundKeepAlivePacket`] as they are sent, in order.
pub type ServerboundKeepAlivePacketFields = i64;

/// The body of the ServerboundKeepAlive packet (play state, to the server, id 0x1B).
#[derive(Debug, Clone, PartialEq)]
pub struct ServerboundKeepAlivePacket {
    pub keep_alive_id: i64,
}

impl DeepView for ServerboundKeepAlivePacket {
    type V = <ServerboundKeepAlivePacketFields as DeepView>::V;

    open spec fn deep_view(&self) -> Self::V {
        self.keep_alive_id.deep_view()
    }
}

impl McSerialize for ServerboundKeepAlivePacket {
    open spec fn spec_serialize(v: Self::V) -> Seq<u8> {
        ServerboundKeepAlivePacketFields::spec_serialize(v)
    }

    open spec fn spec_can_serialize(v: Self::V) -> bool {
        ServerboundKeepAlivePacketFields::spec_can_serialize(v)
    }

    fn mc_serialize(&self, serializer: &mut McSerializer) -> (r: Result<(), SerializingErr>) {
        let _ = self.keep_alive_id.mc_serialize(serializer);
        Ok(())
    }
}

impl McDeserialize for ServerboundKeepAlivePacket {
    open spec fn spec_deserialize(s: Seq<u8>) -> ParseResult<Self::V> {
        ServerboundKeepAlivePacketFields::spec_deserialize(s)
    }

    proof fn lemma_deserialize_len(s: Seq<u8>) {
        ServerboundKeepAlivePacketFields::lemma_deserialize_len(s);
    }

    fn mc_deserialize(deserializer: &mut McDeserializer) -> (r: Result<ServerboundKeepAlivePacket, SerializingErr>) {
        let keep_alive_id = ServerboundKeepAlivePacketFields::mc_deserialize(deserializer)?;
        Ok(ServerboundKeepAlivePacket { keep_alive_id })
    }
}

impl McRoundTrip for ServerboundKeepAlivePacket {
    open spec fn spec_well_formed(v: Self::V) -> bool {
        ServerboundKeepAlivePacketFields::spec_well_formed(v)
    }

    proof fn lemma_round_trip(v: Self::V, rest: Seq<u8>) {
        ServerboundKeepAlivePacketFields::lemma_round_trip(v, rest);
    }
}
impl ServerboundKeepAlivePacket {
    pub fn new(keep_alive_id: i64) -> (p: Self)
        ensures
            p == (ServerboundKeepAlivePacket { keep_alive_id }),
    {
        ServerboundKeepAlivePacket { keep_alive_id }
    }
}

/// The fields of [`LockDifficultyPacket`] as they are sent, in order.
pub type LockDifficultyPacketFields = bool;

/// The body of the LockDifficulty packet (play state, to the server, id 0x1C).
#[derive(Debug, Clone, PartialEq)]
pub struct LockDifficultyPacket {
    pub locked: bool,
}

impl DeepView for LockDifficultyPacket {
    type V = <LockDifficultyPacketFields as DeepView>::V;

    open spec fn deep_view(&self) -> Self::V {
        self.locked.deep_view()
    }
}

impl McSerialize for LockDifficultyPacket {
    open spec fn spec_serialize(v: Self::V) -> Seq<u8> {
        LockDifficultyPacketFields::spec_serialize(v)
    }

    open spec fn spec_can_serialize(v: Self::V) -> bool {
        LockDifficultyPacketFields::spec_can_serialize(v)
    }

    fn mc_serialize(&self, serializer: &mut McSerializer) -> (r: Result<(), SerializingErr>) {
        let _ = self.locked.mc_serialize(serializer);
        Ok(())
    }
}

impl McDeserialize for LockDifficultyPacket {
    open spec fn spec_deserialize(s: Seq<u8>) -> ParseResult<Self::V> {
        LockDifficultyPacketFields::spec_deserialize(s)
    }

    proof fn lemma_deserialize_len(s: Seq<u8>) {
        LockDifficultyPacketFields::lemma_deserialize_len(s);
    }

    fn mc_deserialize(deserializer: &mut McDeserializer) -> (r: Result<LockDifficultyPacket, SerializingErr>) {
        let locked = LockDifficultyPacketFields::mc_deserialize(deserializer)?;
        Ok(LockDifficultyPacket { locked })
    }
}

impl McRoundTrip for LockDifficultyPacket {
    open spec fn spec_well_formed(v: Self::V) -> bool {
        LockDifficultyPacketFields::spec_well_formed(v)
    }

    proof fn lemma_round_trip(v: Self::V, rest: Seq<u8>) {
        LockDifficultyPacketFields::lemma_round_trip(v, rest);
    }
}
impl LockDifficultyPacket {
    pub fn new(locked: bool) -> (p: Self)
        ensures
            p == (LockDifficultyPacket { locked }),
    {
        LockDifficultyPacket { locked }
    }
}

/// The fields of [`SetPlayerPositionPacket`] as they are sent, in order.
pub type SetPlayerPositionPacketFields = (u64, (u64, (u64, PlayerPositionFlags)));

/// The body of the SetPlayerPosition packet (play state, to the server, id 0x1D).
#[derive(Debug, Clone, PartialEq)]
pub struct SetPlayerPositionPacket {
    pub x: u64,
    pub y: u64,
    pub z: u64,
    pub flags: PlayerPositionFlags,
}

impl DeepView for SetPlayerPositionPacket {
    type V = <SetPlayerPositionPacketFields as DeepView>::V;

    open spec fn deep_view(&self) -> Self::V {
        (self.x.deep_view(), (self.y.deep_view(), (self.z.deep_view(), self.flags.deep_view())))
    }
}

impl McSerialize for SetPlayerPositionPacket {
    open spec fn spec_serialize(v: Self::V) -> Seq<u8> {
        SetPlayerPositionPacketFields::spec_serialize(v)
    }

    open spec fn spec_can_serialize(v: Self::V) -> bool {
        SetPlayerPositionPacketFields::spec_can_serialize(v)
    }

    fn mc_serialize(&self, serializer: &mut McSerializer) -> (r: Result<(), SerializingErr>) {
        let _ = self.x.mc_serialize(serializer);
        let _ = self.y.mc_serialize(serializer);
        let _ = self.z.mc_serialize(serializer);
        let _ = self.flags.mc_serialize(serializer);
        assert(serializer.output@ == old(serializer).output@ + Self::spec_serialize(self.deep_view()));
        Ok(())
    }
}

impl McDeserialize for SetPlayerPositionPacket {
    open spec fn spec_deserialize(s: Seq<u8>) -> ParseResult<Self::V> {
        SetPlayerPositionPacketFields::spec_deserialize(s)
    }

    proof fn lemma_deserialize_len(s: Seq<u8>) {
        SetPlayerPositionPacketFields::lemma_deserialize_len(s);
    }

    fn mc_deserialize(deserializer: &mut McDeserializer) -> (r: Result<SetPlayerPositionPacket, SerializingErr>) {
        let (x, (y, (z, flags))) = SetPlayerPositionPacketFields::mc_deserialize(deserializer)?;
        Ok(SetPlayerPositionPacket { x, y, z, flags })
    }
}

impl McRoundTrip for SetPlayerPositionPacket {
    open spec fn spec_well_formed(v: Self::V) -> bool {
        SetPlayerPositionPacketFields::spec_well_formed(v)
    }

    proof fn lemma_round_trip(v: Self::V, rest: Seq<u8>) {
        SetPlayerPositionPacketFields::lemma_round_trip(v, rest);
    }
}
impl SetPlayerPositionPacket {
    pub fn new(x: u64, y: u64, z: u64, flags: PlayerPositionFlags) -> (p: Self)
        ensures
            p == (SetPlayerPositionPacket { x, y, z, flags }),
    {
        SetPlayerPositionPacket { x, y, z, flags }
    }
}

/// The fields of [`SetPlayerPositionRotationPacket`] as they are sent, in order.
pub type SetPlayerPositionRotationPacketFields = (u64, (u64, (u64, (u32, (u32, PlayerPositionFlags)))));

/// The body of the SetPlayerPositionRotation packet (play state, to the server, id 0x1E).
#[derive(Debug, Clone, PartialEq)]
pub struct SetPlayerPositionRotationPacket {
    pub x: u64,
    pub y: u64,
    pub z: u64,
    pub yaw: u32,
    pub pitch: u32,
    pub flags: PlayerPositionFlags,
}

impl DeepView for SetPlayerPositionRotationPacket {
    type V = <SetPlayerPositionRotationPacketFields as DeepView>::V;

    open spec fn deep_view(&self) -> Self::V {
        (self.x.deep_view(), (self.y.deep_view(), (self.z.deep_view(), (self.yaw.deep_view(), (self.pitch.deep_view(), self.flags.deep_view())))))
    }
}

impl McSerialize for SetPlayerPositionRotationPacket {
    open spec fn spec_serialize(v: Self::V) -> Seq<u8> {
        SetPlayerPositionRotationPacketFields::spec_serialize(v)
    }

    open spec fn spec_can_serialize(v: Self::V) -> bool {
        SetPlayerPositionRotationPacketFields::spec_can_serialize(v)
    }

    #[verifier::spinoff_prover]
    #[verifier::rlimit(80)]
    fn mc_serialize(&self, serializer: &mut McSerializer) -> (r: Result<(), SerializingErr>) {
        let _ = self.x.mc_serialize(serializer);
        let _ = self.y.mc_serialize(serializer);
        let _ = self.z.mc_serialize(serializer);
        let _ = self.yaw.mc_serialize(serializer);
        let _ = self.pitch.mc_serialize(serializer);
        let _ = self.flags.mc_serialize(serializer);
        assert(serializer.output@ == old(serializer).output@ + Self::spec_serialize(self.deep_view()));
        Ok(())
    }
}

impl McDeserialize for SetPlayerPositionRotationPacket {
    open spec fn spec_deserialize(s: Seq<u8>) -> ParseResult<Self::V> {
        SetPlayerPositionRotationPacketFields::spec_deserialize(s)
    }

    proof fn lemma_deserialize_len(s: Seq<u8>) {
        SetPlayerPositionRotationPacketFields::lemma_deserialize_len(s);
    }

    fn mc_deserialize(deserializer: &mut McDeserializer) -> (r: Result<SetPlayerPositionRotationPacket, SerializingErr>) {
        let (x, (y, (z, (yaw, (pitch, flags))))) = SetPlayerPositionRotationPacketFields::mc_deserialize(deserializer)?;
        Ok(SetPlayerPositionRotationPacket { x, y, z, yaw, pitch, flags })
    }
}

impl McRoundTrip for SetPlayerPositionRotationPacket {
    open spec fn spec_well_formed(v: Self::V) -> bool {
        SetPlayerPositionRotationPacketFields::spec_well_formed(v)
    }

    proof fn lemma_round_trip(v: Self::V, rest: Seq<u8>) {
        SetPlayerPositionRotationPacketFields::lemma_round_trip(v, rest);
    }
}
impl SetPlayerPositionRotationPacket {
    pub fn new(x: u64, y: u64, z: u64, yaw: u32, pitch: u32, flags: PlayerPositionFlags) -> (p: Self)
        ensures
            p == (SetPlayerPositionRotationPacket { x, y, z, yaw, pitch, flags }),
    {
        SetPlayerPositionRotationPacket { x, y, z, yaw, pitch, flags }
    }
}

/// The fields of [`SetPlayerRotationPacket`] as they are sent, in order.
pub type SetPlayerRotationPacketFields = (u32, (u32, PlayerPositionFlags));

/// The body of the SetPlayerRotation packet (play state, to the server, id 0x1F).
#[derive(Debug, Clone, PartialEq)]
pub struct SetPlayerRotationPacket {
    pub yaw: u32,
    pub pitch: u32,
    pub flags: PlayerPositionFlags,
}

impl DeepView for SetPlayerRotationPacket {
    type V = <SetPlayerRotationPacketFields as DeepView>::V;

    open spec fn deep_view(&self) -> Self::V {
        (self.yaw.deep_view(), (self.pitch.deep_view(), self.flags.deep_view()))
    }
}

impl McSerialize for SetPlayerRotationPacket {
    open spec fn spec_serialize(v: Self::V) -> Seq<u8> {
        SetPlayerRotationPacketFields::spec_serialize(v)
    }

    open spec fn spec_can_serialize(v: Self::V) -> bool {
        SetPlayerRotationPacketFields::spec_can_serialize(v)
    }

    fn mc_serialize(&self, serializer: &mut McSerializer) -> (r: Result<(), SerializingErr>) {
        let _ = self.yaw.mc_serialize(serializer);
        let _ = self.pitch.mc_serialize(serializer);
        let _ = self.flags.mc_serialize(serializer);
        assert(serializer.output@ == old(serializer).output@ + Self::spec_serialize(self.deep_view()));
        Ok(())
    }
}

impl McDeserialize for SetPlayerRotationPacket {
    open spec fn spec_deserialize(s: Seq<u8>) -> ParseResult<Self::V> {
        SetPlayerRotationPacketFields::spec_deserialize(s)
    }

    proof fn lemma_deserialize_len(s: Seq<u8>) {
        SetPlayerRotationPacketFields::lemma_deserialize_len(s);
    }

    fn mc_deserialize(deserializer: &mut McDeserializer) -> (r: Result<SetPlayerRotationPacket, SerializingErr>) {
        let (yaw, (pitch, flags)) = SetPlayerRotationPacketFields::mc_deserialize(deserializer)?;
        Ok(SetPlayerRotationPacket { yaw, pitch, flags })
    }
}

impl McRoundTrip for SetPlayerRotationPacket {
    open spec fn spec_well_formed(v: Self::V) -> bool {
        SetPlayerRotationPacketFields::spec_well_formed(v)
    }

    proof fn lemma_round_trip(v: Self::V, rest: Seq<u8>) {
        SetPlayerRotationPacketFields::lemma_round_trip(v, rest);
    }
}
impl SetPlayerRotationPacket {
    pub fn new(yaw: u32, pitch: u32, flags: PlayerPositionFlags) -> (p: Self)
        ensures
            p == (SetPlayerRotationPacket { yaw, pitch, flags }),
    {
        SetPlayerRotationPacket { yaw, pitch, flags }
    }
}

/// The fields of [`SetPlayerMovementFlagsPacket`] as they are sent, in order.
pub type SetPlayerMovementFlagsPacketFields = PlayerPositionFlags;

/// The body of the SetPlayerMovementFlags packet (play state, to the server, id 0x20).
#[derive(Debug, Clone, PartialEq)]
pub struct SetPlayerMovementFlagsPacket {
    pub flags: PlayerPositionFlags,
}

impl DeepView for SetPlayerMovementFlagsPacket {
    type V = <SetPlayerMovementFlagsPacketFields as DeepView>::V;

    open spec fn deep_view(&self) -> Self::V {
        self.flags.deep_view()
    }
}

impl McSerialize for SetPlayerMovementFlagsPacket {
    open spec fn spec_serialize(v: Self::V) -> Seq<u8> {
        SetPlayerMovementFlagsPacketFields::spec_serialize(v)
    }

    open spec fn spec_can_serialize(v: Self::V) -> bool {
        SetPlayerMovementFlagsPacketFields::spec_can_serialize(v)
    }

    fn mc_serialize(&self, serializer: &mut McSerializer) -> (r: Result<(), SerializingErr>) {
        let _ = self.flags.mc_serialize(serializer);
        Ok(())
    }
}

impl McDeserialize for SetPlayerMovementFlagsPacket {
    open spec fn spec_deserialize(s: Seq<u8>) -> ParseResult<Self::V> {
        SetPlayerMovementFlagsPacketFields::spec_deserialize(s)
    }

    proof fn lemma_deserialize_len(s: Seq<u8>) {
        SetPlayerMovementFlagsPacketFields::lemma_deserialize_len(s);
    }

    fn mc_deserialize(deserializer: &mut McDeserializer) -> (r: Result<SetPlayerMovementFlagsPacket, SerializingErr>) {
        let flags = SetPlayerMovementFlagsPacketFields::mc_deserialize(deserializer)?;
        Ok(SetPlayerMovementFlagsPacket { flags })
    }
}

impl McRoundTrip for SetPlayerMovementFlagsPacket {
    open spec fn spec_well_formed(v: Self::V) -> bool {
        SetPlayerMovementFlagsPacketFields::spec_well_formed(v)
    }

    proof fn lemma_round_trip(v: Self::V, rest: Seq<u8>) {
        SetPlayerMovementFlagsPacketFields::lemma_round_trip(v, rest);
    }
}
impl SetPlayerMovementFlagsPacket {
    pub fn new(flags: PlayerPositionFlags) -> (p: Self)
        ensures
            p == (SetPlayerMovementFlagsPacket { flags }),
    {
        SetPlayerMovementFlagsPacket { flags }
    }
}

/// The fields of [`MoveVehicleServerPacket`] as they are sent, in order.
pub type MoveVehicleServerPacketFields = (u64, (u64, (u64, (u32, u32))));

/// The body of the MoveVehicleServer packet (play state, to the server, id 0x21).
#[derive(Debug, Clone, PartialEq)]
pub struct MoveVehicleServerPacket {
    pub x: u64,
    pub y: u64,
    pub z: u64,
    pub yaw: u32,
    pub pitch: u32,
}

impl DeepView for MoveVehicleServerPacket {
    type V = <MoveVehicleServerPacketFields as DeepView>::V;

    open spec fn deep_view(&self) -> Self::V {
        (self.x.deep_view(), (self.y.deep_view(), (self.z.deep_view(), (self.yaw.deep_view(), self.pitch.deep_view()))))
    }
}

impl McSerialize for MoveVehicleServerPacket {
    open spec fn spec_serialize(v: Self::V) -> Seq<u8> {
        MoveVehicleServerPacketFields::spec_serialize(v)
    }

    open spec fn spec_can_serialize(v: Self::V) -> bool {
        MoveVehicleServerPacketFields::spec_can_serialize(v)
    }

    fn mc_serialize(&self, serializer: &mut McSerializer) -> (r: Result<(), SerializingErr>) {
        let _ = self.x.mc_serialize(serializer);
        let _ = self.y.mc_serialize(serializer);
        let _ = self.z.mc_serialize(serializer);
        let _ = self.yaw.mc_serialize(serializer);
        let _ = self.pitch.mc_serialize(serializer);
        assert(serializer.output@ == old(serializer).output@ + Self::spec_serialize(self.deep_view()));
        Ok(())
    }
}

impl McDeserialize for MoveVehicleServerPacket {
    open spec fn spec_deserialize(s: Seq<u8>) -> ParseResult<Self::V> {
        MoveVehicleServerPacketFields::spec_deserialize(s)
    }

    proof fn lemma_deserialize_len(s: Seq<u8>) {
        MoveVehicleServerPacketFields::lemma_deserialize_len(s);
    }

    fn mc_deserialize(deserializer: &mut McDeserializer) -> (r: Result<MoveVehicleServerPacket, SerializingErr>) {
        let (x, (y, (z, (yaw, pitch)))) = MoveVehicleServerPacketFields::mc_deserialize(deserializer)?;
        Ok(MoveVehicleServerPacket { x, y, z, yaw, pitch })
    }
}

impl McRoundTrip for MoveVehicleServerPacket {
    open spec fn spec_well_formed(v: Self::V) -> bool {
        MoveVehicleServerPacketFields::spec_well_formed(v)
    }

    proof fn lemma_round_trip(v: Self::V, rest: Seq<u8>) {
        MoveVehicleServerPacketFields::lemma_round_trip(v, rest);
    }
}
impl MoveVehicleServerPacket {
    pub fn new(x: u64, y: u64, z: u64, yaw: u32, pitch: u32) -> (p: Self)
        ensures
            p == (MoveVehicleServerPacket { x, y, z, yaw, pitch }),
    {
        MoveVehicleServerPacket { x, y, z, yaw, pitch }
    }
}

/// The fields of [`PaddleBoatPacket`] as they are sent, in order.
pub type PaddleBoatPacketFields = (bool, bool);

/// The body of the PaddleBoat packet (play state, to the server, id 0x22).
#[derive(Debug, Clone, PartialEq)]
pub struct PaddleBoatPacket {
    pub left_paddle_turning: bool,
    pub right_paddle_turning: bool,
}

impl DeepView for PaddleBoatPacket {
    type V = <PaddleBoatPacketFields as DeepView>::V;

    open spec fn deep_view(&self) -> Self::V {
        (self.left_paddle_turning.deep_view(), self.right_paddle_turning.deep_view())
    }
}

impl McSerialize for PaddleBoatPacket {
    open spec fn spec_serialize(v: Self::V) -> Seq<u8> {
        PaddleBoatPacketFields::spec_serialize(v)
    }

    open spec fn spec_can_serialize(v: Self::V) -> bool {
        PaddleBoatPacketFields::spec_can_serialize(v)
    }

    fn mc_serialize(&self, serializer: &mut McSerializer) -> (r: Result<(), SerializingErr>) {
        let _ = self.left_paddle_turning.mc_serialize(serializer);
        let _ = self.right_paddle_turning.mc_serialize(serializer);
        assert(serializer.output@ == old(serializer).output@ + Self::spec_serialize(self.deep_view()));
        Ok(())
    }
}

impl McDeserialize for PaddleBoatPacket {
    open spec fn spec_deserialize(s: Seq<u8>) -> ParseResult<Self::V> {
        PaddleBoatPacketFields::spec_deserialize(s)
    }

    proof fn lemma_deserialize_len(s: Seq<u8>) {
        PaddleBoatPacketFields::lemma_deserialize_len(s);
    }

    fn mc_deserialize(deserializer: &mut McDeserializer) -> (r: Result<PaddleBoatPacket, SerializingErr>) {
        let (left_paddle_turning, right_paddle_turning) = PaddleBoatPacketFields::mc_deserialize(deserializer)?;
        Ok(PaddleBoatPacket { left_paddle_turning, right_paddle_turning })
    }
}

impl McRoundTrip for PaddleBoatPacket {
    open spec fn spec_well_formed(v: Self::V) -> bool {
        PaddleBoatPacketFields::spec_well_formed(v)
    }

    proof fn lemma_round_trip(v: Self::V, rest: Seq<u8>) {
        PaddleBoatPacketFields::lemma_round_trip(v, rest);
    }
}
impl PaddleBoatPacket {
    pub fn new(left_paddle_turning: bool, right_paddle_turning: bool) -> (p: Self)
        ensures
            p == (PaddleBoatPacket { left_paddle_turning, right_paddle_turning }),
    {
        PaddleBoatPacket { left_paddle_turning, right_paddle_turning }
    }
}

/// The fields of [`PickItemFromBlockPacket`] as they are sent, in order.
pub type PickItemFromBlockPacketFields = (Position, bool);

/// The body of the PickItemFromBlock packet (play state, to the server, id 0x23).
#[derive(Debug, Clone, PartialEq)]
pub struct PickItemFromBlockPacket {
    pub location: Position,
    pub include_data: bool,
}

impl DeepView for PickItemFromBlockPacket {
    type V = <PickItemFromBlockPacketFields as DeepView>::V;

    open spec fn deep_view(&self) -> Self::V {
        (self.location.deep_view(), self.include_data.deep_view())
    }
}

impl McSerialize for PickItemFromBlockPacket {
    open spec fn spec_serialize(v: Self::V) -> Seq<u8> {
        PickItemFromBlockPacketFields::spec_serialize(v)
    }

    open spec fn spec_can_serialize(v: Self::V) -> bool {
        PickItemFromBlockPacketFields::spec_can_serialize(v)
    }

    fn mc_serialize(&self, serializer: &mut McSerializer) -> (r: Result<(), SerializingErr>) {
        let _ = self.location.mc_serialize(serializer);
        let _ = self.include_data.mc_serialize(serializer);
        assert(serializer.output@ == old(serializer).output@ + Self::spec_serialize(self.deep_view()));
        Ok(())
    }
}

impl McDeserialize for PickItemFromBlockPacket {
    open spec fn spec_deserialize(s: Seq<u8>) -> ParseResult<Self::V> {
        PickItemFromBlockPacketFields::spec_deserialize(s)
    }

    proof fn lemma_deserialize_len(s: Seq<u8>) {
        PickItemFromBlockPacketFields::lemma_deserialize_len(s);
    }

    fn mc_deserialize(deserializer: &mut McDeserializer) -> (r: Result<PickItemFromBlockPacket, SerializingErr>) {
        let (location, include_data) = PickItemFromBlockPacketFields::mc_deserialize(deserializer)?;
        Ok(PickItemFromBlockPacket { location, include_data })
    }
}

impl McRoundTrip for PickItemFromBlockPacket {
    open spec fn spec_well_formed(v: Self::V) -> bool {
        PickItemFromBlockPacketFields::spec_well_formed(v)
    }

    proof fn lemma_round_trip(v: Self::V, rest: Seq<u8>) {
        PickItemFromBlockPacketFields::lemma_round_trip(v, rest);
    }
}
impl PickItemFromBlockPacket {
    pub fn new(location: Position, include_data: bool) -> (p: Self)
        ensures
            p == (PickItemFromBlockPacket { location, include_data }),
    {
        PickItemFromBlockPacket { location, include_data }
    }
}

/// The fields of [`PickItemFromEntityPacket`] as they are sent, in order.
pub type PickItemFromEntityPacketFields = (VarInt, bool);

/// The body of the PickItemFromEntity packet (play state, to the server, id 0x24).
#[derive(Debug, Clone, PartialEq)]
pub struct PickItemFromEntityPacket {
    pub entity_id: VarInt,
    pub include_data: bool,
}

impl DeepView for PickItemFromEntityPacket {
    type V = <PickItemFromEntityPacketFields as DeepView>::V;

    open spec fn deep_view(&self) -> Self::V {
        (self.entity_id.deep_view(), self.include_data.deep_view())
    }
}

impl McSerialize for PickItemFromEntityPacket {
    open spec fn spec_serialize(v: Self::V) -> Seq<u8> {
        PickItemFromEntityPacketFields::spec_serialize(v)
    }

    open spec fn spec_can_serialize(v: Self::V) -> bool {
        PickItemFromEntityPacketFields::spec_can_serialize(v)
    }

    fn mc_serialize(&self, serializer: &mut McSerializer) -> (r: Result<(), SerializingErr>) {
        let _ = self.entity_id.mc_serialize(serializer);
        let _ = self.include_data.mc_serialize(serializer);
        assert(serializer.output@ == old(serializer).output@ + Self::spec_serialize(self.deep_view()));
        Ok(())
    }
}

impl McDeserialize for PickItemFromEntityPacket {
    open spec fn spec_deserialize(s: Seq<u8>) -> ParseResult<Self::V> {
        PickItemFromEntityPacketFields::spec_deserialize(s)
    }

    proof fn lemma_deserialize_len(s: Seq<u8>) {
        PickItemFromEntityPacketFields::lemma_deserialize_len(s);
    }

    fn mc_deserialize(deserializer: &mut McDeserializer) -> (r: Result<PickItemFromEntityPacket, SerializingErr>) {
        let (entity_id, include_data) = PickItemFromEntityPacketFields::mc_deserialize(deserializer)?;
        Ok(PickItemFromEntityPacket { entity_id, include_data })
    }
}

impl McRoundTrip for PickItemFromEntityPacket {
    open spec fn spec_well_formed(v: Self::V) -> bool {
        PickItemFromEntityPacketFields::spec_well_formed(v)
    }

    proof fn lemma_round_trip(v: Self::V, rest: Seq<u8>) {
        PickItemFromEntityPacketFields::lemma_round_trip(v, rest);
    }
}
impl PickItemFromEntityPacket {
    pub fn new(entity_id: VarInt, include_data: bool) -> (p: Self)
        ensures
            p == (PickItemFromEntityPacket { entity_id, include_data }),
    {
        PickItemFromEntityPacket { entity_id, include_data }
    }
}

/// The fields of [`PingRequestPlayPacket`] as they are sent, in order.
pub type PingRequestPlayPacketFields = i64;

/// The body of the PingRequestPlay packet (play state, to the server, id 0x25).
#[derive(Debug, Clone, PartialEq)]
pub struct PingRequestPlayPacket {
    pub payload: i64,
}

impl DeepView for PingRequestPlayPacket {
    type V = <PingRequestPlayPacketFields as DeepView>::V;

    open spec fn deep_view(&self) -> Self::V {
        self.payload.deep_view()
    }
}

impl McSerialize for PingRequestPlayPacket {
    open spec fn spec_serialize(v: Self::V) -> Seq<u8> {
        PingRequestPlayPacketFields::spec_serialize(v)
    }

    open spec fn spec_can_serialize(v: Self::V) -> bool {
        PingRequestPlayPacketFields::spec_can_serialize(v)
    }

    fn mc_serialize(&self, serializer: &mut McSerializer) -> (r: Result<(), SerializingErr>) {
        let _ = self.payload.mc_serialize(serializer);
        Ok(())
    }
}

impl McDeserialize for PingRequestPlayPacket {
    open spec fn spec_deserialize(s: Seq<u8>) -> ParseResult<Self::V> {
        PingRequestPlayPacketFields::spec_deserialize(s)
    }

    proof fn lemma_deserialize_len(s: Seq<u8>) {
        PingRequestPlayPacketFields::lemma_deserialize_len(s);
    }

    fn mc_deserialize(deserializer: &mut McDeserializer) -> (r: Result<PingRequestPlayPacket, SerializingErr>) {
        let payload = PingRequestPlayPacketFields::mc_deserialize(deserializer)?;
        Ok(PingRequestPlayPacket { payload })
    }
}

impl McRoundTrip for PingRequestPlayPacket {
    open spec fn spec_well_formed(v: Self::V) -> bool {
        PingRequestPlayPacketFields::spec_well_formed(v)
    }

    proof fn lemma_round_trip(v: Self::V, rest: Seq<u8>) {
        PingRequestPlayPacketFields::lemma_round_trip(v, rest);
    }
}
impl PingRequestPlayPacket {
    pub fn new(payload: i64) -> (p: Self)
        ensures
            p == (PingRequestPlayPacket { payload }),
    {
        PingRequestPlayPacket { payload }
    }
}

/// The fields of [`PlaceRecipePacket`] as they are sent, in order.
pub type PlaceRecipePacketFields = (VarInt, (VarInt, bool));

/// The body of the PlaceRecipe packet (play state, to the server, id 0x26).
#[derive(Debug, Clone, PartialEq)]
pub struct PlaceRecipePacket {
    pub window_id: VarInt,
    pub recipe_id: VarInt,
    pub make_all: bool,
}

impl DeepView for PlaceRecipePacket {
    type V = <PlaceRecipePacketFields as DeepView>::V;

    open spec fn deep_view(&self) -> Self::V {
        (self.window_id.deep_view(), (self.recipe_id.deep_view(), self.make_all.deep_view()))
    }
}

impl McSerialize for PlaceRecipePacket {
    open spec fn spec_serialize(v: Self::V) -> Seq<u8> {
        PlaceRecipePacketFields::spec_serialize(v)
    }

    open spec fn spec_can_serialize(v: Self::V) -> bool {
        PlaceRecipePacketFields::spec_can_serialize(v)
    }

    fn mc_serialize(&self, serializer: &mut McSerializer) -> (r: Result<(), SerializingErr>) {
        let _ = self.window_id.mc_serialize(serializer);
        let _ = self.recipe_id.mc_serialize(serializer);
        let _ = self.make_all.mc_serialize(serializer);
        assert(serializer.output@ == old(serializer).output@ + Self::spec_serialize(self.deep_view()));
        Ok(())
    }
}

impl McDeserialize for PlaceRecipePacket {
    open spec fn spec_deserialize(s: Seq<u8>) -> ParseResult<Self::V> {
        PlaceRecipePacketFields::spec_deserialize(s)
    }

    proof fn lemma_deserialize_len(s: Seq<u8>) {
        PlaceRecipePacketFields::lemma_deserialize_len(s);
    }

    fn mc_deserialize(deserializer: &mut McDeserializer) -> (r: Result<PlaceRecipePacket, SerializingErr>) {
        let (window_id, (recipe_id, make_all)) = PlaceRecipePacketFields::mc_deserialize(deserializer)?;
        Ok(PlaceRecipePacket { window_id, recipe_id, make_all })
    }
}

impl McRoundTrip for PlaceRecipePacket {
    open spec fn spec_well_formed(v: Self::V) -> bool {
        PlaceRecipePacketFields::spec_well_formed(v)
    }

    proof fn lemma_round_trip(v: Self::V, rest: Seq<u8>) {
        PlaceRecipePacketFields::lemma_round_trip(v, rest);
    }
}
impl PlaceRecipePacket {
    pub fn new(window_id: VarInt, recipe_id: VarInt, make_all: bool) -> (p: Self)
        ensures
            p == (PlaceRecipePacket { window_id, recipe_id, make_all }),
    {
        PlaceRecipePacket { window_id, recipe_id, make_all }
    }
}

/// The fields of [`PlayerAbilitiesServerPacket`] as they are sent, in order.
pub type PlayerAbilitiesServerPacketFields = PlayerAbilityFlags;

/// The body of the PlayerAbilitiesServer packet (play state, to the server, id 0x27).
#[derive(Debug, Clone, PartialEq)]
pub struct PlayerAbilitiesServerPacket {
    pub flags: PlayerAbilityFlags,
}

impl DeepView for PlayerAbilitiesServerPacket {
    type V = <PlayerAbilitiesServerPacketFields as DeepView>::V;

    open spec fn deep_view(&self) -> Self::V {
        self.flags.deep_view()
    }
}

impl McSerialize for PlayerAbilitiesServerPacket {
    open spec fn spec_serialize(v: Self::V) -> Seq<u8> {
        PlayerAbilitiesServerPacketFields::spec_serialize(v)
    }

    open spec fn spec_can_serialize(v: Self::V) -> bool {
        PlayerAbilitiesServerPacketFields::spec_can_serialize(v)
    }

    fn mc_serialize(&self, serializer: &mut McSerializer) -> (r: Result<(), SerializingErr>) {
        let _ = self.flags.mc_serialize(serializer);
        Ok(())
    }
}

impl McDeserialize for PlayerAbilitiesServerPacket {
    open spec fn spec_deserialize(s: Seq<u8>) -> ParseResult<Self::V> {
        PlayerAbilitiesServerPacketFields::spec_deserialize(s)
    }

    proof fn lemma_deserialize_len(s: Seq<u8>) {
        PlayerAbilitiesServerPacketFields::lemma_deserialize_len(s);
    }

    fn mc_deserialize(deserializer: &mut McDeserializer) -> (r: Result<PlayerAbilitiesServerPacket, SerializingErr>) {
        let flags = PlayerAbilitiesServerPacketFields::mc_deserialize(deserializer)?;
        Ok(PlayerAbilitiesServerPacket { flags })
    }
}

impl McRoundTrip for PlayerAbilitiesServerPacket {
    open spec fn spec_well_formed(v: Self::V) -> bool {
        PlayerAbilitiesServerPacketFields::spec_well_formed(v)
    }

    proof fn lemma_round_trip(v: Self::V, rest: Seq<u8>) {
        PlayerAbilitiesServerPacketFields::lemma_round_trip(v, rest);
    }
}
impl PlayerAbilitiesServerPacket {
    pub fn new(flags: PlayerAbilityFlags) -> (p: Self)
        ensures
            p == (PlayerAbilitiesServerPacket { flags }),
    {
        PlayerAbilitiesServerPacket { flags }
    }
}

/// The fields of [`PlayerActionPacket`] as they are sent, in order.
pub type PlayerActionPacketFields = (PlayerActionStatus, (Position, (BlockFace, VarInt)));

/// The body of the PlayerAction packet (play state, to the server, id 0x28).
#[derive(Debug, Clone, PartialEq)]
pub struct PlayerActionPacket {
    pub status: PlayerActionStatus,
    pub location: Position,
    pub face: BlockFace,
    pub sequence_id: VarInt,
}

impl DeepView for PlayerActionPacket {
    type V = <PlayerActionPacketFields as DeepView>::V;

    open spec fn deep_view(&self) -> Self::V {
        (self.status.deep_view(), (self.location.deep_view(), (self.face.deep_view(), self.sequence_id.deep_view())))
    }
}

impl McSerialize for PlayerActionPacket {
    open spec fn spec_serialize(v: Self::V) -> Seq<u8> {
        PlayerActionPacketFields::spec_serialize(v)
    }

    open spec fn spec_can_serialize(v: Self::V) -> bool {
        PlayerActionPacketFields::spec_can_serialize(v)
    }

    fn mc_serialize(&self, serializer: &mut McSerializer) -> (r: Result<(), SerializingErr>) {
        let _ = self.status.mc_serialize(serializer);
        let _ = self.location.mc_serialize(serializer);
        let _ = self.face.mc_serialize(serializer);
        let _ = self.sequence_id.mc_serialize(serializer);
        assert(serializer.output@ == old(serializer).output@ + Self::spec_serialize(self.deep_view()));
        Ok(())
    }
}

impl McDeserialize for PlayerActionPacket {
    open spec fn spec_deserialize(s: Seq<u8>) -> ParseResult<Self::V> {
        PlayerActionPacketFields::spec_deserialize(s)
    }

    proof fn lemma_deserialize_len(s: Seq<u8>) {
        PlayerActionPacketFields::lemma_deserialize_len(s);
    }

    fn mc_deserialize(deserializer: &mut McDeserializer) -> (r: Result<PlayerActionPacket, SerializingErr>) {
        let (status, (location, (face, sequence_id))) = PlayerActionPacketFields::mc_deserialize(deserializer)?;
        Ok(PlayerActionPacket { status, location, face, sequence_id })
    }
}

impl McRoundTrip for PlayerActionPacket {
    open spec fn spec_well_formed(v: Self::V) -> bool {
        PlayerActionPacketFields::spec_well_formed(v)
    }

    proof fn lemma_round_trip(v: Self::V, rest: Seq<u8>) {
        PlayerActionPacketFields::lemma_round_trip(v, rest);
    }
}
impl PlayerActionPacket {
    pub fn new(status: PlayerActionStatus, location: Position, face: BlockFace, sequence_id: VarInt) -> (p: Self)
        ensures
            p == (PlayerActionPacket { status, location, face, sequence_id }),
    {
        PlayerActionPacket { status, location, face, sequence_id }
    }
}

/// The fields of [`PlayerCommandPacket`] as they are sent, in order.
pub type PlayerCommandPacketFields = (VarInt, VarInt);

/// The body of the PlayerCommand packet (play state, to the server, id 0x29).
#[derive(Debug, Clone, PartialEq)]
pub struct PlayerCommandPacket {
    pub entity_id: VarInt,
    pub jump_boost: VarInt,
}

impl DeepView for PlayerCommandPacket {
    type V = <PlayerCommandPacketFields as DeepView>::V;

    open spec fn deep_view(&self) -> Self::V {
        (self.entity_id.deep_view(), self.jump_boost.deep_view())
    }
}

impl McSerialize for PlayerCommandPacket {
    open spec fn spec_serialize(v: Self::V) -> Seq<u8> {
        PlayerCommandPacketFields::spec_serialize(v)
    }

    open spec fn spec_can_serialize(v: Self::V) -> bool {
        PlayerCommandPacketFields::spec_can_serialize(v)
    }

    fn mc_serialize(&self, serializer: &mut McSerializer) -> (r: Result<(), SerializingErr>) {
        let _ = self.entity_id.mc_serialize(serializer);
        let _ = self.jump_boost.mc_serialize(serializer);
        assert(serializer.output@ == old(serializer).output@ + Self::spec_serialize(self.deep_view()));
        Ok(())
    }
}

impl McDeserialize for PlayerCommandPacket {
    open spec fn spec_deserialize(s: Seq<u8>) -> ParseResult<Self::V> {
        PlayerCommandPacketFields::spec_deserialize(s)
    }

    proof fn lemma_deserialize_len(s: Seq<u8>) {
        PlayerCommandPacketFields::lemma_deserialize_len(s);
    }

    fn mc_deserialize(deserializer: &mut McDeserializer) -> (r: Result<PlayerCommandPacket, SerializingErr>) {
        let (entity_id, jump_boost) = PlayerCommandPacketFields::mc_deserialize(deserializer)?;
        Ok(PlayerCommandPacket { entity_id, jump_boost })
    }
}

impl McRoundTrip for PlayerCommandPacket {
    open spec fn spec_well_formed(v: Self::V) -> bool {
        PlayerCommandPacketFields::spec_well_formed(v)
    }

    proof fn lemma_round_trip(v: Self::V, rest: Seq<u8>) {
        PlayerCommandPacketFields::lemma_round_trip(v, rest);
    }
}
impl PlayerCommandPacket {
    pub fn new(entity_id: VarInt, jump_boost: VarInt) -> (p: Self)
        ensures
            p == (PlayerCommandPacket { entity_id, jump_boost }),
    {
        PlayerCommandPacket { entity_id, jump_boost }
    }
}

/// The fields of [`PlayerInputPacket`] as they are sent, in order.
pub type PlayerInputPacketFields = PlayerInputFlags;

/// The body of the PlayerInput packet (play state, to the server, id 0x2A).
#[derive(Debug, Clone, PartialEq)]
pub struct PlayerInputPacket {
    pub flags: PlayerInputFlags,
}

impl DeepView for PlayerInputPacket {
    type V = <PlayerInputPacketFields as DeepView>::V;

    open spec fn deep_view(&self) -> Self::V {
        self.flags.deep_view()
    }
}

impl McSerialize for PlayerInputPacket {
    open spec fn spec_serialize(v: Self::V) -> Seq<u8> {
        PlayerInputPacketFields::spec_serialize(v)
    }

    open spec fn spec_can_serialize(v: Self::V) -> bool {
        PlayerInputPacketFields::spec_can_serialize(v)
    }

    fn mc_serialize(&self, serializer: &mut McSerializer) -> (r: Result<(), SerializingErr>) {
        let _ = self.flags.mc_serialize(serializer);
        Ok(())
    }
}

impl McDeserialize for PlayerInputPacket {
    open spec fn spec_deserialize(s: Seq<u8>) -> ParseResult<Self::V> {
        PlayerInputPacketFields::spec_deserialize(s)
    }

    proof fn lemma_deserialize_len(s: Seq<u8>) {
        PlayerInputPacketFields::lemma_deserialize_len(s);
    }

    fn mc_deserialize(deserializer: &mut McDeserializer) -> (r: Result<PlayerInputPacket, SerializingErr>) {
        let flags = PlayerInputPacketFields::mc_deserialize(deserializer)?;
        Ok(PlayerInputPacket { flags })
    }
}

impl McRoundTrip for PlayerInputPacket {
    open spec fn spec_well_formed(v: Self::V) -> bool {
        PlayerInputPacketFields::spec_well_formed(v)
    }

    proof fn lemma_round_trip(v: Self::V, rest: Seq<u8>) {
        PlayerInputPacketFields::lemma_round_trip(v, rest);
    }
}
impl PlayerInputPacket {
    pub fn new(flags: PlayerInputFlags) -> (p: Self)
        ensures
            p == (PlayerInputPacket { flags }),
    {
        PlayerInputPacket { flags }
    }
}

/// The body of the PlayerLoaded packet (play state, to the server, id 0x2B).
#[derive(Debug, Clone, PartialEq)]
pub struct PlayerLoadedPacket {}

impl DeepView for PlayerLoadedPacket {
    type V = ();

    open spec fn deep_view(&self) -> () {
        ()
    }
}

impl PlayerLoadedPacket {
    pub fn new() -> (p: Self)
        ensures
            p == (PlayerLoadedPacket {}),
    {
        PlayerLoadedPacket {}
    }
}

impl McSerialize for PlayerLoadedPacket {
    /// An empty body.
    open spec fn spec_serialize(v: ()) -> Seq<u8> {
        Seq::<u8>::empty()
    }

    open spec fn spec_can_serialize(v: ()) -> bool {
        true
    }

    fn mc_serialize(&self, serializer: &mut McSerializer) -> (r: Result<(), SerializingErr>) {
        assert(serializer.output@ + Seq::<u8>::empty() == serializer.output@);
        Ok(())
    }
}

impl McDeserialize for PlayerLoadedPacket {
    open spec fn spec_deserialize(s: Seq<u8>) -> ParseResult<()> {
        Ok(((), 0nat))
    }

    proof fn lemma_deserialize_len(s: Seq<u8>) {
    }

    fn mc_deserialize(deserializer: &mut McDeserializer) -> (r: Result<PlayerLoadedPacket, SerializingErr>) {
        Ok(PlayerLoadedPacket {})
    }
}

impl McRoundTrip for PlayerLoadedPacket {
    open spec fn spec_well_formed(v: ()) -> bool {
        true
    }

    proof fn lemma_round_trip(v: (), rest: Seq<u8>) {
        assert(Seq::<u8>::empty() + rest == rest);
    }
}

/// The fields of [`PongPlayPacket`] as they are sent, in order.
pub type PongPlayPacketFields = i32;

/// The body of the PongPlay packet (play state, to the server, id 0x2C).
#[derive(Debug, Clone, PartialEq)]
pub struct PongPlayPacket {
    pub id: i32,
}

impl DeepView for PongPlayPacket {
    type V = <PongPlayPacketFields as DeepView>::V;

    open spec fn deep_view(&self) -> Self::V {
        self.id.deep_view()
    }
}

impl McSerialize for PongPlayPacket {
    open spec fn spec_serialize(v: Self::V) -> Seq<u8> {
        PongPlayPacketFields::spec_serialize(v)
    }

    open spec fn spec_can_serialize(v: Self::V) -> bool {
        PongPlayPacketFields::spec_can_serialize(v)
    }

    fn mc_serialize(&self, serializer: &mut McSerializer) -> (r: Result<(), SerializingErr>) {
        let _ = self.id.mc_serialize(serializer);
        Ok(())
    }
}

impl McDeserialize for PongPlayPacket {
    open spec fn spec_deserialize(s: Seq<u8>) -> ParseResult<Self::V> {
        PongPlayPacketFields::spec_deserialize(s)
    }

    proof fn lemma_deserialize_len(s: Seq<u8>) {
        PongPlayPacketFields::lemma_deserialize_len(s);
    }

    fn mc_deserialize(deserializer: &mut McDeserializer) -> (r: Result<PongPlayPacket, SerializingErr>) {
        let id = PongPlayPacketFields::mc_deserialize(deserializer)?;
        Ok(PongPlayPacket { id })
    }
}

impl McRoundTrip for PongPlayPacket {
    open spec fn spec_well_formed(v: Self::V) -> bool {
        PongPlayPacketFields::spec_well_formed(v)
    }

    proof fn lemma_round_trip(v: Self::V, rest: Seq<u8>) {
        PongPlayPacketFields::lemma_round_trip(v, rest);
    }
}
impl PongPlayPacket {
    pub fn new(id: i32) -> (p: Self)
        ensures
            p == (PongPlayPacket { id }),
    {
        PongPlayPacket { id }
    }
}

/// The fields of [`ChangeRecipeBookSettingsPacket`] as they are sent, in order.
pub type ChangeRecipeBookSettingsPacketFields = (VarInt, (bool, bool));

/// The body of the ChangeRecipeBookSettings packet (play state, to the server, id 0x2D).
#[derive(Debug, Clone, PartialEq)]
pub struct ChangeRecipeBookSettingsPacket {
    pub book_id: VarInt,
    pub is_open: bool,
    pub is_filter_active: bool,
}

impl DeepView for ChangeRecipeBookSettingsPacket {
    type V = <ChangeRecipeBookSettingsPacketFields as DeepView>::V;

    open spec fn deep_view(&self) -> Self::V {
        (self.book_id.deep_view(), (self.is_open.deep_view(), self.is_filter_active.deep_view()))
    }
}

impl McSerialize for ChangeRecipeBookSettingsPacket {
    open spec fn spec_serialize(v: Self::V) -> Seq<u8> {
        ChangeRecipeBookSettingsPacketFields::spec_serialize(v)
    }

    open spec fn spec_can_serialize(v: Self::V) -> bool {
        ChangeRecipeBookSettingsPacketFields::spec_can_serialize(v)
    }

    fn mc_serialize(&self, serializer: &mut McSerializer) -> (r: Result<(), SerializingErr>) {
        let _ = self.book_id.mc_serialize(serializer);
        let _ = self.is_open.mc_serialize(serializer);
        let _ = self.is_filter_active.mc_serialize(serializer);
        assert(serializer.output@ == old(serializer).output@ + Self::spec_serialize(self.deep_view()));
        Ok(())
    }
}

impl McDeserialize for ChangeRecipeBookSettingsPacket {
    open spec fn spec_deserialize(s: Seq<u8>) -> ParseResult<Self::V> {
        ChangeRecipeBookSettingsPacketFields::spec_deserialize(s)
    }

    proof fn lemma_deserialize_len(s: Seq<u8>) {
        ChangeRecipeBookSettingsPacketFields::lemma_deserialize_len(s);
    }

    fn mc_deserialize(deserializer: &mut McDeserializer) -> (r: Result<ChangeRecipeBookSettingsPacket, SerializingErr>) {
        let (book_id, (is_open, is_filter_active)) = ChangeRecipeBookSettingsPacketFields::mc_deserialize(deserializer)?;
        Ok(ChangeRecipeBookSettingsPacket { book_id, is_open, is_filter_active })
    }
}

impl McRoundTrip for ChangeRecipeBookSettingsPacket {
    open spec fn spec_well_formed(v: Self::V) -> bool {
        ChangeRecipeBookSettingsPacketFields::spec_well_formed(v)
    }

    proof fn lemma_round_trip(v: Self::V, rest: Seq<u8>) {
        ChangeRecipeBookSettingsPacketFields::lemma_round_trip(v, rest);
    }
}
impl ChangeRecipeBookSettingsPacket {
    pub fn new(book_id: VarInt, is_open: bool, is_filter_active: bool) -> (p: Self)
        ensures
            p == (ChangeRecipeBookSettingsPacket { book_id, is_open, is_filter_active }),
    {
        ChangeRecipeBookSettingsPacket { book_id, is_open, is_filter_active }
    }
}

/// The fields of [`SetSeenRecipePacket`] as they are sent, in order.
pub type SetSeenRecipePacketFields = VarInt;

/// The body of the SetSeenRecipe packet (play state, to the server, id 0x2E).
#[derive(Debug, Clone, PartialEq)]
pub struct SetSeenRecipePacket {
    pub recipe_id: VarInt,
}

impl DeepView for SetSeenRecipePacket {
    type V = <SetSeenRecipePacketFields as DeepView>::V;

    open spec fn deep_view(&self) -> Self::V {
        self.recipe_id.deep_view()
    }
}

impl McSerialize for SetSeenRecipePacket {
    open spec fn spec_serialize(v: Self::V) -> Seq<u8> {
        SetSeenRecipePacketFields::spec_serialize(v)
    }

    open spec fn spec_can_serialize(v: Self::V) -> bool {
        SetSeenRecipePacketFields::spec_can_serialize(v)
    }

    fn mc_serialize(&self, serializer: &mut McSerializer) -> (r: Result<(), SerializingErr>) {
        let _ = self.recipe_id.mc_serialize(serializer);
        Ok(())
    }
}

impl McDeserialize for SetSeenRecipePacket {
    open spec fn spec_deserialize(s: Seq<u8>) -> ParseResult<Self::V> {
        SetSeenRecipePacketFields::spec_deserialize(s)
    }

    proof fn lemma_deserialize_len(s: Seq<u8>) {
        SetSeenRecipePacketFields::lemma_deserialize_len(s);
    }

    fn mc_deserialize(deserializer: &mut McDeserializer) -> (r: Result<SetSeenRecipePacket, SerializingErr>) {
        let recipe_id = SetSeenRecipePacketFields::mc_deserialize(deserializer)?;
        Ok(SetSeenRecipePacket { recipe_id })
    }
}

impl McRoundTrip for SetSeenRecipePacket {
    open spec fn spec_well_formed(v: Self::V) -> bool {
        SetSeenRecipePacketFields::spec_well_formed(v)
    }

    proof fn lemma_round_trip(v: Self::V, rest: Seq<u8>) {
        SetSeenRecipePacketFields::lemma_round_trip(v, rest);
    }
}
impl SetSeenRecipePacket {
    pub fn new(recipe_id: VarInt) -> (p: Self)
        ensures
            p == (SetSeenRecipePacket { recipe_id }),
    {
        SetSeenRecipePacket { recipe_id }
    }
}

/// The fields of [`RenameItemPacket`] as they are sent, in order.
pub type RenameItemPacketFields = String;

/// The body of the RenameItem packet (play state, to the server, id 0x2F).
#[derive(Debug, Clone, PartialEq)]
pub struct RenameItemPacket {
    pub item_name: String,
}

impl DeepView for RenameItemPacket {
    type V = <RenameItemPacketFields as DeepView>::V;

    open spec fn deep_view(&self) -> Self::V {
        self.item_name.deep_view()
    }
}

impl McSerialize for RenameItemPacket {
    open spec fn spec_serialize(v: Self::V) -> Seq<u8> {
        RenameItemPacketFields::spec_serialize(v)
    }

    open spec fn spec_can_serialize(v: Self::V) -> bool {
        RenameItemPacketFields::spec_can_serialize(v)
    }

    fn mc_serialize(&self, serializer: &mut McSerializer) -> (r: Result<(), SerializingErr>) {
        let _ = self.item_name.mc_serialize(serializer);
        Ok(())
    }
}

impl McDeserialize for RenameItemPacket {
    open spec fn spec_deserialize(s: Seq<u8>) -> ParseResult<Self::V> {
        RenameItemPacketFields::spec_deserialize(s)
    }

    proof fn lemma_deserialize_len(s: Seq<u8>) {
        RenameItemPacketFields::lemma_deserialize_len(s);
    }

    fn mc_deserialize(deserializer: &mut McDeserializer) -> (r: Result<RenameItemPacket, SerializingErr>) {
        let item_name = RenameItemPacketFields::mc_deserialize(deserializer)?;
        Ok(RenameItemPacket { item_name })
    }
}

impl McRoundTrip for RenameItemPacket {
    open spec fn spec_well_formed(v: Self::V) -> bool {
        RenameItemPacketFields::spec_well_formed(v)
    }

    proof fn lemma_round_trip(v: Self::V, rest: Seq<u8>) {
        RenameItemPacketFields::lemma_round_trip(v, rest);
    }
}
impl RenameItemPacket {
    pub fn new(item_name: String) -> (p: Self)
        ensures
            p == (RenameItemPacket { item_name }),
    {
        RenameItemPacket { item_name }
    }
}

/// The fields of [`SelectTradePacket`] as they are sent, in order.
pub type SelectTradePacketFields = VarInt;

/// The body of the SelectTrade packet (play state, to the server, id 0x32).
#[derive(Debug, Clone, PartialEq)]
pub struct SelectTradePacket {
    pub selected_slot: VarInt,
}

impl DeepView for SelectTradePacket {
    type V = <SelectTradePacketFields as DeepView>::V;

    open spec fn deep_view(&self) -> Self::V {
        self.selected_slot.deep_view()
    }
}

impl McSerialize for SelectTradePacket {
    open spec fn spec_serialize(v: Self::V) -> Seq<u8> {
        SelectTradePacketFields::spec_serialize(v)
    }

    open spec fn spec_can_serialize(v: Self::V) -> bool {
        SelectTradePacketFields::spec_can_serialize(v)
    }

    fn mc_serialize(&self, serializer: &mut McSerializer) -> (r: Result<(), SerializingErr>) {
        let _ = self.selected_slot.mc_serialize(serializer);
        Ok(())
    }
}

impl McDeserialize for SelectTradePacket {
    open spec fn spec_deserialize(s: Seq<u8>) -> ParseResult<Self::V> {
        SelectTradePacketFields::spec_deserialize(s)
    }

    proof fn lemma_deserialize_len(s: Seq<u8>) {
        SelectTradePacketFields::lemma_deserialize_len(s);
    }

    fn mc_deserialize(deserializer: &mut McDeserializer) -> (r: Result<SelectTradePacket, SerializingErr>) {
        let selected_slot = SelectTradePacketFields::mc_deserialize(deserializer)?;
        Ok(SelectTradePacket { selected_slot })
    }
}

impl McRoundTrip for SelectTradePacket {
    open spec fn spec_well_formed(v: Self::V) -> bool {
        SelectTradePacketFields::spec_well_formed(v)
    }

    proof fn lemma_round_trip(v: Self::V, rest: Seq<u8>) {
        SelectTradePacketFields::lemma_round_trip(v, rest);
    }
}
impl SelectTradePacket {
    pub fn new(selected_slot: VarInt) -> (p: Self)
        ensures
            p == (SelectTradePacket { selected_slot }),
    {
        SelectTradePacket { selected_slot }
    }
}

/// The fields of [`SetBeaconEffectPacket`] as they are sent, in order.
pub type SetBeaconEffectPacketFields = (PrefixedOptional<VarInt>, PrefixedOptional<VarInt>);

/// The body of the SetBeaconEffect packet (play state, to the server, id 0x33).
#[derive(Debug, Clone, PartialEq)]
pub struct SetBeaconEffectPacket {
    pub primary_effect: PrefixedOptional<VarInt>,
    pub secondary_effect: PrefixedOptional<VarInt>,
}

impl DeepView for SetBeaconEffectPacket {
    type V = <SetBeaconEffectPacketFields as DeepView>::V;

    open spec fn deep_view(&self) -> Self::V {
        (self.primary_effect.deep_view(), self.secondary_effect.deep_view())
    }
}

impl McSerialize for SetBeaconEffectPacket {
    open spec fn spec_serialize(v: Self::V) -> Seq<u8> {
        SetBeaconEffectPacketFields::spec_serialize(v)
    }

    open spec fn spec_can_serialize(v: Self::V) -> bool {
        SetBeaconEffectPacketFields::spec_can_serialize(v)
    }

    fn mc_serialize(&self, serializer: &mut McSerializer) -> (r: Result<(), SerializingErr>) {
        let _ = self.primary_effect.mc_serialize(serializer);
        let _ = self.secondary_effect.mc_serialize(serializer);
        assert(serializer.output@ == old(serializer).output@ + Self::spec_serialize(self.deep_view()));
        Ok(())
    }
}

impl McDeserialize for SetBeaconEffectPacket {
    open spec fn spec_deserialize(s: Seq<u8>) -> ParseResult<Self::V> {
        SetBeaconEffectPacketFields::spec_deserialize(s)
    }

    proof fn lemma_deserialize_len(s: Seq<u8>) {
        SetBeaconEffectPacketFields::lemma_deserialize_len(s);
    }

    fn mc_deserialize(deserializer: &mut McDeserializer) -> (r: Result<SetBeaconEffectPacket, SerializingErr>) {
        let (primary_effect, secondary_effect) = SetBeaconEffectPacketFields::mc_deserialize(deserializer)?;
        Ok(SetBeaconEffectPacket { primary_effect, secondary_effect })
    }
}

impl McRoundTrip for SetBeaconEffectPacket {
    open spec fn spec_well_formed(v: Self::V) -> bool {
        SetBeaconEffectPacketFields::spec_well_formed(v)
    }

    proof fn lemma_round_trip(v: Self::V, rest: Seq<u8>) {
        SetBeaconEffectPacketFields::lemma_round_trip(v, rest);
    }
}
impl SetBeaconEffectPacket {
    pub fn new(primary_effect: PrefixedOptional<VarInt>, secondary_effect: PrefixedOptional<VarInt>) -> (p: Self)
        ensures
            p == (SetBeaconEffectPacket { primary_effect, secondary_effect }),
    {
        SetBeaconEffectPacket { primary_effect, secondary_effect }
    }
}

/// The fields of [`SetHeldItemServerPacket`] as they are sent, in order.
pub type SetHeldItemServerPacketFields = i16;

/// The body of the SetHeldItemServer packet (play state, to the server, id 0x34).
#[derive(Debug, Clone, PartialEq)]
pub struct SetHeldItemServerPacket {
    pub slot: i16,
}

impl DeepView for SetHeldItemServerPacket {
    type V = <SetHeldItemServerPacketFields as DeepView>::V;

    open spec fn deep_view(&self) -> Self::V {
        self.slot.deep_view()
    }
}

impl McSerialize for SetHeldItemServerPacket {
    open spec fn spec_serialize(v: Self::V) -> Seq<u8> {
        SetHeldItemServerPacketFields::spec_serialize(v)
    }

    open spec fn spec_can_serialize(v: Self::V) -> bool {
        SetHeldItemServerPacketFields::spec_can_serialize(v)
    }

    fn mc_serialize(&self, serializer: &mut McSerializer) -> (r: Result<(), SerializingErr>) {
        let _ = self.slot.mc_serialize(serializer);
        Ok(())
    }
}

impl McDeserialize for SetHeldItemServerPacket {
    open spec fn spec_deserialize(s: Seq<u8>) -> ParseResult<Self::V> {
        SetHeldItemServerPacketFields::spec_deserialize(s)
    }

    proof fn lemma_deserialize_len(s: Seq<u8>) {
        SetHeldItemServerPacketFields::lemma_deserialize_len(s);
    }

    fn mc_deserialize(deserializer: &mut McDeserializer) -> (r: Result<SetHeldItemServerPacket, SerializingErr>) {
        let slot = SetHeldItemServerPacketFields::mc_deserialize(deserializer)?;
        Ok(SetHeldItemServerPacket { slot })
    }
}

impl McRoundTrip for SetHeldItemServerPacket {
    open spec fn spec_well_formed(v: Self::V) -> bool {
        SetHeldItemServerPacketFields::spec_well_formed(v)
    }

    proof fn lemma_round_trip(v: Self::V, rest: Seq<u8>) {
        SetHeldItemServerPacketFields::lemma_round_trip(v, rest);
    }
}
impl SetHeldItemServerPacket {
    pub fn new(slot: i16) -> (p: Self)
        ensures
            p == (SetHeldItemServerPacket { slot }),
    {
        SetHeldItemServerPacket { slot }
    }
}

/// The fields of [`ProgramCommandBlockMinecartPacket`] as they are sent, in order.
pub type ProgramCommandBlockMinecartPacketFields = (VarInt, (String, bool));

/// The body of the ProgramCommandBlockMinecart packet (play state, to the server, id 0x36).
#[derive(Debug, Clone, PartialEq)]
pub struct ProgramCommandBlockMinecartPacket {
    pub entity_id: VarInt,
    pub command: String,
    pub track_output: bool,
}

impl DeepView for ProgramCommandBlockMinecartPacket {
    type V = <ProgramCommandBlockMinecartPacketFields as DeepView>::V;

    open spec fn deep_view(&self) -> Self::V {
        (self.entity_id.deep_view(), (self.command.deep_view(), self.track_output.deep_view()))
    }
}

impl McSerialize for ProgramCommandBlockMinecartPacket {
    open spec fn spec_serialize(v: Self::V) -> Seq<u8> {
        ProgramCommandBlockMinecartPacketFields::spec_serialize(v)
    }

    open spec fn spec_can_serialize(v: Self::V) -> bool {
        ProgramCommandBlockMinecartPacketFields::spec_can_serialize(v)
    }

    fn mc_serialize(&self, serializer: &mut McSerializer) -> (r: Result<(), SerializingErr>) {
        let _ = self.entity_id.mc_serialize(serializer);
        let _ = self.command.mc_serialize(serializer);
        let _ = self.track_output.mc_serialize(serializer);
        assert(serializer.output@ == old(serializer).output@ + Self::spec_serialize(self.deep_view()));
        Ok(())
    }
}

impl McDeserialize for ProgramCommandBlockMinecartPacket {
    open spec fn spec_deserialize(s: Seq<u8>) -> ParseResult<Self::V> {
        ProgramCommandBlockMinecartPacketFields::spec_deserialize(s)
    }

    proof fn lemma_deserialize_len(s: Seq<u8>) {
        ProgramCommandBlockMinecartPacketFields::lemma_deserialize_len(s);
    }

    fn mc_deserialize(deserializer: &mut McDeserializer) -> (r: Result<ProgramCommandBlockMinecartPacket, SerializingErr>) {
        let (entity_id, (command, track_output)) = ProgramCommandBlockMinecartPacketFields::mc_deserialize(deserializer)?;
        Ok(ProgramCommandBlockMinecartPacket { entity_id, command, track_output })
    }
}

impl McRoundTrip for ProgramCommandBlockMinecartPacket {
    open spec fn spec_well_formed(v: Self::V) -> bool {
        ProgramCommandBlockMinecartPacketFields::spec_well_formed(v)
    }

    proof fn lemma_round_trip(v: Self::V, rest: Seq<u8>) {
        ProgramCommandBlockMinecartPacketFields::lemma_round_trip(v, rest);
    }
}
impl ProgramCommandBlockMinecartPacket {
    pub fn new(entity_id: VarInt, command: String, track_output: bool) -> (p: Self)
        ensures
            p == (ProgramCommandBlockMinecartPacket { entity_id, command, track_output }),
    {
        ProgramCommandBlockMinecartPacket { entity_id, command, track_output }
    }
}

/// The fields of [`ProgramJigsawBlockPacket`] as they are sent, in order.
pub type ProgramJigsawBlockPacketFields = (Position, (String, (String, (String, (String, (String, (VarInt, VarInt)))))));

/// The body of the ProgramJigsawBlock packet (play state, to the server, id 0x38).
#[derive(Debug, Clone, PartialEq)]
pub struct ProgramJigsawBlockPacket {
    pub location: Position,
    pub name: String,
    pub target: String,
    pub pool: String,
    pub final_state: String,
    pub joint_type: String,
    pub selection_priority: VarInt,
    pub placement_priority: VarInt,
}

impl DeepView for ProgramJigsawBlockPacket {
    type V = <ProgramJigsawBlockPacketFields as DeepView>::V;

    open spec fn deep_view(&self) -> Self::V {
        (self.location.deep_view(), (self.name.deep_view(), (self.target.deep_view(), (self.pool.deep_view(), (self.final_state.deep_view(), (self.joint_type.deep_view(), (self.selection_priority.deep_view(), self.placement_priority.deep_view())))))))
    }
}

impl McSerialize for ProgramJigsawBlockPacket {
    open spec fn spec_serialize(v: Self::V) -> Seq<u8> {
        ProgramJigsawBlockPacketFields::spec_serialize(v)
    }

    open spec fn spec_can_serialize(v: Self::V) -> bool {
        ProgramJigsawBlockPacketFields::spec_can_serialize(v)
    }

    #[verifier::spinoff_prover]
    #[verifier::rlimit(100)]
    fn mc_serialize(&self, serializer: &mut McSerializer) -> (r: Result<(), SerializingErr>) {
        let ghost l0 = serializer.output@;
        let _ = self.location.mc_serialize(serializer);
        let ghost l1 = serializer.output@;
        let _ = self.name.mc_serialize(serializer);
        let ghost l2 = serializer.output@;
        let _ = self.target.mc_serialize(serializer);
        let ghost l3 = serializer.output@;
        let _ = self.pool.mc_serialize(serializer);
        let ghost l4 = serializer.output@;
        let _ = self.final_state.mc_serialize(serializer);
        let ghost l5 = serializer.output@;
        let _ = self.joint_type.mc_serialize(serializer);
        let ghost l6 = serializer.output@;
        let _ = self.selection_priority.mc_serialize(serializer);
        let ghost l7 = serializer.output@;
        let _ = self.placement_priority.mc_serialize(serializer);
        let ghost l8 = serializer.output@;
        proof {
            vstd::seq_lib::lemma_concat_associative(l6, <VarInt as McSerialize>::spec_serialize(self.selection_priority.deep_view()), <VarInt as McSerialize>::spec_serialize(self.placement_priority.deep_view()));
            assert(l8 == l6 + (<VarInt as McSerialize>::spec_serialize(self.selection_priority.deep_view()) + (<VarInt as McSerialize>::spec_serialize(self.placement_priority.deep_view()))));
            vstd::seq_lib::lemma_concat_associative(l5, <String as McSerialize>::spec_serialize(self.joint_type.deep_view()), <VarInt as McSerialize>::spec_serialize(self.selection_priority.deep_view()) + (<VarInt as McSerialize>::spec_serialize(self.placement_priority.deep_view())));
            assert(l8 == l5 + (<String as McSerialize>::spec_serialize(self.joint_type.deep_view()) + (<VarInt as McSerialize>::spec_serialize(self.selection_priority.deep_view()) + (<VarInt as McSerialize>::spec_serialize(self.placement_priority.deep_view())))));
            vstd::seq_lib::lemma_concat_associative(l4, <String as McSerialize>::spec_serialize(self.final_state.deep_view()), <String as McSerialize>::spec_serialize(self.joint_type.deep_view()) + (<VarInt as McSerialize>::spec_serialize(self.selection_priority.deep_view()) + (<VarInt as McSerialize>::spec_serialize(self.placement_priority.deep_view()))));
            assert(l8 == l4 + (<String as McSerialize>::spec_serialize(self.final_state.deep_view()) + (<String as McSerialize>::spec_serialize(self.joint_type.deep_view()) + (<VarInt as McSerialize>::spec_serialize(self.selection_priority.deep_view()) + (<VarInt as McSerialize>::spec_serialize(self.placement_priority.deep_view()))))));
            vstd::seq_lib::lemma_concat_associative(l3, <String as McSerialize>::spec_serialize(self.pool.deep_view()), <String as McSerialize>::spec_serialize(self.final_state.deep_view()) + (<String as McSerialize>::spec_serialize(self.joint_type.deep_view()) + (<VarInt as McSerialize>::spec_serialize(self.selection_priority.deep_view()) + (<VarInt as McSerialize>::spec_serialize(self.placement_priority.deep_view())))));
            assert(l8 == l3 + (<String as McSerialize>::spec_serialize(self.pool.deep_view()) + (<String as McSerialize>::spec_serialize(self.final_state.deep_view()) + (<String as McSerialize>::spec_serialize(self.joint_type.deep_view()) + (<VarInt as McSerialize>::spec_serialize(self.selection_priority.deep_view()) + (<VarInt as McSerialize>::spec_serialize(self.placement_priority.deep_view())))))));
            vstd::seq_lib::lemma_concat_associative(l2, <String as McSerialize>::spec_serialize(self.target.deep_view()), <String as McSerialize>::spec_serialize(self.pool.deep_view()) + (<String as McSerialize>::spec_serialize(self.final_state.deep_view()) + (<String as McSerialize>::spec_serialize(self.joint_type.deep_view()) + (<VarInt as McSerialize>::spec_serialize(self.selection_priority.deep_view()) + (<VarInt as McSerialize>::spec_serialize(self.placement_priority.deep_view()))))));
            assert(l8 == l2 + (<String as McSerialize>::spec_serialize(self.target.deep_view()) + (<String as McSerialize>::spec_serialize(self.pool.deep_view()) + (<String as McSerialize>::spec_serialize(self.final_state.deep_view()) + (<String as McSerialize>::spec_serialize(self.joint_type.deep_view()) + (<VarInt as McSerialize>::spec_serialize(self.selection_priority.deep_view()) + (<VarInt as McSerialize>::spec_serialize(self.placement_priority.deep_view()))))))));
            vstd::seq_lib::lemma_concat_associative(l1, <String as McSerialize>::spec_serialize(self.name.deep_view()), <String as McSerialize>::spec_serialize(self.target.deep_view()) + (<String as McSerialize>::spec_serialize(self.pool.deep_view()) + (<String as McSerialize>::spec_serialize(self.final_state.deep_view()) + (<String as McSerialize>::spec_serialize(self.joint_type.deep_view()) + (<VarInt as McSerialize>::spec_serialize(self.selection_priority.deep_view()) + (<VarInt as McSerialize>::spec_serialize(self.placement_priority.deep_view())))))));
            assert(l8 == l1 + (<String as McSerialize>::spec_serialize(self.name.deep_view()) + (<String as McSerialize>::spec_serialize(self.target.deep_view()) + (<String as McSerialize>::spec_serialize(self.pool.deep_view()) + (<String as McSerialize>::spec_serialize(self.final_state.deep_view()) + (<String as McSerialize>::spec_serialize(self.joint_type.deep_view()) + (<VarInt as McSerialize>::spec_serialize(self.selection_priority.deep_view()) + (<VarInt as McSerialize>::spec_serialize(self.placement_priority.deep_view())))))))));
            vstd::seq_lib::lemma_concat_associative(l0, <Position as McSerialize>::spec_serialize(self.location.deep_view()), <String as McSerialize>::spec_serialize(self.name.deep_view()) + (<String as McSerialize>::spec_serialize(self.target.deep_view()) + (<String as McSerialize>::spec_serialize(self.pool.deep_view()) + (<String as McSerialize>::spec_serialize(self.final_state.deep_view()) + (<String as McSerialize>::spec_serialize(self.joint_type.deep_view()) + (<VarInt as McSerialize>::spec_serialize(self.selection_priority.deep_view()) + (<VarInt as McSerialize>::spec_serialize(self.placement_priority.deep_view()))))))));
            assert(l8 == l0 + (<Position as McSerialize>::spec_serialize(self.location.deep_view()) + (<String as McSerialize>::spec_serialize(self.name.deep_view()) + (<String as McSerialize>::spec_serialize(self.target.deep_view()) + (<String as McSerialize>::spec_serialize(self.pool.deep_view()) + (<String as McSerialize>::spec_serialize(self.final_state.deep_view()) + (<String as McSerialize>::spec_serialize(self.joint_type.deep_view()) + (<VarInt as McSerialize>::spec_serialize(self.selection_priority.deep_view()) + (<VarInt as McSerialize>::spec_serialize(self.placement_priority.deep_view()))))))))));
        }
        Ok(())
    }
}

impl McDeserialize for ProgramJigsawBlockPacket {
    open spec fn spec_deserialize(s: Seq<u8>) -> ParseResult<Self::V> {
        ProgramJigsawBlockPacketFields::spec_deserialize(s)
    }

    proof fn lemma_deserialize_len(s: Seq<u8>) {
        ProgramJigsawBlockPacketFields::lemma_deserialize_len(s);
    }

    fn mc_deserialize(deserializer: &mut McDeserializer) -> (r: Result<ProgramJigsawBlockPacket, SerializingErr>) {
        let (location, (name, (target, (pool, (final_state, (joint_type, (selection_priority, placement_priority))))))) = ProgramJigsawBlockPacketFields::mc_deserialize(deserializer)?;
        Ok(ProgramJigsawBlockPacket { location, name, target, pool, final_state, joint_type, selection_priority, placement_priority })
    }
}

impl McRoundTrip for ProgramJigsawBlockPacket {
    open spec fn spec_well_formed(v: Self::V) -> bool {
        ProgramJigsawBlockPacketFields::spec_well_formed(v)
    }

    proof fn lemma_round_trip(v: Self::V, rest: Seq<u8>) {
        ProgramJigsawBlockPacketFields::lemma_round_trip(v, rest);
    }
}
impl ProgramJigsawBlockPacket {
    pub fn new(location: Position, name: String, target: String, pool: String, final_state: String, joint_type: String, selection_priority: VarInt, placement_priority: VarInt) -> (p: Self)
        ensures
            p == (ProgramJigsawBlockPacket { location, name, target, pool, final_state, joint_type, selection_priority, placement_priority }),
    {
        ProgramJigsawBlockPacket { location, name, target, pool, final_state, joint_type, selection_priority, placement_priority }
    }
}

/// The fields of [`SetTestBlockPacket`] as they are sent, in order.
pub type SetTestBlockPacketFields = (Position, (TestBlockMode, String));

/// The body of the SetTestBlock packet (play state, to the server, id 0x3A).
#[derive(Debug, Clone, PartialEq)]
pub struct SetTestBlockPacket {
    pub position: Position,
    pub mode: TestBlockMode,
    pub message: String,
}

impl DeepView for SetTestBlockPacket {
    type V = <SetTestBlockPacketFields as DeepView>::V;

    open spec fn deep_view(&self) -> Self::V {
        (self.position.deep_view(), (self.mode.deep_view(), self.message.deep_view()))
    }
}

impl McSerialize for SetTestBlockPacket {
    open spec fn spec_serialize(v: Self::V) -> Seq<u8> {
        SetTestBlockPacketFields::spec_serialize(v)
    }

    open spec fn spec_can_serialize(v: Self::V) -> bool {
        SetTestBlockPacketFields::spec_can_serialize(v)
    }

    fn mc_serialize(&self, serializer: &mut McSerializer) -> (r: Result<(), SerializingErr>) {
        let _ = self.position.mc_serialize(serializer);
        let _ = self.mode.mc_serialize(serializer);
        let _ = self.message.mc_serialize(serializer);
        assert(serializer.output@ == old(serializer).output@ + Self::spec_serialize(self.deep_view()));
        Ok(())
    }
}

impl McDeserialize for SetTestBlockPacket {
    open spec fn spec_deserialize(s: Seq<u8>) -> ParseResult<Self::V> {
        SetTestBlockPacketFields::spec_deserialize(s)
    }

    proof fn lemma_deserialize_len(s: Seq<u8>) {
        SetTestBlockPacketFields::lemma_deserialize_len(s);
    }

    fn mc_deserialize(deserializer: &mut McDeserializer) -> (r: Result<SetTestBlockPacket, SerializingErr>) {
        let (position, (mode, message)) = SetTestBlockPacketFields::mc_deserialize(deserializer)?;
        Ok(SetTestBlockPacket { position, mode, message })
    }
}

impl McRoundTrip for SetTestBlockPacket {
    open spec fn spec_well_formed(v: Self::V) -> bool {
        SetTestBlockPacketFields::spec_well_formed(v)
    }

    proof fn lemma_round_trip(v: Self::V, rest: Seq<u8>) {
        SetTestBlockPacketFields::lemma_round_trip(v, rest);
    }
}
impl SetTestBlockPacket {
    pub fn new(position: Position, mode: TestBlockMode, message: String) -> (p: Self)
        ensures
            p == (SetTestBlockPacket { position, mode, message }),
    {
        SetTestBlockPacket { position, mode, message }
    }
}

/// The fields of [`UpdateSignPacket`] as they are sent, in order.
pub type UpdateSignPacketFields = (Position, (bool, (String, (String, (String, String)))));

/// The body of the UpdateSign packet (play state, to the server, id 0x3B).
#[derive(Debug, Clone, PartialEq)]
pub struct UpdateSignPacket {
    pub location: Position,
    pub is_front_text: bool,
    pub line_1: String,
    pub line_2: String,
    pub line_3: String,
    pub line_4: String,
}

impl DeepView for UpdateSignPacket {
    type V = <UpdateSignPacketFields as DeepView>::V;

    open spec fn deep_view(&self) -> Self::V {
        (self.location.deep_view(), (self.is_front_text.deep_view(), (self.line_1.deep_view(), (self.line_2.deep_view(), (self.line_3.deep_view(), self.line_4.deep_view())))))
    }
}

impl McSerialize for UpdateSignPacket {
    open spec fn spec_serialize(v: Self::V) -> Seq<u8> {
        UpdateSignPacketFields::spec_serialize(v)
    }

    open spec fn spec_can_serialize(v: Self::V) -> bool {
        UpdateSignPacketFields::spec_can_serialize(v)
    }

    #[verifier::spinoff_prover]
    #[verifier::rlimit(80)]
    fn mc_serialize(&self, serializer: &mut McSerializer) -> (r: Result<(), SerializingErr>) {
        let _ = self.location.mc_serialize(serializer);
        let _ = self.is_front_text.mc_serialize(serializer);
        let _ = self.line_1.mc_serialize(serializer);
        let _ = self.line_2.mc_serialize(serializer);
        let _ = self.line_3.mc_serialize(serializer);
        let _ = self.line_4.mc_serialize(serializer);
        assert(serializer.output@ == old(serializer).output@ + Self::spec_serialize(self.deep_view()));
        Ok(())
    }
}

impl McDeserialize for UpdateSignPacket {
    open spec fn spec_deserialize(s: Seq<u8>) -> ParseResult<Self::V> {
        UpdateSignPacketFields::spec_deserialize(s)
    }

    proof fn lemma_deserialize_len(s: Seq<u8>) {
        UpdateSignPacketFields::lemma_deserialize_len(s);
    }

    fn mc_deserialize(deserializer: &mut McDeserializer) -> (r: Result<UpdateSignPacket, SerializingErr>) {
        let (location, (is_front_text, (line_1, (line_2, (line_3, line_4))))) = UpdateSignPacketFields::mc_deserialize(deserializer)?;
        Ok(UpdateSignPacket { location, is_front_text, line_1, line_2, line_3, line_4 })
    }
}

impl McRoundTrip for UpdateSignPacket {
    open spec fn spec_well_formed(v: Self::V) -> bool {
        UpdateSignPacketFields::spec_well_formed(v)
    }

    proof fn lemma_round_trip(v: Self::V, rest: Seq<u8>) {
        UpdateSignPacketFields::lemma_round_trip(v, rest);
    }
}
impl UpdateSignPacket {
    pub fn new(location: Position, is_front_text: bool, line_1: String, line_2: String, line_3: String, line_4: String) -> (p: Self)
        ensures
            p == (UpdateSignPacket { location, is_front_text, line_1, line_2, line_3, line_4 }),
    {
        UpdateSignPacket { location, is_front_text, line_1, line_2, line_3, line_4 }
    }
}

/// The fields of [`SwingArmPacket`] as they are sent, in order.
pub type SwingArmPacketFields = VarInt;

/// The body of the SwingArm packet (play state, to the server, id 0x3C).
#[derive(Debug, Clone, PartialEq)]
pub struct SwingArmPacket {
    pub hand: VarInt,
}

impl DeepView for SwingArmPacket {
    type V = <SwingArmPacketFields as DeepView>::V;

    open spec fn deep_view(&self) -> Self::V {
        self.hand.deep_view()
    }
}

impl McSerialize for SwingArmPacket {
    open spec fn spec_serialize(v: Self::V) -> Seq<u8> {
        SwingArmPacketFields::spec_serialize(v)
    }

    open spec fn spec_can_serialize(v: Self::V) -> bool {
        SwingArmPacketFields::spec_can_serialize(v)
    }

    fn mc_serialize(&self, serializer: &mut McSerializer) -> (r: Result<(), SerializingErr>) {
        let _ = self.hand.mc_serialize(serializer);
        Ok(())
    }
}

impl McDeserialize for SwingArmPacket {
    open spec fn spec_deserialize(s: Seq<u8>) -> ParseResult<Self::V> {
        SwingArmPacketFields::spec_deserialize(s)
    }

    proof fn lemma_deserialize_len(s: Seq<u8>) {
        SwingArmPacketFields::lemma_deserialize_len(s);
    }

    fn mc_deserialize(deserializer: &mut McDeserializer) -> (r: Result<SwingArmPacket, SerializingErr>) {
        let hand = SwingArmPacketFields::mc_deserialize(deserializer)?;
        Ok(SwingArmPacket { hand })
    }
}

impl McRoundTrip for SwingArmPacket {
    open spec fn spec_well_formed(v: Self::V) -> bool {
        SwingArmPacketFields::spec_well_formed(v)
    }

    proof fn lemma_round_trip(v: Self::V, rest: Seq<u8>) {
        SwingArmPacketFields::lemma_round_trip(v, rest);
    }
}
impl SwingArmPacket {
    pub fn new(hand: VarInt) -> (p: Self)
        ensures
            p == (SwingArmPacket { hand }),
    {
        SwingArmPacket { hand }
    }
}

/// The fields of [`CustomClickActionPacket`] as they are sent, in order.
pub type CustomClickActionPacketFields = (String, NbtCompound);

/// The body of the CustomClickAction packet (play state, to the server, id 0x41).
#[derive(Debug, PartialEq)]
pub struct CustomClickActionPacket {
    pub id: String,
    pub payload: NbtCompound,
}

impl DeepView for CustomClickActionPacket {
    type V = <CustomClickActionPacketFields as DeepView>::V;

    open spec fn deep_view(&self) -> Self::V {
        (self.id.deep_view(), self.payload.deep_view())
    }
}

impl McSerialize for CustomClickActionPacket {
    open spec fn spec_serialize(v: Self::V) -> Seq<u8> {
        CustomClickActionPacketFields::spec_serialize(v)
    }

    open spec fn spec_can_serialize(v: Self::V) -> bool {
        CustomClickActionPacketFields::spec_can_serialize(v)
    }

    fn mc_serialize(&self, serializer: &mut McSerializer) -> (r: Result<(), SerializingErr>) {
        let _ = self.id.mc_serialize(serializer);
        let _ = self.payload.mc_serialize(serializer);
        assert(serializer.output@ == old(serializer).output@ + Self::spec_serialize(self.deep_view()));
        Ok(())
    }
}

impl McDeserialize for CustomClickActionPacket {
    open spec fn spec_deserialize(s: Seq<u8>) -> ParseResult<Self::V> {
        CustomClickActionPacketFields::spec_deserialize(s)
    }

    proof fn lemma_deserialize_len(s: Seq<u8>) {
        CustomClickActionPacketFields::lemma_deserialize_len(s);
    }

    fn mc_deserialize(deserializer: &mut McDeserializer) -> (r: Result<CustomClickActionPacket, SerializingErr>) {
        let (id, payload) = CustomClickActionPacketFields::mc_deserialize(deserializer)?;
        Ok(CustomClickActionPacket { id, payload })
    }
}

impl McRoundTrip for CustomClickActionPacket {
    open spec fn spec_well_formed(v: Self::V) -> bool {
        CustomClickActionPacketFields::spec_well_formed(v)
    }

    proof fn lemma_round_trip(v: Self::V, rest: Seq<u8>) {
        CustomClickActionPacketFields::lemma_round_trip(v, rest);
    }
}
impl CustomClickActionPacket {
    pub fn new(id: String, payload: NbtCompound) -> (p: Self)
        ensures
            p == (CustomClickActionPacket { id, payload }),
    {
        CustomClickActionPacket { id, payload }
    }
}

/// A packet of the protocol, by its body.
#[derive(Debug, PartialEq)]
pub enum Packet {
    Handshaking(HandshakingPacket),
    PingResponse(PingResponsePacket),
    StatusRequest(StatusRequestPacket),
    PingRequest(PingRequestPacket),
    SetCompression(SetCompressionPacket),
    LoginPluginRequest(LoginPluginRequestPacket),
    LoginCookieRequest(LoginCookieRequestPacket),
    LoginPluginResponse(LoginPluginResponsePacket),
    LoginAcknowledged(LoginAcknowledgedPacket),
    LoginCookieResponse(LoginCookieResponsePacket),
    ConfigCookieRequest(ConfigCookieRequestPacket),
    ClientboundPluginMessage(ClientboundPluginMessagePacket),
    FinishConfiguration(FinishConfigurationPacket),
    KeepAlive(KeepAlivePacket),
    ConfigurationPing(ConfigurationPingPacket),
    ResetChat(ResetChatPacket),
    RegistryData(RegistryDataPacket),
    ConfigStoreCookie(ConfigStoreCookiePacket),
    ConfigTransfer(ConfigTransferPacket),
    ClientboundKnownPacks(ClientboundKnownPacksPacket),
    ConfigCustomReportDetails(ConfigCustomReportDetailsPacket),
    ClientInformation(ClientInformationPacket),
    CookieResponse(CookieResponsePacket),
    ServerboundPluginMessage(ServerboundPluginMessagePacket),
    AcknowledgeFinishConfiguration(AcknowledgeFinishConfigurationPacket),
    ServerboundKeepAliveConfig(ServerboundKeepAliveConfigPacket),
    ConfigPong(ConfigPongPacket),
    ServerboundKnownPacks(ServerboundKnownPacksPacket),
    ConfigCustomClickAction(ConfigCustomClickActionPacket),
    BundleDelimiter(BundleDelimiterPacket),
    EntityAnimation(EntityAnimationPacket),
    AwardStatistics(AwardStatisticsPacket),
    AcknowledgeBlockChange(AcknowledgeBlockChangePacket),
    SetBlockDestroyStage(SetBlockDestroyStagePacket),
    BlockAction(BlockActionPacket),
    BlockUpdate(BlockUpdatePacket),
    ChunkBatchFinished(ChunkBatchFinishedPacket),
    ChunkBatchStart(ChunkBatchStartPacket),
    ChunkBiomes(ChunkBiomesPacket),
    ClearTitles(ClearTitlesPacket),
    CloseContainer(CloseContainerPacket),
    SetContainerProperty(SetContainerPropertyPacket),
    CookieRequestPlay(CookieRequestPlayPacket),
    SetCooldown(SetCooldownPacket),
    ChatSuggestions(ChatSuggestionsPacket),
    ClientboundPluginMessagePlay(ClientboundPluginMessagePlayPacket),
    DebugSample(DebugSamplePacket),
    EntityEvent(EntityEventPacket),
    TeleportEntity(TeleportEntityPacket),
    UnloadChunk(UnloadChunkPacket),
    GameEvent(GameEventPacket),
    GameTestHighlightPosition(GameTestHighlightPositionPacket),
    OpenHorseScreen(OpenHorseScreenPacket),
    HurtAnimation(HurtAnimationPacket),
    ClientboundKeepAlive(ClientboundKeepAlivePacket),
    ChunkDataUpdateLight(ChunkDataUpdateLightPacket),
    UpdateLight(UpdateLightPacket),
    UpdateEntityPosition(UpdateEntityPositionPacket),
    MoveVehicle(MoveVehiclePacket),
    OpenBook(OpenBookPacket),
    OpenSignEditor(OpenSignEditorPacket),
    PingPlay(PingPlayPacket),
    PingResponsePlay(PingResponsePlayPacket),
    PlayerAbilities(PlayerAbilitiesPacket),
    EndCombat(EndCombatPacket),
    EnterCombat(EnterCombatPacket),
    PlayerRotation(PlayerRotationPacket),
    RecipeBookRemove(RecipeBookRemovePacket),
    RecipeBookSettings(RecipeBookSettingsPacket),
    RemoveEntities(RemoveEntitiesPacket),
    RemoveEntityEffect(RemoveEntityEffectPacket),
    ResetScore(ResetScorePacket),
    SelectAdvancementsTab(SelectAdvancementsTabPacket),
    SetBorderCenter(SetBorderCenterPacket),
    SetBorderSize(SetBorderSizePacket),
    SetBorderWarningDelay(SetBorderWarningDelayPacket),
    SetBorderWarningDistance(SetBorderWarningDistancePacket),
    SetCamera(SetCameraPacket),
    SetCenterChunk(SetCenterChunkPacket),
    SetRenderDistance(SetRenderDistancePacket),
    SetDefaultSpawnPosition(SetDefaultSpawnPositionPacket),
    DisplayObjective(DisplayObjectivePacket),
    LinkEntries(LinkEntriesPacket),
    SetExperience(SetExperiencePacket),
    SetHealth(SetHealthPacket),
    SetHeldItem(SetHeldItemPacket),
    SetPassengers(SetPassengersPacket),
    SetSimulationDistance(SetSimulationDistancePacket),
    UpdateTime(UpdateTimePacket),
    SetTitleAnimationTimes(SetTitleAnimationTimesPacket),
    StartConfiguration(StartConfigurationPacket),
    StopSound(StopSoundPacket),
    StoreCookie(StoreCookiePacket),
    PickupItem(PickupItemPacket),
    SetTickingState(SetTickingStatePacket),
    StepTick(StepTickPacket),
    Transfer(TransferPacket),
    EntityEffect(EntityEffectPacket),
    ProjectilePower(ProjectilePowerPacket),
    CustomReportDetails(CustomReportDetailsPacket),
    ClearDialog(ClearDialogPacket),
    ConfirmTeleport(ConfirmTeleportPacket),
    QueryBlockEntityTag(QueryBlockEntityTagPacket),
    BundleItemSelected(BundleItemSelectedPacket),
    ChangeGameMode(ChangeGameModePacket),
    AcknowledgeMessage(AcknowledgeMessagePacket),
    ChatCommand(ChatCommandPacket),
    ChunkBatchReceived(ChunkBatchReceivedPacket),
    ClientCommand(ClientCommandPacket),
    ClientTickEnd(ClientTickEndPacket),
    ClientInformationPlay(ClientInformationPlayPacket),
    CommandSuggestionsRequest(CommandSuggestionsRequestPacket),
    AcknowledgeConfiguration(AcknowledgeConfigurationPacket),
    ClickContainerButton(ClickContainerButtonPacket),
    CloseContainerServer(CloseContainerServerPacket),
    ChangeContainerSlotState(ChangeContainerSlotStatePacket),
    CookieResponsePlay(CookieResponsePlayPacket),
    ServerboundPluginMessagePlay(ServerboundPluginMessagePlayPacket),
    DebugSubscriptionRequest(DebugSubscriptionRequestPacket),
    EditBook(EditBookPacket),
    QueryEntityTag(QueryEntityTagPacket),
    JigsawGenerate(JigsawGeneratePacket),
    ServerboundKeepAlive(ServerboundKeepAlivePacket),
    LockDifficulty(LockDifficultyPacket),
    SetPlayerPosition(SetPlayerPositionPacket),
    SetPlayerPositionRotation(SetPlayerPositionRotationPacket),
    SetPlayerRotation(SetPlayerRotationPacket),
    SetPlayerMovementFlags(SetPlayerMovementFlagsPacket),
    MoveVehicleServer(MoveVehicleServerPacket),
    PaddleBoat(PaddleBoatPacket),
    PickItemFromBlock(PickItemFromBlockPacket),
    PickItemFromEntity(PickItemFromEntityPacket),
    PingRequestPlay(PingRequestPlayPacket),
    PlaceRecipe(PlaceRecipePacket),
    PlayerAbilitiesServer(PlayerAbilitiesServerPacket),
    PlayerAction(PlayerActionPacket),
    PlayerCommand(PlayerCommandPacket),
    PlayerInput(PlayerInputPacket),
    PlayerLoaded(PlayerLoadedPacket),
    PongPlay(PongPlayPacket),
    ChangeRecipeBookSettings(ChangeRecipeBookSettingsPacket),
    SetSeenRecipe(SetSeenRecipePacket),
    RenameItem(RenameItemPacket),
    SelectTrade(SelectTradePacket),
    SetBeaconEffect(SetBeaconEffectPacket),
    SetHeldItemServer(SetHeldItemServerPacket),
    ProgramCommandBlockMinecart(ProgramCommandBlockMinecartPacket),
    ProgramJigsawBlock(ProgramJigsawBlockPacket),
    SetTestBlock(SetTestBlockPacket),
    UpdateSign(UpdateSignPacket),
    SwingArm(SwingArmPacket),
    CustomClickAction(CustomClickActionPacket),
}

/// A packet, as contracts see it.
pub ghost enum PacketModel {
    Handshaking(<HandshakingPacket as DeepView>::V),
    PingResponse(<PingResponsePacket as DeepView>::V),
    StatusRequest(<StatusRequestPacket as DeepView>::V),
    PingRequest(<PingRequestPacket as DeepView>::V),
    SetCompression(<SetCompressionPacket as DeepView>::V),
    LoginPluginRequest(<LoginPluginRequestPacket as DeepView>::V),
    LoginCookieRequest(<LoginCookieRequestPacket as DeepView>::V),
    LoginPluginResponse(<LoginPluginResponsePacket as DeepView>::V),
    LoginAcknowledged(<LoginAcknowledgedPacket as DeepView>::V),
    LoginCookieResponse(<LoginCookieResponsePacket as DeepView>::V),
    ConfigCookieRequest(<ConfigCookieRequestPacket as DeepView>::V),
    ClientboundPluginMessage(<ClientboundPluginMessagePacket as DeepView>::V),
    FinishConfiguration(<FinishConfigurationPacket as DeepView>::V),
    KeepAlive(<KeepAlivePacket as DeepView>::V),
    ConfigurationPing(<ConfigurationPingPacket as DeepView>::V),
    ResetChat(<ResetChatPacket as DeepView>::V),
    RegistryData(<RegistryDataPacket as DeepView>::V),
    ConfigStoreCookie(<ConfigStoreCookiePacket as DeepView>::V),
    ConfigTransfer(<ConfigTransferPacket as DeepView>::V),
    ClientboundKnownPacks(<ClientboundKnownPacksPacket as DeepView>::V),
    ConfigCustomReportDetails(<ConfigCustomReportDetailsPacket as DeepView>::V),
    ClientInformation(<ClientInformationPacket as DeepView>::V),
    CookieResponse(<CookieResponsePacket as DeepView>::V),
    ServerboundPluginMessage(<ServerboundPluginMessagePacket as DeepView>::V),
    AcknowledgeFinishConfiguration(<AcknowledgeFinishConfigurationPacket as DeepView>::V),
    ServerboundKeepAliveConfig(<ServerboundKeepAliveConfigPacket as DeepView>::V),
    ConfigPong(<ConfigPongPacket as DeepView>::V),
    ServerboundKnownPacks(<ServerboundKnownPacksPacket as DeepView>::V),
    ConfigCustomClickAction(<ConfigCustomClickActionPacket as DeepView>::V),
    BundleDelimiter(<BundleDelimiterPacket as DeepView>::V),
    EntityAnimation(<EntityAnimationPacket as DeepView>::V),
    AwardStatistics(<AwardStatisticsPacket as DeepView>::V),
    AcknowledgeBlockChange(<AcknowledgeBlockChangePacket as DeepView>::V),
    SetBlockDestroyStage(<SetBlockDestroyStagePacket as DeepView>::V),
    BlockAction(<BlockActionPacket as DeepView>::V),
    BlockUpdate(<BlockUpdatePacket as DeepView>::V),
    ChunkBatchFinished(<ChunkBatchFinishedPacket as DeepView>::V),
    ChunkBatchStart(<ChunkBatchStartPacket as DeepView>::V),
    ChunkBiomes(<ChunkBiomesPacket as DeepView>::V),
    ClearTitles(<ClearTitlesPacket as DeepView>::V),
    CloseContainer(<CloseContainerPacket as DeepView>::V),
    SetContainerProperty(<SetContainerPropertyPacket as DeepView>::V),
    CookieRequestPlay(<CookieRequestPlayPacket as DeepView>::V),
    SetCooldown(<SetCooldownPacket as DeepView>::V),
    ChatSuggestions(<ChatSuggestionsPacket as DeepView>::V),
    ClientboundPluginMessagePlay(<ClientboundPluginMessagePlayPacket as DeepView>::V),
    DebugSample(<DebugSamplePacket as DeepView>::V),
    EntityEvent(<EntityEventPacket as DeepView>::V),
    TeleportEntity(<TeleportEntityPacket as DeepView>::V),
    UnloadChunk(<UnloadChunkPacket as DeepView>::V),
    GameEvent(<GameEventPacket as DeepView>::V),
    GameTestHighlightPosition(<GameTestHighlightPositionPacket as DeepView>::V),
    OpenHorseScreen(<OpenHorseScreenPacket as DeepView>::V),
    HurtAnimation(<HurtAnimationPacket as DeepView>::V),
    ClientboundKeepAlive(<ClientboundKeepAlivePacket as DeepView>::V),
    ChunkDataUpdateLight(<ChunkDataUpdateLightPacket as DeepView>::V),
    UpdateLight(<UpdateLightPacket as DeepView>::V),
    UpdateEntityPosition(<UpdateEntityPositionPacket as DeepView>::V),
    MoveVehicle(<MoveVehiclePacket as DeepView>::V),
    OpenBook(<OpenBookPacket as DeepView>::V),
    OpenSignEditor(<OpenSignEditorPacket as DeepView>::V),
    PingPlay(<PingPlayPacket as DeepView>::V),
    PingResponsePlay(<PingResponsePlayPacket as DeepView>::V),
    PlayerAbilities(<PlayerAbilitiesPacket as DeepView>::V),
    EndCombat(<EndCombatPacket as DeepView>::V),
    EnterCombat(<EnterCombatPacket as DeepView>::V),
    PlayerRotation(<PlayerRotationPacket as DeepView>::V),
    RecipeBookRemove(<RecipeBookRemovePacket as DeepView>::V),
    RecipeBookSettings(<RecipeBookSettingsPacket as DeepView>::V),
    RemoveEntities(<RemoveEntitiesPacket as DeepView>::V),
    RemoveEntityEffect(<RemoveEntityEffectPacket as DeepView>::V),
    ResetScore(<ResetScorePacket as DeepView>::V),
    SelectAdvancementsTab(<SelectAdvancementsTabPacket as DeepView>::V),
    SetBorderCenter(<SetBorderCenterPacket as DeepView>::V),
    SetBorderSize(<SetBorderSizePacket as DeepView>::V),
    SetBorderWarningDelay(<SetBorderWarningDelayPacket as DeepView>::V),
    SetBorderWarningDistance(<SetBorderWarningDistancePacket as DeepView>::V),
    SetCamera(<SetCameraPacket as DeepView>::V),
    SetCenterChunk(<SetCenterChunkPacket as DeepView>::V),
    SetRenderDistance(<SetRenderDistancePacket as DeepView>::V),
    SetDefaultSpawnPosition(<SetDefaultSpawnPositionPacket as DeepView>::V),
    DisplayObjective(<DisplayObjectivePacket as DeepView>::V),
    LinkEntries(<LinkEntriesPacket as DeepView>::V),
    SetExperience(<SetExperiencePacket as DeepView>::V),
    SetHealth(<SetHealthPacket as DeepView>::V),
    SetHeldItem(<SetHeldItemPacket as DeepView>::V),
    SetPassengers(<SetPassengersPacket as DeepView>::V),
    SetSimulationDistance(<SetSimulationDistancePacket as DeepView>::V),
    UpdateTime(<UpdateTimePacket as DeepView>::V),
    SetTitleAnimationTimes(<SetTitleAnimationTimesPacket as DeepView>::V),
    StartConfiguration(<StartConfigurationPacket as DeepView>::V),
    StopSound(<StopSoundPacket as DeepView>::V),
    StoreCookie(<StoreCookiePacket as DeepView>::V),
    PickupItem(<PickupItemPacket as DeepView>::V),
    SetTickingState(<SetTickingStatePacket as DeepView>::V),
    StepTick(<StepTickPacket as DeepView>::V),
    Transfer(<TransferPacket as DeepView>::V),
    EntityEffect(<EntityEffectPacket as DeepView>::V),
    ProjectilePower(<ProjectilePowerPacket as DeepView>::V),
    CustomReportDetails(<CustomReportDetailsPacket as DeepView>::V),
    ClearDialog(<ClearDialogPacket as DeepView>::V),
    ConfirmTeleport(<ConfirmTeleportPacket as DeepView>::V),
    QueryBlockEntityTag(<QueryBlockEntityTagPacket as DeepView>::V),
    BundleItemSelected(<BundleItemSelectedPacket as DeepView>::V),
    ChangeGameMode(<ChangeGameModePacket as DeepView>::V),
    AcknowledgeMessage(<AcknowledgeMessagePacket as DeepView>::V),
    ChatCommand(<ChatCommandPacket as DeepView>::V),
    ChunkBatchReceived(<ChunkBatchReceivedPacket as DeepView>::V),
    ClientCommand(<ClientCommandPacket as DeepView>::V),
    ClientTickEnd(<ClientTickEndPacket as DeepView>::V),
    ClientInformationPlay(<ClientInformationPlayPacket as DeepView>::V),
    CommandSuggestionsRequest(<CommandSuggestionsRequestPacket as DeepView>::V),
    AcknowledgeConfiguration(<AcknowledgeConfigurationPacket as DeepView>::V),
    ClickContainerButton(<ClickContainerButtonPacket as DeepView>::V),
    CloseContainerServer(<CloseContainerServerPacket as DeepView>::V),
    ChangeContainerSlotState(<ChangeContainerSlotStatePacket as DeepView>::V),
    CookieResponsePlay(<CookieResponsePlayPacket as DeepView>::V),
    ServerboundPluginMessagePlay(<ServerboundPluginMessagePlayPacket as DeepView>::V),
    DebugSubscriptionRequest(<DebugSubscriptionRequestPacket as DeepView>::V),
    EditBook(<EditBookPacket as DeepView>::V),
    QueryEntityTag(<QueryEntityTagPacket as DeepView>::V),
    JigsawGenerate(<JigsawGeneratePacket as DeepView>::V),
    ServerboundKeepAlive(<ServerboundKeepAlivePacket as DeepView>::V),
    LockDifficulty(<LockDifficultyPacket as DeepView>::V),
    SetPlayerPosition(<SetPlayerPositionPacket as DeepView>::V),
    SetPlayerPositionRotation(<SetPlayerPositionRotationPacket as DeepView>::V),
    SetPlayerRotation(<SetPlayerRotationPacket as DeepView>::V),
    SetPlayerMovementFlags(<SetPlayerMovementFlagsPacket as DeepView>::V),
    MoveVehicleServer(<MoveVehicleServerPacket as DeepView>::V),
    PaddleBoat(<PaddleBoatPacket as DeepView>::V),
    PickItemFromBlock(<PickItemFromBlockPacket as DeepView>::V),
    PickItemFromEntity(<PickItemFromEntityPacket as DeepView>::V),
    PingRequestPlay(<PingRequestPlayPacket as DeepView>::V),
    PlaceRecipe(<PlaceRecipePacket as DeepView>::V),
    PlayerAbilitiesServer(<PlayerAbilitiesServerPacket as DeepView>::V),
    PlayerAction(<PlayerActionPacket as DeepView>::V),
    PlayerCommand(<PlayerCommandPacket as DeepView>::V),
    PlayerInput(<PlayerInputPacket as DeepView>::V),
    PlayerLoaded(<PlayerLoadedPacket as DeepView>::V),
    PongPlay(<PongPlayPacket as DeepView>::V),
    ChangeRecipeBookSettings(<ChangeRecipeBookSettingsPacket as DeepView>::V),
    SetSeenRecipe(<SetSeenRecipePacket as DeepView>::V),
    RenameItem(<RenameItemPacket as DeepView>::V),
    SelectTrade(<SelectTradePacket as DeepView>::V),
    SetBeaconEffect(<SetBeaconEffectPacket as DeepView>::V),
    SetHeldItemServer(<SetHeldItemServerPacket as DeepView>::V),
    ProgramCommandBlockMinecart(<ProgramCommandBlockMinecartPacket as DeepView>::V),
    ProgramJigsawBlock(<ProgramJigsawBlockPacket as DeepView>::V),
    SetTestBlock(<SetTestBlockPacket as DeepView>::V),
    UpdateSign(<UpdateSignPacket as DeepView>::V),
    SwingArm(<SwingArmPacket as DeepView>::V),
    CustomClickAction(<CustomClickActionPacket as DeepView>::V),
}

impl DeepView for Packet {
    type V = PacketModel;

    open spec fn deep_view(&self) -> PacketModel {
        match self {
            Packet::Handshaking(b) => PacketModel::Handshaking(b.deep_view()),
            Packet::PingResponse(b) => PacketModel::PingResponse(b.deep_view()),
            Packet::StatusRequest(b) => PacketModel::StatusRequest(b.deep_view()),
            Packet::PingRequest(b) => PacketModel::PingRequest(b.deep_view()),
            Packet::SetCompression(b) => PacketModel::SetCompression(b.deep_view()),
            Packet::LoginPluginRequest(b) => PacketModel::LoginPluginRequest(b.deep_view()),
            Packet::LoginCookieRequest(b) => PacketModel::LoginCookieRequest(b.deep_view()),
            Packet::LoginPluginResponse(b) => PacketModel::LoginPluginResponse(b.deep_view()),
            Packet::LoginAcknowledged(b) => PacketModel::LoginAcknowledged(b.deep_view()),
            Packet::LoginCookieResponse(b) => PacketModel::LoginCookieResponse(b.deep_view()),
            Packet::ConfigCookieRequest(b) => PacketModel::ConfigCookieRequest(b.deep_view()),
            Packet::ClientboundPluginMessage(b) => PacketModel::ClientboundPluginMessage(b.deep_view()),
            Packet::FinishConfiguration(b) => PacketModel::FinishConfiguration(b.deep_view()),
            Packet::KeepAlive(b) => PacketModel::KeepAlive(b.deep_view()),
            Packet::ConfigurationPing(b) => PacketModel::ConfigurationPing(b.deep_view()),
            Packet::ResetChat(b) => PacketModel::ResetChat(b.deep_view()),
            Packet::RegistryData(b) => PacketModel::RegistryData(b.deep_view()),
            Packet::ConfigStoreCookie(b) => PacketModel::ConfigStoreCookie(b.deep_view()),
            Packet::ConfigTransfer(b) => PacketModel::ConfigTransfer(b.deep_view()),
            Packet::ClientboundKnownPacks(b) => PacketModel::ClientboundKnownPacks(b.deep_view()),
            Packet::ConfigCustomReportDetails(b) => PacketModel::ConfigCustomReportDetails(b.deep_view()),
            Packet::ClientInformation(b) => PacketModel::ClientInformation(b.deep_view()),
            Packet::CookieResponse(b) => PacketModel::CookieResponse(b.deep_view()),
            Packet::ServerboundPluginMessage(b) => PacketModel::ServerboundPluginMessage(b.deep_view()),
            Packet::AcknowledgeFinishConfiguration(b) => PacketModel::AcknowledgeFinishConfiguration(b.deep_view()),
            Packet::ServerboundKeepAliveConfig(b) => PacketModel::ServerboundKeepAliveConfig(b.deep_view()),
            Packet::ConfigPong(b) => PacketModel::ConfigPong(b.deep_view()),
            Packet::ServerboundKnownPacks(b) => PacketModel::ServerboundKnownPacks(b.deep_view()),
            Packet::ConfigCustomClickAction(b) => PacketModel::ConfigCustomClickAction(b.deep_view()),
            Packet::BundleDelimiter(b) => PacketModel::BundleDelimiter(b.deep_view()),
            Packet::EntityAnimation(b) => PacketModel::EntityAnimation(b.deep_view()),
            Packet::AwardStatistics(b) => PacketModel::AwardStatistics(b.deep_view()),
            Packet::AcknowledgeBlockChange(b) => PacketModel::AcknowledgeBlockChange(b.deep_view()),
            Packet::SetBlockDestroyStage(b) => PacketModel::SetBlockDestroyStage(b.deep_view()),
            Packet::BlockAction(b) => PacketModel::BlockAction(b.deep_view()),
            Packet::BlockUpdate(b) => PacketModel::BlockUpdate(b.deep_view()),
            Packet::ChunkBatchFinished(b) => PacketModel::ChunkBatchFinished(b.deep_view()),
            Packet::ChunkBatchStart(b) => PacketModel::ChunkBatchStart(b.deep_view()),
            Packet::ChunkBiomes(b) => PacketModel::ChunkBiomes(b.deep_view()),
            Packet::ClearTitles(b) => PacketModel::ClearTitles(b.deep_view()),
            Packet::CloseContainer(b) => PacketModel::CloseContainer(b.deep_view()),
            Packet::SetContainerProperty(b) => PacketModel::SetContainerProperty(b.deep_view()),
            Packet::CookieRequestPlay(b) => PacketModel::CookieRequestPlay(b.deep_view()),
            Packet::SetCooldown(b) => PacketModel::SetCooldown(b.deep_view()),
            Packet::ChatSuggestions(b) => PacketModel::ChatSuggestions(b.deep_view()),
            Packet::ClientboundPluginMessagePlay(b) => PacketModel::ClientboundPluginMessagePlay(b.deep_view()),
            Packet::DebugSample(b) => PacketModel::DebugSample(b.deep_view()),
            Packet::EntityEvent(b) => PacketModel::EntityEvent(b.deep_view()),
            Packet::TeleportEntity(b) => PacketModel::TeleportEntity(b.deep_view()),
            Packet::UnloadChunk(b) => PacketModel::UnloadChunk(b.deep_view()),
            Packet::GameEvent(b) => PacketModel::GameEvent(b.deep_view()),
            Packet::GameTestHighlightPosition(b) => PacketModel::GameTestHighlightPosition(b.deep_view()),
            Packet::OpenHorseScreen(b) => PacketModel::OpenHorseScreen(b.deep_view()),
            Packet::HurtAnimation(b) => PacketModel::HurtAnimation(b.deep_view()),
            Packet::ClientboundKeepAlive(b) => PacketModel::ClientboundKeepAlive(b.deep_view()),
            Packet::ChunkDataUpdateLight(b) => PacketModel::ChunkDataUpdateLight(b.deep_view()),
            Packet::UpdateLight(b) => PacketModel::UpdateLight(b.deep_view()),
            Packet::UpdateEntityPosition(b) => PacketModel::UpdateEntityPosition(b.deep_view()),
            Packet::MoveVehicle(b) => PacketModel::MoveVehicle(b.deep_view()),
            Packet::OpenBook(b) => PacketModel::OpenBook(b.deep_view()),
            Packet::OpenSignEditor(b) => PacketModel::OpenSignEditor(b.deep_view()),
            Packet::PingPlay(b) => PacketModel::PingPlay(b.deep_view()),
            Packet::PingResponsePlay(b) => PacketModel::PingResponsePlay(b.deep_view()),
            Packet::PlayerAbilities(b) => PacketModel::PlayerAbilities(b.deep_view()),
            Packet::EndCombat(b) => PacketModel::EndCombat(b.deep_view()),
            Packet::EnterCombat(b) => PacketModel::EnterCombat(b.deep_view()),
            Packet::PlayerRotation(b) => PacketModel::PlayerRotation(b.deep_view()),
            Packet::RecipeBookRemove(b) => PacketModel::RecipeBookRemove(b.deep_view()),
            Packet::RecipeBookSettings(b) => PacketModel::RecipeBookSettings(b.deep_view()),
            Packet::RemoveEntities(b) => PacketModel::RemoveEntities(b.deep_view()),
            Packet::RemoveEntityEffect(b) => PacketModel::RemoveEntityEffect(b.deep_view()),
            Packet::ResetScore(b) => PacketModel::ResetScore(b.deep_view()),
            Packet::SelectAdvancementsTab(b) => PacketModel::SelectAdvancementsTab(b.deep_view()),
            Packet::SetBorderCenter(b) => PacketModel::SetBorderCenter(b.deep_view()),
            Packet::SetBorderSize(b) => PacketModel::SetBorderSize(b.deep_view()),
            Packet::SetBorderWarningDelay(b) => PacketModel::SetBorderWarningDelay(b.deep_view()),
            Packet::SetBorderWarningDistance(b) => PacketModel::SetBorderWarningDistance(b.deep_view()),
            Packet::SetCamera(b) => PacketModel::SetCamera(b.deep_view()),
            Packet::SetCenterChunk(b) => PacketModel::SetCenterChunk(b.deep_view()),
            Packet::SetRenderDistance(b) => PacketModel::SetRenderDistance(b.deep_view()),
            Packet::SetDefaultSpawnPosition(b) => PacketModel::SetDefaultSpawnPosition(b.deep_view()),
            Packet::DisplayObjective(b) => PacketModel::DisplayObjective(b.deep_view()),
            Packet::LinkEntries(b) => PacketModel::LinkEntries(b.deep_view()),
            Packet::SetExperience(b) => PacketModel::SetExperience(b.deep_view()),
            Packet::SetHealth(b) => PacketModel::SetHealth(b.deep_view()),
            Packet::SetHeldItem(b) => PacketModel::SetHeldItem(b.deep_view()),
            Packet::SetPassengers(b) => PacketModel::SetPassengers(b.deep_view()),
            Packet::SetSimulationDistance(b) => PacketModel::SetSimulationDistance(b.deep_view()),
            Packet::UpdateTime(b) => PacketModel::UpdateTime(b.deep_view()),
            Packet::SetTitleAnimationTimes(b) => PacketModel::SetTitleAnimationTimes(b.deep_view()),
            Packet::StartConfiguration(b) => PacketModel::StartConfiguration(b.deep_view()),
            Packet::StopSound(b) => PacketModel::StopSound(b.deep_view()),
            Packet::StoreCookie(b) => PacketModel::StoreCookie(b.deep_view()),
            Packet::PickupItem(b) => PacketModel::PickupItem(b.deep_view()),
            Packet::SetTickingState(b) => PacketModel::SetTickingState(b.deep_view()),
            Packet::StepTick(b) => PacketModel::StepTick(b.deep_view()),
            Packet::Transfer(b) => PacketModel::Transfer(b.deep_view()),
            Packet::EntityEffect(b) => PacketModel::EntityEffect(b.deep_view()),
            Packet::ProjectilePower(b) => PacketModel::ProjectilePower(b.deep_view()),
            Packet::CustomReportDetails(b) => PacketModel::CustomReportDetails(b.deep_view()),
            Packet::ClearDialog(b) => PacketModel::ClearDialog(b.deep_view()),
            Packet::ConfirmTeleport(b) => PacketModel::ConfirmTeleport(b.deep_view()),
            Packet::QueryBlockEntityTag(b) => PacketModel::QueryBlockEntityTag(b.deep_view()),
            Packet::BundleItemSelected(b) => PacketModel::BundleItemSelected(b.deep_view()),
            Packet::ChangeGameMode(b) => PacketModel::ChangeGameMode(b.deep_view()),
            Packet::AcknowledgeMessage(b) => PacketModel::AcknowledgeMessage(b.deep_view()),
            Packet::ChatCommand(b) => PacketModel::ChatCommand(b.deep_view()),
            Packet::ChunkBatchReceived(b) => PacketModel::ChunkBatchReceived(b.deep_view()),
            Packet::ClientCommand(b) => PacketModel::ClientCommand(b.deep_view()),
            Packet::ClientTickEnd(b) => PacketModel::ClientTickEnd(b.deep_view()),
            Packet::ClientInformationPlay(b) => PacketModel::ClientInformationPlay(b.deep_view()),
            Packet::CommandSuggestionsRequest(b) => PacketModel::CommandSuggestionsRequest(b.deep_view()),
            Packet::AcknowledgeConfiguration(b) => PacketModel::AcknowledgeConfiguration(b.deep_view()),
            Packet::ClickContainerButton(b) => PacketModel::ClickContainerButton(b.deep_view()),
            Packet::CloseContainerServer(b) => PacketModel::CloseContainerServer(b.deep_view()),
            Packet::ChangeContainerSlotState(b) => PacketModel::ChangeContainerSlotState(b.deep_view()),
            Packet::CookieResponsePlay(b) => PacketModel::CookieResponsePlay(b.deep_view()),
            Packet::ServerboundPluginMessagePlay(b) => PacketModel::ServerboundPluginMessagePlay(b.deep_view()),
            Packet::DebugSubscriptionRequest(b) => PacketModel::DebugSubscriptionRequest(b.deep_view()),
            Packet::EditBook(b) => PacketModel::EditBook(b.deep_view()),
            Packet::QueryEntityTag(b) => PacketModel::QueryEntityTag(b.deep_view()),
            Packet::JigsawGenerate(b) => PacketModel::JigsawGenerate(b.deep_view()),
            Packet::ServerboundKeepAlive(b) => PacketModel::ServerboundKeepAlive(b.deep_view()),
            Packet::LockDifficulty(b) => PacketModel::LockDifficulty(b.deep_view()),
            Packet::SetPlayerPosition(b) => PacketModel::SetPlayerPosition(b.deep_view()),
            Packet::SetPlayerPositionRotation(b) => PacketModel::SetPlayerPositionRotation(b.deep_view()),
            Packet::SetPlayerRotation(b) => PacketModel::SetPlayerRotation(b.deep_view()),
            Packet::SetPlayerMovementFlags(b) => PacketModel::SetPlayerMovementFlags(b.deep_view()),
            Packet::MoveVehicleServer(b) => PacketModel::MoveVehicleServer(b.deep_view()),
            Packet::PaddleBoat(b) => PacketModel::PaddleBoat(b.deep_view()),
            Packet::PickItemFromBlock(b) => PacketModel::PickItemFromBlock(b.deep_view()),
            Packet::PickItemFromEntity(b) => PacketModel::PickItemFromEntity(b.deep_view()),
            Packet::PingRequestPlay(b) => PacketModel::PingRequestPlay(b.deep_view()),
            Packet::PlaceRecipe(b) => PacketModel::PlaceRecipe(b.deep_view()),
            Packet::PlayerAbilitiesServer(b) => PacketModel::PlayerAbilitiesServer(b.deep_view()),
            Packet::PlayerAction(b) => PacketModel::PlayerAction(b.deep_view()),
            Packet::PlayerCommand(b) => PacketModel::PlayerCommand(b.deep_view()),
            Packet::PlayerInput(b) => PacketModel::PlayerInput(b.deep_view()),
            Packet::PlayerLoaded(b) => PacketModel::PlayerLoaded(b.deep_view()),
            Packet::PongPlay(b) => PacketModel::PongPlay(b.deep_view()),
            Packet::ChangeRecipeBookSettings(b) => PacketModel::ChangeRecipeBookSettings(b.deep_view()),
            Packet::SetSeenRecipe(b) => PacketModel::SetSeenRecipe(b.deep_view()),
            Packet::RenameItem(b) => PacketModel::RenameItem(b.deep_view()),
            Packet::SelectTrade(b) => PacketModel::SelectTrade(b.deep_view()),
            Packet::SetBeaconEffect(b) => PacketModel::SetBeaconEffect(b.deep_view()),
            Packet::SetHeldItemServer(b) => PacketModel::SetHeldItemServer(b.deep_view()),
            Packet::ProgramCommandBlockMinecart(b) => PacketModel::ProgramCommandBlockMinecart(b.deep_view()),
            Packet::ProgramJigsawBlock(b) => PacketModel::ProgramJigsawBlock(b.deep_view()),
            Packet::SetTestBlock(b) => PacketModel::SetTestBlock(b.deep_view()),
            Packet::UpdateSign(b) => PacketModel::UpdateSign(b.deep_view()),
            Packet::SwingArm(b) => PacketModel::SwingArm(b.deep_view()),
            Packet::CustomClickAction(b) => PacketModel::CustomClickAction(b.deep_view()),
        }
    }
}

/// The id of a packet.
pub open spec fn spec_packet_id(v: PacketModel) -> i32 {
    match v {
        PacketModel::Handshaking(b) => 0i32,
        PacketModel::PingResponse(b) => 1i32,
        PacketModel::StatusRequest(b) => 0i32,
        PacketModel::PingRequest(b) => 1i32,
        PacketModel::SetCompression(b) => 3i32,
        PacketModel::LoginPluginRequest(b) => 4i32,
        PacketModel::LoginCookieRequest(b) => 5i32,
        PacketModel::LoginPluginResponse(b) => 2i32,
        PacketModel::LoginAcknowledged(b) => 3i32,
        PacketModel::LoginCookieResponse(b) => 4i32,
        PacketModel::ConfigCookieRequest(b) => 0i32,
        PacketModel::ClientboundPluginMessage(b) => 1i32,
        PacketModel::FinishConfiguration(b) => 3i32,
        PacketModel::KeepAlive(b) => 4i32,
        PacketModel::ConfigurationPing(b) => 5i32,
        PacketModel::ResetChat(b) => 6i32,
        PacketModel::RegistryData(b) => 7i32,
        PacketModel::ConfigStoreCookie(b) => 10i32,
        PacketModel::ConfigTransfer(b) => 11i32,
        PacketModel::ClientboundKnownPacks(b) => 14i32,
        PacketModel::ConfigCustomReportDetails(b) => 15i32,
        PacketModel::ClientInformation(b) => 0i32,
        PacketModel::CookieResponse(b) => 1i32,
        PacketModel::ServerboundPluginMessage(b) => 2i32,
        PacketModel::AcknowledgeFinishConfiguration(b) => 3i32,
        PacketModel::ServerboundKeepAliveConfig(b) => 4i32,
        PacketModel::ConfigPong(b) => 5i32,
        PacketModel::ServerboundKnownPacks(b) => 7i32,
        PacketModel::ConfigCustomClickAction(b) => 8i32,
        PacketModel::BundleDelimiter(b) => 0i32,
        PacketModel::EntityAnimation(b) => 2i32,
        PacketModel::AwardStatistics(b) => 3i32,
        PacketModel::AcknowledgeBlockChange(b) => 4i32,
        PacketModel::SetBlockDestroyStage(b) => 5i32,
        PacketModel::BlockAction(b) => 7i32,
        PacketModel::BlockUpdate(b) => 8i32,
        PacketModel::ChunkBatchFinished(b) => 11i32,
        PacketModel::ChunkBatchStart(b) => 12i32,
        PacketModel::ChunkBiomes(b) => 13i32,
        PacketModel::ClearTitles(b) => 14i32,
        PacketModel::CloseContainer(b) => 17i32,
        PacketModel::SetContainerProperty(b) => 19i32,
        PacketModel::CookieRequestPlay(b) => 21i32,
        PacketModel::SetCooldown(b) => 22i32,
        PacketModel::ChatSuggestions(b) => 23i32,
        PacketModel::ClientboundPluginMessagePlay(b) => 24i32,
        PacketModel::DebugSample(b) => 30i32,
        PacketModel::EntityEvent(b) => 34i32,
        PacketModel::TeleportEntity(b) => 35i32,
        PacketModel::UnloadChunk(b) => 37i32,
        PacketModel::GameEvent(b) => 38i32,
        PacketModel::GameTestHighlightPosition(b) => 39i32,
        PacketModel::OpenHorseScreen(b) => 40i32,
        PacketModel::HurtAnimation(b) => 41i32,
        PacketModel::ClientboundKeepAlive(b) => 43i32,
        PacketModel::ChunkDataUpdateLight(b) => 44i32,
        PacketModel::UpdateLight(b) => 47i32,
        PacketModel::UpdateEntityPosition(b) => 51i32,
        PacketModel::MoveVehicle(b) => 55i32,
        PacketModel::OpenBook(b) => 56i32,
        PacketModel::OpenSignEditor(b) => 58i32,
        PacketModel::PingPlay(b) => 59i32,
        PacketModel::PingResponsePlay(b) => 60i32,
        PacketModel::PlayerAbilities(b) => 62i32,
        PacketModel::EndCombat(b) => 64i32,
        PacketModel::EnterCombat(b) => 65i32,
        PacketModel::PlayerRotation(b) => 71i32,
        PacketModel::RecipeBookRemove(b) => 73i32,
        PacketModel::RecipeBookSettings(b) => 74i32,
        PacketModel::RemoveEntities(b) => 75i32,
        PacketModel::RemoveEntityEffect(b) => 76i32,
        PacketModel::ResetScore(b) => 77i32,
        PacketModel::SelectAdvancementsTab(b) => 83i32,
        PacketModel::SetBorderCenter(b) => 86i32,
        PacketModel::SetBorderSize(b) => 88i32,
        PacketModel::SetBorderWarningDelay(b) => 89i32,
        PacketModel::SetBorderWarningDistance(b) => 90i32,
        PacketModel::SetCamera(b) => 91i32,
        PacketModel::SetCenterChunk(b) => 92i32,
        PacketModel::SetRenderDistance(b) => 93i32,
        PacketModel::SetDefaultSpawnPosition(b) => 95i32,
        PacketModel::DisplayObjective(b) => 96i32,
        PacketModel::LinkEntries(b) => 98i32,
        PacketModel::SetExperience(b) => 101i32,
        PacketModel::SetHealth(b) => 102i32,
        PacketModel::SetHeldItem(b) => 103i32,
        PacketModel::SetPassengers(b) => 105i32,
        PacketModel::SetSimulationDistance(b) => 109i32,
        PacketModel::UpdateTime(b) => 111i32,
        PacketModel::SetTitleAnimationTimes(b) => 113i32,
        PacketModel::StartConfiguration(b) => 116i32,
        PacketModel::StopSound(b) => 117i32,
        PacketModel::StoreCookie(b) => 118i32,
        PacketModel::PickupItem(b) => 122i32,
        PacketModel::SetTickingState(b) => 125i32,
        PacketModel::StepTick(b) => 126i32,
        PacketModel::Transfer(b) => 127i32,
        PacketModel::EntityEffect(b) => 130i32,
        PacketModel::ProjectilePower(b) => 133i32,
        PacketModel::CustomReportDetails(b) => 134i32,
        PacketModel::ClearDialog(b) => 137i32,
        PacketModel::ConfirmTeleport(b) => 0i32,
        PacketModel::QueryBlockEntityTag(b) => 1i32,
        PacketModel::BundleItemSelected(b) => 2i32,
        PacketModel::ChangeGameMode(b) => 4i32,
        PacketModel::AcknowledgeMessage(b) => 5i32,
        PacketModel::ChatCommand(b) => 6i32,
        PacketModel::ChunkBatchReceived(b) => 10i32,
        PacketModel::ClientCommand(b) => 11i32,
        PacketModel::ClientTickEnd(b) => 12i32,
        PacketModel::ClientInformationPlay(b) => 13i32,
        PacketModel::CommandSuggestionsRequest(b) => 14i32,
        PacketModel::AcknowledgeConfiguration(b) => 15i32,
        PacketModel::ClickContainerButton(b) => 16i32,
        PacketModel::CloseContainerServer(b) => 18i32,
        PacketModel::ChangeContainerSlotState(b) => 19i32,
        PacketModel::CookieResponsePlay(b) => 20i32,
        PacketModel::ServerboundPluginMessagePlay(b) => 21i32,
        PacketModel::DebugSubscriptionRequest(b) => 22i32,
        PacketModel::EditBook(b) => 23i32,
        PacketModel::QueryEntityTag(b) => 24i32,
        PacketModel::JigsawGenerate(b) => 26i32,
        PacketModel::ServerboundKeepAlive(b) => 27i32,
        PacketModel::LockDifficulty(b) => 28i32,
        PacketModel::SetPlayerPosition(b) => 29i32,
        PacketModel::SetPlayerPositionRotation(b) => 30i32,
        PacketModel::SetPlayerRotation(b) => 31i32,
        PacketModel::SetPlayerMovementFlags(b) => 32i32,
        PacketModel::MoveVehicleServer(b) => 33i32,
        PacketModel::PaddleBoat(b) => 34i32,
        PacketModel::PickItemFromBlock(b) => 35i32,
        PacketModel::PickItemFromEntity(b) => 36i32,
        PacketModel::PingRequestPlay(b) => 37i32,
        PacketModel::PlaceRecipe(b) => 38i32,
        PacketModel::PlayerAbilitiesServer(b) => 39i32,
        PacketModel::PlayerAction(b) => 40i32,
        PacketModel::PlayerCommand(b) => 41i32,
        PacketModel::PlayerInput(b) => 42i32,
        PacketModel::PlayerLoaded(b) => 43i32,
        PacketModel::PongPlay(b) => 44i32,
        PacketModel::ChangeRecipeBookSettings(b) => 45i32,
        PacketModel::SetSeenRecipe(b) => 46i32,
        PacketModel::RenameItem(b) => 47i32,
        PacketModel::SelectTrade(b) => 50i32,
        PacketModel::SetBeaconEffect(b) => 51i32,
        PacketModel::SetHeldItemServer(b) => 52i32,
        PacketModel::ProgramCommandBlockMinecart(b) => 54i32,
        PacketModel::ProgramJigsawBlock(b) => 56i32,
        PacketModel::SetTestBlock(b) => 58i32,
        PacketModel::UpdateSign(b) => 59i32,
        PacketModel::SwingArm(b) => 60i32,
        PacketModel::CustomClickAction(b) => 65i32,
    }
}

/// The state a packet is sent in.
pub open spec fn spec_packet_state(v: PacketModel) -> PacketState {
    match v {
        PacketModel::Handshaking(b) => PacketState::HANDSHAKING,
        PacketModel::PingResponse(b) => PacketState::STATUS,
        PacketModel::StatusRequest(b) => PacketState::STATUS,
        PacketModel::PingRequest(b) => PacketState::STATUS,
        PacketModel::SetCompression(b) => PacketState::LOGIN,
        PacketModel::LoginPluginRequest(b) => PacketState::LOGIN,
        PacketModel::LoginCookieRequest(b) => PacketState::LOGIN,
        PacketModel::LoginPluginResponse(b) => PacketState::LOGIN,
        PacketModel::LoginAcknowledged(b) => PacketState::LOGIN,
        PacketModel::LoginCookieResponse(b) => PacketState::LOGIN,
        PacketModel::ConfigCookieRequest(b) => PacketState::CONFIGURATION,
        PacketModel::ClientboundPluginMessage(b) => PacketState::CONFIGURATION,
        PacketModel::FinishConfiguration(b) => PacketState::CONFIGURATION,
        PacketModel::KeepAlive(b) => PacketState::CONFIGURATION,
        PacketModel::ConfigurationPing(b) => PacketState::CONFIGURATION,
        PacketModel::ResetChat(b) => PacketState::CONFIGURATION,
        PacketModel::RegistryData(b) => PacketState::CONFIGURATION,
        PacketModel::ConfigStoreCookie(b) => PacketState::CONFIGURATION,
        PacketModel::ConfigTransfer(b) => PacketState::CONFIGURATION,
        PacketModel::ClientboundKnownPacks(b) => PacketState::CONFIGURATION,
        PacketModel::ConfigCustomReportDetails(b) => PacketState::CONFIGURATION,
        PacketModel::ClientInformation(b) => PacketState::CONFIGURATION,
        PacketModel::CookieResponse(b) => PacketState::CONFIGURATION,
        PacketModel::ServerboundPluginMessage(b) => PacketState::CONFIGURATION,
        PacketModel::AcknowledgeFinishConfiguration(b) => PacketState::CONFIGURATION,
        PacketModel::ServerboundKeepAliveConfig(b) => PacketState::CONFIGURATION,
        PacketModel::ConfigPong(b) => PacketState::CONFIGURATION,
        PacketModel::ServerboundKnownPacks(b) => PacketState::CONFIGURATION,
        PacketModel::ConfigCustomClickAction(b) => PacketState::CONFIGURATION,
        PacketModel::BundleDelimiter(b) => PacketState::PLAY,
        PacketModel::EntityAnimation(b) => PacketState::PLAY,
        PacketModel::AwardStatistics(b) => PacketState::PLAY,
        PacketModel::AcknowledgeBlockChange(b) => PacketState::PLAY,
        PacketModel::SetBlockDestroyStage(b) => PacketState::PLAY,
        PacketModel::BlockAction(b) => PacketState::PLAY,
        PacketModel::BlockUpdate(b) => PacketState::PLAY,
        PacketModel::ChunkBatchFinished(b) => PacketState::PLAY,
        PacketModel::ChunkBatchStart(b) => PacketState::PLAY,
        PacketModel::ChunkBiomes(b) => PacketState::PLAY,
        PacketModel::ClearTitles(b) => PacketState::PLAY,
        PacketModel::CloseContainer(b) => PacketState::PLAY,
        PacketModel::SetContainerProperty(b) => PacketState::PLAY,
        PacketModel::CookieRequestPlay(b) => PacketState::PLAY,
        PacketModel::SetCooldown(b) => PacketState::PLAY,
        PacketModel::ChatSuggestions(b) => PacketState::PLAY,
        PacketModel::ClientboundPluginMessagePlay(b) => PacketState::PLAY,
        PacketModel::DebugSample(b) => PacketState::PLAY,
        PacketModel::EntityEvent(b) => PacketState::PLAY,
        PacketModel::TeleportEntity(b) => PacketState::PLAY,
        PacketModel::UnloadChunk(b) => PacketState::PLAY,
        PacketModel::GameEvent(b) => PacketState::PLAY,
        PacketModel::GameTestHighlightPosition(b) => PacketState::PLAY,
        PacketModel::OpenHorseScreen(b) => PacketState::PLAY,
        PacketModel::HurtAnimation(b) => PacketState::PLAY,
        PacketModel::ClientboundKeepAlive(b) => PacketState::PLAY,
        PacketModel::ChunkDataUpdateLight(b) => PacketState::PLAY,
        PacketModel::UpdateLight(b) => PacketState::PLAY,
        PacketModel::UpdateEntityPosition(b) => PacketState::PLAY,
        PacketModel::MoveVehicle(b) => PacketState::PLAY,
        PacketModel::OpenBook(b) => PacketState::PLAY,
        PacketModel::OpenSignEditor(b) => PacketState::PLAY,
        PacketModel::PingPlay(b) => PacketState::PLAY,
        PacketModel::PingResponsePlay(b) => PacketState::PLAY,
        PacketModel::PlayerAbilities(b) => PacketState::PLAY,
        PacketModel::EndCombat(b) => PacketState::PLAY,
        PacketModel::EnterCombat(b) => PacketState::PLAY,
        PacketModel::PlayerRotation(b) => PacketState::PLAY,
        PacketModel::RecipeBookRemove(b) => PacketState::PLAY,
        PacketModel::RecipeBookSettings(b) => PacketState::PLAY,
        PacketModel::RemoveEntities(b) => PacketState::PLAY,
        PacketModel::RemoveEntityEffect(b) => PacketState::PLAY,
        PacketModel::ResetScore(b) => PacketState::PLAY,
        PacketModel::SelectAdvancementsTab(b) => PacketState::PLAY,
        PacketModel::SetBorderCenter(b) => PacketState::PLAY,
        PacketModel::SetBorderSize(b) => PacketState::PLAY,
        PacketModel::SetBorderWarningDelay(b) => PacketState::PLAY,
        PacketModel::SetBorderWarningDistance(b) => PacketState::PLAY,
        PacketModel::SetCamera(b) => PacketState::PLAY,
        PacketModel::SetCenterChunk(b) => PacketState::PLAY,
        PacketModel::SetRenderDistance(b) => PacketState::PLAY,
        PacketModel::SetDefaultSpawnPosition(b) => PacketState::PLAY,
        PacketModel::DisplayObjective(b) => PacketState::PLAY,
        PacketModel::LinkEntries(b) => PacketState::PLAY,
        PacketModel::SetExperience(b) => PacketState::PLAY,
        PacketModel::SetHealth(b) => PacketState::PLAY,
        PacketModel::SetHeldItem(b) => PacketState::PLAY,
        PacketModel::SetPassengers(b) => PacketState::PLAY,
        PacketModel::SetSimulationDistance(b) => PacketState::PLAY,
        PacketModel::UpdateTime(b) => PacketState::PLAY,
        PacketModel::SetTitleAnimationTimes(b) => PacketState::PLAY,
        PacketModel::StartConfiguration(b) => PacketState::PLAY,
        PacketModel::StopSound(b) => PacketState::PLAY,
        PacketModel::StoreCookie(b) => PacketState::PLAY,
        PacketModel::PickupItem(b) => PacketState::PLAY,
        PacketModel::SetTickingState(b) => PacketState::PLAY,
        PacketModel::StepTick(b) => PacketState::PLAY,
        PacketModel::Transfer(b) => PacketState::PLAY,
        PacketModel::EntityEffect(b) => PacketState::PLAY,
        PacketModel::ProjectilePower(b) => PacketState::PLAY,
        PacketModel::CustomReportDetails(b) => PacketState::PLAY,
        PacketModel::ClearDialog(b) => PacketState::PLAY,
        PacketModel::ConfirmTeleport(b) => PacketState::PLAY,
        PacketModel::QueryBlockEntityTag(b) => PacketState::PLAY,
        PacketModel::BundleItemSelected(b) => PacketState::PLAY,
        PacketModel::ChangeGameMode(b) => PacketState::PLAY,
        PacketModel::AcknowledgeMessage(b) => PacketState::PLAY,
        PacketModel::ChatCommand(b) => PacketState::PLAY,
        PacketModel::ChunkBatchReceived(b) => PacketState::PLAY,
        PacketModel::ClientCommand(b) => PacketState::PLAY,
        PacketModel::ClientTickEnd(b) => PacketState::PLAY,
        PacketModel::ClientInformationPlay(b) => PacketState::PLAY,
        PacketModel::CommandSuggestionsRequest(b) => PacketState::PLAY,
        PacketModel::AcknowledgeConfiguration(b) => PacketState::PLAY,
        PacketModel::ClickContainerButton(b) => PacketState::PLAY,
        PacketModel::CloseContainerServer(b) => PacketState::PLAY,
        PacketModel::ChangeContainerSlotState(b) => PacketState::PLAY,
        PacketModel::CookieResponsePlay(b) => PacketState::PLAY,
        PacketModel::ServerboundPluginMessagePlay(b) => PacketState::PLAY,
        PacketModel::DebugSubscriptionRequest(b) => PacketState::PLAY,
        PacketModel::EditBook(b) => PacketState::PLAY,
        PacketModel::QueryEntityTag(b) => PacketState::PLAY,
        PacketModel::JigsawGenerate(b) => PacketState::PLAY,
        PacketModel::ServerboundKeepAlive(b) => PacketState::PLAY,
        PacketModel::LockDifficulty(b) => PacketState::PLAY,
        PacketModel::SetPlayerPosition(b) => PacketState::PLAY,
        PacketModel::SetPlayerPositionRotation(b) => PacketState::PLAY,
        PacketModel::SetPlayerRotation(b) => PacketState::PLAY,
        PacketModel::SetPlayerMovementFlags(b) => PacketState::PLAY,
        PacketModel::MoveVehicleServer(b) => PacketState::PLAY,
        PacketModel::PaddleBoat(b) => PacketState::PLAY,
        PacketModel::PickItemFromBlock(b) => PacketState::PLAY,
        PacketModel::PickItemFromEntity(b) => PacketState::PLAY,
        PacketModel::PingRequestPlay(b) => PacketState::PLAY,
        PacketModel::PlaceRecipe(b) => PacketState::PLAY,
        PacketModel::PlayerAbilitiesServer(b) => PacketState::PLAY,
        PacketModel::PlayerAction(b) => PacketState::PLAY,
        PacketModel::PlayerCommand(b) => PacketState::PLAY,
        PacketModel::PlayerInput(b) => PacketState::PLAY,
        PacketModel::PlayerLoaded(b) => PacketState::PLAY,
        PacketModel::PongPlay(b) => PacketState::PLAY,
        PacketModel::ChangeRecipeBookSettings(b) => PacketState::PLAY,
        PacketModel::SetSeenRecipe(b) => PacketState::PLAY,
        PacketModel::RenameItem(b) => PacketState::PLAY,
        PacketModel::SelectTrade(b) => PacketState::PLAY,
        PacketModel::SetBeaconEffect(b) => PacketState::PLAY,
        PacketModel::SetHeldItemServer(b) => PacketState::PLAY,
        PacketModel::ProgramCommandBlockMinecart(b) => PacketState::PLAY,
        PacketModel::ProgramJigsawBlock(b) => PacketState::PLAY,
        PacketModel::SetTestBlock(b) => PacketState::PLAY,
        PacketModel::UpdateSign(b) => PacketState::PLAY,
        PacketModel::SwingArm(b) => PacketState::PLAY,
        PacketModel::CustomClickAction(b) => PacketState::PLAY,
    }
}

/// The direction a packet travels: to the client or to the server.
pub open spec fn spec_packet_direction(v: PacketModel) -> PacketDirection {
    match v {
        PacketModel::Handshaking(b) => PacketDirection::SERVER,
        PacketModel::PingResponse(b) => PacketDirection::CLIENT,
        PacketModel::StatusRequest(b) => PacketDirection::SERVER,
        PacketModel::PingRequest(b) => PacketDirection::SERVER,
        PacketModel::SetCompression(b) => PacketDirection::CLIENT,
        PacketModel::LoginPluginRequest(b) => PacketDirection::CLIENT,
        PacketModel::LoginCookieRequest(b) => PacketDirection::CLIENT,
        PacketModel::LoginPluginResponse(b) => PacketDirection::SERVER,
        PacketModel::LoginAcknowledged(b) => PacketDirection::SERVER,
        PacketModel::LoginCookieResponse(b) => PacketDirection::SERVER,
        PacketModel::ConfigCookieRequest(b) => PacketDirection::CLIENT,
        PacketModel::ClientboundPluginMessage(b) => PacketDirection::CLIENT,
        PacketModel::FinishConfiguration(b) => PacketDirection::CLIENT,
        PacketModel::KeepAlive(b) => PacketDirection::CLIENT,
        PacketModel::ConfigurationPing(b) => PacketDirection::CLIENT,
        PacketModel::ResetChat(b) => PacketDirection::CLIENT,
        PacketModel::RegistryData(b) => PacketDirection::CLIENT,
        PacketModel::ConfigStoreCookie(b) => PacketDirection::CLIENT,
        PacketModel::ConfigTransfer(b) => PacketDirection::CLIENT,
        PacketModel::ClientboundKnownPacks(b) => PacketDirection::CLIENT,
        PacketModel::ConfigCustomReportDetails(b) => PacketDirection::CLIENT,
        PacketModel::ClientInformation(b) => PacketDirection::SERVER,
        PacketModel::CookieResponse(b) => PacketDirection::SERVER,
        PacketModel::ServerboundPluginMessage(b) => PacketDirection::SERVER,
        PacketModel::AcknowledgeFinishConfiguration(b) => PacketDirection::SERVER,
        PacketModel::ServerboundKeepAliveConfig(b) => PacketDirection::SERVER,
        PacketModel::ConfigPong(b) => PacketDirection::SERVER,
        PacketModel::ServerboundKnownPacks(b) => PacketDirection::SERVER,
        PacketModel::ConfigCustomClickAction(b) => PacketDirection::SERVER,
        PacketModel::BundleDelimiter(b) => PacketDirection::CLIENT,
        PacketModel::EntityAnimation(b) => PacketDirection::CLIENT,
        PacketModel::AwardStatistics(b) => PacketDirection::CLIENT,
        PacketModel::AcknowledgeBlockChange(b) => PacketDirection::CLIENT,
        PacketModel::SetBlockDestroyStage(b) => PacketDirection::CLIENT,
        PacketModel::BlockAction(b) => PacketDirection::CLIENT,
        PacketModel::BlockUpdate(b) => PacketDirection::CLIENT,
        PacketModel::ChunkBatchFinished(b) => PacketDirection::CLIENT,
        PacketModel::ChunkBatchStart(b) => PacketDirection::CLIENT,
        PacketModel::ChunkBiomes(b) => PacketDirection::CLIENT,
        PacketModel::ClearTitles(b) => PacketDirection::CLIENT,
        PacketModel::CloseContainer(b) => PacketDirection::CLIENT,
        PacketModel::SetContainerProperty(b) => PacketDirection::CLIENT,
        PacketModel::CookieRequestPlay(b) => PacketDirection::CLIENT,
        PacketModel::SetCooldown(b) => PacketDirection::CLIENT,
        PacketModel::ChatSuggestions(b) => PacketDirection::CLIENT,
        PacketModel::ClientboundPluginMessagePlay(b) => PacketDirection::CLIENT,
        PacketModel::DebugSample(b) => PacketDirection::CLIENT,
        PacketModel::EntityEvent(b) => PacketDirection::CLIENT,
        PacketModel::TeleportEntity(b) => PacketDirection::CLIENT,
        PacketModel::UnloadChunk(b) => PacketDirection::CLIENT,
        PacketModel::GameEvent(b) => PacketDirection::CLIENT,
        PacketModel::GameTestHighlightPosition(b) => PacketDirection::CLIENT,
        PacketModel::OpenHorseScreen(b) => PacketDirection::CLIENT,
        PacketModel::HurtAnimation(b) => PacketDirection::CLIENT,
        PacketModel::ClientboundKeepAlive(b) => PacketDirection::CLIENT,
        PacketModel::ChunkDataUpdateLight(b) => PacketDirection::CLIENT,
        PacketModel::UpdateLight(b) => PacketDirection::CLIENT,
        PacketModel::UpdateEntityPosition(b) => PacketDirection::CLIENT,
        PacketModel::MoveVehicle(b) => PacketDirection::CLIENT,
        PacketModel::OpenBook(b) => PacketDirection::CLIENT,
        PacketModel::OpenSignEditor(b) => PacketDirection::CLIENT,
        PacketModel::PingPlay(b) => PacketDirection::CLIENT,
        PacketModel::PingResponsePlay(b) => PacketDirection::CLIENT,
        PacketModel::PlayerAbilities(b) => PacketDirection::CLIENT,
        PacketModel::EndCombat(b) => PacketDirection::CLIENT,
        PacketModel::EnterCombat(b) => PacketDirection::CLIENT,
        PacketModel::PlayerRotation(b) => PacketDirection::CLIENT,
        PacketModel::RecipeBookRemove(b) => PacketDirection::CLIENT,
        PacketModel::RecipeBookSettings(b) => PacketDirection::CLIENT,
        PacketModel::RemoveEntities(b) => PacketDirection::CLIENT,
        PacketModel::RemoveEntityEffect(b) => PacketDirection::CLIENT,
        PacketModel::ResetScore(b) => PacketDirection::CLIENT,
        PacketModel::SelectAdvancementsTab(b) => PacketDirection::CLIENT,
        PacketModel::SetBorderCenter(b) => PacketDirection::CLIENT,
        PacketModel::SetBorderSize(b) => PacketDirection::CLIENT,
        PacketModel::SetBorderWarningDelay(b) => PacketDirection::CLIENT,
        PacketModel::SetBorderWarningDistance(b) => PacketDirection::CLIENT,
        PacketModel::SetCamera(b) => PacketDirection::CLIENT,
        PacketModel::SetCenterChunk(b) => PacketDirection::CLIENT,
        PacketModel::SetRenderDistance(b) => PacketDirection::CLIENT,
        PacketModel::SetDefaultSpawnPosition(b) => PacketDirection::CLIENT,
        PacketModel::DisplayObjective(b) => PacketDirection::CLIENT,
        PacketModel::LinkEntries(b) => PacketDirection::CLIENT,
        PacketModel::SetExperience(b) => PacketDirection::CLIENT,
        PacketModel::SetHealth(b) => PacketDirection::CLIENT,
        PacketModel::SetHeldItem(b) => PacketDirection::CLIENT,
        PacketModel::SetPassengers(b) => PacketDirection::CLIENT,
        PacketModel::SetSimulationDistance(b) => PacketDirection::CLIENT,
        PacketModel::UpdateTime(b) => PacketDirection::CLIENT,
        PacketModel::SetTitleAnimationTimes(b) => PacketDirection::CLIENT,
        PacketModel::StartConfiguration(b) => PacketDirection::CLIENT,
        PacketModel::StopSound(b) => PacketDirection::CLIENT,
        PacketModel::StoreCookie(b) => PacketDirection::CLIENT,
        PacketModel::PickupItem(b) => PacketDirection::CLIENT,
        PacketModel::SetTickingState(b) => PacketDirection::CLIENT,
        PacketModel::StepTick(b) => PacketDirection::CLIENT,
        PacketModel::Transfer(b) => PacketDirection::CLIENT,
        PacketModel::EntityEffect(b) => PacketDirection::CLIENT,
        PacketModel::ProjectilePower(b) => PacketDirection::CLIENT,
        PacketModel::CustomReportDetails(b) => PacketDirection::CLIENT,
        PacketModel::ClearDialog(b) => PacketDirection::CLIENT,
        PacketModel::ConfirmTeleport(b) => PacketDirection::SERVER,
        PacketModel::QueryBlockEntityTag(b) => PacketDirection::SERVER,
        PacketModel::BundleItemSelected(b) => PacketDirection::SERVER,
        PacketModel::ChangeGameMode(b) => PacketDirection::SERVER,
        PacketModel::AcknowledgeMessage(b) => PacketDirection::SERVER,
        PacketModel::ChatCommand(b) => PacketDirection::SERVER,
        PacketModel::ChunkBatchReceived(b) => PacketDirection::SERVER,
        PacketModel::ClientCommand(b) => PacketDirection::SERVER,
        PacketModel::ClientTickEnd(b) => PacketDirection::SERVER,
        PacketModel::ClientInformationPlay(b) => PacketDirection::SERVER,
        PacketModel::CommandSuggestionsRequest(b) => PacketDirection::SERVER,
        PacketModel::AcknowledgeConfiguration(b) => PacketDirection::SERVER,
        PacketModel::ClickContainerButton(b) => PacketDirection::SERVER,
        PacketModel::CloseContainerServer(b) => PacketDirection::SERVER,
        PacketModel::ChangeContainerSlotState(b) => PacketDirection::SERVER,
        PacketModel::CookieResponsePlay(b) => PacketDirection::SERVER,
        PacketModel::ServerboundPluginMessagePlay(b) => PacketDirection::SERVER,
        PacketModel::DebugSubscriptionRequest(b) => PacketDirection::SERVER,
        PacketModel::EditBook(b) => PacketDirection::SERVER,
        PacketModel::QueryEntityTag(b) => PacketDirection::SERVER,
        PacketModel::JigsawGenerate(b) => PacketDirection::SERVER,
        PacketModel::ServerboundKeepAlive(b) => PacketDirection::SERVER,
        PacketModel::LockDifficulty(b) => PacketDirection::SERVER,
        PacketModel::SetPlayerPosition(b) => PacketDirection::SERVER,
        PacketModel::SetPlayerPositionRotation(b) => PacketDirection::SERVER,
        PacketModel::SetPlayerRotation(b) => PacketDirection::SERVER,
        PacketModel::SetPlayerMovementFlags(b) => PacketDirection::SERVER,
        PacketModel::MoveVehicleServer(b) => PacketDirection::SERVER,
        PacketModel::PaddleBoat(b) => PacketDirection::SERVER,
        PacketModel::PickItemFromBlock(b) => PacketDirection::SERVER,
        PacketModel::PickItemFromEntity(b) => PacketDirection::SERVER,
        PacketModel::PingRequestPlay(b) => PacketDirection::SERVER,
        PacketModel::PlaceRecipe(b) => PacketDirection::SERVER,
        PacketModel::PlayerAbilitiesServer(b) => PacketDirection::SERVER,
        PacketModel::PlayerAction(b) => PacketDirection::SERVER,
        PacketModel::PlayerCommand(b) => PacketDirection::SERVER,
        PacketModel::PlayerInput(b) => PacketDirection::SERVER,
        PacketModel::PlayerLoaded(b) => PacketDirection::SERVER,
        PacketModel::PongPlay(b) => PacketDirection::SERVER,
        PacketModel::ChangeRecipeBookSettings(b) => PacketDirection::SERVER,
        PacketModel::SetSeenRecipe(b) => PacketDirection::SERVER,
        PacketModel::RenameItem(b) => PacketDirection::SERVER,
        PacketModel::SelectTrade(b) => PacketDirection::SERVER,
        PacketModel::SetBeaconEffect(b) => PacketDirection::SERVER,
        PacketModel::SetHeldItemServer(b) => PacketDirection::SERVER,
        PacketModel::ProgramCommandBlockMinecart(b) => PacketDirection::SERVER,
        PacketModel::ProgramJigsawBlock(b) => PacketDirection::SERVER,
        PacketModel::SetTestBlock(b) => PacketDirection::SERVER,
        PacketModel::UpdateSign(b) => PacketDirection::SERVER,
        PacketModel::SwingArm(b) => PacketDirection::SERVER,
        PacketModel::CustomClickAction(b) => PacketDirection::SERVER,
    }
}

/// The bytes of a packet's body.
pub open spec fn spec_packet_body_bytes(v: PacketModel) -> Seq<u8> {
    match v {
        PacketModel::Handshaking(b) => HandshakingPacket::spec_serialize(b),
        PacketModel::PingResponse(b) => PingResponsePacket::spec_serialize(b),
        PacketModel::StatusRequest(b) => StatusRequestPacket::spec_serialize(b),
        PacketModel::PingRequest(b) => PingRequestPacket::spec_serialize(b),
        PacketModel::SetCompression(b) => SetCompressionPacket::spec_serialize(b),
        PacketModel::LoginPluginRequest(b) => LoginPluginRequestPacket::spec_serialize(b),
        PacketModel::LoginCookieRequest(b) => LoginCookieRequestPacket::spec_serialize(b),
        PacketModel::LoginPluginResponse(b) => LoginPluginResponsePacket::spec_serialize(b),
        PacketModel::LoginAcknowledged(b) => LoginAcknowledgedPacket::spec_serialize(b),
        PacketModel::LoginCookieResponse(b) => LoginCookieResponsePacket::spec_serialize(b),
        PacketModel::ConfigCookieRequest(b) => ConfigCookieRequestPacket::spec_serialize(b),
        PacketModel::ClientboundPluginMessage(b) => ClientboundPluginMessagePacket::spec_serialize(b),
        PacketModel::FinishConfiguration(b) => FinishConfigurationPacket::spec_serialize(b),
        PacketModel::KeepAlive(b) => KeepAlivePacket::spec_serialize(b),
        PacketModel::ConfigurationPing(b) => ConfigurationPingPacket::spec_serialize(b),
        PacketModel::ResetChat(b) => ResetChatPacket::spec_serialize(b),
        PacketModel::RegistryData(b) => RegistryDataPacket::spec_serialize(b),
        PacketModel::ConfigStoreCookie(b) => ConfigStoreCookiePacket::spec_serialize(b),
        PacketModel::ConfigTransfer(b) => ConfigTransferPacket::spec_serialize(b),
        PacketModel::ClientboundKnownPacks(b) => ClientboundKnownPacksPacket::spec_serialize(b),
        PacketModel::ConfigCustomReportDetails(b) => ConfigCustomReportDetailsPacket::spec_serialize(b),
        PacketModel::ClientInformation(b) => ClientInformationPacket::spec_serialize(b),
        PacketModel::CookieResponse(b) => CookieResponsePacket::spec_serialize(b),
        PacketModel::ServerboundPluginMessage(b) => ServerboundPluginMessagePacket::spec_serialize(b),
        PacketModel::AcknowledgeFinishConfiguration(b) => AcknowledgeFinishConfigurationPacket::spec_serialize(b),
        PacketModel::ServerboundKeepAliveConfig(b) => ServerboundKeepAliveConfigPacket::spec_serialize(b),
        PacketModel::ConfigPong(b) => ConfigPongPacket::spec_serialize(b),
        PacketModel::ServerboundKnownPacks(b) => ServerboundKnownPacksPacket::spec_serialize(b),
        PacketModel::ConfigCustomClickAction(b) => ConfigCustomClickActionPacket::spec_serialize(b),
        PacketModel::BundleDelimiter(b) => BundleDelimiterPacket::spec_serialize(b),
        PacketModel::EntityAnimation(b) => EntityAnimationPacket::spec_serialize(b),
        PacketModel::AwardStatistics(b) => AwardStatisticsPacket::spec_serialize(b),
        PacketModel::AcknowledgeBlockChange(b) => AcknowledgeBlockChangePacket::spec_serialize(b),
        PacketModel::SetBlockDestroyStage(b) => SetBlockDestroyStagePacket::spec_serialize(b),
        PacketModel::BlockAction(b) => BlockActionPacket::spec_serialize(b),
        PacketModel::BlockUpdate(b) => BlockUpdatePacket::spec_serialize(b),
        PacketModel::ChunkBatchFinished(b) => ChunkBatchFinishedPacket::spec_serialize(b),
        PacketModel::ChunkBatchStart(b) => ChunkBatchStartPacket::spec_serialize(b),
        PacketModel::ChunkBiomes(b) => ChunkBiomesPacket::spec_serialize(b),
        PacketModel::ClearTitles(b) => ClearTitlesPacket::spec_serialize(b),
        PacketModel::CloseContainer(b) => CloseContainerPacket::spec_serialize(b),
        PacketModel::SetContainerProperty(b) => SetContainerPropertyPacket::spec_serialize(b),
        PacketModel::CookieRequestPlay(b) => CookieRequestPlayPacket::spec_serialize(b),
        PacketModel::SetCooldown(b) => SetCooldownPacket::spec_serialize(b),
        PacketModel::ChatSuggestions(b) => ChatSuggestionsPacket::spec_serialize(b),
        PacketModel::ClientboundPluginMessagePlay(b) => ClientboundPluginMessagePlayPacket::spec_serialize(b),
        PacketModel::DebugSample(b) => DebugSamplePacket::spec_serialize(b),
        PacketModel::EntityEvent(b) => EntityEventPacket::spec_serialize(b),
        PacketModel::TeleportEntity(b) => TeleportEntityPacket::spec_serialize(b),
        PacketModel::UnloadChunk(b) => UnloadChunkPacket::spec_serialize(b),
        PacketModel::GameEvent(b) => GameEventPacket::spec_serialize(b),
        PacketModel::GameTestHighlightPosition(b) => GameTestHighlightPositionPacket::spec_serialize(b),
        PacketModel::OpenHorseScreen(b) => OpenHorseScreenPacket::spec_serialize(b),
        PacketModel::HurtAnimation(b) => HurtAnimationPacket::spec_serialize(b),
        PacketModel::ClientboundKeepAlive(b) => ClientboundKeepAlivePacket::spec_serialize(b),
        PacketModel::ChunkDataUpdateLight(b) => ChunkDataUpdateLightPacket::spec_serialize(b),
        PacketModel::UpdateLight(b) => UpdateLightPacket::spec_serialize(b),
        PacketModel::UpdateEntityPosition(b) => UpdateEntityPositionPacket::spec_serialize(b),
        PacketModel::MoveVehicle(b) => MoveVehiclePacket::spec_serialize(b),
        PacketModel::OpenBook(b) => OpenBookPacket::spec_serialize(b),
        PacketModel::OpenSignEditor(b) => OpenSignEditorPacket::spec_serialize(b),
        PacketModel::PingPlay(b) => PingPlayPacket::spec_serialize(b),
        PacketModel::PingResponsePlay(b) => PingResponsePlayPacket::spec_serialize(b),
        PacketModel::PlayerAbilities(b) => PlayerAbilitiesPacket::spec_serialize(b),
        PacketModel::EndCombat(b) => EndCombatPacket::spec_serialize(b),
        PacketModel::EnterCombat(b) => EnterCombatPacket::spec_serialize(b),
        PacketModel::PlayerRotation(b) => PlayerRotationPacket::spec_serialize(b),
        PacketModel::RecipeBookRemove(b) => RecipeBookRemovePacket::spec_serialize(b),
        PacketModel::RecipeBookSettings(b) => RecipeBookSettingsPacket::spec_serialize(b),
        PacketModel::RemoveEntities(b) => RemoveEntitiesPacket::spec_serialize(b),
        PacketModel::RemoveEntityEffect(b) => RemoveEntityEffectPacket::spec_serialize(b),
        PacketModel::ResetScore(b) => ResetScorePacket::spec_serialize(b),
        PacketModel::SelectAdvancementsTab(b) => SelectAdvancementsTabPacket::spec_serialize(b),
        PacketModel::SetBorderCenter(b) => SetBorderCenterPacket::spec_serialize(b),
        PacketModel::SetBorderSize(b) => SetBorderSizePacket::spec_serialize(b),
        PacketModel::SetBorderWarningDelay(b) => SetBorderWarningDelayPacket::spec_serialize(b),
        PacketModel::SetBorderWarningDistance(b) => SetBorderWarningDistancePacket::spec_serialize(b),
        PacketModel::SetCamera(b) => SetCameraPacket::spec_serialize(b),
        PacketModel::SetCenterChunk(b) => SetCenterChunkPacket::spec_serialize(b),
        PacketModel::SetRenderDistance(b) => SetRenderDistancePacket::spec_serialize(b),
        PacketModel::SetDefaultSpawnPosition(b) => SetDefaultSpawnPositionPacket::spec_serialize(b),
        PacketModel::DisplayObjective(b) => DisplayObjectivePacket::spec_serialize(b),
        PacketModel::LinkEntries(b) => LinkEntriesPacket::spec_serialize(b),
        PacketModel::SetExperience(b) => SetExperiencePacket::spec_serialize(b),
        PacketModel::SetHealth(b) => SetHealthPacket::spec_serialize(b),
        PacketModel::SetHeldItem(b) => SetHeldItemPacket::spec_serialize(b),
        PacketModel::SetPassengers(b) => SetPassengersPacket::spec_serialize(b),
        PacketModel::SetSimulationDistance(b) => SetSimulationDistancePacket::spec_serialize(b),
        PacketModel::UpdateTime(b) => UpdateTimePacket::spec_serialize(b),
        PacketModel::SetTitleAnimationTimes(b) => SetTitleAnimationTimesPacket::spec_serialize(b),
        PacketModel::StartConfiguration(b) => StartConfigurationPacket::spec_serialize(b),
        PacketModel::StopSound(b) => StopSoundPacket::spec_serialize(b),
        PacketModel::StoreCookie(b) => StoreCookiePacket::spec_serialize(b),
        PacketModel::PickupItem(b) => PickupItemPacket::spec_serialize(b),
        PacketModel::SetTickingState(b) => SetTickingStatePacket::spec_serialize(b),
        PacketModel::StepTick(b) => StepTickPacket::spec_serialize(b),
        PacketModel::Transfer(b) => TransferPacket::spec_serialize(b),
        PacketModel::EntityEffect(b) => EntityEffectPacket::spec_serialize(b),
        PacketModel::ProjectilePower(b) => ProjectilePowerPacket::spec_serialize(b),
        PacketModel::CustomReportDetails(b) => CustomReportDetailsPacket::spec_serialize(b),
        PacketModel::ClearDialog(b) => ClearDialogPacket::spec_serialize(b),
        PacketModel::ConfirmTeleport(b) => ConfirmTeleportPacket::spec_serialize(b),
        PacketModel::QueryBlockEntityTag(b) => QueryBlockEntityTagPacket::spec_serialize(b),
        PacketModel::BundleItemSelected(b) => BundleItemSelectedPacket::spec_serialize(b),
        PacketModel::ChangeGameMode(b) => ChangeGameModePacket::spec_serialize(b),
        PacketModel::AcknowledgeMessage(b) => AcknowledgeMessagePacket::spec_serialize(b),
        PacketModel::ChatCommand(b) => ChatCommandPacket::spec_serialize(b),
        PacketModel::ChunkBatchReceived(b) => ChunkBatchReceivedPacket::spec_serialize(b),
        PacketModel::ClientCommand(b) => ClientCommandPacket::spec_serialize(b),
        PacketModel::ClientTickEnd(b) => ClientTickEndPacket::spec_serialize(b),
        PacketModel::ClientInformationPlay(b) => ClientInformationPlayPacket::spec_serialize(b),
        PacketModel::CommandSuggestionsRequest(b) => CommandSuggestionsRequestPacket::spec_serialize(b),
        PacketModel::AcknowledgeConfiguration(b) => AcknowledgeConfigurationPacket::spec_serialize(b),
        PacketModel::ClickContainerButton(b) => ClickContainerButtonPacket::spec_serialize(b),
        PacketModel::CloseContainerServer(b) => CloseContainerServerPacket::spec_serialize(b),
        PacketModel::ChangeContainerSlotState(b) => ChangeContainerSlotStatePacket::spec_serialize(b),
        PacketModel::CookieResponsePlay(b) => CookieResponsePlayPacket::spec_serialize(b),
        PacketModel::ServerboundPluginMessagePlay(b) => ServerboundPluginMessagePlayPacket::spec_serialize(b),
        PacketModel::DebugSubscriptionRequest(b) => DebugSubscriptionRequestPacket::spec_serialize(b),
        PacketModel::EditBook(b) => EditBookPacket::spec_serialize(b),
        PacketModel::QueryEntityTag(b) => QueryEntityTagPacket::spec_serialize(b),
        PacketModel::JigsawGenerate(b) => JigsawGeneratePacket::spec_serialize(b),
        PacketModel::ServerboundKeepAlive(b) => ServerboundKeepAlivePacket::spec_serialize(b),
        PacketModel::LockDifficulty(b) => LockDifficultyPacket::spec_serialize(b),
        PacketModel::SetPlayerPosition(b) => SetPlayerPositionPacket::spec_serialize(b),
        PacketModel::SetPlayerPositionRotation(b) => SetPlayerPositionRotationPacket::spec_serialize(b),
        PacketModel::SetPlayerRotation(b) => SetPlayerRotationPacket::spec_serialize(b),
        PacketModel::SetPlayerMovementFlags(b) => SetPlayerMovementFlagsPacket::spec_serialize(b),
        PacketModel::MoveVehicleServer(b) => MoveVehicleServerPacket::spec_serialize(b),
        PacketModel::PaddleBoat(b) => PaddleBoatPacket::spec_serialize(b),
        PacketModel::PickItemFromBlock(b) => PickItemFromBlockPacket::spec_serialize(b),
        PacketModel::PickItemFromEntity(b) => PickItemFromEntityPacket::spec_serialize(b),
        PacketModel::PingRequestPlay(b) => PingRequestPlayPacket::spec_serialize(b),
        PacketModel::PlaceRecipe(b) => PlaceRecipePacket::spec_serialize(b),
        PacketModel::PlayerAbilitiesServer(b) => PlayerAbilitiesServerPacket::spec_serialize(b),
        PacketModel::PlayerAction(b) => PlayerActionPacket::spec_serialize(b),
        PacketModel::PlayerCommand(b) => PlayerCommandPacket::spec_serialize(b),
        PacketModel::PlayerInput(b) => PlayerInputPacket::spec_serialize(b),
        PacketModel::PlayerLoaded(b) => PlayerLoadedPacket::spec_serialize(b),
        PacketModel::PongPlay(b) => PongPlayPacket::spec_serialize(b),
        PacketModel::ChangeRecipeBookSettings(b) => ChangeRecipeBookSettingsPacket::spec_serialize(b),
        PacketModel::SetSeenRecipe(b) => SetSeenRecipePacket::spec_serialize(b),
        PacketModel::RenameItem(b) => RenameItemPacket::spec_serialize(b),
        PacketModel::SelectTrade(b) => SelectTradePacket::spec_serialize(b),
        PacketModel::SetBeaconEffect(b) => SetBeaconEffectPacket::spec_serialize(b),
        PacketModel::SetHeldItemServer(b) => SetHeldItemServerPacket::spec_serialize(b),
        PacketModel::ProgramCommandBlockMinecart(b) => ProgramCommandBlockMinecartPacket::spec_serialize(b),
        PacketModel::ProgramJigsawBlock(b) => ProgramJigsawBlockPacket::spec_serialize(b),
        PacketModel::SetTestBlock(b) => SetTestBlockPacket::spec_serialize(b),
        PacketModel::UpdateSign(b) => UpdateSignPacket::spec_serialize(b),
        PacketModel::SwingArm(b) => SwingArmPacket::spec_serialize(b),
        PacketModel::CustomClickAction(b) => CustomClickActionPacket::spec_serialize(b),
    }
}

/// Whether a packet's body can be written.
pub open spec fn spec_packet_body_can_serialize(v: PacketModel) -> bool {
    match v {
        PacketModel::Handshaking(b) => HandshakingPacket::spec_can_serialize(b),
        PacketModel::PingResponse(b) => PingResponsePacket::spec_can_serialize(b),
        PacketModel::StatusRequest(b) => StatusRequestPacket::spec_can_serialize(b),
        PacketModel::PingRequest(b) => PingRequestPacket::spec_can_serialize(b),
        PacketModel::SetCompression(b) => SetCompressionPacket::spec_can_serialize(b),
        PacketModel::LoginPluginRequest(b) => LoginPluginRequestPacket::spec_can_serialize(b),
        PacketModel::LoginCookieRequest(b) => LoginCookieRequestPacket::spec_can_serialize(b),
        PacketModel::LoginPluginResponse(b) => LoginPluginResponsePacket::spec_can_serialize(b),
        PacketModel::LoginAcknowledged(b) => LoginAcknowledgedPacket::spec_can_serialize(b),
        PacketModel::LoginCookieResponse(b) => LoginCookieResponsePacket::spec_can_serialize(b),
        PacketModel::ConfigCookieRequest(b) => ConfigCookieRequestPacket::spec_can_serialize(b),
        PacketModel::ClientboundPluginMessage(b) => ClientboundPluginMessagePacket::spec_can_serialize(b),
        PacketModel::FinishConfiguration(b) => FinishConfigurationPacket::spec_can_serialize(b),
        PacketModel::KeepAlive(b) => KeepAlivePacket::spec_can_serialize(b),
        PacketModel::ConfigurationPing(b) => ConfigurationPingPacket::spec_can_serialize(b),
        PacketModel::ResetChat(b) => ResetChatPacket::spec_can_serialize(b),
        PacketModel::RegistryData(b) => RegistryDataPacket::spec_can_serialize(b),
        PacketModel::ConfigStoreCookie(b) => ConfigStoreCookiePacket::spec_can_serialize(b),
        PacketModel::ConfigTransfer(b) => ConfigTransferPacket::spec_can_serialize(b),
        PacketModel::ClientboundKnownPacks(b) => ClientboundKnownPacksPacket::spec_can_serialize(b),
        PacketModel::ConfigCustomReportDetails(b) => ConfigCustomReportDetailsPacket::spec_can_serialize(b),
        PacketModel::ClientInformation(b) => ClientInformationPacket::spec_can_serialize(b),
        PacketModel::CookieResponse(b) => CookieResponsePacket::spec_can_serialize(b),
        PacketModel::ServerboundPluginMessage(b) => ServerboundPluginMessagePacket::spec_can_serialize(b),
        PacketModel::AcknowledgeFinishConfiguration(b) => AcknowledgeFinishConfigurationPacket::spec_can_serialize(b),
        PacketModel::ServerboundKeepAliveConfig(b) => ServerboundKeepAliveConfigPacket::spec_can_serialize(b),
        PacketModel::ConfigPong(b) => ConfigPongPacket::spec_can_serialize(b),
        PacketModel::ServerboundKnownPacks(b) => ServerboundKnownPacksPacket::spec_can_serialize(b),
        PacketModel::ConfigCustomClickAction(b) => ConfigCustomClickActionPacket::spec_can_serialize(b),
        PacketModel::BundleDelimiter(b) => BundleDelimiterPacket::spec_can_serialize(b),
        PacketModel::EntityAnimation(b) => EntityAnimationPacket::spec_can_serialize(b),
        PacketModel::AwardStatistics(b) => AwardStatisticsPacket::spec_can_serialize(b),
        PacketModel::AcknowledgeBlockChange(b) => AcknowledgeBlockChangePacket::spec_can_serialize(b),
        PacketModel::SetBlockDestroyStage(b) => SetBlockDestroyStagePacket::spec_can_serialize(b),
        PacketModel::BlockAction(b) => BlockActionPacket::spec_can_serialize(b),
        PacketModel::BlockUpdate(b) => BlockUpdatePacket::spec_can_serialize(b),
        PacketModel::ChunkBatchFinished(b) => ChunkBatchFinishedPacket::spec_can_serialize(b),
        PacketModel::ChunkBatchStart(b) => ChunkBatchStartPacket::spec_can_serialize(b),
        PacketModel::ChunkBiomes(b) => ChunkBiomesPacket::spec_can_serialize(b),
        PacketModel::ClearTitles(b) => ClearTitlesPacket::spec_can_serialize(b),
        PacketModel::CloseContainer(b) => CloseContainerPacket::spec_can_serialize(b),
        PacketModel::SetContainerProperty(b) => SetContainerPropertyPacket::spec_can_serialize(b),
        PacketModel::CookieRequestPlay(b) => CookieRequestPlayPacket::spec_can_serialize(b),
        PacketModel::SetCooldown(b) => SetCooldownPacket::spec_can_serialize(b),
        PacketModel::ChatSuggestions(b) => ChatSuggestionsPacket::spec_can_serialize(b),
        PacketModel::ClientboundPluginMessagePlay(b) => ClientboundPluginMessagePlayPacket::spec_can_serialize(b),
        PacketModel::DebugSample(b) => DebugSamplePacket::spec_can_serialize(b),
        PacketModel::EntityEvent(b) => EntityEventPacket::spec_can_serialize(b),
        PacketModel::TeleportEntity(b) => TeleportEntityPacket::spec_can_serialize(b),
        PacketModel::UnloadChunk(b) => UnloadChunkPacket::spec_can_serialize(b),
        PacketModel::GameEvent(b) => GameEventPacket::spec_can_serialize(b),
        PacketModel::GameTestHighlightPosition(b) => GameTestHighlightPositionPacket::spec_can_serialize(b),
        PacketModel::OpenHorseScreen(b) => OpenHorseScreenPacket::spec_can_serialize(b),
        PacketModel::HurtAnimation(b) => HurtAnimationPacket::spec_can_serialize(b),
        PacketModel::ClientboundKeepAlive(b) => ClientboundKeepAlivePacket::spec_can_serialize(b),
        PacketModel::ChunkDataUpdateLight(b) => ChunkDataUpdateLightPacket::spec_can_serialize(b),
        PacketModel::UpdateLight(b) => UpdateLightPacket::spec_can_serialize(b),
        PacketModel::UpdateEntityPosition(b) => UpdateEntityPositionPacket::spec_can_serialize(b),
        PacketModel::MoveVehicle(b) => MoveVehiclePacket::spec_can_serialize(b),
        PacketModel::OpenBook(b) => OpenBookPacket::spec_can_serialize(b),
        PacketModel::OpenSignEditor(b) => OpenSignEditorPacket::spec_can_serialize(b),
        PacketModel::PingPlay(b) => PingPlayPacket::spec_can_serialize(b),
        PacketModel::PingResponsePlay(b) => PingResponsePlayPacket::spec_can_serialize(b),
        PacketModel::PlayerAbilities(b) => PlayerAbilitiesPacket::spec_can_serialize(b),
        PacketModel::EndCombat(b) => EndCombatPacket::spec_can_serialize(b),
        PacketModel::EnterCombat(b) => EnterCombatPacket::spec_can_serialize(b),
        PacketModel::PlayerRotation(b) => PlayerRotationPacket::spec_can_serialize(b),
        PacketModel::RecipeBookRemove(b) => RecipeBookRemovePacket::spec_can_serialize(b),
        PacketModel::RecipeBookSettings(b) => RecipeBookSettingsPacket::spec_can_serialize(b),
        PacketModel::RemoveEntities(b) => RemoveEntitiesPacket::spec_can_serialize(b),
        PacketModel::RemoveEntityEffect(b) => RemoveEntityEffectPacket::spec_can_serialize(b),
        PacketModel::ResetScore(b) => ResetScorePacket::spec_can_serialize(b),
        PacketModel::SelectAdvancementsTab(b) => SelectAdvancementsTabPacket::spec_can_serialize(b),
        PacketModel::SetBorderCenter(b) => SetBorderCenterPacket::spec_can_serialize(b),
        PacketModel::SetBorderSize(b) => SetBorderSizePacket::spec_can_serialize(b),
        PacketModel::SetBorderWarningDelay(b) => SetBorderWarningDelayPacket::spec_can_serialize(b),
        PacketModel::SetBorderWarningDistance(b) => SetBorderWarningDistancePacket::spec_can_serialize(b),
        PacketModel::SetCamera(b) => SetCameraPacket::spec_can_serialize(b),
        PacketModel::SetCenterChunk(b) => SetCenterChunkPacket::spec_can_serialize(b),
        PacketModel::SetRenderDistance(b) => SetRenderDistancePacket::spec_can_serialize(b),
        PacketModel::SetDefaultSpawnPosition(b) => SetDefaultSpawnPositionPacket::spec_can_serialize(b),
        PacketModel::DisplayObjective(b) => DisplayObjectivePacket::spec_can_serialize(b),
        PacketModel::LinkEntries(b) => LinkEntriesPacket::spec_can_serialize(b),
        PacketModel::SetExperience(b) => SetExperiencePacket::spec_can_serialize(b),
        PacketModel::SetHealth(b) => SetHealthPacket::spec_can_serialize(b),
        PacketModel::SetHeldItem(b) => SetHeldItemPacket::spec_can_serialize(b),
        PacketModel::SetPassengers(b) => SetPassengersPacket::spec_can_serialize(b),
        PacketModel::SetSimulationDistance(b) => SetSimulationDistancePacket::spec_can_serialize(b),
        PacketModel::UpdateTime(b) => UpdateTimePacket::spec_can_serialize(b),
        PacketModel::SetTitleAnimationTimes(b) => SetTitleAnimationTimesPacket::spec_can_serialize(b),
        PacketModel::StartConfiguration(b) => StartConfigurationPacket::spec_can_serialize(b),
        PacketModel::StopSound(b) => StopSoundPacket::spec_can_serialize(b),
        PacketModel::StoreCookie(b) => StoreCookiePacket::spec_can_serialize(b),
        PacketModel::PickupItem(b) => PickupItemPacket::spec_can_serialize(b),
        PacketModel::SetTickingState(b) => SetTickingStatePacket::spec_can_serialize(b),
        PacketModel::StepTick(b) => StepTickPacket::spec_can_serialize(b),
        PacketModel::Transfer(b) => TransferPacket::spec_can_serialize(b),
        PacketModel::EntityEffect(b) => EntityEffectPacket::spec_can_serialize(b),
        PacketModel::ProjectilePower(b) => ProjectilePowerPacket::spec_can_serialize(b),
        PacketModel::CustomReportDetails(b) => CustomReportDetailsPacket::spec_can_serialize(b),
        PacketModel::ClearDialog(b) => ClearDialogPacket::spec_can_serialize(b),
        PacketModel::ConfirmTeleport(b) => ConfirmTeleportPacket::spec_can_serialize(b),
        PacketModel::QueryBlockEntityTag(b) => QueryBlockEntityTagPacket::spec_can_serialize(b),
        PacketModel::BundleItemSelected(b) => BundleItemSelectedPacket::spec_can_serialize(b),
        PacketModel::ChangeGameMode(b) => ChangeGameModePacket::spec_can_serialize(b),
        PacketModel::AcknowledgeMessage(b) => AcknowledgeMessagePacket::spec_can_serialize(b),
        PacketModel::ChatCommand(b) => ChatCommandPacket::spec_can_serialize(b),
        PacketModel::ChunkBatchReceived(b) => ChunkBatchReceivedPacket::spec_can_serialize(b),
        PacketModel::ClientCommand(b) => ClientCommandPacket::spec_can_serialize(b),
        PacketModel::ClientTickEnd(b) => ClientTickEndPacket::spec_can_serialize(b),
        PacketModel::ClientInformationPlay(b) => ClientInformationPlayPacket::spec_can_serialize(b),
        PacketModel::CommandSuggestionsRequest(b) => CommandSuggestionsRequestPacket::spec_can_serialize(b),
        PacketModel::AcknowledgeConfiguration(b) => AcknowledgeConfigurationPacket::spec_can_serialize(b),
        PacketModel::ClickContainerButton(b) => ClickContainerButtonPacket::spec_can_serialize(b),
        PacketModel::CloseContainerServer(b) => CloseContainerServerPacket::spec_can_serialize(b),
        PacketModel::ChangeContainerSlotState(b) => ChangeContainerSlotStatePacket::spec_can_serialize(b),
        PacketModel::CookieResponsePlay(b) => CookieResponsePlayPacket::spec_can_serialize(b),
        PacketModel::ServerboundPluginMessagePlay(b) => ServerboundPluginMessagePlayPacket::spec_can_serialize(b),
        PacketModel::DebugSubscriptionRequest(b) => DebugSubscriptionRequestPacket::spec_can_serialize(b),
        PacketModel::EditBook(b) => EditBookPacket::spec_can_serialize(b),
        PacketModel::QueryEntityTag(b) => QueryEntityTagPacket::spec_can_serialize(b),
        PacketModel::JigsawGenerate(b) => JigsawGeneratePacket::spec_can_serialize(b),
        PacketModel::ServerboundKeepAlive(b) => ServerboundKeepAlivePacket::spec_can_serialize(b),
        PacketModel::LockDifficulty(b) => LockDifficultyPacket::spec_can_serialize(b),
        PacketModel::SetPlayerPosition(b) => SetPlayerPositionPacket::spec_can_serialize(b),
        PacketModel::SetPlayerPositionRotation(b) => SetPlayerPositionRotationPacket::spec_can_serialize(b),
        PacketModel::SetPlayerRotation(b) => SetPlayerRotationPacket::spec_can_serialize(b),
        PacketModel::SetPlayerMovementFlags(b) => SetPlayerMovementFlagsPacket::spec_can_serialize(b),
        PacketModel::MoveVehicleServer(b) => MoveVehicleServerPacket::spec_can_serialize(b),
        PacketModel::PaddleBoat(b) => PaddleBoatPacket::spec_can_serialize(b),
        PacketModel::PickItemFromBlock(b) => PickItemFromBlockPacket::spec_can_serialize(b),
        PacketModel::PickItemFromEntity(b) => PickItemFromEntityPacket::spec_can_serialize(b),
        PacketModel::PingRequestPlay(b) => PingRequestPlayPacket::spec_can_serialize(b),
        PacketModel::PlaceRecipe(b) => PlaceRecipePacket::spec_can_serialize(b),
        PacketModel::PlayerAbilitiesServer(b) => PlayerAbilitiesServerPacket::spec_can_serialize(b),
        PacketModel::PlayerAction(b) => PlayerActionPacket::spec_can_serialize(b),
        PacketModel::PlayerCommand(b) => PlayerCommandPacket::spec_can_serialize(b),
        PacketModel::PlayerInput(b) => PlayerInputPacket::spec_can_serialize(b),
        PacketModel::PlayerLoaded(b) => PlayerLoadedPacket::spec_can_serialize(b),
        PacketModel::PongPlay(b) => PongPlayPacket::spec_can_serialize(b),
        PacketModel::ChangeRecipeBookSettings(b) => ChangeRecipeBookSettingsPacket::spec_can_serialize(b),
        PacketModel::SetSeenRecipe(b) => SetSeenRecipePacket::spec_can_serialize(b),
        PacketModel::RenameItem(b) => RenameItemPacket::spec_can_serialize(b),
        PacketModel::SelectTrade(b) => SelectTradePacket::spec_can_serialize(b),
        PacketModel::SetBeaconEffect(b) => SetBeaconEffectPacket::spec_can_serialize(b),
        PacketModel::SetHeldItemServer(b) => SetHeldItemServerPacket::spec_can_serialize(b),
        PacketModel::ProgramCommandBlockMinecart(b) => ProgramCommandBlockMinecartPacket::spec_can_serialize(b),
        PacketModel::ProgramJigsawBlock(b) => ProgramJigsawBlockPacket::spec_can_serialize(b),
        PacketModel::SetTestBlock(b) => SetTestBlockPacket::spec_can_serialize(b),
        PacketModel::UpdateSign(b) => UpdateSignPacket::spec_can_serialize(b),
        PacketModel::SwingArm(b) => SwingArmPacket::spec_can_serialize(b),
        PacketModel::CustomClickAction(b) => CustomClickActionPacket::spec_can_serialize(b),
    }
}

/// Whether a packet's body keeps the invariants of its type.
pub open spec fn spec_packet_well_formed(v: PacketModel) -> bool {
    match v {
        PacketModel::Handshaking(b) => HandshakingPacket::spec_well_formed(b),
        PacketModel::PingResponse(b) => PingResponsePacket::spec_well_formed(b),
        PacketModel::StatusRequest(b) => StatusRequestPacket::spec_well_formed(b),
        PacketModel::PingRequest(b) => PingRequestPacket::spec_well_formed(b),
        PacketModel::SetCompression(b) => SetCompressionPacket::spec_well_formed(b),
        PacketModel::LoginPluginRequest(b) => true,
        PacketModel::LoginCookieRequest(b) => LoginCookieRequestPacket::spec_well_formed(b),
        PacketModel::LoginPluginResponse(b) => spec_login_plugin_wf(b),
        PacketModel::LoginAcknowledged(b) => LoginAcknowledgedPacket::spec_well_formed(b),
        PacketModel::LoginCookieResponse(b) => spec_login_cookie_wf(b),
        PacketModel::ConfigCookieRequest(b) => ConfigCookieRequestPacket::spec_well_formed(b),
        PacketModel::ClientboundPluginMessage(b) => true,
        PacketModel::FinishConfiguration(b) => FinishConfigurationPacket::spec_well_formed(b),
        PacketModel::KeepAlive(b) => KeepAlivePacket::spec_well_formed(b),
        PacketModel::ConfigurationPing(b) => ConfigurationPingPacket::spec_well_formed(b),
        PacketModel::ResetChat(b) => ResetChatPacket::spec_well_formed(b),
        PacketModel::RegistryData(b) => RegistryDataPacket::spec_well_formed(b),
        PacketModel::ConfigStoreCookie(b) => ConfigStoreCookiePacket::spec_well_formed(b),
        PacketModel::ConfigTransfer(b) => ConfigTransferPacket::spec_well_formed(b),
        PacketModel::ClientboundKnownPacks(b) => ClientboundKnownPacksPacket::spec_well_formed(b),
        PacketModel::ConfigCustomReportDetails(b) => ConfigCustomReportDetailsPacket::spec_well_formed(b),
        PacketModel::ClientInformation(b) => ClientInformationPacket::spec_well_formed(b),
        PacketModel::CookieResponse(b) => CookieResponsePacket::spec_well_formed(b),
        PacketModel::ServerboundPluginMessage(b) => true,
        PacketModel::AcknowledgeFinishConfiguration(b) => AcknowledgeFinishConfigurationPacket::spec_well_formed(b),
        PacketModel::ServerboundKeepAliveConfig(b) => ServerboundKeepAliveConfigPacket::spec_well_formed(b),
        PacketModel::ConfigPong(b) => ConfigPongPacket::spec_well_formed(b),
        PacketModel::ServerboundKnownPacks(b) => ServerboundKnownPacksPacket::spec_well_formed(b),
        PacketModel::ConfigCustomClickAction(b) => ConfigCustomClickActionPacket::spec_well_formed(b),
        PacketModel::BundleDelimiter(b) => BundleDelimiterPacket::spec_well_formed(b),
        PacketModel::EntityAnimation(b) => EntityAnimationPacket::spec_well_formed(b),
        PacketModel::AwardStatistics(b) => AwardStatisticsPacket::spec_well_formed(b),
        PacketModel::AcknowledgeBlockChange(b) => AcknowledgeBlockChangePacket::spec_well_formed(b),
        PacketModel::SetBlockDestroyStage(b) => SetBlockDestroyStagePacket::spec_well_formed(b),
        PacketModel::BlockAction(b) => BlockActionPacket::spec_well_formed(b),
        PacketModel::BlockUpdate(b) => BlockUpdatePacket::spec_well_formed(b),
        PacketModel::ChunkBatchFinished(b) => ChunkBatchFinishedPacket::spec_well_formed(b),
        PacketModel::ChunkBatchStart(b) => ChunkBatchStartPacket::spec_well_formed(b),
        PacketModel::ChunkBiomes(b) => ChunkBiomesPacket::spec_well_formed(b),
        PacketModel::ClearTitles(b) => ClearTitlesPacket::spec_well_formed(b),
        PacketModel::CloseContainer(b) => CloseContainerPacket::spec_well_formed(b),
        PacketModel::SetContainerProperty(b) => SetContainerPropertyPacket::spec_well_formed(b),
        PacketModel::CookieRequestPlay(b) => CookieRequestPlayPacket::spec_well_formed(b),
        PacketModel::SetCooldown(b) => SetCooldownPacket::spec_well_formed(b),
        PacketModel::ChatSuggestions(b) => ChatSuggestionsPacket::spec_well_formed(b),
        PacketModel::ClientboundPluginMessagePlay(b) => true,
        PacketModel::DebugSample(b) => DebugSamplePacket::spec_well_formed(b),
        PacketModel::EntityEvent(b) => EntityEventPacket::spec_well_formed(b),
        PacketModel::TeleportEntity(b) => TeleportEntityPacket::spec_well_formed(b),
        PacketModel::UnloadChunk(b) => UnloadChunkPacket::spec_well_formed(b),
        PacketModel::GameEvent(b) => GameEventPacket::spec_well_formed(b),
        PacketModel::GameTestHighlightPosition(b) => GameTestHighlightPositionPacket::spec_well_formed(b),
        PacketModel::OpenHorseScreen(b) => OpenHorseScreenPacket::spec_well_formed(b),
        PacketModel::HurtAnimation(b) => HurtAnimationPacket::spec_well_formed(b),
        PacketModel::ClientboundKeepAlive(b) => ClientboundKeepAlivePacket::spec_well_formed(b),
        PacketModel::ChunkDataUpdateLight(b) => ChunkDataUpdateLightPacket::spec_well_formed(b),
        PacketModel::UpdateLight(b) => UpdateLightPacket::spec_well_formed(b),
        PacketModel::UpdateEntityPosition(b) => UpdateEntityPositionPacket::spec_well_formed(b),
        PacketModel::MoveVehicle(b) => MoveVehiclePacket::spec_well_formed(b),
        PacketModel::OpenBook(b) => OpenBookPacket::spec_well_formed(b),
        PacketModel::OpenSignEditor(b) => OpenSignEditorPacket::spec_well_formed(b),
        PacketModel::PingPlay(b) => PingPlayPacket::spec_well_formed(b),
        PacketModel::PingResponsePlay(b) => PingResponsePlayPacket::spec_well_formed(b),
        PacketModel::PlayerAbilities(b) => PlayerAbilitiesPacket::spec_well_formed(b),
        PacketModel::EndCombat(b) => EndCombatPacket::spec_well_formed(b),
        PacketModel::EnterCombat(b) => EnterCombatPacket::spec_well_formed(b),
        PacketModel::PlayerRotation(b) => PlayerRotationPacket::spec_well_formed(b),
        PacketModel::RecipeBookRemove(b) => RecipeBookRemovePacket::spec_well_formed(b),
        PacketModel::RecipeBookSettings(b) => RecipeBookSettingsPacket::spec_well_formed(b),
        PacketModel::RemoveEntities(b) => RemoveEntitiesPacket::spec_well_formed(b),
        PacketModel::RemoveEntityEffect(b) => RemoveEntityEffectPacket::spec_well_formed(b),
        PacketModel::ResetScore(b) => ResetScorePacket::spec_well_formed(b),
        PacketModel::SelectAdvancementsTab(b) => SelectAdvancementsTabPacket::spec_well_formed(b),
        PacketModel::SetBorderCenter(b) => SetBorderCenterPacket::spec_well_formed(b),
        PacketModel::SetBorderSize(b) => SetBorderSizePacket::spec_well_formed(b),
        PacketModel::SetBorderWarningDelay(b) => SetBorderWarningDelayPacket::spec_well_formed(b),
        PacketModel::SetBorderWarningDistance(b) => SetBorderWarningDistancePacket::spec_well_formed(b),
        PacketModel::SetCamera(b) => SetCameraPacket::spec_well_formed(b),
        PacketModel::SetCenterChunk(b) => SetCenterChunkPacket::spec_well_formed(b),
        PacketModel::SetRenderDistance(b) => SetRenderDistancePacket::spec_well_formed(b),
        PacketModel::SetDefaultSpawnPosition(b) => SetDefaultSpawnPositionPacket::spec_well_formed(b),
        PacketModel::DisplayObjective(b) => DisplayObjectivePacket::spec_well_formed(b),
        PacketModel::LinkEntries(b) => LinkEntriesPacket::spec_well_formed(b),
        PacketModel::SetExperience(b) => SetExperiencePacket::spec_well_formed(b),
        PacketModel::SetHealth(b) => SetHealthPacket::spec_well_formed(b),
        PacketModel::SetHeldItem(b) => SetHeldItemPacket::spec_well_formed(b),
        PacketModel::SetPassengers(b) => SetPassengersPacket::spec_well_formed(b),
        PacketModel::SetSimulationDistance(b) => SetSimulationDistancePacket::spec_well_formed(b),
        PacketModel::UpdateTime(b) => UpdateTimePacket::spec_well_formed(b),
        PacketModel::SetTitleAnimationTimes(b) => SetTitleAnimationTimesPacket::spec_well_formed(b),
        PacketModel::StartConfiguration(b) => StartConfigurationPacket::spec_well_formed(b),
        PacketModel::StopSound(b) => StopSoundPacket::spec_well_formed(b),
        PacketModel::StoreCookie(b) => StoreCookiePacket::spec_well_formed(b),
        PacketModel::PickupItem(b) => PickupItemPacket::spec_well_formed(b),
        PacketModel::SetTickingState(b) => SetTickingStatePacket::spec_well_formed(b),
        PacketModel::StepTick(b) => StepTickPacket::spec_well_formed(b),
        PacketModel::Transfer(b) => TransferPacket::spec_well_formed(b),
        PacketModel::EntityEffect(b) => EntityEffectPacket::spec_well_formed(b),
        PacketModel::ProjectilePower(b) => ProjectilePowerPacket::spec_well_formed(b),
        PacketModel::CustomReportDetails(b) => CustomReportDetailsPacket::spec_well_formed(b),
        PacketModel::ClearDialog(b) => ClearDialogPacket::spec_well_formed(b),
        PacketModel::ConfirmTeleport(b) => ConfirmTeleportPacket::spec_well_formed(b),
        PacketModel::QueryBlockEntityTag(b) => QueryBlockEntityTagPacket::spec_well_formed(b),
        PacketModel::BundleItemSelected(b) => BundleItemSelectedPacket::spec_well_formed(b),
        PacketModel::ChangeGameMode(b) => ChangeGameModePacket::spec_well_formed(b),
        PacketModel::AcknowledgeMessage(b) => AcknowledgeMessagePacket::spec_well_formed(b),
        PacketModel::ChatCommand(b) => ChatCommandPacket::spec_well_formed(b),
        PacketModel::ChunkBatchReceived(b) => ChunkBatchReceivedPacket::spec_well_formed(b),
        PacketModel::ClientCommand(b) => ClientCommandPacket::spec_well_formed(b),
        PacketModel::ClientTickEnd(b) => ClientTickEndPacket::spec_well_formed(b),
        PacketModel::ClientInformationPlay(b) => ClientInformationPlayPacket::spec_well_formed(b),
        PacketModel::CommandSuggestionsRequest(b) => CommandSuggestionsRequestPacket::spec_well_formed(b),
        PacketModel::AcknowledgeConfiguration(b) => AcknowledgeConfigurationPacket::spec_well_formed(b),
        PacketModel::ClickContainerButton(b) => ClickContainerButtonPacket::spec_well_formed(b),
        PacketModel::CloseContainerServer(b) => CloseContainerServerPacket::spec_well_formed(b),
        PacketModel::ChangeContainerSlotState(b) => ChangeContainerSlotStatePacket::spec_well_formed(b),
        PacketModel::CookieResponsePlay(b) => CookieResponsePlayPacket::spec_well_formed(b),
        PacketModel::ServerboundPluginMessagePlay(b) => true,
        PacketModel::DebugSubscriptionRequest(b) => DebugSubscriptionRequestPacket::spec_well_formed(b),
        PacketModel::EditBook(b) => EditBookPacket::spec_well_formed(b),
        PacketModel::QueryEntityTag(b) => QueryEntityTagPacket::spec_well_formed(b),
        PacketModel::JigsawGenerate(b) => JigsawGeneratePacket::spec_well_formed(b),
        PacketModel::ServerboundKeepAlive(b) => ServerboundKeepAlivePacket::spec_well_formed(b),
        PacketModel::LockDifficulty(b) => LockDifficultyPacket::spec_well_formed(b),
        PacketModel::SetPlayerPosition(b) => SetPlayerPositionPacket::spec_well_formed(b),
        PacketModel::SetPlayerPositionRotation(b) => SetPlayerPositionRotationPacket::spec_well_formed(b),
        PacketModel::SetPlayerRotation(b) => SetPlayerRotationPacket::spec_well_formed(b),
        PacketModel::SetPlayerMovementFlags(b) => SetPlayerMovementFlagsPacket::spec_well_formed(b),
        PacketModel::MoveVehicleServer(b) => MoveVehicleServerPacket::spec_well_formed(b),
        PacketModel::PaddleBoat(b) => PaddleBoatPacket::spec_well_formed(b),
        PacketModel::PickItemFromBlock(b) => PickItemFromBlockPacket::spec_well_formed(b),
        PacketModel::PickItemFromEntity(b) => PickItemFromEntityPacket::spec_well_formed(b),
        PacketModel::PingRequestPlay(b) => PingRequestPlayPacket::spec_well_formed(b),
        PacketModel::PlaceRecipe(b) => PlaceRecipePacket::spec_well_formed(b),
        PacketModel::PlayerAbilitiesServer(b) => PlayerAbilitiesServerPacket::spec_well_formed(b),
        PacketModel::PlayerAction(b) => PlayerActionPacket::spec_well_formed(b),
        PacketModel::PlayerCommand(b) => PlayerCommandPacket::spec_well_formed(b),
        PacketModel::PlayerInput(b) => PlayerInputPacket::spec_well_formed(b),
        PacketModel::PlayerLoaded(b) => PlayerLoadedPacket::spec_well_formed(b),
        PacketModel::PongPlay(b) => PongPlayPacket::spec_well_formed(b),
        PacketModel::ChangeRecipeBookSettings(b) => ChangeRecipeBookSettingsPacket::spec_well_formed(b),
        PacketModel::SetSeenRecipe(b) => SetSeenRecipePacket::spec_well_formed(b),
        PacketModel::RenameItem(b) => RenameItemPacket::spec_well_formed(b),
        PacketModel::SelectTrade(b) => SelectTradePacket::spec_well_formed(b),
        PacketModel::SetBeaconEffect(b) => SetBeaconEffectPacket::spec_well_formed(b),
        PacketModel::SetHeldItemServer(b) => SetHeldItemServerPacket::spec_well_formed(b),
        PacketModel::ProgramCommandBlockMinecart(b) => ProgramCommandBlockMinecartPacket::spec_well_formed(b),
        PacketModel::ProgramJigsawBlock(b) => ProgramJigsawBlockPacket::spec_well_formed(b),
        PacketModel::SetTestBlock(b) => SetTestBlockPacket::spec_well_formed(b),
        PacketModel::UpdateSign(b) => UpdateSignPacket::spec_well_formed(b),
        PacketModel::SwingArm(b) => SwingArmPacket::spec_well_formed(b),
        PacketModel::CustomClickAction(b) => CustomClickActionPacket::spec_well_formed(b),
    }
}

/// The bytes of a packet after its length: its id, then its body.
pub open spec fn spec_packet_inner_bytes(v: PacketModel) -> Seq<u8> {
    spec_varint_bytes(spec_packet_id(v)) + spec_packet_body_bytes(v)
}

/// The packet sent in the handshaking state to the server whose id is `id`, among ids 0x00 to 0x00,
/// and whose body `body` starts with; none for an id no such packet has.
pub open spec fn spec_packet_body_parse_handshaking_server_0(body: Seq<u8>, id: i32) -> Option<ParseResult<PacketModel>> {
    if id == 0 {
        Some(match HandshakingPacket::spec_deserialize(body) { Ok((x, m)) => Ok((PacketModel::Handshaking(x), m)), Err(e) => Err(e) })
    } else {
        None
    }
}

/// The packet sent in the handshaking state to the server whose id is `id` and whose body
/// `body` starts with; none for an id no such packet has.
pub open spec fn spec_packet_body_parse_handshaking_server(body: Seq<u8>, id: i32) -> Option<ParseResult<PacketModel>> {
    spec_packet_body_parse_handshaking_server_0(body, id)
}

/// The packet sent in the status state to the client whose id is `id`, among ids 0x01 to 0x01,
/// and whose body `body` starts with; none for an id no such packet has.
pub open spec fn spec_packet_body_parse_status_client_0(body: Seq<u8>, id: i32) -> Option<ParseResult<PacketModel>> {
    if id == 1 {
        Some(match PingResponsePacket::spec_deserialize(body) { Ok((x, m)) => Ok((PacketModel::PingResponse(x), m)), Err(e) => Err(e) })
    } else {
        None
    }
}

/// The packet sent in the status state to the client whose id is `id` and whose body
/// `body` starts with; none for an id no such packet has.
pub open spec fn spec_packet_body_parse_status_client(body: Seq<u8>, id: i32) -> Option<ParseResult<PacketModel>> {
    spec_packet_body_parse_status_client_0(body, id)
}

/// The packet sent in the status state to the server whose id is `id`, among ids 0x00 to 0x01,
/// and whose body `body` starts with; none for an id no such packet has.
pub open spec fn spec_packet_body_parse_status_server_0(body: Seq<u8>, id: i32) -> Option<ParseResult<PacketModel>> {
    if id == 0 {
        Some(match StatusRequestPacket::spec_deserialize(body) { Ok((x, m)) => Ok((PacketModel::StatusRequest(x), m)), Err(e) => Err(e) })
    } else if id == 1 {
        Some(match PingRequestPacket::spec_deserialize(body) { Ok((x, m)) => Ok((PacketModel::PingRequest(x), m)), Err(e) => Err(e) })
    } else {
        None
    }
}

/// The packet sent in the status state to the server whose id is `id` and whose body
/// `body` starts with; none for an id no such packet has.
pub open spec fn spec_packet_body_parse_status_server(body: Seq<u8>, id: i32) -> Option<ParseResult<PacketModel>> {
    spec_packet_body_parse_status_server_0(body, id)
}

/// The packet sent in the login state to the client whose id is `id`, among ids 0x03 to 0x05,
/// and whose body `body` starts with; none for an id no such packet has.
pub open spec fn spec_packet_body_parse_login_client_0(body: Seq<u8>, id: i32) -> Option<ParseResult<PacketModel>> {
    if id == 3 {
        Some(match SetCompressionPacket::spec_deserialize(body) { Ok((x, m)) => Ok((PacketModel::SetCompression(x), m)), Err(e) => Err(e) })
    } else if id == 4 {
        Some(match LoginPluginRequestPacket::spec_deserialize(body) { Ok((x, m)) => Ok((PacketModel::LoginPluginRequest(x), m)), Err(e) => Err(e) })
    } else if id == 5 {
        Some(match LoginCookieRequestPacket::spec_deserialize(body) { Ok((x, m)) => Ok((PacketModel::LoginCookieRequest(x), m)), Err(e) => Err(e) })
    } else {
        None
    }
}

/// The packet sent in the login state to the client whose id is `id` and whose body
/// `body` starts with; none for an id no such packet has.
pub open spec fn spec_packet_body_parse_login_client(body: Seq<u8>, id: i32) -> Option<ParseResult<PacketModel>> {
    spec_packet_body_parse_login_client_0(body, id)
}

/// The packet sent in the login state to the server whose id is `id`, among ids 0x02 to 0x04,
/// and whose body `body` starts with; none for an id no such packet has.
pub open spec fn spec_packet_body_parse_login_server_0(body: Seq<u8>, id: i32) -> Option<ParseResult<PacketModel>> {
    if id == 2 {
        Some(match LoginPluginResponsePacket::spec_deserialize(body) { Ok((x, m)) => Ok((PacketModel::LoginPluginResponse(x), m)), Err(e) => Err(e) })
    } else if id == 3 {
        Some(match LoginAcknowledgedPacket::spec_deserialize(body) { Ok((x, m)) => Ok((PacketModel::LoginAcknowledged(x), m)), Err(e) => Err(e) })
    } else if id == 4 {
        Some(match LoginCookieResponsePacket::spec_deserialize(body) { Ok((x, m)) => Ok((PacketModel::LoginCookieResponse(x), m)), Err(e) => Err(e) })
    } else {
        None
    }
}

/// The packet sent in the login state to the server whose id is `id` and whose body
/// `body` starts with; none for an id no such packet has.
pub open spec fn spec_packet_body_parse_login_server(body: Seq<u8>, id: i32) -> Option<ParseResult<PacketModel>> {
    spec_packet_body_parse_login_server_0(body, id)
}

/// The packet sent in the configuration state to the client whose id is `id`, among ids 0x00 to 0x0F,
/// and whose body `body` starts with; none for an id no such packet has.
pub open spec fn spec_packet_body_parse_configuration_client_0(body: Seq<u8>, id: i32) -> Option<ParseResult<PacketModel>> {
    if id == 0 {
        Some(match ConfigCookieRequestPacket::spec_deserialize(body) { Ok((x, m)) => Ok((PacketModel::ConfigCookieRequest(x), m)), Err(e) => Err(e) })
    } else if id == 1 {
        Some(match ClientboundPluginMessagePacket::spec_deserialize(body) { Ok((x, m)) => Ok((PacketModel::ClientboundPluginMessage(x), m)), Err(e) => Err(e) })
    } else if id == 3 {
        Some(match FinishConfigurationPacket::spec_deserialize(body) { Ok((x, m)) => Ok((PacketModel::FinishConfiguration(x), m)), Err(e) => Err(e) })
    } else if id == 4 {
        Some(match KeepAlivePacket::spec_deserialize(body) { Ok((x, m)) => Ok((PacketModel::KeepAlive(x), m)), Err(e) => Err(e) })
    } else if id == 5 {
        Some(match ConfigurationPingPacket::spec_deserialize(body) { Ok((x, m)) => Ok((PacketModel::ConfigurationPing(x), m)), Err(e) => Err(e) })
    } else if id == 6 {
        Some(match ResetChatPacket::spec_deserialize(body) { Ok((x, m)) => Ok((PacketModel::ResetChat(x), m)), Err(e) => Err(e) })
    } else if id == 7 {
        Some(match RegistryDataPacket::spec_deserialize(body) { Ok((x, m)) => Ok((PacketModel::RegistryData(x), m)), Err(e) => Err(e) })
    } else if id == 10 {
        Some(match ConfigStoreCookiePacket::spec_deserialize(body) { Ok((x, m)) => Ok((PacketModel::ConfigStoreCookie(x), m)), Err(e) => Err(e) })
    } else if id == 11 {
        Some(match ConfigTransferPacket::spec_deserialize(body) { Ok((x, m)) => Ok((PacketModel::ConfigTransfer(x), m)), Err(e) => Err(e) })
    } else if id == 14 {
        Some(match ClientboundKnownPacksPacket::spec_deserialize(body) { Ok((x, m)) => Ok((PacketModel::ClientboundKnownPacks(x), m)), Err(e) => Err(e) })
    } else if id == 15 {
        Some(match ConfigCustomReportDetailsPacket::spec_deserialize(body) { Ok((x, m)) => Ok((PacketModel::ConfigCustomReportDetails(x), m)), Err(e) => Err(e) })
    } else {
        None
    }
}

/// The packet sent in the configuration state to the client whose id is `id` and whose body
/// `body` starts with; none for an id no such packet has.
pub open spec fn spec_packet_body_parse_configuration_client(body: Seq<u8>, id: i32) -> Option<ParseResult<PacketModel>> {
    spec_packet_body_parse_configuration_client_0(body, id)
}

/// The packet sent in the configuration state to the server whose id is `id`, among ids 0x00 to 0x08,
/// and whose body `body` starts with; none for an id no such packet has.
pub open spec fn spec_packet_body_parse_configuration_server_0(body: Seq<u8>, id: i32) -> Option<ParseResult<PacketModel>> {
    if id == 0 {
        Some(match ClientInformationPacket::spec_deserialize(body) { Ok((x, m)) => Ok((PacketModel::ClientInformation(x), m)), Err(e) => Err(e) })
    } else if id == 1 {
        Some(match CookieResponsePacket::spec_deserialize(body) { Ok((x, m)) => Ok((PacketModel::CookieResponse(x), m)), Err(e) => Err(e) })
    } else if id == 2 {
        Some(match ServerboundPluginMessagePacket::spec_deserialize(body) { Ok((x, m)) => Ok((PacketModel::ServerboundPluginMessage(x), m)), Err(e) => Err(e) })
    } else if id == 3 {
        Some(match AcknowledgeFinishConfigurationPacket::spec_deserialize(body) { Ok((x, m)) => Ok((PacketModel::AcknowledgeFinishConfiguration(x), m)), Err(e) => Err(e) })
    } else if id == 4 {
        Some(match ServerboundKeepAliveConfigPacket::spec_deserialize(body) { Ok((x, m)) => Ok((PacketModel::ServerboundKeepAliveConfig(x), m)), Err(e) => Err(e) })
    } else if id == 5 {
        Some(match ConfigPongPacket::spec_deserialize(body) { Ok((x, m)) => Ok((PacketModel::ConfigPong(x), m)), Err(e) => Err(e) })
    } else if id == 7 {
        Some(match ServerboundKnownPacksPacket::spec_deserialize(body) { Ok((x, m)) => Ok((PacketModel::ServerboundKnownPacks(x), m)), Err(e) => Err(e) })
    } else if id == 8 {
        Some(match ConfigCustomClickActionPacket::spec_deserialize(body) { Ok((x, m)) => Ok((PacketModel::ConfigCustomClickAction(x), m)), Err(e) => Err(e) })
    } else {
        None
    }
}

/// The packet sent in the configuration state to the server whose id is `id` and whose body
/// `body` starts with; none for an id no such packet has.
pub open spec fn spec_packet_body_parse_configuration_server(body: Seq<u8>, id: i32) -> Option<ParseResult<PacketModel>> {
    spec_packet_body_parse_configuration_server_0(body, id)
}

/// The packet sent in the play state to the client whose id is `id`, among ids 0x00 to 0x28,
/// and whose body `body` starts with; none for an id no such packet has.
pub open spec fn spec_packet_body_parse_play_client_0(body: Seq<u8>, id: i32) -> Option<ParseResult<PacketModel>> {
    if id == 0 {
        Some(match BundleDelimiterPacket::spec_deserialize(body) { Ok((x, m)) => Ok((PacketModel::BundleDelimiter(x), m)), Err(e) => Err(e) })
    } else if id == 2 {
        Some(match EntityAnimationPacket::spec_deserialize(body) { Ok((x, m)) => Ok((PacketModel::EntityAnimation(x), m)), Err(e) => Err(e) })
    } else if id == 3 {
        Some(match AwardStatisticsPacket::spec_deserialize(body) { Ok((x, m)) => Ok((PacketModel::AwardStatistics(x), m)), Err(e) => Err(e) })
    } else if id == 4 {
        Some(match AcknowledgeBlockChangePacket::spec_deserialize(body) { Ok((x, m)) => Ok((PacketModel::AcknowledgeBlockChange(x), m)), Err(e) => Err(e) })
    } else if id == 5 {
        Some(match SetBlockDestroyStagePacket::spec_deserialize(body) { Ok((x, m)) => Ok((PacketModel::SetBlockDestroyStage(x), m)), Err(e) => Err(e) })
    } else if id == 7 {
        Some(match BlockActionPacket::spec_deserialize(body) { Ok((x, m)) => Ok((PacketModel::BlockAction(x), m)), Err(e) => Err(e) })
    } else if id == 8 {
        Some(match BlockUpdatePacket::spec_deserialize(body) { Ok((x, m)) => Ok((PacketModel::BlockUpdate(x), m)), Err(e) => Err(e) })
    } else if id == 11 {
        Some(match ChunkBatchFinishedPacket::spec_deserialize(body) { Ok((x, m)) => Ok((PacketModel::ChunkBatchFinished(x), m)), Err(e) => Err(e) })
    } else if id == 12 {
        Some(match ChunkBatchStartPacket::spec_deserialize(body) { Ok((x, m)) => Ok((PacketModel::ChunkBatchStart(x), m)), Err(e) => Err(e) })
    } else if id == 13 {
        Some(match ChunkBiomesPacket::spec_deserialize(body) { Ok((x, m)) => Ok((PacketModel::ChunkBiomes(x), m)), Err(e) => Err(e) })
    } else if id == 14 {
        Some(match ClearTitlesPacket::spec_deserialize(body) { Ok((x, m)) => Ok((PacketModel::ClearTitles(x), m)), Err(e) => Err(e) })
    } else if id == 17 {
        Some(match CloseContainerPacket::spec_deserialize(body) { Ok((x, m)) => Ok((PacketModel::CloseContainer(x), m)), Err(e) => Err(e) })
    } else if id == 19 {
        Some(match SetContainerPropertyPacket::spec_deserialize(body) { Ok((x, m)) => Ok((PacketModel::SetContainerProperty(x), m)), Err(e) => Err(e) })
    } else if id == 21 {
        Some(match CookieRequestPlayPacket::spec_deserialize(body) { Ok((x, m)) => Ok((PacketModel::CookieRequestPlay(x), m)), Err(e) => Err(e) })
    } else if id == 22 {
        Some(match SetCooldownPacket::spec_deserialize(body) { Ok((x, m)) => Ok((PacketModel::SetCooldown(x), m)), Err(e) => Err(e) })
    } else if id == 23 {
        Some(match ChatSuggestionsPacket::spec_deserialize(body) { Ok((x, m)) => Ok((PacketModel::ChatSuggestions(x), m)), Err(e) => Err(e) })
    } else if id == 24 {
        Some(match ClientboundPluginMessagePlayPacket::spec_deserialize(body) { Ok((x, m)) => Ok((PacketModel::ClientboundPluginMessagePlay(x), m)), Err(e) => Err(e) })
    } else if id == 30 {
        Some(match DebugSamplePacket::spec_deserialize(body) { Ok((x, m)) => Ok((PacketModel::DebugSample(x), m)), Err(e) => Err(e) })
    } else if id == 34 {
        Some(match EntityEventPacket::spec_deserialize(body) { Ok((x, m)) => Ok((PacketModel::EntityEvent(x), m)), Err(e) => Err(e) })
    } else if id == 35 {
        Some(match TeleportEntityPacket::spec_deserialize(body) { Ok((x, m)) => Ok((PacketModel::TeleportEntity(x), m)), Err(e) => Err(e) })
    } else if id == 37 {
        Some(match UnloadChunkPacket::spec_deserialize(body) { Ok((x, m)) => Ok((PacketModel::UnloadChunk(x), m)), Err(e) => Err(e) })
    } else if id == 38 {
        Some(match GameEventPacket::spec_deserialize(body) { Ok((x, m)) => Ok((PacketModel::GameEvent(x), m)), Err(e) => Err(e) })
    } else if id == 39 {
        Some(match GameTestHighlightPositionPacket::spec_deserialize(body) { Ok((x, m)) => Ok((PacketModel::GameTestHighlightPosition(x), m)), Err(e) => Err(e) })
    } else if id == 40 {
        Some(match OpenHorseScreenPacket::spec_deserialize(body) { Ok((x, m)) => Ok((PacketModel::OpenHorseScreen(x), m)), Err(e) => Err(e) })
    } else {
        None
    }
}

/// The packet sent in the play state to the client whose id is `id`, among ids 0x29 to 0x5A,
/// and whose body `body` starts with; none for an id no such packet has.
pub open spec fn spec_packet_body_parse_play_client_1(body: Seq<u8>, id: i32) -> Option<ParseResult<PacketModel>> {
    if id == 41 {
        Some(match HurtAnimationPacket::spec_deserialize(body) { Ok((x, m)) => Ok((PacketModel::HurtAnimation(x), m)), Err(e) => Err(e) })
    } else if id == 43 {
        Some(match ClientboundKeepAlivePacket::spec_deserialize(body) { Ok((x, m)) => Ok((PacketModel::ClientboundKeepAlive(x), m)), Err(e) => Err(e) })
    } else if id == 44 {
        Some(match ChunkDataUpdateLightPacket::spec_deserialize(body) { Ok((x, m)) => Ok((PacketModel::ChunkDataUpdateLight(x), m)), Err(e) => Err(e) })
    } else if id == 47 {
        Some(match UpdateLightPacket::spec_deserialize(body) { Ok((x, m)) => Ok((PacketModel::UpdateLight(x), m)), Err(e) => Err(e) })
    } else if id == 51 {
        Some(match UpdateEntityPositionPacket::spec_deserialize(body) { Ok((x, m)) => Ok((PacketModel::UpdateEntityPosition(x), m)), Err(e) => Err(e) })
    } else if id == 55 {
        Some(match MoveVehiclePacket::spec_deserialize(body) { Ok((x, m)) => Ok((PacketModel::MoveVehicle(x), m)), Err(e) => Err(e) })
    } else if id == 56 {
        Some(match OpenBookPacket::spec_deserialize(body) { Ok((x, m)) => Ok((PacketModel::OpenBook(x), m)), Err(e) => Err(e) })
    } else if id == 58 {
        Some(match OpenSignEditorPacket::spec_deserialize(body) { Ok((x, m)) => Ok((PacketModel::OpenSignEditor(x), m)), Err(e) => Err(e) })
    } else if id == 59 {
        Some(match PingPlayPacket::spec_deserialize(body) { Ok((x, m)) => Ok((PacketModel::PingPlay(x), m)), Err(e) => Err(e) })
    } else if id == 60 {
        Some(match PingResponsePlayPacket::spec_deserialize(body) { Ok((x, m)) => Ok((PacketModel::PingResponsePlay(x), m)), Err(e) => Err(e) })
    } else if id == 62 {
        Some(match PlayerAbilitiesPacket::spec_deserialize(body) { Ok((x, m)) => Ok((PacketModel::PlayerAbilities(x), m)), Err(e) => Err(e) })
    } else if id == 64 {
        Some(match EndCombatPacket::spec_deserialize(body) { Ok((x, m)) => Ok((PacketModel::EndCombat(x), m)), Err(e) => Err(e) })
    } else if id == 65 {
        Some(match EnterCombatPacket::spec_deserialize(body) { Ok((x, m)) => Ok((PacketModel::EnterCombat(x), m)), Err(e) => Err(e) })
    } else if id == 71 {
        Some(match PlayerRotationPacket::spec_deserialize(body) { Ok((x, m)) => Ok((PacketModel::PlayerRotation(x), m)), Err(e) => Err(e) })
    } else if id == 73 {
        Some(match RecipeBookRemovePacket::spec_deserialize(body) { Ok((x, m)) => Ok((PacketModel::RecipeBookRemove(x), m)), Err(e) => Err(e) })
    } else if id == 74 {
        Some(match RecipeBookSettingsPacket::spec_deserialize(body) { Ok((x, m)) => Ok((PacketModel::RecipeBookSettings(x), m)), Err(e) => Err(e) })
    } else if id == 75 {
        Some(match RemoveEntitiesPacket::spec_deserialize(body) { Ok((x, m)) => Ok((PacketModel::RemoveEntities(x), m)), Err(e) => Err(e) })
    } else if id == 76 {
        Some(match RemoveEntityEffectPacket::spec_deserialize(body) { Ok((x, m)) => Ok((PacketModel::RemoveEntityEffect(x), m)), Err(e) => Err(e) })
    } else if id == 77 {
        Some(match ResetScorePacket::spec_deserialize(body) { Ok((x, m)) => Ok((PacketModel::ResetScore(x), m)), Err(e) => Err(e) })
    } else if id == 83 {
        Some(match SelectAdvancementsTabPacket::spec_deserialize(body) { Ok((x, m)) => Ok((PacketModel::SelectAdvancementsTab(x), m)), Err(e) => Err(e) })
    } else if id == 86 {
        Some(match SetBorderCenterPacket::spec_deserialize(body) { Ok((x, m)) => Ok((PacketModel::SetBorderCenter(x), m)), Err(e) => Err(e) })
    } else if id == 88 {
        Some(match SetBorderSizePacket::spec_deserialize(body) { Ok((x, m)) => Ok((PacketModel::SetBorderSize(x), m)), Err(e) => Err(e) })
    } else if id == 89 {
        Some(match SetBorderWarningDelayPacket::spec_deserialize(body) { Ok((x, m)) => Ok((PacketModel::SetBorderWarningDelay(x), m)), Err(e) => Err(e) })
    } else if id == 90 {
        Some(match SetBorderWarningDistancePacket::spec_deserialize(body) { Ok((x, m)) => Ok((PacketModel::SetBorderWarningDistance(x), m)), Err(e) => Err(e) })
    } else {
        None
    }
}

/// The packet sent in the play state to the client whose id is `id`, among ids 0x5B to 0x89,
/// and whose body `body` starts with; none for an id no such packet has.
pub open spec fn spec_packet_body_parse_play_client_2(body: Seq<u8>, id: i32) -> Option<ParseResult<PacketModel>> {
    if id == 91 {
        Some(match SetCameraPacket::spec_deserialize(body) { Ok((x, m)) => Ok((PacketModel::SetCamera(x), m)), Err(e) => Err(e) })
    } else if id == 92 {
        Some(match SetCenterChunkPacket::spec_deserialize(body) { Ok((x, m)) => Ok((PacketModel::SetCenterChunk(x), m)), Err(e) => Err(e) })
    } else if id == 93 {
        Some(match SetRenderDistancePacket::spec_deserialize(body) { Ok((x, m)) => Ok((PacketModel::SetRenderDistance(x), m)), Err(e) => Err(e) })
    } else if id == 95 {
        Some(match SetDefaultSpawnPositionPacket::spec_deserialize(body) { Ok((x, m)) => Ok((PacketModel::SetDefaultSpawnPosition(x), m)), Err(e) => Err(e) })
    } else if id == 96 {
        Some(match DisplayObjectivePacket::spec_deserialize(body) { Ok((x, m)) => Ok((PacketModel::DisplayObjective(x), m)), Err(e) => Err(e) })
    } else if id == 98 {
        Some(match LinkEntriesPacket::spec_deserialize(body) { Ok((x, m)) => Ok((PacketModel::LinkEntries(x), m)), Err(e) => Err(e) })
    } else if id == 101 {
        Some(match SetExperiencePacket::spec_deserialize(body) { Ok((x, m)) => Ok((PacketModel::SetExperience(x), m)), Err(e) => Err(e) })
    } else if id == 102 {
        Some(match SetHealthPacket::spec_deserialize(body) { Ok((x, m)) => Ok((PacketModel::SetHealth(x), m)), Err(e) => Err(e) })
    } else if id == 103 {
        Some(match SetHeldItemPacket::spec_deserialize(body) { Ok((x, m)) => Ok((PacketModel::SetHeldItem(x), m)), Err(e) => Err(e) })
    } else if id == 105 {
        Some(match SetPassengersPacket::spec_deserialize(body) { Ok((x, m)) => Ok((PacketModel::SetPassengers(x), m)), Err(e) => Err(e) })
    } else if id == 109 {
        Some(match SetSimulationDistancePacket::spec_deserialize(body) { Ok((x, m)) => Ok((PacketModel::SetSimulationDistance(x), m)), Err(e) => Err(e) })
    } else if id == 111 {
        Some(match UpdateTimePacket::spec_deserialize(body) { Ok((x, m)) => Ok((PacketModel::UpdateTime(x), m)), Err(e) => Err(e) })
    } else if id == 113 {
        Some(match SetTitleAnimationTimesPacket::spec_deserialize(body) { Ok((x, m)) => Ok((PacketModel::SetTitleAnimationTimes(x), m)), Err(e) => Err(e) })
    } else if id == 116 {
        Some(match StartConfigurationPacket::spec_deserialize(body) { Ok((x, m)) => Ok((PacketModel::StartConfiguration(x), m)), Err(e) => Err(e) })
    } else if id == 117 {
        Some(match StopSoundPacket::spec_deserialize(body) { Ok((x, m)) => Ok((PacketModel::StopSound(x), m)), Err(e) => Err(e) })
    } else if id == 118 {
        Some(match StoreCookiePacket::spec_deserialize(body) { Ok((x, m)) => Ok((PacketModel::StoreCookie(x), m)), Err(e) => Err(e) })
    } else if id == 122 {
        Some(match PickupItemPacket::spec_deserialize(body) { Ok((x, m)) => Ok((PacketModel::PickupItem(x), m)), Err(e) => Err(e) })
    } else if id == 125 {
        Some(match SetTickingStatePacket::spec_deserialize(body) { Ok((x, m)) => Ok((PacketModel::SetTickingState(x), m)), Err(e) => Err(e) })
    } else if id == 126 {
        Some(match StepTickPacket::spec_deserialize(body) { Ok((x, m)) => Ok((PacketModel::StepTick(x), m)), Err(e) => Err(e) })
    } else if id == 127 {
        Some(match TransferPacket::spec_deserialize(body) { Ok((x, m)) => Ok((PacketModel::Transfer(x), m)), Err(e) => Err(e) })
    } else if id == 130 {
        Some(match EntityEffectPacket::spec_deserialize(body) { Ok((x, m)) => Ok((PacketModel::EntityEffect(x), m)), Err(e) => Err(e) })
    } else if id == 133 {
        Some(match ProjectilePowerPacket::spec_deserialize(body) { Ok((x, m)) => Ok((PacketModel::ProjectilePower(x), m)), Err(e) => Err(e) })
    } else if id == 134 {
        Some(match CustomReportDetailsPacket::spec_deserialize(body) { Ok((x, m)) => Ok((PacketModel::CustomReportDetails(x), m)), Err(e) => Err(e) })
    } else if id == 137 {
        Some(match ClearDialogPacket::spec_deserialize(body) { Ok((x, m)) => Ok((PacketModel::ClearDialog(x), m)), Err(e) => Err(e) })
    } else {
        None
    }
}

/// The packet sent in the play state to the client whose id is `id` and whose body
/// `body` starts with; none for an id no such packet has.
pub open spec fn spec_packet_body_parse_play_client(body: Seq<u8>, id: i32) -> Option<ParseResult<PacketModel>> {
    if id < 41 {
        spec_packet_body_parse_play_client_0(body, id)
    } else if id < 91 {
        spec_packet_body_parse_play_client_1(body, id)
    } else {
        spec_packet_body_parse_play_client_2(body, id)
    }
}

/// The packet sent in the play state to the server whose id is `id`, among ids 0x00 to 0x1D,
/// and whose body `body` starts with; none for an id no such packet has.
pub open spec fn spec_packet_body_parse_play_server_0(body: Seq<u8>, id: i32) -> Option<ParseResult<PacketModel>> {
    if id == 0 {
        Some(match ConfirmTeleportPacket::spec_deserialize(body) { Ok((x, m)) => Ok((PacketModel::ConfirmTeleport(x), m)), Err(e) => Err(e) })
    } else if id == 1 {
        Some(match QueryBlockEntityTagPacket::spec_deserialize(body) { Ok((x, m)) => Ok((PacketModel::QueryBlockEntityTag(x), m)), Err(e) => Err(e) })
    } else if id == 2 {
        Some(match BundleItemSelectedPacket::spec_deserialize(body) { Ok((x, m)) => Ok((PacketModel::BundleItemSelected(x), m)), Err(e) => Err(e) })
    } else if id == 4 {
        Some(match ChangeGameModePacket::spec_deserialize(body) { Ok((x, m)) => Ok((PacketModel::ChangeGameMode(x), m)), Err(e) => Err(e) })
    } else if id == 5 {
        Some(match AcknowledgeMessagePacket::spec_deserialize(body) { Ok((x, m)) => Ok((PacketModel::AcknowledgeMessage(x), m)), Err(e) => Err(e) })
    } else if id == 6 {
        Some(match ChatCommandPacket::spec_deserialize(body) { Ok((x, m)) => Ok((PacketModel::ChatCommand(x), m)), Err(e) => Err(e) })
    } else if id == 10 {
        Some(match ChunkBatchReceivedPacket::spec_deserialize(body) { Ok((x, m)) => Ok((PacketModel::ChunkBatchReceived(x), m)), Err(e) => Err(e) })
    } else if id == 11 {
        Some(match ClientCommandPacket::spec_deserialize(body) { Ok((x, m)) => Ok((PacketModel::ClientCommand(x), m)), Err(e) => Err(e) })
    } else if id == 12 {
        Some(match ClientTickEndPacket::spec_deserialize(body) { Ok((x, m)) => Ok((PacketModel::ClientTickEnd(x), m)), Err(e) => Err(e) })
    } else if id == 13 {
        Some(match ClientInformationPlayPacket::spec_deserialize(body) { Ok((x, m)) => Ok((PacketModel::ClientInformationPlay(x), m)), Err(e) => Err(e) })
    } else if id == 14 {
        Some(match CommandSuggestionsRequestPacket::spec_deserialize(body) { Ok((x, m)) => Ok((PacketModel::CommandSuggestionsRequest(x), m)), Err(e) => Err(e) })
    } else if id == 15 {
        Some(match AcknowledgeConfigurationPacket::spec_deserialize(body) { Ok((x, m)) => Ok((PacketModel::AcknowledgeConfiguration(x), m)), Err(e) => Err(e) })
    } else if id == 16 {
        Some(match ClickContainerButtonPacket::spec_deserialize(body) { Ok((x, m)) => Ok((PacketModel::ClickContainerButton(x), m)), Err(e) => Err(e) })
    } else if id == 18 {
        Some(match CloseContainerServerPacket::spec_deserialize(body) { Ok((x, m)) => Ok((PacketModel::CloseContainerServer(x), m)), Err(e) => Err(e) })
    } else if id == 19 {
        Some(match ChangeContainerSlotStatePacket::spec_deserialize(body) { Ok((x, m)) => Ok((PacketModel::ChangeContainerSlotState(x), m)), Err(e) => Err(e) })
    } else if id == 20 {
        Some(match CookieResponsePlayPacket::spec_deserialize(body) { Ok((x, m)) => Ok((PacketModel::CookieResponsePlay(x), m)), Err(e) => Err(e) })
    } else if id == 21 {
        Some(match ServerboundPluginMessagePlayPacket::spec_deserialize(body) { Ok((x, m)) => Ok((PacketModel::ServerboundPluginMessagePlay(x), m)), Err(e) => Err(e) })
    } else if id == 22 {
        Some(match DebugSubscriptionRequestPacket::spec_deserialize(body) { Ok((x, m)) => Ok((PacketModel::DebugSubscriptionRequest(x), m)), Err(e) => Err(e) })
    } else if id == 23 {
        Some(match EditBookPacket::spec_deserialize(body) { Ok((x, m)) => Ok((PacketModel::EditBook(x), m)), Err(e) => Err(e) })
    } else if id == 24 {
        Some(match QueryEntityTagPacket::spec_deserialize(body) { Ok((x, m)) => Ok((PacketModel::QueryEntityTag(x), m)), Err(e) => Err(e) })
    } else if id == 26 {
        Some(match JigsawGeneratePacket::spec_deserialize(body) { Ok((x, m)) => Ok((PacketModel::JigsawGenerate(x), m)), Err(e) => Err(e) })
    } else if id == 27 {
        Some(match ServerboundKeepAlivePacket::spec_deserialize(body) { Ok((x, m)) => Ok((PacketModel::ServerboundKeepAlive(x), m)), Err(e) => Err(e) })
    } else if id == 28 {
        Some(match LockDifficultyPacket::spec_deserialize(body) { Ok((x, m)) => Ok((PacketModel::LockDifficulty(x), m)), Err(e) => Err(e) })
    } else if id == 29 {
        Some(match SetPlayerPositionPacket::spec_deserialize(body) { Ok((x, m)) => Ok((PacketModel::SetPlayerPosition(x), m)), Err(e) => Err(e) })
    } else {
        None
    }
}

/// The packet sent in the play state to the server whose id is `id`, among ids 0x1E to 0x3A,
/// and whose body `body` starts with; none for an id no such packet has.
pub open spec fn spec_packet_body_parse_play_server_1(body: Seq<u8>, id: i32) -> Option<ParseResult<PacketModel>> {
    if id == 30 {
        Some(match SetPlayerPositionRotationPacket::spec_deserialize(body) { Ok((x, m)) => Ok((PacketModel::SetPlayerPositionRotation(x), m)), Err(e) => Err(e) })
    } else if id == 31 {
        Some(match SetPlayerRotationPacket::spec_deserialize(body) { Ok((x, m)) => Ok((PacketModel::SetPlayerRotation(x), m)), Err(e) => Err(e) })
    } else if id == 32 {
        Some(match SetPlayerMovementFlagsPacket::spec_deserialize(body) { Ok((x, m)) => Ok((PacketModel::SetPlayerMovementFlags(x), m)), Err(e) => Err(e) })
    } else if id == 33 {
        Some(match MoveVehicleServerPacket::spec_deserialize(body) { Ok((x, m)) => Ok((PacketModel::MoveVehicleServer(x), m)), Err(e) => Err(e) })
    } else if id == 34 {
        Some(match PaddleBoatPacket::spec_deserialize(body) { Ok((x, m)) => Ok((PacketModel::PaddleBoat(x), m)), Err(e) => Err(e) })
    } else if id == 35 {
        Some(match PickItemFromBlockPacket::spec_deserialize(body) { Ok((x, m)) => Ok((PacketModel::PickItemFromBlock(x), m)), Err(e) => Err(e) })
    } else if id == 36 {
        Some(match PickItemFromEntityPacket::spec_deserialize(body) { Ok((x, m)) => Ok((PacketModel::PickItemFromEntity(x), m)), Err(e) => Err(e) })
    } else if id == 37 {
        Some(match PingRequestPlayPacket::spec_deserialize(body) { Ok((x, m)) => Ok((PacketModel::PingRequestPlay(x), m)), Err(e) => Err(e) })
    } else if id == 38 {
        Some(match PlaceRecipePacket::spec_deserialize(body) { Ok((x, m)) => Ok((PacketModel::PlaceRecipe(x), m)), Err(e) => Err(e) })
    } else if id == 39 {
        Some(match PlayerAbilitiesServerPacket::spec_deserialize(body) { Ok((x, m)) => Ok((PacketModel::PlayerAbilitiesServer(x), m)), Err(e) => Err(e) })
    } else if id == 40 {
        Some(match PlayerActionPacket::spec_deserialize(body) { Ok((x, m)) => Ok((PacketModel::PlayerAction(x), m)), Err(e) => Err(e) })
    } else if id == 41 {
        Some(match PlayerCommandPacket::spec_deserialize(body) { Ok((x, m)) => Ok((PacketModel::PlayerCommand(x), m)), Err(e) => Err(e) })
    } else if id == 42 {
        Some(match PlayerInputPacket::spec_deserialize(body) { Ok((x, m)) => Ok((PacketModel::PlayerInput(x), m)), Err(e) => Err(e) })
    } else if id == 43 {
        Some(match PlayerLoadedPacket::spec_deserialize(body) { Ok((x, m)) => Ok((PacketModel::PlayerLoaded(x), m)), Err(e) => Err(e) })
    } else if id == 44 {
        Some(match PongPlayPacket::spec_deserialize(body) { Ok((x, m)) => Ok((PacketModel::PongPlay(x), m)), Err(e) => Err(e) })
    } else if id == 45 {
        Some(match ChangeRecipeBookSettingsPacket::spec_deserialize(body) { Ok((x, m)) => Ok((PacketModel::ChangeRecipeBookSettings(x), m)), Err(e) => Err(e) })
    } else if id == 46 {
        Some(match SetSeenRecipePacket::spec_deserialize(body) { Ok((x, m)) => Ok((PacketModel::SetSeenRecipe(x), m)), Err(e) => Err(e) })
    } else if id == 47 {
        Some(match RenameItemPacket::spec_deserialize(body) { Ok((x, m)) => Ok((PacketModel::RenameItem(x), m)), Err(e) => Err(e) })
    } else if id == 50 {
        Some(match SelectTradePacket::spec_deserialize(body) { Ok((x, m)) => Ok((PacketModel::SelectTrade(x), m)), Err(e) => Err(e) })
    } else if id == 51 {
        Some(match SetBeaconEffectPacket::spec_deserialize(body) { Ok((x, m)) => Ok((PacketModel::SetBeaconEffect(x), m)), Err(e) => Err(e) })
    } else if id == 52 {
        Some(match SetHeldItemServerPacket::spec_deserialize(body) { Ok((x, m)) => Ok((PacketModel::SetHeldItemServer(x), m)), Err(e) => Err(e) })
    } else if id == 54 {
        Some(match ProgramCommandBlockMinecartPacket::spec_deserialize(body) { Ok((x, m)) => Ok((PacketModel::ProgramCommandBlockMinecart(x), m)), Err(e) => Err(e) })
    } else if id == 56 {
        Some(match ProgramJigsawBlockPacket::spec_deserialize(body) { Ok((x, m)) => Ok((PacketModel::ProgramJigsawBlock(x), m)), Err(e) => Err(e) })
    } else if id == 58 {
        Some(match SetTestBlockPacket::spec_deserialize(body) { Ok((x, m)) => Ok((PacketModel::SetTestBlock(x), m)), Err(e) => Err(e) })
    } else {
        None
    }
}

/// The packet sent in the play state to the server whose id is `id`, among ids 0x3B to 0x41,
/// and whose body `body` starts with; none for an id no such packet has.
pub open spec fn spec_packet_body_parse_play_server_2(body: Seq<u8>, id: i32) -> Option<ParseResult<PacketModel>> {
    if id == 59 {
        Some(match UpdateSignPacket::spec_deserialize(body) { Ok((x, m)) => Ok((PacketModel::UpdateSign(x), m)), Err(e) => Err(e) })
    } else if id == 60 {
        Some(match SwingArmPacket::spec_deserialize(body) { Ok((x, m)) => Ok((PacketModel::SwingArm(x), m)), Err(e) => Err(e) })
    } else if id == 65 {
        Some(match CustomClickActionPacket::spec_deserialize(body) { Ok((x, m)) => Ok((PacketModel::CustomClickAction(x), m)), Err(e) => Err(e) })
    } else {
        None
    }
}

/// The packet sent in the play state to the server whose id is `id` and whose body
/// `body` starts with; none for an id no such packet has.
pub open spec fn spec_packet_body_parse_play_server(body: Seq<u8>, id: i32) -> Option<ParseResult<PacketModel>> {
    if id < 30 {
        spec_packet_body_parse_play_server_0(body, id)
    } else if id < 59 {
        spec_packet_body_parse_play_server_1(body, id)
    } else {
        spec_packet_body_parse_play_server_2(body, id)
    }
}

/// The packet sent in state `state` in direction `dir` whose id is `id` and whose body `body` starts
/// with; none for an id no such packet has.
#[verifier::opaque]
pub open spec fn spec_packet_body_parse(body: Seq<u8>, state: PacketState, dir: PacketDirection, id: i32) -> Option<ParseResult<PacketModel>> {
    if state == PacketState::HANDSHAKING && dir == PacketDirection::SERVER {
        spec_packet_body_parse_handshaking_server(body, id)
    } else if state == PacketState::STATUS && dir == PacketDirection::CLIENT {
        spec_packet_body_parse_status_client(body, id)
    } else if state == PacketState::STATUS && dir == PacketDirection::SERVER {
        spec_packet_body_parse_status_server(body, id)
    } else if state == PacketState::LOGIN && dir == PacketDirection::CLIENT {
        spec_packet_body_parse_login_client(body, id)
    } else if state == PacketState::LOGIN && dir == PacketDirection::SERVER {
        spec_packet_body_parse_login_server(body, id)
    } else if state == PacketState::CONFIGURATION && dir == PacketDirection::CLIENT {
        spec_packet_body_parse_configuration_client(body, id)
    } else if state == PacketState::CONFIGURATION && dir == PacketDirection::SERVER {
        spec_packet_body_parse_configuration_server(body, id)
    } else if state == PacketState::PLAY && dir == PacketDirection::CLIENT {
        spec_packet_body_parse_play_client(body, id)
    } else if state == PacketState::PLAY && dir == PacketDirection::SERVER {
        spec_packet_body_parse_play_server(body, id)
    } else {
        None
    }
}

/// The parse of a packet sent in state `state` in direction `dir`: its length, then, within that
/// many bytes, its id and the body of the packet with that id. A length past the bytes there are is
/// refused as input that ended; a body that does not read, or an id that no packet of the state and
/// direction has, is refused as a unique failure. The packet takes its length's bytes and that many
/// more, whatever its body reads of them.
pub open spec fn spec_packet_parse(s: Seq<u8>, state: PacketState, dir: PacketDirection) -> ParseResult<PacketModel> {
    match spec_varint_parse(s) {
        Err(e) => Err(e),
        Ok((len, n)) => if len.0 < 0 || s.len() - n < len.0 {
            Err(ErrKind::InputEnded)
        } else {
            let sub = s.subrange(n as int, n + len.0);
            match spec_varint_parse(sub) {
                Err(e) => Err(e),
                Ok((id, m)) => match spec_packet_body_parse(sub.skip(m as int), state, dir, id.0) {
                    Some(Ok((v, k))) => Ok((v, (n + len.0) as nat)),
                    _ => Err(ErrKind::UniqueFailure),
                },
            }
        },
    }
}

#[verifier::spinoff_prover]
#[verifier::rlimit(100)]
fn read_packet_body_handshaking_server_0(sub: &mut McDeserializer, id: i32) -> (r: Option<Packet>)
    ensures
        match spec_packet_body_parse_handshaking_server_0(old(sub).remaining(), id) {
            Some(Ok((v, k))) => r matches Some(p) && p.deep_view() == v,
            _ => r is None,
        },
{
    if id == 0 {
        match HandshakingPacket::mc_deserialize(sub) { Ok(b) => Some(Packet::Handshaking(b)), Err(_) => None }
    } else {
        None
    }
}

fn read_packet_body_handshaking_server(sub: &mut McDeserializer, id: i32) -> (r: Option<Packet>)
    ensures
        match spec_packet_body_parse_handshaking_server(old(sub).remaining(), id) {
            Some(Ok((v, k))) => r matches Some(p) && p.deep_view() == v,
            _ => r is None,
        },
{
    read_packet_body_handshaking_server_0(sub, id)
}

#[verifier::spinoff_prover]
#[verifier::rlimit(100)]
fn read_packet_body_status_client_0(sub: &mut McDeserializer, id: i32) -> (r: Option<Packet>)
    ensures
        match spec_packet_body_parse_status_client_0(old(sub).remaining(), id) {
            Some(Ok((v, k))) => r matches Some(p) && p.deep_view() == v,
            _ => r is None,
        },
{
    if id == 1 {
        match PingResponsePacket::mc_deserialize(sub) { Ok(b) => Some(Packet::PingResponse(b)), Err(_) => None }
    } else {
        None
    }
}

fn read_packet_body_status_client(sub: &mut McDeserializer, id: i32) -> (r: Option<Packet>)
    ensures
        match spec_packet_body_parse_status_client(old(sub).remaining(), id) {
            Some(Ok((v, k))) => r matches Some(p) && p.deep_view() == v,
            _ => r is None,
        },
{
    read_packet_body_status_client_0(sub, id)
}

#[verifier::spinoff_prover]
#[verifier::rlimit(100)]
fn read_packet_body_status_server_0(sub: &mut McDeserializer, id: i32) -> (r: Option<Packet>)
    ensures
        match spec_packet_body_parse_status_server_0(old(sub).remaining(), id) {
            Some(Ok((v, k))) => r matches Some(p) && p.deep_view() == v,
            _ => r is None,
        },
{
    if id == 0 {
        match StatusRequestPacket::mc_deserialize(sub) { Ok(b) => Some(Packet::StatusRequest(b)), Err(_) => None }
    } else if id == 1 {
        match PingRequestPacket::mc_deserialize(sub) { Ok(b) => Some(Packet::PingRequest(b)), Err(_) => None }
    } else {
        None
    }
}

fn read_packet_body_status_server(sub: &mut McDeserializer, id: i32) -> (r: Option<Packet>)
    ensures
        match spec_packet_body_parse_status_server(old(sub).remaining(), id) {
            Some(Ok((v, k))) => r matches Some(p) && p.deep_view() == v,
            _ => r is None,
        },
{
    read_packet_body_status_server_0(sub, id)
}

#[verifier::spinoff_prover]
#[verifier::rlimit(100)]
fn read_packet_body_login_client_0(sub: &mut McDeserializer, id: i32) -> (r: Option<Packet>)
    ensures
        match spec_packet_body_parse_login_client_0(old(sub).remaining(), id) {
            Some(Ok((v, k))) => r matches Some(p) && p.deep_view() == v,
            _ => r is None,
        },
{
    if id == 3 {
        match SetCompressionPacket::mc_deserialize(sub) { Ok(b) => Some(Packet::SetCompression(b)), Err(_) => None }
    } else if id == 4 {
        match LoginPluginRequestPacket::mc_deserialize(sub) { Ok(b) => Some(Packet::LoginPluginRequest(b)), Err(_) => None }
    } else if id == 5 {
        match LoginCookieRequestPacket::mc_deserialize(sub) { Ok(b) => Some(Packet::LoginCookieRequest(b)), Err(_) => None }
    } else {
        None
    }
}

fn read_packet_body_login_client(sub: &mut McDeserializer, id: i32) -> (r: Option<Packet>)
    ensures
        match spec_packet_body_parse_login_client(old(sub).remaining(), id) {
            Some(Ok((v, k))) => r matches Some(p) && p.deep_view() == v,
            _ => r is None,
        },
{
    read_packet_body_login_client_0(sub, id)
}

#[verifier::spinoff_prover]
#[verifier::rlimit(100)]
fn read_packet_body_login_server_0(sub: &mut McDeserializer, id: i32) -> (r: Option<Packet>)
    ensures
        match spec_packet_body_parse_login_server_0(old(sub).remaining(), id) {
            Some(Ok((v, k))) => r matches Some(p) && p.deep_view() == v,
            _ => r is None,
        },
{
    if id == 2 {
        match LoginPluginResponsePacket::mc_deserialize(sub) { Ok(b) => Some(Packet::LoginPluginResponse(b)), Err(_) => None }
    } else if id == 3 {
        match LoginAcknowledgedPacket::mc_deserialize(sub) { Ok(b) => Some(Packet::LoginAcknowledged(b)), Err(_) => None }
    } else if id == 4 {
        match LoginCookieResponsePacket::mc_deserialize(sub) { Ok(b) => Some(Packet::LoginCookieResponse(b)), Err(_) => None }
    } else {
        None
    }
}

fn read_packet_body_login_server(sub: &mut McDeserializer, id: i32) -> (r: Option<Packet>)
    ensures
        match spec_packet_body_parse_login_server(old(sub).remaining(), id) {
            Some(Ok((v, k))) => r matches Some(p) && p.deep_view() == v,
            _ => r is None,
        },
{
    read_packet_body_login_server_0(sub, id)
}

#[verifier::spinoff_prover]
#[verifier::rlimit(100)]
fn read_packet_body_configuration_client_0(sub: &mut McDeserializer, id: i32) -> (r: Option<Packet>)
    ensures
        match spec_packet_body_parse_configuration_client_0(old(sub).remaining(), id) {
            Some(Ok((v, k))) => r matches Some(p) && p.deep_view() == v,
            _ => r is None,
        },
{
    if id == 0 {
        match ConfigCookieRequestPacket::mc_deserialize(sub) { Ok(b) => Some(Packet::ConfigCookieRequest(b)), Err(_) => None }
    } else if id == 1 {
        match ClientboundPluginMessagePacket::mc_deserialize(sub) { Ok(b) => Some(Packet::ClientboundPluginMessage(b)), Err(_) => None }
    } else if id == 3 {
        match FinishConfigurationPacket::mc_deserialize(sub) { Ok(b) => Some(Packet::FinishConfiguration(b)), Err(_) => None }
    } else if id == 4 {
        match KeepAlivePacket::mc_deserialize(sub) { Ok(b) => Some(Packet::KeepAlive(b)), Err(_) => None }
    } else if id == 5 {
        match ConfigurationPingPacket::mc_deserialize(sub) { Ok(b) => Some(Packet::ConfigurationPing(b)), Err(_) => None }
    } else if id == 6 {
        match ResetChatPacket::mc_deserialize(sub) { Ok(b) => Some(Packet::ResetChat(b)), Err(_) => None }
    } else if id == 7 {
        match RegistryDataPacket::mc_deserialize(sub) { Ok(b) => Some(Packet::RegistryData(b)), Err(_) => None }
    } else if id == 10 {
        match ConfigStoreCookiePacket::mc_deserialize(sub) { Ok(b) => Some(Packet::ConfigStoreCookie(b)), Err(_) => None }
    } else if id == 11 {
        match ConfigTransferPacket::mc_deserialize(sub) { Ok(b) => Some(Packet::ConfigTransfer(b)), Err(_) => None }
    } else if id == 14 {
        match ClientboundKnownPacksPacket::mc_deserialize(sub) { Ok(b) => Some(Packet::ClientboundKnownPacks(b)), Err(_) => None }
    } else if id == 15 {
        match ConfigCustomReportDetailsPacket::mc_deserialize(sub) { Ok(b) => Some(Packet::ConfigCustomReportDetails(b)), Err(_) => None }
    } else {
        None
    }
}

fn read_packet_body_configuration_client(sub: &mut McDeserializer, id: i32) -> (r: Option<Packet>)
    ensures
        match spec_packet_body_parse_configuration_client(old(sub).remaining(), id) {
            Some(Ok((v, k))) => r matches Some(p) && p.deep_view() == v,
            _ => r is None,
        },
{
    read_packet_body_configuration_client_0(sub, id)
}

#[verifier::spinoff_prover]
#[verifier::rlimit(100)]
fn read_packet_body_configuration_server_0(sub: &mut McDeserializer, id: i32) -> (r: Option<Packet>)
    ensures
        match spec_packet_body_parse_configuration_server_0(old(sub).remaining(), id) {
            Some(Ok((v, k))) => r matches Some(p) && p.deep_view() == v,
            _ => r is None,
        },
{
    if id == 0 {
        match ClientInformationPacket::mc_deserialize(sub) { Ok(b) => Some(Packet::ClientInformation(b)), Err(_) => None }
    } else if id == 1 {
        match CookieResponsePacket::mc_deserialize(sub) { Ok(b) => Some(Packet::CookieResponse(b)), Err(_) => None }
    } else if id == 2 {
        match ServerboundPluginMessagePacket::mc_deserialize(sub) { Ok(b) => Some(Packet::ServerboundPluginMessage(b)), Err(_) => None }
    } else if id == 3 {
        match AcknowledgeFinishConfigurationPacket::mc_deserialize(sub) { Ok(b) => Some(Packet::AcknowledgeFinishConfiguration(b)), Err(_) => None }
    } else if id == 4 {
        match ServerboundKeepAliveConfigPacket::mc_deserialize(sub) { Ok(b) => Some(Packet::ServerboundKeepAliveConfig(b)), Err(_) => None }
    } else if id == 5 {
        match ConfigPongPacket::mc_deserialize(sub) { Ok(b) => Some(Packet::ConfigPong(b)), Err(_) => None }
    } else if id == 7 {
        match ServerboundKnownPacksPacket::mc_deserialize(sub) { Ok(b) => Some(Packet::ServerboundKnownPacks(b)), Err(_) => None }
    } else if id == 8 {
        match ConfigCustomClickActionPacket::mc_deserialize(sub) { Ok(b) => Some(Packet::ConfigCustomClickAction(b)), Err(_) => None }
    } else {
        None
    }
}

fn read_packet_body_configuration_server(sub: &mut McDeserializer, id: i32) -> (r: Option<Packet>)
    ensures
        match spec_packet_body_parse_configuration_server(old(sub).remaining(), id) {
            Some(Ok((v, k))) => r matches Some(p) && p.deep_view() == v,
            _ => r is None,
        },
{
    read_packet_body_configuration_server_0(sub, id)
}

#[verifier::spinoff_prover]
#[verifier::rlimit(100)]
fn read_packet_body_play_client_0(sub: &mut McDeserializer, id: i32) -> (r: Option<Packet>)
    ensures
        match spec_packet_body_parse_play_client_0(old(sub).remaining(), id) {
            Some(Ok((v, k))) => r matches Some(p) && p.deep_view() == v,
            _ => r is None,
        },
{
    if id == 0 {
        match BundleDelimiterPacket::mc_deserialize(sub) { Ok(b) => Some(Packet::BundleDelimiter(b)), Err(_) => None }
    } else if id == 2 {
        match EntityAnimationPacket::mc_deserialize(sub) { Ok(b) => Some(Packet::EntityAnimation(b)), Err(_) => None }
    } else if id == 3 {
        match AwardStatisticsPacket::mc_deserialize(sub) { Ok(b) => Some(Packet::AwardStatistics(b)), Err(_) => None }
    } else if id == 4 {
        match AcknowledgeBlockChangePacket::mc_deserialize(sub) { Ok(b) => Some(Packet::AcknowledgeBlockChange(b)), Err(_) => None }
    } else if id == 5 {
        match SetBlockDestroyStagePacket::mc_deserialize(sub) { Ok(b) => Some(Packet::SetBlockDestroyStage(b)), Err(_) => None }
    } else if id == 7 {
        match BlockActionPacket::mc_deserialize(sub) { Ok(b) => Some(Packet::BlockAction(b)), Err(_) => None }
    } else if id == 8 {
        match BlockUpdatePacket::mc_deserialize(sub) { Ok(b) => Some(Packet::BlockUpdate(b)), Err(_) => None }
    } else if id == 11 {
        match ChunkBatchFinishedPacket::mc_deserialize(sub) { Ok(b) => Some(Packet::ChunkBatchFinished(b)), Err(_) => None }
    } else if id == 12 {
        match ChunkBatchStartPacket::mc_deserialize(sub) { Ok(b) => Some(Packet::ChunkBatchStart(b)), Err(_) => None }
    } else if id == 13 {
        match ChunkBiomesPacket::mc_deserialize(sub) { Ok(b) => Some(Packet::ChunkBiomes(b)), Err(_) => None }
    } else if id == 14 {
        match ClearTitlesPacket::mc_deserialize(sub) { Ok(b) => Some(Packet::ClearTitles(b)), Err(_) => None }
    } else if id == 17 {
        match CloseContainerPacket::mc_deserialize(sub) { Ok(b) => Some(Packet::CloseContainer(b)), Err(_) => None }
    } else if id == 19 {
        match SetContainerPropertyPacket::mc_deserialize(sub) { Ok(b) => Some(Packet::SetContainerProperty(b)), Err(_) => None }
    } else if id == 21 {
        match CookieRequestPlayPacket::mc_deserialize(sub) { Ok(b) => Some(Packet::CookieRequestPlay(b)), Err(_) => None }
    } else if id == 22 {
        match SetCooldownPacket::mc_deserialize(sub) { Ok(b) => Some(Packet::SetCooldown(b)), Err(_) => None }
    } else if id == 23 {
        match ChatSuggestionsPacket::mc_deserialize(sub) { Ok(b) => Some(Packet::ChatSuggestions(b)), Err(_) => None }
    } else if id == 24 {
        match ClientboundPluginMessagePlayPacket::mc_deserialize(sub) { Ok(b) => Some(Packet::ClientboundPluginMessagePlay(b)), Err(_) => None }
    } else if id == 30 {
        match DebugSamplePacket::mc_deserialize(sub) { Ok(b) => Some(Packet::DebugSample(b)), Err(_) => None }
    } else if id == 34 {
        match EntityEventPacket::mc_deserialize(sub) { Ok(b) => Some(Packet::EntityEvent(b)), Err(_) => None }
    } else if id == 35 {
        match TeleportEntityPacket::mc_deserialize(sub) { Ok(b) => Some(Packet::TeleportEntity(b)), Err(_) => None }
    } else if id == 37 {
        match UnloadChunkPacket::mc_deserialize(sub) { Ok(b) => Some(Packet::UnloadChunk(b)), Err(_) => None }
    } else if id == 38 {
        match GameEventPacket::mc_deserialize(sub) { Ok(b) => Some(Packet::GameEvent(b)), Err(_) => None }
    } else if id == 39 {
        match GameTestHighlightPositionPacket::mc_deserialize(sub) { Ok(b) => Some(Packet::GameTestHighlightPosition(b)), Err(_) => None }
    } else if id == 40 {
        match OpenHorseScreenPacket::mc_deserialize(sub) { Ok(b) => Some(Packet::OpenHorseScreen(b)), Err(_) => None }
    } else {
        None
    }
}

#[verifier::spinoff_prover]
#[verifier::rlimit(100)]
fn read_packet_body_play_client_1(sub: &mut McDeserializer, id: i32) -> (r: Option<Packet>)
    ensures
        match spec_packet_body_parse_play_client_1(old(sub).remaining(), id) {
            Some(Ok((v, k))) => r matches Some(p) && p.deep_view() == v,
            _ => r is None,
        },
{
    if id == 41 {
        match HurtAnimationPacket::mc_deserialize(sub) { Ok(b) => Some(Packet::HurtAnimation(b)), Err(_) => None }
    } else if id == 43 {
        match ClientboundKeepAlivePacket::mc_deserialize(sub) { Ok(b) => Some(Packet::ClientboundKeepAlive(b)), Err(_) => None }
    } else if id == 44 {
        match ChunkDataUpdateLightPacket::mc_deserialize(sub) { Ok(b) => Some(Packet::ChunkDataUpdateLight(b)), Err(_) => None }
    } else if id == 47 {
        match UpdateLightPacket::mc_deserialize(sub) { Ok(b) => Some(Packet::UpdateLight(b)), Err(_) => None }
    } else if id == 51 {
        match UpdateEntityPositionPacket::mc_deserialize(sub) { Ok(b) => Some(Packet::UpdateEntityPosition(b)), Err(_) => None }
    } else if id == 55 {
        match MoveVehiclePacket::mc_deserialize(sub) { Ok(b) => Some(Packet::MoveVehicle(b)), Err(_) => None }
    } else if id == 56 {
        match OpenBookPacket::mc_deserialize(sub) { Ok(b) => Some(Packet::OpenBook(b)), Err(_) => None }
    } else if id == 58 {
        match OpenSignEditorPacket::mc_deserialize(sub) { Ok(b) => Some(Packet::OpenSignEditor(b)), Err(_) => None }
    } else if id == 59 {
        match PingPlayPacket::mc_deserialize(sub) { Ok(b) => Some(Packet::PingPlay(b)), Err(_) => None }
    } else if id == 60 {
        match PingResponsePlayPacket::mc_deserialize(sub) { Ok(b) => Some(Packet::PingResponsePlay(b)), Err(_) => None }
    } else if id == 62 {
        match PlayerAbilitiesPacket::mc_deserialize(sub) { Ok(b) => Some(Packet::PlayerAbilities(b)), Err(_) => None }
    } else if id == 64 {
        match EndCombatPacket::mc_deserialize(sub) { Ok(b) => Some(Packet::EndCombat(b)), Err(_) => None }
    } else if id == 65 {
        match EnterCombatPacket::mc_deserialize(sub) { Ok(b) => Some(Packet::EnterCombat(b)), Err(_) => None }
    } else if id == 71 {
        match PlayerRotationPacket::mc_deserialize(sub) { Ok(b) => Some(Packet::PlayerRotation(b)), Err(_) => None }
    } else if id == 73 {
        match RecipeBookRemovePacket::mc_deserialize(sub) { Ok(b) => Some(Packet::RecipeBookRemove(b)), Err(_) => None }
    } else if id == 74 {
        match RecipeBookSettingsPacket::mc_deserialize(sub) { Ok(b) => Some(Packet::RecipeBookSettings(b)), Err(_) => None }
    } else if id == 75 {
        match RemoveEntitiesPacket::mc_deserialize(sub) { Ok(b) => Some(Packet::RemoveEntities(b)), Err(_) => None }
    } else if id == 76 {
        match RemoveEntityEffectPacket::mc_deserialize(sub) { Ok(b) => Some(Packet::RemoveEntityEffect(b)), Err(_) => None }
    } else if id == 77 {
        match ResetScorePacket::mc_deserialize(sub) { Ok(b) => Some(Packet::ResetScore(b)), Err(_) => None }
    } else if id == 83 {
        match SelectAdvancementsTabPacket::mc_deserialize(sub) { Ok(b) => Some(Packet::SelectAdvancementsTab(b)), Err(_) => None }
    } else if id == 86 {
        match SetBorderCenterPacket::mc_deserialize(sub) { Ok(b) => Some(Packet::SetBorderCenter(b)), Err(_) => None }
    } else if id == 88 {
        match SetBorderSizePacket::mc_deserialize(sub) { Ok(b) => Some(Packet::SetBorderSize(b)), Err(_) => None }
    } else if id == 89 {
        match SetBorderWarningDelayPacket::mc_deserialize(sub) { Ok(b) => Some(Packet::SetBorderWarningDelay(b)), Err(_) => None }
    } else if id == 90 {
        match SetBorderWarningDistancePacket::mc_deserialize(sub) { Ok(b) => Some(Packet::SetBorderWarningDistance(b)), Err(_) => None }
    } else {
        None
    }
}

#[verifier::spinoff_prover]
#[verifier::rlimit(100)]
fn read_packet_body_play_client_2(sub: &mut McDeserializer, id: i32) -> (r: Option<Packet>)
    ensures
        match spec_packet_body_parse_play_client_2(old(sub).remaining(), id) {
            Some(Ok((v, k))) => r matches Some(p) && p.deep_view() == v,
            _ => r is None,
        },
{
    if id == 91 {
        match SetCameraPacket::mc_deserialize(sub) { Ok(b) => Some(Packet::SetCamera(b)), Err(_) => None }
    } else if id == 92 {
        match SetCenterChunkPacket::mc_deserialize(sub) { Ok(b) => Some(Packet::SetCenterChunk(b)), Err(_) => None }
    } else if id == 93 {
        match SetRenderDistancePacket::mc_deserialize(sub) { Ok(b) => Some(Packet::SetRenderDistance(b)), Err(_) => None }
    } else if id == 95 {
        match SetDefaultSpawnPositionPacket::mc_deserialize(sub) { Ok(b) => Some(Packet::SetDefaultSpawnPosition(b)), Err(_) => None }
    } else if id == 96 {
        match DisplayObjectivePacket::mc_deserialize(sub) { Ok(b) => Some(Packet::DisplayObjective(b)), Err(_) => None }
    } else if id == 98 {
        match LinkEntriesPacket::mc_deserialize(sub) { Ok(b) => Some(Packet::LinkEntries(b)), Err(_) => None }
    } else if id == 101 {
        match SetExperiencePacket::mc_deserialize(sub) { Ok(b) => Some(Packet::SetExperience(b)), Err(_) => None }
    } else if id == 102 {
        match SetHealthPacket::mc_deserialize(sub) { Ok(b) => Some(Packet::SetHealth(b)), Err(_) => None }
    } else if id == 103 {
        match SetHeldItemPacket::mc_deserialize(sub) { Ok(b) => Some(Packet::SetHeldItem(b)), Err(_) => None }
    } else if id == 105 {
        match SetPassengersPacket::mc_deserialize(sub) { Ok(b) => Some(Packet::SetPassengers(b)), Err(_) => None }
    } else if id == 109 {
        match SetSimulationDistancePacket::mc_deserialize(sub) { Ok(b) => Some(Packet::SetSimulationDistance(b)), Err(_) => None }
    } else if id == 111 {
        match UpdateTimePacket::mc_deserialize(sub) { Ok(b) => Some(Packet::UpdateTime(b)), Err(_) => None }
    } else if id == 113 {
        match SetTitleAnimationTimesPacket::mc_deserialize(sub) { Ok(b) => Some(Packet::SetTitleAnimationTimes(b)), Err(_) => None }
    } else if id == 116 {
        match StartConfigurationPacket::mc_deserialize(sub) { Ok(b) => Some(Packet::StartConfiguration(b)), Err(_) => None }
    } else if id == 117 {
        match StopSoundPacket::mc_deserialize(sub) { Ok(b) => Some(Packet::StopSound(b)), Err(_) => None }
    } else if id == 118 {
        match StoreCookiePacket::mc_deserialize(sub) { Ok(b) => Some(Packet::StoreCookie(b)), Err(_) => None }
    } else if id == 122 {
        match PickupItemPacket::mc_deserialize(sub) { Ok(b) => Some(Packet::PickupItem(b)), Err(_) => None }
    } else if id == 125 {
        match SetTickingStatePacket::mc_deserialize(sub) { Ok(b) => Some(Packet::SetTickingState(b)), Err(_) => None }
    } else if id == 126 {
        match StepTickPacket::mc_deserialize(sub) { Ok(b) => Some(Packet::StepTick(b)), Err(_) => None }
    } else if id == 127 {
        match TransferPacket::mc_deserialize(sub) { Ok(b) => Some(Packet::Transfer(b)), Err(_) => None }
    } else if id == 130 {
        match EntityEffectPacket::mc_deserialize(sub) { Ok(b) => Some(Packet::EntityEffect(b)), Err(_) => None }
    } else if id == 133 {
        match ProjectilePowerPacket::mc_deserialize(sub) { Ok(b) => Some(Packet::ProjectilePower(b)), Err(_) => None }
    } else if id == 134 {
        match CustomReportDetailsPacket::mc_deserialize(sub) { Ok(b) => Some(Packet::CustomReportDetails(b)), Err(_) => None }
    } else if id == 137 {
        match ClearDialogPacket::mc_deserialize(sub) { Ok(b) => Some(Packet::ClearDialog(b)), Err(_) => None }
    } else {
        None
    }
}

fn read_packet_body_play_client(sub: &mut McDeserializer, id: i32) -> (r: Option<Packet>)
    ensures
        match spec_packet_body_parse_play_client(old(sub).remaining(), id) {
            Some(Ok((v, k))) => r matches Some(p) && p.deep_view() == v,
            _ => r is None,
        },
{
    if id < 41 {
        read_packet_body_play_client_0(sub, id)
    } else if id < 91 {
        read_packet_body_play_client_1(sub, id)
    } else {
        read_packet_body_play_client_2(sub, id)
    }
}

#[verifier::spinoff_prover]
#[verifier::rlimit(100)]
fn read_packet_body_play_server_0(sub: &mut McDeserializer, id: i32) -> (r: Option<Packet>)
    ensures
        match spec_packet_body_parse_play_server_0(old(sub).remaining(), id) {
            Some(Ok((v, k))) => r matches Some(p) && p.deep_view() == v,
            _ => r is None,
        },
{
    if id == 0 {
        match ConfirmTeleportPacket::mc_deserialize(sub) { Ok(b) => Some(Packet::ConfirmTeleport(b)), Err(_) => None }
    } else if id == 1 {
        match QueryBlockEntityTagPacket::mc_deserialize(sub) { Ok(b) => Some(Packet::QueryBlockEntityTag(b)), Err(_) => None }
    } else if id == 2 {
        match BundleItemSelectedPacket::mc_deserialize(sub) { Ok(b) => Some(Packet::BundleItemSelected(b)), Err(_) => None }
    } else if id == 4 {
        match ChangeGameModePacket::mc_deserialize(sub) { Ok(b) => Some(Packet::ChangeGameMode(b)), Err(_) => None }
    } else if id == 5 {
        match AcknowledgeMessagePacket::mc_deserialize(sub) { Ok(b) => Some(Packet::AcknowledgeMessage(b)), Err(_) => None }
    } else if id == 6 {
        match ChatCommandPacket::mc_deserialize(sub) { Ok(b) => Some(Packet::ChatCommand(b)), Err(_) => None }
    } else if id == 10 {
        match ChunkBatchReceivedPacket::mc_deserialize(sub) { Ok(b) => Some(Packet::ChunkBatchReceived(b)), Err(_) => None }
    } else if id == 11 {
        match ClientCommandPacket::mc_deserialize(sub) { Ok(b) => Some(Packet::ClientCommand(b)), Err(_) => None }
    } else if id == 12 {
        match ClientTickEndPacket::mc_deserialize(sub) { Ok(b) => Some(Packet::ClientTickEnd(b)), Err(_) => None }
    } else if id == 13 {
        match ClientInformationPlayPacket::mc_deserialize(sub) { Ok(b) => Some(Packet::ClientInformationPlay(b)), Err(_) => None }
    } else if id == 14 {
        match CommandSuggestionsRequestPacket::mc_deserialize(sub) { Ok(b) => Some(Packet::CommandSuggestionsRequest(b)), Err(_) => None }
    } else if id == 15 {
        match AcknowledgeConfigurationPacket::mc_deserialize(sub) { Ok(b) => Some(Packet::AcknowledgeConfiguration(b)), Err(_) => None }
    } else if id == 16 {
        match ClickContainerButtonPacket::mc_deserialize(sub) { Ok(b) => Some(Packet::ClickContainerButton(b)), Err(_) => None }
    } else if id == 18 {
        match CloseContainerServerPacket::mc_deserialize(sub) { Ok(b) => Some(Packet::CloseContainerServer(b)), Err(_) => None }
    } else if id == 19 {
        match ChangeContainerSlotStatePacket::mc_deserialize(sub) { Ok(b) => Some(Packet::ChangeContainerSlotState(b)), Err(_) => None }
    } else if id == 20 {
        match CookieResponsePlayPacket::mc_deserialize(sub) { Ok(b) => Some(Packet::CookieResponsePlay(b)), Err(_) => None }
    } else if id == 21 {
        match ServerboundPluginMessagePlayPacket::mc_deserialize(sub) { Ok(b) => Some(Packet::ServerboundPluginMessagePlay(b)), Err(_) => None }
    } else if id == 22 {
        match DebugSubscriptionRequestPacket::mc_deserialize(sub) { Ok(b) => Some(Packet::DebugSubscriptionRequest(b)), Err(_) => None }
    } else if id == 23 {
        match EditBookPacket::mc_deserialize(sub) { Ok(b) => Some(Packet::EditBook(b)), Err(_) => None }
    } else if id == 24 {
        match QueryEntityTagPacket::mc_deserialize(sub) { Ok(b) => Some(Packet::QueryEntityTag(b)), Err(_) => None }
    } else if id == 26 {
        match JigsawGeneratePacket::mc_deserialize(sub) { Ok(b) => Some(Packet::JigsawGenerate(b)), Err(_) => None }
    } else if id == 27 {
        match ServerboundKeepAlivePacket::mc_deserialize(sub) { Ok(b) => Some(Packet::ServerboundKeepAlive(b)), Err(_) => None }
    } else if id == 28 {
        match LockDifficultyPacket::mc_deserialize(sub) { Ok(b) => Some(Packet::LockDifficulty(b)), Err(_) => None }
    } else if id == 29 {
        match SetPlayerPositionPacket::mc_deserialize(sub) { Ok(b) => Some(Packet::SetPlayerPosition(b)), Err(_) => None }
    } else {
        None
    }
}

#[verifier::spinoff_prover]
#[verifier::rlimit(100)]
fn read_packet_body_play_server_1(sub: &mut McDeserializer, id: i32) -> (r: Option<Packet>)
    ensures
        match spec_packet_body_parse_play_server_1(old(sub).remaining(), id) {
            Some(Ok((v, k))) => r matches Some(p) && p.deep_view() == v,
            _ => r is None,
        },
{
    if id == 30 {
        match SetPlayerPositionRotationPacket::mc_deserialize(sub) { Ok(b) => Some(Packet::SetPlayerPositionRotation(b)), Err(_) => None }
    } else if id == 31 {
        match SetPlayerRotationPacket::mc_deserialize(sub) { Ok(b) => Some(Packet::SetPlayerRotation(b)), Err(_) => None }
    } else if id == 32 {
        match SetPlayerMovementFlagsPacket::mc_deserialize(sub) { Ok(b) => Some(Packet::SetPlayerMovementFlags(b)), Err(_) => None }
    } else if id == 33 {
        match MoveVehicleServerPacket::mc_deserialize(sub) { Ok(b) => Some(Packet::MoveVehicleServer(b)), Err(_) => None }
    } else if id == 34 {
        match PaddleBoatPacket::mc_deserialize(sub) { Ok(b) => Some(Packet::PaddleBoat(b)), Err(_) => None }
    } else if id == 35 {
        match PickItemFromBlockPacket::mc_deserialize(sub) { Ok(b) => Some(Packet::PickItemFromBlock(b)), Err(_) => None }
    } else if id == 36 {
        match PickItemFromEntityPacket::mc_deserialize(sub) { Ok(b) => Some(Packet::PickItemFromEntity(b)), Err(_) => None }
    } else if id == 37 {
        match PingRequestPlayPacket::mc_deserialize(sub) { Ok(b) => Some(Packet::PingRequestPlay(b)), Err(_) => None }
    } else if id == 38 {
        match PlaceRecipePacket::mc_deserialize(sub) { Ok(b) => Some(Packet::PlaceRecipe(b)), Err(_) => None }
    } else if id == 39 {
        match PlayerAbilitiesServerPacket::mc_deserialize(sub) { Ok(b) => Some(Packet::PlayerAbilitiesServer(b)), Err(_) => None }
    } else if id == 40 {
        match PlayerActionPacket::mc_deserialize(sub) { Ok(b) => Some(Packet::PlayerAction(b)), Err(_) => None }
    } else if id == 41 {
        match PlayerCommandPacket::mc_deserialize(sub) { Ok(b) => Some(Packet::PlayerCommand(b)), Err(_) => None }
    } else if id == 42 {
        match PlayerInputPacket::mc_deserialize(sub) { Ok(b) => Some(Packet::PlayerInput(b)), Err(_) => None }
    } else if id == 43 {
        match PlayerLoadedPacket::mc_deserialize(sub) { Ok(b) => Some(Packet::PlayerLoaded(b)), Err(_) => None }
    } else if id == 44 {
        match PongPlayPacket::mc_deserialize(sub) { Ok(b) => Some(Packet::PongPlay(b)), Err(_) => None }
    } else if id == 45 {
        match ChangeRecipeBookSettingsPacket::mc_deserialize(sub) { Ok(b) => Some(Packet::ChangeRecipeBookSettings(b)), Err(_) => None }
    } else if id == 46 {
        match SetSeenRecipePacket::mc_deserialize(sub) { Ok(b) => Some(Packet::SetSeenRecipe(b)), Err(_) => None }
    } else if id == 47 {
        match RenameItemPacket::mc_deserialize(sub) { Ok(b) => Some(Packet::RenameItem(b)), Err(_) => None }
    } else if id == 50 {
        match SelectTradePacket::mc_deserialize(sub) { Ok(b) => Some(Packet::SelectTrade(b)), Err(_) => None }
    } else if id == 51 {
        match SetBeaconEffectPacket::mc_deserialize(sub) { Ok(b) => Some(Packet::SetBeaconEffect(b)), Err(_) => None }
    } else if id == 52 {
        match SetHeldItemServerPacket::mc_deserialize(sub) { Ok(b) => Some(Packet::SetHeldItemServer(b)), Err(_) => None }
    } else if id == 54 {
        match ProgramCommandBlockMinecartPacket::mc_deserialize(sub) { Ok(b) => Some(Packet::ProgramCommandBlockMinecart(b)), Err(_) => None }
    } else if id == 56 {
        match ProgramJigsawBlockPacket::mc_deserialize(sub) { Ok(b) => Some(Packet::ProgramJigsawBlock(b)), Err(_) => None }
    } else if id == 58 {
        match SetTestBlockPacket::mc_deserialize(sub) { Ok(b) => Some(Packet::SetTestBlock(b)), Err(_) => None }
    } else {
        None
    }
}

#[verifier::spinoff_prover]
#[verifier::rlimit(100)]
fn read_packet_body_play_server_2(sub: &mut McDeserializer, id: i32) -> (r: Option<Packet>)
    ensures
        match spec_packet_body_parse_play_server_2(old(sub).remaining(), id) {
            Some(Ok((v, k))) => r matches Some(p) && p.deep_view() == v,
            _ => r is None,
        },
{
    if id == 59 {
        match UpdateSignPacket::mc_deserialize(sub) { Ok(b) => Some(Packet::UpdateSign(b)), Err(_) => None }
    } else if id == 60 {
        match SwingArmPacket::mc_deserialize(sub) { Ok(b) => Some(Packet::SwingArm(b)), Err(_) => None }
    } else if id == 65 {
        match CustomClickActionPacket::mc_deserialize(sub) { Ok(b) => Some(Packet::CustomClickAction(b)), Err(_) => None }
    } else {
        None
    }
}

fn read_packet_body_play_server(sub: &mut McDeserializer, id: i32) -> (r: Option<Packet>)
    ensures
        match spec_packet_body_parse_play_server(old(sub).remaining(), id) {
            Some(Ok((v, k))) => r matches Some(p) && p.deep_view() == v,
            _ => r is None,
        },
{
    if id < 30 {
        read_packet_body_play_server_0(sub, id)
    } else if id < 59 {
        read_packet_body_play_server_1(sub, id)
    } else {
        read_packet_body_play_server_2(sub, id)
    }
}

/// The message for a packet that matches none, formatted by std's `format!`; nothing is claimed
/// of its text.
#[verifier::external_body]
fn no_matching_packet_message(dir: PacketDirection, state: PacketState, id: i32) -> String {
    format!("Could not find matching packet for direction {:?} and state {:?} with packet id '0x{:X}'.", dir, state, id)
}

impl Packet {
    /// The id of this packet.
    pub fn packet_id(&self) -> (r: VarInt)
        ensures
            r.0 == spec_packet_id(self.deep_view()),
    {
        match self {
            Packet::Handshaking(_) => VarInt(0x00),
            Packet::PingResponse(_) => VarInt(0x01),
            Packet::StatusRequest(_) => VarInt(0x00),
            Packet::PingRequest(_) => VarInt(0x01),
            Packet::SetCompression(_) => VarInt(0x03),
            Packet::LoginPluginRequest(_) => VarInt(0x04),
            Packet::LoginCookieRequest(_) => VarInt(0x05),
            Packet::LoginPluginResponse(_) => VarInt(0x02),
            Packet::LoginAcknowledged(_) => VarInt(0x03),
            Packet::LoginCookieResponse(_) => VarInt(0x04),
            Packet::ConfigCookieRequest(_) => VarInt(0x00),
            Packet::ClientboundPluginMessage(_) => VarInt(0x01),
            Packet::FinishConfiguration(_) => VarInt(0x03),
            Packet::KeepAlive(_) => VarInt(0x04),
            Packet::ConfigurationPing(_) => VarInt(0x05),
            Packet::ResetChat(_) => VarInt(0x06),
            Packet::RegistryData(_) => VarInt(0x07),
            Packet::ConfigStoreCookie(_) => VarInt(0x0A),
            Packet::ConfigTransfer(_) => VarInt(0x0B),
            Packet::ClientboundKnownPacks(_) => VarInt(0x0E),
            Packet::ConfigCustomReportDetails(_) => VarInt(0x0F),
            Packet::ClientInformation(_) => VarInt(0x00),
            Packet::CookieResponse(_) => VarInt(0x01),
            Packet::ServerboundPluginMessage(_) => VarInt(0x02),
            Packet::AcknowledgeFinishConfiguration(_) => VarInt(0x03),
            Packet::ServerboundKeepAliveConfig(_) => VarInt(0x04),
            Packet::ConfigPong(_) => VarInt(0x05),
            Packet::ServerboundKnownPacks(_) => VarInt(0x07),
            Packet::ConfigCustomClickAction(_) => VarInt(0x08),
            Packet::BundleDelimiter(_) => VarInt(0x00),
            Packet::EntityAnimation(_) => VarInt(0x02),
            Packet::AwardStatistics(_) => VarInt(0x03),
            Packet::AcknowledgeBlockChange(_) => VarInt(0x04),
            Packet::SetBlockDestroyStage(_) => VarInt(0x05),
            Packet::BlockAction(_) => VarInt(0x07),
            Packet::BlockUpdate(_) => VarInt(0x08),
            Packet::ChunkBatchFinished(_) => VarInt(0x0B),
            Packet::ChunkBatchStart(_) => VarInt(0x0C),
            Packet::ChunkBiomes(_) => VarInt(0x0D),
            Packet::ClearTitles(_) => VarInt(0x0E),
            Packet::CloseContainer(_) => VarInt(0x11),
            Packet::SetContainerProperty(_) => VarInt(0x13),
            Packet::CookieRequestPlay(_) => VarInt(0x15),
            Packet::SetCooldown(_) => VarInt(0x16),
            Packet::ChatSuggestions(_) => VarInt(0x17),
            Packet::ClientboundPluginMessagePlay(_) => VarInt(0x18),
            Packet::DebugSample(_) => VarInt(0x1E),
            Packet::EntityEvent(_) => VarInt(0x22),
            Packet::TeleportEntity(_) => VarInt(0x23),
            Packet::UnloadChunk(_) => VarInt(0x25),
            Packet::GameEvent(_) => VarInt(0x26),
            Packet::GameTestHighlightPosition(_) => VarInt(0x27),
            Packet::OpenHorseScreen(_) => VarInt(0x28),
            Packet::HurtAnimation(_) => VarInt(0x29),
            Packet::ClientboundKeepAlive(_) => VarInt(0x2B),
            Packet::ChunkDataUpdateLight(_) => VarInt(0x2C),
            Packet::UpdateLight(_) => VarInt(0x2F),
            Packet::UpdateEntityPosition(_) => VarInt(0x33),
            Packet::MoveVehicle(_) => VarInt(0x37),
            Packet::OpenBook(_) => VarInt(0x38),
            Packet::OpenSignEditor(_) => VarInt(0x3A),
            Packet::PingPlay(_) => VarInt(0x3B),
            Packet::PingResponsePlay(_) => VarInt(0x3C),
            Packet::PlayerAbilities(_) => VarInt(0x3E),
            Packet::EndCombat(_) => VarInt(0x40),
            Packet::EnterCombat(_) => VarInt(0x41),
            Packet::PlayerRotation(_) => VarInt(0x47),
            Packet::RecipeBookRemove(_) => VarInt(0x49),
            Packet::RecipeBookSettings(_) => VarInt(0x4A),
            Packet::RemoveEntities(_) => VarInt(0x4B),
            Packet::RemoveEntityEffect(_) => VarInt(0x4C),
            Packet::ResetScore(_) => VarInt(0x4D),
            Packet::SelectAdvancementsTab(_) => VarInt(0x53),
            Packet::SetBorderCenter(_) => VarInt(0x56),
            Packet::SetBorderSize(_) => VarInt(0x58),
            Packet::SetBorderWarningDelay(_) => VarInt(0x59),
            Packet::SetBorderWarningDistance(_) => VarInt(0x5A),
            Packet::SetCamera(_) => VarInt(0x5B),
            Packet::SetCenterChunk(_) => VarInt(0x5C),
            Packet::SetRenderDistance(_) => VarInt(0x5D),
            Packet::SetDefaultSpawnPosition(_) => VarInt(0x5F),
            Packet::DisplayObjective(_) => VarInt(0x60),
            Packet::LinkEntries(_) => VarInt(0x62),
            Packet::SetExperience(_) => VarInt(0x65),
            Packet::SetHealth(_) => VarInt(0x66),
            Packet::SetHeldItem(_) => VarInt(0x67),
            Packet::SetPassengers(_) => VarInt(0x69),
            Packet::SetSimulationDistance(_) => VarInt(0x6D),
            Packet::UpdateTime(_) => VarInt(0x6F),
            Packet::SetTitleAnimationTimes(_) => VarInt(0x71),
            Packet::StartConfiguration(_) => VarInt(0x74),
            Packet::StopSound(_) => VarInt(0x75),
            Packet::StoreCookie(_) => VarInt(0x76),
            Packet::PickupItem(_) => VarInt(0x7A),
            Packet::SetTickingState(_) => VarInt(0x7D),
            Packet::StepTick(_) => VarInt(0x7E),
            Packet::Transfer(_) => VarInt(0x7F),
            Packet::EntityEffect(_) => VarInt(0x82),
            Packet::ProjectilePower(_) => VarInt(0x85),
            Packet::CustomReportDetails(_) => VarInt(0x86),
            Packet::ClearDialog(_) => VarInt(0x89),
            Packet::ConfirmTeleport(_) => VarInt(0x00),
            Packet::QueryBlockEntityTag(_) => VarInt(0x01),
            Packet::BundleItemSelected(_) => VarInt(0x02),
            Packet::ChangeGameMode(_) => VarInt(0x04),
            Packet::AcknowledgeMessage(_) => VarInt(0x05),
            Packet::ChatCommand(_) => VarInt(0x06),
            Packet::ChunkBatchReceived(_) => VarInt(0x0A),
            Packet::ClientCommand(_) => VarInt(0x0B),
            Packet::ClientTickEnd(_) => VarInt(0x0C),
            Packet::ClientInformationPlay(_) => VarInt(0x0D),
            Packet::CommandSuggestionsRequest(_) => VarInt(0x0E),
            Packet::AcknowledgeConfiguration(_) => VarInt(0x0F),
            Packet::ClickContainerButton(_) => VarInt(0x10),
            Packet::CloseContainerServer(_) => VarInt(0x12),
            Packet::ChangeContainerSlotState(_) => VarInt(0x13),
            Packet::CookieResponsePlay(_) => VarInt(0x14),
            Packet::ServerboundPluginMessagePlay(_) => VarInt(0x15),
            Packet::DebugSubscriptionRequest(_) => VarInt(0x16),
            Packet::EditBook(_) => VarInt(0x17),
            Packet::QueryEntityTag(_) => VarInt(0x18),
            Packet::JigsawGenerate(_) => VarInt(0x1A),
            Packet::ServerboundKeepAlive(_) => VarInt(0x1B),
            Packet::LockDifficulty(_) => VarInt(0x1C),
            Packet::SetPlayerPosition(_) => VarInt(0x1D),
            Packet::SetPlayerPositionRotation(_) => VarInt(0x1E),
            Packet::SetPlayerRotation(_) => VarInt(0x1F),
            Packet::SetPlayerMovementFlags(_) => VarInt(0x20),
            Packet::MoveVehicleServer(_) => VarInt(0x21),
            Packet::PaddleBoat(_) => VarInt(0x22),
            Packet::PickItemFromBlock(_) => VarInt(0x23),
            Packet::PickItemFromEntity(_) => VarInt(0x24),
            Packet::PingRequestPlay(_) => VarInt(0x25),
            Packet::PlaceRecipe(_) => VarInt(0x26),
            Packet::PlayerAbilitiesServer(_) => VarInt(0x27),
            Packet::PlayerAction(_) => VarInt(0x28),
            Packet::PlayerCommand(_) => VarInt(0x29),
            Packet::PlayerInput(_) => VarInt(0x2A),
            Packet::PlayerLoaded(_) => VarInt(0x2B),
            Packet::PongPlay(_) => VarInt(0x2C),
            Packet::ChangeRecipeBookSettings(_) => VarInt(0x2D),
            Packet::SetSeenRecipe(_) => VarInt(0x2E),
            Packet::RenameItem(_) => VarInt(0x2F),
            Packet::SelectTrade(_) => VarInt(0x32),
            Packet::SetBeaconEffect(_) => VarInt(0x33),
            Packet::SetHeldItemServer(_) => VarInt(0x34),
            Packet::ProgramCommandBlockMinecart(_) => VarInt(0x36),
            Packet::ProgramJigsawBlock(_) => VarInt(0x38),
            Packet::SetTestBlock(_) => VarInt(0x3A),
            Packet::UpdateSign(_) => VarInt(0x3B),
            Packet::SwingArm(_) => VarInt(0x3C),
            Packet::CustomClickAction(_) => VarInt(0x41),
        }
    }

    /// The state this packet is sent in.
    pub fn state(&self) -> (r: PacketState)
        ensures
            r == spec_packet_state(self.deep_view()),
    {
        match self {
            Packet::Handshaking(_) => PacketState::HANDSHAKING,
            Packet::PingResponse(_) => PacketState::STATUS,
            Packet::StatusRequest(_) => PacketState::STATUS,
            Packet::PingRequest(_) => PacketState::STATUS,
            Packet::SetCompression(_) => PacketState::LOGIN,
            Packet::LoginPluginRequest(_) => PacketState::LOGIN,
            Packet::LoginCookieRequest(_) => PacketState::LOGIN,
            Packet::LoginPluginResponse(_) => PacketState::LOGIN,
            Packet::LoginAcknowledged(_) => PacketState::LOGIN,
            Packet::LoginCookieResponse(_) => PacketState::LOGIN,
            Packet::ConfigCookieRequest(_) => PacketState::CONFIGURATION,
            Packet::ClientboundPluginMessage(_) => PacketState::CONFIGURATION,
            Packet::FinishConfiguration(_) => PacketState::CONFIGURATION,
            Packet::KeepAlive(_) => PacketState::CONFIGURATION,
            Packet::ConfigurationPing(_) => PacketState::CONFIGURATION,
            Packet::ResetChat(_) => PacketState::CONFIGURATION,
            Packet::RegistryData(_) => PacketState::CONFIGURATION,
            Packet::ConfigStoreCookie(_) => PacketState::CONFIGURATION,
            Packet::ConfigTransfer(_) => PacketState::CONFIGURATION,
            Packet::ClientboundKnownPacks(_) => PacketState::CONFIGURATION,
            Packet::ConfigCustomReportDetails(_) => PacketState::CONFIGURATION,
            Packet::ClientInformation(_) => PacketState::CONFIGURATION,
            Packet::CookieResponse(_) => PacketState::CONFIGURATION,
            Packet::ServerboundPluginMessage(_) => PacketState::CONFIGURATION,
            Packet::AcknowledgeFinishConfiguration(_) => PacketState::CONFIGURATION,
            Packet::ServerboundKeepAliveConfig(_) => PacketState::CONFIGURATION,
            Packet::ConfigPong(_) => PacketState::CONFIGURATION,
            Packet::ServerboundKnownPacks(_) => PacketState::CONFIGURATION,
            Packet::ConfigCustomClickAction(_) => PacketState::CONFIGURATION,
            Packet::BundleDelimiter(_) => PacketState::PLAY,
            Packet::EntityAnimation(_) => PacketState::PLAY,
            Packet::AwardStatistics(_) => PacketState::PLAY,
            Packet::AcknowledgeBlockChange(_) => PacketState::PLAY,
            Packet::SetBlockDestroyStage(_) => PacketState::PLAY,
            Packet::BlockAction(_) => PacketState::PLAY,
            Packet::BlockUpdate(_) => PacketState::PLAY,
            Packet::ChunkBatchFinished(_) => PacketState::PLAY,
            Packet::ChunkBatchStart(_) => PacketState::PLAY,
            Packet::ChunkBiomes(_) => PacketState::PLAY,
            Packet::ClearTitles(_) => PacketState::PLAY,
            Packet::CloseContainer(_) => PacketState::PLAY,
            Packet::SetContainerProperty(_) => PacketState::PLAY,
            Packet::CookieRequestPlay(_) => PacketState::PLAY,
            Packet::SetCooldown(_) => PacketState::PLAY,
            Packet::ChatSuggestions(_) => PacketState::PLAY,
            Packet::ClientboundPluginMessagePlay(_) => PacketState::PLAY,
            Packet::DebugSample(_) => PacketState::PLAY,
            Packet::EntityEvent(_) => PacketState::PLAY,
            Packet::TeleportEntity(_) => PacketState::PLAY,
            Packet::UnloadChunk(_) => PacketState::PLAY,
            Packet::GameEvent(_) => PacketState::PLAY,
            Packet::GameTestHighlightPosition(_) => PacketState::PLAY,
            Packet::OpenHorseScreen(_) => PacketState::PLAY,
            Packet::HurtAnimation(_) => PacketState::PLAY,
            Packet::ClientboundKeepAlive(_) => PacketState::PLAY,
            Packet::ChunkDataUpdateLight(_) => PacketState::PLAY,
            Packet::UpdateLight(_) => PacketState::PLAY,
            Packet::UpdateEntityPosition(_) => PacketState::PLAY,
            Packet::MoveVehicle(_) => PacketState::PLAY,
            Packet::OpenBook(_) => PacketState::PLAY,
            Packet::OpenSignEditor(_) => PacketState::PLAY,
            Packet::PingPlay(_) => PacketState::PLAY,
            Packet::PingResponsePlay(_) => PacketState::PLAY,
            Packet::PlayerAbilities(_) => PacketState::PLAY,
            Packet::EndCombat(_) => PacketState::PLAY,
            Packet::EnterCombat(_) => PacketState::PLAY,
            Packet::PlayerRotation(_) => PacketState::PLAY,
            Packet::RecipeBookRemove(_) => PacketState::PLAY,
            Packet::RecipeBookSettings(_) => PacketState::PLAY,
            Packet::RemoveEntities(_) => PacketState::PLAY,
            Packet::RemoveEntityEffect(_) => PacketState::PLAY,
            Packet::ResetScore(_) => PacketState::PLAY,
            Packet::SelectAdvancementsTab(_) => PacketState::PLAY,
            Packet::SetBorderCenter(_) => PacketState::PLAY,
            Packet::SetBorderSize(_) => PacketState::PLAY,
            Packet::SetBorderWarningDelay(_) => PacketState::PLAY,
            Packet::SetBorderWarningDistance(_) => PacketState::PLAY,
            Packet::SetCamera(_) => PacketState::PLAY,
            Packet::SetCenterChunk(_) => PacketState::PLAY,
            Packet::SetRenderDistance(_) => PacketState::PLAY,
            Packet::SetDefaultSpawnPosition(_) => PacketState::PLAY,
            Packet::DisplayObjective(_) => PacketState::PLAY,
            Packet::LinkEntries(_) => PacketState::PLAY,
            Packet::SetExperience(_) => PacketState::PLAY,
            Packet::SetHealth(_) => PacketState::PLAY,
            Packet::SetHeldItem(_) => PacketState::PLAY,
            Packet::SetPassengers(_) => PacketState::PLAY,
            Packet::SetSimulationDistance(_) => PacketState::PLAY,
            Packet::UpdateTime(_) => PacketState::PLAY,
            Packet::SetTitleAnimationTimes(_) => PacketState::PLAY,
            Packet::StartConfiguration(_) => PacketState::PLAY,
            Packet::StopSound(_) => PacketState::PLAY,
            Packet::StoreCookie(_) => PacketState::PLAY,
            Packet::PickupItem(_) => PacketState::PLAY,
            Packet::SetTickingState(_) => PacketState::PLAY,
            Packet::StepTick(_) => PacketState::PLAY,
            Packet::Transfer(_) => PacketState::PLAY,
            Packet::EntityEffect(_) => PacketState::PLAY,
            Packet::ProjectilePower(_) => PacketState::PLAY,
            Packet::CustomReportDetails(_) => PacketState::PLAY,
            Packet::ClearDialog(_) => PacketState::PLAY,
            Packet::ConfirmTeleport(_) => PacketState::PLAY,
            Packet::QueryBlockEntityTag(_) => PacketState::PLAY,
            Packet::BundleItemSelected(_) => PacketState::PLAY,
            Packet::ChangeGameMode(_) => PacketState::PLAY,
            Packet::AcknowledgeMessage(_) => PacketState::PLAY,
            Packet::ChatCommand(_) => PacketState::PLAY,
            Packet::ChunkBatchReceived(_) => PacketState::PLAY,
            Packet::ClientCommand(_) => PacketState::PLAY,
            Packet::ClientTickEnd(_) => PacketState::PLAY,
            Packet::ClientInformationPlay(_) => PacketState::PLAY,
            Packet::CommandSuggestionsRequest(_) => PacketState::PLAY,
            Packet::AcknowledgeConfiguration(_) => PacketState::PLAY,
            Packet::ClickContainerButton(_) => PacketState::PLAY,
            Packet::CloseContainerServer(_) => PacketState::PLAY,
            Packet::ChangeContainerSlotState(_) => PacketState::PLAY,
            Packet::CookieResponsePlay(_) => PacketState::PLAY,
            Packet::ServerboundPluginMessagePlay(_) => PacketState::PLAY,
            Packet::DebugSubscriptionRequest(_) => PacketState::PLAY,
            Packet::EditBook(_) => PacketState::PLAY,
            Packet::QueryEntityTag(_) => PacketState::PLAY,
            Packet::JigsawGenerate(_) => PacketState::PLAY,
            Packet::ServerboundKeepAlive(_) => PacketState::PLAY,
            Packet::LockDifficulty(_) => PacketState::PLAY,
            Packet::SetPlayerPosition(_) => PacketState::PLAY,
            Packet::SetPlayerPositionRotation(_) => PacketState::PLAY,
            Packet::SetPlayerRotation(_) => PacketState::PLAY,
            Packet::SetPlayerMovementFlags(_) => PacketState::PLAY,
            Packet::MoveVehicleServer(_) => PacketState::PLAY,
            Packet::PaddleBoat(_) => PacketState::PLAY,
            Packet::PickItemFromBlock(_) => PacketState::PLAY,
            Packet::PickItemFromEntity(_) => PacketState::PLAY,
            Packet::PingRequestPlay(_) => PacketState::PLAY,
            Packet::PlaceRecipe(_) => PacketState::PLAY,
            Packet::PlayerAbilitiesServer(_) => PacketState::PLAY,
            Packet::PlayerAction(_) => PacketState::PLAY,
            Packet::PlayerCommand(_) => PacketState::PLAY,
            Packet::PlayerInput(_) => PacketState::PLAY,
            Packet::PlayerLoaded(_) => PacketState::PLAY,
            Packet::PongPlay(_) => PacketState::PLAY,
            Packet::ChangeRecipeBookSettings(_) => PacketState::PLAY,
            Packet::SetSeenRecipe(_) => PacketState::PLAY,
            Packet::RenameItem(_) => PacketState::PLAY,
            Packet::SelectTrade(_) => PacketState::PLAY,
            Packet::SetBeaconEffect(_) => PacketState::PLAY,
            Packet::SetHeldItemServer(_) => PacketState::PLAY,
            Packet::ProgramCommandBlockMinecart(_) => PacketState::PLAY,
            Packet::ProgramJigsawBlock(_) => PacketState::PLAY,
            Packet::SetTestBlock(_) => PacketState::PLAY,
            Packet::UpdateSign(_) => PacketState::PLAY,
            Packet::SwingArm(_) => PacketState::PLAY,
            Packet::CustomClickAction(_) => PacketState::PLAY,
        }
    }

    /// The direction this packet travels.
    pub fn direction(&self) -> (r: PacketDirection)
        ensures
            r == spec_packet_direction(self.deep_view()),
    {
        match self {
            Packet::Handshaking(_) => PacketDirection::SERVER,
            Packet::PingResponse(_) => PacketDirection::CLIENT,
            Packet::StatusRequest(_) => PacketDirection::SERVER,
            Packet::PingRequest(_) => PacketDirection::SERVER,
            Packet::SetCompression(_) => PacketDirection::CLIENT,
            Packet::LoginPluginRequest(_) => PacketDirection::CLIENT,
            Packet::LoginCookieRequest(_) => PacketDirection::CLIENT,
            Packet::LoginPluginResponse(_) => PacketDirection::SERVER,
            Packet::LoginAcknowledged(_) => PacketDirection::SERVER,
            Packet::LoginCookieResponse(_) => PacketDirection::SERVER,
            Packet::ConfigCookieRequest(_) => PacketDirection::CLIENT,
            Packet::ClientboundPluginMessage(_) => PacketDirection::CLIENT,
            Packet::FinishConfiguration(_) => PacketDirection::CLIENT,
            Packet::KeepAlive(_) => PacketDirection::CLIENT,
            Packet::ConfigurationPing(_) => PacketDirection::CLIENT,
            Packet::ResetChat(_) => PacketDirection::CLIENT,
            Packet::RegistryData(_) => PacketDirection::CLIENT,
            Packet::ConfigStoreCookie(_) => PacketDirection::CLIENT,
            Packet::ConfigTransfer(_) => PacketDirection::CLIENT,
            Packet::ClientboundKnownPacks(_) => PacketDirection::CLIENT,
            Packet::ConfigCustomReportDetails(_) => PacketDirection::CLIENT,
            Packet::ClientInformation(_) => PacketDirection::SERVER,
            Packet::CookieResponse(_) => PacketDirection::SERVER,
            Packet::ServerboundPluginMessage(_) => PacketDirection::SERVER,
            Packet::AcknowledgeFinishConfiguration(_) => PacketDirection::SERVER,
            Packet::ServerboundKeepAliveConfig(_) => PacketDirection::SERVER,
            Packet::ConfigPong(_) => PacketDirection::SERVER,
            Packet::ServerboundKnownPacks(_) => PacketDirection::SERVER,
            Packet::ConfigCustomClickAction(_) => PacketDirection::SERVER,
            Packet::BundleDelimiter(_) => PacketDirection::CLIENT,
            Packet::EntityAnimation(_) => PacketDirection::CLIENT,
            Packet::AwardStatistics(_) => PacketDirection::CLIENT,
            Packet::AcknowledgeBlockChange(_) => PacketDirection::CLIENT,
            Packet::SetBlockDestroyStage(_) => PacketDirection::CLIENT,
            Packet::BlockAction(_) => PacketDirection::CLIENT,
            Packet::BlockUpdate(_) => PacketDirection::CLIENT,
            Packet::ChunkBatchFinished(_) => PacketDirection::CLIENT,
            Packet::ChunkBatchStart(_) => PacketDirection::CLIENT,
            Packet::ChunkBiomes(_) => PacketDirection::CLIENT,
            Packet::ClearTitles(_) => PacketDirection::CLIENT,
            Packet::CloseContainer(_) => PacketDirection::CLIENT,
            Packet::SetContainerProperty(_) => PacketDirection::CLIENT,
            Packet::CookieRequestPlay(_) => PacketDirection::CLIENT,
            Packet::SetCooldown(_) => PacketDirection::CLIENT,
            Packet::ChatSuggestions(_) => PacketDirection::CLIENT,
            Packet::ClientboundPluginMessagePlay(_) => PacketDirection::CLIENT,
            Packet::DebugSample(_) => PacketDirection::CLIENT,
            Packet::EntityEvent(_) => PacketDirection::CLIENT,
            Packet::TeleportEntity(_) => PacketDirection::CLIENT,
            Packet::UnloadChunk(_) => PacketDirection::CLIENT,
            Packet::GameEvent(_) => PacketDirection::CLIENT,
            Packet::GameTestHighlightPosition(_) => PacketDirection::CLIENT,
            Packet::OpenHorseScreen(_) => PacketDirection::CLIENT,
            Packet::HurtAnimation(_) => PacketDirection::CLIENT,
            Packet::ClientboundKeepAlive(_) => PacketDirection::CLIENT,
            Packet::ChunkDataUpdateLight(_) => PacketDirection::CLIENT,
            Packet::UpdateLight(_) => PacketDirection::CLIENT,
            Packet::UpdateEntityPosition(_) => PacketDirection::CLIENT,
            Packet::MoveVehicle(_) => PacketDirection::CLIENT,
            Packet::OpenBook(_) => PacketDirection::CLIENT,
            Packet::OpenSignEditor(_) => PacketDirection::CLIENT,
            Packet::PingPlay(_) => PacketDirection::CLIENT,
            Packet::PingResponsePlay(_) => PacketDirection::CLIENT,
            Packet::PlayerAbilities(_) => PacketDirection::CLIENT,
            Packet::EndCombat(_) => PacketDirection::CLIENT,
            Packet::EnterCombat(_) => PacketDirection::CLIENT,
            Packet::PlayerRotation(_) => PacketDirection::CLIENT,
            Packet::RecipeBookRemove(_) => PacketDirection::CLIENT,
            Packet::RecipeBookSettings(_) => PacketDirection::CLIENT,
            Packet::RemoveEntities(_) => PacketDirection::CLIENT,
            Packet::RemoveEntityEffect(_) => PacketDirection::CLIENT,
            Packet::ResetScore(_) => PacketDirection::CLIENT,
            Packet::SelectAdvancementsTab(_) => PacketDirection::CLIENT,
            Packet::SetBorderCenter(_) => PacketDirection::CLIENT,
            Packet::SetBorderSize(_) => PacketDirection::CLIENT,
            Packet::SetBorderWarningDelay(_) => PacketDirection::CLIENT,
            Packet::SetBorderWarningDistance(_) => PacketDirection::CLIENT,
            Packet::SetCamera(_) => PacketDirection::CLIENT,
            Packet::SetCenterChunk(_) => PacketDirection::CLIENT,
            Packet::SetRenderDistance(_) => PacketDirection::CLIENT,
            Packet::SetDefaultSpawnPosition(_) => PacketDirection::CLIENT,
            Packet::DisplayObjective(_) => PacketDirection::CLIENT,
            Packet::LinkEntries(_) => PacketDirection::CLIENT,
            Packet::SetExperience(_) => PacketDirection::CLIENT,
            Packet::SetHealth(_) => PacketDirection::CLIENT,
            Packet::SetHeldItem(_) => PacketDirection::CLIENT,
            Packet::SetPassengers(_) => PacketDirection::CLIENT,
            Packet::SetSimulationDistance(_) => PacketDirection::CLIENT,
            Packet::UpdateTime(_) => PacketDirection::CLIENT,
            Packet::SetTitleAnimationTimes(_) => PacketDirection::CLIENT,
            Packet::StartConfiguration(_) => PacketDirection::CLIENT,
            Packet::StopSound(_) => PacketDirection::CLIENT,
            Packet::StoreCookie(_) => PacketDirection::CLIENT,
            Packet::PickupItem(_) => PacketDirection::CLIENT,
            Packet::SetTickingState(_) => PacketDirection::CLIENT,
            Packet::StepTick(_) => PacketDirection::CLIENT,
            Packet::Transfer(_) => PacketDirection::CLIENT,
            Packet::EntityEffect(_) => PacketDirection::CLIENT,
            Packet::ProjectilePower(_) => PacketDirection::CLIENT,
            Packet::CustomReportDetails(_) => PacketDirection::CLIENT,
            Packet::ClearDialog(_) => PacketDirection::CLIENT,
            Packet::ConfirmTeleport(_) => PacketDirection::SERVER,
            Packet::QueryBlockEntityTag(_) => PacketDirection::SERVER,
            Packet::BundleItemSelected(_) => PacketDirection::SERVER,
            Packet::ChangeGameMode(_) => PacketDirection::SERVER,
            Packet::AcknowledgeMessage(_) => PacketDirection::SERVER,
            Packet::ChatCommand(_) => PacketDirection::SERVER,
            Packet::ChunkBatchReceived(_) => PacketDirection::SERVER,
            Packet::ClientCommand(_) => PacketDirection::SERVER,
            Packet::ClientTickEnd(_) => PacketDirection::SERVER,
            Packet::ClientInformationPlay(_) => PacketDirection::SERVER,
            Packet::CommandSuggestionsRequest(_) => PacketDirection::SERVER,
            Packet::AcknowledgeConfiguration(_) => PacketDirection::SERVER,
            Packet::ClickContainerButton(_) => PacketDirection::SERVER,
            Packet::CloseContainerServer(_) => PacketDirection::SERVER,
            Packet::ChangeContainerSlotState(_) => PacketDirection::SERVER,
            Packet::CookieResponsePlay(_) => PacketDirection::SERVER,
            Packet::ServerboundPluginMessagePlay(_) => PacketDirection::SERVER,
            Packet::DebugSubscriptionRequest(_) => PacketDirection::SERVER,
            Packet::EditBook(_) => PacketDirection::SERVER,
            Packet::QueryEntityTag(_) => PacketDirection::SERVER,
            Packet::JigsawGenerate(_) => PacketDirection::SERVER,
            Packet::ServerboundKeepAlive(_) => PacketDirection::SERVER,
            Packet::LockDifficulty(_) => PacketDirection::SERVER,
            Packet::SetPlayerPosition(_) => PacketDirection::SERVER,
            Packet::SetPlayerPositionRotation(_) => PacketDirection::SERVER,
            Packet::SetPlayerRotation(_) => PacketDirection::SERVER,
            Packet::SetPlayerMovementFlags(_) => PacketDirection::SERVER,
            Packet::MoveVehicleServer(_) => PacketDirection::SERVER,
            Packet::PaddleBoat(_) => PacketDirection::SERVER,
            Packet::PickItemFromBlock(_) => PacketDirection::SERVER,
            Packet::PickItemFromEntity(_) => PacketDirection::SERVER,
            Packet::PingRequestPlay(_) => PacketDirection::SERVER,
            Packet::PlaceRecipe(_) => PacketDirection::SERVER,
            Packet::PlayerAbilitiesServer(_) => PacketDirection::SERVER,
            Packet::PlayerAction(_) => PacketDirection::SERVER,
            Packet::PlayerCommand(_) => PacketDirection::SERVER,
            Packet::PlayerInput(_) => PacketDirection::SERVER,
            Packet::PlayerLoaded(_) => PacketDirection::SERVER,
            Packet::PongPlay(_) => PacketDirection::SERVER,
            Packet::ChangeRecipeBookSettings(_) => PacketDirection::SERVER,
            Packet::SetSeenRecipe(_) => PacketDirection::SERVER,
            Packet::RenameItem(_) => PacketDirection::SERVER,
            Packet::SelectTrade(_) => PacketDirection::SERVER,
            Packet::SetBeaconEffect(_) => PacketDirection::SERVER,
            Packet::SetHeldItemServer(_) => PacketDirection::SERVER,
            Packet::ProgramCommandBlockMinecart(_) => PacketDirection::SERVER,
            Packet::ProgramJigsawBlock(_) => PacketDirection::SERVER,
            Packet::SetTestBlock(_) => PacketDirection::SERVER,
            Packet::UpdateSign(_) => PacketDirection::SERVER,
            Packet::SwingArm(_) => PacketDirection::SERVER,
            Packet::CustomClickAction(_) => PacketDirection::SERVER,
        }
    }

    /// Read a packet sent in state `state` in direction `dir`, from its length on.
    pub fn deserialize_state(deserializer: &mut McDeserializer, state: PacketState, dir: PacketDirection) -> (r: Result<Packet, SerializingErr>)
        ensures
            final(deserializer).data@ == old(deserializer).data@,
            deserialized(spec_packet_parse(old(deserializer).remaining(), state, dir), old(deserializer).index, final(deserializer).index, r),
    {
        let ghost d0 = *deserializer;
        let length = read_varint(deserializer)?;
        let ghost d1 = *deserializer;
        proof {
            VarInt::lemma_deserialize_len(d0.remaining());
            lemma_remaining_advance(d0, d1, (d1.index - d0.index) as nat);
        }
        if length.0 < 0 {
            return Err(SerializingErr::InputEnded);
        }
        let mut sub = deserializer.sub_deserializer_length(length.0 as usize)?;
        proof {
            assert(d1.remaining().subrange(0, length.0 as int) == d0.remaining().subrange((d1.index - d0.index) as int, (d1.index - d0.index) + length.0));
        }
        let ghost s0 = sub;
        let id = read_varint(&mut sub)?;
        proof {
            VarInt::lemma_deserialize_len(s0.remaining());
            lemma_remaining_advance(s0, sub, (sub.index - s0.index) as nat);
        }
        proof {
            reveal(spec_packet_body_parse);
        }
        let found = 
        if state == PacketState::HANDSHAKING && dir == PacketDirection::SERVER {
            read_packet_body_handshaking_server(&mut sub, id.0)
        } else if state == PacketState::STATUS && dir == PacketDirection::CLIENT {
            read_packet_body_status_client(&mut sub, id.0)
        } else if state == PacketState::STATUS && dir == PacketDirection::SERVER {
            read_packet_body_status_server(&mut sub, id.0)
        } else if state == PacketState::LOGIN && dir == PacketDirection::CLIENT {
            read_packet_body_login_client(&mut sub, id.0)
        } else if state == PacketState::LOGIN && dir == PacketDirection::SERVER {
            read_packet_body_login_server(&mut sub, id.0)
        } else if state == PacketState::CONFIGURATION && dir == PacketDirection::CLIENT {
            read_packet_body_configuration_client(&mut sub, id.0)
        } else if state == PacketState::CONFIGURATION && dir == PacketDirection::SERVER {
            read_packet_body_configuration_server(&mut sub, id.0)
        } else if state == PacketState::PLAY && dir == PacketDirection::CLIENT {
            read_packet_body_play_client(&mut sub, id.0)
        } else if state == PacketState::PLAY && dir == PacketDirection::SERVER {
            read_packet_body_play_server(&mut sub, id.0)
        } else {
            None
        };
        match found {
            Some(p) => Ok(p),
            None => Err(SerializingErr::UniqueFailure(no_matching_packet_message(dir, state, id.0))),
        }
    }
}

impl McSerialize for Packet {
    /// The packet's length, then its id, then its body.
    open spec fn spec_serialize(v: PacketModel) -> Seq<u8> {
        spec_length_prefixed(spec_packet_inner_bytes(v))
    }

    /// Its body can be written, and its length fits a variable-length integer.
    open spec fn spec_can_serialize(v: PacketModel) -> bool {
        spec_packet_body_can_serialize(v) && spec_packet_inner_bytes(v).len() <= i32::MAX
    }

    #[verifier::spinoff_prover]
    #[verifier::rlimit(100)]
    fn mc_serialize(&self, serializer: &mut McSerializer) -> (r: Result<(), SerializingErr>) {
        let mut inner = McSerializer::new();
        write_varint(&mut inner.output, self.packet_id().0);
        match self {
            Packet::Handshaking(b) => { let _ = b.mc_serialize(&mut inner); },
            Packet::PingResponse(b) => { let _ = b.mc_serialize(&mut inner); },
            Packet::StatusRequest(b) => { let _ = b.mc_serialize(&mut inner); },
            Packet::PingRequest(b) => { let _ = b.mc_serialize(&mut inner); },
            Packet::SetCompression(b) => { let _ = b.mc_serialize(&mut inner); },
            Packet::LoginPluginRequest(b) => { let _ = b.mc_serialize(&mut inner); },
            Packet::LoginCookieRequest(b) => { let _ = b.mc_serialize(&mut inner); },
            Packet::LoginPluginResponse(b) => { let _ = b.mc_serialize(&mut inner); },
            Packet::LoginAcknowledged(b) => { let _ = b.mc_serialize(&mut inner); },
            Packet::LoginCookieResponse(b) => { let _ = b.mc_serialize(&mut inner); },
            Packet::ConfigCookieRequest(b) => { let _ = b.mc_serialize(&mut inner); },
            Packet::ClientboundPluginMessage(b) => { let _ = b.mc_serialize(&mut inner); },
            Packet::FinishConfiguration(b) => { let _ = b.mc_serialize(&mut inner); },
            Packet::KeepAlive(b) => { let _ = b.mc_serialize(&mut inner); },
            Packet::ConfigurationPing(b) => { let _ = b.mc_serialize(&mut inner); },
            Packet::ResetChat(b) => { let _ = b.mc_serialize(&mut inner); },
            Packet::RegistryData(b) => { let _ = b.mc_serialize(&mut inner); },
            Packet::ConfigStoreCookie(b) => { let _ = b.mc_serialize(&mut inner); },
            Packet::ConfigTransfer(b) => { let _ = b.mc_serialize(&mut inner); },
            Packet::ClientboundKnownPacks(b) => { let _ = b.mc_serialize(&mut inner); },
            Packet::ConfigCustomReportDetails(b) => { let _ = b.mc_serialize(&mut inner); },
            Packet::ClientInformation(b) => { let _ = b.mc_serialize(&mut inner); },
            Packet::CookieResponse(b) => { let _ = b.mc_serialize(&mut inner); },
            Packet::ServerboundPluginMessage(b) => { let _ = b.mc_serialize(&mut inner); },
            Packet::AcknowledgeFinishConfiguration(b) => { let _ = b.mc_serialize(&mut inner); },
            Packet::ServerboundKeepAliveConfig(b) => { let _ = b.mc_serialize(&mut inner); },
            Packet::ConfigPong(b) => { let _ = b.mc_serialize(&mut inner); },
            Packet::ServerboundKnownPacks(b) => { let _ = b.mc_serialize(&mut inner); },
            Packet::ConfigCustomClickAction(b) => { let _ = b.mc_serialize(&mut inner); },
            Packet::BundleDelimiter(b) => { let _ = b.mc_serialize(&mut inner); },
            Packet::EntityAnimation(b) => { let _ = b.mc_serialize(&mut inner); },
            Packet::AwardStatistics(b) => { let _ = b.mc_serialize(&mut inner); },
            Packet::AcknowledgeBlockChange(b) => { let _ = b.mc_serialize(&mut inner); },
            Packet::SetBlockDestroyStage(b) => { let _ = b.mc_serialize(&mut inner); },
            Packet::BlockAction(b) => { let _ = b.mc_serialize(&mut inner); },
            Packet::BlockUpdate(b) => { let _ = b.mc_serialize(&mut inner); },
            Packet::ChunkBatchFinished(b) => { let _ = b.mc_serialize(&mut inner); },
            Packet::ChunkBatchStart(b) => { let _ = b.mc_serialize(&mut inner); },
            Packet::ChunkBiomes(b) => { let _ = b.mc_serialize(&mut inner); },
            Packet::ClearTitles(b) => { let _ = b.mc_serialize(&mut inner); },
            Packet::CloseContainer(b) => { let _ = b.mc_serialize(&mut inner); },
            Packet::SetContainerProperty(b) => { let _ = b.mc_serialize(&mut inner); },
            Packet::CookieRequestPlay(b) => { let _ = b.mc_serialize(&mut inner); },
            Packet::SetCooldown(b) => { let _ = b.mc_serialize(&mut inner); },
            Packet::ChatSuggestions(b) => { let _ = b.mc_serialize(&mut inner); },
            Packet::ClientboundPluginMessagePlay(b) => { let _ = b.mc_serialize(&mut inner); },
            Packet::DebugSample(b) => { let _ = b.mc_serialize(&mut inner); },
            Packet::EntityEvent(b) => { let _ = b.mc_serialize(&mut inner); },
            Packet::TeleportEntity(b) => { let _ = b.mc_serialize(&mut inner); },
            Packet::UnloadChunk(b) => { let _ = b.mc_serialize(&mut inner); },
            Packet::GameEvent(b) => { let _ = b.mc_serialize(&mut inner); },
            Packet::GameTestHighlightPosition(b) => { let _ = b.mc_serialize(&mut inner); },
            Packet::OpenHorseScreen(b) => { let _ = b.mc_serialize(&mut inner); },
            Packet::HurtAnimation(b) => { let _ = b.mc_serialize(&mut inner); },
            Packet::ClientboundKeepAlive(b) => { let _ = b.mc_serialize(&mut inner); },
            Packet::ChunkDataUpdateLight(b) => { let _ = b.mc_serialize(&mut inner); },
            Packet::UpdateLight(b) => { let _ = b.mc_serialize(&mut inner); },
            Packet::UpdateEntityPosition(b) => { let _ = b.mc_serialize(&mut inner); },
            Packet::MoveVehicle(b) => { let _ = b.mc_serialize(&mut inner); },
            Packet::OpenBook(b) => { let _ = b.mc_serialize(&mut inner); },
            Packet::OpenSignEditor(b) => { let _ = b.mc_serialize(&mut inner); },
            Packet::PingPlay(b) => { let _ = b.mc_serialize(&mut inner); },
            Packet::PingResponsePlay(b) => { let _ = b.mc_serialize(&mut inner); },
            Packet::PlayerAbilities(b) => { let _ = b.mc_serialize(&mut inner); },
            Packet::EndCombat(b) => { let _ = b.mc_serialize(&mut inner); },
            Packet::EnterCombat(b) => { let _ = b.mc_serialize(&mut inner); },
            Packet::PlayerRotation(b) => { let _ = b.mc_serialize(&mut inner); },
            Packet::RecipeBookRemove(b) => { let _ = b.mc_serialize(&mut inner); },
            Packet::RecipeBookSettings(b) => { let _ = b.mc_serialize(&mut inner); },
            Packet::RemoveEntities(b) => { let _ = b.mc_serialize(&mut inner); },
            Packet::RemoveEntityEffect(b) => { let _ = b.mc_serialize(&mut inner); },
            Packet::ResetScore(b) => { let _ = b.mc_serialize(&mut inner); },
            Packet::SelectAdvancementsTab(b) => { let _ = b.mc_serialize(&mut inner); },
            Packet::SetBorderCenter(b) => { let _ = b.mc_serialize(&mut inner); },
            Packet::SetBorderSize(b) => { let _ = b.mc_serialize(&mut inner); },
            Packet::SetBorderWarningDelay(b) => { let _ = b.mc_serialize(&mut inner); },
            Packet::SetBorderWarningDistance(b) => { let _ = b.mc_serialize(&mut inner); },
            Packet::SetCamera(b) => { let _ = b.mc_serialize(&mut inner); },
            Packet::SetCenterChunk(b) => { let _ = b.mc_serialize(&mut inner); },
            Packet::SetRenderDistance(b) => { let _ = b.mc_serialize(&mut inner); },
            Packet::SetDefaultSpawnPosition(b) => { let _ = b.mc_serialize(&mut inner); },
            Packet::DisplayObjective(b) => { let _ = b.mc_serialize(&mut inner); },
            Packet::LinkEntries(b) => { let _ = b.mc_serialize(&mut inner); },
            Packet::SetExperience(b) => { let _ = b.mc_serialize(&mut inner); },
            Packet::SetHealth(b) => { let _ = b.mc_serialize(&mut inner); },
            Packet::SetHeldItem(b) => { let _ = b.mc_serialize(&mut inner); },
            Packet::SetPassengers(b) => { let _ = b.mc_serialize(&mut inner); },
            Packet::SetSimulationDistance(b) => { let _ = b.mc_serialize(&mut inner); },
            Packet::UpdateTime(b) => { let _ = b.mc_serialize(&mut inner); },
            Packet::SetTitleAnimationTimes(b) => { let _ = b.mc_serialize(&mut inner); },
            Packet::StartConfiguration(b) => { let _ = b.mc_serialize(&mut inner); },
            Packet::StopSound(b) => { let _ = b.mc_serialize(&mut inner); },
            Packet::StoreCookie(b) => { let _ = b.mc_serialize(&mut inner); },
            Packet::PickupItem(b) => { let _ = b.mc_serialize(&mut inner); },
            Packet::SetTickingState(b) => { let _ = b.mc_serialize(&mut inner); },
            Packet::StepTick(b) => { let _ = b.mc_serialize(&mut inner); },
            Packet::Transfer(b) => { let _ = b.mc_serialize(&mut inner); },
            Packet::EntityEffect(b) => { let _ = b.mc_serialize(&mut inner); },
            Packet::ProjectilePower(b) => { let _ = b.mc_serialize(&mut inner); },
            Packet::CustomReportDetails(b) => { let _ = b.mc_serialize(&mut inner); },
            Packet::ClearDialog(b) => { let _ = b.mc_serialize(&mut inner); },
            Packet::ConfirmTeleport(b) => { let _ = b.mc_serialize(&mut inner); },
            Packet::QueryBlockEntityTag(b) => { let _ = b.mc_serialize(&mut inner); },
            Packet::BundleItemSelected(b) => { let _ = b.mc_serialize(&mut inner); },
            Packet::ChangeGameMode(b) => { let _ = b.mc_serialize(&mut inner); },
            Packet::AcknowledgeMessage(b) => { let _ = b.mc_serialize(&mut inner); },
            Packet::ChatCommand(b) => { let _ = b.mc_serialize(&mut inner); },
            Packet::ChunkBatchReceived(b) => { let _ = b.mc_serialize(&mut inner); },
            Packet::ClientCommand(b) => { let _ = b.mc_serialize(&mut inner); },
            Packet::ClientTickEnd(b) => { let _ = b.mc_serialize(&mut inner); },
            Packet::ClientInformationPlay(b) => { let _ = b.mc_serialize(&mut inner); },
            Packet::CommandSuggestionsRequest(b) => { let _ = b.mc_serialize(&mut inner); },
            Packet::AcknowledgeConfiguration(b) => { let _ = b.mc_serialize(&mut inner); },
            Packet::ClickContainerButton(b) => { let _ = b.mc_serialize(&mut inner); },
            Packet::CloseContainerServer(b) => { let _ = b.mc_serialize(&mut inner); },
            Packet::ChangeContainerSlotState(b) => { let _ = b.mc_serialize(&mut inner); },
            Packet::CookieResponsePlay(b) => { let _ = b.mc_serialize(&mut inner); },
            Packet::ServerboundPluginMessagePlay(b) => { let _ = b.mc_serialize(&mut inner); },
            Packet::DebugSubscriptionRequest(b) => { let _ = b.mc_serialize(&mut inner); },
            Packet::EditBook(b) => { let _ = b.mc_serialize(&mut inner); },
            Packet::QueryEntityTag(b) => { let _ = b.mc_serialize(&mut inner); },
            Packet::JigsawGenerate(b) => { let _ = b.mc_serialize(&mut inner); },
            Packet::ServerboundKeepAlive(b) => { let _ = b.mc_serialize(&mut inner); },
            Packet::LockDifficulty(b) => { let _ = b.mc_serialize(&mut inner); },
            Packet::SetPlayerPosition(b) => { let _ = b.mc_serialize(&mut inner); },
            Packet::SetPlayerPositionRotation(b) => { let _ = b.mc_serialize(&mut inner); },
            Packet::SetPlayerRotation(b) => { let _ = b.mc_serialize(&mut inner); },
            Packet::SetPlayerMovementFlags(b) => { let _ = b.mc_serialize(&mut inner); },
            Packet::MoveVehicleServer(b) => { let _ = b.mc_serialize(&mut inner); },
            Packet::PaddleBoat(b) => { let _ = b.mc_serialize(&mut inner); },
            Packet::PickItemFromBlock(b) => { let _ = b.mc_serialize(&mut inner); },
            Packet::PickItemFromEntity(b) => { let _ = b.mc_serialize(&mut inner); },
            Packet::PingRequestPlay(b) => { let _ = b.mc_serialize(&mut inner); },
            Packet::PlaceRecipe(b) => { let _ = b.mc_serialize(&mut inner); },
            Packet::PlayerAbilitiesServer(b) => { let _ = b.mc_serialize(&mut inner); },
            Packet::PlayerAction(b) => { let _ = b.mc_serialize(&mut inner); },
            Packet::PlayerCommand(b) => { let _ = b.mc_serialize(&mut inner); },
            Packet::PlayerInput(b) => { let _ = b.mc_serialize(&mut inner); },
            Packet::PlayerLoaded(b) => { let _ = b.mc_serialize(&mut inner); },
            Packet::PongPlay(b) => { let _ = b.mc_serialize(&mut inner); },
            Packet::ChangeRecipeBookSettings(b) => { let _ = b.mc_serialize(&mut inner); },
            Packet::SetSeenRecipe(b) => { let _ = b.mc_serialize(&mut inner); },
            Packet::RenameItem(b) => { let _ = b.mc_serialize(&mut inner); },
            Packet::SelectTrade(b) => { let _ = b.mc_serialize(&mut inner); },
            Packet::SetBeaconEffect(b) => { let _ = b.mc_serialize(&mut inner); },
            Packet::SetHeldItemServer(b) => { let _ = b.mc_serialize(&mut inner); },
            Packet::ProgramCommandBlockMinecart(b) => { let _ = b.mc_serialize(&mut inner); },
            Packet::ProgramJigsawBlock(b) => { let _ = b.mc_serialize(&mut inner); },
            Packet::SetTestBlock(b) => { let _ = b.mc_serialize(&mut inner); },
            Packet::UpdateSign(b) => { let _ = b.mc_serialize(&mut inner); },
            Packet::SwingArm(b) => { let _ = b.mc_serialize(&mut inner); },
            Packet::CustomClickAction(b) => { let _ = b.mc_serialize(&mut inner); },
        }
        assert(inner.output@ == spec_packet_inner_bytes(self.deep_view()));
        let framed = length_prefixed(inner.output.as_slice());
        serializer.serialize_bytes(framed.as_slice());
        Ok(())
    }
}

#[verifier::spinoff_prover]
#[verifier::rlimit(100)]
proof fn lemma_packet_body_round_trip_handshaking_server_0(v: PacketModel)
    requires
        spec_packet_state(v) == PacketState::HANDSHAKING,
        spec_packet_direction(v) == PacketDirection::SERVER,
        0 <= spec_packet_id(v) <= 0,
        spec_packet_body_can_serialize(v),
        spec_packet_well_formed(v),
    ensures
        spec_packet_body_parse_handshaking_server_0(spec_packet_body_bytes(v), spec_packet_id(v))
            == Some(Ok::<(PacketModel, nat), ErrKind>((v, spec_packet_body_bytes(v).len()))),
{
    match v {
        PacketModel::Handshaking(b) => {
            HandshakingPacket::lemma_round_trip(b, Seq::<u8>::empty());
            assert(HandshakingPacket::spec_serialize(b) + Seq::<u8>::empty() == HandshakingPacket::spec_serialize(b));
        },
        _ => {},
    }
}

#[verifier::spinoff_prover]
proof fn lemma_packet_body_round_trip_handshaking_server(v: PacketModel)
    requires
        spec_packet_state(v) == PacketState::HANDSHAKING,
        spec_packet_direction(v) == PacketDirection::SERVER,
        spec_packet_body_can_serialize(v),
        spec_packet_well_formed(v),
    ensures
        spec_packet_body_parse_handshaking_server(spec_packet_body_bytes(v), spec_packet_id(v))
            == Some(Ok::<(PacketModel, nat), ErrKind>((v, spec_packet_body_bytes(v).len()))),
{
    if spec_packet_id(v) <= 0 {
        lemma_packet_body_round_trip_handshaking_server_0(v);
    }
}

#[verifier::spinoff_prover]
#[verifier::rlimit(100)]
proof fn lemma_packet_body_round_trip_status_client_0(v: PacketModel)
    requires
        spec_packet_state(v) == PacketState::STATUS,
        spec_packet_direction(v) == PacketDirection::CLIENT,
        1 <= spec_packet_id(v) <= 1,
        spec_packet_body_can_serialize(v),
        spec_packet_well_formed(v),
    ensures
        spec_packet_body_parse_status_client_0(spec_packet_body_bytes(v), spec_packet_id(v))
            == Some(Ok::<(PacketModel, nat), ErrKind>((v, spec_packet_body_bytes(v).len()))),
{
    match v {
        PacketModel::PingResponse(b) => {
            PingResponsePacket::lemma_round_trip(b, Seq::<u8>::empty());
            assert(PingResponsePacket::spec_serialize(b) + Seq::<u8>::empty() == PingResponsePacket::spec_serialize(b));
        },
        _ => {},
    }
}

#[verifier::spinoff_prover]
proof fn lemma_packet_body_round_trip_status_client(v: PacketModel)
    requires
        spec_packet_state(v) == PacketState::STATUS,
        spec_packet_direction(v) == PacketDirection::CLIENT,
        spec_packet_body_can_serialize(v),
        spec_packet_well_formed(v),
    ensures
        spec_packet_body_parse_status_client(spec_packet_body_bytes(v), spec_packet_id(v))
            == Some(Ok::<(PacketModel, nat), ErrKind>((v, spec_packet_body_bytes(v).len()))),
{
    if spec_packet_id(v) <= 1 {
        lemma_packet_body_round_trip_status_client_0(v);
    }
}

#[verifier::spinoff_prover]
#[verifier::rlimit(100)]
proof fn lemma_packet_body_round_trip_status_server_0(v: PacketModel)
    requires
        spec_packet_state(v) == PacketState::STATUS,
        spec_packet_direction(v) == PacketDirection::SERVER,
        0 <= spec_packet_id(v) <= 1,
        spec_packet_body_can_serialize(v),
        spec_packet_well_formed(v),
    ensures
        spec_packet_body_parse_status_server_0(spec_packet_body_bytes(v), spec_packet_id(v))
            == Some(Ok::<(PacketModel, nat), ErrKind>((v, spec_packet_body_bytes(v).len()))),
{
    match v {
        PacketModel::StatusRequest(b) => {
            StatusRequestPacket::lemma_round_trip(b, Seq::<u8>::empty());
            assert(StatusRequestPacket::spec_serialize(b) + Seq::<u8>::empty() == StatusRequestPacket::spec_serialize(b));
        },
        PacketModel::PingRequest(b) => {
            PingRequestPacket::lemma_round_trip(b, Seq::<u8>::empty());
            assert(PingRequestPacket::spec_serialize(b) + Seq::<u8>::empty() == PingRequestPacket::spec_serialize(b));
        },
        _ => {},
    }
}

#[verifier::spinoff_prover]
proof fn lemma_packet_body_round_trip_status_server(v: PacketModel)
    requires
        spec_packet_state(v) == PacketState::STATUS,
        spec_packet_direction(v) == PacketDirection::SERVER,
        spec_packet_body_can_serialize(v),
        spec_packet_well_formed(v),
    ensures
        spec_packet_body_parse_status_server(spec_packet_body_bytes(v), spec_packet_id(v))
            == Some(Ok::<(PacketModel, nat), ErrKind>((v, spec_packet_body_bytes(v).len()))),
{
    if spec_packet_id(v) <= 1 {
        lemma_packet_body_round_trip_status_server_0(v);
    }
}

#[verifier::spinoff_prover]
#[verifier::rlimit(100)]
proof fn lemma_packet_body_round_trip_login_client_0(v: PacketModel)
    requires
        spec_packet_state(v) == PacketState::LOGIN,
        spec_packet_direction(v) == PacketDirection::CLIENT,
        3 <= spec_packet_id(v) <= 5,
        spec_packet_body_can_serialize(v),
        spec_packet_well_formed(v),
    ensures
        spec_packet_body_parse_login_client_0(spec_packet_body_bytes(v), spec_packet_id(v))
            == Some(Ok::<(PacketModel, nat), ErrKind>((v, spec_packet_body_bytes(v).len()))),
{
    match v {
        PacketModel::SetCompression(b) => {
            SetCompressionPacket::lemma_round_trip(b, Seq::<u8>::empty());
            assert(SetCompressionPacket::spec_serialize(b) + Seq::<u8>::empty() == SetCompressionPacket::spec_serialize(b));
        },
        PacketModel::LoginPluginRequest(b) => {
            lemma_then_bytes_round_trip::<String>(b.1.0, b.1.1);
            lemma_varint_then_round_trip::<(String, Vec<u8>)>(b.0, b.1);
        },
        PacketModel::LoginCookieRequest(b) => {
            LoginCookieRequestPacket::lemma_round_trip(b, Seq::<u8>::empty());
            assert(LoginCookieRequestPacket::spec_serialize(b) + Seq::<u8>::empty() == LoginCookieRequestPacket::spec_serialize(b));
        },
        _ => {},
    }
}

#[verifier::spinoff_prover]
proof fn lemma_packet_body_round_trip_login_client(v: PacketModel)
    requires
        spec_packet_state(v) == PacketState::LOGIN,
        spec_packet_direction(v) == PacketDirection::CLIENT,
        spec_packet_body_can_serialize(v),
        spec_packet_well_formed(v),
    ensures
        spec_packet_body_parse_login_client(spec_packet_body_bytes(v), spec_packet_id(v))
            == Some(Ok::<(PacketModel, nat), ErrKind>((v, spec_packet_body_bytes(v).len()))),
{
    if spec_packet_id(v) <= 5 {
        lemma_packet_body_round_trip_login_client_0(v);
    }
}

#[verifier::spinoff_prover]
#[verifier::rlimit(100)]
proof fn lemma_packet_body_round_trip_login_server_0(v: PacketModel)
    requires
        spec_packet_state(v) == PacketState::LOGIN,
        spec_packet_direction(v) == PacketDirection::SERVER,
        2 <= spec_packet_id(v) <= 4,
        spec_packet_body_can_serialize(v),
        spec_packet_well_formed(v),
    ensures
        spec_packet_body_parse_login_server_0(spec_packet_body_bytes(v), spec_packet_id(v))
            == Some(Ok::<(PacketModel, nat), ErrKind>((v, spec_packet_body_bytes(v).len()))),
{
    match v {
        PacketModel::LoginPluginResponse(b) => {
            lemma_login_plugin_round_trip(b);
        },
        PacketModel::LoginAcknowledged(b) => {
            LoginAcknowledgedPacket::lemma_round_trip(b, Seq::<u8>::empty());
            assert(LoginAcknowledgedPacket::spec_serialize(b) + Seq::<u8>::empty() == LoginAcknowledgedPacket::spec_serialize(b));
        },
        PacketModel::LoginCookieResponse(b) => {
            lemma_login_cookie_round_trip(b);
        },
        _ => {},
    }
}

#[verifier::spinoff_prover]
proof fn lemma_packet_body_round_trip_login_server(v: PacketModel)
    requires
        spec_packet_state(v) == PacketState::LOGIN,
        spec_packet_direction(v) == PacketDirection::SERVER,
        spec_packet_body_can_serialize(v),
        spec_packet_well_formed(v),
    ensures
        spec_packet_body_parse_login_server(spec_packet_body_bytes(v), spec_packet_id(v))
            == Some(Ok::<(PacketModel, nat), ErrKind>((v, spec_packet_body_bytes(v).len()))),
{
    if spec_packet_id(v) <= 4 {
        lemma_packet_body_round_trip_login_server_0(v);
    }
}

#[verifier::spinoff_prover]
#[verifier::rlimit(100)]
proof fn lemma_packet_body_round_trip_configuration_client_0(v: PacketModel)
    requires
        spec_packet_state(v) == PacketState::CONFIGURATION,
        spec_packet_direction(v) == PacketDirection::CLIENT,
        0 <= spec_packet_id(v) <= 15,
        spec_packet_body_can_serialize(v),
        spec_packet_well_formed(v),
    ensures
        spec_packet_body_parse_configuration_client_0(spec_packet_body_bytes(v), spec_packet_id(v))
            == Some(Ok::<(PacketModel, nat), ErrKind>((v, spec_packet_body_bytes(v).len()))),
{
    match v {
        PacketModel::ConfigCookieRequest(b) => {
            ConfigCookieRequestPacket::lemma_round_trip(b, Seq::<u8>::empty());
            assert(ConfigCookieRequestPacket::spec_serialize(b) + Seq::<u8>::empty() == ConfigCookieRequestPacket::spec_serialize(b));
        },
        PacketModel::ClientboundPluginMessage(b) => {
            lemma_then_bytes_round_trip::<String>(b.0, b.1);
        },
        PacketModel::FinishConfiguration(b) => {
            FinishConfigurationPacket::lemma_round_trip(b, Seq::<u8>::empty());
            assert(FinishConfigurationPacket::spec_serialize(b) + Seq::<u8>::empty() == FinishConfigurationPacket::spec_serialize(b));
        },
        PacketModel::KeepAlive(b) => {
            KeepAlivePacket::lemma_round_trip(b, Seq::<u8>::empty());
            assert(KeepAlivePacket::spec_serialize(b) + Seq::<u8>::empty() == KeepAlivePacket::spec_serialize(b));
        },
        PacketModel::ConfigurationPing(b) => {
            ConfigurationPingPacket::lemma_round_trip(b, Seq::<u8>::empty());
            assert(ConfigurationPingPacket::spec_serialize(b) + Seq::<u8>::empty() == ConfigurationPingPacket::spec_serialize(b));
        },
        PacketModel::ResetChat(b) => {
            ResetChatPacket::lemma_round_trip(b, Seq::<u8>::empty());
            assert(ResetChatPacket::spec_serialize(b) + Seq::<u8>::empty() == ResetChatPacket::spec_serialize(b));
        },
        PacketModel::RegistryData(b) => {
            RegistryDataPacket::lemma_round_trip(b, Seq::<u8>::empty());
            assert(RegistryDataPacket::spec_serialize(b) + Seq::<u8>::empty() == RegistryDataPacket::spec_serialize(b));
        },
        PacketModel::ConfigStoreCookie(b) => {
            ConfigStoreCookiePacket::lemma_round_trip(b, Seq::<u8>::empty());
            assert(ConfigStoreCookiePacket::spec_serialize(b) + Seq::<u8>::empty() == ConfigStoreCookiePacket::spec_serialize(b));
        },
        PacketModel::ConfigTransfer(b) => {
            ConfigTransferPacket::lemma_round_trip(b, Seq::<u8>::empty());
            assert(ConfigTransferPacket::spec_serialize(b) + Seq::<u8>::empty() == ConfigTransferPacket::spec_serialize(b));
        },
        PacketModel::ClientboundKnownPacks(b) => {
            ClientboundKnownPacksPacket::lemma_round_trip(b, Seq::<u8>::empty());
            assert(ClientboundKnownPacksPacket::spec_serialize(b) + Seq::<u8>::empty() == ClientboundKnownPacksPacket::spec_serialize(b));
        },
        PacketModel::ConfigCustomReportDetails(b) => {
            ConfigCustomReportDetailsPacket::lemma_round_trip(b, Seq::<u8>::empty());
            assert(ConfigCustomReportDetailsPacket::spec_serialize(b) + Seq::<u8>::empty() == ConfigCustomReportDetailsPacket::spec_serialize(b));
        },
        _ => {},
    }
}

#[verifier::spinoff_prover]
proof fn lemma_packet_body_round_trip_configuration_client(v: PacketModel)
    requires
        spec_packet_state(v) == PacketState::CONFIGURATION,
        spec_packet_direction(v) == PacketDirection::CLIENT,
        spec_packet_body_can_serialize(v),
        spec_packet_well_formed(v),
    ensures
        spec_packet_body_parse_configuration_client(spec_packet_body_bytes(v), spec_packet_id(v))
            == Some(Ok::<(PacketModel, nat), ErrKind>((v, spec_packet_body_bytes(v).len()))),
{
    if spec_packet_id(v) <= 15 {
        lemma_packet_body_round_trip_configuration_client_0(v);
    }
}

#[verifier::spinoff_prover]
#[verifier::rlimit(100)]
proof fn lemma_packet_body_round_trip_configuration_server_0(v: PacketModel)
    requires
        spec_packet_state(v) == PacketState::CONFIGURATION,
        spec_packet_direction(v) == PacketDirection::SERVER,
        0 <= spec_packet_id(v) <= 8,
        spec_packet_body_can_serialize(v),
        spec_packet_well_formed(v),
    ensures
        spec_packet_body_parse_configuration_server_0(spec_packet_body_bytes(v), spec_packet_id(v))
            == Some(Ok::<(PacketModel, nat), ErrKind>((v, spec_packet_body_bytes(v).len()))),
{
    match v {
        PacketModel::ClientInformation(b) => {
            ClientInformationPacket::lemma_round_trip(b, Seq::<u8>::empty());
            assert(ClientInformationPacket::spec_serialize(b) + Seq::<u8>::empty() == ClientInformationPacket::spec_serialize(b));
        },
        PacketModel::CookieResponse(b) => {
            CookieResponsePacket::lemma_round_trip(b, Seq::<u8>::empty());
            assert(CookieResponsePacket::spec_serialize(b) + Seq::<u8>::empty() == CookieResponsePacket::spec_serialize(b));
        },
        PacketModel::ServerboundPluginMessage(b) => {
            lemma_then_bytes_round_trip::<String>(b.0, b.1);
        },
        PacketModel::AcknowledgeFinishConfiguration(b) => {
            AcknowledgeFinishConfigurationPacket::lemma_round_trip(b, Seq::<u8>::empty());
            assert(AcknowledgeFinishConfigurationPacket::spec_serialize(b) + Seq::<u8>::empty() == AcknowledgeFinishConfigurationPacket::spec_serialize(b));
        },
        PacketModel::ServerboundKeepAliveConfig(b) => {
            ServerboundKeepAliveConfigPacket::lemma_round_trip(b, Seq::<u8>::empty());
            assert(ServerboundKeepAliveConfigPacket::spec_serialize(b) + Seq::<u8>::empty() == ServerboundKeepAliveConfigPacket::spec_serialize(b));
        },
        PacketModel::ConfigPong(b) => {
            ConfigPongPacket::lemma_round_trip(b, Seq::<u8>::empty());
            assert(ConfigPongPacket::spec_serialize(b) + Seq::<u8>::empty() == ConfigPongPacket::spec_serialize(b));
        },
        PacketModel::ServerboundKnownPacks(b) => {
            ServerboundKnownPacksPacket::lemma_round_trip(b, Seq::<u8>::empty());
            assert(ServerboundKnownPacksPacket::spec_serialize(b) + Seq::<u8>::empty() == ServerboundKnownPacksPacket::spec_serialize(b));
        },
        PacketModel::ConfigCustomClickAction(b) => {
            ConfigCustomClickActionPacket::lemma_round_trip(b, Seq::<u8>::empty());
            assert(ConfigCustomClickActionPacket::spec_serialize(b) + Seq::<u8>::empty() == ConfigCustomClickActionPacket::spec_serialize(b));
        },
        _ => {},
    }
}

#[verifier::spinoff_prover]
proof fn lemma_packet_body_round_trip_configuration_server(v: PacketModel)
    requires
        spec_packet_state(v) == PacketState::CONFIGURATION,
        spec_packet_direction(v) == PacketDirection::SERVER,
        spec_packet_body_can_serialize(v),
        spec_packet_well_formed(v),
    ensures
        spec_packet_body_parse_configuration_server(spec_packet_body_bytes(v), spec_packet_id(v))
            == Some(Ok::<(PacketModel, nat), ErrKind>((v, spec_packet_body_bytes(v).len()))),
{
    if spec_packet_id(v) <= 8 {
        lemma_packet_body_round_trip_configuration_server_0(v);
    }
}

#[verifier::spinoff_prover]
#[verifier::rlimit(100)]
proof fn lemma_packet_body_round_trip_play_client_0(v: PacketModel)
    requires
        spec_packet_state(v) == PacketState::PLAY,
        spec_packet_direction(v) == PacketDirection::CLIENT,
        0 <= spec_packet_id(v) <= 40,
        spec_packet_body_can_serialize(v),
        spec_packet_well_formed(v),
    ensures
        spec_packet_body_parse_play_client_0(spec_packet_body_bytes(v), spec_packet_id(v))
            == Some(Ok::<(PacketModel, nat), ErrKind>((v, spec_packet_body_bytes(v).len()))),
{
    match v {
        PacketModel::BundleDelimiter(b) => {
            BundleDelimiterPacket::lemma_round_trip(b, Seq::<u8>::empty());
            assert(BundleDelimiterPacket::spec_serialize(b) + Seq::<u8>::empty() == BundleDelimiterPacket::spec_serialize(b));
        },
        PacketModel::EntityAnimation(b) => {
            EntityAnimationPacket::lemma_round_trip(b, Seq::<u8>::empty());
            assert(EntityAnimationPacket::spec_serialize(b) + Seq::<u8>::empty() == EntityAnimationPacket::spec_serialize(b));
        },
        PacketModel::AwardStatistics(b) => {
            AwardStatisticsPacket::lemma_round_trip(b, Seq::<u8>::empty());
            assert(AwardStatisticsPacket::spec_serialize(b) + Seq::<u8>::empty() == AwardStatisticsPacket::spec_serialize(b));
        },
        PacketModel::AcknowledgeBlockChange(b) => {
            AcknowledgeBlockChangePacket::lemma_round_trip(b, Seq::<u8>::empty());
            assert(AcknowledgeBlockChangePacket::spec_serialize(b) + Seq::<u8>::empty() == AcknowledgeBlockChangePacket::spec_serialize(b));
        },
        PacketModel::SetBlockDestroyStage(b) => {
            SetBlockDestroyStagePacket::lemma_round_trip(b, Seq::<u8>::empty());
            assert(SetBlockDestroyStagePacket::spec_serialize(b) + Seq::<u8>::empty() == SetBlockDestroyStagePacket::spec_serialize(b));
        },
        PacketModel::BlockAction(b) => {
            BlockActionPacket::lemma_round_trip(b, Seq::<u8>::empty());
            assert(BlockActionPacket::spec_serialize(b) + Seq::<u8>::empty() == BlockActionPacket::spec_serialize(b));
        },
        PacketModel::BlockUpdate(b) => {
            BlockUpdatePacket::lemma_round_trip(b, Seq::<u8>::empty());
            assert(BlockUpdatePacket::spec_serialize(b) + Seq::<u8>::empty() == BlockUpdatePacket::spec_serialize(b));
        },
        PacketModel::ChunkBatchFinished(b) => {
            ChunkBatchFinishedPacket::lemma_round_trip(b, Seq::<u8>::empty());
            assert(ChunkBatchFinishedPacket::spec_serialize(b) + Seq::<u8>::empty() == ChunkBatchFinishedPacket::spec_serialize(b));
        },
        PacketModel::ChunkBatchStart(b) => {
            ChunkBatchStartPacket::lemma_round_trip(b, Seq::<u8>::empty());
            assert(ChunkBatchStartPacket::spec_serialize(b) + Seq::<u8>::empty() == ChunkBatchStartPacket::spec_serialize(b));
        },
        PacketModel::ChunkBiomes(b) => {
            ChunkBiomesPacket::lemma_round_trip(b, Seq::<u8>::empty());
            assert(ChunkBiomesPacket::spec_serialize(b) + Seq::<u8>::empty() == ChunkBiomesPacket::spec_serialize(b));
        },
        PacketModel::ClearTitles(b) => {
            ClearTitlesPacket::lemma_round_trip(b, Seq::<u8>::empty());
            assert(ClearTitlesPacket::spec_serialize(b) + Seq::<u8>::empty() == ClearTitlesPacket::spec_serialize(b));
        },
        PacketModel::CloseContainer(b) => {
            CloseContainerPacket::lemma_round_trip(b, Seq::<u8>::empty());
            assert(CloseContainerPacket::spec_serialize(b) + Seq::<u8>::empty() == CloseContainerPacket::spec_serialize(b));
        },
        PacketModel::SetContainerProperty(b) => {
            SetContainerPropertyPacket::lemma_round_trip(b, Seq::<u8>::empty());
            assert(SetContainerPropertyPacket::spec_serialize(b) + Seq::<u8>::empty() == SetContainerPropertyPacket::spec_serialize(b));
        },
        PacketModel::CookieRequestPlay(b) => {
            CookieRequestPlayPacket::lemma_round_trip(b, Seq::<u8>::empty());
            assert(CookieRequestPlayPacket::spec_serialize(b) + Seq::<u8>::empty() == CookieRequestPlayPacket::spec_serialize(b));
        },
        PacketModel::SetCooldown(b) => {
            SetCooldownPacket::lemma_round_trip(b, Seq::<u8>::empty());
            assert(SetCooldownPacket::spec_serialize(b) + Seq::<u8>::empty() == SetCooldownPacket::spec_serialize(b));
        },
        PacketModel::ChatSuggestions(b) => {
            ChatSuggestionsPacket::lemma_round_trip(b, Seq::<u8>::empty());
            assert(ChatSuggestionsPacket::spec_serialize(b) + Seq::<u8>::empty() == ChatSuggestionsPacket::spec_serialize(b));
        },
        PacketModel::ClientboundPluginMessagePlay(b) => {
            lemma_then_bytes_round_trip::<String>(b.0, b.1);
        },
        PacketModel::DebugSample(b) => {
            DebugSamplePacket::lemma_round_trip(b, Seq::<u8>::empty());
            assert(DebugSamplePacket::spec_serialize(b) + Seq::<u8>::empty() == DebugSamplePacket::spec_serialize(b));
        },
        PacketModel::EntityEvent(b) => {
            EntityEventPacket::lemma_round_trip(b, Seq::<u8>::empty());
            assert(EntityEventPacket::spec_serialize(b) + Seq::<u8>::empty() == EntityEventPacket::spec_serialize(b));
        },
        PacketModel::TeleportEntity(b) => {
            TeleportEntityPacket::lemma_round_trip(b, Seq::<u8>::empty());
            assert(TeleportEntityPacket::spec_serialize(b) + Seq::<u8>::empty() == TeleportEntityPacket::spec_serialize(b));
        },
        PacketModel::UnloadChunk(b) => {
            UnloadChunkPacket::lemma_round_trip(b, Seq::<u8>::empty());
            assert(UnloadChunkPacket::spec_serialize(b) + Seq::<u8>::empty() == UnloadChunkPacket::spec_serialize(b));
        },
        PacketModel::GameEvent(b) => {
            GameEventPacket::lemma_round_trip(b, Seq::<u8>::empty());
            assert(GameEventPacket::spec_serialize(b) + Seq::<u8>::empty() == GameEventPacket::spec_serialize(b));
        },
        PacketModel::GameTestHighlightPosition(b) => {
            GameTestHighlightPositionPacket::lemma_round_trip(b, Seq::<u8>::empty());
            assert(GameTestHighlightPositionPacket::spec_serialize(b) + Seq::<u8>::empty() == GameTestHighlightPositionPacket::spec_serialize(b));
        },
        PacketModel::OpenHorseScreen(b) => {
            OpenHorseScreenPacket::lemma_round_trip(b, Seq::<u8>::empty());
            assert(OpenHorseScreenPacket::spec_serialize(b) + Seq::<u8>::empty() == OpenHorseScreenPacket::spec_serialize(b));
        },
        _ => {},
    }
}

#[verifier::spinoff_prover]
#[verifier::rlimit(100)]
proof fn lemma_packet_body_round_trip_play_client_1(v: PacketModel)
    requires
        spec_packet_state(v) == PacketState::PLAY,
        spec_packet_direction(v) == PacketDirection::CLIENT,
        41 <= spec_packet_id(v) <= 90,
        spec_packet_body_can_serialize(v),
        spec_packet_well_formed(v),
    ensures
        spec_packet_body_parse_play_client_1(spec_packet_body_bytes(v), spec_packet_id(v))
            == Some(Ok::<(PacketModel, nat), ErrKind>((v, spec_packet_body_bytes(v).len()))),
{
    match v {
        PacketModel::HurtAnimation(b) => {
            HurtAnimationPacket::lemma_round_trip(b, Seq::<u8>::empty());
            assert(HurtAnimationPacket::spec_serialize(b) + Seq::<u8>::empty() == HurtAnimationPacket::spec_serialize(b));
        },
        PacketModel::ClientboundKeepAlive(b) => {
            ClientboundKeepAlivePacket::lemma_round_trip(b, Seq::<u8>::empty());
            assert(ClientboundKeepAlivePacket::spec_serialize(b) + Seq::<u8>::empty() == ClientboundKeepAlivePacket::spec_serialize(b));
        },
        PacketModel::ChunkDataUpdateLight(b) => {
            ChunkDataUpdateLightPacket::lemma_round_trip(b, Seq::<u8>::empty());
            assert(ChunkDataUpdateLightPacket::spec_serialize(b) + Seq::<u8>::empty() == ChunkDataUpdateLightPacket::spec_serialize(b));
        },
        PacketModel::UpdateLight(b) => {
            UpdateLightPacket::lemma_round_trip(b, Seq::<u8>::empty());
            assert(UpdateLightPacket::spec_serialize(b) + Seq::<u8>::empty() == UpdateLightPacket::spec_serialize(b));
        },
        PacketModel::UpdateEntityPosition(b) => {
            UpdateEntityPositionPacket::lemma_round_trip(b, Seq::<u8>::empty());
            assert(UpdateEntityPositionPacket::spec_serialize(b) + Seq::<u8>::empty() == UpdateEntityPositionPacket::spec_serialize(b));
        },
        PacketModel::MoveVehicle(b) => {
            MoveVehiclePacket::lemma_round_trip(b, Seq::<u8>::empty());
            assert(MoveVehiclePacket::spec_serialize(b) + Seq::<u8>::empty() == MoveVehiclePacket::spec_serialize(b));
        },
        PacketModel::OpenBook(b) => {
            OpenBookPacket::lemma_round_trip(b, Seq::<u8>::empty());
            assert(OpenBookPacket::spec_serialize(b) + Seq::<u8>::empty() == OpenBookPacket::spec_serialize(b));
        },
        PacketModel::OpenSignEditor(b) => {
            OpenSignEditorPacket::lemma_round_trip(b, Seq::<u8>::empty());
            assert(OpenSignEditorPacket::spec_serialize(b) + Seq::<u8>::empty() == OpenSignEditorPacket::spec_serialize(b));
        },
        PacketModel::PingPlay(b) => {
            PingPlayPacket::lemma_round_trip(b, Seq::<u8>::empty());
            assert(PingPlayPacket::spec_serialize(b) + Seq::<u8>::empty() == PingPlayPacket::spec_serialize(b));
        },
        PacketModel::PingResponsePlay(b) => {
            PingResponsePlayPacket::lemma_round_trip(b, Seq::<u8>::empty());
            assert(PingResponsePlayPacket::spec_serialize(b) + Seq::<u8>::empty() == PingResponsePlayPacket::spec_serialize(b));
        },
        PacketModel::PlayerAbilities(b) => {
            PlayerAbilitiesPacket::lemma_round_trip(b, Seq::<u8>::empty());
            assert(PlayerAbilitiesPacket::spec_serialize(b) + Seq::<u8>::empty() == PlayerAbilitiesPacket::spec_serialize(b));
        },
        PacketModel::EndCombat(b) => {
            EndCombatPacket::lemma_round_trip(b, Seq::<u8>::empty());
            assert(EndCombatPacket::spec_serialize(b) + Seq::<u8>::empty() == EndCombatPacket::spec_serialize(b));
        },
        PacketModel::EnterCombat(b) => {
            EnterCombatPacket::lemma_round_trip(b, Seq::<u8>::empty());
            assert(EnterCombatPacket::spec_serialize(b) + Seq::<u8>::empty() == EnterCombatPacket::spec_serialize(b));
        },
        PacketModel::PlayerRotation(b) => {
            PlayerRotationPacket::lemma_round_trip(b, Seq::<u8>::empty());
            assert(PlayerRotationPacket::spec_serialize(b) + Seq::<u8>::empty() == PlayerRotationPacket::spec_serialize(b));
        },
        PacketModel::RecipeBookRemove(b) => {
            RecipeBookRemovePacket::lemma_round_trip(b, Seq::<u8>::empty());
            assert(RecipeBookRemovePacket::spec_serialize(b) + Seq::<u8>::empty() == RecipeBookRemovePacket::spec_serialize(b));
        },
        PacketModel::RecipeBookSettings(b) => {
            RecipeBookSettingsPacket::lemma_round_trip(b, Seq::<u8>::empty());
            assert(RecipeBookSettingsPacket::spec_serialize(b) + Seq::<u8>::empty() == RecipeBookSettingsPacket::spec_serialize(b));
        },
        PacketModel::RemoveEntities(b) => {
            RemoveEntitiesPacket::lemma_round_trip(b, Seq::<u8>::empty());
            assert(RemoveEntitiesPacket::spec_serialize(b) + Seq::<u8>::empty() == RemoveEntitiesPacket::spec_serialize(b));
        },
        PacketModel::RemoveEntityEffect(b) => {
            RemoveEntityEffectPacket::lemma_round_trip(b, Seq::<u8>::empty());
            assert(RemoveEntityEffectPacket::spec_serialize(b) + Seq::<u8>::empty() == RemoveEntityEffectPacket::spec_serialize(b));
        },
        PacketModel::ResetScore(b) => {
            ResetScorePacket::lemma_round_trip(b, Seq::<u8>::empty());
            assert(ResetScorePacket::spec_serialize(b) + Seq::<u8>::empty() == ResetScorePacket::spec_serialize(b));
        },
        PacketModel::SelectAdvancementsTab(b) => {
            SelectAdvancementsTabPacket::lemma_round_trip(b, Seq::<u8>::empty());
            assert(SelectAdvancementsTabPacket::spec_serialize(b) + Seq::<u8>::empty() == SelectAdvancementsTabPacket::spec_serialize(b));
        },
        PacketModel::SetBorderCenter(b) => {
            SetBorderCenterPacket::lemma_round_trip(b, Seq::<u8>::empty());
            assert(SetBorderCenterPacket::spec_serialize(b) + Seq::<u8>::empty() == SetBorderCenterPacket::spec_serialize(b));
        },
        PacketModel::SetBorderSize(b) => {
            SetBorderSizePacket::lemma_round_trip(b, Seq::<u8>::empty());
            assert(SetBorderSizePacket::spec_serialize(b) + Seq::<u8>::empty() == SetBorderSizePacket::spec_serialize(b));
        },
        PacketModel::SetBorderWarningDelay(b) => {
            SetBorderWarningDelayPacket::lemma_round_trip(b, Seq::<u8>::empty());
            assert(SetBorderWarningDelayPacket::spec_serialize(b) + Seq::<u8>::empty() == SetBorderWarningDelayPacket::spec_serialize(b));
        },
        PacketModel::SetBorderWarningDistance(b) => {
            SetBorderWarningDistancePacket::lemma_round_trip(b, Seq::<u8>::empty());
            assert(SetBorderWarningDistancePacket::spec_serialize(b) + Seq::<u8>::empty() == SetBorderWarningDistancePacket::spec_serialize(b));
        },
        _ => {},
    }
}

#[verifier::spinoff_prover]
#[verifier::rlimit(100)]
proof fn lemma_packet_body_round_trip_play_client_2(v: PacketModel)
    requires
        spec_packet_state(v) == PacketState::PLAY,
        spec_packet_direction(v) == PacketDirection::CLIENT,
        91 <= spec_packet_id(v) <= 137,
        spec_packet_body_can_serialize(v),
        spec_packet_well_formed(v),
    ensures
        spec_packet_body_parse_play_client_2(spec_packet_body_bytes(v), spec_packet_id(v))
            == Some(Ok::<(PacketModel, nat), ErrKind>((v, spec_packet_body_bytes(v).len()))),
{
    match v {
        PacketModel::SetCamera(b) => {
            SetCameraPacket::lemma_round_trip(b, Seq::<u8>::empty());
            assert(SetCameraPacket::spec_serialize(b) + Seq::<u8>::empty() == SetCameraPacket::spec_serialize(b));
        },
        PacketModel::SetCenterChunk(b) => {
            SetCenterChunkPacket::lemma_round_trip(b, Seq::<u8>::empty());
            assert(SetCenterChunkPacket::spec_serialize(b) + Seq::<u8>::empty() == SetCenterChunkPacket::spec_serialize(b));
        },
        PacketModel::SetRenderDistance(b) => {
            SetRenderDistancePacket::lemma_round_trip(b, Seq::<u8>::empty());
            assert(SetRenderDistancePacket::spec_serialize(b) + Seq::<u8>::empty() == SetRenderDistancePacket::spec_serialize(b));
        },
        PacketModel::SetDefaultSpawnPosition(b) => {
            SetDefaultSpawnPositionPacket::lemma_round_trip(b, Seq::<u8>::empty());
            assert(SetDefaultSpawnPositionPacket::spec_serialize(b) + Seq::<u8>::empty() == SetDefaultSpawnPositionPacket::spec_serialize(b));
        },
        PacketModel::DisplayObjective(b) => {
            DisplayObjectivePacket::lemma_round_trip(b, Seq::<u8>::empty());
            assert(DisplayObjectivePacket::spec_serialize(b) + Seq::<u8>::empty() == DisplayObjectivePacket::spec_serialize(b));
        },
        PacketModel::LinkEntries(b) => {
            LinkEntriesPacket::lemma_round_trip(b, Seq::<u8>::empty());
            assert(LinkEntriesPacket::spec_serialize(b) + Seq::<u8>::empty() == LinkEntriesPacket::spec_serialize(b));
        },
        PacketModel::SetExperience(b) => {
            SetExperiencePacket::lemma_round_trip(b, Seq::<u8>::empty());
            assert(SetExperiencePacket::spec_serialize(b) + Seq::<u8>::empty() == SetExperiencePacket::spec_serialize(b));
        },
        PacketModel::SetHealth(b) => {
            SetHealthPacket::lemma_round_trip(b, Seq::<u8>::empty());
            assert(SetHealthPacket::spec_serialize(b) + Seq::<u8>::empty() == SetHealthPacket::spec_serialize(b));
        },
        PacketModel::SetHeldItem(b) => {
            SetHeldItemPacket::lemma_round_trip(b, Seq::<u8>::empty());
            assert(SetHeldItemPacket::spec_serialize(b) + Seq::<u8>::empty() == SetHeldItemPacket::spec_serialize(b));
        },
        PacketModel::SetPassengers(b) => {
            SetPassengersPacket::lemma_round_trip(b, Seq::<u8>::empty());
            assert(SetPassengersPacket::spec_serialize(b) + Seq::<u8>::empty() == SetPassengersPacket::spec_serialize(b));
        },
        PacketModel::SetSimulationDistance(b) => {
            SetSimulationDistancePacket::lemma_round_trip(b, Seq::<u8>::empty());
            assert(SetSimulationDistancePacket::spec_serialize(b) + Seq::<u8>::empty() == SetSimulationDistancePacket::spec_serialize(b));
        },
        PacketModel::UpdateTime(b) => {
            UpdateTimePacket::lemma_round_trip(b, Seq::<u8>::empty());
            assert(UpdateTimePacket::spec_serialize(b) + Seq::<u8>::empty() == UpdateTimePacket::spec_serialize(b));
        },
        PacketModel::SetTitleAnimationTimes(b) => {
            SetTitleAnimationTimesPacket::lemma_round_trip(b, Seq::<u8>::empty());
            assert(SetTitleAnimationTimesPacket::spec_serialize(b) + Seq::<u8>::empty() == SetTitleAnimationTimesPacket::spec_serialize(b));
        },
        PacketModel::StartConfiguration(b) => {
            StartConfigurationPacket::lemma_round_trip(b, Seq::<u8>::empty());
            assert(StartConfigurationPacket::spec_serialize(b) + Seq::<u8>::empty() == StartConfigurationPacket::spec_serialize(b));
        },
        PacketModel::StopSound(b) => {
            StopSoundPacket::lemma_round_trip(b, Seq::<u8>::empty());
            assert(StopSoundPacket::spec_serialize(b) + Seq::<u8>::empty() == StopSoundPacket::spec_serialize(b));
        },
        PacketModel::StoreCookie(b) => {
            StoreCookiePacket::lemma_round_trip(b, Seq::<u8>::empty());
            assert(StoreCookiePacket::spec_serialize(b) + Seq::<u8>::empty() == StoreCookiePacket::spec_serialize(b));
        },
        PacketModel::PickupItem(b) => {
            PickupItemPacket::lemma_round_trip(b, Seq::<u8>::empty());
            assert(PickupItemPacket::spec_serialize(b) + Seq::<u8>::empty() == PickupItemPacket::spec_serialize(b));
        },
        PacketModel::SetTickingState(b) => {
            SetTickingStatePacket::lemma_round_trip(b, Seq::<u8>::empty());
            assert(SetTickingStatePacket::spec_serialize(b) + Seq::<u8>::empty() == SetTickingStatePacket::spec_serialize(b));
        },
        PacketModel::StepTick(b) => {
            StepTickPacket::lemma_round_trip(b, Seq::<u8>::empty());
            assert(StepTickPacket::spec_serialize(b) + Seq::<u8>::empty() == StepTickPacket::spec_serialize(b));
        },
        PacketModel::Transfer(b) => {
            TransferPacket::lemma_round_trip(b, Seq::<u8>::empty());
            assert(TransferPacket::spec_serialize(b) + Seq::<u8>::empty() == TransferPacket::spec_serialize(b));
        },
        PacketModel::EntityEffect(b) => {
            EntityEffectPacket::lemma_round_trip(b, Seq::<u8>::empty());
            assert(EntityEffectPacket::spec_serialize(b) + Seq::<u8>::empty() == EntityEffectPacket::spec_serialize(b));
        },
        PacketModel::ProjectilePower(b) => {
            ProjectilePowerPacket::lemma_round_trip(b, Seq::<u8>::empty());
            assert(ProjectilePowerPacket::spec_serialize(b) + Seq::<u8>::empty() == ProjectilePowerPacket::spec_serialize(b));
        },
        PacketModel::CustomReportDetails(b) => {
            CustomReportDetailsPacket::lemma_round_trip(b, Seq::<u8>::empty());
            assert(CustomReportDetailsPacket::spec_serialize(b) + Seq::<u8>::empty() == CustomReportDetailsPacket::spec_serialize(b));
        },
        PacketModel::ClearDialog(b) => {
            ClearDialogPacket::lemma_round_trip(b, Seq::<u8>::empty());
            assert(ClearDialogPacket::spec_serialize(b) + Seq::<u8>::empty() == ClearDialogPacket::spec_serialize(b));
        },
        _ => {},
    }
}

#[verifier::spinoff_prover]
proof fn lemma_packet_body_round_trip_play_client(v: PacketModel)
    requires
        spec_packet_state(v) == PacketState::PLAY,
        spec_packet_direction(v) == PacketDirection::CLIENT,
        spec_packet_body_can_serialize(v),
        spec_packet_well_formed(v),
    ensures
        spec_packet_body_parse_play_client(spec_packet_body_bytes(v), spec_packet_id(v))
            == Some(Ok::<(PacketModel, nat), ErrKind>((v, spec_packet_body_bytes(v).len()))),
{
    if spec_packet_id(v) <= 40 {
        lemma_packet_body_round_trip_play_client_0(v);
    } else if spec_packet_id(v) <= 90 {
        lemma_packet_body_round_trip_play_client_1(v);
    } else if spec_packet_id(v) <= 137 {
        lemma_packet_body_round_trip_play_client_2(v);
    }
}

#[verifier::spinoff_prover]
#[verifier::rlimit(100)]
proof fn lemma_packet_body_round_trip_play_server_0(v: PacketModel)
    requires
        spec_packet_state(v) == PacketState::PLAY,
        spec_packet_direction(v) == PacketDirection::SERVER,
        0 <= spec_packet_id(v) <= 29,
        spec_packet_body_can_serialize(v),
        spec_packet_well_formed(v),
    ensures
        spec_packet_body_parse_play_server_0(spec_packet_body_bytes(v), spec_packet_id(v))
            == Some(Ok::<(PacketModel, nat), ErrKind>((v, spec_packet_body_bytes(v).len()))),
{
    match v {
        PacketModel::ConfirmTeleport(b) => {
            ConfirmTeleportPacket::lemma_round_trip(b, Seq::<u8>::empty());
            assert(ConfirmTeleportPacket::spec_serialize(b) + Seq::<u8>::empty() == ConfirmTeleportPacket::spec_serialize(b));
        },
        PacketModel::QueryBlockEntityTag(b) => {
            QueryBlockEntityTagPacket::lemma_round_trip(b, Seq::<u8>::empty());
            assert(QueryBlockEntityTagPacket::spec_serialize(b) + Seq::<u8>::empty() == QueryBlockEntityTagPacket::spec_serialize(b));
        },
        PacketModel::BundleItemSelected(b) => {
            BundleItemSelectedPacket::lemma_round_trip(b, Seq::<u8>::empty());
            assert(BundleItemSelectedPacket::spec_serialize(b) + Seq::<u8>::empty() == BundleItemSelectedPacket::spec_serialize(b));
        },
        PacketModel::ChangeGameMode(b) => {
            ChangeGameModePacket::lemma_round_trip(b, Seq::<u8>::empty());
            assert(ChangeGameModePacket::spec_serialize(b) + Seq::<u8>::empty() == ChangeGameModePacket::spec_serialize(b));
        },
        PacketModel::AcknowledgeMessage(b) => {
            AcknowledgeMessagePacket::lemma_round_trip(b, Seq::<u8>::empty());
            assert(AcknowledgeMessagePacket::spec_serialize(b) + Seq::<u8>::empty() == AcknowledgeMessagePacket::spec_serialize(b));
        },
        PacketModel::ChatCommand(b) => {
            ChatCommandPacket::lemma_round_trip(b, Seq::<u8>::empty());
            assert(ChatCommandPacket::spec_serialize(b) + Seq::<u8>::empty() == ChatCommandPacket::spec_serialize(b));
        },
        PacketModel::ChunkBatchReceived(b) => {
            ChunkBatchReceivedPacket::lemma_round_trip(b, Seq::<u8>::empty());
            assert(ChunkBatchReceivedPacket::spec_serialize(b) + Seq::<u8>::empty() == ChunkBatchReceivedPacket::spec_serialize(b));
        },
        PacketModel::ClientCommand(b) => {
            ClientCommandPacket::lemma_round_trip(b, Seq::<u8>::empty());
            assert(ClientCommandPacket::spec_serialize(b) + Seq::<u8>::empty() == ClientCommandPacket::spec_serialize(b));
        },
        PacketModel::ClientTickEnd(b) => {
            ClientTickEndPacket::lemma_round_trip(b, Seq::<u8>::empty());
            assert(ClientTickEndPacket::spec_serialize(b) + Seq::<u8>::empty() == ClientTickEndPacket::spec_serialize(b));
        },
        PacketModel::ClientInformationPlay(b) => {
            ClientInformationPlayPacket::lemma_round_trip(b, Seq::<u8>::empty());
            assert(ClientInformationPlayPacket::spec_serialize(b) + Seq::<u8>::empty() == ClientInformationPlayPacket::spec_serialize(b));
        },
        PacketModel::CommandSuggestionsRequest(b) => {
            CommandSuggestionsRequestPacket::lemma_round_trip(b, Seq::<u8>::empty());
            assert(CommandSuggestionsRequestPacket::spec_serialize(b) + Seq::<u8>::empty() == CommandSuggestionsRequestPacket::spec_serialize(b));
        },
        PacketModel::AcknowledgeConfiguration(b) => {
            AcknowledgeConfigurationPacket::lemma_round_trip(b, Seq::<u8>::empty());
            assert(AcknowledgeConfigurationPacket::spec_serialize(b) + Seq::<u8>::empty() == AcknowledgeConfigurationPacket::spec_serialize(b));
        },
        PacketModel::ClickContainerButton(b) => {
            ClickContainerButtonPacket::lemma_round_trip(b, Seq::<u8>::empty());
            assert(ClickContainerButtonPacket::spec_serialize(b) + Seq::<u8>::empty() == ClickContainerButtonPacket::spec_serialize(b));
        },
        PacketModel::CloseContainerServer(b) => {
            CloseContainerServerPacket::lemma_round_trip(b, Seq::<u8>::empty());
            assert(CloseContainerServerPacket::spec_serialize(b) + Seq::<u8>::empty() == CloseContainerServerPacket::spec_serialize(b));
        },
        PacketModel::ChangeContainerSlotState(b) => {
            ChangeContainerSlotStatePacket::lemma_round_trip(b, Seq::<u8>::empty());
            assert(ChangeContainerSlotStatePacket::spec_serialize(b) + Seq::<u8>::empty() == ChangeContainerSlotStatePacket::spec_serialize(b));
        },
        PacketModel::CookieResponsePlay(b) => {
            CookieResponsePlayPacket::lemma_round_trip(b, Seq::<u8>::empty());
            assert(CookieResponsePlayPacket::spec_serialize(b) + Seq::<u8>::empty() == CookieResponsePlayPacket::spec_serialize(b));
        },
        PacketModel::ServerboundPluginMessagePlay(b) => {
            lemma_then_bytes_round_trip::<String>(b.0, b.1);
        },
        PacketModel::DebugSubscriptionRequest(b) => {
            DebugSubscriptionRequestPacket::lemma_round_trip(b, Seq::<u8>::empty());
            assert(DebugSubscriptionRequestPacket::spec_serialize(b) + Seq::<u8>::empty() == DebugSubscriptionRequestPacket::spec_serialize(b));
        },
        PacketModel::EditBook(b) => {
            EditBookPacket::lemma_round_trip(b, Seq::<u8>::empty());
            assert(EditBookPacket::spec_serialize(b) + Seq::<u8>::empty() == EditBookPacket::spec_serialize(b));
        },
        PacketModel::QueryEntityTag(b) => {
            QueryEntityTagPacket::lemma_round_trip(b, Seq::<u8>::empty());
            assert(QueryEntityTagPacket::spec_serialize(b) + Seq::<u8>::empty() == QueryEntityTagPacket::spec_serialize(b));
        },
        PacketModel::JigsawGenerate(b) => {
            JigsawGeneratePacket::lemma_round_trip(b, Seq::<u8>::empty());
            assert(JigsawGeneratePacket::spec_serialize(b) + Seq::<u8>::empty() == JigsawGeneratePacket::spec_serialize(b));
        },
        PacketModel::ServerboundKeepAlive(b) => {
            ServerboundKeepAlivePacket::lemma_round_trip(b, Seq::<u8>::empty());
            assert(ServerboundKeepAlivePacket::spec_serialize(b) + Seq::<u8>::empty() == ServerboundKeepAlivePacket::spec_serialize(b));
        },
        PacketModel::LockDifficulty(b) => {
            LockDifficultyPacket::lemma_round_trip(b, Seq::<u8>::empty());
            assert(LockDifficultyPacket::spec_serialize(b) + Seq::<u8>::empty() == LockDifficultyPacket::spec_serialize(b));
        },
        PacketModel::SetPlayerPosition(b) => {
            SetPlayerPositionPacket::lemma_round_trip(b, Seq::<u8>::empty());
            assert(SetPlayerPositionPacket::spec_serialize(b) + Seq::<u8>::empty() == SetPlayerPositionPacket::spec_serialize(b));
        },
        _ => {},
    }
}

#[verifier::spinoff_prover]
#[verifier::rlimit(100)]
proof fn lemma_packet_body_round_trip_play_server_1(v: PacketModel)
    requires
        spec_packet_state(v) == PacketState::PLAY,
        spec_packet_direction(v) == PacketDirection::SERVER,
        30 <= spec_packet_id(v) <= 58,
        spec_packet_body_can_serialize(v),
        spec_packet_well_formed(v),
    ensures
        spec_packet_body_parse_play_server_1(spec_packet_body_bytes(v), spec_packet_id(v))
            == Some(Ok::<(PacketModel, nat), ErrKind>((v, spec_packet_body_bytes(v).len()))),
{
    match v {
        PacketModel::SetPlayerPositionRotation(b) => {
            SetPlayerPositionRotationPacket::lemma_round_trip(b, Seq::<u8>::empty());
            assert(SetPlayerPositionRotationPacket::spec_serialize(b) + Seq::<u8>::empty() == SetPlayerPositionRotationPacket::spec_serialize(b));
        },
        PacketModel::SetPlayerRotation(b) => {
            SetPlayerRotationPacket::lemma_round_trip(b, Seq::<u8>::empty());
            assert(SetPlayerRotationPacket::spec_serialize(b) + Seq::<u8>::empty() == SetPlayerRotationPacket::spec_serialize(b));
        },
        PacketModel::SetPlayerMovementFlags(b) => {
            SetPlayerMovementFlagsPacket::lemma_round_trip(b, Seq::<u8>::empty());
            assert(SetPlayerMovementFlagsPacket::spec_serialize(b) + Seq::<u8>::empty() == SetPlayerMovementFlagsPacket::spec_serialize(b));
        },
        PacketModel::MoveVehicleServer(b) => {
            MoveVehicleServerPacket::lemma_round_trip(b, Seq::<u8>::empty());
            assert(MoveVehicleServerPacket::spec_serialize(b) + Seq::<u8>::empty() == MoveVehicleServerPacket::spec_serialize(b));
        },
        PacketModel::PaddleBoat(b) => {
            PaddleBoatPacket::lemma_round_trip(b, Seq::<u8>::empty());
            assert(PaddleBoatPacket::spec_serialize(b) + Seq::<u8>::empty() == PaddleBoatPacket::spec_serialize(b));
        },
        PacketModel::PickItemFromBlock(b) => {
            PickItemFromBlockPacket::lemma_round_trip(b, Seq::<u8>::empty());
            assert(PickItemFromBlockPacket::spec_serialize(b) + Seq::<u8>::empty() == PickItemFromBlockPacket::spec_serialize(b));
        },
        PacketModel::PickItemFromEntity(b) => {
            PickItemFromEntityPacket::lemma_round_trip(b, Seq::<u8>::empty());
            assert(PickItemFromEntityPacket::spec_serialize(b) + Seq::<u8>::empty() == PickItemFromEntityPacket::spec_serialize(b));
        },
        PacketModel::PingRequestPlay(b) => {
            PingRequestPlayPacket::lemma_round_trip(b, Seq::<u8>::empty());
            assert(PingRequestPlayPacket::spec_serialize(b) + Seq::<u8>::empty() == PingRequestPlayPacket::spec_serialize(b));
        },
        PacketModel::PlaceRecipe(b) => {
            PlaceRecipePacket::lemma_round_trip(b, Seq::<u8>::empty());
            assert(PlaceRecipePacket::spec_serialize(b) + Seq::<u8>::empty() == PlaceRecipePacket::spec_serialize(b));
        },
        PacketModel::PlayerAbilitiesServer(b) => {
            PlayerAbilitiesServerPacket::lemma_round_trip(b, Seq::<u8>::empty());
            assert(PlayerAbilitiesServerPacket::spec_serialize(b) + Seq::<u8>::empty() == PlayerAbilitiesServerPacket::spec_serialize(b));
        },
        PacketModel::PlayerAction(b) => {
            PlayerActionPacket::lemma_round_trip(b, Seq::<u8>::empty());
            assert(PlayerActionPacket::spec_serialize(b) + Seq::<u8>::empty() == PlayerActionPacket::spec_serialize(b));
        },
        PacketModel::PlayerCommand(b) => {
            PlayerCommandPacket::lemma_round_trip(b, Seq::<u8>::empty());
            assert(PlayerCommandPacket::spec_serialize(b) + Seq::<u8>::empty() == PlayerCommandPacket::spec_serialize(b));
        },
        PacketModel::PlayerInput(b) => {
            PlayerInputPacket::lemma_round_trip(b, Seq::<u8>::empty());
            assert(PlayerInputPacket::spec_serialize(b) + Seq::<u8>::empty() == PlayerInputPacket::spec_serialize(b));
        },
        PacketModel::PlayerLoaded(b) => {
            PlayerLoadedPacket::lemma_round_trip(b, Seq::<u8>::empty());
            assert(PlayerLoadedPacket::spec_serialize(b) + Seq::<u8>::empty() == PlayerLoadedPacket::spec_serialize(b));
        },
        PacketModel::PongPlay(b) => {
            PongPlayPacket::lemma_round_trip(b, Seq::<u8>::empty());
            assert(PongPlayPacket::spec_serialize(b) + Seq::<u8>::empty() == PongPlayPacket::spec_serialize(b));
        },
        PacketModel::ChangeRecipeBookSettings(b) => {
            ChangeRecipeBookSettingsPacket::lemma_round_trip(b, Seq::<u8>::empty());
            assert(ChangeRecipeBookSettingsPacket::spec_serialize(b) + Seq::<u8>::empty() == ChangeRecipeBookSettingsPacket::spec_serialize(b));
        },
        PacketModel::SetSeenRecipe(b) => {
            SetSeenRecipePacket::lemma_round_trip(b, Seq::<u8>::empty());
            assert(SetSeenRecipePacket::spec_serialize(b) + Seq::<u8>::empty() == SetSeenRecipePacket::spec_serialize(b));
        },
        PacketModel::RenameItem(b) => {
            RenameItemPacket::lemma_round_trip(b, Seq::<u8>::empty());
            assert(RenameItemPacket::spec_serialize(b) + Seq::<u8>::empty() == RenameItemPacket::spec_serialize(b));
        },
        PacketModel::SelectTrade(b) => {
            SelectTradePacket::lemma_round_trip(b, Seq::<u8>::empty());
            assert(SelectTradePacket::spec_serialize(b) + Seq::<u8>::empty() == SelectTradePacket::spec_serialize(b));
        },
        PacketModel::SetBeaconEffect(b) => {
            SetBeaconEffectPacket::lemma_round_trip(b, Seq::<u8>::empty());
            assert(SetBeaconEffectPacket::spec_serialize(b) + Seq::<u8>::empty() == SetBeaconEffectPacket::spec_serialize(b));
        },
        PacketModel::SetHeldItemServer(b) => {
            SetHeldItemServerPacket::lemma_round_trip(b, Seq::<u8>::empty());
            assert(SetHeldItemServerPacket::spec_serialize(b) + Seq::<u8>::empty() == SetHeldItemServerPacket::spec_serialize(b));
        },
        PacketModel::ProgramCommandBlockMinecart(b) => {
            ProgramCommandBlockMinecartPacket::lemma_round_trip(b, Seq::<u8>::empty());
            assert(ProgramCommandBlockMinecartPacket::spec_serialize(b) + Seq::<u8>::empty() == ProgramCommandBlockMinecartPacket::spec_serialize(b));
        },
        PacketModel::ProgramJigsawBlock(b) => {
            ProgramJigsawBlockPacket::lemma_round_trip(b, Seq::<u8>::empty());
            assert(ProgramJigsawBlockPacket::spec_serialize(b) + Seq::<u8>::empty() == ProgramJigsawBlockPacket::spec_serialize(b));
        },
        PacketModel::SetTestBlock(b) => {
            SetTestBlockPacket::lemma_round_trip(b, Seq::<u8>::empty());
            assert(SetTestBlockPacket::spec_serialize(b) + Seq::<u8>::empty() == SetTestBlockPacket::spec_serialize(b));
        },
        _ => {},
    }
}

#[verifier::spinoff_prover]
#[verifier::rlimit(100)]
proof fn lemma_packet_body_round_trip_play_server_2(v: PacketModel)
    requires
        spec_packet_state(v) == PacketState::PLAY,
        spec_packet_direction(v) == PacketDirection::SERVER,
        59 <= spec_packet_id(v) <= 65,
        spec_packet_body_can_serialize(v),
        spec_packet_well_formed(v),
    ensures
        spec_packet_body_parse_play_server_2(spec_packet_body_bytes(v), spec_packet_id(v))
            == Some(Ok::<(PacketModel, nat), ErrKind>((v, spec_packet_body_bytes(v).len()))),
{
    match v {
        PacketModel::UpdateSign(b) => {
            UpdateSignPacket::lemma_round_trip(b, Seq::<u8>::empty());
            assert(UpdateSignPacket::spec_serialize(b) + Seq::<u8>::empty() == UpdateSignPacket::spec_serialize(b));
        },
        PacketModel::SwingArm(b) => {
            SwingArmPacket::lemma_round_trip(b, Seq::<u8>::empty());
            assert(SwingArmPacket::spec_serialize(b) + Seq::<u8>::empty() == SwingArmPacket::spec_serialize(b));
        },
        PacketModel::CustomClickAction(b) => {
            CustomClickActionPacket::lemma_round_trip(b, Seq::<u8>::empty());
            assert(CustomClickActionPacket::spec_serialize(b) + Seq::<u8>::empty() == CustomClickActionPacket::spec_serialize(b));
        },
        _ => {},
    }
}

#[verifier::spinoff_prover]
proof fn lemma_packet_body_round_trip_play_server(v: PacketModel)
    requires
        spec_packet_state(v) == PacketState::PLAY,
        spec_packet_direction(v) == PacketDirection::SERVER,
        spec_packet_body_can_serialize(v),
        spec_packet_well_formed(v),
    ensures
        spec_packet_body_parse_play_server(spec_packet_body_bytes(v), spec_packet_id(v))
            == Some(Ok::<(PacketModel, nat), ErrKind>((v, spec_packet_body_bytes(v).len()))),
{
    if spec_packet_id(v) <= 29 {
        lemma_packet_body_round_trip_play_server_0(v);
    } else if spec_packet_id(v) <= 58 {
        lemma_packet_body_round_trip_play_server_1(v);
    } else if spec_packet_id(v) <= 65 {
        lemma_packet_body_round_trip_play_server_2(v);
    }
}

/// The body of a packet reads back as that packet, from its state, direction and id.
proof fn lemma_packet_body_round_trip(v: PacketModel)
    requires
        spec_packet_body_can_serialize(v),
        spec_packet_well_formed(v),
    ensures
        spec_packet_body_parse(spec_packet_body_bytes(v), spec_packet_state(v), spec_packet_direction(v), spec_packet_id(v))
            == Some(Ok::<(PacketModel, nat), ErrKind>((v, spec_packet_body_bytes(v).len()))),
{
    reveal(spec_packet_body_parse);
    if spec_packet_state(v) == PacketState::HANDSHAKING && spec_packet_direction(v) == PacketDirection::SERVER {
        lemma_packet_body_round_trip_handshaking_server(v);
    } else if spec_packet_state(v) == PacketState::STATUS && spec_packet_direction(v) == PacketDirection::CLIENT {
        lemma_packet_body_round_trip_status_client(v);
    } else if spec_packet_state(v) == PacketState::STATUS && spec_packet_direction(v) == PacketDirection::SERVER {
        lemma_packet_body_round_trip_status_server(v);
    } else if spec_packet_state(v) == PacketState::LOGIN && spec_packet_direction(v) == PacketDirection::CLIENT {
        lemma_packet_body_round_trip_login_client(v);
    } else if spec_packet_state(v) == PacketState::LOGIN && spec_packet_direction(v) == PacketDirection::SERVER {
        lemma_packet_body_round_trip_login_server(v);
    } else if spec_packet_state(v) == PacketState::CONFIGURATION && spec_packet_direction(v) == PacketDirection::CLIENT {
        lemma_packet_body_round_trip_configuration_client(v);
    } else if spec_packet_state(v) == PacketState::CONFIGURATION && spec_packet_direction(v) == PacketDirection::SERVER {
        lemma_packet_body_round_trip_configuration_server(v);
    } else if spec_packet_state(v) == PacketState::PLAY && spec_packet_direction(v) == PacketDirection::CLIENT {
        lemma_packet_body_round_trip_play_client(v);
    } else if spec_packet_state(v) == PacketState::PLAY && spec_packet_direction(v) == PacketDirection::SERVER {
        lemma_packet_body_round_trip_play_server(v);
    }
}

/// The protocol's table of packets: each packet's id, the state it is sent in and the direction it
/// travels, as the protocol numbers them (for instance, Registry Data is 0x07 in the configuration
/// state to the client, and Reset Chat is 0x06 there).
#[verifier::spinoff_prover]
#[verifier::rlimit(100)]
pub proof fn lemma_packet_table(v: PacketModel)
    ensures
        match v {
            PacketModel::Handshaking(_) => spec_packet_id(v) == 0x00 && spec_packet_state(v) == PacketState::HANDSHAKING && spec_packet_direction(v) == PacketDirection::SERVER,
            PacketModel::PingResponse(_) => spec_packet_id(v) == 0x01 && spec_packet_state(v) == PacketState::STATUS && spec_packet_direction(v) == PacketDirection::CLIENT,
            PacketModel::StatusRequest(_) => spec_packet_id(v) == 0x00 && spec_packet_state(v) == PacketState::STATUS && spec_packet_direction(v) == PacketDirection::SERVER,
            PacketModel::PingRequest(_) => spec_packet_id(v) == 0x01 && spec_packet_state(v) == PacketState::STATUS && spec_packet_direction(v) == PacketDirection::SERVER,
            PacketModel::SetCompression(_) => spec_packet_id(v) == 0x03 && spec_packet_state(v) == PacketState::LOGIN && spec_packet_direction(v) == PacketDirection::CLIENT,
            PacketModel::LoginPluginRequest(_) => spec_packet_id(v) == 0x04 && spec_packet_state(v) == PacketState::LOGIN && spec_packet_direction(v) == PacketDirection::CLIENT,
            PacketModel::LoginCookieRequest(_) => spec_packet_id(v) == 0x05 && spec_packet_state(v) == PacketState::LOGIN && spec_packet_direction(v) == PacketDirection::CLIENT,
            PacketModel::LoginPluginResponse(_) => spec_packet_id(v) == 0x02 && spec_packet_state(v) == PacketState::LOGIN && spec_packet_direction(v) == PacketDirection::SERVER,
            PacketModel::LoginAcknowledged(_) => spec_packet_id(v) == 0x03 && spec_packet_state(v) == PacketState::LOGIN && spec_packet_direction(v) == PacketDirection::SERVER,
            PacketModel::LoginCookieResponse(_) => spec_packet_id(v) == 0x04 && spec_packet_state(v) == PacketState::LOGIN && spec_packet_direction(v) == PacketDirection::SERVER,
            PacketModel::ConfigCookieRequest(_) => spec_packet_id(v) == 0x00 && spec_packet_state(v) == PacketState::CONFIGURATION && spec_packet_direction(v) == PacketDirection::CLIENT,
            PacketModel::ClientboundPluginMessage(_) => spec_packet_id(v) == 0x01 && spec_packet_state(v) == PacketState::CONFIGURATION && spec_packet_direction(v) == PacketDirection::CLIENT,
            PacketModel::FinishConfiguration(_) => spec_packet_id(v) == 0x03 && spec_packet_state(v) == PacketState::CONFIGURATION && spec_packet_direction(v) == PacketDirection::CLIENT,
            PacketModel::KeepAlive(_) => spec_packet_id(v) == 0x04 && spec_packet_state(v) == PacketState::CONFIGURATION && spec_packet_direction(v) == PacketDirection::CLIENT,
            PacketModel::ConfigurationPing(_) => spec_packet_id(v) == 0x05 && spec_packet_state(v) == PacketState::CONFIGURATION && spec_packet_direction(v) == PacketDirection::CLIENT,
            PacketModel::ResetChat(_) => spec_packet_id(v) == 0x06 && spec_packet_state(v) == PacketState::CONFIGURATION && spec_packet_direction(v) == PacketDirection::CLIENT,
            PacketModel::RegistryData(_) => spec_packet_id(v) == 0x07 && spec_packet_state(v) == PacketState::CONFIGURATION && spec_packet_direction(v) == PacketDirection::CLIENT,
            PacketModel::ConfigStoreCookie(_) => spec_packet_id(v) == 0x0a && spec_packet_state(v) == PacketState::CONFIGURATION && spec_packet_direction(v) == PacketDirection::CLIENT,
            PacketModel::ConfigTransfer(_) => spec_packet_id(v) == 0x0b && spec_packet_state(v) == PacketState::CONFIGURATION && spec_packet_direction(v) == PacketDirection::CLIENT,
            PacketModel::ClientboundKnownPacks(_) => spec_packet_id(v) == 0x0e && spec_packet_state(v) == PacketState::CONFIGURATION && spec_packet_direction(v) == PacketDirection::CLIENT,
            PacketModel::ConfigCustomReportDetails(_) => spec_packet_id(v) == 0x0f && spec_packet_state(v) == PacketState::CONFIGURATION && spec_packet_direction(v) == PacketDirection::CLIENT,
            PacketModel::ClientInformation(_) => spec_packet_id(v) == 0x00 && spec_packet_state(v) == PacketState::CONFIGURATION && spec_packet_direction(v) == PacketDirection::SERVER,
            PacketModel::CookieResponse(_) => spec_packet_id(v) == 0x01 && spec_packet_state(v) == PacketState::CONFIGURATION && spec_packet_direction(v) == PacketDirection::SERVER,
            PacketModel::ServerboundPluginMessage(_) => spec_packet_id(v) == 0x02 && spec_packet_state(v) == PacketState::CONFIGURATION && spec_packet_direction(v) == PacketDirection::SERVER,
            PacketModel::AcknowledgeFinishConfiguration(_) => spec_packet_id(v) == 0x03 && spec_packet_state(v) == PacketState::CONFIGURATION && spec_packet_direction(v) == PacketDirection::SERVER,
            PacketModel::ServerboundKeepAliveConfig(_) => spec_packet_id(v) == 0x04 && spec_packet_state(v) == PacketState::CONFIGURATION && spec_packet_direction(v) == PacketDirection::SERVER,
            PacketModel::ConfigPong(_) => spec_packet_id(v) == 0x05 && spec_packet_state(v) == PacketState::CONFIGURATION && spec_packet_direction(v) == PacketDirection::SERVER,
            PacketModel::ServerboundKnownPacks(_) => spec_packet_id(v) == 0x07 && spec_packet_state(v) == PacketState::CONFIGURATION && spec_packet_direction(v) == PacketDirection::SERVER,
            PacketModel::ConfigCustomClickAction(_) => spec_packet_id(v) == 0x08 && spec_packet_state(v) == PacketState::CONFIGURATION && spec_packet_direction(v) == PacketDirection::SERVER,
            PacketModel::BundleDelimiter(_) => spec_packet_id(v) == 0x00 && spec_packet_state(v) == PacketState::PLAY && spec_packet_direction(v) == PacketDirection::CLIENT,
            PacketModel::EntityAnimation(_) => spec_packet_id(v) == 0x02 && spec_packet_state(v) == PacketState::PLAY && spec_packet_direction(v) == PacketDirection::CLIENT,
            PacketModel::AwardStatistics(_) => spec_packet_id(v) == 0x03 && spec_packet_state(v) == PacketState::PLAY && spec_packet_direction(v) == PacketDirection::CLIENT,
            PacketModel::AcknowledgeBlockChange(_) => spec_packet_id(v) == 0x04 && spec_packet_state(v) == PacketState::PLAY && spec_packet_direction(v) == PacketDirection::CLIENT,
            PacketModel::SetBlockDestroyStage(_) => spec_packet_id(v) == 0x05 && spec_packet_state(v) == PacketState::PLAY && spec_packet_direction(v) == PacketDirection::CLIENT,
            PacketModel::BlockAction(_) => spec_packet_id(v) == 0x07 && spec_packet_state(v) == PacketState::PLAY && spec_packet_direction(v) == PacketDirection::CLIENT,
            PacketModel::BlockUpdate(_) => spec_packet_id(v) == 0x08 && spec_packet_state(v) == PacketState::PLAY && spec_packet_direction(v) == PacketDirection::CLIENT,
            PacketModel::ChunkBatchFinished(_) => spec_packet_id(v) == 0x0b && spec_packet_state(v) == PacketState::PLAY && spec_packet_direction(v) == PacketDirection::CLIENT,
            PacketModel::ChunkBatchStart(_) => spec_packet_id(v) == 0x0c && spec_packet_state(v) == PacketState::PLAY && spec_packet_direction(v) == PacketDirection::CLIENT,
            PacketModel::ChunkBiomes(_) => spec_packet_id(v) == 0x0d && spec_packet_state(v) == PacketState::PLAY && spec_packet_direction(v) == PacketDirection::CLIENT,
            PacketModel::ClearTitles(_) => spec_packet_id(v) == 0x0e && spec_packet_state(v) == PacketState::PLAY && spec_packet_direction(v) == PacketDirection::CLIENT,
            PacketModel::CloseContainer(_) => spec_packet_id(v) == 0x11 && spec_packet_state(v) == PacketState::PLAY && spec_packet_direction(v) == PacketDirection::CLIENT,
            PacketModel::SetContainerProperty(_) => spec_packet_id(v) == 0x13 && spec_packet_state(v) == PacketState::PLAY && spec_packet_direction(v) == PacketDirection::CLIENT,
            PacketModel::CookieRequestPlay(_) => spec_packet_id(v) == 0x15 && spec_packet_state(v) == PacketState::PLAY && spec_packet_direction(v) == PacketDirection::CLIENT,
            PacketModel::SetCooldown(_) => spec_packet_id(v) == 0x16 && spec_packet_state(v) == PacketState::PLAY && spec_packet_direction(v) == PacketDirection::CLIENT,
            PacketModel::ChatSuggestions(_) => spec_packet_id(v) == 0x17 && spec_packet_state(v) == PacketState::PLAY && spec_packet_direction(v) == PacketDirection::CLIENT,
            PacketModel::ClientboundPluginMessagePlay(_) => spec_packet_id(v) == 0x18 && spec_packet_state(v) == PacketState::PLAY && spec_packet_direction(v) == PacketDirection::CLIENT,
            PacketModel::DebugSample(_) => spec_packet_id(v) == 0x1e && spec_packet_state(v) == PacketState::PLAY && spec_packet_direction(v) == PacketDirection::CLIENT,
            PacketModel::EntityEvent(_) => spec_packet_id(v) == 0x22 && spec_packet_state(v) == PacketState::PLAY && spec_packet_direction(v) == PacketDirection::CLIENT,
            PacketModel::TeleportEntity(_) => spec_packet_id(v) == 0x23 && spec_packet_state(v) == PacketState::PLAY && spec_packet_direction(v) == PacketDirection::CLIENT,
            PacketModel::UnloadChunk(_) => spec_packet_id(v) == 0x25 && spec_packet_state(v) == PacketState::PLAY && spec_packet_direction(v) == PacketDirection::CLIENT,
            PacketModel::GameEvent(_) => spec_packet_id(v) == 0x26 && spec_packet_state(v) == PacketState::PLAY && spec_packet_direction(v) == PacketDirection::CLIENT,
            PacketModel::GameTestHighlightPosition(_) => spec_packet_id(v) == 0x27 && spec_packet_state(v) == PacketState::PLAY && spec_packet_direction(v) == PacketDirection::CLIENT,
            PacketModel::OpenHorseScreen(_) => spec_packet_id(v) == 0x28 && spec_packet_state(v) == PacketState::PLAY && spec_packet_direction(v) == PacketDirection::CLIENT,
            PacketModel::HurtAnimation(_) => spec_packet_id(v) == 0x29 && spec_packet_state(v) == PacketState::PLAY && spec_packet_direction(v) == PacketDirection::CLIENT,
            PacketModel::ClientboundKeepAlive(_) => spec_packet_id(v) == 0x2b && spec_packet_state(v) == PacketState::PLAY && spec_packet_direction(v) == PacketDirection::CLIENT,
            PacketModel::ChunkDataUpdateLight(_) => spec_packet_id(v) == 0x2c && spec_packet_state(v) == PacketState::PLAY && spec_packet_direction(v) == PacketDirection::CLIENT,
            PacketModel::UpdateLight(_) => spec_packet_id(v) == 0x2f && spec_packet_state(v) == PacketState::PLAY && spec_packet_direction(v) == PacketDirection::CLIENT,
            PacketModel::UpdateEntityPosition(_) => spec_packet_id(v) == 0x33 && spec_packet_state(v) == PacketState::PLAY && spec_packet_direction(v) == PacketDirection::CLIENT,
            PacketModel::MoveVehicle(_) => spec_packet_id(v) == 0x37 && spec_packet_state(v) == PacketState::PLAY && spec_packet_direction(v) == PacketDirection::CLIENT,
            PacketModel::OpenBook(_) => spec_packet_id(v) == 0x38 && spec_packet_state(v) == PacketState::PLAY && spec_packet_direction(v) == PacketDirection::CLIENT,
            PacketModel::OpenSignEditor(_) => spec_packet_id(v) == 0x3a && spec_packet_state(v) == PacketState::PLAY && spec_packet_direction(v) == PacketDirection::CLIENT,
            PacketModel::PingPlay(_) => spec_packet_id(v) == 0x3b && spec_packet_state(v) == PacketState::PLAY && spec_packet_direction(v) == PacketDirection::CLIENT,
            PacketModel::PingResponsePlay(_) => spec_packet_id(v) == 0x3c && spec_packet_state(v) == PacketState::PLAY && spec_packet_direction(v) == PacketDirection::CLIENT,
            PacketModel::PlayerAbilities(_) => spec_packet_id(v) == 0x3e && spec_packet_state(v) == PacketState::PLAY && spec_packet_direction(v) == PacketDirection::CLIENT,
            PacketModel::EndCombat(_) => spec_packet_id(v) == 0x40 && spec_packet_state(v) == PacketState::PLAY && spec_packet_direction(v) == PacketDirection::CLIENT,
            PacketModel::EnterCombat(_) => spec_packet_id(v) == 0x41 && spec_packet_state(v) == PacketState::PLAY && spec_packet_direction(v) == PacketDirection::CLIENT,
            PacketModel::PlayerRotation(_) => spec_packet_id(v) == 0x47 && spec_packet_state(v) == PacketState::PLAY && spec_packet_direction(v) == PacketDirection::CLIENT,
            PacketModel::RecipeBookRemove(_) => spec_packet_id(v) == 0x49 && spec_packet_state(v) == PacketState::PLAY && spec_packet_direction(v) == PacketDirection::CLIENT,
            PacketModel::RecipeBookSettings(_) => spec_packet_id(v) == 0x4a && spec_packet_state(v) == PacketState::PLAY && spec_packet_direction(v) == PacketDirection::CLIENT,
            PacketModel::RemoveEntities(_) => spec_packet_id(v) == 0x4b && spec_packet_state(v) == PacketState::PLAY && spec_packet_direction(v) == PacketDirection::CLIENT,
            PacketModel::RemoveEntityEffect(_) => spec_packet_id(v) == 0x4c && spec_packet_state(v) == PacketState::PLAY && spec_packet_direction(v) == PacketDirection::CLIENT,
            PacketModel::ResetScore(_) => spec_packet_id(v) == 0x4d && spec_packet_state(v) == PacketState::PLAY && spec_packet_direction(v) == PacketDirection::CLIENT,
            PacketModel::SelectAdvancementsTab(_) => spec_packet_id(v) == 0x53 && spec_packet_state(v) == PacketState::PLAY && spec_packet_direction(v) == PacketDirection::CLIENT,
            PacketModel::SetBorderCenter(_) => spec_packet_id(v) == 0x56 && spec_packet_state(v) == PacketState::PLAY && spec_packet_direction(v) == PacketDirection::CLIENT,
            PacketModel::SetBorderSize(_) => spec_packet_id(v) == 0x58 && spec_packet_state(v) == PacketState::PLAY && spec_packet_direction(v) == PacketDirection::CLIENT,
            PacketModel::SetBorderWarningDelay(_) => spec_packet_id(v) == 0x59 && spec_packet_state(v) == PacketState::PLAY && spec_packet_direction(v) == PacketDirection::CLIENT,
            PacketModel::SetBorderWarningDistance(_) => spec_packet_id(v) == 0x5a && spec_packet_state(v) == PacketState::PLAY && spec_packet_direction(v) == PacketDirection::CLIENT,
            PacketModel::SetCamera(_) => spec_packet_id(v) == 0x5b && spec_packet_state(v) == PacketState::PLAY && spec_packet_direction(v) == PacketDirection::CLIENT,
            PacketModel::SetCenterChunk(_) => spec_packet_id(v) == 0x5c && spec_packet_state(v) == PacketState::PLAY && spec_packet_direction(v) == PacketDirection::CLIENT,
            PacketModel::SetRenderDistance(_) => spec_packet_id(v) == 0x5d && spec_packet_state(v) == PacketState::PLAY && spec_packet_direction(v) == PacketDirection::CLIENT,
            PacketModel::SetDefaultSpawnPosition(_) => spec_packet_id(v) == 0x5f && spec_packet_state(v) == PacketState::PLAY && spec_packet_direction(v) == PacketDirection::CLIENT,
            PacketModel::DisplayObjective(_) => spec_packet_id(v) == 0x60 && spec_packet_state(v) == PacketState::PLAY && spec_packet_direction(v) == PacketDirection::CLIENT,
            PacketModel::LinkEntries(_) => spec_packet_id(v) == 0x62 && spec_packet_state(v) == PacketState::PLAY && spec_packet_direction(v) == PacketDirection::CLIENT,
            PacketModel::SetExperience(_) => spec_packet_id(v) == 0x65 && spec_packet_state(v) == PacketState::PLAY && spec_packet_direction(v) == PacketDirection::CLIENT,
            PacketModel::SetHealth(_) => spec_packet_id(v) == 0x66 && spec_packet_state(v) == PacketState::PLAY && spec_packet_direction(v) == PacketDirection::CLIENT,
            PacketModel::SetHeldItem(_) => spec_packet_id(v) == 0x67 && spec_packet_state(v) == PacketState::PLAY && spec_packet_direction(v) == PacketDirection::CLIENT,
            PacketModel::SetPassengers(_) => spec_packet_id(v) == 0x69 && spec_packet_state(v) == PacketState::PLAY && spec_packet_direction(v) == PacketDirection::CLIENT,
            PacketModel::SetSimulationDistance(_) => spec_packet_id(v) == 0x6d && spec_packet_state(v) == PacketState::PLAY && spec_packet_direction(v) == PacketDirection::CLIENT,
            PacketModel::UpdateTime(_) => spec_packet_id(v) == 0x6f && spec_packet_state(v) == PacketState::PLAY && spec_packet_direction(v) == PacketDirection::CLIENT,
            PacketModel::SetTitleAnimationTimes(_) => spec_packet_id(v) == 0x71 && spec_packet_state(v) == PacketState::PLAY && spec_packet_direction(v) == PacketDirection::CLIENT,
            PacketModel::StartConfiguration(_) => spec_packet_id(v) == 0x74 && spec_packet_state(v) == PacketState::PLAY && spec_packet_direction(v) == PacketDirection::CLIENT,
            PacketModel::StopSound(_) => spec_packet_id(v) == 0x75 && spec_packet_state(v) == PacketState::PLAY && spec_packet_direction(v) == PacketDirection::CLIENT,
            PacketModel::StoreCookie(_) => spec_packet_id(v) == 0x76 && spec_packet_state(v) == PacketState::PLAY && spec_packet_direction(v) == PacketDirection::CLIENT,
            PacketModel::PickupItem(_) => spec_packet_id(v) == 0x7a && spec_packet_state(v) == PacketState::PLAY && spec_packet_direction(v) == PacketDirection::CLIENT,
            PacketModel::SetTickingState(_) => spec_packet_id(v) == 0x7d && spec_packet_state(v) == PacketState::PLAY && spec_packet_direction(v) == PacketDirection::CLIENT,
            PacketModel::StepTick(_) => spec_packet_id(v) == 0x7e && spec_packet_state(v) == PacketState::PLAY && spec_packet_direction(v) == PacketDirection::CLIENT,
            PacketModel::Transfer(_) => spec_packet_id(v) == 0x7f && spec_packet_state(v) == PacketState::PLAY && spec_packet_direction(v) == PacketDirection::CLIENT,
            PacketModel::EntityEffect(_) => spec_packet_id(v) == 0x82 && spec_packet_state(v) == PacketState::PLAY && spec_packet_direction(v) == PacketDirection::CLIENT,
            PacketModel::ProjectilePower(_) => spec_packet_id(v) == 0x85 && spec_packet_state(v) == PacketState::PLAY && spec_packet_direction(v) == PacketDirection::CLIENT,
            PacketModel::CustomReportDetails(_) => spec_packet_id(v) == 0x86 && spec_packet_state(v) == PacketState::PLAY && spec_packet_direction(v) == PacketDirection::CLIENT,
            PacketModel::ClearDialog(_) => spec_packet_id(v) == 0x89 && spec_packet_state(v) == PacketState::PLAY && spec_packet_direction(v) == PacketDirection::CLIENT,
            PacketModel::ConfirmTeleport(_) => spec_packet_id(v) == 0x00 && spec_packet_state(v) == PacketState::PLAY && spec_packet_direction(v) == PacketDirection::SERVER,
            PacketModel::QueryBlockEntityTag(_) => spec_packet_id(v) == 0x01 && spec_packet_state(v) == PacketState::PLAY && spec_packet_direction(v) == PacketDirection::SERVER,
            PacketModel::BundleItemSelected(_) => spec_packet_id(v) == 0x02 && spec_packet_state(v) == PacketState::PLAY && spec_packet_direction(v) == PacketDirection::SERVER,
            PacketModel::ChangeGameMode(_) => spec_packet_id(v) == 0x04 && spec_packet_state(v) == PacketState::PLAY && spec_packet_direction(v) == PacketDirection::SERVER,
            PacketModel::AcknowledgeMessage(_) => spec_packet_id(v) == 0x05 && spec_packet_state(v) == PacketState::PLAY && spec_packet_direction(v) == PacketDirection::SERVER,
            PacketModel::ChatCommand(_) => spec_packet_id(v) == 0x06 && spec_packet_state(v) == PacketState::PLAY && spec_packet_direction(v) == PacketDirection::SERVER,
            PacketModel::ChunkBatchReceived(_) => spec_packet_id(v) == 0x0a && spec_packet_state(v) == PacketState::PLAY && spec_packet_direction(v) == PacketDirection::SERVER,
            PacketModel::ClientCommand(_) => spec_packet_id(v) == 0x0b && spec_packet_state(v) == PacketState::PLAY && spec_packet_direction(v) == PacketDirection::SERVER,
            PacketModel::ClientTickEnd(_) => spec_packet_id(v) == 0x0c && spec_packet_state(v) == PacketState::PLAY && spec_packet_direction(v) == PacketDirection::SERVER,
            PacketModel::ClientInformationPlay(_) => spec_packet_id(v) == 0x0d && spec_packet_state(v) == PacketState::PLAY && spec_packet_direction(v) == PacketDirection::SERVER,
            PacketModel::CommandSuggestionsRequest(_) => spec_packet_id(v) == 0x0e && spec_packet_state(v) == PacketState::PLAY && spec_packet_direction(v) == PacketDirection::SERVER,
            PacketModel::AcknowledgeConfiguration(_) => spec_packet_id(v) == 0x0f && spec_packet_state(v) == PacketState::PLAY && spec_packet_direction(v) == PacketDirection::SERVER,
            PacketModel::ClickContainerButton(_) => spec_packet_id(v) == 0x10 && spec_packet_state(v) == PacketState::PLAY && spec_packet_direction(v) == PacketDirection::SERVER,
            PacketModel::CloseContainerServer(_) => spec_packet_id(v) == 0x12 && spec_packet_state(v) == PacketState::PLAY && spec_packet_direction(v) == PacketDirection::SERVER,
            PacketModel::ChangeContainerSlotState(_) => spec_packet_id(v) == 0x13 && spec_packet_state(v) == PacketState::PLAY && spec_packet_direction(v) == PacketDirection::SERVER,
            PacketModel::CookieResponsePlay(_) => spec_packet_id(v) == 0x14 && spec_packet_state(v) == PacketState::PLAY && spec_packet_direction(v) == PacketDirection::SERVER,
            PacketModel::ServerboundPluginMessagePlay(_) => spec_packet_id(v) == 0x15 && spec_packet_state(v) == PacketState::PLAY && spec_packet_direction(v) == PacketDirection::SERVER,
            PacketModel::DebugSubscriptionRequest(_) => spec_packet_id(v) == 0x16 && spec_packet_state(v) == PacketState::PLAY && spec_packet_direction(v) == PacketDirection::SERVER,
            PacketModel::EditBook(_) => spec_packet_id(v) == 0x17 && spec_packet_state(v) == PacketState::PLAY && spec_packet_direction(v) == PacketDirection::SERVER,
            PacketModel::QueryEntityTag(_) => spec_packet_id(v) == 0x18 && spec_packet_state(v) == PacketState::PLAY && spec_packet_direction(v) == PacketDirection::SERVER,
            PacketModel::JigsawGenerate(_) => spec_packet_id(v) == 0x1a && spec_packet_state(v) == PacketState::PLAY && spec_packet_direction(v) == PacketDirection::SERVER,
            PacketModel::ServerboundKeepAlive(_) => spec_packet_id(v) == 0x1b && spec_packet_state(v) == PacketState::PLAY && spec_packet_direction(v) == PacketDirection::SERVER,
            PacketModel::LockDifficulty(_) => spec_packet_id(v) == 0x1c && spec_packet_state(v) == PacketState::PLAY && spec_packet_direction(v) == PacketDirection::SERVER,
            PacketModel::SetPlayerPosition(_) => spec_packet_id(v) == 0x1d && spec_packet_state(v) == PacketState::PLAY && spec_packet_direction(v) == PacketDirection::SERVER,
            PacketModel::SetPlayerPositionRotation(_) => spec_packet_id(v) == 0x1e && spec_packet_state(v) == PacketState::PLAY && spec_packet_direction(v) == PacketDirection::SERVER,
            PacketModel::SetPlayerRotation(_) => spec_packet_id(v) == 0x1f && spec_packet_state(v) == PacketState::PLAY && spec_packet_direction(v) == PacketDirection::SERVER,
            PacketModel::SetPlayerMovementFlags(_) => spec_packet_id(v) == 0x20 && spec_packet_state(v) == PacketState::PLAY && spec_packet_direction(v) == PacketDirection::SERVER,
            PacketModel::MoveVehicleServer(_) => spec_packet_id(v) == 0x21 && spec_packet_state(v) == PacketState::PLAY && spec_packet_direction(v) == PacketDirection::SERVER,
            PacketModel::PaddleBoat(_) => spec_packet_id(v) == 0x22 && spec_packet_state(v) == PacketState::PLAY && spec_packet_direction(v) == PacketDirection::SERVER,
            PacketModel::PickItemFromBlock(_) => spec_packet_id(v) == 0x23 && spec_packet_state(v) == PacketState::PLAY && spec_packet_direction(v) == PacketDirection::SERVER,
            PacketModel::PickItemFromEntity(_) => spec_packet_id(v) == 0x24 && spec_packet_state(v) == PacketState::PLAY && spec_packet_direction(v) == PacketDirection::SERVER,
            PacketModel::PingRequestPlay(_) => spec_packet_id(v) == 0x25 && spec_packet_state(v) == PacketState::PLAY && spec_packet_direction(v) == PacketDirection::SERVER,
            PacketModel::PlaceRecipe(_) => spec_packet_id(v) == 0x26 && spec_packet_state(v) == PacketState::PLAY && spec_packet_direction(v) == PacketDirection::SERVER,
            PacketModel::PlayerAbilitiesServer(_) => spec_packet_id(v) == 0x27 && spec_packet_state(v) == PacketState::PLAY && spec_packet_direction(v) == PacketDirection::SERVER,
            PacketModel::PlayerAction(_) => spec_packet_id(v) == 0x28 && spec_packet_state(v) == PacketState::PLAY && spec_packet_direction(v) == PacketDirection::SERVER,
            PacketModel::PlayerCommand(_) => spec_packet_id(v) == 0x29 && spec_packet_state(v) == PacketState::PLAY && spec_packet_direction(v) == PacketDirection::SERVER,
            PacketModel::PlayerInput(_) => spec_packet_id(v) == 0x2a && spec_packet_state(v) == PacketState::PLAY && spec_packet_direction(v) == PacketDirection::SERVER,
            PacketModel::PlayerLoaded(_) => spec_packet_id(v) == 0x2b && spec_packet_state(v) == PacketState::PLAY && spec_packet_direction(v) == PacketDirection::SERVER,
            PacketModel::PongPlay(_) => spec_packet_id(v) == 0x2c && spec_packet_state(v) == PacketState::PLAY && spec_packet_direction(v) == PacketDirection::SERVER,
            PacketModel::ChangeRecipeBookSettings(_) => spec_packet_id(v) == 0x2d && spec_packet_state(v) == PacketState::PLAY && spec_packet_direction(v) == PacketDirection::SERVER,
            PacketModel::SetSeenRecipe(_) => spec_packet_id(v) == 0x2e && spec_packet_state(v) == PacketState::PLAY && spec_packet_direction(v) == PacketDirection::SERVER,
            PacketModel::RenameItem(_) => spec_packet_id(v) == 0x2f && spec_packet_state(v) == PacketState::PLAY && spec_packet_direction(v) == PacketDirection::SERVER,
            PacketModel::SelectTrade(_) => spec_packet_id(v) == 0x32 && spec_packet_state(v) == PacketState::PLAY && spec_packet_direction(v) == PacketDirection::SERVER,
            PacketModel::SetBeaconEffect(_) => spec_packet_id(v) == 0x33 && spec_packet_state(v) == PacketState::PLAY && spec_packet_direction(v) == PacketDirection::SERVER,
            PacketModel::SetHeldItemServer(_) => spec_packet_id(v) == 0x34 && spec_packet_state(v) == PacketState::PLAY && spec_packet_direction(v) == PacketDirection::SERVER,
            PacketModel::ProgramCommandBlockMinecart(_) => spec_packet_id(v) == 0x36 && spec_packet_state(v) == PacketState::PLAY && spec_packet_direction(v) == PacketDirection::SERVER,
            PacketModel::ProgramJigsawBlock(_) => spec_packet_id(v) == 0x38 && spec_packet_state(v) == PacketState::PLAY && spec_packet_direction(v) == PacketDirection::SERVER,
            PacketModel::SetTestBlock(_) => spec_packet_id(v) == 0x3a && spec_packet_state(v) == PacketState::PLAY && spec_packet_direction(v) == PacketDirection::SERVER,
            PacketModel::UpdateSign(_) => spec_packet_id(v) == 0x3b && spec_packet_state(v) == PacketState::PLAY && spec_packet_direction(v) == PacketDirection::SERVER,
            PacketModel::SwingArm(_) => spec_packet_id(v) == 0x3c && spec_packet_state(v) == PacketState::PLAY && spec_packet_direction(v) == PacketDirection::SERVER,
            PacketModel::CustomClickAction(_) => spec_packet_id(v) == 0x41 && spec_packet_state(v) == PacketState::PLAY && spec_packet_direction(v) == PacketDirection::SERVER,
        },
{
}

/// A packet that can be written, and whose body keeps its invariants, reads back as itself in its
/// state and direction, whatever bytes follow it.
#[verifier::spinoff_prover]
#[verifier::rlimit(100)]
pub proof fn lemma_packet_round_trip(v: PacketModel, rest: Seq<u8>)
    requires
        Packet::spec_can_serialize(v),
        spec_packet_well_formed(v),
    ensures
        spec_packet_parse(Packet::spec_serialize(v) + rest, spec_packet_state(v), spec_packet_direction(v))
            == Ok::<(PacketModel, nat), ErrKind>((v, Packet::spec_serialize(v).len())),
{
    let inner = spec_packet_inner_bytes(v);
    let body = spec_packet_body_bytes(v);
    let lb = spec_varint_bytes(inner.len() as i32);
    let s = Packet::spec_serialize(v) + rest;
    assert(s == lb + (inner + rest));
    lemma_varint_round_trip(inner.len() as i32, inner + rest);
    assert(s.subrange(lb.len() as int, (lb.len() + inner.len()) as int) == inner);
    lemma_varint_round_trip(spec_packet_id(v), body);
    assert(inner.skip(spec_varint_bytes(spec_packet_id(v)).len() as int) == body);
    lemma_packet_body_round_trip(v);
}

} // verus!
