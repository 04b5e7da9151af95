//! The wire format: one fixed-layout frame per request and per response.
//!
//! A request is the version byte alone; bytes after it are reserved and ignored.
//! A response is laid out as
//!
//! ```text
//! [version:1][build_id:8][players_count:2][player_cap:2][battle_mode_tag:1][payload:0..1]
//! ```
//!
//! with both counts in network byte order. Only the per-player battle mode has a
//! payload: one byte, 0 or 1. Bytes after the frame are ignored.

use vstd::prelude::*;
use crate::error::{DecodeError, Malformed};
use crate::record::{BattleMode, StatusRecord, StatusRecordView, BUILD_ID_LEN};

verus! {

/// The version byte that opens every frame.
pub const PROTOCOL_VERSION: u8 = 1;

/// Length of the shortest request.
pub const MIN_REQUEST_LEN: usize = 1;

/// Length of the shortest response: everything up to and including the mode tag.
pub const MIN_RESPONSE_LEN: usize = 14;

/// Length of the longest response.
pub const MAX_RESPONSE_LEN: usize = 15;

/// Offset of the build identifier in a response.
pub const BUILD_ID_OFFSET: usize = 1;

/// Offset of the player count in a response.
pub const PLAYERS_OFFSET: usize = 9;

/// Offset of the player cap in a response.
pub const CAP_OFFSET: usize = 11;

/// Offset of the battle mode tag in a response.
pub const TAG_OFFSET: usize = 13;

/// Tag of [`BattleMode::GlobalPvP`].
pub const TAG_GLOBAL_PVP: u8 = 0;

/// Tag of [`BattleMode::GlobalPvE`].
pub const TAG_GLOBAL_PVE: u8 = 1;

/// Tag of [`BattleMode::PerPlayer`].
pub const TAG_PER_PLAYER: u8 = 2;

/// A status query. It carries nothing but the version it was sent with.
#[derive(Clone, Copy, Debug, PartialEq, Eq, Structural, Hash)]
pub struct Request {
    pub version: u8,
}

/// The two bytes of `n` in network byte order.
pub open spec fn be16(n: nat) -> Seq<u8> {
    seq![(n / 256) as u8, (n % 256) as u8]
}

/// The number whose network-order bytes are `hi`, `lo`.
pub open spec fn be16_value(hi: u8, lo: u8) -> nat {
    (hi as nat) * 256 + (lo as nat)
}

/// Whether `tag` names a battle mode.
pub open spec fn known_tag(tag: u8) -> bool {
    tag == TAG_GLOBAL_PVP || tag == TAG_GLOBAL_PVE || tag == TAG_PER_PLAYER
}

/// The tag byte of a battle mode followed by its payload.
pub open spec fn mode_bytes(mode: BattleMode) -> Seq<u8> {
    match mode {
        BattleMode::GlobalPvP => seq![TAG_GLOBAL_PVP],
        BattleMode::GlobalPvE => seq![TAG_GLOBAL_PVE],
        BattleMode::PerPlayer { pvp_by_default } => seq![
            TAG_PER_PLAYER,
            if pvp_by_default { 1u8 } else { 0u8 },
        ],
    }
}

/// The frame of a request.
pub open spec fn request_frame() -> Seq<u8> {
    seq![PROTOCOL_VERSION]
}

/// The frame of a response that carries `record`.
pub open spec fn response_frame(record: StatusRecordView) -> Seq<u8> {
    seq![PROTOCOL_VERSION] + record.build_id + be16(record.players_count) + be16(
        record.player_cap,
    ) + mode_bytes(record.battle_mode)
}

/// What a buffer says as a request.
pub open spec fn parse_request(bytes: Seq<u8>) -> Result<Request, Malformed> {
    if bytes.len() < MIN_REQUEST_LEN {
        Err(Malformed::Truncated)
    } else if bytes[0] != PROTOCOL_VERSION {
        Err(Malformed::UnknownVersion)
    } else {
        Ok(Request { version: bytes[0] })
    }
}

/// What `bytes` says as a battle mode, where `bytes` starts at the tag.
pub open spec fn parse_mode(bytes: Seq<u8>) -> Result<BattleMode, Malformed> {
    if bytes.len() < 1 {
        Err(Malformed::Truncated)
    } else if bytes[0] == TAG_GLOBAL_PVP {
        Ok(BattleMode::GlobalPvP)
    } else if bytes[0] == TAG_GLOBAL_PVE {
        Ok(BattleMode::GlobalPvE)
    } else if bytes[0] != TAG_PER_PLAYER {
        Err(Malformed::UnknownBattleMode)
    } else if bytes.len() < 2 {
        Err(Malformed::Truncated)
    } else if bytes[1] == 0 {
        Ok(BattleMode::PerPlayer { pvp_by_default: false })
    } else if bytes[1] == 1 {
        Ok(BattleMode::PerPlayer { pvp_by_default: true })
    } else {
        Err(Malformed::FieldOutOfRange)
    }
}

/// What a buffer says as a response.
///
/// Length is looked at first, then the version, then the battle mode, so a
/// buffer that is rejected is rejected for exactly one reason.
pub open spec fn parse_response(bytes: Seq<u8>) -> Result<StatusRecordView, Malformed> {
    if bytes.len() < MIN_RESPONSE_LEN {
        Err(Malformed::Truncated)
    } else if bytes[0] != PROTOCOL_VERSION {
        Err(Malformed::UnknownVersion)
    } else {
        match parse_mode(bytes.skip(TAG_OFFSET as int)) {
            Err(why) => Err(why),
            Ok(battle_mode) => Ok(
                StatusRecordView {
                    build_id: bytes.subrange(BUILD_ID_OFFSET as int, PLAYERS_OFFSET as int),
                    players_count: be16_value(
                        bytes[PLAYERS_OFFSET as int],
                        bytes[PLAYERS_OFFSET + 1],
                    ),
                    player_cap: be16_value(bytes[CAP_OFFSET as int], bytes[CAP_OFFSET + 1]),
                    battle_mode,
                },
            ),
        }
    }
}

/// Appends `value` in network byte order.
fn push_be16(out: &mut Vec<u8>, value: u16)
    ensures
        final(out)@ == old(out)@ + be16(value as nat),
{
    let hi: u8 = (value / 256) as u8;
    let lo: u8 = (value % 256) as u8;
    out.push(hi);
    out.push(lo);
}

/// Appends the tag of `mode` and its payload.
fn push_mode(out: &mut Vec<u8>, mode: BattleMode)
    ensures
        final(out)@ == old(out)@ + mode_bytes(mode),
{
    match mode {
        BattleMode::GlobalPvP => {
            out.push(TAG_GLOBAL_PVP);
        },
        BattleMode::GlobalPvE => {
            out.push(TAG_GLOBAL_PVE);
        },
        BattleMode::PerPlayer { pvp_by_default } => {
            out.push(TAG_PER_PLAYER);
            out.push(if pvp_by_default { 1u8 } else { 0u8 });
        },
    }
}

/// Encodes a status query.
pub fn encode_request() -> (frame: Vec<u8>)
    ensures
        frame@ == request_frame(),
{
    let mut frame: Vec<u8> = Vec::new();
    frame.push(PROTOCOL_VERSION);
    frame
}

/// Decodes a status query.
///
/// Fails on an empty buffer and on a version byte other than
/// [`PROTOCOL_VERSION`]; bytes after the version byte are ignored.
pub fn decode_request(bytes: &[u8]) -> (result: Result<Request, DecodeError>)
    ensures
        match result {
            Ok(request) => parse_request(bytes@) == Ok::<Request, Malformed>(request),
            Err(DecodeError::MalformedMessage(why)) => parse_request(bytes@) == Err::<
                Request,
                Malformed,
            >(why),
        },
{
    if bytes.len() < MIN_REQUEST_LEN {
        Err(DecodeError::MalformedMessage(Malformed::Truncated))
    } else if bytes[0] != PROTOCOL_VERSION {
        Err(DecodeError::MalformedMessage(Malformed::UnknownVersion))
    } else {
        Ok(Request { version: bytes[0] })
    }
}

/// Encodes a response that carries `record`.
pub fn encode_response(record: &StatusRecord) -> (frame: Vec<u8>)
    ensures
        frame@ == response_frame(record@),
        MIN_RESPONSE_LEN <= frame@.len() <= MAX_RESPONSE_LEN,
{
    let mut frame: Vec<u8> = Vec::with_capacity(MAX_RESPONSE_LEN);
    frame.push(PROTOCOL_VERSION);
    let mut i: usize = 0;
    while i < BUILD_ID_LEN
        invariant
            i <= BUILD_ID_LEN,
            frame@ == seq![PROTOCOL_VERSION] + record.build_id@.take(i as int),
        decreases BUILD_ID_LEN - i,
    {
        frame.push(record.build_id[i]);
        assert(record.build_id@.take(i + 1) =~= record.build_id@.take(i as int).push(
            record.build_id@[i as int],
        ));
        i += 1;
    }
    push_be16(&mut frame, record.players_count);
    push_be16(&mut frame, record.player_cap);
    push_mode(&mut frame, record.battle_mode);
    frame
}

/// Decodes the battle mode whose tag stands at `bytes[TAG_OFFSET]`.
fn decode_mode(bytes: &[u8]) -> (result: Result<BattleMode, Malformed>)
    requires
        bytes@.len() > TAG_OFFSET,
    ensures
        result == parse_mode(bytes@.skip(TAG_OFFSET as int)),
{
    let tag: u8 = bytes[TAG_OFFSET];
    if tag == TAG_GLOBAL_PVP {
        Ok(BattleMode::GlobalPvP)
    } else if tag == TAG_GLOBAL_PVE {
        Ok(BattleMode::GlobalPvE)
    } else if tag != TAG_PER_PLAYER {
        Err(Malformed::UnknownBattleMode)
    } else if bytes.len() < TAG_OFFSET + 2 {
        Err(Malformed::Truncated)
    } else {
        let flag: u8 = bytes[TAG_OFFSET + 1];
        if flag == 0 {
            Ok(BattleMode::PerPlayer { pvp_by_default: false })
        } else if flag == 1 {
            Ok(BattleMode::PerPlayer { pvp_by_default: true })
        } else {
            Err(Malformed::FieldOutOfRange)
        }
    }
}

/// Reads a 16-bit number from its network-order bytes.
fn read_be16(hi: u8, lo: u8) -> (value: u16)
    ensures
        value == be16_value(hi, lo),
{
    (hi as u16) * 256 + (lo as u16)
}

/// Decodes a response.
///
/// Fails, and says why, on a buffer shorter than [`MIN_RESPONSE_LEN`], on a
/// version byte other than [`PROTOCOL_VERSION`], on a tag that names no battle
/// mode, on a per-player mode whose payload byte is missing, and on a payload
/// byte other than 0 and 1. Bytes after the frame are ignored.
pub fn decode_response(bytes: &[u8]) -> (result: Result<StatusRecord, DecodeError>)
    ensures
        match result {
            Ok(record) => parse_response(bytes@) == Ok::<StatusRecordView, Malformed>(record@),
            Err(DecodeError::MalformedMessage(why)) => parse_response(bytes@) == Err::<
                StatusRecordView,
                Malformed,
            >(why),
        },
        bytes@.len() < MIN_RESPONSE_LEN ==> result == Err::<StatusRecord, DecodeError>(
            DecodeError::MalformedMessage(Malformed::Truncated),
        ),
        bytes@.len() > TAG_OFFSET && !known_tag(bytes@[TAG_OFFSET as int]) ==> result is Err,
{
    if bytes.len() < MIN_RESPONSE_LEN {
        return Err(DecodeError::MalformedMessage(Malformed::Truncated));
    }
    if bytes[0] != PROTOCOL_VERSION {
        return Err(DecodeError::MalformedMessage(Malformed::UnknownVersion));
    }
    match decode_mode(bytes) {
        Err(why) => Err(DecodeError::MalformedMessage(why)),
        Ok(battle_mode) => {
            let build_id: [u8; 8] = [
                bytes[BUILD_ID_OFFSET],
                bytes[BUILD_ID_OFFSET + 1],
                bytes[BUILD_ID_OFFSET + 2],
                bytes[BUILD_ID_OFFSET + 3],
                bytes[BUILD_ID_OFFSET + 4],
                bytes[BUILD_ID_OFFSET + 5],
                bytes[BUILD_ID_OFFSET + 6],
                bytes[BUILD_ID_OFFSET + 7],
            ];
            assert(build_id@ =~= bytes@.subrange(BUILD_ID_OFFSET as int, PLAYERS_OFFSET as int));
            Ok(
                StatusRecord {
                    build_id,
                    players_count: read_be16(bytes[PLAYERS_OFFSET], bytes[PLAYERS_OFFSET + 1]),
                    player_cap: read_be16(bytes[CAP_OFFSET], bytes[CAP_OFFSET + 1]),
                    battle_mode,
                },
            )
        },
    }
}

/// A request frame decodes to the request it was encoded from.
pub proof fn request_round_trip()
    ensures
        parse_request(request_frame()) == Ok::<Request, Malformed>(
            Request { version: PROTOCOL_VERSION },
        ),
{
}

/// The frame of a record decodes to that record, whatever bytes follow the frame.
pub proof fn trailing_bytes_are_ignored(record: StatusRecord, tail: Seq<u8>)
    ensures
        parse_response(response_frame(record@) + tail) == Ok::<StatusRecordView, Malformed>(
            record@,
        ),
{
    let bytes = response_frame(record@) + tail;
    assert(bytes.skip(TAG_OFFSET as int) =~= mode_bytes(record@.battle_mode) + tail);
    assert(bytes.subrange(BUILD_ID_OFFSET as int, PLAYERS_OFFSET as int) =~= record@.build_id);
}

/// Decoding the frame of a record gives the record back.
pub proof fn response_round_trip(record: StatusRecord)
    ensures
        parse_response(response_frame(record@)) == Ok::<StatusRecordView, Malformed>(record@),
{
    trailing_bytes_are_ignored(record, Seq::empty());
}

/// A buffer decodes only if it starts with a whole frame, and then it decodes
/// to the record of that frame: nothing is made up for a partial or damaged one.
pub proof fn accepted_response_is_a_frame(bytes: Seq<u8>)
    requires
        parse_response(bytes) is Ok,
    ensures
        parse_response(bytes)->Ok_0.wf(),
        response_frame(parse_response(bytes)->Ok_0).is_prefix_of(bytes),
{
}

} // verus!
