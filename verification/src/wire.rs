//! The fixed binary frame exchanged with the playback daemon.
//!
//! One frame per connection: the 8-byte little-endian priority, one byte
//! for the message kind, then the payload verbatim (no length prefix; the
//! transport delimits the frame).

use vstd::prelude::*;
use vstd::bytes::{spec_u64_to_le_bytes, spec_u64_from_le_bytes, lemma_auto_spec_u64_to_from_le_bytes, u64_to_le_bytes, u64_from_le_bytes};
use vstd::string::StringSliceAdditionalSpecFns;

verus! {

/// The two message kinds of the wire protocol.
#[derive(Debug, Clone, Copy, PartialEq, Eq, Structural)]
pub enum MessageKind {
    /// A request to enqueue one media entry.
    EntryRequest,
    /// A queue-control command.
    ControlRequest,
}

/// The pinned on-wire ordinal of a message kind.
pub open spec fn message_kind_ordinal(k: MessageKind) -> u8 {
    match k {
        MessageKind::EntryRequest => 0,
        MessageKind::ControlRequest => 1,
    }
}

/// The queue-control commands, first payload byte of a control request.
#[derive(Debug, Clone, Copy, PartialEq, Eq, Structural)]
pub enum ControlCommand {
    ClearQueue,
    StopPlayback,
    PausePlayback,
    StartPlayback,
    SkipAndPlay,
    RemoveFromQueue,
    PromoteEntry,
}

/// The pinned on-wire ordinal of a control command.
pub open spec fn control_ordinal(c: ControlCommand) -> u8 {
    match c {
        ControlCommand::ClearQueue => 0,
        ControlCommand::StopPlayback => 1,
        ControlCommand::PausePlayback => 2,
        ControlCommand::StartPlayback => 3,
        ControlCommand::SkipAndPlay => 4,
        ControlCommand::RemoveFromQueue => 5,
        ControlCommand::PromoteEntry => 6,
    }
}

/// The media-entry kinds, first payload byte of an entry request.
#[derive(Debug, Clone, Copy, PartialEq, Eq, Structural)]
pub enum EntryKind {
    YoutubeMedia,
    FileStream,
    LocalMedia,
    Command,
}

/// The pinned on-wire ordinal of an entry kind.
pub open spec fn entry_ordinal(k: EntryKind) -> u8 {
    match k {
        EntryKind::YoutubeMedia => 0,
        EntryKind::FileStream => 1,
        EntryKind::LocalMedia => 2,
        EntryKind::Command => 3,
    }
}

/// The byte layout of a whole frame.
pub open spec fn frame_spec(k: MessageKind, priority: u64, payload: Seq<u8>) -> Seq<u8> {
    spec_u64_to_le_bytes(priority) + seq![message_kind_ordinal(k)] + payload
}

/// Payload of a control command that carries no argument.
pub open spec fn control_payload_spec(c: ControlCommand) -> Seq<u8> {
    seq![control_ordinal(c)]
}

/// Payload of a control command that names a queue entry by id.
pub open spec fn control_id_payload_spec(c: ControlCommand, id: u64) -> Seq<u8> {
    seq![control_ordinal(c)] + spec_u64_to_le_bytes(id)
}

/// Payload of an entry request: the entry kind, then the location bytes
/// verbatim.
pub open spec fn entry_payload_spec(k: EntryKind, location: Seq<u8>) -> Seq<u8> {
    seq![entry_ordinal(k)] + location
}

/// The decoder matching `frame_spec`: a frame shorter than 9 bytes or
/// with an unknown kind byte is refused.
pub open spec fn decode_frame_spec(bytes: Seq<u8>) -> Option<(MessageKind, u64, Seq<u8>)> {
    if bytes.len() < 9 {
        None
    } else if bytes[8] == 0u8 {
        Some((MessageKind::EntryRequest, spec_u64_from_le_bytes(bytes.take(8)), bytes.skip(9)))
    } else if bytes[8] == 1u8 {
        Some((MessageKind::ControlRequest, spec_u64_from_le_bytes(bytes.take(8)), bytes.skip(9)))
    } else {
        None
    }
}

/// Encoding then decoding recovers the identical kind, priority and
/// payload, byte for byte.
pub proof fn lemma_frame_round_trip(k: MessageKind, priority: u64, payload: Seq<u8>)
    ensures
        decode_frame_spec(frame_spec(k, priority, payload)) == Some((k, priority, payload)),
{
    lemma_auto_spec_u64_to_from_le_bytes();
    let f = frame_spec(k, priority, payload);
    assert(f.take(8) =~= spec_u64_to_le_bytes(priority));
    assert(f.skip(9) =~= payload);
}

/// Exec counterpart of `message_kind_ordinal`.
pub fn message_kind_byte(k: MessageKind) -> (r: u8)
    ensures
        r == message_kind_ordinal(k),
{
    match k {
        MessageKind::EntryRequest => 0,
        MessageKind::ControlRequest => 1,
    }
}

/// Exec counterpart of `control_ordinal`.
pub fn control_byte(c: ControlCommand) -> (r: u8)
    ensures
        r == control_ordinal(c),
{
    match c {
        ControlCommand::ClearQueue => 0,
        ControlCommand::StopPlayback => 1,
        ControlCommand::PausePlayback => 2,
        ControlCommand::StartPlayback => 3,
        ControlCommand::SkipAndPlay => 4,
        ControlCommand::RemoveFromQueue => 5,
        ControlCommand::PromoteEntry => 6,
    }
}

/// Exec counterpart of `entry_ordinal`.
pub fn entry_byte(k: EntryKind) -> (r: u8)
    ensures
        r == entry_ordinal(k),
{
    match k {
        EntryKind::YoutubeMedia => 0,
        EntryKind::FileStream => 1,
        EntryKind::LocalMedia => 2,
        EntryKind::Command => 3,
    }
}

/// Appends every byte of `src` to `dst`, in order.
pub fn push_bytes(dst: &mut Vec<u8>, src: &[u8])
    ensures
        final(dst)@ == old(dst)@ + src@,
{
    let mut i: usize = 0;
    while i < src.len()
        invariant
            i <= src@.len(),
            dst@ == old(dst)@ + src@.take(i as int),
        decreases src@.len() - i,
    {
        let b: u8 = src[i];
        dst.push(b);
        proof {
            assert(src@.take(i + 1) =~= src@.take(i as int).push(src@[i as int]));
        }
        i = i + 1;
    }
    proof {
        assert(src@.take(src@.len() as int) =~= src@);
    }
}

/// Builds the frame of a control command without an argument.
pub fn control_frame(c: ControlCommand, priority: u64) -> (r: Vec<u8>)
    ensures
        r@ == frame_spec(MessageKind::ControlRequest, priority, control_payload_spec(c)),
{
    let mut payload: Vec<u8> = Vec::new();
    payload.push(control_byte(c));
    proof {
        assert(payload@ =~= control_payload_spec(c));
    }
    encode_frame(MessageKind::ControlRequest, priority, &payload)
}

/// Builds the frame of a control command that names a queue entry.
pub fn control_id_frame(c: ControlCommand, id: u64, priority: u64) -> (r: Vec<u8>)
    ensures
        r@ == frame_spec(MessageKind::ControlRequest, priority, control_id_payload_spec(c, id)),
{
    let mut payload: Vec<u8> = Vec::new();
    payload.push(control_byte(c));
    let mut id_bytes = u64_to_le_bytes(id);
    payload.append(&mut id_bytes);
    proof {
        assert(payload@ =~= control_id_payload_spec(c, id));
    }
    encode_frame(MessageKind::ControlRequest, priority, &payload)
}

/// Builds the frame of an entry request whose location is given as bytes.
pub fn entry_frame_bytes(kind: EntryKind, location: &Vec<u8>, priority: u64) -> (r: Vec<u8>)
    ensures
        r@ == frame_spec(MessageKind::EntryRequest, priority, entry_payload_spec(kind, location@)),
{
    let mut payload: Vec<u8> = Vec::new();
    payload.push(entry_byte(kind));
    push_bytes(&mut payload, location.as_slice());
    proof {
        assert(payload@ =~= entry_payload_spec(kind, location@));
    }
    encode_frame(MessageKind::EntryRequest, priority, &payload)
}

/// Builds the frame of an entry request whose location is a string; the
/// payload carries its UTF-8 bytes.
pub fn entry_frame(kind: EntryKind, location: &str, priority: u64) -> (r: Vec<u8>)
    ensures
        r@ == frame_spec(MessageKind::EntryRequest, priority,
            entry_payload_spec(kind, location.spec_bytes())),
{
    let mut payload: Vec<u8> = Vec::new();
    payload.push(entry_byte(kind));
    push_bytes(&mut payload, location.as_bytes());
    proof {
        assert(payload@ =~= entry_payload_spec(kind, location.spec_bytes()));
    }
    encode_frame(MessageKind::EntryRequest, priority, &payload)
}

/// Builds the frame for one message.
pub fn encode_frame(kind: MessageKind, priority: u64, payload: &Vec<u8>) -> (r: Vec<u8>)
    ensures
        r@ == frame_spec(kind, priority, payload@),
{
    let mut r = u64_to_le_bytes(priority);
    r.push(message_kind_byte(kind));
    let mut i: usize = 0;
    while i < payload.len()
        invariant
            i <= payload@.len(),
            r@ == spec_u64_to_le_bytes(priority) + seq![message_kind_ordinal(kind)]
                + payload@.take(i as int),
        decreases payload@.len() - i,
    {
        r.push(payload[i]);
        proof {
            assert(payload@.take(i + 1) =~= payload@.take(i as int).push(payload@[i as int]));
        }
        i = i + 1;
    }
    proof {
        lemma_auto_spec_u64_to_from_le_bytes();
        assert(payload@.take(payload@.len() as int) =~= payload@);
    }
    r
}

/// Decodes one frame; the exact mirror of `encode_frame`.
pub fn decode_frame(bytes: &Vec<u8>) -> (r: Option<(MessageKind, u64, Vec<u8>)>)
    ensures
        match r {
            Some((k, p, d)) => decode_frame_spec(bytes@) == Some((k, p, d@)),
            None => decode_frame_spec(bytes@) is None,
        },
{
    proof {
        lemma_auto_spec_u64_to_from_le_bytes();
    }
    if bytes.len() < 9 {
        return None;
    }
    let kind = if bytes[8] == 0 {
        MessageKind::EntryRequest
    } else if bytes[8] == 1 {
        MessageKind::ControlRequest
    } else {
        return None;
    };
    let mut head: Vec<u8> = Vec::new();
    let mut i: usize = 0;
    while i < 8
        invariant
            i <= 8,
            bytes@.len() >= 9,
            head@ == bytes@.take(i as int),
        decreases 8 - i,
    {
        head.push(bytes[i]);
        proof {
            assert(bytes@.take(i + 1) =~= bytes@.take(i as int).push(bytes@[i as int]));
        }
        i = i + 1;
    }
    let priority = u64_from_le_bytes(head.as_slice());
    let mut payload: Vec<u8> = Vec::new();
    let mut j: usize = 9;
    while j < bytes.len()
        invariant
            9 <= j <= bytes@.len(),
            payload@ == bytes@.subrange(9, j as int),
        decreases bytes@.len() - j,
    {
        payload.push(bytes[j]);
        proof {
            assert(bytes@.subrange(9, j + 1)
                =~= bytes@.subrange(9, j as int).push(bytes@[j as int]));
        }
        j = j + 1;
    }
    proof {
        assert(payload@ =~= bytes@.skip(9));
    }
    Some((kind, priority, payload))
}

} // verus!
