//! The inbound lane record of the target chain: its logical content, the summary that
//! the source chain needs to pay relayers, and the decoding of its stored bytes.

use crate::weights::sat_add;
use vstd::bytes::{
    lemma_auto_spec_u64_to_from_le_bytes, spec_u64_from_le_bytes, spec_u64_to_le_bytes,
    u64_from_le_bytes,
};
use vstd::prelude::*;
use vstd::slice::{slice_subrange, slice_to_vec};

verus! {

/// Sequence number of a message on a lane. Valid messages never have nonce 0.
pub type MessageNonce = u64;

/// Number of nonces in the inclusive range `[begin, end]`: zero when the range is
/// inverted, saturating at the numeric bound when it covers every nonce.
pub open spec fn saturating_len(begin: MessageNonce, end: MessageNonce) -> MessageNonce {
    if end < begin {
        0
    } else {
        sat_add((end - begin) as u64, 1)
    }
}

/// A contiguous range of delivered messages, both bounds inclusive.
#[derive(Clone, Copy, PartialEq, Eq, Debug, Structural)]
pub struct DeliveredMessages {
    /// Nonce of the first delivered message.
    pub begin: MessageNonce,
    /// Nonce of the last delivered message.
    pub end: MessageNonce,
}

impl DeliveredMessages {
    /// Number of messages in the range.
    pub fn total_messages(&self) -> (count: MessageNonce)
        ensures
            count == saturating_len(self.begin, self.end),
    {
        match self.end.checked_sub(self.begin) {
            Some(len) => len.saturating_add(1),
            None => 0,
        }
    }
}

/// A relayer that delivered a range of messages and has not been rewarded yet.
#[derive(Clone, PartialEq, Eq, Debug)]
pub struct UnrewardedRelayer {
    /// The relayer's account at the source chain, as stored.
    pub relayer: Vec<u8>,
    /// The messages this relayer delivered.
    pub messages: DeliveredMessages,
}

/// Mathematical content of an [`UnrewardedRelayer`].
pub struct UnrewardedRelayerView {
    pub relayer: Seq<u8>,
    pub messages: DeliveredMessages,
}

impl View for UnrewardedRelayer {
    type V = UnrewardedRelayerView;

    open spec fn view(&self) -> UnrewardedRelayerView {
        UnrewardedRelayerView { relayer: self.relayer@, messages: self.messages }
    }
}

/// Summary of the unrewarded relayers of a lane, as the source chain checks it.
#[derive(Clone, Copy, PartialEq, Eq, Debug, Structural)]
pub struct UnrewardedRelayersState {
    /// Number of entries in the relayers queue.
    pub unrewarded_relayer_entries: MessageNonce,
    /// Number of messages in the oldest entry of the queue.
    pub messages_in_oldest_entry: MessageNonce,
    /// Number of messages that the whole queue spans.
    pub total_messages: MessageNonce,
    /// Nonce of the latest message delivered to the target chain.
    pub last_delivered_nonce: MessageNonce,
}

/// Mathematical content of a lane record.
pub struct InboundLaneView {
    /// The relayers queue, oldest entry first.
    pub relayers: Seq<UnrewardedRelayerView>,
    /// Nonce of the last message whose delivery the source chain has confirmed.
    pub last_confirmed_nonce: MessageNonce,
}

impl InboundLaneView {
    /// The record of a lane that has seen no traffic.
    pub open spec fn empty() -> InboundLaneView {
        InboundLaneView { relayers: Seq::empty(), last_confirmed_nonce: 0 }
    }

    /// Nonce of the last delivered message: the end of the newest queue entry, or the
    /// last confirmed nonce when the queue is empty.
    pub open spec fn last_delivered_nonce(self) -> MessageNonce {
        if self.relayers.len() == 0 {
            self.last_confirmed_nonce
        } else {
            self.relayers.last().messages.end
        }
    }

    /// Number of messages between the start of the oldest entry and the end of the
    /// newest one.
    pub open spec fn total_unrewarded_messages(self) -> MessageNonce {
        if self.relayers.len() == 0 {
            0
        } else {
            saturating_len(self.relayers.first().messages.begin, self.relayers.last().messages.end)
        }
    }

    /// Number of messages in the oldest entry.
    pub open spec fn messages_in_oldest_entry(self) -> MessageNonce {
        if self.relayers.len() == 0 {
            0
        } else {
            saturating_len(
                self.relayers.first().messages.begin,
                self.relayers.first().messages.end,
            )
        }
    }

    /// The summary that corresponds to this record.
    pub open spec fn relayers_state(self) -> UnrewardedRelayersState {
        UnrewardedRelayersState {
            unrewarded_relayer_entries: self.relayers.len() as u64,
            messages_in_oldest_entry: self.messages_in_oldest_entry(),
            total_messages: self.total_unrewarded_messages(),
            last_delivered_nonce: self.last_delivered_nonce(),
        }
    }

    /// What the target chain maintains of every stored record: each entry is a
    /// non-empty range, entries are ordered by nonce without overlap, and all of them
    /// lie above the last confirmed nonce.
    pub open spec fn well_formed(self) -> bool {
        &&& forall|i: int|
            0 <= i < self.relayers.len() ==> {
                &&& self.last_confirmed_nonce < (#[trigger] self.relayers[i]).messages.begin
                &&& self.relayers[i].messages.begin <= self.relayers[i].messages.end
            }
        &&& forall|i: int, j: int|
            0 <= i < j < self.relayers.len() ==> (#[trigger] self.relayers[i]).messages.end < (
            #[trigger] self.relayers[j]).messages.begin
    }
}

/// Inbound lane record in the layout that has no lane-state field. Its bytes are the
/// common prefix of both layouts that the target chain may store.
#[derive(Clone, PartialEq, Eq, Debug)]
pub struct LegacyInboundLaneData {
    /// Relayers that delivered messages and wait for their reward, oldest first.
    pub relayers: Vec<UnrewardedRelayer>,
    /// Nonce of the last message whose delivery the source chain has confirmed.
    pub last_confirmed_nonce: MessageNonce,
}

impl View for LegacyInboundLaneData {
    type V = InboundLaneView;

    open spec fn view(&self) -> InboundLaneView {
        InboundLaneView {
            relayers: self.relayers@.map_values(|r: UnrewardedRelayer| r@),
            last_confirmed_nonce: self.last_confirmed_nonce,
        }
    }
}

/// Why stored bytes are not a lane record.
#[derive(Clone, Copy, PartialEq, Eq, Debug, Structural)]
pub enum DecodeError {
    /// The bytes end before the record does.
    UnexpectedEnd,
    /// The length prefix of the relayers queue is not in its shortest form or does not
    /// fit 32 bits.
    LengthOutOfRange,
}

/// The compact length prefix at the start of `bytes`: the length it declares and the
/// number of bytes it occupies.
///
/// The two low bits of the first byte select the form. Forms 0, 1 and 2 hold the value
/// in the remaining bits of one, two or four little-endian bytes. Form 3 holds it in the
/// four bytes that follow. A value must use the shortest form that fits it.
pub open spec fn compact_len_prefix(bytes: Seq<u8>) -> Result<(u32, nat), DecodeError> {
    if bytes.len() == 0 {
        Err(DecodeError::UnexpectedEnd)
    } else if bytes[0] % 4 == 0 {
        Ok(((bytes[0] / 4) as u32, 1))
    } else if bytes[0] % 4 == 1 {
        if bytes.len() < 2 {
            Err(DecodeError::UnexpectedEnd)
        } else {
            let x = (bytes[0] + 256 * bytes[1]) / 4;
            if x > 0x3f {
                Ok((x as u32, 2))
            } else {
                Err(DecodeError::LengthOutOfRange)
            }
        }
    } else if bytes[0] % 4 == 2 {
        if bytes.len() < 4 {
            Err(DecodeError::UnexpectedEnd)
        } else {
            let x = (bytes[0] + 256 * bytes[1] + 65536 * bytes[2] + 16777216 * bytes[3]) / 4;
            if x > 0x3fff {
                Ok((x as u32, 4))
            } else {
                Err(DecodeError::LengthOutOfRange)
            }
        }
    } else if bytes[0] / 4 != 0 {
        Err(DecodeError::LengthOutOfRange)
    } else if bytes.len() < 5 {
        Err(DecodeError::UnexpectedEnd)
    } else {
        let x = bytes[1] + 256 * bytes[2] + 65536 * bytes[3] + 16777216 * bytes[4];
        if x > 0x3fff_ffff {
            Ok((x as u32, 5))
        } else {
            Err(DecodeError::LengthOutOfRange)
        }
    }
}

/// The queue entry whose bytes start at `start`: a relayer identity of `id_len` bytes,
/// then the first and the last delivered nonce, each eight little-endian bytes.
pub open spec fn entry_at(bytes: Seq<u8>, start: int, id_len: nat) -> UnrewardedRelayerView {
    UnrewardedRelayerView {
        relayer: bytes.subrange(start, start + id_len),
        messages: DeliveredMessages {
            begin: spec_u64_from_le_bytes(bytes.subrange(start + id_len, start + id_len + 8)),
            end: spec_u64_from_le_bytes(bytes.subrange(start + id_len + 8, start + id_len + 16)),
        },
    }
}

/// The lane record that `bytes` start with, where relayer identities take `id_len`
/// bytes: a compact length prefix, that many queue entries, and the last confirmed
/// nonce in eight little-endian bytes. Whatever follows is not read.
pub open spec fn decoded_lane(bytes: Seq<u8>, id_len: nat) -> Result<
    InboundLaneView,
    DecodeError,
> {
    match compact_len_prefix(bytes) {
        Err(e) => Err(e),
        Ok((count, used)) => {
            let width = id_len + 16;
            let tail = used + count * width;
            if bytes.len() < tail + 8 {
                Err(DecodeError::UnexpectedEnd)
            } else {
                Ok(
                    InboundLaneView {
                        relayers: Seq::new(
                            count as nat,
                            |i: int| entry_at(bytes, used + i * width, id_len),
                        ),
                        last_confirmed_nonce: spec_u64_from_le_bytes(
                            bytes.subrange(tail as int, tail + 8),
                        ),
                    },
                )
            }
        },
    }
}

/// Reads the compact length prefix at the start of `bytes`.
fn decode_compact_len(bytes: &[u8]) -> (r: Result<(u32, usize), DecodeError>)
    ensures
        match r {
            Ok((value, used)) => compact_len_prefix(bytes@) == Ok::<(u32, nat), DecodeError>(
                (value, used as nat),
            ) && 1 <= used <= 5 && used <= bytes@.len(),
            Err(e) => compact_len_prefix(bytes@) == Err::<(u32, nat), DecodeError>(e),
        },
{
    if bytes.len() == 0 {
        return Err(DecodeError::UnexpectedEnd);
    }
    let b0: u32 = bytes[0] as u32;
    let form: u32 = b0 % 4;
    if form == 0 {
        Ok((b0 / 4, 1))
    } else if form == 1 {
        if bytes.len() < 2 {
            return Err(DecodeError::UnexpectedEnd);
        }
        let x: u32 = (b0 + 256 * (bytes[1] as u32)) / 4;
        if x > 0x3f {
            Ok((x, 2))
        } else {
            Err(DecodeError::LengthOutOfRange)
        }
    } else if form == 2 {
        if bytes.len() < 4 {
            return Err(DecodeError::UnexpectedEnd);
        }
        let x: u32 = (b0 + 256 * (bytes[1] as u32) + 65536 * (bytes[2] as u32) + 16777216 * (
        bytes[3] as u32)) / 4;
        if x > 0x3fff {
            Ok((x, 4))
        } else {
            Err(DecodeError::LengthOutOfRange)
        }
    } else if b0 / 4 != 0 {
        Err(DecodeError::LengthOutOfRange)
    } else if bytes.len() < 5 {
        Err(DecodeError::UnexpectedEnd)
    } else {
        let x: u32 = (bytes[1] as u32) + 256 * (bytes[2] as u32) + 65536 * (bytes[3] as u32)
            + 16777216 * (bytes[4] as u32);
        if x > 0x3fff_ffff {
            Ok((x, 5))
        } else {
            Err(DecodeError::LengthOutOfRange)
        }
    }
}

/// Entries of a fixed width laid out back to back stay inside the bytes that were
/// measured for all of them.
proof fn entry_offset_bounds(i: int, count: int, width: int)
    requires
        0 <= i < count,
        0 <= width,
    ensures
        0 <= i * width,
        (i + 1) * width == i * width + width,
        (i + 1) * width <= count * width,
{
    assert(0 <= i * width) by (nonlinear_arith)
        requires
            0 <= i,
            0 <= width,
    ;
    assert((i + 1) * width == i * width + width) by (nonlinear_arith);
    assert((i + 1) * width <= count * width) by (nonlinear_arith)
        requires
            i + 1 <= count,
            0 <= width,
    ;
}

impl LegacyInboundLaneData {
    /// Decodes the lane record that `bytes` start with. Relayer identities take
    /// `relayer_id_len` bytes each. Bytes after the record, such as the lane-state tag
    /// of the newer layout, are ignored.
    pub fn decode(bytes: &[u8], relayer_id_len: usize) -> (r: Result<Self, DecodeError>)
        ensures
            match r {
                Ok(data) => decoded_lane(bytes@, relayer_id_len as nat) == Ok::<
                    InboundLaneView,
                    DecodeError,
                >(data@),
                Err(e) => decoded_lane(bytes@, relayer_id_len as nat) == Err::<
                    InboundLaneView,
                    DecodeError,
                >(e),
            },
    {
        let (count, used) = match decode_compact_len(bytes) {
            Ok(prefix) => prefix,
            Err(e) => {
                return Err(e);
            },
        };
        let width: u128 = relayer_id_len as u128 + 16;
        assert(count as int * width as int <= 0xffff_ffff * 0x1_0000_0000_0000_0010)
            by (nonlinear_arith)
            requires
                0 <= count <= 0xffff_ffff,
                0 <= width <= 0x1_0000_0000_0000_0010,
        ;
        let need: u128 = used as u128 + (count as u128) * width + 8;
        if (bytes.len() as u128) < need {
            return Err(DecodeError::UnexpectedEnd);
        }
        let ghost id_len = relayer_id_len as nat;
        let ghost w = id_len as int + 16;
        let mut relayers: Vec<UnrewardedRelayer> = Vec::new();
        let mut pos: usize = used;
        let mut i: u32 = 0;
        while i < count
            invariant
                0 <= i <= count,
                w == relayer_id_len as int + 16,
                id_len == relayer_id_len as nat,
                pos as int == used as int + i as int * w,
                used as int + count as int * w + 8 <= bytes@.len(),
                bytes@.len() <= usize::MAX,
                relayers@.len() == i as int,
                forall|j: int|
                    0 <= j < i ==> (#[trigger] relayers@[j])@ == entry_at(
                        bytes@,
                        used as int + j * w,
                        id_len,
                    ),
            decreases count - i,
        {
            proof {
                entry_offset_bounds(i as int, count as int, w);
            }
            let id_end: usize = pos + relayer_id_len;
            let relayer = slice_to_vec(slice_subrange(bytes, pos, id_end));
            let begin = u64_from_le_bytes(slice_subrange(bytes, id_end, id_end + 8));
            let end = u64_from_le_bytes(slice_subrange(bytes, id_end + 8, id_end + 16));
            let messages = DeliveredMessages { begin, end };
            relayers.push(UnrewardedRelayer { relayer, messages });
            pos = id_end + 16;
            i = i + 1;
        }
        let last_confirmed_nonce = u64_from_le_bytes(slice_subrange(bytes, pos, pos + 8));
        let data = LegacyInboundLaneData { relayers, last_confirmed_nonce };
        proof {
            let expected = decoded_lane(bytes@, id_len)->Ok_0;
            assert(data@.relayers =~= expected.relayers);
        }
        Ok(data)
    }

    /// Nonce of the last message that has been delivered to the target chain.
    pub fn last_delivered_nonce(self) -> (nonce: MessageNonce)
        ensures
            nonce == self@.last_delivered_nonce(),
    {
        let n = self.relayers.len();
        if n == 0 {
            self.last_confirmed_nonce
        } else {
            self.relayers[n - 1].messages.end
        }
    }

    /// Number of messages that the relayers queue spans.
    pub fn total_unrewarded_messages(&self) -> (count: MessageNonce)
        ensures
            count == self@.total_unrewarded_messages(),
    {
        let n = self.relayers.len();
        if n == 0 {
            0
        } else {
            let span = DeliveredMessages {
                begin: self.relayers[0].messages.begin,
                end: self.relayers[n - 1].messages.end,
            };
            span.total_messages()
        }
    }
}

impl Default for LegacyInboundLaneData {
    /// The record of a lane that has seen no traffic: no relayers, nothing confirmed.
    fn default() -> (data: LegacyInboundLaneData)
        ensures
            data@ == InboundLaneView::empty(),
    {
        let data = LegacyInboundLaneData { relayers: Vec::new(), last_confirmed_nonce: 0 };
        assert(data@.relayers =~= Seq::empty());
        data
    }
}

impl From<LegacyInboundLaneData> for UnrewardedRelayersState {
    /// Summarises the relayers queue of a lane record.
    fn from(value: LegacyInboundLaneData) -> (state: UnrewardedRelayersState) {
        let n = value.relayers.len();
        let messages_in_oldest_entry = if n == 0 {
            0
        } else {
            value.relayers[0].messages.total_messages()
        };
        let total_messages = value.total_unrewarded_messages();
        UnrewardedRelayersState {
            unrewarded_relayer_entries: n as u64,
            messages_in_oldest_entry,
            total_messages,
            last_delivered_nonce: value.last_delivered_nonce(),
        }
    }
}

impl vstd::std_specs::convert::FromSpecImpl<LegacyInboundLaneData> for UnrewardedRelayersState {
    open spec fn obeys_from_spec() -> bool {
        true
    }

    open spec fn from_spec(value: LegacyInboundLaneData) -> UnrewardedRelayersState {
        value@.relayers_state()
    }
}

impl UnrewardedRelayersState {
    /// Whether this summary is the one that corresponds to the record `lane`.
    pub open spec fn spec_is_valid(self, lane: InboundLaneView) -> bool {
        self == lane.relayers_state()
    }

    /// Whether this summary is the one that corresponds to `lane_data`.
    pub fn is_valid(&self, lane_data: LegacyInboundLaneData) -> (valid: bool)
        ensures
            valid == self.spec_is_valid(lane_data@),
    {
        let expected = UnrewardedRelayersState::from(lane_data);
        *self == expected
    }
}

/// In a record that the target chain maintains, the last delivered nonce is the largest
/// nonce of the whole queue, and nothing above it has been confirmed.
pub proof fn last_delivered_nonce_bounds_the_queue(lane: InboundLaneView)
    requires
        lane.well_formed(),
    ensures
        lane.last_confirmed_nonce <= lane.last_delivered_nonce(),
        forall|i: int|
            0 <= i < lane.relayers.len() ==> (#[trigger] lane.relayers[i]).messages.end
                <= lane.last_delivered_nonce(),
        lane.relayers.len() == 0 ==> lane.last_delivered_nonce() == lane.last_confirmed_nonce,
{
    if lane.relayers.len() > 0 {
        let last = lane.relayers.len() - 1;
        assert(lane.last_confirmed_nonce < lane.relayers[last].messages.begin);
        assert forall|i: int| 0 <= i < lane.relayers.len() implies (
        #[trigger] lane.relayers[i]).messages.end <= lane.last_delivered_nonce() by {
            if i < last {
                assert(lane.relayers[i].messages.end < lane.relayers[last].messages.begin);
            }
        }
    }
}

/// Bytes that follow a record do not change what is decoded: the layout with a
/// trailing lane-state tag and the one without it give the same record.
pub proof fn decoding_ignores_trailing_bytes(bytes: Seq<u8>, trailing: Seq<u8>, id_len: nat)
    requires
        decoded_lane(bytes, id_len) is Ok,
    ensures
        decoded_lane(bytes + trailing, id_len) == decoded_lane(bytes, id_len),
{
    let longer = bytes + trailing;
    let (count, used) = compact_len_prefix(bytes)->Ok_0;
    assert(forall|k: int| 0 <= k < bytes.len() ==> longer[k] == bytes[k]);
    assert(compact_len_prefix(longer) == compact_len_prefix(bytes));
    let width = id_len + 16;
    let tail = used + count * width;
    let short_lane = decoded_lane(bytes, id_len)->Ok_0;
    let long_lane = decoded_lane(longer, id_len)->Ok_0;
    assert(longer.subrange(tail as int, tail + 8) =~= bytes.subrange(tail as int, tail + 8));
    assert forall|i: int| 0 <= i < count implies #[trigger] long_lane.relayers[i]
        == short_lane.relayers[i] by {
        entry_offset_bounds(i, count as int, width as int);
        let start = used + i * width;
        assert(longer.subrange(start, start + id_len) =~= bytes.subrange(start, start + id_len));
        assert(longer.subrange(start + id_len, start + id_len + 8) =~= bytes.subrange(
            start + id_len,
            start + id_len + 8,
        ));
        assert(longer.subrange(start + id_len + 8, start + id_len + 16) =~= bytes.subrange(
            start + id_len + 8,
            start + id_len + 16,
        ));
    }
    assert(long_lane.relayers =~= short_lane.relayers);
}

/// The compact form of the length `len`: the shortest of the four forms that holds it.
pub open spec fn compact_len_bytes(len: u32) -> Seq<u8> {
    if len < 0x40 {
        seq![(len * 4) as u8]
    } else if len < 0x4000 {
        seq![((len * 4 + 1) % 256) as u8, ((len * 4 + 1) / 256) as u8]
    } else if len < 0x4000_0000 {
        seq![
            ((len * 4 + 2) % 256) as u8,
            ((len * 4 + 2) / 256 % 256) as u8,
            ((len * 4 + 2) / 65536 % 256) as u8,
            ((len * 4 + 2) / 16777216) as u8,
        ]
    } else {
        seq![
            3u8,
            (len % 256) as u8,
            (len / 256 % 256) as u8,
            (len / 65536 % 256) as u8,
            (len / 16777216) as u8,
        ]
    }
}

/// The bytes of the queue entries `relayers`, one after the other.
pub open spec fn entries_bytes(relayers: Seq<UnrewardedRelayerView>) -> Seq<u8>
    decreases relayers.len(),
{
    if relayers.len() == 0 {
        Seq::empty()
    } else {
        entries_bytes(relayers.drop_last()) + relayers.last().relayer + spec_u64_to_le_bytes(
            relayers.last().messages.begin,
        ) + spec_u64_to_le_bytes(relayers.last().messages.end)
    }
}

/// The bytes that the target chain stores for the record `lane`, without the
/// lane-state tag.
pub open spec fn encoded_lane(lane: InboundLaneView) -> Seq<u8> {
    compact_len_bytes(lane.relayers.len() as u32) + entries_bytes(lane.relayers)
        + spec_u64_to_le_bytes(lane.last_confirmed_nonce)
}

/// The digits of a number below 2^32 in base 256 give the number back.
proof fn base_256_digits(x: int)
    requires
        0 <= x < 0x1_0000_0000,
    ensures
        x == x % 256 + 256 * (x / 256 % 256) + 65536 * (x / 65536 % 256) + 16777216 * (x
            / 16777216),
        0 <= x / 16777216 < 256,
        x % 4 == (x % 256) % 4,
{
    let a = x / 256;
    let b = a / 256;
    let c = b / 256;
    assert(x == 256 * a + x % 256);
    assert(a == 256 * b + a % 256);
    assert(b == 256 * c + b % 256);
    assert(x / 65536 == b);
    assert(x / 16777216 == c);
}

/// The compact form of a length is read back as that length, whatever follows it.
pub proof fn compact_len_round_trip(len: u32, rest: Seq<u8>)
    ensures
        compact_len_prefix(compact_len_bytes(len) + rest) == Ok::<(u32, nat), DecodeError>(
            (len, compact_len_bytes(len).len()),
        ),
{
    let bytes = compact_len_bytes(len) + rest;
    let prefix = compact_len_bytes(len);
    assert(forall|i: int| 0 <= i < prefix.len() ==> bytes[i] == prefix[i]);
    if len < 0x40 {
        assert(bytes[0] == len * 4);
    } else if len < 0x4000 {
        let x = (len * 4 + 1) as int;
        base_256_digits(x);
        assert(x / 256 < 256);
        assert(bytes[0] == x % 256 && bytes[1] == x / 256);
        assert(bytes[0] + 256 * bytes[1] == x);
    } else if len < 0x4000_0000 {
        let x = (len * 4 + 2) as int;
        base_256_digits(x);
        assert(bytes[0] == x % 256);
        assert(bytes[1] == x / 256 % 256);
        assert(bytes[2] == x / 65536 % 256);
        assert(bytes[3] == x / 16777216);
        assert(bytes[0] + 256 * bytes[1] + 65536 * bytes[2] + 16777216 * bytes[3] == x);
    } else {
        let x = len as int;
        base_256_digits(x);
        assert(bytes[0] == 3);
        assert(bytes[1] == x % 256);
        assert(bytes[2] == x / 256 % 256);
        assert(bytes[3] == x / 65536 % 256);
        assert(bytes[4] == x / 16777216);
        assert(bytes[1] + 256 * bytes[2] + 65536 * bytes[3] + 16777216 * bytes[4] == x);
    }
}

/// In the bytes of queue entries whose relayer identities all take `id_len` bytes,
/// every entry stands at the multiple of the entry width that its position gives.
proof fn entries_stand_at_their_offsets(
    relayers: Seq<UnrewardedRelayerView>,
    id_len: nat,
    before: Seq<u8>,
    after: Seq<u8>,
    i: int,
)
    requires
        forall|k: int| 0 <= k < relayers.len() ==> (#[trigger] relayers[k]).relayer.len() == id_len,
        0 <= i < relayers.len(),
    ensures
        entries_bytes(relayers).len() == relayers.len() * (id_len + 16),
        entry_at(
            before + entries_bytes(relayers) + after,
            before.len() + i * (id_len + 16),
            id_len,
        ) == relayers[i],
    decreases relayers.len(),
{
    lemma_auto_spec_u64_to_from_le_bytes();
    let width = (id_len + 16) as int;
    let rest = relayers.drop_last();
    let last = relayers.last();
    let n = relayers.len() as int;
    let tail = last.relayer + spec_u64_to_le_bytes(last.messages.begin) + spec_u64_to_le_bytes(
        last.messages.end,
    );
    assert(entries_bytes(relayers) =~= entries_bytes(rest) + tail);
    assert(tail.len() == width);
    assert forall|k: int| 0 <= k < rest.len() implies (#[trigger] rest[k]).relayer.len()
        == id_len by {
        assert(rest[k] == relayers[k]);
    }
    entries_len(rest, id_len);
    assert((n - 1) * width + width == n * width) by (nonlinear_arith);
    let all = before + entries_bytes(relayers) + after;
    if i < n - 1 {
        entries_stand_at_their_offsets(rest, id_len, before, tail + after, i);
        assert(all =~= before + entries_bytes(rest) + (tail + after));
        assert(rest[i] == relayers[i]);
    } else {
        let start = before.len() + i * width;
        assert(start == before.len() + entries_bytes(rest).len());
        assert(all.subrange(start, start + id_len) =~= last.relayer);
        assert(all.subrange(start + id_len, start + id_len + 8) =~= spec_u64_to_le_bytes(
            last.messages.begin,
        ));
        assert(all.subrange(start + id_len + 8, start + id_len + 16) =~= spec_u64_to_le_bytes(
            last.messages.end,
        ));
        assert(entry_at(all, start, id_len).relayer == last.relayer);
        assert(entry_at(all, start, id_len).messages == last.messages);
    }
}

/// The bytes of queue entries whose relayer identities all take `id_len` bytes have
/// the entry width for every entry.
proof fn entries_len(relayers: Seq<UnrewardedRelayerView>, id_len: nat)
    requires
        forall|k: int| 0 <= k < relayers.len() ==> (#[trigger] relayers[k]).relayer.len() == id_len,
    ensures
        entries_bytes(relayers).len() == relayers.len() * (id_len + 16),
    decreases relayers.len(),
{
    lemma_auto_spec_u64_to_from_le_bytes();
    if relayers.len() > 0 {
        let rest = relayers.drop_last();
        assert forall|k: int| 0 <= k < rest.len() implies (#[trigger] rest[k]).relayer.len()
            == id_len by {
            assert(rest[k] == relayers[k]);
        }
        entries_len(rest, id_len);
        let n = relayers.len() as int;
        let width = (id_len + 16) as int;
        assert((n - 1) * width + width == n * width) by (nonlinear_arith);
    } else {
        assert(0 * (id_len + 16) == 0);
    }
}

/// What the target chain stores is decoded bit-exactly: the bytes of any record whose
/// relayer identities all take `id_len` bytes decode to that record, with or without
/// bytes that follow them.
pub proof fn decoding_inverts_encoding(lane: InboundLaneView, id_len: nat, trailing: Seq<u8>)
    requires
        lane.relayers.len() <= u32::MAX,
        forall|k: int|
            0 <= k < lane.relayers.len() ==> (#[trigger] lane.relayers[k]).relayer.len() == id_len,
    ensures
        decoded_lane(encoded_lane(lane) + trailing, id_len) == Ok::<InboundLaneView, DecodeError>(
            lane,
        ),
{
    lemma_auto_spec_u64_to_from_le_bytes();
    let count = lane.relayers.len() as u32;
    let prefix = compact_len_bytes(count);
    let entries = entries_bytes(lane.relayers);
    let nonce = spec_u64_to_le_bytes(lane.last_confirmed_nonce);
    let bytes = encoded_lane(lane) + trailing;
    let width = (id_len + 16) as int;
    assert(bytes =~= prefix + (entries + nonce + trailing));
    compact_len_round_trip(count, entries + nonce + trailing);
    entries_len(lane.relayers, id_len);
    let used = prefix.len() as int;
    let tail = used + count * width;
    assert(bytes.len() == tail + 8 + trailing.len());
    assert(bytes.subrange(tail, tail + 8) =~= nonce);
    let decoded = decoded_lane(bytes, id_len)->Ok_0;
    assert forall|i: int| 0 <= i < count implies #[trigger] decoded.relayers[i]
        == lane.relayers[i] by {
        entries_stand_at_their_offsets(lane.relayers, id_len, prefix, nonce + trailing, i);
        assert(bytes =~= prefix + entries + (nonce + trailing));
    }
    assert(decoded.relayers =~= lane.relayers);
}

} // verus!
