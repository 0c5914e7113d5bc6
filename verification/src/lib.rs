//! Decoder for FlySky IBUS telemetry frames.
//!
//! An IBUS frame is exactly 32 bytes: two fixed marker bytes, 14 channel
//! values stored as little-endian 16-bit integers, and a 16-bit checksum
//! equal to `0xFFFF` minus the wrapping sum of the first 30 bytes.

use vstd::prelude::*;

verus! {

/// Why a buffer failed to decode.
#[derive(Clone, Copy, Debug, PartialEq, Eq, Structural)]
pub enum ParsingError {
    /// The marker bytes did not match the protocol signature.
    InvalidPacket,
    /// The markers matched but the transmitted checksum disagrees with the
    /// one computed from the frame's contents.
    FailsChecksum,
}

impl ParsingError {
    /// A human-readable description of the failure.
    pub fn description(&self) -> (r: &'static str)
        ensures
            *self is InvalidPacket ==> r@ == "Parsing Error: Packet not valid"@,
            *self is FailsChecksum ==> r@ == "Parsing Error: Packet fails checksum and should not be used"@,
    {
        match self {
            ParsingError::InvalidPacket => "Parsing Error: Packet not valid",
            ParsingError::FailsChecksum => "Parsing Error: Packet fails checksum and should not be used",
        }
    }
}

/// The value of channel `i` (0-indexed): the frame stores it little-endian
/// in bytes `2*i + 2` (low) and `2*i + 3` (high).
pub open spec fn channel_value(s: Seq<u8>, i: int) -> u16
    recommends
        s.len() == 32,
        0 <= i < 14,
{
    (s[2 * i + 2] + 256 * s[2 * i + 3]) as u16
}

/// The sum of the first `n` bytes of `s`, as an unbounded integer.
pub open spec fn byte_sum(s: Seq<u8>, n: int) -> int
    recommends
        n <= s.len(),
    decreases n,
{
    if n <= 0 {
        0
    } else {
        byte_sum(s, n - 1) + s[n - 1]
    }
}

/// Both marker bytes carry the protocol's fixed signature.
pub open spec fn has_valid_markers(s: Seq<u8>) -> bool
    recommends
        s.len() == 32,
{
    s[0] == 0x20 && s[1] == 0x40
}

/// The checksum a well-formed frame must carry: `0xFFFF` minus the wrapping
/// 16-bit sum of the marker and payload bytes.
pub open spec fn expected_checksum(s: Seq<u8>) -> int
    recommends
        s.len() == 32,
{
    0xFFFF - byte_sum(s, 30) % 0x10000
}

/// The checksum the frame actually carries, little-endian in bytes 30 and 31.
pub open spec fn transmitted_checksum(s: Seq<u8>) -> int
    recommends
        s.len() == 32,
{
    s[30] + 256 * s[31]
}

/// The transmitted checksum agrees with the one computed from the contents.
pub open spec fn checksum_matches(s: Seq<u8>) -> bool
    recommends
        s.len() == 32,
{
    transmitted_checksum(s) == expected_checksum(s)
}

/// The 14 channel values of a frame, in channel order.
pub open spec fn decoded_channels(s: Seq<u8>) -> Seq<u16>
    recommends
        s.len() == 32,
{
    Seq::new(14, |i: int| channel_value(s, i))
}

/// What decoding a 32-byte buffer yields: the channel values when the
/// markers and the checksum are in order, and otherwise the error that
/// classifies the failure.
pub open spec fn decode(s: Seq<u8>) -> Result<Seq<u16>, ParsingError>
    recommends
        s.len() == 32,
{
    if !has_valid_markers(s) {
        Err(ParsingError::InvalidPacket)
    } else if !checksum_matches(s) {
        Err(ParsingError::FailsChecksum)
    } else {
        Ok(decoded_channels(s))
    }
}

/// One decoded IBUS frame: exactly 14 channel values.
#[derive(Debug)]
pub struct IbusPacket {
    channels: [u16; 14],
}

impl View for IbusPacket {
    type V = Seq<u16>;

    closed spec fn view(&self) -> Seq<u16> {
        self.channels@
    }
}

impl IbusPacket {
    /// Tries to decode an IBUS frame from a group of 32 bytes.
    ///
    /// Returns `Err(InvalidPacket)` when a marker byte is wrong, and
    /// `Err(FailsChecksum)` when the markers match but the transmitted
    /// checksum does not.
    pub fn try_from_bytes(bytes: &[u8; 32]) -> (r: Result<Self, ParsingError>)
        ensures
            match r {
                Ok(p) => decode(bytes@) == Ok::<Seq<u16>, ParsingError>(p@),
                Err(e) => decode(bytes@) == Err::<Seq<u16>, ParsingError>(e),
            },
            r is Ok <==> has_valid_markers(bytes@) && checksum_matches(bytes@),
    {
        if bytes[0] != 0x20 || bytes[1] != 0x40 {
            return Err(ParsingError::InvalidPacket);
        }

        let mut channels: [u16; 14] = [0u16; 14];
        let mut channel_sum: u16 = bytes[0] as u16 + bytes[1] as u16;
        assert(channel_sum == byte_sum(bytes@, 2)) by {
            assert(byte_sum(bytes@, 1) == byte_sum(bytes@, 0) + bytes@[0]);
            assert(byte_sum(bytes@, 2) == byte_sum(bytes@, 1) + bytes@[1]);
        }

        let mut idx: usize = 0;
        while idx < 14
            invariant
                idx <= 14,
                channel_sum == byte_sum(bytes@, 2 + 2 * idx),
                channel_sum <= 255 * (2 + 2 * idx),
                forall|j: int| 0 <= j < idx ==> channels@[j] == channel_value(bytes@, j),
            decreases 14 - idx,
        {
            let low_byte = bytes[2 + 2 * idx];
            let high_byte = bytes[3 + 2 * idx];
            let channel: u16 = (high_byte as u16) * 256 + low_byte as u16;
            proof {
                let k: int = 2 + 2 * (idx as int);
                assert(byte_sum(bytes@, k + 1) == byte_sum(bytes@, k) + bytes@[k]);
                assert(byte_sum(bytes@, k + 2) == byte_sum(bytes@, k + 1) + bytes@[k + 1]);
            }
            channel_sum = channel_sum + low_byte as u16 + high_byte as u16;
            channels[idx] = channel;
            idx = idx + 1;
        }

        let calculated_checksum: u16 = 0xFFFF - channel_sum;
        let actual_checksum: u16 = (bytes[31] as u16) * 256 + bytes[30] as u16;
        assert(byte_sum(bytes@, 30) % 0x10000 == byte_sum(bytes@, 30));
        if calculated_checksum == actual_checksum {
            let packet = IbusPacket { channels };
            assert(packet@ =~= decoded_channels(bytes@));
            Ok(packet)
        } else {
            Err(ParsingError::FailsChecksum)
        }
    }

    /// Gets an individual channel's data. There are 14 channels, 1-indexed;
    /// any other number yields `None`, never an out-of-bounds read.
    pub fn get_channel(&self, number: usize) -> (r: Option<&u16>)
        ensures
            1 <= number <= 14 ==> (r matches Some(c) && *c == self@[number as int - 1]),
            !(1 <= number <= 14) ==> r is None,
    {
        if 1 <= number && number <= 14 {
            Some(&self.channels[number - 1])
        } else {
            None
        }
    }

    /// Returns a copy of all 14 channel values, in channel order.
    pub fn get_all_channels(&self) -> (r: [u16; 14])
        ensures
            r@ == self@,
    {
        self.channels
    }
}

/// Decoding is a pure function of the bytes: two packets decoded from the
/// same buffer hold the same channel values.
pub proof fn lemma_decode_deterministic(s: Seq<u8>, p1: IbusPacket, p2: IbusPacket)
    requires
        decode(s) == Ok::<Seq<u16>, ParsingError>(p1@),
        decode(s) == Ok::<Seq<u16>, ParsingError>(p2@),
    ensures
        p1@ == p2@,
{
}

/// A frame whose markers are in order and whose checksum bytes carry exactly
/// the value the formula derives from the other 30 bytes decodes
/// successfully.
pub proof fn lemma_correct_checksum_accepted(s: Seq<u8>)
    requires
        s.len() == 32,
        has_valid_markers(s),
        checksum_matches(s),
    ensures
        decode(s) == Ok::<Seq<u16>, ParsingError>(decoded_channels(s)),
{
}

/// Corruption among bytes 0 to 29 that changes the wrapping byte sum, while
/// the markers stay in order and the checksum bytes stay as they were, makes
/// decoding fail with `FailsChecksum`.
pub proof fn lemma_corruption_detected(good: Seq<u8>, bad: Seq<u8>)
    requires
        good.len() == 32,
        bad.len() == 32,
        checksum_matches(good),
        has_valid_markers(bad),
        bad[30] == good[30],
        bad[31] == good[31],
        byte_sum(bad, 30) % 0x10000 != byte_sum(good, 30) % 0x10000,
    ensures
        decode(bad) == Err::<Seq<u16>, ParsingError>(ParsingError::FailsChecksum),
{
}

/// A buffer whose lead byte is not `0x20`, or whose second byte is not
/// `0x40`, is rejected as `InvalidPacket`, whatever its checksum says.
pub proof fn lemma_bad_marker_rejected(s: Seq<u8>)
    requires
        s.len() == 32,
        s[0] != 0x20 || s[1] != 0x40,
    ensures
        decode(s) == Err::<Seq<u16>, ParsingError>(ParsingError::InvalidPacket),
{
}

/// Channel `i` (1-indexed) decodes from bytes `2*i` and `2*i + 1`
/// (0-indexed), low byte first.
pub proof fn lemma_channel_ordering(s: Seq<u8>, channels: Seq<u16>, i: int)
    requires
        s.len() == 32,
        decode(s) == Ok::<Seq<u16>, ParsingError>(channels),
        1 <= i <= 14,
    ensures
        channels[i - 1] == s[2 * i] + 256 * s[2 * i + 1],
{
}

} // verus!
