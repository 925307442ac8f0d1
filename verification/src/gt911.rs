//! Driver core for the GT911-class touch controller: status-byte
//! interpretation, point-record decoding, the orientation transform and
//! the press/release tracker.
//!
//! The module is transport-free. It plans each bus transaction as a
//! [`BusCommand`] and decides each poll from the bytes the transport
//! read back; the caller owns the bus and performs the transactions in
//! the order given.
use vstd::prelude::*;

use crate::registers::{REG_POINT_1, REG_POINT_INFO, REG_PRODUCT_ID, reg_clear_frame,
    reg_select_frame, spec_reg_hi, spec_reg_lo};

verus! {

/// Default 7-bit bus address of the controller.
pub const DEFAULT_GT911_ADDRESS: u8 = 0x5d;

/// Mounting orientation of the logical screen relative to the sensor's
/// native axes. `Landscape` is the native orientation the controller
/// reports in; the other three are derived by an axis swap and/or a
/// reflection. `Portrait` and `InvertedPortrait` are kept available but
/// are untested on hardware.
#[derive(Copy, Clone, Debug, PartialEq, Eq, Structural)]
pub enum Orientation {
    Portrait,
    Landscape,
    InvertedPortrait,
    InvertedLandscape,
}

/// Panel dimensions in pixels; the basis for the reflected axes of the
/// non-native orientations.
#[derive(Copy, Clone, Debug, PartialEq, Eq, Structural)]
pub struct Dimension {
    pub height: u16,
    pub width: u16,
}

/// One orientation-corrected touch coordinate.
#[derive(Copy, Clone, Debug, PartialEq, Eq, Structural)]
pub struct TouchPoint {
    pub x: u16,
    pub y: u16,
}

/// Stable touch signal handed to the UI pipeline. `RELEASED` always
/// carries the last confidently known point, never a zeroed sentinel,
/// so a release does not jump to the origin.
#[derive(Copy, Clone, Debug, PartialEq, Eq, Structural)]
pub enum TouchState {
    PRESSED(TouchPoint),
    RELEASED(TouchPoint),
}

/// One bus transaction, ready for the transport: the bytes to write
/// and, for a combined transaction, how many bytes to read back.
pub enum BusCommand {
    /// Write `tx` alone.
    Write { tx: Vec<u8> },
    /// Write `tx`, then read `rx_len` bytes in one combined transaction.
    WriteRead { tx: Vec<u8>, rx_len: usize },
}

/// The buffer-ready flag of the point-info status byte: the controller
/// has fresh point data pending and expects an acknowledgment.
pub open spec fn spec_buffer_ready(point_info: u8) -> bool {
    point_info & 0x80 != 0
}

/// The touch count of the point-info status byte (bits 2..=0).
pub open spec fn spec_touch_count(point_info: u8) -> u8 {
    point_info & 0x07
}

/// Tests the buffer-ready flag of a status byte.
pub fn buffer_ready(point_info: u8) -> (r: bool)
    ensures
        r == spec_buffer_ready(point_info),
{
    point_info & 0x80 != 0
}

/// Extracts the touch count of a status byte.
pub fn touch_count(point_info: u8) -> (r: u8)
    ensures
        r == spec_touch_count(point_info),
{
    point_info & 0x07
}

/// The 16-bit value of a little-endian byte pair, low byte first: the
/// layout of the multi-byte fields inside the point record.
pub open spec fn spec_le16(lo: u8, hi: u8) -> u16 {
    (lo + hi * 256) as u16
}

/// Raw x coordinate of a 7-byte point record.
pub open spec fn spec_raw_x(rec: Seq<u8>) -> u16
    recommends
        rec.len() == 7,
{
    spec_le16(rec[1], rec[2])
}

/// Raw y coordinate of a 7-byte point record.
pub open spec fn spec_raw_y(rec: Seq<u8>) -> u16
    recommends
        rec.len() == 7,
{
    spec_le16(rec[3], rec[4])
}

/// Joins a little-endian byte pair into its 16-bit value.
pub fn decode_le16(lo: u8, hi: u8) -> (r: u16)
    ensures
        r == spec_le16(lo, hi),
{
    proof {
        assert((hi as u16) << 8 == hi as u16 * 256) by (bit_vector);
    }
    lo as u16 + ((hi as u16) << 8)
}

/// `a - b` clamped to zero: the boundary policy for the reflected axes,
/// so a raw coordinate beyond the panel edge maps to the edge instead
/// of wrapping around.
pub open spec fn spec_sat_sub(a: u16, b: u16) -> u16 {
    if b <= a {
        (a - b) as u16
    } else {
        0
    }
}

/// Subtracts with the clamp-to-zero boundary policy.
pub fn sat_sub(a: u16, b: u16) -> (r: u16)
    ensures
        r == spec_sat_sub(a, b),
{
    if b <= a {
        a - b
    } else {
        0
    }
}

/// Screen-space point for a raw sensor point under a mounting
/// orientation and the panel dimensions. The native landscape
/// orientation is the identity; the others swap the axes and/or reflect
/// against a panel edge, clamping at zero.
pub open spec fn spec_transform(orientation: Orientation, size: Dimension, x: u16, y: u16)
    -> TouchPoint {
    match orientation {
        Orientation::Landscape => TouchPoint { x, y },
        Orientation::Portrait => TouchPoint { x: y, y: spec_sat_sub(size.height, x) },
        Orientation::InvertedLandscape => TouchPoint {
            x: spec_sat_sub(size.width, x),
            y: spec_sat_sub(size.height, y),
        },
        Orientation::InvertedPortrait => TouchPoint { x: spec_sat_sub(size.width, y), y: x },
    }
}

/// Applies the orientation transform to a raw point.
pub fn transform_point(orientation: Orientation, size: Dimension, x: u16, y: u16)
    -> (r: TouchPoint)
    ensures
        r == spec_transform(orientation, size, x, y),
{
    match orientation {
        Orientation::Landscape => TouchPoint { x, y },
        Orientation::Portrait => TouchPoint { x: y, y: sat_sub(size.height, x) },
        Orientation::InvertedLandscape => TouchPoint {
            x: sat_sub(size.width, x),
            y: sat_sub(size.height, y),
        },
        Orientation::InvertedPortrait => TouchPoint { x: sat_sub(size.width, y), y: x },
    }
}

/// Decoded and orientation-corrected point of a 7-byte point record.
pub open spec fn spec_decode_point(orientation: Orientation, size: Dimension, rec: Seq<u8>)
    -> TouchPoint
    recommends
        rec.len() == 7,
{
    spec_transform(orientation, size, spec_raw_x(rec), spec_raw_y(rec))
}

/// Decodes a 7-byte point record (fields little-endian) and corrects it
/// for the orientation.
pub fn decode_touch_point(orientation: Orientation, size: Dimension, rec: &[u8; 7])
    -> (r: TouchPoint)
    ensures
        r == spec_decode_point(orientation, size, rec@),
{
    let x = decode_le16(rec[1], rec[2]);
    let y = decode_le16(rec[3], rec[4]);
    transform_point(orientation, size, x, y)
}

/// In the native landscape orientation the transform is the identity.
pub proof fn lemma_landscape_identity(size: Dimension, x: u16, y: u16)
    ensures
        spec_transform(Orientation::Landscape, size, x, y) == (TouchPoint { x, y }),
{
}

/// Where a reflected raw coordinate lies beyond the panel edge, the
/// transform clamps that coordinate to zero instead of wrapping.
pub proof fn lemma_transform_clamps(size: Dimension, x: u16, y: u16)
    ensures
        x > size.width ==> spec_transform(Orientation::InvertedLandscape, size, x, y).x == 0,
        y > size.height ==> spec_transform(Orientation::InvertedLandscape, size, x, y).y == 0,
        x > size.height ==> spec_transform(Orientation::Portrait, size, x, y).y == 0,
        y > size.width ==> spec_transform(Orientation::InvertedPortrait, size, x, y).x == 0,
{
}

/// Whether the ASCII text "911" starts at byte `i` of a product identity.
pub open spec fn spec_is_911_at(id: Seq<u8>, i: int) -> bool
    recommends
        0 <= i,
        i + 3 <= id.len(),
{
    id[i] == 0x39 && id[i + 1] == 0x31 && id[i + 2] == 0x31
}

/// Whether a 4-byte product identity names the "911" device family:
/// the ASCII text "911" occurs in it.
pub open spec fn spec_id_matches(id: Seq<u8>) -> bool
    recommends
        id.len() == 4,
{
    spec_is_911_at(id, 0) || spec_is_911_at(id, 1)
}

/// Recognizes the "911" device family in the 4 bytes of a
/// product-identity read (`0x39` is ASCII '9', `0x31` is ASCII '1').
pub fn product_id_matches(id: &[u8; 4]) -> (r: bool)
    ensures
        r == spec_id_matches(id@),
{
    (id[0] == 0x39 && id[1] == 0x31 && id[2] == 0x31) || (id[1] == 0x39 && id[2] == 0x31
        && id[3] == 0x31)
}

/// Combined transaction that reads the 4-byte product identity; used
/// for bring-up diagnostics, not the steady-state poll path.
pub fn product_id_read_command() -> (r: BusCommand)
    ensures
        (r matches BusCommand::WriteRead { tx, rx_len } && tx@ == seq![
            spec_reg_hi(REG_PRODUCT_ID),
            spec_reg_lo(REG_PRODUCT_ID),
        ] && rx_len == 4),
{
    BusCommand::WriteRead { tx: reg_select_frame(REG_PRODUCT_ID), rx_len: 4 }
}

/// Combined transaction that opens every poll: read the one status byte
/// of the point-info register.
pub fn poll_status_command() -> (r: BusCommand)
    ensures
        (r matches BusCommand::WriteRead { tx, rx_len } && tx@ == seq![
            spec_reg_hi(REG_POINT_INFO),
            spec_reg_lo(REG_POINT_INFO),
        ] && rx_len == 1),
{
    BusCommand::WriteRead { tx: reg_select_frame(REG_POINT_INFO), rx_len: 1 }
}

/// Write that acknowledges the point-info register by storing a zero
/// byte into it. Until the controller sees this write it does not
/// refresh its buffer, and every later poll returns stale data.
pub fn clear_point_info_command() -> (r: BusCommand)
    ensures
        spec_is_clear_command(r),
{
    BusCommand::Write { tx: reg_clear_frame(REG_POINT_INFO) }
}

/// Combined transaction that reads the 7-byte record of the first
/// touch point.
pub fn point_record_read_command() -> (r: BusCommand)
    ensures
        spec_is_point_read_command(r),
{
    BusCommand::WriteRead { tx: reg_select_frame(REG_POINT_1), rx_len: 7 }
}

/// Whether a command is the write that acknowledges the point-info
/// register.
pub open spec fn spec_is_clear_command(c: BusCommand) -> bool {
    c matches BusCommand::Write { tx } && tx@ == seq![
        spec_reg_hi(REG_POINT_INFO),
        spec_reg_lo(REG_POINT_INFO),
        0u8,
    ]
}

/// Whether a command is the combined read of the first point record.
pub open spec fn spec_is_point_read_command(c: BusCommand) -> bool {
    c matches BusCommand::WriteRead { tx, rx_len } && tx@ == seq![
        spec_reg_hi(REG_POINT_1),
        spec_reg_lo(REG_POINT_1),
    ] && rx_len == 7
}

/// Transactions that follow once the status byte of a poll is known:
/// the acknowledgment write always comes, exactly once and first, and
/// the point-record read follows only when the buffer-ready flag was
/// set. That the acknowledgment is issued exactly once per poll,
/// whichever branch the status byte selects, is the central protocol
/// obligation of the driver.
pub fn poll_followup_commands(point_info: u8) -> (r: Vec<BusCommand>)
    ensures
        r@.len() == (if spec_buffer_ready(point_info) { 2int } else { 1int }),
        spec_is_clear_command(r@[0]),
        spec_buffer_ready(point_info) ==> spec_is_point_read_command(r@[1]),
        forall|i: int| 0 <= i < r@.len() ==> (spec_is_clear_command(r@[i]) <==> i == 0),
{
    let mut cmds: Vec<BusCommand> = Vec::new();
    cmds.push(clear_point_info_command());
    if buffer_ready(point_info) {
        cmds.push(point_record_read_command());
    }
    cmds
}

/// Driver state: bus address, configured orientation, configured panel
/// dimensions, and the last confidently known touch point. The bus
/// transport itself is owned by the caller, which performs the
/// transactions this module plans and hands the bytes back.
pub struct GT911 {
    pub address: u8,
    pub orientation: Orientation,
    pub size: Dimension,
    pub last_tp: TouchPoint,
}

/// One step of the tracker state machine: the driver state after a poll
/// and the emitted signal, for a status byte and the point record that
/// was read when the buffer-ready flag was set.
///
/// Only an unambiguous single touch (buffer ready, count exactly one)
/// presses and overwrites the retained point; a clear flag, a zero
/// count and a multi-touch count all release with the retained point
/// unchanged.
pub open spec fn spec_poll(s: GT911, point_info: u8, rec: Option<Seq<u8>>)
    -> (GT911, TouchState) {
    if spec_buffer_ready(point_info) && spec_touch_count(point_info) == 1 {
        let tp = spec_decode_point(s.orientation, s.size, rec.unwrap());
        (GT911 { last_tp: tp, ..s }, TouchState::PRESSED(tp))
    } else {
        (s, TouchState::RELEASED(s.last_tp))
    }
}

/// The point record a poll decision sees, as a sequence of bytes.
pub open spec fn spec_record_view(record: Option<&[u8; 7]>) -> Option<Seq<u8>> {
    match record {
        Some(rec) => Some(rec@),
        None => None,
    }
}

impl GT911 {
    /// Fresh driver state for the default bus address: native landscape
    /// orientation, an 800x480 panel, and the retained point at the
    /// origin.
    pub fn new() -> (r: GT911)
        ensures
            r.address == DEFAULT_GT911_ADDRESS,
            r.orientation == Orientation::Landscape,
            r.size == (Dimension { height: 480, width: 800 }),
            r.last_tp == (TouchPoint { x: 0, y: 0 }),
    {
        GT911 {
            address: DEFAULT_GT911_ADDRESS,
            orientation: Orientation::Landscape,
            size: Dimension { height: 480, width: 800 },
            last_tp: TouchPoint { x: 0, y: 0 },
        }
    }

    /// Reconfigures the orientation; everything else is unchanged.
    pub fn set_orientation(&mut self, orientation: Orientation)
        ensures
            *final(self) == (GT911 { orientation, ..*old(self) }),
    {
        self.orientation = orientation;
    }

    /// Reconfigures the panel dimensions; everything else is unchanged.
    pub fn set_size(&mut self, height: u16, width: u16)
        ensures
            *final(self) == (GT911 { size: Dimension { height, width }, ..*old(self) }),
    {
        self.size = Dimension { height, width };
    }

    /// Decides one poll from the status byte and the point record the
    /// transport read when the buffer-ready flag was set, exactly as
    /// [`spec_poll`] states: an unambiguous single touch presses with
    /// the decoded, orientation-corrected point and retains it; every
    /// other frame releases with the retained point unchanged.
    ///
    /// The caller must already have acknowledged the register (see
    /// [`poll_followup_commands`]) and must pass the record whenever
    /// the flag was set.
    pub fn poll(&mut self, point_info: u8, record: Option<&[u8; 7]>) -> (r: TouchState)
        requires
            spec_buffer_ready(point_info) ==> record is Some,
        ensures
            (*final(self), r) == spec_poll(*old(self), point_info, spec_record_view(record)),
            final(self).address == old(self).address,
            final(self).orientation == old(self).orientation,
            final(self).size == old(self).size,
    {
        if buffer_ready(point_info) {
            match record {
                Some(rec) => {
                    if touch_count(point_info) == 1 {
                        let tp = decode_touch_point(self.orientation, self.size, rec);
                        self.last_tp = tp;
                        TouchState::PRESSED(tp)
                    } else {
                        TouchState::RELEASED(self.last_tp)
                    }
                },
                None => TouchState::RELEASED(self.last_tp),
            }
        } else {
            TouchState::RELEASED(self.last_tp)
        }
    }
}

/// Polling twice with the buffer-ready flag clear emits RELEASED with
/// the identical retained point both times and leaves the driver state
/// unchanged: idle polls do not drift.
pub proof fn lemma_released_idempotent(s: GT911, pi1: u8, pi2: u8)
    requires
        !spec_buffer_ready(pi1),
        !spec_buffer_ready(pi2),
    ensures
        ({
            let (s1, out1) = spec_poll(s, pi1, None);
            let (s2, out2) = spec_poll(s1, pi2, None);
            &&& s1 == s
            &&& s2 == s
            &&& out1 == TouchState::RELEASED(s.last_tp)
            &&& out2 == out1
        }),
{
}

/// A poll whose status byte does not report exactly one touch — the
/// flag clear, a zero count, or a multi-touch count — releases with the
/// retained point and never overwrites it.
pub proof fn lemma_ambiguous_poll_retains_point(s: GT911, point_info: u8, rec: Option<Seq<u8>>)
    requires
        !(spec_buffer_ready(point_info) && spec_touch_count(point_info) == 1),
    ensures
        spec_poll(s, point_info, rec).0 == s,
        spec_poll(s, point_info, rec).1 == TouchState::RELEASED(s.last_tp),
{
}

} // verus!
