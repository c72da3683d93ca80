//! Demuxing of the compressed media elementary stream: the one-off metadata
//! header (codec id, width, height), framed packets (an 8-byte PTS/flags word
//! and a length-prefixed payload), and the merge step that folds the leading
//! configuration packet (SPS/PPS) into the first key frame for codecs that
//! separate them.
use vstd::prelude::*;

use crate::bytes::{read_be32, read_be64, spec_combine32, spec_combine64};

verus! {

/// Raw codec id announcing H.264 in the stream metadata header.
pub const SC_CODEC_ID_H264: u32 = 0x68323634;

/// Raw codec id announcing H.265 in the stream metadata header.
pub const SC_CODEC_ID_H265: u32 = 0x68323635;

/// Raw codec id announcing AV1 in the stream metadata header.
pub const SC_CODEC_ID_AV1: u32 = 0x00617631;

/// Bit of the PTS/flags word marking a configuration (SPS/PPS) packet.
pub const PACKET_FLAG_CONFIG: u64 = 0x8000_0000_0000_0000;

/// Bit of the PTS/flags word marking a key frame.
pub const PACKET_FLAG_KEY_FRAME: u64 = 0x4000_0000_0000_0000;

/// Mask of the PTS/flags word that carries the timestamp itself.
pub const PACKET_PTS_MASK: u64 = 0x3FFF_FFFF_FFFF_FFFF;

/// Video codec of a media stream.
#[derive(Clone, Copy, Debug, PartialEq, Eq, Structural)]
pub enum VideoCodec {
    H264,
    H265,
    AV1,
}

/// The stream metadata read once per connection.
#[derive(Clone, Copy, Debug, PartialEq, Eq, Structural)]
pub struct MediaMeta {
    pub codec: VideoCodec,
    pub width: u32,
    pub height: u32,
}

/// One demuxed media packet. A packet without a timestamp is
/// configuration-only and must not be forwarded as a displayable frame.
#[derive(Clone, Debug)]
pub struct MediaPacket {
    pub pts: Option<u64>,
    pub key_frame: bool,
    pub data: Vec<u8>,
}

/// The codec a raw codec id announces, if any.
pub open spec fn spec_codec_of_id(raw: u32) -> Option<VideoCodec> {
    if raw == SC_CODEC_ID_H264 {
        Some(VideoCodec::H264)
    } else if raw == SC_CODEC_ID_H265 {
        Some(VideoCodec::H265)
    } else if raw == SC_CODEC_ID_AV1 {
        Some(VideoCodec::AV1)
    } else {
        None
    }
}

/// Whether a codec transmits its two leading configuration NAL units apart
/// from the first frame, so that the demuxer must merge them back.
pub open spec fn spec_must_merge(codec: VideoCodec) -> bool {
    codec == VideoCodec::H264 || codec == VideoCodec::H265
}

/// Exec mirror of [`spec_must_merge`].
pub fn must_merge_config_packet(codec: VideoCodec) -> (r: bool)
    ensures
        r == spec_must_merge(codec),
{
    match codec {
        VideoCodec::H264 => true,
        VideoCodec::H265 => true,
        VideoCodec::AV1 => false,
    }
}

/// Parses the 12-byte stream metadata header: 4-byte codec id, 4-byte width,
/// 4-byte height, all big-endian. An unknown codec id is a protocol error
/// that terminates the stream; the raw id is reported.
pub fn parse_media_meta(buf: &Vec<u8>) -> (r: Result<MediaMeta, u32>)
    requires
        buf@.len() == 12,
    ensures
        ({
            let raw = spec_combine32(buf@[0], buf@[1], buf@[2], buf@[3]);
            match spec_codec_of_id(raw) {
                Some(codec) => r matches Ok(m) && m.codec == codec && m.width == spec_combine32(
                    buf@[4],
                    buf@[5],
                    buf@[6],
                    buf@[7],
                ) && m.height == spec_combine32(buf@[8], buf@[9], buf@[10], buf@[11]),
                None => r == Err::<MediaMeta, u32>(raw),
            }
        }),
{
    let raw = read_be32(buf, 0);
    let codec = if raw == SC_CODEC_ID_H264 {
        VideoCodec::H264
    } else if raw == SC_CODEC_ID_H265 {
        VideoCodec::H265
    } else if raw == SC_CODEC_ID_AV1 {
        VideoCodec::AV1
    } else {
        return Err(raw);
    };
    Ok(MediaMeta { codec, width: read_be32(buf, 4), height: read_be32(buf, 8) })
}

/// The timestamp carried by a PTS/flags word: none for a configuration
/// packet, else the low 62 bits.
pub open spec fn spec_pts_of_word(w: u64) -> Option<u64> {
    if w & PACKET_FLAG_CONFIG != 0 {
        None
    } else {
        Some(w & PACKET_PTS_MASK)
    }
}

/// Parses the 12-byte packet frame header: an 8-byte PTS/flags word and the
/// 4-byte payload length, both big-endian. Returns the timestamp (none for a
/// configuration packet), the key-frame flag, and the payload length.
pub fn parse_packet_header(buf: &Vec<u8>) -> (r: (Option<u64>, bool, u32))
    requires
        buf@.len() == 12,
    ensures
        ({
            let w = spec_combine64(
                buf@[0],
                buf@[1],
                buf@[2],
                buf@[3],
                buf@[4],
                buf@[5],
                buf@[6],
                buf@[7],
            );
            r.0 == spec_pts_of_word(w) && r.1 == (w & PACKET_FLAG_KEY_FRAME != 0) && r.2
                == spec_combine32(buf@[8], buf@[9], buf@[10], buf@[11])
        }),
{
    let w = read_be64(buf, 0);
    let pts = if w & PACKET_FLAG_CONFIG != 0 {
        None
    } else {
        Some(w & PACKET_PTS_MASK)
    };
    (pts, w & PACKET_FLAG_KEY_FRAME != 0, read_be32(buf, 8))
}

/// What the video session hands downstream: the stream metadata once, then
/// the displayable packets, then an explicit marker that the stream ended —
/// the consumer never has to infer the end from silence.
pub enum VideoMsg {
    Start { codec: VideoCodec, width: u32, height: u32 },
    Packet(MediaPacket),
    End,
}

/// Holds a pending configuration packet until the frame it belongs to
/// arrives.
pub struct PacketMerger {
    pub pending: Option<Vec<u8>>,
}

impl PacketMerger {
    /// A fresh merger with nothing pending.
    pub fn new() -> (r: PacketMerger)
        ensures
            r.pending is None,
    {
        PacketMerger { pending: None }
    }

    /// Folds the packet into the merger: a configuration packet is stored and
    /// the next packet gets the stored bytes prepended to its payload.
    pub fn merge(&mut self, packet: &mut MediaPacket)
        ensures
            old(packet).pts is None ==> (final(self).pending matches Some(p)
                && p@ == old(packet).data@ && *final(packet) == *old(packet)),
            old(packet).pts is Some && old(self).pending is None ==> *final(self) == *old(self)
                && *final(packet) == *old(packet),
            old(self).pending matches Some(p) ==> (old(packet).pts is Some ==> (
            final(self).pending is None && final(packet).pts == old(packet).pts
                && final(packet).key_frame == old(packet).key_frame
                && final(packet).data@ == p@ + old(packet).data@)),
    {
        if packet.pts.is_none() {
            let mut stored: Vec<u8> = Vec::new();
            stored.extend_from_slice(packet.data.as_slice());
            assert(stored@ =~= packet.data@);
            self.pending = Some(stored);
        } else {
            let pending = self.pending.take();
            match pending {
                Some(mut merged) => {
                    merged.append(&mut packet.data);
                    packet.data = merged;
                    self.pending = None;
                },
                None => {
                    self.pending = None;
                },
            }
        }
    }
}

/// One step of the video read loop after the frame has been demuxed: apply
/// the configuration merge when the codec needs it, and hand back the packet
/// exactly when it carries a timestamp — configuration packets are consumed
/// here and never forwarded.
pub fn process_media_packet(merger: &mut PacketMerger, must_merge: bool, packet: MediaPacket) -> (r:
    Option<MediaPacket>)
    ensures
        packet.pts is None ==> r is None,
        packet.pts is Some ==> (r matches Some(p) && p.pts == packet.pts && p.key_frame
            == packet.key_frame),
        packet.pts is Some && (!must_merge || old(merger).pending is None) ==> (r matches Some(p)
            && p.data@ == packet.data@),
        old(merger).pending matches Some(q) ==> (packet.pts is Some && must_merge ==> (
        r matches Some(p) && p.data@ == q@ + packet.data@)),
        packet.pts is None && must_merge ==> (final(merger).pending matches Some(p) && p@
            == packet.data@),
        !must_merge ==> *final(merger) == *old(merger),
{
    let mut packet = packet;
    if must_merge {
        merger.merge(&mut packet);
    }
    if packet.pts.is_some() {
        Some(packet)
    } else {
        None
    }
}

} // verus!
