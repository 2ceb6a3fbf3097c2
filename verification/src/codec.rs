//! Video codecs, their FourCC tags and the container each one is stored in.

use vstd::prelude::*;

verus! {

/// Supported video codecs.
#[derive(Clone, Copy, Debug, PartialEq, Eq, Structural)]
pub enum Codec {
    /// Advanced Video Coding
    H264,
    /// Motion JPEG
    MJPG,
    /// Windows Media Video
    WMV3,
}

/// The four characters that tag a codec.
pub open spec fn codec_tag(codec: Codec) -> Seq<char> {
    match codec {
        Codec::H264 => seq!['H', '2', '6', '4'],
        Codec::MJPG => seq!['M', 'J', 'P', 'G'],
        Codec::WMV3 => seq!['W', 'M', 'V', '3'],
    }
}

/// A FourCC value: the four character codes packed little-endian, first one lowest.
pub open spec fn fourcc_of(tag: Seq<char>) -> int {
    tag[0] as int + tag[1] as int * 0x100 + tag[2] as int * 0x1_0000 + tag[3] as int * 0x100_0000
}

/// The container extension of each codec.
pub open spec fn extension_of(codec: Codec) -> Seq<char> {
    match codec {
        Codec::H264 => seq!['m', 'p', '4'],
        Codec::MJPG => seq!['a', 'v', 'i'],
        Codec::WMV3 => seq!['w', 'm', 'v'],
    }
}

impl Codec {
    /// Gets the FourCC value of the codec.
    pub fn fourcc(&self) -> (code: i32)
        ensures
            code == fourcc_of(codec_tag(*self)),
    {
        match self {
            Codec::H264 => 0x3436_3248,
            Codec::MJPG => 0x4750_4A4D,
            Codec::WMV3 => 0x3356_4D57,
        }
    }

    /// Gets the file extension of the container the codec is written to.
    pub fn file_extension(&self) -> (ext: &'static str)
        ensures
            ext@ == extension_of(*self),
    {
        proof {
            reveal_strlit("mp4");
            reveal_strlit("avi");
            reveal_strlit("wmv");
        }
        match self {
            Codec::H264 => "mp4",
            Codec::MJPG => "avi",
            Codec::WMV3 => "wmv",
        }
    }
}

} // verus!
