//! The record that opens the volume, at offset 0.

use vstd::prelude::*;
use vstd::utf8::decode_utf8;
use vstd::utf8::valid_utf8;

use crate::endian::bytes_at;
use crate::endian::lemma_window_of_window;
use crate::endian::u32_at;
use crate::error::DecodeError;
use crate::reader::take;
use crate::reader::take_u32;
use crate::reader::ByteReader;
use crate::text::lossy_text;
use crate::text::string_from_bytes;
use crate::text::text_bytes;

verus! {

/// The volume header: who made the image, when, and with which command line.
#[derive(Clone, Debug)]
pub struct Vdfs4VolumeBegins {
    /// `VDFS`
    pub signature: Vec<u8>,
    /// Four digits, such as `2006` or `2007`.
    pub layout_version: Vec<u8>,
    /// The command line that made the image.
    pub command_line: Vec<u8>,
    pub creation_time: Vec<u8>,
    pub creator_username: Vec<u8>,
    pub reserved: Vec<u8>,
    pub checksum: u32,
}

/// A volume header as plain values.
pub struct VolumeBeginsView {
    pub signature: Seq<u8>,
    pub layout_version: Seq<u8>,
    pub command_line: Seq<u8>,
    pub creation_time: Seq<u8>,
    pub creator_username: Seq<u8>,
    pub reserved: Seq<u8>,
    pub checksum: u32,
}

impl View for Vdfs4VolumeBegins {
    type V = VolumeBeginsView;

    open spec fn view(&self) -> VolumeBeginsView {
        VolumeBeginsView {
            signature: self.signature@,
            layout_version: self.layout_version@,
            command_line: self.command_line@,
            creation_time: self.creation_time@,
            creator_username: self.creator_username@,
            reserved: self.reserved@,
            checksum: self.checksum,
        }
    }
}

impl PartialEq for Vdfs4VolumeBegins {
    fn eq(&self, other: &Self) -> (r: bool) {
        let r: bool = self.signature == other.signature
            && self.layout_version == other.layout_version
            && self.command_line == other.command_line
            && self.creation_time == other.creation_time
            && self.creator_username == other.creator_username
            && self.reserved == other.reserved
            && self.checksum == other.checksum;
        proof {
            if r {
                assert(self.signature@ =~= other.signature@);
                assert(self.layout_version@ =~= other.layout_version@);
                assert(self.command_line@ =~= other.command_line@);
                assert(self.creation_time@ =~= other.creation_time@);
                assert(self.creator_username@ =~= other.creator_username@);
                assert(self.reserved@ =~= other.reserved@);
            }
        }
        r
    }
}

impl Eq for Vdfs4VolumeBegins {

}

impl vstd::std_specs::cmp::PartialEqSpecImpl for Vdfs4VolumeBegins {
    open spec fn obeys_eq_spec() -> bool {
        true
    }

    open spec fn eq_spec(&self, other: &Self) -> bool {
        self@ == other@
    }
}

impl Vdfs4VolumeBegins {
    /// The header that the 512 bytes `b` hold.
    pub open spec fn parse(b: Seq<u8>) -> VolumeBeginsView {
        VolumeBeginsView {
            signature: bytes_at(b, 0, 4),
            layout_version: bytes_at(b, 4, 4),
            command_line: bytes_at(b, 8, 456),
            creation_time: bytes_at(b, 464, 16),
            creator_username: bytes_at(b, 480, 16),
            reserved: bytes_at(b, 496, 12),
            checksum: u32_at(b, 508),
        }
    }

    /// Decodes the header at the reader's position and moves past it. Where
    /// fewer than 512 bytes are left the reader stays as it was.
    pub fn decode(reader: &mut ByteReader) -> (r: Result<Self, DecodeError>)
        ensures
            match r {
                Ok(v) => {
                    &&& old(reader).holds(512)
                    &&& v@ == Self::parse(old(reader).upcoming(512))
                    &&& final(reader).pos == old(reader).pos + 512
                    &&& final(reader).data@ == old(reader).data@
                },
                Err(e) => {
                    &&& e == DecodeError::TruncatedInput
                    &&& !old(reader).holds(512)
                    &&& *final(reader) == *old(reader)
                },
            },
    {
        broadcast use lemma_window_of_window;

        if !reader.has(512) {
            return Err(DecodeError::TruncatedInput);
        }
        let mut cur: ByteReader = *reader;
        let signature = take(&mut cur, 4);
        let layout_version = take(&mut cur, 4);
        let command_line = take(&mut cur, 456);
        let creation_time = take(&mut cur, 16);
        let creator_username = take(&mut cur, 16);
        let reserved = take(&mut cur, 12);
        let checksum = take_u32(&mut cur);
        *reader = cur;
        Ok(
            Vdfs4VolumeBegins {
                signature,
                layout_version,
                command_line,
                creation_time,
                creator_username,
                reserved,
                checksum,
            },
        )
    }

    /// The layout version as text.
    pub fn layout_version_str(&self) -> (s: String)
        ensures
            s@ == lossy_text(text_bytes(self.layout_version@)),
            valid_utf8(text_bytes(self.layout_version@)) ==> s@ == decode_utf8(
                text_bytes(self.layout_version@),
            ),
    {
        string_from_bytes(self.layout_version.as_slice())
    }
}

} // verus!
