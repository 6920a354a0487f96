//! The two frame kinds of the HID transport, their byte layout, and the
//! command and error code enumerations.
//!
//! Every frame is a 65-byte buffer. Byte 0 is the reserved report-ID
//! slot and is always zero; the logical fields occupy bytes 1 to 64.
//! An init frame carries the channel id (bytes 1-4), the command byte
//! with its high bit set (byte 5), the total payload length as a
//! big-endian 16-bit value (bytes 6-7) and up to 57 payload bytes
//! (bytes 8-64). A continuation frame carries the channel id, a
//! sequence number with its high bit clear (byte 5) and up to 59
//! payload bytes (bytes 6-64). Unused payload bytes are zero.

use vstd::prelude::*;
use vstd::slice::slice_subrange;

verus! {

/// The high bit of byte 5, set on every init frame and clear on every
/// continuation frame; this is how a receiver tells the two kinds apart.
pub const FRAME_INIT: u8 = 0x80;

/// A protocol command, each bound to one fixed wire byte.
///
/// Decoding a byte is total: a byte that names no command reads back as
/// `Invalid`, so a receiver can still answer an unfamiliar peer.
#[derive(Clone, Copy, PartialEq, Eq, Structural, Debug)]
pub enum CtapCommand {
    Invalid,
    Ping,
    Msg,
    Lock,
    Init,
    Wink,
    Cbor,
    Cancel,
    Keepalive,
    Error,
}

/// The fixed wire byte of each command.
pub open spec fn command_byte(c: CtapCommand) -> u8 {
    match c {
        CtapCommand::Invalid => 0x00,
        CtapCommand::Ping => 0x01,
        CtapCommand::Msg => 0x03,
        CtapCommand::Lock => 0x04,
        CtapCommand::Init => 0x06,
        CtapCommand::Wink => 0x08,
        CtapCommand::Cbor => 0x10,
        CtapCommand::Cancel => 0x11,
        CtapCommand::Keepalive => 0x3b,
        CtapCommand::Error => 0x3f,
    }
}

/// The command a wire byte decodes to; a byte that names no command
/// decodes to `Invalid`.
pub open spec fn command_of_byte(b: u8) -> CtapCommand {
    if b == 0x01 {
        CtapCommand::Ping
    } else if b == 0x03 {
        CtapCommand::Msg
    } else if b == 0x04 {
        CtapCommand::Lock
    } else if b == 0x06 {
        CtapCommand::Init
    } else if b == 0x08 {
        CtapCommand::Wink
    } else if b == 0x10 {
        CtapCommand::Cbor
    } else if b == 0x11 {
        CtapCommand::Cancel
    } else if b == 0x3b {
        CtapCommand::Keepalive
    } else if b == 0x3f {
        CtapCommand::Error
    } else {
        CtapCommand::Invalid
    }
}

impl CtapCommand {
    /// The command's fixed wire byte.
    pub fn to_wire_format(&self) -> (r: u8)
        ensures
            r == command_byte(*self),
    {
        match self {
            CtapCommand::Invalid => 0x00,
            CtapCommand::Ping => 0x01,
            CtapCommand::Msg => 0x03,
            CtapCommand::Lock => 0x04,
            CtapCommand::Init => 0x06,
            CtapCommand::Wink => 0x08,
            CtapCommand::Cbor => 0x10,
            CtapCommand::Cancel => 0x11,
            CtapCommand::Keepalive => 0x3b,
            CtapCommand::Error => 0x3f,
        }
    }

    /// Decode a wire byte; a byte that names no command yields `Invalid`.
    pub fn from_wire_format(b: u8) -> (r: CtapCommand)
        ensures
            r == command_of_byte(b),
    {
        if b == 0x01 {
            CtapCommand::Ping
        } else if b == 0x03 {
            CtapCommand::Msg
        } else if b == 0x04 {
            CtapCommand::Lock
        } else if b == 0x06 {
            CtapCommand::Init
        } else if b == 0x08 {
            CtapCommand::Wink
        } else if b == 0x10 {
            CtapCommand::Cbor
        } else if b == 0x11 {
            CtapCommand::Cancel
        } else if b == 0x3b {
            CtapCommand::Keepalive
        } else if b == 0x3f {
            CtapCommand::Error
        } else {
            CtapCommand::Invalid
        }
    }
}

/// A protocol error, each bound to one fixed wire byte and one fixed
/// descriptive string.
///
/// These are the vocabulary a device uses to report failures to its
/// peer. No decode from a byte is offered here: unlike `CtapCommand`
/// there is no catch-all variant, so a caller that decodes an error
/// byte must treat an unknown byte as a failure of its own.
#[derive(Clone, Copy, PartialEq, Eq, Structural, Debug)]
pub enum CtapError {
    InvalidCmd,
    InvalidPar,
    InvalidLen,
    InvalidSeq,
    MsgTimeout,
    ChannelBusy,
    LockRequired,
    NA,
    Other,
}

/// The fixed wire byte of each error.
pub open spec fn error_byte(e: CtapError) -> u8 {
    match e {
        CtapError::InvalidCmd => 0x01,
        CtapError::InvalidPar => 0x02,
        CtapError::InvalidLen => 0x03,
        CtapError::InvalidSeq => 0x04,
        CtapError::MsgTimeout => 0x05,
        CtapError::ChannelBusy => 0x06,
        CtapError::LockRequired => 0x0A,
        CtapError::NA => 0x0B,
        CtapError::Other => 0x7F,
    }
}

impl CtapError {
    /// The error's fixed wire byte.
    pub fn to_wire_format(&self) -> (r: u8)
        ensures
            r == error_byte(*self),
    {
        match self {
            CtapError::InvalidCmd => 0x01,
            CtapError::InvalidPar => 0x02,
            CtapError::InvalidLen => 0x03,
            CtapError::InvalidSeq => 0x04,
            CtapError::MsgTimeout => 0x05,
            CtapError::ChannelBusy => 0x06,
            CtapError::LockRequired => 0x0A,
            CtapError::NA => 0x0B,
            CtapError::Other => 0x7F,
        }
    }

    /// The error's fixed descriptive string.
    pub fn description(&self) -> (r: &'static str)
        ensures
            *self == CtapError::InvalidCmd ==> r@ == "The command in the request is invalid"@,
            *self == CtapError::InvalidPar ==> r@ == "The parameter(s) in the request is invalid"@,
            *self == CtapError::InvalidLen ==> r@ == "The length field (BCNT) is invalid for the request "@,
            *self == CtapError::InvalidSeq ==> r@ == "The sequence does not match expected value "@,
            *self == CtapError::MsgTimeout ==> r@ == "The message has timed out "@,
            *self == CtapError::ChannelBusy ==> r@ == "The device is busy for the requesting channel "@,
            *self == CtapError::LockRequired ==> r@ == "Command requires channel lock "@,
            *self == CtapError::NA ==> r@ == "Reserved error"@,
            *self == CtapError::Other ==> r@ == "Unspecified error"@,
    {
        match self {
            CtapError::InvalidCmd => "The command in the request is invalid",
            CtapError::InvalidPar => "The parameter(s) in the request is invalid",
            CtapError::InvalidLen => "The length field (BCNT) is invalid for the request ",
            CtapError::InvalidSeq => "The sequence does not match expected value ",
            CtapError::MsgTimeout => "The message has timed out ",
            CtapError::ChannelBusy => "The device is busy for the requesting channel ",
            CtapError::LockRequired => "Command requires channel lock ",
            CtapError::NA => "Reserved error",
            CtapError::Other => "Unspecified error",
        }
    }
}

/// Every command's wire byte decodes back to that command: the byte
/// mapping is injective and decoding inverts encoding.
pub proof fn lemma_command_byte_round_trip(c: CtapCommand)
    ensures
        command_of_byte(command_byte(c)) == c,
{
}

/// Every command's wire byte leaves the high bit clear, so it cannot be
/// mistaken for part of the init-frame marker.
pub proof fn lemma_command_byte_bounded(c: CtapCommand)
    ensures
        command_byte(c) < 0x80,
{
}

/// `payload` extended with zeros to exactly `n` bytes.
pub open spec fn padded(payload: Seq<u8>, n: int) -> Seq<u8> {
    Seq::new(n as nat, |i: int| if i < payload.len() { payload[i] } else { 0u8 })
}

/// The high byte of `size` in big-endian order.
pub open spec fn be16_hi(size: u16) -> u8 {
    ((size >> 8) & 0xff) as u8
}

/// The low byte of `size` in big-endian order.
pub open spec fn be16_lo(size: u16) -> u8 {
    (size & 0xff) as u8
}

/// The 16-bit value read big-endian from the bytes `hi`, `lo`.
pub open spec fn be16(hi: u8, lo: u8) -> u16 {
    ((hi as u16) << 8) | (lo as u16)
}

/// The 65-byte buffer of an init frame: the reserved zero byte, the
/// 4-byte channel id, the marked command byte, the big-endian total
/// payload length, and the payload chunk zero-padded to 57 bytes.
pub open spec fn init_frame(cid: Seq<u8>, cmd: CtapCommand, size: u16, payload: Seq<u8>) -> Seq<u8> {
    Seq::new(
        65,
        |i: int|
            if i == 0 {
                0u8
            } else if i <= 4 {
                cid[i - 1]
            } else if i == 5 {
                FRAME_INIT | command_byte(cmd)
            } else if i == 6 {
                be16_hi(size)
            } else if i == 7 {
                be16_lo(size)
            } else if i - 8 < payload.len() {
                payload[i - 8]
            } else {
                0u8
            },
    )
}

/// The 65-byte buffer of a continuation frame: the reserved zero byte,
/// the 4-byte channel id, the sequence number, and the payload chunk
/// zero-padded to 59 bytes.
pub open spec fn cont_frame(cid: Seq<u8>, seq_no: u8, payload: Seq<u8>) -> Seq<u8> {
    Seq::new(
        65,
        |i: int|
            if i == 0 {
                0u8
            } else if i <= 4 {
                cid[i - 1]
            } else if i == 5 {
                seq_no
            } else if i - 6 < payload.len() {
                payload[i - 6]
            } else {
                0u8
            },
    )
}

/// The capability shared by both frame kinds: rebuild a frame from a
/// raw 64-byte report body, and expose the frame as its full 65-byte
/// buffer.
pub trait Packet {
    /// The frame's full 65-byte buffer, reserved byte included.
    spec fn buf(&self) -> Seq<u8>;

    /// Rebuild a frame from the 64-byte report body `data` (which has
    /// no leading reserved byte): the logical fields land at the same
    /// offsets as in a directly constructed frame.
    fn from_wire_format(data: &[u8]) -> (p: Self) where Self: Sized
        requires
            data@.len() == 64,
        ensures
            p.buf().len() == 65,
            p.buf()[0] == 0,
            p.buf().subrange(1, 65) == data@,
    ;

    /// The full 65-byte buffer, suitable for direct transmission as a
    /// HID report.
    fn to_wire_format(&self) -> (r: &[u8])
        ensures
            r@ == self.buf(),
    ;
}

/// The leading frame of a logical message, as its raw 65-byte buffer.
pub struct InitPacket(pub [u8; 65]);

impl InitPacket {
    /// Build an init frame from a 4-byte channel id, a command, the
    /// declared total payload length, and the first payload chunk of at
    /// most 57 bytes; the unused payload tail is zero.
    pub fn new(cid: &[u8], cmd: &CtapCommand, size: u16, payload: &[u8]) -> (r: InitPacket)
        requires
            cid@.len() == 4,
            payload@.len() <= 57,
        ensures
            r.0@ == init_frame(cid@, *cmd, size, payload@),
    {
        let mut buf: [u8; 65] = [0u8; 65];
        buf[1] = cid[0];
        buf[2] = cid[1];
        buf[3] = cid[2];
        buf[4] = cid[3];
        buf[5] = FRAME_INIT | cmd.to_wire_format();
        buf[6] = ((size >> 8) & 0xff) as u8;
        buf[7] = (size & 0xff) as u8;
        let mut i: usize = 0;
        while i < payload.len()
            invariant
                payload@.len() <= 57,
                i <= payload@.len(),
                buf@.len() == 65,
                buf@[0] == 0,
                buf@[1] == cid@[0],
                buf@[2] == cid@[1],
                buf@[3] == cid@[2],
                buf@[4] == cid@[3],
                buf@[5] == FRAME_INIT | command_byte(*cmd),
                buf@[6] == be16_hi(size),
                buf@[7] == be16_lo(size),
                forall|k: int| 0 <= k < i ==> buf@[8 + k] == payload@[k],
                forall|k: int| 8 + i <= k < 65 ==> buf@[k] == 0,
            decreases payload@.len() - i,
        {
            buf[8 + i] = payload[i];
            i += 1;
        }
        proof {
            assert(buf@ =~= init_frame(cid@, *cmd, size, payload@));
        }
        InitPacket(buf)
    }

    /// The 4-byte channel id, bytes 1-4.
    pub fn cid(&self) -> (r: &[u8])
        ensures
            r@ == self.0@.subrange(1, 5),
    {
        slice_subrange(self.0.as_slice(), 1, 5)
    }

    /// The command: byte 5 with the init marker bit masked off, decoded
    /// through the total byte mapping, so an unknown command byte reads
    /// back as `Invalid`.
    pub fn cmd(&self) -> (r: CtapCommand)
        ensures
            r == command_of_byte(self.0@[5] & 0x7f),
    {
        CtapCommand::from_wire_format(self.0[5] & 0x7f)
    }

    /// The declared total payload length, read big-endian from bytes 6-7.
    pub fn size(&self) -> (r: u16)
        ensures
            r == be16(self.0@[6], self.0@[7]),
    {
        ((self.0[6] as u16) << 8) | (self.0[7] as u16)
    }

    /// The full 57-byte payload region, bytes 8-64; trimming it to the
    /// declared length is the caller's responsibility.
    pub fn payload(&self) -> (r: &[u8])
        ensures
            r@ == self.0@.subrange(8, 65),
    {
        slice_subrange(self.0.as_slice(), 8, 65)
    }
}

impl Packet for InitPacket {
    open spec fn buf(&self) -> Seq<u8> {
        self.0@
    }

    fn from_wire_format(data: &[u8]) -> (p: InitPacket) {
        let mut buf: [u8; 65] = [0u8; 65];
        let mut i: usize = 0;
        while i < 64
            invariant
                data@.len() == 64,
                i <= 64,
                buf@.len() == 65,
                buf@[0] == 0,
                forall|k: int| 0 <= k < i ==> buf@[1 + k] == data@[k],
            decreases 64 - i,
        {
            buf[1 + i] = data[i];
            i += 1;
        }
        proof {
            assert(buf@.subrange(1, 65) =~= data@);
        }
        InitPacket(buf)
    }

    fn to_wire_format(&self) -> (r: &[u8]) {
        self.0.as_slice()
    }
}

/// A continuation frame of a logical message, as its raw 65-byte buffer.
pub struct ContPacket(pub [u8; 65]);

impl ContPacket {
    /// Build a continuation frame from a 4-byte channel id, a sequence
    /// number, and the next payload chunk of at most 59 bytes; the
    /// unused payload tail is zero. The sequence number must stay below
    /// 0x80, or the frame could not be told apart from an init frame.
    pub fn new(cid: &[u8], seq_no: u8, payload: &[u8]) -> (r: ContPacket)
        requires
            cid@.len() == 4,
            seq_no < 0x80,
            payload@.len() <= 59,
        ensures
            r.0@ == cont_frame(cid@, seq_no, payload@),
    {
        let mut buf: [u8; 65] = [0u8; 65];
        buf[1] = cid[0];
        buf[2] = cid[1];
        buf[3] = cid[2];
        buf[4] = cid[3];
        buf[5] = seq_no;
        let mut i: usize = 0;
        while i < payload.len()
            invariant
                payload@.len() <= 59,
                i <= payload@.len(),
                buf@.len() == 65,
                buf@[0] == 0,
                buf@[1] == cid@[0],
                buf@[2] == cid@[1],
                buf@[3] == cid@[2],
                buf@[4] == cid@[3],
                buf@[5] == seq_no,
                forall|k: int| 0 <= k < i ==> buf@[6 + k] == payload@[k],
                forall|k: int| 6 + i <= k < 65 ==> buf@[k] == 0,
            decreases payload@.len() - i,
        {
            buf[6 + i] = payload[i];
            i += 1;
        }
        proof {
            assert(buf@ =~= cont_frame(cid@, seq_no, payload@));
        }
        ContPacket(buf)
    }

    /// The 4-byte channel id, bytes 1-4.
    pub fn cid(&self) -> (r: &[u8])
        ensures
            r@ == self.0@.subrange(1, 5),
    {
        slice_subrange(self.0.as_slice(), 1, 5)
    }

    /// The sequence number, byte 5 as it stands.
    pub fn seq(&self) -> (r: u8)
        ensures
            r == self.0@[5],
    {
        self.0[5]
    }

    /// The full 59-byte payload region, bytes 6-64.
    pub fn payload(&self) -> (r: &[u8])
        ensures
            r@ == self.0@.subrange(6, 65),
    {
        slice_subrange(self.0.as_slice(), 6, 65)
    }
}

impl Packet for ContPacket {
    open spec fn buf(&self) -> Seq<u8> {
        self.0@
    }

    fn from_wire_format(data: &[u8]) -> (p: ContPacket) {
        let mut buf: [u8; 65] = [0u8; 65];
        let mut i: usize = 0;
        while i < 64
            invariant
                data@.len() == 64,
                i <= 64,
                buf@.len() == 65,
                buf@[0] == 0,
                forall|k: int| 0 <= k < i ==> buf@[1 + k] == data@[k],
            decreases 64 - i,
        {
            buf[1 + i] = data[i];
            i += 1;
        }
        proof {
            assert(buf@.subrange(1, 65) =~= data@);
        }
        ContPacket(buf)
    }

    fn to_wire_format(&self) -> (r: &[u8]) {
        self.0.as_slice()
    }
}

/// Writing a 16-bit value as two big-endian bytes and reading them
/// back yields the value.
proof fn lemma_be16_round_trip(size: u16)
    by (bit_vector)
    ensures
        be16(be16_hi(size), be16_lo(size)) == size,
{
}

/// Setting the init marker bit on a byte below 0x80 keeps the byte
/// recoverable by masking, and leaves the high bit set.
proof fn lemma_mark_mask(b: u8)
    by (bit_vector)
    requires
        b < 0x80,
    ensures
        (FRAME_INIT | b) & 0x7f == b,
        (FRAME_INIT | b) & 0x80 == 0x80,
        (FRAME_INIT | b) >= 0x80,
{
}

/// Round trip for init frames: re-attaching the reserved byte to the
/// frame's 64-byte report body rebuilds the identical buffer, and the
/// frame decodes back to the same channel id, command, declared size,
/// and zero-padded payload.
pub proof fn lemma_init_round_trip(cid: Seq<u8>, cmd: CtapCommand, size: u16, payload: Seq<u8>)
    requires
        cid.len() == 4,
        payload.len() <= 57,
    ensures
        ({
            let f = init_frame(cid, cmd, size, payload);
            &&& seq![0u8] + f.subrange(1, 65) == f
            &&& f.subrange(1, 5) == cid
            &&& command_of_byte(f[5] & 0x7f) == cmd
            &&& be16(f[6], f[7]) == size
            &&& f.subrange(8, 65) == padded(payload, 57)
        }),
{
    let f = init_frame(cid, cmd, size, payload);
    lemma_command_byte_bounded(cmd);
    lemma_mark_mask(command_byte(cmd));
    lemma_command_byte_round_trip(cmd);
    lemma_be16_round_trip(size);
    assert(seq![0u8] + f.subrange(1, 65) =~= f);
    assert(f.subrange(1, 5) =~= cid);
    assert(f.subrange(8, 65) =~= padded(payload, 57));
}

/// Round trip for continuation frames: re-attaching the reserved byte
/// to the frame's 64-byte report body rebuilds the identical buffer,
/// and the frame decodes back to the same channel id, sequence number,
/// and zero-padded payload.
pub proof fn lemma_cont_round_trip(cid: Seq<u8>, seq_no: u8, payload: Seq<u8>)
    requires
        cid.len() == 4,
        seq_no < 0x80,
        payload.len() <= 59,
    ensures
        ({
            let f = cont_frame(cid, seq_no, payload);
            &&& seq![0u8] + f.subrange(1, 65) == f
            &&& f.subrange(1, 5) == cid
            &&& f[5] == seq_no
            &&& f.subrange(6, 65) == padded(payload, 59)
        }),
{
    let f = cont_frame(cid, seq_no, payload);
    assert(seq![0u8] + f.subrange(1, 65) =~= f);
    assert(f.subrange(1, 5) =~= cid);
    assert(f.subrange(6, 65) =~= padded(payload, 59));
}

/// Frame-type disambiguation: byte 5 of an init frame always has its
/// high bit set, and byte 5 of a continuation frame with an in-range
/// sequence number never does, so a receiver can tell the two kinds
/// apart before parsing either.
pub proof fn lemma_frame_disambiguation(
    cid: Seq<u8>,
    cmd: CtapCommand,
    size: u16,
    seq_no: u8,
    init_payload: Seq<u8>,
    cont_payload: Seq<u8>,
)
    requires
        seq_no < 0x80,
    ensures
        init_frame(cid, cmd, size, init_payload)[5] & 0x80 == 0x80,
        init_frame(cid, cmd, size, init_payload)[5] >= 0x80,
        cont_frame(cid, seq_no, cont_payload)[5] & 0x80 == 0,
        cont_frame(cid, seq_no, cont_payload)[5] < 0x80,
{
    lemma_command_byte_bounded(cmd);
    lemma_mark_mask(command_byte(cmd));
    assert(seq_no & 0x80 == 0) by (bit_vector)
        requires
            seq_no < 0x80,
    ;
}

} // verus!
