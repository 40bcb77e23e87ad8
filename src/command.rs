use vstd::prelude::*;

verus! {

/// A relative change to apply to every lamp that `mask` selects.
#[derive(Clone, Copy, Debug, PartialEq, Eq, Structural)]
pub struct Command {
    pub mask: u16,
    pub brightness: i8,
    pub gamma: i8,
    pub position: i8,
}

/// First byte of every frame.
pub const FRAME_MARKER: u8 = 0x00;
/// Last byte of every frame, `'\n'`.
pub const FRAME_END: u8 = 0x0A;

/// The two's-complement byte of a signed value.
pub open spec fn signed_byte(v: i8) -> u8 {
    if v < 0 {
        (v + 256) as u8
    } else {
        v as u8
    }
}

/// The wire frame of a command: marker, mask high byte, mask low byte,
/// brightness, gamma, position, terminator.
pub open spec fn frame_of(c: Command) -> Seq<u8> {
    seq![
        FRAME_MARKER,
        (c.mask / 256) as u8,
        (c.mask % 256) as u8,
        signed_byte(c.brightness),
        signed_byte(c.gamma),
        signed_byte(c.position),
        FRAME_END,
    ]
}

/// The frame announcing a controller restart: six zero bytes and `'\n'`.
pub open spec fn boot_frame_spec() -> Seq<u8> {
    seq![0u8, 0u8, 0u8, 0u8, 0u8, 0u8, FRAME_END]
}

fn to_byte(v: i8) -> (r: u8)
    ensures
        r == signed_byte(v),
{
    if v < 0 {
        (v as i16 + 256) as u8
    } else {
        v as u8
    }
}

impl Command {
    /// Serialises the command to its seven-byte wire frame.
    pub fn encode(&self) -> (r: [u8; 7])
        ensures
            r@ == frame_of(*self),
    {
        let r = [
            FRAME_MARKER,
            (self.mask / 256) as u8,
            (self.mask % 256) as u8,
            to_byte(self.brightness),
            to_byte(self.gamma),
            to_byte(self.position),
            FRAME_END,
        ];
        assert(r@ =~= frame_of(*self));
        r
    }
}

/// The frame sent once at start-up.
pub fn boot_frame() -> (r: [u8; 7])
    ensures
        r@ == boot_frame_spec(),
{
    let r = [FRAME_MARKER, FRAME_MARKER, FRAME_MARKER, FRAME_MARKER, FRAME_MARKER, FRAME_MARKER, FRAME_END];
    assert(r@ =~= boot_frame_spec());
    r
}

/// Decoding the frame of a command gives the command back: the mask from
/// bytes 1 and 2, each signed field from its two's-complement byte.
pub proof fn lemma_frame_round_trip(c: Command)
    ensures
        frame_of(c).len() == 7,
        frame_of(c)[1] as int * 256 + frame_of(c)[2] as int == c.mask as int,
        (if frame_of(c)[3] >= 128 { frame_of(c)[3] as int - 256 } else { frame_of(c)[3] as int })
            == c.brightness as int,
        (if frame_of(c)[4] >= 128 { frame_of(c)[4] as int - 256 } else { frame_of(c)[4] as int })
            == c.gamma as int,
        (if frame_of(c)[5] >= 128 { frame_of(c)[5] as int - 256 } else { frame_of(c)[5] as int })
            == c.position as int,
{
}

} // verus!
