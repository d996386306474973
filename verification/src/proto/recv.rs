//! The payloads that actuators send back.

use vstd::prelude::*;
use vstd::string::*;

use crate::bytes::{array_from_slice, array_of, from_le16, u16_from_le};

verus! {

/// A payload carried by a status packet.
pub trait Receive: Sized {
    /// The number of parameter bytes of the payload.
    const BYTES: usize;

    /// Whether the payload's byte parser completes only on the push after
    /// its last byte, taking that push's byte without keeping it. Otherwise
    /// it completes on its last byte, or at once when it has none.
    const COMPLETES_LATE: bool;

    /// The payload whose parameter bytes are `p`.
    spec fn spec_decode(p: Seq<u8>) -> Self;

    /// Decodes the parameter bytes of a status packet.
    fn decode(p: &[u8]) -> (r: Self)
        requires
            p@.len() == Self::BYTES,
        ensures
            r == Self::spec_decode(p@),
    ;
}

impl Receive for () {
    const BYTES: usize = 0;
    const COMPLETES_LATE: bool = false;

    open spec fn spec_decode(p: Seq<u8>) -> Self {
        ()
    }

    fn decode(p: &[u8]) -> (r: Self) {
    }
}

/// The answer to a ping.
#[derive(Debug, PartialEq, Eq, Clone, Copy)]
pub struct Ping {
    pub model_number: u16,
    pub firmware_version: u8,
}

impl Receive for Ping {
    const BYTES: usize = 3;
    const COMPLETES_LATE: bool = false;

    open spec fn spec_decode(p: Seq<u8>) -> Self {
        Ping { model_number: from_le16(p[0], p[1]), firmware_version: p[2] }
    }

    fn decode(p: &[u8]) -> (r: Self) {
        Ping { model_number: u16_from_le(p[0], p[1]), firmware_version: p[2] }
    }
}

/// The bytes read from a control-table item.
#[derive(Debug, PartialEq, Eq, Clone, Copy)]
pub struct Read<const BYTES: usize> {
    pub bytes: [u8; BYTES],
}

/// The bytes of a read are collected by a `ByteArray`, which completes on
/// the push after the last byte: the parameter phase of a status packet
/// answering a read takes one byte more than the item holds (in a
/// well-formed packet, the first CRC byte), and drops it.
impl<const BYTES: usize> Receive for Read<BYTES> {
    const BYTES: usize = BYTES;
    const COMPLETES_LATE: bool = true;

    open spec fn spec_decode(p: Seq<u8>) -> Self {
        Read { bytes: array_of::<BYTES>(p) }
    }

    fn decode(p: &[u8]) -> (r: Self) {
        Read { bytes: array_from_slice::<BYTES>(p) }
    }
}

/// The number of parameter bytes that the byte parser of `R` takes before
/// it completes.
pub open spec fn parsed_bytes<R: Receive>() -> int {
    R::BYTES + if R::COMPLETES_LATE { 1int } else { 0int }
}

/// The sizes of the payloads, and when their parsers complete.
pub proof fn lemma_payload_sizes<const N: usize>()
    ensures
        <() as Receive>::BYTES == 0,
        !<() as Receive>::COMPLETES_LATE,
        <Ping as Receive>::BYTES == 3,
        !<Ping as Receive>::COMPLETES_LATE,
        <Read<N> as Receive>::BYTES == N,
        <Read<N> as Receive>::COMPLETES_LATE,
{
}

/// The payload of a ping is its first two bytes as a little-endian model
/// number and its third byte as the firmware version.
pub proof fn law_ping_decode(lo: u8, hi: u8, fw: u8)
    ensures
        <Ping as Receive>::spec_decode(seq![lo, hi, fw]) == (Ping {
            model_number: (lo as int + 256 * hi as int) as u16,
            firmware_version: fw,
        }),
{
}

pub type Write = ();

pub type RegWrite = ();

pub type Action = ();

pub type FactoryReset = ();

pub type Reboot = ();

/// The hardware errors an actuator can report in its Hardware Error Status item.
#[non_exhaustive]
#[derive(Debug, PartialEq, Eq, Clone, Copy)]
pub struct HardwareErrorStatus {
    input_voltage: bool,
    overheat: bool,
    electric_shock: bool,
    overload: bool,
    unrecognized: bool,
}

/// The flags that `parse_byte` reads from a Hardware Error Status byte: bit 0
/// (input voltage), bit 2 (overheating), bit 4 (electric shock), bit 5
/// (overload), and any other bit (unrecognized).
pub open spec fn hardware_flags(byte: u8) -> (bool, bool, bool, bool, bool) {
    (
        byte & 0x01 != 0,
        byte & 0x04 != 0,
        byte & 0x10 != 0,
        byte & 0x20 != 0,
        byte & 0xCA != 0,
    )
}

/// The text for each reported hardware error, in order.
pub open spec fn hardware_error_parts(
    flags: (bool, bool, bool, bool, bool),
) -> Seq<Seq<char>> {
    let a: Seq<Seq<char>> = if flags.0 { seq!["input voltage out of safe range"@] } else { seq![] };
    let b: Seq<Seq<char>> = if flags.1 { a.push("overheating"@) } else { a };
    let c: Seq<Seq<char>> = if flags.2 { b.push("electric shock"@) } else { b };
    let d: Seq<Seq<char>> = if flags.3 { c.push("overload"@) } else { c };
    if flags.4 {
        d.push("an unrecognized error (INTERNAL ERROR: update the protocol?)"@)
    } else {
        d
    }
}

/// Texts joined by " AND ".
pub open spec fn join_and(parts: Seq<Seq<char>>) -> Seq<char>
    decreases parts.len(),
{
    if parts.len() == 0 {
        seq![]
    } else if parts.len() == 1 {
        parts[0]
    } else {
        join_and(parts.drop_last()) + " AND "@ + parts.last()
    }
}

/// The description of a set of hardware errors.
pub open spec fn hardware_error_text(flags: (bool, bool, bool, bool, bool)) -> Seq<char> {
    let parts = hardware_error_parts(flags);
    if parts.len() == 0 {
        "[INTERNAL ERROR: no hardware errors]"@
    } else {
        join_and(parts)
    }
}

/// Appends one part to a description built so far.
fn append_part(s: &mut String, so_far: bool, part: &str, ghost_parts: Ghost<Seq<Seq<char>>>)
    requires
        old(s)@ == join_and(ghost_parts@),
        so_far == (ghost_parts@.len() > 0),
    ensures
        final(s)@ == join_and(ghost_parts@.push(part@)),
{
    let ghost parts = ghost_parts@;
    assert(parts.push(part@).drop_last() =~= parts);
    if so_far {
        s.append(" AND ");
    } else {
        assert(parts.push(part@) =~= seq![part@]);
    }
    s.append(part);
}

impl HardwareErrorStatus {
    /// The flags, in the order input voltage, overheating, electric shock,
    /// overload, unrecognized.
    pub closed spec fn flags(&self) -> (bool, bool, bool, bool, bool) {
        (self.input_voltage, self.overheat, self.electric_shock, self.overload, self.unrecognized)
    }

    /// Reads the errors from a Hardware Error Status byte.
    pub fn parse_byte(byte: u8) -> (r: Self)
        ensures
            r.flags() == hardware_flags(byte),
    {
        let mut byte = byte;
        let ghost b0 = byte;
        let mut input_voltage = false;
        let mut overheat = false;
        let mut electric_shock = false;
        let mut overload = false;
        let mut unrecognized = false;
        if (byte & 0b1) != 0 {
            input_voltage = true;
            byte = byte & !0b1u8;
        }
        assert(byte == b0 & 0xFE && (input_voltage == (b0 & 0x01 != 0))) by (bit_vector)
            requires
                (b0 & 0x01 != 0) ==> byte == b0 & !0b1u8 && input_voltage,
                (b0 & 0x01 == 0) ==> byte == b0 && !input_voltage,
        ;
        let ghost b1 = byte;
        if (byte & 0b100) != 0 {
            overheat = true;
            byte = byte & !0b100u8;
        }
        assert(byte == b0 & 0xFA && (overheat == (b0 & 0x04 != 0))) by (bit_vector)
            requires
                b1 == b0 & 0xFE,
                (b1 & 0x04 != 0) ==> byte == b1 & !0b100u8 && overheat,
                (b1 & 0x04 == 0) ==> byte == b1 && !overheat,
        ;
        let ghost b2 = byte;
        if (byte & 0b10000) != 0 {
            electric_shock = true;
            byte = byte & !0b10000u8;
        }
        assert(byte == b0 & 0xEA && (electric_shock == (b0 & 0x10 != 0))) by (bit_vector)
            requires
                b2 == b0 & 0xFA,
                (b2 & 0x10 != 0) ==> byte == b2 & !0b10000u8 && electric_shock,
                (b2 & 0x10 == 0) ==> byte == b2 && !electric_shock,
        ;
        let ghost b3 = byte;
        if (byte & 0b100000) != 0 {
            overload = true;
            byte = byte & !0b100000u8;
        }
        assert(byte == b0 & 0xCA && (overload == (b0 & 0x20 != 0))) by (bit_vector)
            requires
                b3 == b0 & 0xEA,
                (b3 & 0x20 != 0) ==> byte == b3 & !0b100000u8 && overload,
                (b3 & 0x20 == 0) ==> byte == b3 && !overload,
        ;
        if byte != 0 {
            unrecognized = true;
        }
        let build = HardwareErrorStatus {
            input_voltage,
            overheat,
            electric_shock,
            overload,
            unrecognized,
        };
        build
    }

    /// Whether the input voltage is out of the safe range.
    pub fn input_voltage(&self) -> (r: bool)
        ensures
            r == self.flags().0,
    {
        self.input_voltage
    }

    /// Whether the actuator is overheating.
    pub fn overheat(&self) -> (r: bool)
        ensures
            r == self.flags().1,
    {
        self.overheat
    }

    /// Whether the actuator reports an electric shock.
    pub fn electric_shock(&self) -> (r: bool)
        ensures
            r == self.flags().2,
    {
        self.electric_shock
    }

    /// Whether the actuator is overloaded.
    pub fn overload(&self) -> (r: bool)
        ensures
            r == self.flags().3,
    {
        self.overload
    }

    /// Whether a bit that this protocol does not name was set.
    pub fn unrecognized(&self) -> (r: bool)
        ensures
            r == self.flags().4,
    {
        self.unrecognized
    }

    /// A human-readable description of the errors.
    pub fn describe(&self) -> (r: String)
        ensures
            r@ == hardware_error_text(self.flags()),
    {
        let ghost f = self.flags();
        let ghost a: Seq<Seq<char>> = if f.0 { seq!["input voltage out of safe range"@] } else { seq![] };
        let ghost b: Seq<Seq<char>> = if f.1 { a.push("overheating"@) } else { a };
        let ghost c: Seq<Seq<char>> = if f.2 { b.push("electric shock"@) } else { b };
        let ghost d: Seq<Seq<char>> = if f.3 { c.push("overload"@) } else { c };
        let mut s = String::new();
        let mut so_far = false;
        if self.input_voltage {
            append_part(&mut s, so_far, "input voltage out of safe range", Ghost(Seq::<Seq<char>>::empty()));
            assert(seq![].push("input voltage out of safe range"@) =~= a);
            so_far = true;
        }
        if self.overheat {
            append_part(&mut s, so_far, "overheating", Ghost(a));
            so_far = true;
        }
        if self.electric_shock {
            append_part(&mut s, so_far, "electric shock", Ghost(b));
            so_far = true;
        }
        if self.overload {
            append_part(&mut s, so_far, "overload", Ghost(c));
            so_far = true;
        }
        if self.unrecognized {
            append_part(
                &mut s,
                so_far,
                "an unrecognized error (INTERNAL ERROR: update the protocol?)",
                Ghost(d),
            );
            so_far = true;
        }
        if !so_far {
            s.append("[INTERNAL ERROR: no hardware errors]");
        }
        s
    }
}

} // verus!
