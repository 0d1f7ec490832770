//! The radio encoding of a sparse measurement.
//!
//! Byte 0 is a presence mask: bit 0 for the water temperature, bit 1 for the
//! inside temperature, bit 2 for the inside humidity, bit 3 for the supply
//! voltage. The fields that are present follow from bit 8 on, in that order,
//! packed without gaps, each most significant bit first: 12 bits for the two
//! `U12` fields and 16 bits for the two `u16` fields.
use vstd::prelude::*;

use crate::bits::{
    bit_at, fits, holds_bits, lemma_bits_determine, lemma_bits_eq_byte, read_bits,
    same_bits_outside, value_bit, write_bits,
};

verus! {

/// Capacity of an encoded measurement, in bytes.
pub const MAX_MSG_LEN: usize = 8;

/// Largest value of a `U12`.
pub const U12_MAX: u16 = 0xFFF;

/// Width in bits of a `U12` field on the wire.
pub const U12_BITS: usize = 12;

/// Width in bits of a `u16` field on the wire.
pub const U16_BITS: usize = 16;

/// An unsigned integer of twelve bits.
#[derive(Clone, Copy, Debug, PartialEq, Eq, Structural)]
pub struct U12(u16);

impl U12 {
    #[verifier::type_invariant]
    spec fn inv(self) -> bool {
        self.0 <= U12_MAX
    }

    /// The value held.
    pub closed spec fn value(self) -> u16 {
        self.0
    }

    /// Takes `value`, or `U12_MAX` where `value` is larger (a saturating clamp).
    pub fn new(value: u16) -> (r: Self)
        ensures
            r.value() == if value > U12_MAX {
                U12_MAX
            } else {
                value
            },
    {
        if value > U12_MAX {
            U12(U12_MAX)
        } else {
            U12(value)
        }
    }

    /// The value held, with the four uppermost bits clear.
    pub fn as_u16(&self) -> (r: u16)
        ensures
            r == self.value(),
            r <= U12_MAX,
    {
        proof {
            use_type_invariant(self);
        }
        self.0
    }
}

/// One measurement, each reading present or not.
#[derive(Clone, Copy, Debug, PartialEq, Eq, Structural)]
pub struct MeasurementMessage {
    /// Water temperature, raw DS18B20 reading.
    pub t_water: Option<U12>,
    /// Inside temperature, raw sensor ticks.
    pub t_inside: Option<u16>,
    /// Inside relative humidity, raw sensor ticks.
    pub rh_inside: Option<u16>,
    /// Supply voltage reading.
    pub v_supply: Option<U12>,
}

/// Why a byte slice is not a measurement.
#[derive(Clone, Copy, Debug, PartialEq, Eq, Structural)]
pub enum DecodeError {
    /// The slice is empty, or shorter than the fields that its mask announces.
    MalformedInput,
}

/// The byte buffer that a measurement is encoded into.
#[derive(Clone, Copy, Debug)]
pub struct EncodedMeasurement(pub [u8; MAX_MSG_LEN]);

impl EncodedMeasurement {
    /// A buffer of zero bytes.
    pub fn new() -> (r: Self)
        ensures
            forall|i: int| 0 <= i < MAX_MSG_LEN ==> r.0@[i] == 0u8,
    {
        EncodedMeasurement([0u8; MAX_MSG_LEN])
    }
}

/// Bit `i` (counted from the least significant, `i` below 4) of `b` is set.
pub open spec fn has_bit(b: u8, i: u8) -> bool {
    let weight: int = if i == 0 {
        1
    } else if i == 1 {
        2
    } else if i == 2 {
        4
    } else {
        8
    };
    (b as int / weight) % 2 == 1
}

/// Width on the wire of an optional `U12` field.
pub open spec fn u12_width<T>(f: Option<T>) -> nat {
    if f is Some {
        12
    } else {
        0
    }
}

/// Width on the wire of an optional `u16` field.
pub open spec fn u16_width<T>(f: Option<T>) -> nat {
    if f is Some {
        16
    } else {
        0
    }
}

impl MeasurementMessage {
    /// Every `U12` field is within its twelve bits.
    pub open spec fn wf(self) -> bool {
        &&& (self.t_water matches Some(v) ==> v.value() <= U12_MAX)
        &&& (self.v_supply matches Some(v) ==> v.value() <= U12_MAX)
    }

    /// The presence mask of byte 0.
    pub open spec fn presence_mask(self) -> u8 {
        ((if self.t_water is Some {
            1u8
        } else {
            0u8
        }) + (if self.t_inside is Some {
            2u8
        } else {
            0u8
        }) + (if self.rh_inside is Some {
            4u8
        } else {
            0u8
        }) + (if self.v_supply is Some {
            8u8
        } else {
            0u8
        })) as u8
    }

    /// Bit offset of the inside temperature.
    pub open spec fn t_inside_offset(self) -> nat {
        8 + u12_width(self.t_water)
    }

    /// Bit offset of the inside humidity.
    pub open spec fn rh_inside_offset(self) -> nat {
        self.t_inside_offset() + u16_width(self.t_inside)
    }

    /// Bit offset of the supply voltage.
    pub open spec fn v_supply_offset(self) -> nat {
        self.rh_inside_offset() + u16_width(self.rh_inside)
    }

    /// Number of bits that the present fields take after the mask byte.
    pub open spec fn payload_bits(self) -> nat {
        u12_width(self.t_water) + u16_width(self.t_inside) + u16_width(self.rh_inside)
            + u12_width(self.v_supply)
    }

    /// Encoded length in bytes: the mask byte and the fields, the last byte rounded up.
    pub open spec fn encoded_len(self) -> nat {
        1 + (self.payload_bits() + 7) / 8
    }

    /// Each present field stands in `bytes` at its offset.
    pub open spec fn fields_in(self, bytes: Seq<u8>) -> bool {
        &&& (self.t_water matches Some(v) ==> holds_bits(bytes, 8, 12, v.value()))
        &&& (self.t_inside matches Some(v) ==> holds_bits(
            bytes,
            self.t_inside_offset() as int,
            16,
            v,
        ))
        &&& (self.rh_inside matches Some(v) ==> holds_bits(
            bytes,
            self.rh_inside_offset() as int,
            16,
            v,
        ))
        &&& (self.v_supply matches Some(v) ==> holds_bits(
            bytes,
            self.v_supply_offset() as int,
            12,
            v.value(),
        ))
    }

    /// `bytes` begins with the encoding of this measurement.
    pub open spec fn encoded_in(self, bytes: Seq<u8>) -> bool {
        &&& bytes.len() >= self.encoded_len()
        &&& bytes[0] == self.presence_mask()
        &&& self.fields_in(bytes)
    }

    /// This measurement is read from `bytes`: its fields are those that the
    /// low four bits of byte 0 announce, with the values that stand there.
    pub open spec fn decoded_from(self, bytes: Seq<u8>) -> bool {
        &&& bytes.len() >= 1
        &&& self.presence_mask() == bytes[0] % 16
        &&& self.fields_in(bytes)
        &&& self.wf()
    }
}

/// Number of field bits that the presence mask `mask` announces.
pub open spec fn announced_bits(mask: u8) -> nat {
    (if has_bit(mask, 0) {
        12nat
    } else {
        0
    }) + (if has_bit(mask, 1) {
        16nat
    } else {
        0
    }) + (if has_bit(mask, 2) {
        16nat
    } else {
        0
    }) + (if has_bit(mask, 3) {
        12nat
    } else {
        0
    })
}

/// Number of bytes that a slice whose byte 0 is `mask` must hold.
pub open spec fn required_len(mask: u8) -> nat {
    1 + (announced_bits(mask) + 7) / 8
}

/// Bit `i` of the presence mask, for `i` in 0..4, is set exactly when the
/// `i`-th field is present; bits 4 to 7 are clear.
pub proof fn lemma_presence_mask_bits(m: MeasurementMessage)
    ensures
        has_bit(m.presence_mask(), 0) == m.t_water is Some,
        has_bit(m.presence_mask(), 1) == m.t_inside is Some,
        has_bit(m.presence_mask(), 2) == m.rh_inside is Some,
        has_bit(m.presence_mask(), 3) == m.v_supply is Some,
        m.presence_mask() < 16,
{
}

proof fn lemma_fits_u12(v: u16)
    requires
        fits(v, 12),
    ensures
        v <= U12_MAX,
{
    assert(v >> 12u16 == 0u16 ==> v <= 0xFFFu16) by (bit_vector);
}

/// The low four bits of a byte are the mask made of its bits 0 to 3.
proof fn lemma_low_nibble(x: u8)
    ensures
        x % 16 == (if has_bit(x, 0) {
            1u8
        } else {
            0u8
        }) + (if has_bit(x, 1) {
            2u8
        } else {
            0u8
        }) + (if has_bit(x, 2) {
            4u8
        } else {
            0u8
        }) + (if has_bit(x, 3) {
            8u8
        } else {
            0u8
        }),
{
}

/// Writes `value` as a `width`-bit field at the cursor and moves the cursor past it.
fn put_field(output: &mut [u8; MAX_MSG_LEN], bit_index: &mut usize, width: usize, value: u16)
    requires
        width <= 16,
        *old(bit_index) + width <= 64,
    ensures
        *final(bit_index) == *old(bit_index) + width,
        holds_bits(final(output)@, *old(bit_index) as int, width as nat, value),
        same_bits_outside(final(output)@, old(output)@, *old(bit_index) as int, *final(bit_index) as int),
{
    write_bits(output, *bit_index, width, value);
    *bit_index = *bit_index + width;
}

/// Reads a `width`-bit field at the cursor and moves the cursor past it.
fn take_field(data: &[u8], bit_index: &mut usize, width: usize) -> (r: u16)
    requires
        width <= 16,
        *old(bit_index) + width <= 8 * data@.len(),
        *old(bit_index) + width <= usize::MAX,
    ensures
        *final(bit_index) == *old(bit_index) + width,
        holds_bits(data@, *old(bit_index) as int, width as nat, r),
        fits(r, width as nat),
{
    let r = read_bits(data, *bit_index, width);
    *bit_index = *bit_index + width;
    r
}

impl Default for MeasurementMessage {
    /// The measurement with no reading present.
    fn default() -> (r: Self)
        ensures
            r.t_water is None,
            r.t_inside is None,
            r.rh_inside is None,
            r.v_supply is None,
    {
        MeasurementMessage { t_water: None, t_inside: None, rh_inside: None, v_supply: None }
    }
}

impl MeasurementMessage {
    /// The measurement of one wake-up: the raw water temperature (clamped to
    /// twelve bits), the raw inside temperature and humidity, and the supply
    /// voltage, each where it was read.
    pub fn from_readings(
        water_raw: Option<u16>,
        inside_raw: Option<(u16, u16)>,
        v_supply: Option<U12>,
    ) -> (r: Self)
        ensures
            r.t_water is Some == water_raw is Some,
            water_raw matches Some(w) ==> r.t_water.unwrap().value() == if w > U12_MAX {
                U12_MAX
            } else {
                w
            },
            r.t_inside == match inside_raw {
                Some(p) => Some(p.0),
                None => None::<u16>,
            },
            r.rh_inside == match inside_raw {
                Some(p) => Some(p.1),
                None => None::<u16>,
            },
            r.v_supply == v_supply,
    {
        let t_water = match water_raw {
            Some(w) => Some(U12::new(w)),
            None => None,
        };
        let (t_inside, rh_inside) = match inside_raw {
            Some((t, h)) => (Some(t), Some(h)),
            None => (None, None),
        };
        MeasurementMessage { t_water, t_inside, rh_inside, v_supply }
    }

    /// Encodes the measurement into `output` and returns the number of bytes to send.
    ///
    /// Byte 0 takes the presence mask and the bits after it take the present
    /// fields; every bit beyond the last field keeps its former value.
    pub fn encode(&self, output: &mut EncodedMeasurement) -> (r: usize)
        ensures
            r == self.encoded_len(),
            1 <= r <= MAX_MSG_LEN,
            (self.t_water is None && self.t_inside is None && self.rh_inside is None
                && self.v_supply is None) ==> r == 1,
            self.encoded_in(final(output).0@),
            has_bit(final(output).0@[0], 0) == self.t_water is Some,
            has_bit(final(output).0@[0], 1) == self.t_inside is Some,
            has_bit(final(output).0@[0], 2) == self.rh_inside is Some,
            has_bit(final(output).0@[0], 3) == self.v_supply is Some,
            final(output).0@[0] < 16,
            same_bits_outside(
                final(output).0@,
                old(output).0@,
                0,
                8 + self.payload_bits() as int,
            ),
            forall|i: int| r <= i < MAX_MSG_LEN ==> final(output).0@[i] == old(output).0@[i],
    {
        let ghost m = *self;
        let ghost start = output.0@;
        let mut bit_index: usize = 8;
        let mut data_mask: u8 = 0;
        if let Some(t_water) = self.t_water {
            let v = t_water.as_u16();
            put_field(&mut output.0, &mut bit_index, U12_BITS, v);
            data_mask = data_mask + 1u8;
        }
        if let Some(t_inside) = self.t_inside {
            put_field(&mut output.0, &mut bit_index, U16_BITS, t_inside);
            data_mask = data_mask + 2u8;
        }
        if let Some(rh_inside) = self.rh_inside {
            put_field(&mut output.0, &mut bit_index, U16_BITS, rh_inside);
            data_mask = data_mask + 4u8;
        }
        if let Some(v_supply) = self.v_supply {
            let v = v_supply.as_u16();
            put_field(&mut output.0, &mut bit_index, U12_BITS, v);
            data_mask = data_mask + 8u8;
        }
        let ghost fields = output.0@;
        assert(data_mask == m.presence_mask());
        output.0[0] = data_mask;
        proof {
            let out = output.0@;
            assert(bit_index == 8 + m.payload_bits());
            assert forall|i: int| 8 <= i < 64 implies bit_at(out, i) == bit_at(fields, i) by {
                assert(i / 8 != 0);
            }
            assert(m.fields_in(out));
            lemma_presence_mask_bits(m);
            let r = m.encoded_len() as int;
            assert(8 * r >= 8 + m.payload_bits());
            assert forall|k: int| r <= k < MAX_MSG_LEN implies out[k] == start[k] by {
                lemma_bits_eq_byte(out, start, k);
            }
        }
        (bit_index + 4) / 8
    }

    /// Decodes a measurement from `data`.
    ///
    /// Fails with `MalformedInput` when `data` is empty or shorter than the
    /// fields that the mask in byte 0 announces. Bits 4 to 7 of byte 0 are
    /// ignored, and so are bytes beyond the announced fields.
    pub fn decode(data: &[u8]) -> (r: Result<MeasurementMessage, DecodeError>)
        ensures
            r is Ok <==> data@.len() >= 1 && data@.len() >= required_len(data@[0]),
            r matches Ok(m) ==> m.decoded_from(data@),
    {
        if data.len() < 1 {
            return Err(DecodeError::MalformedInput);
        }
        let data_mask = data[0];
        let has_t_water = data_mask % 2 == 1;
        let has_t_inside = (data_mask / 2) % 2 == 1;
        let has_rh_inside = (data_mask / 4) % 2 == 1;
        let has_v_supply = (data_mask / 8) % 2 == 1;
        let mut announced: usize = 0;
        if has_t_water {
            announced = announced + U12_BITS;
        }
        if has_t_inside {
            announced = announced + U16_BITS;
        }
        if has_rh_inside {
            announced = announced + U16_BITS;
        }
        if has_v_supply {
            announced = announced + U12_BITS;
        }
        assert(announced == announced_bits(data_mask));
        if data.len() < 1 + (announced + 7) / 8 {
            return Err(DecodeError::MalformedInput);
        }
        assert(8 * data@.len() >= 8 + announced);
        let mut bit_index: usize = 8;
        let mut t_water: Option<U12> = None;
        let mut t_inside: Option<u16> = None;
        let mut rh_inside: Option<u16> = None;
        let mut v_supply: Option<U12> = None;
        if has_t_water {
            let v = take_field(data, &mut bit_index, U12_BITS);
            proof {
                lemma_fits_u12(v);
            }
            t_water = Some(U12(v));
        }
        if has_t_inside {
            t_inside = Some(take_field(data, &mut bit_index, U16_BITS));
        }
        if has_rh_inside {
            rh_inside = Some(take_field(data, &mut bit_index, U16_BITS));
        }
        if has_v_supply {
            let v = take_field(data, &mut bit_index, U12_BITS);
            proof {
                lemma_fits_u12(v);
            }
            v_supply = Some(U12(v));
        }
        let m = MeasurementMessage { t_water, t_inside, rh_inside, v_supply };
        proof {
            lemma_low_nibble(data_mask);
        }
        Ok(m)
    }
}


proof fn lemma_u12_fits(v: u16)
    requires
        v <= U12_MAX,
    ensures
        fits(v, 12),
{
    assert(v <= 0xFFFu16 ==> v >> 12u16 == 0u16) by (bit_vector);
}

/// A field stands in a prefix of `bytes` as it stands in `bytes`.
proof fn lemma_holds_bits_prefix(bytes: Seq<u8>, n: int, start: int, width: nat, v: u16)
    requires
        0 <= start,
        start + width <= 8 * n,
        n <= bytes.len(),
        holds_bits(bytes, start, width, v),
    ensures
        holds_bits(bytes.subrange(0, n), start, width, v),
{
    assert forall|j: int| 0 <= j < width implies bit_at(bytes.subrange(0, n), start + j)
        == #[trigger] value_bit(v, width, j) by {
        assert(bit_at(bytes, start + j) == value_bit(v, width, j));
    }
}

/// Round trip: the first `encoded_len` bytes of a buffer that `encode` has
/// filled with `m` are accepted by `decode`, and every measurement that
/// `decode` may return from them is `m`.
pub proof fn lemma_round_trip(m: MeasurementMessage, buf: Seq<u8>)
    requires
        m.wf(),
        m.encoded_in(buf),
    ensures
        ({
            let sent = buf.subrange(0, m.encoded_len() as int);
            &&& sent.len() >= 1
            &&& sent.len() >= required_len(sent[0])
            &&& forall|d: MeasurementMessage| #[trigger] d.decoded_from(sent) ==> d == m
        }),
{
    let n = m.encoded_len() as int;
    let sent = buf.subrange(0, n);
    lemma_presence_mask_bits(m);
    assert(8 * n >= 8 + m.payload_bits());
    assert(announced_bits(sent[0]) == m.payload_bits());
    if let Some(v) = m.t_water {
        lemma_holds_bits_prefix(buf, n, 8, 12, v.value());
    }
    if let Some(v) = m.t_inside {
        lemma_holds_bits_prefix(buf, n, m.t_inside_offset() as int, 16, v);
    }
    if let Some(v) = m.rh_inside {
        lemma_holds_bits_prefix(buf, n, m.rh_inside_offset() as int, 16, v);
    }
    if let Some(v) = m.v_supply {
        lemma_holds_bits_prefix(buf, n, m.v_supply_offset() as int, 12, v.value());
    }
    assert forall|d: MeasurementMessage| #[trigger] d.decoded_from(sent) implies d == m by {
        lemma_presence_mask_bits(d);
        assert(m.presence_mask() % 16 == m.presence_mask());
        assert(d.presence_mask() == m.presence_mask());
        if let Some(v) = m.t_water {
            let w = d.t_water.unwrap();
            lemma_u12_fits(v.value());
            lemma_u12_fits(w.value());
            lemma_bits_determine(w.value(), v.value(), 12);
            assert(d.t_water == m.t_water);
        }
        if let Some(v) = m.t_inside {
            lemma_bits_determine(d.t_inside.unwrap(), v, 16);
        }
        if let Some(v) = m.rh_inside {
            lemma_bits_determine(d.rh_inside.unwrap(), v, 16);
        }
        if let Some(v) = m.v_supply {
            let w = d.v_supply.unwrap();
            lemma_u12_fits(v.value());
            lemma_u12_fits(w.value());
            lemma_bits_determine(w.value(), v.value(), 12);
            assert(d.v_supply == m.v_supply);
        }
    }
}

/// Encoding a measurement with a superset of the fields of another never
/// gives a shorter encoding.
pub proof fn lemma_encoded_len_monotone(a: MeasurementMessage, b: MeasurementMessage)
    requires
        a.t_water is Some ==> b.t_water is Some,
        a.t_inside is Some ==> b.t_inside is Some,
        a.rh_inside is Some ==> b.rh_inside is Some,
        a.v_supply is Some ==> b.v_supply is Some,
    ensures
        a.encoded_len() <= b.encoded_len(),
{
    assert(a.payload_bits() <= b.payload_bits());
    assert((a.payload_bits() + 7) / 8 <= (b.payload_bits() + 7) / 8) by (nonlinear_arith)
        requires
            a.payload_bits() <= b.payload_bits(),
    ;
}

/// An encoding takes between one and `MAX_MSG_LEN` bytes, and exactly one
/// where no field is present.
pub proof fn lemma_encoded_len_bounds(m: MeasurementMessage)
    ensures
        1 <= m.encoded_len() <= MAX_MSG_LEN,
        (m.t_water is None && m.t_inside is None && m.rh_inside is None && m.v_supply is None)
            ==> m.encoded_len() == 1,
{
}

} // verus!
