//! Typed records over a device's sub-range of the process image.
//!
//! A record is the fixed-width, padding-free picture of the bytes that one
//! device exchanges each cycle. Fields are stored in declaration order and in
//! little-endian byte order, the order of the wire.

use vstd::prelude::*;

verus! {

/// Width in bytes of an [`OutputsRecord`] in the process image.
pub const OUTPUTS_SIZE: usize = 6;

/// Width in bytes of an [`InputsRecord`] in the process image.
pub const INPUTS_SIZE: usize = 6;

/// What the controller sends to the drive each cycle.
#[derive(Clone, Copy, Debug, PartialEq, Eq, Structural)]
pub struct OutputsRecord {
    pub target_velocity: i32,
    pub control_word: u16,
}

/// What the drive reports each cycle.
#[derive(Clone, Copy, Debug, PartialEq, Eq, Structural)]
pub struct InputsRecord {
    pub position_actual_value: i32,
    pub status_word: u16,
}

/// A typed record whose width disagrees with the mapped region.
#[derive(Clone, Copy, Debug, PartialEq, Eq, Structural)]
pub struct LayoutMismatch {
    /// Width of the record in bytes.
    pub expected: usize,
    /// Length of the region it was laid over.
    pub actual: usize,
}

/// The 16-bit value whose little-endian bytes are `b0`, `b1`.
pub open spec fn le_u16(b0: u8, b1: u8) -> u16 {
    (b0 as int + 256 * (b1 as int)) as u16
}

/// The 32-bit value whose little-endian bytes are `b0` .. `b3`.
pub open spec fn le_u32(b0: u8, b1: u8, b2: u8, b3: u8) -> u32 {
    (b0 as int + 256 * (b1 as int) + 65536 * (b2 as int) + 16777216 * (b3 as int)) as u32
}

/// Byte `k` (0 is the least significant) of a 32-bit value.
pub open spec fn byte_of(x: u32, k: nat) -> u8 {
    if k == 0 {
        (x as int % 256) as u8
    } else if k == 1 {
        ((x as int / 256) % 256) as u8
    } else if k == 2 {
        ((x as int / 65536) % 256) as u8
    } else {
        ((x as int / 16777216) % 256) as u8
    }
}

/// The two's-complement reading of a 32-bit pattern.
pub open spec fn signed_of(x: u32) -> i32 {
    if x < 0x8000_0000 {
        x as i32
    } else {
        (x as int - 0x1_0000_0000) as i32
    }
}

/// The 32-bit pattern of a signed value in two's complement.
pub open spec fn pattern_of(v: i32) -> u32 {
    if v >= 0 {
        v as u32
    } else {
        (v as int + 0x1_0000_0000) as u32
    }
}

/// The six bytes of a record made of a signed 32-bit field followed by a
/// 16-bit field.
pub open spec fn record_bytes(first: i32, second: u16) -> Seq<u8> {
    seq![
        byte_of(pattern_of(first), 0),
        byte_of(pattern_of(first), 1),
        byte_of(pattern_of(first), 2),
        byte_of(pattern_of(first), 3),
        byte_of(second as u32, 0),
        byte_of(second as u32, 1),
    ]
}

/// The signed 32-bit field that starts a six-byte record.
pub open spec fn first_field(bytes: Seq<u8>) -> i32 {
    signed_of(le_u32(bytes[0], bytes[1], bytes[2], bytes[3]))
}

/// The 16-bit field that ends a six-byte record.
pub open spec fn second_field(bytes: Seq<u8>) -> u16 {
    le_u16(bytes[4], bytes[5])
}

impl OutputsRecord {
    /// The bytes of the record in the process image.
    pub open spec fn spec_encode(self) -> Seq<u8> {
        record_bytes(self.target_velocity, self.control_word)
    }

    /// The record that six bytes of the process image hold.
    pub open spec fn spec_decode(bytes: Seq<u8>) -> OutputsRecord {
        OutputsRecord { target_velocity: first_field(bytes), control_word: second_field(bytes) }
    }
}

impl InputsRecord {
    /// The bytes of the record in the process image.
    pub open spec fn spec_encode(self) -> Seq<u8> {
        record_bytes(self.position_actual_value, self.status_word)
    }

    /// The record that six bytes of the process image hold.
    pub open spec fn spec_decode(bytes: Seq<u8>) -> InputsRecord {
        InputsRecord { position_actual_value: first_field(bytes), status_word: second_field(bytes) }
    }
}

impl Default for OutputsRecord {
    /// The record at rest: no velocity commanded, no control bits set.
    fn default() -> (r: OutputsRecord)
        ensures
            r == (OutputsRecord { target_velocity: 0, control_word: 0 }),
    {
        OutputsRecord { target_velocity: 0, control_word: 0 }
    }
}

fn read_u16(bytes: &[u8], at: usize) -> (r: u16)
    requires
        at + 2 <= bytes.len(),
    ensures
        r == le_u16(bytes@[at as int], bytes@[at + 1]),
{
    let b0: u16 = bytes[at] as u16;
    let b1: u16 = bytes[at + 1] as u16;
    b0 + 256 * b1
}

fn read_i32(bytes: &[u8], at: usize) -> (r: i32)
    requires
        at + 4 <= bytes.len(),
    ensures
        r == signed_of(le_u32(bytes@[at as int], bytes@[at + 1], bytes@[at + 2], bytes@[at + 3])),
{
    let b0: u32 = bytes[at] as u32;
    let b1: u32 = bytes[at + 1] as u32;
    let b2: u32 = bytes[at + 2] as u32;
    let b3: u32 = bytes[at + 3] as u32;
    let x: u32 = b0 + 256 * b1 + 65536 * b2 + 16777216 * b3;
    if x < 0x8000_0000 {
        x as i32
    } else {
        (x as i64 - 0x1_0000_0000) as i32
    }
}

/// Checks that a region of `actual` bytes can hold a record of `expected`
/// bytes: the two must be equal.
pub fn check_width(expected: usize, actual: usize) -> (r: Result<(), LayoutMismatch>)
    ensures
        r is Ok <==> expected == actual,
        r is Err ==> r == Err::<(), LayoutMismatch>(LayoutMismatch { expected, actual }),
{
    if expected == actual {
        Ok(())
    } else {
        Err(LayoutMismatch { expected, actual })
    }
}

/// Reads the inputs record that a device's input range holds.
///
/// The range must be exactly as wide as the record.
pub fn as_inputs(range: &[u8]) -> (r: InputsRecord)
    requires
        range.len() == INPUTS_SIZE,
    ensures
        r == InputsRecord::spec_decode(range@),
{
    InputsRecord { position_actual_value: read_i32(range, 0), status_word: read_u16(range, 4) }
}

/// Reads the outputs record that a device's output range holds.
///
/// The range must be exactly as wide as the record.
pub fn as_outputs(range: &[u8]) -> (r: OutputsRecord)
    requires
        range.len() == OUTPUTS_SIZE,
    ensures
        r == OutputsRecord::spec_decode(range@),
{
    OutputsRecord { target_velocity: read_i32(range, 0), control_word: read_u16(range, 4) }
}

/// Reads an inputs record from a region of any length, refusing a region
/// whose length is not the record's width.
pub fn try_as_inputs(range: &[u8]) -> (r: Result<InputsRecord, LayoutMismatch>)
    ensures
        range.len() == INPUTS_SIZE ==> r == Ok::<InputsRecord, LayoutMismatch>(
            InputsRecord::spec_decode(range@),
        ),
        range.len() != INPUTS_SIZE ==> r == Err::<InputsRecord, LayoutMismatch>(
            LayoutMismatch { expected: INPUTS_SIZE, actual: range.len() },
        ),
{
    if range.len() == INPUTS_SIZE {
        Ok(as_inputs(range))
    } else {
        Err(LayoutMismatch { expected: INPUTS_SIZE, actual: range.len() })
    }
}

/// Reads an outputs record from a region of any length, refusing a region
/// whose length is not the record's width.
pub fn try_as_outputs(range: &[u8]) -> (r: Result<OutputsRecord, LayoutMismatch>)
    ensures
        range.len() == OUTPUTS_SIZE ==> r == Ok::<OutputsRecord, LayoutMismatch>(
            OutputsRecord::spec_decode(range@),
        ),
        range.len() != OUTPUTS_SIZE ==> r == Err::<OutputsRecord, LayoutMismatch>(
            LayoutMismatch { expected: OUTPUTS_SIZE, actual: range.len() },
        ),
{
    if range.len() == OUTPUTS_SIZE {
        Ok(as_outputs(range))
    } else {
        Err(LayoutMismatch { expected: OUTPUTS_SIZE, actual: range.len() })
    }
}

/// Reads the inputs record that starts at byte `at` of a process image.
pub fn inputs_at(image: &[u8], at: usize) -> (r: InputsRecord)
    requires
        at + INPUTS_SIZE <= image.len(),
    ensures
        r == InputsRecord::spec_decode(image@.subrange(at as int, at + INPUTS_SIZE)),
{
    InputsRecord { position_actual_value: read_i32(image, at), status_word: read_u16(image, at + 4) }
}

/// Reads the outputs record that starts at byte `at` of a process image.
pub fn outputs_at(image: &[u8], at: usize) -> (r: OutputsRecord)
    requires
        at + OUTPUTS_SIZE <= image.len(),
    ensures
        r == OutputsRecord::spec_decode(image@.subrange(at as int, at + OUTPUTS_SIZE)),
{
    OutputsRecord { target_velocity: read_i32(image, at), control_word: read_u16(image, at + 4) }
}

fn record_to_bytes(first: i32, second: u16) -> (r: Vec<u8>)
    ensures
        r@ == record_bytes(first, second),
{
    let x: u32 = if first >= 0 {
        first as u32
    } else {
        (first as i64 + 0x1_0000_0000) as u32
    };
    let y: u32 = second as u32;
    let mut out: Vec<u8> = Vec::new();
    out.push((x % 256) as u8);
    out.push(((x / 256) % 256) as u8);
    out.push(((x / 65536) % 256) as u8);
    out.push(((x / 16777216) % 256) as u8);
    out.push((y % 256) as u8);
    out.push(((y / 256) % 256) as u8);
    assert(out@ =~= record_bytes(first, second));
    out
}

impl OutputsRecord {
    /// The six bytes that stand for this record in the process image.
    pub fn encode(&self) -> (r: Vec<u8>)
        ensures
            r@ == self.spec_encode(),
            r@.len() == OUTPUTS_SIZE,
    {
        record_to_bytes(self.target_velocity, self.control_word)
    }
}

impl InputsRecord {
    /// The six bytes that stand for this record in the process image.
    pub fn encode(&self) -> (r: Vec<u8>)
        ensures
            r@ == self.spec_encode(),
            r@.len() == INPUTS_SIZE,
    {
        record_to_bytes(self.position_actual_value, self.status_word)
    }
}

/// Reading back the bytes of a record gives the record: both fields survive
/// the passage through the process image, whatever their values.
pub proof fn lemma_fields_round_trip(first: i32, second: u16)
    ensures
        record_bytes(first, second).len() == 6,
        first_field(record_bytes(first, second)) == first,
        second_field(record_bytes(first, second)) == second,
{
}

/// Writing back the fields read from six bytes gives the same six bytes: no
/// bit of a mapped region is lost or invented by the typed view.
pub proof fn lemma_bytes_round_trip(bytes: Seq<u8>)
    requires
        bytes.len() == 6,
    ensures
        record_bytes(first_field(bytes), second_field(bytes)) == bytes,
{
    let x = le_u32(bytes[0], bytes[1], bytes[2], bytes[3]);
    lemma_split_u32(bytes[0], bytes[1], bytes[2], bytes[3]);
    lemma_split_u16(bytes[4], bytes[5]);
    assert(pattern_of(signed_of(x)) == x);
    assert(record_bytes(first_field(bytes), second_field(bytes)) =~= bytes);
}

proof fn lemma_split_u32(b0: u8, b1: u8, b2: u8, b3: u8)
    ensures
        byte_of(le_u32(b0, b1, b2, b3), 0) == b0,
        byte_of(le_u32(b0, b1, b2, b3), 1) == b1,
        byte_of(le_u32(b0, b1, b2, b3), 2) == b2,
        byte_of(le_u32(b0, b1, b2, b3), 3) == b3,
{
    let x: int = b0 as int + 256 * (b1 as int) + 65536 * (b2 as int) + 16777216 * (b3 as int);
    assert(le_u32(b0, b1, b2, b3) as int == x);
    assert(x % 256 == b0 as int);
    assert(x / 256 == b1 as int + 256 * (b2 as int) + 65536 * (b3 as int));
    assert(x / 65536 == b2 as int + 256 * (b3 as int));
    assert(x / 16777216 == b3 as int);
}

proof fn lemma_split_u16(b0: u8, b1: u8)
    ensures
        byte_of(le_u16(b0, b1) as u32, 0) == b0,
        byte_of(le_u16(b0, b1) as u32, 1) == b1,
{
    let x: int = b0 as int + 256 * (b1 as int);
    assert(le_u16(b0, b1) as int == x);
    assert(x % 256 == b0 as int);
    assert(x / 256 == b1 as int);
}

/// An outputs record is recovered unchanged from its encoding.
pub proof fn lemma_outputs_round_trip(record: OutputsRecord)
    ensures
        OutputsRecord::spec_decode(record.spec_encode()) == record,
{
    lemma_fields_round_trip(record.target_velocity, record.control_word);
}

/// An inputs record is recovered unchanged from its encoding.
pub proof fn lemma_inputs_round_trip(record: InputsRecord)
    ensures
        InputsRecord::spec_decode(record.spec_encode()) == record,
{
    lemma_fields_round_trip(record.position_actual_value, record.status_word);
}

} // verus!
