//! Telemetry stream descriptions and their wire encoding.
//!
//! A stream is a named, numbered record layout: a list of typed fields.
//! Its JSON description is what a listener receives when it connects, and
//! its binary header prefixes every logged record.  Values are stored in
//! little-endian order through the [`Storable`] trait.

use vstd::prelude::*;
use vstd::bytes::{
    spec_u16_to_le_bytes, spec_u32_to_le_bytes, spec_u64_to_le_bytes, u16_to_le_bytes,
    u32_to_le_bytes, u64_to_le_bytes,
};
use vstd::string::StringExecFns;

verus! {

// ------------------------------------------------------------------
// Decimal rendering, needed by the JSON descriptions.
// ------------------------------------------------------------------

/// The decimal digit character of `d`.
pub open spec fn spec_digit_char(d: nat) -> char {
    if d == 0 {
        '0'
    } else if d == 1 {
        '1'
    } else if d == 2 {
        '2'
    } else if d == 3 {
        '3'
    } else if d == 4 {
        '4'
    } else if d == 5 {
        '5'
    } else if d == 6 {
        '6'
    } else if d == 7 {
        '7'
    } else if d == 8 {
        '8'
    } else {
        '9'
    }
}

/// The decimal digits of `n`, most significant first.
pub open spec fn spec_dec_digits(n: nat) -> Seq<char>
    decreases n,
{
    if n < 10 {
        seq![spec_digit_char(n)]
    } else {
        spec_dec_digits(n / 10).push(spec_digit_char(n % 10))
    }
}

/// The character of one decimal digit.
fn digit_str(d: u64) -> (r: &'static str)
    requires
        d < 10,
    ensures
        r@ == seq![spec_digit_char(d as nat)],
{
    proof {
        reveal_strlit("0");
        reveal_strlit("1");
        reveal_strlit("2");
        reveal_strlit("3");
        reveal_strlit("4");
        reveal_strlit("5");
        reveal_strlit("6");
        reveal_strlit("7");
        reveal_strlit("8");
        reveal_strlit("9");
    }
    if d == 0 {
        "0"
    } else if d == 1 {
        "1"
    } else if d == 2 {
        "2"
    } else if d == 3 {
        "3"
    } else if d == 4 {
        "4"
    } else if d == 5 {
        "5"
    } else if d == 6 {
        "6"
    } else if d == 7 {
        "7"
    } else if d == 8 {
        "8"
    } else {
        "9"
    }
}

/// Renders `n` in decimal.
pub fn u64_to_string(n: u64) -> (r: String)
    ensures
        r@ == spec_dec_digits(n as nat),
    decreases n,
{
    if n < 10 {
        String::from_str(digit_str(n))
    } else {
        proof {
            assert(n / 10 < n && n / 10 >= 1) by (nonlinear_arith)
                requires
                    n >= 10,
            ;
        }
        let mut s = u64_to_string(n / 10);
        s.append(digit_str(n % 10));
        proof {
            assert(s@ =~= spec_dec_digits(n as nat));
        }
        s
    }
}

// ------------------------------------------------------------------
// Storing values in little-endian order.
// ------------------------------------------------------------------

/// A value that can append its little-endian wire form to a record
/// buffer.
pub trait Storable {
    /// The value's wire bytes.
    spec fn spec_bytes(&self) -> Seq<u8>;

    /// Appends the wire bytes to `buf`.
    fn store(&self, buf: &mut Vec<u8>)
        ensures
            final(buf)@ == old(buf)@ + self.spec_bytes(),
    ;
}

impl Storable for u8 {
    open spec fn spec_bytes(&self) -> Seq<u8> {
        seq![*self]
    }

    fn store(&self, buf: &mut Vec<u8>) {
        buf.push(*self);
    }
}

impl Storable for i8 {
    open spec fn spec_bytes(&self) -> Seq<u8> {
        seq![*self as u8]
    }

    fn store(&self, buf: &mut Vec<u8>) {
        buf.push(*self as u8);
    }
}

impl Storable for u16 {
    open spec fn spec_bytes(&self) -> Seq<u8> {
        spec_u16_to_le_bytes(*self)
    }

    fn store(&self, buf: &mut Vec<u8>) {
        let mut b = u16_to_le_bytes(*self);
        buf.append(&mut b);
    }
}

impl Storable for i16 {
    open spec fn spec_bytes(&self) -> Seq<u8> {
        spec_u16_to_le_bytes(*self as u16)
    }

    fn store(&self, buf: &mut Vec<u8>) {
        let mut b = u16_to_le_bytes(*self as u16);
        buf.append(&mut b);
    }
}

impl Storable for u32 {
    open spec fn spec_bytes(&self) -> Seq<u8> {
        spec_u32_to_le_bytes(*self)
    }

    fn store(&self, buf: &mut Vec<u8>) {
        let mut b = u32_to_le_bytes(*self);
        buf.append(&mut b);
    }
}

impl Storable for i32 {
    open spec fn spec_bytes(&self) -> Seq<u8> {
        spec_u32_to_le_bytes(*self as u32)
    }

    fn store(&self, buf: &mut Vec<u8>) {
        let mut b = u32_to_le_bytes(*self as u32);
        buf.append(&mut b);
    }
}

impl Storable for u64 {
    open spec fn spec_bytes(&self) -> Seq<u8> {
        spec_u64_to_le_bytes(*self)
    }

    fn store(&self, buf: &mut Vec<u8>) {
        let mut b = u64_to_le_bytes(*self);
        buf.append(&mut b);
    }
}

impl Storable for i64 {
    open spec fn spec_bytes(&self) -> Seq<u8> {
        spec_u64_to_le_bytes(*self as u64)
    }

    fn store(&self, buf: &mut Vec<u8>) {
        let mut b = u64_to_le_bytes(*self as u64);
        buf.append(&mut b);
    }
}

impl Storable for Vec<u8> {
    open spec fn spec_bytes(&self) -> Seq<u8> {
        self@
    }

    fn store(&self, buf: &mut Vec<u8>) {
        buf.extend_from_slice(self.as_slice());
    }
}

// ------------------------------------------------------------------
// Field types.
// ------------------------------------------------------------------

/// The fixed JSON prefix every field description carries.
pub open spec fn spec_common_json(code: Seq<char>) -> Seq<char> {
    "\"type\" : \""@ + code + "\""@
}

/// The description of a numeric field: the common prefix and a
/// signedness flag.
pub open spec fn spec_signed_json(code: Seq<char>, signed: bool) -> Seq<char> {
    spec_common_json(code) + ", \"signed\" : \""@ + (if signed {
        "true"@
    } else {
        "false"@
    }) + "\""@
}

/// The description of a variable-size field: the common prefix and the
/// configured size.
pub open spec fn spec_sized_json(code: Seq<char>, size: nat) -> Seq<char> {
    spec_common_json(code) + ", \"size\" : \""@ + spec_dec_digits(size) + "\""@
}

/// A kind of field value: how wide it is on the wire and how its JSON
/// description reads.
pub trait FieldType {
    /// Wire width in bytes; zero for the variable-size kinds, whose width
    /// is configured per field.
    spec fn spec_size(&self) -> usize;

    /// The one-letter type code.
    spec fn spec_shortcode(&self) -> Seq<char>;

    /// The JSON description of a field of this type with size `size`.
    spec fn spec_json(&self, size: nat) -> Seq<char>;

    /// Wire width in bytes.
    fn size(&self) -> (r: usize)
        ensures
            r == self.spec_size(),
    ;

    /// The one-letter type code.
    fn type_shortcode(&self) -> (r: &'static str)
        ensures
            r@ == self.spec_shortcode(),
    ;

    /// The common prefix of the JSON description.
    fn common_definition_to_json(&self) -> (r: String)
        ensures
            r@ == spec_common_json(self.spec_shortcode()),
    ;

    /// The JSON description of a field of this type with size `size`.
    fn definition_to_json(&self, size: usize) -> (r: String)
        ensures
            r@ == self.spec_json(size as nat),
    ;
}

/// Renders the common JSON prefix for a type code.
fn common_json(code: &str) -> (r: String)
    ensures
        r@ == spec_common_json(code@),
{
    let mut s = String::from_str("\"type\" : \"");
    s.append(code);
    s.append("\"");
    proof {
        assert(s@ =~= spec_common_json(code@));
    }
    s
}

/// Renders a numeric field description.
fn signed_json(code: &str, signed: bool) -> (r: String)
    ensures
        r@ == spec_signed_json(code@, signed),
{
    let mut s = common_json(code);
    s.append(", \"signed\" : \"");
    if signed {
        s.append("true");
    } else {
        s.append("false");
    }
    s.append("\"");
    proof {
        assert(s@ =~= spec_signed_json(code@, signed));
    }
    s
}

/// Renders a variable-size field description.
fn sized_json(code: &str, size: usize) -> (r: String)
    ensures
        r@ == spec_sized_json(code@, size as nat),
{
    let mut s = common_json(code);
    s.append(", \"size\" : \"");
    let digits = u64_to_string(size as u64);
    s.append(digits.as_str());
    s.append("\"");
    proof {
        assert(s@ =~= spec_sized_json(code@, size as nat));
    }
    s
}

/// The closed set of field kinds a stream can carry.
#[derive(Clone, Copy, Debug, PartialEq, Eq, Structural)]
pub enum FieldKind {
    UnsignedByte,
    SignedByte,
    UnsignedWord,
    SignedWord,
    UnsignedInteger,
    SignedInteger,
    UnsignedLong,
    SignedLong,
    Float,
    Double,
    Text,
    Blob,
}

impl FieldType for FieldKind {
    open spec fn spec_size(&self) -> usize {
        match self {
            FieldKind::UnsignedByte | FieldKind::SignedByte => 1,
            FieldKind::UnsignedWord | FieldKind::SignedWord => 2,
            FieldKind::UnsignedInteger | FieldKind::SignedInteger => 4,
            FieldKind::UnsignedLong | FieldKind::SignedLong => 8,
            FieldKind::Float => 4,
            FieldKind::Double => 8,
            FieldKind::Text | FieldKind::Blob => 0,
        }
    }

    open spec fn spec_shortcode(&self) -> Seq<char> {
        match self {
            FieldKind::UnsignedByte | FieldKind::SignedByte => "b"@,
            FieldKind::UnsignedWord | FieldKind::SignedWord => "w"@,
            FieldKind::UnsignedInteger | FieldKind::SignedInteger => "i"@,
            FieldKind::UnsignedLong | FieldKind::SignedLong => "l"@,
            FieldKind::Float => "f"@,
            FieldKind::Double => "d"@,
            FieldKind::Text => "s"@,
            FieldKind::Blob => "a"@,
        }
    }

    open spec fn spec_json(&self, size: nat) -> Seq<char> {
        match self {
            FieldKind::UnsignedByte | FieldKind::UnsignedWord | FieldKind::UnsignedInteger
                | FieldKind::UnsignedLong => spec_signed_json(self.spec_shortcode(), false),
            FieldKind::SignedByte | FieldKind::SignedWord | FieldKind::SignedInteger
                | FieldKind::SignedLong => spec_signed_json(self.spec_shortcode(), true),
            FieldKind::Float | FieldKind::Double => spec_common_json(self.spec_shortcode()),
            FieldKind::Text | FieldKind::Blob => spec_sized_json(self.spec_shortcode(), size),
        }
    }

    fn size(&self) -> (r: usize) {
        match self {
            FieldKind::UnsignedByte | FieldKind::SignedByte => 1,
            FieldKind::UnsignedWord | FieldKind::SignedWord => 2,
            FieldKind::UnsignedInteger | FieldKind::SignedInteger => 4,
            FieldKind::UnsignedLong | FieldKind::SignedLong => 8,
            FieldKind::Float => 4,
            FieldKind::Double => 8,
            FieldKind::Text | FieldKind::Blob => 0,
        }
    }

    fn type_shortcode(&self) -> (r: &'static str) {
        match self {
            FieldKind::UnsignedByte | FieldKind::SignedByte => "b",
            FieldKind::UnsignedWord | FieldKind::SignedWord => "w",
            FieldKind::UnsignedInteger | FieldKind::SignedInteger => "i",
            FieldKind::UnsignedLong | FieldKind::SignedLong => "l",
            FieldKind::Float => "f",
            FieldKind::Double => "d",
            FieldKind::Text => "s",
            FieldKind::Blob => "a",
        }
    }

    fn common_definition_to_json(&self) -> (r: String) {
        common_json(self.type_shortcode())
    }

    fn definition_to_json(&self, size: usize) -> (r: String) {
        match self {
            FieldKind::UnsignedByte | FieldKind::UnsignedWord | FieldKind::UnsignedInteger
                | FieldKind::UnsignedLong => signed_json(self.type_shortcode(), false),
            FieldKind::SignedByte | FieldKind::SignedWord | FieldKind::SignedInteger
                | FieldKind::SignedLong => signed_json(self.type_shortcode(), true),
            FieldKind::Float | FieldKind::Double => common_json(self.type_shortcode()),
            FieldKind::Text | FieldKind::Blob => sized_json(self.type_shortcode(), size),
        }
    }
}

/// The unsigned-byte field type as a unit struct.
pub struct FieldTypeUnsignedByte;

impl FieldType for FieldTypeUnsignedByte {
    open spec fn spec_size(&self) -> usize {
        1
    }

    open spec fn spec_shortcode(&self) -> Seq<char> {
        "b"@
    }

    open spec fn spec_json(&self, size: nat) -> Seq<char> {
        spec_signed_json("b"@, false)
    }

    fn size(&self) -> (r: usize) {
        1
    }

    fn type_shortcode(&self) -> (r: &'static str) {
        "b"
    }

    fn common_definition_to_json(&self) -> (r: String) {
        common_json("b")
    }

    fn definition_to_json(&self, size: usize) -> (r: String) {
        signed_json("b", false)
    }
}

// ------------------------------------------------------------------
// Stream fields and stream definitions.
// ------------------------------------------------------------------

/// One field of a stream: a name, a configured size and a field type.
pub struct TelemetryStreamFieldStruct<T: FieldType> {
    pub field_name: String,
    pub field_size: usize,
    pub field_type: T,
}

/// What a stream definition asks of each of its fields.
pub trait TelemetryStreamField {
    /// The field's name.
    spec fn spec_name(&self) -> Seq<char>;

    /// The field's wire width in bytes.
    spec fn spec_size(&self) -> usize;

    /// The field's JSON description.
    spec fn spec_json(&self) -> Seq<char>;

    /// The field's name.
    fn name(&self) -> (r: &str)
        ensures
            r@ == self.spec_name(),
    ;

    /// The field's JSON description.
    fn to_json(&self) -> (r: String)
        ensures
            r@ == self.spec_json(),
    ;

    /// The field's wire width in bytes.
    fn size(&self) -> (r: usize)
        ensures
            r == self.spec_size(),
    ;
}

impl<T: FieldType> TelemetryStreamField for TelemetryStreamFieldStruct<T> {
    open spec fn spec_name(&self) -> Seq<char> {
        self.field_name@
    }

    open spec fn spec_size(&self) -> usize {
        self.field_size
    }

    open spec fn spec_json(&self) -> Seq<char> {
        self.field_type.spec_json(self.field_size as nat)
    }

    fn name(&self) -> (r: &str) {
        self.field_name.as_str()
    }

    fn to_json(&self) -> (r: String) {
        self.field_type.definition_to_json(self.field_size)
    }

    fn size(&self) -> (r: usize) {
        self.field_size
    }
}

/// The fields a stream definition holds.
pub type StreamField = TelemetryStreamFieldStruct<FieldKind>;

/// Sum of the wire widths of the fields from index `i` on.
pub open spec fn spec_total_size_from(fields: Seq<StreamField>, i: int) -> int
    decreases fields.len() - i,
{
    if i < 0 || i >= fields.len() {
        0
    } else {
        fields[i].spec_size() + spec_total_size_from(fields, i + 1)
    }
}

/// A tail sum of field widths is never negative.
pub proof fn lemma_total_size_from_nonneg(fields: Seq<StreamField>, i: int)
    ensures
        spec_total_size_from(fields, i) >= 0,
    decreases fields.len() - i,
{
    if 0 <= i < fields.len() {
        lemma_total_size_from_nonneg(fields, i + 1);
    }
}

/// The record length of a stream: its fields' widths plus the eight-byte
/// time value leading every record.
pub open spec fn spec_fixed_length(fields: Seq<StreamField>) -> int {
    spec_total_size_from(fields, 0) + 8
}

/// The binary header of a stream: a shape byte, then the stream id in
/// one or two bytes, then the record length in one, two or four bytes.
pub open spec fn spec_stream_header(stream_id: u32, fixed_length: int) -> Seq<u8> {
    seq![
        ((if stream_id < 256 {
            0int
        } else {
            1int
        }) + (if fixed_length < 256 {
            0int
        } else if fixed_length < 65536 {
            2int
        } else {
            4int
        })) as u8,
    ] + (if stream_id < 256 {
        seq![stream_id as u8]
    } else {
        spec_u16_to_le_bytes(stream_id as u16)
    }) + (if fixed_length < 256 {
        seq![fixed_length as u8]
    } else if fixed_length < 655356 {
        spec_u16_to_le_bytes(fixed_length as u16)
    } else {
        spec_u32_to_le_bytes(fixed_length as u32)
    })
}

/// The JSON of the first `k` field descriptions, comma-separated.
pub open spec fn spec_fields_json(fields: Seq<StreamField>, k: int) -> Seq<char>
    decreases k,
{
    if k <= 0 {
        Seq::empty()
    } else if k == 1 {
        spec_field_entry(fields[0])
    } else {
        spec_fields_json(fields, k - 1) + ", "@ + spec_field_entry(fields[k - 1])
    }
}

/// One field's JSON entry: its name and its description.
pub open spec fn spec_field_entry(f: StreamField) -> Seq<char> {
    "\""@ + f.spec_name() + "\" : { "@ + f.spec_json() + " }"@
}

/// The whole stream's JSON description.
pub open spec fn spec_stream_json(
    stream_id: u32,
    name: Seq<char>,
    fields: Seq<StreamField>,
) -> Seq<char> {
    "{ \"id\" : "@ + spec_dec_digits(stream_id as nat) + ", \"name\" : \""@ + name
        + "\", \"fields\" : { "@ + spec_fields_json(fields, fields.len() as int) + " } }"@
}

/// A named, numbered record layout: the stream's fields, its fixed record
/// length, and the binary header prefixing every record.
pub struct TelemetryStreamDefinition {
    pub name: String,
    pub stream_id: u32,
    pub fixed_length: usize,
    pub header: Vec<u8>,
    pub fields: Vec<StreamField>,
}

impl TelemetryStreamDefinition {
    /// Lays out a stream: sums the field widths (plus the eight-byte time
    /// value), and builds the binary header.
    pub fn new(name: &str, stream_id: u32, fields: Vec<StreamField>) -> (r:
        TelemetryStreamDefinition)
        requires
            spec_fixed_length(fields@) <= usize::MAX,
        ensures
            r.name@ == name@,
            r.stream_id == stream_id,
            r.fixed_length == spec_fixed_length(fields@),
            r.header@ == spec_stream_header(stream_id, spec_fixed_length(fields@)),
            r.fields == fields,
    {
        let mut total: usize = 0;
        let mut i: usize = 0;
        proof {
            lemma_total_size_from_nonneg(fields@, 0);
        }
        while i < fields.len()
            invariant
                i <= fields@.len(),
                total + spec_total_size_from(fields@, i as int) == spec_total_size_from(
                    fields@,
                    0,
                ),
                spec_total_size_from(fields@, 0) + 8 <= usize::MAX,
            decreases fields@.len() - i,
        {
            proof {
                lemma_total_size_from_nonneg(fields@, i as int + 1);
            }
            total = total + fields[i].size();
            i = i + 1;
        }
        let fixed_length = total + 8;

        let header_byte: u8 = (if stream_id < 256 {
            0u8
        } else {
            1u8
        }) + (if fixed_length < 256 {
            0u8
        } else if fixed_length < 65536 {
            2u8
        } else {
            4u8
        });
        let mut header: Vec<u8> = Vec::new();
        header.push(header_byte);
        if stream_id < 256 {
            header.push(stream_id as u8);
        } else {
            let mut b = u16_to_le_bytes(stream_id as u16);
            header.append(&mut b);
        }
        if fixed_length < 256 {
            header.push(fixed_length as u8);
        } else if fixed_length < 655356 {
            let mut b = u16_to_le_bytes(fixed_length as u16);
            header.append(&mut b);
        } else {
            let mut b = u32_to_le_bytes(fixed_length as u32);
            header.append(&mut b);
        }
        proof {
            assert(header@ =~= spec_stream_header(stream_id, spec_fixed_length(fields@)));
        }
        TelemetryStreamDefinition {
            name: String::from_str(name),
            stream_id,
            fixed_length,
            header,
            fields,
        }
    }

    /// The stream's name.
    pub fn name(&self) -> (r: &str)
        ensures
            r@ == self.name@,
    {
        self.name.as_str()
    }

    /// The stream's JSON description, sent to a listener on connection.
    pub fn to_json(&self) -> (r: String)
        ensures
            r@ == spec_stream_json(self.stream_id, self.name@, self.fields@),
    {
        let mut s = String::from_str("");
        proof {
            reveal_strlit("");
            assert(s@ =~= spec_fields_json(self.fields@, 0));
        }
        let mut first = true;
        let mut i: usize = 0;
        while i < self.fields.len()
            invariant
                i <= self.fields@.len(),
                first == (i == 0),
                s@ == spec_fields_json(self.fields@, i as int),
            decreases self.fields@.len() - i,
        {
            if first {
                first = false;
            } else {
                s.append(", ");
            }
            s.append("\"");
            s.append(self.fields[i].name());
            s.append("\" : { ");
            let j = self.fields[i].to_json();
            s.append(j.as_str());
            s.append(" }");
            proof {
                assert(s@ =~= spec_fields_json(self.fields@, i as int + 1));
            }
            i = i + 1;
        }
        let mut r = String::from_str("{ \"id\" : ");
        let id = u64_to_string(self.stream_id as u64);
        r.append(id.as_str());
        r.append(", \"name\" : \"");
        r.append(self.name.as_str());
        r.append("\", \"fields\" : { ");
        r.append(s.as_str());
        r.append(" } }");
        proof {
            assert(r@ =~= spec_stream_json(self.stream_id, self.name@, self.fields@));
        }
        r
    }

    /// Bytes one logged record occupies: the header and the fixed record
    /// length.
    pub fn size(&self) -> (r: usize)
        requires
            self.fixed_length + self.header@.len() <= usize::MAX,
        ensures
            r == self.fixed_length + self.header@.len(),
    {
        self.fixed_length + self.header.len()
    }

    /// Prefixes a record buffer with the stream's header.
    pub fn write_header(&self, buf: &mut Vec<u8>)
        ensures
            final(buf)@ == old(buf)@ + self.header@,
    {
        buf.extend_from_slice(self.header.as_slice());
    }

    /// The stream's fields.
    pub fn fields(&self) -> (r: &Vec<StreamField>)
        ensures
            r@ == self.fields@,
    {
        &self.fields
    }

    /// An unsigned one-byte field.
    pub fn unsigned_byte_field(name: &str) -> (r: StreamField)
        ensures
            r.field_name@ == name@,
            r.field_type == FieldKind::UnsignedByte,
            r.field_size == 1,
    {
        TelemetryStreamFieldStruct {
            field_name: String::from_str(name),
            field_type: FieldKind::UnsignedByte,
            field_size: 1,
        }
    }

    /// A signed one-byte field.
    pub fn signed_byte_field(name: &str) -> (r: StreamField)
        ensures
            r.field_name@ == name@,
            r.field_type == FieldKind::SignedByte,
            r.field_size == 1,
    {
        TelemetryStreamFieldStruct {
            field_name: String::from_str(name),
            field_type: FieldKind::SignedByte,
            field_size: 1,
        }
    }

    /// An unsigned two-byte field.
    pub fn unsigned_word_field(name: &str) -> (r: StreamField)
        ensures
            r.field_name@ == name@,
            r.field_type == FieldKind::UnsignedWord,
            r.field_size == 2,
    {
        TelemetryStreamFieldStruct {
            field_name: String::from_str(name),
            field_type: FieldKind::UnsignedWord,
            field_size: 2,
        }
    }

    /// A signed two-byte field.
    pub fn signed_word_field(name: &str) -> (r: StreamField)
        ensures
            r.field_name@ == name@,
            r.field_type == FieldKind::SignedWord,
            r.field_size == 2,
    {
        TelemetryStreamFieldStruct {
            field_name: String::from_str(name),
            field_type: FieldKind::SignedWord,
            field_size: 2,
        }
    }

    /// An unsigned four-byte field.
    pub fn unsigned_integer_field(name: &str) -> (r: StreamField)
        ensures
            r.field_name@ == name@,
            r.field_type == FieldKind::UnsignedInteger,
            r.field_size == 4,
    {
        TelemetryStreamFieldStruct {
            field_name: String::from_str(name),
            field_type: FieldKind::UnsignedInteger,
            field_size: 4,
        }
    }

    /// A signed four-byte field.
    pub fn signed_integer_field(name: &str) -> (r: StreamField)
        ensures
            r.field_name@ == name@,
            r.field_type == FieldKind::SignedInteger,
            r.field_size == 4,
    {
        TelemetryStreamFieldStruct {
            field_name: String::from_str(name),
            field_type: FieldKind::SignedInteger,
            field_size: 4,
        }
    }

    /// An unsigned eight-byte field.
    pub fn unsigned_long_field(name: &str) -> (r: StreamField)
        ensures
            r.field_name@ == name@,
            r.field_type == FieldKind::UnsignedLong,
            r.field_size == 8,
    {
        TelemetryStreamFieldStruct {
            field_name: String::from_str(name),
            field_type: FieldKind::UnsignedLong,
            field_size: 8,
        }
    }

    /// A signed eight-byte field.
    pub fn signed_long_field(name: &str) -> (r: StreamField)
        ensures
            r.field_name@ == name@,
            r.field_type == FieldKind::SignedLong,
            r.field_size == 8,
    {
        TelemetryStreamFieldStruct {
            field_name: String::from_str(name),
            field_type: FieldKind::SignedLong,
            field_size: 8,
        }
    }

    /// A four-byte floating-point field.
    pub fn float_field(name: &str) -> (r: StreamField)
        ensures
            r.field_name@ == name@,
            r.field_type == FieldKind::Float,
            r.field_size == 4,
    {
        TelemetryStreamFieldStruct {
            field_name: String::from_str(name),
            field_type: FieldKind::Float,
            field_size: 4,
        }
    }

    /// An eight-byte floating-point field.
    pub fn double_field(name: &str) -> (r: StreamField)
        ensures
            r.field_name@ == name@,
            r.field_type == FieldKind::Double,
            r.field_size == 8,
    {
        TelemetryStreamFieldStruct {
            field_name: String::from_str(name),
            field_type: FieldKind::Double,
            field_size: 8,
        }
    }

    /// A text field of the given size.
    pub fn string_field(name: &str, string_size: usize) -> (r: StreamField)
        ensures
            r.field_name@ == name@,
            r.field_type == FieldKind::Text,
            r.field_size == string_size,
    {
        TelemetryStreamFieldStruct {
            field_name: String::from_str(name),
            field_type: FieldKind::Text,
            field_size: string_size,
        }
    }

    /// A byte-array field of the given size.
    pub fn bytes_field(name: &str, bytes_size: usize) -> (r: StreamField)
        ensures
            r.field_name@ == name@,
            r.field_type == FieldKind::Blob,
            r.field_size == bytes_size,
    {
        TelemetryStreamFieldStruct {
            field_name: String::from_str(name),
            field_type: FieldKind::Blob,
            field_size: bytes_size,
        }
    }
}

} // verus!
