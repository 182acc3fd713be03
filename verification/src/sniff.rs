use vstd::prelude::*;

verus! {

/// The inferred type of one column, chosen from the distribution of its
/// successfully parsed values over the sampled data rows.
#[derive(Debug, Clone, Copy, PartialEq, Eq, Structural)]
pub enum FieldType {
    Integer,
    Float,
    Boolean,
    Date,
    DateTime,
    Text,
}

/// The stable name under which each field type is rendered.
pub open spec fn spec_type_label(t: FieldType) -> Seq<char> {
    match t {
        FieldType::Integer => "Integer"@,
        FieldType::Float => "Float"@,
        FieldType::Boolean => "Boolean"@,
        FieldType::Date => "Date"@,
        FieldType::DateTime => "DateTime"@,
        FieldType::Text => "Text"@,
    }
}

impl FieldType {
    /// Render the type under its stable label.
    pub fn type_label(&self) -> (s: String)
        ensures
            s@ == spec_type_label(*self),
    {
        match self {
            FieldType::Integer => "Integer".to_owned(),
            FieldType::Float => "Float".to_owned(),
            FieldType::Boolean => "Boolean".to_owned(),
            FieldType::Date => "Date".to_owned(),
            FieldType::DateTime => "DateTime".to_owned(),
            FieldType::Text => "Text".to_owned(),
        }
    }
}

/// Dialect-level metadata of a delimited-text dataset.
#[derive(Debug, Clone, Copy, PartialEq, Eq, Structural)]
pub struct DialectMetadata {
    /// The field delimiter.
    pub delimiter: u8,
    /// The quoting byte, where quoting was detected.
    pub quote: Option<u8>,
    /// Whether the first non-preamble row is a header row.
    pub header_present: bool,
    /// Non-tabular rows preceding the header and data.
    pub preamble_rows: usize,
    /// Whether rows may have varying field counts.
    pub flexible: bool,
    /// Whether the sample is valid UTF-8.
    pub utf8_valid: bool,
}

/// One column of the inferred schema, in column order.
#[derive(Debug, Clone)]
pub struct Field {
    pub name: String,
    pub ftype: FieldType,
}

/// Everything the inference engine reports about a sample.
#[derive(Debug, Clone)]
pub struct Metadata {
    pub dialect: DialectMetadata,
    /// Average record length over the sampled rows, in bytes.
    pub avg_record_len: usize,
    /// The per-column schema; its length is the agreed field count.
    pub schema: Vec<Field>,
}

/// The inference engine's findings as plain values, exactly as the caller
/// that ran the engine hands them in: column types arrive as small numeric
/// codes — Unsigned 0, Signed 1, Text 2, Boolean 3, Float 4, Date 5,
/// DateTime 6, and 7 for a column of nothing but nulls.
///
/// The engine call itself stays with the caller, outside the verified
/// library, for two reasons a contract here could not hide.  Its typing
/// pass sizes a per-column array from the lines its sampler saw, yet
/// indexes it by each parsed record's own field count, so a record the
/// sampler did not see (a cut-off trailing line, a record past the sample
/// cap, a quoted newline) can make it index out of bounds: the caller must
/// catch that unwind, and no statable precondition excludes it.  And when
/// delimiters tie, the engine breaks the tie by the iteration order of a
/// randomly seeded hash map, so its outcome is not a function of the
/// sample bytes alone and no sound name can be given to its result.  The
/// library therefore takes the findings as an argument and is verified
/// for every value of them.
#[derive(Debug, Clone)]
pub struct RawSniff {
    pub delimiter: u8,
    pub quote: Option<u8>,
    pub has_header_row: bool,
    pub num_preamble_rows: usize,
    pub flexible: bool,
    pub is_utf8: bool,
    pub avg_record_len: usize,
    pub fields: Vec<String>,
    pub type_codes: Vec<u8>,
}

/// The column type that a reported code stands for: integer codes (whether
/// unsigned or signed) are `Integer`; a column of nothing but null values
/// carries no evidence and falls back to `Text`, as does any unknown code.
pub open spec fn spec_field_type_of_code(c: u8) -> FieldType {
    if c == 0 || c == 1 {
        FieldType::Integer
    } else if c == 3 {
        FieldType::Boolean
    } else if c == 4 {
        FieldType::Float
    } else if c == 5 {
        FieldType::Date
    } else if c == 6 {
        FieldType::DateTime
    } else {
        FieldType::Text
    }
}

pub fn field_type_of_code(c: u8) -> (t: FieldType)
    ensures
        t == spec_field_type_of_code(c),
{
    if c == 0 || c == 1 {
        FieldType::Integer
    } else if c == 3 {
        FieldType::Boolean
    } else if c == 4 {
        FieldType::Float
    } else if c == 5 {
        FieldType::Date
    } else if c == 6 {
        FieldType::DateTime
    } else {
        FieldType::Text
    }
}

/// How a shaped `Metadata` corresponds to the engine's raw findings: the
/// dialect facts are carried over unchanged, and the schema pairs each
/// reported type code, decoded, with the field name of the same column (an
/// empty name where the engine reported fewer names than types).
pub open spec fn spec_matches_raw(md: Metadata, raw: RawSniff) -> bool {
    &&& md.dialect.delimiter == raw.delimiter
    &&& md.dialect.quote == raw.quote
    &&& md.dialect.header_present == raw.has_header_row
    &&& md.dialect.preamble_rows == raw.num_preamble_rows
    &&& md.dialect.flexible == raw.flexible
    &&& md.dialect.utf8_valid == raw.is_utf8
    &&& md.avg_record_len == raw.avg_record_len
    &&& md.schema@.len() == raw.type_codes@.len()
    &&& forall|i: int|
        0 <= i < raw.type_codes@.len() ==> {
            &&& (#[trigger] md.schema@[i]).ftype == spec_field_type_of_code(raw.type_codes@[i])
            &&& md.schema@[i].name@ == (if i < raw.fields@.len() {
                raw.fields@[i]@
            } else {
                Seq::<char>::empty()
            })
        }
}

/// Shape the engine's raw findings into the crate's metadata model.
///
/// This is verified for every possible report, whatever the engine — or
/// anything else — hands in: the dialect facts carry over unchanged and
/// the schema pairs each decoded type with its column's name.
pub fn shape_metadata(raw: RawSniff) -> (md: Metadata)
    ensures
        spec_matches_raw(md, raw),
{
    let n: usize = raw.type_codes.len();
    let mut schema: Vec<Field> = Vec::new();
    let mut i: usize = 0;
    while i < n
        invariant
            i <= n,
            n == raw.type_codes@.len(),
            schema@.len() == i,
            forall|j: int|
                0 <= j < i ==> {
                    &&& (#[trigger] schema@[j]).ftype == spec_field_type_of_code(
                        raw.type_codes@[j],
                    )
                    &&& schema@[j].name@ == (if j < raw.fields@.len() {
                        raw.fields@[j]@
                    } else {
                        Seq::<char>::empty()
                    })
                },
        decreases n - i,
    {
        let name: String = if i < raw.fields.len() {
            raw.fields[i].clone()
        } else {
            String::new()
        };
        let ftype = field_type_of_code(raw.type_codes[i]);
        schema.push(Field { name, ftype });
        i = i + 1;
    }
    Metadata {
        dialect: DialectMetadata {
            delimiter: raw.delimiter,
            quote: raw.quote,
            header_present: raw.has_header_row,
            preamble_rows: raw.num_preamble_rows,
            flexible: raw.flexible,
            utf8_valid: raw.is_utf8,
        },
        avg_record_len: raw.avg_record_len,
        schema,
    }
}

} // verus!
