//! Records as the extractor reads them: named fields whose values are tagged
//! with their shape.

use crate::decimal::{decimal, signed_text, unsigned_text};
use crate::text::string_of;
use vstd::prelude::*;
use vstd::string::StringExecFns;

verus! {

/// A value of one of the primitive types that can be rendered.
///
/// A floating-point number is carried as its decimal text (the shortest that
/// reads back to the same number): this library does no floating-point
/// arithmetic, so whoever reads the number from the record writes it out.
#[derive(Clone, Debug)]
pub enum Scalar {
    Text(String),
    BorrowedText(&'static str),
    U8(u8),
    U16(u16),
    U32(u32),
    U64(u64),
    Usize(usize),
    I8(i8),
    I16(i16),
    I32(i32),
    I64(i64),
    Isize(isize),
    Float32(String),
    Float64(String),
    Bool(bool),
}

/// What a `Scalar` stands for: a text, an integer, the decimal text of a
/// floating-point number, or a truth value.
pub enum ScalarView {
    Text(Seq<char>),
    Integer(int),
    Float(Seq<char>),
    Bool(bool),
}

impl View for Scalar {
    type V = ScalarView;

    open spec fn view(&self) -> ScalarView {
        match *self {
            Scalar::Text(t) => ScalarView::Text(t@),
            Scalar::BorrowedText(t) => ScalarView::Text(t@),
            Scalar::U8(n) => ScalarView::Integer(n as int),
            Scalar::U16(n) => ScalarView::Integer(n as int),
            Scalar::U32(n) => ScalarView::Integer(n as int),
            Scalar::U64(n) => ScalarView::Integer(n as int),
            Scalar::Usize(n) => ScalarView::Integer(n as int),
            Scalar::I8(n) => ScalarView::Integer(n as int),
            Scalar::I16(n) => ScalarView::Integer(n as int),
            Scalar::I32(n) => ScalarView::Integer(n as int),
            Scalar::I64(n) => ScalarView::Integer(n as int),
            Scalar::Isize(n) => ScalarView::Integer(n as int),
            Scalar::Float32(t) => ScalarView::Float(t@),
            Scalar::Float64(t) => ScalarView::Float(t@),
            Scalar::Bool(b) => ScalarView::Bool(b),
        }
    }
}

/// The value of one field of a record, tagged with its shape.
#[derive(Clone, Debug)]
pub enum FieldValue {
    /// A value of a recognized primitive type.
    Direct(Scalar),
    /// An optional value of a recognized primitive type, present or absent.
    Optional(Option<Scalar>),
    /// A value of any other type. Such a field is dropped without notice:
    /// a mistyped field vanishes from the statement without a trace.
    Unsupported,
}

/// What a `FieldValue` stands for.
pub enum FieldValueView {
    Direct(ScalarView),
    Optional(Option<ScalarView>),
    Unsupported,
}

impl View for FieldValue {
    type V = FieldValueView;

    open spec fn view(&self) -> FieldValueView {
        match *self {
            FieldValue::Direct(s) => FieldValueView::Direct(s@),
            FieldValue::Optional(Some(s)) => FieldValueView::Optional(Some(s@)),
            FieldValue::Optional(None) => FieldValueView::Optional(None),
            FieldValue::Unsupported => FieldValueView::Unsupported,
        }
    }
}

/// One field of a record: its name and its value.
#[derive(Clone, Debug)]
pub struct Field {
    pub name: String,
    pub value: FieldValue,
}

impl Field {
    /// The field of the given name and value.
    pub fn new(name: &str, value: FieldValue) -> (field: Field)
        ensures
            field@ == (FieldView { name: name@, value: value@ }),
    {
        Field { name: String::from_str(name), value }
    }
}

/// What a `Field` stands for.
pub struct FieldView {
    pub name: Seq<char>,
    pub value: FieldValueView,
}

impl View for Field {
    type V = FieldView;

    open spec fn view(&self) -> FieldView {
        FieldView { name: self.name@, value: self.value@ }
    }
}

/// The fields of a record, each by its view.
pub open spec fn record_view(fields: Seq<Field>) -> Seq<FieldView> {
    fields.map_values(|f: Field| f@)
}

/// The word for a truth value.
pub open spec fn bool_text(b: bool) -> Seq<char> {
    if b {
        seq!['t', 'r', 'u', 'e']
    } else {
        seq!['f', 'a', 'l', 's', 'e']
    }
}

/// The canonical text of a scalar: a text as it is, an integer in decimal,
/// a truth value as the word `true` or `false`.
pub open spec fn canonical_text(value: ScalarView) -> Seq<char> {
    match value {
        ScalarView::Text(t) => t,
        ScalarView::Integer(n) => decimal(n),
        ScalarView::Float(t) => t,
        ScalarView::Bool(b) => bool_text(b),
    }
}

/// What a field value renders to: the canonical text of the scalar it
/// holds, and nothing where it is an absent optional or of no recognized
/// type.
pub open spec fn rendering(value: FieldValueView) -> Option<Seq<char>> {
    match value {
        FieldValueView::Direct(s) => Some(canonical_text(s)),
        FieldValueView::Optional(Some(s)) => Some(canonical_text(s)),
        FieldValueView::Optional(None) => None,
        FieldValueView::Unsupported => None,
    }
}

/// Writes a scalar out as its canonical text.
pub fn render_scalar(value: &Scalar) -> (text: String)
    ensures
        text@ == canonical_text(value@),
{
    match value {
        Scalar::Text(t) => t.clone(),
        Scalar::BorrowedText(t) => String::from_str(t),
        Scalar::U8(n) => string_of(&unsigned_text(*n as u64)),
        Scalar::U16(n) => string_of(&unsigned_text(*n as u64)),
        Scalar::U32(n) => string_of(&unsigned_text(*n as u64)),
        Scalar::U64(n) => string_of(&unsigned_text(*n)),
        Scalar::Usize(n) => string_of(&unsigned_text(*n as u64)),
        Scalar::I8(n) => string_of(&signed_text(*n as i64)),
        Scalar::I16(n) => string_of(&signed_text(*n as i64)),
        Scalar::I32(n) => string_of(&signed_text(*n as i64)),
        Scalar::I64(n) => string_of(&signed_text(*n)),
        Scalar::Isize(n) => string_of(&signed_text(*n as i64)),
        Scalar::Float32(t) => t.clone(),
        Scalar::Float64(t) => t.clone(),
        Scalar::Bool(b) => {
            proof {
                reveal_strlit("true");
                reveal_strlit("false");
            }
            let word = if *b {
                String::from_str("true")
            } else {
                String::from_str("false")
            };
            assert(word@ =~= bool_text(*b));
            word
        },
    }
}

/// Renders one field value: the text of the scalar it holds, or `None`
/// where it is an absent optional or of no recognized type.
pub fn render(value: &FieldValue) -> (text: Option<String>)
    ensures
        match text {
            Some(t) => rendering(value@) == Some(t@),
            None => rendering(value@) is None,
        },
{
    match value {
        FieldValue::Direct(s) => Some(render_scalar(s)),
        FieldValue::Optional(Some(s)) => Some(render_scalar(s)),
        FieldValue::Optional(None) => None,
        FieldValue::Unsupported => None,
    }
}

} // verus!
