//! Type expressions, record definitions, options and errors of the generator.

use vstd::prelude::*;
use vstd::string::StringExecFns;

verus! {

/// The inferred type of a single JSON value: a primitive designator, a named
/// reference to a generated record, or a collection wrapper.
#[derive(Debug)]
pub enum TypeExpr {
    /// The nullable passthrough type given to JSON `null`.
    NullableJson,
    /// The untyped passthrough element type of a non-homogeneous collection.
    UntypedJson,
    Boolean,
    Integer,
    Float,
    Str,
    /// A reference, by name, to a generated record.
    Record(String),
    Collection(Box<TypeExpr>),
}

/// Mathematical model of a `TypeExpr`.
pub enum TypeSpec {
    NullableJson,
    UntypedJson,
    Boolean,
    Integer,
    Float,
    Str,
    Record(Seq<char>),
    Collection(Box<TypeSpec>),
}

pub open spec fn view_type(t: TypeExpr) -> TypeSpec
    decreases t,
{
    match t {
        TypeExpr::NullableJson => TypeSpec::NullableJson,
        TypeExpr::UntypedJson => TypeSpec::UntypedJson,
        TypeExpr::Boolean => TypeSpec::Boolean,
        TypeExpr::Integer => TypeSpec::Integer,
        TypeExpr::Float => TypeSpec::Float,
        TypeExpr::Str => TypeSpec::Str,
        TypeExpr::Record(n) => TypeSpec::Record(n@),
        TypeExpr::Collection(inner) => TypeSpec::Collection(Box::new(view_type(*inner))),
    }
}

impl View for TypeExpr {
    type V = TypeSpec;

    open spec fn view(&self) -> TypeSpec {
        view_type(*self)
    }
}

/// The rendered form of a type expression. Two type expressions count as the
/// same type exactly when their rendered forms are equal.
pub open spec fn render_type_spec(t: TypeSpec) -> Seq<char>
    decreases t,
{
    match t {
        TypeSpec::NullableJson => "NullableJson"@,
        TypeSpec::UntypedJson => "UntypedJson"@,
        TypeSpec::Boolean => "Boolean"@,
        TypeSpec::Integer => "Integer"@,
        TypeSpec::Float => "Float"@,
        TypeSpec::Str => "String"@,
        TypeSpec::Record(n) => n,
        TypeSpec::Collection(inner) => "Collection<"@ + render_type_spec(*inner) + ">"@,
    }
}

impl TypeExpr {
    /// Renders the type expression as it appears at a use site.
    pub fn render(&self) -> (r: String)
        ensures
            r@ == render_type_spec(self@),
        decreases *self,
    {
        match self {
            TypeExpr::NullableJson => String::from_str("NullableJson"),
            TypeExpr::UntypedJson => String::from_str("UntypedJson"),
            TypeExpr::Boolean => String::from_str("Boolean"),
            TypeExpr::Integer => String::from_str("Integer"),
            TypeExpr::Float => String::from_str("Float"),
            TypeExpr::Str => String::from_str("String"),
            TypeExpr::Record(n) => n.clone(),
            TypeExpr::Collection(inner) => {
                let mut s = String::from_str("Collection<");
                let elem = (**inner).render();
                s.append(elem.as_str());
                s.append(">");
                s
            },
        }
    }
}

/// A generated record: a name derived from the path at which its source
/// object was met, one field per object key in insertion order, and whether
/// the record is annotated for serialization support.
#[derive(Debug)]
pub struct RecordDef {
    pub name: String,
    pub fields: Vec<(String, TypeExpr)>,
    pub serde: bool,
}

/// Mathematical model of a `RecordDef`.
pub struct RecordSpec {
    pub name: Seq<char>,
    pub fields: Seq<(Seq<char>, TypeSpec)>,
    pub serde: bool,
}

pub open spec fn view_field_seq(fs: Seq<(String, TypeExpr)>) -> Seq<(Seq<char>, TypeSpec)> {
    Seq::new(fs.len(), |i: int| (fs[i].0@, view_type(fs[i].1)))
}

impl View for RecordDef {
    type V = RecordSpec;

    open spec fn view(&self) -> RecordSpec {
        RecordSpec { name: self.name@, fields: view_field_seq(self.fields@), serde: self.serde }
    }
}

/// The models of a sequence of record definitions.
pub open spec fn records_view(ds: Seq<RecordDef>) -> Seq<RecordSpec> {
    Seq::new(ds.len(), |i: int| ds[i]@)
}

/// The model of an optional definition set as inference returns it.
pub open spec fn defs_view(o: Option<Vec<RecordDef>>) -> Option<Seq<RecordSpec>> {
    match o {
        Some(ds) => Some(records_view(ds@)),
        None => None,
    }
}

/// Where the sample document comes from.
#[derive(Debug)]
pub enum SampleSource<'a> {
    Url(&'a str),
    File(&'a str),
    Text(&'a str),
}

/// Configuration of one generation run.
#[derive(Debug, Clone, Copy)]
pub struct Options {
    /// When set, generated records are annotated so a generic JSON codec can
    /// serialize and deserialize them.
    pub emit_serialization_support: bool,
}

impl Default for Options {
    fn default() -> (r: Options)
        ensures
            r.emit_serialization_support,
    {
        Options { emit_serialization_support: true }
    }
}

/// Why a generation run failed.
#[derive(Debug)]
pub enum CodeGenError {
    /// Fetching a remote sample failed.
    NetworkError,
    /// Reading a local sample file failed.
    IoError,
    /// The sample text did not parse as JSON.
    ParseError(serde_json::Error),
    /// No sample source was supplied.
    MissingSource,
    /// The root value yielded no new record definition, so the requested name
    /// names no newly introduced composite type.
    ExistingType(String),
}

impl From<serde_json::Error> for CodeGenError {
    fn from(err: serde_json::Error) -> (r: CodeGenError)
        ensures
            r matches CodeGenError::ParseError(_),
    {
        CodeGenError::ParseError(err)
    }
}

impl vstd::std_specs::convert::FromSpecImpl<serde_json::Error> for CodeGenError {
    open spec fn obeys_from_spec() -> bool {
        true
    }

    open spec fn from_spec(err: serde_json::Error) -> CodeGenError {
        CodeGenError::ParseError(err)
    }
}

} // verus!
