use vstd::prelude::*;

use crate::errors::FqError;

verus! {

/// The type a declared column carries; the adapter only ever declares text.
#[derive(Clone, Copy, PartialEq, Eq, Structural, Debug)]
pub enum ColumnType {
    Varchar,
}

/// One column of the declared output shape.
pub struct Column {
    pub name: String,
    pub ty: ColumnType,
}

/// The scan parameter captured at bind time: the file to read. Immutable
/// once bound; whether the file exists is checked at resource
/// initialization, not here.
pub struct ScanParams {
    pub filename: String,
}

/// The fixed output shape: three text columns named metadata, sequence and
/// quality, in that order.
pub open spec fn is_output_schema(s: Seq<Column>) -> bool {
    &&& s.len() == 3
    &&& s[0].name@ == "metadata"@ && s[0].ty is Varchar
    &&& s[1].name@ == "sequence"@ && s[1].ty is Varchar
    &&& s[2].name@ == "quality"@ && s[2].ty is Varchar
}

/// Declares the output shape; it is the same for every scan.
pub fn output_schema() -> (s: Vec<Column>)
    ensures
        is_output_schema(s@),
{
    let mut s: Vec<Column> = Vec::new();
    s.push(Column { name: "metadata".to_string(), ty: ColumnType::Varchar });
    s.push(Column { name: "sequence".to_string(), ty: ColumnType::Varchar });
    s.push(Column { name: "quality".to_string(), ty: ColumnType::Varchar });
    s
}

/// The declared parameter shape: a single text argument, the file path.
pub fn parameters() -> (p: Vec<ColumnType>)
    ensures
        p@.len() == 1,
        p@[0] is Varchar,
{
    let mut p: Vec<ColumnType> = Vec::new();
    p.push(ColumnType::Varchar);
    p
}

/// Validates the scan parameter and fixes the output schema. No file system
/// work happens here: the host may bind purely for query planning. A missing
/// parameter is rejected; a present one is captured as the filename.
pub fn bind(parameter: Option<String>) -> (r: Result<(Vec<Column>, ScanParams), FqError>)
    ensures
        match r {
            Ok(bound) => {
                &&& parameter matches Some(f) && bound.1.filename@ == f@
                &&& is_output_schema(bound.0@)
            },
            Err(e) => parameter is None && e is Argument,
        },
{
    match parameter {
        Some(filename) => Ok((output_schema(), ScanParams { filename })),
        None => Err(FqError::Argument("the scan takes a single argument, the file to read".to_string())),
    }
}

} // verus!
