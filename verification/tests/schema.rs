use fquack::errors::FqError;
use fquack::schema::{bind, output_schema, parameters, ColumnType};

#[test]
fn output_schema_reports_three_text_columns() {
    let schema = output_schema();
    assert_eq!(schema.len(), 3);
    assert_eq!(schema[0].name, "metadata");
    assert_eq!(schema[1].name, "sequence");
    assert_eq!(schema[2].name, "quality");
    for column in &schema {
        assert_eq!(column.ty, ColumnType::Varchar);
    }
}

#[test]
fn parameters_declare_one_text_argument() {
    let declared = parameters();
    assert_eq!(declared.len(), 1);
    assert_eq!(declared[0], ColumnType::Varchar);
}

#[test]
fn bind_missing_parameter_is_an_argument_error() {
    match bind(None) {
        Err(FqError::Argument(message)) => assert!(!message.is_empty()),
        _ => panic!("binding without a parameter must fail before any i/o"),
    }
}

#[test]
fn bind_captures_the_filename_and_the_schema() {
    let (schema, params) = bind(Some("reads.fastq".to_string())).expect("one parameter binds");
    assert_eq!(params.filename, "reads.fastq");
    assert_eq!(schema.len(), 3);
    assert_eq!(schema[0].name, "metadata");
}

#[test]
fn every_error_variant_carries_its_message() {
    let errors = vec![
        FqError::Argument("a".to_string()),
        FqError::Io("b".to_string()),
        FqError::Format("c".to_string()),
        FqError::Internal("d".to_string()),
    ];
    let expected = vec!["a", "b", "c", "d"];
    for (error, text) in errors.iter().zip(expected) {
        assert_eq!(error.message(), text);
    }
}
