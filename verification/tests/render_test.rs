use nektar::cli::{serialize, Action, Format, Stage};
use nektar::error::{CliError, ErrorValue};
use nektar::metastore::Response;
use nektar::render::{error_document, settle};

#[test]
fn unavailable_metastore_message() {
    let e = CliError::MetastoreUnavailble("host.com:9083".to_string());
    assert_eq!(e.message(), "Could not connect to metastore at host.com:9083");
    assert_eq!(e.value(), ErrorValue::Text("Could not connect to metastore at host.com:9083".to_string()));
}

#[test]
fn thrift_error_message_is_transparent() {
    let e = CliError::ThriftError("Connection refused".to_string());
    assert_eq!(e.message(), "Connection refused");
    assert_eq!(e.value(), ErrorValue::Message("Connection refused".to_string()));
}

#[test]
fn serde_error_messages() {
    let j = CliError::JsonSerdeError("key must be a string".to_string());
    let y = CliError::YamlSerdeError("bad yaml".to_string());
    assert_eq!(j.message(), "Could not serialize to json");
    assert_eq!(y.message(), "Could not serialize to json");
    assert_eq!(j.value(), ErrorValue::Text("key must be a string".to_string()));
    assert_eq!(y.value(), ErrorValue::Text("bad yaml".to_string()));
}

#[test]
fn json_error_documents() {
    let e = CliError::MetastoreUnavailble("h:1".to_string());
    assert_eq!(
        error_document(Format::Json, &e),
        Ok(r#"{"error":"Could not connect to metastore at h:1"}"#.to_string())
    );
    let e = CliError::ThriftError("say \"hi\"".to_string());
    assert_eq!(
        error_document(Format::Json, &e),
        Ok(r#"{"error":{"message":"say \"hi\""}}"#.to_string())
    );
    let e = CliError::JsonSerdeError("oops".to_string());
    assert_eq!(error_document(Format::Json, &e), Ok(r#"{"error":"oops"}"#.to_string()));
}

#[test]
fn json_error_documents_escape_control_characters() {
    let e = CliError::JsonSerdeError("a\nb\u{1}c\\".to_string());
    assert_eq!(
        error_document(Format::Json, &e),
        Ok(r#"{"error":"a\nb\u0001c\\"}"#.to_string())
    );
}

#[test]
fn json_error_documents_parse_back_to_the_error() {
    let e = CliError::ThriftError("tab\there \"quoted\"".to_string());
    let document = error_document(Format::Json, &e).unwrap();
    let value: serde_json::Value = serde_json::from_str(&document).unwrap();
    let expected: serde_json::Value = serde_json::from_str(r#"{"error":{"message":"tab\there \"quoted\""}}"#).unwrap();
    assert_eq!(value, expected);
    assert_eq!(value["error"]["message"], serde_json::Value::String("tab\there \"quoted\"".to_string()));
}

#[test]
fn yaml_error_documents() {
    let e = CliError::MetastoreUnavailble("h:1".to_string());
    assert_eq!(
        error_document(Format::Yaml, &e),
        Ok("error: Could not connect to metastore at h:1\n".to_string())
    );
    let e = CliError::ThriftError("boom".to_string());
    assert_eq!(error_document(Format::Yaml, &e), Ok("error:\n  message: boom\n".to_string()));
    let e = CliError::YamlSerdeError("oops".to_string());
    assert_eq!(error_document(Format::Yaml, &e), Ok("error: oops\n".to_string()));
}

#[test]
fn settle_keeps_documents_and_names_failures() {
    assert_eq!(settle(Format::Json, Ok("[]".to_string())), Ok("[]".to_string()));
    assert_eq!(
        settle(Format::Json, Err("m".to_string())),
        Err(CliError::JsonSerdeError("m".to_string()))
    );
    assert_eq!(
        settle(Format::Yaml, Err("m".to_string())),
        Err(CliError::YamlSerdeError("m".to_string()))
    );
}

#[test]
fn serialize_renders_values_and_reports_errors() {
    assert_eq!(
        serialize(Format::Yaml, Ok(Response::Nothing)),
        (Stage::AwaitingRendering, Action::Render(Format::Yaml, Response::Nothing))
    );
    assert_eq!(
        serialize(Format::Json, Err(CliError::MetastoreUnavailble("x:1".to_string()))),
        (
            Stage::Done,
            Action::Finish(Ok(r#"{"error":"Could not connect to metastore at x:1"}"#.to_string()))
        )
    );
}

#[test]
fn default_format_is_json() {
    assert_eq!(Format::default(), Format::Json);
}
