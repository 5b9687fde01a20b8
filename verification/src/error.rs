use vstd::prelude::*;

verus! {

/// The ways a run of the client can fail.
///
/// Each variant holds, as text, what the failing component reported.
#[derive(Debug, Clone, PartialEq, Eq)]
pub enum CliError {
    /// The metastore at the given address could not be reached.
    MetastoreUnavailble(String),
    /// A Thrift transport or protocol failure, or an exception thrown by the metastore.
    ThriftError(String),
    /// JSON serialisation failed.
    JsonSerdeError(String),
    /// YAML serialisation failed.
    YamlSerdeError(String),
}

pub enum CliErrorView {
    MetastoreUnavailble(Seq<char>),
    ThriftError(Seq<char>),
    JsonSerdeError(Seq<char>),
    YamlSerdeError(Seq<char>),
}

impl View for CliError {
    type V = CliErrorView;

    open spec fn view(&self) -> CliErrorView {
        match self {
            CliError::MetastoreUnavailble(t) => CliErrorView::MetastoreUnavailble(t@),
            CliError::ThriftError(t) => CliErrorView::ThriftError(t@),
            CliError::JsonSerdeError(t) => CliErrorView::JsonSerdeError(t@),
            CliError::YamlSerdeError(t) => CliErrorView::YamlSerdeError(t@),
        }
    }
}

/// The value that stands for an error inside an error document.
#[derive(Debug, Clone, PartialEq, Eq)]
pub enum ErrorValue {
    /// The error is written as a plain string.
    Text(String),
    /// The error is written as an object with a single `message` entry.
    Message(String),
}

/// The text printed for an unreachable metastore.
pub open spec fn unavailable_message(address: Seq<char>) -> Seq<char> {
    "Could not connect to metastore at "@ + address
}

/// The human readable text of an error, as the program prints it on failure.
pub open spec fn spec_message(e: CliError) -> Seq<char> {
    match e {
        CliError::MetastoreUnavailble(address) => unavailable_message(address@),
        CliError::ThriftError(text) => text@,
        CliError::JsonSerdeError(_) => "Could not serialize to json"@,
        CliError::YamlSerdeError(_) => "Could not serialize to json"@,
    }
}

pub enum ErrorValueView {
    Text(Seq<char>),
    Message(Seq<char>),
}

impl View for ErrorValue {
    type V = ErrorValueView;

    open spec fn view(&self) -> ErrorValueView {
        match self {
            ErrorValue::Text(t) => ErrorValueView::Text(t@),
            ErrorValue::Message(t) => ErrorValueView::Message(t@),
        }
    }
}

/// How the error `e` is written inside an error document: a connection
/// failure as its message, a Thrift failure as an object holding its text,
/// a serialisation failure as the serialiser's own text.
pub open spec fn spec_error_value(e: CliError) -> ErrorValueView {
    match e {
        CliError::MetastoreUnavailble(_) => ErrorValueView::Text(spec_message(e)),
        CliError::ThriftError(text) => ErrorValueView::Message(text@),
        CliError::JsonSerdeError(text) => ErrorValueView::Text(text@),
        CliError::YamlSerdeError(text) => ErrorValueView::Text(text@),
    }
}

impl CliError {
    /// The human readable text of the error.
    pub fn message(&self) -> (r: String)
        ensures
            r@ == spec_message(*self),
    {
        match self {
            CliError::MetastoreUnavailble(address) => {
                let prefix = String::from_str("Could not connect to metastore at ");
                prefix.concat(address.as_str())
            },
            CliError::ThriftError(text) => text.clone(),
            CliError::JsonSerdeError(_) => String::from_str("Could not serialize to json"),
            CliError::YamlSerdeError(_) => String::from_str("Could not serialize to json"),
        }
    }

    /// How the error is written inside an error document.
    pub fn value(&self) -> (r: ErrorValue)
        ensures
            r@ == spec_error_value(*self),
    {
        match self {
            CliError::MetastoreUnavailble(_) => ErrorValue::Text(self.message()),
            CliError::ThriftError(text) => ErrorValue::Message(text.clone()),
            CliError::JsonSerdeError(text) => ErrorValue::Text(text.clone()),
            CliError::YamlSerdeError(text) => ErrorValue::Text(text.clone()),
        }
    }
}

} // verus!
