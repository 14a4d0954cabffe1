//! How a conversion fails.

use vstd::prelude::*;
use vstd::string::StringExecFns;

verus! {

/// The error that `serde_json` reports for a text that is not JSON. Nothing
/// is known of what it holds but its description.
#[verifier::external_type_specification]
#[verifier::external_body]
pub struct ExJsonError(serde_json::Error);

/// The description that a parse error prints.
pub uninterp spec fn parse_error_text(error: serde_json::Error) -> Seq<char>;

/// Calls `serde_json::Error`'s `Display` implementation through `to_string`,
/// which is taken to print the same description for the same error.
#[verifier::external_body]
fn describe_parse_error(error: &serde_json::Error) -> (text: String)
    ensures
        text@ == parse_error_text(*error),
{
    error.to_string()
}

/// The rule of the expected shape that a JSON tree breaks.
#[derive(Clone, Copy, Debug, PartialEq, Eq, Structural)]
pub enum Violation {
    /// A document, at the root or under `children`, is not an array.
    RootNotArray,
    /// An element of a document is not an object.
    NodeNotObject,
    /// A node has no `name`.
    MissingName,
    /// The `name` of a node is not a string.
    NameNotString,
    /// The `arguments` of a node are not an array.
    ArgumentsNotArray,
    /// The `properties` of a node are not an object.
    PropertiesNotObject,
    /// A value is neither null, a boolean, a number nor a string.
    UnsupportedValue,
    /// A `type` is neither a string nor null.
    TypeNotStringOrNull,
}

impl Violation {
    /// The message that names the broken rule.
    pub open spec fn spec_message(self) -> Seq<char> {
        match self {
            Violation::RootNotArray => "document root must be an array"@,
            Violation::NodeNotObject => "node must be an object"@,
            Violation::MissingName => "node must have a name"@,
            Violation::NameNotString => "name must be a string"@,
            Violation::ArgumentsNotArray => "arguments must be an array"@,
            Violation::PropertiesNotObject => "properties must be an object"@,
            Violation::UnsupportedValue => "unsupported value type for conversion"@,
            Violation::TypeNotStringOrNull => "type must be a string or null"@,
        }
    }

    /// The message that names the broken rule.
    pub fn message(self) -> (text: String)
        ensures
            text@ == self.spec_message(),
    {
        match self {
            Violation::RootNotArray => "document root must be an array".to_owned(),
            Violation::NodeNotObject => "node must be an object".to_owned(),
            Violation::MissingName => "node must have a name".to_owned(),
            Violation::NameNotString => "name must be a string".to_owned(),
            Violation::ArgumentsNotArray => "arguments must be an array".to_owned(),
            Violation::PropertiesNotObject => "properties must be an object".to_owned(),
            Violation::UnsupportedValue => "unsupported value type for conversion".to_owned(),
            Violation::TypeNotStringOrNull => "type must be a string or null".to_owned(),
        }
    }
}

/// Why a conversion produced no document.
#[derive(Debug)]
pub enum ConversionError {
    /// The source text is not JSON.
    JsonParse(serde_json::Error),
    /// The JSON tree does not have the shape of a document; the text names
    /// the rule that it breaks.
    InvalidStructure(String),
}

impl From<serde_json::Error> for ConversionError {
    /// A parse error is a conversion error of its own category.
    fn from(error: serde_json::Error) -> (converted: Self) {
        ConversionError::JsonParse(error)
    }
}

impl vstd::std_specs::convert::FromSpecImpl<serde_json::Error> for ConversionError {
    open spec fn obeys_from_spec() -> bool {
        true
    }

    open spec fn from_spec(error: serde_json::Error) -> Self {
        ConversionError::JsonParse(error)
    }
}

impl ConversionError {
    /// The error for a tree that breaks `violation`.
    pub fn invalid(violation: Violation) -> (error: Self)
        ensures
            error.reports(violation),
    {
        ConversionError::InvalidStructure(violation.message())
    }

    /// The error is a structural one and carries the message of `violation`.
    pub open spec fn reports(self, violation: Violation) -> bool {
        self matches ConversionError::InvalidStructure(text) && text@ == violation.spec_message()
    }

    /// The text of the one-line description of the error.
    pub open spec fn spec_describe(self) -> Seq<char> {
        match self {
            ConversionError::JsonParse(error) => "json parsing error: "@ + parse_error_text(error),
            ConversionError::InvalidStructure(text) => "invalid json structure: "@ + text@,
        }
    }

    /// Describes the error in one line: its category, then its detail.
    pub fn describe(&self) -> (text: String)
        ensures
            text@ == self.spec_describe(),
    {
        match self {
            ConversionError::JsonParse(error) => {
                let detail = describe_parse_error(error);
                let mut text = "json parsing error: ".to_owned();
                text.append(detail.as_str());
                text
            },
            ConversionError::InvalidStructure(detail) => {
                let mut text = "invalid json structure: ".to_owned();
                text.append(detail.as_str());
                text
            },
        }
    }
}

} // verus!
