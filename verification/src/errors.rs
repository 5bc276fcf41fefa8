//! Configuration-load errors.
//!
//! Discovery errors (missing or unknown discriminator) and schema errors (a
//! kind's own parser rejecting its fields) are kept as structured values, so
//! contracts can say exactly which error an input produces; `message` renders
//! the descriptive text that callers surface.

use vstd::prelude::*;

verus! {

/// Mathematical model of a schema error.
pub enum SchemaErrorModel {
    MissingField(Seq<char>),
    DuplicateField(Seq<char>),
    UnknownField(Seq<char>),
    WrongType(Seq<char>),
}

/// A kind's own parser rejected the kind-specific fields.
#[derive(Debug)]
pub enum SchemaError {
    /// A required field is absent.
    MissingField(String),
    /// A field appears more than once.
    DuplicateField(String),
    /// A field is not part of the kind's schema.
    UnknownField(String),
    /// A field holds a value of the wrong type.
    WrongType(String),
}

impl View for SchemaError {
    type V = SchemaErrorModel;

    open spec fn view(&self) -> SchemaErrorModel {
        match self {
            SchemaError::MissingField(f) => SchemaErrorModel::MissingField(f@),
            SchemaError::DuplicateField(f) => SchemaErrorModel::DuplicateField(f@),
            SchemaError::UnknownField(f) => SchemaErrorModel::UnknownField(f@),
            SchemaError::WrongType(f) => SchemaErrorModel::WrongType(f@),
        }
    }
}

/// Mathematical model of a configuration error.
pub enum ConfigErrorModel {
    MissingTypeField,
    UnrecognizedType(Seq<char>),
    FailedToParse(Seq<char>, SchemaErrorModel),
    EmptyKindName,
    DuplicateKind(Seq<char>),
}

/// A configuration document fragment could not be loaded, or a kind could not
/// be registered.
#[derive(Debug)]
pub enum ConfigError {
    /// The `type` discriminator is absent, empty, or not a string.
    MissingTypeField,
    /// The `type` discriminator names no registered kind.
    UnrecognizedType(String),
    /// The named kind's parser rejected the kind-specific fields.
    FailedToParse(String, SchemaError),
    /// A kind may not register under an empty name.
    EmptyKindName,
    /// A kind is already registered under this name.
    DuplicateKind(String),
}

impl View for ConfigError {
    type V = ConfigErrorModel;

    open spec fn view(&self) -> ConfigErrorModel {
        match self {
            ConfigError::MissingTypeField => ConfigErrorModel::MissingTypeField,
            ConfigError::UnrecognizedType(t) => ConfigErrorModel::UnrecognizedType(t@),
            ConfigError::FailedToParse(t, e) => ConfigErrorModel::FailedToParse(t@, e@),
            ConfigError::EmptyKindName => ConfigErrorModel::EmptyKindName,
            ConfigError::DuplicateKind(t) => ConfigErrorModel::DuplicateKind(t@),
        }
    }
}

impl SchemaErrorModel {
    /// The descriptive text of a schema error.
    pub open spec fn spec_message(self) -> Seq<char> {
        match self {
            SchemaErrorModel::MissingField(f) => "missing field `"@ + f + "`"@,
            SchemaErrorModel::DuplicateField(f) => "duplicate field `"@ + f + "`"@,
            SchemaErrorModel::UnknownField(f) => "unknown field `"@ + f + "`"@,
            SchemaErrorModel::WrongType(f) => "invalid type for field `"@ + f + "`"@,
        }
    }
}

impl SchemaError {
    /// Renders the descriptive text of the error.
    pub fn message(&self) -> (r: String)
        ensures
            r@ == self@.spec_message(),
    {
        match self {
            SchemaError::MissingField(f) => {
                let mut m = String::from_str("missing field `");
                m.append(f.as_str());
                m.append("`");
                m
            },
            SchemaError::DuplicateField(f) => {
                let mut m = String::from_str("duplicate field `");
                m.append(f.as_str());
                m.append("`");
                m
            },
            SchemaError::UnknownField(f) => {
                let mut m = String::from_str("unknown field `");
                m.append(f.as_str());
                m.append("`");
                m
            },
            SchemaError::WrongType(f) => {
                let mut m = String::from_str("invalid type for field `");
                m.append(f.as_str());
                m.append("`");
                m
            },
        }
    }
}

impl ConfigErrorModel {
    /// The descriptive text of a configuration error.
    pub open spec fn spec_message(self) -> Seq<char> {
        match self {
            ConfigErrorModel::MissingTypeField => "missing type field"@,
            ConfigErrorModel::UnrecognizedType(t) => "unrecognized type '"@ + t + "'"@,
            ConfigErrorModel::FailedToParse(t, e) => "failed to parse type `"@ + t + "`: "@
                + e.spec_message(),
            ConfigErrorModel::EmptyKindName => "kind name must not be empty"@,
            ConfigErrorModel::DuplicateKind(t) => "duplicate kind name '"@ + t + "'"@,
        }
    }
}

impl ConfigError {
    /// Renders the descriptive text of the error.
    pub fn message(&self) -> (r: String)
        ensures
            r@ == self@.spec_message(),
    {
        match self {
            ConfigError::MissingTypeField => String::from_str("missing type field"),
            ConfigError::UnrecognizedType(t) => {
                let mut m = String::from_str("unrecognized type '");
                m.append(t.as_str());
                m.append("'");
                m
            },
            ConfigError::FailedToParse(t, e) => {
                let mut m = String::from_str("failed to parse type `");
                m.append(t.as_str());
                m.append("`: ");
                let inner = e.message();
                m.append(inner.as_str());
                m
            },
            ConfigError::EmptyKindName => String::from_str("kind name must not be empty"),
            ConfigError::DuplicateKind(t) => {
                let mut m = String::from_str("duplicate kind name '");
                m.append(t.as_str());
                m.append("'");
                m
            },
        }
    }
}

} // verus!
