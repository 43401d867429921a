use vstd::prelude::*;

verus! {

/// `std::io::Error`, carried through as the cause of a read or directory failure.
#[verifier::external_type_specification]
#[verifier::external_body]
pub struct ExIoError(std::io::Error);

/// `toml::de::Error`, carried through as the cause of a decoding failure.
#[verifier::external_type_specification]
#[verifier::external_body]
pub struct ExTomlError(toml::de::Error);

/// tracing_subscriber's `filter::ParseError`, carried through as the cause of
/// an invalid module rule.
#[verifier::external_type_specification]
#[verifier::external_body]
pub struct ExTargetsParseError(tracing_subscriber::filter::ParseError);

/// Every way in which building the logging pipeline can fail.
#[derive(Debug)]
pub enum DynLogAPIErr {
    /// The configuration file could not be read.
    FileReadError { filename: String, source: std::io::Error },
    /// The directory of a file sink could not be created.
    CreateLogDirError { path: String, source: std::io::Error },
    /// The configuration text is not a valid configuration.
    TomlDeserializeError(toml::de::Error),
    /// File logging was asked for, but no file sink is declared.
    InitializeFileloggerError,
    /// A module rule of a file sink is not valid.
    TargetParseError(tracing_subscriber::filter::ParseError),
}

impl DynLogAPIErr {
    /// The text that describes the error.
    pub fn message(&self) -> (r: String)
        ensures
            match self {
                DynLogAPIErr::FileReadError { filename, .. } => r@ == "Failed to read file: "@ + filename@,
                DynLogAPIErr::CreateLogDirError { path, .. } => r@ == "Failed to create directory: "@ + path@,
                DynLogAPIErr::TomlDeserializeError(_) => r@ == "Failed to deserialize toml"@,
                DynLogAPIErr::InitializeFileloggerError => r@
                    == "Error parsing file logger table, there were no entries found."@,
                DynLogAPIErr::TargetParseError(_) => r@
                    == "Error parsing targets, there may be an issue with the declared modules."@,
            },
    {
        match self {
            DynLogAPIErr::FileReadError { filename, .. } => String::from_str("Failed to read file: ").concat(
                filename.as_str(),
            ),
            DynLogAPIErr::CreateLogDirError { path, .. } => String::from_str(
                "Failed to create directory: ",
            ).concat(path.as_str()),
            DynLogAPIErr::TomlDeserializeError(_) => String::from_str("Failed to deserialize toml"),
            DynLogAPIErr::InitializeFileloggerError => String::from_str(
                "Error parsing file logger table, there were no entries found.",
            ),
            DynLogAPIErr::TargetParseError(_) => String::from_str(
                "Error parsing targets, there may be an issue with the declared modules.",
            ),
        }
    }
}

} // verus!
