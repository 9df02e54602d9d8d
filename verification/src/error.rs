//! The errors of the library and the messages they give.
//!
//! Every error type has a view with texts as `Seq<char>`; contracts speak of the
//! views. A message is a function of the view, written out in `message` of the view
//! type and produced by `message` of the error type.

use vstd::prelude::*;
use vstd::string::StringExecFns;
use crate::csv_source::csv_error_text;
use crate::number::{decimal, to_decimal};

verus! {

/// What is wrong with one cell of a row.
#[derive(Debug, PartialEq, Eq)]
pub enum FieldErrorKind {
    ParseError(String),
    RequiredFieldEmpty(String),
    InvalidFieldName(String),
    InvalidLabel(String),
    InvalidTypeId(String),
    InvalidInputType(String),
    MissingOptions(String),
}

/// A rejected row: its index among the data rows, from zero, and the reason.
#[derive(Debug, PartialEq, Eq)]
pub struct FieldError {
    pub row: usize,
    pub error: FieldErrorKind,
}

/// What is wrong with the configuration.
#[derive(Debug, PartialEq, Eq)]
pub enum ConfigErrorKind {
    MissingEnvFile,
    MissingEnvVar(String),
    InvalidUrl(String),
    EmptyEnvVar(String),
    InvalidUrlFormat(String),
    JsonError(String),
}

/// Why no token could be had.
#[derive(Debug, PartialEq, Eq)]
pub enum AuthErrorKind {
    TokenFetchFailed(String),
    InvalidTokenResponse(String),
    TokenExpired,
    Unauthorized(String),
    InvalidCredentials,
    NetworkError(String),
}

/// Which file operation failed.
#[derive(Debug, PartialEq, Eq)]
pub enum IOErrorKind {
    CreateDir(String),
    ReadDir(String),
    ReadFile(String),
    WriteFile(String),
    Metadata(String),
}

/// Why a field was not created: `FieldCreationFailed` holds the field's label and
/// what the endpoint answered.
#[derive(Debug, PartialEq, Eq)]
pub enum ApiErrorKind {
    FieldCreationFailed(String, String),
    InvalidResponse(String),
    NetworkError(String),
}

/// Any error of the library. `CsvError` holds the words of the `csv` crate's error.
#[derive(Debug, PartialEq, Eq)]
pub enum CustomError {
    CsvError(String),
    MissingColumn(String),
    FieldError(FieldError),
    ConfigError(ConfigErrorKind),
    AuthError(AuthErrorKind),
    IOError(IOErrorKind),
    ApiError(ApiErrorKind),
}

/// Results of the library.
pub type Result<T> = std::result::Result<T, CustomError>;

/// The views of the error types: the same variants, with texts as `Seq<char>`.
pub enum FieldErrorKindView {
    ParseError(Seq<char>),
    RequiredFieldEmpty(Seq<char>),
    InvalidFieldName(Seq<char>),
    InvalidLabel(Seq<char>),
    InvalidTypeId(Seq<char>),
    InvalidInputType(Seq<char>),
    MissingOptions(Seq<char>),
}

pub struct FieldErrorView {
    pub row: nat,
    pub error: FieldErrorKindView,
}

pub enum ConfigErrorKindView {
    MissingEnvFile,
    MissingEnvVar(Seq<char>),
    InvalidUrl(Seq<char>),
    EmptyEnvVar(Seq<char>),
    InvalidUrlFormat(Seq<char>),
    JsonError(Seq<char>),
}

pub enum AuthErrorKindView {
    TokenFetchFailed(Seq<char>),
    InvalidTokenResponse(Seq<char>),
    TokenExpired,
    Unauthorized(Seq<char>),
    InvalidCredentials,
    NetworkError(Seq<char>),
}

pub enum IOErrorKindView {
    CreateDir(Seq<char>),
    ReadDir(Seq<char>),
    ReadFile(Seq<char>),
    WriteFile(Seq<char>),
    Metadata(Seq<char>),
}

pub enum ApiErrorKindView {
    FieldCreationFailed(Seq<char>, Seq<char>),
    InvalidResponse(Seq<char>),
    NetworkError(Seq<char>),
}

pub enum CustomErrorView {
    CsvError(Seq<char>),
    MissingColumn(Seq<char>),
    FieldError(FieldErrorView),
    ConfigError(ConfigErrorKindView),
    AuthError(AuthErrorKindView),
    IOError(IOErrorKindView),
    ApiError(ApiErrorKindView),
}

impl View for FieldErrorKind {
    type V = FieldErrorKindView;

    open spec fn view(&self) -> FieldErrorKindView {
        match self {
            FieldErrorKind::ParseError(s) => FieldErrorKindView::ParseError(s@),
            FieldErrorKind::RequiredFieldEmpty(s) => FieldErrorKindView::RequiredFieldEmpty(s@),
            FieldErrorKind::InvalidFieldName(s) => FieldErrorKindView::InvalidFieldName(s@),
            FieldErrorKind::InvalidLabel(s) => FieldErrorKindView::InvalidLabel(s@),
            FieldErrorKind::InvalidTypeId(s) => FieldErrorKindView::InvalidTypeId(s@),
            FieldErrorKind::InvalidInputType(s) => FieldErrorKindView::InvalidInputType(s@),
            FieldErrorKind::MissingOptions(s) => FieldErrorKindView::MissingOptions(s@),
        }
    }
}

impl View for FieldError {
    type V = FieldErrorView;

    open spec fn view(&self) -> FieldErrorView {
        FieldErrorView { row: self.row as nat, error: self.error@ }
    }
}

impl View for ConfigErrorKind {
    type V = ConfigErrorKindView;

    open spec fn view(&self) -> ConfigErrorKindView {
        match self {
            ConfigErrorKind::MissingEnvFile => ConfigErrorKindView::MissingEnvFile,
            ConfigErrorKind::MissingEnvVar(s) => ConfigErrorKindView::MissingEnvVar(s@),
            ConfigErrorKind::InvalidUrl(s) => ConfigErrorKindView::InvalidUrl(s@),
            ConfigErrorKind::EmptyEnvVar(s) => ConfigErrorKindView::EmptyEnvVar(s@),
            ConfigErrorKind::InvalidUrlFormat(s) => ConfigErrorKindView::InvalidUrlFormat(s@),
            ConfigErrorKind::JsonError(s) => ConfigErrorKindView::JsonError(s@),
        }
    }
}

impl View for AuthErrorKind {
    type V = AuthErrorKindView;

    open spec fn view(&self) -> AuthErrorKindView {
        match self {
            AuthErrorKind::TokenFetchFailed(s) => AuthErrorKindView::TokenFetchFailed(s@),
            AuthErrorKind::InvalidTokenResponse(s) => AuthErrorKindView::InvalidTokenResponse(s@),
            AuthErrorKind::TokenExpired => AuthErrorKindView::TokenExpired,
            AuthErrorKind::Unauthorized(s) => AuthErrorKindView::Unauthorized(s@),
            AuthErrorKind::InvalidCredentials => AuthErrorKindView::InvalidCredentials,
            AuthErrorKind::NetworkError(s) => AuthErrorKindView::NetworkError(s@),
        }
    }
}

impl View for IOErrorKind {
    type V = IOErrorKindView;

    open spec fn view(&self) -> IOErrorKindView {
        match self {
            IOErrorKind::CreateDir(s) => IOErrorKindView::CreateDir(s@),
            IOErrorKind::ReadDir(s) => IOErrorKindView::ReadDir(s@),
            IOErrorKind::ReadFile(s) => IOErrorKindView::ReadFile(s@),
            IOErrorKind::WriteFile(s) => IOErrorKindView::WriteFile(s@),
            IOErrorKind::Metadata(s) => IOErrorKindView::Metadata(s@),
        }
    }
}

impl View for ApiErrorKind {
    type V = ApiErrorKindView;

    open spec fn view(&self) -> ApiErrorKindView {
        match self {
            ApiErrorKind::FieldCreationFailed(label, answer) => ApiErrorKindView::FieldCreationFailed(
                label@,
                answer@,
            ),
            ApiErrorKind::InvalidResponse(s) => ApiErrorKindView::InvalidResponse(s@),
            ApiErrorKind::NetworkError(s) => ApiErrorKindView::NetworkError(s@),
        }
    }
}

impl View for CustomError {
    type V = CustomErrorView;

    open spec fn view(&self) -> CustomErrorView {
        match self {
            CustomError::CsvError(s) => CustomErrorView::CsvError(s@),
            CustomError::MissingColumn(s) => CustomErrorView::MissingColumn(s@),
            CustomError::FieldError(e) => CustomErrorView::FieldError(e@),
            CustomError::ConfigError(e) => CustomErrorView::ConfigError(e@),
            CustomError::AuthError(e) => CustomErrorView::AuthError(e@),
            CustomError::IOError(e) => CustomErrorView::IOError(e@),
            CustomError::ApiError(e) => CustomErrorView::ApiError(e@),
        }
    }
}

impl FieldErrorKindView {
    /// What the reader of a report is told about the cell.
    pub open spec fn message(self) -> Seq<char> {
        match self {
            FieldErrorKindView::ParseError(field) => "Failed to parse '"@ + field
                + "'. Please ensure the value is in the correct format"@,
            FieldErrorKindView::RequiredFieldEmpty(field) => "The '"@ + field
                + "' field cannot be empty. Please provide a value"@,
            FieldErrorKindView::InvalidFieldName(name) => "Field name '"@ + name
                + "' is invalid. Names must contain only letters and numbers"@,
            FieldErrorKindView::InvalidLabel(label) => "Invalid label: "@ + label
                + ". Labels must contain visible characters"@,
            FieldErrorKindView::InvalidTypeId(type_id) => "Invalid type_id: "@ + type_id
                + ".\n\nValid values are:\n0 (Text)\n1 (Memo)\n2 (Single Selection\n3 (Multiple Selection)\n4 (Date)\n5 (Time)\n6 (Checkbox)\n10 (Rich)"@,
            FieldErrorKindView::InvalidInputType(text) => text,
            FieldErrorKindView::MissingOptions(text) => text
                + ". Please provide a comma-separated list of options"@,
        }
    }
}

impl FieldErrorView {
    /// The row as a reader of the file counts it: from one, below the header row.
    pub open spec fn line(self) -> nat {
        self.row + 2
    }

    /// The message: where the row is, then what is wrong with it.
    pub open spec fn message(self) -> Seq<char> {
        "Error in row "@ + decimal(self.line()) + ": "@ + self.error.message()
    }
}

impl ConfigErrorKindView {
    pub open spec fn message(self) -> Seq<char> {
        match self {
            ConfigErrorKindView::MissingEnvFile => "Failed to load .env file. Please ensure it exists in the project root"@,
            ConfigErrorKindView::MissingEnvVar(var) => "Required environment variable '"@ + var
                + "' is must present"@,
            ConfigErrorKindView::InvalidUrl(url) => "Invalid URL format: "@ + url,
            ConfigErrorKindView::EmptyEnvVar(field) => "Configuration value for '"@ + field
                + "' must have value"@,
            ConfigErrorKindView::InvalidUrlFormat(url) => "Invalid URL format for '"@ + url
                + "'. URL must be a valid HTTPS URL"@,
            ConfigErrorKindView::JsonError(text) => "JSON serialization error: "@ + text,
        }
    }
}

impl AuthErrorKindView {
    pub open spec fn message(self) -> Seq<char> {
        match self {
            AuthErrorKindView::TokenFetchFailed(text) => "Failed to fetch authentication token: "@
                + text,
            AuthErrorKindView::InvalidTokenResponse(text) => "Invalid token response from server: "@
                + text,
            AuthErrorKindView::TokenExpired => "Authentication token has expired"@,
            AuthErrorKindView::Unauthorized(text) => "Unauthorized: "@ + text,
            AuthErrorKindView::InvalidCredentials => "Invalid client credentials"@,
            AuthErrorKindView::NetworkError(text) => "Network error during authentication: "@
                + text,
        }
    }

    /// Whether the error ends the run: the credentials themselves are refused, so no
    /// further attempt can succeed.
    pub open spec fn is_fatal(self) -> bool {
        self is InvalidCredentials
    }
}

impl IOErrorKindView {
    pub open spec fn message(self) -> Seq<char> {
        match self {
            IOErrorKindView::CreateDir(text) => "Failed to create directory: "@ + text,
            IOErrorKindView::ReadDir(text) => "Failed to read directory: "@ + text,
            IOErrorKindView::ReadFile(text) => "Failed to read file: "@ + text,
            IOErrorKindView::WriteFile(text) => "Failed to write file: "@ + text,
            IOErrorKindView::Metadata(text) => "Failed to get metadata: "@ + text,
        }
    }
}

impl ApiErrorKindView {
    pub open spec fn message(self) -> Seq<char> {
        match self {
            ApiErrorKindView::FieldCreationFailed(label, answer) => "Failed to create field '"@
                + label + "': "@ + answer,
            ApiErrorKindView::InvalidResponse(text) => "Invalid API response: "@ + text,
            ApiErrorKindView::NetworkError(text) => "Network error: "@ + text,
        }
    }
}

impl CustomErrorView {
    /// What the reader of a report is told.
    pub open spec fn message(self) -> Seq<char> {
        match self {
            CustomErrorView::CsvError(text) => "CSV error: "@ + text,
            CustomErrorView::MissingColumn(column) => "Required column '"@ + column
                + "' is missing from the CSV file. Please check your column headers"@,
            CustomErrorView::FieldError(e) => e.message(),
            CustomErrorView::ConfigError(e) => e.message(),
            CustomErrorView::AuthError(e) => e.message(),
            CustomErrorView::IOError(e) => e.message(),
            CustomErrorView::ApiError(e) => e.message(),
        }
    }

    /// The error with the words of a CSV error left out, which no contract knows.
    pub open spec fn without_csv_text(self) -> CustomErrorView {
        match self {
            CustomErrorView::CsvError(_) => CustomErrorView::CsvError(Seq::empty()),
            other => other,
        }
    }
}

/// `a` and `b` one behind the other.
fn concat2(a: &str, b: &str) -> (r: String)
    ensures
        r@ == a@ + b@,
{
    let mut r = String::from_str(a);
    r.append(b);
    r
}

/// `a`, `b` and `c` one behind the other.
fn concat3(a: &str, b: &str, c: &str) -> (r: String)
    ensures
        r@ == a@ + b@ + c@,
{
    let mut r = String::from_str(a);
    r.append(b);
    r.append(c);
    r
}

impl FieldErrorKind {
    /// The message for the reader of a report.
    pub fn message(&self) -> (r: String)
        ensures
            r@ == self@.message(),
    {
        match self {
            FieldErrorKind::ParseError(field) => concat3(
                "Failed to parse '",
                field.as_str(),
                "'. Please ensure the value is in the correct format",
            ),
            FieldErrorKind::RequiredFieldEmpty(field) => concat3(
                "The '",
                field.as_str(),
                "' field cannot be empty. Please provide a value",
            ),
            FieldErrorKind::InvalidFieldName(name) => concat3(
                "Field name '",
                name.as_str(),
                "' is invalid. Names must contain only letters and numbers",
            ),
            FieldErrorKind::InvalidLabel(label) => concat3(
                "Invalid label: ",
                label.as_str(),
                ". Labels must contain visible characters",
            ),
            FieldErrorKind::InvalidTypeId(type_id) => concat3(
                "Invalid type_id: ",
                type_id.as_str(),
                ".\n\nValid values are:\n0 (Text)\n1 (Memo)\n2 (Single Selection\n3 (Multiple Selection)\n4 (Date)\n5 (Time)\n6 (Checkbox)\n10 (Rich)",
            ),
            FieldErrorKind::InvalidInputType(text) => text.clone(),
            FieldErrorKind::MissingOptions(text) => {
                let mut r = text.clone();
                r.append(". Please provide a comma-separated list of options");
                r
            },
        }
    }
}

impl FieldError {
    /// The message for the reader of a report: the row, counted from one below the
    /// header row, then what is wrong with it.
    pub fn message(&self) -> (r: String)
        ensures
            r@ == self@.message(),
    {
        let line = to_decimal(self.row as u128 + 2);
        let reason = self.error.message();
        let mut r = concat3("Error in row ", line.as_str(), ": ");
        r.append(reason.as_str());
        r
    }
}

impl ConfigErrorKind {
    /// The message for the reader of a report.
    pub fn message(&self) -> (r: String)
        ensures
            r@ == self@.message(),
    {
        match self {
            ConfigErrorKind::MissingEnvFile => String::from_str(
                "Failed to load .env file. Please ensure it exists in the project root",
            ),
            ConfigErrorKind::MissingEnvVar(var) => concat3(
                "Required environment variable '",
                var.as_str(),
                "' is must present",
            ),
            ConfigErrorKind::InvalidUrl(url) => concat2("Invalid URL format: ", url.as_str()),
            ConfigErrorKind::EmptyEnvVar(field) => concat3(
                "Configuration value for '",
                field.as_str(),
                "' must have value",
            ),
            ConfigErrorKind::InvalidUrlFormat(url) => concat3(
                "Invalid URL format for '",
                url.as_str(),
                "'. URL must be a valid HTTPS URL",
            ),
            ConfigErrorKind::JsonError(text) => concat2(
                "JSON serialization error: ",
                text.as_str(),
            ),
        }
    }
}

impl AuthErrorKind {
    /// The message for the reader of a report.
    pub fn message(&self) -> (r: String)
        ensures
            r@ == self@.message(),
    {
        match self {
            AuthErrorKind::TokenFetchFailed(text) => concat2(
                "Failed to fetch authentication token: ",
                text.as_str(),
            ),
            AuthErrorKind::InvalidTokenResponse(text) => concat2(
                "Invalid token response from server: ",
                text.as_str(),
            ),
            AuthErrorKind::TokenExpired => String::from_str("Authentication token has expired"),
            AuthErrorKind::Unauthorized(text) => concat2("Unauthorized: ", text.as_str()),
            AuthErrorKind::InvalidCredentials => String::from_str("Invalid client credentials"),
            AuthErrorKind::NetworkError(text) => concat2(
                "Network error during authentication: ",
                text.as_str(),
            ),
        }
    }

    /// Whether the error ends the run: wrong credentials stay wrong.
    pub fn is_fatal(&self) -> (r: bool)
        ensures
            r == self@.is_fatal(),
    {
        match self {
            AuthErrorKind::InvalidCredentials => true,
            _ => false,
        }
    }
}

impl IOErrorKind {
    /// The message for the reader of a report.
    pub fn message(&self) -> (r: String)
        ensures
            r@ == self@.message(),
    {
        match self {
            IOErrorKind::CreateDir(text) => concat2("Failed to create directory: ", text.as_str()),
            IOErrorKind::ReadDir(text) => concat2("Failed to read directory: ", text.as_str()),
            IOErrorKind::ReadFile(text) => concat2("Failed to read file: ", text.as_str()),
            IOErrorKind::WriteFile(text) => concat2("Failed to write file: ", text.as_str()),
            IOErrorKind::Metadata(text) => concat2("Failed to get metadata: ", text.as_str()),
        }
    }
}

impl ApiErrorKind {
    /// The message for the reader of a report.
    pub fn message(&self) -> (r: String)
        ensures
            r@ == self@.message(),
    {
        match self {
            ApiErrorKind::FieldCreationFailed(label, answer) => {
                let mut r = concat3("Failed to create field '", label.as_str(), "': ");
                r.append(answer.as_str());
                r
            },
            ApiErrorKind::InvalidResponse(text) => concat2("Invalid API response: ", text.as_str()),
            ApiErrorKind::NetworkError(text) => concat2("Network error: ", text.as_str()),
        }
    }
}

impl CustomError {
    /// The message for the reader of a report.
    pub fn message(&self) -> (r: String)
        ensures
            r@ == self@.message(),
    {
        match self {
            CustomError::CsvError(text) => concat2("CSV error: ", text.as_str()),
            CustomError::MissingColumn(column) => concat3(
                "Required column '",
                column.as_str(),
                "' is missing from the CSV file. Please check your column headers",
            ),
            CustomError::FieldError(e) => e.message(),
            CustomError::ConfigError(e) => e.message(),
            CustomError::AuthError(e) => e.message(),
            CustomError::IOError(e) => e.message(),
            CustomError::ApiError(e) => e.message(),
        }
    }

    /// Whether the error ends the run whatever else is left to do.
    pub fn is_fatal(&self) -> (r: bool)
        ensures
            r == (self@ matches CustomErrorView::AuthError(e) && e.is_fatal()),
    {
        match self {
            CustomError::AuthError(e) => e.is_fatal(),
            _ => false,
        }
    }
}

impl CustomError {
    /// The error for data that the `csv` crate could not read, in that crate's words.
    pub fn from_csv(error: &csv::Error) -> (e: CustomError)
        ensures
            e@ is CsvError,
    {
        CustomError::CsvError(csv_error_text(error))
    }
}

} // verus!
