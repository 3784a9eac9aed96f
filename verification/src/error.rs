//! The errors of the library.
use vstd::prelude::*;

verus! {

/// Everything that can go wrong while running or talking to the database.
#[derive(Debug, Clone, PartialEq, Eq)]
pub enum SednaError {
    /// An operating-system I/O error, by its message.
    Io(String),
    ConnectionFailed(String),
    QueryFailed(String),
    TransactionFailed(String),
    ServerStartupFailed(String),
    ServerShutdownFailed(String),
    BinaryExtractionFailed(String),
    DatabaseCreationFailed(String),
    ConfigError(String),
    /// A text handed to the C driver held a NUL byte at `nul_position`.
    InvalidCString { nul_position: usize, bytes: Vec<u8> },
    /// Bytes were not UTF-8: the valid prefix and the length of the bad sequence.
    InvalidUtf8 { valid_up_to: usize, error_len: Option<usize> },
    SednaInternal(String),
    NoMoreItems,
    ResultEnd,
}

/// The mathematical value of a `SednaError`: its variant with its texts as
/// character sequences.
pub enum SednaErrorView {
    Io(Seq<char>),
    ConnectionFailed(Seq<char>),
    QueryFailed(Seq<char>),
    TransactionFailed(Seq<char>),
    ServerStartupFailed(Seq<char>),
    ServerShutdownFailed(Seq<char>),
    BinaryExtractionFailed(Seq<char>),
    DatabaseCreationFailed(Seq<char>),
    ConfigError(Seq<char>),
    InvalidCString { nul_position: nat, bytes: Seq<u8> },
    InvalidUtf8 { valid_up_to: nat, error_len: Option<nat> },
    SednaInternal(Seq<char>),
    NoMoreItems,
    ResultEnd,
}

impl View for SednaError {
    type V = SednaErrorView;

    open spec fn view(&self) -> SednaErrorView {
        match self {
            SednaError::Io(m) => SednaErrorView::Io(m@),
            SednaError::ConnectionFailed(m) => SednaErrorView::ConnectionFailed(m@),
            SednaError::QueryFailed(m) => SednaErrorView::QueryFailed(m@),
            SednaError::TransactionFailed(m) => SednaErrorView::TransactionFailed(m@),
            SednaError::ServerStartupFailed(m) => SednaErrorView::ServerStartupFailed(m@),
            SednaError::ServerShutdownFailed(m) => SednaErrorView::ServerShutdownFailed(m@),
            SednaError::BinaryExtractionFailed(m) => SednaErrorView::BinaryExtractionFailed(m@),
            SednaError::DatabaseCreationFailed(m) => SednaErrorView::DatabaseCreationFailed(m@),
            SednaError::ConfigError(m) => SednaErrorView::ConfigError(m@),
            SednaError::InvalidCString { nul_position, bytes } => SednaErrorView::InvalidCString {
                nul_position: *nul_position as nat,
                bytes: bytes@,
            },
            SednaError::InvalidUtf8 { valid_up_to, error_len } => SednaErrorView::InvalidUtf8 {
                valid_up_to: *valid_up_to as nat,
                error_len: match error_len {
                    Some(n) => Some(*n as nat),
                    None => None,
                },
            },
            SednaError::SednaInternal(m) => SednaErrorView::SednaInternal(m@),
            SednaError::NoMoreItems => SednaErrorView::NoMoreItems,
            SednaError::ResultEnd => SednaErrorView::ResultEnd,
        }
    }
}

/// The result of the library's fallible operations.
pub type Result<T> = core::result::Result<T, SednaError>;

} // verus!
