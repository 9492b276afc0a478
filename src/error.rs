use vstd::prelude::*;

verus! {

/// Kinds of errors, by where they come from.
#[derive(Clone, Copy, Debug, PartialEq, Eq, Structural)]
pub enum ErrorKind {
    /// Error in configuration file
    Config,
    /// Contract error
    ContractError,
    /// Input/output error
    Io,
    /// Gas Oracle error
    GasOracle,
    /// Provider error
    GrpcError,
    /// Input/output error
    Http,
    /// Cryptographic Keys error
    KeysError,
    /// Miscellaneous error
    ///
    /// Errors that are returned with types that provide no
    /// categorical information, such as String
    MiscError,
    /// Provider error
    ProviderError,
    /// The prediction store could not be reached
    Store,
    /// A record held a field of the wrong shape
    Malformed,
}

/// An error: its kind and, where known, what caused it.
#[derive(Clone, Debug)]
pub struct Error {
    pub kind: ErrorKind,
    pub source: Option<String>,
}

impl ErrorKind {
    /// Create an error of this kind, caused by `source`.
    pub fn context(self, source: String) -> (r: Error)
        ensures
            r.kind == self,
            r.source == Some(source),
    {
        Error { kind: self, source: Some(source) }
    }

    /// The short description of this kind.
    pub fn description(&self) -> (r: &'static str)
        ensures
            r@ == kind_description(*self),
    {
        match self {
            ErrorKind::Config => "config error",
            ErrorKind::ContractError => "contract error",
            ErrorKind::Io => "I/O error",
            ErrorKind::GasOracle => "gas error",
            ErrorKind::GrpcError => "grpc error",
            ErrorKind::Http => "http error",
            ErrorKind::KeysError => "key related error",
            ErrorKind::MiscError => "allocation error",
            ErrorKind::ProviderError => "provider error",
            ErrorKind::Store => "store error",
            ErrorKind::Malformed => "malformed data",
        }
    }
}

/// What `ErrorKind::description` says of each kind.
pub open spec fn kind_description(k: ErrorKind) -> Seq<char> {
    match k {
        ErrorKind::Config => "config error"@,
        ErrorKind::ContractError => "contract error"@,
        ErrorKind::Io => "I/O error"@,
        ErrorKind::GasOracle => "gas error"@,
        ErrorKind::GrpcError => "grpc error"@,
        ErrorKind::Http => "http error"@,
        ErrorKind::KeysError => "key related error"@,
        ErrorKind::MiscError => "allocation error"@,
        ErrorKind::ProviderError => "provider error"@,
        ErrorKind::Store => "store error"@,
        ErrorKind::Malformed => "malformed data"@,
    }
}

impl Error {
    /// An error of the given kind with no cause attached.
    pub fn from_kind(kind: ErrorKind) -> (r: Error)
        ensures
            r.kind == kind,
            r.source.is_none(),
    {
        Error { kind, source: None }
    }

    /// A miscellaneous error carrying a message.
    pub fn from_message(msg: String) -> (r: Error)
        ensures
            r.kind == ErrorKind::MiscError,
            r.source == Some(msg),
    {
        ErrorKind::MiscError.context(msg)
    }

    pub fn kind(&self) -> (r: ErrorKind)
        ensures
            r == self.kind,
    {
        self.kind
    }
}

} // verus!
