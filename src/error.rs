use vstd::prelude::*;

verus! {

/// The class of a failure, as a caller of the service sees it.
#[derive(PartialEq, Eq, Structural, Clone, Copy, Debug)]
pub enum ErrorKind {
    /// The request named something that is never valid.
    InvalidArgument,
    /// The request was valid but there is nothing to answer with.
    NotFound,
}

/// A failed request, holding the offending value.
#[derive(Clone, Debug)]
pub enum ServiceError {
    /// The ticker, after upper-casing, is not one of the known symbols.
    InvalidTicker { ticker: String },
    /// A count of prices that is zero or negative.
    NonPositiveCount { count: i32 },
    /// No price was ever recorded for this ticker.
    NoHistory { ticker: String },
}

impl ServiceError {
    pub open spec fn spec_kind(&self) -> ErrorKind {
        match self {
            ServiceError::InvalidTicker { .. } => ErrorKind::InvalidArgument,
            ServiceError::NonPositiveCount { .. } => ErrorKind::InvalidArgument,
            ServiceError::NoHistory { .. } => ErrorKind::NotFound,
        }
    }

    /// Which class of failure this is.
    pub fn kind(&self) -> (k: ErrorKind)
        ensures
            k == self.spec_kind(),
    {
        match self {
            ServiceError::InvalidTicker { .. } => ErrorKind::InvalidArgument,
            ServiceError::NonPositiveCount { .. } => ErrorKind::InvalidArgument,
            ServiceError::NoHistory { .. } => ErrorKind::NotFound,
        }
    }
}

} // verus!
