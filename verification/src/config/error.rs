//! What can be wrong with a configuration.

use vstd::prelude::*;

verus! {

/// Why a configuration is refused.
#[derive(Clone, Debug, PartialEq, Eq)]
pub enum ConfigError {
    /// A parameter that is not known or not well formed, and where.
    InvalidParam(String, String),
    /// A parameter and its value, which is not of the type asked for.
    ConvertValueFailed(String, String),
    /// A text and the length that it may not exceed.
    StringLengthTooLong(String, usize),
    /// A place and a parameter that it holds twice.
    FieldRepeat(String, String),
    /// A kind of thing and an identifier that two of them share.
    IdRepeat(String, String),
    /// A parameter that is missing, and of what.
    FieldIsMissing(String, String),
    /// A number, and the range that it must lie in: lower bound, whether it
    /// is included, upper bound, whether it is included.
    IllegalValue(String, u64, bool, u64, bool),
    /// A unit, the number given and the largest number allowed.
    UnitIdError(String, usize, usize),
    /// A path whose metadata cannot be read, and why.
    NoMetadata(String, String),
    /// A path that is neither a regular file nor a block device.
    UnRegularFileOrBlk(String),
    /// Anything else, in words.
    Other(String),
}

/// A `ConfigError` with its texts as sequences.
pub enum ConfigErrorView {
    InvalidParam(Seq<char>, Seq<char>),
    ConvertValueFailed(Seq<char>, Seq<char>),
    StringLengthTooLong(Seq<char>, usize),
    FieldRepeat(Seq<char>, Seq<char>),
    IdRepeat(Seq<char>, Seq<char>),
    FieldIsMissing(Seq<char>, Seq<char>),
    IllegalValue(Seq<char>, u64, bool, u64, bool),
    UnitIdError(Seq<char>, usize, usize),
    NoMetadata(Seq<char>, Seq<char>),
    UnRegularFileOrBlk(Seq<char>),
    Other(Seq<char>),
}

impl View for ConfigError {
    type V = ConfigErrorView;

    open spec fn view(&self) -> ConfigErrorView {
        match *self {
            ConfigError::InvalidParam(a, b) => ConfigErrorView::InvalidParam(a@, b@),
            ConfigError::ConvertValueFailed(a, b) => ConfigErrorView::ConvertValueFailed(a@, b@),
            ConfigError::StringLengthTooLong(a, n) => ConfigErrorView::StringLengthTooLong(a@, n),
            ConfigError::FieldRepeat(a, b) => ConfigErrorView::FieldRepeat(a@, b@),
            ConfigError::IdRepeat(a, b) => ConfigErrorView::IdRepeat(a@, b@),
            ConfigError::FieldIsMissing(a, b) => ConfigErrorView::FieldIsMissing(a@, b@),
            ConfigError::IllegalValue(a, lo, lo_in, hi, hi_in) => ConfigErrorView::IllegalValue(
                a@,
                lo,
                lo_in,
                hi,
                hi_in,
            ),
            ConfigError::UnitIdError(a, n, max) => ConfigErrorView::UnitIdError(a@, n, max),
            ConfigError::NoMetadata(a, b) => ConfigErrorView::NoMetadata(a@, b@),
            ConfigError::UnRegularFileOrBlk(a) => ConfigErrorView::UnRegularFileOrBlk(a@),
            ConfigError::Other(a) => ConfigErrorView::Other(a@),
        }
    }
}

} // verus!
