//! The error taxonomy of the pipeline and its diagnostic messages.

use vstd::prelude::*;
use crate::text::dec_digits;
use crate::text::u64_to_dec;

verus! {

/// A pipeline error. Page-fetch errors are fatal for the run; the others
/// are recorded per item and never abort the batch.
pub enum Error {
    /// A page or asset request answered with a non-2xx status.
    ResponseStatus { code: u16, url: String },
    /// A page body that did not decode into a page.
    Decode,
    /// An item without a usable `"source"` rendition URL or extension.
    MissingSourceAsset { item_id: String },
    /// An item whose creation timestamp carries no date part.
    InvalidTimestamp { item_id: String, raw: String },
    /// A network-level failure, as described by the transport.
    Transport { detail: String },
    /// A filesystem failure, as described by the operating system.
    Io { detail: String },
}

/// The mathematical shape of an [`Error`]: the same variants over
/// character sequences.
pub ghost enum ErrorModel {
    ResponseStatus { code: u16, url: Seq<char> },
    Decode,
    MissingSourceAsset { item_id: Seq<char> },
    InvalidTimestamp { item_id: Seq<char>, raw: Seq<char> },
    Transport { detail: Seq<char> },
    Io { detail: Seq<char> },
}

impl Error {
    /// The model of this error: every string replaced by its view.
    pub open spec fn model(self) -> ErrorModel {
        match self {
            Error::ResponseStatus { code, url } => ErrorModel::ResponseStatus {
                code,
                url: url@,
            },
            Error::Decode => ErrorModel::Decode,
            Error::MissingSourceAsset { item_id } => ErrorModel::MissingSourceAsset {
                item_id: item_id@,
            },
            Error::InvalidTimestamp { item_id, raw } => ErrorModel::InvalidTimestamp {
                item_id: item_id@,
                raw: raw@,
            },
            Error::Transport { detail } => ErrorModel::Transport { detail: detail@ },
            Error::Io { detail } => ErrorModel::Io { detail: detail@ },
        }
    }
}

/// The one-line diagnostic text of an error.
pub open spec fn message_model(e: ErrorModel) -> Seq<char> {
    match e {
        ErrorModel::ResponseStatus { code, url } => "Received response error status "@ + dec_digits(
            code as nat,
        ) + " for url "@ + url,
        ErrorModel::Decode => "Failed to decode page response"@,
        ErrorModel::MissingSourceAsset { item_id } => "No source video found"@,
        ErrorModel::InvalidTimestamp { item_id, raw } => "Invalid date "@ + raw,
        ErrorModel::Transport { detail } => detail,
        ErrorModel::Io { detail } => detail,
    }
}

impl Error {
    /// Renders the one-line diagnostic text of this error.
    pub fn message(&self) -> (m: String)
        ensures
            m@ == message_model(self.model()),
    {
        match self {
            Error::ResponseStatus { code, url } => {
                let mut m = String::from_str("Received response error status ");
                let digits = u64_to_dec(*code as u64);
                m.append(digits.as_str());
                m.append(" for url ");
                m.append(url.as_str());
                proof {
                    assert(m@ =~= message_model(self.model()));
                }
                m
            },
            Error::Decode => String::from_str("Failed to decode page response"),
            Error::MissingSourceAsset { item_id } => String::from_str("No source video found"),
            Error::InvalidTimestamp { item_id, raw } => {
                let mut m = String::from_str("Invalid date ");
                m.append(raw.as_str());
                proof {
                    assert(m@ =~= message_model(self.model()));
                }
                m
            },
            Error::Transport { detail } => detail.clone(),
            Error::Io { detail } => detail.clone(),
        }
    }
}

} // verus!
