use crate::decimal::{append_decimal, decimal};
use vstd::prelude::*;

verus! {

/// Why a download attempt did not run to its end. None of these is retried.
#[derive(Clone, Debug, PartialEq, Eq)]
pub enum TransferError {
    /// The URL has no last path segment to name the local file.
    Input,
    /// The transport could not reach the server.
    Connection { detail: String },
    /// The server answered with a status outside the success range.
    Protocol { status: u16 },
    /// Reading the body or writing the file failed in mid-transfer.
    Stream { detail: String },
}

impl TransferError {
    /// The text that describes the failure: the transport's or the I/O
    /// layer's own message word for word, or the library's for the two
    /// failures that it finds itself.
    pub open spec fn detail_text(self) -> Seq<char> {
        match self {
            TransferError::Input => "URL has no file name"@,
            TransferError::Connection { detail } => detail@,
            TransferError::Protocol { status } => "unexpected HTTP status "@ + decimal(status as nat),
            TransferError::Stream { detail } => detail@,
        }
    }

    /// The failure's descriptive detail.
    pub fn detail(&self) -> (text: String)
        ensures
            text@ == self.detail_text(),
    {
        match self {
            TransferError::Input => String::from_str("URL has no file name"),
            TransferError::Connection { detail } => detail.clone(),
            TransferError::Protocol { status } => {
                let mut text = String::from_str("unexpected HTTP status ");
                append_decimal(&mut text, *status as u64);
                text
            },
            TransferError::Stream { detail } => detail.clone(),
        }
    }
}

} // verus!
