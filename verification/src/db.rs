//! The ledger of uploaded sounds, as far as the handlers deal with it: what
//! is appended, and what the recorder's answer means for the invocation.

use vstd::prelude::*;
use crate::error::{RequestError, RequestErrorView, result_view};

verus! {

/// An entry of the ledger as it is stored.
#[derive(Debug, PartialEq, Eq)]
pub struct AudioLedgerEntry {
    pub id: i64,
    pub link_or_name: String,
    pub downloaded: bool,
    pub file_path: String,
    pub uploader: u64,
}

/// An entry to append to the ledger: the name that a sound was uploaded
/// under, where its payload lies, and who uploaded it.
#[derive(Debug, PartialEq, Eq)]
pub struct NewAudioLedgerEntry {
    pub link_or_name: String,
    pub downloaded: bool,
    pub file_path: String,
    pub uploader: u64,
}

/// The mathematical value of a [`NewAudioLedgerEntry`].
pub struct NewAudioLedgerEntryView {
    pub link_or_name: Seq<char>,
    pub downloaded: bool,
    pub file_path: Seq<char>,
    pub uploader: u64,
}

impl View for NewAudioLedgerEntry {
    type V = NewAudioLedgerEntryView;

    open spec fn view(&self) -> NewAudioLedgerEntryView {
        NewAudioLedgerEntryView {
            link_or_name: self.link_or_name@,
            downloaded: self.downloaded,
            file_path: self.file_path@,
            uploader: self.uploader,
        }
    }
}

/// What the recorder said of one append.
#[derive(Clone, Copy, Debug, PartialEq, Eq)]
pub enum LedgerOutcome {
    Recorded,
    ConnectionFailed,
    InsertFailed,
}

/// What an append that ended as `outcome` means for the invocation.
pub open spec fn ledger_result(outcome: LedgerOutcome) -> Result<(), RequestErrorView> {
    match outcome {
        LedgerOutcome::Recorded => Ok(()),
        LedgerOutcome::ConnectionFailed => Err(RequestErrorView::Internal("Database connection failed"@)),
        LedgerOutcome::InsertFailed => Err(RequestErrorView::Internal("Database insert failed"@)),
    }
}

/// What an append that ended as `outcome` means for the invocation: a store
/// that cannot be reached or refuses the entry is an internal failure.
pub fn track_known_audio_in_ledger(outcome: LedgerOutcome) -> (result: Result<(), RequestError>)
    ensures
        result_view(result) == ledger_result(outcome),
{
    match outcome {
        LedgerOutcome::Recorded => Ok(()),
        LedgerOutcome::ConnectionFailed => Err(RequestError::internal("Database connection failed")),
        LedgerOutcome::InsertFailed => Err(RequestError::internal("Database insert failed")),
    }
}

/// The text that `{:?}` gives for an entry with these fields.
pub uninterp spec fn entry_debug_text(
    link_or_name: Seq<char>,
    downloaded: bool,
    file_path: Seq<char>,
    uploader: u64,
) -> Seq<char>;

/// The entry as `{:?}` prints it, through the `Debug` that is derived for
/// the type. The text depends on the fields alone; the contract names it and
/// says nothing of what it holds.
#[verifier::external_body]
pub(crate) fn debug_text(entry: &NewAudioLedgerEntry) -> (text: String)
    ensures
        text@ == entry_debug_text(
            entry@.link_or_name,
            entry@.downloaded,
            entry@.file_path,
            entry@.uploader,
        ),
{
    format!("{:?}", entry)
}

} // verus!
