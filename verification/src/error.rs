//! The ways in which an operation on a device fails.

use vstd::prelude::*;

use crate::text::{decimal_text, u32_text};

verus! {

/// Why an operation on a device failed.
#[derive(Debug)]
pub enum SoundError {
    /// A device was asked for, and the connection could not be set up, for the given reason.
    NotAvailable(String),
    /// A request was made, and the connection could not be set up, for the given reason.
    ConnectionFailed(String),
    /// The device has not been looked up yet.
    InfoNotLoaded,
    /// No device was found. `available` names those that could have been asked for.
    DeviceNotFound { retries: u32, available: Vec<String> },
}

/// The model of an [`SoundError`].
pub enum SoundErrorView {
    NotAvailable(Seq<char>),
    ConnectionFailed(Seq<char>),
    InfoNotLoaded,
    DeviceNotFound { retries: u32, available: Seq<Seq<char>> },
}

/// The model of a list of texts.
pub open spec fn texts_view(texts: Seq<String>) -> Seq<Seq<char>> {
    texts.map_values(|text: String| text@)
}

impl View for SoundError {
    type V = SoundErrorView;

    open spec fn view(&self) -> SoundErrorView {
        match self {
            SoundError::NotAvailable(reason) => SoundErrorView::NotAvailable(reason@),
            SoundError::ConnectionFailed(reason) => SoundErrorView::ConnectionFailed(reason@),
            SoundError::InfoNotLoaded => SoundErrorView::InfoNotLoaded,
            SoundError::DeviceNotFound { retries, available } => SoundErrorView::DeviceNotFound {
                retries: *retries,
                available: texts_view(available@),
            },
        }
    }
}

/// A list of texts as the `Debug` format of `Vec<String>` writes it.
pub uninterp spec fn debug_list(texts: Seq<Seq<char>>) -> Seq<char>;

/// Formats a `Vec<String>` with `{:?}`. What is written depends on the texts alone and goes by
/// the name [`debug_list`].
#[verifier::external_body]
fn format_list(texts: &Vec<String>) -> (text: String)
    ensures
        text@ == debug_list(texts_view(texts@)),
{
    format!("{:?}", texts)
}

impl SoundErrorView {
    /// The message that a user sees.
    pub open spec fn message(self) -> Seq<char> {
        match self {
            SoundErrorView::NotAvailable(reason) => "PipeWire not available: "@ + reason,
            SoundErrorView::ConnectionFailed(reason) => "pipewire connection failed with error: "@
                + reason,
            SoundErrorView::InfoNotLoaded => "Device info not loaded"@,
            SoundErrorView::DeviceNotFound { retries, available } => not_found_message(
                retries,
                debug_list(available),
            ),
        }
    }
}

/// The message that no device was found, with the list of those that could have been.
pub open spec fn not_found_message(retries: u32, available: Seq<char>) -> Seq<char> {
    "PipeWire device not found after "@ + decimal_text(retries as nat)
        + " retries. Available devices: "@ + available
}

/// Writes the message that no device was found, once the list of devices has been written.
pub fn not_found_text(retries: u32, available: &str) -> (text: String)
    ensures
        text@ == not_found_message(retries, available@),
{
    let mut text = "PipeWire device not found after ".to_string();
    text.append(u32_text(retries).as_str());
    text.append(" retries. Available devices: ");
    text.append(available);
    text
}

impl SoundError {
    /// The message that a user sees.
    pub fn message(&self) -> (text: String)
        ensures
            text@ == self@.message(),
    {
        match self {
            SoundError::NotAvailable(reason) => {
                let mut text = "PipeWire not available: ".to_string();
                text.append(reason.as_str());
                text
            },
            SoundError::ConnectionFailed(reason) => {
                let mut text = "pipewire connection failed with error: ".to_string();
                text.append(reason.as_str());
                text
            },
            SoundError::InfoNotLoaded => "Device info not loaded".to_string(),
            SoundError::DeviceNotFound { retries, available } => not_found_text(
                *retries,
                format_list(available).as_str(),
            ),
        }
    }
}

} // verus!
