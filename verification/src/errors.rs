//! The failure taxonomy of the bridge and the records it stores.

use vstd::prelude::*;
use vstd::string::StringExecFns;

verus! {

/// Every failure the bridge can report falls under one of these kinds:
/// a caller-supplied path that is not valid text, a scheduler that could
/// not be constructed, a client configuration that did not build, or a
/// client that could not be constructed or bootstrapped.
#[derive(Clone, Copy, PartialEq, Eq, Structural, Debug)]
pub enum ErrorKind {
    PathEncoding,
    RuntimeInit,
    ConfigBuild,
    Bootstrap,
}

/// The fixed text with which a record of each kind begins.
pub open spec fn kind_label(kind: ErrorKind) -> Seq<char> {
    match kind {
        ErrorKind::PathEncoding => "invalid path encoding: "@,
        ErrorKind::RuntimeInit => "could not start the async runtime: "@,
        ErrorKind::ConfigBuild => "could not build the client configuration: "@,
        ErrorKind::Bootstrap => "client bootstrap failed: "@,
    }
}

/// The label of `kind`, as executable text.
pub fn kind_label_text(kind: ErrorKind) -> (label: &'static str)
    ensures
        label@ == kind_label(kind),
{
    match kind {
        ErrorKind::PathEncoding => "invalid path encoding: ",
        ErrorKind::RuntimeInit => "could not start the async runtime: ",
        ErrorKind::ConfigBuild => "could not build the client configuration: ",
        ErrorKind::Bootstrap => "client bootstrap failed: ",
    }
}

/// No kind has an empty label, so every record carries a non-empty,
/// descriptive message.
pub proof fn lemma_kind_label_nonempty(kind: ErrorKind)
    ensures
        kind_label(kind).len() > 0,
{
    reveal_strlit("invalid path encoding: ");
    reveal_strlit("could not start the async runtime: ");
    reveal_strlit("could not build the client configuration: ");
    reveal_strlit("client bootstrap failed: ");
}

/// One recorded failure: its kind and a human-readable message.
pub struct ErrorRecord {
    pub kind: ErrorKind,
    pub message: String,
}

/// The mathematical content of a record: its kind and the characters of
/// its message.
pub struct RecordView {
    pub kind: ErrorKind,
    pub message: Seq<char>,
}

impl View for ErrorRecord {
    type V = RecordView;

    open spec fn view(&self) -> RecordView {
        RecordView { kind: self.kind, message: self.message@ }
    }
}

/// What the message of a well-formed record of `kind` looks like: the
/// kind's label followed by the detail text of the underlying failure.
pub open spec fn labelled_message(kind: ErrorKind, detail: Seq<char>) -> Seq<char> {
    kind_label(kind) + detail
}

impl ErrorRecord {
    /// Builds the record for a failure of `kind` whose underlying detail
    /// text is `detail`. The message is never empty.
    pub fn new(kind: ErrorKind, detail: &str) -> (record: ErrorRecord)
        ensures
            record.kind == kind,
            record.message@ == labelled_message(kind, detail@),
            record.message@.len() > 0,
    {
        proof {
            lemma_kind_label_nonempty(kind);
        }
        let mut message = String::from_str(kind_label_text(kind));
        message.append(detail);
        ErrorRecord { kind, message }
    }
}

} // verus!
