//! The errors that feed acquisition, actor bridging and synchronisation report.

use vstd::prelude::*;
use vstd::string::StringExecFns;

verus! {

/// What was wrong with a document or a value that had to be parsed.
#[derive(Clone, Copy, Debug, PartialEq, Eq, Structural)]
pub enum ParseFault {
    /// The body is not a feed document at all.
    Document,
    /// The feed has no title.
    Title,
    /// A text that has to be a URL is none.
    Url,
    /// A publication or modification time lies outside the calendar.
    Timestamp,
}

/// Which part of a stored record broke the rules it was written under.
#[derive(Clone, Copy, Debug, PartialEq, Eq, Structural)]
pub enum IntegrityFault {
    /// A stored URL field is no URL.
    Url,
    /// A stored refresh time is not of the form `YYYY-MM-DD HH:MM:SS`.
    Timestamp,
}

/// An error of the engine.
///
/// `NotFound` ends an actor's cycle for want of a feed URL, `Transport` reports a
/// fetch that failed, `Parse` a document or value that could not be read,
/// `DomainVerification` an actor object from the wrong origin, `DataIntegrity` a
/// stored record that is corrupt, and `KeyGeneration` a signing key pair that
/// could not be made.
#[derive(Debug)]
pub enum AppError {
    NotFound { kind: String, name: String },
    Transport { reason: String },
    Parse(ParseFault),
    DomainVerification,
    DataIntegrity(IntegrityFault),
    KeyGeneration,
}

/// The mathematical value of an [`AppError`].
pub enum AppErrorView {
    NotFound { kind: Seq<char>, name: Seq<char> },
    Transport { reason: Seq<char> },
    Parse(ParseFault),
    DomainVerification,
    DataIntegrity(IntegrityFault),
    KeyGeneration,
}

impl View for AppError {
    type V = AppErrorView;

    open spec fn view(&self) -> AppErrorView {
        match *self {
            AppError::NotFound { kind, name } => AppErrorView::NotFound { kind: kind@, name: name@ },
            AppError::Transport { reason } => AppErrorView::Transport { reason: reason@ },
            AppError::Parse(fault) => AppErrorView::Parse(fault),
            AppError::DomainVerification => AppErrorView::DomainVerification,
            AppError::DataIntegrity(fault) => AppErrorView::DataIntegrity(fault),
            AppError::KeyGeneration => AppErrorView::KeyGeneration,
        }
    }
}

/// The words for a fault of parsing.
pub open spec fn parse_fault_text(fault: ParseFault) -> Seq<char> {
    match fault {
        ParseFault::Document => "The body is not a feed document"@,
        ParseFault::Title => "The feed has no title"@,
        ParseFault::Url => "A text that has to be a URL is none"@,
        ParseFault::Timestamp => "A time lies outside the calendar"@,
    }
}

/// The words for a fault of a stored record.
pub open spec fn integrity_fault_text(fault: IntegrityFault) -> Seq<char> {
    match fault {
        IntegrityFault::Url => "A stored URL is no URL"@,
        IntegrityFault::Timestamp => "A stored refresh time is not of the form YYYY-MM-DD HH:MM:SS"@,
    }
}

/// The words for an error.
pub open spec fn message_of(error: AppErrorView) -> Seq<char> {
    match error {
        AppErrorView::NotFound { kind, name } => "Unable to find "@ + kind + " named "@ + name,
        AppErrorView::Transport { reason } => "Unable to fetch: "@ + reason,
        AppErrorView::Parse(fault) => parse_fault_text(fault),
        AppErrorView::DomainVerification => "Domains do not match"@,
        AppErrorView::DataIntegrity(fault) => integrity_fault_text(fault),
        AppErrorView::KeyGeneration => "Unable to generate a signing key pair"@,
    }
}

impl Clone for AppError {
    fn clone(&self) -> (copy: AppError)
        ensures
            copy@ == self@,
    {
        match self {
            AppError::NotFound { kind, name } => AppError::NotFound {
                kind: kind.clone(),
                name: name.clone(),
            },
            AppError::Transport { reason } => AppError::Transport { reason: reason.clone() },
            AppError::Parse(fault) => AppError::Parse(*fault),
            AppError::DomainVerification => AppError::DomainVerification,
            AppError::DataIntegrity(fault) => AppError::DataIntegrity(*fault),
            AppError::KeyGeneration => AppError::KeyGeneration,
        }
    }
}

impl AppError {
    /// The error for a thing of the given kind that no record holds under the
    /// given name.
    pub fn not_found(kind: &str, name: &str) -> (error: AppError)
        ensures
            error@ == (AppErrorView::NotFound { kind: kind@, name: name@ }),
    {
        AppError::NotFound { kind: kind.to_owned(), name: name.to_owned() }
    }

    /// The error in words: `message_of` it.
    pub fn message(&self) -> (text: String)
        ensures
            text@ == message_of(self@),
    {
        match self {
            AppError::NotFound { kind, name } => {
                let mut text = "Unable to find ".to_owned();
                text.append(kind.as_str());
                text.append(" named ");
                text.append(name.as_str());
                text
            },
            AppError::Transport { reason } => {
                let mut text = "Unable to fetch: ".to_owned();
                text.append(reason.as_str());
                text
            },
            AppError::Parse(ParseFault::Document) => "The body is not a feed document".to_owned(),
            AppError::Parse(ParseFault::Title) => "The feed has no title".to_owned(),
            AppError::Parse(ParseFault::Url) => "A text that has to be a URL is none".to_owned(),
            AppError::Parse(ParseFault::Timestamp) => "A time lies outside the calendar".to_owned(),
            AppError::DomainVerification => "Domains do not match".to_owned(),
            AppError::DataIntegrity(IntegrityFault::Url) => "A stored URL is no URL".to_owned(),
            AppError::DataIntegrity(IntegrityFault::Timestamp) => {
                "A stored refresh time is not of the form YYYY-MM-DD HH:MM:SS".to_owned()
            },
            AppError::KeyGeneration => "Unable to generate a signing key pair".to_owned(),
        }
    }

    /// Whether the two errors are the same error.
    pub fn same(&self, other: &AppError) -> (same: bool)
        ensures
            same == (self@ == other@),
    {
        match (self, other) {
            (
                AppError::NotFound { kind: k1, name: n1 },
                AppError::NotFound { kind: k2, name: n2 },
            ) => *k1 == *k2 && *n1 == *n2,
            (AppError::Transport { reason: r1 }, AppError::Transport { reason: r2 }) => *r1 == *r2,
            (AppError::Parse(f1), AppError::Parse(f2)) => *f1 == *f2,
            (AppError::DomainVerification, AppError::DomainVerification) => true,
            (AppError::DataIntegrity(f1), AppError::DataIntegrity(f2)) => *f1 == *f2,
            (AppError::KeyGeneration, AppError::KeyGeneration) => true,
            _ => false,
        }
    }
}

} // verus!
