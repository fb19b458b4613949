//! The failures that the binding layer reports.

use vstd::prelude::*;
use vstd::string::StringExecFns;
use crate::library::{Export, NativeLibrary};
use crate::render::{hex6, push_hex6, to_unsigned_bits, unsigned_bits};

verus! {

/// Why a string or a flags word that came from the native side could not be
/// decoded.
#[derive(Clone, Copy, Debug, PartialEq, Eq, Structural)]
pub enum DecodeFailure {
    /// The native side handed over a null pointer.
    Null,
    /// No terminating zero within the scanned length.
    Unterminated,
    /// The bytes of a narrow string are not UTF-8.
    Malformed,
    /// A flags word with a bit that names no capability.
    UnknownFlags,
}

/// A failure of the binding layer.
#[derive(Clone, Debug, PartialEq, Eq)]
pub enum Error {
    /// A native library, or one it depends on, could not be loaded.
    LoadError { library: NativeLibrary, reason: String },
    /// A native library lacks an entry point.
    SymbolError { export: Export, reason: String },
    /// The native side returned data that cannot be decoded.
    DecodeError(DecodeFailure),
    /// The native call ran and reported a status other than success.
    NativeStatusError { code: i32 },
    /// The distro name is registered, and the operation needs it not to be.
    AlreadyRegistered { name: String },
    /// The distro name is not registered, and the operation needs it to be.
    NotRegistered { name: String },
}

/// An `Error` with its texts as sequences of characters.
pub enum ErrorView {
    LoadError { library: NativeLibrary, reason: Seq<char> },
    SymbolError { export: Export, reason: Seq<char> },
    DecodeError(DecodeFailure),
    NativeStatusError { code: i32 },
    AlreadyRegistered { name: Seq<char> },
    NotRegistered { name: Seq<char> },
}

impl View for Error {
    type V = ErrorView;

    open spec fn view(&self) -> ErrorView {
        match self {
            Error::LoadError { library, reason } => ErrorView::LoadError {
                library: *library,
                reason: reason@,
            },
            Error::SymbolError { export, reason } => ErrorView::SymbolError {
                export: *export,
                reason: reason@,
            },
            Error::DecodeError(failure) => ErrorView::DecodeError(*failure),
            Error::NativeStatusError { code } => ErrorView::NativeStatusError { code: *code },
            Error::AlreadyRegistered { name } => ErrorView::AlreadyRegistered { name: name@ },
            Error::NotRegistered { name } => ErrorView::NotRegistered { name: name@ },
        }
    }
}

impl DecodeFailure {
    /// The failure in words.
    pub open spec fn text(self) -> Seq<char> {
        match self {
            DecodeFailure::Null => "p is a null"@,
            DecodeFailure::Unterminated => "p does not end with a null"@,
            DecodeFailure::Malformed => "p is not UTF-8"@,
            DecodeFailure::UnknownFlags => "flags hold an unknown bit"@,
        }
    }

    /// The failure in words.
    pub fn message(self) -> (text: &'static str)
        ensures
            text@ == self.text(),
    {
        match self {
            DecodeFailure::Null => "p is a null",
            DecodeFailure::Unterminated => "p does not end with a null",
            DecodeFailure::Malformed => "p is not UTF-8",
            DecodeFailure::UnknownFlags => "flags hold an unknown bit",
        }
    }
}

impl ErrorView {
    /// The error in words. A native status is written in hexadecimal, as the
    /// 32 bits that the native side returned.
    pub open spec fn text(self) -> Seq<char> {
        match self {
            ErrorView::LoadError { reason, .. } => "Wslapi::new "@ + reason,
            ErrorView::SymbolError { export, reason } => "Wslapi::"@ + export.operation_text()
                + " "@ + reason,
            ErrorView::DecodeError(failure) => failure.text(),
            ErrorView::NativeStatusError { code } => "HRESULT == 0x"@ + hex6(
                unsigned_bits(code) as nat,
            ),
            ErrorView::AlreadyRegistered { name } => "\""@ + name
                + "\" is an already registered WSL distro name"@,
            ErrorView::NotRegistered { name } => "\""@ + name
                + "\" is not a registered WSL distro name"@,
        }
    }
}

impl Error {
    /// The error in words, for the user to read.
    pub fn to_string(&self) -> (text: String)
        ensures
            text@ == self@.text(),
    {
        match self {
            Error::LoadError { reason, .. } => {
                let mut text = String::from_str("Wslapi::new ");
                text.append(reason.as_str());
                text
            },
            Error::SymbolError { export, reason } => {
                let mut text = String::from_str("Wslapi::");
                text.append(export.operation());
                text.append(" ");
                text.append(reason.as_str());
                text
            },
            Error::DecodeError(failure) => String::from_str(failure.message()),
            Error::NativeStatusError { code } => {
                let mut text = String::from_str("HRESULT == 0x");
                push_hex6(&mut text, to_unsigned_bits(*code));
                text
            },
            Error::AlreadyRegistered { name } => {
                let mut text = String::from_str("\"");
                text.append(name.as_str());
                text.append("\" is an already registered WSL distro name");
                text
            },
            Error::NotRegistered { name } => {
                let mut text = String::from_str("\"");
                text.append(name.as_str());
                text.append("\" is not a registered WSL distro name");
                text
            },
        }
    }
}

} // verus!
