//! What the binding layer asks of the native side, and what comes back.
//!
//! A request names one native entry point with its inputs in the layout of
//! the call; a reply holds the raw result, uninterpreted. Whoever performs a
//! request keeps every buffer that it hands to the native side alive and
//! unmoved until the call returns, zeroes the out-parameters before the
//! call, and keeps the array that a configuration query returned to itself:
//! the binding layer names its elements by index only.

use vstd::prelude::*;
use crate::library::Export;

verus! {

/// One thing to ask of the native side.
#[derive(Clone, Debug, PartialEq, Eq)]
pub enum NativeRequest {
    /// Register `distro_name` from the archive `tar_gz_filename`.
    RegisterDistribution { distro_name: Vec<u16>, tar_gz_filename: Vec<u16> },
    /// Remove the registration of `distro_name`.
    UnregisterDistribution { distro_name: Vec<u16> },
    /// Query the settings of `distro_name`.
    GetDistributionConfiguration { distro_name: Vec<u16> },
    /// Set the default user and the flags of `distro_name`.
    ConfigureDistribution { distro_name: Vec<u16>, default_uid: u32, wsl_flags: u32 },
    /// Run `command` in `distro_name` and wait for it to end.
    LaunchInteractive {
        distro_name: Vec<u16>,
        command: Vec<u16>,
        use_current_working_directory: bool,
    },
    /// Ask whether `distro_name` is registered.
    IsDistributionRegistered { distro_name: Vec<u16> },
    /// Copy the narrow string behind element `index` of the array that the
    /// configuration query returned, terminator included.
    ReadVariable { index: u32 },
    /// Release element `index` of that array.
    FreeVariable { index: u32 },
    /// Release the array itself.
    FreeVariables,
}

/// A `NativeRequest` with its wide strings as sequences of code units.
pub enum NativeRequestView {
    RegisterDistribution { distro_name: Seq<u16>, tar_gz_filename: Seq<u16> },
    UnregisterDistribution { distro_name: Seq<u16> },
    GetDistributionConfiguration { distro_name: Seq<u16> },
    ConfigureDistribution { distro_name: Seq<u16>, default_uid: u32, wsl_flags: u32 },
    LaunchInteractive {
        distro_name: Seq<u16>,
        command: Seq<u16>,
        use_current_working_directory: bool,
    },
    IsDistributionRegistered { distro_name: Seq<u16> },
    ReadVariable { index: u32 },
    FreeVariable { index: u32 },
    FreeVariables,
}

impl View for NativeRequest {
    type V = NativeRequestView;

    open spec fn view(&self) -> NativeRequestView {
        match self {
            NativeRequest::RegisterDistribution { distro_name, tar_gz_filename } => {
                NativeRequestView::RegisterDistribution {
                    distro_name: distro_name@,
                    tar_gz_filename: tar_gz_filename@,
                }
            },
            NativeRequest::UnregisterDistribution { distro_name } => {
                NativeRequestView::UnregisterDistribution { distro_name: distro_name@ }
            },
            NativeRequest::GetDistributionConfiguration { distro_name } => {
                NativeRequestView::GetDistributionConfiguration { distro_name: distro_name@ }
            },
            NativeRequest::ConfigureDistribution { distro_name, default_uid, wsl_flags } => {
                NativeRequestView::ConfigureDistribution {
                    distro_name: distro_name@,
                    default_uid: *default_uid,
                    wsl_flags: *wsl_flags,
                }
            },
            NativeRequest::LaunchInteractive {
                distro_name,
                command,
                use_current_working_directory,
            } => NativeRequestView::LaunchInteractive {
                distro_name: distro_name@,
                command: command@,
                use_current_working_directory: *use_current_working_directory,
            },
            NativeRequest::IsDistributionRegistered { distro_name } => {
                NativeRequestView::IsDistributionRegistered { distro_name: distro_name@ }
            },
            NativeRequest::ReadVariable { index } => NativeRequestView::ReadVariable {
                index: *index,
            },
            NativeRequest::FreeVariable { index } => NativeRequestView::FreeVariable {
                index: *index,
            },
            NativeRequest::FreeVariables => NativeRequestView::FreeVariables,
        }
    }
}

impl NativeRequestView {
    /// The entry point that the request calls; none for a request that only
    /// reads what the native side handed over.
    pub open spec fn export(self) -> Option<Export> {
        match self {
            NativeRequestView::RegisterDistribution { .. } => Some(
                Export::WslRegisterDistribution,
            ),
            NativeRequestView::UnregisterDistribution { .. } => Some(
                Export::WslUnregisterDistribution,
            ),
            NativeRequestView::GetDistributionConfiguration { .. } => Some(
                Export::WslGetDistributionConfiguration,
            ),
            NativeRequestView::ConfigureDistribution { .. } => Some(
                Export::WslConfigureDistribution,
            ),
            NativeRequestView::LaunchInteractive { .. } => Some(Export::WslLaunchInteractive),
            NativeRequestView::IsDistributionRegistered { .. } => Some(
                Export::WslIsDistributionRegistered,
            ),
            NativeRequestView::ReadVariable { .. } => None,
            NativeRequestView::FreeVariable { .. } => Some(Export::CoTaskMemFree),
            NativeRequestView::FreeVariables => Some(Export::CoTaskMemFree),
        }
    }
}

impl NativeRequestView {
    /// Whether `reply` is of the kind that answers the request: every call
    /// of an entry point may find it unresolved, and else returns what its
    /// signature says.
    pub open spec fn answered_by(self, reply: NativeReplyView) -> bool {
        match self {
            NativeRequestView::RegisterDistribution { .. } => reply is Unresolved
                || reply is Status,
            NativeRequestView::UnregisterDistribution { .. } => reply is Unresolved
                || reply is Status,
            NativeRequestView::GetDistributionConfiguration { .. } => reply is Unresolved
                || reply is Configuration,
            NativeRequestView::ConfigureDistribution { .. } => reply is Unresolved
                || reply is Status,
            NativeRequestView::LaunchInteractive { .. } => reply is Unresolved
                || reply is Launched,
            NativeRequestView::IsDistributionRegistered { .. } => reply is Unresolved
                || reply is Registered,
            NativeRequestView::ReadVariable { .. } => reply is Variable,
            NativeRequestView::FreeVariable { .. } => reply is Unresolved || reply is Freed,
            NativeRequestView::FreeVariables => reply is Unresolved || reply is Freed,
        }
    }
}

impl NativeRequest {
    /// Whether `reply` is of the kind that answers the request.
    pub fn answered_by(&self, reply: &NativeReply) -> (answered: bool)
        ensures
            answered == self@.answered_by(reply@),
    {
        let unresolved = match reply {
            NativeReply::Unresolved { .. } => true,
            _ => false,
        };
        match self {
            NativeRequest::RegisterDistribution { .. }
            | NativeRequest::UnregisterDistribution { .. }
            | NativeRequest::ConfigureDistribution { .. } => unresolved || match reply {
                NativeReply::Status(_) => true,
                _ => false,
            },
            NativeRequest::GetDistributionConfiguration { .. } => unresolved || match reply {
                NativeReply::Configuration { .. } => true,
                _ => false,
            },
            NativeRequest::LaunchInteractive { .. } => unresolved || match reply {
                NativeReply::Launched { .. } => true,
                _ => false,
            },
            NativeRequest::IsDistributionRegistered { .. } => unresolved || match reply {
                NativeReply::Registered(_) => true,
                _ => false,
            },
            NativeRequest::ReadVariable { .. } => match reply {
                NativeReply::Variable(_) => true,
                _ => false,
            },
            NativeRequest::FreeVariable { .. } | NativeRequest::FreeVariables => unresolved
                || match reply {
                NativeReply::Freed => true,
                _ => false,
            },
        }
    }

    /// The entry point that the request calls; none for a request that only
    /// reads what the native side handed over.
    pub fn export(&self) -> (export: Option<Export>)
        ensures
            export == self@.export(),
    {
        match self {
            NativeRequest::RegisterDistribution { .. } => Some(Export::WslRegisterDistribution),
            NativeRequest::UnregisterDistribution { .. } => Some(
                Export::WslUnregisterDistribution,
            ),
            NativeRequest::GetDistributionConfiguration { .. } => Some(
                Export::WslGetDistributionConfiguration,
            ),
            NativeRequest::ConfigureDistribution { .. } => Some(Export::WslConfigureDistribution),
            NativeRequest::LaunchInteractive { .. } => Some(Export::WslLaunchInteractive),
            NativeRequest::IsDistributionRegistered { .. } => Some(
                Export::WslIsDistributionRegistered,
            ),
            NativeRequest::ReadVariable { .. } => None,
            NativeRequest::FreeVariable { .. } => Some(Export::CoTaskMemFree),
            NativeRequest::FreeVariables => Some(Export::CoTaskMemFree),
        }
    }
}

/// What came of a request.
#[derive(Clone, Debug, PartialEq, Eq)]
pub enum NativeReply {
    /// The library does not export the entry point; nothing was called.
    Unresolved { reason: String },
    /// The status that a registration, a removal or a reconfiguration
    /// returned.
    Status(i32),
    /// The status and the out-parameters of a configuration query; `count`
    /// is the number of elements of the array that it returned.
    Configuration { status: i32, version: u32, default_uid: u32, wsl_flags: u32, count: u32 },
    /// The status of a launch and the exit code of the launched process.
    Launched { status: i32, exit_code: u32 },
    /// Whether the name is registered.
    Registered(bool),
    /// The bytes behind one element of the array, or nothing where the
    /// element is a null pointer.
    Variable(Option<Vec<u8>>),
    /// The buffer was released.
    Freed,
}

/// A `NativeReply` with its texts and bytes as sequences.
pub enum NativeReplyView {
    Unresolved { reason: Seq<char> },
    Status(i32),
    Configuration { status: i32, version: u32, default_uid: u32, wsl_flags: u32, count: u32 },
    Launched { status: i32, exit_code: u32 },
    Registered(bool),
    Variable(Option<Seq<u8>>),
    Freed,
}

impl View for NativeReply {
    type V = NativeReplyView;

    open spec fn view(&self) -> NativeReplyView {
        match self {
            NativeReply::Unresolved { reason } => NativeReplyView::Unresolved { reason: reason@ },
            NativeReply::Status(status) => NativeReplyView::Status(*status),
            NativeReply::Configuration { status, version, default_uid, wsl_flags, count } => {
                NativeReplyView::Configuration {
                    status: *status,
                    version: *version,
                    default_uid: *default_uid,
                    wsl_flags: *wsl_flags,
                    count: *count,
                }
            },
            NativeReply::Launched { status, exit_code } => NativeReplyView::Launched {
                status: *status,
                exit_code: *exit_code,
            },
            NativeReply::Registered(registered) => NativeReplyView::Registered(*registered),
            NativeReply::Variable(bytes) => NativeReplyView::Variable(
                match bytes {
                    Some(bytes) => Some(bytes@),
                    None => None,
                },
            ),
            NativeReply::Freed => NativeReplyView::Freed,
        }
    }
}

impl NativeReplyView {
    /// The status that the native call returned, where the reply holds one.
    pub open spec fn status(self) -> Option<i32> {
        match self {
            NativeReplyView::Status(status) => Some(status),
            NativeReplyView::Configuration { status, .. } => Some(status),
            NativeReplyView::Launched { status, .. } => Some(status),
            _ => None,
        }
    }
}

} // verus!
