//! The native libraries, the entry points that they export, and the handle
//! by which a loaded library is owned.

use vstd::prelude::*;
use libloading::Library;

verus! {

/// A native library that the binding layer loads.
#[derive(Clone, Copy, Debug, PartialEq, Eq, Structural)]
pub enum NativeLibrary {
    /// The general-purpose library whose allocator releases native buffers.
    Ole32,
    /// The library that manages distro registrations.
    Wslapi,
}

/// An entry point of a native library.
#[derive(Clone, Copy, Debug, PartialEq, Eq, Structural)]
pub enum Export {
    CoTaskMemFree,
    WslRegisterDistribution,
    WslUnregisterDistribution,
    WslGetDistributionConfiguration,
    WslConfigureDistribution,
    WslLaunchInteractive,
    WslIsDistributionRegistered,
}

impl NativeLibrary {
    /// The name by which the library is loaded.
    pub open spec fn name_text(self) -> Seq<char> {
        match self {
            NativeLibrary::Ole32 => "ole32"@,
            NativeLibrary::Wslapi => "wslapi"@,
        }
    }

    /// The name by which the library is loaded.
    pub fn name(self) -> (name: &'static str)
        ensures
            name@ == self.name_text(),
    {
        match self {
            NativeLibrary::Ole32 => "ole32",
            NativeLibrary::Wslapi => "wslapi",
        }
    }
}

impl Export {
    /// The name under which the library exports the entry point.
    pub open spec fn name_text(self) -> Seq<char> {
        match self {
            Export::CoTaskMemFree => "CoTaskMemFree"@,
            Export::WslRegisterDistribution => "WslRegisterDistribution"@,
            Export::WslUnregisterDistribution => "WslUnregisterDistribution"@,
            Export::WslGetDistributionConfiguration => "WslGetDistributionConfiguration"@,
            Export::WslConfigureDistribution => "WslConfigureDistribution"@,
            Export::WslLaunchInteractive => "WslLaunchInteractive"@,
            Export::WslIsDistributionRegistered => "WslIsDistributionRegistered"@,
        }
    }

    /// The library that exports the entry point.
    pub open spec fn library_of(self) -> NativeLibrary {
        match self {
            Export::CoTaskMemFree => NativeLibrary::Ole32,
            _ => NativeLibrary::Wslapi,
        }
    }

    /// The operation of the facade that calls the entry point.
    pub open spec fn operation_text(self) -> Seq<char> {
        match self {
            Export::CoTaskMemFree => "get_distro_configuration"@,
            Export::WslRegisterDistribution => "register_distro"@,
            Export::WslUnregisterDistribution => "unregister_distro"@,
            Export::WslGetDistributionConfiguration => "get_distro_configuration"@,
            Export::WslConfigureDistribution => "configure_distro"@,
            Export::WslLaunchInteractive => "launch"@,
            Export::WslIsDistributionRegistered => "is_distribution_registered"@,
        }
    }

    /// The name under which the library exports the entry point.
    pub fn name(self) -> (name: &'static str)
        ensures
            name@ == self.name_text(),
    {
        match self {
            Export::CoTaskMemFree => "CoTaskMemFree",
            Export::WslRegisterDistribution => "WslRegisterDistribution",
            Export::WslUnregisterDistribution => "WslUnregisterDistribution",
            Export::WslGetDistributionConfiguration => "WslGetDistributionConfiguration",
            Export::WslConfigureDistribution => "WslConfigureDistribution",
            Export::WslLaunchInteractive => "WslLaunchInteractive",
            Export::WslIsDistributionRegistered => "WslIsDistributionRegistered",
        }
    }

    /// The library that exports the entry point.
    pub fn library(self) -> (library: NativeLibrary)
        ensures
            library == self.library_of(),
    {
        match self {
            Export::CoTaskMemFree => NativeLibrary::Ole32,
            _ => NativeLibrary::Wslapi,
        }
    }

    /// The operation of the facade that calls the entry point.
    pub fn operation(self) -> (name: &'static str)
        ensures
            name@ == self.operation_text(),
    {
        match self {
            Export::CoTaskMemFree => "get_distro_configuration",
            Export::WslRegisterDistribution => "register_distro",
            Export::WslUnregisterDistribution => "unregister_distro",
            Export::WslGetDistributionConfiguration => "get_distro_configuration",
            Export::WslConfigureDistribution => "configure_distro",
            Export::WslLaunchInteractive => "launch",
            Export::WslIsDistributionRegistered => "is_distribution_registered",
        }
    }
}

/// A loaded native library, owned until the value is dropped.
#[verifier::external_type_specification]
#[verifier::external_body]
pub struct ExLibrary(libloading::Library);

/// The failure that the loader reports.
#[verifier::external_type_specification]
#[verifier::external_body]
pub struct ExIoError(std::io::Error);

/// `libloading::Library::new`: asks the system's loader for the library of
/// that name. Whether it is found depends on the host, so nothing is
/// claimed of the outcome. The call panics only where the loader fails and
/// gives no reason, which no name brings about.
#[verifier::external_body]
pub(crate) fn open_library(name: &str) -> (r: Result<Library, std::io::Error>) {
    Library::new(name)
}

/// `to_string` of `std::io::Error`: the failure in the words of the loader.
/// The system chooses them, so nothing is claimed of the text.
#[verifier::external_body]
pub(crate) fn load_failure_text(e: &std::io::Error) -> (text: String) {
    e.to_string()
}

} // verus!
