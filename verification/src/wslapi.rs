//! The facade: the loaded native libraries, and one operation for each
//! thing that the native side can be asked to do.

use vstd::prelude::*;
use libloading::Library;
use crate::configuration::DistroConfiguration;
use crate::error::Error;
use crate::library::{load_failure_text, open_library, NativeLibrary};
use crate::native::{NativeRequest, NativeRequestView};
use crate::operation::{Operation, OperationView};
use crate::wide_chars::{to_vec_u16, wide};

verus! {

/// The two native libraries, loaded. They stay loaded as long as the value
/// lives; no operation can be started without one.
pub struct Wslapi {
    ole32: Library,
    wslapi: Library,
}

/// What becomes of the loader's answer for `library`: the handle, or a
/// `LoadError` that names the library.
pub fn loaded(library: NativeLibrary, answer: Result<Library, std::io::Error>) -> (r: Result<
    Library,
    Error,
>)
    ensures
        match answer {
            Ok(handle) => r == Ok::<Library, Error>(handle),
            Err(_) => r matches Err(e) && e@ is LoadError && e@->LoadError_library == library,
        },
{
    match answer {
        Ok(handle) => Ok(handle),
        Err(failure) => Err(Error::LoadError { library, reason: load_failure_text(&failure) }),
    }
}

impl Wslapi {
    /// Loads the two native libraries under their own names. Fails with a
    /// `LoadError` where either cannot be loaded; no facade exists then.
    pub fn new() -> (r: Result<Wslapi, Error>)
        ensures
            r matches Err(e) ==> e@ is LoadError,
    {
        Wslapi::with_libraries(NativeLibrary::Ole32.name(), NativeLibrary::Wslapi.name())
    }

    /// Loads the two native libraries from the given file names or paths,
    /// the general-purpose one first. Fails with a `LoadError` that names
    /// the first that cannot be loaded; no facade exists then.
    pub fn with_libraries(ole32: &str, wslapi: &str) -> (r: Result<Wslapi, Error>)
        ensures
            r matches Err(e) ==> e@ is LoadError,
    {
        let ole32 = match loaded(NativeLibrary::Ole32, open_library(ole32)) {
            Ok(handle) => handle,
            Err(e) => {
                return Err(e);
            },
        };
        let wslapi = match loaded(NativeLibrary::Wslapi, open_library(wslapi)) {
            Ok(handle) => handle,
            Err(e) => {
                return Err(e);
            },
        };
        Ok(Wslapi { ole32, wslapi })
    }

    /// The handle under which `library` is held.
    pub closed spec fn handle(&self, library: NativeLibrary) -> Library {
        match library {
            NativeLibrary::Ole32 => self.ole32,
            NativeLibrary::Wslapi => self.wslapi,
        }
    }

    /// The handle of a loaded library, by which its entry points are
    /// resolved.
    pub fn library(&self, library: NativeLibrary) -> (handle: &Library)
        ensures
            *handle == self.handle(library),
    {
        match library {
            NativeLibrary::Ole32 => &self.ole32,
            NativeLibrary::Wslapi => &self.wslapi,
        }
    }

    /// Registers `distro_name` from the archive `tar_gz_filename`. Both are
    /// handed to the native side as wide strings; the operation succeeds
    /// where the status that comes back is zero.
    pub fn register_distro(&self, distro_name: &str, tar_gz_filename: &str) -> (op: Operation)
        ensures
            op@ == (OperationView::Calling {
                request: NativeRequestView::RegisterDistribution {
                    distro_name: wide(distro_name@),
                    tar_gz_filename: wide(tar_gz_filename@),
                },
            }),
    {
        Operation::calling(
            NativeRequest::RegisterDistribution {
                distro_name: to_vec_u16(distro_name),
                tar_gz_filename: to_vec_u16(tar_gz_filename),
            },
        )
    }

    /// Removes the registration of `distro_name`.
    pub fn unregister_distro(&self, distro_name: &str) -> (op: Operation)
        ensures
            op@ == (OperationView::Calling {
                request: NativeRequestView::UnregisterDistribution {
                    distro_name: wide(distro_name@),
                },
            }),
    {
        Operation::calling(
            NativeRequest::UnregisterDistribution { distro_name: to_vec_u16(distro_name) },
        )
    }

    /// Queries the settings of `distro_name`. The operation reads every
    /// element of the array that the native side returns, then has every
    /// element and the array released, and only then ends.
    pub fn get_distro_configuration(&self, distro_name: &str) -> (op: Operation)
        ensures
            op@ == (OperationView::Querying { name: distro_name@ }),
    {
        Operation::querying(distro_name)
    }

    /// Sets the default user and the flags of the distro that the
    /// configuration names. Its environment is not sent: the native side
    /// has no entry point that takes it.
    pub fn configure_distro(&self, distro_configuration: &DistroConfiguration) -> (op: Operation)
        ensures
            op@ == (OperationView::Calling {
                request: NativeRequestView::ConfigureDistribution {
                    distro_name: wide(distro_configuration@.name),
                    default_uid: distro_configuration@.default_uid,
                    wsl_flags: distro_configuration@.flags.mask(),
                },
            }),
    {
        Operation::calling(
            NativeRequest::ConfigureDistribution {
                distro_name: to_vec_u16(distro_configuration.name.as_str()),
                default_uid: distro_configuration.default_uid,
                wsl_flags: distro_configuration.flags.bits(),
            },
        )
    }

    /// Runs `command` in `distro_name` and waits for it to end; the empty
    /// command stands for the default shell. No input is turned away here:
    /// the native side alone decides whether the launch succeeds.
    pub fn launch(&self, distro_name: &str, command: &str, use_cwd: bool) -> (op: Operation)
        ensures
            op@ == (OperationView::Calling {
                request: NativeRequestView::LaunchInteractive {
                    distro_name: wide(distro_name@),
                    command: wide(command@),
                    use_current_working_directory: use_cwd,
                },
            }),
    {
        Operation::calling(
            NativeRequest::LaunchInteractive {
                distro_name: to_vec_u16(distro_name),
                command: to_vec_u16(command),
                use_current_working_directory: use_cwd,
            },
        )
    }

    /// Asks whether `distro_name` is registered.
    pub fn is_distribution_registered(&self, distro_name: &str) -> (op: Operation)
        ensures
            op@ == (OperationView::Calling {
                request: NativeRequestView::IsDistributionRegistered {
                    distro_name: wide(distro_name@),
                },
            }),
    {
        Operation::calling(
            NativeRequest::IsDistributionRegistered { distro_name: to_vec_u16(distro_name) },
        )
    }
}

} // verus!
