//! The payload reference: how it is acquired before privileges are dropped,
//! and how it becomes the path that is loaded afterwards.

use crate::text::{signed_decimal, signed_decimal_string};
use vstd::prelude::*;

verus! {

/// A way to reach the payload artifact.
#[derive(Debug, PartialEq, Eq)]
pub enum PayloadReference {
    /// An absolute path in the file system.
    Path(String),
    /// A descriptor that was opened while the process could still read the
    /// module's storage.
    Descriptor(i32),
}

/// Mathematical content of [`PayloadReference`].
pub enum ReferenceView {
    Path(Seq<char>),
    Descriptor(int),
}

impl View for PayloadReference {
    type V = ReferenceView;

    open spec fn view(&self) -> ReferenceView {
        match self {
            PayloadReference::Path(p) => ReferenceView::Path(p@),
            PayloadReference::Descriptor(fd) => ReferenceView::Descriptor(*fd as int),
        }
    }
}

/// The content of an optional reference.
pub open spec fn opt_reference(r: Option<PayloadReference>) -> Option<ReferenceView> {
    match r {
        Some(p) => Some(p@),
        None => None,
    }
}

/// Why no descriptor to the payload could be had.
#[derive(Clone, Copy, Debug, PartialEq, Eq, Structural)]
pub enum AcquireError {
    /// The host gave no descriptor to the module's directory.
    ModuleDirUnavailable,
    /// Opening the payload failed; this is what the open returned.
    OpenFailed(i32),
}

/// An open that the caller is to perform: of the file `file_name`, relative
/// to the directory `dir_fd`, for reading only.
#[derive(Debug, PartialEq, Eq)]
pub struct OpenRequest {
    pub dir_fd: i32,
    pub file_name: String,
}

/// The load failed; `message` says why.
#[derive(Debug, PartialEq, Eq)]
pub struct InjectError {
    pub message: String,
}

/// Name of the payload artifact in the module's directory.
pub const PAYLOAD_FILENAME: &'static str = "payload.so";

/// Name of the payload artifact in the module's directory.
pub open spec fn payload_file_name() -> Seq<char> {
    "payload.so"@
}

/// The directory under which the kernel shows a process its own descriptors.
pub open spec fn descriptor_dir() -> Seq<char> {
    "/proc/self/fd/"@
}

/// The message of a load failure for which the loader gave no diagnostic.
pub open spec fn unknown_error() -> Seq<char> {
    "Unknown error"@
}

/// The path under which a descriptor can be opened again.
pub open spec fn descriptor_path_of(fd: int) -> Seq<char> {
    descriptor_dir() + signed_decimal(fd)
}

/// The path that is handed to the loader for a reference.
pub open spec fn load_path(reference: ReferenceView) -> Seq<char> {
    match reference {
        ReferenceView::Path(p) => p,
        ReferenceView::Descriptor(fd) => descriptor_path_of(fd),
    }
}

/// First step of the acquisition, given what the host returned for the
/// module's directory: a negative value is no descriptor and ends the
/// acquisition; anything else is the directory in which the payload is to
/// be opened.
pub fn plan_open(module_dir_fd: i32) -> (plan: Result<OpenRequest, AcquireError>)
    ensures
        module_dir_fd < 0 ==> plan == Err::<OpenRequest, AcquireError>(
            AcquireError::ModuleDirUnavailable,
        ),
        module_dir_fd >= 0 ==> plan is Ok && plan->Ok_0.dir_fd == module_dir_fd
            && plan->Ok_0.file_name@ == payload_file_name(),
{
    if module_dir_fd >= 0 {
        Ok(OpenRequest { dir_fd: module_dir_fd, file_name: String::from_str(PAYLOAD_FILENAME) })
    } else {
        Err(AcquireError::ModuleDirUnavailable)
    }
}

/// Second step of the acquisition, given what the open returned: a negative
/// value is a failure, anything else is the descriptor of the payload.
pub fn conclude_open(payload_fd: i32) -> (outcome: Result<PayloadReference, AcquireError>)
    ensures
        payload_fd < 0 ==> outcome == Err::<PayloadReference, AcquireError>(
            AcquireError::OpenFailed(payload_fd),
        ),
        payload_fd >= 0 ==> outcome is Ok && outcome->Ok_0@ == ReferenceView::Descriptor(
            payload_fd as int,
        ),
{
    if payload_fd >= 0 {
        Ok(PayloadReference::Descriptor(payload_fd))
    } else {
        Err(AcquireError::OpenFailed(payload_fd))
    }
}

/// The path `/proc/self/fd/<fd>`, with the descriptor in decimal.
pub fn descriptor_path(fd: i32) -> (path: String)
    ensures
        path@ == descriptor_path_of(fd as int),
{
    let digits = signed_decimal_string(fd);
    String::from_str("/proc/self/fd/").concat(digits.as_str())
}

/// The path to hand to the loader: a path reference as it is, a descriptor
/// by its entry under `/proc/self/fd/`.
pub fn injection_path(reference: &PayloadReference) -> (path: String)
    ensures
        path@ == load_path(reference@),
{
    match reference {
        PayloadReference::Path(p) => p.clone(),
        PayloadReference::Descriptor(fd) => descriptor_path(*fd),
    }
}

/// What a load came to. `handle` is the address the loader returned, zero
/// for none; `diagnostic` is the loader's last error, if it had one. A load
/// that returned a handle succeeded. One that did not failed, with the
/// loader's diagnostic as the message, word for word, or with
/// `Unknown error` where the loader had none.
pub fn load_outcome(handle: usize, diagnostic: Option<String>) -> (outcome: Result<
    (),
    InjectError,
>)
    ensures
        outcome is Ok <==> handle != 0,
        handle == 0 && diagnostic is Some ==> outcome->Err_0.message@ == diagnostic->0@,
        handle == 0 && diagnostic is None ==> outcome->Err_0.message@ == unknown_error(),
{
    if handle != 0 {
        Ok(())
    } else {
        match diagnostic {
            Some(message) => Err(InjectError { message }),
            None => Err(InjectError { message: String::from_str("Unknown error") }),
        }
    }
}

} // verus!
