use vstd::prelude::*;

verus! {

/// Outcome of a native call, as the native result taxonomy defines it.
#[derive(Clone, Copy, Debug, PartialEq, Eq, Structural)]
pub enum Status {
    Success,
    NotReady,
    Timeout,
    EventSet,
    EventReset,
    Incomplete,
    ErrorOutOfHostMemory,
    ErrorOutOfDeviceMemory,
    ErrorInitializationFailed,
    ErrorDeviceLost,
    ErrorMemoryMapFailed,
    ErrorLayerNotPresent,
    ErrorExtensionNotPresent,
    ErrorFeatureNotPresent,
    ErrorIncompatibleDriver,
    ErrorTooManyObjects,
    ErrorFormatNotSupported,
    ErrorFragmentedPool,
    ErrorUnknown,
    ErrorOutOfPoolMemory,
    ErrorInvalidExternalHandle,
    ErrorFragmentation,
    ErrorInvalidOpaqueCaptureAddress,
    PipelineCompileRequired,
    ErrorSurfaceLost,
    ErrorOutOfDate,
    Suboptimal,
}

/// The native integer code of each status.
pub open spec fn code_of(s: Status) -> int {
    match s {
        Status::Success => 0,
        Status::NotReady => 1,
        Status::Timeout => 2,
        Status::EventSet => 3,
        Status::EventReset => 4,
        Status::Incomplete => 5,
        Status::ErrorOutOfHostMemory => -1,
        Status::ErrorOutOfDeviceMemory => -2,
        Status::ErrorInitializationFailed => -3,
        Status::ErrorDeviceLost => -4,
        Status::ErrorMemoryMapFailed => -5,
        Status::ErrorLayerNotPresent => -6,
        Status::ErrorExtensionNotPresent => -7,
        Status::ErrorFeatureNotPresent => -8,
        Status::ErrorIncompatibleDriver => -9,
        Status::ErrorTooManyObjects => -10,
        Status::ErrorFormatNotSupported => -11,
        Status::ErrorFragmentedPool => -12,
        Status::ErrorUnknown => -13,
        Status::ErrorOutOfPoolMemory => -1000069000,
        Status::ErrorInvalidExternalHandle => -1000072003,
        Status::ErrorFragmentation => -1000161000,
        Status::ErrorInvalidOpaqueCaptureAddress => -1000257000,
        Status::PipelineCompileRequired => 1000297000,
        Status::ErrorSurfaceLost => -1000000000,
        Status::ErrorOutOfDate => -1000001004,
        Status::Suboptimal => 1000001003,
    }
}

/// The status that a native code stands for; `None` for a code outside the taxonomy.
pub open spec fn status_of(code: int) -> Option<Status> {
    if exists|s: Status| code_of(s) == code {
        Some(choose|s: Status| code_of(s) == code)
    } else {
        None
    }
}

impl Status {
    /// The native integer code of this status.
    pub fn code(&self) -> (r: i32)
        ensures
            r as int == code_of(*self),
    {
        match self {
            Status::Success => 0,
            Status::NotReady => 1,
            Status::Timeout => 2,
            Status::EventSet => 3,
            Status::EventReset => 4,
            Status::Incomplete => 5,
            Status::ErrorOutOfHostMemory => -1,
            Status::ErrorOutOfDeviceMemory => -2,
            Status::ErrorInitializationFailed => -3,
            Status::ErrorDeviceLost => -4,
            Status::ErrorMemoryMapFailed => -5,
            Status::ErrorLayerNotPresent => -6,
            Status::ErrorExtensionNotPresent => -7,
            Status::ErrorFeatureNotPresent => -8,
            Status::ErrorIncompatibleDriver => -9,
            Status::ErrorTooManyObjects => -10,
            Status::ErrorFormatNotSupported => -11,
            Status::ErrorFragmentedPool => -12,
            Status::ErrorUnknown => -13,
            Status::ErrorOutOfPoolMemory => -1000069000,
            Status::ErrorInvalidExternalHandle => -1000072003,
            Status::ErrorFragmentation => -1000161000,
            Status::ErrorInvalidOpaqueCaptureAddress => -1000257000,
            Status::PipelineCompileRequired => 1000297000,
            Status::ErrorSurfaceLost => -1000000000,
            Status::ErrorOutOfDate => -1000001004,
            Status::Suboptimal => 1000001003,
        }
    }

    /// Whether this status reports success.
    pub fn is_success(&self) -> (r: bool)
        ensures
            r == (*self == Status::Success),
    {
        match self {
            Status::Success => true,
            _ => false,
        }
    }
}

/// Distinct statuses have distinct codes.
pub proof fn lemma_code_injective(a: Status, b: Status)
    ensures
        code_of(a) == code_of(b) ==> a == b,
{
}

/// Classifying the code of a status gives that status back.
pub proof fn lemma_classify_code(s: Status)
    ensures
        status_of(code_of(s)) == Some(s),
{
    let c = choose|t: Status| code_of(t) == code_of(s);
    lemma_code_injective(c, s);
}

/// Classifies a native status code. A code outside the taxonomy gives `None`:
/// it is never read as some default status.
pub fn classify(code: i32) -> (r: Option<Status>)
    ensures
        r == status_of(code as int),
{
    let r = match code {
        0 => Some(Status::Success),
        1 => Some(Status::NotReady),
        2 => Some(Status::Timeout),
        3 => Some(Status::EventSet),
        4 => Some(Status::EventReset),
        5 => Some(Status::Incomplete),
        -1 => Some(Status::ErrorOutOfHostMemory),
        -2 => Some(Status::ErrorOutOfDeviceMemory),
        -3 => Some(Status::ErrorInitializationFailed),
        -4 => Some(Status::ErrorDeviceLost),
        -5 => Some(Status::ErrorMemoryMapFailed),
        -6 => Some(Status::ErrorLayerNotPresent),
        -7 => Some(Status::ErrorExtensionNotPresent),
        -8 => Some(Status::ErrorFeatureNotPresent),
        -9 => Some(Status::ErrorIncompatibleDriver),
        -10 => Some(Status::ErrorTooManyObjects),
        -11 => Some(Status::ErrorFormatNotSupported),
        -12 => Some(Status::ErrorFragmentedPool),
        -13 => Some(Status::ErrorUnknown),
        -1000069000 => Some(Status::ErrorOutOfPoolMemory),
        -1000072003 => Some(Status::ErrorInvalidExternalHandle),
        -1000161000 => Some(Status::ErrorFragmentation),
        -1000257000 => Some(Status::ErrorInvalidOpaqueCaptureAddress),
        1000297000 => Some(Status::PipelineCompileRequired),
        -1000000000 => Some(Status::ErrorSurfaceLost),
        -1000001004 => Some(Status::ErrorOutOfDate),
        1000001003 => Some(Status::Suboptimal),
        _ => None,
    };
    proof {
        match r {
            Some(s) => {
                lemma_classify_code(s);
            },
            None => {
                assert(!exists|s: Status| code_of(s) == code);
            },
        }
    }
    r
}

} // verus!
