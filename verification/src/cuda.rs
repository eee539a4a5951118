//! The values that cross the boundary to the CUDA runtime: status codes,
//! attribute and kind selectors, flags and handle types.
//!
//! The runtime knows each value of an enum here by a number. `code` gives
//! that number, and `from_code`, where the runtime hands such a value back,
//! finds the value for a number.

#![allow(non_upper_case_globals)]
#![allow(non_camel_case_types)]

use vstd::prelude::*;

verus! {

/// A flag of `cudaHostAlloc`.
pub const cudaHostAllocDefault: u32 = 0;

/// A flag of `cudaHostAlloc`.
pub const cudaHostAllocPortable: u32 = 1;

/// A flag of `cudaHostAlloc`.
pub const cudaHostAllocMapped: u32 = 2;

/// A flag of `cudaHostAlloc`.
pub const cudaHostAllocWriteCombined: u32 = 4;

/// A flag of `cudaHostRegister`.
pub const cudaHostRegisterDefault: u32 = 0;

/// A flag of `cudaHostRegister`.
pub const cudaHostRegisterPortable: u32 = 1;

/// A flag of `cudaHostRegister`.
pub const cudaHostRegisterMapped: u32 = 2;

/// A flag of `cudaHostRegister`.
pub const cudaHostRegisterIoMemory: u32 = 4;

/// A flag of `cudaHostRegister`.
pub const cudaHostRegisterReadOnly: u32 = 8;

/// A flag with which a stream is made.
pub const cudaStreamDefault: u32 = 0;

/// A flag with which a stream is made.
pub const cudaStreamNonBlocking: u32 = 1;

/// A flag with which an event is made.
pub const cudaEventDefault: u32 = 0;

/// A flag with which an event is made.
pub const cudaEventBlockingSync: u32 = 1;

/// A flag with which an event is made.
pub const cudaEventDisableTiming: u32 = 2;

/// A flag with which an event is made.
pub const cudaEventInterprocess: u32 = 4;

/// A flag of `cudaEventRecordWithFlags`.
pub const cudaEventRecordDefault: u32 = 0;

/// A flag of `cudaEventRecordWithFlags`.
pub const cudaEventRecordExternal: u32 = 1;

/// A flag of `cudaStreamWaitEvent`.
pub const cudaEventWaitDefault: u32 = 0;

/// A flag of `cudaStreamWaitEvent`.
pub const cudaEventWaitExternal: u32 = 1;

/// The status that a call of the CUDA runtime returns.
#[must_use]
#[derive(Debug, Copy, Clone, Hash, PartialEq, Eq, Structural)]
pub enum CudaError {
    Success,
    ErrorInvalidValue,
    ErrorMemoryAllocation,
    ErrorInitializationError,
    ErrorCudartUnloading,
    ErrorProfilerDisabled,
    ErrorProfilerNotInitialized,
    ErrorProfilerAlreadyStarted,
    ErrorProfilerAlreadyStopped,
    ErrorInvalidConfiguration,
    ErrorInvalidPitchValue,
    ErrorInvalidSymbol,
    ErrorInvalidHostPointer,
    ErrorInvalidDevicePointer,
    ErrorInvalidTexture,
    ErrorInvalidTextureBinding,
    ErrorInvalidChannelDescriptor,
    ErrorInvalidMemcpyDirection,
    ErrorAddressOfConstant,
    ErrorTextureFetchFailed,
    ErrorTextureNotBound,
    ErrorSynchronizationError,
    ErrorInvalidFilterSetting,
    ErrorInvalidNormSetting,
    ErrorMixedDeviceExecution,
    ErrorNotYetImplemented,
    ErrorMemoryValueTooLarge,
    ErrorStubLibrary,
    ErrorInsufficientDriver,
    ErrorCallRequiresNewerDriver,
    ErrorInvalidSurface,
    ErrorDuplicateVariableName,
    ErrorDuplicateTextureName,
    ErrorDuplicateSurfaceName,
    ErrorDevicesUnavailable,
    ErrorIncompatibleDriverContext,
    ErrorMissingConfiguration,
    ErrorPriorLaunchFailure,
    ErrorLaunchMaxDepthExceeded,
    ErrorLaunchFileScopedTex,
    ErrorLaunchFileScopedSurf,
    ErrorSyncDepthExceeded,
    ErrorLaunchPendingCountExceeded,
    ErrorInvalidDeviceFunction,
    ErrorNoDevice,
    ErrorInvalidDevice,
    ErrorDeviceNotLicensed,
    ErrorSoftwareValidityNotEstablished,
    ErrorStartupFailure,
    ErrorInvalidKernelImage,
    ErrorDeviceUninitialized,
    ErrorMapBufferObjectFailed,
    ErrorUnmapBufferObjectFailed,
    ErrorArrayIsMapped,
    ErrorAlreadyMapped,
    ErrorNoKernelImageForDevice,
    ErrorAlreadyAcquired,
    ErrorNotMapped,
    ErrorNotMappedAsArray,
    ErrorNotMappedAsPointer,
    ErrorECCUncorrectable,
    ErrorUnsupportedLimit,
    ErrorDeviceAlreadyInUse,
    ErrorPeerAccessUnsupported,
    ErrorInvalidPtx,
    ErrorInvalidGraphicsContext,
    ErrorNvlinkUncorrectable,
    ErrorJitCompilerNotFound,
    ErrorUnsupportedPtxVersion,
    ErrorJitCompilationDisabled,
    ErrorUnsupportedExecAffinity,
    ErrorInvalidSource,
    ErrorFileNotFound,
    ErrorSharedObjectSymbolNotFound,
    ErrorSharedObjectInitFailed,
    ErrorOperatingSystem,
    ErrorInvalidResourceHandle,
    ErrorIllegalState,
    ErrorSymbolNotFound,
    ErrorNotReady,
    ErrorIllegalAddress,
    ErrorLaunchOutOfResources,
    ErrorLaunchTimeout,
    ErrorLaunchIncompatibleTexturing,
    ErrorPeerAccessAlreadyEnabled,
    ErrorPeerAccessNotEnabled,
    ErrorSetOnActiveProcess,
    ErrorContextIsDestroyed,
    ErrorAssert,
    ErrorTooManyPeers,
    ErrorHostMemoryAlreadyRegistered,
    ErrorHostMemoryNotRegistered,
    ErrorHardwareStackError,
    ErrorIllegalInstruction,
    ErrorMisalignedAddress,
    ErrorInvalidAddressSpace,
    ErrorInvalidPc,
    ErrorLaunchFailure,
    ErrorCooperativeLaunchTooLarge,
    ErrorNotPermitted,
    ErrorNotSupported,
    ErrorSystemNotReady,
    ErrorSystemDriverMismatch,
    ErrorCompatNotSupportedOnDevice,
    ErrorMpsConnectionFailed,
    ErrorMpsRpcFailure,
    ErrorMpsServerNotReady,
    ErrorMpsMaxClientsReached,
    ErrorMpsMaxConnectionsReached,
    ErrorMpsClientTerminated,
    ErrorCdpNotSupported,
    ErrorCdpVersionMismatch,
    ErrorStreamCaptureUnsupported,
    ErrorStreamCaptureInvalidated,
    ErrorStreamCaptureMerge,
    ErrorStreamCaptureUnmatched,
    ErrorStreamCaptureUnjoined,
    ErrorStreamCaptureIsolation,
    ErrorStreamCaptureImplicit,
    ErrorCapturedEvent,
    ErrorStreamCaptureWrongThread,
    ErrorTimeout,
    ErrorGraphExecUpdateFailure,
    ErrorExternalDevice,
    ErrorInvalidClusterSize,
    ErrorUnknown,
    ErrorApiFailureBase,
}

impl CudaError {
    /// The number by which the runtime knows this value.
    pub open spec fn spec_code(self) -> u32 {
        match self {
            CudaError::Success => 0,
            CudaError::ErrorInvalidValue => 1,
            CudaError::ErrorMemoryAllocation => 2,
            CudaError::ErrorInitializationError => 3,
            CudaError::ErrorCudartUnloading => 4,
            CudaError::ErrorProfilerDisabled => 5,
            CudaError::ErrorProfilerNotInitialized => 6,
            CudaError::ErrorProfilerAlreadyStarted => 7,
            CudaError::ErrorProfilerAlreadyStopped => 8,
            CudaError::ErrorInvalidConfiguration => 9,
            CudaError::ErrorInvalidPitchValue => 12,
            CudaError::ErrorInvalidSymbol => 13,
            CudaError::ErrorInvalidHostPointer => 16,
            CudaError::ErrorInvalidDevicePointer => 17,
            CudaError::ErrorInvalidTexture => 18,
            CudaError::ErrorInvalidTextureBinding => 19,
            CudaError::ErrorInvalidChannelDescriptor => 20,
            CudaError::ErrorInvalidMemcpyDirection => 21,
            CudaError::ErrorAddressOfConstant => 22,
            CudaError::ErrorTextureFetchFailed => 23,
            CudaError::ErrorTextureNotBound => 24,
            CudaError::ErrorSynchronizationError => 25,
            CudaError::ErrorInvalidFilterSetting => 26,
            CudaError::ErrorInvalidNormSetting => 27,
            CudaError::ErrorMixedDeviceExecution => 28,
            CudaError::ErrorNotYetImplemented => 31,
            CudaError::ErrorMemoryValueTooLarge => 32,
            CudaError::ErrorStubLibrary => 34,
            CudaError::ErrorInsufficientDriver => 35,
            CudaError::ErrorCallRequiresNewerDriver => 36,
            CudaError::ErrorInvalidSurface => 37,
            CudaError::ErrorDuplicateVariableName => 43,
            CudaError::ErrorDuplicateTextureName => 44,
            CudaError::ErrorDuplicateSurfaceName => 45,
            CudaError::ErrorDevicesUnavailable => 46,
            CudaError::ErrorIncompatibleDriverContext => 49,
            CudaError::ErrorMissingConfiguration => 52,
            CudaError::ErrorPriorLaunchFailure => 53,
            CudaError::ErrorLaunchMaxDepthExceeded => 65,
            CudaError::ErrorLaunchFileScopedTex => 66,
            CudaError::ErrorLaunchFileScopedSurf => 67,
            CudaError::ErrorSyncDepthExceeded => 68,
            CudaError::ErrorLaunchPendingCountExceeded => 69,
            CudaError::ErrorInvalidDeviceFunction => 98,
            CudaError::ErrorNoDevice => 100,
            CudaError::ErrorInvalidDevice => 101,
            CudaError::ErrorDeviceNotLicensed => 102,
            CudaError::ErrorSoftwareValidityNotEstablished => 103,
            CudaError::ErrorStartupFailure => 127,
            CudaError::ErrorInvalidKernelImage => 200,
            CudaError::ErrorDeviceUninitialized => 201,
            CudaError::ErrorMapBufferObjectFailed => 205,
            CudaError::ErrorUnmapBufferObjectFailed => 206,
            CudaError::ErrorArrayIsMapped => 207,
            CudaError::ErrorAlreadyMapped => 208,
            CudaError::ErrorNoKernelImageForDevice => 209,
            CudaError::ErrorAlreadyAcquired => 210,
            CudaError::ErrorNotMapped => 211,
            CudaError::ErrorNotMappedAsArray => 212,
            CudaError::ErrorNotMappedAsPointer => 213,
            CudaError::ErrorECCUncorrectable => 214,
            CudaError::ErrorUnsupportedLimit => 215,
            CudaError::ErrorDeviceAlreadyInUse => 216,
            CudaError::ErrorPeerAccessUnsupported => 217,
            CudaError::ErrorInvalidPtx => 218,
            CudaError::ErrorInvalidGraphicsContext => 219,
            CudaError::ErrorNvlinkUncorrectable => 220,
            CudaError::ErrorJitCompilerNotFound => 221,
            CudaError::ErrorUnsupportedPtxVersion => 222,
            CudaError::ErrorJitCompilationDisabled => 223,
            CudaError::ErrorUnsupportedExecAffinity => 224,
            CudaError::ErrorInvalidSource => 300,
            CudaError::ErrorFileNotFound => 301,
            CudaError::ErrorSharedObjectSymbolNotFound => 302,
            CudaError::ErrorSharedObjectInitFailed => 303,
            CudaError::ErrorOperatingSystem => 304,
            CudaError::ErrorInvalidResourceHandle => 400,
            CudaError::ErrorIllegalState => 401,
            CudaError::ErrorSymbolNotFound => 500,
            CudaError::ErrorNotReady => 600,
            CudaError::ErrorIllegalAddress => 700,
            CudaError::ErrorLaunchOutOfResources => 701,
            CudaError::ErrorLaunchTimeout => 702,
            CudaError::ErrorLaunchIncompatibleTexturing => 703,
            CudaError::ErrorPeerAccessAlreadyEnabled => 704,
            CudaError::ErrorPeerAccessNotEnabled => 705,
            CudaError::ErrorSetOnActiveProcess => 708,
            CudaError::ErrorContextIsDestroyed => 709,
            CudaError::ErrorAssert => 710,
            CudaError::ErrorTooManyPeers => 711,
            CudaError::ErrorHostMemoryAlreadyRegistered => 712,
            CudaError::ErrorHostMemoryNotRegistered => 713,
            CudaError::ErrorHardwareStackError => 714,
            CudaError::ErrorIllegalInstruction => 715,
            CudaError::ErrorMisalignedAddress => 716,
            CudaError::ErrorInvalidAddressSpace => 717,
            CudaError::ErrorInvalidPc => 718,
            CudaError::ErrorLaunchFailure => 719,
            CudaError::ErrorCooperativeLaunchTooLarge => 720,
            CudaError::ErrorNotPermitted => 800,
            CudaError::ErrorNotSupported => 801,
            CudaError::ErrorSystemNotReady => 802,
            CudaError::ErrorSystemDriverMismatch => 803,
            CudaError::ErrorCompatNotSupportedOnDevice => 804,
            CudaError::ErrorMpsConnectionFailed => 805,
            CudaError::ErrorMpsRpcFailure => 806,
            CudaError::ErrorMpsServerNotReady => 807,
            CudaError::ErrorMpsMaxClientsReached => 808,
            CudaError::ErrorMpsMaxConnectionsReached => 809,
            CudaError::ErrorMpsClientTerminated => 810,
            CudaError::ErrorCdpNotSupported => 811,
            CudaError::ErrorCdpVersionMismatch => 812,
            CudaError::ErrorStreamCaptureUnsupported => 900,
            CudaError::ErrorStreamCaptureInvalidated => 901,
            CudaError::ErrorStreamCaptureMerge => 902,
            CudaError::ErrorStreamCaptureUnmatched => 903,
            CudaError::ErrorStreamCaptureUnjoined => 904,
            CudaError::ErrorStreamCaptureIsolation => 905,
            CudaError::ErrorStreamCaptureImplicit => 906,
            CudaError::ErrorCapturedEvent => 907,
            CudaError::ErrorStreamCaptureWrongThread => 908,
            CudaError::ErrorTimeout => 909,
            CudaError::ErrorGraphExecUpdateFailure => 910,
            CudaError::ErrorExternalDevice => 911,
            CudaError::ErrorInvalidClusterSize => 912,
            CudaError::ErrorUnknown => 999,
            CudaError::ErrorApiFailureBase => 10000,
        }
    }

    /// The number by which the runtime knows this value.
    #[verifier::when_used_as_spec(spec_code)]
    pub fn code(self) -> (r: u32)
        ensures
            r == self.spec_code(),
    {
        match self {
            CudaError::Success => 0,
            CudaError::ErrorInvalidValue => 1,
            CudaError::ErrorMemoryAllocation => 2,
            CudaError::ErrorInitializationError => 3,
            CudaError::ErrorCudartUnloading => 4,
            CudaError::ErrorProfilerDisabled => 5,
            CudaError::ErrorProfilerNotInitialized => 6,
            CudaError::ErrorProfilerAlreadyStarted => 7,
            CudaError::ErrorProfilerAlreadyStopped => 8,
            CudaError::ErrorInvalidConfiguration => 9,
            CudaError::ErrorInvalidPitchValue => 12,
            CudaError::ErrorInvalidSymbol => 13,
            CudaError::ErrorInvalidHostPointer => 16,
            CudaError::ErrorInvalidDevicePointer => 17,
            CudaError::ErrorInvalidTexture => 18,
            CudaError::ErrorInvalidTextureBinding => 19,
            CudaError::ErrorInvalidChannelDescriptor => 20,
            CudaError::ErrorInvalidMemcpyDirection => 21,
            CudaError::ErrorAddressOfConstant => 22,
            CudaError::ErrorTextureFetchFailed => 23,
            CudaError::ErrorTextureNotBound => 24,
            CudaError::ErrorSynchronizationError => 25,
            CudaError::ErrorInvalidFilterSetting => 26,
            CudaError::ErrorInvalidNormSetting => 27,
            CudaError::ErrorMixedDeviceExecution => 28,
            CudaError::ErrorNotYetImplemented => 31,
            CudaError::ErrorMemoryValueTooLarge => 32,
            CudaError::ErrorStubLibrary => 34,
            CudaError::ErrorInsufficientDriver => 35,
            CudaError::ErrorCallRequiresNewerDriver => 36,
            CudaError::ErrorInvalidSurface => 37,
            CudaError::ErrorDuplicateVariableName => 43,
            CudaError::ErrorDuplicateTextureName => 44,
            CudaError::ErrorDuplicateSurfaceName => 45,
            CudaError::ErrorDevicesUnavailable => 46,
            CudaError::ErrorIncompatibleDriverContext => 49,
            CudaError::ErrorMissingConfiguration => 52,
            CudaError::ErrorPriorLaunchFailure => 53,
            CudaError::ErrorLaunchMaxDepthExceeded => 65,
            CudaError::ErrorLaunchFileScopedTex => 66,
            CudaError::ErrorLaunchFileScopedSurf => 67,
            CudaError::ErrorSyncDepthExceeded => 68,
            CudaError::ErrorLaunchPendingCountExceeded => 69,
            CudaError::ErrorInvalidDeviceFunction => 98,
            CudaError::ErrorNoDevice => 100,
            CudaError::ErrorInvalidDevice => 101,
            CudaError::ErrorDeviceNotLicensed => 102,
            CudaError::ErrorSoftwareValidityNotEstablished => 103,
            CudaError::ErrorStartupFailure => 127,
            CudaError::ErrorInvalidKernelImage => 200,
            CudaError::ErrorDeviceUninitialized => 201,
            CudaError::ErrorMapBufferObjectFailed => 205,
            CudaError::ErrorUnmapBufferObjectFailed => 206,
            CudaError::ErrorArrayIsMapped => 207,
            CudaError::ErrorAlreadyMapped => 208,
            CudaError::ErrorNoKernelImageForDevice => 209,
            CudaError::ErrorAlreadyAcquired => 210,
            CudaError::ErrorNotMapped => 211,
            CudaError::ErrorNotMappedAsArray => 212,
            CudaError::ErrorNotMappedAsPointer => 213,
            CudaError::ErrorECCUncorrectable => 214,
            CudaError::ErrorUnsupportedLimit => 215,
            CudaError::ErrorDeviceAlreadyInUse => 216,
            CudaError::ErrorPeerAccessUnsupported => 217,
            CudaError::ErrorInvalidPtx => 218,
            CudaError::ErrorInvalidGraphicsContext => 219,
            CudaError::ErrorNvlinkUncorrectable => 220,
            CudaError::ErrorJitCompilerNotFound => 221,
            CudaError::ErrorUnsupportedPtxVersion => 222,
            CudaError::ErrorJitCompilationDisabled => 223,
            CudaError::ErrorUnsupportedExecAffinity => 224,
            CudaError::ErrorInvalidSource => 300,
            CudaError::ErrorFileNotFound => 301,
            CudaError::ErrorSharedObjectSymbolNotFound => 302,
            CudaError::ErrorSharedObjectInitFailed => 303,
            CudaError::ErrorOperatingSystem => 304,
            CudaError::ErrorInvalidResourceHandle => 400,
            CudaError::ErrorIllegalState => 401,
            CudaError::ErrorSymbolNotFound => 500,
            CudaError::ErrorNotReady => 600,
            CudaError::ErrorIllegalAddress => 700,
            CudaError::ErrorLaunchOutOfResources => 701,
            CudaError::ErrorLaunchTimeout => 702,
            CudaError::ErrorLaunchIncompatibleTexturing => 703,
            CudaError::ErrorPeerAccessAlreadyEnabled => 704,
            CudaError::ErrorPeerAccessNotEnabled => 705,
            CudaError::ErrorSetOnActiveProcess => 708,
            CudaError::ErrorContextIsDestroyed => 709,
            CudaError::ErrorAssert => 710,
            CudaError::ErrorTooManyPeers => 711,
            CudaError::ErrorHostMemoryAlreadyRegistered => 712,
            CudaError::ErrorHostMemoryNotRegistered => 713,
            CudaError::ErrorHardwareStackError => 714,
            CudaError::ErrorIllegalInstruction => 715,
            CudaError::ErrorMisalignedAddress => 716,
            CudaError::ErrorInvalidAddressSpace => 717,
            CudaError::ErrorInvalidPc => 718,
            CudaError::ErrorLaunchFailure => 719,
            CudaError::ErrorCooperativeLaunchTooLarge => 720,
            CudaError::ErrorNotPermitted => 800,
            CudaError::ErrorNotSupported => 801,
            CudaError::ErrorSystemNotReady => 802,
            CudaError::ErrorSystemDriverMismatch => 803,
            CudaError::ErrorCompatNotSupportedOnDevice => 804,
            CudaError::ErrorMpsConnectionFailed => 805,
            CudaError::ErrorMpsRpcFailure => 806,
            CudaError::ErrorMpsServerNotReady => 807,
            CudaError::ErrorMpsMaxClientsReached => 808,
            CudaError::ErrorMpsMaxConnectionsReached => 809,
            CudaError::ErrorMpsClientTerminated => 810,
            CudaError::ErrorCdpNotSupported => 811,
            CudaError::ErrorCdpVersionMismatch => 812,
            CudaError::ErrorStreamCaptureUnsupported => 900,
            CudaError::ErrorStreamCaptureInvalidated => 901,
            CudaError::ErrorStreamCaptureMerge => 902,
            CudaError::ErrorStreamCaptureUnmatched => 903,
            CudaError::ErrorStreamCaptureUnjoined => 904,
            CudaError::ErrorStreamCaptureIsolation => 905,
            CudaError::ErrorStreamCaptureImplicit => 906,
            CudaError::ErrorCapturedEvent => 907,
            CudaError::ErrorStreamCaptureWrongThread => 908,
            CudaError::ErrorTimeout => 909,
            CudaError::ErrorGraphExecUpdateFailure => 910,
            CudaError::ErrorExternalDevice => 911,
            CudaError::ErrorInvalidClusterSize => 912,
            CudaError::ErrorUnknown => 999,
            CudaError::ErrorApiFailureBase => 10000,
        }
    }

    /// The value that the runtime knows by `code`, if there is one.
    pub fn from_code(code: u32) -> (r: Option<Self>)
        ensures
            forall|value: Self| r == Some(value) <==> #[trigger] value.code() == code,
    {
        match code {
            0 => Some(CudaError::Success),
            1 => Some(CudaError::ErrorInvalidValue),
            2 => Some(CudaError::ErrorMemoryAllocation),
            3 => Some(CudaError::ErrorInitializationError),
            4 => Some(CudaError::ErrorCudartUnloading),
            5 => Some(CudaError::ErrorProfilerDisabled),
            6 => Some(CudaError::ErrorProfilerNotInitialized),
            7 => Some(CudaError::ErrorProfilerAlreadyStarted),
            8 => Some(CudaError::ErrorProfilerAlreadyStopped),
            9 => Some(CudaError::ErrorInvalidConfiguration),
            12 => Some(CudaError::ErrorInvalidPitchValue),
            13 => Some(CudaError::ErrorInvalidSymbol),
            16 => Some(CudaError::ErrorInvalidHostPointer),
            17 => Some(CudaError::ErrorInvalidDevicePointer),
            18 => Some(CudaError::ErrorInvalidTexture),
            19 => Some(CudaError::ErrorInvalidTextureBinding),
            20 => Some(CudaError::ErrorInvalidChannelDescriptor),
            21 => Some(CudaError::ErrorInvalidMemcpyDirection),
            22 => Some(CudaError::ErrorAddressOfConstant),
            23 => Some(CudaError::ErrorTextureFetchFailed),
            24 => Some(CudaError::ErrorTextureNotBound),
            25 => Some(CudaError::ErrorSynchronizationError),
            26 => Some(CudaError::ErrorInvalidFilterSetting),
            27 => Some(CudaError::ErrorInvalidNormSetting),
            28 => Some(CudaError::ErrorMixedDeviceExecution),
            31 => Some(CudaError::ErrorNotYetImplemented),
            32 => Some(CudaError::ErrorMemoryValueTooLarge),
            34 => Some(CudaError::ErrorStubLibrary),
            35 => Some(CudaError::ErrorInsufficientDriver),
            36 => Some(CudaError::ErrorCallRequiresNewerDriver),
            37 => Some(CudaError::ErrorInvalidSurface),
            43 => Some(CudaError::ErrorDuplicateVariableName),
            44 => Some(CudaError::ErrorDuplicateTextureName),
            45 => Some(CudaError::ErrorDuplicateSurfaceName),
            46 => Some(CudaError::ErrorDevicesUnavailable),
            49 => Some(CudaError::ErrorIncompatibleDriverContext),
            52 => Some(CudaError::ErrorMissingConfiguration),
            53 => Some(CudaError::ErrorPriorLaunchFailure),
            65 => Some(CudaError::ErrorLaunchMaxDepthExceeded),
            66 => Some(CudaError::ErrorLaunchFileScopedTex),
            67 => Some(CudaError::ErrorLaunchFileScopedSurf),
            68 => Some(CudaError::ErrorSyncDepthExceeded),
            69 => Some(CudaError::ErrorLaunchPendingCountExceeded),
            98 => Some(CudaError::ErrorInvalidDeviceFunction),
            100 => Some(CudaError::ErrorNoDevice),
            101 => Some(CudaError::ErrorInvalidDevice),
            102 => Some(CudaError::ErrorDeviceNotLicensed),
            103 => Some(CudaError::ErrorSoftwareValidityNotEstablished),
            127 => Some(CudaError::ErrorStartupFailure),
            200 => Some(CudaError::ErrorInvalidKernelImage),
            201 => Some(CudaError::ErrorDeviceUninitialized),
            205 => Some(CudaError::ErrorMapBufferObjectFailed),
            206 => Some(CudaError::ErrorUnmapBufferObjectFailed),
            207 => Some(CudaError::ErrorArrayIsMapped),
            208 => Some(CudaError::ErrorAlreadyMapped),
            209 => Some(CudaError::ErrorNoKernelImageForDevice),
            210 => Some(CudaError::ErrorAlreadyAcquired),
            211 => Some(CudaError::ErrorNotMapped),
            212 => Some(CudaError::ErrorNotMappedAsArray),
            213 => Some(CudaError::ErrorNotMappedAsPointer),
            214 => Some(CudaError::ErrorECCUncorrectable),
            215 => Some(CudaError::ErrorUnsupportedLimit),
            216 => Some(CudaError::ErrorDeviceAlreadyInUse),
            217 => Some(CudaError::ErrorPeerAccessUnsupported),
            218 => Some(CudaError::ErrorInvalidPtx),
            219 => Some(CudaError::ErrorInvalidGraphicsContext),
            220 => Some(CudaError::ErrorNvlinkUncorrectable),
            221 => Some(CudaError::ErrorJitCompilerNotFound),
            222 => Some(CudaError::ErrorUnsupportedPtxVersion),
            223 => Some(CudaError::ErrorJitCompilationDisabled),
            224 => Some(CudaError::ErrorUnsupportedExecAffinity),
            300 => Some(CudaError::ErrorInvalidSource),
            301 => Some(CudaError::ErrorFileNotFound),
            302 => Some(CudaError::ErrorSharedObjectSymbolNotFound),
            303 => Some(CudaError::ErrorSharedObjectInitFailed),
            304 => Some(CudaError::ErrorOperatingSystem),
            400 => Some(CudaError::ErrorInvalidResourceHandle),
            401 => Some(CudaError::ErrorIllegalState),
            500 => Some(CudaError::ErrorSymbolNotFound),
            600 => Some(CudaError::ErrorNotReady),
            700 => Some(CudaError::ErrorIllegalAddress),
            701 => Some(CudaError::ErrorLaunchOutOfResources),
            702 => Some(CudaError::ErrorLaunchTimeout),
            703 => Some(CudaError::ErrorLaunchIncompatibleTexturing),
            704 => Some(CudaError::ErrorPeerAccessAlreadyEnabled),
            705 => Some(CudaError::ErrorPeerAccessNotEnabled),
            708 => Some(CudaError::ErrorSetOnActiveProcess),
            709 => Some(CudaError::ErrorContextIsDestroyed),
            710 => Some(CudaError::ErrorAssert),
            711 => Some(CudaError::ErrorTooManyPeers),
            712 => Some(CudaError::ErrorHostMemoryAlreadyRegistered),
            713 => Some(CudaError::ErrorHostMemoryNotRegistered),
            714 => Some(CudaError::ErrorHardwareStackError),
            715 => Some(CudaError::ErrorIllegalInstruction),
            716 => Some(CudaError::ErrorMisalignedAddress),
            717 => Some(CudaError::ErrorInvalidAddressSpace),
            718 => Some(CudaError::ErrorInvalidPc),
            719 => Some(CudaError::ErrorLaunchFailure),
            720 => Some(CudaError::ErrorCooperativeLaunchTooLarge),
            800 => Some(CudaError::ErrorNotPermitted),
            801 => Some(CudaError::ErrorNotSupported),
            802 => Some(CudaError::ErrorSystemNotReady),
            803 => Some(CudaError::ErrorSystemDriverMismatch),
            804 => Some(CudaError::ErrorCompatNotSupportedOnDevice),
            805 => Some(CudaError::ErrorMpsConnectionFailed),
            806 => Some(CudaError::ErrorMpsRpcFailure),
            807 => Some(CudaError::ErrorMpsServerNotReady),
            808 => Some(CudaError::ErrorMpsMaxClientsReached),
            809 => Some(CudaError::ErrorMpsMaxConnectionsReached),
            810 => Some(CudaError::ErrorMpsClientTerminated),
            811 => Some(CudaError::ErrorCdpNotSupported),
            812 => Some(CudaError::ErrorCdpVersionMismatch),
            900 => Some(CudaError::ErrorStreamCaptureUnsupported),
            901 => Some(CudaError::ErrorStreamCaptureInvalidated),
            902 => Some(CudaError::ErrorStreamCaptureMerge),
            903 => Some(CudaError::ErrorStreamCaptureUnmatched),
            904 => Some(CudaError::ErrorStreamCaptureUnjoined),
            905 => Some(CudaError::ErrorStreamCaptureIsolation),
            906 => Some(CudaError::ErrorStreamCaptureImplicit),
            907 => Some(CudaError::ErrorCapturedEvent),
            908 => Some(CudaError::ErrorStreamCaptureWrongThread),
            909 => Some(CudaError::ErrorTimeout),
            910 => Some(CudaError::ErrorGraphExecUpdateFailure),
            911 => Some(CudaError::ErrorExternalDevice),
            912 => Some(CudaError::ErrorInvalidClusterSize),
            999 => Some(CudaError::ErrorUnknown),
            10000 => Some(CudaError::ErrorApiFailureBase),
            _ => None,
        }
    }

    /// Two values with the same number are the same value.
    pub proof fn lemma_code_injective(a: Self, b: Self)
        requires
            a.code() == b.code(),
        ensures
            a == b,
    {
    }
}

/// The kind of memory that a pointer refers to.
#[derive(Debug, Copy, Clone, Hash, PartialEq, Eq, Structural)]
pub enum CudaMemoryType {
    Unregistered,
    Host,
    Device,
    Managed,
}

impl CudaMemoryType {
    /// The number by which the runtime knows this value.
    pub open spec fn spec_code(self) -> u32 {
        match self {
            CudaMemoryType::Unregistered => 0,
            CudaMemoryType::Host => 1,
            CudaMemoryType::Device => 2,
            CudaMemoryType::Managed => 3,
        }
    }

    /// The number by which the runtime knows this value.
    #[verifier::when_used_as_spec(spec_code)]
    pub fn code(self) -> (r: u32)
        ensures
            r == self.spec_code(),
    {
        match self {
            CudaMemoryType::Unregistered => 0,
            CudaMemoryType::Host => 1,
            CudaMemoryType::Device => 2,
            CudaMemoryType::Managed => 3,
        }
    }

    /// The value that the runtime knows by `code`, if there is one.
    pub fn from_code(code: u32) -> (r: Option<Self>)
        ensures
            forall|value: Self| r == Some(value) <==> #[trigger] value.code() == code,
    {
        match code {
            0 => Some(CudaMemoryType::Unregistered),
            1 => Some(CudaMemoryType::Host),
            2 => Some(CudaMemoryType::Device),
            3 => Some(CudaMemoryType::Managed),
            _ => None,
        }
    }

    /// Two values with the same number are the same value.
    pub proof fn lemma_code_injective(a: Self, b: Self)
        requires
            a.code() == b.code(),
        ensures
            a == b,
    {
    }
}

/// The direction of a memory copy.
#[derive(Debug, Copy, Clone, Hash, PartialEq, Eq, Structural)]
pub enum CudaMemoryCopyKind {
    HostToHost,
    HostToDevice,
    DeviceToHost,
    DeviceToDevice,
    Default,
}

impl CudaMemoryCopyKind {
    /// The number by which the runtime knows this value.
    pub open spec fn spec_code(self) -> u32 {
        match self {
            CudaMemoryCopyKind::HostToHost => 0,
            CudaMemoryCopyKind::HostToDevice => 1,
            CudaMemoryCopyKind::DeviceToHost => 2,
            CudaMemoryCopyKind::DeviceToDevice => 3,
            CudaMemoryCopyKind::Default => 4,
        }
    }

    /// The number by which the runtime knows this value.
    #[verifier::when_used_as_spec(spec_code)]
    pub fn code(self) -> (r: u32)
        ensures
            r == self.spec_code(),
    {
        match self {
            CudaMemoryCopyKind::HostToHost => 0,
            CudaMemoryCopyKind::HostToDevice => 1,
            CudaMemoryCopyKind::DeviceToHost => 2,
            CudaMemoryCopyKind::DeviceToDevice => 3,
            CudaMemoryCopyKind::Default => 4,
        }
    }

    /// Two values with the same number are the same value.
    pub proof fn lemma_code_injective(a: Self, b: Self)
        requires
            a.code() == b.code(),
        ensures
            a == b,
    {
    }
}

/// An attribute of a device that can be asked for.
#[derive(Debug, Copy, Clone, Hash, PartialEq, Eq, Structural)]
pub enum CudaDeviceAttr {
    MaxThreadsPerBlock,
    MaxBlockDimX,
    MaxBlockDimY,
    MaxBlockDimZ,
    MaxGridDimX,
    MaxGridDimY,
    MaxGridDimZ,
    MaxSharedMemoryPerBlock,
    TotalConstantMemory,
    WarpSize,
    MaxPitch,
    MaxRegistersPerBlock,
    ClockRate,
    TextureAlignment,
    GpuOverlap,
    MultiProcessorCount,
    KernelExecTimeout,
    Integrated,
    CanMapHostMemory,
    ComputeMode,
    MaxTexture1DWidth,
    MaxTexture2DWidth,
    MaxTexture2DHeight,
    MaxTexture3DWidth,
    MaxTexture3DHeight,
    MaxTexture3DDepth,
    MaxTexture2DLayeredWidth,
    MaxTexture2DLayeredHeight,
    MaxTexture2DLayeredLayers,
    SurfaceAlignment,
    ConcurrentKernels,
    EccEnabled,
    PciBusId,
    PciDeviceId,
    TccDriver,
    MemoryClockRate,
    GlobalMemoryBusWidth,
    L2CacheSize,
    MaxThreadsPerMultiProcessor,
    AsyncEngineCount,
    UnifiedAddressing,
    MaxTexture1DLayeredWidth,
    MaxTexture1DLayeredLayers,
    MaxTexture2DGatherWidth,
    MaxTexture2DGatherHeight,
    MaxTexture3DWidthAlt,
    MaxTexture3DHeightAlt,
    MaxTexture3DDepthAlt,
    PciDomainId,
    TexturePitchAlignment,
    MaxTextureCubemapWidth,
    MaxTextureCubemapLayeredWidth,
    MaxTextureCubemapLayeredLayers,
    MaxSurface1DWidth,
    MaxSurface2DWidth,
    MaxSurface2DHeight,
    MaxSurface3DWidth,
    MaxSurface3DHeight,
    MaxSurface3DDepth,
    MaxSurface1DLayeredWidth,
    MaxSurface1DLayeredLayers,
    MaxSurface2DLayeredWidth,
    MaxSurface2DLayeredHeight,
    MaxSurface2DLayeredLayers,
    MaxSurfaceCubemapWidth,
    MaxSurfaceCubemapLayeredWidth,
    MaxSurfaceCubemapLayeredLayers,
    MaxTexture1DLinearWidth,
    MaxTexture2DLinearWidth,
    MaxTexture2DLinearHeight,
    MaxTexture2DLinearPitch,
    MaxTexture2DMipmappedWidth,
    MaxTexture2DMipmappedHeight,
    ComputeCapabilityMajor,
    ComputeCapabilityMinor,
    MaxTexture1DMipmappedWidth,
    StreamPrioritiesSupported,
    GlobalL1CacheSupported,
    LocalL1CacheSupported,
    MaxSharedMemoryPerMultiprocessor,
    MaxRegistersPerMultiprocessor,
    ManagedMemory,
    IsMultiGpuBoard,
    MultiGpuBoardGroupID,
    HostNativeAtomicSupported,
    SingleToDoublePrecisionPerfRatio,
    PageableMemoryAccess,
    ConcurrentManagedAccess,
    ComputePreemptionSupported,
    CanUseHostPointerForRegisteredMem,
    Reserved92,
    Reserved93,
    Reserved94,
    CooperativeLaunch,
    CooperativeMultiDeviceLaunch,
    MaxSharedMemoryPerBlockOptin,
    CanFlushRemoteWrites,
    HostRegisterSupported,
    PageableMemoryAccessUsesHostPageTables,
    DirectManagedMemAccessFromHost,
    MaxBlocksPerMultiprocessor,
    MaxPersistingL2CacheSize,
    MaxAccessPolicyWindowSize,
    ReservedSharedMemoryPerBlock,
    SparseCudaArraySupported,
    HostRegisterReadOnlySupported,
    TimelineSemaphoreInteropSupported,
    MemoryPoolsSupported,
    GPUDirectRDMASupported,
    GPUDirectRDMAFlushWritesOptions,
    GPUDirectRDMAWritesOrdering,
    MemoryPoolSupportedHandleTypes,
    ClusterLaunch,
    DeferredMappingCudaArraySupported,
    Reserved122,
    Reserved123,
    Reserved124,
    IpcEventSupport,
    MemSyncDomainCount,
    Max,
}

impl CudaDeviceAttr {
    /// The number by which the runtime knows this value.
    pub open spec fn spec_code(self) -> u32 {
        match self {
            CudaDeviceAttr::MaxThreadsPerBlock => 1,
            CudaDeviceAttr::MaxBlockDimX => 2,
            CudaDeviceAttr::MaxBlockDimY => 3,
            CudaDeviceAttr::MaxBlockDimZ => 4,
            CudaDeviceAttr::MaxGridDimX => 5,
            CudaDeviceAttr::MaxGridDimY => 6,
            CudaDeviceAttr::MaxGridDimZ => 7,
            CudaDeviceAttr::MaxSharedMemoryPerBlock => 8,
            CudaDeviceAttr::TotalConstantMemory => 9,
            CudaDeviceAttr::WarpSize => 10,
            CudaDeviceAttr::MaxPitch => 11,
            CudaDeviceAttr::MaxRegistersPerBlock => 12,
            CudaDeviceAttr::ClockRate => 13,
            CudaDeviceAttr::TextureAlignment => 14,
            CudaDeviceAttr::GpuOverlap => 15,
            CudaDeviceAttr::MultiProcessorCount => 16,
            CudaDeviceAttr::KernelExecTimeout => 17,
            CudaDeviceAttr::Integrated => 18,
            CudaDeviceAttr::CanMapHostMemory => 19,
            CudaDeviceAttr::ComputeMode => 20,
            CudaDeviceAttr::MaxTexture1DWidth => 21,
            CudaDeviceAttr::MaxTexture2DWidth => 22,
            CudaDeviceAttr::MaxTexture2DHeight => 23,
            CudaDeviceAttr::MaxTexture3DWidth => 24,
            CudaDeviceAttr::MaxTexture3DHeight => 25,
            CudaDeviceAttr::MaxTexture3DDepth => 26,
            CudaDeviceAttr::MaxTexture2DLayeredWidth => 27,
            CudaDeviceAttr::MaxTexture2DLayeredHeight => 28,
            CudaDeviceAttr::MaxTexture2DLayeredLayers => 29,
            CudaDeviceAttr::SurfaceAlignment => 30,
            CudaDeviceAttr::ConcurrentKernels => 31,
            CudaDeviceAttr::EccEnabled => 32,
            CudaDeviceAttr::PciBusId => 33,
            CudaDeviceAttr::PciDeviceId => 34,
            CudaDeviceAttr::TccDriver => 35,
            CudaDeviceAttr::MemoryClockRate => 36,
            CudaDeviceAttr::GlobalMemoryBusWidth => 37,
            CudaDeviceAttr::L2CacheSize => 38,
            CudaDeviceAttr::MaxThreadsPerMultiProcessor => 39,
            CudaDeviceAttr::AsyncEngineCount => 40,
            CudaDeviceAttr::UnifiedAddressing => 41,
            CudaDeviceAttr::MaxTexture1DLayeredWidth => 42,
            CudaDeviceAttr::MaxTexture1DLayeredLayers => 43,
            CudaDeviceAttr::MaxTexture2DGatherWidth => 45,
            CudaDeviceAttr::MaxTexture2DGatherHeight => 46,
            CudaDeviceAttr::MaxTexture3DWidthAlt => 47,
            CudaDeviceAttr::MaxTexture3DHeightAlt => 48,
            CudaDeviceAttr::MaxTexture3DDepthAlt => 49,
            CudaDeviceAttr::PciDomainId => 50,
            CudaDeviceAttr::TexturePitchAlignment => 51,
            CudaDeviceAttr::MaxTextureCubemapWidth => 52,
            CudaDeviceAttr::MaxTextureCubemapLayeredWidth => 53,
            CudaDeviceAttr::MaxTextureCubemapLayeredLayers => 54,
            CudaDeviceAttr::MaxSurface1DWidth => 55,
            CudaDeviceAttr::MaxSurface2DWidth => 56,
            CudaDeviceAttr::MaxSurface2DHeight => 57,
            CudaDeviceAttr::MaxSurface3DWidth => 58,
            CudaDeviceAttr::MaxSurface3DHeight => 59,
            CudaDeviceAttr::MaxSurface3DDepth => 60,
            CudaDeviceAttr::MaxSurface1DLayeredWidth => 61,
            CudaDeviceAttr::MaxSurface1DLayeredLayers => 62,
            CudaDeviceAttr::MaxSurface2DLayeredWidth => 63,
            CudaDeviceAttr::MaxSurface2DLayeredHeight => 64,
            CudaDeviceAttr::MaxSurface2DLayeredLayers => 65,
            CudaDeviceAttr::MaxSurfaceCubemapWidth => 66,
            CudaDeviceAttr::MaxSurfaceCubemapLayeredWidth => 67,
            CudaDeviceAttr::MaxSurfaceCubemapLayeredLayers => 68,
            CudaDeviceAttr::MaxTexture1DLinearWidth => 69,
            CudaDeviceAttr::MaxTexture2DLinearWidth => 70,
            CudaDeviceAttr::MaxTexture2DLinearHeight => 71,
            CudaDeviceAttr::MaxTexture2DLinearPitch => 72,
            CudaDeviceAttr::MaxTexture2DMipmappedWidth => 73,
            CudaDeviceAttr::MaxTexture2DMipmappedHeight => 74,
            CudaDeviceAttr::ComputeCapabilityMajor => 75,
            CudaDeviceAttr::ComputeCapabilityMinor => 76,
            CudaDeviceAttr::MaxTexture1DMipmappedWidth => 77,
            CudaDeviceAttr::StreamPrioritiesSupported => 78,
            CudaDeviceAttr::GlobalL1CacheSupported => 79,
            CudaDeviceAttr::LocalL1CacheSupported => 80,
            CudaDeviceAttr::MaxSharedMemoryPerMultiprocessor => 81,
            CudaDeviceAttr::MaxRegistersPerMultiprocessor => 82,
            CudaDeviceAttr::ManagedMemory => 83,
            CudaDeviceAttr::IsMultiGpuBoard => 84,
            CudaDeviceAttr::MultiGpuBoardGroupID => 85,
            CudaDeviceAttr::HostNativeAtomicSupported => 86,
            CudaDeviceAttr::SingleToDoublePrecisionPerfRatio => 87,
            CudaDeviceAttr::PageableMemoryAccess => 88,
            CudaDeviceAttr::ConcurrentManagedAccess => 89,
            CudaDeviceAttr::ComputePreemptionSupported => 90,
            CudaDeviceAttr::CanUseHostPointerForRegisteredMem => 91,
            CudaDeviceAttr::Reserved92 => 92,
            CudaDeviceAttr::Reserved93 => 93,
            CudaDeviceAttr::Reserved94 => 94,
            CudaDeviceAttr::CooperativeLaunch => 95,
            CudaDeviceAttr::CooperativeMultiDeviceLaunch => 96,
            CudaDeviceAttr::MaxSharedMemoryPerBlockOptin => 97,
            CudaDeviceAttr::CanFlushRemoteWrites => 98,
            CudaDeviceAttr::HostRegisterSupported => 99,
            CudaDeviceAttr::PageableMemoryAccessUsesHostPageTables => 100,
            CudaDeviceAttr::DirectManagedMemAccessFromHost => 101,
            CudaDeviceAttr::MaxBlocksPerMultiprocessor => 106,
            CudaDeviceAttr::MaxPersistingL2CacheSize => 108,
            CudaDeviceAttr::MaxAccessPolicyWindowSize => 109,
            CudaDeviceAttr::ReservedSharedMemoryPerBlock => 111,
            CudaDeviceAttr::SparseCudaArraySupported => 112,
            CudaDeviceAttr::HostRegisterReadOnlySupported => 113,
            CudaDeviceAttr::TimelineSemaphoreInteropSupported => 114,
            CudaDeviceAttr::MemoryPoolsSupported => 115,
            CudaDeviceAttr::GPUDirectRDMASupported => 116,
            CudaDeviceAttr::GPUDirectRDMAFlushWritesOptions => 117,
            CudaDeviceAttr::GPUDirectRDMAWritesOrdering => 118,
            CudaDeviceAttr::MemoryPoolSupportedHandleTypes => 119,
            CudaDeviceAttr::ClusterLaunch => 120,
            CudaDeviceAttr::DeferredMappingCudaArraySupported => 121,
            CudaDeviceAttr::Reserved122 => 122,
            CudaDeviceAttr::Reserved123 => 123,
            CudaDeviceAttr::Reserved124 => 124,
            CudaDeviceAttr::IpcEventSupport => 125,
            CudaDeviceAttr::MemSyncDomainCount => 126,
            CudaDeviceAttr::Max => 127,
        }
    }

    /// The number by which the runtime knows this value.
    #[verifier::when_used_as_spec(spec_code)]
    pub fn code(self) -> (r: u32)
        ensures
            r == self.spec_code(),
    {
        match self {
            CudaDeviceAttr::MaxThreadsPerBlock => 1,
            CudaDeviceAttr::MaxBlockDimX => 2,
            CudaDeviceAttr::MaxBlockDimY => 3,
            CudaDeviceAttr::MaxBlockDimZ => 4,
            CudaDeviceAttr::MaxGridDimX => 5,
            CudaDeviceAttr::MaxGridDimY => 6,
            CudaDeviceAttr::MaxGridDimZ => 7,
            CudaDeviceAttr::MaxSharedMemoryPerBlock => 8,
            CudaDeviceAttr::TotalConstantMemory => 9,
            CudaDeviceAttr::WarpSize => 10,
            CudaDeviceAttr::MaxPitch => 11,
            CudaDeviceAttr::MaxRegistersPerBlock => 12,
            CudaDeviceAttr::ClockRate => 13,
            CudaDeviceAttr::TextureAlignment => 14,
            CudaDeviceAttr::GpuOverlap => 15,
            CudaDeviceAttr::MultiProcessorCount => 16,
            CudaDeviceAttr::KernelExecTimeout => 17,
            CudaDeviceAttr::Integrated => 18,
            CudaDeviceAttr::CanMapHostMemory => 19,
            CudaDeviceAttr::ComputeMode => 20,
            CudaDeviceAttr::MaxTexture1DWidth => 21,
            CudaDeviceAttr::MaxTexture2DWidth => 22,
            CudaDeviceAttr::MaxTexture2DHeight => 23,
            CudaDeviceAttr::MaxTexture3DWidth => 24,
            CudaDeviceAttr::MaxTexture3DHeight => 25,
            CudaDeviceAttr::MaxTexture3DDepth => 26,
            CudaDeviceAttr::MaxTexture2DLayeredWidth => 27,
            CudaDeviceAttr::MaxTexture2DLayeredHeight => 28,
            CudaDeviceAttr::MaxTexture2DLayeredLayers => 29,
            CudaDeviceAttr::SurfaceAlignment => 30,
            CudaDeviceAttr::ConcurrentKernels => 31,
            CudaDeviceAttr::EccEnabled => 32,
            CudaDeviceAttr::PciBusId => 33,
            CudaDeviceAttr::PciDeviceId => 34,
            CudaDeviceAttr::TccDriver => 35,
            CudaDeviceAttr::MemoryClockRate => 36,
            CudaDeviceAttr::GlobalMemoryBusWidth => 37,
            CudaDeviceAttr::L2CacheSize => 38,
            CudaDeviceAttr::MaxThreadsPerMultiProcessor => 39,
            CudaDeviceAttr::AsyncEngineCount => 40,
            CudaDeviceAttr::UnifiedAddressing => 41,
            CudaDeviceAttr::MaxTexture1DLayeredWidth => 42,
            CudaDeviceAttr::MaxTexture1DLayeredLayers => 43,
            CudaDeviceAttr::MaxTexture2DGatherWidth => 45,
            CudaDeviceAttr::MaxTexture2DGatherHeight => 46,
            CudaDeviceAttr::MaxTexture3DWidthAlt => 47,
            CudaDeviceAttr::MaxTexture3DHeightAlt => 48,
            CudaDeviceAttr::MaxTexture3DDepthAlt => 49,
            CudaDeviceAttr::PciDomainId => 50,
            CudaDeviceAttr::TexturePitchAlignment => 51,
            CudaDeviceAttr::MaxTextureCubemapWidth => 52,
            CudaDeviceAttr::MaxTextureCubemapLayeredWidth => 53,
            CudaDeviceAttr::MaxTextureCubemapLayeredLayers => 54,
            CudaDeviceAttr::MaxSurface1DWidth => 55,
            CudaDeviceAttr::MaxSurface2DWidth => 56,
            CudaDeviceAttr::MaxSurface2DHeight => 57,
            CudaDeviceAttr::MaxSurface3DWidth => 58,
            CudaDeviceAttr::MaxSurface3DHeight => 59,
            CudaDeviceAttr::MaxSurface3DDepth => 60,
            CudaDeviceAttr::MaxSurface1DLayeredWidth => 61,
            CudaDeviceAttr::MaxSurface1DLayeredLayers => 62,
            CudaDeviceAttr::MaxSurface2DLayeredWidth => 63,
            CudaDeviceAttr::MaxSurface2DLayeredHeight => 64,
            CudaDeviceAttr::MaxSurface2DLayeredLayers => 65,
            CudaDeviceAttr::MaxSurfaceCubemapWidth => 66,
            CudaDeviceAttr::MaxSurfaceCubemapLayeredWidth => 67,
            CudaDeviceAttr::MaxSurfaceCubemapLayeredLayers => 68,
            CudaDeviceAttr::MaxTexture1DLinearWidth => 69,
            CudaDeviceAttr::MaxTexture2DLinearWidth => 70,
            CudaDeviceAttr::MaxTexture2DLinearHeight => 71,
            CudaDeviceAttr::MaxTexture2DLinearPitch => 72,
            CudaDeviceAttr::MaxTexture2DMipmappedWidth => 73,
            CudaDeviceAttr::MaxTexture2DMipmappedHeight => 74,
            CudaDeviceAttr::ComputeCapabilityMajor => 75,
            CudaDeviceAttr::ComputeCapabilityMinor => 76,
            CudaDeviceAttr::MaxTexture1DMipmappedWidth => 77,
            CudaDeviceAttr::StreamPrioritiesSupported => 78,
            CudaDeviceAttr::GlobalL1CacheSupported => 79,
            CudaDeviceAttr::LocalL1CacheSupported => 80,
            CudaDeviceAttr::MaxSharedMemoryPerMultiprocessor => 81,
            CudaDeviceAttr::MaxRegistersPerMultiprocessor => 82,
            CudaDeviceAttr::ManagedMemory => 83,
            CudaDeviceAttr::IsMultiGpuBoard => 84,
            CudaDeviceAttr::MultiGpuBoardGroupID => 85,
            CudaDeviceAttr::HostNativeAtomicSupported => 86,
            CudaDeviceAttr::SingleToDoublePrecisionPerfRatio => 87,
            CudaDeviceAttr::PageableMemoryAccess => 88,
            CudaDeviceAttr::ConcurrentManagedAccess => 89,
            CudaDeviceAttr::ComputePreemptionSupported => 90,
            CudaDeviceAttr::CanUseHostPointerForRegisteredMem => 91,
            CudaDeviceAttr::Reserved92 => 92,
            CudaDeviceAttr::Reserved93 => 93,
            CudaDeviceAttr::Reserved94 => 94,
            CudaDeviceAttr::CooperativeLaunch => 95,
            CudaDeviceAttr::CooperativeMultiDeviceLaunch => 96,
            CudaDeviceAttr::MaxSharedMemoryPerBlockOptin => 97,
            CudaDeviceAttr::CanFlushRemoteWrites => 98,
            CudaDeviceAttr::HostRegisterSupported => 99,
            CudaDeviceAttr::PageableMemoryAccessUsesHostPageTables => 100,
            CudaDeviceAttr::DirectManagedMemAccessFromHost => 101,
            CudaDeviceAttr::MaxBlocksPerMultiprocessor => 106,
            CudaDeviceAttr::MaxPersistingL2CacheSize => 108,
            CudaDeviceAttr::MaxAccessPolicyWindowSize => 109,
            CudaDeviceAttr::ReservedSharedMemoryPerBlock => 111,
            CudaDeviceAttr::SparseCudaArraySupported => 112,
            CudaDeviceAttr::HostRegisterReadOnlySupported => 113,
            CudaDeviceAttr::TimelineSemaphoreInteropSupported => 114,
            CudaDeviceAttr::MemoryPoolsSupported => 115,
            CudaDeviceAttr::GPUDirectRDMASupported => 116,
            CudaDeviceAttr::GPUDirectRDMAFlushWritesOptions => 117,
            CudaDeviceAttr::GPUDirectRDMAWritesOrdering => 118,
            CudaDeviceAttr::MemoryPoolSupportedHandleTypes => 119,
            CudaDeviceAttr::ClusterLaunch => 120,
            CudaDeviceAttr::DeferredMappingCudaArraySupported => 121,
            CudaDeviceAttr::Reserved122 => 122,
            CudaDeviceAttr::Reserved123 => 123,
            CudaDeviceAttr::Reserved124 => 124,
            CudaDeviceAttr::IpcEventSupport => 125,
            CudaDeviceAttr::MemSyncDomainCount => 126,
            CudaDeviceAttr::Max => 127,
        }
    }

    /// The attribute that was once named for the largest number of
    /// timeline semaphores.
    pub const MaxTimelineSemaphoreInteropSupported: CudaDeviceAttr =
        CudaDeviceAttr::TimelineSemaphoreInteropSupported;

    /// Two values with the same number are the same value.
    pub proof fn lemma_code_injective(a: Self, b: Self)
        requires
            a.code() == b.code(),
        ensures
            a == b,
    {
    }
}

/// An attribute of a memory pool.
#[derive(Debug, Copy, Clone, Hash, PartialEq, Eq, Structural)]
pub enum CudaMemPoolAttribute {
    ReuseFollowEventDependencies,
    ReuseAllowOpportunistic,
    ReuseAllowInternalDependencies,
    AttrReleaseThreshold,
    AttrReservedMemCurrent,
    AttrReservedMemHigh,
    AttrUsedMemCurrent,
    AttrUsedMemHigh,
}

impl CudaMemPoolAttribute {
    /// The number by which the runtime knows this value.
    pub open spec fn spec_code(self) -> u32 {
        match self {
            CudaMemPoolAttribute::ReuseFollowEventDependencies => 1,
            CudaMemPoolAttribute::ReuseAllowOpportunistic => 2,
            CudaMemPoolAttribute::ReuseAllowInternalDependencies => 3,
            CudaMemPoolAttribute::AttrReleaseThreshold => 4,
            CudaMemPoolAttribute::AttrReservedMemCurrent => 5,
            CudaMemPoolAttribute::AttrReservedMemHigh => 6,
            CudaMemPoolAttribute::AttrUsedMemCurrent => 7,
            CudaMemPoolAttribute::AttrUsedMemHigh => 8,
        }
    }

    /// The number by which the runtime knows this value.
    #[verifier::when_used_as_spec(spec_code)]
    pub fn code(self) -> (r: u32)
        ensures
            r == self.spec_code(),
    {
        match self {
            CudaMemPoolAttribute::ReuseFollowEventDependencies => 1,
            CudaMemPoolAttribute::ReuseAllowOpportunistic => 2,
            CudaMemPoolAttribute::ReuseAllowInternalDependencies => 3,
            CudaMemPoolAttribute::AttrReleaseThreshold => 4,
            CudaMemPoolAttribute::AttrReservedMemCurrent => 5,
            CudaMemPoolAttribute::AttrReservedMemHigh => 6,
            CudaMemPoolAttribute::AttrUsedMemCurrent => 7,
            CudaMemPoolAttribute::AttrUsedMemHigh => 8,
        }
    }

    /// Two values with the same number are the same value.
    pub proof fn lemma_code_injective(a: Self, b: Self)
        requires
            a.code() == b.code(),
        ensures
            a == b,
    {
    }
}

/// The kind of place where memory lies.
#[derive(Debug, Copy, Clone, Hash, PartialEq, Eq, Structural)]
pub enum CudaMemLocationType {
    Invalid,
    Device,
}

impl CudaMemLocationType {
    /// The number by which the runtime knows this value.
    pub open spec fn spec_code(self) -> u32 {
        match self {
            CudaMemLocationType::Invalid => 0,
            CudaMemLocationType::Device => 1,
        }
    }

    /// The number by which the runtime knows this value.
    #[verifier::when_used_as_spec(spec_code)]
    pub fn code(self) -> (r: u32)
        ensures
            r == self.spec_code(),
    {
        match self {
            CudaMemLocationType::Invalid => 0,
            CudaMemLocationType::Device => 1,
        }
    }

    /// The value that the runtime knows by `code`, if there is one.
    pub fn from_code(code: u32) -> (r: Option<Self>)
        ensures
            forall|value: Self| r == Some(value) <==> #[trigger] value.code() == code,
    {
        match code {
            0 => Some(CudaMemLocationType::Invalid),
            1 => Some(CudaMemLocationType::Device),
            _ => None,
        }
    }

    /// Two values with the same number are the same value.
    pub proof fn lemma_code_injective(a: Self, b: Self)
        requires
            a.code() == b.code(),
        ensures
            a == b,
    {
    }
}

/// The access that a memory pool grants to a location.
#[derive(Debug, Copy, Clone, Hash, PartialEq, Eq, Structural)]
pub enum CudaMemAccessFlags {
    NoAccess,
    Read,
    ReadWrite,
}

impl CudaMemAccessFlags {
    /// The number by which the runtime knows this value.
    pub open spec fn spec_code(self) -> u32 {
        match self {
            CudaMemAccessFlags::NoAccess => 0,
            CudaMemAccessFlags::Read => 1,
            CudaMemAccessFlags::ReadWrite => 3,
        }
    }

    /// The number by which the runtime knows this value.
    #[verifier::when_used_as_spec(spec_code)]
    pub fn code(self) -> (r: u32)
        ensures
            r == self.spec_code(),
    {
        match self {
            CudaMemAccessFlags::NoAccess => 0,
            CudaMemAccessFlags::Read => 1,
            CudaMemAccessFlags::ReadWrite => 3,
        }
    }

    /// The value that the runtime knows by `code`, if there is one.
    pub fn from_code(code: u32) -> (r: Option<Self>)
        ensures
            forall|value: Self| r == Some(value) <==> #[trigger] value.code() == code,
    {
        match code {
            0 => Some(CudaMemAccessFlags::NoAccess),
            1 => Some(CudaMemAccessFlags::Read),
            3 => Some(CudaMemAccessFlags::ReadWrite),
            _ => None,
        }
    }

    /// Two values with the same number are the same value.
    pub proof fn lemma_code_injective(a: Self, b: Self)
        requires
            a.code() == b.code(),
        ensures
            a == b,
    {
    }
}

/// The kind of allocation that a memory pool makes.
#[derive(Debug, Copy, Clone, Hash, PartialEq, Eq, Structural)]
pub enum CudaMemAllocationType {
    Invalid,
    Pinned,
    Max,
}

impl CudaMemAllocationType {
    /// The number by which the runtime knows this value.
    pub open spec fn spec_code(self) -> u32 {
        match self {
            CudaMemAllocationType::Invalid => 0,
            CudaMemAllocationType::Pinned => 1,
            CudaMemAllocationType::Max => 2147483647,
        }
    }

    /// The number by which the runtime knows this value.
    #[verifier::when_used_as_spec(spec_code)]
    pub fn code(self) -> (r: u32)
        ensures
            r == self.spec_code(),
    {
        match self {
            CudaMemAllocationType::Invalid => 0,
            CudaMemAllocationType::Pinned => 1,
            CudaMemAllocationType::Max => 2147483647,
        }
    }

    /// Two values with the same number are the same value.
    pub proof fn lemma_code_injective(a: Self, b: Self)
        requires
            a.code() == b.code(),
        ensures
            a == b,
    {
    }
}

/// The kind of handle by which an allocation is shared.
#[derive(Debug, Copy, Clone, Hash, PartialEq, Eq, Structural)]
pub enum CudaMemAllocationHandleType {
    NoHandle,
    PosixFileDescriptor,
    Win32,
    Win32Kmt,
}

impl CudaMemAllocationHandleType {
    /// The number by which the runtime knows this value.
    pub open spec fn spec_code(self) -> u32 {
        match self {
            CudaMemAllocationHandleType::NoHandle => 0,
            CudaMemAllocationHandleType::PosixFileDescriptor => 1,
            CudaMemAllocationHandleType::Win32 => 2,
            CudaMemAllocationHandleType::Win32Kmt => 4,
        }
    }

    /// The number by which the runtime knows this value.
    #[verifier::when_used_as_spec(spec_code)]
    pub fn code(self) -> (r: u32)
        ensures
            r == self.spec_code(),
    {
        match self {
            CudaMemAllocationHandleType::NoHandle => 0,
            CudaMemAllocationHandleType::PosixFileDescriptor => 1,
            CudaMemAllocationHandleType::Win32 => 2,
            CudaMemAllocationHandleType::Win32Kmt => 4,
        }
    }

    /// Two values with the same number are the same value.
    pub proof fn lemma_code_injective(a: Self, b: Self)
        requires
            a.code() == b.code(),
        ensures
            a == b,
    {
    }
}

/// The status of a call of the CUDA runtime, under the runtime's own name.
pub type cudaError_t = CudaError;

/// A place where memory lies: a kind and, for a device, its ordinal.
#[derive(Debug, Copy, Clone)]
pub struct CudaMemLocation {
    pub type_: CudaMemLocationType,
    pub id: i32,
}

/// The access that a memory pool grants to one location.
#[derive(Debug, Copy, Clone)]
pub struct CudaMemAccessDesc {
    pub location: CudaMemLocation,
    pub flags: CudaMemAccessFlags,
}

/// What a stream handle points to. No value of it is ever made or read.
#[derive(Debug, Copy, Clone)]
pub struct CUstream_st {
    _unused: [u8; 0],
}

/// What an event handle points to. No value of it is ever made or read.
#[derive(Debug, Copy, Clone)]
pub struct CUevent_st {
    _unused: [u8; 0],
}

/// What a memory pool handle points to. No value of it is ever made or read.
#[derive(Debug, Copy, Clone)]
pub struct CUmemPoolHandle_st {
    _unused: [u8; 0],
}

} // verus!
