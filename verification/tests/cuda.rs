use plonk_gates::cuda::{
    cudaError_t, cudaEventDisableTiming, cudaHostRegisterReadOnly, CudaDeviceAttr, CudaError,
    CudaMemAccessDesc, CudaMemAccessFlags, CudaMemAllocationHandleType, CudaMemAllocationType,
    CudaMemLocation, CudaMemLocationType, CudaMemPoolAttribute, CudaMemoryCopyKind,
    CudaMemoryType,
};

#[test]
fn status_codes() {
    assert_eq!(CudaError::Success.code(), 0);
    assert_eq!(CudaError::ErrorInvalidValue.code(), 1);
    assert_eq!(CudaError::ErrorInvalidPitchValue.code(), 12);
    assert_eq!(CudaError::ErrorNotReady.code(), 600);
    assert_eq!(CudaError::ErrorUnknown.code(), 999);
    assert_eq!(CudaError::ErrorApiFailureBase.code(), 10000);
    let status: cudaError_t = CudaError::ErrorMemoryAllocation;
    assert_eq!(status.code(), 2);
}

#[test]
fn status_from_code() {
    assert_eq!(CudaError::from_code(0), Some(CudaError::Success));
    assert_eq!(CudaError::from_code(719), Some(CudaError::ErrorLaunchFailure));
    assert_eq!(CudaError::from_code(10000), Some(CudaError::ErrorApiFailureBase));
    // The runtime skips some numbers.
    assert_eq!(CudaError::from_code(10), None);
    assert_eq!(CudaError::from_code(11), None);
    assert_eq!(CudaError::from_code(u32::MAX), None);
    for code in 0..=10000u32 {
        if let Some(status) = CudaError::from_code(code) {
            assert_eq!(status.code(), code);
        }
    }
}

#[test]
fn kinds_and_flags() {
    assert_eq!(CudaMemoryType::Unregistered.code(), 0);
    assert_eq!(CudaMemoryType::Managed.code(), 3);
    assert_eq!(CudaMemoryType::from_code(2), Some(CudaMemoryType::Device));
    assert_eq!(CudaMemoryType::from_code(4), None);
    assert_eq!(CudaMemoryCopyKind::HostToDevice.code(), 1);
    assert_eq!(CudaMemoryCopyKind::Default.code(), 4);
    assert_eq!(CudaMemPoolAttribute::ReuseFollowEventDependencies.code(), 1);
    assert_eq!(CudaMemPoolAttribute::AttrUsedMemHigh.code(), 8);
    assert_eq!(CudaMemLocationType::Invalid.code(), 0);
    assert_eq!(CudaMemLocationType::Device.code(), 1);
    assert_eq!(CudaMemAccessFlags::NoAccess.code(), 0);
    assert_eq!(CudaMemAccessFlags::ReadWrite.code(), 3);
    assert_eq!(CudaMemAccessFlags::from_code(1), Some(CudaMemAccessFlags::Read));
    assert_eq!(CudaMemAccessFlags::from_code(2), None);
    assert_eq!(CudaMemAllocationType::Max.code(), 2147483647);
    assert_eq!(CudaMemAllocationHandleType::NoHandle.code(), 0);
    assert_eq!(CudaMemAllocationHandleType::Win32Kmt.code(), 4);
    assert_eq!(cudaEventDisableTiming, 2);
    assert_eq!(cudaHostRegisterReadOnly, 8);
}

#[test]
fn device_attributes() {
    assert_eq!(CudaDeviceAttr::MaxThreadsPerBlock.code(), 1);
    assert_eq!(CudaDeviceAttr::MaxTexture2DGatherWidth.code(), 45);
    assert_eq!(CudaDeviceAttr::MaxBlocksPerMultiprocessor.code(), 106);
    assert_eq!(CudaDeviceAttr::Max.code(), 127);
    assert_eq!(
        CudaDeviceAttr::MaxTimelineSemaphoreInteropSupported,
        CudaDeviceAttr::TimelineSemaphoreInteropSupported
    );
    assert_eq!(CudaDeviceAttr::MaxTimelineSemaphoreInteropSupported.code(), 114);
}

#[test]
fn access_descriptions() {
    let location = CudaMemLocation { type_: CudaMemLocationType::Device, id: 1 };
    let access = CudaMemAccessDesc { location, flags: CudaMemAccessFlags::ReadWrite };
    assert_eq!(access.location.id, 1);
    assert_eq!(access.location.type_, CudaMemLocationType::Device);
    assert_eq!(access.flags.code(), 3);
}
