use effie::allocator::{PoolRequest, LOADER_DATA, POOL_ALIGNMENT};
use effie::Allocator;

#[test]
fn loader_data_matches_uefi() {
    assert_eq!(LOADER_DATA, r_efi::efi::LOADER_DATA);
}

#[test]
fn small_alignments_use_pool() {
    assert_eq!(Allocator.pool_request(64, 1), Some(PoolRequest { memory_type: LOADER_DATA, size: 64 }));
    assert_eq!(Allocator.pool_request(0, 8), Some(PoolRequest { memory_type: LOADER_DATA, size: 0 }));
    assert_eq!(
        Allocator.pool_request(4096, POOL_ALIGNMENT),
        Some(PoolRequest { memory_type: LOADER_DATA, size: 4096 })
    );
}

#[test]
fn large_alignments_fail() {
    assert_eq!(Allocator.pool_request(64, 16), None);
    assert_eq!(Allocator.pool_request(64, 4096), None);
}
