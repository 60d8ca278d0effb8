//! Tests for the native-buffer hand-back protocol and the kernel descriptor
//! lifecycle.

use magick_rust::kernel::{kernel_shape_check, KernelInfo};
use magick_rust::memory::NativeBuffer;
use magick_rust::MagickWand;

#[test]
fn test_buffer_copy_matches_contents() {
    let native: [u8; 5] = [0xFF, 0xD8, 0x00, 0x7F, 0xD9];
    let buffer = NativeBuffer::adopt(&native);
    let owned = buffer.to_owned_bytes();
    assert_eq!(owned, vec![0xFF, 0xD8, 0x00, 0x7F, 0xD9]);
}

#[test]
fn test_blob_write_releases_buffer_once() {
    // the blob hand-over: copy the bytes out first, hand the buffer back
    // exactly once, then drop the source wand; the wand's destruction does
    // not touch the already handed-back buffer
    let native: [u8; 3] = [1, 2, 3];
    let mut buffer = NativeBuffer::adopt(&native);
    let copied = buffer.to_owned_bytes();
    buffer.release();
    assert_eq!(copied, vec![1, 2, 3]);
    let mut wand = MagickWand::new();
    let _ = wand.clear_exception(true);
    wand.destroy();
}

#[test]
fn test_empty_buffer() {
    let native: [u8; 0] = [];
    let mut buffer = NativeBuffer::adopt(&native);
    assert_eq!(buffer.to_owned_bytes(), Vec::<u8>::new());
    buffer.release();
}

#[test]
fn test_kernel_acquire_outcomes() {
    let kernel = KernelInfo::new(true).unwrap();
    let mut copy = kernel.clone_acquired(true);
    copy.destroy();
    let mut kernel = kernel;
    kernel.destroy();
    let err = KernelInfo::new(false).unwrap_err();
    assert_eq!(err.0, "failed to acquire kernel info");
}

#[test]
fn test_kernel_shape_check() {
    assert_eq!(kernel_shape_check(Some((3, 3)), Some(9)).unwrap(), (3, 3));
    let err = kernel_shape_check(None, Some(9)).unwrap_err();
    assert_eq!(err.0, "no kernel size given");
    let err = kernel_shape_check(Some((3, 3)), None).unwrap_err();
    assert_eq!(err.0, "no kernel values given");
    let err = kernel_shape_check(Some((3, 3)), Some(8)).unwrap_err();
    assert_eq!(err.0, "kernel size doesn't match kernel values size");
}
