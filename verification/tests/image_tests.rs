use memprobe::image::{MemImage, u64_from_le};

fn image_with(base: u64, len: usize) -> MemImage {
    MemImage { base, bytes: vec![0u8; len] }
}

fn put_u64(img: &mut MemImage, addr: u64, v: u64) {
    let off = (addr - img.base) as usize;
    img.bytes[off..off + 8].copy_from_slice(&v.to_le_bytes());
}

#[test]
fn read_u64_is_little_endian() {
    let mut img = image_with(0x1000, 32);
    img.bytes[..8].copy_from_slice(&[1, 2, 3, 4, 5, 6, 7, 8]);
    assert_eq!(img.read_u64(0x1000), 0x0807_0605_0403_0201);
}

#[test]
fn read_u64_outside_snapshot_is_zero() {
    let mut img = image_with(0x1000, 32);
    put_u64(&mut img, 0x1008, 0x55AA);
    assert_eq!(img.read_u64(0x1008), 0x55AA);
    assert_eq!(img.read_u64(0x0FF8), 0); // below the base
    assert_eq!(img.read_u64(0x1019), 0); // last byte past the end
    assert_eq!(img.read_u64(0x2000), 0); // far past the end
    assert_eq!(img.read_u64(u64::MAX), 0);
}

#[test]
fn read_window_copies_or_fails_whole() {
    let mut img = image_with(0x1000, 16);
    img.bytes = (0u8..16).collect();
    let w = img.read_window(0x1004, 8).expect("window inside the snapshot");
    assert_eq!(w, vec![4, 5, 6, 7, 8, 9, 10, 11]);
    assert!(img.read_window(0x1009, 8).is_none());
    assert!(img.read_window(0x0FFF, 4).is_none());
    let whole = img.read_window(0x1000, 16).expect("whole snapshot");
    assert_eq!(whole.len(), 16);
}

#[test]
fn u64_from_le_reads_reply_words() {
    assert_eq!(u64_from_le(&vec![1, 0, 0, 0, 0, 0, 0, 0]), 1);
    assert_eq!(u64_from_le(&vec![0, 0, 0, 0, 0, 0, 0, 0x80]), 0x8000_0000_0000_0000);
    assert_eq!(u64_from_le(&vec![1, 2, 3]), 0);
    assert_eq!(u64_from_le(&vec![]), 0);
}
