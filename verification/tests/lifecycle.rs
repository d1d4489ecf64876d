use bpf_jit_filter::filter::entry_lengths;
use bpf_jit_filter::filter::BpfJitFilter;
use bpf_jit_filter::region::ExecutableRegion;
use bpf_jit_filter::region::WritableRegion;

fn sample_code() -> Vec<u8> {
    vec![0x48, 0x31, 0xc0, 0xb8, 0x01, 0x00, 0x00, 0x00, 0xc3]
}

#[test]
fn compile_failure_yields_no_handle() {
    assert!(BpfJitFilter::compile(None).is_none());
}

#[test]
fn compile_adopts_generated_code() {
    let code = sample_code();
    let handle = BpfJitFilter::compile(Some(code.clone())).unwrap();
    assert_eq!(handle.size(), code.len());
    assert_eq!(handle.code(), code);
}

#[test]
fn matched_is_verdict_above_zero() {
    let handle = BpfJitFilter::compile(Some(sample_code())).unwrap();
    assert!(!handle.matched(0));
    assert!(handle.matched(1));
    assert!(handle.matched(u32::MAX));
}

#[test]
fn duplicate_is_byte_identical() {
    let handle = BpfJitFilter::compile(Some(sample_code())).unwrap();
    let copy = handle.duplicate();
    assert_eq!(copy.size(), handle.size());
    assert_eq!(copy.code(), handle.code());
}

#[test]
fn duplicate_matches_alike() {
    let handle = BpfJitFilter::compile(Some(sample_code())).unwrap();
    let copy = handle.duplicate();
    for verdict in [0, 1, 2, 0xffff, u32::MAX] {
        assert_eq!(copy.matched(verdict), handle.matched(verdict));
    }
}

#[test]
fn duplicate_outlives_source() {
    let code = sample_code();
    let handle = BpfJitFilter::compile(Some(code.clone())).unwrap();
    let copy = handle.duplicate();
    let freed = handle.release();
    assert_eq!(freed, code.len());
    assert_eq!(copy.code(), code);
    assert!(copy.matched(1));
    assert!(!copy.matched(0));
}

#[test]
fn release_frees_the_whole_region() {
    let code = sample_code();
    let handle = BpfJitFilter::compile(Some(code.clone())).unwrap();
    assert_eq!(handle.release(), code.len());
}

#[test]
fn releasing_one_handle_leaves_the_other_untouched() {
    let code = sample_code();
    let first = BpfJitFilter::compile(Some(code.clone())).unwrap();
    let second = BpfJitFilter::compile(Some(code.clone())).unwrap();
    assert_eq!(first.release(), code.len());
    assert_eq!(second.code(), code);
    assert!(second.matched(7));
    assert!(!second.matched(0));
}

#[test]
fn entry_lengths_are_the_buffer_length_twice() {
    /* 74-byte Ethernet/IPv4/TCP packet from 185.50.25.2 */
    let packet: [u8; 74] = [
        0x68, 0x05, 0xca, 0x21, 0x58, 0x86,
        0x94, 0xde, 0x80, 0x69, 0xbb, 0xe6,
        0x08, 0x00, 0x45, 0x00,
        0x00, 0x3c, 0x78, 0x85, 0x40, 0x00,
        0x40, 0x06, 0x13, 0xb6, 0x0a, 0x64,
        0xd1, 0xe8, 0xb9, 0x32,
        0x19, 0x02, 0x83, 0xbf, 0x00, 0x16,
        0x8d, 0x70, 0xa5, 0x97, 0x00, 0x00,
        0x00, 0x00, 0xa0, 0x02,
        0x72, 0x10, 0x74, 0x3e, 0x00, 0x00,
        0x02, 0x04, 0x05, 0xb4, 0x04, 0x02,
        0x08, 0x0a, 0x1f, 0x40,
        0xdd, 0x12, 0x00, 0x00, 0x00, 0x00,
        0x01, 0x03, 0x03, 0x07,
    ];
    assert_eq!(entry_lengths(&packet), (74, 74));
    assert_eq!(entry_lengths(&[]), (0, 0));
}

#[test]
fn writable_region_starts_zeroed() {
    let region = WritableRegion::allocate(16);
    assert_eq!(region.len(), 16);
    let sealed = region.seal();
    assert_eq!(sealed.contents(), vec![0u8; 16]);
}

#[test]
fn fill_then_seal_preserves_bytes() {
    let code = sample_code();
    let mut region = WritableRegion::allocate(code.len());
    region.fill(&code);
    let sealed = region.seal();
    assert_eq!(sealed.contents(), code);
    assert_eq!(sealed.len(), code.len());
}

#[test]
fn region_duplicate_copies_and_releases_independently() {
    let code = sample_code();
    let original = ExecutableRegion::adopt(code.clone());
    let copy = original.duplicate();
    assert_eq!(original.release(), code.len());
    assert_eq!(copy.contents(), code);
    assert_eq!(copy.release(), code.len());
}
