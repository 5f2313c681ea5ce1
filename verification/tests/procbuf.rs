use hexosynth::dsp::{ProcBuf, MAX_BLOCK_SIZE};

fn bits(x: f32) -> u32 {
    x.to_bits()
}

#[test]
fn block_size_is_128() {
    assert_eq!(MAX_BLOCK_SIZE, 128);
}

#[test]
fn new_buffer_is_silent() {
    let buf = ProcBuf::new();
    assert!(!buf.is_null());
    for i in 0..MAX_BLOCK_SIZE {
        assert_eq!(buf.read(i), bits(0.0));
    }
}

#[test]
fn null_buffer_reads_as_silence() {
    let buf = ProcBuf::null();
    assert!(buf.is_null());
    for i in 0..MAX_BLOCK_SIZE {
        assert_eq!(buf.read(i), bits(0.0));
    }
}

#[test]
fn fill_then_read_returns_the_value_everywhere() {
    let mut buf = ProcBuf::new();
    buf.fill(bits(0.25));
    for i in 0..MAX_BLOCK_SIZE {
        assert_eq!(f32::from_bits(buf.read(i)), 0.25);
    }
    buf.fill(bits(-3.5));
    for i in 0..MAX_BLOCK_SIZE {
        assert_eq!(f32::from_bits(buf.read(i)), -3.5);
    }
}

#[test]
fn write_then_read_returns_the_value_and_leaves_the_rest() {
    let mut buf = ProcBuf::new();
    buf.fill(bits(0.5));
    buf.write(17, bits(-1.0));
    for i in 0..MAX_BLOCK_SIZE {
        let expected = if i == 17 { -1.0 } else { 0.5 };
        assert_eq!(f32::from_bits(buf.read(i)), expected);
    }
    buf.write(0, bits(2.0));
    buf.write(MAX_BLOCK_SIZE - 1, bits(3.0));
    assert_eq!(f32::from_bits(buf.read(0)), 2.0);
    assert_eq!(f32::from_bits(buf.read(MAX_BLOCK_SIZE - 1)), 3.0);
    assert_eq!(f32::from_bits(buf.read(17)), -1.0);
    assert_eq!(f32::from_bits(buf.read(1)), 0.5);
}

#[test]
fn write_keeps_the_pattern_of_the_sample() {
    let mut buf = ProcBuf::new();
    buf.write(3, 0x7fc0_1234);
    buf.write(4, bits(-0.0));
    assert_eq!(buf.read(3), 0x7fc0_1234);
    assert_eq!(buf.read(4), 0x8000_0000);
}

#[test]
fn write_from_copies_over_the_start() {
    let mut buf = ProcBuf::new();
    buf.fill(bits(9.0));
    let src = [bits(1.0), bits(2.0), bits(3.0)];
    buf.write_from(&src);
    assert_eq!(f32::from_bits(buf.read(0)), 1.0);
    assert_eq!(f32::from_bits(buf.read(1)), 2.0);
    assert_eq!(f32::from_bits(buf.read(2)), 3.0);
    for i in 3..MAX_BLOCK_SIZE {
        assert_eq!(f32::from_bits(buf.read(i)), 9.0);
    }
}

#[test]
fn write_from_of_nothing_and_of_a_whole_block() {
    let mut buf = ProcBuf::new();
    buf.fill(bits(9.0));
    buf.write_from(&[]);
    for i in 0..MAX_BLOCK_SIZE {
        assert_eq!(f32::from_bits(buf.read(i)), 9.0);
    }
    let whole: Vec<u32> = (0..MAX_BLOCK_SIZE).map(|i| bits(i as f32)).collect();
    buf.write_from(&whole);
    for i in 0..MAX_BLOCK_SIZE {
        assert_eq!(f32::from_bits(buf.read(i)), i as f32);
    }
}

#[test]
fn copy_to_hands_out_the_first_samples() {
    let mut buf = ProcBuf::new();
    for i in 0..MAX_BLOCK_SIZE {
        buf.write(i, bits(i as f32 * 0.5));
    }
    let mut dest = [0_u32; 5];
    buf.copy_to(5, &mut dest);
    assert_eq!(dest, [bits(0.0), bits(0.5), bits(1.0), bits(1.5), bits(2.0)]);
    let mut all = vec![0_u32; MAX_BLOCK_SIZE];
    buf.copy_to(MAX_BLOCK_SIZE, &mut all);
    for i in 0..MAX_BLOCK_SIZE {
        assert_eq!(all[i], buf.read(i));
    }
    let mut none: [u32; 0] = [];
    buf.copy_to(0, &mut none);
}

#[test]
fn copy_to_from_the_null_buffer_is_silence() {
    let buf = ProcBuf::null();
    let mut dest = [7_u32; 4];
    buf.copy_to(4, &mut dest);
    assert_eq!(dest, [0, 0, 0, 0]);
}

#[test]
fn null_buffer_drops_what_is_written() {
    let mut buf = ProcBuf::null();
    buf.write(0, bits(1.0));
    buf.fill(bits(1.0));
    buf.write_from(&[bits(1.0), bits(2.0)]);
    assert!(buf.is_null());
    for i in 0..MAX_BLOCK_SIZE {
        assert_eq!(buf.read(i), 0);
    }
}

#[test]
fn free_leaves_the_null_buffer_and_may_be_repeated() {
    let mut buf = ProcBuf::new();
    buf.fill(bits(1.0));
    buf.free();
    assert!(buf.is_null());
    assert_eq!(buf.read(5), 0);
    buf.free();
    assert!(buf.is_null());
    let mut null = ProcBuf::null();
    null.free();
    assert!(null.is_null());
}
