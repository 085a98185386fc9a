use ivylace::fft::bit_reverse_permute;
use ivylace::spectrum::{next_write_index, SpectrumCursor, FFT_SIZE, NUM_BINS};

#[test]
fn spectrum_sizes() {
    assert_eq!(FFT_SIZE, 8192);
    assert_eq!(NUM_BINS, FFT_SIZE / 2);
}

#[test]
fn next_write_index_picks_free_buffer() {
    assert_eq!(next_write_index(0, 1), 2);
    assert_eq!(next_write_index(1, 0), 2);
    assert_eq!(next_write_index(0, 2), 1);
    assert_eq!(next_write_index(2, 0), 1);
    assert_eq!(next_write_index(1, 2), 0);
    assert_eq!(next_write_index(2, 1), 0);
    assert_eq!(next_write_index(0, 0), 1);
    assert_eq!(next_write_index(1, 1), 2);
    assert_eq!(next_write_index(2, 2), 0);
}

#[test]
fn cursor_fills_buffers_in_turn() {
    let mut c = SpectrumCursor::new();
    assert_eq!(c.read_index(), 1);
    for pos in 0..FFT_SIZE {
        assert_eq!(c.advance(), (0, pos));
        if pos + 1 < FFT_SIZE {
            assert_eq!(c.read_index(), 1);
        }
    }
    // Buffer 0 is complete and readable; writing moved on to buffer 2, not
    // to buffer 1, which the display may still be reading.
    assert_eq!(c.read_index(), 0);
    assert_eq!(c, SpectrumCursor { write_pos: 0, write_idx: 2, ready_idx: 0 });
    for _ in 0..FFT_SIZE {
        let (buf, _) = c.advance();
        assert_eq!(buf, 2);
        assert_ne!(c.write_idx, c.ready_idx);
    }
    assert_eq!(c.read_index(), 2);
    assert_eq!(c.write_idx, 1);
}

#[test]
fn cursor_never_writes_into_previous_ready_buffer() {
    let mut c = SpectrumCursor::new();
    for _ in 0..(5 * FFT_SIZE) {
        let before = c;
        c.advance();
        if c.write_pos == 0 {
            assert_eq!(c.ready_idx, before.write_idx);
            assert_ne!(c.write_idx, before.ready_idx);
            assert_ne!(c.write_idx, before.write_idx);
        }
    }
}

#[test]
fn bit_reverse_permute_eight() {
    let mut re: Vec<u32> = (0..8).collect();
    let mut im: Vec<u32> = (100..108).collect();
    bit_reverse_permute(&mut re, &mut im);
    assert_eq!(re, vec![0, 4, 2, 6, 1, 5, 3, 7]);
    assert_eq!(im, vec![100, 104, 102, 106, 101, 105, 103, 107]);
}

#[test]
fn bit_reverse_permute_is_involution() {
    let orig: Vec<u32> = (0..1024).collect();
    let mut re = orig.clone();
    let mut im = orig.clone();
    bit_reverse_permute(&mut re, &mut im);
    assert_eq!(re[1], 512);
    assert_eq!(re[3], 768);
    bit_reverse_permute(&mut re, &mut im);
    assert_eq!(re, orig);
    assert_eq!(im, orig);
}

#[test]
fn bit_reverse_permute_trivial_sizes() {
    let mut re = vec![5.0f32];
    let mut im = vec![1.0f32];
    bit_reverse_permute(&mut re, &mut im);
    assert_eq!(re, vec![5.0]);
    let mut re = vec![1, 2];
    let mut im = vec![3, 4];
    bit_reverse_permute(&mut re, &mut im);
    assert_eq!(re, vec![1, 2]);
    assert_eq!(im, vec![3, 4]);
}
