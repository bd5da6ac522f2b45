use noise_cancellation::framing::{frame_bounds, SPECTRAL_FRAME_SIZE};

#[test]
fn empty_buffer_has_no_frames() {
    assert_eq!(frame_bounds(0, 4), vec![]);
}

#[test]
fn exact_multiple_gives_full_frames() {
    assert_eq!(frame_bounds(8, 4), vec![(0, 4), (4, 8)]);
}

#[test]
fn last_frame_is_shorter() {
    assert_eq!(frame_bounds(10, 4), vec![(0, 4), (4, 8), (8, 10)]);
}

#[test]
fn buffer_shorter_than_a_frame_is_one_frame() {
    assert_eq!(frame_bounds(256, SPECTRAL_FRAME_SIZE), vec![(0, 256)]);
}

#[test]
fn frames_match_chunks_of_the_standard_library() {
    for len in 0..40usize {
        for size in 1..9usize {
            let data: Vec<usize> = (0..len).collect();
            let expected: Vec<(usize, usize)> = data
                .chunks(size)
                .map(|c| (c[0], c[c.len() - 1] + 1))
                .collect();
            assert_eq!(frame_bounds(len, size), expected);
        }
    }
}

#[test]
fn frames_partition_a_large_buffer() {
    let frames = frame_bounds(5000, SPECTRAL_FRAME_SIZE);
    assert_eq!(frames, vec![(0, 2048), (2048, 4096), (4096, 5000)]);
}
