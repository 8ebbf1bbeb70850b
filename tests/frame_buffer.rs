use timewarp::{FrameBuffer, TimewarpError};

#[test]
fn test_frame_buffer() {
    let mut fb = FrameBuffer::<u32>::with_capacity(5);
    fb.insert(1, 1).unwrap();
    assert_eq!(fb.get(1), Some(&1));

    fb.insert(2, 2).unwrap();
    fb.insert(3, 3).unwrap();
    fb.insert(4, 4).unwrap();
    fb.insert(5, 5).unwrap();
    assert_eq!(fb.get(1), Some(&1));
    assert_eq!(fb.get(3), Some(&3));
    assert_eq!(fb.get(5), Some(&5));
    assert_eq!(fb.get(6), None);
    fb.insert(6, 6).unwrap();
    assert_eq!(fb.get(6), Some(&6));
    // 1 should be dropped now
    assert_eq!(fb.get(1), None);
    // now test modifying a val by inserting over
    assert_eq!(fb.get(3), Some(&3));
    fb.insert(3, 33).unwrap();
    assert_eq!(fb.get(3), Some(&33));
    fb.insert(2, 22).unwrap();
    assert_eq!(fb.newest_frame(), 6);
    // inserting with a gap should fill with nones
    fb.insert(8, 8).unwrap();
    assert_eq!(fb.get(7), None);
    assert_eq!(fb.get(8), Some(&8));
    assert_eq!(fb.newest_frame(), 8);
    fb.remove_entries_newer_than(5);
    assert_eq!(fb.newest_frame(), 5);
    assert_eq!(fb.get(6), None);
    assert_eq!(fb.get(4), Some(&4));
    assert_eq!(fb.get(3), None);
}

#[test]
fn round_trip_every_frame_of_the_window() {
    let mut fb = FrameBuffer::<u32>::with_capacity(4);
    fb.insert(10, 100).unwrap();
    assert_eq!(fb.oldest_frame(), 7);
    for f in fb.oldest_frame()..=fb.newest_frame() {
        fb.insert(f, f * 2).unwrap();
        assert_eq!(fb.get(f), Some(&(f * 2)));
    }
}

#[test]
fn eviction_of_the_oldest_frame() {
    let mut fb = FrameBuffer::<u32>::with_capacity(3);
    for f in 1..=4 {
        fb.insert(f, f).unwrap();
    }
    assert_eq!(fb.get(1), None);
    assert_eq!(fb.get(2), Some(&2));
    assert_eq!(fb.get(4), Some(&4));
}

#[test]
fn gap_fill_leaves_empty_frames() {
    let mut fb = FrameBuffer::<u32>::with_capacity(10);
    fb.insert(3, 3).unwrap();
    fb.insert(7, 7).unwrap();
    for f in 4..7 {
        assert_eq!(fb.get(f), None);
    }
    assert_eq!(fb.get(7), Some(&7));
    assert_eq!(fb.get(3), Some(&3));
    assert_eq!(fb.newest_frame(), 7);
}

#[test]
fn insert_below_the_window_is_refused() {
    let mut fb = FrameBuffer::<u32>::with_capacity(2);
    fb.insert(5, 5).unwrap();
    assert_eq!(fb.oldest_frame(), 4);
    assert_eq!(fb.insert(3, 3), Err(TimewarpError::FrameTooOld));
    assert_eq!(fb.get(3), None);
    assert_eq!(fb.get(5), Some(&5));
    assert_eq!(fb.newest_frame(), 5);
}

#[test]
fn frame_zero_is_never_stored() {
    let mut fb = FrameBuffer::<u32>::with_capacity(2);
    assert_eq!(fb.insert(0, 1), Err(TimewarpError::FrameTooOld));
    assert_eq!(fb.newest_frame(), 0);
    assert_eq!(fb.get(0), None);
}

#[test]
fn far_jump_clears_the_window() {
    let mut fb = FrameBuffer::<u32>::with_capacity(3);
    fb.insert(1, 1).unwrap();
    fb.insert(1000, 2).unwrap();
    assert_eq!(fb.get(1), None);
    assert_eq!(fb.get(999), None);
    assert_eq!(fb.get(1000), Some(&2));
    assert_eq!(fb.current_range(), 998..1001);
}

#[test]
fn refilling_after_removal() {
    let mut fb = FrameBuffer::<u32>::with_capacity(5);
    for f in 1..=8 {
        fb.insert(f, f).unwrap();
    }
    fb.remove_entries_newer_than(5);
    // frames 3 and below are outside what is kept, but still inside the window
    fb.insert(2, 20).unwrap();
    assert_eq!(fb.get(2), Some(&20));
    assert_eq!(fb.get(3), None);
    assert_eq!(fb.get(5), Some(&5));
}
