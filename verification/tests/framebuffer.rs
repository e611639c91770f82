use display_interface::DisplayError;
use hellomch::framebuffer::{DrawMethod, DrawRawSlice, Framebuffer, RawPixel};

type Call = (u16, u16, u16, u16, Vec<u16>);

/// A display that keeps what it was sent and fails from a chosen call on.
struct Panel {
    calls: Vec<Call>,
    fail_from: Option<usize>,
}

impl Panel {
    fn new() -> Self {
        Panel { calls: Vec::new(), fail_from: None }
    }

    fn failing_from(call: usize) -> Self {
        Panel { calls: Vec::new(), fail_from: Some(call) }
    }
}

impl DrawRawSlice for Panel {
    fn draw_raw_slice(
        &mut self,
        x0: u16,
        y0: u16,
        x1: u16,
        y1: u16,
        data: &[u16],
    ) -> Result<(), DisplayError> {
        assert!(x0 <= x1 && y0 <= y1);
        assert_eq!(data.len(), (x1 - x0 + 1) as usize * (y1 - y0 + 1) as usize);
        self.calls.push((x0, y0, x1, y1, data.to_vec()));
        match self.fail_from {
            Some(first) if self.calls.len() > first => Err(DisplayError::BusWriteError),
            _ => Ok(()),
        }
    }
}

#[test]
fn new_framebuffer_has_nothing_to_flush() {
    let mut fb = Framebuffer::<4, 3>::new();
    let mut panel = Panel::new();
    assert_eq!(fb.size(), (4, 3));
    assert!(fb.flush(&mut panel).is_ok());
    assert!(panel.calls.is_empty());
}

#[test]
fn flush_of_full_width_region_is_one_contiguous_transfer() {
    let mut fb = Framebuffer::<4, 3>::new();
    let mut panel = Panel::new();
    fb.write(0, 1, 7);
    fb.write(3, 2, 9);
    assert_eq!(fb.draw_method(), DrawMethod::Contiguous);
    assert!(fb.flush(&mut panel).is_ok());
    assert_eq!(panel.calls, vec![(0, 1, 3, 2, vec![7, 0, 0, 0, 0, 0, 0, 9])]);
}

#[test]
fn flush_of_partial_width_region_is_one_copied_transfer() {
    let mut fb = Framebuffer::<4, 3>::new();
    let mut panel = Panel::new();
    fb.write(1, 0, 5);
    fb.write(2, 2, 6);
    assert_eq!(fb.draw_method(), DrawMethod::UseExtraBuffer);
    assert!(fb.flush(&mut panel).is_ok());
    assert_eq!(panel.calls, vec![(1, 0, 2, 2, vec![5, 0, 0, 0, 0, 6])]);
}

#[test]
fn second_copied_flush_reuses_the_buffer_and_sends_fresh_pixels() {
    let mut fb = Framebuffer::<4, 3>::new();
    let mut panel = Panel::new();
    fb.write(1, 0, 5);
    fb.write(2, 2, 6);
    assert!(fb.flush(&mut panel).is_ok());
    fb.write(3, 1, 8);
    assert!(fb.flush(&mut panel).is_ok());
    assert_eq!(panel.calls.len(), 2);
    assert_eq!(panel.calls[1], (3, 1, 3, 1, vec![8]));
}

#[test]
fn flush_clears_dirty_until_a_pixel_changes() {
    let mut fb = Framebuffer::<4, 3>::new();
    let mut panel = Panel::new();
    fb.write(2, 1, 3);
    assert!(fb.flush(&mut panel).is_ok());
    assert_eq!(panel.calls.len(), 1);
    assert!(fb.flush(&mut panel).is_ok());
    assert_eq!(panel.calls.len(), 1);
    fb.write(2, 1, 3);
    fb.write(9, 9, 1);
    assert!(fb.flush(&mut panel).is_ok());
    assert_eq!(panel.calls.len(), 1);
    fb.write(2, 1, 4);
    assert!(fb.flush(&mut panel).is_ok());
    assert_eq!(panel.calls.len(), 2);
    assert_eq!(panel.calls[1], (2, 1, 2, 1, vec![4]));
}

#[test]
fn same_write_twice_dirties_once() {
    let mut once = Framebuffer::<4, 3>::new();
    let mut twice = Framebuffer::<4, 3>::new();
    let mut seen_once = Panel::new();
    let mut seen_twice = Panel::new();
    once.write(1, 1, 0xabcd);
    twice.write(1, 1, 0xabcd);
    twice.write(1, 1, 0xabcd);
    assert!(once.flush(&mut seen_once).is_ok());
    assert!(twice.flush(&mut seen_twice).is_ok());
    assert_eq!(seen_once.calls, vec![(1, 1, 1, 1, vec![0xabcd])]);
    assert_eq!(seen_twice.calls, seen_once.calls);
}

#[test]
fn write_of_the_stored_colour_marks_nothing() {
    let mut fb = Framebuffer::<4, 3>::new();
    let mut panel = Panel::new();
    fb.write(0, 0, 0);
    fb.write(3, 2, 0);
    assert!(fb.flush(&mut panel).is_ok());
    assert!(panel.calls.is_empty());
}

#[test]
fn writes_off_the_grid_are_ignored() {
    let mut fb = Framebuffer::<4, 3>::new();
    let mut panel = Panel::new();
    fb.write(-1, 0, 1);
    fb.write(0, -1, 1);
    fb.write(4, 0, 1);
    fb.write(0, 3, 1);
    fb.write(i32::MAX, i32::MIN, 1);
    assert!(fb.flush(&mut panel).is_ok());
    assert!(panel.calls.is_empty());
}

#[test]
fn draw_iter_stores_in_order_and_skips_what_falls_off() {
    let mut fb = Framebuffer::<3, 2>::new();
    let mut panel = Panel::new();
    fb.draw_iter(&[
        RawPixel { x: 0, y: 0, color: 1 },
        RawPixel { x: 5, y: 0, color: 2 },
        RawPixel { x: 2, y: 1, color: 3 },
        RawPixel { x: 0, y: 0, color: 4 },
        RawPixel { x: -2, y: 1, color: 5 },
    ]);
    assert!(fb.flush(&mut panel).is_ok());
    assert_eq!(panel.calls, vec![(0, 0, 2, 1, vec![4, 0, 0, 0, 0, 3])]);
}

#[test]
fn dirty_region_covers_a_pixel_that_was_changed_back() {
    let mut fb = Framebuffer::<3, 2>::new();
    let mut panel = Panel::new();
    fb.write(1, 1, 9);
    fb.write(1, 1, 0);
    assert!(fb.flush(&mut panel).is_ok());
    assert_eq!(panel.calls, vec![(1, 1, 1, 1, vec![0])]);
}

#[test]
fn line_slices_send_one_transfer_per_row() {
    let mut fb = Framebuffer::<4, 3>::new();
    let mut panel = Panel::new();
    fb.write(1, 0, 5);
    fb.write(2, 2, 6);
    assert!(fb.flush_with(&mut panel, DrawMethod::LineSlices).is_ok());
    assert_eq!(
        panel.calls,
        vec![(1, 0, 2, 0, vec![5, 0]), (1, 1, 2, 1, vec![0, 0]), (1, 2, 2, 2, vec![0, 6])]
    );
    assert!(fb.flush(&mut panel).is_ok());
    assert_eq!(panel.calls.len(), 3);
}

#[test]
fn contiguous_method_widens_a_narrow_region_to_whole_rows() {
    let mut fb = Framebuffer::<4, 3>::new();
    let mut panel = Panel::new();
    fb.write(1, 1, 5);
    assert!(fb.flush_with(&mut panel, DrawMethod::Contiguous).is_ok());
    assert_eq!(panel.calls, vec![(0, 1, 3, 1, vec![0, 5, 0, 0])]);
}

#[test]
fn all_methods_show_the_same_pixels() {
    let writes = [
        RawPixel { x: 1, y: 1, color: 11 },
        RawPixel { x: 3, y: 2, color: 12 },
        RawPixel { x: 2, y: 3, color: 13 },
    ];
    let mut shown: Vec<Vec<u16>> = Vec::new();
    for method in [DrawMethod::LineSlices, DrawMethod::UseExtraBuffer] {
        let mut fb = Framebuffer::<5, 4>::new();
        let mut panel = Panel::new();
        fb.draw_iter(&writes);
        assert!(fb.flush_with(&mut panel, method).is_ok());
        let mut pixels = Vec::new();
        for call in &panel.calls {
            assert_eq!((call.0, call.2), (1, 3));
            pixels.extend_from_slice(&call.4);
        }
        shown.push(pixels);
    }
    assert_eq!(shown[0], vec![11, 0, 0, 0, 0, 12, 0, 13, 0]);
    assert_eq!(shown[1], shown[0]);
}

#[test]
fn failed_flush_keeps_the_dirty_region() {
    let mut fb = Framebuffer::<4, 3>::new();
    let mut broken = Panel::failing_from(0);
    fb.write(1, 1, 5);
    assert!(matches!(fb.flush(&mut broken), Err(DisplayError::BusWriteError)));
    assert_eq!(broken.calls.len(), 1);
    let mut panel = Panel::new();
    assert!(fb.flush(&mut panel).is_ok());
    assert_eq!(panel.calls, vec![(1, 1, 1, 1, vec![5])]);
}

#[test]
fn line_slices_stop_at_the_first_failed_row() {
    let mut fb = Framebuffer::<4, 3>::new();
    let mut panel = Panel::failing_from(1);
    fb.write(0, 0, 1);
    fb.write(1, 2, 2);
    assert!(fb.flush_with(&mut panel, DrawMethod::LineSlices).is_err());
    assert_eq!(panel.calls, vec![(0, 0, 1, 0, vec![1, 0]), (0, 1, 1, 1, vec![0, 0])]);
    let mut healthy = Panel::new();
    assert!(fb.flush(&mut healthy).is_ok());
    assert_eq!(healthy.calls, vec![(0, 0, 1, 2, vec![1, 0, 0, 0, 0, 2])]);
}

#[test]
fn finish_flush_hands_the_outcome_back() {
    let mut fb = Framebuffer::<4, 3>::new();
    fb.write(1, 1, 5);
    assert!(matches!(
        fb.finish_flush(Err(DisplayError::OutOfBoundsError)),
        Err(DisplayError::OutOfBoundsError)
    ));
    let mut panel = Panel::new();
    assert!(fb.flush(&mut panel).is_ok());
    assert_eq!(panel.calls.len(), 1);
    fb.write(1, 1, 6);
    assert!(fb.finish_flush(Ok(())).is_ok());
    assert!(fb.flush(&mut panel).is_ok());
    assert_eq!(panel.calls.len(), 1);
}

#[test]
fn full_frame_flush_sends_every_pixel() {
    let mut fb = Framebuffer::<320, 240>::new();
    let mut panel = Panel::new();
    fb.write(0, 0, 1);
    fb.write(319, 239, 2);
    assert!(fb.flush(&mut panel).is_ok());
    assert_eq!(panel.calls.len(), 1);
    let call = &panel.calls[0];
    assert_eq!((call.0, call.1, call.2, call.3), (0, 0, 319, 239));
    assert_eq!(call.4.len(), 320 * 240);
    assert_eq!((call.4[0], call.4[320 * 240 - 1]), (1, 2));
}

#[test]
fn empty_grid_takes_no_pixel() {
    let mut fb = Framebuffer::<0, 5>::new();
    let mut panel = Panel::new();
    fb.write(0, 0, 1);
    assert_eq!(fb.draw_method(), DrawMethod::Contiguous);
    assert!(fb.flush(&mut panel).is_ok());
    assert!(panel.calls.is_empty());
}
