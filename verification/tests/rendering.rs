use synthui::framebuffer::{
    Bitfield, FixScreenInfo, FramebufferError, FramebufferErrorKind, VarScreenInfo,
    frame_sink_bytes,
};
use synthui::text::format_fixed2;
use synthui::ui::menu::{Menu, MenuItem};
use synthui::ui::param::Param;

#[test]
fn menu_lines_mark_the_selection() {
    let mut m = Menu::new(vec![
        MenuItem { label: "A".to_string(), action: None },
        MenuItem { label: "B".to_string(), action: None },
    ]);
    assert_eq!(m.render(), vec!["* A".to_string(), "  B".to_string()]);
    m.down();
    assert_eq!(m.render(), vec!["  A".to_string(), "* B".to_string()]);
}

#[test]
fn param_lines_show_label_value_and_bar() {
    // 440 of 1000 hundredths: the 13-cell bar fills round(13 * 0.44) = 6.
    let p = Param::new("cut".to_string(), 440, 10, 0, 1000);
    assert_eq!(p.render(), vec![
        "cut:".to_string(),
        "4.40".to_string(),
        "------".to_string(),
    ]);
}

#[test]
fn param_bar_is_full_at_max_and_empty_at_zero() {
    let full = Param::new("cut".to_string(), 1000, 10, 0, 1000);
    assert_eq!(full.render()[2], "-".repeat(13));
    let empty = Param::new("cut".to_string(), 0, 10, 0, 1000);
    assert_eq!(empty.render()[2], "");
}

#[test]
fn fixed_precision_formatting() {
    assert_eq!(format_fixed2(44000), "440.00");
    assert_eq!(format_fixed2(43000), "430.00");
    assert_eq!(format_fixed2(7), "0.07");
    assert_eq!(format_fixed2(70), "0.70");
    assert_eq!(format_fixed2(0), "0.00");
    assert_eq!(format_fixed2(-50), "-0.50");
    assert_eq!(format_fixed2(-123456), "-1234.56");
}

#[test]
fn frame_bytes_threshold_pixels() {
    // Each pixel owns byte_depth bytes; nonzero pixels write 1 at the
    // cell's first byte, everything else stays 0.
    let pixels: Vec<u32> = vec![0, 5, 0, 0xffffffff];
    let bytes = frame_sink_bytes(&pixels, 2);
    assert_eq!(bytes, vec![0, 0, 1, 0, 0, 0, 1, 0]);
    let single = frame_sink_bytes(&pixels, 1);
    assert_eq!(single, vec![0, 1, 0, 1]);
}

#[test]
fn param_bar_is_empty_below_zero() {
    // With a positive max, the ratio is negative for values below zero:
    // the bar stays empty, and the value line keeps its sign.
    let p = Param::new("pan".to_string(), -500, 10, -1000, 1000);
    assert_eq!(p.render(), vec![
        "pan:".to_string(),
        "-5.00".to_string(),
        "".to_string(),
    ]);
}

#[test]
fn param_bar_keeps_the_ratio_on_all_negative_ranges() {
    // A range of -20.00 .. -10.00: value/max is positive, so the bar is
    // drawn; it is exactly full at max and grows toward min.
    let at_max = Param::new("gain".to_string(), -1000, 100, -2000, -1000);
    assert_eq!(at_max.render()[2], "-".repeat(13));
    // round(13 * -15.00 / -10.00) = round(19.5) = 20.
    let halfway = Param::new("gain".to_string(), -1500, 100, -2000, -1000);
    assert_eq!(halfway.render()[2], "-".repeat(20));
    // round(13 * -20.00 / -10.00) = 26.
    let at_min = Param::new("gain".to_string(), -2000, 100, -2000, -1000);
    assert_eq!(at_min.render()[2], "-".repeat(26));
}

#[test]
fn screen_info_defaults_are_zeroed() {
    let var = VarScreenInfo::default();
    assert_eq!(var.xres, 0);
    assert_eq!(var.yres, 0);
    assert_eq!(var.bits_per_pixel, 0);
    let fix = FixScreenInfo::default();
    assert_eq!(fix.smem_len, 0);
    assert_eq!(fix.line_length, 0);
    let bf = Bitfield::default();
    assert_eq!(bf.offset, 0);
    assert_eq!(bf.length, 0);
}

#[test]
fn framebuffer_error_keeps_kind_and_details() {
    let e = FramebufferError::new(FramebufferErrorKind::IoctlFailed, "ioctl failed");
    assert_eq!(e.kind, FramebufferErrorKind::IoctlFailed);
    assert_eq!(e.details, "ioctl failed");
    let e = FramebufferError::new(FramebufferErrorKind::IoError, "mmap failed");
    assert_eq!(e.kind, FramebufferErrorKind::IoError);
}
