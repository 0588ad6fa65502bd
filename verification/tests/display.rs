use temp_logger::displayctl::{
    DisplayPanel, DrawCmd, FrameState, Glyph, LoggingStatus, Placed, TextStyle, WifiStatus,
};

fn img(glyph: Glyph, x: i32, y: i32) -> Placed {
    Placed { glyph, x, y }
}

fn images(frame: &[DrawCmd]) -> Vec<Placed> {
    frame
        .iter()
        .filter_map(|c| match c {
            DrawCmd::Image(p) => Some(*p),
            _ => None,
        })
        .collect()
}

fn texts(frame: &[DrawCmd]) -> Vec<(String, i32, i32, TextStyle)> {
    frame
        .iter()
        .filter_map(|c| match c {
            DrawCmd::Text(s, x, y, st) => Some((s.clone(), *x, *y, *st)),
            _ => None,
        })
        .collect()
}

#[test]
fn first_frame_of_a_reading() {
    let mut dp = DisplayPanel::new();
    dp.set_panel_temp(2325);
    let mut st = FrameState::new();
    let frame = dp.render(&mut st);
    assert_eq!(
        images(&frame),
        vec![
            img(Glyph::Dot, 60, 0),
            img(Glyph::Celsius, 88, 0),
            img(Glyph::Digit(0), 0, 0),
            img(Glyph::Digit(2), 20, 0),
            img(Glyph::Digit(3), 40, 0),
            img(Glyph::Digit(2), 68, 0),
            img(Glyph::Battery(0), 110, 36),
        ]
    );
    assert_eq!(
        texts(&frame),
        vec![
            ("Stop".to_string(), 1, 55, TextStyle::Large),
            ("".to_string(), 103, 62, TextStyle::Small),
        ]
    );
    assert_eq!(st.loopcount, 1);
    assert_eq!(st.digit_img, img(Glyph::Digit(2), 68, 0));
    // The leading zero draws the digit drawn last again.
    let frame2 = dp.render(&mut st);
    assert_eq!(images(&frame2)[2], img(Glyph::Digit(2), 68, 0));
}

#[test]
fn negative_reading_shows_minus() {
    let mut dp = DisplayPanel::new();
    dp.set_panel_temp(-525);
    let frame = dp.render(&mut FrameState::new());
    let im = images(&frame);
    assert_eq!(
        im[2..6].to_vec(),
        vec![
            img(Glyph::Minus, 0, 0),
            img(Glyph::Minus, 0, 0),
            img(Glyph::Digit(5), 40, 0),
            img(Glyph::Digit(2), 68, 0),
        ]
    );
}

#[test]
fn hundreds_and_inner_zero() {
    let mut dp = DisplayPanel::new();
    dp.set_panel_temp(10550);
    let im = images(&dp.render(&mut FrameState::new()));
    assert_eq!(
        im[2..6].to_vec(),
        vec![
            img(Glyph::Digit(1), 0, 0),
            img(Glyph::Digit(0), 20, 0),
            img(Glyph::Digit(5), 40, 0),
            img(Glyph::Digit(5), 68, 0),
        ]
    );
}

#[test]
fn error_message_replaces_temperature() {
    let mut dp = DisplayPanel::new();
    dp.set_panel_temp(2325);
    dp.set_err_message(1, "OC ERROR".to_string());
    let mut st = FrameState::new();
    st.digit_img = img(Glyph::Digit(7), 68, 0);
    let frame = dp.render(&mut st);
    assert_eq!(texts(&frame)[0], ("OC ERROR".to_string(), 1, 20, TextStyle::Large));
    assert_eq!(images(&frame), vec![img(Glyph::Battery(0), 110, 36)]);
    assert_eq!(st.digit_img, img(Glyph::Digit(7), 68, 0));
}

#[test]
fn message_on_other_lines_keeps_panel_text() {
    let mut dp = DisplayPanel::new();
    dp.set_panel_temp(2325);
    dp.set_err_message(2, "X".to_string());
    assert_eq!(dp.panel_message(), "23.2C");
    let frame = dp.render(&mut FrameState::new());
    assert_eq!(texts(&frame)[0], ("23.2C".to_string(), 1, 20, TextStyle::Large));
    dp.set_err_message(9, "Y".to_string());
    assert_eq!(dp.panel_message(), "23.2C");
}

#[test]
fn logging_text_blinks_in_a_cycle_of_fifteen() {
    let mut dp = DisplayPanel::new();
    dp.set_current_status(LoggingStatus::Start);
    let mut st = FrameState::new();
    let mut shown = Vec::new();
    for _ in 0..30 {
        let frame = dp.render(&mut st);
        shown.push(texts(&frame).iter().any(|t| t.0 == "Logging.."));
        assert!(st.loopcount < 15);
    }
    let cycle = [
        true, true, true, true, true, false, false, false, false, true, true, true, true, true, true,
    ];
    assert_eq!(shown[0..15].to_vec(), cycle.to_vec());
    assert_eq!(shown[15..30].to_vec(), cycle.to_vec());
    assert_eq!(st.loopcount, 0);
}

#[test]
fn wifi_icon_when_connected() {
    let mut dp = DisplayPanel::new();
    dp.set_wifi_status(WifiStatus::Connected);
    let im = images(&dp.render(&mut FrameState::new()));
    assert!(im.contains(&img(Glyph::Wifi, 108, 1)));
    dp.set_wifi_status(WifiStatus::Disconnected);
    let im = images(&dp.render(&mut FrameState::new()));
    assert!(!im.contains(&img(Glyph::Wifi, 108, 1)));
}

fn float_battery(volt: f32) -> Option<u8> {
    if volt < 3.7 {
        Some(0)
    } else if volt >= 3.7 && volt < 3.8 {
        Some(20)
    } else if volt >= 3.8 && volt < 3.9 {
        Some(40)
    } else if volt >= 3.9 && volt < 4.0 {
        Some(60)
    } else if volt >= 4.0 && volt < 4.1 {
        Some(80)
    } else if volt >= 4.1 {
        Some(100)
    } else {
        None
    }
}

/// The gauge and the voltage text agree with the floating-point thresholds
/// and formatting for every ADC reading.
#[test]
fn battery_gauge_matches_float_thresholds() {
    let mut dp = DisplayPanel::new();
    for raw in 0..4096u16 {
        let volt = raw as f32 * 2.0 / 1000.0;
        dp.set_power_voltage(temp_logger::battery_millivolts(raw));
        let frame = dp.render(&mut FrameState::new());
        let level = images(&frame).iter().find_map(|p| match p.glyph {
            Glyph::Battery(l) => Some(l),
            _ => None,
        });
        assert_eq!(level, float_battery(volt));
        let pvol = texts(&frame).into_iter().find(|t| t.1 == 103).unwrap().0;
        assert_eq!(pvol, format!("{:.2}V", volt));
    }
}

/// The digit row as the panel computes it in floating point.
fn float_digit_row(temp0: f32, mut digit_img: Placed) -> (Vec<Placed>, Placed) {
    let mut temp = temp0;
    let mut digit_10: f32 = 100.0;
    let mut first_digit = true;
    let mut pos_x = 0;
    let mut out = Vec::new();
    for digit in 0..=3 {
        let num = (temp / digit_10) as i32;
        match num {
            0 => {
                if !first_digit {
                    digit_img = img(Glyph::Digit(0), pos_x, 0);
                }
            }
            -9..=-1 | 1..=9 => {
                digit_img = img(Glyph::Digit(num.unsigned_abs() as u8), pos_x, 0);
                first_digit = false;
            }
            _ => {}
        }
        if temp < 0.0 && digit == 0 {
            digit_img = img(Glyph::Minus, pos_x, 0);
        }
        out.push(digit_img);
        temp = temp - digit_10 * (num as f32);
        pos_x += 20;
        digit_10 /= 10.0;
        if digit == 2 {
            pos_x += 8;
        }
    }
    (out, digit_img)
}

/// For every reading the sensor can give, one after another, the digits drawn
/// agree with the floating-point digit extraction.
#[test]
fn digits_match_float_extraction() {
    let mut dp = DisplayPanel::new();
    let mut st = FrameState::new();
    let mut prev = st.digit_img;
    for q in -8192i32..8192 {
        dp.set_panel_temp(25 * q);
        let frame = dp.render(&mut st);
        if q as f32 * 0.25 == -999.0 {
            // The panel's "no reading" value shows the text instead.
            assert_eq!(images(&frame).len(), 1);
            assert_eq!(st.digit_img, prev);
            continue;
        }
        let (expected, last) = float_digit_row((q as f32) * 0.25, prev);
        assert_eq!(images(&frame)[2..6].to_vec(), expected, "q = {}", q);
        assert_eq!(st.digit_img, last);
        prev = last;
    }
}

#[test]
fn one_battery_gauge_in_every_frame() {
    let mut dp = DisplayPanel::new();
    dp.set_current_status(LoggingStatus::Start);
    dp.set_power_voltage(3950);
    let mut st = FrameState::new();
    for q in [2325, -525, 0, 204775] {
        dp.set_panel_temp(q);
        let frame = dp.render(&mut st);
        let gauges: Vec<Placed> = images(&frame)
            .into_iter()
            .filter(|p| matches!(p.glyph, Glyph::Battery(_)))
            .collect();
        assert_eq!(gauges, vec![img(Glyph::Battery(60), 110, 36)]);
        assert!(matches!(st.digit_img.glyph, Glyph::Digit(d) if d < 10) || st.digit_img.glyph == Glyph::Minus);
        assert_eq!(st.digit_img.y, 0);
    }
}

#[test]
fn full_range_digits_by_place() {
    let mut dp = DisplayPanel::new();
    dp.set_panel_temp(204775);
    let im = images(&dp.render(&mut FrameState::new()));
    assert_eq!(
        im[2..6].to_vec(),
        vec![
            img(Glyph::Digit(0), 0, 0),
            img(Glyph::Digit(4), 20, 0),
            img(Glyph::Digit(7), 40, 0),
            img(Glyph::Digit(7), 68, 0),
        ]
    );
    dp.set_panel_temp(-204800);
    let im = images(&dp.render(&mut FrameState::new()));
    assert_eq!(
        im[2..6].to_vec(),
        vec![
            img(Glyph::Minus, 0, 0),
            img(Glyph::Digit(4), 20, 0),
            img(Glyph::Digit(8), 40, 0),
            img(Glyph::Digit(0), 68, 0),
        ]
    );
    dp.set_panel_temp(5);
    let mut st = FrameState::new();
    st.digit_img = img(Glyph::Digit(3), 68, 0);
    let im = images(&dp.render(&mut st));
    assert_eq!(im[2..6].to_vec(), vec![img(Glyph::Digit(3), 68, 0); 4]);
}
