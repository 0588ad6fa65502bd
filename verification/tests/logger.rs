use temp_logger::displayctl::{DisplayPanel, DrawCmd, FrameState, LoggingStatus, WifiStatus};
use temp_logger::logger::Logger;
use temp_logger::templogs::{TempLog, TempRecord};
use temp_logger::transfer::Transfer;

fn status_text(dp: &DisplayPanel) -> Option<String> {
    let mut st = FrameState::new();
    dp.render(&mut st).into_iter().find_map(|c| match c {
        DrawCmd::Text(s, 1, 55, _) => Some(s),
        _ => None,
    })
}

#[test]
fn start_then_stop_dumps_and_clears() {
    let mut lg = Logger::new();
    let mut dp = DisplayPanel::new();
    let mut rec = TempRecord::new();
    let mut txd = Transfer::new("s".to_string());

    let a = lg.on_tick(true, false, false, &mut dp, &mut rec);
    assert_eq!(a.startstop_led, Some(true));
    assert_eq!(a.sending_led, None);
    assert!(a.restart_clock);
    assert!(a.dump.is_none());
    assert!(!a.sample_due);
    assert_eq!(status_text(&dp), Some("Logging..".to_string()));

    lg.on_sample(1850, Some([0x01, 0x74, 0x19, 0x00]), 1000, false, &mut dp, &mut rec, &mut txd);
    assert_eq!(rec.get_all_data(), &vec![TempLog { pt: 2325, tt: 0, clock: 1000, pwr: 0, vol: 3700 }]);
    assert_eq!(dp.panel_message(), "23.2C");

    let a = lg.on_tick(true, false, false, &mut dp, &mut rec);
    assert_eq!(a.startstop_led, Some(false));
    assert!(!a.restart_clock);
    assert_eq!(
        a.dump,
        Some(vec!["time,plate,target,power".to_string(), "1000,23.25,0,0".to_string()])
    );
    assert!(rec.get_all_data().is_empty());
    assert_eq!(status_text(&dp), Some("Stop".to_string()));
}

#[test]
fn sample_is_due_every_tenth_tick() {
    let mut lg = Logger::new();
    let mut dp = DisplayPanel::new();
    let mut rec = TempRecord::new();
    let due: Vec<bool> = (0..30).map(|_| lg.on_tick(false, false, true, &mut dp, &mut rec).sample_due).collect();
    for (i, d) in due.iter().enumerate() {
        assert_eq!(*d, (i + 1) % 10 == 0);
    }
}

#[test]
fn stopping_sending_restores_status() {
    let mut lg = Logger::new();
    let mut dp = DisplayPanel::new();
    let mut rec = TempRecord::new();
    let a = lg.on_tick(false, true, true, &mut dp, &mut rec);
    assert_eq!(a.sending_led, Some(true));
    dp.set_current_status(LoggingStatus::Start);
    let a = lg.on_tick(false, true, true, &mut dp, &mut rec);
    assert_eq!(a.sending_led, Some(false));
    assert_eq!(status_text(&dp), Some("Stop".to_string()));
}

#[test]
fn wifi_status_follows_network() {
    let mut lg = Logger::new();
    let mut dp = DisplayPanel::new();
    let mut rec = TempRecord::new();
    lg.on_tick(false, false, true, &mut dp, &mut rec);
    let mut dp2 = DisplayPanel::new();
    dp2.set_wifi_status(WifiStatus::Connected);
    let f1: Vec<String> = dp.render(&mut FrameState::new()).iter().map(|c| format!("{:?}", matches!(c, DrawCmd::Image(_)))).collect();
    let f2: Vec<String> = dp2.render(&mut FrameState::new()).iter().map(|c| format!("{:?}", matches!(c, DrawCmd::Image(_)))).collect();
    assert_eq!(f1, f2);
}

#[test]
fn sensor_fault_records_fault_temperature() {
    let mut lg = Logger::new();
    let mut dp = DisplayPanel::new();
    let mut rec = TempRecord::new();
    let mut txd = Transfer::new("s".to_string());
    lg.on_tick(true, false, false, &mut dp, &mut rec);
    lg.on_sample(2000, Some([0, 0, 0, 0x01]), 5, false, &mut dp, &mut rec, &mut txd);
    assert_eq!(rec.get_all_data()[0].pt, -9999);
    assert_eq!(rec.get_all_data()[0].vol, 4000);
    assert_eq!(dp.panel_message(), "OC ERROR");
    lg.on_sample(2000, None, 6, false, &mut dp, &mut rec, &mut txd);
    assert_eq!(rec.get_all_data()[1].pt, 0);
    assert_eq!(dp.panel_message(), "OC ERROR");
}

#[test]
fn samples_are_handed_over_while_sending() {
    let mut lg = Logger::new();
    let mut dp = DisplayPanel::new();
    let mut rec = TempRecord::new();
    let mut txd = Transfer::new("s".to_string());
    lg.on_tick(true, true, true, &mut dp, &mut rec);
    lg.on_sample(1850, Some([0x01, 0x74, 0x19, 0x00]), 1, true, &mut dp, &mut rec, &mut txd);
    assert!(rec.get_all_data().is_empty());
    // The request is still pending: the next sample stays in the record.
    lg.on_sample(1850, Some([0x01, 0x74, 0x19, 0x00]), 2, true, &mut dp, &mut rec, &mut txd);
    assert_eq!(rec.get_all_data().len(), 1);
    let req = txd.take_request().unwrap();
    assert!(req.contains("\"timestamp\": 1,"));
    lg.on_sample(1850, None, 3, true, &mut dp, &mut rec, &mut txd);
    assert!(rec.get_all_data().is_empty());
    let req = txd.take_request().unwrap();
    assert!(req.contains("\"timestamp\": 2,"));
    assert!(req.contains("\"timestamp\": 3,"));
}

#[test]
fn not_logging_records_nothing() {
    let lg = Logger::new();
    let mut dp = DisplayPanel::new();
    let mut rec = TempRecord::new();
    let mut txd = Transfer::new("s".to_string());
    lg.on_sample(1850, Some([0x01, 0x74, 0x19, 0x00]), 1, true, &mut dp, &mut rec, &mut txd);
    assert!(rec.get_all_data().is_empty());
    assert_eq!(dp.panel_message(), "23.2C");
}
