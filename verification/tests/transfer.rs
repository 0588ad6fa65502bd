use temp_logger::templogs::TempLog;
use temp_logger::transfer::Transfer;

fn sample(clock: u32, pt: i32, vol: u32) -> TempLog {
    TempLog { pt, tt: 0, clock, pwr: 0, vol }
}

/// The body as the logger formats it from floating-point samples.
fn float_body(items: &[(u32, f32, f32)]) -> String {
    let mut body = format!("[ ");
    let mut count = 0;
    for it in items {
        body.push_str(&format!(
            "{{ \"measurement\": \"{}\", \"tag\": \"{}\", \"timestamp\": {}, \"temp\": {:.1}, \"bat\": {:.2} }}",
            "templogger", "tempch1", it.0, it.1, it.2
        ));
        count += 1;
        if items.len() != count {
            body.push_str(",");
        }
    }
    body.push_str("]");
    body
}

fn request(server: &str, body: &str) -> String {
    format!(
        "POST / HTTP/1.1\r\nHost: {}\r\n{}\r\nContent-Length:{}\r\n\r\n{}\r\n",
        server,
        "Content-Type: application/json\r\nAcept: */*\r\nUser-Agent: temp-logger",
        body.len(),
        body
    )
}

#[test]
fn nothing_pending_at_first() {
    let mut t = Transfer::new("192.168.0.2:8086".to_string());
    assert_eq!(t.server(), "192.168.0.2:8086");
    assert!(t.take_request().is_none());
}

#[test]
fn empty_data_is_not_sent() {
    let mut t = Transfer::new("h:1".to_string());
    assert_eq!(t.set_transfer_data(&Vec::new()), 0);
    assert!(t.take_request().is_none());
}

#[test]
fn one_sample_request() {
    let mut t = Transfer::new("h:1".to_string());
    let data = vec![sample(1000, 2325, 3706)];
    assert_eq!(t.set_transfer_data(&data), 1);
    let body = "[ { \"measurement\": \"templogger\", \"tag\": \"tempch1\", \"timestamp\": 1000, \"temp\": 23.2, \"bat\": 3.71 }]";
    let req = t.take_request().unwrap();
    assert_eq!(req, request("h:1", body));
    assert!(req.contains("Content-Length:98\r\n"));
    assert_eq!(body.len(), 98);
}

#[test]
fn samples_are_joined_by_commas() {
    let mut t = Transfer::new("srv".to_string());
    let data = vec![sample(1, 2325, 3706), sample(2, -9999, 4100), sample(3, 0, 0)];
    assert_eq!(t.set_transfer_data(&data), 3);
    let body = float_body(&[(1, 23.25, 3.706), (2, -99.99, 4.1), (3, 0.0, 0.0)]);
    assert!(body.contains("\"temp\": -100.0"));
    assert_eq!(t.take_request().unwrap(), request("srv", &body));
}

#[test]
fn pending_request_is_kept() {
    let mut t = Transfer::new("srv".to_string());
    assert_eq!(t.set_transfer_data(&vec![sample(1, 100, 3000)]), 1);
    assert_eq!(t.set_transfer_data(&vec![sample(2, 200, 3000), sample(3, 300, 3000)]), 0);
    let req = t.take_request().unwrap();
    assert_eq!(req, request("srv", &float_body(&[(1, 1.0, 3.0)])));
    assert!(t.take_request().is_none());
    assert_eq!(t.set_transfer_data(&vec![sample(2, 200, 3000), sample(3, 300, 3000)]), 2);
    assert!(t.take_request().is_some());
}

/// The body agrees with the floating-point formatting for every sensor
/// reading and a range of battery readings.
#[test]
fn body_matches_float_formatting() {
    for q in (-8192i32..8192).step_by(7) {
        let raw = ((q + 8192) % 4096) as u32;
        let mut t = Transfer::new("s".to_string());
        let data = vec![sample(q as u32, 25 * q, 2 * raw)];
        assert_eq!(t.set_transfer_data(&data), 1);
        let body = float_body(&[(q as u32, q as f32 * 0.25, raw as f32 * 2.0 / 1000.0)]);
        assert_eq!(t.take_request().unwrap(), request("s", &body));
    }
}
