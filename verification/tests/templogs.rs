use temp_logger::templogs::{TempLog, TempRecord};

fn at(clock: u32) -> TempLog {
    let mut l = TempLog::default();
    l.clock = clock;
    l
}

#[test]
fn default_sample_is_zero() {
    assert_eq!(TempLog::default(), TempLog { pt: 0, tt: 0, clock: 0, pwr: 0, vol: 0 });
}

#[test]
fn record_keeps_order() {
    let mut r = TempRecord::new();
    assert!(r.get_all_data().is_empty());
    r.record(at(1));
    r.record(at(2));
    r.record(at(3));
    assert_eq!(r.get_all_data(), &vec![at(1), at(2), at(3)]);
}

#[test]
fn remove_data_drops_oldest() {
    let mut r = TempRecord::new();
    for c in 1..=5 {
        r.record(at(c));
    }
    r.remove_data(2);
    assert_eq!(r.get_all_data(), &vec![at(3), at(4), at(5)]);
    r.remove_data(0);
    assert_eq!(r.get_all_data().len(), 3);
    r.remove_data(10);
    assert!(r.get_all_data().is_empty());
    r.remove_data(1);
    assert!(r.get_all_data().is_empty());
}

#[test]
fn clear_empties() {
    let mut r = TempRecord::new();
    r.record(at(1));
    r.clear();
    assert!(r.get_all_data().is_empty());
    assert_eq!(r.dump(), vec!["time,plate,target,power".to_string()]);
}

#[test]
fn dump_lines() {
    let mut r = TempRecord::new();
    r.record(TempLog { pt: 2325, tt: 0, clock: 1000, pwr: 0, vol: 3706 });
    r.record(TempLog { pt: -9999, tt: 10000, clock: 2000, pwr: 42, vol: 0 });
    assert_eq!(
        r.dump(),
        vec![
            "time,plate,target,power".to_string(),
            "1000,23.25,0,0".to_string(),
            "2000,-99.99,100,42".to_string(),
        ]
    );
}

#[test]
fn record_is_first_in_first_out() {
    let mut r = TempRecord::new();
    let mut model: Vec<TempLog> = Vec::new();
    let mut removed = 0usize;
    for step in 0..60u32 {
        match step % 7 {
            0 | 1 | 3 | 4 => {
                r.record(at(step));
                model.push(at(step));
            }
            2 | 5 => {
                let n = (step % 3) as usize;
                let avail = model.len() - removed;
                removed += n.min(avail);
                r.remove_data(n);
            }
            _ => {
                if step % 21 == 20 {
                    r.clear();
                    model.clear();
                    removed = 0;
                }
            }
        }
        assert_eq!(r.get_all_data(), &model[removed..].to_vec());
    }
}
