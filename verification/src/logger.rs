//! The logger's control loop: the decisions taken at every 100 ms tick and at
//! every sampling period.
use vstd::prelude::*;
use crate::battery_millivolts;
use crate::displayctl::{DisplayPanel, DisplayView, LoggingStatus, WifiStatus, NO_PANEL_TEMP};
use crate::sensor::{fault_message, frame_fault, get_temp, thermocouple_quarters};
use crate::templogs::{dump_text, TempLog, TempRecord};
use crate::text::{hundredths_text, tenths_text};
use crate::transfer::{after_set_transfer, Transfer, TransferView};

verus! {

/// The plate temperature recorded when the sensor reports a fault
/// (-99.99 degrees, in hundredths).
pub const FAULT_PLATE_TEMP: i32 = -9999;

/// A sample is taken every this many ticks.
pub const SAMPLE_TICKS: u32 = 10;

/// The two push-button toggles and the tick counter.
pub struct Logger {
    logging_start: bool,
    sending_start: bool,
    count: u32,
}

/// The logger's state as values.
pub ghost struct LoggerView {
    pub logging: bool,
    pub sending: bool,
    pub count: nat,
}

impl View for Logger {
    type V = LoggerView;

    closed spec fn view(&self) -> LoggerView {
        LoggerView { logging: self.logging_start, sending: self.sending_start, count: self.count as nat }
    }
}

/// What the caller does after a tick besides the updates made here.
pub struct TickActions {
    /// New level of the start/stop LED, if it changes.
    pub startstop_led: Option<bool>,
    /// New level of the sending LED, if it changes.
    pub sending_led: Option<bool>,
    /// The lines to print: the record's dump when logging stopped.
    pub dump: Option<Vec<String>>,
    /// Logging started: the sample clock restarts.
    pub restart_clock: bool,
    /// A sample is due in this tick.
    pub sample_due: bool,
}

/// The logger state after a tick with the given button presses.
pub open spec fn logger_after_tick(s: LoggerView, start_stop_btn: bool, sending_btn: bool) -> LoggerView {
    LoggerView {
        logging: if start_stop_btn { !s.logging } else { s.logging },
        sending: if sending_btn { !s.sending } else { s.sending },
        count: s.count + 1,
    }
}

/// The logging status that the panel shows for a logging flag.
pub open spec fn status_of(logging: bool) -> LoggingStatus {
    if logging { LoggingStatus::Start } else { LoggingStatus::Stop }
}

/// The panel after a tick: the status follows a start/stop press, and also
/// a press that stops sending; the network status is refreshed.
pub open spec fn panel_after_tick(
    d: DisplayView,
    s: LoggerView,
    start_stop_btn: bool,
    sending_btn: bool,
    wifi_enable: bool,
) -> DisplayView {
    let logging = logger_after_tick(s, start_stop_btn, sending_btn).logging;
    let status = if (sending_btn && s.sending) || start_stop_btn { status_of(logging) } else { d.status };
    DisplayView {
        status: status,
        wifi: if wifi_enable { WifiStatus::Connected } else { WifiStatus::Disconnected },
        ..d
    }
}

/// The sample taken from a supply voltage, a sensor frame (if the read
/// succeeded) and the clock.
pub open spec fn sample_of(mv: nat, frame: Option<Seq<u8>>, clock: u32) -> TempLog {
    let pt = match frame {
        None => 0,
        Some(f) => match frame_fault(f[3]) {
            None => 25 * thermocouple_quarters(f),
            Some(_) => FAULT_PLATE_TEMP as int,
        },
    };
    TempLog { pt: pt as i32, tt: 0, clock: clock, pwr: 0, vol: mv as u32 }
}

/// The panel after a sample: the voltage, then the reading or the fault's message.
pub open spec fn panel_after_sample(d: DisplayView, mv: nat, frame: Option<Seq<u8>>) -> DisplayView {
    let d1 = DisplayView { pvol: hundredths_text(mv) + "V"@, volt: mv, ..d };
    match frame {
        None => d1,
        Some(f) => match frame_fault(f[3]) {
            None => DisplayView {
                panel_temp: 25 * thermocouple_quarters(f),
                panel_msg: tenths_text(25 * thermocouple_quarters(f)) + "C"@,
                ..d1
            },
            Some(e) => DisplayView { panel_temp: NO_PANEL_TEMP as int, panel_msg: fault_message(e), ..d1 },
        },
    }
}

/// The record and the transfer after a sample: the sample is recorded while
/// logging, then, while sending over a working network, the record is
/// handed over and what was accepted leaves the record.
pub open spec fn store_after_sample(
    s: LoggerView,
    rec: Seq<TempLog>,
    t: TransferView,
    sample: TempLog,
    wifi_enable: bool,
) -> (Seq<TempLog>, TransferView) {
    let rec1 = if s.logging { rec.push(sample) } else { rec };
    if wifi_enable && s.sending {
        let (t2, n) = after_set_transfer(t, rec1);
        (if n > 0 { rec1.skip(n as int) } else { rec1 }, t2)
    } else {
        (rec1, t)
    }
}

impl Logger {
    /// Logging and sending both off.
    pub fn new() -> (l: Self)
        ensures
            l@ == (LoggerView { logging: false, sending: false, count: 0 }),
    {
        Logger { logging_start: false, sending_start: false, count: 0 }
    }

    /// The number of ticks so far.
    pub fn count(&self) -> (c: u32)
        ensures
            c == self@.count,
    {
        self.count
    }

    /// One tick: toggles logging on a start/stop press (dumping and clearing
    /// the record when logging stops), toggles sending on a send press,
    /// refreshes the panel, and says whether a sample is due.
    pub fn on_tick(
        &mut self,
        start_stop_btn: bool,
        sending_btn: bool,
        wifi_enable: bool,
        dp: &mut DisplayPanel,
        tlogs: &mut TempRecord,
    ) -> (actions: TickActions)
        requires
            old(self)@.count < u32::MAX,
        ensures
            final(self)@ == logger_after_tick(old(self)@, start_stop_btn, sending_btn),
            final(dp)@ == panel_after_tick(old(dp)@, old(self)@, start_stop_btn, sending_btn, wifi_enable),
            actions.startstop_led == if start_stop_btn { Some(!old(self)@.logging) } else { None::<bool> },
            actions.sending_led == if sending_btn { Some(!old(self)@.sending) } else { None::<bool> },
            actions.restart_clock == (start_stop_btn && !old(self)@.logging),
            actions.sample_due == ((old(self)@.count + 1) % 10 == 0),
            if start_stop_btn && old(self)@.logging {
                &&& final(tlogs)@ == Seq::<TempLog>::empty()
                &&& actions.dump matches Some(lines) && lines@.map_values(|l: String| l@) == dump_text(old(tlogs)@)
            } else {
                &&& final(tlogs)@ == old(tlogs)@
                &&& actions.dump is None
            },
    {
        let mut actions = TickActions {
            startstop_led: None,
            sending_led: None,
            dump: None,
            restart_clock: false,
            sample_due: false,
        };
        if start_stop_btn {
            if self.logging_start {
                self.logging_start = false;
                dp.set_current_status(LoggingStatus::Stop);
                actions.dump = Some(tlogs.dump());
                tlogs.clear();
                actions.startstop_led = Some(false);
            } else {
                self.logging_start = true;
                actions.restart_clock = true;
                dp.set_current_status(LoggingStatus::Start);
                actions.startstop_led = Some(true);
            }
        }
        if sending_btn {
            if self.sending_start {
                self.sending_start = false;
                actions.sending_led = Some(false);
                if self.logging_start {
                    dp.set_current_status(LoggingStatus::Start);
                } else {
                    dp.set_current_status(LoggingStatus::Stop);
                }
            } else {
                self.sending_start = true;
                actions.sending_led = Some(true);
            }
        }
        if wifi_enable == false {
            dp.set_wifi_status(WifiStatus::Disconnected);
        } else {
            dp.set_wifi_status(WifiStatus::Connected);
        }
        self.count += 1;
        actions.sample_due = self.count % SAMPLE_TICKS == 0;
        actions
    }

    /// One sampling period: shows the supply voltage (from the raw ADC
    /// reading) and the sensor reading or fault, records the sample while
    /// logging, and hands the record over for upload while sending.
    /// `frame` is `None` when the sensor could not be read.
    pub fn on_sample(
        &self,
        adc_raw: u16,
        frame: Option<[u8; 4]>,
        clock: u32,
        wifi_enable: bool,
        dp: &mut DisplayPanel,
        tlogs: &mut TempRecord,
        txd: &mut Transfer,
    )
        ensures
            ({
                let mv = 2 * adc_raw as nat;
                let f = match frame { Some(a) => Some(a@), None => None::<Seq<u8>> };
                let sample = sample_of(mv, f, clock);
                let store = store_after_sample(self@, old(tlogs)@, old(txd)@, sample, wifi_enable);
                &&& final(dp)@ == panel_after_sample(old(dp)@, mv, f)
                &&& final(tlogs)@ == store.0
                &&& final(txd)@ == store.1
            }),
    {
        let pvol = battery_millivolts(adc_raw);
        dp.set_power_voltage(pvol);
        let mut data = TempLog::default();
        data.vol = pvol;
        match frame {
            Some(temp) => {
                let temp1 = get_temp(&temp);
                match temp1 {
                    Ok(v) => {
                        dp.set_panel_temp(v.tr);
                        data.pt = v.tr;
                    },
                    Err(e) => {
                        dp.set_err_message(1, e.msg);
                        data.pt = FAULT_PLATE_TEMP;
                    },
                }
            },
            None => {},
        }
        data.clock = clock;
        if self.logging_start {
            tlogs.record(data);
        }
        if wifi_enable == true && self.sending_start == true {
            let logs = tlogs.get_all_data();
            let txcount = txd.set_transfer_data(logs);
            if txcount > 0 {
                tlogs.remove_data(txcount);
            }
        }
    }
}


/// No sample is lost: after a sampling period the record is either the old
/// record with the new sample (when logging) and the transfer is unchanged,
/// or the whole of that record has become the pending upload body and the
/// record is empty.
pub proof fn samples_are_kept_or_handed_over(
    s: LoggerView,
    rec: Seq<TempLog>,
    t: TransferView,
    sample: TempLog,
    wifi_enable: bool,
)
    ensures
        ({
            let rec1 = if s.logging { rec.push(sample) } else { rec };
            let (rec2, t2) = store_after_sample(s, rec, t, sample, wifi_enable);
            ||| rec2 == rec1 && t2 == t
            ||| rec2 == Seq::<TempLog>::empty() && t2.body == crate::transfer::json_body(rec1) && t2.txreq
                && t2.server == t.server
        }),
{
    let rec1 = if s.logging { rec.push(sample) } else { rec };
    if wifi_enable && s.sending {
        let (t2, n) = after_set_transfer(t, rec1);
        if n > 0 {
            assert(rec1.skip(n as int) =~= Seq::<TempLog>::empty());
        }
    }
}

/// Samples are only handed over while sending is on over a working network:
/// otherwise a sampling period leaves the transfer as it was and the record
/// is the old record, with the sample appended while logging.
pub proof fn nothing_is_sent_unless_sending(
    s: LoggerView,
    rec: Seq<TempLog>,
    t: TransferView,
    sample: TempLog,
    wifi_enable: bool,
)
    requires
        !s.sending || !wifi_enable,
    ensures
        store_after_sample(s, rec, t, sample, wifi_enable).1 == t,
        store_after_sample(s, rec, t, sample, wifi_enable).0 == if s.logging { rec.push(sample) } else { rec },
{
}

/// While logging and not sending, every sample stays in the record: it grows
/// by exactly the new sample, at its end.
pub proof fn logging_without_sending_keeps_every_sample(
    s: LoggerView,
    rec: Seq<TempLog>,
    t: TransferView,
    sample: TempLog,
    wifi_enable: bool,
)
    requires
        s.logging,
        !s.sending,
    ensures
        store_after_sample(s, rec, t, sample, wifi_enable).0.len() == rec.len() + 1,
        store_after_sample(s, rec, t, sample, wifi_enable).0.last() == sample,
        store_after_sample(s, rec, t, sample, wifi_enable).0.drop_last() == rec,
{
    assert(rec.push(sample).drop_last() =~= rec);
}

/// After a tick the panel's network status follows the network, whatever the
/// buttons did.
pub proof fn network_status_follows_network(
    d: DisplayView,
    s: LoggerView,
    start_stop_btn: bool,
    sending_btn: bool,
    wifi_enable: bool,
)
    ensures
        wifi_enable ==> panel_after_tick(d, s, start_stop_btn, sending_btn, wifi_enable).wifi
            == WifiStatus::Connected,
        !wifi_enable ==> panel_after_tick(d, s, start_stop_btn, sending_btn, wifi_enable).wifi
            == WifiStatus::Disconnected,
{
}

/// A tick changes nothing on the panel but the logging and network status.
pub proof fn tick_changes_only_statuses(
    d: DisplayView,
    s: LoggerView,
    start_stop_btn: bool,
    sending_btn: bool,
    wifi_enable: bool,
)
    ensures
        ({
            let d2 = panel_after_tick(d, s, start_stop_btn, sending_btn, wifi_enable);
            &&& d2.panel_temp == d.panel_temp
            &&& d2.panel_msg == d.panel_msg
            &&& d2.target_msg == d.target_msg
            &&& d2.setup_temp == d.setup_temp
            &&& d2.pvol == d.pvol
            &&& d2.volt == d.volt
            &&& (!start_stop_btn && !sending_btn ==> d2.status == d.status)
        }),
{
}

/// After a sampling period the panel shows the measured supply voltage,
/// whatever the sensor read: its text, volts with two decimals and a "V",
/// and the value the battery gauge is drawn from.
pub proof fn panel_shows_measured_voltage(d: DisplayView, mv: nat, frame: Option<Seq<u8>>)
    ensures
        panel_after_sample(d, mv, frame).pvol == hundredths_text(mv) + "V"@,
        panel_after_sample(d, mv, frame).volt == mv,
        panel_after_sample(d, mv, frame).status == d.status,
        panel_after_sample(d, mv, frame).wifi == d.wifi,
{
}

/// The buttons toggle: pressing start/stop (or send) in two ticks brings
/// logging (or sending) back to where it was.
pub proof fn buttons_toggle(s: LoggerView, start_stop_btn: bool, sending_btn: bool)
    ensures
        ({
            let s2 = logger_after_tick(logger_after_tick(s, start_stop_btn, sending_btn), start_stop_btn, sending_btn);
            s2.logging == s.logging && s2.sending == s.sending && s2.count == s.count + 2
        }),
{
}

/// The panel's logging status always agrees with the logging flag after a
/// tick in which either button was pressed.
pub proof fn status_follows_logging(
    d: DisplayView,
    s: LoggerView,
    start_stop_btn: bool,
    sending_btn: bool,
    wifi_enable: bool,
)
    requires
        start_stop_btn || (sending_btn && s.sending),
    ensures
        panel_after_tick(d, s, start_stop_btn, sending_btn, wifi_enable).status == status_of(
            logger_after_tick(s, start_stop_btn, sending_btn).logging,
        ),
{
}

} // verus!
