//! What the status panel shows: the state that the logger updates, and the
//! frame that the display task draws from it.
use vstd::prelude::*;
use crate::text::{hundredths_text, magnitude, push_hundredths, push_tenths, tenths_text};

verus! {

/// Whether samples are being logged.
#[derive(Clone, Copy, Debug, PartialEq, Eq, Structural)]
pub enum LoggingStatus {
    Start,
    Stop,
}

/// Whether the network is up.
#[derive(Clone, Copy, Debug, PartialEq, Eq, Structural)]
pub enum WifiStatus {
    Connected,
    Disconnected,
}

/// The panel temperature that means "no reading, show the message instead"
/// (-999.00 degrees, in hundredths).
pub const NO_PANEL_TEMP: i32 = -99900;

struct DisplayText {
    panel_temp: i32,
    panel_msg: String,
    target_msg: String,
    setup_temp: String,
    status: LoggingStatus,
    wifi: WifiStatus,
    pvol: String,
    volt: u32,
}

/// The panel's contents. Temperatures are in hundredths of a degree Celsius,
/// voltages in millivolts.
pub struct DisplayPanel {
    txt: DisplayText,
}

/// The panel's contents as values.
pub ghost struct DisplayView {
    pub panel_temp: int,
    pub panel_msg: Seq<char>,
    pub target_msg: Seq<char>,
    pub setup_temp: Seq<char>,
    pub status: LoggingStatus,
    pub wifi: WifiStatus,
    pub pvol: Seq<char>,
    pub volt: nat,
}

impl View for DisplayPanel {
    type V = DisplayView;

    closed spec fn view(&self) -> DisplayView {
        DisplayView {
            panel_temp: self.txt.panel_temp as int,
            panel_msg: self.txt.panel_msg@,
            target_msg: self.txt.target_msg@,
            setup_temp: self.txt.setup_temp@,
            status: self.txt.status,
            wifi: self.txt.wifi,
            pvol: self.txt.pvol@,
            volt: self.txt.volt as nat,
        }
    }
}

/// A bitmap that the panel draws.
#[derive(Clone, Copy, Debug, PartialEq, Eq, Structural)]
pub enum Glyph {
    /// A large decimal digit (0 to 9).
    Digit(u8),
    Minus,
    Dot,
    /// The degree-Celsius sign.
    Celsius,
    Wifi,
    /// The battery gauge at a charge level in percent (0, 20, ..., 100).
    Battery(u8),
}

/// A bitmap at a position (its top-left corner).
#[derive(Clone, Copy, Debug, PartialEq, Eq, Structural)]
pub struct Placed {
    pub glyph: Glyph,
    pub x: i32,
    pub y: i32,
}

/// The font of a text.
#[derive(Clone, Copy, Debug, PartialEq, Eq, Structural)]
pub enum TextStyle {
    /// 10x20 pixels.
    Large,
    /// 5x8 pixels.
    Small,
}

/// One drawing step of a frame.
pub enum DrawCmd {
    Image(Placed),
    /// A text whose baseline starts at (x, y).
    Text(String, i32, i32, TextStyle),
}

/// A drawing step as values.
pub ghost enum DrawSpec {
    Image(Placed),
    Text(Seq<char>, int, int, TextStyle),
}

impl View for DrawCmd {
    type V = DrawSpec;

    open spec fn view(&self) -> DrawSpec {
        match self {
            DrawCmd::Image(p) => DrawSpec::Image(*p),
            DrawCmd::Text(s, x, y, st) => DrawSpec::Text(s@, *x as int, *y as int, *st),
        }
    }
}

/// What the display task carries from one frame to the next: the frame
/// counter (0 to 14) that drives the blinking, and the digit bitmap drawn
/// last, which the panel draws again in place of a leading zero.
#[derive(Clone, Copy, Debug)]
pub struct FrameState {
    pub loopcount: u32,
    pub digit_img: Placed,
}

/// Whether a bitmap is one that the panel carries from frame to frame: a
/// digit from 0 to 9 or the minus sign, on the top row.
pub open spec fn carried_bitmap_ok(p: Placed) -> bool {
    &&& p.y == 0
    &&& (p.glyph is Digit || p.glyph is Minus)
    &&& (p.glyph matches Glyph::Digit(d) ==> d < 10)
}

impl FrameState {
    /// Whether the display task can reach this state: the frame counter is
    /// within the 15-frame blink cycle and the carried bitmap is a digit or
    /// the minus sign.
    pub open spec fn reachable(self) -> bool {
        self.loopcount < 15 && carried_bitmap_ok(self.digit_img)
    }

    /// The state before the first frame.
    pub fn new() -> (s: Self)
        ensures
            s.loopcount == 0,
            s.digit_img == (Placed { glyph: Glyph::Digit(0), x: 0, y: 0 }),
            s.reachable(),
    {
        FrameState { loopcount: 0, digit_img: Placed { glyph: Glyph::Digit(0), x: 0, y: 0 } }
    }
}

/// `a / b` rounded towards zero.
pub open spec fn trunc_div(a: int, b: int) -> int {
    if a >= 0 { a / b } else { -((-a) / b) }
}

/// The place value, in hundredths, of digit `k` of the temperature:
/// hundreds, tens, units, tenths of a degree.
pub open spec fn place_unit(k: nat) -> int {
    if k == 0 { 10000 } else if k == 1 { 1000 } else if k == 2 { 100 } else { 10 }
}

/// The x position of digit `k`; the tenths digit sits right of the dot.
pub open spec fn place_x(k: nat) -> int {
    if k == 0 { 0 } else if k == 1 { 20 } else if k == 2 { 40 } else { 68 }
}

/// The digit bitmap for digit `k` when its value is `num`, and whether a
/// leading zero is still being skipped. A zero before the first non-zero
/// digit, and a value out of range, leave the previous bitmap in place.
pub open spec fn digit_choice(k: nat, num: int, first: bool, img: Placed) -> (Placed, bool) {
    if num == 0 {
        if first { (img, first) } else { (Placed { glyph: Glyph::Digit(0), x: place_x(k) as i32, y: 0 }, first) }
    } else if -9 <= num <= 9 {
        let d = if num < 0 { -num } else { num };
        (Placed { glyph: Glyph::Digit(d as u8), x: place_x(k) as i32, y: 0 }, false)
    } else {
        (img, first)
    }
}

/// The digit bitmaps drawn for digits `k` to 3 of the temperature `temp`,
/// given the remainder `rem` still to show, and the bitmap drawn last.
pub open spec fn digit_row(temp: int, k: nat, rem: int, first: bool, img: Placed) -> (Seq<Placed>, Placed)
    decreases 4 - k,
{
    if k >= 4 {
        (Seq::empty(), img)
    } else {
        let num = trunc_div(rem, place_unit(k));
        let (chosen, first2) = digit_choice(k, num, first, img);
        let drawn = if temp < 0 && k == 0 { Placed { glyph: Glyph::Minus, x: 0, y: 0 } } else { chosen };
        let rest = digit_row(temp, k + 1, rem - place_unit(k) * num, first2, drawn);
        (seq![drawn] + rest.0, rest.1)
    }
}

/// The battery gauge level, in percent, for a supply voltage in millivolts.
pub open spec fn battery_level(mv: nat) -> u8 {
    if mv < 3700 { 0 } else if mv < 3800 { 20 } else if mv < 3900 { 40 } else if mv < 4000 { 60 } else if mv < 4100 { 80 } else { 100 }
}

/// Whether "Logging.." shows in frame `lc` of the 15-frame blink cycle.
pub open spec fn logging_text_shown(lc: int) -> bool {
    lc <= 5 || (10 <= lc && lc <= 15)
}

/// The frame counter after a frame.
pub open spec fn next_loopcount(lc: int) -> int {
    if lc + 1 == 15 { 0 } else { lc + 1 }
}

/// The temperature part of a frame: the dot, the degree sign and four digits,
/// or the panel message when there is no reading.
pub open spec fn temp_part(v: DisplayView, img: Placed) -> (Seq<DrawSpec>, Placed) {
    if v.panel_temp != NO_PANEL_TEMP {
        let row = digit_row(v.panel_temp, 0, v.panel_temp, true, img);
        (seq![
            DrawSpec::Image(Placed { glyph: Glyph::Dot, x: 60, y: 0 }),
            DrawSpec::Image(Placed { glyph: Glyph::Celsius, x: 88, y: 0 }),
        ] + row.0.map_values(|p: Placed| DrawSpec::Image(p)), row.1)
    } else {
        (seq![DrawSpec::Text(v.panel_msg, 1, 20, TextStyle::Large)], img)
    }
}

/// The rest of a frame: logging status, supply voltage, network and battery.
pub open spec fn status_part(v: DisplayView, lc: int) -> Seq<DrawSpec> {
    status_text_part(v, lc) + seq![DrawSpec::Text(v.pvol, 103, 62, TextStyle::Small)] + wifi_part(v)
        + battery_part(v)
}

/// The logging status text of a frame: "Stop", or "Logging.." while it blinks on.
pub open spec fn status_text_part(v: DisplayView, lc: int) -> Seq<DrawSpec> {
    match v.status {
        LoggingStatus::Start => if logging_text_shown(lc) {
            seq![DrawSpec::Text("Logging.."@, 1, 55, TextStyle::Large)]
        } else {
            Seq::empty()
        },
        LoggingStatus::Stop => seq![DrawSpec::Text("Stop"@, 1, 55, TextStyle::Large)],
    }
}

/// The network icon of a frame, drawn while connected.
pub open spec fn wifi_part(v: DisplayView) -> Seq<DrawSpec> {
    match v.wifi {
        WifiStatus::Connected => seq![DrawSpec::Image(Placed { glyph: Glyph::Wifi, x: 108, y: 1 })],
        WifiStatus::Disconnected => Seq::empty(),
    }
}

/// The battery gauge of a frame.
pub open spec fn battery_part(v: DisplayView) -> Seq<DrawSpec> {
    seq![DrawSpec::Image(Placed { glyph: Glyph::Battery(battery_level(v.volt)), x: 110, y: 36 })]
}

/// The drawing steps of a frame, for panel contents `v`, frame counter `lc`
/// (after its increment) and carried bitmap `img`.
pub open spec fn frame_spec(v: DisplayView, lc: int, img: Placed) -> Seq<DrawSpec> {
    temp_part(v, img).0 + status_part(v, lc)
}

/// Whether a drawing step draws a battery gauge.
pub open spec fn is_battery_image(c: DrawSpec) -> bool {
    c matches DrawSpec::Image(p) && p.glyph is Battery
}

/// Whether a drawing step draws the network icon.
pub open spec fn is_wifi_image(c: DrawSpec) -> bool {
    c matches DrawSpec::Image(p) && p.glyph is Wifi
}

/// Selects the battery-gauge steps of a frame.
pub open spec fn battery_steps() -> spec_fn(DrawSpec) -> bool {
    |c: DrawSpec| is_battery_image(c)
}

/// Selects the network-icon steps of a frame.
pub open spec fn wifi_steps() -> spec_fn(DrawSpec) -> bool {
    |c: DrawSpec| is_wifi_image(c)
}

proof fn digit_row_carries_ok(temp: int, k: nat, rem: int, first: bool, img: Placed)
    requires
        carried_bitmap_ok(img),
        k <= 4,
    ensures
        digit_row(temp, k, rem, first, img).0.len() == 4 - k,
        forall|i: int| 0 <= i < digit_row(temp, k, rem, first, img).0.len()
            ==> carried_bitmap_ok(#[trigger] digit_row(temp, k, rem, first, img).0[i]),
        carried_bitmap_ok(digit_row(temp, k, rem, first, img).1),
    decreases 4 - k,
{
    if k < 4 {
        let num = trunc_div(rem, place_unit(k));
        let (chosen, first2) = digit_choice(k, num, first, img);
        let drawn = if temp < 0 && k == 0 { Placed { glyph: Glyph::Minus, x: 0, y: 0 } } else { chosen };
        assert(carried_bitmap_ok(drawn));
        digit_row_carries_ok(temp, k + 1, rem - place_unit(k) * num, first2, drawn);
        let rest = digit_row(temp, k + 1, rem - place_unit(k) * num, first2, drawn);
        assert(digit_row(temp, k, rem, first, img).0 == seq![drawn] + rest.0);
        assert forall|i: int| 0 <= i < 4 - k implies carried_bitmap_ok(
            #[trigger] digit_row(temp, k, rem, first, img).0[i],
        ) by {
            if i > 0 {
                assert(digit_row(temp, k, rem, first, img).0[i] == rest.0[i - 1]);
            }
        }
    }
}

proof fn filter_none(s: Seq<DrawSpec>, p: spec_fn(DrawSpec) -> bool)
    requires
        forall|i: int| 0 <= i < s.len() ==> !p(#[trigger] s[i]),
    ensures
        s.filter(p) == Seq::<DrawSpec>::empty(),
    decreases s.len(),
{
    reveal(Seq::filter);
    if s.len() > 0 {
        filter_none(s.drop_last(), p);
    }
}

proof fn filter_single(x: DrawSpec, p: spec_fn(DrawSpec) -> bool)
    ensures
        seq![x].filter(p) == if p(x) { seq![x] } else { Seq::<DrawSpec>::empty() },
{
    reveal_with_fuel(Seq::filter, 2);
    assert(seq![x].drop_last() =~= Seq::<DrawSpec>::empty());
    assert(Seq::<DrawSpec>::empty().push(x) =~= seq![x]);
}

/// The temperature part of a reachable frame draws no battery gauge and no
/// network icon.
proof fn temp_part_has_no_gauge_or_icon(v: DisplayView, img: Placed, p: spec_fn(DrawSpec) -> bool)
    requires
        carried_bitmap_ok(img),
        forall|c: DrawSpec| #[trigger] p(c) ==> (c matches DrawSpec::Image(q) && (q.glyph is Battery || q.glyph is Wifi)),
    ensures
        temp_part(v, img).0.filter(p) == Seq::<DrawSpec>::empty(),
{
    let tp = temp_part(v, img).0;
    if v.panel_temp != NO_PANEL_TEMP {
        let row = digit_row(v.panel_temp, 0, v.panel_temp, true, img);
        digit_row_carries_ok(v.panel_temp, 0, v.panel_temp, true, img);
        let imgs = row.0.map_values(|q: Placed| DrawSpec::Image(q));
        assert(tp == seq![
            DrawSpec::Image(Placed { glyph: Glyph::Dot, x: 60, y: 0 }),
            DrawSpec::Image(Placed { glyph: Glyph::Celsius, x: 88, y: 0 }),
        ] + imgs);
        assert forall|i: int| 0 <= i < tp.len() implies !p(#[trigger] tp[i]) by {
            if i >= 2 {
                assert(tp[i] == imgs[i - 2]);
                assert(carried_bitmap_ok(row.0[i - 2]));
            }
        }
    }
    filter_none(tp, p);
}

/// Of the status part of a frame, only the network icon and the battery
/// gauge can be images of either kind.
proof fn status_part_gauge_and_icon(v: DisplayView, lc: int, p: spec_fn(DrawSpec) -> bool)
    requires
        forall|c: DrawSpec| #[trigger] p(c) ==> (c matches DrawSpec::Image(q) && (q.glyph is Battery || q.glyph is Wifi)),
    ensures
        status_part(v, lc).filter(p) == wifi_part(v).filter(p) + battery_part(v).filter(p),
{
    let status = status_text_part(v, lc);
    let pvol = seq![DrawSpec::Text(v.pvol, 103, 62, TextStyle::Small)];
    let wifi = wifi_part(v);
    let bat = battery_part(v);
    assert forall|i: int| 0 <= i < status.len() implies !p(#[trigger] status[i]) by {}
    filter_none(status, p);
    filter_none(pvol, p);
    Seq::filter_distributes_over_add(status + pvol + wifi, bat, p);
    Seq::filter_distributes_over_add(status + pvol, wifi, p);
    Seq::filter_distributes_over_add(status, pvol, p);
    assert(status_part(v, lc).filter(p) =~= wifi.filter(p) + bat.filter(p));
}

/// Splits a frame into the parts that the frame laws look at.
proof fn frame_parts(v: DisplayView, lc: int, img: Placed, p: spec_fn(DrawSpec) -> bool)
    requires
        carried_bitmap_ok(img),
        forall|c: DrawSpec| #[trigger] p(c) ==> (c matches DrawSpec::Image(q) && (q.glyph is Battery || q.glyph is Wifi)),
    ensures
        frame_spec(v, lc, img).filter(p) == wifi_part(v).filter(p) + battery_part(v).filter(p),
{
    temp_part_has_no_gauge_or_icon(v, img, p);
    status_part_gauge_and_icon(v, lc, p);
    Seq::filter_distributes_over_add(temp_part(v, img).0, status_part(v, lc), p);
    assert(Seq::<DrawSpec>::empty() + status_part(v, lc).filter(p) =~= status_part(v, lc).filter(p));
}

proof fn gauge_parts(v: DisplayView)
    ensures
        wifi_part(v).filter(battery_steps()) == Seq::<DrawSpec>::empty(),
        battery_part(v).filter(battery_steps()) == battery_part(v),
{
    let w = wifi_part(v);
    let b = battery_part(v);
    assert forall|i: int| 0 <= i < w.len() implies !battery_steps()(#[trigger] w[i]) by {}
    filter_none(w, battery_steps());
    assert(b == seq![b[0]]);
    filter_single(b[0], battery_steps());
}

proof fn icon_parts(v: DisplayView)
    ensures
        wifi_part(v).filter(wifi_steps()) == wifi_part(v),
        battery_part(v).filter(wifi_steps()) == Seq::<DrawSpec>::empty(),
{
    let w = wifi_part(v);
    let b = battery_part(v);
    assert forall|i: int| 0 <= i < b.len() implies !wifi_steps()(#[trigger] b[i]) by {}
    filter_none(b, wifi_steps());
    if v.wifi == WifiStatus::Connected {
        assert(w == seq![w[0]]);
        filter_single(w[0], wifi_steps());
    } else {
        filter_none(w, wifi_steps());
    }
}

/// Every frame that the display task can draw shows exactly one battery
/// gauge, at (110, 36), at the level of the panel's supply voltage.
pub proof fn one_battery_gauge_per_frame(v: DisplayView, lc: int, img: Placed)
    requires
        carried_bitmap_ok(img),
    ensures
        frame_spec(v, lc, img).filter(battery_steps()) == battery_part(v),
        battery_part(v) == seq![
            DrawSpec::Image(Placed { glyph: Glyph::Battery(battery_level(v.volt)), x: 110, y: 36 }),
        ],
{
    let p = battery_steps();
    assert(forall|c: DrawSpec| #[trigger] p(c) ==> (c matches DrawSpec::Image(q) && (q.glyph is Battery || q.glyph is Wifi)));
    frame_parts(v, lc, img, p);
    gauge_parts(v);
    Seq::add_empty_left(wifi_part(v).filter(p), battery_part(v).filter(p));
}

/// Every frame that the display task can draw shows the network icon at
/// (108, 1) exactly when the network is connected, and no other network icon.
pub proof fn wifi_icon_iff_connected(v: DisplayView, lc: int, img: Placed)
    requires
        carried_bitmap_ok(img),
    ensures
        frame_spec(v, lc, img).filter(wifi_steps()) == wifi_part(v),
        wifi_part(v) == if v.wifi == WifiStatus::Connected {
            seq![DrawSpec::Image(Placed { glyph: Glyph::Wifi, x: 108, y: 1 })]
        } else {
            Seq::<DrawSpec>::empty()
        },
{
    let p = wifi_steps();
    assert(forall|c: DrawSpec| #[trigger] p(c) ==> (c matches DrawSpec::Image(q) && (q.glyph is Battery || q.glyph is Wifi)));
    frame_parts(v, lc, img, p);
    icon_parts(v);
    Seq::add_empty_right(wifi_part(v).filter(p), battery_part(v).filter(p));
}

fn push_cmd(frame: &mut Vec<DrawCmd>, cmd: DrawCmd)
    ensures
        final(frame)@.map_values(|c: DrawCmd| c@) == old(frame)@.map_values(|c: DrawCmd| c@).push(cmd@),
{
    frame.push(cmd);
    assert(frame@.map_values(|c: DrawCmd| c@) =~= old(frame)@.map_values(|c: DrawCmd| c@).push(cmd@));
}

fn trunc_div_exec(a: i64, b: i64) -> (q: i64)
    requires
        0 < b,
        -0x1_0000_0000 < a < 0x1_0000_0000,
    ensures
        q == trunc_div(a as int, b as int),
{
    if a >= 0 {
        a / b
    } else {
        -((-a) / b)
    }
}

proof fn trunc_div_bounds(a: int, b: int)
    requires
        b > 0,
    ensures
        a >= 0 ==> 0 <= b * trunc_div(a, b) <= a,
        a < 0 ==> a <= b * trunc_div(a, b) <= 0,
{
    if a >= 0 {
        vstd::arithmetic::div_mod::lemma_fundamental_div_mod(a, b);
        vstd::arithmetic::div_mod::lemma_div_pos_is_pos(a, b);
        vstd::arithmetic::mul::lemma_mul_nonnegative(b, a / b);
    } else {
        vstd::arithmetic::div_mod::lemma_fundamental_div_mod(-a, b);
        vstd::arithmetic::div_mod::lemma_div_pos_is_pos(-a, b);
        vstd::arithmetic::mul::lemma_mul_nonnegative(b, (-a) / b);
        vstd::arithmetic::mul::lemma_mul_unary_negation(b, (-a) / b);
    }
}

fn place_unit_exec(k: usize) -> (u: i64)
    requires
        k < 4,
    ensures
        u == place_unit(k as nat),
{
    if k == 0 { 10000 } else if k == 1 { 1000 } else if k == 2 { 100 } else { 10 }
}

fn place_x_exec(k: usize) -> (x: i32)
    requires
        k < 4,
    ensures
        x == place_x(k as nat),
{
    if k == 0 { 0 } else if k == 1 { 20 } else if k == 2 { 40 } else { 68 }
}

fn battery_level_exec(mv: u32) -> (l: u8)
    ensures
        l == battery_level(mv as nat),
{
    if mv < 3700 { 0 } else if mv < 3800 { 20 } else if mv < 3900 { 40 } else if mv < 4000 { 60 } else if mv < 4100 { 80 } else { 100 }
}

impl DisplayPanel {
    /// The drawing steps of the next frame, in order; advances the frame
    /// counter and keeps the last digit bitmap for the next frame.
    pub fn render(&self, state: &mut FrameState) -> (frame: Vec<DrawCmd>)
        requires
            old(state).loopcount < u32::MAX,
        ensures
            ({
                let lc = old(state).loopcount + 1;
                let t = temp_part(self@, old(state).digit_img);
                &&& frame@.map_values(|c: DrawCmd| c@) == frame_spec(self@, lc, old(state).digit_img)
                &&& frame@.map_values(|c: DrawCmd| c@) == t.0 + status_part(self@, lc)
                &&& final(state).digit_img == t.1
                &&& final(state).loopcount == next_loopcount(old(state).loopcount as int)
            }),
            old(state).reachable() ==> final(state).reachable(),
    {
        proof {
            if carried_bitmap_ok(state.digit_img) {
                digit_row_carries_ok(self@.panel_temp, 0, self@.panel_temp, true, state.digit_img);
            }
        }
        let ghost v = self@;
        let ghost img0 = state.digit_img;
        let lc = state.loopcount + 1;
        let mut frame: Vec<DrawCmd> = Vec::new();
        if self.txt.panel_temp != NO_PANEL_TEMP {
            push_cmd(&mut frame, DrawCmd::Image(Placed { glyph: Glyph::Dot, x: 60, y: 0 }));
            push_cmd(&mut frame, DrawCmd::Image(Placed { glyph: Glyph::Celsius, x: 88, y: 0 }));
            let ghost head = frame@.map_values(|c: DrawCmd| c@);
            let temp = self.txt.panel_temp as i64;
            let ghost total = digit_row(temp as int, 0, temp as int, true, img0);
            let mut rem: i64 = temp;
            let mut first = true;
            let mut img = state.digit_img;
            let ghost mut drawn: Seq<Placed> = Seq::empty();
            let mut k: usize = 0;
            while k < 4
                invariant
                    k <= 4,
                    temp == v.panel_temp,
                    -0x8000_0000 <= rem <= 0x8000_0000,
                    frame@.map_values(|c: DrawCmd| c@) == head + drawn.map_values(|p: Placed| DrawSpec::Image(p)),
                    drawn + digit_row(temp as int, k as nat, rem as int, first, img).0 == total.0,
                    digit_row(temp as int, k as nat, rem as int, first, img).1 == total.1,
                decreases 4 - k,
            {
                let unit = place_unit_exec(k);
                let num = trunc_div_exec(rem, unit);
                proof {
                    trunc_div_bounds(rem as int, unit as int);
                }
                let pos = place_x_exec(k);
                let mut next_first = first;
                let mut chosen = img;
                if num == 0 {
                    if !first {
                        chosen = Placed { glyph: Glyph::Digit(0), x: pos, y: 0 };
                    }
                } else if -9 <= num && num <= 9 {
                    let d: u8 = if num < 0 { (-num) as u8 } else { num as u8 };
                    chosen = Placed { glyph: Glyph::Digit(d), x: pos, y: 0 };
                    next_first = false;
                }
                if temp < 0 && k == 0 {
                    chosen = Placed { glyph: Glyph::Minus, x: 0, y: 0 };
                }
                proof {
                    let ghost step = digit_row(temp as int, k as nat, rem as int, first, img);
                    let ghost rest = digit_row(temp as int, (k + 1) as nat, rem - unit * num, next_first, chosen);
                    assert(step.0 == seq![chosen] + rest.0);
                    assert(step.1 == rest.1);
                    assert(drawn.push(chosen) + rest.0 =~= drawn + (seq![chosen] + rest.0));
                }
                push_cmd(&mut frame, DrawCmd::Image(chosen));
                proof {
                    assert(drawn.push(chosen).map_values(|p: Placed| DrawSpec::Image(p)) =~= drawn.map_values(
                        |p: Placed| DrawSpec::Image(p),
                    ).push(DrawSpec::Image(chosen)));
                    drawn = drawn.push(chosen);
                }
                rem = rem - unit * num;
                first = next_first;
                img = chosen;
                k += 1;
            }
            assert(drawn =~= total.0);
            state.digit_img = img;
        } else {
            push_cmd(&mut frame, DrawCmd::Text(self.txt.panel_msg.clone(), 1, 20, TextStyle::Large));
        }
        assert(frame@.map_values(|c: DrawCmd| c@) =~= temp_part(v, img0).0);
        match self.txt.status {
            LoggingStatus::Start => {
                if lc <= 5 || (10 <= lc && lc <= 15) {
                    push_cmd(&mut frame, DrawCmd::Text(String::from_str("Logging.."), 1, 55, TextStyle::Large));
                }
            },
            LoggingStatus::Stop => {
                push_cmd(&mut frame, DrawCmd::Text(String::from_str("Stop"), 1, 55, TextStyle::Large));
            },
        }
        push_cmd(&mut frame, DrawCmd::Text(self.txt.pvol.clone(), 103, 62, TextStyle::Small));
        match self.txt.wifi {
            WifiStatus::Disconnected => {},
            WifiStatus::Connected => {
                push_cmd(&mut frame, DrawCmd::Image(Placed { glyph: Glyph::Wifi, x: 108, y: 1 }));
            },
        }
        let level = battery_level_exec(self.txt.volt);
        push_cmd(&mut frame, DrawCmd::Image(Placed { glyph: Glyph::Battery(level), x: 110, y: 36 }));
        assert(frame@.map_values(|c: DrawCmd| c@) =~= temp_part(v, img0).0 + status_part(v, lc as int));
        if lc == 15 {
            state.loopcount = 0;
        } else {
            state.loopcount = lc;
        }
        frame
    }

    /// A blank panel: temperature 0, empty texts, logging stopped, no network.
    pub fn new() -> (p: DisplayPanel)
        ensures
            p@ == (DisplayView {
                panel_temp: 0,
                panel_msg: Seq::empty(),
                target_msg: Seq::empty(),
                setup_temp: Seq::empty(),
                status: LoggingStatus::Stop,
                wifi: WifiStatus::Disconnected,
                pvol: Seq::empty(),
                volt: 0,
            }),
    {
        DisplayPanel {
            txt: DisplayText {
                panel_temp: 0,
                panel_msg: String::new(),
                target_msg: String::new(),
                setup_temp: String::new(),
                status: LoggingStatus::Stop,
                wifi: WifiStatus::Disconnected,
                pvol: String::new(),
                volt: 0,
            },
        }
    }

    /// Shows a temperature (hundredths of a degree); its one-decimal text
    /// with a "C" becomes the panel message. The text rounds the exact value,
    /// ties to even, and the panel's digits are the exact decimal digits.
    /// For every whole number of quarter degrees (every value the sensor
    /// gives, -2048.00 to 2047.75) both are what the same temperature held
    /// as an `f32` prints and draws. For other hundredths the two can differ
    /// in the last place: `f32` arithmetic makes 25.45 print "25.5" (here
    /// "25.4") and 25.30 draw a tenths digit of 2 (here 3).
    pub fn set_panel_temp(&mut self, temp: i32)
        ensures
            final(self)@ == (DisplayView {
                panel_temp: temp as int,
                panel_msg: tenths_text(temp as int) + "C"@,
                ..old(self)@
            }),
    {
        let mut msg = String::new();
        push_tenths(&mut msg, temp);
        msg.append("C");
        self.txt.panel_temp = temp;
        self.txt.panel_msg = msg;
    }

    /// The panel message: the last temperature's text, or the last message on line 1.
    pub fn panel_message(&self) -> (m: &String)
        ensures
            m@ == self@.panel_msg,
    {
        &self.txt.panel_msg
    }

    /// Sets the logging status.
    pub fn set_current_status(&mut self, status: LoggingStatus)
        ensures
            final(self)@ == (DisplayView { status: status, ..old(self)@ }),
    {
        self.txt.status = status;
    }

    /// Sets the network status.
    pub fn set_wifi_status(&mut self, status: WifiStatus)
        ensures
            final(self)@ == (DisplayView { wifi: status, ..old(self)@ }),
    {
        self.txt.wifi = status;
    }

    /// Replaces the temperature by a message: on line 1 the panel message,
    /// on line 2 the target text ("T:" first), on line 3 the set-up text
    /// ("S:" first); any other line changes no text.
    pub fn set_err_message(&mut self, line: i32, msg: String)
        ensures
            final(self)@ == (DisplayView {
                panel_temp: NO_PANEL_TEMP as int,
                panel_msg: if line == 1 { msg@ } else { old(self)@.panel_msg },
                target_msg: if line == 2 { "T:"@ + msg@ } else { old(self)@.target_msg },
                setup_temp: if line == 3 { "S:"@ + msg@ } else { old(self)@.setup_temp },
                ..old(self)@
            }),
    {
        self.txt.panel_temp = NO_PANEL_TEMP;
        match line {
            1 => {
                self.txt.panel_msg = msg;
            },
            2 => {
                let mut t = String::from_str("T:");
                t.append(msg.as_str());
                self.txt.target_msg = t;
            },
            3 => {
                let mut t = String::from_str("S:");
                t.append(msg.as_str());
                self.txt.setup_temp = t;
            },
            _ => {},
        }
    }

    /// Shows the supply voltage (millivolts) as volts with two decimals and a
    /// "V", rounding the exact value, ties to even, and sets the battery gauge
    /// from the exact value. For every even number of millivolts (every
    /// reading through the one-to-two divider) both are what the voltage
    /// held as an `f32` in volts prints and selects; for an odd number of
    /// millivolts ending in 5, `f32` rounding of the halfway value can differ.
    pub fn set_power_voltage(&mut self, volt: u32)
        ensures
            final(self)@ == (DisplayView {
                pvol: hundredths_text(volt as nat) + "V"@,
                volt: volt as nat,
                ..old(self)@
            }),
    {
        let mut t = String::new();
        push_hundredths(&mut t, volt);
        t.append("V");
        self.txt.pvol = t;
        self.txt.volt = volt;
    }
}


/// The frame counter after `k` frames starting from `lc`.
pub open spec fn loopcount_after(lc: int, k: nat) -> int
    decreases k,
{
    if k == 0 { lc } else { loopcount_after(next_loopcount(lc), (k - 1) as nat) }
}

proof fn loopcount_after_mod(lc: int, k: nat)
    requires
        0 <= lc < 15,
    ensures
        loopcount_after(lc, k) == (lc + k) % 15,
    decreases k,
{
    if k > 0 {
        let n = next_loopcount(lc);
        if lc + 1 < 15 {
            vstd::arithmetic::div_mod::lemma_small_mod((lc + 1) as nat, 15);
        }
        assert(n == (lc + 1) % 15);
        loopcount_after_mod(n, (k - 1) as nat);
        vstd::arithmetic::div_mod::lemma_add_mod_noop_right(k - 1, lc + 1, 15);
    } else {
        vstd::arithmetic::div_mod::lemma_small_mod(lc as nat, 15);
    }
}

/// The blink cycle is 15 frames long: a counter in 0..15 stays there, and
/// after `k` frames it has advanced by `k` modulo 15, so it is back where it
/// was after every 15 frames.
pub proof fn frame_counter_cycles(lc: int, k: nat)
    requires
        0 <= lc < 15,
    ensures
        0 <= next_loopcount(lc) < 15,
        loopcount_after(lc, k) == (lc + k) % 15,
        loopcount_after(lc, 15) == lc,
{
    loopcount_after_mod(lc, k);
    loopcount_after_mod(lc, 15);
    vstd::arithmetic::div_mod::lemma_small_mod(lc as nat, 15);
    vstd::arithmetic::div_mod::lemma_add_mod_noop_right(lc, 15, 15);
}

/// While logging is stopped, "Stop" shows steadily: every frame, whatever
/// the frame counter, draws it at (1, 55) in the large font, and the frame
/// does not depend on the counter.
pub proof fn stop_shows_in_every_frame(v: DisplayView, lc1: int, lc2: int, img: Placed)
    requires
        v.status == LoggingStatus::Stop,
    ensures
        status_text_part(v, lc1) == seq![DrawSpec::Text("Stop"@, 1, 55, TextStyle::Large)],
        status_part(v, lc1)[0] == DrawSpec::Text("Stop"@, 1, 55, TextStyle::Large),
        frame_spec(v, lc1, img) == frame_spec(v, lc2, img),
{
}

/// While logging, "Logging.." shows in frames 1 to 5 and 10 to 15 of the
/// blink cycle and is absent in frames 6 to 9.
pub proof fn logging_text_blinks(v: DisplayView, lc: int)
    requires
        v.status == LoggingStatus::Start,
    ensures
        (lc <= 5 || 10 <= lc <= 15) ==> status_text_part(v, lc) == seq![DrawSpec::Text("Logging.."@, 1, 55, TextStyle::Large)],
        (6 <= lc <= 9) ==> status_text_part(v, lc) == Seq::<DrawSpec>::empty(),
{
}

/// An error message replaces the temperature: with no reading the panel
/// draws the message where the digits go, and keeps the last digit bitmap.
pub proof fn message_replaces_temperature(v: DisplayView, img: Placed)
    requires
        v.panel_temp == NO_PANEL_TEMP,
    ensures
        temp_part(v, img) == (seq![DrawSpec::Text(v.panel_msg, 1, 20, TextStyle::Large)], img),
{
}

/// The bitmap of digit `d` at x position `x` on the top row.
pub open spec fn digit_at(d: int, x: int) -> Placed {
    Placed { glyph: Glyph::Digit(d as u8), x: x as i32, y: 0 }
}

/// A temperature from 10.00 up to 99.99 degrees shows as its tens, units and
/// tenths digits at x = 20, 40 and 68; the hundreds place, a leading zero,
/// draws the previous digit bitmap again.
pub proof fn two_digit_temperature_shows_its_digits(t: int, img: Placed)
    requires
        1000 <= t < 10000,
    ensures
        digit_row(t, 0, t, true, img).0 == seq![
            img,
            digit_at(t / 1000, 20),
            digit_at((t % 1000) / 100, 40),
            digit_at((t % 100) / 10, 68),
        ],
        digit_row(t, 0, t, true, img).1 == digit_at((t % 100) / 10, 68),
{
    let d1 = t / 1000;
    let r1 = t - 1000 * d1;
    assert(r1 == t % 1000);
    let d2 = r1 / 100;
    let r2 = r1 - 100 * d2;
    assert(r2 == t % 100) by {
        vstd::arithmetic::div_mod::lemma_mod_mod(t, 100, 10);
        vstd::arithmetic::div_mod::lemma_fundamental_div_mod(r1, 100);
    }
    let d3 = r2 / 10;
    let p1 = Placed { glyph: Glyph::Digit(d1 as u8), x: 20, y: 0 };
    let p2 = Placed { glyph: Glyph::Digit(d2 as u8), x: 40, y: 0 };
    let p3 = Placed { glyph: Glyph::Digit(d3 as u8), x: 68, y: 0 };
    assert(trunc_div(t, 10000) == 0);
    assert(digit_row(t, 3, r2, false, p2) == (seq![p3], p3)) by {
        assert(digit_row(t, 4, r2 - 10 * d3, false, p3) == (Seq::<Placed>::empty(), p3));
        assert(seq![p3] + Seq::<Placed>::empty() =~= seq![p3]);
    }
    assert(digit_row(t, 2, r1, false, p1) == (seq![p2, p3], p3)) by {
        assert(seq![p2] + seq![p3] =~= seq![p2, p3]);
    }
    assert(digit_row(t, 1, t, true, img) == (seq![p1, p2, p3], p3)) by {
        assert(seq![p1] + seq![p2, p3] =~= seq![p1, p2, p3]);
    }
    assert(digit_row(t, 0, t, true, img).0 =~= seq![img] + seq![p1, p2, p3]);
    assert(seq![img] + seq![p1, p2, p3] =~= seq![img, p1, p2, p3]);
}


/// The digit of a magnitude `m` (in hundredths) at place `k`: hundreds
/// (beyond 9 from 1000 degrees up), tens, units, tenths.
pub open spec fn place_digit(m: nat, k: nat) -> nat {
    if k == 0 { m / 10000 } else { (m / (place_unit(k) as nat)) % 10 }
}

/// Whether place `k` draws a digit of its own: it is from 1 to 9.
pub open spec fn place_shown(m: nat, k: nat) -> bool {
    0 < place_digit(m, k) <= 9
}

/// Whether every place before `k` is blank: a zero or out of range.
pub open spec fn leading_blank(m: nat, k: nat) -> bool
    decreases k,
{
    if k == 0 { true } else { leading_blank(m, (k - 1) as nat) && !place_shown(m, (k - 1) as nat) }
}

/// The bitmap drawn at place `k` of the temperature `t` (hundredths of a
/// degree), given the bitmap drawn before it: the minus sign in the first
/// place of a negative value; else the place's digit when it is 1 to 9, or a
/// zero after a digit has been drawn; else the previous bitmap again.
pub open spec fn place_bitmap(t: int, k: nat, prev: Placed) -> Placed {
    let m = magnitude(t);
    let d = place_digit(m, k);
    if t < 0 && k == 0 {
        Placed { glyph: Glyph::Minus, x: 0, y: 0 }
    } else if place_shown(m, k) {
        digit_at(d as int, place_x(k))
    } else if d == 0 && !leading_blank(m, k) {
        digit_at(0, place_x(k))
    } else {
        prev
    }
}

spec fn rem_at(t: int, k: nat) -> int {
    if k == 0 {
        t
    } else {
        let x = magnitude(t) % (place_unit((k - 1) as nat) as nat);
        if t < 0 { -x } else { x as int }
    }
}

spec fn place_row(t: int, k: nat, img: Placed) -> (Seq<Placed>, Placed)
    decreases 4 - k,
{
    if k >= 4 {
        (Seq::empty(), img)
    } else {
        let d = place_bitmap(t, k, img);
        let r = place_row(t, k + 1, d);
        (seq![d] + r.0, r.1)
    }
}

proof fn place_step(t: int, k: nat)
    requires
        k < 4,
    ensures
        trunc_div(rem_at(t, k), place_unit(k)) == if t < 0 { -place_digit(magnitude(t), k) } else { place_digit(
            magnitude(t),
            k,
        ) as int },
        k < 3 ==> rem_at(t, k) - place_unit(k) * trunc_div(rem_at(t, k), place_unit(k)) == rem_at(t, k + 1),
{
    let m = magnitude(t);
    let u = place_unit(k);
    if k == 0 {
        vstd::arithmetic::div_mod::lemma_fundamental_div_mod(m as int, 10000);
        vstd::arithmetic::div_mod::lemma_div_pos_is_pos(m as int, 10000);
    } else {
        let big = place_unit((k - 1) as nat);
        assert(big == u * 10);
        let x = m % (big as nat);
        vstd::arithmetic::div_mod::lemma_mod_breakdown(m as int, u, 10);
        vstd::arithmetic::div_mod::lemma_mod_pos_bound(m as int, u);
        vstd::arithmetic::div_mod::lemma_mod_pos_bound(m as int / u, 10);
        vstd::arithmetic::div_mod::lemma_fundamental_div_mod_converse(x as int, u, (m as int / u) % 10, m as int % u);
        if k < 3 {
            assert(place_unit(k) == u);
        }
    }
}

proof fn digit_row_by_place(t: int, k: nat, rem: int, first: bool, img: Placed)
    requires
        k <= 4,
        k < 4 ==> rem == rem_at(t, k),
        first == leading_blank(magnitude(t), k),
    ensures
        digit_row(t, k, rem, first, img) == place_row(t, k, img),
    decreases 4 - k,
{
    if k < 4 {
        let m = magnitude(t);
        place_step(t, k);
        let num = trunc_div(rem, place_unit(k));
        let (chosen, first2) = digit_choice(k, num, first, img);
        let drawn = if t < 0 && k == 0 { Placed { glyph: Glyph::Minus, x: 0, y: 0 } } else { chosen };
        assert(drawn == place_bitmap(t, k, img));
        assert(first2 == leading_blank(m, k + 1));
        digit_row_by_place(t, k + 1, rem - place_unit(k) * num, first2, drawn);
    }
}

/// The panel draws a temperature place by place from its decimal digits:
/// for any temperature `t` (hundredths of a degree) and carried bitmap
/// `img`, the four bitmaps drawn are `place_bitmap` of the hundreds, tens,
/// units and tenths places, each given the one drawn before it, and the
/// last one is carried to the next frame.
pub proof fn digits_by_place(t: int, img: Placed)
    ensures
        digit_row(t, 0, t, true, img).0.len() == 4,
        digit_row(t, 0, t, true, img).0[0] == place_bitmap(t, 0, img),
        digit_row(t, 0, t, true, img).0[1] == place_bitmap(t, 1, digit_row(t, 0, t, true, img).0[0]),
        digit_row(t, 0, t, true, img).0[2] == place_bitmap(t, 2, digit_row(t, 0, t, true, img).0[1]),
        digit_row(t, 0, t, true, img).0[3] == place_bitmap(t, 3, digit_row(t, 0, t, true, img).0[2]),
        digit_row(t, 0, t, true, img).1 == digit_row(t, 0, t, true, img).0[3],
{
    digit_row_by_place(t, 0, t, true, img);
    let d0 = place_bitmap(t, 0, img);
    let d1 = place_bitmap(t, 1, d0);
    let d2 = place_bitmap(t, 2, d1);
    let d3 = place_bitmap(t, 3, d2);
    assert(place_row(t, 4, d3) == (Seq::<Placed>::empty(), d3));
    assert(place_row(t, 3, d2).0 =~= seq![d3]);
    assert(place_row(t, 2, d1).0 =~= seq![d2, d3]);
    assert(place_row(t, 1, d0).0 =~= seq![d1, d2, d3]);
    assert(place_row(t, 0, img).0 =~= seq![d0, d1, d2, d3]);
}

} // verus!
