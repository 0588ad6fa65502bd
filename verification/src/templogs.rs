//! The in-memory record of temperature samples.
use vstd::prelude::*;
use crate::text::{decimal, push_decimal, push_short, short_text};

verus! {

/// One sample. Temperatures are in hundredths of a degree Celsius and the
/// supply voltage is in millivolts, so that every quantity is exact. The
/// sample's text (the record dump and the upload body) is what the same
/// values held as `f32` (degrees, volts) print for every whole number of
/// quarter degrees, for the sensor-fault value -99.99 and for every even
/// number of millivolts, which are all the values the logger records; for
/// other hundredths or millivolts `f32` rounding can differ in the last place.
#[derive(Clone, Copy, Debug, PartialEq, Eq, Structural)]
pub struct TempLog {
    /// Plate (thermocouple) temperature, hundredths of a degree.
    pub pt: i32,
    /// Target temperature, hundredths of a degree.
    pub tt: i32,
    /// Milliseconds since logging started.
    pub clock: u32,
    /// Heater power.
    pub pwr: u32,
    /// Supply voltage, millivolts.
    pub vol: u32,
}

impl TempLog {
    /// A sample with every field zero.
    pub fn default() -> (r: Self)
        ensures
            r == (TempLog { pt: 0, tt: 0, clock: 0, pwr: 0, vol: 0 }),
    {
        TempLog { pt: 0, tt: 0, clock: 0, pwr: 0, vol: 0 }
    }
}

/// The CSV line that the record dump prints for one sample:
/// time, plate temperature, target temperature, power.
pub open spec fn record_line(l: TempLog) -> Seq<char> {
    decimal(l.clock as nat) + seq![','] + short_text(l.pt as int) + seq![','] + short_text(
        l.tt as int,
    ) + seq![','] + decimal(l.pwr as nat)
}

/// The lines that dumping a record prints: a header, then one CSV line per
/// sample, oldest first.
pub open spec fn dump_text(s: Seq<TempLog>) -> Seq<Seq<char>> {
    seq!["time,plate,target,power"@] + s.map_values(|l: TempLog| record_line(l))
}

/// An operation that changes a record.
pub ghost enum RecordOp {
    /// Append a sample.
    Record(TempLog),
    /// Remove this many of the oldest samples (all where there are fewer).
    Remove(nat),
    /// Remove every sample.
    Clear,
}

/// The samples after an operation.
pub open spec fn apply_record_op(s: Seq<TempLog>, op: RecordOp) -> Seq<TempLog> {
    match op {
        RecordOp::Record(l) => s.push(l),
        RecordOp::Remove(n) => s.skip(if n < s.len() { n as int } else { s.len() as int }),
        RecordOp::Clear => Seq::empty(),
    }
}

/// The samples after a sequence of operations, in order.
pub open spec fn run_record_ops(s: Seq<TempLog>, ops: Seq<RecordOp>) -> Seq<TempLog>
    decreases ops.len(),
{
    if ops.len() == 0 {
        s
    } else {
        apply_record_op(run_record_ops(s, ops.drop_last()), ops.last())
    }
}

/// The samples recorded since the last clear, in order, and how many of
/// them the removals since then actually removed.
pub open spec fn recorded_and_removed(ops: Seq<RecordOp>) -> (Seq<TempLog>, nat)
    decreases ops.len(),
{
    if ops.len() == 0 {
        (Seq::empty(), 0)
    } else {
        let (r, m) = recorded_and_removed(ops.drop_last());
        match ops.last() {
            RecordOp::Record(l) => (r.push(l), m),
            RecordOp::Remove(n) => {
                let avail = r.len() - m;
                (r, m + if n < avail { n } else { avail as nat })
            },
            RecordOp::Clear => (Seq::empty(), 0),
        }
    }
}

/// The record is first in, first out: starting empty, after any sequence of
/// operations it holds the samples recorded since the last clear, in the
/// order they were recorded, less the oldest ones that were removed; nothing
/// is reordered, repeated or made up.
pub proof fn record_is_first_in_first_out(ops: Seq<RecordOp>)
    ensures
        recorded_and_removed(ops).1 <= recorded_and_removed(ops).0.len(),
        run_record_ops(Seq::empty(), ops) == recorded_and_removed(ops).0.skip(recorded_and_removed(ops).1 as int),
    decreases ops.len(),
{
    if ops.len() > 0 {
        let prev = ops.drop_last();
        record_is_first_in_first_out(prev);
        let (r, m) = recorded_and_removed(prev);
        let s = run_record_ops(Seq::empty(), prev);
        match ops.last() {
            RecordOp::Record(l) => {
                assert(s.push(l) =~= r.push(l).skip(m as int));
            },
            RecordOp::Remove(n) => {
                let avail = r.len() - m;
                let k: nat = if n < avail { n } else { avail as nat };
                assert(apply_record_op(s, RecordOp::Remove(n)) =~= r.skip((m + k) as int));
            },
            RecordOp::Clear => {
                assert(Seq::<TempLog>::empty() =~= Seq::<TempLog>::empty().skip(0));
            },
        }
    } else {
        assert(Seq::<TempLog>::empty() =~= Seq::<TempLog>::empty().skip(0));
    }
}

/// The samples taken, oldest first.
pub struct TempRecord {
    rec: Vec<TempLog>,
}

impl View for TempRecord {
    type V = Seq<TempLog>;

    closed spec fn view(&self) -> Seq<TempLog> {
        self.rec@
    }
}

impl TempRecord {
    /// An empty record.
    pub fn new() -> (r: TempRecord)
        ensures
            r@ == Seq::<TempLog>::empty(),
    {
        TempRecord { rec: Vec::new() }
    }

    /// Appends a sample.
    pub fn record(&mut self, data: TempLog)
        ensures
            final(self)@ == old(self)@.push(data),
            final(self)@ == apply_record_op(old(self)@, RecordOp::Record(data)),
    {
        self.rec.push(data);
    }

    /// The lines that dumping the record prints: a header, then one CSV line
    /// per sample, oldest first.
    pub fn dump(&self) -> (lines: Vec<String>)
        ensures
            lines@.map_values(|l: String| l@) == dump_text(self@),
    {
        let mut lines: Vec<String> = Vec::new();
        lines.push(String::from_str("time,plate,target,power"));
        let n = self.rec.len();
        for i in 0..n
            invariant
                n == self@.len(),
                lines@.len() == i + 1,
                lines@[0]@ == "time,plate,target,power"@,
                forall|j: int| 0 <= j < i ==> #[trigger] lines@[j + 1]@ == record_line(self@[j]),
        {
            let it = &self.rec[i];
            let mut line = String::new();
            proof {
                reveal_strlit(",");
            }
            push_decimal(&mut line, it.clock as u64);
            line.append(",");
            push_short(&mut line, it.pt);
            line.append(",");
            push_short(&mut line, it.tt);
            line.append(",");
            push_decimal(&mut line, it.pwr as u64);
            assert(line@ =~= record_line(self@[i as int]));
            lines.push(line);
        }
        let ghost viewed = lines@.map_values(|l: String| l@);
        assert forall|i: int| 0 <= i < lines@.len() implies #[trigger] viewed[i] == dump_text(self@)[i] by {
            if i > 0 {
                assert(lines@[(i - 1) + 1]@ == record_line(self@[i - 1]));
            }
        }
        assert(viewed =~= dump_text(self@));
        lines
    }

    /// Removes every sample.
    pub fn clear(&mut self)
        ensures
            final(self)@ == Seq::<TempLog>::empty(),
            final(self)@ == apply_record_op(old(self)@, RecordOp::Clear),
    {
        self.rec.clear()
    }

    /// All samples, oldest first.
    pub fn get_all_data(&self) -> (r: &Vec<TempLog>)
        ensures
            r@ == self@,
    {
        &self.rec
    }

    /// Removes the `size` oldest samples, or all of them where there are fewer.
    pub fn remove_data(&mut self, size: usize)
        ensures
            final(self)@ == old(self)@.skip(if size < old(self)@.len() { size as int } else { old(self)@.len() as int }),
            final(self)@ == apply_record_op(old(self)@, RecordOp::Remove(size as nat)),
    {
        let mut num = size;
        if self.rec.len() < size {
            num = self.rec.len();
        }
        let rest = self.rec.split_off(num);
        self.rec = rest;
    }
}

} // verus!
