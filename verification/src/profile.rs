//! The table of temperature-profile points.
use vstd::prelude::*;
use crate::text::{decimal, push_decimal};

verus! {

/// A point of a temperature profile: hold `temp` for `dura`.
#[derive(Debug, Clone, Copy, PartialEq, Eq, Structural)]
pub struct Profile {
    pub temp: u32,
    pub dura: u32,
}

/// A profile point with its progress: when it was changed to, whether it has
/// been passed, whether it has been set.
#[derive(Debug, Clone, Copy, PartialEq, Eq, Structural)]
pub struct TempTransition {
    pub profile: Profile,
    pub chtime: u32,
    pub pass: bool,
    pub set: bool,
}

/// The text of a boolean.
pub open spec fn bool_text(b: bool) -> Seq<char> {
    if b { "true"@ } else { "false"@ }
}

/// The CSV line that the table dump prints for one point.
pub open spec fn transition_line(t: TempTransition) -> Seq<char> {
    decimal(t.profile.temp as nat) + ","@ + decimal(t.profile.dura as nat) + ","@ + decimal(
        t.chtime as nat,
    ) + ","@ + bool_text(t.pass) + ","@ + bool_text(t.set)
}

/// The points of a profile, in the order they were added.
pub struct ProfileTable {
    db: Vec<TempTransition>,
}

impl View for ProfileTable {
    type V = Seq<TempTransition>;

    closed spec fn view(&self) -> Seq<TempTransition> {
        self.db@
    }
}

fn bool_str(b: bool) -> (s: &'static str)
    ensures
        s@ == bool_text(b),
{
    if b { "true" } else { "false" }
}

impl ProfileTable {
    /// An empty table.
    pub fn new() -> (t: Self)
        ensures
            t@ == Seq::<TempTransition>::empty(),
    {
        ProfileTable { db: Vec::new() }
    }

    /// Appends a point that has not been reached yet.
    pub fn add_point(&mut self, prof: Profile)
        ensures
            final(self)@ == old(self)@.push(
                TempTransition { profile: prof, chtime: 0, pass: false, set: false },
            ),
    {
        let nt = TempTransition { profile: prof, chtime: 0, pass: false, set: false };
        self.db.push(nt);
    }

    /// The points, for reading and updating in place.
    pub fn get_profile(&mut self) -> (points: &mut [TempTransition])
        ensures
            points@ == old(self)@,
            final(self)@ == final(points)@,
    {
        self.db.as_mut_slice()
    }

    /// The lines that dumping the table prints: a header, then one CSV line
    /// per point.
    pub fn dump(&self) -> (lines: Vec<String>)
        ensures
            lines@.len() == self@.len() + 1,
            lines@[0]@ == "temp,duration,chtime,pass"@,
            forall|i: int| 0 <= i < self@.len() ==> #[trigger] lines@[i + 1]@ == transition_line(self@[i]),
    {
        let mut lines: Vec<String> = Vec::new();
        lines.push(String::from_str("temp,duration,chtime,pass"));
        let n = self.db.len();
        for i in 0..n
            invariant
                n == self@.len(),
                lines@.len() == i + 1,
                lines@[0]@ == "temp,duration,chtime,pass"@,
                forall|j: int| 0 <= j < i ==> #[trigger] lines@[j + 1]@ == transition_line(self@[j]),
        {
            let it = &self.db[i];
            let mut line = String::new();
            push_decimal(&mut line, it.profile.temp as u64);
            line.append(",");
            push_decimal(&mut line, it.profile.dura as u64);
            line.append(",");
            push_decimal(&mut line, it.chtime as u64);
            line.append(",");
            line.append(bool_str(it.pass));
            line.append(",");
            line.append(bool_str(it.set));
            assert(line@ =~= transition_line(self@[i as int]));
            lines.push(line);
        }
        lines
    }
}

} // verus!
