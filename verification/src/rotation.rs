//! The daily-rotating file sink's naming and rotation decisions.
//!
//! The sink writes each record to `<base>.<YYYY-MM-DD>` for the record's
//! calendar day, starting a new file at each midnight boundary. The actual
//! file I/O belongs to the surrounding program; this module decides, for a
//! record's day, which file receives it and whether that opens a new file.

use vstd::prelude::*;

use crate::date::{date_seq, lemma_date_seq_injective, Date};

verus! {

/// The name of the file that receives records of day `d` under a sink whose
/// file stem is `base`: the stem, a dot, and the day's stamp.
pub open spec fn sink_file_seq(base: Seq<char>, d: Date) -> Seq<char> {
    base + seq!['.'] + date_seq(d)
}

/// A daily-rotating file sink: a file stem and the day whose file is
/// currently open.
pub struct RotatingFileSink {
    base: String,
    current: Date,
}

impl RotatingFileSink {
    /// The file stem every day's file name starts with.
    pub closed spec fn base_seq(self) -> Seq<char> {
        self.base@
    }

    /// The day whose file the sink last wrote to.
    pub closed spec fn current_day(self) -> Date {
        self.current
    }

    /// A well-formed sink is open on a real calendar day.
    pub open spec fn wf(self) -> bool {
        self.current_day().valid()
    }

    /// A sink rooted at stem `base`, opened on day `today`.
    pub fn new(base: String, today: Date) -> (s: Self)
        requires
            today.valid(),
        ensures
            s.base_seq() == base@,
            s.current_day() == today,
            s.wf(),
    {
        RotatingFileSink { base, current: today }
    }

    /// Whether writing a record of day `day` opens a new file: exactly when
    /// the day differs from the one currently open.
    pub fn rotates(&self, day: Date) -> (r: bool)
        ensures
            r == (day != self.current_day()),
    {
        !(self.current.year == day.year && self.current.month == day.month
            && self.current.day == day.day)
    }

    /// The file that receives a record of day `day`, making that day current:
    /// always the file stamped with the record's own day, so no record
    /// crosses a midnight boundary into another day's file.
    pub fn file_name_for(&mut self, day: Date) -> (r: String)
        requires
            old(self).wf(),
            day.valid(),
        ensures
            r@ == sink_file_seq(old(self).base_seq(), day),
            final(self).base_seq() == old(self).base_seq(),
            final(self).current_day() == day,
            final(self).wf(),
    {
        self.current = day;
        let mut name = self.base.clone();
        push_dot(&mut name);
        let stamp = day.format_stamp();
        name.append(stamp.as_str());
        proof {
            assert(name@ =~= sink_file_seq(self.base@, day));
        }
        name
    }
}

/// Appends the separator between the stem and the stamp to `s`.
fn push_dot(s: &mut String)
    ensures
        final(s)@ == old(s)@ + seq!['.'],
{
    proof {
        reveal_strlit(".");
        assert("."@ =~= seq!['.']);
    }
    s.append(".");
}

/// No record crosses files: under one stem, records of two distinct days are
/// named into two distinct files, whichever day the sink had open.
pub proof fn lemma_no_record_crosses_files(base: Seq<char>, d1: Date, d2: Date)
    requires
        d1.valid(),
        d2.valid(),
        d1 != d2,
    ensures
        sink_file_seq(base, d1) != sink_file_seq(base, d2),
{
    if sink_file_seq(base, d1) == sink_file_seq(base, d2) {
        let s1 = sink_file_seq(base, d1);
        let s2 = sink_file_seq(base, d2);
        assert(date_seq(d1) =~= date_seq(d2)) by {
            assert(forall|i: int|
                0 <= i < 10 ==> date_seq(d1)[i] == s1[base.len() + 1 + i]
                    && date_seq(d2)[i] == s2[base.len() + 1 + i]);
        }
        lemma_date_seq_injective(d1, d2);
    }
}

} // verus!
