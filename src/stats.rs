use vstd::prelude::*;

use crate::text::joined;

verus! {

/// An optional window of time, in seconds since the Unix epoch, that a
/// statistics query is limited to.
#[derive(Clone, Copy, Debug, PartialEq, Eq, Structural)]
pub struct TimeRange {
    pub start: Option<i64>,
    pub end: Option<i64>,
}

/// The condition that limits a query to the range, after `prefix`; empty
/// when the range is open at both ends.
pub open spec fn predicate_of(start: Option<i64>, end: Option<i64>, prefix: Seq<char>) -> Seq<char> {
    match (start, end) {
        (Some(_), Some(_)) => prefix + "st.datetime BETWEEN ? AND ?"@,
        (None, Some(_)) => prefix + "st.datetime < ?"@,
        (Some(_), None) => prefix + "st.datetime > ?"@,
        (None, None) => Seq::<char>::empty(),
    }
}

/// The values that fill the condition's placeholders, in order.
pub open spec fn bounds_of(start: Option<i64>, end: Option<i64>) -> Seq<i64> {
    match (start, end) {
        (Some(s), Some(e)) => seq![s, e],
        (None, Some(e)) => seq![e],
        (Some(s), None) => seq![s],
        (None, None) => Seq::<i64>::empty(),
    }
}

impl TimeRange {
    /// The condition that limits a query to this range, after `prefix`.
    pub fn as_predicate(&self, prefix: &str) -> (r: String)
        ensures
            r@ == predicate_of(self.start, self.end, prefix@),
    {
        match (self.start, self.end) {
            (Some(_), Some(_)) => joined(prefix, "st.datetime BETWEEN ? AND ?"),
            (None, Some(_)) => joined(prefix, "st.datetime < ?"),
            (Some(_), None) => joined(prefix, "st.datetime > ?"),
            (None, None) => String::new(),
        }
    }

    /// The values for the condition's placeholders, in order.
    pub fn bound_values(&self) -> (r: Vec<i64>)
        ensures
            r@ == bounds_of(self.start, self.end),
    {
        let mut out: Vec<i64> = Vec::new();
        if let Some(s) = self.start {
            out.push(s);
        }
        if let Some(e) = self.end {
            out.push(e);
        }
        assert(out@ =~= bounds_of(self.start, self.end));
        out
    }
}

} // verus!
