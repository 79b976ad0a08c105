//! Metric definitions of a progress schema.

use vstd::prelude::*;

verus! {

/// Describes one metric dimension reported by a progress operation.
///
/// The `id` is stable and machine-readable; the `name` is for display.
#[derive(Debug, PartialEq, Eq, Hash)]
pub struct ProgressMetric {
    /// Stable machine-readable metric identifier.
    id: String,
    /// Human-readable metric name.
    name: String,
}

impl View for ProgressMetric {
    type V = (Seq<char>, Seq<char>);

    closed spec fn view(&self) -> (Seq<char>, Seq<char>) {
        (self.id@, self.name@)
    }
}

impl ProgressMetric {
    /// Creates a metric definition.
    pub fn new(id: &str, name: &str) -> (m: Self)
        ensures
            m@ == (id@, name@),
    {
        ProgressMetric { id: id.to_owned(), name: name.to_owned() }
    }

    /// Returns the stable metric identifier.
    pub fn id(&self) -> (id: &str)
        ensures
            id@ == self@.0,
    {
        self.id.as_str()
    }

    /// Returns the human-readable metric name.
    pub fn name(&self) -> (name: &str)
        ensures
            name@ == self@.1,
    {
        self.name.as_str()
    }
}

impl Clone for ProgressMetric {
    fn clone(&self) -> (m: Self)
        ensures
            m@ == self@,
    {
        ProgressMetric { id: self.id.clone(), name: self.name.clone() }
    }
}

} // verus!
