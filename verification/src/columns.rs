//! The column registry for search requests: the subset of selectable
//! fields that the search endpoint uses by default.

use vstd::prelude::*;

verus! {

/// A selectable response field for a search, paired with its fixed wire
/// name.
#[derive(Debug, Clone, Copy, PartialEq, Eq, Structural)]
pub enum Column {
    TicketNumber,
    Title,
    Body,
    Events,
}

impl Column {
    /// The wire field name the service expects for this column.
    pub open spec fn spec_wire_name(self) -> Seq<char> {
        match self {
            Column::TicketNumber => "ixBug"@,
            Column::Title => "sTitle"@,
            Column::Body => "sHtmlBody"@,
            Column::Events => "events"@,
        }
    }

    /// The wire field name the service expects for this column.
    pub fn wire_name(&self) -> (r: &'static str)
        ensures
            r@ == self.spec_wire_name(),
    {
        match self {
            Column::TicketNumber => "ixBug",
            Column::Title => "sTitle",
            Column::Body => "sHtmlBody",
            Column::Events => "events",
        }
    }
}

} // verus!
