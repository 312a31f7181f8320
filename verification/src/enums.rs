//! The column registry for case requests, and the numeric-code decoders
//! for response fields.
//!
//! Priority and Category map one-to-one from small codes. Status is a
//! many-to-one mapping: the service allows per-installation custom
//! status ids within fixed categories, so many distinct codes collapse
//! onto six semantic buckets, and a code outside the table is a decode
//! failure carrying the offending value — this decoder never silently
//! defaults.

use crate::DecodeError;
use vstd::prelude::*;

verus! {

/// A selectable response field, paired with its fixed wire name.
#[derive(Debug, Clone, Copy, PartialEq, Eq, Structural)]
pub enum Column {
    CaseId,
    Title,
    Body,
    Events,
    Project,
    ProjectId,
    Area,
    Priority,
    Status,
    Category,
    IsOpen,
}

impl Column {
    /// The wire field name the service expects for this column.
    pub open spec fn spec_wire_name(self) -> Seq<char> {
        match self {
            Column::CaseId => "ixBug"@,
            Column::Title => "sTitle"@,
            Column::Body => "sHtmlBody"@,
            Column::Events => "events"@,
            Column::Project => "sProject"@,
            Column::ProjectId => "ixProject"@,
            Column::Area => "sArea"@,
            Column::Priority => "ixPriority"@,
            Column::Status => "ixStatus"@,
            Column::Category => "ixCategory"@,
            Column::IsOpen => "fOpen"@,
        }
    }

    /// The wire field name the service expects for this column.
    pub fn wire_name(&self) -> (r: &'static str)
        ensures
            r@ == self.spec_wire_name(),
    {
        match self {
            Column::CaseId => "ixBug",
            Column::Title => "sTitle",
            Column::Body => "sHtmlBody",
            Column::Events => "events",
            Column::Project => "sProject",
            Column::ProjectId => "ixProject",
            Column::Area => "sArea",
            Column::Priority => "ixPriority",
            Column::Status => "ixStatus",
            Column::Category => "ixCategory",
            Column::IsOpen => "fOpen",
        }
    }
}

/// The kind of work a case asks for.
#[derive(Debug, Clone, Copy, PartialEq, Eq, Structural)]
pub enum Category {
    Bug,
    Feature,
    Inquiry,
    Schedule,
    Report,
    Emergency,
}

/// The category a code denotes: a one-to-one mapping for codes one
/// through six.
pub open spec fn spec_category_of_code(code: int) -> Option<Category> {
    if code == 1 {
        Some(Category::Bug)
    } else if code == 2 {
        Some(Category::Feature)
    } else if code == 3 {
        Some(Category::Inquiry)
    } else if code == 4 {
        Some(Category::Schedule)
    } else if code == 5 {
        Some(Category::Report)
    } else if code == 6 {
        Some(Category::Emergency)
    } else {
        None
    }
}

impl Category {
    /// Decode a category code; a code outside the table is a decode
    /// failure carrying the offending value.
    pub fn from_code(code: i64) -> (r: Result<Category, DecodeError>)
        ensures
            match spec_category_of_code(code as int) {
                Some(c) => r == Ok::<Category, DecodeError>(c),
                None => r == Err::<Category, DecodeError>(DecodeError::UnknownCategory(code)),
            },
    {
        match code {
            1 => Ok(Category::Bug),
            2 => Ok(Category::Feature),
            3 => Ok(Category::Inquiry),
            4 => Ok(Category::Schedule),
            5 => Ok(Category::Report),
            6 => Ok(Category::Emergency),
            _ => Err(DecodeError::UnknownCategory(code)),
        }
    }
}

/// How urgent a case is.
#[derive(Debug, Clone, Copy, PartialEq, Eq, Structural)]
pub enum Priority {
    Blocker,
    MuyImportante,
    ShouldDo,
    FixIfTime,
    OhWell,
    WhoCares,
    DontFix,
}

/// The priority a code denotes: a one-to-one mapping for codes one
/// through seven.
pub open spec fn spec_priority_of_code(code: int) -> Option<Priority> {
    if code == 1 {
        Some(Priority::Blocker)
    } else if code == 2 {
        Some(Priority::MuyImportante)
    } else if code == 3 {
        Some(Priority::ShouldDo)
    } else if code == 4 {
        Some(Priority::FixIfTime)
    } else if code == 5 {
        Some(Priority::OhWell)
    } else if code == 6 {
        Some(Priority::WhoCares)
    } else if code == 7 {
        Some(Priority::DontFix)
    } else {
        None
    }
}

impl Priority {
    /// Decode a priority code; a code outside the table is a decode
    /// failure carrying the offending value.
    pub fn from_code(code: i64) -> (r: Result<Priority, DecodeError>)
        ensures
            match spec_priority_of_code(code as int) {
                Some(p) => r == Ok::<Priority, DecodeError>(p),
                None => r == Err::<Priority, DecodeError>(DecodeError::UnknownPriority(code)),
            },
    {
        match code {
            1 => Ok(Priority::Blocker),
            2 => Ok(Priority::MuyImportante),
            3 => Ok(Priority::ShouldDo),
            4 => Ok(Priority::FixIfTime),
            5 => Ok(Priority::OhWell),
            6 => Ok(Priority::WhoCares),
            7 => Ok(Priority::DontFix),
            _ => Err(DecodeError::UnknownPriority(code)),
        }
    }
}

/// The semantic bucket a case's status falls in.
#[derive(Debug, Clone, Copy, PartialEq, Eq, Structural)]
pub enum Status {
    Active,
    Resolved,
    Approved,
    Rejected,
    WontReview,
    AbandonedNoConsensus,
}

/// The status bucket a code denotes. The table is surjective and
/// many-to-one: the service's installations define their own status ids
/// within fixed categories, so many ids share a bucket. A code outside
/// the table denotes nothing.
pub open spec fn spec_status_of_code(code: int) -> Option<Status> {
    if code == 1 || code == 17 || code == 20 || code == 23 || code == 26 || code == 33 || code
        == 36 || code == 37 || code == 40 {
        Some(Status::Active)
    } else if (2 <= code && code <= 16) || code == 18 || code == 19 || code == 21 || code == 22
        || code == 24 || code == 25 || code == 31 || code == 32 || code == 34 || code == 35 || code
        == 38 || code == 39 {
        Some(Status::Resolved)
    } else if code == 27 {
        Some(Status::Approved)
    } else if code == 28 {
        Some(Status::Rejected)
    } else if code == 29 {
        Some(Status::WontReview)
    } else if code == 30 {
        Some(Status::AbandonedNoConsensus)
    } else {
        None
    }
}

impl Status {
    /// Decode a status code; a code outside the table is a decode
    /// failure carrying the offending value.
    pub fn from_code(code: i64) -> (r: Result<Status, DecodeError>)
        ensures
            match spec_status_of_code(code as int) {
                Some(s) => r == Ok::<Status, DecodeError>(s),
                None => r == Err::<Status, DecodeError>(DecodeError::UnknownStatus(code)),
            },
    {
        if code == 1 || code == 17 || code == 20 || code == 23 || code == 26 || code == 33 || code
            == 36 || code == 37 || code == 40 {
            Ok(Status::Active)
        } else if (2 <= code && code <= 16) || code == 18 || code == 19 || code == 21 || code == 22
            || code == 24 || code == 25 || code == 31 || code == 32 || code == 34 || code == 35
            || code == 38 || code == 39 {
            Ok(Status::Resolved)
        } else if code == 27 {
            Ok(Status::Approved)
        } else if code == 28 {
            Ok(Status::Rejected)
        } else if code == 29 {
            Ok(Status::WontReview)
        } else if code == 30 {
            Ok(Status::AbandonedNoConsensus)
        } else {
            Err(DecodeError::UnknownStatus(code))
        }
    }
}

} // verus!
