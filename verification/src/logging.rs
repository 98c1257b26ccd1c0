//! What is written to the tenant's log, and how the log is read back.
use crate::models;
use crate::publisher::ConnectError;
use crate::utils::{checked_instant_to_seconds, datable, instant_to_seconds, seconds_of};
use vstd::prelude::*;

verus! {

/// The page that is shown when none is asked for.
pub const DEFAULT_PAGE: u32 = 1;

/// The number of entries on a page when none is asked for.
pub const DEFAULT_PAGE_SIZE: u32 = 10;

/// How grave a log entry is.
#[derive(Clone, Copy, Debug, PartialEq, Eq, Structural)]
pub enum LogLevel {
    Info,
    Error,
}

impl LogLevel {
    /// The word under which the level is stored.
    pub open spec fn text(self) -> Seq<char> {
        match self {
            LogLevel::Info => "info"@,
            LogLevel::Error => "error"@,
        }
    }

    /// The word under which the level is stored.
    pub fn to_string(&self) -> (text: String)
        ensures
            text@ == self.text(),
    {
        match self {
            LogLevel::Info => "info".to_string(),
            LogLevel::Error => "error".to_string(),
        }
    }
}

/// What the hub writes about a connect, by the answer it gave: the level
/// and the message of the entry.
pub fn connect_log(answer: &Result<(), ConnectError>) -> (line: (LogLevel, &'static str))
    ensures
        match *answer {
            Ok(_) => line.0 == LogLevel::Info && line.1@ == "connected"@,
            Err(ConnectError::Admission) => line.0 == LogLevel::Error && line.1@
                == "max connections error"@,
            Err(ConnectError::Transient) => line.0 == LogLevel::Error && line.1@ == "connection error"@,
        },
{
    match answer {
        Ok(_) => (LogLevel::Info, "connected"),
        Err(ConnectError::Admission) => (LogLevel::Error, "max connections error"),
        Err(ConnectError::Transient) => (LogLevel::Error, "connection error"),
    }
}

/// What the hub writes about a disconnect.
pub fn disconnect_log() -> (line: (LogLevel, &'static str))
    ensures
        line.0 == LogLevel::Info,
        line.1@ == "disconnected"@,
{
    (LogLevel::Info, "disconnected")
}

/// What the hub writes about an event it routed.
pub fn publish_log() -> (line: (LogLevel, &'static str))
    ensures
        line.0 == LogLevel::Info,
        line.1@ == "Message received"@,
{
    (LogLevel::Info, "Message received")
}

/// The row to insert for a log entry.
pub fn insert_log<'a>(
    account_id: &'a str,
    level: &'a str,
    data: Option<serde_json::Value>,
) -> (row: models::NewLog<'a>)
    ensures
        row == (models::NewLog { account_id, level, data }),
{
    models::NewLog { account_id, level, data }
}

/// A log entry as the control plane shows it.
pub struct LogType {
    pub account_id: String,
    pub level: String,
    pub data: Option<serde_json::Value>,
    pub created_at: u64,
}

/// One page of a longer list, and how many pages there are.
pub struct Paginated<T> {
    pub items: Vec<T>,
    pub total_pages: i64,
}

/// The page and the page size to ask the store for: what the caller
/// named, or page 1 and 10 entries.
pub fn page_request(page_number: Option<u32>, page_size: Option<u32>) -> (request: (i64, i64))
    ensures
        request.0 == match page_number {
            Some(page) => page as int,
            None => 1,
        },
        request.1 == match page_size {
            Some(size) => size as int,
            None => 10,
        },
{
    let page: u32 = match page_number {
        Some(p) => p,
        None => DEFAULT_PAGE,
    };
    let limit: u32 = match page_size {
        Some(p) => p,
        None => DEFAULT_PAGE_SIZE,
    };
    (page as i64, limit as i64)
}

/// How many rows come before page `page` when `per_page` rows make a
/// page: the pages before it, full. Page 0 is read as page 1. `None` when
/// the number is beyond what the store can be asked to skip.
pub fn page_offset(page: u32, per_page: u32) -> (offset: Option<i64>)
    ensures
        ({
            let before = if page >= 1 {
                (page - 1) * per_page
            } else {
                0
            };
            offset == if before <= i64::MAX {
                Some(before as i64)
            } else {
                None
            }
        }),
{
    if page == 0 {
        return Some(0);
    }
    let pages_before: u64 = (page - 1) as u64;
    let size: u64 = per_page as u64;
    assert(pages_before * size <= 0xffff_ffff * 0xffff_ffff) by (nonlinear_arith)
        requires
            0 <= pages_before <= 0xffff_ffff,
            0 <= size <= 0xffff_ffff,
    ;
    let before: u64 = pages_before * size;
    if before <= 0x7fff_ffff_ffff_ffff {
        Some(before as i64)
    } else {
        None
    }
}

/// How many pages it takes to show `total` rows, `per_page` to a page:
/// none for no rows or for pages that hold nothing.
pub fn total_pages(total: i64, per_page: i64) -> (pages: i64)
    ensures
        pages == if total <= 0 || per_page <= 0 {
            0
        } else {
            (total - 1) / (per_page as int) + 1
        },
{
    if total <= 0 || per_page <= 0 {
        0
    } else {
        (total - 1) / per_page + 1
    }
}

impl LogType {
    /// Whether a row can be shown: it is dated at or after the epoch.
    pub open spec fn showable(row: models::Log) -> bool {
        datable(row.created_at)
    }

    /// What a row of the store is shown as.
    pub open spec fn of_row(row: models::Log) -> LogType {
        LogType {
            account_id: row.account_id,
            level: row.level,
            data: row.data,
            created_at: seconds_of(row.created_at),
        }
    }

    /// Whether a row can be shown.
    pub fn can_show(row: &models::Log) -> (yes: bool)
        ensures
            yes == Self::showable(*row),
    {
        checked_instant_to_seconds(row.created_at).is_some()
    }

    /// Shows a row that is dated at or after the epoch.
    pub fn from_row(row: models::Log) -> (shown: Self)
        requires
            Self::showable(row),
        ensures
            shown == Self::of_row(row),
    {
        LogType {
            account_id: row.account_id,
            level: row.level,
            data: row.data,
            created_at: instant_to_seconds(row.created_at),
        }
    }
}

/// Shows one page of a tenant's log, row by row, with the number of pages
/// that the store counted. A row that is dated before the epoch cannot be
/// shown: then there is no page.
pub fn paginated_logs(rows: Vec<models::Log>, total_pages: i64) -> (page: Option<Paginated<LogType>>)
    ensures
        match page {
            Some(shown) => {
                &&& shown.total_pages == total_pages
                &&& shown.items.len() == rows.len()
                &&& forall|i: int|
                    0 <= i < rows.len() ==> LogType::showable(#[trigger] rows[i]) && shown.items[i]
                        == LogType::of_row(rows[i])
            },
            None => exists|i: int| 0 <= i < rows.len() && !LogType::showable(#[trigger] rows[i]),
        },
{
    let mut i: usize = 0;
    while i < rows.len()
        invariant
            i <= rows.len(),
            forall|k: int| 0 <= k < i ==> LogType::showable(#[trigger] rows[k]),
        decreases rows.len() - i,
    {
        if !LogType::can_show(&rows[i]) {
            return None;
        }
        i += 1;
    }
    let ghost all = rows@;
    let mut items: Vec<LogType> = Vec::new();
    for row in it: rows
        invariant
            forall|k: int| 0 <= k < all.len() ==> LogType::showable(#[trigger] all[k]),
            it.seq() == all,
            items.len() == it.index(),
            forall|k: int| 0 <= k < it.index() ==> items[k] == LogType::of_row(#[trigger] all[k]),
    {
        assert(0 <= it.index() < all.len());
        assert(row == all[it.index() as int]);
        items.push(LogType::from_row(row));
    }
    Some(Paginated { items, total_pages })
}

} // verus!
