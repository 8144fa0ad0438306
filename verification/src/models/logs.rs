//! Logs, as data.
//!
//! A bounded tail of the file the daemon writes, re-read every two seconds
//! while the surface is in front of someone and not paused, plus the older
//! pages behind it. Nothing here reads the file: `logs.query` is the only door,
//! and the cursor, the filters and the bounds are all the protocol's. What is
//! here is how each page is laid over what is held.

use vstd::prelude::*;
use crate::copy::Key;
use crate::management::errors::{wire_rendered, ManagementError, TransportError};
use crate::management::types::{LogDirection, LogEntry, LogLevel, LogsQueryParams};
use crate::management::vocabulary::{opt_view, refusal_of, Refusal};
use crate::text::{chars_of, slice_chars, str_eq, string_of, trim, trimmed};

verus! {

/// How often the tail is re-read while the surface is visible and not paused,
/// in milliseconds.
pub const POLL_INTERVAL_MS: u64 = 2000;

/// The most polls one visible stretch performs: six hours at the interval
/// above. Reaching it stops the poll; showing the surface again starts it.
pub const POLL_CAP: u32 = 10800;

/// The tail this surface opens on, which is the protocol's own initial tail.
pub const TAIL_LIMIT: u32 = 200;

/// The most entries held at once. Older ones are dropped as newer arrive, so a
/// window left open for a day holds a page, not a file.
pub const HELD_ENTRIES: usize = 2000;

/// The protocol's own search bound, in characters.
pub const MAX_SEARCH: usize = 256;

/// The eight levels, in the order the filter lists them.
pub open spec fn level_table() -> Seq<LogLevel> {
    seq![
        LogLevel::Emergency,
        LogLevel::Alert,
        LogLevel::Critical,
        LogLevel::Error,
        LogLevel::Warning,
        LogLevel::Notice,
        LogLevel::Info,
        LogLevel::Debug,
    ]
}

/// The eight levels, in the order the filter lists them.
pub fn levels() -> (r: Vec<LogLevel>)
    ensures
        r@ == level_table(),
{
    let r = vec![
        LogLevel::Emergency,
        LogLevel::Alert,
        LogLevel::Critical,
        LogLevel::Error,
        LogLevel::Warning,
        LogLevel::Notice,
        LogLevel::Info,
        LogLevel::Debug,
    ];
    assert(r@ =~= level_table());
    r
}

/// The word for one level. The wire publishes the atom; the catalogue owns how
/// it reads.
pub fn level_word(level: LogLevel) -> (k: Key)
    ensures
        k == match level {
            LogLevel::Emergency => Key::LogLevelEmergency,
            LogLevel::Alert => Key::LogLevelAlert,
            LogLevel::Critical => Key::LogLevelCritical,
            LogLevel::Error => Key::LogLevelError,
            LogLevel::Warning => Key::LogLevelWarning,
            LogLevel::Notice => Key::LogLevelNotice,
            LogLevel::Info => Key::LogLevelInfo,
            LogLevel::Debug => Key::LogLevelDebug,
        },
{
    match level {
        LogLevel::Emergency => Key::LogLevelEmergency,
        LogLevel::Alert => Key::LogLevelAlert,
        LogLevel::Critical => Key::LogLevelCritical,
        LogLevel::Error => Key::LogLevelError,
        LogLevel::Warning => Key::LogLevelWarning,
        LogLevel::Notice => Key::LogLevelNotice,
        LogLevel::Info => Key::LogLevelInfo,
        LogLevel::Debug => Key::LogLevelDebug,
    }
}

/// What one read did to the held entries, so a view knows whether its scroll
/// position still means anything.
#[derive(Debug, Clone, Copy, PartialEq, Eq, Structural)]
pub enum Landed {
    /// Nothing changed.
    Unchanged,
    /// Entries were added at the end.
    Appended,
    /// Entries were added at the start.
    Prepended,
    /// The whole window moved, so the list was replaced.
    Replaced,
}

/// One entry's identity, for merging. The pair is what the daemon wrote: two
/// entries at the same instant with the same text are the same line.
pub open spec fn identity(entry: LogEntry) -> (Seq<char>, Seq<char>) {
    (entry.time@, entry.message@)
}

/// Where the first entry with an identity stands in a page, if it does.
pub open spec fn position_of(page: Seq<LogEntry>, id: (Seq<char>, Seq<char>)) -> Option<int>
    decreases page.len(),
{
    if page.len() == 0 {
        None
    } else if identity(page[0]) == id {
        Some(0)
    } else {
        match position_of(page.drop_first(), id) {
            Some(i) => Some(i + 1),
            None => None,
        }
    }
}

proof fn position_is(page: Seq<LogEntry>, id: (Seq<char>, Seq<char>), i: int)
    requires
        0 <= i < page.len(),
        identity(page[i]) == id,
        forall|j: int| 0 <= j < i ==> identity(#[trigger] page[j]) != id,
    ensures
        position_of(page, id) == Some(i),
    decreases i,
{
    if i > 0 {
        assert forall|j: int| 0 <= j < i - 1 implies identity(#[trigger] page.drop_first()[j]) != id by {
            assert(page.drop_first()[j] == page[j + 1]);
        }
        position_is(page.drop_first(), id, i - 1);
    }
}

proof fn position_absent(page: Seq<LogEntry>, id: (Seq<char>, Seq<char>))
    requires
        forall|j: int| 0 <= j < page.len() ==> identity(#[trigger] page[j]) != id,
    ensures
        position_of(page, id) is None,
    decreases page.len(),
{
    if page.len() > 0 {
        assert forall|j: int| 0 <= j < page.len() - 1 implies identity(#[trigger] page.drop_first()[j]) != id by {
            assert(page.drop_first()[j] == page[j + 1]);
        }
        position_absent(page.drop_first(), id);
    }
}

proof fn position_bounded(page: Seq<LogEntry>, id: (Seq<char>, Seq<char>))
    ensures
        position_of(page, id) matches Some(i) ==> 0 <= i < page.len(),
    decreases page.len(),
{
    if page.len() > 0 {
        position_bounded(page.drop_first(), id);
    }
}

/// The newest `HELD_ENTRIES` of a list, oldest first.
pub open spec fn newest_held(s: Seq<LogEntry>) -> Seq<LogEntry> {
    if s.len() > HELD_ENTRIES {
        s.skip(s.len() - HELD_ENTRIES)
    } else {
        s
    }
}

/// What laying a newer page over what is held gives: the entries after the
/// last one held are appended and the oldest dropped past the bound; a window
/// that has moved past everything held replaces it; a page with nothing new
/// leaves it alone.
pub open spec fn merged_newer(held: Seq<LogEntry>, page: Seq<LogEntry>) -> (Landed, Seq<LogEntry>) {
    if held.len() == 0 {
        if page.len() == 0 {
            (Landed::Unchanged, held)
        } else {
            (Landed::Replaced, page)
        }
    } else {
        match position_of(page, identity(held.last())) {
            Some(at) => if at + 1 >= page.len() {
                (Landed::Unchanged, held)
            } else {
                (Landed::Appended, newest_held(held + page.skip(at + 1)))
            },
            None => if page.len() == 0 {
                (Landed::Unchanged, held)
            } else {
                (Landed::Replaced, page)
            },
        }
    }
}

/// What putting an older page in front of what is held gives: the page up to
/// the first entry already held, in front, and only the first `HELD_ENTRIES`
/// kept.
pub open spec fn merged_older(held: Seq<LogEntry>, page: Seq<LogEntry>) -> (Landed, Seq<LogEntry>) {
    if page.len() == 0 {
        (Landed::Unchanged, held)
    } else {
        let kept = if held.len() == 0 {
            page
        } else {
            match position_of(page, identity(held[0])) {
                Some(at) => page.take(at),
                None => page,
            }
        };
        if kept.len() == 0 {
            (Landed::Unchanged, held)
        } else {
            let all = kept + held;
            (
                Landed::Prepended,
                if all.len() > HELD_ENTRIES {
                    all.take(HELD_ENTRIES as int)
                } else {
                    all
                },
            )
        }
    }
}

/// Whether two entries are the same line.
fn same_line(a: &LogEntry, b: &LogEntry) -> (r: bool)
    ensures
        r == (identity(*a) == identity(*b)),
{
    str_eq(a.time.as_str(), b.time.as_str()) && str_eq(a.message.as_str(), b.message.as_str())
}

/// Where the first entry that is the same line as `wanted` stands in a page.
fn find_line(page: &Vec<LogEntry>, wanted: &LogEntry) -> (r: Option<usize>)
    ensures
        match r {
            Some(at) => position_of(page@, identity(*wanted)) == Some(at as int) && at < page@.len(),
            None => position_of(page@, identity(*wanted)) is None,
        },
{
    let ghost id = identity(*wanted);
    let mut i: usize = 0;
    while i < page.len()
        invariant
            i <= page@.len(),
            id == identity(*wanted),
            forall|j: int| 0 <= j < i ==> identity(#[trigger] page@[j]) != id,
        decreases page@.len() - i,
    {
        if same_line(&page[i], wanted) {
            proof {
                position_is(page@, id, i as int);
            }
            return Some(i);
        }
        i = i + 1;
    }
    proof {
        position_absent(page@, id);
    }
    None
}

/// What the Logs surface holds between reads.
pub struct LogsState {
    /// The entries held, oldest first.
    pub entries: Vec<LogEntry>,
    /// The cursor for the page older than what is held, where there is one.
    pub older: Option<String>,
    /// The level filter, where one is set.
    pub level: Option<LogLevel>,
    /// The search, where one is set.
    pub search: Option<String>,
    /// Whether the tail is paused.
    pub paused: bool,
    /// The daemon's own sentence about why this view started again.
    pub notice: Option<String>,
    /// Whether the daemon is not answering.
    pub unavailable: bool,
}

/// The search a typed text asks for: trimmed, nothing if blank, and no
/// longer than the protocol takes.
pub open spec fn search_of(text: Option<Seq<char>>) -> Option<Seq<char>> {
    match text {
        Some(t) => if trimmed(t).len() == 0 {
            None
        } else if trimmed(t).len() > MAX_SEARCH {
            Some(trimmed(t).take(MAX_SEARCH as int))
        } else {
            Some(trimmed(t))
        },
        None => None,
    }
}

impl LogsState {
    /// Nothing held, nothing filtered, not paused.
    pub fn new() -> (s: Self)
        ensures
            s.entries@.len() == 0,
            s.older is None,
            s.level is None,
            s.search is None,
            !s.paused,
            s.notice is None,
            !s.unavailable,
    {
        LogsState {
            entries: Vec::new(),
            older: None,
            level: None,
            search: None,
            paused: false,
            notice: None,
            unavailable: false,
        }
    }

    /// Lay a newer page over what is held: the entries after the last one held
    /// are appended, and a window that has moved past everything held replaces
    /// it.
    pub fn merge_newer(&mut self, page: Vec<LogEntry>) -> (landed: Landed)
        ensures
            (landed, final(self).entries@) == merged_newer(old(self).entries@, page@),
            final(self).older == old(self).older,
            final(self).unavailable == old(self).unavailable,
            final(self).notice == old(self).notice,
            final(self).level == old(self).level,
            final(self).search == old(self).search,
            final(self).paused == old(self).paused,
    {
        if self.entries.len() == 0 {
            if page.len() == 0 {
                return Landed::Unchanged;
            }
            self.entries = page;
            return Landed::Replaced;
        }
        let n = self.entries.len();
        let ghost original = page@;
        let found = find_line(&page, &self.entries[n - 1]);
        proof {
            assert(self.entries@[n - 1] == self.entries@.last());
        }
        match found {
            Some(at) => {
                let plen = page.len();
                assert(at < plen);
                if at + 1 >= plen {
                    return Landed::Unchanged;
                }
                let mut page = page;
                let mut tail = page.split_off(at + 1);
                proof {
                    assert(tail@ =~= original.skip(at + 1));
                }
                self.entries.append(&mut tail);
                let len = self.entries.len();
                if len > HELD_ENTRIES {
                    let kept = self.entries.split_off(len - HELD_ENTRIES);
                    self.entries = kept;
                }
                proof {
                    let combined = old(self).entries@ + original.skip(at + 1);
                    assert(tail@.len() == 0);
                    assert(newest_held(combined) =~= self.entries@) by {
                        if combined.len() > HELD_ENTRIES {
                            assert(combined.skip(combined.len() - HELD_ENTRIES) =~= self.entries@);
                        }
                    }
                }
                Landed::Appended
            },
            None => {
                if page.len() == 0 {
                    return Landed::Unchanged;
                }
                self.entries = page;
                Landed::Replaced
            },
        }
    }

    /// Put an older page in front of what is held.
    pub fn merge_older(&mut self, page: Vec<LogEntry>) -> (landed: Landed)
        ensures
            (landed, final(self).entries@) == merged_older(old(self).entries@, page@),
            final(self).older == old(self).older,
            final(self).unavailable == old(self).unavailable,
            final(self).notice == old(self).notice,
            final(self).level == old(self).level,
            final(self).search == old(self).search,
            final(self).paused == old(self).paused,
    {
        if page.len() == 0 {
            return Landed::Unchanged;
        }
        let mut kept = page;
        if self.entries.len() > 0 {
            match find_line(&kept, &self.entries[0]) {
                Some(at) => {
                    kept.truncate(at);
                },
                None => {},
            }
        }
        proof {
            assert(kept@ == (if old(self).entries@.len() == 0 {
                page@
            } else {
                match position_of(page@, identity(old(self).entries@[0])) {
                    Some(at) => page@.take(at),
                    None => page@,
                }
            }));
        }
        if kept.len() == 0 {
            return Landed::Unchanged;
        }
        let ghost front = kept@;
        kept.append(&mut self.entries);
        self.entries = kept;
        self.entries.truncate(HELD_ENTRIES);
        proof {
            let all = front + old(self).entries@;
            if all.len() > HELD_ENTRIES {
                assert(self.entries@ =~= all.take(HELD_ENTRIES as int));
            } else {
                assert(self.entries@ =~= all);
            }
        }
        Landed::Prepended
    }

    /// The newest page landed: the cursor behind it is held only while nothing
    /// older has been asked for yet, so paging back does not lose its place on
    /// the next tick.
    pub fn newest_landed(&mut self, page: Vec<LogEntry>, cursor: Option<String>) -> (landed: Landed)
        ensures
            (landed, final(self).entries@) == merged_newer(old(self).entries@, page@),
            old(self).older is None ==> final(self).older == cursor,
            old(self).older is Some ==> final(self).older == old(self).older,
            !final(self).unavailable,
    {
        self.unavailable = false;
        if self.older.is_none() {
            self.older = cursor;
        }
        self.merge_newer(page)
    }

    /// An older page landed, with the cursor for the page behind it.
    pub fn older_landed(&mut self, page: Vec<LogEntry>, cursor: Option<String>) -> (landed: Landed)
        ensures
            (landed, final(self).entries@) == merged_older(old(self).entries@, page@),
            final(self).older == cursor,
            !final(self).unavailable,
    {
        self.unavailable = false;
        self.older = cursor;
        self.merge_older(page)
    }

    /// A refusal, read.
    ///
    /// A cursor that predates a rotation is the one refusal this surface
    /// recovers from on its own: it drops what it held, says why in the
    /// daemon's own words, and starts again at the newest entries. A daemon
    /// that is not running marks the surface unavailable. Anything else
    /// changes nothing. Says whether anything moved.
    pub fn refused(&mut self, error: &ManagementError) -> (moved: bool)
        ensures
            match *error {
                ManagementError::Wire(wire) => if refusal_of(wire.code@) == Refusal::CursorExpired {
                    &&& moved
                    &&& final(self).entries@.len() == 0
                    &&& final(self).older is None
                    &&& opt_view(final(self).notice) == Some(wire_rendered(wire))
                    &&& final(self).unavailable == old(self).unavailable
                } else {
                    !moved && final(self).entries@ == old(self).entries@ && final(self).unavailable
                        == old(self).unavailable
                },
                ManagementError::Transport(TransportError::NotRunning) => moved && final(self).unavailable && final(self).entries@ == old(self).entries@,
                _ => !moved && final(self).entries@ == old(self).entries@ && final(self).unavailable
                    == old(self).unavailable,
            },
    {
        match error {
            ManagementError::Wire(wire) => {
                if Refusal::of(wire) == Refusal::CursorExpired {
                    self.entries.clear();
                    self.older = None;
                    self.notice = Some(crate::text::owned(wire.rendered()));
                    return true;
                }
                false
            },
            ManagementError::Transport(TransportError::NotRunning) => {
                self.unavailable = true;
                true
            },
            _ => false,
        }
    }

    /// Filter by level. Changing a filter starts the window again, because the
    /// entries behind it are a different set. Says whether it changed.
    pub fn set_level(&mut self, level: Option<LogLevel>) -> (changed: bool)
        ensures
            final(self).level == level,
            changed == (old(self).level != level),
            changed ==> final(self).entries@.len() == 0 && final(self).older is None,
            !changed ==> final(self).entries@ == old(self).entries@ && final(self).older == old(self).older,
    {
        if self.level == level {
            return false;
        }
        self.level = level;
        self.entries.clear();
        self.older = None;
        true
    }

    /// Filter by text: trimmed, nothing if blank, and capped at what the
    /// protocol takes. Says whether it changed, in which case the window
    /// starts again.
    pub fn set_search(&mut self, search: Option<&str>) -> (changed: bool)
        ensures
            opt_view(final(self).search) == search_of(
                match search {
                    Some(s) => Some(s@),
                    None => None,
                },
            ),
            changed == (opt_view(old(self).search) != opt_view(final(self).search)),
            changed ==> final(self).entries@.len() == 0 && final(self).older is None,
            !changed ==> final(self).entries@ == old(self).entries@,
    {
        let wanted: Option<String> = match search {
            Some(text) => {
                let t = trim(text);
                let v = chars_of(t.as_str());
                if v.len() == 0 {
                    None
                } else if v.len() > MAX_SEARCH {
                    let cut = slice_chars(v.as_slice(), 0, MAX_SEARCH);
                    proof {
                        assert(cut@ =~= trimmed(text@).take(MAX_SEARCH as int));
                    }
                    Some(string_of(cut.as_slice()))
                } else {
                    Some(t)
                }
            },
            None => None,
        };
        let same = match (&self.search, &wanted) {
            (Some(a), Some(b)) => str_eq(a.as_str(), b.as_str()),
            (None, None) => true,
            _ => false,
        };
        if same {
            return false;
        }
        self.search = wanted;
        self.entries.clear();
        self.older = None;
        true
    }

    /// The query for the newest page, under the filters held.
    pub fn newest_query(&self) -> (p: LogsQueryParams)
        ensures
            p.limit == Some(TAIL_LIMIT),
            p.level == self.level,
            p.subsystem is None,
            opt_view(p.search) == opt_view(self.search),
            p.direction == Some(LogDirection::Backward),
            p.cursor is None,
    {
        LogsQueryParams {
            limit: Some(TAIL_LIMIT),
            level: self.level,
            subsystem: None,
            search: copy_opt(&self.search),
            direction: Some(LogDirection::Backward),
            cursor: None,
        }
    }

    /// The query for the page older than what is held, where there is one.
    pub fn older_query(&self) -> (p: Option<LogsQueryParams>)
        ensures
            match self.older {
                Some(cursor) => p matches Some(q) && q.limit == Some(TAIL_LIMIT) && q.level
                    == self.level && q.subsystem is None && opt_view(q.search) == opt_view(
                    self.search,
                ) && q.direction == Some(LogDirection::Backward) && opt_view(q.cursor) == Some(
                    cursor@,
                ),
                None => p is None,
            },
    {
        match &self.older {
            Some(cursor) => Some(
                LogsQueryParams {
                    limit: Some(TAIL_LIMIT),
                    level: self.level,
                    subsystem: None,
                    search: copy_opt(&self.search),
                    direction: Some(LogDirection::Backward),
                    cursor: Some(cursor.clone()),
                },
            ),
            None => None,
        }
    }
}

fn copy_opt(s: &Option<String>) -> (r: Option<String>)
    ensures
        opt_view(r) == opt_view(*s),
{
    match s {
        Some(t) => Some(t.clone()),
        None => None,
    }
}

/// A newer page never leaves more than the bound held, unless the window
/// moved and the page itself is larger: an appended page is always cut back
/// to the bound, and a page with nothing new changes nothing.
pub proof fn the_held_window_is_bounded(held: Seq<LogEntry>, page: Seq<LogEntry>)
    requires
        held.len() <= HELD_ENTRIES,
    ensures
        merged_newer(held, page).0 != Landed::Replaced ==> merged_newer(held, page).1.len()
            <= HELD_ENTRIES,
        merged_newer(held, page).0 == Landed::Replaced ==> merged_newer(held, page).1 == page,
        merged_older(held, page).1.len() <= HELD_ENTRIES,
{
}

/// A page that repeats what is held, up to and including its last entry,
/// appends only what is new after it, in order.
pub proof fn an_overlapping_page_appends_only_what_is_new(
    held: Seq<LogEntry>,
    page: Seq<LogEntry>,
    at: int,
)
    requires
        held.len() > 0,
        held.len() + page.len() - at - 1 <= HELD_ENTRIES,
        position_of(page, identity(held.last())) == Some(at),
        at + 1 < page.len(),
    ensures
        merged_newer(held, page) == (Landed::Appended, held + page.skip(at + 1)),
{
    position_bounded(page, identity(held.last()));
    assert((held + page.skip(at + 1)).len() <= HELD_ENTRIES);
}

/// An older page lands in front of what is held. Where none of its entries
/// is the first line held, the whole page goes in front; where the first line
/// held first appears at `at`, the page up to there goes in front; either
/// way only the first `HELD_ENTRIES` are kept. An empty page, or one whose
/// very first entry is the first line held, changes nothing.
pub proof fn an_older_page_goes_in_front_of_what_is_held(
    held: Seq<LogEntry>,
    page: Seq<LogEntry>,
    at: int,
)
    ensures
        (page.len() > 0 && (held.len() == 0 || forall|j: int|
            0 <= j < page.len() ==> identity(#[trigger] page[j]) != identity(held[0])))
            ==> merged_older(held, page) == (
            Landed::Prepended,
            if page.len() + held.len() > HELD_ENTRIES {
                (page + held).take(HELD_ENTRIES as int)
            } else {
                page + held
            },
        ),
        (held.len() > 0 && 0 < at < page.len() && identity(page[at]) == identity(held[0]) && forall|
            j: int,
        | 0 <= j < at ==> identity(#[trigger] page[j]) != identity(held[0])) ==> merged_older(held, page)
            == (
            Landed::Prepended,
            if at + held.len() > HELD_ENTRIES {
                (page.take(at) + held).take(HELD_ENTRIES as int)
            } else {
                page.take(at) + held
            },
        ),
        page.len() == 0 ==> merged_older(held, page) == (Landed::Unchanged, held),
        (held.len() > 0 && page.len() > 0 && identity(page[0]) == identity(held[0])) ==> merged_older(
            held,
            page,
        ) == (Landed::Unchanged, held),
{
    if page.len() > 0 && held.len() > 0 {
        if forall|j: int| 0 <= j < page.len() ==> identity(#[trigger] page[j]) != identity(held[0]) {
            position_absent(page, identity(held[0]));
        }
        if 0 < at < page.len() && identity(page[at]) == identity(held[0]) && forall|j: int|
            0 <= j < at ==> identity(#[trigger] page[j]) != identity(held[0]) {
            position_is(page, identity(held[0]), at);
            assert(page.take(at).len() == at);
        }
        if identity(page[0]) == identity(held[0]) {
            position_is(page, identity(held[0]), 0);
            assert(page.take(0).len() == 0);
        }
    }
}

} // verus!
