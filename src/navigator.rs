use vstd::prelude::*;

use crate::config::AppData;
use crate::error::WallpError;
use crate::timestamp::{rfc3339_after_minutes, text_after_minutes, Timestamp};

verus! {

/// A request to move through the history.
#[derive(Clone, Copy, Debug, PartialEq, Eq, Structural)]
pub enum Navigation {
    /// Fetch a new wallpaper, wherever the cursor stands.
    New,
    /// Step forward, or fetch a new wallpaper at the newest entry.
    Next,
    /// Step back.
    Prev,
    /// Jump to a position.
    SetByIndex(usize),
}

/// What a navigation request comes to.
#[derive(Clone, Copy, Debug, PartialEq, Eq, Structural)]
pub enum Plan {
    /// Apply the cached entry at this position; no network.
    Apply(usize),
    /// Fetch and append a new wallpaper.
    Fetch,
}

/// The plan for `nav` on `data`.
pub open spec fn planned(data: AppData, nav: Navigation) -> Result<Plan, WallpError> {
    let len = data.history@.len();
    let cursor = data.state.current_history_index;
    match nav {
        Navigation::New => Ok(Plan::Fetch),
        Navigation::Next => if cursor + 1 < len {
            Ok(Plan::Apply((cursor + 1) as usize))
        } else {
            Ok(Plan::Fetch)
        },
        Navigation::Prev => if cursor > 0 {
            Ok(Plan::Apply((cursor - 1) as usize))
        } else {
            Err(WallpError::NoPreviousEntry)
        },
        Navigation::SetByIndex(i) => if i < len {
            Ok(Plan::Apply(i))
        } else {
            Err(WallpError::IndexOutOfRange { index: i, len: len as usize })
        },
    }
}

/// Decides what `nav` does on `data`: step to a cached entry, fetch a new
/// one, or fail with `NoPreviousEntry` / `IndexOutOfRange`.
pub fn plan(data: &AppData, nav: Navigation) -> (r: Result<Plan, WallpError>)
    requires
        data.wf(),
    ensures
        r == planned(*data, nav),
        r matches Ok(Plan::Apply(i)) ==> i < data.history@.len(),
{
    let len = data.history.len();
    let cursor = data.state.current_history_index;
    match nav {
        Navigation::New => Ok(Plan::Fetch),
        Navigation::Next => if len > 0 && cursor < len - 1 {
            Ok(Plan::Apply(cursor + 1))
        } else {
            Ok(Plan::Fetch)
        },
        Navigation::Prev => if cursor > 0 {
            Ok(Plan::Apply(cursor - 1))
        } else {
            Err(WallpError::NoPreviousEntry)
        },
        Navigation::SetByIndex(i) => if i < len {
            Ok(Plan::Apply(i))
        } else {
            Err(WallpError::IndexOutOfRange { index: i, len })
        },
    }
}

/// `after` is `before` with the cursor on `index` and the current id following
/// it; nothing else of the history, settings or run flag has changed.
pub open spec fn moved_to(before: AppData, after: AppData, index: usize) -> bool {
    &&& after.history == before.history
    &&& after.config == before.config
    &&& after.state.is_running == before.state.is_running
    &&& after.state.last_run_at == before.state.last_run_at
    &&& after.state.current_history_index == index
    &&& after.wf()
}

/// Commits a step to the cached entry at `index`, once it has been applied at
/// `now`. Manual browsing pushes the next scheduled fetch one interval past
/// `now`, so that the scheduler does not replace a wallpaper just chosen.
/// Fails with `TimeOutOfRange`, changing nothing, where that instant cannot
/// be written as a timestamp.
pub fn select_entry(data: &mut AppData, index: usize, now: Timestamp) -> (r: Result<(), WallpError>)
    requires
        old(data).wf(),
        index < old(data).history@.len(),
    ensures
        r is Ok <==> text_after_minutes(now, old(data).config.interval_minutes) is Some,
        r is Err ==> r == Err::<(), WallpError>(WallpError::TimeOutOfRange) && *final(data) == *old(
            data,
        ),
        r is Ok ==> moved_to(*old(data), *final(data), index) && final(data).state.next_run_at@
            == text_after_minutes(now, old(data).config.interval_minutes)->0,
        final(data).wf(),
{
    let next_run_at = match rfc3339_after_minutes(now, data.config.interval_minutes) {
        Some(text) => text,
        None => return Err(WallpError::TimeOutOfRange),
    };
    data.state.current_history_index = index;
    data.state.next_run_at = next_run_at;
    data.sync_current_id();
    Ok(())
}

/// Stepping back and then forward again brings the cursor back to where it
/// started, and the forward step replays that cached entry: no fetch.
pub proof fn lemma_prev_then_next_returns(before: AppData, middle: AppData, back: usize)
    requires
        before.wf(),
        planned(before, Navigation::Prev) == Ok::<Plan, WallpError>(Plan::Apply(back)),
        moved_to(before, middle, back),
    ensures
        planned(middle, Navigation::Next) == Ok::<Plan, WallpError>(
            Plan::Apply(before.state.current_history_index),
        ),
        middle.history@[before.state.current_history_index as int]
            == before.history@[before.state.current_history_index as int],
{
}

/// Every navigation that succeeds keeps the cursor inside a non-empty history.
pub proof fn lemma_plan_stays_in_bounds(data: AppData, nav: Navigation)
    requires
        data.wf(),
    ensures
        planned(data, nav) matches Ok(Plan::Apply(i)) ==> i < data.history@.len(),
{
}

} // verus!
