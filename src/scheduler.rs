use vstd::prelude::*;

use crate::config::AppData;
use crate::error::WallpError;
use crate::timestamp::{parse_rfc3339, parsed_instant, Timestamp};

verus! {

/// What one scheduler tick does.
#[derive(Clone, Copy, Debug, PartialEq, Eq, Structural)]
pub enum TickAction {
    /// Not configured, or suspended: do nothing, and leave the due time alone.
    Skip,
    /// The due time has not come yet.
    Wait,
    /// The due time has passed: fetch a new wallpaper.
    Fetch,
}

/// The action for a tick at `now`, given the due time as read from the
/// record (`None` where it could not be read).
pub open spec fn tick_result(data: AppData, due: Option<Timestamp>, now: Timestamp) -> Result<
    TickAction,
    WallpError,
> {
    if data.config.unsplash_access_key@.len() == 0 {
        Ok(TickAction::Skip)
    } else {
        match due {
            None => Err(WallpError::CorruptRecord(data.state.next_run_at)),
            Some(d) => if !data.state.is_running {
                Ok(TickAction::Skip)
            } else if now.before(d) {
                Ok(TickAction::Wait)
            } else {
                Ok(TickAction::Fetch)
            },
        }
    }
}

/// The action for a tick at `now`, once the due time has been read (`None`
/// where it is not RFC 3339). Without an access key the tick is skipped; an
/// unreadable due time fails it with `CorruptRecord`; while the rotation is
/// stopped it is skipped; otherwise a due time at or before `now` asks for a
/// fetch. A scheduled fetch never merely replays history.
pub fn tick_action(data: &AppData, due: Option<Timestamp>, now: Timestamp) -> (r: Result<
    TickAction,
    WallpError,
>)
    ensures
        r == tick_result(*data, due, now),
{
    if data.config.unsplash_access_key.as_str().is_empty() {
        return Ok(TickAction::Skip);
    }
    match due {
        None => Err(WallpError::CorruptRecord(data.state.next_run_at.clone())),
        Some(d) => if !data.state.is_running {
            Ok(TickAction::Skip)
        } else if now.is_before(&d) {
            Ok(TickAction::Wait)
        } else {
            Ok(TickAction::Fetch)
        },
    }
}

/// The action for a tick at `now`, reading the due time from the record.
pub fn decide_tick(data: &AppData, now: Timestamp) -> (r: Result<TickAction, WallpError>)
    ensures
        r == tick_result(*data, parsed_instant(data.state.next_run_at@), now),
{
    let due = parse_rfc3339(data.state.next_run_at.as_str());
    tick_action(data, due, now)
}

} // verus!
