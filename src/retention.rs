use vstd::prelude::*;

use crate::config::{AppData, Wallpaper};
use crate::timestamp::{now, parse_rfc3339, parsed_instant, Timestamp};

verus! {

pub const SECONDS_PER_DAY: i128 = 86400;

/// How long fetched wallpapers are kept.
#[derive(Clone, Copy, Debug, PartialEq, Eq, Structural)]
pub enum RetentionPolicy {
    Forever,
    /// Keep only the newest entry.
    DeleteImmediately,
    /// Keep entries applied within the last `n` days.
    KeepDays(u64),
}

impl RetentionPolicy {
    /// The policy that the setting `retention_days` stands for.
    pub open spec fn of_days(days: Option<u64>) -> RetentionPolicy {
        match days {
            None => RetentionPolicy::Forever,
            Some(n) => if n == 0 {
                RetentionPolicy::DeleteImmediately
            } else {
                RetentionPolicy::KeepDays(n)
            },
        }
    }

    pub fn from_retention_days(days: Option<u64>) -> (r: RetentionPolicy)
        ensures
            r == RetentionPolicy::of_days(days),
    {
        match days {
            None => RetentionPolicy::Forever,
            Some(n) => if n == 0 {
                RetentionPolicy::DeleteImmediately
            } else {
                RetentionPolicy::KeepDays(n)
            },
        }
    }
}

/// Whether an entry applied at `applied_at` is older than `days` days before
/// `now`. An entry whose time cannot be read is never stale.
pub open spec fn is_stale(applied_at: Seq<char>, days: u64, now: Timestamp) -> bool {
    match parsed_instant(applied_at) {
        Some(t) => older_than(t, days, now),
        None => false,
    }
}

/// The entries that a keep-days policy keeps.
pub open spec fn fresh_pred(days: u64, now: Timestamp) -> spec_fn(Wallpaper) -> bool {
    |e: Wallpaper| !is_stale(e.applied_at@, days, now)
}

/// The entries that a keep-days policy removes.
pub open spec fn stale_pred(days: u64, now: Timestamp) -> spec_fn(Wallpaper) -> bool {
    |e: Wallpaper| is_stale(e.applied_at@, days, now)
}

/// What pruning `history` under `policy` at `now` keeps, and what it removes,
/// both in history order.
pub open spec fn pruned(history: Seq<Wallpaper>, policy: RetentionPolicy, now: Timestamp) -> (
    Seq<Wallpaper>,
    Seq<Wallpaper>,
) {
    match policy {
        RetentionPolicy::Forever => (history, Seq::empty()),
        RetentionPolicy::DeleteImmediately => if history.len() > 1 {
            (
                history.subrange(history.len() - 1, history.len() as int),
                history.subrange(0, history.len() - 1),
            )
        } else {
            (history, Seq::empty())
        },
        RetentionPolicy::KeepDays(n) => (
            history.filter(fresh_pred(n, now)),
            history.filter(stale_pred(n, now)),
        ),
    }
}

/// Whether an instant lies strictly before `now` less `days` days.
pub open spec fn older_than(t: Timestamp, days: u64, now: Timestamp) -> bool {
    let cutoff = now.secs - days * 86400;
    t.secs < cutoff || (t.secs == cutoff && t.nanos < now.nanos)
}

/// Whether an entry applied at `applied` (`None` where its time could not be
/// read) is stale: only a readable time can be.
pub fn applied_is_stale(applied: Option<Timestamp>, days: u64, now: Timestamp) -> (r: bool)
    ensures
        r == (applied matches Some(t) && older_than(t, days, now)),
{
    match applied {
        Some(t) => {
            let cutoff: i128 = now.secs as i128 - days as i128 * SECONDS_PER_DAY;
            (t.secs as i128) < cutoff || (t.secs as i128 == cutoff && t.nanos < now.nanos)
        },
        None => false,
    }
}

/// Whether the entry's time is older than `days` days before `now`.
pub fn entry_is_stale(entry: &Wallpaper, days: u64, now: Timestamp) -> (r: bool)
    ensures
        r == is_stale(entry.applied_at@, days, now),
{
    applied_is_stale(parse_rfc3339(entry.applied_at.as_str()), days, now)
}

/// Splits `history` into the entries that `policy` keeps at `now` and those it
/// removes.
pub fn prune(history: Vec<Wallpaper>, policy: RetentionPolicy, now: Timestamp) -> (r: (
    Vec<Wallpaper>,
    Vec<Wallpaper>,
))
    ensures
        r.0@ == pruned(history@, policy, now).0,
        r.1@ == pruned(history@, policy, now).1,
{
    match policy {
        RetentionPolicy::Forever => (history, Vec::new()),
        RetentionPolicy::DeleteImmediately => {
            if history.len() > 1 {
                let mut removed = history;
                let newest = removed.pop().unwrap();
                let mut kept: Vec<Wallpaper> = Vec::new();
                kept.push(newest);
                assert(kept@ =~= history@.subrange(history@.len() - 1, history@.len() as int));
                assert(removed@ =~= history@.subrange(0, history@.len() - 1));
                (kept, removed)
            } else {
                (history, Vec::new())
            }
        },
        RetentionPolicy::KeepDays(days) => {
            let mut kept: Vec<Wallpaper> = Vec::new();
            let mut removed: Vec<Wallpaper> = Vec::new();
            let mut i: usize = 0;
            while i < history.len()
                invariant
                    i <= history@.len(),
                    kept@ == history@.subrange(0, i as int).filter(fresh_pred(days, now)),
                    removed@ == history@.subrange(0, i as int).filter(stale_pred(days, now)),
                decreases history@.len() - i,
            {
                let ghost prefix = history@.subrange(0, i as int);
                let ghost next = history@.subrange(0, i as int + 1);
                assert(next.drop_last() =~= prefix);
                assert(next.last() == history@[i as int]);
                let entry = history[i].duplicate();
                let stale = entry_is_stale(&entry, days, now);
                proof {
                    reveal_with_fuel(Seq::filter, 1);
                    assert(next.filter(fresh_pred(days, now)) == if stale {
                        prefix.filter(fresh_pred(days, now))
                    } else {
                        prefix.filter(fresh_pred(days, now)).push(entry)
                    });
                    assert(next.filter(stale_pred(days, now)) == if stale {
                        prefix.filter(stale_pred(days, now)).push(entry)
                    } else {
                        prefix.filter(stale_pred(days, now))
                    });
                }
                if stale {
                    removed.push(entry);
                } else {
                    kept.push(entry);
                }
                i = i + 1;
            }
            assert(history@.subrange(0, history@.len() as int) =~= history@);
            (kept, removed)
        },
    }
}

/// Under delete-immediately, at most one entry is kept.
pub proof fn lemma_delete_immediately_keeps_at_most_one(history: Seq<Wallpaper>, now: Timestamp)
    ensures
        pruned(history, RetentionPolicy::DeleteImmediately, now).0.len() <= 1,
{
}

proof fn lemma_split_lengths(history: Seq<Wallpaper>, days: u64, now: Timestamp)
    ensures
        history.filter(fresh_pred(days, now)).len() + history.filter(stale_pred(days, now)).len()
            == history.len(),
    decreases history.len(),
{
    reveal_with_fuel(Seq::filter, 1);
    if history.len() > 0 {
        lemma_split_lengths(history.drop_last(), days, now);
    }
}

/// Keeping `days` days removes exactly the entries whose time can be read
/// and lies strictly before `now` less `days` days; every other entry, and so
/// every entry whose time cannot be read, is kept.
pub proof fn lemma_keep_days_removes_exactly_stale(
    history: Seq<Wallpaper>,
    days: u64,
    now: Timestamp,
)
    ensures
        ({
            let (kept, removed) = pruned(history, RetentionPolicy::KeepDays(days), now);
            &&& forall|i: int|
                0 <= i < kept.len() ==> !is_stale(#[trigger] kept[i].applied_at@, days, now)
            &&& forall|i: int|
                0 <= i < removed.len() ==> is_stale(#[trigger] removed[i].applied_at@, days, now)
            &&& forall|i: int|
                0 <= i < history.len() && is_stale(history[i].applied_at@, days, now)
                    ==> removed.contains(#[trigger] history[i])
            &&& forall|i: int|
                0 <= i < history.len() && !is_stale(history[i].applied_at@, days, now)
                    ==> kept.contains(#[trigger] history[i])
            &&& forall|i: int|
                0 <= i < history.len() && parsed_instant(history[i].applied_at@) is None
                    ==> kept.contains(#[trigger] history[i])
            &&& kept.len() + removed.len() == history.len()
        }),
{
    let kept = history.filter(fresh_pred(days, now));
    let removed = history.filter(stale_pred(days, now));
    assert forall|i: int| 0 <= i < kept.len() implies !is_stale(
        #[trigger] kept[i].applied_at@,
        days,
        now,
    ) by {
        history.lemma_filter_pred(fresh_pred(days, now), i);
    }
    assert forall|i: int| 0 <= i < removed.len() implies is_stale(
        #[trigger] removed[i].applied_at@,
        days,
        now,
    ) by {
        history.lemma_filter_pred(stale_pred(days, now), i);
    }
    assert forall|i: int|
        0 <= i < history.len() && is_stale(history[i].applied_at@, days, now) implies removed.contains(
        #[trigger] history[i],
    ) by {
        history.lemma_filter_contains(stale_pred(days, now), i);
    }
    assert forall|i: int|
        0 <= i < history.len() && !is_stale(history[i].applied_at@, days, now) implies kept.contains(
        #[trigger] history[i],
    ) by {
        history.lemma_filter_contains(fresh_pred(days, now), i);
    }
    lemma_split_lengths(history, days, now);
}

impl AppData {
    /// Removes the entries that the retention setting no longer keeps at
    /// `now`, and returns them so that their files can be deleted. The cursor
    /// is then clamped into the history, and the current id follows it.
    pub fn prune_history(&mut self, now: Timestamp) -> (removed: Vec<Wallpaper>)
        ensures
            final(self).history@ == pruned(
                old(self).history@,
                RetentionPolicy::of_days(old(self).config.retention_days),
                now,
            ).0,
            removed@ == pruned(
                old(self).history@,
                RetentionPolicy::of_days(old(self).config.retention_days),
                now,
            ).1,
            final(self).wf(),
            final(self).config == old(self).config,
            final(self).state.is_running == old(self).state.is_running,
            final(self).state.next_run_at == old(self).state.next_run_at,
            final(self).state.last_run_at == old(self).state.last_run_at,
            old(self).state.current_history_index < final(self).history@.len()
                ==> final(self).state.current_history_index
                == old(self).state.current_history_index,
            old(self).state.current_history_index >= final(self).history@.len()
                && final(self).history@.len() > 0
                ==> final(self).state.current_history_index == final(self).history@.len() - 1,
    {
        let policy = RetentionPolicy::from_retention_days(self.config.retention_days);
        let mut history: Vec<Wallpaper> = Vec::new();
        core::mem::swap(&mut history, &mut self.history);
        let (kept, removed) = prune(history, policy, now);
        self.history = kept;
        self.restore_invariant();
        removed
    }

    /// Prunes the history under the retention setting at the current instant;
    /// returns the removed entries, whose files are then to be deleted.
    pub fn cleanup_old_wallpapers(&mut self) -> (removed: Vec<Wallpaper>)
        ensures
            exists|t: Timestamp|
                {
                    &&& t.representable()
                    &&& final(self).history@ == #[trigger] pruned(
                        old(self).history@,
                        RetentionPolicy::of_days(old(self).config.retention_days),
                        t,
                    ).0
                    &&& removed@ == pruned(
                        old(self).history@,
                        RetentionPolicy::of_days(old(self).config.retention_days),
                        t,
                    ).1
                },
            final(self).wf(),
            final(self).config == old(self).config,
    {
        let at = now();
        self.prune_history(at)
    }
}

} // verus!
