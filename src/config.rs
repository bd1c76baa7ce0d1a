use vstd::prelude::*;

use crate::timestamp::{now, rfc3339_text, to_rfc3339, Timestamp};

verus! {

/// The whole persisted record: settings, run state and the wallpaper history.
#[derive(Clone, Debug)]
pub struct AppData {
    pub config: Config,
    pub state: State,
    pub history: Vec<Wallpaper>,
}

/// Settings that the user controls.
#[derive(Clone, Debug)]
pub struct Config {
    pub unsplash_access_key: String,
    /// Collection ids that candidates are drawn from.
    pub collections: Vec<String>,
    /// Collections that the user added, as (id, label).
    pub custom_collections: Vec<(String, String)>,
    pub interval_minutes: u64,
    /// `None` keeps wallpapers forever, `Some(0)` keeps only the newest one,
    /// `Some(n)` keeps those applied within the last `n` days.
    pub retention_days: Option<u64>,
}

/// Where the rotation stands.
#[derive(Clone, Debug)]
pub struct State {
    pub is_running: bool,
    /// RFC 3339, UTC: when the scheduler next fetches.
    pub next_run_at: String,
    /// RFC 3339, UTC: when a new wallpaper was last fetched.
    pub last_run_at: String,
    /// The id of the entry under the cursor.
    pub current_wallpaper_id: Option<String>,
    /// The cursor into the history.
    pub current_history_index: usize,
}

/// One applied wallpaper. Entries are never changed once recorded.
#[derive(Clone, Debug)]
pub struct Wallpaper {
    pub id: String,
    /// The file's name inside the wallpapers directory.
    pub filename: String,
    /// RFC 3339: when the wallpaper was fetched.
    pub applied_at: String,
    pub title: Option<String>,
    pub author: Option<String>,
    pub url: Option<String>,
}

pub open spec fn default_collection_ids() -> Seq<Seq<char>> {
    seq!["1065976"@, "3330448"@, "894"@]
}

pub const DEFAULT_INTERVAL_MINUTES: u64 = 1440;

pub const DEFAULT_RETENTION_DAYS: u64 = 7;

fn copy_text(s: &Option<String>) -> (r: Option<String>)
    ensures
        r == *s,
{
    match s {
        Some(t) => Some(t.clone()),
        None => None,
    }
}

impl Wallpaper {
    /// A copy equal to this entry.
    pub fn duplicate(&self) -> (r: Wallpaper)
        ensures
            r == *self,
    {
        Wallpaper {
            id: self.id.clone(),
            filename: self.filename.clone(),
            applied_at: self.applied_at.clone(),
            title: copy_text(&self.title),
            author: copy_text(&self.author),
            url: copy_text(&self.url),
        }
    }
}

impl Default for Config {
    fn default() -> (r: Config)
        ensures
            r.unsplash_access_key@.len() == 0,
            r.collections@.len() == 3,
            forall|i: int| 0 <= i < 3 ==> #[trigger] r.collections@[i]@ == default_collection_ids()[i],
            r.custom_collections@.len() == 0,
            r.interval_minutes == DEFAULT_INTERVAL_MINUTES,
            r.retention_days == Some(DEFAULT_RETENTION_DAYS),
    {
        let mut collections: Vec<String> = Vec::new();
        collections.push("1065976".to_string());
        collections.push("3330448".to_string());
        collections.push("894".to_string());
        Config {
            unsplash_access_key: String::new(),
            collections,
            custom_collections: Vec::new(),
            interval_minutes: DEFAULT_INTERVAL_MINUTES,
            retention_days: Some(DEFAULT_RETENTION_DAYS),
        }
    }
}

impl State {
    /// The state of a fresh install at the instant `at`: running, due at once,
    /// nothing applied yet.
    pub fn starting_at(at: Timestamp) -> (r: Option<State>)
        ensures
            r is Some <==> at.representable(),
            r matches Some(s) ==> {
                &&& s.is_running
                &&& s.next_run_at@ == rfc3339_text(at.secs, at.nanos)->0
                &&& s.last_run_at@ == rfc3339_text(at.secs, at.nanos)->0
                &&& s.current_wallpaper_id is None
                &&& s.current_history_index == 0
            },
    {
        match to_rfc3339(at) {
            Some(text) => Some(
                State {
                    is_running: true,
                    next_run_at: text.clone(),
                    last_run_at: text,
                    current_wallpaper_id: None,
                    current_history_index: 0,
                },
            ),
            None => None,
        }
    }
}

impl Default for State {
    /// A fresh state stamped with the current instant.
    fn default() -> (r: State)
        ensures
            r.is_running,
            exists|t: Timestamp|
                {
                    &&& #[trigger] rfc3339_text(t.secs, t.nanos) is Some
                    &&& r.next_run_at@ == rfc3339_text(t.secs, t.nanos)->0
                    &&& r.last_run_at@ == rfc3339_text(t.secs, t.nanos)->0
                },
            r.current_wallpaper_id is None,
            r.current_history_index == 0,
    {
        State::starting_at(now()).unwrap()
    }
}

impl Default for AppData {
    fn default() -> (r: AppData)
        ensures
            r.history@.len() == 0,
            r.state.is_running,
            r.state.current_history_index == 0,
            r.state.current_wallpaper_id is None,
            r.config.unsplash_access_key@.len() == 0,
            r.config.interval_minutes == DEFAULT_INTERVAL_MINUTES,
            r.config.retention_days == Some(DEFAULT_RETENTION_DAYS),
            r.wf(),
    {
        AppData { config: Config::default(), state: State::default(), history: Vec::new() }
    }
}

impl AppData {
    /// The record's invariant: the cursor lies inside a non-empty history (and
    /// is 0 for an empty one), and the current id is that of the entry under
    /// the cursor (none for an empty history).
    pub open spec fn wf(&self) -> bool {
        if self.history@.len() == 0 {
            &&& self.state.current_history_index == 0
            &&& self.state.current_wallpaper_id is None
        } else {
            &&& self.state.current_history_index < self.history@.len()
            &&& self.state.current_wallpaper_id matches Some(id) && id@
                == self.history@[self.state.current_history_index as int].id@
        }
    }

    /// Whether the invariant holds.
    pub fn is_consistent(&self) -> (r: bool)
        ensures
            r == self.wf(),
    {
        let len = self.history.len();
        let index = self.state.current_history_index;
        if len == 0 {
            index == 0 && self.state.current_wallpaper_id.is_none()
        } else if index >= len {
            false
        } else {
            match &self.state.current_wallpaper_id {
                Some(id) => *id == self.history[index].id,
                None => false,
            }
        }
    }

    /// Sets the current id from the entry under an in-range cursor.
    pub(crate) fn sync_current_id(&mut self)
        requires
            old(self).history@.len() == 0 ==> old(self).state.current_history_index == 0,
            old(self).history@.len() > 0 ==> old(self).state.current_history_index
                < old(self).history@.len(),
        ensures
            final(self).wf(),
            final(self).config == old(self).config,
            final(self).history == old(self).history,
            final(self).state.current_history_index == old(self).state.current_history_index,
            final(self).state.is_running == old(self).state.is_running,
            final(self).state.next_run_at == old(self).state.next_run_at,
            final(self).state.last_run_at == old(self).state.last_run_at,
    {
        if self.history.len() == 0 {
            self.state.current_wallpaper_id = None;
        } else {
            let id = self.history[self.state.current_history_index].id.clone();
            self.state.current_wallpaper_id = Some(id);
        }
    }

    /// Brings a record read from elsewhere back to the invariant: a cursor past
    /// the end moves to the newest entry (to 0 for an empty history), and the
    /// current id is taken from the entry under the cursor. A record that
    /// already holds the invariant is left exactly as it is.
    pub fn restore_invariant(&mut self)
        ensures
            final(self).wf(),
            old(self).wf() ==> *final(self) == *old(self),
            final(self).config == old(self).config,
            final(self).history == old(self).history,
            final(self).state.is_running == old(self).state.is_running,
            final(self).state.next_run_at == old(self).state.next_run_at,
            final(self).state.last_run_at == old(self).state.last_run_at,
            old(self).state.current_history_index < old(self).history@.len()
                ==> final(self).state.current_history_index
                == old(self).state.current_history_index,
            old(self).state.current_history_index >= old(self).history@.len()
                && old(self).history@.len() > 0 ==> final(self).state.current_history_index
                == old(self).history@.len() - 1,
    {
        if self.is_consistent() {
            return;
        }
        let len = self.history.len();
        if self.state.current_history_index >= len {
            self.state.current_history_index = if len == 0 {
                0
            } else {
                len - 1
            };
        }
        self.sync_current_id();
    }

    /// The entry under the cursor, if the cursor lies inside the history.
    pub fn current_wallpaper(&self) -> (r: Option<Wallpaper>)
        ensures
            self.state.current_history_index < self.history@.len() ==> r == Some(
                self.history@[self.state.current_history_index as int],
            ),
            self.state.current_history_index >= self.history@.len() ==> r is None,
    {
        if self.state.current_history_index < self.history.len() {
            Some(self.history[self.state.current_history_index].duplicate())
        } else {
            None
        }
    }
}

/// The wallpaper under the cursor of `data`; none for an empty history.
pub fn get_current_wallpaper(data: &AppData) -> (r: Option<Wallpaper>)
    ensures
        data.state.current_history_index < data.history@.len() ==> r == Some(
            data.history@[data.state.current_history_index as int],
        ),
        data.state.current_history_index >= data.history@.len() ==> r is None,
{
    if data.history.len() == 0 {
        return None;
    }
    data.current_wallpaper()
}

} // verus!
