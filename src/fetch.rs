use vstd::prelude::*;
use vstd::string::StringExecFns;

use crate::config::{AppData, Config, Wallpaper};
use crate::error::WallpError;
use crate::navigator::{planned, Navigation, Plan};
use crate::text::{joined, trim_text, trimmed};
use crate::timestamp::{
    rfc3339_after_minutes, rfc3339_text, text_after_minutes, to_rfc3339, Timestamp,
};

verus! {

/// A candidate photo as the provider describes it.
#[derive(Clone, Debug)]
pub struct UnsplashPhoto {
    pub id: String,
    pub description: Option<String>,
    pub alt_description: Option<String>,
    pub urls: UnsplashUrls,
    pub user: UnsplashUser,
    pub links: UnsplashLinks,
}

#[derive(Clone, Debug)]
pub struct UnsplashUrls {
    /// Where the full-size image is downloaded from.
    pub full: String,
}

#[derive(Clone, Debug)]
pub struct UnsplashUser {
    pub name: String,
}

#[derive(Clone, Debug)]
pub struct UnsplashLinks {
    /// The photo's page.
    pub html: String,
}

/// What a request for one candidate carries: the authorization header's value
/// and the comma-separated collection ids.
#[derive(Clone, Debug)]
pub struct FetchRequest {
    pub authorization: String,
    pub collections: String,
}

/// The name of the file that holds the artifact of the candidate `id`.
pub open spec fn artifact_name(id: Seq<char>) -> Seq<char> {
    "wallpaper_"@ + id + ".jpg"@
}

/// The texts of a list of strings.
pub open spec fn texts(v: Seq<String>) -> Seq<Seq<char>> {
    v.map_values(|s: String| s@)
}

/// The value of the authorization header for an access key.
pub open spec fn authorization_for(key: Seq<char>) -> Seq<char> {
    "Client-ID "@ + trimmed(key)
}

/// The title of a photo: its description, or else its alternative description.
pub open spec fn title_of(photo: UnsplashPhoto) -> Option<String> {
    match photo.description {
        Some(d) => Some(d),
        None => photo.alt_description,
    }
}

/// `entry` records `photo` as fetched, with the time text `applied_at`.
pub open spec fn records_photo(entry: Wallpaper, photo: UnsplashPhoto, applied_at: Seq<char>) -> bool {
    &&& entry.id == photo.id
    &&& entry.filename@ == artifact_name(photo.id@)
    &&& entry.applied_at@ == applied_at
    &&& entry.title == title_of(photo)
    &&& entry.author == Some(photo.user.name)
    &&& entry.url == Some(photo.links.html)
}

/// `after` is `before` with `photo`, fetched at `now`, appended and under the
/// cursor, the last run stamped with `now` and the next one interval later.
pub open spec fn fetched_into(
    before: AppData,
    after: AppData,
    photo: UnsplashPhoto,
    now: Timestamp,
) -> bool {
    let len = before.history@.len();
    &&& after.history@.len() == len + 1
    &&& after.history@.subrange(0, len as int) == before.history@
    &&& records_photo(after.history@[len as int], photo, rfc3339_text(now.secs, now.nanos)->0)
    &&& after.state.current_history_index == len
    &&& after.state.current_wallpaper_id == Some(photo.id)
    &&& after.state.last_run_at@ == rfc3339_text(now.secs, now.nanos)->0
    &&& after.state.next_run_at@ == text_after_minutes(now, before.config.interval_minutes)->0
    &&& after.state.is_running == before.state.is_running
    &&& after.config == before.config
}

/// On an empty history, `Next` goes to the fetch path (no history error), and
/// a successful fetch leaves one entry under the cursor at 0, whose id is the
/// current id.
pub proof fn lemma_next_on_empty_history_fetches_one(
    before: AppData,
    after: AppData,
    photo: UnsplashPhoto,
    now: Timestamp,
)
    requires
        before.wf(),
        before.history@.len() == 0,
        fetched_into(before, after, photo, now),
    ensures
        planned(before, Navigation::Next) == Ok::<Plan, WallpError>(Plan::Fetch),
        after.history@.len() == 1,
        after.state.current_history_index == 0,
        after.state.current_wallpaper_id == Some(after.history@[0].id),
        after.wf(),
{
}

/// The name of the file that holds the artifact of the candidate `id`.
pub fn artifact_filename(id: &str) -> (r: String)
    ensures
        r@ == artifact_name(id@),
{
    let name = String::from_str("wallpaper_");
    let name = name.concat(id);
    name.concat(".jpg")
}

/// `parts` joined with `sep` between each two.
pub fn join_texts(parts: &Vec<String>, sep: &str) -> (r: String)
    ensures
        r@ == joined(texts(parts@), sep@),
{
    let mut out = String::new();
    let mut i: usize = 0;
    while i < parts.len()
        invariant
            i <= parts@.len(),
            out@ == joined(texts(parts@.subrange(0, i as int)), sep@),
        decreases parts@.len() - i,
    {
        let ghost before = texts(parts@.subrange(0, i as int));
        let ghost after = texts(parts@.subrange(0, i as int + 1));
        assert(after.drop_last() =~= before);
        assert(after.last() == parts@[i as int]@);
        if i == 0 {
            out = parts[i].clone();
        } else {
            out = out.concat(sep);
            out = out.concat(parts[i].as_str());
        }
        i = i + 1;
    }
    assert(parts@.subrange(0, parts@.len() as int) =~= parts@);
    out
}

/// The request for one candidate from the configured collections; fails with
/// `MissingCredential` when no access key is configured.
pub fn prepare_fetch(config: &Config) -> (r: Result<FetchRequest, WallpError>)
    ensures
        config.unsplash_access_key@.len() == 0 ==> r == Err::<FetchRequest, WallpError>(
            WallpError::MissingCredential,
        ),
        config.unsplash_access_key@.len() > 0 ==> (r matches Ok(req) && req.authorization@
            == authorization_for(config.unsplash_access_key@) && req.collections@ == joined(
            texts(config.collections@),
            ","@,
        )),
{
    if config.unsplash_access_key.as_str().is_empty() {
        return Err(WallpError::MissingCredential);
    }
    let key = trim_text(config.unsplash_access_key.as_str());
    let authorization = String::from_str("Client-ID ").concat(key.as_str());
    let collections = join_texts(&config.collections, ",");
    Ok(FetchRequest { authorization, collections })
}

/// The history entry for `photo`, fetched at the time text `applied_at`.
pub fn entry_from_photo(photo: UnsplashPhoto, applied_at: String) -> (r: Wallpaper)
    ensures
        records_photo(r, photo, applied_at@),
{
    let filename = artifact_filename(photo.id.as_str());
    let title = match photo.description {
        Some(d) => Some(d),
        None => photo.alt_description,
    };
    Wallpaper {
        id: photo.id,
        filename,
        applied_at,
        title,
        author: Some(photo.user.name),
        url: Some(photo.links.html),
    }
}

/// Commits a fetched and downloaded photo at `now`: appends its entry, moves
/// the cursor onto it, stamps the last run with `now` and schedules the next
/// one an interval later. Fails with `TimeOutOfRange`, changing nothing,
/// where either instant cannot be written as a timestamp.
pub fn record_fetched(data: &mut AppData, photo: UnsplashPhoto, now: Timestamp) -> (r: Result<
    (),
    WallpError,
>)
    ensures
        r is Ok <==> now.representable() && text_after_minutes(
            now,
            old(data).config.interval_minutes,
        ) is Some,
        r is Err ==> r == Err::<(), WallpError>(WallpError::TimeOutOfRange) && *final(data) == *old(
            data,
        ),
        r is Ok ==> fetched_into(*old(data), *final(data), photo, now),
        r is Ok ==> final(data).wf(),
{
    let applied_at = match to_rfc3339(now) {
        Some(text) => text,
        None => return Err(WallpError::TimeOutOfRange),
    };
    let next_run_at = match rfc3339_after_minutes(now, data.config.interval_minutes) {
        Some(text) => text,
        None => return Err(WallpError::TimeOutOfRange),
    };
    let id = photo.id.clone();
    let entry = entry_from_photo(photo, applied_at.clone());
    data.history.push(entry);
    data.state.current_history_index = data.history.len() - 1;
    data.state.current_wallpaper_id = Some(id);
    data.state.last_run_at = applied_at;
    data.state.next_run_at = next_run_at;
    proof {
        assert(data.history@.subrange(0, old(data).history@.len() as int) =~= old(data).history@);
    }
    Ok(())
}

} // verus!
