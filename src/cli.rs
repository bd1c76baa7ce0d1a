use vstd::prelude::*;
use vstd::string::StringExecFns;

use crate::fetch::texts;
use crate::navigator::Navigation;
use crate::number::{decimal_text, parse_u64, parsed_u64, push_decimal};
use crate::text::{
    char_seqs, chars_of, lower_of, lowercase, slice_chars, split_chars, split_on, string_of,
    trim_chars, trim_text, trimmed,
};

verus! {

/// The shortest interval between automatic fetches that setup accepts.
pub const MIN_INTERVAL_MINUTES: u64 = 30;

pub const MINUTES_PER_DAY: u64 = 1440;

pub const MINUTES_PER_HOUR: u64 = 60;

/// The program's command line.
#[derive(Clone, Debug, PartialEq, Eq, Structural)]
pub struct Cli {
    pub help: bool,
    pub version: Option<bool>,
    pub command: Option<Commands>,
}

/// The program's commands.
#[derive(Clone, Copy, Debug, PartialEq, Eq, Structural)]
pub enum Commands {
    /// fetch a new random wallpaper
    New,
    /// advance to next wallpaper
    Next,
    /// go back to previous wallpaper
    Prev,
    /// show current wallpaper details
    Info,
    /// set wallpaper by number from history (shows list if no number provided)
    SetIndex { index: Option<usize> },
    /// show scheduler status
    Status,
    /// list recent wallpaper history
    List,
    /// show current configuration settings
    Settings,
    /// open wallpapers folder in file manager
    Folder,
    /// open configuration file in default editor
    Config,
    /// run interactive setup wizard
    Setup,
    /// remove wallp and all data
    Uninstall,
}

impl Commands {
    /// The help group of a command: wallpaper actions, information, setup.
    pub open spec fn group(self) -> usize {
        match self {
            Commands::New | Commands::Next | Commands::Prev | Commands::Info | Commands::SetIndex {
                ..
            } => 0,
            Commands::Status | Commands::List | Commands::Settings | Commands::Folder
            | Commands::Config => 1,
            Commands::Setup | Commands::Uninstall => 2,
        }
    }

    pub fn group_index(&self) -> (r: usize)
        ensures
            r == self.group(),
    {
        match self {
            Commands::New | Commands::Next | Commands::Prev | Commands::Info | Commands::SetIndex {
                ..
            } => 0,
            Commands::Status | Commands::List | Commands::Settings | Commands::Folder
            | Commands::Config => 1,
            Commands::Setup | Commands::Uninstall => 2,
        }
    }

    /// The history navigation a command asks for, if any (`set` only with an index).
    pub open spec fn navigation_of(self) -> Option<Navigation> {
        match self {
            Commands::New => Some(Navigation::New),
            Commands::Next => Some(Navigation::Next),
            Commands::Prev => Some(Navigation::Prev),
            Commands::SetIndex { index: Some(i) } => Some(Navigation::SetByIndex(i)),
            _ => None,
        }
    }

    pub fn navigation(&self) -> (r: Option<Navigation>)
        ensures
            r == self.navigation_of(),
    {
        match self {
            Commands::New => Some(Navigation::New),
            Commands::Next => Some(Navigation::Next),
            Commands::Prev => Some(Navigation::Prev),
            Commands::SetIndex { index: Some(i) } => Some(Navigation::SetByIndex(*i)),
            _ => None,
        }
    }
}

/// The executable's file name.
pub fn get_exe_name(on_windows: bool) -> (r: String)
    ensures
        on_windows ==> r@ == "wallp.exe"@,
        !on_windows ==> r@ == "wallp"@,
{
    if on_windows {
        "wallp.exe".to_string()
    } else {
        "wallp".to_string()
    }
}

/// What an interval text comes to, once trimmed and lower-cased: a plain
/// number of minutes, or a number followed by `d`, `h` or `m`.
pub open spec fn interval_result(s: Seq<char>) -> Result<u64, Seq<char>> {
    match parsed_u64(s) {
        Some(m) => Ok(m),
        None => if s.len() == 0 {
            Err("Empty input"@)
        } else {
            match parsed_u64(s.drop_last()) {
                None => Err("Invalid number"@),
                Some(v) => if s.last() == 'd' {
                    if v * 1440 <= u64::MAX {
                        Ok((v * 1440) as u64)
                    } else {
                        Err("Interval too large"@)
                    }
                } else if s.last() == 'h' {
                    if v * 60 <= u64::MAX {
                        Ok((v * 60) as u64)
                    } else {
                        Err("Interval too large"@)
                    }
                } else if s.last() == 'm' {
                    Ok(v)
                } else {
                    Err("Use: d (days), h (hours), m (minutes)"@)
                },
            }
        },
    }
}

/// Whether setup accepts an interval of `minutes` between automatic fetches.
pub fn interval_allowed(minutes: u64) -> (r: bool)
    ensures
        r == (minutes >= MIN_INTERVAL_MINUTES),
{
    minutes >= MIN_INTERVAL_MINUTES
}

/// Reads an interval such as "90", "45m", "12h" or "1d" as minutes.
pub fn parse_interval(input: &str) -> (r: Result<u64, String>)
    ensures
        match interval_result(lower_of(trimmed(input@))) {
            Ok(m) => r == Ok::<u64, String>(m),
            Err(e) => r is Err && r->Err_0@ == e,
        },
{
    let trimmed_input = trim_text(input);
    let lower = lowercase(trimmed_input.as_str());
    parse_interval_lowered(lower.as_str())
}

/// Reads an interval that is already trimmed and lower-cased.
pub fn parse_interval_lowered(s: &str) -> (r: Result<u64, String>)
    ensures
        match interval_result(s@) {
            Ok(m) => r == Ok::<u64, String>(m),
            Err(e) => r is Err && r->Err_0@ == e,
        },
{
    let v = chars_of(s);
    if let Some(minutes) = parse_u64(&v) {
        return Ok(minutes);
    }
    if v.len() == 0 {
        return Err("Empty input".to_string());
    }
    let number = slice_chars(&v, 0, v.len() - 1);
    assert(number@ == v@.drop_last());
    let value = match parse_u64(&number) {
        Some(n) => n,
        None => return Err("Invalid number".to_string()),
    };
    let unit = v[v.len() - 1];
    if unit == 'd' {
        if value > u64::MAX / MINUTES_PER_DAY {
            return Err("Interval too large".to_string());
        }
        Ok(value * MINUTES_PER_DAY)
    } else if unit == 'h' {
        if value > u64::MAX / MINUTES_PER_HOUR {
            return Err("Interval too large".to_string());
        }
        Ok(value * MINUTES_PER_HOUR)
    } else if unit == 'm' {
        Ok(value)
    } else {
        Err("Use: d (days), h (hours), m (minutes)".to_string())
    }
}

/// An interval written in its largest whole unit that is at least one:
/// days, hours or minutes (rounding down).
pub open spec fn interval_display(minutes: u64) -> Seq<char> {
    if minutes >= 1440 {
        decimal_text((minutes / 1440) as nat).push('d')
    } else if minutes >= 60 {
        decimal_text((minutes / 60) as nat).push('h')
    } else {
        decimal_text(minutes as nat).push('m')
    }
}

pub fn format_interval_for_display(minutes: u64) -> (r: String)
    ensures
        r@ == interval_display(minutes),
{
    let mut out: Vec<char> = Vec::new();
    if minutes >= MINUTES_PER_DAY {
        push_decimal(&mut out, minutes / MINUTES_PER_DAY);
        out.push('d');
    } else if minutes >= MINUTES_PER_HOUR {
        push_decimal(&mut out, minutes / MINUTES_PER_HOUR);
        out.push('h');
    } else {
        push_decimal(&mut out, minutes);
        out.push('m');
    }
    assert(out@ =~= interval_display(minutes));
    string_of(&out)
}

/// The built-in collections, as (id, label).
pub open spec fn default_collections() -> Seq<(Seq<char>, Seq<char>)> {
    seq![("1065976"@, "Wallpapers"@), ("3330448"@, "Nature"@), ("894"@, "Earth & Planets"@)]
}

/// The texts of a list of (id, label) pairs.
pub open spec fn pair_texts(v: Seq<(String, String)>) -> Seq<(Seq<char>, Seq<char>)> {
    v.map_values(|p: (String, String)| (p.0@, p.1@))
}

pub fn get_default_collections_info() -> (r: Vec<(String, String)>)
    ensures
        pair_texts(r@) == default_collections(),
{
    let mut r: Vec<(String, String)> = Vec::new();
    r.push(("1065976".to_string(), "Wallpapers".to_string()));
    r.push(("3330448".to_string(), "Nature".to_string()));
    r.push(("894".to_string(), "Earth & Planets".to_string()));
    assert(pair_texts(r@) =~= default_collections());
    r
}

/// The label of the first pair whose id is `id`.
pub open spec fn label_in(pairs: Seq<(Seq<char>, Seq<char>)>, id: Seq<char>) -> Option<Seq<char>>
    decreases pairs.len(),
{
    if pairs.len() == 0 {
        None
    } else if pairs[0].0 == id {
        Some(pairs[0].1)
    } else {
        label_in(pairs.drop_first(), id)
    }
}

/// The label shown for a collection: the built-in label, else the user's
/// label, else "Unknown".
pub open spec fn collection_label(id: Seq<char>, custom: Seq<(Seq<char>, Seq<char>)>) -> Seq<char> {
    match label_in(default_collections(), id) {
        Some(l) => l,
        None => match label_in(custom, id) {
            Some(l) => l,
            None => "Unknown"@,
        },
    }
}

fn find_label(pairs: &Vec<(String, String)>, id: &String) -> (r: Option<String>)
    ensures
        match label_in(pair_texts(pairs@), id@) {
            Some(l) => r is Some && r->0@ == l,
            None => r is None,
        },
{
    let ghost all = pair_texts(pairs@);
    assert(all.subrange(0, all.len() as int) =~= all);
    let mut i: usize = 0;
    while i < pairs.len()
        invariant
            i <= pairs@.len(),
            all == pair_texts(pairs@),
            label_in(all, id@) == label_in(all.subrange(i as int, all.len() as int), id@),
        decreases pairs@.len() - i,
    {
        let ghost rest = all.subrange(i as int, all.len() as int);
        assert(rest.drop_first() =~= all.subrange(i + 1, all.len() as int));
        assert(rest[0] == all[i as int]);
        if pairs[i].0 == *id {
            return Some(pairs[i].1.clone());
        }
        i = i + 1;
    }
    assert(all.subrange(i as int, all.len() as int).len() == 0);
    None
}

/// The label shown for the collection `id`, given the user's own collections.
pub fn describe_collection(id: &str, custom: &Vec<(String, String)>) -> (r: String)
    ensures
        r@ == collection_label(id@, pair_texts(custom@)),
{
    let id = id.to_string();
    let defaults = get_default_collections_info();
    match find_label(&defaults, &id) {
        Some(label) => label,
        None => match find_label(custom, &id) {
            Some(label) => label,
            None => "Unknown".to_string(),
        },
    }
}

/// An access key as shown in the settings: "Not set", or four stars and the
/// key's last four characters (the whole key where it is shorter).
pub open spec fn masked_key(key: Seq<char>) -> Seq<char> {
    if key.len() == 0 {
        "Not set"@
    } else if key.len() <= 4 {
        "****"@ + key
    } else {
        "****"@ + key.subrange(key.len() - 4, key.len() as int)
    }
}

pub fn mask_access_key(key: &str) -> (r: String)
    ensures
        r@ == masked_key(key@),
{
    let v = chars_of(key);
    if v.len() == 0 {
        return "Not set".to_string();
    }
    let from: usize = if v.len() <= 4 {
        0
    } else {
        v.len() - 4
    };
    let tail = string_of(&slice_chars(&v, from, v.len()));
    assert(from == 0 ==> v@.subrange(0, v@.len() as int) =~= v@);
    "****".to_string().concat(tail.as_str())
}

/// The retention setting as shown in the settings.
pub open spec fn retention_text(days: Option<u64>) -> Seq<char> {
    match days {
        None => "Forever"@,
        Some(n) => if n == 0 {
            "Delete immediately"@
        } else {
            decimal_text(n as nat) + " days"@
        },
    }
}

pub fn retention_label(days: Option<u64>) -> (r: String)
    ensures
        r@ == retention_text(days),
{
    match days {
        None => "Forever".to_string(),
        Some(n) => if n == 0 {
            "Delete immediately".to_string()
        } else {
            let mut digits: Vec<char> = Vec::new();
            push_decimal(&mut digits, n);
            assert(digits@ =~= decimal_text(n as nat));
            string_of(&digits).concat(" days")
        },
    }
}

/// A retention answer: blank (or anything that is not a number) keeps
/// wallpapers forever, otherwise the number of days.
pub fn parse_retention(input: &str) -> (r: Option<u64>)
    ensures
        r == parsed_u64(trimmed(input@)),
        trimmed(input@).len() == 0 ==> r is None,
{
    let v = trim_chars(&chars_of(input));
    parse_u64(&v)
}

/// The non-blank trimmed pieces, in order.
pub open spec fn nonblank_trimmed(pieces: Seq<Seq<char>>) -> Seq<Seq<char>>
    decreases pieces.len(),
{
    if pieces.len() == 0 {
        Seq::empty()
    } else {
        let rest = nonblank_trimmed(pieces.drop_last());
        if trimmed(pieces.last()).len() > 0 {
            rest.push(trimmed(pieces.last()))
        } else {
            rest
        }
    }
}

/// The collection ids in a comma-separated answer, trimmed, blanks dropped.
pub fn split_collection_ids(input: &str) -> (r: Vec<String>)
    ensures
        texts(r@) == nonblank_trimmed(split_on(input@, ',')),
{
    let pieces = split_chars(&chars_of(input), ',');
    let ghost all = char_seqs(pieces@);
    let mut ids: Vec<String> = Vec::new();
    let mut i: usize = 0;
    while i < pieces.len()
        invariant
            i <= pieces@.len(),
            all == char_seqs(pieces@),
            all == split_on(input@, ','),
            texts(ids@) == nonblank_trimmed(all.subrange(0, i as int)),
        decreases pieces@.len() - i,
    {
        let ghost before = all.subrange(0, i as int);
        let ghost after = all.subrange(0, i as int + 1);
        assert(after.drop_last() =~= before);
        assert(after.last() == pieces@[i as int]@);
        let id = trim_chars(&pieces[i]);
        if id.len() > 0 {
            let text = string_of(&id);
            ids.push(text);
            assert(texts(ids@) =~= nonblank_trimmed(after));
        } else {
            assert(texts(ids@) =~= nonblank_trimmed(after));
        }
        i = i + 1;
    }
    assert(all.subrange(0, all.len() as int) =~= all);
    ids
}

/// The label kept for a user's collection: "Collection <id>" when the answer
/// is blank or that very text, the answer otherwise.
pub fn custom_collection_label(id: &str, answer: &str) -> (r: String)
    ensures
        answer@.len() == 0 || answer@ == "Collection "@ + id@ ==> r@ == "Collection "@ + id@,
        !(answer@.len() == 0 || answer@ == "Collection "@ + id@) ==> r@ == answer@,
{
    let fallback = "Collection ".to_string().concat(id);
    let answer = answer.to_string();
    if answer.as_str().is_empty() || answer == fallback {
        fallback
    } else {
        answer
    }
}

} // verus!
