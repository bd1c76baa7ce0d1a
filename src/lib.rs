//! Wallpaper rotation: the persisted record, its history cursor, the retention
//! policy, the bookkeeping around a fetch, and the scheduler's decision. Disk,
//! network and desktop calls are left to the caller, which hands the results in.

pub mod cli;
pub mod config;
pub mod error;
pub mod fetch;
pub mod navigator;
pub mod number;
pub mod profile;
pub mod retention;
pub mod scheduler;
pub mod text;
pub mod timestamp;

pub use cli::{
    custom_collection_label, describe_collection, format_interval_for_display,
    get_default_collections_info, get_exe_name, interval_allowed, mask_access_key, parse_interval,
    parse_interval_lowered, parse_retention,
    retention_label, split_collection_ids, Cli, Commands, MIN_INTERVAL_MINUTES,
};
pub use config::{get_current_wallpaper, AppData, Config, State, Wallpaper};
pub use error::WallpError;
pub use fetch::{
    artifact_filename, entry_from_photo, prepare_fetch, record_fetched, FetchRequest,
    UnsplashLinks, UnsplashPhoto, UnsplashUrls, UnsplashUser,
};
pub use navigator::{plan, select_entry, Navigation, Plan};
pub use profile::{
    add_path_to_profile_content, create_export_line, get_shell_files, is_path_in_profile,
    powershell_escape, remove_path_from_profile_content, shell_escape, shell_from_env,
};
pub use retention::{prune, RetentionPolicy};
pub use scheduler::{decide_tick, tick_action, TickAction};
pub use timestamp::{format_datetime, Timestamp};
