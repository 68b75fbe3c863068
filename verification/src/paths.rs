//! Where the daemon keeps its files: in folders under the user's application data, or under the
//! temporary directory where there is none.

use crate::day::{date_text, date_text_tells_dates_apart, is_date, Date, Day};
use vstd::prelude::*;

verus! {

/// A path: a directory `base`, and the folders and the file to go to from there.
#[derive(Debug, PartialEq, Eq)]
pub struct StorePath<B> {
    pub base: B,
    pub segments: Vec<String>,
}

/// The folders and the file of a path.
pub open spec fn segment_texts(segments: Seq<String>) -> Seq<Seq<char>> {
    segments.map_values(|s: String| s@)
}

/// The directory that everything is kept under.
pub open spec fn base_of<B>(app_data: Option<B>, temp: B) -> B {
    match app_data {
        Some(dir) => dir,
        None => temp,
    }
}

fn under<B>(app_data: Option<B>, temp: B, folder: &str, name: &str) -> (path: StorePath<B>)
    ensures
        path.base == base_of(app_data, temp),
        segment_texts(path.segments@) == seq![folder@, name@],
{
    let mut segments: Vec<String> = Vec::new();
    segments.push(folder.to_string());
    segments.push(name.to_string());
    assert(segment_texts(segments@) =~= seq![folder@, name@]);
    StorePath {
        base: match app_data {
            Some(dir) => dir,
            None => temp,
        },
        segments,
    }
}

/// The settings file.
pub fn config_path<B>(app_data: Option<B>, temp: B) -> (path: StorePath<B>)
    ensures
        path.base == base_of(app_data, temp),
        segment_texts(path.segments@) == seq!["auxdeck"@, "config.toml"@],
{
    under(app_data, temp, "auxdeck", "config.toml")
}

/// The folder of the logs.
pub fn log_dir<B>(app_data: Option<B>, temp: B) -> (path: StorePath<B>)
    ensures
        path.base == base_of(app_data, temp),
        segment_texts(path.segments@) == seq!["auxdeck"@, "logs"@],
{
    under(app_data, temp, "auxdeck", "logs")
}

/// The folder of the saved app usage.
pub fn usage_dir<B>(app_data: Option<B>, temp: B) -> (path: StorePath<B>)
    ensures
        path.base == base_of(app_data, temp),
        segment_texts(path.segments@) == seq!["HyteDeck"@, "usage"@],
{
    under(app_data, temp, "HyteDeck", "usage")
}

/// The name of the file that the usage of a date is saved in.
pub open spec fn day_file_name(d: Date) -> Seq<char> {
    date_text(d) + ".json"@
}

/// The file that the app usage of a day is saved in.
pub fn day_file<B>(app_data: Option<B>, temp: B, day: &Day) -> (path: StorePath<B>)
    ensures
        is_date(day@),
        path.base == base_of(app_data, temp),
        segment_texts(path.segments@) == seq!["HyteDeck"@, "usage"@, day_file_name(day@)],
{
    let mut path: StorePath<B> = usage_dir(app_data, temp);
    let ghost before = path.segments@;
    let name: String = day.text().concat(".json");
    path.segments.push(name);
    assert(segment_texts(path.segments@) =~= segment_texts(before).push(name@));
    assert(seq!["HyteDeck"@, "usage"@].push(name@) =~= seq!["HyteDeck"@, "usage"@, name@]);
    path
}

/// Every day has a file of its own.
pub proof fn days_have_files_of_their_own(a: Date, b: Date)
    requires
        is_date(a),
        is_date(b),
        day_file_name(a) == day_file_name(b),
    ensures
        a == b,
{
    let n = date_text(a).len() as int;
    assert(day_file_name(a).len() == n + ".json"@.len());
    assert(day_file_name(a).take(n) =~= date_text(a));
    assert(day_file_name(b).take(n) =~= date_text(b));
    date_text_tells_dates_apart(a, b);
}

/// Everything is kept under the user's application data where there is any, and else under the temporary
/// directory; a path goes through its segments one after the other.
pub proof fn paths_start_at_the_base<B>(app_data: Option<B>, temp: B, segments: Seq<String>)
    ensures
        app_data matches Some(dir) ==> base_of(app_data, temp) == dir,
        app_data is None ==> base_of(app_data, temp) == temp,
        segment_texts(segments).len() == segments.len(),
        forall|i: int|
            0 <= i < segments.len() ==> #[trigger] segment_texts(segments)[i] == segments[i]@,
{
}

/// The file of a day is named after its date, with the extension `.json`.
pub proof fn day_files_are_named_by_date(d: Date)
    ensures
        day_file_name(d) == date_text(d) + ".json"@,
{
}

} // verus!
