//! The list of installed applications, gathered from desktop entry files and
//! encoded as a JSON array.

use vstd::prelude::*;
use crate::desktop_entry::{DesktopApp, entry_of, parse_desktop_entry};

verus! {

/// The glob pattern that selects the desktop entry files to scan.
pub const DESKTOP_ENTRY_GLOB: &'static str = "/usr/share/applications/*.desktop";

/// The entries that these files contribute, in file order; a file without
/// both fields contributes none.
pub open spec fn entries_of(files: Seq<Seq<Seq<char>>>) -> Seq<(Seq<char>, Seq<char>)>
    decreases files.len(),
{
    if files.len() == 0 {
        Seq::empty()
    } else {
        let head = entries_of(files.drop_last());
        match entry_of(files.last()) {
            Some(e) => head.push(e),
            None => head,
        }
    }
}

pub open spec fn apps_view(apps: Seq<DesktopApp>) -> Seq<(Seq<char>, Seq<char>)> {
    apps.map_values(|a: DesktopApp| a@)
}

/// The text that serde_json gives for an array holding, for each pair, an
/// object with the string members `name` (the first) and `exec` (the second).
pub uninterp spec fn apps_json(apps: Seq<(Seq<char>, Seq<char>)>) -> Seq<char>;

/// Relies on serde_json::to_string, on an array of objects with the string
/// members `name` and `exec`: every map key is a string and the output is a
/// `Vec<u8>`, so it does not fail; its text is a function of the pairs
/// alone, and an empty array encodes as `[]`.
#[verifier::external_body]
fn encode_apps(apps: &Vec<DesktopApp>) -> (r: String)
    ensures
        r@ == apps_json(apps_view(apps@)),
        apps@.len() == 0 ==> r@ == seq!['[', ']'],
{
    let rows: Vec<serde_json::Value> = apps.iter().map(|a| {
        let mut m = serde_json::Map::new();
        m.insert("name".to_string(), serde_json::Value::String(a.name.clone()));
        m.insert("exec".to_string(), serde_json::Value::String(a.program.clone()));
        serde_json::Value::Object(m)
    }).collect();
    serde_json::to_string(&rows).unwrap()
}

/// Parses each file, given as its lines, and keeps the entries that have both
/// a name and an executable, in file order.
pub fn scan_entries(files: &Vec<Vec<String>>) -> (r: Vec<DesktopApp>)
    ensures
        apps_view(r@) == entries_of(files.deep_view()),
{
    let ghost fs = files.deep_view();
    let n = files.len();
    let mut out: Vec<DesktopApp> = Vec::new();
    let mut i: usize = 0;
    while i < n
        invariant
            n == files@.len(),
            fs == files.deep_view(),
            fs.len() == n,
            i <= n,
            apps_view(out@) == entries_of(fs.subrange(0, i as int)),
        decreases n - i,
    {
        let ghost before = out@;
        assert(fs.subrange(0, i + 1).drop_last() =~= fs.subrange(0, i as int));
        assert(fs[i as int] == files@[i as int].deep_view());
        match parse_desktop_entry(&files[i]) {
            Some(app) => {
                out.push(app);
                assert(apps_view(out@) =~= apps_view(before).push(app@));
            },
            None => {},
        }
        i = i + 1;
    }
    assert(fs.subrange(0, n as int) =~= fs);
    out
}

/// Encodes the apps as a JSON array of `{"name", "exec"}` objects, in order.
pub fn apps_to_json(apps: &Vec<DesktopApp>) -> (r: String)
    ensures
        r@ == apps_json(apps_view(apps@)),
        apps@.len() == 0 ==> r@ == seq!['[', ']'],
{
    encode_apps(apps)
}

/// The JSON list of installed applications found in these desktop entry
/// files, each given as its lines. No files, or none with both fields, give
/// `[]`.
pub fn list_apps_json(files: &Vec<Vec<String>>) -> (r: String)
    ensures
        r@ == apps_json(entries_of(files.deep_view())),
        entries_of(files.deep_view()).len() == 0 ==> r@ == seq!['[', ']'],
        files@.len() == 0 ==> r@ == seq!['[', ']'],
{
    let apps = scan_entries(files);
    assert(apps_view(apps@).len() == apps@.len());
    assert(files@.len() == 0 ==> entries_of(files.deep_view()).len() == 0);
    apps_to_json(&apps)
}

} // verus!
