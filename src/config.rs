//! The store of app tile definitions: an opaque JSON text kept in one file,
//! seeded with a default on first read.

use vstd::prelude::*;

verus! {

/// The name of the configuration file inside the per-user config directory.
pub const CONFIG_FILE_NAME: &'static str = "fidgetapps_config.json";

/// The configuration written on first use: a text editor and a file manager.
pub const DEFAULT_CONFIG: &'static str = r#"[
            { "id": 1, "name": "Text Editor", "icon": "Code", "color": "bg-blue-500", "iconColor": "text-gray-600", "command": "xed" },
            { "id": 2, "name": "File Manager", "icon": "Folder", "color": "bg-yellow-500", "iconColor": "text-gray-600", "command": "nautilus" }
        ]"#;

/// What a read returns when the file holds `stored` (`None`: no file).
pub open spec fn config_read(stored: Option<Seq<char>>) -> Seq<char> {
    match stored {
        Some(text) => text,
        None => DEFAULT_CONFIG@,
    }
}

/// What the file holds after a read: the text that was returned.
pub open spec fn config_after_read(stored: Option<Seq<char>>) -> Option<Seq<char>> {
    Some(config_read(stored))
}

/// What the file holds after saving `payload`: the payload, verbatim.
pub open spec fn config_after_save(payload: Seq<char>) -> Option<Seq<char>> {
    Some(payload)
}

/// The configuration file's state: its text, or `None` when it does not
/// exist yet.
pub struct ConfigFile {
    pub contents: Option<String>,
}

impl View for ConfigFile {
    type V = Option<Seq<char>>;

    open spec fn view(&self) -> Option<Seq<char>> {
        match self.contents {
            Some(s) => Some(s@),
            None => None,
        }
    }
}

impl ConfigFile {
    /// Returns the stored text unparsed; when there is none, stores the
    /// default configuration and returns it.
    pub fn get_config(&mut self) -> (r: String)
        ensures
            r@ == config_read(old(self)@),
            final(self)@ == config_after_read(old(self)@),
    {
        match &self.contents {
            Some(text) => text.clone(),
            None => {
                let text = String::from_str(DEFAULT_CONFIG);
                self.contents = Some(text.clone());
                text
            },
        }
    }

    /// Replaces the stored text with `payload`, without validating it.
    pub fn save_config(&mut self, payload: String)
        ensures
            final(self)@ == config_after_save(payload@),
    {
        self.contents = Some(payload);
    }
}

/// Saving any text and then reading returns that text, whether or not it is
/// JSON, and the read leaves the file as the save wrote it.
pub proof fn lemma_save_then_read(payload: Seq<char>)
    ensures
        config_read(config_after_save(payload)) == payload,
        config_after_read(config_after_save(payload)) == config_after_save(payload),
{
}

/// A read with no file returns the default configuration and leaves a file
/// that holds exactly that text.
pub proof fn lemma_first_read_seeds_default()
    ensures
        config_read(None) == DEFAULT_CONFIG@,
        config_after_read(None) == Some(DEFAULT_CONFIG@),
{
}

} // verus!
