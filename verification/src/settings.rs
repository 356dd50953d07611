//! The handle on a settings file.

use crate::document::{parse_toml, toml_parsed};
use crate::setting::SettingOption;
use crate::text::{contains, occurs_in};
use vstd::prelude::*;

verus! {

/// Why an operation on a settings file failed.
#[derive(Debug)]
pub enum SettingsError {
    /// The path does not name a TOML file.
    Validation,
    /// The text is not a TOML document; the parser's error says why.
    Parse(toml::de::Error),
}

/// A settings file, known by its path. The handle holds nothing else: the
/// file is the only state.
#[derive(Debug, Clone)]
pub struct Settings {
    path: String,
}

/// The text that a path must hold to name a settings file.
pub open spec fn format_token() -> Seq<char> {
    "toml"@
}

/// The line that opens the section `name`.
pub open spec fn header_text(name: Seq<char>) -> Seq<char> {
    "["@ + name + "]\n"@
}

/// The line that holds the comment `comment`.
pub open spec fn comment_text(comment: Seq<char>) -> Seq<char> {
    "# "@ + comment + "\n"@
}

/// What the handle makes of a parse: the document as it is, and the parser's
/// error as a `Parse` error that holds it.
pub open spec fn document_of(parsed: Result<toml::Value, toml::de::Error>) -> Result<
    toml::Value,
    SettingsError,
> {
    match parsed {
        Ok(value) => Ok(value),
        Err(error) => Err(SettingsError::Parse(error)),
    }
}

/// The document that a parse gave, or the library's error for the parser's.
pub fn document_or_error(parsed: Result<toml::Value, toml::de::Error>) -> (doc: Result<
    toml::Value,
    SettingsError,
>)
    ensures
        doc == document_of(parsed),
{
    match parsed {
        Ok(value) => Ok(value),
        Err(error) => Err(SettingsError::Parse(error)),
    }
}

impl View for Settings {
    type V = Seq<char>;

    /// The path of the file.
    closed spec fn view(&self) -> Seq<char> {
        self.path@
    }
}

impl Settings {
    /// A handle on the file at `settings_file_path`. The path must hold
    /// `toml` somewhere, in lower case; any other path is refused. The file
    /// itself is not touched here: once the handle is made, the caller sees
    /// to it that the file is there, with a write that carries no data.
    pub fn init(settings_file_path: &str) -> (handle: Result<Settings, SettingsError>)
        ensures
            handle is Ok <==> occurs_in(settings_file_path@, format_token()),
            handle matches Ok(settings) ==> settings@ == settings_file_path@,
            handle matches Err(error) ==> error is Validation,
    {
        if contains(settings_file_path, "toml") {
            Ok(Settings { path: settings_file_path.to_owned() })
        } else {
            Err(SettingsError::Validation)
        }
    }

    /// The path of the file.
    pub fn path(&self) -> (path: &str)
        ensures
            path@ == self@,
    {
        self.path.as_str()
    }

    /// The text to append for a comment: `# `, the comment as it stands, and
    /// a newline.
    pub fn write_comment(&self, comment: &str) -> (text: String)
        ensures
            text@ == comment_text(comment@),
    {
        let mut text = "# ".to_owned();
        text.append(comment);
        text.append("\n");
        text
    }

    /// The text to append for a section header: the name as it stands
    /// between square brackets, and a newline.
    pub fn add_header(&self, header_name: &str) -> (text: String)
        ensures
            text@ == header_text(header_name@),
    {
        let mut text = "[".to_owned();
        text.append(header_name);
        text.append("]\n");
        text
    }

    /// The text to append for one setting, ended by the newline characters
    /// that `spaces` asks for.
    pub fn add_setting(&self, setting: SettingOption, spaces: Option<usize>) -> (text: String)
        ensures
            text@ == setting@.line(spaces),
    {
        setting.line(spaces)
    }

    /// The texts to append for a list of settings, one for each and in the
    /// list's order, each ended as `spaces` asks.
    pub fn add_settings(&self, settings: Vec<SettingOption>, spaces: Option<usize>) -> (texts: Vec<
        String,
    >)
        ensures
            texts.len() == settings.len(),
            forall|i: int| 0 <= i < settings.len() ==> #[trigger] texts[i]@ == settings[i]@.line(spaces),
    {
        let mut texts: Vec<String> = Vec::new();
        let ghost all = settings@;
        for setting in it: settings
            invariant
                it.seq() == all,
                texts.len() == it.index(),
                forall|i: int| 0 <= i < texts.len() ==> #[trigger] texts[i]@ == all[i]@.line(spaces),
        {
            let text = setting.line(spaces);
            texts.push(text);
        }
        texts
    }

    /// The settings as a TOML document: what the parser makes of `text`,
    /// which is what the file holds. A text that is no TOML document gives
    /// a `Parse` error with the parser's own error in it. The result depends
    /// on the text alone.
    pub fn read_settings_file(&self, text: &str) -> (doc: Result<toml::Value, SettingsError>)
        ensures
            doc == document_of(toml_parsed(text@)),
            doc is Ok <==> toml_parsed(text@) is Ok,
    {
        document_or_error(parse_toml(text))
    }
}

} // verus!
