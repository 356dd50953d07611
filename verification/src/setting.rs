//! One setting and the line of text that stands for it.
//!
//! A setting is written as `key = value`, followed by a number of newline
//! characters. The key is the setting's name with its spaces turned into
//! underscores. The value depends on the kind that the setting's type tag
//! names and on its default value.

use crate::text::{opt_view, repeat_char, repeated, replace_char, replaced, same_text};
use vstd::prelude::*;

verus! {

/// A setting to be written: its name, its type tag and, where there is one,
/// the value to write for it. The type tag is read without regard to case.
#[derive(Debug, Clone)]
pub struct SettingOption {
    pub name: String,
    pub value: String,
    pub default_value: Option<String>,
}

/// A setting as contracts see it: each string by its characters.
pub struct SettingOptionView {
    pub name: Seq<char>,
    pub value: Seq<char>,
    pub default_value: Option<Seq<char>>,
}

/// What a type tag names, once it is in lower case.
#[derive(Debug, Clone, Copy, PartialEq, Eq, Structural)]
pub enum SettingKind {
    /// The tag `bool`.
    Bool,
    /// The tag `number`.
    Number,
    /// The tag `string`.
    Text,
    /// Any other tag.
    Other,
}

/// The lower-case form of a string, as `str::to_lowercase` gives it.
pub uninterp spec fn lowercase_of(s: Seq<char>) -> Seq<char>;

/// `str::to_lowercase` returns the lower-case equivalent of the string as a new
/// `String`. Which characters that changes is Unicode's matter and is not
/// spelled out here: the result only has a name.
pub assume_specification[ str::to_lowercase ](s: &str) -> (lowered: String)
    ensures
        lowered@ == lowercase_of(s@),
;

/// The kind that a type tag in lower case names.
pub open spec fn kind_of(lowered: Seq<char>) -> SettingKind {
    if lowered == "bool"@ {
        SettingKind::Bool
    } else if lowered == "number"@ {
        SettingKind::Number
    } else if lowered == "string"@ {
        SettingKind::Text
    } else {
        SettingKind::Other
    }
}

/// The value written for a setting of the given kind.
///
/// A `Bool` or `Number` setting is written as its default value, unquoted
/// and as it stands; without one it is `false` or `0`. A `Text` setting is
/// its default value between double quotes, nothing in it escaped; without
/// one it is the empty quoted string. A setting of any other kind is two
/// single quotes, whatever its default value.
pub open spec fn value_text(kind: SettingKind, default_value: Option<Seq<char>>) -> Seq<char> {
    match kind {
        SettingKind::Bool => match default_value {
            Some(text) => text,
            None => "false"@,
        },
        SettingKind::Number => match default_value {
            Some(text) => text,
            None => "0"@,
        },
        SettingKind::Text => "\""@ + match default_value {
            Some(text) => text,
            None => Seq::empty(),
        } + "\""@,
        SettingKind::Other => "''"@,
    }
}

/// The key written for a setting's name: every space is an underscore, and
/// nothing else changes.
pub open spec fn key_text(name: Seq<char>) -> Seq<char> {
    replaced(name, ' ', '_')
}

/// How many newline characters end a line: the number asked for, which may be
/// zero, and one where none is given.
pub open spec fn newline_count(spaces: Option<usize>) -> nat {
    match spaces {
        Some(n) => n as nat,
        None => 1,
    }
}

/// The line for a key and a value, ended by `newlines` newline characters.
pub open spec fn line_text(key: Seq<char>, value: Seq<char>, newlines: nat) -> Seq<char> {
    key + " = "@ + value + repeated('\n', newlines)
}

/// The line written for a setting whose type tag, in lower case, is `lowered`.
pub open spec fn setting_text(
    lowered: Seq<char>,
    name: Seq<char>,
    default_value: Option<Seq<char>>,
    spaces: Option<usize>,
) -> Seq<char> {
    line_text(key_text(name), value_text(kind_of(lowered), default_value), newline_count(spaces))
}

impl View for SettingOption {
    type V = SettingOptionView;

    open spec fn view(&self) -> SettingOptionView {
        SettingOptionView {
            name: self.name@,
            value: self.value@,
            default_value: opt_view(self.default_value),
        }
    }
}

impl SettingOptionView {
    /// The kind that the setting's type tag names.
    pub open spec fn kind(self) -> SettingKind {
        kind_of(lowercase_of(self.value))
    }

    /// The line written for the setting.
    pub open spec fn line(self, spaces: Option<usize>) -> Seq<char> {
        setting_text(lowercase_of(self.value), self.name, self.default_value, spaces)
    }
}

/// A setting whose type tag is none of `bool`, `number` and `string` is
/// written as two single quotes, with or without a default value and whatever
/// that value is.
pub proof fn lemma_unknown_tag_value(lowered: Seq<char>, default_value: Option<Seq<char>>)
    requires
        lowered != "bool"@,
        lowered != "number"@,
        lowered != "string"@,
    ensures
        kind_of(lowered) == SettingKind::Other,
        value_text(kind_of(lowered), default_value) == seq!['\'', '\''],
{
    reveal_strlit("''");
    assert("''"@ =~= seq!['\'', '\'']);
}

/// A `string` setting without a default value is the empty quoted string,
/// which no setting of an unknown kind is ever written as.
pub proof fn lemma_empty_text_is_quoted(default_value: Option<Seq<char>>)
    ensures
        value_text(SettingKind::Text, None) == seq!['"', '"'],
        value_text(SettingKind::Text, None) != value_text(SettingKind::Other, default_value),
{
    reveal_strlit("\"");
    reveal_strlit("''");
    assert(value_text(SettingKind::Text, None) =~= seq!['"', '"']);
    assert(value_text(SettingKind::Other, default_value)[0] == '\'');
}

/// A `string` setting is its default value between two double quotes, the
/// value itself unchanged.
pub proof fn lemma_text_is_quoted(text: Seq<char>)
    ensures
        value_text(SettingKind::Text, Some(text)) == seq!['"'] + text + seq!['"'],
{
    reveal_strlit("\"");
    assert("\""@ =~= seq!['"']);
}

/// A key is as long as the name it was made from, holds an underscore
/// wherever the name holds a space, and the name's character everywhere else.
/// So no key holds a space.
pub proof fn lemma_key_has_no_space(name: Seq<char>)
    ensures
        key_text(name).len() == name.len(),
        forall|i: int|
            0 <= i < name.len() ==> #[trigger] key_text(name)[i] == (if name[i] == ' ' {
                '_'
            } else {
                name[i]
            }),
        !key_text(name).contains(' '),
{
}

/// A line is the key, ` = ` and the value, followed by newline characters
/// alone: as many as `spaces` gives, none for zero, and one where `spaces`
/// gives no number.
pub proof fn lemma_line_ends_in_newlines(key: Seq<char>, value: Seq<char>, spaces: Option<usize>)
    ensures
        newline_count(spaces) == (match spaces {
            Some(n) => n as nat,
            None => 1,
        }),
        ({
            let body = key + seq![' ', '=', ' '] + value;
            let line = line_text(key, value, newline_count(spaces));
            &&& line.len() == body.len() + newline_count(spaces)
            &&& line.take(body.len() as int) == body
            &&& forall|i: int| body.len() <= i < line.len() ==> line[i] == '\n'
        }),
{
    reveal_strlit(" = ");
    assert(" = "@ =~= seq![' ', '=', ' ']);
    let body = key + seq![' ', '=', ' '] + value;
    let line = line_text(key, value, newline_count(spaces));
    assert(line.take(body.len() as int) =~= body);
}

impl SettingKind {
    /// The kind that a type tag names. The tag is taken as it stands: put it
    /// in lower case first to read it without regard to case.
    pub fn of_lowered(lowered: &str) -> (kind: SettingKind)
        ensures
            kind == kind_of(lowered@),
    {
        if same_text(lowered, "bool") {
            SettingKind::Bool
        } else if same_text(lowered, "number") {
            SettingKind::Number
        } else if same_text(lowered, "string") {
            SettingKind::Text
        } else {
            SettingKind::Other
        }
    }

    /// The value written for a setting of this kind.
    pub fn effective_value(self, default_value: Option<String>) -> (value: String)
        ensures
            value@ == value_text(self, opt_view(default_value)),
    {
        match self {
            SettingKind::Bool => match default_value {
                Some(text) => text,
                None => "false".to_owned(),
            },
            SettingKind::Number => match default_value {
                Some(text) => text,
                None => "0".to_owned(),
            },
            SettingKind::Text => match default_value {
                Some(text) => {
                    let mut quoted = "\"".to_owned();
                    quoted.append(text.as_str());
                    quoted.append("\"");
                    quoted
                },
                None => {
                    proof {
                        reveal_strlit("\"");
                        reveal_strlit("\"\"");
                    }
                    "\"\"".to_owned()
                },
            },
            SettingKind::Other => "''".to_owned(),
        }
    }
}

/// The line for a key and a value, ended by the newline characters that
/// `spaces` asks for.
pub fn format_line(key: &str, value: &str, spaces: Option<usize>) -> (line: String)
    ensures
        line@ == line_text(key@, value@, newline_count(spaces)),
{
    let count: usize = match spaces {
        Some(n) => n,
        None => 1,
    };
    let ending = repeat_char('\n', count);
    let mut line = key.to_owned();
    line.append(" = ");
    line.append(value);
    line.append(ending.as_str());
    line
}

impl SettingOption {
    /// The kind that the setting's type tag names, read without regard to case.
    pub fn kind(&self) -> (kind: SettingKind)
        ensures
            kind == self@.kind(),
    {
        let lowered = self.value.as_str().to_lowercase();
        SettingKind::of_lowered(lowered.as_str())
    }

    /// The line written for the setting, ended by the newline characters that
    /// `spaces` asks for.
    pub fn line(self, spaces: Option<usize>) -> (line: String)
        ensures
            line@ == self@.line(spaces),
    {
        let value = self.kind().effective_value(self.default_value);
        let key = replace_char(self.name.as_str(), ' ', '_');
        format_line(key.as_str(), value.as_str(), spaces)
    }
}

} // verus!
