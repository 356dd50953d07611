//! How a write reaches the settings file.
//!
//! The file is opened anew for every write: created where there is none,
//! opened for appending where there is one. This module decides which, and
//! says what the file holds afterwards. Opening and writing are the caller's.

use crate::text::opt_view;
use vstd::prelude::*;

verus! {

/// How the file is opened for a write.
#[derive(Debug, Clone, Copy, PartialEq, Eq, Structural)]
pub enum OpenMode {
    /// Make a new, empty file; one that is there already would be emptied.
    Create,
    /// Open the file that is there, so that what is written lands at its end.
    Append,
}

/// One write: how to open the file, and the text to write, if any.
#[derive(Debug)]
pub struct WritePlan {
    pub mode: OpenMode,
    pub data: Option<String>,
}

/// A write as contracts see it.
pub struct WritePlanView {
    pub mode: OpenMode,
    pub data: Option<Seq<char>>,
}

impl View for WritePlan {
    type V = WritePlanView;

    open spec fn view(&self) -> WritePlanView {
        WritePlanView { mode: self.mode, data: opt_view(self.data) }
    }
}

/// The text of an optional string; nothing where there is none.
pub open spec fn text_or_empty(text: Option<Seq<char>>) -> Seq<char> {
    match text {
        Some(t) => t,
        None => Seq::empty(),
    }
}

/// What a file holds after `data` was appended to it. `before` is what it
/// held, `None` where there was no file; a file that was not there is first
/// made, empty.
pub open spec fn appended(before: Option<Seq<char>>, data: Option<Seq<char>>) -> Seq<char> {
    text_or_empty(before) + text_or_empty(data)
}

impl WritePlanView {
    /// Whether the write can be carried out on a file that held `before`: a
    /// file that is not there cannot be opened for appending.
    pub open spec fn fits(self, before: Option<Seq<char>>) -> bool {
        self.mode == OpenMode::Append ==> before is Some
    }

    /// What the file holds once the write is carried out on a file that held
    /// `before`.
    pub open spec fn outcome(self, before: Option<Seq<char>>) -> Seq<char> {
        match self.mode {
            OpenMode::Create => text_or_empty(self.data),
            OpenMode::Append => text_or_empty(before) + text_or_empty(self.data),
        }
    }
}

/// Plans the write of `data` to the settings file. `exists` says whether the
/// file is there. Without `data` the write only makes sure that it is.
///
/// The file is created where there is none and appended to where there is
/// one, so whatever it held stays, and `data` follows it unchanged.
pub fn write_file(data: Option<String>, exists: bool) -> (plan: WritePlan)
    ensures
        plan.mode == (if exists {
            OpenMode::Append
        } else {
            OpenMode::Create
        }),
        plan.data == data,
        forall|before: Option<Seq<char>>|
            before is Some == exists ==> plan@.fits(before) && #[trigger] plan@.outcome(before)
                == appended(before, opt_view(data)),
{
    let mode = if exists {
        OpenMode::Append
    } else {
        OpenMode::Create
    };
    WritePlan { mode, data }
}

/// A write without data leaves a file that is there as it was, and leaves an
/// empty file where there was none. So does any number of them.
pub proof fn lemma_touch_keeps_content(before: Option<Seq<char>>)
    ensures
        appended(before, None) == text_or_empty(before),
        appended(Some(appended(before, None)), None) == appended(before, None),
{
}

/// Two writes one after the other leave what one write of both texts leaves.
pub proof fn lemma_appends_join(before: Option<Seq<char>>, first: Seq<char>, second: Seq<char>)
    ensures
        appended(Some(appended(before, Some(first))), Some(second)) == appended(
            before,
            Some(first + second),
        ),
{
}

} // verus!
