//! Small page-level types: the colour theme and the data an error
//! page renders.

use vstd::prelude::*;

verus! {

/// The colour theme a visitor selected. Stored client-side in the
/// `theme` cookie; dark is the default.
#[derive(Debug, Clone, Copy, PartialEq, Eq, Structural)]
pub enum Theme {
    Dark,
    Light,
}

impl Default for Theme {
    /// The default theme is dark.
    fn default() -> (t: Self)
        ensures
            t == Theme::Dark,
    {
        Theme::Dark
    }
}

impl Theme {
    /// The value stored in the `theme` cookie: `"dark"` or `"light"`.
    pub fn label(&self) -> (s: String)
        ensures
            s@ == self.spec_label(),
    {
        match self {
            Theme::Dark => "dark".to_owned(),
            Theme::Light => "light".to_owned(),
        }
    }

    /// [`Theme::label`], as a spec-level function.
    pub open spec fn spec_label(&self) -> Seq<char> {
        match self {
            Theme::Dark => "dark"@,
            Theme::Light => "light"@,
        }
    }

    /// The other theme: dark becomes light and light becomes dark.
    pub fn toggled(&self) -> (t: Theme)
        ensures
            *self is Dark <==> t is Light,
    {
        match self {
            Theme::Dark => Theme::Light,
            Theme::Light => Theme::Dark,
        }
    }
}

/// What an error page shows: the HTTP status code and a message that
/// is safe to display.
#[derive(Debug)]
pub struct PageError {
    pub status: u16,
    pub message: String,
}

/// The error-page decision: a response with a client or server error
/// status (`400..=599`) is replaced by an error page carrying that
/// status and the given message; any other response passes through.
pub fn error_page_for(status: u16, message: String) -> (r: Option<PageError>)
    ensures
        400 <= status < 600 ==> (r matches Some(p) && p.status == status && p.message@
            == message@),
        !(400 <= status < 600) ==> r is None,
{
    if 400 <= status && status < 600 {
        Some(PageError { status, message })
    } else {
        None
    }
}

} // verus!
