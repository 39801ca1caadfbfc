//! Window-title widget state: the displayed "class - title" string for
//! the currently focused window, fed by the window-manager event
//! subscription in the surrounding application.

use vstd::prelude::*;

use crate::icon::opt_str_view;

verus! {

/// Window-title widget state.
#[derive(Debug)]
pub struct WindowTitle {
    /// Title of the focused window, if one is focused.
    pub title: Option<String>,
    /// Window class of the focused window, if one is focused.
    pub class: Option<String>,
    /// Cached display string: "class - title", or empty when either part
    /// is missing.
    pub display_text: String,
}

/// The focused window changed: `(title, class)`, or none of each when no
/// window is focused.
#[derive(Debug, Clone)]
pub enum Message {
    ActiveWindowChanged(Option<String>, Option<String>),
}

/// The display string for a focus state.
pub open spec fn spec_window_text(title: Option<Seq<char>>, class: Option<Seq<char>>) -> Seq<
    char,
> {
    match (title, class) {
        (Some(t), Some(c)) => c + " - "@ + t,
        _ => Seq::empty(),
    }
}

impl WindowTitle {
    /// Record a focus change and refresh the display.
    pub fn update(&mut self, message: Message)
        ensures
            match message {
                Message::ActiveWindowChanged(t, c) => {
                    &&& final(self).title == t
                    &&& final(self).class == c
                    &&& final(self).display_text@ == spec_window_text(
                        opt_str_view(t),
                        opt_str_view(c),
                    )
                },
            },
    {
        match message {
            Message::ActiveWindowChanged(t, c) => {
                let mut s = String::new();
                match (&t, &c) {
                    (Some(tt), Some(cc)) => {
                        s.append(cc.as_str());
                        s.append(" - ");
                        s.append(tt.as_str());
                    },
                    _ => {},
                }
                self.title = t;
                self.class = c;
                self.display_text = s;
            },
        }
    }
}

impl Default for WindowTitle {
    /// No focused window, empty display.
    fn default() -> (r: Self)
        ensures
            r.title is None,
            r.class is None,
            r.display_text@ == Seq::<char>::empty(),
    {
        WindowTitle { title: None, class: None, display_text: String::new() }
    }
}

} // verus!
