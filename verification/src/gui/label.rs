//! The text of the label UI component.
use vstd::prelude::*;

verus! {

/// The text a label shows: `"Label"` unless set otherwise, and never empty.
pub struct Label {
    text: String,
}

impl View for Label {
    type V = Seq<char>;

    closed spec fn view(&self) -> Seq<char> {
        self.text@
    }
}

impl Label {
    /// The default label text, `"Label"`.
    pub fn new() -> (l: Self)
        ensures
            l@ == "Label"@,
            l@.len() > 0,
    {
        proof {
            reveal_strlit("Label");
        }
        Label { text: "Label".to_owned() }
    }

    /// A label text set to `text`, or to `"Label"` when `text` is empty.
    pub fn with_text(self, text: &str) -> (l: Self)
        ensures
            l@ == (if text@.len() == 0 {
                "Label"@
            } else {
                text@
            }),
            l@.len() > 0,
    {
        proof {
            reveal_strlit("Label");
        }
        Label {
            text: if text.is_empty() {
                "Label".to_owned()
            } else {
                text.to_owned()
            },
        }
    }

    /// Sets the text; an empty text leaves it unchanged.
    pub fn set_text(&mut self, text: &str)
        ensures
            final(self)@ == (if text@.len() == 0 {
                old(self)@
            } else {
                text@
            }),
            old(self)@.len() > 0 ==> final(self)@.len() > 0,
    {
        if !text.is_empty() {
            self.text = text.to_owned();
        }
    }

    /// The text.
    pub fn text(&self) -> (t: &str)
        ensures
            t@ == self@,
    {
        self.text.as_str()
    }
}

} // verus!
