//! The input box: its text and where the caret is.

use vstd::prelude::*;

use crate::model::views;
use crate::strings::{chars_of, split, split_at_char, string_of};
use crate::width::{str_width, unicode_str_width};

verus! {

broadcast use crate::model::group_views;

#[derive(Debug)]
pub struct Composer {
    pub text: String,
    /// How many characters stand before the caret.
    pub cursor: usize,
    /// Whether the text is a recalled history entry.
    pub browsing_history: bool,
    /// How an image is written into the text.
    pub image_template: String,
}

impl Composer {
    /// The caret lies within the text.
    pub open spec fn wf(self) -> bool {
        self.cursor <= self.text@.len()
    }

    /// The text before the caret.
    pub open spec fn before(self) -> Seq<char> {
        self.text@.take(self.cursor as int)
    }

    pub fn new() -> (r: Composer)
        ensures
            r.wf(),
            r.text@ == Seq::<char>::empty(),
            r.cursor == 0,
            !r.browsing_history,
            r.image_template@ == Seq::<char>::empty(),
    {
        Composer {
            text: String::new(),
            cursor: 0,
            browsing_history: false,
            image_template: String::new(),
        }
    }

    /// Put `text` in the box, with the caret behind it.
    pub fn replace(&mut self, text: String)
        ensures
            final(self).wf(),
            final(self).text@ == text@,
            final(self).cursor == text@.len(),
            !final(self).browsing_history,
            final(self).image_template == old(self).image_template,
    {
        self.cursor = text.as_str().unicode_len();
        self.text = text;
        self.browsing_history = false;
    }

    pub fn is_empty(&self) -> (r: bool)
        ensures
            r == (self.text@.len() == 0),
    {
        self.text.as_str().is_empty()
    }

    pub fn text_before_cursor(&self) -> (r: String)
        requires
            self.wf(),
        ensures
            r@ == self.before(),
    {
        let v = chars_of(self.text.as_str());
        let r = string_of(&v, 0, self.cursor);
        assert(r@ =~= self.before());
        r
    }

    /// The logical lines of the text.
    pub fn lines(&self) -> (r: Vec<String>)
        ensures
            views(r@) == split_at_char(self.text@, '\n'),
    {
        split(self.text.as_str(), '\n')
    }

    /// The caret: its logical line, and the columns before it on that line.
    pub fn cursor_row_col_display(&self) -> (r: (usize, usize))
        requires
            self.wf(),
        ensures
            r.0 == split_at_char(self.before(), '\n').len() - 1,
            r.1 == unicode_str_width(split_at_char(self.before(), '\n').last()),
    {
        let before = self.text_before_cursor();
        let rows = split(before.as_str(), '\n');
        proof {
            crate::strings::split_is_not_empty(before@, '\n', 0);
        }
        let n: usize = rows.len();
        assert(views(rows@).last() == rows@[n - 1]@);
        (n - 1, str_width(rows[n - 1].as_str()))
    }
}

} // verus!
