use vstd::prelude::*;
use vstd::string::StringExecFns;

use crate::terminal::sat_add;
use crate::text::{decimal, push_char, push_decimal};

verus! {

/// What the status bar reports of the document.
#[derive(Debug)]
pub struct DocumentStatus {
    pub file_name: String,
    pub line_count: usize,
    pub current_line: usize,
    pub is_modified: bool,
}

impl PartialEq for DocumentStatus {
    fn eq(&self, other: &Self) -> (r: bool) {
        self.file_name == other.file_name && self.line_count == other.line_count
            && self.current_line == other.current_line && self.is_modified == other.is_modified
    }
}

impl vstd::std_specs::cmp::PartialEqSpecImpl for DocumentStatus {
    open spec fn obeys_eq_spec() -> bool {
        true
    }

    open spec fn eq_spec(&self, other: &Self) -> bool {
        same_status(*self, *other)
    }
}

/// Whether two statuses report the same thing.
pub open spec fn same_status(a: DocumentStatus, b: DocumentStatus) -> bool {
    &&& a.file_name@ == b.file_name@
    &&& a.line_count == b.line_count
    &&& a.current_line == b.current_line
    &&& a.is_modified == b.is_modified
}

impl Default for DocumentStatus {
    fn default() -> (r: Self)
        ensures
            r.file_name@ == Seq::<char>::empty(),
            r.line_count == 0,
            r.current_line == 0,
            !r.is_modified,
    {
        DocumentStatus {
            file_name: String::new(),
            line_count: 0,
            current_line: 0,
            is_modified: false,
        }
    }
}

/// The text that marks a changed document.
pub open spec fn modified_marker() -> Seq<char> {
    "(modified)"@
}

impl DocumentStatus {
    /// `(modified)` for a changed document, else nothing.
    pub fn modified_indicator_to_string(&self) -> (r: String)
        ensures
            r@ == if self.is_modified {
                modified_marker()
            } else {
                Seq::<char>::empty()
            },
    {
        if self.is_modified {
            "(modified)".to_owned()
        } else {
            String::new()
        }
    }

    /// `<n> lines`.
    pub fn line_count_to_string(&self) -> (r: String)
        ensures
            r@ == decimal(self.line_count as nat) + " lines"@,
    {
        let mut r = String::new();
        push_decimal(&mut r, self.line_count);
        r.append(" lines");
        r
    }

    /// `<current line, counted from one>/<line count>`.
    pub fn position_indicator_to_string(&self) -> (r: String)
        ensures
            r@ == decimal(sat_add(self.current_line, 1) as nat).push('/') + decimal(
                self.line_count as nat,
            ),
    {
        let mut r = String::new();
        push_decimal(&mut r, self.current_line.saturating_add(1));
        push_char(&mut r, '/');
        push_decimal(&mut r, self.line_count);
        r
    }
}

} // verus!
