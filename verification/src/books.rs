//! A lending library's view of one book: its status moves between
//! available, checked out, being read, in repair and lost, and a status
//! line describes the current state.

use vstd::prelude::*;
use vstd::string::StringExecFns;
use crate::strings::dec_int;
use crate::strings::i32_to_string;

verus! {

/// Where a book currently is; checked-out carries the days until due,
/// in-repair the repair notes.
#[derive(Debug, PartialEq)]
pub enum BookStatus {
    Available,
    CheckedOut(i32),
    BeingRead,
    InRepair(String),
    Lost,
}

/// One book of the library.
#[derive(Debug)]
pub struct Book {
    pub title: String,
    pub author: String,
    pub status: BookStatus,
}

/// The status line shown for a title in a given state.
pub open spec fn status_line(title: Seq<char>, status: BookStatus) -> Seq<char> {
    match status {
        BookStatus::Available => title + " is available for borrowing."@,
        BookStatus::CheckedOut(days) => title + " is checked out. Days until due: "@ + dec_int(
            days as int,
        ),
        BookStatus::BeingRead => title + " is currently being read."@,
        BookStatus::InRepair(notes) => title + " is in repair. Notes: "@ + notes@,
        BookStatus::Lost => title + " has been reported lost."@,
    }
}

impl Book {
    /// A newly registered book is available.
    pub fn new(title: String, author: String) -> (r: Book)
        ensures
            r.title == title,
            r.author == author,
            r.status == BookStatus::Available,
    {
        Book { title, author, status: BookStatus::Available }
    }

    /// Checks the book out for the given number of days.
    pub fn check_out(&mut self, days: i32)
        ensures
            final(self).title == old(self).title,
            final(self).author == old(self).author,
            final(self).status == BookStatus::CheckedOut(days),
    {
        self.status = BookStatus::CheckedOut(days);
    }

    /// Takes the book back; it is available again.
    pub fn return_book(&mut self)
        ensures
            final(self).title == old(self).title,
            final(self).author == old(self).author,
            final(self).status == BookStatus::Available,
    {
        self.status = BookStatus::Available;
    }

    /// Sends the book for repair with the given notes.
    pub fn send_for_repair(&mut self, notes: String)
        ensures
            final(self).title == old(self).title,
            final(self).author == old(self).author,
            final(self).status == BookStatus::InRepair(notes),
    {
        self.status = BookStatus::InRepair(notes);
    }

    /// Marks the book as being read on the premises.
    pub fn mark_as_being_read(&mut self)
        ensures
            final(self).title == old(self).title,
            final(self).author == old(self).author,
            final(self).status == BookStatus::BeingRead,
    {
        self.status = BookStatus::BeingRead;
    }

    /// Records the book as lost.
    pub fn report_lost(&mut self)
        ensures
            final(self).title == old(self).title,
            final(self).author == old(self).author,
            final(self).status == BookStatus::Lost,
    {
        self.status = BookStatus::Lost;
    }

    /// Describes the book's current status in one line.
    pub fn display_status(&self) -> (r: String)
        ensures
            r@ == status_line(self.title@, self.status),
    {
        match &self.status {
            BookStatus::Available => {
                let mut s = self.title.clone();
                s.append(" is available for borrowing.");
                s
            },
            BookStatus::CheckedOut(days) => {
                let mut s = self.title.clone();
                s.append(" is checked out. Days until due: ");
                let rendered = i32_to_string(*days);
                s.append(rendered.as_str());
                proof {
                    assert(s@ =~= status_line(self.title@, self.status));
                }
                s
            },
            BookStatus::BeingRead => {
                let mut s = self.title.clone();
                s.append(" is currently being read.");
                s
            },
            BookStatus::InRepair(notes) => {
                let mut s = self.title.clone();
                s.append(" is in repair. Notes: ");
                s.append(notes.as_str());
                proof {
                    assert(s@ =~= status_line(self.title@, self.status));
                }
                s
            },
            BookStatus::Lost => {
                let mut s = self.title.clone();
                s.append(" has been reported lost.");
                s
            },
        }
    }
}

} // verus!
