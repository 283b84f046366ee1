//! Validation errors, the paths they are reported at, and their aggregate.

pub mod path;
pub mod rc_list;
pub mod text;

use compact_str::CompactString;
use smallvec::SmallVec;
use vstd::prelude::*;
use vstd::string::*;

pub use self::path::{
    render_component, render_path, Kind, NoKey, Path, PathComponentKind, PathView,
};
use self::rc_list::{after_appends, lemma_after_appends};
use self::text::{text_as_str, text_eq, text_from_str, text_of};

verus! {

/// The number of errors a report holds before it moves them to the heap.
pub const DEFAULT_MAX_ERROR_REPORT: usize = 10;

/// A single validation failure: a message, kept exactly as it was given.
#[derive(Debug)]
pub struct Error {
    message: CompactString,
}

impl View for Error {
    type V = Seq<char>;

    /// The characters of the message.
    closed spec fn view(&self) -> Seq<char> {
        text_of(self.message)
    }
}

impl Clone for Error {
    fn clone(&self) -> (error: Self)
        ensures
            error@ == self@,
    {
        Self { message: text_from_str(text_as_str(&self.message)) }
    }
}

impl PartialEq for Error {
    fn eq(&self, other: &Self) -> (equal: bool) {
        text_eq(&self.message, &other.message)
    }
}

impl vstd::std_specs::cmp::PartialEqSpecImpl for Error {
    open spec fn obeys_eq_spec() -> bool {
        true
    }

    /// Two errors are equal when their messages are.
    open spec fn eq_spec(&self, other: &Self) -> bool {
        self@ == other@
    }
}

impl Eq for Error {

}

impl Error {
    /// An error that says `message`. The message is stored as it is given.
    pub fn new(message: &str) -> (error: Self)
        ensures
            error@ == message@,
    {
        Self { message: text_from_str(message) }
    }

    /// What the error says.
    pub fn message(&self) -> (message: &str)
        ensures
            message@ == self@,
    {
        text_as_str(&self.message)
    }
}

/// The pairs of a report, in a `smallvec::SmallVec` that keeps the first
/// few inline.
#[verifier::external_body]
pub struct Entries {
    items: SmallVec<[(Path, Error); DEFAULT_MAX_ERROR_REPORT]>,
}

/// The pairs that the vector holds, in the order in which they were pushed.
pub uninterp spec fn entries_of(entries: Entries) -> Seq<(Path, Error)>;

/// `SmallVec::new` makes a vector that holds nothing.
#[verifier::external_body]
fn entries_new() -> (entries: Entries)
    ensures
        entries_of(entries) == Seq::<(Path, Error)>::empty(),
{
    Entries { items: SmallVec::new() }
}

/// `SmallVec::push` adds the item behind those already held, and leaves
/// those as they are, whether or not the vector has to move to the heap.
#[verifier::external_body]
fn entries_push(entries: &mut Entries, path: Path, error: Error)
    ensures
        entries_of(*final(entries)) == entries_of(*old(entries)).push((path, error)),
{
    entries.items.push((path, error));
}

/// `SmallVec::len` is the number of items held.
#[verifier::external_body]
fn entries_len(entries: &Entries) -> (n: usize)
    ensures
        n == entries_of(*entries).len(),
{
    entries.items.len()
}

/// Indexing a `SmallVec` borrows the item at that position; past the end it
/// panics, so the position has to be within the vector.
#[verifier::external_body]
fn entries_get(entries: &Entries, i: usize) -> (entry: &(Path, Error))
    requires
        i < entries_of(*entries).len(),
    ensures
        *entry == entries_of(*entries)[i as int],
{
    &entries.items[i]
}

/// `SmallVec::into_vec` moves the items into a `Vec`, in the same order.
#[verifier::external_body]
fn entries_into_vec(entries: Entries) -> (items: Vec<(Path, Error)>)
    ensures
        items@ == entries_of(entries),
{
    entries.items.into_vec()
}

/// A report as contracts see it: for each error its path and its message,
/// in the order in which the errors were appended.
pub type ReportView = Seq<(PathView, Seq<char>)>;

/// One line of a written report: the message alone where the path is empty,
/// else the path, a colon and a space, and the message.
pub open spec fn render_line(path: PathView, message: Seq<char>) -> Seq<char> {
    if path.len() == 0 {
        message + seq!['\n']
    } else {
        render_path(path) + seq![':', ' '] + message + seq!['\n']
    }
}

/// A report as it is written out: one line for each error, in the order in
/// which the errors were appended.
pub open spec fn render_report(report: ReportView) -> Seq<char>
    decreases report.len(),
{
    if report.len() == 0 {
        Seq::empty()
    } else {
        render_report(report.drop_last()) + render_line(report.last().0, report.last().1)
    }
}

/// A report that started out empty is empty exactly when nothing has been
/// appended to it, and it holds as many pairs as were appended.
pub proof fn lemma_empty_iff_nothing_appended(pairs: ReportView)
    ensures
        after_appends(ReportView::empty(), pairs).len() == pairs.len(),
        after_appends(ReportView::empty(), pairs).len() == 0 <==> pairs.len() == 0,
{
    lemma_after_appends(ReportView::empty(), pairs);
}

/// A validation error report.
///
/// This type is used as a container for errors aggregated during validation.
/// It is a flat list of `(Path, Error)`.
/// A single field or list item may have any number of errors attached to it.
pub struct Report {
    errors: Entries,
}

impl View for Report {
    type V = ReportView;

    closed spec fn view(&self) -> ReportView {
        entries_of(self.errors).map_values(|entry: (Path, Error)| (entry.0@, entry.1@))
    }
}

impl Clone for Report {
    /// A report of the same pairs in the same order. The paths share their
    /// components with those of `self`.
    fn clone(&self) -> (report: Self)
        ensures
            report@ == self@,
    {
        let n = entries_len(&self.errors);
        let mut report = Report::new();
        let mut i: usize = 0;
        while i < n
            invariant
                n == entries_of(self.errors).len(),
                n == self@.len(),
                i <= n,
                report@ == self@.take(i as int),
            decreases n - i,
        {
            let entry = entries_get(&self.errors, i);
            report.append(entry.0.clone(), entry.1.clone());
            assert(report@ =~= self@.take(i + 1));
            i = i + 1;
        }
        assert(self@.take(n as int) =~= self@);
        report
    }
}

impl Report {
    /// Create an empty [`Report`].
    pub fn new() -> (report: Self)
        ensures
            report@ == ReportView::empty(),
    {
        let report = Self { errors: entries_new() };
        assert(report@ =~= ReportView::empty());
        report
    }

    /// Append an [`Error`] into this report at the given [`Path`].
    pub fn append(&mut self, path: Path, error: Error)
        ensures
            final(self)@ == old(self)@.push((path@, error@)),
    {
        entries_push(&mut self.errors, path, error);
        assert(self@ =~= old(self)@.push((path@, error@)));
    }

    /// All `(Path, Error)` pairs, in the order in which they were appended.
    pub fn iter(&self) -> (pairs: Vec<&(Path, Error)>)
        ensures
            pairs@.len() == self@.len(),
            forall|i: int|
                0 <= i < pairs@.len() ==> ((#[trigger] pairs@[i]).0@, pairs@[i].1@) == self@[i],
    {
        let n = entries_len(&self.errors);
        let mut pairs: Vec<&(Path, Error)> = Vec::new();
        let mut i: usize = 0;
        while i < n
            invariant
                n == entries_of(self.errors).len(),
                i <= n,
                pairs@.len() == i,
                forall|k: int| 0 <= k < i ==> *(#[trigger] pairs@[k]) == entries_of(self.errors)[k],
            decreases n - i,
        {
            pairs.push(entries_get(&self.errors, i));
            i = i + 1;
        }
        pairs
    }

    /// Returns `true` if the report contains no validation errors.
    pub fn is_empty(&self) -> (b: bool)
        ensures
            b <==> self@.len() == 0,
    {
        entries_len(&self.errors) == 0
    }

    /// Converts into the inner validation errors.
    pub fn into_inner(self) -> (pairs: Vec<(Path, Error)>)
        ensures
            pairs@.len() == self@.len(),
            forall|i: int|
                0 <= i < pairs@.len() ==> ((#[trigger] pairs@[i]).0@, pairs@[i].1@) == self@[i],
    {
        entries_into_vec(self.errors)
    }

    /// Writes the report out, one line for each error.
    pub fn to_string(&self) -> (out: String)
        ensures
            out@ == render_report(self@),
    {
        let n = entries_len(&self.errors);
        let mut out = String::new();
        let mut i: usize = 0;
        while i < n
            invariant
                n == entries_of(self.errors).len(),
                n == self@.len(),
                i <= n,
                out@ == render_report(self@.take(i as int)),
            decreases n - i,
        {
            let entry = entries_get(&self.errors, i);
            proof {
                reveal_strlit(": ");
                reveal_strlit("\n");
                let shown = self@.take(i + 1);
                assert(shown.drop_last() =~= self@.take(i as int));
                assert(shown.last() == (entry.0@, entry.1@));
            }
            if !entry.0.is_empty() {
                let path = entry.0.to_string();
                out.append(path.as_str());
                out.append(": ");
            }
            out.append(entry.1.message());
            out.append("\n");
            assert(out@ =~= render_report(self@.take(i + 1)));
            i = i + 1;
        }
        assert(self@.take(n as int) =~= self@);
        out
    }
}

} // verus!
