//! Where in a value a validation error occurred.

use compact_str::CompactString;
use vstd::prelude::*;
use vstd::string::*;

use super::rc_list::List;
use super::text::{
    debug_quoted, decimal, str_debug, text_as_str, text_eq, text_from_str, text_from_usize, text_of,
};

verus! {

/// How a path component is written out.
#[derive(Debug, Clone, Copy, PartialEq, Eq, Structural, PartialOrd, Ord, Hash)]
pub enum Kind {
    /// Bare text, with nothing before or after it.
    Bare,
    /// A field name: a `.` comes before it unless it opens the path.
    Key,
    /// A position in a sequence, written in square brackets.
    Index,
}

/// A path as contracts see it: the kind and the text of each component, from
/// the root to the innermost one.
pub type PathView = Seq<(Kind, Seq<char>)>;

/// Represents a path component without a key. This is useful when the
/// container only ever holds a single key, which is the case for any
/// 1-tuple struct.
pub struct NoKey(());

impl Default for NoKey {
    fn default() -> Self {
        NoKey(())
    }
}

/// A value that can stand as one component of a [`Path`].
pub trait PathComponentKind {
    /// The kind under which components of this type are written out.
    spec fn kind() -> Kind;

    /// The text of this component.
    spec fn text(&self) -> Seq<char>;

    /// The kind under which components of this type are written out.
    fn component_kind() -> (kind: Kind)
        ensures
            kind == Self::kind(),
    ;

    /// The text of this component, ready to be stored in a path.
    fn component_text(&self) -> (text: CompactString)
        ensures
            text_of(text) == self.text(),
    ;
}

impl PathComponentKind for usize {
    open spec fn kind() -> Kind {
        Kind::Index
    }

    open spec fn text(&self) -> Seq<char> {
        decimal(*self as nat)
    }

    fn component_kind() -> (kind: Kind) {
        Kind::Index
    }

    fn component_text(&self) -> (text: CompactString) {
        text_from_usize(*self)
    }
}

impl<'a> PathComponentKind for &'a str {
    open spec fn kind() -> Kind {
        Kind::Key
    }

    open spec fn text(&self) -> Seq<char> {
        self@
    }

    fn component_kind() -> (kind: Kind) {
        Kind::Key
    }

    fn component_text(&self) -> (text: CompactString) {
        text_from_str(*self)
    }
}

impl PathComponentKind for CompactString {
    open spec fn kind() -> Kind {
        Kind::Key
    }

    open spec fn text(&self) -> Seq<char> {
        text_of(*self)
    }

    fn component_kind() -> (kind: Kind) {
        Kind::Key
    }

    fn component_text(&self) -> (text: CompactString) {
        text_from_str(text_as_str(self))
    }
}

impl PathComponentKind for NoKey {
    open spec fn kind() -> Kind {
        Kind::Bare
    }

    open spec fn text(&self) -> Seq<char> {
        Seq::empty()
    }

    fn component_kind() -> (kind: Kind) {
        Kind::Bare
    }

    fn component_text(&self) -> (text: CompactString) {
        proof {
            reveal_strlit("");
        }
        let text = text_from_str("");
        assert(text_of(text) =~= Seq::<char>::empty());
        text
    }
}

impl<T: PathComponentKind> PathComponentKind for &T {
    open spec fn kind() -> Kind {
        T::kind()
    }

    open spec fn text(&self) -> Seq<char> {
        (**self).text()
    }

    fn component_kind() -> (kind: Kind) {
        T::component_kind()
    }

    fn component_text(&self) -> (text: CompactString) {
        (**self).component_text()
    }
}

/// The location of a validation error within a value: a sequence of field
/// names and indices. Joining never changes a path; it makes a new one that
/// shares the old one's components.
#[derive(Hash)]
pub struct Path {
    components: List<(Kind, CompactString)>,
}

/// One component as it is written out: an index in square brackets, a key
/// after a `.` unless it opens the path, anything else as it is.
pub open spec fn render_component(kind: Kind, text: Seq<char>, first: bool) -> Seq<char> {
    match kind {
        Kind::Bare => text,
        Kind::Key => if first {
            text
        } else {
            seq!['.'] + text
        },
        Kind::Index => seq!['['] + text + seq![']'],
    }
}

/// A path as it is written out, such as `user.addresses[2].zip`: its
/// components from the root to the innermost, each written by
/// [`render_component`].
pub open spec fn render_path(path: PathView) -> Seq<char>
    decreases path.len(),
{
    if path.len() == 0 {
        Seq::empty()
    } else {
        render_path(path.drop_last()) + render_component(
            path.last().0,
            path.last().1,
            path.len() == 1,
        )
    }
}

/// The `items` one after another, with a comma and a space between each two.
pub open spec fn comma_separated(items: Seq<Seq<char>>) -> Seq<char>
    decreases items.len(),
{
    if items.len() == 0 {
        Seq::empty()
    } else if items.len() == 1 {
        items[0]
    } else {
        comma_separated(items.drop_last()) + seq![',', ' '] + items.last()
    }
}

/// A path as it is dumped for diagnosis, given its components as they are
/// to appear: the name of the type and the list of the components.
pub open spec fn debug_dump(items: Seq<Seq<char>>) -> Seq<char> {
    "Path { components: ["@ + comma_separated(items) + "] }"@
}

/// Writes the diagnostic dump of a path whose components, from the root to
/// the innermost, are already formatted as `items`.
pub fn dump_components(items: &Vec<String>) -> (out: String)
    ensures
        out@ == debug_dump(items@.map_values(|item: String| item@)),
{
    let ghost shown = items@.map_values(|item: String| item@);
    let mut out = String::from_str("Path { components: [");
    let ghost opening = out@;
    let mut i: usize = 0;
    while i < items.len()
        invariant
            i <= items@.len(),
            shown == items@.map_values(|item: String| item@),
            opening == "Path { components: ["@,
            out@ == opening + comma_separated(shown.take(i as int)),
        decreases items@.len() - i,
    {
        proof {
            reveal_strlit(", ");
            let next = shown.take(i + 1);
            assert(next.drop_last() =~= shown.take(i as int));
            assert(next.last() == items@[i as int]@);
        }
        if i > 0 {
            out.append(", ");
        }
        out.append(items[i].as_str());
        assert(out@ =~= opening + comma_separated(shown.take(i + 1)));
        i = i + 1;
    }
    assert(shown.take(items@.len() as int) =~= shown);
    out.append("] }");
    out
}

/// What a stored component looks like to contracts.
spec fn component_view(component: (Kind, CompactString)) -> (Kind, Seq<char>) {
    (component.0, text_of(component.1))
}

impl View for Path {
    type V = PathView;

    closed spec fn view(&self) -> PathView {
        self.components@.map_values(|c: (Kind, CompactString)| component_view(c))
    }
}

impl Clone for Path {
    /// A second handle to the same components: no text is copied.
    fn clone(&self) -> (path: Self)
        ensures
            path@ == self@,
    {
        Self { components: self.components.clone() }
    }
}

impl PartialEq for Path {
    fn eq(&self, other: &Self) -> (equal: bool) {
        let n = self.components.len();
        if n != other.components.len() {
            assert(self@.len() != other@.len());
            return false;
        }
        let mut mine = self.components.iter();
        let mut theirs = other.components.iter();
        let mut walked: usize = 0;
        while walked < n
            invariant
                n == self.components@.len(),
                n == other.components@.len(),
                walked <= n,
                mine@ == self.components@.reverse().skip(walked as int),
                theirs@ == other.components@.reverse().skip(walked as int),
                forall|i: int|
                    n - walked <= i < n ==> #[trigger] self@[i] == other@[i],
            decreases n - walked,
        {
            let ghost at = n - 1 - walked;
            match (mine.next(), theirs.next()) {
                (Some(a), Some(b)) => {
                    assert(*a == self.components@[at]);
                    assert(*b == other.components@[at]);
                    if a.0 != b.0 || !text_eq(&a.1, &b.1) {
                        assert(self@[at] != other@[at]);
                        return false;
                    }
                    assert(self@[at] == other@[at]);
                },
                _ => {
                    assert(false);
                    return false;
                },
            }
            walked = walked + 1;
        }
        assert(self@ =~= other@);
        true
    }
}

impl vstd::std_specs::cmp::PartialEqSpecImpl for Path {
    open spec fn obeys_eq_spec() -> bool {
        true
    }

    /// Two paths are equal when they have the same components: the same
    /// kinds and the same texts, in the same order.
    open spec fn eq_spec(&self, other: &Self) -> bool {
        self@ == other@
    }
}

impl Eq for Path {

}

impl Path {
    /// The path of the validated value itself: no components.
    pub fn empty() -> (path: Self)
        ensures
            path@ == PathView::empty(),
    {
        Self { components: List::new() }
    }

    /// The number of components.
    pub fn len(&self) -> (n: usize)
        ensures
            n == self@.len(),
    {
        self.components.len()
    }

    /// Whether this is the path of the validated value itself.
    pub fn is_empty(&self) -> (b: bool)
        ensures
            b <==> self@.len() == 0,
    {
        self.components.is_empty()
    }

    /// A path of the single component `component`.
    pub fn new<C: PathComponentKind>(component: C) -> (path: Self)
        ensures
            path@ == seq![(C::kind(), component.text())],
    {
        let path = Self {
            components: List::new().append((C::component_kind(), component.component_text())),
        };
        assert(path@ =~= seq![(C::kind(), component.text())]);
        path
    }

    /// This path with `component` added below its innermost component.
    pub fn join<C: PathComponentKind>(&self, component: C) -> (path: Self)
        requires
            self@.len() < usize::MAX,
        ensures
            path@ == self@.push((C::kind(), component.text())),
    {
        let path = Self {
            components: self.components.append(
                (C::component_kind(), component.component_text()),
            ),
        };
        assert(path@ =~= self@.push((C::kind(), component.text())));
        path
    }

    /// The components of the path from the innermost to the root, each with
    /// its kind and a borrow of its text.
    pub fn __iter(&self) -> (items: Vec<(Kind, &CompactString)>)
        ensures
            items@.len() == self@.len(),
            forall|i: int|
                0 <= i < items@.len() ==> ((#[trigger] items@[i]).0, text_of(*items@[i].1))
                    == self@[self@.len() - 1 - i],
    {
        let mut items: Vec<(Kind, &CompactString)> = Vec::new();
        let mut iter = self.components.iter();
        let ghost newest_first = self.components@.reverse();
        loop
            invariant
                newest_first == self.components@.reverse(),
                iter@ == newest_first.skip(items@.len() as int),
                items@.len() <= newest_first.len(),
                forall|i: int|
                    0 <= i < items@.len() ==> ((#[trigger] items@[i]).0, *items@[i].1)
                        == newest_first[i],
            ensures
                items@.len() == newest_first.len(),
            decreases iter@.len(),
        {
            match iter.next() {
                Some(component) => {
                    items.push((component.0, &component.1));
                },
                None => {
                    break ;
                },
            }
        }
        items
    }

    /// Writes the path out in dotted and bracketed notation.
    pub fn to_string(&self) -> (out: String)
        ensures
            out@ == render_path(self@),
    {
        let items = self.__iter();
        let n = items.len();
        let mut out = String::new();
        let mut done: usize = 0;
        while done < n
            invariant
                n == items@.len(),
                n == self@.len(),
                done <= n,
                out@ == render_path(self@.take(done as int)),
                forall|i: int|
                    0 <= i < items@.len() ==> ((#[trigger] items@[i]).0, text_of(*items@[i].1))
                        == self@[self@.len() - 1 - i],
            decreases n - done,
        {
            let (kind, text) = items[n - 1 - done];
            proof {
                reveal_strlit("[");
                reveal_strlit("]");
                reveal_strlit(".");
                let shown = self@.take(done + 1);
                assert(shown.drop_last() =~= self@.take(done as int));
                assert(shown.last() == self@[done as int]);
                assert((items@[n - 1 - done].0, text_of(*items@[n - 1 - done].1))
                    == self@[done as int]);
            }
            match kind {
                Kind::Bare => {
                    out.append(text_as_str(text));
                },
                Kind::Key => {
                    if done > 0 {
                        out.append(".");
                    }
                    out.append(text_as_str(text));
                },
                Kind::Index => {
                    out.append("[");
                    out.append(text_as_str(text));
                    out.append("]");
                },
            }
            assert(out@ =~= render_path(self@.take(done + 1)));
            done = done + 1;
        }
        assert(self@.take(n as int) =~= self@);
        out
    }

    /// Writes the path out for diagnosis: the bare text of each component,
    /// from the root to the innermost, formatted as `{:?}` formats a string
    /// and without the punctuation that the kinds stand for.
    pub fn to_debug_string(&self) -> (out: String)
        ensures
            out@ == debug_dump(self@.map_values(|c: (Kind, Seq<char>)| debug_quoted(c.1))),
    {
        let items = self.__iter();
        let n = items.len();
        let mut quoted: Vec<String> = Vec::new();
        let mut done: usize = 0;
        while done < n
            invariant
                n == items@.len(),
                n == self@.len(),
                done <= n,
                quoted@.len() == done,
                forall|i: int|
                    0 <= i < items@.len() ==> ((#[trigger] items@[i]).0, text_of(*items@[i].1))
                        == self@[self@.len() - 1 - i],
                forall|k: int| 0 <= k < done ==> (#[trigger] quoted@[k])@ == debug_quoted(self@[k].1),
            decreases n - done,
        {
            let (_, text) = items[n - 1 - done];
            assert((items@[n - 1 - done].0, text_of(*items@[n - 1 - done].1)) == self@[done as int]);
            quoted.push(str_debug(text_as_str(text)));
            done = done + 1;
        }
        assert(quoted@.map_values(|item: String| item@) =~= self@.map_values(
            |c: (Kind, Seq<char>)| debug_quoted(c.1),
        ));
        dump_components(&quoted)
    }
}

/// Joining a component to a path leaves what the path displayed as it was
/// and writes the new component behind it.
pub proof fn lemma_join_extends_display(path: PathView, kind: Kind, text: Seq<char>)
    ensures
        render_path(path.push((kind, text))) == render_path(path) + render_component(
            kind,
            text,
            path.len() == 0,
        ),
{
    assert(path.push((kind, text)).drop_last() =~= path);
}

/// A path of one component displays as that component alone: an index in
/// its brackets, anything else bare, and never a separator in front.
pub proof fn lemma_single_component_display(kind: Kind, text: Seq<char>)
    ensures
        render_path(seq![(kind, text)]) == if kind == Kind::Index {
            seq!['['] + text + seq![']']
        } else {
            text
        },
{
    let path: PathView = seq![(kind, text)];
    assert(path.drop_last() =~= PathView::empty());
    assert(render_path(path.drop_last()) =~= Seq::<char>::empty());
    assert(render_path(path) =~= render_component(kind, text, true));
}

} // verus!
