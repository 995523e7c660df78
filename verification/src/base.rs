//! Row and column wrappers that lay out other fragments.

use vstd::pervasive::cloned;
use vstd::prelude::*;
use vstd::string::*;
use crate::markup::{escaped, join_class, joined_class, push_escaped, Markup, Render};

verus! {

/// What a row or a column holds: its classes and its children, in the order
/// in which they were added.
pub ghost struct LayoutView<R> {
    pub class: Seq<char>,
    pub items: Seq<R>,
}

/// The markup of a list of children: each child's own markup, in order.
pub open spec fn children_markup<R: Render>(items: Seq<R>) -> Seq<char>
    decreases items.len(),
{
    if items.len() == 0 {
        Seq::empty()
    } else {
        children_markup(items.drop_last()) + items.last().markup()
    }
}

/// Children are written in the order in which they were added: a list with
/// one more child at its end gives the same markup followed by that child's.
pub proof fn lemma_children_markup_push<R: Render>(items: Seq<R>, item: R)
    ensures
        children_markup(Seq::<R>::empty()) == Seq::<char>::empty(),
        children_markup(items.push(item)) == children_markup(items) + item.markup(),
{
    assert(items.push(item).drop_last() =~= items);
}

/// A `div` with the given classes around the given content.
pub open spec fn container_markup(class: Seq<char>, content: Seq<char>) -> Seq<char> {
    "<div class=\""@ + escaped(class) + "\">"@ + content + "</div>"@
}

/// Writes out a `div` with the classes `class` around the markup of `items`.
fn render_container<R: Render>(class: &String, items: &Vec<R>) -> (out: Markup)
    ensures
        out@ == container_markup(class@, children_markup(items@)),
{
    let mut content = String::new();
    let mut i: usize = 0;
    assert(content@ =~= children_markup(items@.take(0)));
    while i < items.len()
        invariant
            i <= items@.len(),
            content@ == children_markup(items@.take(i as int)),
        decreases items@.len() - i,
    {
        let child = items[i].render();
        content.append(child.as_str());
        proof {
            let next = items@.take(i + 1);
            assert(next.drop_last() =~= items@.take(i as int));
            assert(next.last() == items@[i as int]);
        }
        i += 1;
    }
    assert(items@.take(i as int) =~= items@);
    let mut buffer = "<div class=\"".to_owned();
    push_escaped(&mut buffer, class.as_str());
    buffer.append("\">");
    buffer.append(content.as_str());
    buffer.append("</div>");
    Markup::pre_escaped(buffer)
}

/// A row: a `div` of class `row` around its children.
#[derive(Debug)]
pub struct Row<R> {
    class: String,
    items: Vec<R>,
}

impl<R> View for Row<R> {
    type V = LayoutView<R>;

    closed spec fn view(&self) -> LayoutView<R> {
        LayoutView { class: self.class@, items: self.items@ }
    }
}

impl<R> Row<R> {
    /// An empty row of class `row`.
    pub fn new() -> (out: Row<R>)
        ensures
            out@ == (LayoutView { class: "row"@, items: Seq::<R>::empty() }),
    {
        Row { class: "row".to_owned(), items: Vec::new() }
    }

    /// The row with `class` added to its classes, after a space. Nothing is
    /// removed: a class given twice stands twice.
    pub fn class(self, class: &str) -> (out: Row<R>)
        ensures
            out@ == (LayoutView { class: joined_class(self@.class, class@), ..self@ }),
    {
        let joined = join_class(self.class, class);
        Row { class: joined, items: self.items }
    }

    /// The row with `item` added after its other children.
    pub fn add(self, item: R) -> (out: Row<R>)
        ensures
            out@ == (LayoutView { items: self@.items.push(item), ..self@ }),
    {
        let mut items = self.items;
        items.push(item);
        Row { class: self.class, items }
    }
}

impl<R> Default for Row<R> {
    /// An empty wrapper without any class.
    fn default() -> (out: Row<R>)
        ensures
            out@ == (LayoutView { class: Seq::empty(), items: Seq::<R>::empty() }),
    {
        Row { class: String::new(), items: Vec::new() }
    }
}

impl<R: Clone> Clone for Row<R> {
    fn clone(&self) -> (out: Row<R>)
        ensures
            out@.class == self@.class,
            out@.items.len() == self@.items.len(),
            forall|i: int|
                0 <= i < self@.items.len() ==> cloned::<R>(self@.items[i], #[trigger] out@.items[i]),
    {
        Row { class: self.class.clone(), items: self.items.clone() }
    }
}

impl<R: Render> Render for Row<R> {
    open spec fn markup(&self) -> Seq<char> {
        container_markup(self@.class, children_markup(self@.items))
    }

    fn render(&self) -> (out: Markup) {
        render_container(&self.class, &self.items)
    }
}

/// A column: a `div` of class `col` around its children.
#[derive(Debug)]
pub struct Col<R> {
    class: String,
    items: Vec<R>,
}

impl<R> View for Col<R> {
    type V = LayoutView<R>;

    closed spec fn view(&self) -> LayoutView<R> {
        LayoutView { class: self.class@, items: self.items@ }
    }
}

impl<R> Col<R> {
    /// An empty column of class `col`.
    pub fn new() -> (out: Col<R>)
        ensures
            out@ == (LayoutView { class: "col"@, items: Seq::<R>::empty() }),
    {
        Col { class: "col".to_owned(), items: Vec::new() }
    }

    /// The column with `class` added to its classes, after a space. Nothing
    /// is removed: a class given twice stands twice.
    pub fn class(self, class: &str) -> (out: Col<R>)
        ensures
            out@ == (LayoutView { class: joined_class(self@.class, class@), ..self@ }),
    {
        let joined = join_class(self.class, class);
        Col { class: joined, items: self.items }
    }

    /// The column with `item` added after its other children.
    pub fn add(self, item: R) -> (out: Col<R>)
        ensures
            out@ == (LayoutView { items: self@.items.push(item), ..self@ }),
    {
        let mut items = self.items;
        items.push(item);
        Col { class: self.class, items }
    }
}

impl<R> Default for Col<R> {
    /// An empty wrapper without any class.
    fn default() -> (out: Col<R>)
        ensures
            out@ == (LayoutView { class: Seq::empty(), items: Seq::<R>::empty() }),
    {
        Col { class: String::new(), items: Vec::new() }
    }
}

impl<R: Clone> Clone for Col<R> {
    fn clone(&self) -> (out: Col<R>)
        ensures
            out@.class == self@.class,
            out@.items.len() == self@.items.len(),
            forall|i: int|
                0 <= i < self@.items.len() ==> cloned::<R>(self@.items[i], #[trigger] out@.items[i]),
    {
        Col { class: self.class.clone(), items: self.items.clone() }
    }
}

impl<R: Render> Render for Col<R> {
    open spec fn markup(&self) -> Seq<char> {
        container_markup(self@.class, children_markup(self@.items))
    }

    fn render(&self) -> (out: Markup) {
        render_container(&self.class, &self.items)
    }
}

} // verus!
