//! What a page shows, as plain values without markup.

use vstd::prelude::*;

verus! {

/// A piece of text that leads somewhere.
#[derive(Debug, PartialEq, Eq)]
pub struct Link {
    pub text: String,
    pub href: String,
}

/// What a [`Link`] stands for.
pub ghost struct LinkView {
    pub text: Seq<char>,
    pub href: Seq<char>,
}

impl View for Link {
    type V = LinkView;

    open spec fn view(&self) -> LinkView {
        LinkView { text: self.text@, href: self.href@ }
    }
}

/// The views of a list of links, in the same order.
pub open spec fn link_views(links: Seq<Link>) -> Seq<LinkView> {
    links.map_values(|l: Link| l@)
}

/// The three cells of one line of a leaderboard.
#[derive(Debug, PartialEq, Eq)]
pub struct Cells {
    pub rank: String,
    pub name: String,
    pub score: String,
}

/// What [`Cells`] stand for.
pub ghost struct CellsView {
    pub rank: Seq<char>,
    pub name: Seq<char>,
    pub score: Seq<char>,
}

impl View for Cells {
    type V = CellsView;

    open spec fn view(&self) -> CellsView {
        CellsView { rank: self.rank@, name: self.name@, score: self.score@ }
    }
}

/// One row in the body of a leaderboard.
#[derive(Debug, PartialEq, Eq)]
pub enum Row {
    /// One cell for each column.
    Entry(Cells),
    /// A single cell that spans all the columns.
    Notice(String),
}

/// What a [`Row`] stands for.
pub ghost enum RowView {
    Entry(CellsView),
    Notice(Seq<char>),
}

impl View for Row {
    type V = RowView;

    open spec fn view(&self) -> RowView {
        match self {
            Row::Entry(cells) => RowView::Entry(cells@),
            Row::Notice(text) => RowView::Notice(text@),
        }
    }
}

/// The views of a list of rows, in the same order.
pub open spec fn row_views(rows: Seq<Row>) -> Seq<RowView> {
    rows.map_values(|r: Row| r@)
}

/// One element of a page, from top to bottom.
#[derive(Debug, PartialEq, Eq)]
pub enum Element {
    /// The title of the page.
    Title(String),
    /// The heading of a section.
    Heading(String),
    /// A paragraph of text.
    Paragraph(String),
    /// A list of links.
    Links(Vec<Link>),
    /// A table with the labels of its columns and the rows of its body.
    Leaderboard { labels: Cells, rows: Vec<Row> },
    /// A link on its own.
    Action(Link),
}

/// What an [`Element`] stands for.
pub ghost enum ElementView {
    Title(Seq<char>),
    Heading(Seq<char>),
    Paragraph(Seq<char>),
    Links(Seq<LinkView>),
    Leaderboard { labels: CellsView, rows: Seq<RowView> },
    Action(LinkView),
}

impl View for Element {
    type V = ElementView;

    open spec fn view(&self) -> ElementView {
        match self {
            Element::Title(text) => ElementView::Title(text@),
            Element::Heading(text) => ElementView::Heading(text@),
            Element::Paragraph(text) => ElementView::Paragraph(text@),
            Element::Links(links) => ElementView::Links(link_views(links@)),
            Element::Leaderboard { labels, rows } => ElementView::Leaderboard {
                labels: labels@,
                rows: row_views(rows@),
            },
            Element::Action(link) => ElementView::Action(link@),
        }
    }
}

/// The views of a list of elements, in the same order.
pub open spec fn element_views(elements: Seq<Element>) -> Seq<ElementView> {
    elements.map_values(|e: Element| e@)
}

/// The content of one page: its elements from top to bottom.
#[derive(Debug, PartialEq, Eq)]
pub struct Page {
    pub elements: Vec<Element>,
}

impl View for Page {
    type V = Seq<ElementView>;

    open spec fn view(&self) -> Seq<ElementView> {
        element_views(self.elements@)
    }
}

impl Page {
    /// A page without elements.
    pub fn new() -> (page: Page)
        ensures
            page@ == Seq::<ElementView>::empty(),
    {
        let page = Page { elements: Vec::new() };
        page
    }

    /// Adds an element below those that the page has.
    pub fn push(&mut self, element: Element)
        ensures
            final(self)@ == old(self)@.push(element@),
    {
        self.elements.push(element);
    }
}

} // verus!
