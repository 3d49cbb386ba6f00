//! Acquisition of the raw pages of one novel.
//!
//! The requests themselves are the caller's to make. This module says which
//! address to ask for next, and keeps what came back in the order in which
//! it was asked for: first the table of contents, then every chapter that it
//! links to, one after the other.

use crate::extract::{extract_attributes, rule_parses, spec_extract_attributes, ParseError};
use crate::novel::{RawNovel, RawNovelView};
use vstd::prelude::*;
use vstd::std_specs::iter::IteratorSpec;
use vstd::string::*;

verus! {

/// The site that the novels are read from.
pub const BASE_URL: &'static str = "https://ncode.syosetu.com";

/// How every request names its client. The site turns away clients that do
/// not look like a browser.
pub const USER_AGENT: &'static str = "Mozilla/5.0";

/// Where the links to the chapters stand in the table of contents.
pub const CHAPTER_LINK_RULE: &'static str = "div.index_box > dl.novel_sublist2 > dd.subtitle > a";

/// The attribute of a link that holds the path of a chapter.
pub const LINK_ATTRIBUTE: &'static str = "href";

/// Whether `c` is a letter or a digit of ASCII.
pub open spec fn is_alphanumeric(c: char) -> bool {
    ('a' <= c && c <= 'z') || ('A' <= c && c <= 'Z') || ('0' <= c && c <= '9')
}

/// Whether `ncode` can be the identifier of a novel: it is not empty and
/// holds letters and digits of ASCII only.
pub open spec fn spec_valid_identifier(ncode: Seq<char>) -> bool {
    ncode.len() > 0 && forall|at: int| 0 <= at < ncode.len() ==> is_alphanumeric(#[trigger] ncode[at])
}

/// Tests whether `ncode` can be the identifier of a novel.
pub fn valid_identifier(ncode: &str) -> (valid: bool)
    ensures
        valid == spec_valid_identifier(ncode@),
{
    let mut empty = true;
    let mut valid = true;
    for c in it: ncode.chars()
        invariant
            it.seq() == ncode@,
            empty == (it.index() == 0),
            valid == forall|at: int| 0 <= at < it.index() ==> is_alphanumeric(#[trigger] ncode@[at]),
    {
        let fits = ('a' <= c && c <= 'z') || ('A' <= c && c <= 'Z') || ('0' <= c && c <= '9');
        assert(c == ncode@[it.index() as int]);
        valid = valid && fits;
        empty = false;
    }
    valid && !empty
}

/// The address of the table of contents of the novel `ncode`.
pub open spec fn spec_toc_url(ncode: Seq<char>) -> Seq<char> {
    BASE_URL@ + "/"@ + ncode + "/"@
}

/// The address of the chapter that the table of contents links to by `path`.
pub open spec fn spec_chapter_url(path: Seq<char>) -> Seq<char> {
    BASE_URL@ + path
}

/// Builds the address of the table of contents of the novel `ncode`.
pub fn toc_url(ncode: &str) -> (url: String)
    ensures
        url@ == spec_toc_url(ncode@),
{
    let mut url = String::from_str(BASE_URL);
    url.append("/");
    url.append(ncode);
    url.append("/");
    url
}

/// Builds the address of a chapter from the path in its link.
pub fn chapter_url(path: &str) -> (url: String)
    ensures
        url@ == spec_chapter_url(path@),
{
    let mut url = String::from_str(BASE_URL);
    url.append(path);
    url
}

/// The paths of the chapters that a table of contents links to, in the order
/// of the links.
pub open spec fn spec_chapter_links(toc: Seq<char>) -> Seq<Seq<char>> {
    spec_extract_attributes(toc, CHAPTER_LINK_RULE@, LINK_ATTRIBUTE@)
}

/// Reads the paths of the chapters out of a table of contents, in the order
/// of the links. Fails only where the rule for the links does not parse.
pub fn chapter_links(toc: &str) -> (links: Result<Vec<String>, ParseError>)
    ensures
        links is Ok <==> rule_parses(CHAPTER_LINK_RULE@),
        links matches Ok(paths) ==> paths.deep_view() == spec_chapter_links(toc@),
        links matches Err(error) ==> error@ == CHAPTER_LINK_RULE@,
{
    extract_attributes(toc, CHAPTER_LINK_RULE, LINK_ATTRIBUTE)
}

/// What to tell the progress sink after a step.
#[derive(Debug, PartialEq, Eq, Clone, Copy, Structural)]
pub enum Progress {
    /// The number of chapters is now known.
    Length(u64),
    /// This many chapters more have arrived.
    Advance(u64),
}

/// A fetch that still waits for a chapter: the table of contents, the paths
/// of all chapters, and the chapters that have arrived, which are fewer than
/// the paths.
#[derive(Debug)]
pub struct ChapterFetch {
    ncode: String,
    toc: String,
    links: Vec<String>,
    chapters: Vec<String>,
}

/// A `ChapterFetch` as mathematical text.
pub struct ChapterFetchView {
    pub ncode: Seq<char>,
    pub toc: Seq<char>,
    pub links: Seq<Seq<char>>,
    pub chapters: Seq<Seq<char>>,
}

impl ChapterFetch {
    #[verifier::type_invariant]
    spec fn awaits_a_chapter(self) -> bool {
        self.chapters.len() < self.links.len()
    }
}

impl View for ChapterFetch {
    type V = ChapterFetchView;

    closed spec fn view(&self) -> ChapterFetchView {
        ChapterFetchView {
            ncode: self.ncode@,
            toc: self.toc@,
            links: self.links.deep_view(),
            chapters: self.chapters.deep_view(),
        }
    }
}

/// What the caller does next.
#[derive(Debug)]
pub enum FetchNext {
    /// Request `url` and hand the page that comes back to `fetch`.
    Request { fetch: ChapterFetch, url: String },
    /// Every page has arrived.
    Finished { novel: RawNovel },
}

/// A `FetchNext` as mathematical text.
pub enum FetchNextView {
    Request { fetch: ChapterFetchView, url: Seq<char> },
    Finished { novel: RawNovelView },
}

impl View for FetchNext {
    type V = FetchNextView;

    open spec fn view(&self) -> FetchNextView {
        match self {
            FetchNext::Request { fetch, url } => FetchNextView::Request { fetch: fetch@, url: url@ },
            FetchNext::Finished { novel } => FetchNextView::Finished { novel: novel@ },
        }
    }
}

/// One step of a fetch: what to tell the progress sink, and what to do next.
#[derive(Debug)]
pub struct FetchStep {
    pub progress: Progress,
    pub next: FetchNext,
}

/// A `FetchStep` as mathematical text.
pub struct FetchStepView {
    pub progress: Progress,
    pub next: FetchNextView,
}

impl View for FetchStep {
    type V = FetchStepView;

    open spec fn view(&self) -> FetchStepView {
        FetchStepView { progress: self.progress, next: self.next@ }
    }
}

/// What follows once `chapters` have arrived of the chapters at `links`:
/// a request for the first chapter that is missing, or the finished novel.
pub open spec fn spec_next(
    ncode: Seq<char>,
    toc: Seq<char>,
    links: Seq<Seq<char>>,
    chapters: Seq<Seq<char>>,
) -> FetchNextView {
    if chapters.len() < links.len() {
        FetchNextView::Request {
            fetch: ChapterFetchView { ncode, toc, links, chapters },
            url: spec_chapter_url(links[chapters.len() as int]),
        }
    } else {
        FetchNextView::Finished { novel: RawNovelView { ncode, toc, chapters } }
    }
}

/// The first step of a fetch whose table of contents links to the chapters
/// at `links`: the number of chapters becomes known, and the first of them
/// is asked for.
pub open spec fn spec_start(ncode: Seq<char>, toc: Seq<char>, links: Seq<Seq<char>>) -> FetchStepView {
    FetchStepView {
        progress: Progress::Length(links.len() as u64),
        next: spec_next(ncode, toc, links, Seq::empty()),
    }
}

/// The first step, taken when the table of contents has arrived.
pub open spec fn spec_begin(ncode: Seq<char>, toc: Seq<char>) -> FetchStepView {
    spec_start(ncode, toc, spec_chapter_links(toc))
}

/// A later step, taken when the chapter that was asked for has arrived: it
/// is kept behind those that came before, and the one after it is asked for.
pub open spec fn spec_receive(fetch: ChapterFetchView, page: Seq<char>) -> FetchStepView {
    FetchStepView {
        progress: Progress::Advance(1),
        next: spec_next(fetch.ncode, fetch.toc, fetch.links, fetch.chapters.push(page)),
    }
}

fn next(ncode: String, toc: String, links: Vec<String>, chapters: Vec<String>) -> (next: FetchNext)
    requires
        chapters.len() <= links.len(),
    ensures
        next@ == spec_next(ncode@, toc@, links.deep_view(), chapters.deep_view()),
{
    if chapters.len() < links.len() {
        let url = chapter_url(links[chapters.len()].as_str());
        FetchNext::Request { fetch: ChapterFetch { ncode, toc, links, chapters }, url }
    } else {
        FetchNext::Finished { novel: RawNovel::new(ncode, toc, chapters) }
    }
}

impl ChapterFetch {
    /// Takes the first step of fetching the novel `ncode`, whose table of
    /// contents `toc` links to the chapters at `links`.
    pub fn start(ncode: &str, toc: String, links: Vec<String>) -> (step: FetchStep)
        ensures
            step@ == spec_start(ncode@, toc@, links.deep_view()),
    {
        let progress = Progress::Length(links.len() as u64);
        let chapters: Vec<String> = Vec::new();
        assert(chapters.deep_view() == Seq::<Seq<char>>::empty());
        FetchStep { progress, next: next(ncode.to_owned(), toc, links, chapters) }
    }

    /// Takes the first step of fetching the novel `ncode`, whose table of
    /// contents has arrived as `toc`: reads the chapter links out of it and
    /// starts on them. Fails only where the rule for the chapter links does
    /// not parse.
    pub fn begin(ncode: &str, toc: String) -> (step: Result<FetchStep, ParseError>)
        ensures
            step is Ok <==> rule_parses(CHAPTER_LINK_RULE@),
            step matches Ok(taken) ==> taken@ == spec_begin(ncode@, toc@),
            step matches Err(error) ==> error@ == CHAPTER_LINK_RULE@,
    {
        match chapter_links(toc.as_str()) {
            Ok(links) => Ok(ChapterFetch::start(ncode, toc, links)),
            Err(error) => Err(error),
        }
    }

    /// Takes the next step of a fetch: `page` is the chapter that was asked
    /// for last.
    pub fn receive(self, page: String) -> (step: FetchStep)
        ensures
            step@ == spec_receive(self@, page@),
    {
        proof {
            use_type_invariant(&self);
        }
        let ghost before = self.chapters.deep_view();
        let mut chapters = self.chapters;
        chapters.push(page);
        assert(chapters.deep_view() == before.push(page@));
        FetchStep {
            progress: Progress::Advance(1),
            next: next(self.ncode, self.toc, self.links, chapters),
        }
    }

    /// The number of chapters of the novel.
    pub fn total(&self) -> (total: usize)
        ensures
            total == self@.links.len(),
    {
        self.links.len()
    }

    /// The number of chapters that have arrived, which is less than the
    /// number of all chapters.
    pub fn fetched(&self) -> (fetched: usize)
        ensures
            fetched == self@.chapters.len(),
            fetched < self@.links.len(),
    {
        proof {
            use_type_invariant(self);
        }
        self.chapters.len()
    }
}

/// Where a fetch stands after the pages in `pages` have arrived, one for
/// each request in turn. Pages beyond the last request are not looked at.
pub open spec fn spec_feed(next: FetchNextView, pages: Seq<Seq<char>>) -> FetchNextView
    decreases pages.len(),
{
    if pages.len() == 0 {
        next
    } else {
        match next {
            FetchNextView::Request { fetch, .. } => spec_feed(
                spec_receive(fetch, pages[0]).next,
                pages.skip(1),
            ),
            FetchNextView::Finished { .. } => next,
        }
    }
}

/// Feeding pages to a fetch that has `chapters` of its `links` leaves it
/// with those chapters and the pages behind them.
proof fn lemma_feed(
    ncode: Seq<char>,
    toc: Seq<char>,
    links: Seq<Seq<char>>,
    chapters: Seq<Seq<char>>,
    pages: Seq<Seq<char>>,
)
    requires
        chapters.len() + pages.len() <= links.len(),
    ensures
        spec_feed(spec_next(ncode, toc, links, chapters), pages) == spec_next(
            ncode,
            toc,
            links,
            chapters + pages,
        ),
    decreases pages.len(),
{
    if pages.len() == 0 {
        assert(chapters + pages == chapters);
    } else {
        lemma_feed(ncode, toc, links, chapters.push(pages[0]), pages.skip(1));
        assert(chapters.push(pages[0]) + pages.skip(1) == chapters + pages);
    }
}

/// A table of contents with K chapter links gives exactly K chapters, in the
/// order of the links: before all K pages have arrived, the fetch asks for
/// the chapter behind the link at the number of pages that have; once they
/// have, it is finished, and the novel holds the pages in the order in which
/// they were asked for.
pub proof fn lemma_fetch_keeps_link_order(
    ncode: Seq<char>,
    toc: Seq<char>,
    links: Seq<Seq<char>>,
    pages: Seq<Seq<char>>,
)
    requires
        pages.len() <= links.len(),
    ensures
        pages.len() < links.len() ==> spec_feed(spec_start(ncode, toc, links).next, pages) == (
        FetchNextView::Request {
            fetch: ChapterFetchView { ncode, toc, links, chapters: pages },
            url: spec_chapter_url(links[pages.len() as int]),
        }),
        pages.len() == links.len() ==> spec_feed(spec_start(ncode, toc, links).next, pages) == (
        FetchNextView::Finished { novel: RawNovelView { ncode, toc, chapters: pages } }),
{
    lemma_feed(ncode, toc, links, Seq::empty(), pages);
    assert(Seq::<Seq<char>>::empty() + pages == pages);
}

} // verus!
