//! Document formatting: from the fields of one page to the text of one
//! document, and from the table of contents to the metadata block.

use crate::extract::{extract, rule_parses, spec_extract, ParseError};
use vstd::prelude::*;
use vstd::string::*;

verus! {

/// Where the author's name stands in the table of contents.
pub const AUTHOR_RULE: &'static str = "div#novel_color > div.novel_writername > a";

/// Where the novel's title stands in the table of contents.
pub const TITLE_RULE: &'static str = "div#novel_color > p.novel_title";

/// Where the preface stands in the table of contents.
pub const PREFACE_RULE: &'static str = "div#novel_color > div#novel_ex";

/// Where the heading of a chapter stands in its page.
pub const HEADING_RULE: &'static str = "div#novel_color > p.novel_subtitle";

/// Where the author's opening note stands in a chapter's page.
pub const INTRO_RULE: &'static str = "div#novel_color > div#novel_p";

/// Where the text of a chapter stands in its page.
pub const BODY_RULE: &'static str = "div#novel_color > div#novel_honbun";

/// Where the author's closing note stands in a chapter's page.
pub const OUTRO_RULE: &'static str = "div#novel_color > div#novel_a";

/// The language that every metadata block declares.
pub const LANGUAGE: &'static str = "ja-JP";

/// The sections of one document. A section that the page did not have is
/// absent, and a document may have none at all.
#[derive(Debug, PartialEq, Eq)]
pub struct ChapterDocument {
    pub heading: Option<String>,
    pub intro: Option<String>,
    pub body: Option<String>,
    pub outro: Option<String>,
}

/// A `ChapterDocument` as mathematical text.
pub struct ChapterDocumentView {
    pub heading: Option<Seq<char>>,
    pub intro: Option<Seq<char>>,
    pub body: Option<Seq<char>>,
    pub outro: Option<Seq<char>>,
}

impl View for ChapterDocument {
    type V = ChapterDocumentView;

    open spec fn view(&self) -> ChapterDocumentView {
        ChapterDocumentView {
            heading: self.heading.deep_view(),
            intro: self.intro.deep_view(),
            body: self.body.deep_view(),
            outro: self.outro.deep_view(),
        }
    }
}

/// The rendered heading: a level-one title and an empty line after it.
pub open spec fn heading_section(heading: Option<Seq<char>>) -> Seq<char> {
    match heading {
        Some(text) => "# "@ + text + "\n\n"@,
        None => Seq::empty(),
    }
}

/// The rendered opening note: the note, then a rule below it.
pub open spec fn intro_section(intro: Option<Seq<char>>) -> Seq<char> {
    match intro {
        Some(text) => text + "\n---\n"@,
        None => Seq::empty(),
    }
}

/// The rendered text: the text and the end of its last line.
pub open spec fn body_section(body: Option<Seq<char>>) -> Seq<char> {
    match body {
        Some(text) => text + "\n"@,
        None => Seq::empty(),
    }
}

/// The rendered closing note: a rule, then the note.
pub open spec fn outro_section(outro: Option<Seq<char>>) -> Seq<char> {
    match outro {
        Some(text) => "---\n"@ + text + "\n"@,
        None => Seq::empty(),
    }
}

/// The text of a document: its sections in the order heading, opening note,
/// text, closing note, each only where it is present.
pub open spec fn spec_render(document: ChapterDocumentView) -> Seq<char> {
    heading_section(document.heading) + intro_section(document.intro) + body_section(
        document.body,
    ) + outro_section(document.outro)
}

/// The document that holds a preface: the preface is its text, and it has
/// no other section.
pub open spec fn spec_preface_document(preface: Seq<char>) -> ChapterDocumentView {
    ChapterDocumentView { heading: None, intro: None, body: Some(preface), outro: None }
}

impl ChapterDocument {
    /// The document without any section.
    pub fn empty() -> (document: ChapterDocument)
        ensures
            document@ == (ChapterDocumentView { heading: None, intro: None, body: None, outro: None }),
            spec_render(document@) == Seq::<char>::empty(),
    {
        ChapterDocument { heading: None, intro: None, body: None, outro: None }
    }

    /// The document that holds a preface and nothing else.
    pub fn preface(text: String) -> (document: ChapterDocument)
        ensures
            document@ == spec_preface_document(text@),
    {
        ChapterDocument { heading: None, intro: None, body: Some(text), outro: None }
    }

    /// Renders the document as text.
    pub fn render(&self) -> (text: String)
        ensures
            text@ == spec_render(self@),
    {
        let mut text = String::new();
        if let Some(heading) = &self.heading {
            text.append("# ");
            text.append(heading.as_str());
            text.append("\n\n");
        }
        assert(text@ == heading_section(self@.heading));
        if let Some(intro) = &self.intro {
            text.append(intro.as_str());
            text.append("\n---\n");
        }
        assert(text@ == heading_section(self@.heading) + intro_section(self@.intro));
        if let Some(body) = &self.body {
            text.append(body.as_str());
            text.append("\n");
        }
        assert(text@ == heading_section(self@.heading) + intro_section(self@.intro) + body_section(
            self@.body,
        ));
        if let Some(outro) = &self.outro {
            text.append("---\n");
            text.append(outro.as_str());
            text.append("\n");
        }
        assert(text@ == spec_render(self@));
        text
    }
}

/// The line of the metadata block that gives the value of `key`; no line
/// where the value is absent.
pub open spec fn metadata_line(key: Seq<char>, value: Option<Seq<char>>) -> Seq<char> {
    match value {
        Some(text) => key + ": "@ + text + "\n"@,
        None => Seq::empty(),
    }
}

/// The metadata block of a novel: between two rules, the title and the
/// author, each where known, and the language.
pub open spec fn spec_metadata_block(
    title: Option<Seq<char>>,
    author: Option<Seq<char>>,
) -> Seq<char> {
    "---\n"@ + metadata_line("title"@, title) + metadata_line("author"@, author) + metadata_line(
        "lang"@,
        Some(LANGUAGE@),
    ) + "---\n"@
}

fn write_metadata_line(block: &mut String, key: &str, value: &Option<String>)
    ensures
        final(block)@ == old(block)@ + metadata_line(key@, value.deep_view()),
{
    if let Some(text) = value {
        block.append(key);
        block.append(": ");
        block.append(text.as_str());
        block.append("\n");
        assert(block@ == old(block)@ + metadata_line(key@, value.deep_view()));
    } else {
        assert(block@ == old(block)@ + metadata_line(key@, value.deep_view()));
    }
}

/// Builds the metadata block of a novel from its title and its author.
pub fn metadata_block(title: &Option<String>, author: &Option<String>) -> (block: String)
    ensures
        block@ == spec_metadata_block(title.deep_view(), author.deep_view()),
{
    let mut block = String::from_str("---\n");
    write_metadata_line(&mut block, "title", title);
    write_metadata_line(&mut block, "author", author);
    block.append("lang");
    block.append(": ");
    block.append(LANGUAGE);
    block.append("\n");
    assert(block@ == "---\n"@ + metadata_line("title"@, title.deep_view()) + metadata_line(
        "author"@,
        author.deep_view(),
    ) + metadata_line("lang"@, Some(LANGUAGE@)));
    block.append("---\n");
    block
}

/// The views of a list of documents, in order.
pub open spec fn documents_view(documents: Seq<ChapterDocument>) -> Seq<ChapterDocumentView> {
    Seq::new(documents.len(), |at: int| documents[at]@)
}

/// The document that a chapter's page gives: each section is the field that
/// its rule locates in the page.
pub open spec fn spec_format_chapter(page: Seq<char>) -> ChapterDocumentView {
    ChapterDocumentView {
        heading: spec_extract(page, HEADING_RULE@),
        intro: spec_extract(page, INTRO_RULE@),
        body: spec_extract(page, BODY_RULE@),
        outro: spec_extract(page, OUTRO_RULE@),
    }
}

/// The first of the four chapter rules, in the order in which they are
/// applied, that does not parse; nothing where all four parse.
pub open spec fn chapter_rule_fault() -> Option<Seq<char>> {
    if !rule_parses(HEADING_RULE@) {
        Some(HEADING_RULE@)
    } else if !rule_parses(INTRO_RULE@) {
        Some(INTRO_RULE@)
    } else if !rule_parses(BODY_RULE@) {
        Some(BODY_RULE@)
    } else if !rule_parses(OUTRO_RULE@) {
        Some(OUTRO_RULE@)
    } else {
        None
    }
}

/// What formatting a chapter's page must return: the fault of the first rule
/// that does not parse, or else the document of the page.
pub open spec fn format_chapter_returns(
    page: Seq<char>,
    formatted: Result<ChapterDocument, ParseError>,
) -> bool {
    match chapter_rule_fault() {
        Some(rule) => formatted matches Err(error) && error@ == rule,
        None => formatted matches Ok(document) && document@ == spec_format_chapter(page),
    }
}

/// Formats one chapter's page: extracts heading, opening note, text and
/// closing note, each on its own. A section that the page lacks is left out;
/// a page with none of them gives the empty document.
pub fn format_chapter(page: &str) -> (formatted: Result<ChapterDocument, ParseError>)
    ensures
        format_chapter_returns(page@, formatted),
{
    let heading = match extract(page, HEADING_RULE) {
        Ok(field) => field,
        Err(error) => {
            return Err(error);
        },
    };
    let intro = match extract(page, INTRO_RULE) {
        Ok(field) => field,
        Err(error) => {
            return Err(error);
        },
    };
    let body = match extract(page, BODY_RULE) {
        Ok(field) => field,
        Err(error) => {
            return Err(error);
        },
    };
    let outro = match extract(page, OUTRO_RULE) {
        Ok(field) => field,
        Err(error) => {
            return Err(error);
        },
    };
    Ok(ChapterDocument { heading, intro, body, outro })
}

/// What the table of contents gives besides the chapter links: the metadata
/// block, and the preface as a document where there is one.
#[derive(Debug, PartialEq, Eq)]
pub struct FrontMatter {
    pub metadata: String,
    pub preface: Option<ChapterDocument>,
}

/// A `FrontMatter` as mathematical text.
pub struct FrontMatterView {
    pub metadata: Seq<char>,
    pub preface: Option<ChapterDocumentView>,
}

impl View for FrontMatter {
    type V = FrontMatterView;

    open spec fn view(&self) -> FrontMatterView {
        FrontMatterView {
            metadata: self.metadata@,
            preface: match self.preface {
                Some(document) => Some(document@),
                None => None,
            },
        }
    }
}

/// The front matter that the three fields of a table of contents give: the
/// metadata block of title and author, and the preface, where there is one,
/// as a document of its own.
pub open spec fn spec_front_matter(
    title: Option<Seq<char>>,
    author: Option<Seq<char>>,
    preface: Option<Seq<char>>,
) -> FrontMatterView {
    FrontMatterView {
        metadata: spec_metadata_block(title, author),
        preface: match preface {
            Some(text) => Some(spec_preface_document(text)),
            None => None,
        },
    }
}

impl FrontMatter {
    /// Builds the front matter from the fields of a table of contents.
    pub fn new(title: Option<String>, author: Option<String>, preface: Option<String>) -> (front:
        FrontMatter)
        ensures
            front@ == spec_front_matter(title.deep_view(), author.deep_view(), preface.deep_view()),
    {
        let metadata = metadata_block(&title, &author);
        let preface = match preface {
            Some(text) => Some(ChapterDocument::preface(text)),
            None => None,
        };
        FrontMatter { metadata, preface }
    }
}

/// The front matter that a table of contents gives.
pub open spec fn spec_format_frontmatter(toc: Seq<char>) -> FrontMatterView {
    spec_front_matter(
        spec_extract(toc, TITLE_RULE@),
        spec_extract(toc, AUTHOR_RULE@),
        spec_extract(toc, PREFACE_RULE@),
    )
}

/// The first of the three front-matter rules, in the order in which they are
/// applied, that does not parse; nothing where all three parse.
pub open spec fn frontmatter_rule_fault() -> Option<Seq<char>> {
    if !rule_parses(AUTHOR_RULE@) {
        Some(AUTHOR_RULE@)
    } else if !rule_parses(TITLE_RULE@) {
        Some(TITLE_RULE@)
    } else if !rule_parses(PREFACE_RULE@) {
        Some(PREFACE_RULE@)
    } else {
        None
    }
}

/// What formatting a table of contents must return: the fault of the first
/// rule that does not parse, or else the front matter of the page.
pub open spec fn format_frontmatter_returns(
    toc: Seq<char>,
    formatted: Result<FrontMatter, ParseError>,
) -> bool {
    match frontmatter_rule_fault() {
        Some(rule) => formatted matches Err(error) && error@ == rule,
        None => formatted matches Ok(front) && front@ == spec_format_frontmatter(toc),
    }
}

/// Formats the table of contents: extracts author, title and preface, builds
/// the metadata block from the first two, and wraps the preface, where there
/// is one, as a document of its own.
pub fn format_frontmatter(toc: &str) -> (formatted: Result<FrontMatter, ParseError>)
    ensures
        format_frontmatter_returns(toc@, formatted),
{
    let author = match extract(toc, AUTHOR_RULE) {
        Ok(field) => field,
        Err(error) => {
            return Err(error);
        },
    };
    let title = match extract(toc, TITLE_RULE) {
        Ok(field) => field,
        Err(error) => {
            return Err(error);
        },
    };
    let preface = match extract(toc, PREFACE_RULE) {
        Ok(field) => field,
        Err(error) => {
            return Err(error);
        },
    };
    Ok(FrontMatter::new(title, author, preface))
}

} // verus!
