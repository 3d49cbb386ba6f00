//! The three forms that a novel takes on its way to an e-book: the raw pages,
//! the intermediate set of text documents, and the plan of the packaged
//! artifact.
//!
//! Nothing here touches a file. A document is known by its name within a
//! working directory that the caller provides; the directory itself is the
//! caller's.

use crate::document::{
    chapter_rule_fault, documents_view, format_chapter, format_frontmatter,
    frontmatter_rule_fault, spec_format_chapter, spec_format_frontmatter, spec_render,
    ChapterDocument, ChapterDocumentView, FrontMatter, FrontMatterView,
};
use crate::extract::ParseError;
use crate::text::{spec_zero_padded, zero_padded};
use vstd::prelude::*;
use vstd::string::*;

verus! {

/// The number of digits to which a document's index is padded in its name.
pub const INDEX_WIDTH: usize = 4;

/// The pages of one novel as they were fetched: the table of contents and
/// every chapter, in the order of the links in the table of contents.
#[derive(Debug, PartialEq, Eq)]
pub struct RawNovel {
    ncode: String,
    toc: String,
    chapters: Vec<String>,
}

/// A `RawNovel` as mathematical text.
pub struct RawNovelView {
    pub ncode: Seq<char>,
    pub toc: Seq<char>,
    pub chapters: Seq<Seq<char>>,
}

impl View for RawNovel {
    type V = RawNovelView;

    closed spec fn view(&self) -> RawNovelView {
        RawNovelView {
            ncode: self.ncode@,
            toc: self.toc@,
            chapters: self.chapters.deep_view(),
        }
    }
}

impl RawNovel {
    /// Puts the pages of a novel together.
    pub fn new(ncode: String, toc: String, chapters: Vec<String>) -> (novel: RawNovel)
        ensures
            novel@ == (RawNovelView {
                ncode: ncode@,
                toc: toc@,
                chapters: chapters.deep_view(),
            }),
    {
        RawNovel { ncode, toc, chapters }
    }

    /// The identifier of the novel.
    pub fn ncode(&self) -> (ncode: &str)
        ensures
            ncode@ == self@.ncode,
    {
        self.ncode.as_str()
    }

    /// The page of the table of contents.
    pub fn toc(&self) -> (toc: &str)
        ensures
            toc@ == self@.toc,
    {
        self.toc.as_str()
    }

    /// The number of chapters.
    pub fn chapter_count(&self) -> (count: usize)
        ensures
            count == self@.chapters.len(),
    {
        self.chapters.len()
    }

    /// The page of the chapter at `index`, counted from zero.
    pub fn chapter(&self, index: usize) -> (page: &str)
        requires
            index < self@.chapters.len(),
        ensures
            page@ == self@.chapters[index as int],
    {
        self.chapters[index].as_str()
    }
}

/// The name of the file that holds the metadata block of the novel `ncode`.
pub open spec fn spec_metadata_name(ncode: Seq<char>) -> Seq<char> {
    ncode + "-metadata"@
}

/// The name of the file that holds the document at `index` of the novel
/// `ncode`: the identifier, a hyphen, and the index in four digits or more.
pub open spec fn spec_document_name(ncode: Seq<char>, index: nat) -> Seq<char> {
    ncode + "-"@ + spec_zero_padded(index, INDEX_WIDTH as nat)
}

/// The name of the file that the converter is to produce for the novel
/// `ncode`.
pub open spec fn spec_output_name(ncode: Seq<char>) -> Seq<char> {
    ncode + ".epub"@
}

/// Builds the name of the metadata file of the novel `ncode`.
pub fn metadata_name(ncode: &str) -> (name: String)
    ensures
        name@ == spec_metadata_name(ncode@),
{
    let mut name = String::from_str(ncode);
    name.append("-metadata");
    name
}

/// Builds the name of the file for the document at `index` of the novel
/// `ncode`.
pub fn document_name(ncode: &str, index: usize) -> (name: String)
    ensures
        name@ == spec_document_name(ncode@, index as nat),
{
    let mut name = String::from_str(ncode);
    name.append("-");
    let number = zero_padded(index, INDEX_WIDTH);
    name.append(number.as_str());
    name
}

/// Builds the name of the file that the converter is to produce for the
/// novel `ncode`.
pub fn output_name(ncode: &str) -> (name: String)
    ensures
        name@ == spec_output_name(ncode@),
{
    let mut name = String::from_str(ncode);
    name.append(".epub");
    name
}

/// The intermediate set of one novel: the text of the metadata file and of
/// every document file, the documents in their final order. The preface,
/// where the novel has one, is the first document; the chapters follow in
/// the order of the table of contents.
#[derive(Debug, PartialEq, Eq)]
pub struct MarkdownNovel {
    ncode: String,
    metadata: String,
    documents: Vec<String>,
}

/// A `MarkdownNovel` as mathematical text.
pub struct MarkdownNovelView {
    pub ncode: Seq<char>,
    pub metadata: Seq<char>,
    pub documents: Seq<Seq<char>>,
}

impl View for MarkdownNovel {
    type V = MarkdownNovelView;

    closed spec fn view(&self) -> MarkdownNovelView {
        MarkdownNovelView {
            ncode: self.ncode@,
            metadata: self.metadata@,
            documents: self.documents.deep_view(),
        }
    }
}

/// The documents that come before the first chapter: the rendered preface,
/// where there is one, and nothing otherwise.
pub open spec fn spec_leading_documents(preface: Option<ChapterDocumentView>) -> Seq<Seq<char>> {
    match preface {
        Some(document) => seq![spec_render(document)],
        None => Seq::empty(),
    }
}

/// The rendered text of each document, in the order of the documents.
pub open spec fn spec_rendered(documents: Seq<ChapterDocumentView>) -> Seq<Seq<char>> {
    Seq::new(documents.len(), |at: int| spec_render(documents[at]))
}

/// The intermediate set that the front matter and the chapters' documents
/// make: the preface, where there is one, comes first, and the chapters
/// follow in their order.
pub open spec fn spec_assemble(
    ncode: Seq<char>,
    front: FrontMatterView,
    chapters: Seq<ChapterDocumentView>,
) -> MarkdownNovelView {
    MarkdownNovelView {
        ncode,
        metadata: front.metadata,
        documents: spec_leading_documents(front.preface) + spec_rendered(chapters),
    }
}

/// The documents of the chapters' pages, one for each page, in the order of
/// the pages.
pub open spec fn spec_format_chapters(pages: Seq<Seq<char>>) -> Seq<ChapterDocumentView> {
    Seq::new(pages.len(), |at: int| spec_format_chapter(pages[at]))
}

/// The intermediate set of a raw novel.
pub open spec fn spec_from_raw(raw: RawNovelView) -> MarkdownNovelView {
    spec_assemble(raw.ncode, spec_format_frontmatter(raw.toc), spec_format_chapters(raw.chapters))
}

/// The first rule that formatting a raw novel finds not to parse: one of the
/// front-matter rules, or else, where the novel has a chapter at all, one of
/// the chapter rules.
pub open spec fn from_raw_fault(raw: RawNovelView) -> Option<Seq<char>> {
    if frontmatter_rule_fault() is Some {
        frontmatter_rule_fault()
    } else if raw.chapters.len() > 0 {
        chapter_rule_fault()
    } else {
        None
    }
}

/// What formatting a raw novel must return: the fault of the first rule that
/// does not parse, or else the intermediate set of the novel.
pub open spec fn from_raw_returns(
    raw: RawNovelView,
    formatted: Result<MarkdownNovel, ParseError>,
) -> bool {
    match from_raw_fault(raw) {
        Some(rule) => formatted matches Err(error) && error@ == rule,
        None => formatted matches Ok(novel) && novel@ == spec_from_raw(raw),
    }
}

impl MarkdownNovel {
    /// Puts an intermediate set together from the front matter and the
    /// documents of the chapters. The preface, where the front matter has
    /// one, becomes the first document; the chapters follow in their order.
    pub fn assemble(ncode: &str, front: FrontMatter, chapters: &Vec<ChapterDocument>) -> (novel:
        MarkdownNovel)
        ensures
            novel@ == spec_assemble(ncode@, front@, documents_view(chapters@)),
    {
        let mut documents: Vec<String> = Vec::new();
        if let Some(preface) = &front.preface {
            documents.push(preface.render());
        }
        let ghost leading = spec_leading_documents(front@.preface);
        let ghost all = documents_view(chapters@);
        assert(documents.deep_view() == leading);
        let mut at: usize = 0;
        while at < chapters.len()
            invariant
                at <= chapters.len(),
                all == documents_view(chapters@),
                documents.deep_view() == leading + spec_rendered(all.take(at as int)),
            decreases chapters.len() - at,
        {
            let ghost before = documents.deep_view();
            let text = chapters[at].render();
            documents.push(text);
            proof {
                assert(documents.deep_view() == before.push(text@));
                assert(spec_rendered(all.take(at + 1)) == spec_rendered(all.take(at as int)).push(
                    text@,
                ));
            }
            at = at + 1;
        }
        assert(all.take(at as int) == all);
        MarkdownNovel { ncode: ncode.to_owned(), metadata: front.metadata, documents }
    }

    /// Formats a raw novel: the table of contents gives the metadata block
    /// and, where it has a preface, the first document; every chapter gives
    /// one document more, in the order of the chapters.
    pub fn from_raw(raw_novel: &RawNovel) -> (formatted: Result<MarkdownNovel, ParseError>)
        ensures
            from_raw_returns(raw_novel@, formatted),
    {
        let front = match format_frontmatter(raw_novel.toc()) {
            Ok(front) => front,
            Err(error) => {
                return Err(error);
            },
        };
        let ghost pages = raw_novel@.chapters;
        let mut chapters: Vec<ChapterDocument> = Vec::new();
        let count = raw_novel.chapter_count();
        let mut at: usize = 0;
        assert(documents_view(chapters@) == spec_format_chapters(pages.take(0)));
        while at < count
            invariant
                at <= count,
                count == pages.len(),
                pages == raw_novel@.chapters,
                frontmatter_rule_fault() is None,
                at > 0 ==> chapter_rule_fault() is None,
                documents_view(chapters@) == spec_format_chapters(pages.take(at as int)),
            decreases count - at,
        {
            let ghost before = documents_view(chapters@);
            let document = match format_chapter(raw_novel.chapter(at)) {
                Ok(document) => document,
                Err(error) => {
                    return Err(error);
                },
            };
            chapters.push(document);
            proof {
                assert(documents_view(chapters@) == before.push(document@));
                assert(spec_format_chapters(pages.take(at + 1)) == spec_format_chapters(
                    pages.take(at as int),
                ).push(document@));
            }
            at = at + 1;
        }
        assert(pages.take(at as int) == pages);
        Ok(MarkdownNovel::assemble(raw_novel.ncode(), front, &chapters))
    }

    /// The identifier of the novel.
    pub fn ncode(&self) -> (ncode: &str)
        ensures
            ncode@ == self@.ncode,
    {
        self.ncode.as_str()
    }

    /// The text of the metadata file.
    pub fn metadata(&self) -> (metadata: &str)
        ensures
            metadata@ == self@.metadata,
    {
        self.metadata.as_str()
    }

    /// The name of the metadata file.
    pub fn metadata_name(&self) -> (name: String)
        ensures
            name@ == spec_metadata_name(self@.ncode),
    {
        metadata_name(self.ncode.as_str())
    }

    /// The number of document files.
    pub fn document_count(&self) -> (count: usize)
        ensures
            count == self@.documents.len(),
    {
        self.documents.len()
    }

    /// The text of the document file at `index`, counted from zero.
    pub fn document(&self, index: usize) -> (text: &str)
        requires
            index < self@.documents.len(),
        ensures
            text@ == self@.documents[index as int],
    {
        self.documents[index].as_str()
    }

    /// The name of the document file at `index`, counted from zero.
    pub fn document_name(&self, index: usize) -> (name: String)
        ensures
            name@ == spec_document_name(self@.ncode, index as nat),
    {
        document_name(self.ncode.as_str(), index)
    }
}

/// One argument of the converter's invocation. A file is named within the
/// working directory it belongs to; whoever runs the converter puts the
/// directory in front.
#[derive(Debug, PartialEq, Eq)]
pub enum Argument {
    /// An option of the converter, passed as it is written.
    Flag(String),
    /// The file to produce, in the artifact's working directory.
    Output(String),
    /// A file to read, in the working directory of the intermediate set.
    Input(String),
}

/// An `Argument` as mathematical text.
pub enum ArgumentView {
    Flag(Seq<char>),
    Output(Seq<char>),
    Input(Seq<char>),
}

impl View for Argument {
    type V = ArgumentView;

    open spec fn view(&self) -> ArgumentView {
        match self {
            Argument::Flag(text) => ArgumentView::Flag(text@),
            Argument::Output(name) => ArgumentView::Output(name@),
            Argument::Input(name) => ArgumentView::Input(name@),
        }
    }
}

/// The views of a list of arguments, in order.
pub open spec fn arguments_view(arguments: Seq<Argument>) -> Seq<ArgumentView> {
    Seq::new(arguments.len(), |at: int| arguments[at]@)
}

/// The arguments that ask the converter to write the output file: the
/// option `-o` and the file's name.
pub open spec fn spec_output_arguments(ncode: Seq<char>) -> Seq<ArgumentView> {
    seq![ArgumentView::Flag("-o"@), ArgumentView::Output(spec_output_name(ncode))]
}

/// The arguments that name what the converter reads: the metadata file
/// first, then the `count` document files by ascending index.
pub open spec fn spec_input_arguments(ncode: Seq<char>, count: nat) -> Seq<ArgumentView> {
    seq![ArgumentView::Input(spec_metadata_name(ncode))] + Seq::new(
        count,
        |at: int| ArgumentView::Input(spec_document_name(ncode, at as nat)),
    )
}

/// The whole invocation for an intermediate set: first where to write, then
/// what to read.
pub open spec fn spec_arguments(novel: MarkdownNovelView) -> Seq<ArgumentView> {
    spec_output_arguments(novel.ncode) + spec_input_arguments(novel.ncode, novel.documents.len())
}

/// The plan of the packaged artifact of one novel: the name of the file that
/// the converter is to produce, and the arguments to invoke it with.
#[derive(Debug, PartialEq, Eq)]
pub struct EpubNovel {
    ncode: String,
    output_name: String,
    arguments: Vec<Argument>,
}

/// An `EpubNovel` as mathematical text.
pub struct EpubNovelView {
    pub ncode: Seq<char>,
    pub output_name: Seq<char>,
    pub arguments: Seq<ArgumentView>,
}

impl View for EpubNovel {
    type V = EpubNovelView;

    closed spec fn view(&self) -> EpubNovelView {
        EpubNovelView {
            ncode: self.ncode@,
            output_name: self.output_name@,
            arguments: arguments_view(self.arguments@),
        }
    }
}

/// The plan for packaging an intermediate set.
pub open spec fn spec_from_markdown(novel: MarkdownNovelView) -> EpubNovelView {
    EpubNovelView {
        ncode: novel.ncode,
        output_name: spec_output_name(novel.ncode),
        arguments: spec_arguments(novel),
    }
}

impl EpubNovel {
    /// Plans the packaging of an intermediate set: names the output file and
    /// lists the converter's arguments, the metadata file before every
    /// document and the documents in the order of the set.
    pub fn from_markdown(markdown_novel: &MarkdownNovel) -> (planned: EpubNovel)
        ensures
            planned@ == spec_from_markdown(markdown_novel@),
    {
        let ncode = markdown_novel.ncode();
        let mut arguments: Vec<Argument> = Vec::new();
        arguments.push(Argument::Flag(String::from_str("-o")));
        arguments.push(Argument::Output(output_name(ncode)));
        arguments.push(Argument::Input(metadata_name(ncode)));
        let ghost fixed = spec_output_arguments(ncode@) + seq![
            ArgumentView::Input(spec_metadata_name(ncode@)),
        ];
        assert(arguments_view(arguments@) == fixed);
        let count = markdown_novel.document_count();
        let mut at: usize = 0;
        while at < count
            invariant
                at <= count,
                ncode@ == markdown_novel@.ncode,
                arguments@.len() == 3 + at,
                arguments_view(arguments@) == fixed + Seq::new(
                    at as nat,
                    |index: int| ArgumentView::Input(spec_document_name(ncode@, index as nat)),
                ),
            decreases count - at,
        {
            let ghost before = arguments_view(arguments@);
            let argument = Argument::Input(document_name(ncode, at));
            arguments.push(argument);
            assert(arguments_view(arguments@) == before.push(argument@));
            at = at + 1;
        }
        assert(arguments_view(arguments@) == spec_arguments(markdown_novel@));
        EpubNovel { ncode: ncode.to_owned(), output_name: output_name(ncode), arguments }
    }

    /// The identifier of the novel.
    pub fn ncode(&self) -> (ncode: &str)
        ensures
            ncode@ == self@.ncode,
    {
        self.ncode.as_str()
    }

    /// The name of the file that the converter is to produce.
    pub fn output_name(&self) -> (name: &str)
        ensures
            name@ == self@.output_name,
    {
        self.output_name.as_str()
    }

    /// The arguments of the converter's invocation, in order.
    pub fn arguments(&self) -> (arguments: &Vec<Argument>)
        ensures
            arguments_view(arguments@) == self@.arguments,
    {
        &self.arguments
    }
}

/// Tests whether a run of the converter counts as a success: it ended with
/// exit code zero and the output file is there. A run that ended without an
/// exit code did not succeed.
pub fn conversion_succeeded(exit_code: Option<i32>, output_exists: bool) -> (succeeded: bool)
    ensures
        succeeded == (exit_code == Some(0i32) && output_exists),
{
    match exit_code {
        Some(code) => code == 0 && output_exists,
        None => false,
    }
}

/// Formatting is determined by the raw novel: two results of formatting one
/// novel are the same, down to every character of every file, or fail on the
/// same rule.
pub proof fn lemma_formatting_is_deterministic(
    raw: RawNovelView,
    first: Result<MarkdownNovel, ParseError>,
    second: Result<MarkdownNovel, ParseError>,
)
    requires
        from_raw_returns(raw, first),
        from_raw_returns(raw, second),
    ensures
        first matches Ok(a) ==> second matches Ok(b) && a@ == b@,
        first matches Err(a) ==> second matches Err(b) && a@ == b@,
{
}

/// The number of documents that stand before the first chapter: one where
/// there is a preface, none otherwise.
pub open spec fn spec_chapter_offset(preface: Option<ChapterDocumentView>) -> nat {
    if preface is Some {
        1
    } else {
        0
    }
}

/// A preface shifts every chapter by exactly one position, and without one
/// the chapters are numbered from zero: the set holds one document for each
/// chapter and the offset more, the chapter at `index` is the document at
/// `index` plus the offset, the converter reads it under the name of that
/// position, and the preface, where there is one, is document zero.
pub proof fn lemma_preface_shifts_chapters(
    ncode: Seq<char>,
    front: FrontMatterView,
    chapters: Seq<ChapterDocumentView>,
)
    ensures
        ({
            let novel = spec_assemble(ncode, front, chapters);
            let offset = spec_chapter_offset(front.preface);
            &&& novel.documents.len() == chapters.len() + offset
            &&& forall|index: int|
                0 <= index < chapters.len() ==> {
                    &&& novel.documents[index + offset] == spec_render(#[trigger] chapters[index])
                    &&& spec_arguments(novel)[3 + index + offset] == ArgumentView::Input(
                        spec_document_name(ncode, (index + offset) as nat),
                    )
                }
            &&& front.preface matches Some(preface) ==> novel.documents[0] == spec_render(preface)
        }),
{
}

/// The converter reads the metadata file first and then the documents by
/// ascending index: after the two arguments that say where to write, the
/// next names the metadata file and the one at `index` after it names
/// document `index`. No argument stands beyond these.
pub proof fn lemma_arguments_in_order(novel: MarkdownNovelView)
    ensures
        spec_arguments(novel).len() == 3 + novel.documents.len(),
        spec_arguments(novel)[0] == ArgumentView::Flag("-o"@),
        spec_arguments(novel)[1] == ArgumentView::Output(spec_output_name(novel.ncode)),
        spec_arguments(novel)[2] == ArgumentView::Input(spec_metadata_name(novel.ncode)),
        forall|index: int|
            0 <= index < novel.documents.len() ==> #[trigger] spec_arguments(novel)[3 + index]
                == ArgumentView::Input(spec_document_name(novel.ncode, index as nat)),
{
}

} // verus!
