use syosetu_epub::document::{ChapterDocument, FrontMatter};
use syosetu_epub::novel::{
    conversion_succeeded, document_name, metadata_name, output_name, Argument, EpubNovel,
    MarkdownNovel, RawNovel,
};

fn toc(preface: Option<&str>) -> String {
    let preface = match preface {
        Some(text) => format!("<div id=\"novel_ex\">{text}</div>"),
        None => String::new(),
    };
    format!(
        "<div id=\"novel_color\"><p class=\"novel_title\">T</p>\
         <div class=\"novel_writername\"><a>Au</a></div>{preface}</div>"
    )
}

fn chapter(heading: &str, body: &str) -> String {
    format!(
        "<div id=\"novel_color\"><p class=\"novel_subtitle\">{heading}</p>\
         <div id=\"novel_honbun\">{body}</div></div>"
    )
}

fn raw(preface: Option<&str>, chapters: usize) -> RawNovel {
    let pages = (0..chapters)
        .map(|at| chapter(&format!("H{at}"), &format!("B{at}")))
        .collect();
    RawNovel::new("n1234ab".to_string(), toc(preface), pages)
}

#[test]
fn raw_novel_keeps_what_it_was_given() {
    let novel = RawNovel::new(
        "n1".to_string(),
        "toc".to_string(),
        vec!["one".to_string(), "two".to_string()],
    );
    assert_eq!(novel.ncode(), "n1");
    assert_eq!(novel.toc(), "toc");
    assert_eq!(novel.chapter_count(), 2);
    assert_eq!(novel.chapter(0), "one");
    assert_eq!(novel.chapter(1), "two");
}

#[test]
fn file_names_follow_the_convention() {
    assert_eq!(metadata_name("n1234ab"), "n1234ab-metadata");
    assert_eq!(document_name("n1234ab", 0), "n1234ab-0000");
    assert_eq!(document_name("n1234ab", 1), "n1234ab-0001");
    assert_eq!(document_name("n1234ab", 42), "n1234ab-0042");
    assert_eq!(document_name("n1234ab", 9999), "n1234ab-9999");
    assert_eq!(document_name("n1234ab", 10000), "n1234ab-10000");
    assert_eq!(output_name("n1234ab"), "n1234ab.epub");
}

#[test]
fn from_raw_without_preface_numbers_chapters_from_zero() {
    let novel = MarkdownNovel::from_raw(&raw(None, 3)).unwrap();
    assert_eq!(novel.ncode(), "n1234ab");
    assert_eq!(novel.metadata(), "---\ntitle: T\nauthor: Au\nlang: ja-JP\n---\n");
    assert_eq!(novel.metadata_name(), "n1234ab-metadata");
    assert_eq!(novel.document_count(), 3);
    for at in 0..3 {
        assert_eq!(novel.document(at), format!("# H{at}\n\nB{at}\n"));
        assert_eq!(novel.document_name(at), format!("n1234ab-{at:04}"));
    }
}

#[test]
fn from_raw_with_preface_shifts_chapters_by_one() {
    let novel = MarkdownNovel::from_raw(&raw(Some("Once"), 3)).unwrap();
    assert_eq!(novel.document_count(), 4);
    assert_eq!(novel.document(0), "Once\n");
    assert_eq!(novel.document_name(0), "n1234ab-0000");
    for at in 0..3 {
        assert_eq!(novel.document(at + 1), format!("# H{at}\n\nB{at}\n"));
        assert_eq!(novel.document_name(at + 1), format!("n1234ab-{:04}", at + 1));
    }
}

#[test]
fn from_raw_shift_is_the_only_difference_a_preface_makes() {
    let with = MarkdownNovel::from_raw(&raw(Some("Once"), 5)).unwrap();
    let without = MarkdownNovel::from_raw(&raw(None, 5)).unwrap();
    assert_eq!(with.document_count(), without.document_count() + 1);
    assert_eq!(with.metadata(), without.metadata());
    for at in 0..5 {
        assert_eq!(with.document(at + 1), without.document(at));
    }
}

#[test]
fn from_raw_without_chapters() {
    let novel = MarkdownNovel::from_raw(&raw(None, 0)).unwrap();
    assert_eq!(novel.document_count(), 0);
    let novel = MarkdownNovel::from_raw(&raw(Some("Once"), 0)).unwrap();
    assert_eq!(novel.document_count(), 1);
    assert_eq!(novel.document(0), "Once\n");
}

#[test]
fn from_raw_of_empty_pages_gives_empty_documents() {
    let novel = RawNovel::new("n1".to_string(), String::new(), vec![String::new(), String::new()]);
    let formatted = MarkdownNovel::from_raw(&novel).unwrap();
    assert_eq!(formatted.metadata(), "---\nlang: ja-JP\n---\n");
    assert_eq!(formatted.document_count(), 2);
    assert_eq!(formatted.document(0), "");
    assert_eq!(formatted.document(1), "");
}

#[test]
fn from_raw_keeps_the_order_of_the_chapters() {
    let pages = vec![chapter("z", "last letter"), chapter("a", "first letter"), chapter("m", "middle")];
    let novel = RawNovel::new("n1".to_string(), toc(None), pages);
    let formatted = MarkdownNovel::from_raw(&novel).unwrap();
    assert_eq!(formatted.document(0), "# z\n\nlast letter\n");
    assert_eq!(formatted.document(1), "# a\n\nfirst letter\n");
    assert_eq!(formatted.document(2), "# m\n\nmiddle\n");
}

#[test]
fn from_raw_twice_gives_identical_sets() {
    let novel = raw(Some("Once"), 4);
    let first = MarkdownNovel::from_raw(&novel).unwrap();
    let second = MarkdownNovel::from_raw(&novel).unwrap();
    assert_eq!(first, second);
    assert_eq!(first.metadata().as_bytes(), second.metadata().as_bytes());
    for at in 0..first.document_count() {
        assert_eq!(first.document(at).as_bytes(), second.document(at).as_bytes());
        assert_eq!(first.document_name(at), second.document_name(at));
    }
}

fn flag(text: &str) -> Argument {
    Argument::Flag(text.to_string())
}

fn output(name: &str) -> Argument {
    Argument::Output(name.to_string())
}

fn input(name: &str) -> Argument {
    Argument::Input(name.to_string())
}

#[test]
fn from_markdown_lists_metadata_first_then_documents_in_order() {
    let markdown = MarkdownNovel::from_raw(&raw(Some("Once"), 2)).unwrap();
    let epub = EpubNovel::from_markdown(&markdown);
    assert_eq!(epub.ncode(), "n1234ab");
    assert_eq!(epub.output_name(), "n1234ab.epub");
    assert_eq!(
        epub.arguments(),
        &vec![
            flag("-o"),
            output("n1234ab.epub"),
            input("n1234ab-metadata"),
            input("n1234ab-0000"),
            input("n1234ab-0001"),
            input("n1234ab-0002"),
        ]
    );
}

#[test]
fn from_markdown_without_documents() {
    let markdown = MarkdownNovel::from_raw(&raw(None, 0)).unwrap();
    let epub = EpubNovel::from_markdown(&markdown);
    assert_eq!(
        epub.arguments(),
        &vec![flag("-o"), output("n1234ab.epub"), input("n1234ab-metadata")]
    );
}

#[test]
fn from_markdown_orders_by_index_beyond_ten() {
    let markdown = MarkdownNovel::from_raw(&raw(None, 12)).unwrap();
    let epub = EpubNovel::from_markdown(&markdown);
    let arguments = epub.arguments();
    assert_eq!(arguments.len(), 15);
    for at in 0..12 {
        assert_eq!(arguments[3 + at], input(&format!("n1234ab-{at:04}")));
    }
}

#[test]
fn from_markdown_twice_gives_the_same_plan() {
    let markdown = MarkdownNovel::from_raw(&raw(Some("Once"), 3)).unwrap();
    assert_eq!(EpubNovel::from_markdown(&markdown), EpubNovel::from_markdown(&markdown));
}

fn body_only(text: &str) -> ChapterDocument {
    ChapterDocument { heading: None, intro: None, body: Some(text.to_string()), outro: None }
}

#[test]
fn assemble_puts_the_preface_first() {
    let front = FrontMatter::new(Some("T".to_string()), None, Some("Once".to_string()));
    let chapters = vec![body_only("one"), body_only("two")];
    let novel = MarkdownNovel::assemble("n1", front, &chapters);
    assert_eq!(novel.ncode(), "n1");
    assert_eq!(novel.metadata(), "---\ntitle: T\nlang: ja-JP\n---\n");
    assert_eq!(novel.document_count(), 3);
    assert_eq!(novel.document(0), "Once\n");
    assert_eq!(novel.document(1), "one\n");
    assert_eq!(novel.document(2), "two\n");
}

#[test]
fn assemble_without_preface_starts_with_the_first_chapter() {
    let front = FrontMatter::new(None, Some("Au".to_string()), None);
    let chapters = vec![body_only("one"), ChapterDocument::empty(), body_only("three")];
    let novel = MarkdownNovel::assemble("n1", front, &chapters);
    assert_eq!(novel.metadata(), "---\nauthor: Au\nlang: ja-JP\n---\n");
    assert_eq!(novel.document_count(), 3);
    assert_eq!(novel.document(0), "one\n");
    assert_eq!(novel.document(1), "");
    assert_eq!(novel.document(2), "three\n");
}

#[test]
fn assemble_of_nothing() {
    let novel = MarkdownNovel::assemble("n1", FrontMatter::new(None, None, None), &Vec::new());
    assert_eq!(novel.metadata(), "---\nlang: ja-JP\n---\n");
    assert_eq!(novel.document_count(), 0);
    assert_eq!(
        EpubNovel::from_markdown(&novel).arguments(),
        &vec![flag("-o"), output("n1.epub"), input("n1-metadata")]
    );
}

#[test]
fn conversion_succeeds_on_exit_code_zero_with_output() {
    assert!(conversion_succeeded(Some(0), true));
}

#[test]
fn conversion_fails_otherwise() {
    assert!(!conversion_succeeded(Some(0), false));
    assert!(!conversion_succeeded(Some(1), true));
    assert!(!conversion_succeeded(Some(-1), true));
    assert!(!conversion_succeeded(Some(64), false));
    assert!(!conversion_succeeded(None, true));
    assert!(!conversion_succeeded(None, false));
}
