use syosetu_epub::fetch::{
    chapter_links, chapter_url, toc_url, valid_identifier, ChapterFetch, FetchNext, Progress,
    BASE_URL, USER_AGENT,
};

fn toc_with_links(paths: &[&str]) -> String {
    let links: String = paths
        .iter()
        .map(|path| format!("<dd class=\"subtitle\"><a href=\"{path}\">chapter</a></dd>"))
        .collect();
    format!(
        "<div id=\"novel_color\"><p class=\"novel_title\">T</p></div>\
         <div class=\"index_box\"><dl class=\"novel_sublist2\">{links}</dl></div>"
    )
}

#[test]
fn addresses_are_built_on_the_site() {
    assert_eq!(BASE_URL, "https://ncode.syosetu.com");
    assert_eq!(toc_url("n1234ab"), "https://ncode.syosetu.com/n1234ab/");
    assert_eq!(chapter_url("/n1234ab/1/"), "https://ncode.syosetu.com/n1234ab/1/");
    assert_eq!(chapter_url(""), "https://ncode.syosetu.com");
}

#[test]
fn requests_name_a_browser() {
    assert_eq!(USER_AGENT, "Mozilla/5.0");
}

#[test]
fn identifiers_are_letters_and_digits() {
    assert!(valid_identifier("n1234ab"));
    assert!(valid_identifier("N9669BK"));
    assert!(valid_identifier("a"));
    assert!(valid_identifier("0"));
    assert!(valid_identifier("azAZ09"));
}

#[test]
fn identifiers_are_not_empty() {
    assert!(!valid_identifier(""));
}

#[test]
fn identifiers_hold_nothing_else() {
    assert!(!valid_identifier("n1234/ab"));
    assert!(!valid_identifier("n1234 ab"));
    assert!(!valid_identifier(" n1234ab"));
    assert!(!valid_identifier("n1234ab\n"));
    assert!(!valid_identifier("n-1"));
    assert!(!valid_identifier("n_1"));
    assert!(!valid_identifier("../x"));
    assert!(!valid_identifier("ｎ１"));
    assert!(!valid_identifier("é"));
    assert!(!valid_identifier("`"));
    assert!(!valid_identifier("{"));
    assert!(!valid_identifier("@"));
    assert!(!valid_identifier("["));
    assert!(!valid_identifier("/"));
    assert!(!valid_identifier(":"));
}

#[test]
fn chapter_links_come_in_the_order_of_the_markup() {
    let toc = toc_with_links(&["/n1/3/", "/n1/1/", "/n1/2/"]);
    assert_eq!(
        chapter_links(&toc),
        Ok(vec!["/n1/3/".to_string(), "/n1/1/".to_string(), "/n1/2/".to_string()])
    );
}

#[test]
fn chapter_links_of_a_page_without_any() {
    assert_eq!(chapter_links(""), Ok(Vec::new()));
    assert_eq!(chapter_links(&toc_with_links(&[])), Ok(Vec::new()));
    assert_eq!(chapter_links("<a href=\"/elsewhere\">x</a>"), Ok(Vec::new()));
}

#[test]
fn fetch_asks_for_every_chapter_in_order() {
    let toc = toc_with_links(&["/n1/1/", "/n1/2/", "/n1/3/"]);
    let step = ChapterFetch::begin("n1", toc.clone()).unwrap();
    assert_eq!(step.progress, Progress::Length(3));
    let mut next = step.next;
    let mut asked = Vec::new();
    let mut advanced = 0;
    let novel = loop {
        match next {
            FetchNext::Request { fetch, url } => {
                assert_eq!(fetch.total(), 3);
                assert_eq!(fetch.fetched(), asked.len());
                let page = format!("page of {url}");
                asked.push(url);
                let step = fetch.receive(page);
                assert_eq!(step.progress, Progress::Advance(1));
                advanced += 1;
                next = step.next;
            }
            FetchNext::Finished { novel } => break novel,
        }
    };
    assert_eq!(
        asked,
        vec![
            "https://ncode.syosetu.com/n1/1/",
            "https://ncode.syosetu.com/n1/2/",
            "https://ncode.syosetu.com/n1/3/",
        ]
    );
    assert_eq!(advanced, 3);
    assert_eq!(novel.ncode(), "n1");
    assert_eq!(novel.toc(), toc);
    assert_eq!(novel.chapter_count(), 3);
    assert_eq!(novel.chapter(0), "page of https://ncode.syosetu.com/n1/1/");
    assert_eq!(novel.chapter(1), "page of https://ncode.syosetu.com/n1/2/");
    assert_eq!(novel.chapter(2), "page of https://ncode.syosetu.com/n1/3/");
}

#[test]
fn fetch_gives_as_many_chapters_as_links() {
    for count in [0usize, 1, 2, 7, 25] {
        let paths: Vec<String> = (0..count).map(|at| format!("/n1/{}/", at + 1)).collect();
        let borrowed: Vec<&str> = paths.iter().map(|path| path.as_str()).collect();
        let step = ChapterFetch::begin("n1", toc_with_links(&borrowed)).unwrap();
        assert_eq!(step.progress, Progress::Length(count as u64));
        let mut next = step.next;
        let mut steps = 0;
        let novel = loop {
            match next {
                FetchNext::Request { fetch, url } => {
                    assert_eq!(url, format!("https://ncode.syosetu.com{}", paths[steps]));
                    next = fetch.receive(format!("{steps}")).next;
                    steps += 1;
                }
                FetchNext::Finished { novel } => break novel,
            }
        };
        assert_eq!(steps, count);
        assert_eq!(novel.chapter_count(), count);
        for at in 0..count {
            assert_eq!(novel.chapter(at), format!("{at}"));
        }
    }
}

#[test]
fn fetch_without_chapters_is_finished_at_once() {
    let step = ChapterFetch::begin("n1", "<p>nothing</p>".to_string()).unwrap();
    assert_eq!(step.progress, Progress::Length(0));
    match step.next {
        FetchNext::Finished { novel } => {
            assert_eq!(novel.ncode(), "n1");
            assert_eq!(novel.toc(), "<p>nothing</p>");
            assert_eq!(novel.chapter_count(), 0);
        }
        FetchNext::Request { .. } => panic!("nothing to ask for"),
    }
}

#[test]
fn fetch_keeps_a_link_that_occurs_twice() {
    let toc = toc_with_links(&["/n1/1/", "/n1/1/"]);
    let step = ChapterFetch::begin("n1", toc).unwrap();
    assert_eq!(step.progress, Progress::Length(2));
}

#[test]
fn start_asks_for_the_first_link() {
    let links = vec!["/b/".to_string(), "/a/".to_string()];
    let step = ChapterFetch::start("n1", "toc".to_string(), links);
    assert_eq!(step.progress, Progress::Length(2));
    let fetch = match step.next {
        FetchNext::Request { fetch, url } => {
            assert_eq!(url, "https://ncode.syosetu.com/b/");
            assert_eq!(fetch.total(), 2);
            assert_eq!(fetch.fetched(), 0);
            fetch
        }
        FetchNext::Finished { .. } => panic!("two chapters are missing"),
    };
    let step = fetch.receive("first".to_string());
    assert_eq!(step.progress, Progress::Advance(1));
    let fetch = match step.next {
        FetchNext::Request { fetch, url } => {
            assert_eq!(url, "https://ncode.syosetu.com/a/");
            assert_eq!(fetch.fetched(), 1);
            fetch
        }
        FetchNext::Finished { .. } => panic!("one chapter is missing"),
    };
    match fetch.receive("second".to_string()).next {
        FetchNext::Finished { novel } => {
            assert_eq!(novel.ncode(), "n1");
            assert_eq!(novel.toc(), "toc");
            assert_eq!(novel.chapter_count(), 2);
            assert_eq!(novel.chapter(0), "first");
            assert_eq!(novel.chapter(1), "second");
        }
        FetchNext::Request { .. } => panic!("nothing is missing"),
    }
}

#[test]
fn start_without_links_is_finished() {
    let step = ChapterFetch::start("n1", "toc".to_string(), Vec::new());
    assert_eq!(step.progress, Progress::Length(0));
    assert!(matches!(step.next, FetchNext::Finished { .. }));
}
