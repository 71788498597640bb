use docsearch::{build_response, extractor_for, get_paragraphs, is_valid, search_file};
use docsearch::{DocFormat, Pattern, SearchError};

#[test]
fn test_ignores_txt_files() {
    assert!(!is_valid("ignore.txt"));
}

#[test]
fn test_accepts_odt_files() {
    assert!(is_valid("sample.odt"));
}

#[test]
fn test_search_finds_pattern() {
    let reg = Pattern::new("hello world").unwrap();
    let text = String::from("hello world");
    assert!(search_file("sample.odt", Ok(text), &reg, &1).is_ok());
}

#[test]
fn test_search_rejects_missing_pattern() {
    let reg = Pattern::new("nonexistent gibberish").unwrap();
    let text = String::from("hello world");
    assert!(!search_file("sample.odt", Ok(text), &reg, &1).is_ok());
}

#[test]
fn test_get_paragraphs() {
    let content = "the cat sat\na dog ran\nthe cat returned";
    let reg = Pattern::new("cat").unwrap();
    let result = get_paragraphs(content, &reg);
    assert_eq!(result.len(), 2);
    assert_eq!(result[0].0, 0);
    assert_eq!(result[1].0, 2);
}

#[test]
fn test_build_response_verbosity_1() {
    let path = "/test/file.odt";
    let content = "the cat sat\na dog ran";
    let reg = Pattern::new("cat").unwrap();
    let result = build_response(path, content, &reg, &1);
    assert_eq!(result, "/test/file.odt");
}

#[test]
fn test_build_response_verbosity_2() {
    let path = "/test/file.odt";
    let content = "the cat sat\na dog ran\nthe cat returned";
    let reg = Pattern::new("cat").unwrap();
    let result = build_response(path, content, &reg, &2);
    assert_eq!(result, "/test/file.odt (0, 2)");
}

#[test]
fn test_regex_character_class() {
    let content = "the cat sat\na dog ran\nthe bat returned";
    let reg = Pattern::new("[cb]at").unwrap();
    let result = get_paragraphs(content, &reg);
    assert_eq!(result.len(), 2);
    assert_eq!(result[0].1, "the cat sat");
    assert_eq!(result[1].1, "the bat returned");
}

#[test]
fn test_regex_wildcard() {
    let content = "hello world\nhello there\ngoodbye world";
    let reg = Pattern::new("hello.*world").unwrap();
    let result = get_paragraphs(content, &reg);
    assert_eq!(result.len(), 1);
    assert_eq!(result[0].0, 0);
}

#[test]
fn test_regex_start_of_line() {
    let content = "cat is here\nthe cat sat\ncat returns";
    let reg = Pattern::with_options("^cat", true, false).unwrap();
    let result = get_paragraphs(content, &reg);
    assert_eq!(result.len(), 2);
    assert_eq!(result[0].0, 0);
    assert_eq!(result[1].0, 2);
}

#[test]
fn test_regex_end_of_line() {
    let content = "I saw a cat\nthe dog ran\nhere is a cat";
    let reg = Pattern::with_options("cat$", true, false).unwrap();
    let result = get_paragraphs(content, &reg);
    assert_eq!(result.len(), 2);
    assert_eq!(result[0].0, 0);
    assert_eq!(result[1].0, 2);
}

#[test]
fn test_regex_case_insensitive() {
    let content = "Hello World\nhello world\nHELLO WORLD";
    let reg = Pattern::with_options("hello world", false, true).unwrap();
    let result = get_paragraphs(content, &reg);
    assert_eq!(result.len(), 3);
}

#[test]
fn test_regex_digit_matching() {
    let content = "item 1\nno number here\nitem 42\nstill nothing";
    let reg = Pattern::new(r"\d+").unwrap();
    let result = get_paragraphs(content, &reg);
    assert_eq!(result.len(), 2);
    assert_eq!(result[0].0, 0);
    assert_eq!(result[1].0, 2);
}

#[test]
fn test_plain_string_still_works() {
    let content = "hello world\ngoodbye world\nhello again";
    let reg = Pattern::new("hello").unwrap();
    let result = get_paragraphs(content, &reg);
    assert_eq!(result.len(), 2);
    assert_eq!(result[0].0, 0);
    assert_eq!(result[1].0, 2);
}

#[test]
fn test_regex_no_match() {
    let content = "hello world\ngoodbye world";
    let reg = Pattern::new(r"^\d{3}-\d{4}$").unwrap();
    let result = get_paragraphs(content, &reg);
    assert_eq!(result.len(), 0);
}

#[test]
fn paragraphs_come_in_increasing_order_and_match() {
    let content = "x1\nno\nx2\nx3\n\nx4";
    let reg = Pattern::new("x").unwrap();
    let result = get_paragraphs(content, &reg);
    let idx: Vec<usize> = result.iter().map(|e| e.0).collect();
    assert_eq!(idx, vec![0, 2, 3, 5]);
    assert_eq!(result[3].1, "x4");
    for w in idx.windows(2) {
        assert!(w[0] < w[1]);
    }
}

#[test]
fn empty_text_has_one_empty_paragraph() {
    let reg = Pattern::with_options("^$", true, false).unwrap();
    let result = get_paragraphs("", &reg);
    assert_eq!(result, vec![(0, String::new())]);
}

#[test]
fn trailing_line_break_gives_empty_last_paragraph() {
    let reg = Pattern::new("^$").unwrap();
    let result = get_paragraphs("a\n", &reg);
    assert_eq!(result, vec![(1, String::new())]);
}

#[test]
fn verbosity_one_ignores_text_and_pattern() {
    let reg = Pattern::new("zzz").unwrap();
    assert_eq!(build_response("docs/x.docx", "nothing here", &reg, &1), "docs/x.docx");
    assert_eq!(build_response("", "", &reg, &1), "");
}

#[test]
fn verbosity_three_lists_lines() {
    let reg = Pattern::new("cat").unwrap();
    let content = "the cat sat\na dog ran\nthe cat returned";
    let result = build_response("/test/file.odt", content, &reg, &3);
    assert_eq!(result, "/test/file.odt\n  0: the cat sat\n  2: the cat returned");
}

#[test]
fn other_verbosity_is_detailed() {
    let reg = Pattern::new("dog").unwrap();
    let content = "the cat sat\na dog ran";
    assert_eq!(build_response("p", content, &reg, &0), "p\n  1: a dog ran");
    assert_eq!(build_response("p", content, &reg, &-7), "p\n  1: a dog ran");
}

#[test]
fn multi_digit_positions() {
    let mut content = String::new();
    for i in 0..13 {
        if i > 0 {
            content.push('\n');
        }
        content.push_str(if i == 3 || i == 12 { "hit" } else { "miss" });
    }
    let reg = Pattern::new("hit").unwrap();
    assert_eq!(build_response("f.doc", &content, &reg, &2), "f.doc (3, 12)");
    assert_eq!(build_response("f.doc", &content, &reg, &3), "f.doc\n  3: hit\n  12: hit");
}

#[test]
fn whole_text_match_without_paragraph_match() {
    let reg = Pattern::new("cat\ndog").unwrap();
    let text = String::from("a cat\ndog b");
    let r = search_file("f.odt", Ok(text), &reg, &2);
    assert_eq!(r.ok().unwrap(), "f.odt ()");
    let text = String::from("a cat\ndog b");
    let r = search_file("f.odt", Ok(text), &reg, &3);
    assert_eq!(r.ok().unwrap(), "f.odt\n");
}

#[test]
fn suffixes_are_recognized_case_sensitively() {
    assert!(is_valid("a.odt"));
    assert!(is_valid("b.doc"));
    assert!(is_valid("c.docx"));
    assert!(!is_valid("c.txt"));
    assert!(!is_valid("d.pdf"));
    assert!(!is_valid("E.ODT"));
    assert!(!is_valid("f.Docx"));
    assert!(!is_valid("odt"));
    assert!(!is_valid("g.docxx"));
    assert!(!is_valid(""));
}

#[test]
fn formats_by_suffix() {
    assert_eq!(extractor_for("a.odt"), DocFormat::Odt);
    assert_eq!(extractor_for("dir/b.doc"), DocFormat::Doc);
    assert_eq!(extractor_for("c.docx"), DocFormat::Docx);
    assert_eq!(extractor_for("c.txt"), DocFormat::Unrecognized);
    assert_eq!(extractor_for("c.DOC"), DocFormat::Unrecognized);
}

#[test]
fn only_matching_documents_are_reported() {
    let reg = Pattern::with_options("hello world", true, false).unwrap();
    let files = [("a.odt", "hello world"), ("b.docx", "goodbye"), ("c.txt", "hello world")];
    let mut out: Vec<String> = Vec::new();
    for (name, text) in files.iter() {
        if !is_valid(name) {
            continue;
        }
        if let Ok(line) = search_file(name, Ok(text.to_string()), &reg, &1) {
            out.push(line);
        }
    }
    assert_eq!(out, vec![String::from("a.odt")]);
}

#[test]
fn extraction_failure_is_skipped() {
    let reg = Pattern::new("").unwrap();
    let r = search_file("broken.docx", Err(String::from("corrupt")), &reg, &1);
    match r {
        Err(SearchError::Extraction(m)) => assert_eq!(m, "corrupt"),
        _ => panic!("expected an extraction failure"),
    }
}

#[test]
fn no_match_is_reported_as_such() {
    let reg = Pattern::new("absent").unwrap();
    let r = search_file("a.odt", Ok(String::from("present")), &reg, &2);
    assert!(matches!(r, Err(SearchError::NoMatch)));
}

#[test]
fn invalid_pattern_is_rejected() {
    let r = Pattern::new("(unclosed");
    assert!(r.is_err());
    assert!(!r.err().unwrap().message.is_empty());
    assert!(Pattern::with_options("[a-", true, true).is_err());
    assert!(Pattern::new("(closed)").is_ok());
}
