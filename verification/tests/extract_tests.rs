use lobtui::extract::extract;
use lobtui::text::{filter_tags, first_token, is_blank_text, parse_count};

fn entry(title: &str, href: &str, tags: &[&str], author: &str, votes: &str, comments: &str) -> String {
    let tag_anchors: Vec<String> = tags.iter().map(|t| format!("<a>{}</a>", t)).collect();
    format!(
        "<div class=\"story_liner h-entry\"><a class=\"u-url\" href=\"{}\">{}</a><span class=\"tags\">{}</span><a class=\"u-author\">{}</a><a class=\"upvoter\">{}</a><span class=\"comments_label\">{}</span></div>",
        href,
        title,
        tag_anchors.join(" "),
        author,
        votes,
        comments
    )
}

#[test]
fn extracts_every_entry_in_document_order() {
    let markup = format!(
        "<body>{}{}{}</body>",
        entry(
            "First story",
            "https://example.com/a",
            &["rust", "programming"],
            "alice",
            "42",
            "<a href=\"/s/a/comments\">12 comments</a>",
        ),
        entry(
            "Second story",
            "https://example.com/b",
            &["culture"],
            "bob",
            "7",
            "<a href=\"/s/b/comments\">3 comments</a>",
        ),
        entry(
            "Third story",
            "https://example.com/c",
            &[],
            "carol",
            "1",
            "<a href=\"/s/c/comments\">discuss</a>",
        ),
    );
    let stories = extract(&markup).unwrap();
    assert_eq!(stories.len(), 3);
    assert_eq!(stories[0].title, "First story");
    assert_eq!(stories[1].title, "Second story");
    assert_eq!(stories[2].title, "Third story");
}

#[test]
fn zero_entries_is_empty_not_error() {
    let stories = extract("<body><p>nothing here</p></body>").unwrap();
    assert!(stories.is_empty());
    let stories = extract("").unwrap();
    assert!(stories.is_empty());
}

#[test]
fn extracts_all_fields_of_one_entry() {
    let markup = entry(
        "A fine title",
        "https://example.com/fine",
        &["rust", "show"],
        "dana",
        "17",
        "<a href=\"/s/x/comments\">5 comments</a>",
    );
    let stories = extract(&markup).unwrap();
    assert_eq!(stories.len(), 1);
    let s = &stories[0];
    assert_eq!(s.title, "A fine title");
    assert_eq!(s.link, "https://example.com/fine");
    assert_eq!(s.author, "dana");
    assert_eq!(s.tags, vec!["rust".to_string(), "show".to_string()]);
    assert_eq!(s.votes, 17);
    assert_eq!(s.comment_count, 5);
    assert_eq!(s.comment_link, "/s/x/comments");
}

#[test]
fn non_numeric_vote_marker_yields_zero_votes() {
    let markup = entry(
        "T",
        "https://example.com/t",
        &["tag"],
        "a",
        "\u{2014}",
        "<a href=\"/c\">1 comment</a>",
    );
    let stories = extract(&markup).unwrap();
    assert_eq!(stories[0].votes, 0);
}

#[test]
fn comment_count_parses_first_token_or_degrades_to_zero() {
    let markup = format!(
        "{}{}",
        entry(
            "T1",
            "/t1",
            &["t"],
            "a",
            "1",
            "<a href=\"/c1\">12 comments</a>",
        ),
        entry("T2", "/t2", &["t"], "a", "1", "<a href=\"/c2\">discuss</a>"),
    );
    let stories = extract(&markup).unwrap();
    assert_eq!(stories[0].comment_count, 12);
    assert_eq!(stories[1].comment_count, 0);
}

#[test]
fn missing_optional_parts_degrade_to_defaults() {
    // No href on the title anchor, no tags, no anchor in the comments marker.
    let markup = "<div class=\"story_liner h-entry\"><a class=\"u-url\">Bare title</a><span class=\"tags\">   </span><a class=\"u-author\"></a><a class=\"upvoter\"></a><span class=\"comments_label\">quiet</span></div>";
    let stories = extract(markup).unwrap();
    assert_eq!(stories.len(), 1);
    let s = &stories[0];
    assert_eq!(s.title, "Bare title");
    assert_eq!(s.link, "");
    assert_eq!(s.author, "");
    assert!(s.tags.is_empty());
    assert_eq!(s.votes, 0);
    assert_eq!(s.comment_count, 0);
    assert_eq!(s.comment_link, "");
}

#[test]
fn entry_missing_whole_markers_still_yields_a_record() {
    let markup = "<div class=\"story_liner h-entry\"><p>just text</p></div>";
    let stories = extract(markup).unwrap();
    assert_eq!(stories.len(), 1);
    let s = &stories[0];
    assert_eq!(s.title, "");
    assert_eq!(s.link, "");
    assert!(s.tags.is_empty());
    assert_eq!(s.votes, 0);
    assert_eq!(s.comment_count, 0);
    assert_eq!(s.comment_link, "");
}

#[test]
fn parse_count_cases() {
    assert_eq!(parse_count("12"), 12);
    assert_eq!(parse_count("0"), 0);
    assert_eq!(parse_count("007"), 7);
    assert_eq!(parse_count(""), 0);
    assert_eq!(parse_count("12a"), 0);
    assert_eq!(parse_count("-3"), 0);
    assert_eq!(parse_count(" 12"), 0);
    assert_eq!(parse_count("18446744073709551615"), 18446744073709551615);
    assert_eq!(parse_count("18446744073709551616"), 0);
    assert_eq!(parse_count("99999999999999999999999"), 0);
}

#[test]
fn first_token_cases() {
    assert_eq!(first_token("12 comments"), "12");
    assert_eq!(first_token("  lead and trail  "), "lead");
    assert_eq!(first_token("one"), "one");
    assert_eq!(first_token(""), "");
    assert_eq!(first_token("   "), "");
    assert_eq!(first_token("\t\nword\t"), "word");
}

#[test]
fn filter_tags_drops_blank_nodes_only() {
    let tokens = vec![
        "rust".to_string(),
        "  ".to_string(),
        "\n".to_string(),
        "c".to_string(),
        "".to_string(),
        " spaced tag ".to_string(),
    ];
    let kept = filter_tags(tokens);
    assert_eq!(
        kept,
        vec![
            "rust".to_string(),
            "c".to_string(),
            " spaced tag ".to_string(),
        ]
    );
}

#[test]
fn is_blank_text_cases() {
    assert!(is_blank_text(""));
    assert!(is_blank_text(" \t\r\n"));
    assert!(!is_blank_text(" x "));
}
