use codexola::prompts::{
    is_prompt_entry, parse_prompt_file, parse_prompt_value, prompt_file_name, prompt_list_item,
    prompt_of, prompts_dir, sort_prompts, validate_prompt_name, PromptError, PromptListItem,
};

fn text(value: &str) -> Option<String> {
    Some(value.to_string())
}

#[test]
fn values_lose_white_space_and_quotes() {
    assert_eq!(parse_prompt_value("  plain text  "), text("plain text"));
    assert_eq!(parse_prompt_value(" \"double\" "), text("double"));
    assert_eq!(parse_prompt_value("'single'"), text("single"));
    assert_eq!(parse_prompt_value("\"\""), text(""));
    assert_eq!(parse_prompt_value("\" spaced \""), text(" spaced "));
    assert_eq!(parse_prompt_value("\"mixed'"), text("\"mixed'"));
    assert_eq!(parse_prompt_value("\"open"), text("\"open"));
    assert_eq!(parse_prompt_value("\"\"nested\"\""), text("\"nested\""));
}

#[test]
fn blank_values_are_nothing() {
    assert_eq!(parse_prompt_value(""), None);
    assert_eq!(parse_prompt_value("   \t"), None);
}

#[test]
fn lone_quote_is_a_value() {
    assert_eq!(parse_prompt_value("\""), text("\""));
    assert_eq!(parse_prompt_value(" ' "), text("'"));
}

#[test]
fn file_without_front_matter_is_all_body() {
    let (meta, body) = parse_prompt_file("Just a prompt.\nSecond line.\n");
    assert_eq!(meta.description, None);
    assert_eq!(meta.argument_hint, None);
    assert_eq!(body, "Just a prompt.\nSecond line.\n");

    let (meta, body) = parse_prompt_file("");
    assert_eq!(meta.description, None);
    assert_eq!(body, "");

    let (_, body) = parse_prompt_file(" ---\ndescription: x\n---\nbody");
    assert_eq!(body, " ---\ndescription: x\n---\nbody");
}

#[test]
fn front_matter_is_read_and_cut_off() {
    let contents = "---\ndescription: Review the diff\nargument-hint: \"<branch>\"\nother: x\n---\nBody here\n---\nmore\n";
    let (meta, body) = parse_prompt_file(contents);
    assert_eq!(meta.description, text("Review the diff"));
    assert_eq!(meta.argument_hint, text("<branch>"));
    assert_eq!(body, "Body here\n---\nmore\n");
}

#[test]
fn front_matter_with_windows_line_ends() {
    let contents = "---\r\ndescription:  a: b \r\nargument_hint: 'x'\r\n---\r\nBody\r\n";
    let (meta, body) = parse_prompt_file(contents);
    assert_eq!(meta.description, text("a: b"));
    assert_eq!(meta.argument_hint, text("x"));
    assert_eq!(body, "Body\r\n");
}

#[test]
fn later_entries_replace_earlier_ones() {
    let contents = "---\ndescription: one\ndescription: two\nargument-hint: h\nargument_hint:\n---\n";
    let (meta, body) = parse_prompt_file(contents);
    assert_eq!(meta.description, text("two"));
    assert_eq!(meta.argument_hint, None);
    assert_eq!(body, "");
}

#[test]
fn unclosed_front_matter_is_body() {
    let contents = "---\ndescription: one\nno end";
    let (meta, body) = parse_prompt_file(contents);
    assert_eq!(meta.description, None);
    assert_eq!(meta.argument_hint, None);
    assert_eq!(body, contents);

    let (meta, body) = parse_prompt_file("---");
    assert_eq!(meta.description, None);
    assert_eq!(body, "---");
}

#[test]
fn closing_line_may_end_the_file() {
    let (meta, body) = parse_prompt_file("---\n description : d \n---");
    assert_eq!(meta.description, text("d"));
    assert_eq!(body, "");
    let (meta, body) = parse_prompt_file("---\n---\n");
    assert_eq!(meta.description, None);
    assert_eq!(body, "");
}

#[test]
fn lines_without_colon_and_unknown_keys_are_passed_over() {
    let contents = "---\njust text\nDescription: upper\n: empty key\ndescription x: y\n---\nB";
    let (meta, body) = parse_prompt_file(contents);
    assert_eq!(meta.description, None);
    assert_eq!(meta.argument_hint, None);
    assert_eq!(body, "B");
}

#[test]
fn body_keeps_text_outside_the_ascii_range() {
    let contents = "---\ndescription: ünï ✓\n---\nKörper – ✓\n";
    let (meta, body) = parse_prompt_file(contents);
    assert_eq!(meta.description, text("ünï ✓"));
    assert_eq!(body, "Körper – ✓\n");
}

#[test]
fn prompt_names_are_checked() {
    assert_eq!(validate_prompt_name("  review "), Ok("review".to_string()));
    assert_eq!(validate_prompt_name("my prompt"), Ok("my prompt".to_string()));
    assert_eq!(validate_prompt_name(""), Err(PromptError::EmptyName));
    assert_eq!(validate_prompt_name(" \t"), Err(PromptError::EmptyName));
    assert_eq!(validate_prompt_name("a/b"), Err(PromptError::InvalidName));
    assert_eq!(validate_prompt_name("..\\secret"), Err(PromptError::InvalidName));
    assert_eq!(validate_prompt_name(" / "), Err(PromptError::InvalidName));
}

#[test]
fn prompt_files_end_in_md() {
    assert_eq!(prompt_file_name("review"), "review.md");
    assert_eq!(prompt_file_name(""), ".md");
}

#[test]
fn only_named_markdown_files_are_prompts() {
    assert!(is_prompt_entry(Some("md"), Some("review")));
    assert!(!is_prompt_entry(Some("MD"), Some("review")));
    assert!(!is_prompt_entry(Some("txt"), Some("review")));
    assert!(!is_prompt_entry(None, Some("review")));
    assert!(!is_prompt_entry(Some("md"), None));
    assert!(!is_prompt_entry(Some("md"), Some("  ")));
}

#[test]
fn list_item_and_prompt_carry_the_front_matter() {
    let contents = "---\ndescription: d\nargument-hint: h\n---\nbody";
    let item = prompt_list_item("p".to_string(), "/x/p.md".to_string(), contents);
    assert_eq!(item.name, "p");
    assert_eq!(item.path, "/x/p.md");
    assert_eq!(item.description, text("d"));
    assert_eq!(item.argument_hint, text("h"));
    let prompt = prompt_of("p".to_string(), contents);
    assert_eq!(prompt.name, "p");
    assert_eq!(prompt.body, "body");
    assert_eq!(prompt.description, text("d"));
    assert_eq!(prompt.argument_hint, text("h"));
}

#[test]
fn prompts_are_sorted_by_name() {
    let items: Vec<PromptListItem> = ["b", "a", "C", "ab", "a"]
        .iter()
        .enumerate()
        .map(|(i, name)| PromptListItem {
            name: name.to_string(),
            path: i.to_string(),
            description: None,
            argument_hint: None,
        })
        .collect();
    let sorted = sort_prompts(items);
    let seen: Vec<(&str, &str)> =
        sorted.iter().map(|item| (item.name.as_str(), item.path.as_str())).collect();
    assert_eq!(seen, vec![("C", "2"), ("a", "1"), ("a", "4"), ("ab", "3"), ("b", "0")]);
}

#[test]
fn prompt_directory_lies_in_the_home_directory() {
    assert_eq!(
        prompts_dir(Some("/home/me"), Some("C:\\Users\\me")),
        Some(vec!["/home/me".to_string(), ".codex".to_string(), "prompts".to_string()])
    );
    assert_eq!(
        prompts_dir(Some("  "), Some("C:\\Users\\me")),
        Some(vec!["C:\\Users\\me".to_string(), ".codex".to_string(), "prompts".to_string()])
    );
    assert_eq!(
        prompts_dir(None, Some(" /u ")),
        Some(vec![" /u ".to_string(), ".codex".to_string(), "prompts".to_string()])
    );
    assert_eq!(prompts_dir(None, None), None);
    assert_eq!(prompts_dir(Some(""), Some("\t")), None);
    assert_eq!(prompts_dir(Some(""), None), None);
}
