use telera::document::process_layout;
use telera::keywords::{leading_keywords, shader_param_keywords, shape_param_keywords};
use telera::prepass::{add_missing_keyword_backticks, backtick_leading_keyword};

#[test]
fn leading_keyword_list_stays_sorted() {
    let leading = leading_keywords();
    let shader = shader_param_keywords();
    assert!(leading.windows(2).all(|w| w[0] < w[1]));
    assert!(shader.windows(2).all(|w| w[0] < w[1]));
    // Every shader-param keyword must also be a leading keyword (so the
    // backtick pre-pass recognises it).
    for k in &shader {
        assert!(leading.binary_search(k).is_ok(), "{k} missing from the leading keywords");
    }
    assert!(leading.binary_search(&"shader").is_ok());
}

#[test]
fn shape_param_keywords_are_sorted_leading_keywords() {
    let leading = leading_keywords();
    let shape = shape_param_keywords();
    assert!(shape.windows(2).all(|w| w[0] < w[1]));
    for k in &shape {
        assert!(leading.binary_search(k).is_ok(), "{k} missing from the leading keywords");
    }
}

#[test]
fn keyword_backtick_prepass() {
    let src = "\
#### TML 1.0
- load [pic](examples/pic.jpg)

# root
- element outer
    - config
        - grow
        - color rgb(1,2,3)
        - `padding-all` 8
    - text
        - color me impressed
- if ready
    - grow
";
    let out = add_missing_keyword_backticks(src);

    // leading keywords picked up, arguments left as text
    assert!(out.contains("- `load` [pic](examples/pic.jpg)"));
    assert!(out.contains("- `element` outer"));
    assert!(out.contains("- `config`"));
    assert!(out.contains("- `grow`"));
    assert!(out.contains("- `color` rgb(1,2,3)"));
    assert!(out.contains("- `if` ready"));
    // already-backticked line untouched (no double backticks)
    assert!(out.contains("- `padding-all` 8"));
    assert!(!out.contains("``"));
    // headings are not list items
    assert!(out.contains("#### TML 1.0"));
    assert!(out.contains("# root"));
    // a text line starting with a keyword *is* rewritten
    assert!(out.contains("- `color` me impressed"));

    // a bare-keyword document parses into the same command stream as the
    // hand-backticked equivalent
    let bare = "\
# root
- element
    - config
        - width-fixed 40
        - color grey
    - text
        - hello
";
    let backticked = "\
# root
- `element`
    - `config`
        - `width-fixed` 40
        - `color` grey
    - `text`
        - hello
";
    assert_eq!(
        process_layout(bare.to_string()).unwrap().body,
        process_layout(backticked.to_string()).unwrap().body,
    );
}

#[test]
fn prepass_is_idempotent() {
    let src = "\
#### TML 1.0
- load [pic](examples/pic.jpg)
- `calc` `scale(a, b) = a * b`

# root
- element outer
    - config
        - grow
        - padding-all 8
  * text
    + hello
- notakeyword here
";
    let once = add_missing_keyword_backticks(src);
    let twice = add_missing_keyword_backticks(&once);
    assert_eq!(once, twice);
    // an already-backticked document is left exactly as it is
    assert_eq!(add_missing_keyword_backticks(&once), once);
}

#[test]
fn prepass_keeps_line_endings_and_other_lines() {
    let src = "# root\r\n- grow\r\nplain grow\r\n\n- unknown word";
    let out = add_missing_keyword_backticks(src);
    // a rewritten line keeps its own line break
    assert_eq!(out, "# root\r\n- `grow`\r\nplain grow\r\n\n- unknown word");
    assert_eq!(add_missing_keyword_backticks("- grow\r\n- hello\r\n"), "- `grow`\r\n- hello\r\n");
}

#[test]
fn backtick_leading_keyword_single_lines() {
    assert_eq!(backtick_leading_keyword("- grow"), Some("- `grow`".to_string()));
    assert_eq!(
        backtick_leading_keyword("    * color rgb(1,2,3)"),
        Some("    * `color` rgb(1,2,3)".to_string())
    );
    assert_eq!(backtick_leading_keyword("+ element  outer"), Some("+ `element`  outer".to_string()));
    // already backticked, not a keyword, not a list item, no space after the marker
    assert_eq!(backtick_leading_keyword("- `grow`"), None);
    assert_eq!(backtick_leading_keyword("- growing"), None);
    assert_eq!(backtick_leading_keyword("grow"), None);
    assert_eq!(backtick_leading_keyword("-grow"), None);
    assert_eq!(backtick_leading_keyword("- "), None);
}

#[test]
fn shader_keyword_items_are_backticked_once() {
    let mut words = shader_param_keywords();
    words.push("shader");
    for k in words {
        let line = format!("- {k} 1");
        let rewritten = backtick_leading_keyword(&line);
        assert_eq!(rewritten, Some(format!("- `{k}` 1")));
        let r = rewritten.unwrap();
        // exactly two backticks were added, and the result is left alone
        assert_eq!(r.len(), line.len() + 2);
        assert_eq!(r.replace('`', ""), line.replace('`', ""));
        assert_eq!(backtick_leading_keyword(&r), None);
    }
}

#[test]
fn prepass_adds_two_backticks_per_rewritten_line() {
    let src = "- grow\n  - padding-all 4\n- `fit`\n```\n- grow\n```\n* text\r\n";
    let out = add_missing_keyword_backticks(src);
    assert_eq!(out, "- `grow`\n  - `padding-all` 4\n- `fit`\n```\n- grow\n```\n* `text`\r\n");
    assert_eq!(out.len(), src.len() + 2 * 3);
    assert_eq!(out.replace('`', ""), src.replace('`', ""));
}
