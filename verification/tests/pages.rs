use rogger::dynamic_site::{DynVal, Page, Pages};

#[test]
fn page_renders_markdown() {
    let page = Page::new("# Hi");
    assert_eq!(page.content, "# Hi");
    assert_eq!(page.html_content, "<h1>Hi</h1>");
}

#[test]
fn new_pages_hold_the_default_texts() {
    let pages = Pages::new();
    assert_eq!(pages.get_index().content, "# **My blog**\nThis is example description ");
    assert!(pages.get_index().html_content.contains("<strong>My blog</strong>"));
    assert_eq!(pages.get_aboutme().content, "# About me");
    assert_eq!(pages.get_aboutme().html_content, "<h1>About me</h1>");
}

#[test]
fn edited_index_reads_back_and_leaves_aboutme() {
    let mut pages = Pages::new();
    pages.modify_index(String::from("*hello*"));
    assert_eq!(pages.get_index().content, "*hello*");
    assert_eq!(pages.get_index().html_content, "<p><em>hello</em></p>");
    assert_eq!(pages.get_aboutme().content, "# About me");
}

#[test]
fn edited_aboutme_reads_back_and_leaves_index() {
    let mut pages = Pages::new();
    pages.modify_aboutme(String::from("## Me"));
    assert_eq!(pages.get_aboutme().content, "## Me");
    assert_eq!(pages.get_aboutme().html_content, "<h2>Me</h2>");
    assert_eq!(pages.get_index().content, "# **My blog**\nThis is example description ");
}

#[test]
fn dynval_takes_four_strings_in_order() {
    let d = DynVal::new(vec![
        String::from("Example blog name"),
        String::from("blogger"),
        String::from("Rogger_Admin"),
        String::from("/favicon.ico"),
    ]);
    assert_eq!(d.blog_name, "Example blog name");
    assert_eq!(d.your_name, "blogger");
    assert_eq!(d.master_user_login, "Rogger_Admin");
    assert_eq!(d.favicon, "/favicon.ico");
}
