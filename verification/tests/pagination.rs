use coc_client::pagination::{PageCursor, PageMark};

const BASE: &str = "https://api.example.com/v1/clans/%23ABC/members";

#[test]
fn render_limit_and_after() {
    let c = PageCursor { limit: Some(50), mark: Some(PageMark::After(String::from("cursor1"))) };
    assert_eq!(
        c.render(BASE),
        "https://api.example.com/v1/clans/%23ABC/members?limit=50&after=cursor1"
    );
}

#[test]
fn render_before_without_limit() {
    let c = PageCursor { limit: None, mark: Some(PageMark::Before(String::from("c2"))) };
    assert_eq!(c.render(BASE), "https://api.example.com/v1/clans/%23ABC/members?before=c2");
}

#[test]
fn render_nothing_leaves_base_unchanged() {
    let c = PageCursor::new();
    assert_eq!(c.render(BASE), BASE);
}

#[test]
fn render_limit_only() {
    let c = PageCursor { limit: Some(50), mark: None };
    assert_eq!(c.render(BASE), "https://api.example.com/v1/clans/%23ABC/members?limit=50");
}

#[test]
fn render_limit_and_before() {
    let c = PageCursor { limit: Some(7), mark: Some(PageMark::Before(String::from("x"))) };
    assert_eq!(c.render("u"), "u?limit=7&before=x");
}

#[test]
fn render_after_without_limit() {
    let c = PageCursor { limit: None, mark: Some(PageMark::After(String::from("t0"))) };
    assert_eq!(c.render("u"), "u?after=t0");
}

#[test]
fn render_limit_zero() {
    let c = PageCursor { limit: Some(0), mark: None };
    assert_eq!(c.render("u"), "u?limit=0");
}

#[test]
fn render_largest_limit() {
    let c = PageCursor { limit: Some(u64::MAX), mark: None };
    assert_eq!(c.render("u"), "u?limit=18446744073709551615");
}
