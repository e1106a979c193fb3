use easy_server::listing::{render_item, render_listing, EntryInfo, PAGE_HEAD, PAGE_TAIL};

#[test]
fn empty_directory_page() {
    let page = render_listing(&Vec::new());
    assert_eq!(page, format!("{}{}", PAGE_HEAD, PAGE_TAIL));
}

#[test]
fn file_and_directory_items() {
    let entries = vec![
        EntryInfo::new("notes.txt".to_string(), false),
        EntryInfo::new("pics".to_string(), true),
    ];
    let page = render_listing(&entries);
    let expected = format!(
        "{}{}{}{}",
        PAGE_HEAD,
        "<li class=\"file\"><a href=\"notes.txt\">notes.txt</a></li>\n",
        "<li class=\"dir\"><a href=\"pics\">pics/</a></li>\n",
        PAGE_TAIL
    );
    assert_eq!(page, expected);
}

#[test]
fn entry_order_is_kept() {
    let entries = vec![
        EntryInfo::new("b".to_string(), false),
        EntryInfo::new("a".to_string(), false),
    ];
    let page = render_listing(&entries);
    assert!(page.find("\"b\"").unwrap() < page.find("\"a\"").unwrap());
}

#[test]
fn markup_in_names_is_escaped() {
    let item = render_item(&EntryInfo::new("<a&'\">".to_string(), false));
    assert_eq!(
        item,
        "<li class=\"file\"><a href=\"&lt;a&amp;&#x27;&quot;&gt;\">&lt;a&amp;&#x27;&quot;&gt;</a></li>\n"
    );
}

#[test]
fn same_entries_render_same_page() {
    let a = vec![EntryInfo::new("x y".to_string(), true), EntryInfo::new("z".to_string(), false)];
    let b = vec![EntryInfo::new("x y".to_string(), true), EntryInfo::new("z".to_string(), false)];
    assert_eq!(render_listing(&a), render_listing(&b));
    assert_eq!(render_listing(&a), render_listing(&a));
}
