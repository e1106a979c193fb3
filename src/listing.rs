//! Directory entries and the HTML page that lists them.
use vstd::prelude::*;

verus! {

/// One immediate child of a listed directory.
pub struct EntryInfo {
    /// The entry's base name.
    pub name: String,
    pub is_dir: bool,
}

/// The mathematical value of an `EntryInfo`.
pub ghost struct EntryView {
    pub name: Seq<char>,
    pub is_dir: bool,
}

impl View for EntryInfo {
    type V = EntryView;

    open spec fn view(&self) -> EntryView {
        EntryView { name: self.name@, is_dir: self.is_dir }
    }
}

impl EntryInfo {
    pub fn new(name: String, is_dir: bool) -> (r: EntryInfo)
        ensures
            r@ == (EntryView { name: name@, is_dir: is_dir }),
    {
        EntryInfo { name, is_dir }
    }
}

/// The values of a sequence of entries.
pub open spec fn entries_view(v: Seq<EntryInfo>) -> Seq<EntryView> {
    v.map_values(|e: EntryInfo| e@)
}

/// HTML text for one character of content.
pub open spec fn escaped_char(c: char) -> Seq<char> {
    if c == '<' {
        seq!['&', 'l', 't', ';']
    } else if c == '>' {
        seq!['&', 'g', 't', ';']
    } else if c == '&' {
        seq!['&', 'a', 'm', 'p', ';']
    } else if c == '"' {
        seq!['&', 'q', 'u', 'o', 't', ';']
    } else if c == '\'' {
        seq!['&', '#', 'x', '2', '7', ';']
    } else {
        seq![c]
    }
}

/// `s` with each markup character replaced by its HTML entity.
pub open spec fn html_escaped(s: Seq<char>) -> Seq<char>
    decreases s.len(),
{
    if s.len() == 0 {
        Seq::empty()
    } else {
        html_escaped(s.drop_last()) + escaped_char(s.last())
    }
}

/// Relies on askama's `MarkupDisplay` with the `Html` escaper, which writes
/// `<`, `>`, `&`, `"` and `'` as `&lt;`, `&gt;`, `&amp;`, `&quot;` and `&#x27;`
/// and every other character as it is.
#[verifier::external_body]
fn escape_html(s: &str) -> (r: String)
    ensures
        r@ == html_escaped(s@),
{
    askama::MarkupDisplay::new_unsafe(s, askama::Html).to_string()
}

pub const PAGE_HEAD: &'static str = "<!DOCTYPE html>\n<html>\n<head>\n<meta charset=\"utf-8\">\n<title>Index</title>\n</head>\n<body>\n<ul>\n";

pub const PAGE_TAIL: &'static str = "</ul>\n</body>\n</html>\n";

pub const DIR_ITEM_OPEN: &'static str = "<li class=\"dir\"><a href=\"";

pub const FILE_ITEM_OPEN: &'static str = "<li class=\"file\"><a href=\"";

pub const LINK_MIDDLE: &'static str = "\">";

pub const DIR_LINK_CLOSE: &'static str = "/</a></li>\n";

pub const FILE_LINK_CLOSE: &'static str = "</a></li>\n";

/// One list item: a link whose target is the entry's own name, relative to the
/// listed directory; a directory's text ends in `/`.
pub open spec fn item_html(e: EntryView) -> Seq<char> {
    let n = html_escaped(e.name);
    if e.is_dir {
        DIR_ITEM_OPEN@ + n + LINK_MIDDLE@ + n + DIR_LINK_CLOSE@
    } else {
        FILE_ITEM_OPEN@ + n + LINK_MIDDLE@ + n + FILE_LINK_CLOSE@
    }
}

/// The list items of `es`, in order.
pub open spec fn items_html(es: Seq<EntryView>) -> Seq<char>
    decreases es.len(),
{
    if es.len() == 0 {
        Seq::empty()
    } else {
        items_html(es.drop_last()) + item_html(es.last())
    }
}

/// The listing page of `es`: one item per entry, in the given order.
pub open spec fn listing_html(es: Seq<EntryView>) -> Seq<char> {
    PAGE_HEAD@ + items_html(es) + PAGE_TAIL@
}

/// The list item of one entry.
pub fn render_item(e: &EntryInfo) -> (r: String)
    ensures
        r@ == item_html(e@),
{
    let n = escape_html(e.name.as_str());
    let mut r = String::new();
    if e.is_dir {
        r.append(DIR_ITEM_OPEN);
    } else {
        r.append(FILE_ITEM_OPEN);
    }
    r.append(n.as_str());
    r.append(LINK_MIDDLE);
    r.append(n.as_str());
    if e.is_dir {
        r.append(DIR_LINK_CLOSE);
    } else {
        r.append(FILE_LINK_CLOSE);
    }
    assert(r@ =~= item_html(e@));
    r
}

/// Renders the listing page of `entries`.
pub fn render_listing(entries: &Vec<EntryInfo>) -> (r: String)
    ensures
        r@ == listing_html(entries_view(entries@)),
{
    let mut r = String::new();
    r.append(PAGE_HEAD);
    let mut i: usize = 0;
    while i < entries.len()
        invariant
            i <= entries.len(),
            r@ == PAGE_HEAD@ + items_html(entries_view(entries@.subrange(0, i as int))),
        decreases entries.len() - i,
    {
        let item = render_item(&entries[i]);
        r.append(item.as_str());
        proof {
            let pre = entries_view(entries@.subrange(0, i as int));
            let post = entries_view(entries@.subrange(0, i + 1));
            assert(post.drop_last() =~= pre);
            assert(post.last() == entries@[i as int]@);
        }
        assert(r@ =~= PAGE_HEAD@ + items_html(entries_view(entries@.subrange(0, i + 1))));
        i = i + 1;
    }
    assert(entries@.subrange(0, i as int) =~= entries@);
    r.append(PAGE_TAIL);
    assert(r@ =~= listing_html(entries_view(entries@)));
    r
}

} // verus!
