use bookmarkt::bookmark::Bookmark;
use bookmarkt::folder::Folder;
use bookmarkt::item::Item;
use bookmarkt::netscape::Netscape;
use bookmarkt::netscape_bookmark::NetscapeBookmark;
use bookmarkt::node::Node;
use bookmarkt::node_ref_ext::Cursor;
use bookmarkt::node_ref_ext::NodeRefExt;
use bookmarkt::parse::MAX_MARKUP_LEN;
use bookmarkt::parse::parse_html;

fn mock_bookmark() -> Bookmark {
    Bookmark {
        href: String::from("url"),
        add_date: String::from("date"),
        last_visit: String::from("date"),
        last_modified: String::from("date"),
        title: String::from("name"),
        icon_uri: String::from(""),
        icon: String::from("icon"),
    }
}

fn titled(title: &str, children: Vec<Item>) -> Folder {
    Folder { title: String::from(title), children, ..Folder::default() }
}

#[test]
fn should_parse_netscape_bookmark() {
    let item = r#"
<DT><A HREF="url" ADD_DATE="date" LAST_VISIT="date"
LAST_MODIFIED="date" ICON="icon">name</A>"#;
    let document = parse_html(item);
    let a = Cursor::root(&document).select_first("A").unwrap();

    let parsed = Bookmark::from_node(&a).unwrap();
    assert_eq!(parsed, mock_bookmark());
    assert_eq!(parsed.icon_uri, "");
    assert_eq!(parsed.icon, "icon");
}

#[test]
fn parse_netscape_empty_folder() {
    let item = r#"
    <DT><H3 FOLDED ADD_DATE="date" LAST_MODIFIED="date">title</H3>
    <DL><p>
    </DL><p>"#;
    let document = parse_html(item);
    let h3 = Cursor::root(&document).select_first("H3").unwrap();

    assert_eq!(
        Folder::from_node(&h3).unwrap(),
        Folder {
            title: String::from("title"),
            folded: true,
            personal_toolbar_folder: false,
            unfiled_bookmarks_folder: false,
            last_modified: String::from("date"),
            add_date: String::from("date"),
            children: vec![]
        }
    )
}

#[test]
fn parse_netscape_nested_folders() {
    let item = r#"
    <DT><H3>nested0</H3>
    <DL><p>
    <DT><H3>nested1</H3>
    <DL><p>
    <DT><H3>nested2</H3>
    <DL><p>
    <DT><H3>nested3</H3>
    </DL><p>
    </DL><p>
    </DL><p>"#;
    let document = parse_html(item);
    let dt = Cursor::root(&document).select_first("DT").unwrap();

    let n3 = Item::Subfolder(titled("nested3", vec![]));
    let n2 = Item::Subfolder(titled("nested2", vec![n3]));
    let n1 = Item::Subfolder(titled("nested1", vec![n2]));

    assert_eq!(Folder::from_node(&dt).unwrap(), titled("nested0", vec![n1]))
}

#[test]
fn should_parse_netscape_header() {
    let html = r"
<!DOCTYPE NETSCAPE-Bookmark-file-1>
    <!--This is an automatically generated file.
    It will be read and overwritten.
    Do Not Edit! -->
    <Title>Collection Title</Title>
    <H1>Collection Head</H1>";
    let netscape = Netscape::from_html(html).unwrap();

    assert_eq!(netscape.title, "Collection Title");
    assert_eq!(netscape.h1, "Collection Head");
}

#[test]
fn check_dl_element() {
    let document = parse_html(r"<DL></DL>");
    let dl = Cursor::root(&document).select_first("DL").unwrap();

    assert_eq!(dl.is_element("DL"), true);
    assert_eq!(dl.is_element("DT"), false);
}

#[test]
fn select_href_attribute() {
    let document = parse_html(r#"<A HREF="Test"/>"#);
    let a = Cursor::root(&document).select_first("A").unwrap();

    let attribute = a.select_attribute("HREF").unwrap();
    assert_eq!(attribute.value, "Test")
}

#[test]
fn ignore_selector_case() {
    let selector = "TITLE";

    let upper = r"<TITLE>Test</Title>";
    let capital = r"<Title>Test</Title>";
    let lower = r"<title>Test</title>";

    let upper_document = parse_html(upper);
    let capital_document = parse_html(capital);
    let lower_document = parse_html(lower);
    let from_upper = Cursor::root(&upper_document).select_text(selector).unwrap();
    let from_capital = Cursor::root(&capital_document).select_text(selector).unwrap();
    let from_lower = Cursor::root(&lower_document).select_text(selector).unwrap();

    assert_eq!(from_upper, from_capital);
    assert_eq!(from_capital, from_lower);
    assert_eq!(from_lower, "Test");
}

#[test]
fn main_parse_netscape_header() {
    let html = r"
<!DOCTYPE NETSCAPE-Bookmark-file-1>
    <!--This is an automatically generated file.
    It will be read and overwritten.
    Do Not Edit! -->
    <Title>Collection Title</Title>
    <H1>Collection Head</H1>
";
    let netscape = NetscapeBookmark::from_string(html).unwrap();
    assert_eq!(netscape.title, "Collection Title");
    assert_eq!(netscape.h1, "Collection Head");
}

#[test]
fn netscape_bookmark_parse_netscape_header() {
    let html = r"
<!DOCTYPE NETSCAPE-Bookmark-file-1>
    <!--This is an automatically generated file.
    It will be read and overwritten.
    Do Not Edit! -->
    <Title>Collection Title</Title>
    <H1>Collection Head</H1>
";
    let netscape = NetscapeBookmark::from_string(html).unwrap();

    assert_eq!(netscape.title, "Collection Title");
    assert_eq!(netscape.h1, "Collection Head");
    assert_eq!(
        netscape,
        NetscapeBookmark::new(String::from("Collection Title"), String::from("Collection Head"))
    );
}

#[test]
fn head_without_title_or_heading_is_empty() {
    let head = NetscapeBookmark::from_string("<p>nothing of the kind</p>").unwrap();
    assert_eq!(head, NetscapeBookmark::default());
    assert_eq!(head.title, "");
    assert_eq!(head.h1, "");
    assert_eq!(head.to_string(), "");
}

#[test]
fn anchor_without_attributes_still_parses() {
    let document = parse_html("<DL><DT><A>bare</A></DL>");
    let a = Cursor::root(&document).select_first("A").unwrap();
    let parsed = Bookmark::from_node(&a).unwrap();

    assert_eq!(parsed.href, "");
    assert_eq!(parsed.add_date, "");
    assert_eq!(parsed.last_visit, "");
    assert_eq!(parsed.last_modified, "");
    assert_eq!(parsed.icon_uri, "");
    assert_eq!(parsed.icon, "");
    assert_eq!(parsed.title, "bare");
}

#[test]
fn names_are_read_in_any_case() {
    let lower = parse_html(r#"<dl><dt><a href="u" add_date="d" Icon_Uri="i">t</a></dl>"#);
    let upper = parse_html(r#"<DL><DT><A HREF="u" ADD_DATE="d" ICON_URI="i">t</A></DL>"#);
    let from_lower = Bookmark::from_node(&Cursor::root(&lower).select_first("dt").unwrap()).unwrap();
    let from_upper = Bookmark::from_node(&Cursor::root(&upper).select_first("DT").unwrap()).unwrap();

    assert_eq!(from_lower, from_upper);
    assert_eq!(from_lower.href, "u");
    assert_eq!(from_lower.add_date, "d");
    assert_eq!(from_lower.icon_uri, "i");
    assert_eq!(from_upper.icon_uri, "i");
    assert_eq!(from_lower.title, "t");
}

#[test]
fn other_nodes_give_no_entry() {
    let document = parse_html("<DL><p>\n<DT><A HREF=\"u\">t</A>\n<HR>\n</DL>");
    let root = Cursor::root(&document);
    let p = root.select_first("P").unwrap();
    let hr = root.select_first("HR").unwrap();
    let dl = root.select_first("DL").unwrap();

    assert_eq!(Item::from_node(&p), None);
    assert_eq!(Item::from_node(&hr), None);
    assert_eq!(Bookmark::from_node(&dl), None);
    assert_eq!(Folder::from_node(&dl), None);
    assert_eq!(Item::from_children(&dl).len(), 1);
}

#[test]
fn document_without_sections_is_empty() {
    let netscape = Netscape::from_html("").unwrap();
    assert_eq!(netscape.title, "");
    assert_eq!(netscape.h1, "");
    assert_eq!(netscape.children, vec![]);
}

#[test]
fn document_entries_keep_their_order() {
    let html = r#"<TITLE>T</TITLE><H1>H</H1>
<DL><p>
<DT><A HREF="one">1</A>
<DT><H3 PERSONAL_TOOLBAR_FOLDER ADD_DATE="7">bar</H3>
<DL><p>
<DT><A HREF="two">2</A>
<DT><A HREF="three">3</A>
</DL><p>
<DT><A HREF="four">4</A>
</DL>"#;
    let netscape = Netscape::from_html(html).unwrap();

    assert_eq!(netscape.title, "T");
    assert_eq!(netscape.h1, "H");
    assert_eq!(netscape.children.len(), 3);
    assert_eq!(netscape.children[0].take_shortcut().unwrap().href, "one");
    let bar = netscape.children[1].take_subfolder().unwrap();
    assert_eq!(bar.title, "bar");
    assert_eq!(bar.add_date, "7");
    assert!(bar.personal_toolbar_folder);
    assert!(!bar.unfiled_bookmarks_folder);
    assert!(!bar.folded);
    assert_eq!(bar.children.len(), 2);
    assert_eq!(bar.children[0].take_shortcut().unwrap().href, "two");
    assert_eq!(bar.children[1].take_shortcut().unwrap().href, "three");
    assert_eq!(netscape.children[2].take_shortcut().unwrap().href, "four");

    let hrefs: Vec<&str> = netscape.get_bookmarks().iter().map(|b| b.href.as_str()).collect();
    assert_eq!(hrefs, vec!["one", "two", "three", "four"]);
    assert_eq!(netscape.get_folders().len(), 1);
}

#[test]
fn reader_limit_leaves_room_in_the_buffers() {
    assert_eq!(MAX_MARKUP_LEN, 715_827_882);
    assert!(MAX_MARKUP_LEN as u64 * 3 <= 1u64 << 31);
    assert!((MAX_MARKUP_LEN as u64 + 1) * 3 > 1u64 << 31);
}

#[test]
fn nul_bytes_are_read_as_replacement_characters() {
    let document = parse_html("<DT><A HREF=\"a\0b\">t</A>");
    let a = Cursor::root(&document).select_first("A").unwrap();
    assert_eq!(Bookmark::from_node(&a).unwrap().href, "a\u{fffd}b");
}

const NETSCAPE_FILE: &str = r#"<!DOCTYPE NETSCAPE-Bookmark-file-1>
<!-- This is an automatically generated file.
     It will be read and overwritten.
     DO NOT EDIT! -->
<META HTTP-EQUIV="Content-Type" CONTENT="text/html; charset=UTF-8">
<TITLE>Bookmarks</TITLE>
<H1>Bookmarks</H1>
<DL><p>
    <DT><A HREF="https://framasoft.org/" ADD_DATE="1466009059">Framasoft ~ Page portail du réseau</A>
    <DT><A HREF="https://www.kernel.org/" ADD_DATE="1466009167">The Linux Kernel Archives</A>
</DL><p>
"#;

#[test]
fn should_parse_netscape_file() {
    let label = String::from("Bookmarks");

    let b1 = Bookmark {
        href: String::from("https://framasoft.org/"),
        add_date: String::from("1466009059"),
        title: String::from("Framasoft ~ Page portail du réseau"),
        ..Bookmark::default()
    };

    let b2 = Bookmark {
        href: String::from("https://www.kernel.org/"),
        add_date: String::from("1466009167"),
        title: String::from("The Linux Kernel Archives"),
        ..Bookmark::default()
    };

    let netscape = Netscape {
        title: label.clone(),
        h1: label,
        children: vec![Item::Shortcut(b1), Item::Shortcut(b2)],
    };

    assert_eq!(Netscape::from_html(NETSCAPE_FILE).unwrap(), netscape);
}

#[test]
fn parse_netscape_file() {
    let label = String::from("Bookmarks");

    assert_eq!(
        NetscapeBookmark::from_string(NETSCAPE_FILE).unwrap(),
        NetscapeBookmark { title: label.clone(), h1: label }
    );
}

#[test]
fn parsed_tree_keeps_elements_text_and_attributes() {
    let document = parse_html("<!DOCTYPE html><!-- note --><title>t</title><p Z=\"1\" b=\"2\" A=\"3\">x<b>y</b></p>");
    assert_eq!(
        format!("{:?}", document),
        "Other { children: [Other { children: [] }, Other { children: [] }, \
         Element { name: \"html\", attributes: [], children: [\
         Element { name: \"head\", attributes: [], children: [\
         Element { name: \"title\", attributes: [], children: [Text { content: \"t\" }] }] }, \
         Element { name: \"body\", attributes: [], children: [\
         Element { name: \"p\", attributes: [\
         Attribute { name: \"a\", value: \"3\" }, \
         Attribute { name: \"b\", value: \"2\" }, \
         Attribute { name: \"z\", value: \"1\" }], children: [\
         Text { content: \"x\" }, \
         Element { name: \"b\", attributes: [], children: [Text { content: \"y\" }] }] }] }] }] }"
    );
    assert_eq!(document.text_contents(), "txy");
    match &document {
        Node::Other { children } => assert_eq!(children.len(), 3),
        _ => panic!("the document is no element and no text"),
    }
}

#[test]
fn same_text_gives_the_same_tree() {
    let text = "<DL><p><DT><A HREF=\"u\">t</A></DL>";
    assert_eq!(format!("{:?}", parse_html(text)), format!("{:?}", parse_html(text)));
}
