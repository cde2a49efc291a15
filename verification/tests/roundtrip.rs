use bookmarkt::bookmark::Bookmark;
use bookmarkt::folder::Folder;
use bookmarkt::item::Item;
use bookmarkt::netscape::Netscape;
use bookmarkt::node_ref_ext::Cursor;
use bookmarkt::parse::parse_html;

fn shortcut(href: &str, title: &str) -> Bookmark {
    Bookmark { href: String::from(href), title: String::from(title), ..Bookmark::default() }
}

fn sanitize_string(string: String) -> String {
    let mut contents = String::new();

    for line in string.lines() {
        contents.push_str(line.trim());
    }

    contents
}

fn sample() -> Netscape {
    let full = Bookmark {
        href: String::from("https://example.org/a?b=c"),
        title: String::from("An example, with  spaces "),
        add_date: String::from("1466009059"),
        last_visit: String::from("1466009060"),
        last_modified: String::from("1466009061"),
        icon_uri: String::from("https://example.org/favicon.ico"),
        icon: String::from("data:image/png;base64,iVBORw0KGgo="),
    };
    let deep = Folder {
        title: String::from("deep"),
        folded: true,
        add_date: String::from("3"),
        last_modified: String::from("4"),
        personal_toolbar_folder: false,
        unfiled_bookmarks_folder: true,
        children: vec![Item::Shortcut(shortcut("x", "x")), Item::Subfolder(Folder::default())],
    };
    let toolbar = Folder {
        title: String::from("Toolbar"),
        personal_toolbar_folder: true,
        add_date: String::from("1"),
        children: vec![
            Item::Shortcut(shortcut("c1", "first")),
            Item::Subfolder(deep),
            Item::Shortcut(shortcut("c3", "third")),
        ],
        ..Folder::default()
    };
    Netscape {
        title: String::from("Bookmarks"),
        h1: String::from("Bookmarks Menu"),
        children: vec![
            Item::Shortcut(full),
            Item::Subfolder(toolbar),
            Item::Shortcut(Bookmark::default()),
            Item::Subfolder(Folder { title: String::from("empty"), ..Folder::default() }),
        ],
    }
}

#[test]
fn document_comes_back_from_its_markup() {
    let document = sample();
    let read = Netscape::from_html(&document.to_html()).unwrap();
    assert_eq!(read, document);
    assert_eq!(format!("{:?}", read), format!("{:?}", document));
}

#[test]
fn empty_document_comes_back_from_its_markup() {
    let document = Netscape { title: String::new(), h1: String::new(), children: vec![] };
    let read = Netscape::from_html(&document.to_html()).unwrap();
    assert_eq!(read, document);
}

#[test]
fn entries_come_back_in_their_order() {
    let c1 = Item::Shortcut(shortcut("1", "c1"));
    let c2 = Item::Subfolder(Folder { title: String::from("c2"), ..Folder::default() });
    let c3 = Item::Shortcut(shortcut("3", "c3"));
    let folder = Folder {
        title: String::from("f"),
        children: vec![c1.clone(), c2.clone(), c3.clone()],
        ..Folder::default()
    };
    let document = parse_html(&folder.render());
    let dt = Cursor::root(&document).select_first("DT").unwrap();
    let read = Folder::from_node(&dt).unwrap();
    assert_eq!(read.children, vec![c1, c2, c3]);
    assert_eq!(read, folder);
}

#[test]
fn bookmark_comes_back_from_its_markup() {
    let bookmark = Bookmark {
        href: String::from("url"),
        add_date: String::from("date"),
        last_visit: String::from("date"),
        last_modified: String::from("date"),
        title: String::from("name"),
        icon_uri: String::from(""),
        icon: String::from("icon"),
    };
    let document = parse_html(&bookmark.render());
    let dt = Cursor::root(&document).select_first("DT").unwrap();
    let read = Bookmark::from_node(&dt).unwrap();
    assert_eq!(format!("{:?}", read), format!("{:?}", bookmark));
}

#[test]
fn markup_is_stable_after_the_first_reading() {
    let export = r#"<!DOCTYPE NETSCAPE-Bookmark-file-1>
<!-- This is an automatically generated file.
     It will be read and overwritten.
     DO NOT EDIT! -->
<META HTTP-EQUIV="Content-Type" CONTENT="text/html; charset=UTF-8">
<TITLE>Bookmarks</TITLE>
<H1>Bookmarks</H1>
<DL><p>
    <DT><H3 ADD_DATE="1586368847" LAST_MODIFIED="1586368847" PERSONAL_TOOLBAR_FOLDER="true">Bookmarks bar</H3>
    <DL><p>
        <DT><A HREF="https://www.rust-lang.org/" ADD_DATE="1586368847" ICON="data:image/png;base64,AAAA">Rust</A>
        <DT><H3 ADD_DATE="1586368848" LAST_MODIFIED="0">Inner</H3>
        <DL><p>
            <DT><A HREF="https://docs.rs/" ADD_DATE="1586368849">Docs</A>
        </DL><p>
    </DL><p>
    <DT><A HREF="https://crates.io/" ADD_DATE="1586368850">Crates</A>
</DL><p>
"#;
    let first = Netscape::from_html(export).unwrap();
    assert_eq!(first.title, "Bookmarks");
    assert_eq!(first.get_bookmarks().len(), 3);
    assert_eq!(first.get_folders().len(), 2);
    let once = first.to_html();
    let second = Netscape::from_html(&once).unwrap();
    assert_eq!(second, first);
    assert_eq!(second.to_html(), once);
    assert_eq!(sanitize_string(second.to_html()), sanitize_string(once));
}

#[test]
fn values_are_written_without_escaping() {
    let bookmark = Bookmark { href: String::from("u"), title: String::from("R&amp;D"), ..Bookmark::default() };
    assert!(bookmark.render().ends_with(">R&amp;D</A>"));
    let document = parse_html(&bookmark.render());
    let dt = Cursor::root(&document).select_first("DT").unwrap();
    let read = Bookmark::from_node(&dt).unwrap();
    assert_eq!(read.title, "R&D");
    assert_ne!(read, bookmark);
}
