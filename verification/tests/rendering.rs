use bookmarkt::bookmark::Bookmark;
use bookmarkt::collection::NestedCollection;
use bookmarkt::folder::Folder;
use bookmarkt::item::Item;
use bookmarkt::netscape::Netscape;

fn mock_bookmark() -> Bookmark {
    Bookmark {
        href: String::from("url"),
        add_date: String::from("date"),
        last_visit: String::from("date"),
        last_modified: String::from("date"),
        title: String::from("name"),
        icon_uri: String::from(""),
        icon: String::from("icon"),
    }
}

#[test]
fn should_render_bookmark_html() {
    let rendered = r#"<DT><A HREF="url" ADD_DATE="date" LAST_VISIT="date" LAST_MODIFIED="date" ICON_URI="" ICON="icon">name</A>"#;
    assert_eq!(mock_bookmark().render(), rendered);
}

#[test]
fn render_folder_html() {
    let rendered = r#"<DT><H3 FOLDED ADD_DATE="date" LAST_MODIFIED="date">name</H3>
<DL><p>
</DL><p>"#;
    let folder = Folder {
        title: String::from("name"),
        folded: true,
        personal_toolbar_folder: false,
        unfiled_bookmarks_folder: false,
        last_modified: String::from("date"),
        add_date: String::from("date"),
        children: vec![],
    };

    assert_eq!(folder.render(), rendered);
}

#[test]
fn should_get_all_nested_items() {
    let b0 = Bookmark {
        href: String::from("test0"),
        title: String::from("test0"),
        ..Bookmark::default()
    };

    let b1 = Bookmark {
        href: String::from("test1"),
        title: String::from("test1"),
        ..Bookmark::default()
    };

    let f1 = Folder { children: vec![Item::Shortcut(b1.clone())], ..Folder::default() };

    let f0 = Folder { children: vec![Item::Subfolder(f1.clone())], ..Folder::default() };

    let folder = Folder {
        children: vec![Item::Shortcut(b0.clone()), Item::Subfolder(f0.clone())],
        ..Folder::default()
    };

    assert_eq!(folder.children.shortcuts(), vec![&b0, &b1]);
    assert_eq!(folder.children.subfolders(), vec![&f0, &f1]);
}

#[test]
fn bookmark_markup_writes_each_value_as_it_is() {
    let bookmark = Bookmark {
        href: String::from("https://example.org/?a=1&b=2"),
        title: String::from("a <b> & \"c\""),
        add_date: String::from("1"),
        last_visit: String::from("2"),
        last_modified: String::from("3"),
        icon_uri: String::from("https://example.org/favicon.ico"),
        icon: String::from("data:image/png;base64,AAAA"),
    };
    assert_eq!(
        bookmark.render(),
        "<DT><A HREF=\"https://example.org/?a=1&b=2\" ADD_DATE=\"1\" LAST_VISIT=\"2\" LAST_MODIFIED=\"3\" ICON_URI=\"https://example.org/favicon.ico\" ICON=\"data:image/png;base64,AAAA\">a <b> & \"c\"</A>"
    );
    assert_eq!(
        Bookmark::default().render(),
        "<DT><A HREF=\"\" ADD_DATE=\"\" LAST_VISIT=\"\" LAST_MODIFIED=\"\" ICON_URI=\"\" ICON=\"\"></A>"
    );
}

#[test]
fn folder_markup_leaves_out_what_is_empty_or_unset() {
    assert_eq!(Folder::default().render(), "<DT><H3></H3>\n<DL><p>\n</DL><p>");
    let flags = Folder {
        title: String::from("t"),
        personal_toolbar_folder: true,
        unfiled_bookmarks_folder: true,
        ..Folder::default()
    };
    assert_eq!(
        flags.render(),
        "<DT><H3 PERSONAL_TOOLBAR_FOLDER UNFILED_BOOKMARKS_FOLDER>t</H3>\n<DL><p>\n</DL><p>"
    );
    let every = Folder {
        title: String::from("t"),
        folded: true,
        add_date: String::from("1"),
        last_modified: String::from("2"),
        personal_toolbar_folder: true,
        unfiled_bookmarks_folder: true,
        children: vec![],
    };
    assert_eq!(
        every.render(),
        "<DT><H3 FOLDED ADD_DATE=\"1\" LAST_MODIFIED=\"2\" PERSONAL_TOOLBAR_FOLDER UNFILED_BOOKMARKS_FOLDER>t</H3>\n<DL><p>\n</DL><p>"
    );
    let dated = Folder { last_modified: String::from("2"), ..Folder::default() };
    assert_eq!(dated.render(), "<DT><H3 LAST_MODIFIED=\"2\"></H3>\n<DL><p>\n</DL><p>");
}

#[test]
fn folder_markup_lists_entries_one_per_line() {
    let one = Bookmark { href: String::from("1"), title: String::from("one"), ..Bookmark::default() };
    let inner = Folder {
        title: String::from("in"),
        children: vec![Item::Shortcut(one.clone())],
        ..Folder::default()
    };
    let outer = Folder {
        title: String::from("out"),
        children: vec![Item::Subfolder(inner.clone()), Item::Shortcut(one.clone())],
        ..Folder::default()
    };
    let line = "<DT><A HREF=\"1\" ADD_DATE=\"\" LAST_VISIT=\"\" LAST_MODIFIED=\"\" ICON_URI=\"\" ICON=\"\">one</A>";
    assert_eq!(one.render(), line);
    assert_eq!(Item::Shortcut(one.clone()).render(), line);
    assert_eq!(
        inner.render(),
        format!("<DT><H3>in</H3>\n<DL><p>\n{}\n</DL><p>", line)
    );
    assert_eq!(Item::Subfolder(inner.clone()).render(), inner.render());
    assert_eq!(
        outer.render(),
        format!(
            "<DT><H3>out</H3>\n<DL><p>\n<DT><H3>in</H3>\n<DL><p>\n{}\n</DL><p>\n{}\n</DL><p>",
            line, line
        )
    );
}

#[test]
fn document_markup_wraps_head_and_body() {
    let one = Bookmark { href: String::from("1"), title: String::from("one"), ..Bookmark::default() };
    let document = Netscape {
        title: String::from("Bookmarks"),
        h1: String::from("Menu"),
        children: vec![Item::Shortcut(one.clone()), Item::Subfolder(Folder::default())],
    };
    let expected = format!(
        "<!DOCTYPE NETSCAPE-Bookmark-file-1>\n<!-- This is an automatically generated file.\n     It will be read and overwritten.\n     DO NOT EDIT! -->\n<META HTTP-EQUIV=\"Content-Type\" CONTENT=\"text/html; charset=UTF-8\">\n<TITLE>Bookmarks</TITLE>\n<H1>Menu</H1>\n<DL><p>\n{}\n<DT><H3></H3>\n<DL><p>\n</DL><p>\n</DL>",
        one.render()
    );
    assert_eq!(document.to_html(), expected);
    let empty = Netscape { title: String::new(), h1: String::new(), children: vec![] };
    assert_eq!(
        empty.to_html(),
        "<!DOCTYPE NETSCAPE-Bookmark-file-1>\n<!-- This is an automatically generated file.\n     It will be read and overwritten.\n     DO NOT EDIT! -->\n<META HTTP-EQUIV=\"Content-Type\" CONTENT=\"text/html; charset=UTF-8\">\n<TITLE></TITLE>\n<H1></H1>\n<DL><p>\n</DL>"
    );
}
