use rss_parser::Channel;

#[test]
fn test_channel_from_xml_string() {
    let test_channel = r#"
        <rss xmlns:atom="http://www.w3.org/2005/Atom" xmlns:dc="http://purl.org/dc/elements/1.1/">
            <channel>
                <title>Test channel</title>
                <description>This is a test channel</description>
                <link>https://example.com</link>
                <atom:link href="https://example.com/feed.xml"/>
                <item>
                    <title>Test item</title>
                    <description>This is a test item</description>
                    <dc:creator>Test author</dc:creator>
                    <category>Test category</category>
                </item>
            </channel>
        </rss>
    "#;
    let channel = Channel::from(test_channel).unwrap();

    assert_eq!(channel.title, "Test channel");
    assert_eq!(channel.description, "This is a test channel");
}

#[test]
fn title_and_description_are_exact() {
    let content = "<rss><channel><title>A  title with  spaces</title>\
                   <description>desc &amp; more</description></channel></rss>";
    let channel = Channel::from(content).unwrap();
    assert_eq!(channel.title, "A  title with  spaces");
    assert_eq!(channel.description, "desc & more");
}

#[test]
fn channel_without_items_has_empty_item_list() {
    let content = "<rss><channel><title>t</title><link>l</link></channel></rss>";
    let channel = Channel::from(content).unwrap();
    assert!(channel.items.is_empty());
}

#[test]
fn items_keep_document_order() {
    let content = "<rss><channel>\
                   <item><title>one</title></item>\
                   <item><title>two</title></item>\
                   <item><title>three</title></item>\
                   </channel></rss>";
    let channel = Channel::from(content).unwrap();
    assert_eq!(channel.items.len(), 3);
    assert_eq!(channel.items[0].title, "one");
    assert_eq!(channel.items[1].title, "two");
    assert_eq!(channel.items[2].title, "three");
}

#[test]
fn plain_and_atom_link_fill_their_own_fields() {
    let content = r#"<rss xmlns:atom="http://www.w3.org/2005/Atom"><channel>
        <link>https://example.com</link>
        <atom:link href="https://example.com/feed.xml"/>
        </channel></rss>"#;
    let channel = Channel::from(content).unwrap();
    assert_eq!(channel.link, "https://example.com");
    assert_eq!(channel.atom, Some(String::from("https://example.com/feed.xml")));
}

#[test]
fn link_fields_do_not_depend_on_element_order() {
    let content = r#"<rss xmlns:atom="http://www.w3.org/2005/Atom"><channel>
        <atom:link href="https://example.com/feed.xml"/>
        <link>https://example.com</link>
        </channel></rss>"#;
    let channel = Channel::from(content).unwrap();
    assert_eq!(channel.link, "https://example.com");
    assert_eq!(channel.atom, Some(String::from("https://example.com/feed.xml")));
}

#[test]
fn reparsing_yields_the_same_channel() {
    let content = r#"<rss xmlns:atom="http://www.w3.org/2005/Atom"><channel>
        <link>https://example.com</link>
        <atom:link href="https://example.com/feed.xml"/>
        </channel></rss>"#;
    let first = Channel::from(content).unwrap();
    let second = Channel::from(content).unwrap();
    assert_eq!(first.link, second.link);
    assert_eq!(first.atom, second.atom);
    assert_eq!(first.title, second.title);
    assert_eq!(first.items.len(), second.items.len());
}

#[test]
fn atom_link_without_href_falls_back_to_text() {
    let content = r#"<rss xmlns:atom="http://www.w3.org/2005/Atom"><channel>
        <atom:link>https://example.com/text</atom:link>
        </channel></rss>"#;
    let channel = Channel::from(content).unwrap();
    assert_eq!(channel.link, "https://example.com/text");
    assert_eq!(channel.atom, None);
}

#[test]
fn dublin_core_creator_becomes_author() {
    let content = r#"<rss xmlns:dc="http://purl.org/dc/elements/1.1/"><channel>
        <item><dc:creator>Jane Doe</dc:creator></item>
        </channel></rss>"#;
    let channel = Channel::from(content).unwrap();
    assert_eq!(channel.items[0].author, "Jane Doe");
}

#[test]
fn categories_keep_order_and_duplicates() {
    let content = "<rss><channel><item>\
                   <category>A</category><category>B</category><category>A</category>\
                   </item></channel></rss>";
    let channel = Channel::from(content).unwrap();
    assert_eq!(channel.items[0].categories, vec!["A", "B", "A"]);
}

#[test]
fn encoded_element_fills_content() {
    let content = "<rss><channel><item>\
                   <encoded>&lt;p&gt;body&lt;/p&gt;</encoded>\
                   <description>short</description>\
                   </item></channel></rss>";
    let channel = Channel::from(content).unwrap();
    assert_eq!(channel.items[0].content, "<p>body</p>");
    assert_eq!(channel.items[0].description, "short");
}

#[test]
fn repeated_title_last_occurrence_wins() {
    let content = "<rss><channel><title>first</title><title>second</title></channel></rss>";
    let channel = Channel::from(content).unwrap();
    assert_eq!(channel.title, "second");
}

#[test]
fn malformed_document_yields_none() {
    let content = "<rss><channel><title>unclosed";
    assert!(Channel::from(content).is_none());
}

#[test]
fn document_without_channel_yields_none() {
    let content = "<rss><other><title>t</title></other></rss>";
    assert!(Channel::from(content).is_none());
}

#[test]
fn root_channel_is_found() {
    let content = "<channel><title>Test</title></channel>";
    let channel = Channel::from(content).unwrap();
    assert_eq!(channel.title, "Test");
}

#[test]
fn missing_fields_keep_their_defaults() {
    let content = "<rss><channel><item><title>only a title</title></item></channel></rss>";
    let channel = Channel::from(content).unwrap();
    assert_eq!(channel.title, "");
    assert_eq!(channel.link, "");
    assert_eq!(channel.description, "");
    assert_eq!(channel.atom, None);
    let item = &channel.items[0];
    assert_eq!(item.title, "only a title");
    assert_eq!(item.description, "");
    assert_eq!(item.content, "");
    assert_eq!(item.author, "");
    assert!(item.categories.is_empty());
}
