use streamdl::sources::extract_sources;

#[test]
fn extracts_the_player_sources_in_document_order() {
    let html = "<html><body><video id=\"my-player\">\
                <source src=\"a.mp4\" res=\"720p\">\
                <source src=\"b.mp4\" res=\"1080p\">\
                </video></body></html>";
    let sources = extract_sources(html);
    assert_eq!(sources.len(), 2);
    assert_eq!(sources[0].url, "a.mp4");
    assert_eq!(sources[0].resolution, "720p");
    assert_eq!(sources[1].url, "b.mp4");
    assert_eq!(sources[1].resolution, "1080p");
}

#[test]
fn page_without_the_player_yields_no_sources() {
    let html = "<html><body><video id=\"other\">\
                <source src=\"a.mp4\" res=\"720p\">\
                </video></body></html>";
    let sources = extract_sources(html);
    assert!(sources.is_empty());
}

#[test]
fn missing_attributes_read_as_empty_strings() {
    let html = "<html><body><video id=\"my-player\">\
                <source src=\"a.mp4\">\
                </video></body></html>";
    let sources = extract_sources(html);
    assert_eq!(sources.len(), 1);
    assert_eq!(sources[0].url, "a.mp4");
    assert_eq!(sources[0].resolution, "");
}

#[test]
fn sources_outside_the_player_are_ignored() {
    let html = "<html><body>\
                <video id=\"my-player\"><source src=\"in.mp4\" res=\"480p\"></video>\
                <video id=\"second\"><source src=\"out.mp4\" res=\"720p\"></video>\
                </body></html>";
    let sources = extract_sources(html);
    assert_eq!(sources.len(), 1);
    assert_eq!(sources[0].url, "in.mp4");
}
