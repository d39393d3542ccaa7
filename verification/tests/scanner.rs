use site_mirror::scan::find_embedded_styles;

#[test]
fn embedded_styles_joined_in_document_order() {
    let html = "<html><head><style>.a{color:red;}</style>\
                <style>.b{color:blue;}</style></head><body></body></html>";
    let joined = find_embedded_styles(html);
    assert_eq!(joined, ".a{color:red;}\n.b{color:blue;}");
}

#[test]
fn embedded_styles_single_block_has_no_newline() {
    let html = "<html><head><style>.a{color:red;}</style></head><body></body></html>";
    let joined = find_embedded_styles(html);
    assert_eq!(joined, ".a{color:red;}");
}

#[test]
fn embedded_styles_empty_when_page_has_none() {
    let html = "<html><head><title>t</title></head><body><p>hello</p></body></html>";
    let joined = find_embedded_styles(html);
    assert_eq!(joined, "");
}
