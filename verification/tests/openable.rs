use macos_open::{all_openable, scheme_url, url, url_parsed, url_probed, Reading, Source, UrlFault};

#[test]
fn url_keeps_an_absolute_url() {
    assert_eq!(
        url("https://www.google.com/"),
        Reading::Address("https://www.google.com/".to_string())
    );
}

#[test]
fn url_takes_the_serialized_form() {
    assert_eq!(
        url("HTTP://Example.COM/a/../b"),
        Reading::Address("http://example.com/b".to_string())
    );
    assert_eq!(
        url("http://github.com?q=1"),
        Reading::Address("http://github.com/?q=1".to_string())
    );
}

#[test]
fn url_keeps_other_schemes() {
    assert_eq!(
        url("mailto:someone@example.com"),
        Reading::Address("mailto:someone@example.com".to_string())
    );
    assert_eq!(
        url("file:///Applications/Safari.app"),
        Reading::Address("file:///Applications/Safari.app".to_string())
    );
}

#[test]
fn url_encodes_what_is_not_ascii() {
    assert_eq!(
        url("http://github.com?dummy_query1=0&dummy_query2=ｎｏｎａｓｃｉｉ"),
        Reading::Address(
            "http://github.com/?dummy_query1=0&dummy_query2=%EF%BD%8E%EF%BD%8F%EF%BD%8E%EF%BD%81%EF%BD%93%EF%BD%83%EF%BD%89%EF%BD%89"
                .to_string()
        )
    );
}

#[test]
fn url_probes_a_string_without_a_scheme() {
    assert_eq!(url("/Applications/Safari.app"), Reading::Probe);
    assert_eq!(url("Safari"), Reading::Probe);
    assert_eq!(url("docs/readme.txt"), Reading::Probe);
    assert_eq!(url(""), Reading::Probe);
}

#[test]
fn url_hands_on_what_the_parser_rejects() {
    assert_eq!(url("http://[::1"), Reading::Address("http://[::1".to_string()));
    assert_eq!(url("https://"), Reading::Address("https://".to_string()));
}

#[test]
fn url_parsed_follows_the_outcome_of_the_parse() {
    assert_eq!(
        url_parsed("x", Ok("scheme:text".to_string())),
        Reading::Address("scheme:text".to_string())
    );
    assert_eq!(url_parsed("x", Err(UrlFault::RelativeWithoutBase)), Reading::Probe);
    assert_eq!(url_parsed("x", Err(UrlFault::Malformed)), Reading::Address("x".to_string()));
}

#[test]
fn url_probed_is_a_file_where_one_exists() {
    assert_eq!(url_probed("notes.txt", true), Source::File("notes.txt".to_string()));
    assert_eq!(url_probed("notes.txt", false), Source::Address("notes.txt".to_string()));
}

#[test]
fn scheme_url_appends_colon_and_slashes() {
    assert_eq!(scheme_url("https"), "https://");
    assert_eq!(scheme_url("mailto"), "mailto://");
    assert_eq!(scheme_url(""), "://");
}

#[test]
fn scheme_url_is_read_as_an_address() {
    assert_eq!(url(&scheme_url("https")), Reading::Address("https://".to_string()));
    assert_eq!(url(&scheme_url("ftp")), Reading::Address("ftp://".to_string()));
}

#[test]
fn all_openable_keeps_every_conversion_in_order() {
    assert_eq!(all_openable(vec![Some(1), Some(2), Some(3)]), Some(vec![1, 2, 3]));
    assert_eq!(all_openable(vec![Some("a")]), Some(vec!["a"]));
}

#[test]
fn all_openable_fails_where_one_conversion_failed() {
    assert_eq!(all_openable(vec![Some(1), None, Some(3)]), None);
    assert_eq!(all_openable(vec![None, Some(2)]), None);
    assert_eq!(all_openable(vec![Some(1), Some(2), None]), None);
    assert_eq!(all_openable::<u8>(vec![None]), None);
}

#[test]
fn all_openable_of_nothing_is_an_empty_list() {
    assert_eq!(all_openable::<u8>(vec![]), Some(vec![]));
}
