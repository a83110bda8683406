use apub_engine::mentions::scrape_text_for_mentions;

fn scan(text: &str) -> Vec<(Vec<u8>, Vec<u8>)> {
    scrape_text_for_mentions(&text.as_bytes().to_vec())
        .into_iter()
        .map(|m| (m.name, m.domain))
        .collect()
}

#[test]
fn plain_text_has_no_mentions() {
    assert_eq!(scan("hello world"), vec![]);
    assert_eq!(scan(""), vec![]);
}

#[test]
fn bare_mention_names_a_local_user() {
    assert_eq!(scan("hello @B"), vec![(b"B".to_vec(), b"".to_vec())]);
}

#[test]
fn qualified_mention_carries_its_domain() {
    assert_eq!(
        scan("ping @bob@remote.example please"),
        vec![(b"bob".to_vec(), b"remote.example".to_vec())]
    );
}

#[test]
fn several_mentions_come_in_order() {
    assert_eq!(
        scan("@a then @b@x.example then @c"),
        vec![
            (b"a".to_vec(), b"".to_vec()),
            (b"b".to_vec(), b"x.example".to_vec()),
            (b"c".to_vec(), b"".to_vec()),
        ]
    );
}

#[test]
fn marker_without_name_is_no_mention() {
    assert_eq!(scan("mail @ noon"), vec![]);
    assert_eq!(scan("trailing @"), vec![]);
}

#[test]
fn doubled_marker_starts_over() {
    assert_eq!(scan("a@@x"), vec![(b"x".to_vec(), b"".to_vec())]);
}

#[test]
fn punctuation_ends_a_mention() {
    assert_eq!(scan("thanks @B!"), vec![(b"B".to_vec(), b"".to_vec())]);
    assert_eq!(
        scan("(@bob@remote.example)"),
        vec![(b"bob".to_vec(), b"remote.example".to_vec())]
    );
}
