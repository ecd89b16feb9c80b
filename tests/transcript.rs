use kiku_voice::transcript::assemble_transcript;

#[test]
fn segments_are_joined_and_trimmed() {
    let segments = vec![" Hello".to_string(), " world.".to_string(), "  \n".to_string()];
    assert_eq!(assemble_transcript(&segments), "Hello world.");
}

#[test]
fn no_segments_give_empty_text() {
    assert_eq!(assemble_transcript(&Vec::new()), "");
    assert_eq!(assemble_transcript(&vec!["   ".to_string()]), "");
}

#[test]
fn inner_whitespace_is_kept() {
    let segments = vec!["stop".to_string(), "  now ".to_string()];
    assert_eq!(assemble_transcript(&segments), "stop  now");
}
