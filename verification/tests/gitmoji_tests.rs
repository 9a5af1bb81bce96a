use cargo_semantic_release::gitmoji::Gitmoji;

#[test]
fn gitmoji_display_formatting() {
    // Given
    let gitmojis = vec![
        (Gitmoji::Tada, "🎉"),
        (Gitmoji::Beers, "🍻"),
        (Gitmoji::Boom, "💥"),
    ];

    for (gitmoji, emoji_utf) in gitmojis {
        // When
        let result = gitmoji.display_string();

        // Then
        assert_eq!(result, emoji_utf.to_string())
    }
}

#[test]
fn as_shortcode() {
    // Given
    let gitmojis = vec![
        (Gitmoji::Tada, ":tada:"),
        (Gitmoji::Beers, ":beers:"),
        (Gitmoji::Boom, ":boom:"),
    ];

    for (gitmoji, emoji_utf) in gitmojis {
        // When
        let result = gitmoji.as_shortcode();

        // Then
        assert_eq!(result, emoji_utf)
    }
}

#[test]
fn as_utf() {
    // Given
    let gitmojis = vec![
        (Gitmoji::Tada, "🎉"),
        (Gitmoji::Beers, "🍻"),
        (Gitmoji::Boom, "💥"),
    ];

    for (gitmoji, emoji_utf) in gitmojis {
        // When
        let result = gitmoji.as_utf();

        // Then
        assert_eq!(result, emoji_utf)
    }
}

#[test]
fn test_from_str() {
    // Given
    let str = "hello :boom:";

    // When
    let result = Gitmoji::try_from(str).expect("Failed to parse");

    // Then
    assert_eq!(result, Gitmoji::Boom);
}

#[test]
fn classification_is_unambiguous() {
    // A message holding both a major-bucket symbol and a minor-bucket
    // symbol classifies as exactly the first catalogue match.
    let result = Gitmoji::try_from("💥 and ✨ at once").expect("Failed to parse");
    assert_eq!(result, Gitmoji::Boom);

    let reversed = Gitmoji::try_from("✨ and 💥 at once").expect("Failed to parse");
    assert_eq!(reversed, Gitmoji::Boom);

    let shortcodes = Gitmoji::try_from(":sparkles: then :boom:").expect("Failed to parse");
    assert_eq!(shortcodes, Gitmoji::Boom);
}

#[test]
fn unrecognised_text_has_no_intention() {
    assert!(Gitmoji::try_from("plain refactoring commit").is_err());
    assert!(Gitmoji::try_from("").is_err());
}

#[test]
fn gitmoji_map_pairs_symbols() {
    let map = cargo_semantic_release::gitmoji::gitmoji_map();
    assert_eq!(map.len(), 73);
    for (gitmoji, emoji) in &map {
        assert_eq!(emoji.utf, gitmoji.as_utf());
        assert_eq!(emoji.shortcode, gitmoji.as_shortcode());
    }
    assert_eq!(map[0].0, Gitmoji::Boom);
}
