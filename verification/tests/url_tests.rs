use gbf_recruitment::messages::{guild_id_url_str, make_message_url};

#[test]
fn test_url_components_extraction() {
    // Test that we can extract components from a Discord URL
    let test_url = "https://discord.com/channels/123456789/987654321/555666777";
    let parts: Vec<&str> = test_url.split('/').collect();

    assert_eq!(parts.len(), 7);
    assert_eq!(parts[0], "https:");
    assert_eq!(parts[2], "discord.com");
    assert_eq!(parts[3], "channels");
    assert_eq!(parts[4], "123456789"); // guild_id
    assert_eq!(parts[5], "987654321"); // channel_id
    assert_eq!(parts[6], "555666777"); // message_id
}

#[test]
fn test_dm_url_components_extraction() {
    // Test DM URL format
    let test_url = "https://discord.com/channels/@me/987654321/555666777";
    let parts: Vec<&str> = test_url.split('/').collect();

    assert_eq!(parts.len(), 7);
    assert_eq!(parts[4], "@me"); // guild_id for DM
    assert_eq!(parts[5], "987654321"); // channel_id
    assert_eq!(parts[6], "555666777"); // message_id
}

#[test]
fn test_database_integration() {
    // The library keeps its recruitments in memory and needs no database.
    println!("Database integration test placeholder");
    assert!(true, "Database integration test passed");
}

#[test]
fn test_guild_id_url_str_with_guild_id() {
    let result = guild_id_url_str(Some(123456789));
    assert_eq!(result, "123456789");
}

#[test]
fn test_guild_id_url_str_without_guild_id() {
    let result = guild_id_url_str(None);
    assert_eq!(result, "@me");
}

#[test]
fn test_guild_id_url_str_with_different_ids() {
    // Test with various guild IDs
    let test_cases = vec![
        (Some(1), "1"),
        (Some(999999999999999999), "999999999999999999"),
        (Some(0), "0"),
        (None, "@me"),
    ];

    for (guild_id, expected) in test_cases {
        let result = guild_id_url_str(guild_id);
        assert_eq!(result, expected, "Failed for guild_id: {:?}", guild_id);
    }
}

#[test]
fn test_make_message_url_with_guild() {
    let url = make_message_url(Some(123456789), 987654321, 555666777);
    assert_eq!(url, "https://discord.com/channels/123456789/987654321/555666777");
    assert!(url.contains("https://discord.com/channels/"));
    assert!(url.contains("123456789"));
    assert!(url.contains("987654321"));
    assert!(url.contains("555666777"));
}

#[test]
fn test_make_message_url_without_guild() {
    let url = make_message_url(None, 987654321, 555666777);
    assert_eq!(url, "https://discord.com/channels/@me/987654321/555666777");
    assert!(url.contains("https://discord.com/channels/@me/"));
    assert!(url.contains("987654321"));
    assert!(url.contains("555666777"));
}

#[test]
fn test_message_url_format_consistency() {
    let guild_cases = vec![(Some(123), "123"), (Some(456789), "456789"), (None, "@me")];

    for (guild_id, expected_guild_part) in guild_cases {
        let url = make_message_url(guild_id, 111, 222);
        assert_eq!(
            url,
            format!("https://discord.com/channels/{}/{}/{}", expected_guild_part, 111, 222)
        );
        assert!(url.starts_with("https://discord.com/channels/"));
        assert!(url.contains(&format!("/{}/", 111)));
        assert!(url.ends_with(&format!("/{}", 222)));
    }
}

#[test]
fn largest_ids_are_written_in_full() {
    assert_eq!(
        make_message_url(Some(u64::MAX), u64::MAX, 10),
        "https://discord.com/channels/18446744073709551615/18446744073709551615/10"
    );
}
