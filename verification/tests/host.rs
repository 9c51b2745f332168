use contagion_macro::host::{host_in_foreground, mentions_host};

#[test]
fn the_host_is_known_by_its_word() {
    assert!(mentions_host(b"warframe"));
    assert!(mentions_host(b"Warframe"));
    assert!(mentions_host(b"WARFRAME"));
    assert!(mentions_host(b"Warframe.x64.exe"));
    assert!(mentions_host(b"Steam - wArFrAmE\n"));
    assert!(mentions_host(b"xxxxxxxwarframe"));
    assert!(mentions_host(b"warwarframe"));
}

#[test]
fn other_names_are_not_the_host() {
    assert!(!mentions_host(b""));
    assert!(!mentions_host(b"warfram"));
    assert!(!mentions_host(b"arframe"));
    assert!(!mentions_host(b"war frame"));
    assert!(!mentions_host(b"warframX"));
    assert!(!mentions_host(b"w\xc3\xa4rframe"));
    assert!(!mentions_host(b"firefox"));
    // Bytes that differ from a letter of the word by the case bit alone, but
    // are no letters: `@` is not a lower-case backquote, `[` is not `{`.
    assert!(!mentions_host(b"w\x81rframe"));
    assert!(!mentions_host(b"warfram\x85"));
    assert!(!mentions_host(b"7arframe"));
    assert!(!mentions_host(b"warfra-e"));
}

#[test]
fn a_probe_answers_by_the_name_it_read() {
    assert!(host_in_foreground(Some(b"Warframe")));
    assert!(host_in_foreground(Some(b"Warframe.x64.exe")));
    assert!(!host_in_foreground(Some(b"Terminal")));
    assert!(!host_in_foreground(Some(b"")));
}

#[test]
fn a_probe_that_read_no_name_answers_inactive() {
    assert!(!host_in_foreground(None));
}
