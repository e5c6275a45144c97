use leaderboard_bridge::command::Command;

fn fetch(key: &str) -> Option<Command> {
    Some(Command::Fetch(key.to_string()))
}

fn info(key: &str) -> Option<Command> {
    Some(Command::Info(key.to_string()))
}

/// What the standard library makes of a line: take the line ending off,
/// split at the spaces, compare.
fn by_std(line: &str) -> Option<Command> {
    let line = match line.strip_suffix('\n') {
        Some(rest) => rest.strip_suffix('\r').unwrap_or(rest),
        None => line,
    };
    let parts: Vec<&str> = line.split(" ").collect();
    if parts.len() != 2 {
        return None;
    }
    match parts[0] {
        "FETCH" => fetch(parts[1]),
        "INFO" => info(parts[1]),
        _ => None,
    }
}

#[test]
fn fetch_with_key_is_parsed() {
    assert_eq!(Command::from_string("FETCH 2024-01-01"), fetch("2024-01-01"));
    assert_eq!(Command::parse("FETCH 2024-01-01"), fetch("2024-01-01"));
}

#[test]
fn info_with_key_is_parsed() {
    assert_eq!(Command::from_string("INFO 2024-01-01"), info("2024-01-01"));
    assert_eq!(Command::parse("INFO 2024-01-01"), info("2024-01-01"));
}

#[test]
fn line_ending_is_dropped_by_from_string() {
    assert_eq!(Command::from_string("FETCH 08/15/2013\n"), fetch("08/15/2013"));
    assert_eq!(Command::from_string("INFO 08/15/2013\r\n"), info("08/15/2013"));
    assert_eq!(Command::from_string("INFO 08/15/2013"), info("08/15/2013"));
}

#[test]
fn only_one_line_ending_is_dropped() {
    assert_eq!(Command::from_string("FETCH k\n\n"), fetch("k\n"));
    assert_eq!(Command::from_string("FETCH k\r\r\n"), fetch("k\r"));
    assert_eq!(Command::from_string("FETCH k\r"), fetch("k\r"));
    assert_eq!(Command::from_string("FETCH k\n\r"), fetch("k\n\r"));
    assert_eq!(Command::from_string("\r\n"), None);
    assert_eq!(Command::from_string("FETCH \r"), fetch("\r"));
}

#[test]
fn blank_after_the_verb_gives_the_empty_key() {
    assert_eq!(Command::from_string("FETCH "), fetch(""));
    assert_eq!(Command::from_string("FETCH \n"), fetch(""));
    assert_eq!(Command::from_string("INFO \r\n"), info(""));
}

#[test]
fn blank_after_the_key_is_a_third_token() {
    assert_eq!(Command::from_string("FETCH 2024-01-01 "), None);
    assert_eq!(Command::from_string("FETCH 2024-01-01 \n"), None);
    assert_eq!(Command::from_string("INFO key \t \n"), None);
    assert_eq!(Command::from_string("INFO key  \r\n"), None);
}

#[test]
fn other_white_space_belongs_to_the_key() {
    assert_eq!(Command::from_string("INFO key\t\n"), info("key\t"));
    assert_eq!(Command::from_string("INFO key\u{3000}\u{a0}"), info("key\u{3000}\u{a0}"));
    assert_eq!(Command::from_string("INFO \u{2028}"), info("\u{2028}"));
}

#[test]
fn parse_takes_the_line_as_it_stands() {
    assert_eq!(Command::parse("FETCH key\n"), fetch("key\n"));
    assert_eq!(Command::parse("FETCH key "), None);
    assert_eq!(Command::parse("FETCH "), fetch(""));
    assert_eq!(Command::parse("INFO "), info(""));
}

#[test]
fn empty_line_is_no_command() {
    assert_eq!(Command::from_string(""), None);
    assert_eq!(Command::from_string("\n"), None);
    assert_eq!(Command::from_string("\r\n"), None);
    assert_eq!(Command::from_string("   \r\n"), None);
    assert_eq!(Command::parse(""), None);
}

#[test]
fn wrong_token_count_is_no_command() {
    assert_eq!(Command::from_string("FETCH"), None);
    assert_eq!(Command::from_string("INFO"), None);
    assert_eq!(Command::from_string("FETCH\n"), None);
    assert_eq!(Command::from_string("FETCH a b"), None);
    assert_eq!(Command::from_string("FETCH  a"), None);
    assert_eq!(Command::from_string(" FETCH a"), None);
    assert_eq!(Command::from_string("INFO a b c d"), None);
}

#[test]
fn unknown_verb_is_no_command() {
    assert_eq!(Command::from_string("fetch key"), None);
    assert_eq!(Command::from_string("Info key"), None);
    assert_eq!(Command::from_string("FETCHX key"), None);
    assert_eq!(Command::from_string("FETC key"), None);
    assert_eq!(Command::from_string("INF key"), None);
    assert_eq!(Command::from_string("INFOS key"), None);
    assert_eq!(Command::from_string("STORE key"), None);
    assert_eq!(Command::from_string(" key"), None);
}

#[test]
fn only_the_space_separates_tokens() {
    assert_eq!(Command::from_string("FETCH\tkey"), None);
    assert_eq!(Command::from_string("FETCH a\tb"), fetch("a\tb"));
    assert_eq!(Command::from_string("INFO \u{e9}t\u{e9}"), info("\u{e9}t\u{e9}"));
    assert_eq!(Command::parse("INFO \u{1f600}"), info("\u{1f600}"));
}

#[test]
fn key_is_read_back() {
    assert_eq!(Command::Fetch("a".to_string()).key(), "a");
    assert_eq!(Command::Info("b-c".to_string()).key(), "b-c");
    assert_eq!(Command::from_string("INFO 2024-01-01\n").unwrap().key(), "2024-01-01");
}

#[test]
fn from_string_agrees_with_strip_and_split() {
    let lines = [
        "",
        " ",
        "FETCH",
        "FETCH ",
        "FETCH k",
        "FETCH k\n",
        "FETCH k \n",
        "FETCH k\r\n",
        "FETCH k\r",
        "FETCH k\n\n",
        "FETCH \n",
        "INFO \r\n",
        "\n",
        "\r\n",
        "FETCH  k",
        "INFO k\u{85}",
        "INFO k\u{1680}\n",
        "INFO k l",
        "INFO\u{a0}k",
        "INFO \u{a0}k",
        "info k",
        "FETCH k\0",
        "FETCH \0\n",
    ];
    for line in lines {
        assert_eq!(Command::from_string(line), by_std(line), "{:?}", line);
    }
}
