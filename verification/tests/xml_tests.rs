use leaderboard_bridge::xml::{
    get_error, render_details, render_entries, render_info, Entry, LeaderboardRef, APP_ID,
};

fn row(user: u64, score: i32, global_rank: i32, details: [i32; 2]) -> Entry {
    Entry { user, score, global_rank, details }
}

#[test]
fn error_document_is_exact() {
    assert_eq!(
        get_error("Leaderboard NOT FOUND"),
        "<response>\n <status>0</status>\n <message>Leaderboard NOT FOUND</message>\n</response>\n"
    );
    assert_eq!(
        get_error(""),
        "<response>\n <status>0</status>\n <message></message>\n</response>\n"
    );
}

#[test]
fn error_message_is_not_escaped() {
    assert_eq!(
        get_error("a<b>&c"),
        "<response>\n <status>0</status>\n <message>a<b>&c</message>\n</response>\n"
    );
}

#[test]
fn info_document_is_exact() {
    let text = render_info(LeaderboardRef { raw: 1204560 }, "2024-01-01 DAILY", 317);
    assert_eq!(
        text,
        "<leaderboard>\n <url>http://mossranking.com/xml/1204560.xml</url>\n <lbid>1204560</lbid>\n \
         <name>2024-01-01 DAILY</name>\n <display_name>2024-01-01 DAILY</display_name>\n \
         <entries>317</entries>\n <sortmethod>2</sortmethod>\n <displaytype>1</displaytype>\n\
         </leaderboard>\n"
    );
}

#[test]
fn info_document_of_extremes() {
    let text = render_info(LeaderboardRef { raw: u64::MAX }, "", -1);
    assert_eq!(
        text,
        "<leaderboard>\n <url>http://mossranking.com/xml/18446744073709551615.xml</url>\n \
         <lbid>18446744073709551615</lbid>\n <name></name>\n <display_name></display_name>\n \
         <entries>-1</entries>\n <sortmethod>2</sortmethod>\n <displaytype>1</displaytype>\n\
         </leaderboard>\n"
    );
}

#[test]
fn details_seven_and_ten() {
    assert_eq!(render_details(&[0x07, 0x0a]), "070000000a000000");
}

#[test]
fn details_carry_the_low_byte_only() {
    assert_eq!(render_details(&[0, 0]), "0000000000000000");
    assert_eq!(render_details(&[255, 16]), "ff00000010000000");
    assert_eq!(render_details(&[0x1234, 0x100]), "3400000000000000");
    assert_eq!(render_details(&[-1, i32::MIN]), "ff00000000000000");
    assert_eq!(render_details(&[-2, i32::MAX]), "fe000000ff000000");
}

#[test]
fn details_have_sixteen_digits() {
    for a in [i32::MIN, -300, -1, 0, 1, 15, 16, 255, 256, 70000, i32::MAX] {
        for b in [i32::MIN, -7, 0, 9, 10, 4096, i32::MAX] {
            let text = render_details(&[a, b]);
            assert_eq!(text.len(), 16);
            assert!(text.chars().all(|c| c.is_ascii_digit() || ('a'..='f').contains(&c)));
            assert_eq!(&text[2..8], "000000");
            assert_eq!(&text[10..16], "000000");
        }
    }
}

#[test]
fn entries_document_without_rows() {
    let text = render_entries(LeaderboardRef { raw: 5 }, "n", 0, &Vec::new());
    assert_eq!(
        text,
        "<response>\n<appID>239350</appID>\n<leaderboardID>5</leaderboardID>\n<name>n</name>\n\
         <entryStart>0</entryStart>\n<entryEnd>0</entryEnd>\n<resultCount>0</resultCount>\n \
         <entries>\n </entries>\n</response>\n"
    );
}

#[test]
fn entries_document_is_exact() {
    let rows = vec![
        row(76561197960287930, 152300, 1, [0x07, 0x0a]),
        row(76561198000000001, -5, 2, [0x114, -1]),
    ];
    let text = render_entries(LeaderboardRef { raw: 9001 }, "08/15/2013 DAILY", 2, &rows);
    let expected = "<response>\n\
<appID>239350</appID>\n\
<leaderboardID>9001</leaderboardID>\n\
<name>08/15/2013 DAILY</name>\n\
<entryStart>0</entryStart>\n\
<entryEnd>2</entryEnd>\n\
<resultCount>2</resultCount>\n \
<entries>\n  \
<entry>\n   \
<steamid>76561197960287930</steamid>\n   \
<score>152300</score>\n   \
<rank>1</rank>\n   \
<ugcid>-1</ugcid>\n   \
<details>070000000a000000</details>\n  \
</entry>\n  \
<entry>\n   \
<steamid>76561198000000001</steamid>\n   \
<score>-5</score>\n   \
<rank>2</rank>\n   \
<ugcid>-1</ugcid>\n   \
<details>14000000ff000000</details>\n  \
</entry>\n \
</entries>\n\
</response>\n";
    assert_eq!(text, expected);
}

#[test]
fn entries_document_counts_the_whole_leaderboard() {
    let rows = vec![row(1, 2, 3, [4, 5])];
    let text = render_entries(LeaderboardRef { raw: 1 }, "x", 1500, &rows);
    assert!(text.contains("<entryEnd>1500</entryEnd>\n<resultCount>1500</resultCount>\n"));
    assert_eq!(text.matches("<entry>").count(), 1);
}

#[test]
fn rows_keep_their_order() {
    let rows: Vec<Entry> = (1..=40).map(|i| row(1000 + i as u64, 500 - i, i, [i, 2 * i])).collect();
    let text = render_entries(LeaderboardRef { raw: 1 }, "x", 40, &rows);
    let mut at = 0;
    for i in 1..=40 {
        let needle = format!("   <rank>{}</rank>\n", i);
        let found = text[at..].find(&needle).expect("rank in order");
        at += found + needle.len();
    }
    assert_eq!(text.matches("  <entry>\n").count(), 40);
    assert!(text.ends_with("  </entry>\n </entries>\n</response>\n"));
}

#[test]
fn app_id_is_fixed() {
    assert_eq!(APP_ID, 239350);
}
