use twat::config::telegram::OwnedTelegramConfig;
use twat::config::twitter::OwnedTwitterConfig;
use twat::decimal::{format_u64, parse_u64};
use twat::twitter::{
    tweet_lines, TweetLine, TweetSource,
    alert_message, format_login, get_root_user, get_text, parse_login, StoredLogin, Tweet,
    TwitterUser,
};

fn user(id: u64, name: &str) -> Option<Box<TwitterUser>> {
    Some(Box::new(TwitterUser { id, name: name.to_uppercase(), screen_name: name.to_string() }))
}

fn tweet(text: &str, author: Option<Box<TwitterUser>>, retweeted: Option<Tweet>) -> Tweet {
    Tweet {
        text: text.to_string(),
        user: author,
        created_at: 0,
        in_reply_to_screen_name: None,
        retweeted_status: retweeted.map(Box::new),
        source: None,
        place: None,
        quoted_status: None,
        hashtags: vec![],
        symbols: vec![],
        urls: vec![],
        user_mentions: vec![],
        media_types: None,
    }
}

#[test]
fn plain_tweet_text() {
    let tweet = tweet("hello", user(1, "alice"), None);
    assert_eq!(get_text(&tweet), "hello");
    assert_eq!(get_root_user(&tweet), 1);
}

#[test]
fn retweet_text_names_the_author() {
    let original = tweet("road closed", user(2, "bob"), None);
    let retweet = tweet("RT @bob: road cl…", user(1, "alice"), Some(original));
    assert_eq!(get_text(&retweet), "RT bob: road closed");
    assert_eq!(get_root_user(&retweet), 2);
}

#[test]
fn nested_retweets_follow_the_chain() {
    let original = tweet("x", user(3, "carol"), None);
    let middle = tweet("m", user(2, "bob"), Some(original));
    let outer = tweet("o", user(1, "alice"), Some(middle));
    assert_eq!(get_text(&outer), "RT bob: RT carol: x");
    assert_eq!(get_root_user(&outer), 3);
}

#[test]
fn alert_body() {
    assert_eq!(alert_message("trafficscotland", "A77 closed"), "<b>trafficscotland</b>: A77 closed");
    assert_eq!(alert_message("", ""), "<b></b>: ");
}

#[test]
fn decimal_parsing() {
    assert_eq!(parse_u64("42"), Some(42));
    assert_eq!(parse_u64("+42"), Some(42));
    assert_eq!(parse_u64("007"), Some(7));
    assert_eq!(parse_u64(""), None);
    assert_eq!(parse_u64("+"), None);
    assert_eq!(parse_u64("-1"), None);
    assert_eq!(parse_u64("4a"), None);
    assert_eq!(parse_u64(" 4"), None);
    assert_eq!(parse_u64("18446744073709551615"), Some(u64::MAX));
    assert_eq!(parse_u64("18446744073709551616"), None);
    assert_eq!(parse_u64("99999999999999999999x"), None);
    for s in ["0", "12", "+9", "18446744073709551615", "1x", "", "-3"] {
        assert_eq!(parse_u64(s), u64::from_str_radix(s, 10).ok(), "{}", s);
    }
}

#[test]
fn decimal_printing() {
    assert_eq!(format_u64(0), "0");
    assert_eq!(format_u64(1234567890), "1234567890");
    assert_eq!(format_u64(u64::MAX), "18446744073709551615");
    for n in [0u64, 9, 10, 99, 100, 4096, u64::MAX] {
        assert_eq!(parse_u64(&format_u64(n)), Some(n));
    }
}

#[test]
fn login_round_trip() {
    let login = StoredLogin {
        username: "twatbot".to_string(),
        user_id: 1234567,
        key: "access-key".to_string(),
        secret: "access-secret".to_string(),
    };
    let text = format_login(&login);
    assert_eq!(text, "twatbot\n1234567\naccess-key\naccess-secret");
    let back = parse_login(&text).unwrap();
    assert_eq!(back.username, "twatbot");
    assert_eq!(back.user_id, 1234567);
    assert_eq!(back.key, "access-key");
    assert_eq!(back.secret, "access-secret");
}

#[test]
fn login_parsing_edges() {
    assert!(parse_login("").is_none());
    assert!(parse_login("a\n1\nk").is_none());
    assert!(parse_login("a\nnot-a-number\nk\ns").is_none());
    let extra = parse_login("a\n+5\nk\ns\nignored\n").unwrap();
    assert_eq!(extra.username, "a");
    assert_eq!(extra.user_id, 5);
    assert_eq!(extra.key, "k");
    assert_eq!(extra.secret, "s");
    let empty_fields = parse_login("\n0\n\n").unwrap();
    assert_eq!(empty_fields.username, "");
    assert_eq!(empty_fields.user_id, 0);
    assert_eq!(empty_fields.key, "");
    assert_eq!(empty_fields.secret, "");
}

#[test]
fn static_configs_keep_their_values() {
    let telegram = OwnedTelegramConfig { bot_token: "123:abc".to_string(), chat: -42 }.into_static();
    assert_eq!(telegram.bot_token, "123:abc");
    assert_eq!(telegram.chat, -42);
    let twitter = OwnedTwitterConfig { key: "ck".to_string(), secret: "cs".to_string() }.into_static();
    assert_eq!(twitter.key, "ck");
    assert_eq!(twitter.secret, "cs");
}

#[test]
fn author_presence_checks() {
    let anonymous = tweet("x", None, None);
    assert!(twat::twitter::retweet_authors_present(&anonymous));
    assert!(!twat::twitter::authors_present(&anonymous));
    let retweet_of_anonymous = tweet("y", user(1, "alice"), Some(anonymous));
    assert!(!twat::twitter::retweet_authors_present(&retweet_of_anonymous));
    assert!(!twat::twitter::authors_present(&retweet_of_anonymous));
    let fine = tweet("z", user(1, "alice"), Some(tweet("w", user(2, "bob"), None)));
    assert!(twat::twitter::retweet_authors_present(&fine));
    assert!(twat::twitter::authors_present(&fine));
}

#[test]
fn console_log_of_a_plain_tweet() {
    let mut t = tweet("A77 closed", user(1, "traffic"), None);
    t.created_at = 1600000000;
    t.in_reply_to_screen_name = Some("bob".to_string());
    t.source = Some(TweetSource { name: "web".to_string(), url: "https://x".to_string() });
    t.place = Some("Ayr".to_string());
    t.hashtags = vec!["TSIncident".to_string()];
    t.urls = vec![None, Some("https://t.co/v42".to_string())];
    t.user_mentions = vec!["alice".to_string(), "carol".to_string()];
    t.media_types = Some(vec![]);
    let lines = tweet_lines(&t);
    assert_eq!(lines.len(), 13);
    assert!(matches!(&lines[0], TweetLine::Posted { name, screen_name, created_at } if name == "TRAFFIC" && screen_name == "traffic" && *created_at == 1600000000));
    assert!(matches!(&lines[1], TweetLine::InReplyTo(n) if n == "bob"));
    assert!(matches!(&lines[2], TweetLine::Text(x) if x == "A77 closed"));
    assert!(matches!(&lines[3], TweetLine::Via { name, url } if name == "web" && url == "https://x"));
    assert!(matches!(&lines[4], TweetLine::From(p) if p == "Ayr"));
    assert!(matches!(&lines[5], TweetLine::HashtagsHeader));
    assert!(matches!(&lines[6], TweetLine::Hashtag(h) if h == "TSIncident"));
    assert!(matches!(&lines[7], TweetLine::UrlsHeader));
    assert!(matches!(&lines[8], TweetLine::Url(u) if u == "https://t.co/v42"));
    assert!(matches!(&lines[9], TweetLine::MentionsHeader));
    assert!(matches!(&lines[10], TweetLine::Mention(m) if m == "alice"));
    assert!(matches!(&lines[11], TweetLine::Mention(m) if m == "carol"));
    assert!(matches!(&lines[12], TweetLine::MediaHeader));
}

#[test]
fn console_log_of_retweets_and_quotes() {
    let mut original = tweet("original", user(2, "bob"), None);
    original.hashtags = vec!["x".to_string()];
    let mut retweet = tweet("RT ...", user(1, "alice"), Some(original));
    retweet.hashtags = vec!["ignored".to_string()];
    let lines = tweet_lines(&retweet);
    assert_eq!(lines.len(), 6);
    assert!(matches!(&lines[1], TweetLine::Retweet));
    assert!(matches!(&lines[2], TweetLine::Posted { screen_name, .. } if screen_name == "bob"));
    assert!(matches!(&lines[3], TweetLine::Text(x) if x == "original"));
    assert!(matches!(&lines[5], TweetLine::Hashtag(h) if h == "x"));

    let mut quoting = tweet("look", None, None);
    quoting.quoted_status = Some(Box::new(tweet("quoted", user(3, "carol"), None)));
    quoting.symbols = vec!["ACME".to_string()];
    let lines = tweet_lines(&quoting);
    assert_eq!(lines.len(), 6);
    assert!(matches!(&lines[0], TweetLine::Text(x) if x == "look"));
    assert!(matches!(&lines[1], TweetLine::Quoting));
    assert!(matches!(&lines[3], TweetLine::Text(x) if x == "quoted"));
    assert!(matches!(&lines[4], TweetLine::SymbolsHeader));
    assert!(matches!(&lines[5], TweetLine::Symbol(x) if x == "ACME"));
}
