use twat::pattern::{Pattern, PatternError};
use twat::alert::plan_alert;
use twat::rule::{default_true_value, Chat, Range, Rule, TweetInfo, Verdict};

fn pattern(source: &str) -> Pattern {
    Pattern::new(source).unwrap()
}

fn traffic_rule(active_hours: Option<Vec<Range>>) -> Rule {
    Rule {
        name: "trafficscotland".to_string(),
        chats: vec![Chat { chat: 123 }],
        includes: pattern("a76[\\D$]|irvine|kilmarnock|a77[\\D$]|m77[\\D$]|bellfield|galston"),
        excludes: Some(pattern("safety|careful")),
        active_hours,
        active_days: Some(pattern("Mon|Tue|Wed|Thu|Fri")),
        include_images: default_true_value(),
        webpage_preview: default_true_value(),
    }
}

#[test]
fn rules_timing_tests() {
    let tweet = TweetInfo {
        text: "A77 B730 Symington - A78 Monkton - Closure, All lanes closed Northbound https://t.co/v42ucR1Q32 #TSIncident".to_string(),
        hour: 8,
        day: "Mon".to_string(),
        retweeted: false,
        user: 1,
        rtuser: 0,
        screen_name: &"trafficscotland".to_string(),
        followed_users: &vec![1u64],
    };

    let range = Range {
        start: 6,
        end: 10,
        excludes: Some(Pattern::new("southbound|s/b").unwrap()),
    };

    let chat = Chat {
        chat: 123,
    };

    let mut rule = Rule {
        name: "trafficscotland".to_string(),
        chats: vec![chat],
        includes: Pattern::new("a76[\\D$]|irvine|kilmarnock|a77[\\D$]|m77[\\D$]|bellfield|galston").unwrap(),
        excludes: Some(Pattern::new("safety|careful").unwrap()),
        active_hours: Some(vec![range]),
        active_days: Some(Pattern::new("Mon|Tue|Wed|Thu|Fri").unwrap()),
        include_images: default_true_value(),
        webpage_preview: default_true_value(),
    };

    assert!(rule.matches(&tweet));

    let eve_range = Range {
        start: 14,
        end: 18,
        excludes: Some(Pattern::new("southbound|s/b").unwrap()),
    };

    rule.active_hours = Some(vec![eve_range]);

    assert!(!rule.matches(&tweet));

    let excl_range = Range {
        start: 6,
        end: 10,
        excludes: Some(Pattern::new("northbound|n/b").unwrap()),
    };

    rule.active_hours = Some(vec![excl_range]);

    assert!(!rule.matches(&tweet));
}

#[test]
fn patterns_ignore_case() {
    let name = "trafficscotland".to_string();
    let followed = vec![1u64];
    let tweet = TweetInfo {
        text: "Closure on the m77 northbound".to_string(),
        hour: 8,
        day: "tue".to_string(),
        retweeted: false,
        user: 1,
        rtuser: 0,
        screen_name: &name,
        followed_users: &followed,
    };
    assert!(traffic_rule(None).matches(&tweet));
    let upper = TweetInfo { text: "CLOSURE ON THE M77 NB".to_string(), ..tweet };
    assert!(traffic_rule(None).matches(&upper));
    let careful = TweetInfo { text: "M77: Drive CAREFUL".to_string(), ..upper };
    assert!(!traffic_rule(None).matches(&careful));
    let elsewhere = TweetInfo { text: "M8 closed".to_string(), ..careful };
    assert!(!traffic_rule(None).matches(&elsewhere));
}

fn tweet_at<'a>(text: &str, hour: u32, day: &str, name: &'a String, followed: &'a Vec<u64>) -> TweetInfo<'a> {
    TweetInfo {
        text: text.to_string(),
        hour,
        day: day.to_string(),
        retweeted: false,
        user: 7,
        rtuser: 0,
        screen_name: name,
        followed_users: followed,
    }
}

#[test]
fn other_accounts_never_match() {
    let name = "someoneelse".to_string();
    let followed = vec![];
    let tweet = tweet_at("irvine closed", 8, "Mon", &name, &followed);
    assert!(!traffic_rule(None).matches(&tweet));
}

#[test]
fn retweets_of_followed_accounts_are_silenced() {
    let name = "trafficscotland".to_string();
    let followed = vec![5u64, 9u64];
    let mut tweet = tweet_at("irvine closed", 8, "Mon", &name, &followed);
    tweet.retweeted = true;
    tweet.rtuser = 9;
    assert!(!traffic_rule(None).matches(&tweet));
    tweet.rtuser = 4;
    assert!(traffic_rule(None).matches(&tweet));
    tweet.retweeted = false;
    tweet.rtuser = 9;
    assert!(traffic_rule(None).matches(&tweet));
}

#[test]
fn excluded_text_is_silenced() {
    let name = "trafficscotland".to_string();
    let followed = vec![];
    let tweet = tweet_at("irvine: drive careful", 8, "Mon", &name, &followed);
    assert!(!traffic_rule(None).matches(&tweet));
    let mut rule = traffic_rule(None);
    rule.excludes = None;
    assert!(rule.matches(&tweet));
}

#[test]
fn inactive_days_are_silenced() {
    let name = "trafficscotland".to_string();
    let followed = vec![];
    let weekend = tweet_at("irvine closed", 8, "Sat", &name, &followed);
    assert!(!traffic_rule(None).matches(&weekend));
    let mut rule = traffic_rule(None);
    rule.active_days = None;
    assert!(rule.matches(&weekend));
}

#[test]
fn hours_bounds_are_inclusive() {
    let name = "trafficscotland".to_string();
    let followed = vec![];
    let hours = || Some(vec![Range { start: 6, end: 10, excludes: None }]);
    for (hour, expected) in [(5, false), (6, true), (10, true), (11, false)] {
        let tweet = tweet_at("irvine closed", hour, "Wed", &name, &followed);
        assert_eq!(traffic_rule(hours()).matches(&tweet), expected, "hour {}", hour);
    }
}

#[test]
fn no_active_hours_means_all_hours() {
    let name = "trafficscotland".to_string();
    let followed = vec![];
    for hour in [0, 12, 23, 99] {
        let tweet = tweet_at("irvine closed", hour, "Wed", &name, &followed);
        assert!(traffic_rule(None).matches(&tweet));
    }
    let empty = tweet_at("irvine closed", 12, "Wed", &name, &followed);
    assert!(!traffic_rule(Some(vec![])).matches(&empty));
}

#[test]
fn only_first_covering_range_applies() {
    let name = "trafficscotland".to_string();
    let followed = vec![];
    let tweet = tweet_at("irvine closed southbound", 8, "Wed", &name, &followed);
    let plain_first = Some(vec![
        Range { start: 0, end: 3, excludes: Some(pattern("irvine")) },
        Range { start: 6, end: 10, excludes: None },
        Range { start: 7, end: 9, excludes: Some(pattern("southbound")) },
    ]);
    assert!(traffic_rule(plain_first).matches(&tweet));
    let excluding_first = Some(vec![
        Range { start: 7, end: 9, excludes: Some(pattern("southbound")) },
        Range { start: 6, end: 10, excludes: None },
    ]);
    assert!(!traffic_rule(excluding_first).matches(&tweet));
}

#[test]
fn webpage_preview_table() {
    let mut rule = traffic_rule(None);
    rule.webpage_preview = false;
    assert!(!rule.webpage_preview_for(false));
    assert!(!rule.webpage_preview_for(true));
    rule.webpage_preview = true;
    assert!(!rule.webpage_preview_for(true));
    assert!(rule.webpage_preview_for(false));
}

#[test]
fn default_flags_are_true() {
    assert!(default_true_value());
}

#[test]
fn patterns_keep_their_source() {
    let p = pattern("Mon|Tue");
    assert_eq!(p.as_str(), "Mon|Tue");
}

#[test]
fn invalid_patterns_are_refused() {
    assert!(matches!(Pattern::new("foo(bar"), Err(PatternError::Syntax(_))));
    assert!(matches!(Pattern::new(r"\w{1000}"), Err(PatternError::CompiledTooBig(_))));
    assert!(Pattern::new(r"(?-u:\w){1000}").is_ok());
}

#[test]
fn regexx() {
    let rgx = Pattern::new("(?i)a76[\\D$]|irvine|kilmarnock|a77[\\D$]|m77[\\D$]|bellfield|galston").unwrap();
    let teststr = "UPDATE❗️⌚️07:50

    #M8 roadworks junction 15 to junction 18🚧
    
    Slow westbound from J13
    Eastbound from J22
    
    #M77 slow northbound J2 
    #M74 slow northbound J3A to J1A 
    
    @SWTrunkRoads
     @GlasgowCC";

    let name = "SWTrunkRoads".to_string();
    let followed = vec![];
    let rule = Rule {
        name: name.clone(),
        chats: vec![],
        includes: rgx,
        excludes: None,
        active_hours: None,
        active_days: None,
        include_images: true,
        webpage_preview: true,
    };
    let found = rule.matches(&tweet_at(teststr, 7, "Mon", &name, &followed));
    println!("Match? {}", found);
    assert!(found);
}

#[test]
fn verdicts_name_the_failing_check() {
    let name = "trafficscotland".to_string();
    let other = "someone".to_string();
    let followed = vec![9u64];
    let hours = || Some(vec![Range { start: 6, end: 10, excludes: Some(pattern("southbound")) }]);
    let rule = traffic_rule(hours());
    assert_eq!(rule.verdict(&tweet_at("irvine", 8, "Mon", &other, &followed)), Verdict::OtherAccount);
    assert_eq!(rule.verdict(&tweet_at("irvine", 12, "Mon", &name, &followed)), Verdict::NoActiveRange);
    let mut rt = tweet_at("irvine", 8, "Mon", &name, &followed);
    rt.retweeted = true;
    rt.rtuser = 9;
    assert_eq!(rule.verdict(&rt), Verdict::FollowedRetweet);
    assert_eq!(rule.verdict(&tweet_at("irvine", 8, "Sun", &name, &followed)), Verdict::InactiveDay);
    assert_eq!(rule.verdict(&tweet_at("irvine southbound", 8, "Mon", &name, &followed)), Verdict::RangeExcluded);
    assert_eq!(rule.verdict(&tweet_at("glasgow", 8, "Mon", &name, &followed)), Verdict::NotIncluded);
    assert_eq!(rule.verdict(&tweet_at("irvine, be careful", 8, "Mon", &name, &followed)), Verdict::Excluded);
    assert_eq!(rule.verdict(&tweet_at("irvine", 8, "Mon", &name, &followed)), Verdict::Fires);
}

#[test]
fn cloned_rules_behave_the_same() {
    let name = "trafficscotland".to_string();
    let followed = vec![];
    let rule = traffic_rule(Some(vec![Range { start: 6, end: 10, excludes: Some(pattern("southbound")) }]));
    let copy = rule.clone();
    assert_eq!(copy.includes.as_str(), rule.includes.as_str());
    for text in ["irvine", "IRVINE southbound", "glasgow"] {
        let tweet = tweet_at(text, 8, "Mon", &name, &followed);
        assert_eq!(copy.matches(&tweet), rule.matches(&tweet));
    }
}

#[test]
fn alert_plans() {
    let mut rule = traffic_rule(None);
    rule.chats = vec![Chat { chat: 1 }, Chat { chat: -2 }];
    let urls = vec!["https://p/1.jpg".to_string(), "https://p/2.jpg".to_string()];
    let plan = plan_alert(&rule, "trafficscotland", "A77 closed", false, Some(&urls));
    assert_eq!(plan.messages.len(), 2);
    assert_eq!(plan.messages[0].chat, 1);
    assert_eq!(plan.messages[1].chat, -2);
    assert_eq!(plan.messages[1].html, "<b>trafficscotland</b>: A77 closed");
    assert!(plan.messages[0].web_page_preview);
    assert!(plan.pause_before_images);
    assert_eq!(plan.albums.len(), 2);
    assert_eq!(plan.albums[1].chat, -2);
    assert_eq!(plan.albums[1].photo_urls, urls);

    let plan = plan_alert(&rule, "t", "x", true, None);
    assert!(!plan.messages[0].web_page_preview);
    assert!(plan.pause_before_images);
    assert!(plan.albums.is_empty());

    rule.include_images = false;
    let plan = plan_alert(&rule, "t", "x", false, Some(&urls));
    assert!(!plan.pause_before_images);
    assert!(plan.albums.is_empty());
}
