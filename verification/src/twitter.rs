//! The parts of a tweet that alerts and the console log are made of, and
//! the text of the login that is kept between runs.

use vstd::prelude::*;

use crate::decimal::{
    decimal_string, format_u64, lemma_decimal_string, parse_decimal_u64, parse_u64,
};

verus! {

/// The author of a tweet.
pub struct TwitterUser {
    pub id: u64,
    pub name: String,
    pub screen_name: String,
}

/// The application a tweet was posted with.
pub struct TweetSource {
    pub name: String,
    pub url: String,
}

/// A tweet, as far as alerts and the console log read it.
pub struct Tweet {
    pub text: String,
    pub user: Option<Box<TwitterUser>>,
    /// Seconds since the Unix epoch, UTC.
    pub created_at: i64,
    pub in_reply_to_screen_name: Option<String>,
    pub retweeted_status: Option<Box<Tweet>>,
    pub source: Option<TweetSource>,
    /// The full name of the place the tweet was sent from.
    pub place: Option<String>,
    pub quoted_status: Option<Box<Tweet>>,
    pub hashtags: Vec<String>,
    pub symbols: Vec<String>,
    /// The expanded form of each URL, where there is one.
    pub urls: Vec<Option<String>>,
    /// The screen names of the users mentioned.
    pub user_mentions: Vec<String>,
    /// The kind of each attached media item, when the tweet carries
    /// extended media information.
    pub media_types: Option<Vec<String>>,
}

/// One line of the console log of a tweet, before it is coloured.
pub enum TweetLine {
    /// `<name> (@<screen name>) posted at <local time>`
    Posted { name: String, screen_name: String, created_at: i64 },
    /// `➜ in reply to @<screen name>`
    InReplyTo(String),
    /// `Retweet ➜`, followed by the lines of the retweeted status
    Retweet,
    /// The tweet's text.
    Text(String),
    /// `➜ via <name> (<url>)`
    Via { name: String, url: String },
    /// `➜ from: <place>`
    From(String),
    /// `➜ Quoting the following status:`, followed by its lines
    Quoting,
    /// `➜ Hashtags contained in the tweet:`
    HashtagsHeader,
    Hashtag(String),
    /// `➜ Symbols contained in the tweet:`
    SymbolsHeader,
    Symbol(String),
    /// `➜ URLs contained in the tweet:`
    UrlsHeader,
    Url(String),
    /// `➜ Users mentioned in the tweet:`
    MentionsHeader,
    Mention(String),
    /// `➜ Media attached to the tweet:`
    MediaHeader,
    Media(String),
}

/// A header line followed by one line per item, or nothing when there are
/// no items.
pub open spec fn list_section(header: TweetLine, items: Seq<TweetLine>) -> Seq<TweetLine> {
    if items.len() > 0 {
        seq![header] + items
    } else {
        Seq::empty()
    }
}

/// One line per URL that has an expanded form.
pub open spec fn url_lines(urls: Seq<Option<String>>) -> Seq<TweetLine>
    decreases urls.len(),
{
    if urls.len() == 0 {
        Seq::empty()
    } else {
        url_lines(urls.drop_last()) + match urls.last() {
            Some(url) => seq![TweetLine::Url(url)],
            None => Seq::empty(),
        }
    }
}

/// Who posted the tweet and to whom it replies.
pub open spec fn head_log(tweet: Tweet) -> Seq<TweetLine> {
    (match tweet.user {
        Some(user) => seq![
            TweetLine::Posted {
                name: user.name,
                screen_name: user.screen_name,
                created_at: tweet.created_at,
            },
        ],
        None => Seq::empty(),
    }) + match tweet.in_reply_to_screen_name {
        Some(name) => seq![TweetLine::InReplyTo(name)],
        None => Seq::empty(),
    }
}

/// The application and place the tweet was sent from.
pub open spec fn origin_log(tweet: Tweet) -> Seq<TweetLine> {
    (match tweet.source {
        Some(source) => seq![TweetLine::Via { name: source.name, url: source.url }],
        None => Seq::empty(),
    }) + match tweet.place {
        Some(place) => seq![TweetLine::From(place)],
        None => Seq::empty(),
    }
}

/// The header line of a list.
pub open spec fn header_of(kind: ItemKind) -> TweetLine {
    match kind {
        ItemKind::Hashtag => TweetLine::HashtagsHeader,
        ItemKind::Symbol => TweetLine::SymbolsHeader,
        ItemKind::Mention => TweetLine::MentionsHeader,
        ItemKind::Media => TweetLine::MediaHeader,
    }
}

/// A list of items under its header, or nothing when there are no items.
pub open spec fn section_log(kind: ItemKind, items: Seq<String>) -> Seq<TweetLine> {
    list_section(header_of(kind), items.map_values(|i: String| item_line(kind, i)))
}

/// The URL list: its header whenever there are URLs, then the expanded
/// ones.
pub open spec fn url_section(urls: Seq<Option<String>>) -> Seq<TweetLine> {
    if urls.len() > 0 {
        seq![TweetLine::UrlsHeader] + url_lines(urls)
    } else {
        Seq::empty()
    }
}

/// The media list: its header whenever media information is present, even
/// when it lists no item.
pub open spec fn media_section(media_types: Option<Vec<String>>) -> Seq<TweetLine> {
    match media_types {
        Some(types) => seq![TweetLine::MediaHeader] + types@.map_values(
            |t: String| item_line(ItemKind::Media, t),
        ),
        None => Seq::empty(),
    }
}

/// The tweet's hashtags, symbols, URLs, mentions and media, each list under
/// a header.
pub open spec fn list_log(tweet: Tweet) -> Seq<TweetLine> {
    section_log(ItemKind::Hashtag, tweet.hashtags@) + section_log(ItemKind::Symbol, tweet.symbols@)
        + url_section(tweet.urls@) + section_log(ItemKind::Mention, tweet.user_mentions@)
        + media_section(tweet.media_types)
}

/// The console log of a tweet: who posted it and to whom it replies; for a
/// retweet, a marker and the log of the retweeted status and nothing more;
/// otherwise its text, source, place, the log of a quoted status, and its
/// lists.
pub open spec fn log_lines(tweet: Tweet) -> Seq<TweetLine>
    decreases tweet,
{
    match tweet.retweeted_status {
        Some(status) => head_log(tweet) + seq![TweetLine::Retweet] + log_lines(*status),
        None => head_log(tweet) + seq![TweetLine::Text(tweet.text)] + origin_log(tweet) + (
        match tweet.quoted_status {
            Some(quoted) => seq![TweetLine::Quoting] + log_lines(*quoted),
            None => Seq::empty(),
        }) + list_log(tweet),
    }
}

/// Which kind of line a list item becomes.
pub enum ItemKind {
    Hashtag,
    Symbol,
    Mention,
    Media,
}

/// The line for one list item.
pub open spec fn item_line(kind: ItemKind, item: String) -> TweetLine {
    match kind {
        ItemKind::Hashtag => TweetLine::Hashtag(item),
        ItemKind::Symbol => TweetLine::Symbol(item),
        ItemKind::Mention => TweetLine::Mention(item),
        ItemKind::Media => TweetLine::Media(item),
    }
}

/// Appends one line per item.
fn push_items(lines: &mut Vec<TweetLine>, items: &Vec<String>, kind: ItemKind)
    ensures
        final(lines)@ == old(lines)@ + items@.map_values(|i: String| item_line(kind, i)),
{
    let ghost start = lines@;
    let mut i: usize = 0;
    while i < items.len()
        invariant
            i <= items@.len(),
            lines@ == start + items@.take(i as int).map_values(|x: String| item_line(kind, x)),
        decreases items@.len() - i,
    {
        let item = items[i].clone();
        let line = match kind {
            ItemKind::Hashtag => TweetLine::Hashtag(item),
            ItemKind::Symbol => TweetLine::Symbol(item),
            ItemKind::Mention => TweetLine::Mention(item),
            ItemKind::Media => TweetLine::Media(item),
        };
        lines.push(line);
        assert(items@.take(i + 1).map_values(|x: String| item_line(kind, x)) =~= items@.take(
            i as int,
        ).map_values(|x: String| item_line(kind, x)).push(item_line(kind, items@[i as int])));
        i = i + 1;
    }
    assert(items@.take(items@.len() as int) =~= items@);
}

/// Appends one line per URL that has an expanded form.
fn push_urls(lines: &mut Vec<TweetLine>, urls: &Vec<Option<String>>)
    ensures
        final(lines)@ == old(lines)@ + url_lines(urls@),
{
    let ghost start = lines@;
    let mut i: usize = 0;
    assert(urls@.take(0) =~= Seq::<Option<String>>::empty());
    while i < urls.len()
        invariant
            i <= urls@.len(),
            lines@ == start + url_lines(urls@.take(i as int)),
        decreases urls@.len() - i,
    {
        assert(urls@.take(i + 1).drop_last() =~= urls@.take(i as int));
        match &urls[i] {
            Some(url) => {
                lines.push(TweetLine::Url(url.clone()));
            },
            None => {},
        }
        assert(lines@ =~= start + url_lines(urls@.take(i + 1)));
        i = i + 1;
    }
    assert(urls@.take(urls@.len() as int) =~= urls@);
}

/// Who posted the tweet and to whom it replies.
fn head_lines(tweet: &Tweet) -> (lines: Vec<TweetLine>)
    ensures
        lines@ == head_log(*tweet),
{
    let mut lines: Vec<TweetLine> = Vec::new();
    match &tweet.user {
        Some(user) => {
            lines.push(
                TweetLine::Posted {
                    name: user.name.clone(),
                    screen_name: user.screen_name.clone(),
                    created_at: tweet.created_at,
                },
            );
        },
        None => {},
    }
    match &tweet.in_reply_to_screen_name {
        Some(name) => {
            lines.push(TweetLine::InReplyTo(name.clone()));
        },
        None => {},
    }
    assert(lines@ =~= head_log(*tweet));
    lines
}

/// Appends the application and place the tweet was sent from.
fn push_origin(lines: &mut Vec<TweetLine>, tweet: &Tweet)
    ensures
        final(lines)@ == old(lines)@ + origin_log(*tweet),
{
    let ghost start = lines@;
    match &tweet.source {
        Some(source) => {
            lines.push(TweetLine::Via { name: source.name.clone(), url: source.url.clone() });
        },
        None => {},
    }
    match &tweet.place {
        Some(place) => {
            lines.push(TweetLine::From(place.clone()));
        },
        None => {},
    }
    assert(lines@ =~= start + origin_log(*tweet));
}

/// Appends a list under its header, if it has items.
fn push_section(lines: &mut Vec<TweetLine>, items: &Vec<String>, kind: ItemKind)
    ensures
        final(lines)@ == old(lines)@ + section_log(kind, items@),
{
    let ghost start = lines@;
    if items.len() > 0 {
        let header = match kind {
            ItemKind::Hashtag => TweetLine::HashtagsHeader,
            ItemKind::Symbol => TweetLine::SymbolsHeader,
            ItemKind::Mention => TweetLine::MentionsHeader,
            ItemKind::Media => TweetLine::MediaHeader,
        };
        lines.push(header);
        push_items(lines, items, kind);
    }
    assert(lines@ =~= start + section_log(kind, items@));
}

/// Appends the tweet's lists.
fn push_lists(lines: &mut Vec<TweetLine>, tweet: &Tweet)
    ensures
        final(lines)@ == old(lines)@ + list_log(*tweet),
{
    let ghost start = lines@;
    push_section(lines, &tweet.hashtags, ItemKind::Hashtag);
    push_section(lines, &tweet.symbols, ItemKind::Symbol);
    let ghost before_urls = lines@;
    if tweet.urls.len() > 0 {
        lines.push(TweetLine::UrlsHeader);
        push_urls(lines, &tweet.urls);
    }
    assert(lines@ =~= before_urls + url_section(tweet.urls@));
    push_section(lines, &tweet.user_mentions, ItemKind::Mention);
    let ghost before_media = lines@;
    match &tweet.media_types {
        Some(types) => {
            lines.push(TweetLine::MediaHeader);
            push_items(lines, types, ItemKind::Media);
        },
        None => {},
    }
    assert(lines@ =~= before_media + media_section(tweet.media_types));
    assert(lines@ =~= start + list_log(*tweet));
}

/// The console log of a tweet, line by line.
pub fn tweet_lines(tweet: &Tweet) -> (lines: Vec<TweetLine>)
    ensures
        lines@ == log_lines(*tweet),
    decreases *tweet,
{
    let mut lines = head_lines(tweet);
    match &tweet.retweeted_status {
        Some(status) => {
            lines.push(TweetLine::Retweet);
            let mut inner = tweet_lines(status);
            lines.append(&mut inner);
            return lines;
        },
        None => {},
    }
    lines.push(TweetLine::Text(tweet.text.clone()));
    push_origin(&mut lines, tweet);
    let ghost before_quote = lines@;
    match &tweet.quoted_status {
        Some(quoted) => {
            lines.push(TweetLine::Quoting);
            let mut inner = tweet_lines(quoted);
            lines.append(&mut inner);
        },
        None => {},
    }
    push_lists(&mut lines, tweet);
    assert(lines@ =~= log_lines(*tweet));
    lines
}

/// Every retweeted status along the chain names its author.
pub open spec fn retweet_authors_known(tweet: Tweet) -> bool
    decreases tweet,
{
    match tweet.retweeted_status {
        Some(status) => status.user is Some && retweet_authors_known(*status),
        None => true,
    }
}

/// Every tweet along the retweet chain, this one included, names its author.
pub open spec fn authors_known(tweet: Tweet) -> bool
    decreases tweet,
{
    &&& tweet.user is Some
    &&& match tweet.retweeted_status {
        Some(status) => authors_known(*status),
        None => true,
    }
}

/// The full text of a tweet: for a retweet, `RT <author>: ` and the full
/// text of the retweeted status; otherwise the tweet's own text.
pub open spec fn full_text(tweet: Tweet) -> Seq<char>
    decreases tweet,
{
    match tweet.retweeted_status {
        Some(status) => "RT "@ + status.user->0.screen_name@ + ": "@ + full_text(*status),
        None => tweet.text@,
    }
}

/// The author at the end of the retweet chain: whoever wrote the original.
pub open spec fn root_user(tweet: Tweet) -> u64
    decreases tweet,
{
    match tweet.retweeted_status {
        Some(status) => root_user(*status),
        None => tweet.user->0.id,
    }
}

/// Whether every retweeted status along the chain names its author, as
/// [`get_text`] needs.
pub fn retweet_authors_present(tweet: &Tweet) -> (present: bool)
    ensures
        present == retweet_authors_known(*tweet),
    decreases *tweet,
{
    match &tweet.retweeted_status {
        Some(status) => status.user.is_some() && retweet_authors_present(status),
        None => true,
    }
}

/// Whether every tweet along the retweet chain names its author, as
/// [`get_root_user`] needs.
pub fn authors_present(tweet: &Tweet) -> (present: bool)
    ensures
        present == authors_known(*tweet),
    decreases *tweet,
{
    tweet.user.is_some() && match &tweet.retweeted_status {
        Some(status) => authors_present(status),
        None => true,
    }
}

/// The full text of a tweet, following retweets.
pub fn get_text(tweet: &Tweet) -> (text: String)
    requires
        retweet_authors_known(*tweet),
    ensures
        text@ == full_text(*tweet),
        tweet.retweeted_status is None ==> text@ == tweet.text@,
        tweet.retweeted_status matches Some(status) ==> text@ == "RT "@
            + status.user->0.screen_name@ + ": "@ + full_text(*status),
    decreases *tweet,
{
    match &tweet.retweeted_status {
        Some(status) => {
            let mut text = "RT ".to_owned();
            text.append(status.user.as_ref().unwrap().screen_name.as_str());
            text.append(": ");
            let inner = get_text(status);
            text.append(inner.as_str());
            text
        },
        None => tweet.text.clone(),
    }
}

/// The id of the author of the original tweet behind a chain of retweets.
pub fn get_root_user(tweet: &Tweet) -> (id: u64)
    requires
        authors_known(*tweet),
    ensures
        id == root_user(*tweet),
        tweet.retweeted_status is None ==> id == tweet.user->0.id,
        tweet.retweeted_status matches Some(status) ==> id == root_user(*status),
        tweet.retweeted_status matches Some(status) ==> status.retweeted_status is None ==> id
            == status.user->0.id,
    decreases *tweet,
{
    match &tweet.retweeted_status {
        Some(status) => get_root_user(status),
        None => tweet.user.as_ref().unwrap().id,
    }
}

/// The HTML body of an alert: the author's screen name in bold, a colon,
/// and the tweet's text.
pub open spec fn alert_html(screen_name: Seq<char>, text: Seq<char>) -> Seq<char> {
    "<b>"@ + screen_name + "</b>: "@ + text
}

/// Builds the HTML body of an alert.
pub fn alert_message(screen_name: &str, text: &str) -> (message: String)
    ensures
        message@ == alert_html(screen_name@, text@),
        message@ == "<b>"@ + screen_name@ + "</b>: "@ + text@,
{
    let mut message = "<b>".to_owned();
    message.append(screen_name);
    message.append("</b>: ");
    message.append(text);
    message
}

/// A tweet that is not a retweet reads as its own text, whatever it quotes;
/// a retweet reads as `RT `, the retweeted author's screen name, `: ` and
/// the full text of the retweeted status.
pub proof fn lemma_full_text_is_own_text_or_retweet(tweet: Tweet)
    ensures
        tweet.retweeted_status is None ==> full_text(tweet) == tweet.text@,
        tweet.retweeted_status matches Some(status) ==> full_text(tweet) == "RT "@
            + status.user->0.screen_name@ + ": "@ + full_text(*status),
        tweet.retweeted_status matches Some(status) ==> status.retweeted_status is None
            ==> full_text(tweet) == "RT "@ + status.user->0.screen_name@ + ": "@ + status.text@,
{
    match tweet.retweeted_status {
        Some(status) => {
            assert(status.retweeted_status is None ==> full_text(*status) == status.text@);
        },
        None => {},
    }
}

/// An alert body holds the whole screen name and the whole text: it is
/// `<b>`, the screen name, `</b>: ` and the text, nine characters longer
/// than the two together, and it ends with the text.
pub proof fn lemma_alert_html_keeps_whole_text(screen_name: Seq<char>, text: Seq<char>)
    ensures
        alert_html(screen_name, text) == "<b>"@ + screen_name + "</b>: "@ + text,
        alert_html(screen_name, text).len() == screen_name.len() + text.len() + 9,
        alert_html(screen_name, text).subrange(
            alert_html(screen_name, text).len() - text.len(),
            alert_html(screen_name, text).len() as int,
        ) == text,
{
    reveal_strlit("<b>");
    reveal_strlit("</b>: ");
    let body = alert_html(screen_name, text);
    let prefix = "<b>"@ + screen_name + "</b>: "@;
    assert(body == prefix + text);
    assert(body.subrange(prefix.len() as int, body.len() as int) =~= text);
}

/// The console log of a tweet that is not a retweet and carries media
/// information ends with the media header and then one media line per
/// attached item, in order, naming its kind.
pub proof fn lemma_log_ends_with_each_media_item(tweet: Tweet)
    requires
        tweet.retweeted_status is None,
        tweet.media_types is Some,
    ensures
        ({
            let log = log_lines(tweet);
            let types = tweet.media_types->0@;
            &&& log.len() >= types.len() + 1
            &&& log[log.len() - types.len() - 1] == TweetLine::MediaHeader
            &&& forall|i: int|
                0 <= i < types.len() ==> log[log.len() - types.len() + i] == TweetLine::Media(
                    #[trigger] types[i],
                )
        }),
{
    let log = log_lines(tweet);
    let types = tweet.media_types->0@;
    let tail = seq![TweetLine::MediaHeader] + types.map_values(|t: String| TweetLine::Media(t));
    assert(media_section(tweet.media_types) =~= tail);
    let front = head_log(tweet) + seq![TweetLine::Text(tweet.text)] + origin_log(tweet) + (
    match tweet.quoted_status {
        Some(quoted) => seq![TweetLine::Quoting] + log_lines(*quoted),
        None => Seq::empty(),
    }) + section_log(ItemKind::Hashtag, tweet.hashtags@) + section_log(
        ItemKind::Symbol,
        tweet.symbols@,
    ) + url_section(tweet.urls@) + section_log(ItemKind::Mention, tweet.user_mentions@);
    assert(log =~= front + tail);
    assert forall|i: int| 0 <= i < types.len() implies log[log.len() - types.len() + i]
        == TweetLine::Media(#[trigger] types[i]) by {
        assert(log[log.len() - types.len() + i] == tail[i + 1]);
    }
    assert(log[log.len() - types.len() - 1] == tail[0]);
}

/// The console log of a tweet that is not a retweet names its author (when
/// known) with the time it was posted, the user it replies to, its own text,
/// the application and place it was sent from, and every expanded URL.
pub proof fn lemma_log_shows_tweet_details(tweet: Tweet, i: int)
    requires
        tweet.retweeted_status is None,
    ensures
        log_lines(tweet).contains(TweetLine::Text(tweet.text)),
        tweet.user matches Some(u) ==> log_lines(tweet)[0] == (TweetLine::Posted {
            name: u.name,
            screen_name: u.screen_name,
            created_at: tweet.created_at,
        }),
        tweet.in_reply_to_screen_name matches Some(n) ==> log_lines(tweet).contains(
            TweetLine::InReplyTo(n),
        ),
        tweet.source matches Some(src) ==> log_lines(tweet).contains(
            TweetLine::Via { name: src.name, url: src.url },
        ),
        tweet.place matches Some(pl) ==> log_lines(tweet).contains(TweetLine::From(pl)),
        0 <= i < tweet.urls@.len() && tweet.urls@[i] is Some ==> log_lines(tweet).contains(
            TweetLine::Url(tweet.urls@[i]->0),
        ),
{
    let log = log_lines(tweet);
    let head = head_log(tweet);
    let origin = origin_log(tweet);
    let quoted = match tweet.quoted_status {
        Some(q) => seq![TweetLine::Quoting] + log_lines(*q),
        None => Seq::empty(),
    };
    let lists = list_log(tweet);
    assert(log =~= head + seq![TweetLine::Text(tweet.text)] + origin + quoted + lists);
    assert(log[head.len() as int] == TweetLine::Text(tweet.text));
    match tweet.user {
        Some(u) => {
            assert(head[0] == (TweetLine::Posted {
                name: u.name,
                screen_name: u.screen_name,
                created_at: tweet.created_at,
            }));
            assert(log[0] == head[0]);
        },
        None => {},
    }
    match tweet.in_reply_to_screen_name {
        Some(n) => {
            assert(head[head.len() - 1] == TweetLine::InReplyTo(n));
            assert(log[head.len() - 1] == head[head.len() - 1]);
        },
        None => {},
    }
    match tweet.source {
        Some(src) => {
            assert(origin[0] == (TweetLine::Via { name: src.name, url: src.url }));
            assert(log[head.len() + 1int] == origin[0]);
        },
        None => {},
    }
    match tweet.place {
        Some(pl) => {
            assert(origin[origin.len() - 1] == TweetLine::From(pl));
            assert(log[(head.len() + origin.len()) as int] == origin[origin.len() - 1]);
        },
        None => {},
    }
    if 0 <= i < tweet.urls@.len() && tweet.urls@[i] is Some {
        lemma_url_lines_lists_expanded(tweet.urls@, i);
        let before = head + seq![TweetLine::Text(tweet.text)] + origin + quoted + section_log(
            ItemKind::Hashtag,
            tweet.hashtags@,
        ) + section_log(ItemKind::Symbol, tweet.symbols@);
        let urls = url_section(tweet.urls@);
        assert(lists =~= section_log(ItemKind::Hashtag, tweet.hashtags@) + section_log(
            ItemKind::Symbol,
            tweet.symbols@,
        ) + urls + section_log(ItemKind::Mention, tweet.user_mentions@) + media_section(
            tweet.media_types,
        ));
        let k = choose|k: int| 0 <= k < url_lines(tweet.urls@).len() && url_lines(tweet.urls@)[k]
            == TweetLine::Url(tweet.urls@[i]->0);
        assert(urls[k + 1] == url_lines(tweet.urls@)[k]);
        assert(log[before.len() + k + 1] == urls[k + 1]);
    }
}

/// Every expanded URL appears among the URL lines.
proof fn lemma_url_lines_lists_expanded(urls: Seq<Option<String>>, i: int)
    requires
        0 <= i < urls.len(),
        urls[i] is Some,
    ensures
        url_lines(urls).contains(TweetLine::Url(urls[i]->0)),
    decreases urls.len(),
{
    let init = urls.drop_last();
    if i < urls.len() - 1 {
        lemma_url_lines_lists_expanded(init, i);
        let k = choose|k: int| 0 <= k < url_lines(init).len() && url_lines(init)[k] == TweetLine::Url(
            init[i]->0,
        );
        assert(url_lines(urls)[k] == url_lines(init)[k]);
    } else {
        assert(urls.last() == urls[i]);
        assert(url_lines(urls)[url_lines(urls).len() - 1] == TweetLine::Url(urls[i]->0));
    }
}

/// Every hashtag, symbol and mentioned user of a tweet that is not a retweet
/// appears in its console log, as a line of its own kind.
pub proof fn lemma_log_lists_every_item(tweet: Tweet, i: int)
    requires
        tweet.retweeted_status is None,
    ensures
        0 <= i < tweet.hashtags@.len() ==> log_lines(tweet).contains(
            TweetLine::Hashtag(tweet.hashtags@[i]),
        ),
        0 <= i < tweet.symbols@.len() ==> log_lines(tweet).contains(
            TweetLine::Symbol(tweet.symbols@[i]),
        ),
        0 <= i < tweet.user_mentions@.len() ==> log_lines(tweet).contains(
            TweetLine::Mention(tweet.user_mentions@[i]),
        ),
{
    let log = log_lines(tweet);
    let a = head_log(tweet) + seq![TweetLine::Text(tweet.text)] + origin_log(tweet) + (
    match tweet.quoted_status {
        Some(quoted) => seq![TweetLine::Quoting] + log_lines(*quoted),
        None => Seq::empty(),
    });
    let h = section_log(ItemKind::Hashtag, tweet.hashtags@);
    let s = section_log(ItemKind::Symbol, tweet.symbols@);
    let u = url_section(tweet.urls@);
    let m = section_log(ItemKind::Mention, tweet.user_mentions@);
    let rest = media_section(tweet.media_types);
    assert(log =~= a + h + s + u + m + rest);
    if 0 <= i < tweet.hashtags@.len() {
        let k = a.len() + 1 + i;
        assert(log[k] == h[1 + i]);
        assert(log[k] == TweetLine::Hashtag(tweet.hashtags@[i]));
    }
    if 0 <= i < tweet.symbols@.len() {
        let k = a.len() + h.len() + 1 + i;
        assert(log[k] == s[1 + i]);
        assert(log[k] == TweetLine::Symbol(tweet.symbols@[i]));
    }
    if 0 <= i < tweet.user_mentions@.len() {
        let k = a.len() + h.len() + s.len() + u.len() + 1 + i;
        assert(log[k] == m[1 + i]);
        assert(log[k] == TweetLine::Mention(tweet.user_mentions@[i]));
    }
}

/// The login kept between runs: the account's screen name and id, and the
/// access token's key and secret.
pub struct StoredLogin {
    pub username: String,
    pub user_id: u64,
    pub key: String,
    pub secret: String,
}

/// The pieces of `s` between line feeds, as `str::split('\n')` yields them.
pub open spec fn split_lines(s: Seq<char>) -> Seq<Seq<char>>
    decreases s.len(),
{
    if s.len() == 0 {
        seq![Seq::<char>::empty()]
    } else {
        let init = split_lines(s.drop_last());
        if s.last() == '\n' {
            init.push(Seq::<char>::empty())
        } else {
            init.update(init.len() - 1, init.last().push(s.last()))
        }
    }
}

/// The text a login is kept as: its four fields, one per line.
pub open spec fn login_text(username: Seq<char>, user_id: u64, key: Seq<char>, secret: Seq<char>) -> Seq<char> {
    username + seq!['\n'] + decimal_string(user_id as nat) + seq!['\n'] + key + seq!['\n'] + secret
}

/// Splitting always yields at least one piece.
proof fn lemma_split_lines_nonempty(s: Seq<char>)
    ensures
        split_lines(s).len() >= 1,
    decreases s.len(),
{
    if s.len() > 0 {
        lemma_split_lines_nonempty(s.drop_last());
    }
}

/// Text without a line feed is a single piece.
pub proof fn lemma_split_lines_single(s: Seq<char>)
    requires
        !s.contains('\n'),
    ensures
        split_lines(s) == seq![s],
    decreases s.len(),
{
    if s.len() > 0 {
        let init = s.drop_last();
        assert(!init.contains('\n')) by {
            if init.contains('\n') {
                let i = choose|i: int| 0 <= i < init.len() && init[i] == '\n';
                assert(s[i] == '\n');
            }
        }
        lemma_split_lines_single(init);
        assert(s.last() != '\n') by {
            assert(s[s.len() - 1] == s.last());
        }
        assert(init.push(s.last()) =~= s);
    } else {
        assert(s =~= Seq::<char>::empty());
    }
}

/// Splitting at a line feed splits the two sides separately.
pub proof fn lemma_split_lines_join(a: Seq<char>, b: Seq<char>)
    ensures
        split_lines(a + seq!['\n'] + b) == split_lines(a) + split_lines(b),
    decreases b.len(),
{
    let joined = a + seq!['\n'] + b;
    if b.len() == 0 {
        assert(joined.drop_last() =~= a);
        assert(split_lines(b) =~= seq![Seq::<char>::empty()]);
        assert(split_lines(a).push(Seq::<char>::empty()) =~= split_lines(a) + split_lines(b));
    } else {
        let b0 = b.drop_last();
        lemma_split_lines_join(a, b0);
        lemma_split_lines_nonempty(a);
        lemma_split_lines_nonempty(b0);
        assert(joined.drop_last() =~= a + seq!['\n'] + b0);
        assert(joined.last() == b.last());
        let left = split_lines(a);
        let right = split_lines(b0);
        if b.last() == '\n' {
            assert((left + right).push(Seq::<char>::empty()) =~= left + right.push(
                Seq::<char>::empty(),
            ));
        } else {
            let both = left + right;
            assert(both.update(both.len() - 1, both.last().push(b.last())) =~= left
                + right.update(right.len() - 1, right.last().push(b.last())));
        }
    }
}

/// The kept text of a login, split into lines, gives back its four fields.
pub proof fn lemma_login_text_lines(username: Seq<char>, user_id: u64, key: Seq<char>, secret: Seq<char>)
    requires
        !username.contains('\n'),
        !key.contains('\n'),
        !secret.contains('\n'),
    ensures
        split_lines(login_text(username, user_id, key, secret)) == seq![
            username,
            decimal_string(user_id as nat),
            key,
            secret,
        ],
{
    let digits = decimal_string(user_id as nat);
    lemma_decimal_string(user_id as nat);
    lemma_split_lines_single(username);
    lemma_split_lines_single(digits);
    lemma_split_lines_single(key);
    lemma_split_lines_single(secret);
    let first = username + seq!['\n'] + digits;
    let second = first + seq!['\n'] + key;
    lemma_split_lines_join(username, digits);
    lemma_split_lines_join(first, key);
    lemma_split_lines_join(second, secret);
    assert(login_text(username, user_id, key, secret) =~= second + seq!['\n'] + secret);
    assert(split_lines(second + seq!['\n'] + secret) =~= seq![username, digits, key, secret]);
}

/// Splits `s` at its line feeds.
fn split_lines_of(s: &str) -> (pieces: Vec<String>)
    ensures
        pieces@.len() == split_lines(s@).len(),
        forall|j: int| 0 <= j < pieces@.len() ==> #[trigger] pieces@[j]@ == split_lines(s@)[j],
{
    let n = s.unicode_len();
    let mut pieces: Vec<String> = Vec::new();
    let mut start: usize = 0;
    let mut i: usize = 0;
    assert(s@.take(0) =~= Seq::<char>::empty());
    while i < n
        invariant
            n == s@.len(),
            start <= i <= n,
            pieces@.len() + 1 == split_lines(s@.take(i as int)).len(),
            forall|j: int| 0 <= j < pieces@.len() ==> #[trigger] pieces@[j]@ == split_lines(s@.take(i as int))[j],
            s@.subrange(start as int, i as int) == split_lines(s@.take(i as int)).last(),
        decreases n - i,
    {
        let c = s.get_char(i);
        let ghost prev = split_lines(s@.take(i as int));
        assert(s@.take(i + 1).drop_last() =~= s@.take(i as int));
        assert(s@.take(i + 1).last() == c);
        if c == '\n' {
            let piece = s.substring_char(start, i).to_owned();
            pieces.push(piece);
            start = i + 1;
            assert(s@.subrange(start as int, start as int) =~= Seq::<char>::empty());
        } else {
            assert(s@.subrange(start as int, i + 1) =~= s@.subrange(start as int, i as int).push(c));
        }
        i = i + 1;
    }
    assert(s@.take(n as int) =~= s@);
    let last = s.substring_char(start, n).to_owned();
    pieces.push(last);
    pieces
}

/// Reads a kept login: the first four lines hold the screen name, the id in
/// decimal, the key and the secret; any further lines are ignored. There is
/// no login when there are fewer than four lines or the id does not parse.
pub fn parse_login(contents: &str) -> (res: Option<StoredLogin>)
    ensures
        ({
            let lines = split_lines(contents@);
            match res {
                Some(login) => {
                    &&& lines.len() >= 4
                    &&& login.username@ == lines[0]
                    &&& parse_decimal_u64(lines[1]) == Some(login.user_id)
                    &&& login.key@ == lines[2]
                    &&& login.secret@ == lines[3]
                },
                None => lines.len() < 4 || parse_decimal_u64(lines[1]) is None,
            }
        }),
{
    let mut lines = split_lines_of(contents);
    if lines.len() < 4 {
        return None;
    }
    let ghost views = split_lines(contents@);
    assert(lines@[1]@ == views[1]);
    let user_id = match parse_u64(lines[1].as_str()) {
        Some(id) => id,
        None => {
            return None;
        },
    };
    lines.truncate(4);
    let secret = lines.pop().unwrap();
    let key = lines.pop().unwrap();
    let _ = lines.pop();
    let username = lines.pop().unwrap();
    Some(StoredLogin { username, user_id, key, secret })
}

/// Writes a login in the form [`parse_login`] reads.
pub fn format_login(login: &StoredLogin) -> (text: String)
    ensures
        text@ == login_text(login.username@, login.user_id, login.key@, login.secret@),
{
    proof {
        reveal_strlit("\n");
    }
    let mut text = login.username.clone();
    text.append("\n");
    let id = format_u64(login.user_id);
    text.append(id.as_str());
    text.append("\n");
    text.append(login.key.as_str());
    text.append("\n");
    text.append(login.secret.as_str());
    text
}

/// Reading back a written login gives the same login, as long as none of
/// its text fields holds a line feed.
pub proof fn lemma_login_round_trip(username: Seq<char>, user_id: u64, key: Seq<char>, secret: Seq<char>)
    requires
        !username.contains('\n'),
        !key.contains('\n'),
        !secret.contains('\n'),
    ensures
        ({
            let lines = split_lines(login_text(username, user_id, key, secret));
            &&& lines.len() == 4
            &&& lines[0] == username
            &&& parse_decimal_u64(lines[1]) == Some(user_id)
            &&& lines[2] == key
            &&& lines[3] == secret
        }),
{
    lemma_login_text_lines(username, user_id, key, secret);
    crate::decimal::lemma_parse_decimal_string(user_id);
}

} // verus!
