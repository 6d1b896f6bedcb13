//! Alerting rules: which tweets of a watched account are forwarded, and when.

use vstd::prelude::*;

use crate::pattern::Pattern;

verus! {

/// The value a rule's flags take when the configuration leaves them out.
pub fn default_true_value() -> (b: bool)
    ensures
        b,
{
    true
}

/// An inclusive span of hours of the day during which a rule is active,
/// with an optional pattern that silences the rule within the span.
#[derive(Clone)]
pub struct Range {
    pub start: u32,
    pub end: u32,
    pub excludes: Option<Pattern>,
}

/// A Telegram chat that alerts are sent to.
#[derive(Clone)]
pub struct Chat {
    pub chat: i64,
}

/// A rule: alert the chats about tweets of the account `name` whose text
/// matches `includes`, subject to the other conditions.
#[derive(Clone)]
pub struct Rule {
    pub name: String,
    pub chats: Vec<Chat>,
    pub includes: Pattern,
    pub excludes: Option<Pattern>,
    pub active_hours: Option<Vec<Range>>,
    pub active_days: Option<Pattern>,
    pub include_images: bool,
    pub webpage_preview: bool,
}

/// Why a rule fires for a tweet or not: the first check that fails.
#[derive(Clone, Copy, Debug, PartialEq, Eq, Structural)]
pub enum Verdict {
    /// The tweet is from another account.
    OtherAccount,
    /// None of the rule's active ranges covers the hour.
    NoActiveRange,
    /// The tweet retweets an account the bot follows.
    FollowedRetweet,
    /// The day pattern does not accept the weekday.
    InactiveDay,
    /// The active range's exclusion pattern finds the text.
    RangeExcluded,
    /// The `includes` pattern does not find the text.
    NotIncluded,
    /// The `excludes` pattern finds the text.
    Excluded,
    /// The rule fires.
    Fires,
}

/// What a rule is tested against: a tweet, the local hour and weekday name
/// at which it arrived, and the accounts the bot follows.
pub struct TweetInfo<'a> {
    pub text: String,
    pub hour: u32,
    pub day: String,
    pub retweeted: bool,
    pub user: u64,
    pub rtuser: u64,
    pub screen_name: &'a String,
    pub followed_users: &'a Vec<u64>,
}

/// The range a rule without active hours behaves as: the whole day, with
/// nothing excluded.
pub open spec fn all_day_range() -> Range {
    Range { start: 0, end: 23, excludes: None }
}

/// The first range, in order, that covers `hour`.
pub open spec fn first_active_range(ranges: Seq<Range>, hour: u32) -> Option<Range>
    decreases ranges.len(),
{
    if ranges.len() == 0 {
        None
    } else if ranges[0].covers_hour(hour) {
        Some(ranges[0])
    } else {
        first_active_range(ranges.drop_first(), hour)
    }
}

impl Range {
    /// The hour lies within the span, both ends included.
    pub open spec fn covers_hour(self, hour: u32) -> bool {
        self.start <= hour <= self.end
    }

    /// The range's exclusion pattern is present and found in `text`.
    pub open spec fn excludes_text(self, text: Seq<char>) -> bool {
        match self.excludes {
            Some(p) => p.finds(text),
            None => false,
        }
    }

    fn in_range(&self, hour: u32) -> (b: bool)
        ensures
            b == self.covers_hour(hour),
            b == (self.start <= hour && hour <= self.end),
    {
        hour >= self.start && hour <= self.end
    }

    fn excludes_matches(&self, text: &String) -> (b: bool)
        ensures
            b == self.excludes_text(text@),
    {
        match &self.excludes {
            Some(excludes) => excludes.is_match(text.as_str()),
            None => false,
        }
    }
}

impl Rule {
    /// The range that governs the tweet's hour: the first active range that
    /// covers it, or the whole day when the rule has no active hours.
    pub open spec fn active_range(self, hour: u32) -> Option<Range> {
        match self.active_hours {
            Some(ranges) => first_active_range(ranges@, hour),
            None => Some(all_day_range()),
        }
    }

    /// The weekday name is accepted by the rule's day pattern, if any.
    pub open spec fn active_on(self, day: Seq<char>) -> bool {
        match self.active_days {
            Some(p) => p.finds(day),
            None => true,
        }
    }

    /// The text matches `includes` and not `excludes`.
    pub open spec fn wants_text(self, text: Seq<char>) -> bool {
        &&& self.includes.finds(text)
        &&& match self.excludes {
            Some(p) => !p.finds(text),
            None => true,
        }
    }

    /// When a rule fires for a tweet.
    pub open spec fn accepts(self, tweet: TweetInfo) -> bool {
        &&& tweet.screen_name@ == self.name@
        &&& self.active_range(tweet.hour) is Some
        &&& !(tweet.retweeted && tweet.followed_users@.contains(tweet.rtuser))
        &&& self.active_on(tweet.day@)
        &&& !self.active_range(tweet.hour)->0.excludes_text(tweet.text@)
        &&& self.wants_text(tweet.text@)
    }

    /// The outcome of testing the rule against a tweet: the first check that
    /// fails, in the order they are made, or `Fires` when none does.
    pub open spec fn outcome(self, tweet: TweetInfo) -> Verdict {
        if tweet.screen_name@ != self.name@ {
            Verdict::OtherAccount
        } else if self.active_range(tweet.hour) is None {
            Verdict::NoActiveRange
        } else if tweet.retweeted && tweet.followed_users@.contains(tweet.rtuser) {
            Verdict::FollowedRetweet
        } else if !self.active_on(tweet.day@) {
            Verdict::InactiveDay
        } else if self.active_range(tweet.hour)->0.excludes_text(tweet.text@) {
            Verdict::RangeExcluded
        } else if !self.includes.finds(tweet.text@) {
            Verdict::NotIncluded
        } else if self.excludes matches Some(p) && p.finds(tweet.text@) {
            Verdict::Excluded
        } else {
            Verdict::Fires
        }
    }

    /// Tests the rule against the tweet and says why it fires or not.
    pub fn verdict(&self, twinfo: &TweetInfo) -> (verdict: Verdict)
        ensures
            verdict == self.outcome(*twinfo),
    {
        if *twinfo.screen_name != self.name {
            return Verdict::OtherAccount;
        }
        let all_day = Range { start: 0, end: 23, excludes: None };
        let active_range: &Range = match &self.active_hours {
            Some(ranges) => match first_active_index(ranges, twinfo.hour) {
                Some(i) => &ranges[i],
                None => {
                    return Verdict::NoActiveRange;
                },
            },
            None => &all_day,
        };

        let active_today = match &self.active_days {
            Some(days) => days.is_match(twinfo.day.as_str()),
            None => true,
        };

        // No retweets of users we follow
        if twinfo.retweeted && contains_user(twinfo.followed_users, twinfo.rtuser) {
            return Verdict::FollowedRetweet;
        }
        if !active_today {
            return Verdict::InactiveDay;
        }
        if active_range.excludes_matches(&twinfo.text) {
            return Verdict::RangeExcluded;
        }
        if !self.includes.is_match(twinfo.text.as_str()) {
            return Verdict::NotIncluded;
        }
        match &self.excludes {
            Some(excludes) => if excludes.is_match(twinfo.text.as_str()) {
                Verdict::Excluded
            } else {
                Verdict::Fires
            },
            None => Verdict::Fires,
        }
    }

    /// Decides whether the rule fires for the tweet.
    pub fn matches(&self, twinfo: &TweetInfo) -> (fires: bool)
        ensures
            fires == self.accepts(*twinfo),
    {
        proof {
            lemma_fires_exactly_when_accepted(*self, *twinfo);
        }
        match self.verdict(twinfo) {
            Verdict::Fires => true,
            _ => false,
        }
    }

    /// Whether the alert for a matched tweet shows a web page preview: only
    /// when the rule asks for previews and the tweet carries no media.
    pub fn webpage_preview_for(&self, has_media: bool) -> (preview: bool)
        ensures
            preview == (self.webpage_preview && !has_media),
    {
        self.webpage_preview && !has_media
    }
}

/// The index of the first range that covers `hour`.
fn first_active_index(ranges: &Vec<Range>, hour: u32) -> (res: Option<usize>)
    ensures
        match res {
            Some(i) => i < ranges@.len() && first_active_range(ranges@, hour) == Some(ranges@[i as int]),
            None => first_active_range(ranges@, hour) is None,
        },
{
    let mut i: usize = 0;
    assert(ranges@.skip(0) =~= ranges@);
    while i < ranges.len()
        invariant
            i <= ranges@.len(),
            first_active_range(ranges@, hour) == first_active_range(ranges@.skip(i as int), hour),
        decreases ranges@.len() - i,
    {
        assert(ranges@.skip(i as int)[0] == ranges@[i as int]);
        if ranges[i].in_range(hour) {
            return Some(i);
        }
        assert(ranges@.skip(i as int).drop_first() =~= ranges@.skip(i + 1));
        i = i + 1;
    }
    assert(ranges@.skip(i as int).len() == 0);
    None
}

/// Whether `id` is among `users`.
fn contains_user(users: &Vec<u64>, id: u64) -> (found: bool)
    ensures
        found == users@.contains(id),
{
    let mut i: usize = 0;
    while i < users.len()
        invariant
            i <= users@.len(),
            forall|j: int| 0 <= j < i ==> users@[j] != id,
        decreases users@.len() - i,
    {
        if users[i] == id {
            assert(users@[i as int] == id);
            return true;
        }
        i = i + 1;
    }
    false
}

/// The active range is the first range, in order, that covers the hour, and
/// there is none exactly when no range covers it.
pub proof fn lemma_first_active_range(ranges: Seq<Range>, hour: u32)
    ensures
        first_active_range(ranges, hour) is None <==> forall|i: int|
            0 <= i < ranges.len() ==> !(#[trigger] ranges[i]).covers_hour(hour),
        first_active_range(ranges, hour) matches Some(r) ==> exists|i: int|
            0 <= i < ranges.len() && ranges[i] == r && r.covers_hour(hour) && forall|j: int|
                0 <= j < i ==> !(#[trigger] ranges[j]).covers_hour(hour),
    decreases ranges.len(),
{
    if ranges.len() > 0 {
        let rest = ranges.drop_first();
        lemma_first_active_range(rest, hour);
        if ranges[0].covers_hour(hour) {
            assert(forall|j: int| 0 <= j < 0 ==> !(#[trigger] ranges[j]).covers_hour(hour));
        } else {
            if first_active_range(rest, hour) is None {
                assert forall|i: int| 0 <= i < ranges.len() implies !(#[trigger] ranges[i]).covers_hour(hour) by {
                    if i > 0 {
                        assert(ranges[i] == rest[i - 1]);
                    }
                }
            } else {
                let r = first_active_range(rest, hour)->0;
                let k = choose|k: int|
                    0 <= k < rest.len() && rest[k] == r && r.covers_hour(hour) && forall|j: int|
                        0 <= j < k ==> !(#[trigger] rest[j]).covers_hour(hour);
                assert(ranges[k + 1] == r);
                assert forall|j: int| 0 <= j < k + 1 implies !(#[trigger] ranges[j]).covers_hour(hour) by {
                    if j > 0 {
                        assert(ranges[j] == rest[j - 1]);
                    }
                }
                assert(!(forall|i: int| 0 <= i < ranges.len() ==> !(#[trigger] ranges[i]).covers_hour(hour))) by {
                    assert(ranges[k + 1].covers_hour(hour));
                }
            }
        }
    }
}

/// A range covers exactly the hours from its start to its end, both
/// included; a range whose start and end are equal covers that one hour.
pub proof fn lemma_range_covers_inclusive_span(range: Range, hour: u32)
    ensures
        range.covers_hour(hour) <==> (range.start <= hour && hour <= range.end),
        range.start == hour && range.end == hour ==> range.covers_hour(hour),
{
}

/// The range that governs an hour is the first range, in order, whose span
/// from start to end (both included) holds the hour.
pub proof fn lemma_active_range_is_first_span_holding_hour(rule: Rule, hour: u32, i: int)
    requires
        rule.active_hours matches Some(ranges) && 0 <= i < ranges@.len()
            && ranges@[i].start <= hour && hour <= ranges@[i].end
            && forall|j: int|
            0 <= j < i ==> !((#[trigger] ranges@[j]).start <= hour && hour <= ranges@[j].end),
    ensures
        rule.active_range(hour) == Some(rule.active_hours->0@[i]),
{
    let ranges = rule.active_hours->0@;
    lemma_first_active_range(ranges, hour);
    let r = first_active_range(ranges, hour)->0;
    let k = choose|k: int|
        0 <= k < ranges.len() && ranges[k] == r && r.covers_hour(hour) && forall|j: int|
            0 <= j < k ==> !(#[trigger] ranges[j]).covers_hour(hour);
    if k < i {
        assert(!(ranges[k].start <= hour && hour <= ranges[k].end));
    } else if k > i {
        assert(!ranges[i].covers_hour(hour));
    }
}

/// A rule whose only active range is the single hour `h`, and whose other
/// checks pass, fires at hour `h`.
pub proof fn lemma_single_hour_range_fires(rule: Rule, tweet: TweetInfo)
    requires
        rule.active_hours matches Some(ranges) && ranges@.len() == 1
            && ranges@[0].start == tweet.hour && ranges@[0].end == tweet.hour
            && ranges@[0].excludes is None,
        tweet.screen_name@ == rule.name@,
        !tweet.retweeted,
        rule.active_days is None,
        rule.includes.finds(tweet.text@),
        rule.excludes is None,
    ensures
        rule.accepts(tweet),
        rule.outcome(tweet) == Verdict::Fires,
{
    lemma_active_range_is_first_span_holding_hour(rule, tweet.hour, 0);
}

/// The rule fires exactly when every check passes.
pub proof fn lemma_fires_exactly_when_accepted(rule: Rule, tweet: TweetInfo)
    ensures
        (rule.outcome(tweet) == Verdict::Fires) == rule.accepts(tweet),
{
}

/// A rule fires only for tweets of the account it names.
pub proof fn lemma_fires_only_for_named_account(rule: Rule, tweet: TweetInfo)
    ensures
        rule.accepts(tweet) ==> tweet.screen_name@ == rule.name@,
{
}

/// A retweet of an account the bot follows never fires a rule.
pub proof fn lemma_followed_retweets_are_silenced(rule: Rule, tweet: TweetInfo)
    requires
        tweet.retweeted,
        tweet.followed_users@.contains(tweet.rtuser),
    ensures
        !rule.accepts(tweet),
{
}

/// A rule fires only for text that its `includes` pattern finds.
pub proof fn lemma_fires_only_on_included_text(rule: Rule, tweet: TweetInfo)
    ensures
        rule.accepts(tweet) ==> rule.includes.finds(tweet.text@),
{
}

/// Text that the rule's `excludes` pattern finds never fires it.
pub proof fn lemma_excluded_text_is_silenced(rule: Rule, tweet: TweetInfo)
    requires
        rule.excludes matches Some(p) && p.finds(tweet.text@),
    ensures
        !rule.accepts(tweet),
{
}

/// On a day that the rule's day pattern does not accept, it never fires.
pub proof fn lemma_inactive_days_are_silenced(rule: Rule, tweet: TweetInfo)
    requires
        rule.active_days matches Some(p) && !p.finds(tweet.day@),
    ensures
        !rule.accepts(tweet),
{
}

/// At an hour that none of the rule's active ranges covers, it never fires.
pub proof fn lemma_inactive_hours_are_silenced(rule: Rule, tweet: TweetInfo)
    requires
        rule.active_hours matches Some(ranges) && forall|i: int|
            0 <= i < ranges@.len() ==> !(#[trigger] ranges@[i]).covers_hour(tweet.hour),
    ensures
        !rule.accepts(tweet),
{
    lemma_first_active_range(rule.active_hours->0@, tweet.hour);
}

/// Text that the exclusion pattern of the first range covering the hour
/// finds never fires the rule; later ranges that cover the hour play no part.
pub proof fn lemma_range_exclusion_silences(rule: Rule, tweet: TweetInfo, i: int)
    requires
        rule.active_hours matches Some(ranges) && 0 <= i < ranges@.len()
            && ranges@[i].covers_hour(tweet.hour)
            && ranges@[i].excludes_text(tweet.text@)
            && forall|j: int| 0 <= j < i ==> !(#[trigger] ranges@[j]).covers_hour(tweet.hour),
    ensures
        !rule.accepts(tweet),
{
    let ranges = rule.active_hours->0@;
    lemma_first_active_range(ranges, tweet.hour);
    let r = first_active_range(ranges, tweet.hour)->0;
    let k = choose|k: int|
        0 <= k < ranges.len() && ranges[k] == r && r.covers_hour(tweet.hour) && forall|j: int|
            0 <= j < k ==> !(#[trigger] ranges[j]).covers_hour(tweet.hour);
    if k < i {
        assert(!ranges[k].covers_hour(tweet.hour));
    } else if k > i {
        assert(!ranges[i].covers_hour(tweet.hour));
    }
}

/// When the first range whose span holds the hour has an exclusion pattern
/// that finds the text, the rule does not fire and says so.
pub proof fn lemma_first_spanning_range_exclusion_silences(rule: Rule, tweet: TweetInfo, i: int)
    requires
        rule.active_hours matches Some(ranges) && 0 <= i < ranges@.len()
            && ranges@[i].start <= tweet.hour && tweet.hour <= ranges@[i].end
            && (ranges@[i].excludes matches Some(p) && p.finds(tweet.text@))
            && forall|j: int|
            0 <= j < i ==> !((#[trigger] ranges@[j]).start <= tweet.hour && tweet.hour
                <= ranges@[j].end),
    ensures
        !rule.accepts(tweet),
        tweet.screen_name@ == rule.name@ && !tweet.retweeted && (rule.active_days matches Some(
            d,
        ) ==> d.finds(tweet.day@)) ==> rule.outcome(tweet) == Verdict::RangeExcluded,
{
    lemma_active_range_is_first_span_holding_hour(rule, tweet.hour, i);
}

/// The verdict names the first check that fails, taken in order: the
/// account, the active hours, followed retweets, the day, the active range's
/// exclusions, `includes`, `excludes`; and `Fires` only when all pass.
pub proof fn lemma_verdict_names_first_failing_check(rule: Rule, tweet: TweetInfo)
    ensures
        tweet.screen_name@ != rule.name@ ==> rule.outcome(tweet) == Verdict::OtherAccount,
        tweet.screen_name@ == rule.name@ && (rule.active_hours matches Some(ranges) && forall|j: int|
            0 <= j < ranges@.len() ==> !((#[trigger] ranges@[j]).start <= tweet.hour
                && tweet.hour <= ranges@[j].end)) ==> rule.outcome(tweet) == Verdict::NoActiveRange,
        tweet.screen_name@ == rule.name@ && rule.active_hours is None && tweet.retweeted
            && tweet.followed_users@.contains(tweet.rtuser) ==> rule.outcome(tweet)
            == Verdict::FollowedRetweet,
        tweet.screen_name@ == rule.name@ && rule.active_hours is None && !tweet.retweeted && (
        rule.active_days matches Some(d) && !d.finds(tweet.day@)) ==> rule.outcome(tweet)
            == Verdict::InactiveDay,
        tweet.screen_name@ == rule.name@ && rule.active_hours is None && !tweet.retweeted
            && rule.active_days is None && !rule.includes.finds(tweet.text@) ==> rule.outcome(tweet)
            == Verdict::NotIncluded,
        tweet.screen_name@ == rule.name@ && rule.active_hours is None && !tweet.retweeted
            && rule.active_days is None && rule.includes.finds(tweet.text@) && (
        rule.excludes matches Some(x) && x.finds(tweet.text@)) ==> rule.outcome(tweet)
            == Verdict::Excluded,
        tweet.screen_name@ == rule.name@ && rule.active_hours is None && !tweet.retweeted
            && rule.active_days is None && rule.includes.finds(tweet.text@) && rule.excludes is None
            ==> rule.outcome(tweet) == Verdict::Fires,
{
    if rule.active_hours is Some {
        let ranges = rule.active_hours->0@;
        lemma_first_active_range(ranges, tweet.hour);
    }
}

/// Without active hours, the hour of a tweet does not change the outcome.
pub proof fn lemma_hour_is_irrelevant_without_active_hours(
    rule: Rule,
    tweet: TweetInfo,
    other: TweetInfo,
)
    requires
        rule.active_hours is None,
        other.text == tweet.text,
        other.day == tweet.day,
        other.retweeted == tweet.retweeted,
        other.rtuser == tweet.rtuser,
        other.screen_name == tweet.screen_name,
        other.followed_users == tweet.followed_users,
    ensures
        rule.accepts(other) == rule.accepts(tweet),
{
}

/// Without a day pattern, the weekday of a tweet does not change the outcome.
pub proof fn lemma_day_is_irrelevant_without_active_days(
    rule: Rule,
    tweet: TweetInfo,
    other: TweetInfo,
)
    requires
        rule.active_days is None,
        other.text == tweet.text,
        other.hour == tweet.hour,
        other.retweeted == tweet.retweeted,
        other.rtuser == tweet.rtuser,
        other.screen_name == tweet.screen_name,
        other.followed_users == tweet.followed_users,
    ensures
        rule.accepts(other) == rule.accepts(tweet),
{
}

} // verus!
