//! What is sent when a rule fires: a message to each of its chats and, when
//! the rule includes images, an album of the tweet's photos to each chat.

use vstd::prelude::*;

use crate::rule::Rule;
use crate::twitter::{alert_html, alert_message};

verus! {

/// A text message to one chat.
pub struct ChatMessage {
    pub chat: i64,
    pub html: String,
    pub web_page_preview: bool,
}

/// An album of photos, given by URL, to one chat.
pub struct ChatAlbum {
    pub chat: i64,
    pub photo_urls: Vec<String>,
}

/// The sends for one fired rule, in order: the messages; then, if
/// `pause_before_images`, a pause followed by the albums.
pub struct AlertPlan {
    pub messages: Vec<ChatMessage>,
    pub pause_before_images: bool,
    pub albums: Vec<ChatAlbum>,
}

/// A copy of a list of strings.
fn copy_strings(strings: &Vec<String>) -> (copy: Vec<String>)
    ensures
        copy@ == strings@,
{
    let mut copy: Vec<String> = Vec::new();
    let mut i: usize = 0;
    while i < strings.len()
        invariant
            i <= strings@.len(),
            copy@ == strings@.take(i as int),
        decreases strings@.len() - i,
    {
        copy.push(strings[i].clone());
        assert(strings@.take(i + 1) =~= strings@.take(i as int).push(strings@[i as int]));
        i = i + 1;
    }
    assert(strings@.take(strings@.len() as int) =~= strings@);
    copy
}

/// Plans the alert for a tweet that fired `rule`: to every chat of the rule,
/// in order, the alert text, with a web page preview only when the rule
/// asks for one and the tweet has no media; and, when the rule includes
/// images and the tweet carries photos, an album of those photos to every
/// chat.
pub fn plan_alert(
    rule: &Rule,
    screen_name: &str,
    text: &str,
    has_media: bool,
    photo_urls: Option<&Vec<String>>,
) -> (plan: AlertPlan)
    ensures
        plan.messages@.len() == rule.chats@.len(),
        forall|i: int|
            0 <= i < rule.chats@.len() ==> {
                &&& (#[trigger] plan.messages@[i]).chat == rule.chats@[i].chat
                &&& plan.messages@[i].html@ == alert_html(screen_name@, text@)
                &&& plan.messages@[i].html@ == "<b>"@ + screen_name@ + "</b>: "@ + text@
                &&& plan.messages@[i].web_page_preview == (rule.webpage_preview && !has_media)
            },
        plan.pause_before_images == rule.include_images,
        plan.albums@.len() == (if rule.include_images && photo_urls is Some {
            rule.chats@.len()
        } else {
            0
        }),
        forall|i: int|
            0 <= i < plan.albums@.len() ==> {
                &&& (#[trigger] plan.albums@[i]).chat == rule.chats@[i].chat
                &&& plan.albums@[i].photo_urls@ == photo_urls->0@
            },
{
    let preview = rule.webpage_preview_for(has_media);
    let mut messages: Vec<ChatMessage> = Vec::new();
    let mut albums: Vec<ChatAlbum> = Vec::new();
    let mut i: usize = 0;
    while i < rule.chats.len()
        invariant
            i <= rule.chats@.len(),
            preview == (rule.webpage_preview && !has_media),
            messages@.len() == i,
            forall|j: int|
                0 <= j < i ==> {
                    &&& (#[trigger] messages@[j]).chat == rule.chats@[j].chat
                    &&& messages@[j].html@ == alert_html(screen_name@, text@)
                    &&& messages@[j].web_page_preview == preview
                },
        decreases rule.chats@.len() - i,
    {
        let html = alert_message(screen_name, text);
        messages.push(ChatMessage { chat: rule.chats[i].chat, html, web_page_preview: preview });
        i = i + 1;
    }
    if rule.include_images {
        match photo_urls {
            Some(urls) => {
                let mut k: usize = 0;
                while k < rule.chats.len()
                    invariant
                        k <= rule.chats@.len(),
                        albums@.len() == k,
                        forall|j: int|
                            0 <= j < k ==> {
                                &&& (#[trigger] albums@[j]).chat == rule.chats@[j].chat
                                &&& albums@[j].photo_urls@ == urls@
                            },
                    decreases rule.chats@.len() - k,
                {
                    albums.push(ChatAlbum { chat: rule.chats[k].chat, photo_urls: copy_strings(urls) });
                    k = k + 1;
                }
            },
            None => {},
        }
    }
    AlertPlan { messages, pause_before_images: rule.include_images, albums }
}

} // verus!
