use vstd::prelude::*;
use vstd::string::StringExecFns;

use crate::client::{BarkNotificationLevel, BarkPostBody};

verus! {

#[verifier::external_type_specification]
#[verifier::external_body]
pub struct ExValue(serde_json::Value);

/// The alert carried by an inbound webhook. The sending platform does not
/// guarantee any field, so all of them are optional.
#[derive(Debug)]
pub struct UptraceAlert {
    pub id: Option<String>,
    pub url: Option<String>,
    pub name: Option<String>,
    pub alert_type: Option<String>,
    pub state: Option<String>,
    pub created_at: Option<String>,
}

/// An inbound webhook: what happened, the alert it concerns, and an opaque
/// payload that is carried along unread.
#[derive(Debug)]
pub struct UptraceWebhook {
    pub id: Option<String>,
    pub event_name: Option<String>,
    pub payload: serde_json::Value,
    pub created_at: Option<String>,
    pub alert: UptraceAlert,
}

/// The phrase for what happened to the alert.
pub open spec fn event_phrase(event_name: Option<String>) -> Seq<char> {
    match event_name {
        Some(s) => if s@ == "created"@ {
            "新增"@
        } else if s@ == "status-changed"@ {
            "更新"@
        } else if s@ == "recurring"@ {
            "重复出现"@
        } else {
            "其他动作"@
        },
        None => "其他动作"@,
    }
}

/// The phrase for the kind of alert.
pub open spec fn alert_phrase(alert_type: Option<String>) -> Seq<char> {
    match alert_type {
        Some(s) => if s@ == "metric"@ {
            "监控"@
        } else if s@ == "error"@ {
            "错误"@
        } else {
            "其他"@
        },
        None => "其他"@,
    }
}

/// The notification title: the event phrase, the alert phrase, and the word
/// for "event", separated by spaces.
pub open spec fn title_text(w: UptraceWebhook) -> Seq<char> {
    event_phrase(w.event_name) + " "@ + alert_phrase(w.alert.alert_type) + " 事件"@
}

/// The text of an optional field, or the empty text when it is missing.
pub open spec fn text_or_empty(o: Option<String>) -> Seq<char> {
    match o {
        Some(s) => s@,
        None => Seq::empty(),
    }
}

/// The notification body: the alert's name, a newline, and when it was
/// raised. A missing name or time reads as empty.
pub open spec fn body_text(w: UptraceWebhook) -> Seq<char> {
    text_or_empty(w.alert.name) + "\n"@ + text_or_empty(w.alert.created_at)
}

/// The sound every alert notification plays.
pub open spec fn alert_sound() -> Seq<char> {
    "minuet"@
}

fn event_phrase_str(event_name: &Option<String>) -> (r: &'static str)
    ensures
        r@ == event_phrase(*event_name),
{
    match event_name {
        Some(s) => {
            if *s == String::from_str("created") {
                "新增"
            } else if *s == String::from_str("status-changed") {
                "更新"
            } else if *s == String::from_str("recurring") {
                "重复出现"
            } else {
                "其他动作"
            }
        },
        None => "其他动作",
    }
}

fn alert_phrase_str(alert_type: &Option<String>) -> (r: &'static str)
    ensures
        r@ == alert_phrase(*alert_type),
{
    match alert_type {
        Some(s) => {
            if *s == String::from_str("metric") {
                "监控"
            } else if *s == String::from_str("error") {
                "错误"
            } else {
                "其他"
            }
        },
        None => "其他",
    }
}

fn text_or_empty_exec(o: &Option<String>) -> (r: String)
    ensures
        r@ == text_or_empty(*o),
{
    match o {
        Some(s) => s.clone(),
        None => String::new(),
    }
}

impl UptraceWebhook {
    /// The notification that announces this webhook's alert. It is sent
    /// time-sensitive, with the minuet sound, and with the alert's link
    /// offered for copying; a missing link is offered as empty text. Badge
    /// and icon are left to the receiver.
    pub fn to_bark_post_body(&self) -> (r: BarkPostBody)
        ensures
            r.title is Some && r.title->0@ == title_text(*self),
            r.body is Some && r.body->0@ == body_text(*self),
            r.level == Some(BarkNotificationLevel::TimeSensitive),
            r.badge is None,
            r.auto_copy == Some(true),
            r.copy is Some && r.copy->0@ == text_or_empty(self.alert.url),
            r.sound is Some && r.sound->0@ == alert_sound(),
            r.icon is None,
    {
        let title = String::from_str(event_phrase_str(&self.event_name)).concat(" ").concat(
            alert_phrase_str(&self.alert.alert_type),
        ).concat(" 事件");
        let body = text_or_empty_exec(&self.alert.name).concat("\n").concat(
            text_or_empty_exec(&self.alert.created_at).as_str(),
        );
        BarkPostBody {
            title: Some(title),
            body: Some(body),
            level: Some(BarkNotificationLevel::TimeSensitive),
            badge: None,
            auto_copy: Some(true),
            copy: Some(text_or_empty_exec(&self.alert.url)),
            sound: Some(String::from_str("minuet")),
            icon: None,
        }
    }
}

} // verus!
