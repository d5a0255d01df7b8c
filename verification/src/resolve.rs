//! The choice of the webhook that a batch of alerts is forwarded to.
//!
//! An alert may name a webhook of its own in the annotation `ding_url`. One
//! webhook is chosen for the whole batch: that of the last alert that names
//! one, and the configured webhook where no alert does.

use crate::alert::{alert_views, Alert, AlertView};
use vstd::prelude::*;
use vstd::string::*;

verus! {

/// Whether `alert` names a webhook of its own.
pub open spec fn has_override(alert: AlertView) -> bool {
    alert.annotations.contains_key("ding_url"@)
}

/// The webhook that `alert` names. Meaningful where [`has_override`] holds.
pub open spec fn override_url(alert: AlertView) -> Seq<char> {
    alert.annotations["ding_url"@]
}

/// Whether no alert of the sequence names a webhook.
pub open spec fn no_override(alerts: Seq<AlertView>) -> bool {
    forall|i: int| 0 <= i < alerts.len() ==> !has_override(#[trigger] alerts[i])
}

/// Whether the alert at `index` names a webhook and no later alert does.
pub open spec fn is_last_override(alerts: Seq<AlertView>, index: int) -> bool {
    &&& 0 <= index < alerts.len()
    &&& has_override(alerts[index])
    &&& forall|j: int| index < j < alerts.len() ==> !has_override(#[trigger] alerts[j])
}

/// The webhook for a batch: read from the end of the sequence, the first
/// alert that names a webhook decides, and `default_url` stands where none
/// does.
pub open spec fn resolved_url(default_url: Seq<char>, alerts: Seq<AlertView>) -> Seq<char>
    decreases alerts.len(),
{
    if alerts.len() == 0 {
        default_url
    } else if has_override(alerts.last()) {
        override_url(alerts.last())
    } else {
        resolved_url(default_url, alerts.drop_last())
    }
}

/// Where no alert names a webhook, the configured one is chosen unchanged.
pub proof fn lemma_default_without_override(default_url: Seq<char>, alerts: Seq<AlertView>)
    requires
        no_override(alerts),
    ensures
        resolved_url(default_url, alerts) == default_url,
    decreases alerts.len(),
{
    if alerts.len() > 0 {
        assert(!has_override(alerts[alerts.len() - 1]));
        let rest = alerts.drop_last();
        assert forall|i: int| 0 <= i < rest.len() implies !has_override(#[trigger] rest[i]) by {
            assert(rest[i] == alerts[i]);
        }
        lemma_default_without_override(default_url, rest);
    }
}

/// Last wins: where several alerts name a webhook, whatever the values are,
/// the webhook of the last of them in the order of the sequence is chosen.
pub proof fn lemma_last_override_wins(
    default_url: Seq<char>,
    alerts: Seq<AlertView>,
    index: int,
)
    requires
        is_last_override(alerts, index),
    ensures
        resolved_url(default_url, alerts) == override_url(alerts[index]),
    decreases alerts.len(),
{
    if index < alerts.len() - 1 {
        assert(!has_override(alerts[alerts.len() - 1]));
        let rest = alerts.drop_last();
        assert(rest[index] == alerts[index]);
        assert forall|j: int| index < j < rest.len() implies !has_override(#[trigger] rest[j]) by {
            assert(rest[j] == alerts[j]);
        }
        lemma_last_override_wins(default_url, rest, index);
    }
}

/// Where exactly one alert of a batch names a webhook, that webhook is
/// chosen, wherever the alert stands in the batch.
pub proof fn lemma_single_override(
    default_url: Seq<char>,
    alerts: Seq<AlertView>,
    index: int,
    url: Seq<char>,
)
    requires
        0 <= index < alerts.len(),
        has_override(alerts[index]),
        override_url(alerts[index]) == url,
        forall|j: int| 0 <= j < alerts.len() && j != index ==> !has_override(#[trigger] alerts[j]),
    ensures
        resolved_url(default_url, alerts) == url,
{
    lemma_last_override_wins(default_url, alerts, index);
}

/// The chosen webhook is the configured one or one that an alert names:
/// the choice never merges and never invents a value.
pub proof fn lemma_resolved_is_default_or_named(default_url: Seq<char>, alerts: Seq<AlertView>)
    ensures
        no_override(alerts) || exists|i: int| is_last_override(alerts, i),
        no_override(alerts) ==> resolved_url(default_url, alerts) == default_url,
        forall|i: int| #[trigger]
            is_last_override(alerts, i) ==> resolved_url(default_url, alerts) == override_url(
                alerts[i],
            ),
    decreases alerts.len(),
{
    if no_override(alerts) {
        lemma_default_without_override(default_url, alerts);
    }
    assert forall|i: int| #[trigger] is_last_override(alerts, i) implies resolved_url(
        default_url,
        alerts,
    ) == override_url(alerts[i]) by {
        lemma_last_override_wins(default_url, alerts, i);
    }
    if alerts.len() > 0 && !no_override(alerts) {
        let last = alerts.len() - 1;
        if has_override(alerts[last]) {
            assert(is_last_override(alerts, last));
        } else {
            let rest = alerts.drop_last();
            lemma_resolved_is_default_or_named(default_url, rest);
            if no_override(rest) {
                assert forall|i: int| 0 <= i < alerts.len() implies !has_override(
                    #[trigger] alerts[i],
                ) by {
                    if i < last {
                        assert(rest[i] == alerts[i]);
                    }
                }
            } else {
                let i = choose|i: int| is_last_override(rest, i);
                assert(rest[i] == alerts[i]);
                assert forall|j: int| i < j < alerts.len() implies !has_override(
                    #[trigger] alerts[j],
                ) by {
                    if j < last {
                        assert(rest[j] == alerts[j]);
                    }
                }
                assert(is_last_override(alerts, i));
            }
        }
    }
}

/// Chooses the webhook for a batch of alerts: the value of the annotation
/// `ding_url` of the last alert that has it, else `default_url`.
pub fn resolve_url(default_url: &str, alerts: &Vec<Alert>) -> (url: String)
    ensures
        url@ == resolved_url(default_url@, alert_views(alerts@)),
        no_override(alert_views(alerts@)) ==> url@ == default_url@,
        forall|i: int| #[trigger]
            is_last_override(alert_views(alerts@), i) ==> url@ == override_url(
                alert_views(alerts@)[i],
            ),
{
    let ghost views = alert_views(alerts@);
    let mut url = String::from_str(default_url);
    let mut i: usize = 0;
    while i < alerts.len()
        invariant
            0 <= i <= alerts.len(),
            views == alert_views(alerts@),
            url@ == resolved_url(default_url@, views.take(i as int)),
        decreases alerts.len() - i,
    {
        let ghost after = views.take(i as int + 1);
        assert(after.drop_last() =~= views.take(i as int));
        assert(after.last() == alerts@[i as int]@);
        match alerts[i].annotation("ding_url") {
            Some(named) => {
                url = named.clone();
            },
            None => {},
        }
        i += 1;
    }
    proof {
        assert(views.take(i as int) =~= views);
        lemma_resolved_is_default_or_named(default_url@, views);
    }
    url
}

} // verus!
