//! The alert group that the alert manager posts, and the alerts in it.
//!
//! Labels and annotations are maps from string to string. Their keys are
//! case-sensitive and each key occurs once. The alerts of a group keep the
//! order in which they arrived.

use vstd::hash_map::StringHashMap;
use vstd::prelude::*;
use vstd::string::*;

verus! {

/// What an [`Alert`] holds, as mathematical values.
pub struct AlertView {
    pub status: Seq<char>,
    pub labels: Map<Seq<char>, Seq<char>>,
    pub annotations: Map<Seq<char>, Seq<char>>,
    pub starts_at: Seq<char>,
    pub ends_at: Seq<char>,
    pub generator_url: Seq<char>,
    pub fingerprint: Seq<char>,
}

/// One alert of a group.
///
/// The two timestamps are carried as the text that arrived. The fingerprint
/// identifies the alert; nothing here reads it.
pub struct Alert {
    status: String,
    labels: StringHashMap<String>,
    annotations: StringHashMap<String>,
    starts_at: String,
    ends_at: String,
    generator_url: String,
    fingerprint: String,
}

/// The entries of a map of strings, each value taken by its view.
pub open spec fn entry_views(entries: Map<Seq<char>, String>) -> Map<Seq<char>, Seq<char>> {
    entries.map_values(|value: String| value@)
}

/// The views of a sequence of alerts, in the same order.
pub open spec fn alert_views(alerts: Seq<Alert>) -> Seq<AlertView> {
    alerts.map_values(|alert: Alert| alert@)
}

impl View for Alert {
    type V = AlertView;

    closed spec fn view(&self) -> AlertView {
        AlertView {
            status: self.status@,
            labels: entry_views(self.labels@),
            annotations: entry_views(self.annotations@),
            starts_at: self.starts_at@,
            ends_at: self.ends_at@,
            generator_url: self.generator_url@,
            fingerprint: self.fingerprint@,
        }
    }
}

impl Alert {
    /// An alert without labels and annotations.
    pub fn new(
        status: String,
        starts_at: String,
        ends_at: String,
        generator_url: String,
        fingerprint: String,
    ) -> (alert: Alert)
        ensures
            alert@ == (AlertView {
                status: status@,
                labels: Map::empty(),
                annotations: Map::empty(),
                starts_at: starts_at@,
                ends_at: ends_at@,
                generator_url: generator_url@,
                fingerprint: fingerprint@,
            }),
    {
        let alert = Alert {
            status,
            labels: StringHashMap::new(),
            annotations: StringHashMap::new(),
            starts_at,
            ends_at,
            generator_url,
            fingerprint,
        };
        assert(alert@.labels =~= Map::empty());
        assert(alert@.annotations =~= Map::empty());
        alert
    }

    /// Sets the label `key` to `value`. A value that the key had before is
    /// replaced.
    pub fn set_label(&mut self, key: String, value: String)
        ensures
            final(self)@ == (AlertView {
                labels: old(self)@.labels.insert(key@, value@),
                ..old(self)@
            }),
    {
        self.labels.insert(key, value);
        assert(final(self)@.labels =~= old(self)@.labels.insert(key@, value@));
    }

    /// Sets the annotation `key` to `value`. A value that the key had before
    /// is replaced.
    pub fn set_annotation(&mut self, key: String, value: String)
        ensures
            final(self)@ == (AlertView {
                annotations: old(self)@.annotations.insert(key@, value@),
                ..old(self)@
            }),
    {
        self.annotations.insert(key, value);
        assert(final(self)@.annotations =~= old(self)@.annotations.insert(key@, value@));
    }

    /// Whether the alert is firing or resolved, as the text that arrived.
    pub fn status(&self) -> (status: &str)
        ensures
            status@ == self@.status,
    {
        self.status.as_str()
    }

    /// When the alert began.
    pub fn starts_at(&self) -> (starts_at: &str)
        ensures
            starts_at@ == self@.starts_at,
    {
        self.starts_at.as_str()
    }

    /// When the alert ended.
    pub fn ends_at(&self) -> (ends_at: &str)
        ensures
            ends_at@ == self@.ends_at,
    {
        self.ends_at.as_str()
    }

    /// The address of what raised the alert.
    pub fn generator_url(&self) -> (generator_url: &str)
        ensures
            generator_url@ == self@.generator_url,
    {
        self.generator_url.as_str()
    }

    /// The fingerprint that identifies the alert.
    pub fn fingerprint(&self) -> (fingerprint: &str)
        ensures
            fingerprint@ == self@.fingerprint,
    {
        self.fingerprint.as_str()
    }

    /// The value of the label `key`, if the alert has that label.
    pub fn label(&self, key: &str) -> (value: Option<&String>)
        ensures
            match value {
                Some(text) => self@.labels.contains_key(key@) && text@ == self@.labels[key@],
                None => !self@.labels.contains_key(key@),
            },
    {
        self.labels.get(key)
    }

    /// The value of the annotation `key`, if the alert has that annotation.
    pub fn annotation(&self, key: &str) -> (value: Option<&String>)
        ensures
            match value {
                Some(text) => self@.annotations.contains_key(key@) && text@
                    == self@.annotations[key@],
                None => !self@.annotations.contains_key(key@),
            },
    {
        self.annotations.get(key)
    }
}

/// What a [`PrometeusPost`] holds, as mathematical values.
pub struct PrometeusPostView {
    pub version: Seq<char>,
    pub group_key: Seq<char>,
    pub status: Seq<char>,
    pub receiver: Seq<char>,
    pub group_labels: Map<Seq<char>, Seq<char>>,
    pub common_labels: Map<Seq<char>, Seq<char>>,
    pub common_annotations: Map<Seq<char>, Seq<char>>,
    pub external_url: Seq<char>,
    pub alerts: Seq<AlertView>,
}

/// A group of alerts as the alert manager posts it.
///
/// A group belongs to the request that brought it and is not changed after
/// it has been put together.
pub struct PrometeusPost {
    version: String,
    group_key: String,
    status: String,
    receiver: String,
    group_labels: StringHashMap<String>,
    common_labels: StringHashMap<String>,
    common_annotations: StringHashMap<String>,
    external_url: String,
    alerts: Vec<Alert>,
}

impl View for PrometeusPost {
    type V = PrometeusPostView;

    closed spec fn view(&self) -> PrometeusPostView {
        PrometeusPostView {
            version: self.version@,
            group_key: self.group_key@,
            status: self.status@,
            receiver: self.receiver@,
            group_labels: entry_views(self.group_labels@),
            common_labels: entry_views(self.common_labels@),
            common_annotations: entry_views(self.common_annotations@),
            external_url: self.external_url@,
            alerts: alert_views(self.alerts@),
        }
    }
}

impl PrometeusPost {
    /// A group with the given alerts, in their order, and with no group
    /// label, common label or common annotation.
    pub fn new(
        version: String,
        group_key: String,
        status: String,
        receiver: String,
        external_url: String,
        alerts: Vec<Alert>,
    ) -> (post: PrometeusPost)
        ensures
            post@ == (PrometeusPostView {
                version: version@,
                group_key: group_key@,
                status: status@,
                receiver: receiver@,
                group_labels: Map::empty(),
                common_labels: Map::empty(),
                common_annotations: Map::empty(),
                external_url: external_url@,
                alerts: alert_views(alerts@),
            }),
    {
        let post = PrometeusPost {
            version,
            group_key,
            status,
            receiver,
            group_labels: StringHashMap::new(),
            common_labels: StringHashMap::new(),
            common_annotations: StringHashMap::new(),
            external_url,
            alerts,
        };
        assert(post@.group_labels =~= Map::empty());
        assert(post@.common_labels =~= Map::empty());
        assert(post@.common_annotations =~= Map::empty());
        post
    }

    /// Sets the group label `key` to `value`.
    pub fn set_group_label(&mut self, key: String, value: String)
        ensures
            final(self)@ == (PrometeusPostView {
                group_labels: old(self)@.group_labels.insert(key@, value@),
                ..old(self)@
            }),
    {
        self.group_labels.insert(key, value);
        assert(final(self)@.group_labels =~= old(self)@.group_labels.insert(key@, value@));
    }

    /// Sets the common label `key` to `value`.
    pub fn set_common_label(&mut self, key: String, value: String)
        ensures
            final(self)@ == (PrometeusPostView {
                common_labels: old(self)@.common_labels.insert(key@, value@),
                ..old(self)@
            }),
    {
        self.common_labels.insert(key, value);
        assert(final(self)@.common_labels =~= old(self)@.common_labels.insert(key@, value@));
    }

    /// Sets the common annotation `key` to `value`.
    pub fn set_common_annotation(&mut self, key: String, value: String)
        ensures
            final(self)@ == (PrometeusPostView {
                common_annotations: old(self)@.common_annotations.insert(key@, value@),
                ..old(self)@
            }),
    {
        self.common_annotations.insert(key, value);
        assert(final(self)@.common_annotations =~= old(self)@.common_annotations.insert(
            key@,
            value@,
        ));
    }

    /// The version of the alert manager's format.
    pub fn version(&self) -> (version: &str)
        ensures
            version@ == self@.version,
    {
        self.version.as_str()
    }

    /// The key by which the alert manager tells the group from others.
    pub fn group_key(&self) -> (group_key: &str)
        ensures
            group_key@ == self@.group_key,
    {
        self.group_key.as_str()
    }

    /// Whether the group is firing or resolved, as the text that arrived.
    pub fn status(&self) -> (status: &str)
        ensures
            status@ == self@.status,
    {
        self.status.as_str()
    }

    /// The receiver that the alert manager sent the group to.
    pub fn receiver(&self) -> (receiver: &str)
        ensures
            receiver@ == self@.receiver,
    {
        self.receiver.as_str()
    }

    /// The address of the alert manager.
    pub fn external_url(&self) -> (external_url: &str)
        ensures
            external_url@ == self@.external_url,
    {
        self.external_url.as_str()
    }

    /// The value of the group label `key`, if the group has that label.
    pub fn group_label(&self, key: &str) -> (value: Option<&String>)
        ensures
            match value {
                Some(text) => self@.group_labels.contains_key(key@) && text@
                    == self@.group_labels[key@],
                None => !self@.group_labels.contains_key(key@),
            },
    {
        self.group_labels.get(key)
    }

    /// The value of the common label `key`, if the group has that label.
    pub fn common_label(&self, key: &str) -> (value: Option<&String>)
        ensures
            match value {
                Some(text) => self@.common_labels.contains_key(key@) && text@
                    == self@.common_labels[key@],
                None => !self@.common_labels.contains_key(key@),
            },
    {
        self.common_labels.get(key)
    }

    /// The value of the common annotation `key`, if the group has it.
    pub fn common_annotation(&self, key: &str) -> (value: Option<&String>)
        ensures
            match value {
                Some(text) => self@.common_annotations.contains_key(key@) && text@
                    == self@.common_annotations[key@],
                None => !self@.common_annotations.contains_key(key@),
            },
    {
        self.common_annotations.get(key)
    }

    /// The alerts of the group, in the order in which they arrived.
    pub fn alerts(&self) -> (alerts: &Vec<Alert>)
        ensures
            alert_views(alerts@) == self@.alerts,
    {
        &self.alerts
    }
}

} // verus!
