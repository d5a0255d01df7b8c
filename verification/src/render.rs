//! Rendering of an alert sequence as markdown.
//!
//! Each alert becomes one block: a second-level heading with the alert's
//! name, then three bullets with the date of rendering, the summary and the
//! description. Neighbouring blocks are parted by an empty line.

use crate::alert::{alert_views, Alert, AlertView};
use crate::utils::decimal::{decimal, decimal_text};
use vstd::prelude::*;
use vstd::string::*;

verus! {

/// A key that an alert needs to be rendered and does not have.
#[derive(Debug, Clone, Copy, PartialEq, Eq, Structural)]
pub enum MissingKey {
    /// The label `alertname`.
    Alertname,
    /// The annotation `summary`.
    Summary,
    /// The annotation `description`.
    Description,
}

/// Why a sequence of alerts has no markdown form: the alert at `index` is the
/// first that lacks a key, and `key` is the first key that it lacks.
#[derive(Debug, Clone, Copy, PartialEq, Eq, Structural)]
pub struct RenderError {
    pub index: usize,
    pub key: MissingKey,
}

/// How a key is named in the description of a failure.
pub open spec fn key_words(key: MissingKey) -> Seq<char> {
    match key {
        MissingKey::Alertname => "label alertname"@,
        MissingKey::Summary => "annotation summary"@,
        MissingKey::Description => "annotation description"@,
    }
}

impl RenderError {
    /// The description of this failure, as the relay reports it.
    pub open spec fn described(self) -> Seq<char> {
        "render failed: alert "@ + decimal(self.index as nat) + " has no "@ + key_words(self.key)
    }

    /// Describes the failure: the place of the alert, counted from 0, and
    /// the key that it lacks.
    pub fn description(&self) -> (text: String)
        ensures
            text@ == self.described(),
            text@ != "ok"@,
    {
        let words = match self.key {
            MissingKey::Alertname => "label alertname",
            MissingKey::Summary => "annotation summary",
            MissingKey::Description => "annotation description",
        };
        let place = decimal_text(self.index as u64);
        let mut text = String::from_str("render failed: alert ");
        text.append(place.as_str());
        text.append(" has no ");
        text.append(words);
        proof {
            assert(text@ =~= self.described());
            reveal_strlit("render failed: alert ");
            reveal_strlit("ok");
            assert(text@.len() >= 21);
        }
        text
    }
}

/// The first key that rendering needs and `alert` lacks, if there is one.
/// The label is looked up before the two annotations.
pub open spec fn missing_key(alert: AlertView) -> Option<MissingKey> {
    if !alert.labels.contains_key("alertname"@) {
        Some(MissingKey::Alertname)
    } else if !alert.annotations.contains_key("summary"@) {
        Some(MissingKey::Summary)
    } else if !alert.annotations.contains_key("description"@) {
        Some(MissingKey::Description)
    } else {
        None
    }
}

/// Whether `alert` has every key that rendering reads.
pub open spec fn renderable(alert: AlertView) -> bool {
    missing_key(alert) is None
}

/// Whether every alert of the sequence can be rendered.
pub open spec fn all_renderable(alerts: Seq<AlertView>) -> bool {
    forall|i: int| 0 <= i < alerts.len() ==> renderable(#[trigger] alerts[i])
}

/// The heading line of an alert's block, with the line break that ends it.
pub open spec fn heading(alert: AlertView) -> Seq<char> {
    "## "@ + alert.labels["alertname"@] + "\n"@
}

/// The three bullet lines of an alert's block.
pub open spec fn bullets(alert: AlertView, date: Seq<char>) -> Seq<char> {
    "* date:"@ + date + "\n* summary:"@ + alert.annotations["summary"@] + "\n* description:"@
        + alert.annotations["description"@] + "\n"@
}

/// The block of one alert: its heading, then its bullets.
pub open spec fn block(alert: AlertView, date: Seq<char>) -> Seq<char> {
    heading(alert) + bullets(alert, date)
}

/// The markdown text of a sequence of alerts: the blocks in the order of the
/// alerts, with one more line break between neighbours.
pub open spec fn markdown(alerts: Seq<AlertView>, date: Seq<char>) -> Seq<char>
    decreases alerts.len(),
{
    if alerts.len() == 0 {
        Seq::empty()
    } else if alerts.len() == 1 {
        block(alerts[0], date)
    } else {
        markdown(alerts.drop_last(), date) + "\n"@ + block(alerts.last(), date)
    }
}

/// What [`render_markdown`] returns for a sequence of alerts.
pub open spec fn render_outcome(alerts: Seq<AlertView>, date: Seq<char>) -> Result<
    Seq<char>,
    RenderError,
> {
    if all_renderable(alerts) {
        Ok(markdown(alerts, date))
    } else {
        let index = choose|i: int| first_unrenderable(alerts, i);
        Err(RenderError { index: index as usize, key: missing_key(alerts[index])->0 })
    }
}

/// Whether `index` is the place of the first alert that cannot be rendered.
pub open spec fn first_unrenderable(alerts: Seq<AlertView>, index: int) -> bool {
    &&& 0 <= index < alerts.len()
    &&& !renderable(alerts[index])
    &&& all_renderable(alerts.take(index))
}

/// At most one place is the first that cannot be rendered.
pub proof fn lemma_first_unrenderable_unique(alerts: Seq<AlertView>, i: int, j: int)
    requires
        first_unrenderable(alerts, i),
        first_unrenderable(alerts, j),
    ensures
        i == j,
{
    if i < j {
        assert(alerts.take(j)[i] == alerts[i]);
    } else if j < i {
        assert(alerts.take(i)[j] == alerts[j]);
    }
}

/// Renders one alert as its block, or says which key it lacks.
pub fn render_block(alert: &Alert, date: &str) -> (rendered: Result<String, MissingKey>)
    ensures
        match rendered {
            Ok(text) => renderable(alert@) && text@ == block(alert@, date@),
            Err(key) => missing_key(alert@) == Some(key),
        },
{
    let name = match alert.label("alertname") {
        Some(name) => name,
        None => {
            return Err(MissingKey::Alertname);
        },
    };
    let summary = match alert.annotation("summary") {
        Some(summary) => summary,
        None => {
            return Err(MissingKey::Summary);
        },
    };
    let description = match alert.annotation("description") {
        Some(description) => description,
        None => {
            return Err(MissingKey::Description);
        },
    };
    let mut text = String::from_str("## ");
    text.append(name.as_str());
    text.append("\n");
    text.append("* date:");
    text.append(date);
    text.append("\n* summary:");
    text.append(summary.as_str());
    text.append("\n* description:");
    text.append(description.as_str());
    text.append("\n");
    assert(text@ =~= block(alert@, date@));
    Ok(text)
}

/// Renders the alerts as markdown, with `date` as the date of every block.
///
/// Fails on the first alert that lacks the label `alertname` or one of the
/// annotations `summary` and `description`, and names that alert and the key.
pub fn render_markdown(alerts: &Vec<Alert>, date: &str) -> (rendered: Result<String, RenderError>)
    ensures
        match rendered {
            Ok(text) => all_renderable(alert_views(alerts@)) && text@ == markdown(
                alert_views(alerts@),
                date@,
            ),
            Err(e) => first_unrenderable(alert_views(alerts@), e.index as int) && missing_key(
                alert_views(alerts@)[e.index as int],
            ) == Some(e.key),
        },
        rendered matches Ok(text) ==> Ok::<Seq<char>, RenderError>(text@) == render_outcome(
            alert_views(alerts@),
            date@,
        ),
        rendered matches Err(e) ==> Err::<Seq<char>, RenderError>(e) == render_outcome(
            alert_views(alerts@),
            date@,
        ),
{
    let ghost views = alert_views(alerts@);
    let mut text = String::new();
    let mut i: usize = 0;
    while i < alerts.len()
        invariant
            0 <= i <= alerts.len(),
            views == alert_views(alerts@),
            all_renderable(views.take(i as int)),
            text@ == markdown(views.take(i as int), date@),
        decreases alerts.len() - i,
    {
        let ghost before = views.take(i as int);
        let ghost after = views.take(i as int + 1);
        assert(after.drop_last() =~= before);
        assert(after.last() == views[i as int]);
        assert(views[i as int] == alerts@[i as int]@);
        match render_block(&alerts[i], date) {
            Ok(piece) => {
                if i > 0 {
                    text.append("\n");
                }
                text.append(piece.as_str());
                assert(text@ =~= markdown(after, date@));
                assert forall|j: int| 0 <= j < after.len() implies renderable(
                    #[trigger] after[j],
                ) by {
                    if j < i {
                        assert(before[j] == after[j]);
                    }
                }
            },
            Err(key) => {
                let e = RenderError { index: i, key };
                proof {
                    assert(first_unrenderable(views, i as int));
                    assert(!all_renderable(views));
                    let chosen = choose|k: int| first_unrenderable(views, k);
                    lemma_first_unrenderable_unique(views, chosen, i as int);
                }
                return Err(e);
            },
        }
        i += 1;
    }
    assert(views.take(i as int) =~= views);
    Ok(text)
}

/// The place in the markdown text at which the block of the alert at `index`
/// begins: behind the blocks of the alerts before it and one line break
/// after each of them.
pub open spec fn block_start(alerts: Seq<AlertView>, date: Seq<char>, index: int) -> int
    decreases index,
{
    if index <= 0 {
        0
    } else {
        block_start(alerts, date, index - 1) + block(alerts[index - 1], date).len() + 1
    }
}

/// Whether `text` holds `part` at the place `start`.
pub open spec fn holds_at(text: Seq<char>, start: int, part: Seq<char>) -> bool {
    &&& 0 <= start
    &&& start + part.len() <= text.len()
    &&& text.subrange(start, start + part.len()) == part
}

/// Where a block begins depends on the alerts before it alone.
proof fn lemma_block_start_of_prefix(alerts: Seq<AlertView>, date: Seq<char>, k: int, index: int)
    requires
        0 <= index <= k <= alerts.len(),
    ensures
        block_start(alerts.take(k), date, index) == block_start(alerts, date, index),
    decreases index,
{
    if index > 0 {
        lemma_block_start_of_prefix(alerts, date, k, index - 1);
        assert(alerts.take(k)[index - 1] == alerts[index - 1]);
    }
}

/// One heading block per alert, in the order of the alerts.
///
/// The markdown text of a sequence of alerts that is not empty is made of
/// one block for each alert and one line break between neighbours, and of
/// nothing else: the block of the alert at `i` stands at `block_start(.., i)`,
/// these places follow one another in the order of the alerts, and the text
/// ends with the last block. Each block begins with its heading, whose text
/// is the alert's label `alertname`. Rendering gives this text whenever every
/// alert has the keys that it reads.
pub proof fn lemma_one_block_per_alert(alerts: Seq<AlertView>, date: Seq<char>)
    requires
        alerts.len() > 0,
    ensures
        all_renderable(alerts) ==> render_outcome(alerts, date) == Ok::<Seq<char>, RenderError>(
            markdown(alerts, date),
        ),
        markdown(alerts, date).len() + 1 == block_start(alerts, date, alerts.len() as int),
        forall|i: int|
            0 <= i < alerts.len() ==> holds_at(
                markdown(alerts, date),
                #[trigger] block_start(alerts, date, i),
                block(alerts[i], date),
            ),
        forall|i: int|
            0 <= i < alerts.len() ==> holds_at(
                markdown(alerts, date),
                #[trigger] block_start(alerts, date, i),
                "## "@ + alerts[i].labels["alertname"@] + "\n"@,
            ),
        forall|i: int|
            0 < i < alerts.len() ==> markdown(alerts, date)[#[trigger] block_start(
                alerts,
                date,
                i,
            ) - 1] == '\n',
    decreases alerts.len(),
{
    reveal_strlit("\n");
    let text = markdown(alerts, date);
    let n = alerts.len() as int;
    let last = block(alerts[n - 1], date);
    if n == 1 {
        assert(block_start(alerts, date, 1) == block_start(alerts, date, 0) + last.len() + 1);
        assert(text.subrange(0, last.len() as int) =~= last);
    } else {
        let rest = alerts.drop_last();
        let before = markdown(rest, date);
        lemma_one_block_per_alert(rest, date);
        assert(rest =~= alerts.take(n - 1));
        assert(text == before + "\n"@ + last);
        assert forall|i: int| 0 <= i <= n - 1 implies #[trigger] block_start(alerts, date, i)
            == block_start(rest, date, i) by {
            lemma_block_start_of_prefix(alerts, date, n - 1, i);
        }
        assert(block_start(alerts, date, n) == block_start(alerts, date, n - 1) + last.len() + 1);
        assert forall|i: int| 0 <= i < n implies holds_at(
            text,
            #[trigger] block_start(alerts, date, i),
            block(alerts[i], date),
        ) by {
            let start = block_start(alerts, date, i);
            let part = block(alerts[i], date);
            if i < n - 1 {
                assert(rest[i] == alerts[i]);
                assert(holds_at(before, block_start(rest, date, i), part));
                assert(text.subrange(start, start + part.len()) =~= before.subrange(
                    start,
                    start + part.len(),
                ));
            } else {
                assert(start == before.len() + 1);
                assert(text.subrange(start, start + part.len()) =~= part);
            }
        }
        assert forall|i: int| 0 < i < n implies text[#[trigger] block_start(alerts, date, i) - 1]
            == '\n' by {
            let start = block_start(alerts, date, i);
            assert(holds_at(text, block_start(alerts, date, i - 1), block(alerts[i - 1], date)));
            assert(start >= 1);
            if i < n - 1 {
                assert(holds_at(before, block_start(rest, date, i), block(rest[i], date)));
                assert(before[block_start(rest, date, i) - 1] == '\n');
                assert(text[start - 1] == before[start - 1]);
            } else {
                assert(start - 1 == before.len());
                assert(text[start - 1] == "\n"@[0]);
            }
        }
    }
    assert forall|i: int| 0 <= i < n implies holds_at(
        text,
        #[trigger] block_start(alerts, date, i),
        "## "@ + alerts[i].labels["alertname"@] + "\n"@,
    ) by {
        let start = block_start(alerts, date, i);
        let part = block(alerts[i], date);
        let head = heading(alerts[i]);
        assert(holds_at(text, start, part));
        assert(part.subrange(0, head.len() as int) =~= head);
        assert(text.subrange(start, start + head.len()) =~= part.subrange(0, head.len() as int));
    }
}

} // verus!
