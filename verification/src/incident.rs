//! Incident reports, their postmortem text, notifications, routing by
//! severity and the dispatch of notifications to channels.
use vstd::prelude::*;

use crate::text::{
    clone_strings, concat2, decimal, i64_to_decimal, join, join_strings, owned, signed_decimal, u64_to_decimal,
    views,
};
use crate::time::{minutes_between, plain_pattern, spec_format_utc, trunc_div, trunc_rem, whole_minutes, UtcTimestamp};

verus! {

/// Gravity of an incident.
#[derive(Clone, Copy, Debug, PartialEq, Eq, Structural)]
pub enum IncidentSeverity {
    Critical,
    High,
    Medium,
    Low,
}

pub open spec fn spec_badge(s: IncidentSeverity) -> Seq<char> {
    match s {
        IncidentSeverity::Critical => "CRITICAL"@,
        IncidentSeverity::High => "HIGH"@,
        IncidentSeverity::Medium => "MEDIUM"@,
        IncidentSeverity::Low => "LOW"@,
    }
}

pub open spec fn spec_emoji(s: IncidentSeverity) -> Seq<char> {
    match s {
        IncidentSeverity::Critical => "🚨"@,
        IncidentSeverity::High => "⚠️"@,
        IncidentSeverity::Medium => "ℹ️"@,
        IncidentSeverity::Low => "📝"@,
    }
}

impl IncidentSeverity {
    /// Upper-case label of the severity.
    pub fn badge(self) -> (r: &'static str)
        ensures
            r@ == spec_badge(self),
    {
        match self {
            IncidentSeverity::Critical => "CRITICAL",
            IncidentSeverity::High => "HIGH",
            IncidentSeverity::Medium => "MEDIUM",
            IncidentSeverity::Low => "LOW",
        }
    }

    /// Pictogram of the severity.
    pub fn emoji(self) -> (r: &'static str)
        ensures
            r@ == spec_emoji(self),
    {
        match self {
            IncidentSeverity::Critical => "🚨",
            IncidentSeverity::High => "⚠️",
            IncidentSeverity::Medium => "ℹ️",
            IncidentSeverity::Low => "📝",
        }
    }
}

/// One dated event in an incident's timeline.
#[derive(Clone, Debug)]
pub struct IncidentTimelineEntry {
    pub timestamp: UtcTimestamp,
    pub description: String,
}

impl IncidentTimelineEntry {
    pub fn new(timestamp: UtcTimestamp, description: String) -> (r: Self)
        ensures
            r.timestamp == timestamp,
            r.description@ == description@,
    {
        IncidentTimelineEntry { timestamp, description }
    }
}

/// A postmortem of an incident.
#[derive(Clone, Debug)]
pub struct IncidentReport {
    pub incident_id: String,
    pub title: String,
    pub severity: IncidentSeverity,
    pub category: String,
    pub detected_at: UtcTimestamp,
    pub resolved_at: Option<UtcTimestamp>,
    pub summary: String,
    pub impact: String,
    pub root_cause: String,
    pub lessons_learned: Vec<String>,
    pub actions_taken: Vec<String>,
    pub preventive_actions: Vec<String>,
    pub timeline: Vec<IncidentTimelineEntry>,
    pub author: Option<String>,
}

/// The notice sent to the channels about an incident.
#[derive(Clone, Debug)]
pub struct IncidentNotification {
    pub incident_id: String,
    pub title: String,
    pub severity: IncidentSeverity,
    pub summary: String,
    pub impact: String,
    pub detected_at: UtcTimestamp,
    pub resolved_at: Option<UtcTimestamp>,
    pub link: Option<String>,
}

/// The instant under a pattern (nothing should chrono fail to format it;
/// the patterns used here are plain, so it does not).
pub open spec fn fmt_of(t: UtcTimestamp, pattern: Seq<char>) -> Seq<char> {
    match spec_format_utc(t.spec_secs(), t.spec_nanos(), pattern) {
        Some(s) => s,
        None => Seq::empty(),
    }
}

proof fn lemma_report_patterns_plain()
    ensures
        plain_pattern("%Y-%m-%d %H:%M:%S UTC"@),
        plain_pattern("%Y-%m-%d %H:%M UTC"@),
        plain_pattern("%Y%m%dT%H%M%SZ"@),
{
    reveal_strlit("%Y-%m-%d %H:%M:%S UTC");
    reveal_strlit("%Y-%m-%d %H:%M UTC");
    reveal_strlit("%Y%m%dT%H%M%SZ");
}

/// An instant under one of the plain patterns of the reports.
fn stamp(t: &UtcTimestamp, pattern: &str) -> (r: String)
    requires
        plain_pattern(pattern@),
    ensures
        r@ == fmt_of(*t, pattern@),
{
    match t.format(pattern) {
        Some(s) => s,
        None => String::new(),
    }
}

/// `- item` lines joined by newlines, or `empty` when there is none.
pub open spec fn bullets(items: Seq<Seq<char>>, empty: Seq<char>) -> Seq<char> {
    if items.len() == 0 {
        empty
    } else {
        join(items.map_values(|x: Seq<char>| "- "@ + x), "\n"@)
    }
}

pub open spec fn timeline_line(e: IncidentTimelineEntry) -> Seq<char> {
    "- "@ + fmt_of(e.timestamp, "%Y-%m-%d %H:%M:%S UTC"@) + " — "@ + e.description@
}

pub open spec fn timeline_text(t: Seq<IncidentTimelineEntry>) -> Seq<char> {
    if t.len() == 0 {
        "- (sem eventos registrados)"@
    } else {
        join(t.map_values(|e: IncidentTimelineEntry| timeline_line(e)), "\n"@)
    }
}

/// `Xh Ym` for a span of at least an hour, otherwise `Ym`.
pub open spec fn duration_text(total_minutes: int) -> Seq<char> {
    let hours = trunc_div(total_minutes, 60);
    let minutes = trunc_rem(total_minutes, 60);
    if hours > 0 {
        decimal(hours as nat) + "h "@ + signed_decimal(minutes) + "m"@
    } else {
        signed_decimal(minutes) + "m"@
    }
}

/// How long an incident took, as read back from its text: under an hour,
/// the minutes; otherwise whole hours, then the minutes left over (always
/// fewer than sixty), so that hours times sixty plus minutes is the total.
pub proof fn law_duration_text_splits_hours(total_minutes: int)
    requires
        total_minutes >= 0,
    ensures
        total_minutes < 60 ==> duration_text(total_minutes) == decimal(total_minutes as nat) + "m"@,
        total_minutes >= 60 ==> duration_text(total_minutes) == decimal((total_minutes / 60) as nat) + "h "@
            + decimal((total_minutes % 60) as nat) + "m"@,
        total_minutes >= 60 ==> exists|h: nat, m: nat|
            #![trigger decimal(h), decimal(m)]
            h >= 1 && m < 60 && h * 60 + m == total_minutes && duration_text(total_minutes) == decimal(h) + "h "@
                + decimal(m) + "m"@,
{
    assert(trunc_div(total_minutes, 60) == total_minutes / 60);
    assert(trunc_rem(total_minutes, 60) == total_minutes % 60);
    if total_minutes >= 60 {
        let h = (total_minutes / 60) as nat;
        let m = (total_minutes % 60) as nat;
        assert(h >= 1 && m < 60 && h * 60 + m == total_minutes);
        assert(duration_text(total_minutes) == decimal(h) + "h "@ + decimal(m) + "m"@);
    }
}

pub open spec fn resolution_minutes(r: IncidentReport) -> Option<int> {
    match r.resolved_at {
        Some(t) => Some(whole_minutes(t.total_nanos() - r.detected_at.total_nanos())),
        None => None,
    }
}

/// The postmortem document of a report.
pub open spec fn markdown(r: IncidentReport) -> Seq<char> {
    let resolved = match r.resolved_at {
        Some(t) => fmt_of(t, "%Y-%m-%d %H:%M UTC"@),
        None => "Em aberto"@,
    };
    let duration = match resolution_minutes(r) {
        Some(m) => duration_text(m),
        None => "Indefinido"@,
    };
    let author = match r.author {
        Some(a) => a@,
        None => "Eng. Responsável não informado"@,
    };
    "# VVTV POSTMORTEM — INCIDENT "@ + r.incident_id@ + "\n**Título:** "@ + r.title@
        + "\n**Data:** "@ + fmt_of(r.detected_at, "%Y-%m-%d %H:%M UTC"@) + "\n**Gravidade:** "@
        + spec_badge(r.severity) + "\n**Categoria:** "@ + r.category@ + "\n**Impacto:** "@
        + r.impact@ + "\n**Resumo:** "@ + r.summary@ + "\n**Causa-raiz:** "@ + r.root_cause@
        + "\n**Tempo até resolução:** "@ + duration + "\n**Resolvido em:** "@ + resolved
        + "\n\n## Linha do tempo\n"@ + timeline_text(r.timeline@) + "\n\n## Ações executadas\n"@
        + bullets(views(r.actions_taken@), "- (sem ações registradas)"@)
        + "\n\n## Lições aprendidas\n"@ + bullets(
        views(r.lessons_learned@),
        "- (sem lições registradas)"@,
    ) + "\n\n## Ações preventivas\n"@ + bullets(
        views(r.preventive_actions@),
        "- (nenhuma ação preventiva registrada)"@,
    ) + "\n**Assinatura:** "@ + author + "\n"@
}

/// Text of a span in minutes: `Xh Ym` from one hour on, otherwise `Ym`.
pub fn format_duration(total_minutes: i64) -> (r: String)
    ensures
        r@ == duration_text(total_minutes as int),
{
    let hours: i64 = if total_minutes >= 0 {
        total_minutes / 60
    } else if total_minutes == i64::MIN {
        -153722867280912930
    } else {
        -((-total_minutes) / 60)
    };
    let minutes: i64 = total_minutes - 60 * hours;
    if hours > 0 {
        let mut r = u64_to_decimal(hours as u64);
        r.append("h ");
        let m = i64_to_decimal(minutes);
        r.append(m.as_str());
        r.append("m");
        r
    } else {
        let mut r = i64_to_decimal(minutes);
        r.append("m");
        r
    }
}

/// `- item` lines, or the given text when there are none.
pub fn bullet_text(items: &Vec<String>, empty: &str) -> (r: String)
    ensures
        r@ == bullets(views(items@), empty@),
{
    if items.len() == 0 {
        return owned(empty);
    }
    let ghost target = views(items@).map_values(|x: Seq<char>| "- "@ + x);
    let mut lines: Vec<String> = Vec::new();
    let mut i: usize = 0;
    while i < items.len()
        invariant
            i <= items@.len(),
            target == views(items@).map_values(|x: Seq<char>| "- "@ + x),
            lines@.len() == i,
            forall|j: int| 0 <= j < i ==> (#[trigger] lines@[j])@ == target[j],
        decreases items@.len() - i,
    {
        let line = concat2("- ", items[i].as_str());
        lines.push(line);
        i = i + 1;
    }
    assert(views(lines@) =~= target);
    join_strings(&lines, "\n")
}

/// Timeline lines, or a placeholder when the timeline is empty.
pub fn timeline_lines(timeline: &Vec<IncidentTimelineEntry>) -> (r: String)
    ensures
        r@ == timeline_text(timeline@),
{
    if timeline.len() == 0 {
        return owned("- (sem eventos registrados)");
    }
    let ghost target = timeline@.map_values(|e: IncidentTimelineEntry| timeline_line(e));
    let mut lines: Vec<String> = Vec::new();
    let mut i: usize = 0;
    while i < timeline.len()
        invariant
            i <= timeline@.len(),
            target == timeline@.map_values(|e: IncidentTimelineEntry| timeline_line(e)),
            lines@.len() == i,
            forall|j: int| 0 <= j < i ==> (#[trigger] lines@[j])@ == target[j],
        decreases timeline@.len() - i,
    {
        let entry = &timeline[i];
        proof {
            lemma_report_patterns_plain();
        }
        let mut line = owned("- ");
        let when = stamp(&entry.timestamp, "%Y-%m-%d %H:%M:%S UTC");
        line.append(when.as_str());
        line.append(" — ");
        line.append(entry.description.as_str());
        lines.push(line);
        i = i + 1;
    }
    assert(views(lines@) =~= target);
    join_strings(&lines, "\n")
}

impl IncidentReport {
    /// Nanoseconds from detection to resolution, when resolved.
    pub fn time_to_resolution(&self) -> (r: Option<i128>)
        ensures
            match self.resolved_at {
                Some(t) => r == Some((t.total_nanos() - self.detected_at.total_nanos()) as i128),
                None => r is None,
            },
    {
        match &self.resolved_at {
            Some(t) => Some(t.as_nanos() - self.detected_at.as_nanos()),
            None => None,
        }
    }

    /// The notice for this incident, without a link.
    pub fn notification(&self) -> (n: IncidentNotification)
        ensures
            n.incident_id@ == self.incident_id@,
            n.title@ == self.title@,
            n.severity == self.severity,
            n.summary@ == self.summary@,
            n.impact@ == self.impact@,
            n.detected_at == self.detected_at,
            n.resolved_at == self.resolved_at,
            n.link is None,
    {
        IncidentNotification {
            incident_id: self.incident_id.clone(),
            title: self.title.clone(),
            severity: self.severity,
            summary: self.summary.clone(),
            impact: self.impact.clone(),
            detected_at: self.detected_at,
            resolved_at: self.resolved_at,
            link: None,
        }
    }

    /// The postmortem document in Markdown.
    pub fn to_markdown(&self) -> (r: String)
        ensures
            r@ == markdown(*self),
    {
        proof {
            lemma_report_patterns_plain();
        }
        let detected = stamp(&self.detected_at, "%Y-%m-%d %H:%M UTC");
        let resolved = match &self.resolved_at {
            Some(t) => stamp(t, "%Y-%m-%d %H:%M UTC"),
            None => owned("Em aberto"),
        };
        let duration = match &self.resolved_at {
            Some(t) => format_duration(minutes_between(&self.detected_at, t)),
            None => owned("Indefinido"),
        };
        let lessons = bullet_text(&self.lessons_learned, "- (sem lições registradas)");
        let actions = bullet_text(&self.actions_taken, "- (sem ações registradas)");
        let preventive = bullet_text(
            &self.preventive_actions,
            "- (nenhuma ação preventiva registrada)",
        );
        let timeline = timeline_lines(&self.timeline);
        let mut r = owned("# VVTV POSTMORTEM — INCIDENT ");
        r.append(self.incident_id.as_str());
        r.append("\n**Título:** ");
        r.append(self.title.as_str());
        r.append("\n**Data:** ");
        r.append(detected.as_str());
        r.append("\n**Gravidade:** ");
        r.append(self.severity.badge());
        r.append("\n**Categoria:** ");
        r.append(self.category.as_str());
        r.append("\n**Impacto:** ");
        r.append(self.impact.as_str());
        r.append("\n**Resumo:** ");
        r.append(self.summary.as_str());
        r.append("\n**Causa-raiz:** ");
        r.append(self.root_cause.as_str());
        r.append("\n**Tempo até resolução:** ");
        r.append(duration.as_str());
        r.append("\n**Resolvido em:** ");
        r.append(resolved.as_str());
        r.append("\n\n## Linha do tempo\n");
        r.append(timeline.as_str());
        r.append("\n\n## Ações executadas\n");
        r.append(actions.as_str());
        r.append("\n\n## Lições aprendidas\n");
        r.append(lessons.as_str());
        r.append("\n\n## Ações preventivas\n");
        r.append(preventive.as_str());
        r.append("\n**Assinatura:** ");
        match &self.author {
            Some(a) => r.append(a.as_str()),
            None => r.append("Eng. Responsável não informado"),
        }
        r.append("\n");
        r
    }
}

pub open spec fn subject_text(n: IncidentNotification) -> Seq<char> {
    "["@ + spec_badge(n.severity) + "] "@ + n.incident_id@ + " — "@ + n.title@
}

pub open spec fn message_text(n: IncidentNotification) -> Seq<char> {
    let resolved = match n.resolved_at {
        Some(t) => fmt_of(t, "%Y-%m-%d %H:%M UTC"@),
        None => "em andamento"@,
    };
    let link_line = match n.link {
        Some(l) => "Link: "@ + l@ + "\n"@,
        None => Seq::empty(),
    };
    spec_emoji(n.severity) + " VVTV incidente "@ + n.incident_id@ + " — "@ + n.title@
        + "\nGravidade: "@ + spec_badge(n.severity) + "\nDetectado em: "@ + fmt_of(
        n.detected_at,
        "%Y-%m-%d %H:%M UTC"@,
    ) + "\nResolvido em: "@ + resolved + "\nImpacto: "@ + n.impact@ + "\nResumo: "@
        + n.summary@ + "\n"@ + link_line
}

impl IncidentNotification {
    /// `[BADGE] id — title`.
    pub fn subject(&self) -> (r: String)
        ensures
            r@ == subject_text(*self),
    {
        let mut r = owned("[");
        r.append(self.severity.badge());
        r.append("] ");
        r.append(self.incident_id.as_str());
        r.append(" — ");
        r.append(self.title.as_str());
        r
    }

    /// The body of the notice.
    pub fn message(&self) -> (r: String)
        ensures
            r@ == message_text(*self),
    {
        proof {
            lemma_report_patterns_plain();
        }
        let detected = stamp(&self.detected_at, "%Y-%m-%d %H:%M UTC");
        let resolved = match &self.resolved_at {
            Some(t) => stamp(t, "%Y-%m-%d %H:%M UTC"),
            None => owned("em andamento"),
        };
        let mut r = owned(self.severity.emoji());
        r.append(" VVTV incidente ");
        r.append(self.incident_id.as_str());
        r.append(" — ");
        r.append(self.title.as_str());
        r.append("\nGravidade: ");
        r.append(self.severity.badge());
        r.append("\nDetectado em: ");
        r.append(detected.as_str());
        r.append("\nResolvido em: ");
        r.append(resolved.as_str());
        r.append("\nImpacto: ");
        r.append(self.impact.as_str());
        r.append("\nResumo: ");
        r.append(self.summary.as_str());
        r.append("\n");
        match &self.link {
            Some(l) => {
                r.append("Link: ");
                r.append(l.as_str());
                r.append("\n");
            },
            None => {},
        }
        r
    }
}

} // verus!

verus! {

/// A channel on which incident notices go out.
#[derive(Clone, Copy, Debug, PartialEq, Eq, Structural)]
pub enum IncidentChannel {
    Telegram,
    Email,
    Log,
}

/// Channels to use for each severity.
#[derive(Clone, Debug)]
pub struct SeverityRouting {
    pub critical: Vec<IncidentChannel>,
    pub high: Vec<IncidentChannel>,
    pub medium: Vec<IncidentChannel>,
    pub low: Vec<IncidentChannel>,
}

pub open spec fn routed(r: SeverityRouting, s: IncidentSeverity) -> Seq<IncidentChannel> {
    match s {
        IncidentSeverity::Critical => r.critical@,
        IncidentSeverity::High => r.high@,
        IncidentSeverity::Medium => r.medium@,
        IncidentSeverity::Low => r.low@,
    }
}

impl SeverityRouting {
    /// The channels configured for a severity.
    pub fn channels(&self, severity: IncidentSeverity) -> (r: &[IncidentChannel])
        ensures
            r@ == routed(*self, severity),
    {
        match severity {
            IncidentSeverity::Critical => self.critical.as_slice(),
            IncidentSeverity::High => self.high.as_slice(),
            IncidentSeverity::Medium => self.medium.as_slice(),
            IncidentSeverity::Low => self.low.as_slice(),
        }
    }
}

impl Default for SeverityRouting {
    /// Critical incidents go to Telegram and e-mail, high ones to Telegram,
    /// the rest to the log.
    fn default() -> (r: Self)
        ensures
            r.critical@ == seq![IncidentChannel::Telegram, IncidentChannel::Email],
            r.high@ == seq![IncidentChannel::Telegram],
            r.medium@ == seq![IncidentChannel::Log],
            r.low@ == seq![IncidentChannel::Log],
    {
        let mut critical = Vec::new();
        critical.push(IncidentChannel::Telegram);
        critical.push(IncidentChannel::Email);
        let mut high = Vec::new();
        high.push(IncidentChannel::Telegram);
        let mut medium = Vec::new();
        medium.push(IncidentChannel::Log);
        let mut low = Vec::new();
        low.push(IncidentChannel::Log);
        let r = SeverityRouting { critical, high, medium, low };
        assert(r.critical@ =~= seq![IncidentChannel::Telegram, IncidentChannel::Email]);
        assert(r.high@ =~= seq![IncidentChannel::Telegram]);
        assert(r.medium@ =~= seq![IncidentChannel::Log]);
        assert(r.low@ =~= seq![IncidentChannel::Log]);
        r
    }
}

/// The command that carries notices to Telegram.
#[derive(Clone, Debug)]
pub struct TelegramChannelConfig {
    pub command: String,
    pub args: Vec<String>,
}

impl TelegramChannelConfig {
    /// `telegram-send`.
    pub fn default_command() -> (r: String)
        ensures
            r@ == "telegram-send"@,
    {
        owned("telegram-send")
    }
}

impl Default for TelegramChannelConfig {
    fn default() -> (r: Self)
        ensures
            r.command@ == "telegram-send"@,
            r.args@.len() == 0,
    {
        TelegramChannelConfig { command: Self::default_command(), args: Vec::new() }
    }
}

/// The mail command that carries notices by e-mail.
#[derive(Clone, Debug)]
pub struct EmailChannelConfig {
    pub command: String,
    pub args: Vec<String>,
    pub sender: Option<String>,
    pub recipients: Vec<String>,
    pub subject_prefix: Option<String>,
}

impl EmailChannelConfig {
    /// `sendmail`.
    pub fn default_command() -> (r: String)
        ensures
            r@ == "sendmail"@,
    {
        owned("sendmail")
    }

    /// The subject line: the prefix, a space and the subject, or the subject alone.
    pub fn subject_line(&self, subject: &str) -> (r: String)
        ensures
            r@ == subject_line_text(*self, subject@),
    {
        match &self.subject_prefix {
            Some(prefix) => {
                let mut r = owned(prefix.as_str());
                r.append(" ");
                r.append(subject);
                r
            },
            None => owned(subject),
        }
    }
}

pub open spec fn subject_line_text(c: EmailChannelConfig, subject: Seq<char>) -> Seq<char> {
    match c.subject_prefix {
        Some(p) => p@ + " "@ + subject,
        None => subject,
    }
}

impl Default for EmailChannelConfig {
    fn default() -> (r: Self)
        ensures
            r.command@ == "sendmail"@,
            r.args@.len() == 0,
            r.sender is None,
            r.recipients@.len() == 0,
            r.subject_prefix is None,
    {
        EmailChannelConfig {
            command: Self::default_command(),
            args: Vec::new(),
            sender: None,
            recipients: Vec::new(),
            subject_prefix: None,
        }
    }
}

/// The text handed to the mail command on its standard input.
pub open spec fn email_body(
    sender: Option<Seq<char>>,
    recipients: Seq<Seq<char>>,
    subject: Seq<char>,
    message: Seq<char>,
) -> Seq<char> {
    let from_line = match sender {
        Some(s) => "From: "@ + s + "\n"@,
        None => Seq::empty(),
    };
    let to_line = if recipients.len() == 0 {
        Seq::empty()
    } else {
        "To: "@ + join(recipients, ", "@) + "\n"@
    };
    from_line + to_line + "Subject: "@ + subject + "\nContent-Type: text/plain; charset=UTF-8\n\n"@
        + message + "\n"@
}

pub open spec fn opt_view(s: Option<String>) -> Option<Seq<char>> {
    match s {
        Some(x) => Some(x@),
        None => None,
    }
}

/// Headers and body of a plain-text e-mail.
pub fn build_email_body(
    sender: Option<&str>,
    recipients: &Vec<String>,
    subject: &str,
    message: &str,
) -> (r: String)
    ensures
        r@ == email_body(
            match sender {
                Some(s) => Some(s@),
                None => None,
            },
            views(recipients@),
            subject@,
            message@,
        ),
{
    let mut r = String::new();
    match sender {
        Some(s) => {
            r.append("From: ");
            r.append(s);
            r.append("\n");
        },
        None => {},
    }
    if recipients.len() > 0 {
        r.append("To: ");
        let joined = join_strings(recipients, ", ");
        r.append(joined.as_str());
        r.append("\n");
    }
    r.append("Subject: ");
    r.append(subject);
    r.append("\nContent-Type: text/plain; charset=UTF-8\n\n");
    r.append(message);
    r.append("\n");
    r
}

/// What became of the notice on one channel.
#[derive(Clone, Debug)]
pub enum DispatchStatus {
    Executed { detail: Option<String> },
    Skipped { reason: String },
    Failed { reason: String },
}

impl DispatchStatus {
    /// A failure with the given reason.
    pub fn failed(reason: String) -> (r: Self)
        ensures
            failed_with(r, reason@),
    {
        DispatchStatus::Failed { reason }
    }
}

/// One channel and what became of the notice there.
#[derive(Clone, Debug)]
pub struct DispatchAction {
    pub channel: IncidentChannel,
    pub status: DispatchStatus,
}

/// The notice as sent, with one action per routed channel.
#[derive(Clone, Debug)]
pub struct IncidentDispatch {
    pub subject: String,
    pub message: String,
    pub severity: IncidentSeverity,
    pub actions: Vec<DispatchAction>,
}

/// A program to run, with its arguments and the text for its standard input.
#[derive(Clone, Debug)]
pub struct CommandRequest {
    pub program: String,
    pub args: Vec<String>,
    pub stdin: String,
}

/// How running a notification command ended.
#[derive(Clone, Debug)]
pub enum CommandOutcome {
    /// The command ran and exited with success.
    Success,
    /// The program could not be found.
    NotFound,
    /// Spawning, writing to or waiting for the command failed; the text of the error.
    Io { message: String },
    /// The command exited with failure: its exit code, if any, and its
    /// standard error, decoded and trimmed.
    Failed { status: Option<i32>, stderr: String },
}

/// `Some(n)` / `None`, as `{:?}` writes an `Option<i32>`.
pub open spec fn status_text(status: Option<i32>) -> Seq<char> {
    match status {
        Some(n) => "Some("@ + signed_decimal(n as int) + ")"@,
        None => "None"@,
    }
}

/// The reason recorded when a command did not succeed: the text of the
/// corresponding error.
pub open spec fn outcome_status_ok(command: Seq<char>, o: CommandOutcome, s: DispatchStatus) -> bool {
    match o {
        CommandOutcome::Success => executed_without_detail(s),
        CommandOutcome::NotFound => failed_with(s, "command not found: "@ + command),
        CommandOutcome::Io { message } => failed_with(s, "io error at None: "@ + message@),
        CommandOutcome::Failed { status, stderr } => failed_with(
            s,
            "command "@ + command + " failed (status "@ + status_text(status) + "): "@ + stderr@,
        ),
    }
}

pub open spec fn executed_without_detail(s: DispatchStatus) -> bool {
    match s {
        DispatchStatus::Executed { detail } => detail is None,
        _ => false,
    }
}

pub open spec fn failed_with(s: DispatchStatus, text: Seq<char>) -> bool {
    match s {
        DispatchStatus::Failed { reason } => reason@ == text,
        _ => false,
    }
}

pub open spec fn skipped_with(s: DispatchStatus, text: Seq<char>) -> bool {
    match s {
        DispatchStatus::Skipped { reason } => reason@ == text,
        _ => false,
    }
}

pub open spec fn executed_with(s: DispatchStatus, text: Seq<char>) -> bool {
    match s {
        DispatchStatus::Executed { detail } => detail is Some && detail.unwrap()@ == text,
        _ => false,
    }
}

/// The status recorded for a channel whose command ended as `outcome`.
pub fn outcome_status(command: &str, outcome: &CommandOutcome) -> (s: DispatchStatus)
    ensures
        outcome_status_ok(command@, *outcome, s),
{
    match outcome {
        CommandOutcome::Success => {
            DispatchStatus::Executed { detail: None }
        },
        CommandOutcome::NotFound => DispatchStatus::failed(concat2("command not found: ", command)),
        CommandOutcome::Io { message } => DispatchStatus::failed(
            concat2("io error at None: ", message.as_str()),
        ),
        CommandOutcome::Failed { status, stderr } => {
            let mut r = concat2("command ", command);
            r.append(" failed (status ");
            match status {
                Some(n) => {
                    r.append("Some(");
                    let d = i64_to_decimal(*n as i64);
                    r.append(d.as_str());
                    r.append(")");
                },
                None => r.append("None"),
            }
            r.append("): ");
            r.append(stderr.as_str());
            assert(r@ =~= "command "@ + command@ + " failed (status "@ + status_text(*status)
                + "): "@ + stderr@);
            DispatchStatus::failed(r)
        },
    }
}

/// Sends incident notices to the channels routed for their severity.
#[derive(Clone, Debug)]
pub struct IncidentNotifier {
    routing: SeverityRouting,
    telegram: Option<TelegramChannelConfig>,
    email: Option<EmailChannelConfig>,
    dry_run: bool,
}

/// What the notifier does on one channel before anything is run.
pub enum ChannelPlan {
    /// The status is known without running anything.
    Decided(DispatchStatus),
    /// The command must be run; its outcome gives the status.
    Run(CommandRequest),
}

impl IncidentNotifier {
    pub closed spec fn spec_routing(self) -> SeverityRouting {
        self.routing
    }

    pub closed spec fn spec_telegram(self) -> Option<TelegramChannelConfig> {
        self.telegram
    }

    pub closed spec fn spec_email(self) -> Option<EmailChannelConfig> {
        self.email
    }

    pub closed spec fn spec_dry_run(self) -> bool {
        self.dry_run
    }

    pub fn new(
        routing: SeverityRouting,
        telegram: Option<TelegramChannelConfig>,
        email: Option<EmailChannelConfig>,
    ) -> (r: Self)
        ensures
            r.spec_routing() == routing,
            r.spec_telegram() == telegram,
            r.spec_email() == email,
            !r.spec_dry_run(),
    {
        IncidentNotifier { routing, telegram, email, dry_run: false }
    }

    /// The same notifier, running no command when `dry_run` is set.
    pub fn with_dry_run(self, dry_run: bool) -> (r: Self)
        ensures
            r.spec_routing() == self.spec_routing(),
            r.spec_telegram() == self.spec_telegram(),
            r.spec_email() == self.spec_email(),
            r.spec_dry_run() == dry_run,
    {
        IncidentNotifier { dry_run, ..self }
    }

    /// Whether a channel needs a command run for it.
    pub open spec fn needs_command(self, c: IncidentChannel) -> bool {
        match c {
            IncidentChannel::Telegram => self.spec_telegram() is Some && !self.spec_dry_run(),
            IncidentChannel::Email => self.spec_email() is Some && !self.spec_dry_run()
                && self.spec_email().unwrap().recipients@.len() > 0,
            IncidentChannel::Log => false,
        }
    }

    /// Number of commands needed for the first `k` channels.
    pub open spec fn commands_before(self, channels: Seq<IncidentChannel>, k: int) -> nat
        decreases k,
    {
        if k <= 0 {
            0
        } else {
            self.commands_before(channels, k - 1) + if self.needs_command(channels[k - 1]) {
                1nat
            } else {
                0nat
            }
        }
    }

    /// The status of a channel that needs no command.
    pub open spec fn decided_status(self, c: IncidentChannel, s: DispatchStatus) -> bool {
        match c {
            IncidentChannel::Log => executed_with(s, "registrado"@),
            IncidentChannel::Telegram => if self.spec_telegram() is None {
                skipped_with(s, "canal não configurado"@)
            } else {
                skipped_with(s, "dry-run"@)
            },
            IncidentChannel::Email => if self.spec_email() is None {
                skipped_with(s, "canal não configurado"@)
            } else if self.spec_dry_run() {
                skipped_with(s, "dry-run"@)
            } else {
                failed_with(s, "email recipients not configured"@)
            },
        }
    }

    /// The command for a channel that needs one.
    pub open spec fn command_for(
        self,
        c: IncidentChannel,
        subject: Seq<char>,
        message: Seq<char>,
        req: CommandRequest,
    ) -> bool {
        match c {
            IncidentChannel::Telegram => {
                let t = self.spec_telegram().unwrap();
                &&& req.program@ == t.command@
                &&& views(req.args@) == views(t.args@)
                &&& req.stdin@ == message
            },
            IncidentChannel::Email => {
                let e = self.spec_email().unwrap();
                &&& req.program@ == e.command@
                &&& views(req.args@) == views(e.args@) + views(e.recipients@)
                &&& req.stdin@ == email_body(
                    opt_view(e.sender),
                    views(e.recipients@),
                    subject_line_text(e, subject),
                    message,
                )
            },
            IncidentChannel::Log => false,
        }
    }

    /// What to do on one channel for a notice with this subject and message.
    pub fn plan_channel(&self, channel: IncidentChannel, subject: &str, message: &str) -> (p:
        ChannelPlan)
        ensures
            self.needs_command(channel) <==> p is Run,
            p matches ChannelPlan::Decided(s) ==> self.decided_status(channel, s),
            p matches ChannelPlan::Run(req) ==> self.command_for(channel, subject@, message@, req),
    {
        match channel {
            IncidentChannel::Log => {
                let s = DispatchStatus::Executed { detail: Some(owned("registrado")) };
                ChannelPlan::Decided(s)
            },
            IncidentChannel::Telegram => match &self.telegram {
                None => ChannelPlan::Decided(
                    DispatchStatus::Skipped { reason: owned("canal não configurado") },
                ),
                Some(config) => {
                    if self.dry_run {
                        ChannelPlan::Decided(DispatchStatus::Skipped { reason: owned("dry-run") })
                    } else {
                        ChannelPlan::Run(
                            CommandRequest {
                                program: config.command.clone(),
                                args: clone_strings(&config.args),
                                stdin: owned(message),
                            },
                        )
                    }
                },
            },
            IncidentChannel::Email => match &self.email {
                None => ChannelPlan::Decided(
                    DispatchStatus::Skipped { reason: owned("canal não configurado") },
                ),
                Some(config) => {
                    if self.dry_run {
                        ChannelPlan::Decided(DispatchStatus::Skipped { reason: owned("dry-run") })
                    } else if config.recipients.len() == 0 {
                        ChannelPlan::Decided(
                            DispatchStatus::failed(owned("email recipients not configured")),
                        )
                    } else {
                        let subject_line = config.subject_line(subject);
                        let mut args = clone_strings(&config.args);
                        let mut extra = clone_strings(&config.recipients);
                        let ghost a0 = views(args@);
                        let ghost e0 = views(extra@);
                        args.append(&mut extra);
                        assert(views(args@) =~= a0 + e0);
                        let sender = match &config.sender {
                            Some(s) => Some(s.as_str()),
                            None => None,
                        };
                        let body = build_email_body(
                            sender,
                            &config.recipients,
                            subject_line.as_str(),
                            message,
                        );
                        ChannelPlan::Run(
                            CommandRequest { program: config.command.clone(), args, stdin: body },
                        )
                    }
                },
            },
        }
    }

    /// The commands to run for a notice, in the order of its routed channels.
    pub fn commands(&self, notification: &IncidentNotification) -> (r: Vec<CommandRequest>)
        ensures
            r@.len() == self.commands_before(
                routed(self.spec_routing(), notification.severity),
                routed(self.spec_routing(), notification.severity).len() as int,
            ),
            forall|k: int|
                #![trigger routed(self.spec_routing(), notification.severity)[k]]
                0 <= k < routed(self.spec_routing(), notification.severity).len()
                    && self.needs_command(routed(self.spec_routing(), notification.severity)[k])
                    ==> self.command_for(
                    routed(self.spec_routing(), notification.severity)[k],
                    subject_text(*notification),
                    message_text(*notification),
                    r@[self.commands_before(
                        routed(self.spec_routing(), notification.severity),
                        k,
                    ) as int],
                ),
    {
        let subject = notification.subject();
        let message = notification.message();
        let channels = self.routing.channels(notification.severity);
        let ghost chs = channels@;
        let mut r: Vec<CommandRequest> = Vec::new();
        let mut i: usize = 0;
        while i < channels.len()
            invariant
                chs == channels@,
                chs == routed(self.spec_routing(), notification.severity),
                subject@ == subject_text(*notification),
                message@ == message_text(*notification),
                i <= chs.len(),
                r@.len() == self.commands_before(chs, i as int),
                forall|k: int|
                    #![trigger chs[k]]
                    0 <= k < i && self.needs_command(chs[k]) ==> self.command_for(
                        chs[k],
                        subject@,
                        message@,
                        r@[self.commands_before(chs, k) as int],
                    ),
            decreases chs.len() - i,
        {
            let p = self.plan_channel(channels[i], subject.as_str(), message.as_str());
            let ghost old_r = r@;
            match p {
                ChannelPlan::Run(req) => {
                    r.push(req);
                },
                ChannelPlan::Decided(_) => {},
            }
            proof {
                assert forall|k: int|
                    #![trigger chs[k]]
                    0 <= k < i + 1 && self.needs_command(chs[k]) implies self.command_for(
                        chs[k],
                        subject@,
                        message@,
                        r@[self.commands_before(chs, k) as int],
                    ) by {
                    if k < i {
                        self.lemma_commands_before_mono(chs, k + 1, i as int);
                        assert(r@[self.commands_before(chs, k) as int] == old_r[self.commands_before(chs, k) as int]);
                    }
                }
            }
            i = i + 1;
        }
        r
    }

    /// The dispatch of a notice, given how the commands returned by
    /// `commands` ended, in the same order.
    pub fn notify(&self, notification: &IncidentNotification, outcomes: &Vec<CommandOutcome>) -> (d:
        IncidentDispatch)
        requires
            outcomes@.len() == self.commands_before(
                routed(self.spec_routing(), notification.severity),
                routed(self.spec_routing(), notification.severity).len() as int,
            ),
        ensures
            d.subject@ == subject_text(*notification),
            d.message@ == message_text(*notification),
            d.severity == notification.severity,
            d.actions@.len() == routed(self.spec_routing(), notification.severity).len(),
            forall|k: int|
                #![trigger d.actions@[k]]
                0 <= k < d.actions@.len() ==> {
                    let c = routed(self.spec_routing(), notification.severity)[k];
                    &&& d.actions@[k].channel == c
                    &&& if self.needs_command(c) {
                        outcome_status_ok(
                            match c {
                                IncidentChannel::Telegram => self.spec_telegram().unwrap().command@,
                                _ => self.spec_email().unwrap().command@,
                            },
                            outcomes@[self.commands_before(
                                routed(self.spec_routing(), notification.severity),
                                k,
                            ) as int],
                            d.actions@[k].status,
                        )
                    } else {
                        self.decided_status(c, d.actions@[k].status)
                    }
                },
    {
        let subject = notification.subject();
        let message = notification.message();
        let channels = self.routing.channels(notification.severity);
        let ghost chs = channels@;
        let mut actions: Vec<DispatchAction> = Vec::new();
        let n_out = outcomes.len();
        let mut used: usize = 0;
        let mut i: usize = 0;
        while i < channels.len()
            invariant
                chs == channels@,
                chs == routed(self.spec_routing(), notification.severity),
                outcomes@.len() == self.commands_before(chs, chs.len() as int),
                n_out == outcomes@.len(),
                i <= chs.len(),
                used == self.commands_before(chs, i as int),
                actions@.len() == i,
                forall|k: int|
                    #![trigger actions@[k]]
                    0 <= k < i ==> {
                        let c = chs[k];
                        &&& actions@[k].channel == c
                        &&& if self.needs_command(c) {
                            outcome_status_ok(
                                match c {
                                    IncidentChannel::Telegram => self.spec_telegram().unwrap().command@,
                                    _ => self.spec_email().unwrap().command@,
                                },
                                outcomes@[self.commands_before(chs, k) as int],
                                actions@[k].status,
                            )
                        } else {
                            self.decided_status(c, actions@[k].status)
                        }
                    },
            decreases chs.len() - i,
        {
            proof {
                self.lemma_commands_before_mono(chs, i as int + 1, chs.len() as int);
            }
            let channel = channels[i];
            assert(channel == chs[i as int]);
            assert(self.commands_before(chs, i + 1) == self.commands_before(chs, i as int) + if self.needs_command(chs[i as int]) { 1nat } else { 0nat });
            let p = self.plan_channel(channel, subject.as_str(), message.as_str());
            let status = match p {
                ChannelPlan::Decided(s) => s,
                ChannelPlan::Run(req) => {
                    let s = outcome_status(req.program.as_str(), &outcomes[used]);
                    used = used + 1;
                    s
                },
            };
            actions.push(DispatchAction { channel, status });
            i = i + 1;
        }
        IncidentDispatch { subject, message, severity: notification.severity, actions }
    }

    pub proof fn lemma_commands_before_mono(self, chs: Seq<IncidentChannel>, a: int, b: int)
        requires
            0 <= a <= b,
        ensures
            self.commands_before(chs, a) <= self.commands_before(chs, b),
        decreases b - a,
    {
        if a < b {
            self.lemma_commands_before_mono(chs, a, b - 1);
        }
    }
}

} // verus!

verus! {

/// Characters kept in file names: ASCII letters, digits, `-` and `_`.
pub open spec fn identifier_char(c: char) -> bool {
    ('a' <= c && c <= 'z') || ('A' <= c && c <= 'Z') || ('0' <= c && c <= '9') || c == '-' || c
        == '_'
}

/// Each character outside the kept set replaced by `_`.
pub open spec fn sanitized(s: Seq<char>) -> Seq<char> {
    s.map_values(|c: char| if identifier_char(c) { c } else { '_' })
}

/// An identifier made safe for a file name.
pub fn sanitize_identifier(identifier: &str) -> (r: String)
    ensures
        r@ == sanitized(identifier@),
{
    let v = crate::text::chars_of(identifier);
    let mut r = String::new();
    let mut i: usize = 0;
    while i < v.len()
        invariant
            v@ == identifier@,
            i <= v@.len(),
            r@ == sanitized(v@.take(i as int)),
        decreases v@.len() - i,
    {
        let c = v[i];
        let keep = ('a' <= c && c <= 'z') || ('A' <= c && c <= 'Z') || ('0' <= c && c <= '9')
            || c == '-' || c == '_';
        crate::text::push_char(&mut r, if keep { c } else { '_' });
        i = i + 1;
        assert(r@ =~= sanitized(v@.take(i as int)));
    }
    assert(v@.take(v@.len() as int) =~= v@);
    r
}

/// Where a postmortem was written.
#[derive(Clone, Debug)]
pub struct IncidentHistoryRecord {
    pub markdown_path: String,
    pub json_path: Option<String>,
}

/// Writes postmortems into a directory.
#[derive(Clone, Debug)]
pub struct IncidentHistoryWriter {
    base_dir: String,
}

/// `detected-at` (as `YYYYMMDDTHHMMSSZ`), a dash and the sanitized id.
pub open spec fn history_stem(r: IncidentReport) -> Seq<char> {
    fmt_of(r.detected_at, "%Y%m%dT%H%M%SZ"@) + "-"@ + sanitized(r.incident_id@)
}

impl IncidentHistoryWriter {
    pub closed spec fn spec_base_dir(self) -> Seq<char> {
        self.base_dir@
    }

    pub fn new(base_dir: &str) -> (r: Self)
        ensures
            r.spec_base_dir() == base_dir@,
    {
        IncidentHistoryWriter { base_dir: owned(base_dir) }
    }

    pub fn base_dir(&self) -> (r: &str)
        ensures
            r@ == self.spec_base_dir(),
    {
        self.base_dir.as_str()
    }

    /// The paths of the Markdown and JSON files for a report.
    pub fn planned_paths(&self, report: &IncidentReport) -> (r: (String, String))
        ensures
            r.0@ == crate::text::path_join(self.spec_base_dir(), history_stem(*report) + ".md"@),
            r.1@ == crate::text::path_join(self.spec_base_dir(), history_stem(*report) + ".json"@),
    {
        proof {
            lemma_report_patterns_plain();
        }
        let mut stem = stamp(&report.detected_at, "%Y%m%dT%H%M%SZ");
        stem.append("-");
        let id = sanitize_identifier(report.incident_id.as_str());
        stem.append(id.as_str());
        let md = concat2(stem.as_str(), ".md");
        let js = concat2(stem.as_str(), ".json");
        (
            crate::text::path_join_str(self.base_dir.as_str(), md.as_str()),
            crate::text::path_join_str(self.base_dir.as_str(), js.as_str()),
        )
    }
}

/// Where incident history goes and who is told about incidents.
#[derive(Clone, Debug)]
pub struct IncidentCommunicationsConfig {
    pub incident_history_dir: Option<String>,
    pub routing: SeverityRouting,
    pub telegram: Option<TelegramChannelConfig>,
    pub email: Option<EmailChannelConfig>,
}

impl IncidentCommunicationsConfig {
    /// The configured history directory, or the fallback.
    pub fn history_dir<'a>(&'a self, fallback: &'a str) -> (r: &'a str)
        ensures
            r@ == match self.incident_history_dir {
                Some(d) => d@,
                None => fallback@,
            },
    {
        match &self.incident_history_dir {
            Some(d) => d.as_str(),
            None => fallback,
        }
    }
}

impl Default for IncidentCommunicationsConfig {
    fn default() -> (r: Self)
        ensures
            r.incident_history_dir is None,
            r.routing.critical@ == seq![IncidentChannel::Telegram, IncidentChannel::Email],
            r.routing.high@ == seq![IncidentChannel::Telegram],
            r.routing.medium@ == seq![IncidentChannel::Log],
            r.routing.low@ == seq![IncidentChannel::Log],
            r.telegram is None,
            r.email is None,
    {
        IncidentCommunicationsConfig {
            incident_history_dir: None,
            routing: SeverityRouting::default(),
            telegram: None,
            email: None,
        }
    }
}

/// In a dry run no channel runs a command and no channel fails; the log
/// channel never runs a command and always records the notice. (With the
/// ensures of `notify`, which gives one action per routed channel in routing
/// order, a dry-run dispatch has no failed action.)
pub proof fn law_dispatch_follows_routing(notifier: IncidentNotifier, c: IncidentChannel, s: DispatchStatus)
    ensures
        notifier.spec_dry_run() ==> !notifier.needs_command(c),
        notifier.spec_dry_run() && notifier.decided_status(c, s) ==> !(s is Failed),
        c == IncidentChannel::Log ==> !notifier.needs_command(c),
        c == IncidentChannel::Log && notifier.decided_status(c, s) ==> s is Executed,
{
}

} // verus!
