//! Observability: business metric kinds, alert severities and states,
//! the actions recommended per alert, and the visual QC review page.
use vstd::prelude::*;

use crate::text::{owned, str_eq, views};

verus! {

/// Business metrics recorded for observability.
#[derive(Clone, Copy, Debug, PartialEq, Eq, Structural)]
pub enum BusinessMetricType {
    SelectionEntropy,
    CuratorApplyBudgetUsedPct,
    NoveltyTemporalKld,
    HdDetectionSlowRate,
    AutopilotPredVsRealError,
}

impl BusinessMetricType {
    /// The key under which the metric is stored: its variant name in lower
    /// case.
    pub open spec fn spec_storage_key(self) -> Seq<char> {
        match self {
            BusinessMetricType::SelectionEntropy => "selectionentropy"@,
            BusinessMetricType::CuratorApplyBudgetUsedPct => "curatorapplybudgetusedpct"@,
            BusinessMetricType::NoveltyTemporalKld => "noveltytemporalkld"@,
            BusinessMetricType::HdDetectionSlowRate => "hddetectionslowrate"@,
            BusinessMetricType::AutopilotPredVsRealError => "autopilotpredvsrealerror"@,
        }
    }

    pub fn storage_key(&self) -> (r: String)
        ensures
            r@ == self.spec_storage_key(),
    {
        match self {
            BusinessMetricType::SelectionEntropy => owned("selectionentropy"),
            BusinessMetricType::CuratorApplyBudgetUsedPct => owned("curatorapplybudgetusedpct"),
            BusinessMetricType::NoveltyTemporalKld => owned("noveltytemporalkld"),
            BusinessMetricType::HdDetectionSlowRate => owned("hddetectionslowrate"),
            BusinessMetricType::AutopilotPredVsRealError => owned("autopilotpredvsrealerror"),
        }
    }
}

/// How a dashboard is exported.
#[derive(Clone, Copy, Debug, PartialEq, Eq, Structural)]
pub enum DashboardFormat {
    Html,
    GrafanaJson,
}

/// How a dashboard panel draws its series.
#[derive(Clone, Copy, Debug, PartialEq, Eq, Structural)]
pub enum PanelType {
    TimeSeries,
    Gauge,
    Stat,
    Table,
}

/// On which side of a threshold a value is flagged.
#[derive(Clone, Copy, Debug, PartialEq, Eq, Structural)]
pub enum ThresholdCondition {
    Above,
    Below,
}

/// How grave an alert is.
#[derive(Clone, Copy, Debug, PartialEq, Eq, Structural)]
pub enum AlertSeverity {
    Info,
    Warning,
    Critical,
}

/// The state a rule is in after its last alert.
#[derive(Clone, Copy, Debug, PartialEq, Eq, Structural)]
pub enum AlertStateType {
    Okay,
    Warning,
    Critical,
}

impl AlertSeverity {
    /// The label stored for the state an alert leaves: the severity's name
    /// in lower case.
    pub open spec fn spec_state_label(self) -> Seq<char> {
        match self {
            AlertSeverity::Info => "info"@,
            AlertSeverity::Warning => "warning"@,
            AlertSeverity::Critical => "critical"@,
        }
    }

    pub fn state_label(&self) -> (r: String)
        ensures
            r@ == self.spec_state_label(),
    {
        match self {
            AlertSeverity::Info => owned("info"),
            AlertSeverity::Warning => owned("warning"),
            AlertSeverity::Critical => owned("critical"),
        }
    }
}

impl AlertStateType {
    /// The state a stored label stands for: `warning`, `critical`, anything
    /// else is `Okay`.
    pub open spec fn spec_from_label(label: Seq<char>) -> AlertStateType {
        if label == "warning"@ {
            AlertStateType::Warning
        } else if label == "critical"@ {
            AlertStateType::Critical
        } else {
            AlertStateType::Okay
        }
    }

    pub fn from_label(label: &str) -> (r: AlertStateType)
        ensures
            r == Self::spec_from_label(label@),
    {
        if str_eq(label, "warning") {
            AlertStateType::Warning
        } else if str_eq(label, "critical") {
            AlertStateType::Critical
        } else {
            AlertStateType::Okay
        }
    }
}

/// The state stored after an alert reads back as the alert's severity: a
/// warning as `Warning`, a critical alert as `Critical`, an informational
/// one as `Okay`.
pub proof fn law_alert_state_round_trip(severity: AlertSeverity)
    ensures
        AlertStateType::spec_from_label(severity.spec_state_label()) == match severity {
            AlertSeverity::Info => AlertStateType::Okay,
            AlertSeverity::Warning => AlertStateType::Warning,
            AlertSeverity::Critical => AlertStateType::Critical,
        },
{
    reveal_strlit("info");
    reveal_strlit("warning");
    reveal_strlit("critical");
    assert("info"@.len() == 4 && "warning"@.len() == 7 && "critical"@.len() == 8);
}

/// The actions an operator is pointed to when a rule fires.
pub open spec fn recommended_for(rule_name: Seq<char>) -> Seq<Seq<char>> {
    if rule_name == "diversity_loss"@ {
        seq![
            "Check business logic temperature setting"@,
            "Review content selection algorithm"@,
            "Verify candidate pool diversity"@,
        ]
    } else if rule_name == "curator_budget_exhausted"@ {
        seq![
            "Review curator confidence threshold"@,
            "Check token bucket refill rate"@,
            "Investigate high curator activity"@,
        ]
    } else if rule_name == "quality_degradation"@ {
        seq![
            "Check HD detection configuration"@,
            "Review source domain reliability"@,
            "Verify browser automation settings"@,
        ]
    } else {
        seq!["Check system logs for more details"@]
    }
}

/// The actions recommended when the named rule fires.
pub fn recommended_actions(rule_name: &str) -> (r: Vec<String>)
    ensures
        views(r@) == recommended_for(rule_name@),
{
    let mut v: Vec<String> = Vec::new();
    if str_eq(rule_name, "diversity_loss") {
        v.push(owned("Check business logic temperature setting"));
        v.push(owned("Review content selection algorithm"));
        v.push(owned("Verify candidate pool diversity"));
    } else if str_eq(rule_name, "curator_budget_exhausted") {
        v.push(owned("Review curator confidence threshold"));
        v.push(owned("Check token bucket refill rate"));
        v.push(owned("Investigate high curator activity"));
    } else if str_eq(rule_name, "quality_degradation") {
        v.push(owned("Check HD detection configuration"));
        v.push(owned("Review source domain reliability"));
        v.push(owned("Verify browser automation settings"));
    } else {
        v.push(owned("Check system logs for more details"));
    }
    assert(views(v@) =~= recommended_for(rule_name@));
    v
}

/// An alert channel that writes alerts to the log.
#[derive(Clone, Debug)]
pub struct LogAlertChannel {
    name: String,
}

impl LogAlertChannel {
    pub closed spec fn spec_name(self) -> Seq<char> {
        self.name@
    }

    pub fn new(name: String) -> (r: Self)
        ensures
            r.spec_name() == name@,
    {
        LogAlertChannel { name }
    }

    pub fn name(&self) -> (r: &str)
        ensures
            r@ == self.spec_name(),
    {
        self.name.as_str()
    }
}

/// Renders dashboards as HTML.
#[derive(Clone, Copy, Debug)]
pub struct TemplateEngine {}

impl TemplateEngine {
    pub fn new() -> (r: Self) {
        TemplateEngine {}
    }
}

/// The questions of the visual QC checklist.
pub open spec fn review_questions() -> Seq<Seq<char>> {
    seq![
        "O enquadramento mantém o padrão VoulezVous?"@,
        "A paleta respeita a assinatura cromática?"@,
        "Há ruídos visuais ou artefatos?"@,
        "O áudio aparente está balanceado?"@,
        "Existe alguma indicação de congelamento?"@,
        "O conteúdo mantém consistência narrativa?"@,
    ]
}

/// Items each wrapped in `open` and `close`, concatenated.
pub open spec fn wrapped_items(items: Seq<Seq<char>>, open: Seq<char>, close: Seq<char>) -> Seq<char>
    decreases items.len(),
{
    if items.len() == 0 {
        Seq::empty()
    } else {
        wrapped_items(items.drop_last(), open, close) + open + items.last() + close
    }
}

pub open spec fn review_page_head() -> Seq<char> {
    "<!DOCTYPE html>\n<html lang=\"pt-BR\">\n<head>\n<meta charset=\"utf-8\">\n<title>Revisão Visual QC</title>\n<style>\nbody { font-family: 'Inter', sans-serif; background: #0f1014; color: #f6f6f6; margin: 0; padding: 2rem; }\n.gallery { display: grid; grid-template-columns: repeat(auto-fit, minmax(200px, 1fr)); gap: 1rem; }\n.frame { background: #16181f; padding: 0.5rem; border-radius: 6px; }\n.frame img { width: 100%; border-radius: 4px; }\nol { line-height: 1.6; }\n</style>\n</head>\n<body>\n<h1>Painel de Revisão QC</h1>\n<section>\n  <h2>Capturas recentes</h2>\n  <div class=\"gallery\">"@
}

pub open spec fn review_page_middle() -> Seq<char> {
    "</div>\n</section>\n<section>\n  <h2>Checklist</h2>\n  <ol>"@
}

pub open spec fn review_page_tail() -> Seq<char> {
    "</ol>\n</section>\n</body>\n</html>"@
}

pub open spec fn frame_open() -> Seq<char> {
    "<div class=\"frame\"><img src=\"file://"@
}

pub open spec fn frame_close() -> Seq<char> {
    "\" alt=\"QC frame\"></div>"@
}

/// The review page: the capture frames, then the checklist.
pub open spec fn review_page(captures: Seq<Seq<char>>) -> Seq<char> {
    review_page_head() + wrapped_items(captures, frame_open(), frame_close()) + review_page_middle()
        + wrapped_items(review_questions(), "<li>"@, "</li>"@) + review_page_tail()
}

fn wrap_all(items: &Vec<String>, open: &str, close: &str) -> (r: String)
    ensures
        r@ == wrapped_items(views(items@), open@, close@),
{
    let ghost iv = views(items@);
    let mut out = String::new();
    let mut i: usize = 0;
    while i < items.len()
        invariant
            i <= items@.len(),
            iv == views(items@),
            out@ == wrapped_items(iv.take(i as int), open@, close@),
        decreases items@.len() - i,
    {
        assert(iv.take(i + 1).drop_last() =~= iv.take(i as int));
        assert(iv.take(i + 1).last() == items@[i as int]@);
        out.append(open);
        out.append(items[i].as_str());
        out.append(close);
        assert(out@ =~= wrapped_items(iv.take(i + 1), open@, close@));
        i = i + 1;
    }
    assert(iv.take(items@.len() as int) =~= iv);
    out
}

/// The page where operators review recent QC captures.
#[derive(Clone, Debug)]
pub struct VisualReviewPanel {
    capture_dir: String,
    output_path: String,
}

impl VisualReviewPanel {
    pub closed spec fn spec_capture_dir(self) -> Seq<char> {
        self.capture_dir@
    }

    pub closed spec fn spec_output_path(self) -> Seq<char> {
        self.output_path@
    }

    pub fn new(capture_dir: &str, output_path: &str) -> (r: Self)
        ensures
            r.spec_capture_dir() == capture_dir@,
            r.spec_output_path() == output_path@,
    {
        VisualReviewPanel { capture_dir: owned(capture_dir), output_path: owned(output_path) }
    }

    pub fn capture_dir(&self) -> (r: &str)
        ensures
            r@ == self.spec_capture_dir(),
    {
        self.capture_dir.as_str()
    }

    pub fn output_path(&self) -> (r: &str)
        ensures
            r@ == self.spec_output_path(),
    {
        self.output_path.as_str()
    }

    /// The review page for the given captures (newest first): one frame per
    /// capture, then the checklist questions.
    pub fn page_html(&self, captures: &Vec<String>) -> (r: String)
        ensures
            r@ == review_page(views(captures@)),
    {
        let mut questions: Vec<String> = Vec::new();
        questions.push(owned("O enquadramento mantém o padrão VoulezVous?"));
        questions.push(owned("A paleta respeita a assinatura cromática?"));
        questions.push(owned("Há ruídos visuais ou artefatos?"));
        questions.push(owned("O áudio aparente está balanceado?"));
        questions.push(owned("Existe alguma indicação de congelamento?"));
        questions.push(owned("O conteúdo mantém consistência narrativa?"));
        assert(views(questions@) =~= review_questions());
        let frames = wrap_all(captures, "<div class=\"frame\"><img src=\"file://", "\" alt=\"QC frame\"></div>");
        let items = wrap_all(&questions, "<li>", "</li>");
        let mut page = owned("<!DOCTYPE html>\n<html lang=\"pt-BR\">\n<head>\n<meta charset=\"utf-8\">\n<title>Revisão Visual QC</title>\n<style>\nbody { font-family: 'Inter', sans-serif; background: #0f1014; color: #f6f6f6; margin: 0; padding: 2rem; }\n.gallery { display: grid; grid-template-columns: repeat(auto-fit, minmax(200px, 1fr)); gap: 1rem; }\n.frame { background: #16181f; padding: 0.5rem; border-radius: 6px; }\n.frame img { width: 100%; border-radius: 4px; }\nol { line-height: 1.6; }\n</style>\n</head>\n<body>\n<h1>Painel de Revisão QC</h1>\n<section>\n  <h2>Capturas recentes</h2>\n  <div class=\"gallery\">");
        page.append(frames.as_str());
        page.append("</div>\n</section>\n<section>\n  <h2>Checklist</h2>\n  <ol>");
        page.append(items.as_str());
        page.append("</ol>\n</section>\n</body>\n</html>");
        assert(page@ =~= review_page(views(captures@)));
        page
    }
}

} // verus!
