//! Admission policy: maps a vulnerability project record to a decision.

use vstd::prelude::*;

verus! {

/// Why an image is refused.
#[derive(Clone, Copy, Debug, PartialEq, Eq, Structural)]
pub enum AdmitError {
    NotMonitored,
    CriticalVulnerability,
    HighVulnerability,
    MediumVulnerability,
    LowVulnerability,
}

/// The four severity tiers that issues are counted in.
#[derive(Clone, Copy, Debug, PartialEq, Eq, Structural)]
pub enum Severity {
    Critical,
    High,
    Medium,
    Low,
}

/// Number of known issues of each severity.
#[derive(Clone, Copy, Debug, PartialEq, Eq, Structural)]
pub struct IssueCounts {
    pub critical: u32,
    pub high: u32,
    pub medium: u32,
    pub low: u32,
}

/// A monitored project as reported by the vulnerability service.
#[derive(Debug)]
pub struct Project {
    pub name: String,
    /// Severities the project declares acceptable ("critical", "high", "medium", "low").
    pub criticality: Vec<String>,
    pub issue_counts_by_severity: IssueCounts,
}

/// Ordinal of a severity: critical 4, high 3, medium 2, low 1.
pub open spec fn ordinal(t: Severity) -> nat {
    match t {
        Severity::Critical => 4,
        Severity::High => 3,
        Severity::Medium => 2,
        Severity::Low => 1,
    }
}

/// The issue count of a tier.
pub open spec fn count_of(c: IssueCounts, t: Severity) -> u32 {
    match t {
        Severity::Critical => c.critical,
        Severity::High => c.high,
        Severity::Medium => c.medium,
        Severity::Low => c.low,
    }
}

/// The reason reported when a tier blocks admission.
pub open spec fn reason_of(t: Severity) -> AdmitError {
    match t {
        Severity::Critical => AdmitError::CriticalVulnerability,
        Severity::High => AdmitError::HighVulnerability,
        Severity::Medium => AdmitError::MediumVulnerability,
        Severity::Low => AdmitError::LowVulnerability,
    }
}

/// Ordinal of one declared criticality label; an unknown label counts as none (0).
pub open spec fn label_ordinal(s: Seq<char>) -> nat {
    if s == "critical"@ {
        4
    } else if s == "high"@ {
        3
    } else if s == "medium"@ {
        2
    } else if s == "low"@ {
        1
    } else {
        0
    }
}

/// The declared criticality: the largest ordinal among the labels, 0 when none.
pub open spec fn declared_ordinal(labels: Seq<Seq<char>>) -> nat
    decreases labels.len(),
{
    if labels.len() == 0 {
        0
    } else {
        let rest = declared_ordinal(labels.drop_last());
        let last = label_ordinal(labels.last());
        if rest >= last {
            rest
        } else {
            last
        }
    }
}

/// A tier blocks when it has issues that the declared criticality does not acknowledge.
pub open spec fn blocks(declared: nat, c: IssueCounts, t: Severity) -> bool {
    count_of(c, t) > 0 && declared < ordinal(t)
}

/// The decision for a monitored project: the first blocking tier, highest first.
pub open spec fn decide(declared: nat, c: IssueCounts) -> Result<(), AdmitError> {
    if blocks(declared, c, Severity::Critical) {
        Err(AdmitError::CriticalVulnerability)
    } else if blocks(declared, c, Severity::High) {
        Err(AdmitError::HighVulnerability)
    } else if blocks(declared, c, Severity::Medium) {
        Err(AdmitError::MediumVulnerability)
    } else if blocks(declared, c, Severity::Low) {
        Err(AdmitError::LowVulnerability)
    } else {
        Ok(())
    }
}

/// The decision for an optional project record.
pub open spec fn admission(project: Option<&Project>) -> Result<(), AdmitError> {
    match project {
        None => Err(AdmitError::NotMonitored),
        Some(p) => decide(declared_ordinal(p.criticality.deep_view()), p.issue_counts_by_severity),
    }
}

/// The message that explains a refusal.
pub open spec fn reason_text(e: AdmitError) -> Seq<char> {
    match e {
        AdmitError::NotMonitored => "Image not monitored for vulnerabilities"@,
        AdmitError::CriticalVulnerability => "Image exceeded vulnerability threshold critical"@,
        AdmitError::HighVulnerability => "Image exceeded vulnerability threshold high"@,
        AdmitError::MediumVulnerability => "Image exceeded vulnerability threshold medium"@,
        AdmitError::LowVulnerability => "Image exceeded vulnerability threshold low"@,
    }
}

/// For every project record, the decision carries exactly one outcome: it
/// refuses for a tier exactly when that tier has unacknowledged issues and no
/// higher tier has any, and it admits exactly when no tier has unacknowledged
/// issues. A present record is never refused as unmonitored.
pub proof fn admission_refuses_for_highest_unacknowledged_tier(p: &Project)
    ensures
        ({
            let declared = declared_ordinal(p.criticality.deep_view());
            let c = p.issue_counts_by_severity;
            &&& admission(Some(p)) != Err::<(), AdmitError>(AdmitError::NotMonitored)
            &&& (admission(Some(p)) == Ok::<(), AdmitError>(()) <==> forall|t: Severity|
                !#[trigger] blocks(declared, c, t))
            &&& forall|t: Severity|
                #![trigger reason_of(t)]
                admission(Some(p)) == Err::<(), AdmitError>(reason_of(t)) <==> (blocks(declared, c, t)
                    && forall|u: Severity| ordinal(u) > ordinal(t) ==> !#[trigger] blocks(declared, c, u))
        }),
{
    let declared = declared_ordinal(p.criticality.deep_view());
    let c = p.issue_counts_by_severity;
    assert forall|u: Severity| #[trigger] blocks(declared, c, u) implies admission(Some(p)) != Ok::<(), AdmitError>(()) by {
        match u {
            Severity::Critical => {},
            Severity::High => {},
            Severity::Medium => {},
            Severity::Low => {},
        }
    }
}

impl AdmitError {
    /// Human-readable text of the refusal.
    pub fn message(&self) -> (r: String)
        ensures
            r@ == reason_text(*self),
    {
        match self {
            AdmitError::NotMonitored => String::from_str("Image not monitored for vulnerabilities"),
            AdmitError::CriticalVulnerability => String::from_str(
                "Image exceeded vulnerability threshold critical",
            ),
            AdmitError::HighVulnerability => String::from_str(
                "Image exceeded vulnerability threshold high",
            ),
            AdmitError::MediumVulnerability => String::from_str(
                "Image exceeded vulnerability threshold medium",
            ),
            AdmitError::LowVulnerability => String::from_str(
                "Image exceeded vulnerability threshold low",
            ),
        }
    }
}

/// Ordinal of one label.
fn criticality_label_ordinal(label: &String) -> (r: u8)
    ensures
        r as nat == label_ordinal(label@),
{
    if *label == String::from_str("critical") {
        4
    } else if *label == String::from_str("high") {
        3
    } else if *label == String::from_str("medium") {
        2
    } else if *label == String::from_str("low") {
        1
    } else {
        0
    }
}

/// The declared criticality of a list of labels.
pub fn criticality_ordinal(labels: &Vec<String>) -> (r: u8)
    ensures
        r as nat == declared_ordinal(labels.deep_view()),
{
    let mut best: u8 = 0;
    let mut i: usize = 0;
    while i < labels.len()
        invariant
            i <= labels.len(),
            best as nat == declared_ordinal(labels.deep_view().take(i as int)),
        decreases labels.len() - i,
    {
        let o = criticality_label_ordinal(&labels[i]);
        proof {
            let s = labels.deep_view();
            assert(s.take(i as int + 1).drop_last() =~= s.take(i as int));
        }
        if o > best {
            best = o;
        }
        i = i + 1;
    }
    proof {
        assert(labels.deep_view().take(labels.len() as int) =~= labels.deep_view());
    }
    best
}

/// Decides whether a project's image is admitted. A missing record means the
/// image is not monitored; otherwise the highest severity tier that has issues
/// and lies above the declared criticality refuses it.
pub fn admitted(project: Option<&Project>) -> (r: Result<(), AdmitError>)
    ensures
        r == admission(project),
{
    match project {
        None => Err(AdmitError::NotMonitored),
        Some(p) => {
            let declared = criticality_ordinal(&p.criticality);
            let c = &p.issue_counts_by_severity;
            if c.critical > 0 && declared < 4 {
                Err(AdmitError::CriticalVulnerability)
            } else if c.high > 0 && declared < 3 {
                Err(AdmitError::HighVulnerability)
            } else if c.medium > 0 && declared < 2 {
                Err(AdmitError::MediumVulnerability)
            } else if c.low > 0 && declared < 1 {
                Err(AdmitError::LowVulnerability)
            } else {
                Ok(())
            }
        },
    }
}

} // verus!
