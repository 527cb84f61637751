//! The report of a validation: every finding is kept, and none stops the
//! validation.

use vstd::prelude::*;
use vstd::string::*;
use crate::text::clone_texts;

verus! {

/// The result of one check: nothing, or a complaint.
pub type ValidationResult = Result<(), String>;

/// What one check found, in mathematical terms: the complaint, if there is
/// one.
pub open spec fn finding(result: ValidationResult) -> Option<Seq<char>> {
    match result {
        Ok(_) => None,
        Err(complaint) => Some(complaint@),
    }
}

/// The errors and the warnings that a validation found, in the order in
/// which it found them.
#[derive(Debug)]
pub struct ValidationResults {
    errors: Vec<String>,
    warnings: Vec<String>,
}

/// What a report holds, in mathematical terms.
pub struct Report {
    pub errors: Seq<Seq<char>>,
    pub warnings: Seq<Seq<char>>,
}

/// The report without findings.
pub open spec fn empty_report() -> Report {
    Report { errors: Seq::empty(), warnings: Seq::empty() }
}

/// The report with the complaint, if there is one, as its last error.
pub open spec fn with_error(report: Report, complaint: Option<Seq<char>>) -> Report {
    match complaint {
        Some(text) => Report { errors: report.errors.push(text), warnings: report.warnings },
        None => report,
    }
}

/// The report with the complaint, if there is one, as its last warning.
pub open spec fn with_warning(report: Report, complaint: Option<Seq<char>>) -> Report {
    match complaint {
        Some(text) => Report { errors: report.errors, warnings: report.warnings.push(text) },
        None => report,
    }
}

/// The findings of `first` followed by those of `second`.
pub open spec fn merged(first: Report, second: Report) -> Report {
    Report {
        errors: first.errors + second.errors,
        warnings: first.warnings + second.warnings,
    }
}

/// The lines that a list of findings takes in the text of a report: each
/// finding behind four spaces, on a line of its own.
pub open spec fn finding_lines(findings: Seq<Seq<char>>, n: nat) -> Seq<char>
    decreases n,
{
    if n == 0 {
        Seq::empty()
    } else {
        finding_lines(findings, (n - 1) as nat) + "    "@ + findings[n - 1] + "\n"@
    }
}

/// One part of the text of a report: nothing where there are no findings,
/// else the heading and the findings.
pub open spec fn report_section(heading: Seq<char>, findings: Seq<Seq<char>>) -> Seq<char> {
    if findings.len() == 0 {
        Seq::empty()
    } else {
        heading + finding_lines(findings, findings.len())
    }
}

/// The text of a report: the errors, then the warnings.
pub open spec fn report_text(report: Report) -> Seq<char> {
    report_section("\nerrors\n"@, report.errors) + report_section("\nwarnings\n"@, report.warnings)
}

impl DeepView for ValidationResults {
    type V = Report;

    open spec fn deep_view(&self) -> Report {
        Report { errors: self.spec_errors(), warnings: self.spec_warnings() }
    }
}

impl View for ValidationResults {
    type V = Report;

    open spec fn view(&self) -> Report {
        self.deep_view()
    }
}

fn section_text(heading: &str, findings: &Vec<String>) -> (r: String)
    ensures
        r@ == report_section(heading@, findings.deep_view()),
{
    if findings.len() == 0 {
        return String::new();
    }
    let mut r = String::from_str(heading);
    let ghost mut lines: Seq<char> = Seq::empty();
    let mut i: usize = 0;
    while i < findings.len()
        invariant
            i <= findings@.len(),
            lines == finding_lines(findings.deep_view(), i as nat),
            r@ == heading@ + lines,
        decreases findings@.len() - i,
    {
        r.append("    ");
        r.append(findings[i].as_str());
        r.append("\n");
        proof {
            let next = finding_lines(findings.deep_view(), (i + 1) as nat);
            assert(r@ =~= heading@ + next);
            lines = next;
        }
        i = i + 1;
    }
    r
}

impl ValidationResults {
    /// The errors, in the order in which they were found.
    pub closed spec fn spec_errors(&self) -> Seq<Seq<char>> {
        self.errors.deep_view()
    }

    /// The warnings, in the order in which they were found.
    pub closed spec fn spec_warnings(&self) -> Seq<Seq<char>> {
        self.warnings.deep_view()
    }

    /// A report without findings.
    pub fn new() -> (r: ValidationResults)
        ensures
            r@ == empty_report(),
    {
        let r = ValidationResults { errors: Vec::new(), warnings: Vec::new() };
        assert(r.spec_errors() =~= Seq::empty());
        assert(r.spec_warnings() =~= Seq::empty());
        r
    }

    /// Records the complaint of a check, if it has one, as an error.
    pub fn assert_error(&mut self, result: &ValidationResult)
        ensures
            final(self)@ == with_error(old(self)@, finding(*result)),
    {
        match result {
            Ok(_) => {},
            Err(complaint) => {
                self.append_error(complaint.as_str());
            },
        }
    }

    /// Records the complaint of a check, if it has one, as a warning.
    pub fn assert_warn(&mut self, result: &ValidationResult)
        ensures
            final(self)@ == with_warning(old(self)@, finding(*result)),
    {
        match result {
            Ok(_) => {},
            Err(complaint) => {
                self.append_warning(complaint.as_str());
            },
        }
    }

    /// Takes over the findings of another report, behind the own ones.
    pub fn merge(&mut self, other: &ValidationResults)
        ensures
            final(self)@ == merged(old(self)@, other@),
    {
        let mut i: usize = 0;
        while i < other.errors.len()
            invariant
                i <= other.errors@.len(),
                self.spec_warnings() == old(self).spec_warnings(),
                self.spec_errors() == old(self).spec_errors() + other.spec_errors().take(i as int),
            decreases other.errors@.len() - i,
        {
            let ghost before = self.errors.deep_view();
            self.errors.push(other.errors[i].clone());
            assert(self.errors.deep_view() =~= before.push(other.errors[i as int]@));
            assert(other.spec_errors().take(i + 1) =~= other.spec_errors().take(i as int).push(
                other.errors[i as int]@,
            ));
            assert(self.spec_errors() =~= old(self).spec_errors() + other.spec_errors().take(
                i + 1,
            ));
            i = i + 1;
        }
        assert(other.spec_errors().take(other.errors@.len() as int) =~= other.spec_errors());
        let mut j: usize = 0;
        while j < other.warnings.len()
            invariant
                j <= other.warnings@.len(),
                self.spec_errors() == old(self).spec_errors() + other.spec_errors(),
                self.spec_warnings() == old(self).spec_warnings() + other.spec_warnings().take(
                    j as int,
                ),
            decreases other.warnings@.len() - j,
        {
            let ghost before = self.warnings.deep_view();
            self.warnings.push(other.warnings[j].clone());
            assert(self.warnings.deep_view() =~= before.push(other.warnings[j as int]@));
            assert(other.spec_warnings().take(j + 1) =~= other.spec_warnings().take(
                j as int,
            ).push(other.warnings[j as int]@));
            assert(self.spec_warnings() =~= old(self).spec_warnings()
                + other.spec_warnings().take(j + 1));
            j = j + 1;
        }
        assert(other.spec_warnings().take(other.warnings@.len() as int) =~= other.spec_warnings());
    }

    /// Whether the validation failed: whether there is an error.
    pub fn failed(&self) -> (r: bool)
        ensures
            r == (self@.errors.len() > 0),
    {
        self.errors.len() > 0
    }

    /// Records an error.
    pub fn append_error(&mut self, value: &str)
        ensures
            final(self)@ == with_error(old(self)@, Some(value@)),
    {
        let ghost before = self.errors.deep_view();
        self.errors.push(String::from_str(value));
        assert(self.errors.deep_view() =~= before.push(value@));
    }

    /// Records a warning.
    pub fn append_warning(&mut self, value: &str)
        ensures
            final(self)@ == with_warning(old(self)@, Some(value@)),
    {
        let ghost before = self.warnings.deep_view();
        self.warnings.push(String::from_str(value));
        assert(self.warnings.deep_view() =~= before.push(value@));
    }

    /// The errors, in the order in which they were found.
    pub fn errors(&self) -> (r: Vec<String>)
        ensures
            r.deep_view() == self@.errors,
    {
        clone_texts(&self.errors)
    }

    /// The warnings, in the order in which they were found.
    pub fn warnings(&self) -> (r: Vec<String>)
        ensures
            r.deep_view() == self@.warnings,
    {
        clone_texts(&self.warnings)
    }

    /// The report as a text: the errors under a heading, then the warnings
    /// under a heading, each part only where it has findings.
    pub fn to_string(&self) -> (r: String)
        ensures
            r@ == report_text(self@),
    {
        let mut r = section_text("\nerrors\n", &self.errors);
        r.append(section_text("\nwarnings\n", &self.warnings).as_str());
        r
    }
}

} // verus!
