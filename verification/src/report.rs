//! The status of a migration directory and the report of a lint or a plan.

use crate::atlas_models::Env;
use crate::atlas_models::EnvView;
use crate::atlas_models::File;
use crate::atlas_models::FileView;
use crate::json::members_view;
use crate::json::Json;
use crate::json::JsonView;
use crate::timestamp::Duration;
use crate::timestamp::Timestamp;
use crate::wire::duration_field;
use crate::wire::duration_member;
use crate::wire::flag_field;
use crate::wire::flag_member;
use crate::wire::integer_field;
use crate::wire::integer_member;
use crate::wire::optional_field;
use crate::wire::optional_member;
use crate::wire::put_duration;
use crate::wire::put_flag;
use crate::wire::put_integer;
use crate::wire::put_optional;
use crate::wire::put_record;
use crate::wire::put_records;
use crate::wire::put_text;
use crate::wire::put_time;
use crate::wire::read_duration;
use crate::wire::read_flag;
use crate::wire::read_integer;
use crate::wire::read_optional;
use crate::wire::read_record;
use crate::wire::read_records;
use crate::wire::read_text;
use crate::wire::read_time;
use crate::wire::record_field;
use crate::wire::record_member;
use crate::wire::records_field;
use crate::wire::records_member;
use crate::wire::text_field;
use crate::wire::text_member;
use crate::wire::time_field;
use crate::wire::time_member;
use crate::wire::Record;
use vstd::prelude::*;

verus! {

/// A replacement of lines of a file.
#[derive(Debug, Clone, PartialEq, Eq)]
pub struct TextEdit {
    pub line: isize,
    pub end: isize,
    pub new_text: String,
}

/// A `TextEdit` with its texts and lists as sequences.
pub ghost struct TextEditView {
    pub line: isize,
    pub end: isize,
    pub new_text: Seq<char>,
}

impl View for TextEdit {
    type V = TextEditView;

    open spec fn view(&self) -> TextEditView {
        TextEditView { line: self.line, end: self.end, new_text: self.new_text@ }
    }
}

impl DeepView for TextEdit {
    type V = TextEditView;

    open spec fn deep_view(&self) -> TextEditView {
        self@
    }
}

impl Record for TextEdit {
    open spec fn from_members(members: Seq<(Seq<char>, JsonView)>) -> Option<TextEditView> {
        let line = integer_field(members, "Line"@, true);
        let end = integer_field(members, "End"@, true);
        let new_text = text_field(members, "NewText"@, true);
        if line is Some && end is Some && new_text is Some {
            Some(TextEditView { line: line->0, end: end->0, new_text: new_text->0 })
        } else {
            None
        }
    }

    open spec fn to_members(value: TextEditView) -> Seq<(Seq<char>, JsonView)> {
        integer_member("Line"@, value.line, false)
            + integer_member("End"@, value.end, false)
            + text_member("NewText"@, value.new_text, false)
    }

    fn decode_members(members: &Vec<(String, Json)>) -> (r: Option<TextEdit>) {
        let line = read_integer(members, "Line", true)?;
        let end = read_integer(members, "End", true)?;
        let new_text = read_text(members, "NewText", true)?;
        Some(TextEdit { line, end, new_text })
    }

    fn encode_members(&self, out: &mut Vec<(String, Json)>) {
        let ghost start = members_view(*out);
        let ghost value = self.deep_view();
        put_integer(out, "Line", self.line, false);
        let ghost written = integer_member("Line"@, value.line, false);
        put_integer(out, "End", self.end, false);
        let ghost written = written + integer_member("End"@, value.end, false);
        assert(members_view(*out) =~= start + written);
        put_text(out, "NewText", &self.new_text, false);
        let ghost written = written + text_member("NewText"@, value.new_text, false);
        assert(members_view(*out) =~= start + written);
    }
}

/// A fix that a report suggests.
#[derive(Debug, Clone, PartialEq, Eq)]
pub struct SuggestedFix {
    pub message: String,
    pub text_edit: Option<TextEdit>,
}

/// A `SuggestedFix` with its texts and lists as sequences.
pub ghost struct SuggestedFixView {
    pub message: Seq<char>,
    pub text_edit: Option<TextEditView>,
}

impl View for SuggestedFix {
    type V = SuggestedFixView;

    open spec fn view(&self) -> SuggestedFixView {
        SuggestedFixView { message: self.message@, text_edit: self.text_edit.deep_view() }
    }
}

impl DeepView for SuggestedFix {
    type V = SuggestedFixView;

    open spec fn deep_view(&self) -> SuggestedFixView {
        self@
    }
}

impl Record for SuggestedFix {
    open spec fn from_members(members: Seq<(Seq<char>, JsonView)>) -> Option<SuggestedFixView> {
        let message = text_field(members, "Message"@, true);
        let text_edit = optional_field::<TextEdit>(members, "TextEdit"@);
        if message is Some && text_edit is Some {
            Some(SuggestedFixView { message: message->0, text_edit: text_edit->0 })
        } else {
            None
        }
    }

    open spec fn to_members(value: SuggestedFixView) -> Seq<(Seq<char>, JsonView)> {
        text_member("Message"@, value.message, false)
            + optional_member::<TextEdit>("TextEdit"@, value.text_edit, true)
    }

    fn decode_members(members: &Vec<(String, Json)>) -> (r: Option<SuggestedFix>) {
        let message = read_text(members, "Message", true)?;
        let text_edit = read_optional::<TextEdit>(members, "TextEdit")?;
        Some(SuggestedFix { message, text_edit })
    }

    fn encode_members(&self, out: &mut Vec<(String, Json)>) {
        let ghost start = members_view(*out);
        let ghost value = self.deep_view();
        put_text(out, "Message", &self.message, false);
        let ghost written = text_member("Message"@, value.message, false);
        put_optional::<TextEdit>(out, "TextEdit", &self.text_edit, true);
        let ghost written = written
            + optional_member::<TextEdit>("TextEdit"@, value.text_edit, true);
        assert(members_view(*out) =~= start + written);
    }
}

/// One finding of a report.
#[derive(Debug, Clone, PartialEq, Eq)]
pub struct Diagnostic {
    pub pos: isize,
    pub text: String,
    pub code: String,
    pub suggested_fixes: Vec<SuggestedFix>,
}

/// A `Diagnostic` with its texts and lists as sequences.
pub ghost struct DiagnosticView {
    pub pos: isize,
    pub text: Seq<char>,
    pub code: Seq<char>,
    pub suggested_fixes: Seq<SuggestedFixView>,
}

impl View for Diagnostic {
    type V = DiagnosticView;

    open spec fn view(&self) -> DiagnosticView {
        DiagnosticView {
            pos: self.pos,
            text: self.text@,
            code: self.code@,
            suggested_fixes: self.suggested_fixes.deep_view(),
        }
    }
}

impl DeepView for Diagnostic {
    type V = DiagnosticView;

    open spec fn deep_view(&self) -> DiagnosticView {
        self@
    }
}

impl Record for Diagnostic {
    open spec fn from_members(members: Seq<(Seq<char>, JsonView)>) -> Option<DiagnosticView> {
        let pos = integer_field(members, "Pos"@, true);
        let text = text_field(members, "Text"@, true);
        let code = text_field(members, "Code"@, true);
        let suggested_fixes = records_field::<SuggestedFix>(members, "SuggestedFixes"@);
        if pos is Some && text is Some && code is Some && suggested_fixes is Some {
            Some(
                DiagnosticView {
                    pos: pos->0,
                    text: text->0,
                    code: code->0,
                    suggested_fixes: suggested_fixes->0,
                },
            )
        } else {
            None
        }
    }

    open spec fn to_members(value: DiagnosticView) -> Seq<(Seq<char>, JsonView)> {
        integer_member("Pos"@, value.pos, false)
            + text_member("Text"@, value.text, false)
            + text_member("Code"@, value.code, false)
            + records_member::<SuggestedFix>("SuggestedFixes"@, value.suggested_fixes)
    }

    fn decode_members(members: &Vec<(String, Json)>) -> (r: Option<Diagnostic>) {
        let pos = read_integer(members, "Pos", true)?;
        let text = read_text(members, "Text", true)?;
        let code = read_text(members, "Code", true)?;
        let suggested_fixes = read_records::<SuggestedFix>(members, "SuggestedFixes")?;
        Some(Diagnostic { pos, text, code, suggested_fixes })
    }

    fn encode_members(&self, out: &mut Vec<(String, Json)>) {
        let ghost start = members_view(*out);
        let ghost value = self.deep_view();
        put_integer(out, "Pos", self.pos, false);
        let ghost written = integer_member("Pos"@, value.pos, false);
        put_text(out, "Text", &self.text, false);
        let ghost written = written + text_member("Text"@, value.text, false);
        assert(members_view(*out) =~= start + written);
        put_text(out, "Code", &self.code, false);
        let ghost written = written + text_member("Code"@, value.code, false);
        assert(members_view(*out) =~= start + written);
        put_records::<SuggestedFix>(out, "SuggestedFixes", &self.suggested_fixes);
        let ghost written = written
            + records_member::<SuggestedFix>("SuggestedFixes"@, value.suggested_fixes);
        assert(members_view(*out) =~= start + written);
    }
}

/// The findings of one analyzer.
#[derive(Debug, Clone, PartialEq, Eq)]
pub struct Report {
    pub text: String,
    pub diagnostics: Vec<Diagnostic>,
    pub suggested_fixes: Vec<SuggestedFix>,
}

/// A `Report` with its texts and lists as sequences.
pub ghost struct ReportView {
    pub text: Seq<char>,
    pub diagnostics: Seq<DiagnosticView>,
    pub suggested_fixes: Seq<SuggestedFixView>,
}

impl View for Report {
    type V = ReportView;

    open spec fn view(&self) -> ReportView {
        ReportView {
            text: self.text@,
            diagnostics: self.diagnostics.deep_view(),
            suggested_fixes: self.suggested_fixes.deep_view(),
        }
    }
}

impl DeepView for Report {
    type V = ReportView;

    open spec fn deep_view(&self) -> ReportView {
        self@
    }
}

impl Record for Report {
    open spec fn from_members(members: Seq<(Seq<char>, JsonView)>) -> Option<ReportView> {
        let text = text_field(members, "Text"@, true);
        let diagnostics = records_field::<Diagnostic>(members, "Diagnostics"@);
        let suggested_fixes = records_field::<SuggestedFix>(members, "SuggestedFixes"@);
        if text is Some && diagnostics is Some && suggested_fixes is Some {
            Some(
                ReportView {
                    text: text->0,
                    diagnostics: diagnostics->0,
                    suggested_fixes: suggested_fixes->0,
                },
            )
        } else {
            None
        }
    }

    open spec fn to_members(value: ReportView) -> Seq<(Seq<char>, JsonView)> {
        text_member("Text"@, value.text, false)
            + records_member::<Diagnostic>("Diagnostics"@, value.diagnostics)
            + records_member::<SuggestedFix>("SuggestedFixes"@, value.suggested_fixes)
    }

    fn decode_members(members: &Vec<(String, Json)>) -> (r: Option<Report>) {
        let text = read_text(members, "Text", true)?;
        let diagnostics = read_records::<Diagnostic>(members, "Diagnostics")?;
        let suggested_fixes = read_records::<SuggestedFix>(members, "SuggestedFixes")?;
        Some(Report { text, diagnostics, suggested_fixes })
    }

    fn encode_members(&self, out: &mut Vec<(String, Json)>) {
        let ghost start = members_view(*out);
        let ghost value = self.deep_view();
        put_text(out, "Text", &self.text, false);
        let ghost written = text_member("Text"@, value.text, false);
        put_records::<Diagnostic>(out, "Diagnostics", &self.diagnostics);
        let ghost written = written
            + records_member::<Diagnostic>("Diagnostics"@, value.diagnostics);
        assert(members_view(*out) =~= start + written);
        put_records::<SuggestedFix>(out, "SuggestedFixes", &self.suggested_fixes);
        let ghost written = written
            + records_member::<SuggestedFix>("SuggestedFixes"@, value.suggested_fixes);
        assert(members_view(*out) =~= start + written);
    }
}

/// The reports on one file.
#[derive(Debug, Clone, PartialEq, Eq)]
pub struct FileReport {
    pub name: String,
    pub text: String,
    pub reports: Vec<Report>,
    pub error: String,
}

/// A `FileReport` with its texts and lists as sequences.
pub ghost struct FileReportView {
    pub name: Seq<char>,
    pub text: Seq<char>,
    pub reports: Seq<ReportView>,
    pub error: Seq<char>,
}

impl View for FileReport {
    type V = FileReportView;

    open spec fn view(&self) -> FileReportView {
        FileReportView {
            name: self.name@,
            text: self.text@,
            reports: self.reports.deep_view(),
            error: self.error@,
        }
    }
}

impl DeepView for FileReport {
    type V = FileReportView;

    open spec fn deep_view(&self) -> FileReportView {
        self@
    }
}

impl Record for FileReport {
    open spec fn from_members(members: Seq<(Seq<char>, JsonView)>) -> Option<FileReportView> {
        let name = text_field(members, "Name"@, false);
        let text = text_field(members, "Text"@, false);
        let reports = records_field::<Report>(members, "Reports"@);
        let error = text_field(members, "Error"@, false);
        if name is Some && text is Some && reports is Some && error is Some {
            Some(
                FileReportView { name: name->0, text: text->0, reports: reports->0, error: error->0 },
            )
        } else {
            None
        }
    }

    open spec fn to_members(value: FileReportView) -> Seq<(Seq<char>, JsonView)> {
        text_member("Name"@, value.name, true)
            + text_member("Text"@, value.text, true)
            + records_member::<Report>("Reports"@, value.reports)
            + text_member("Error"@, value.error, true)
    }

    fn decode_members(members: &Vec<(String, Json)>) -> (r: Option<FileReport>) {
        let name = read_text(members, "Name", false)?;
        let text = read_text(members, "Text", false)?;
        let reports = read_records::<Report>(members, "Reports")?;
        let error = read_text(members, "Error", false)?;
        Some(FileReport { name, text, reports, error })
    }

    fn encode_members(&self, out: &mut Vec<(String, Json)>) {
        let ghost start = members_view(*out);
        let ghost value = self.deep_view();
        put_text(out, "Name", &self.name, true);
        let ghost written = text_member("Name"@, value.name, true);
        put_text(out, "Text", &self.text, true);
        let ghost written = written + text_member("Text"@, value.text, true);
        assert(members_view(*out) =~= start + written);
        put_records::<Report>(out, "Reports", &self.reports);
        let ghost written = written + records_member::<Report>("Reports"@, value.reports);
        assert(members_view(*out) =~= start + written);
        put_text(out, "Error", &self.error, true);
        let ghost written = written + text_member("Error"@, value.error, true);
        assert(members_view(*out) =~= start + written);
    }
}

/// One step of a run, with the report on a file where the step made one.
#[derive(Debug, Clone, PartialEq, Eq)]
pub struct StepReport {
    pub name: String,
    pub text: String,
    pub error: String,
    pub result: Option<FileReport>,
}

/// A `StepReport` with its texts and lists as sequences.
pub ghost struct StepReportView {
    pub name: Seq<char>,
    pub text: Seq<char>,
    pub error: Seq<char>,
    pub result: Option<FileReportView>,
}

impl View for StepReport {
    type V = StepReportView;

    open spec fn view(&self) -> StepReportView {
        StepReportView {
            name: self.name@,
            text: self.text@,
            error: self.error@,
            result: self.result.deep_view(),
        }
    }
}

impl DeepView for StepReport {
    type V = StepReportView;

    open spec fn deep_view(&self) -> StepReportView {
        self@
    }
}

impl Record for StepReport {
    open spec fn from_members(members: Seq<(Seq<char>, JsonView)>) -> Option<StepReportView> {
        let name = text_field(members, "Name"@, false);
        let text = text_field(members, "Text"@, false);
        let error = text_field(members, "Error"@, false);
        let result = optional_field::<FileReport>(members, "Result"@);
        if name is Some && text is Some && error is Some && result is Some {
            Some(StepReportView { name: name->0, text: text->0, error: error->0, result: result->0 })
        } else {
            None
        }
    }

    open spec fn to_members(value: StepReportView) -> Seq<(Seq<char>, JsonView)> {
        text_member("Name"@, value.name, true)
            + text_member("Text"@, value.text, true)
            + text_member("Error"@, value.error, true)
            + optional_member::<FileReport>("Result"@, value.result, true)
    }

    fn decode_members(members: &Vec<(String, Json)>) -> (r: Option<StepReport>) {
        let name = read_text(members, "Name", false)?;
        let text = read_text(members, "Text", false)?;
        let error = read_text(members, "Error", false)?;
        let result = read_optional::<FileReport>(members, "Result")?;
        Some(StepReport { name, text, error, result })
    }

    fn encode_members(&self, out: &mut Vec<(String, Json)>) {
        let ghost start = members_view(*out);
        let ghost value = self.deep_view();
        put_text(out, "Name", &self.name, true);
        let ghost written = text_member("Name"@, value.name, true);
        put_text(out, "Text", &self.text, true);
        let ghost written = written + text_member("Text"@, value.text, true);
        assert(members_view(*out) =~= start + written);
        put_text(out, "Error", &self.error, true);
        let ghost written = written + text_member("Error"@, value.error, true);
        assert(members_view(*out) =~= start + written);
        put_optional::<FileReport>(out, "Result", &self.result, true);
        let ghost written = written
            + optional_member::<FileReport>("Result"@, value.result, true);
        assert(members_view(*out) =~= start + written);
    }
}

/// The schema before and after, as a report shows it.
#[derive(Debug, Clone, PartialEq, Eq)]
pub struct SummaryReportSchema {
    pub current: String,
    pub desired: String,
}

/// A `SummaryReportSchema` with its texts and lists as sequences.
pub ghost struct SummaryReportSchemaView {
    pub current: Seq<char>,
    pub desired: Seq<char>,
}

impl View for SummaryReportSchema {
    type V = SummaryReportSchemaView;

    open spec fn view(&self) -> SummaryReportSchemaView {
        SummaryReportSchemaView { current: self.current@, desired: self.desired@ }
    }
}

impl DeepView for SummaryReportSchema {
    type V = SummaryReportSchemaView;

    open spec fn deep_view(&self) -> SummaryReportSchemaView {
        self@
    }
}

impl Record for SummaryReportSchema {
    open spec fn from_members(members: Seq<(Seq<char>, JsonView)>) -> Option<
        SummaryReportSchemaView,
    > {
        let current = text_field(members, "Current"@, false);
        let desired = text_field(members, "Desired"@, false);
        if current is Some && desired is Some {
            Some(SummaryReportSchemaView { current: current->0, desired: desired->0 })
        } else {
            None
        }
    }

    open spec fn to_members(value: SummaryReportSchemaView) -> Seq<(Seq<char>, JsonView)> {
        text_member("Current"@, value.current, true)
            + text_member("Desired"@, value.desired, true)
    }

    fn decode_members(members: &Vec<(String, Json)>) -> (r: Option<SummaryReportSchema>) {
        let current = read_text(members, "Current", false)?;
        let desired = read_text(members, "Desired", false)?;
        Some(SummaryReportSchema { current, desired })
    }

    fn encode_members(&self, out: &mut Vec<(String, Json)>) {
        let ghost start = members_view(*out);
        let ghost value = self.deep_view();
        put_text(out, "Current", &self.current, true);
        let ghost written = text_member("Current"@, value.current, true);
        put_text(out, "Desired", &self.desired, true);
        let ghost written = written + text_member("Desired"@, value.desired, true);
        assert(members_view(*out) =~= start + written);
    }
}

/// The report of a lint or a plan.
#[derive(Debug, Clone, PartialEq, Eq)]
pub struct SummaryReport {
    pub url: String,
    pub env: Env,
    pub schema: SummaryReportSchema,
    pub steps: Vec<StepReport>,
    pub files: Vec<FileReport>,
}

/// A `SummaryReport` with its texts and lists as sequences.
pub ghost struct SummaryReportView {
    pub url: Seq<char>,
    pub env: EnvView,
    pub schema: SummaryReportSchemaView,
    pub steps: Seq<StepReportView>,
    pub files: Seq<FileReportView>,
}

impl View for SummaryReport {
    type V = SummaryReportView;

    open spec fn view(&self) -> SummaryReportView {
        SummaryReportView {
            url: self.url@,
            env: self.env@,
            schema: self.schema@,
            steps: self.steps.deep_view(),
            files: self.files.deep_view(),
        }
    }
}

impl DeepView for SummaryReport {
    type V = SummaryReportView;

    open spec fn deep_view(&self) -> SummaryReportView {
        self@
    }
}

impl Record for SummaryReport {
    open spec fn from_members(members: Seq<(Seq<char>, JsonView)>) -> Option<SummaryReportView> {
        let url = text_field(members, "URL"@, false);
        let env = record_field::<Env>(members, "Env"@);
        let schema = record_field::<SummaryReportSchema>(members, "Schema"@);
        let steps = records_field::<StepReport>(members, "Steps"@);
        let files = records_field::<FileReport>(members, "Files"@);
        if url is Some && env is Some && schema is Some && steps is Some && files is Some {
            Some(
                SummaryReportView {
                    url: url->0,
                    env: env->0,
                    schema: schema->0,
                    steps: steps->0,
                    files: files->0,
                },
            )
        } else {
            None
        }
    }

    open spec fn to_members(value: SummaryReportView) -> Seq<(Seq<char>, JsonView)> {
        text_member("URL"@, value.url, true)
            + record_member::<Env>("Env"@, value.env)
            + record_member::<SummaryReportSchema>("Schema"@, value.schema)
            + records_member::<StepReport>("Steps"@, value.steps)
            + records_member::<FileReport>("Files"@, value.files)
    }

    fn decode_members(members: &Vec<(String, Json)>) -> (r: Option<SummaryReport>) {
        let url = read_text(members, "URL", false)?;
        let env = read_record::<Env>(members, "Env")?;
        let schema = read_record::<SummaryReportSchema>(members, "Schema")?;
        let steps = read_records::<StepReport>(members, "Steps")?;
        let files = read_records::<FileReport>(members, "Files")?;
        Some(SummaryReport { url, env, schema, steps, files })
    }

    fn encode_members(&self, out: &mut Vec<(String, Json)>) {
        let ghost start = members_view(*out);
        let ghost value = self.deep_view();
        put_text(out, "URL", &self.url, true);
        let ghost written = text_member("URL"@, value.url, true);
        put_record::<Env>(out, "Env", &self.env);
        let ghost written = written + record_member::<Env>("Env"@, value.env);
        assert(members_view(*out) =~= start + written);
        put_record::<SummaryReportSchema>(out, "Schema", &self.schema);
        let ghost written = written
            + record_member::<SummaryReportSchema>("Schema"@, value.schema);
        assert(members_view(*out) =~= start + written);
        put_records::<StepReport>(out, "Steps", &self.steps);
        let ghost written = written + records_member::<StepReport>("Steps"@, value.steps);
        assert(members_view(*out) =~= start + written);
        put_records::<FileReport>(out, "Files", &self.files);
        let ghost written = written + records_member::<FileReport>("Files"@, value.files);
        assert(members_view(*out) =~= start + written);
    }
}

/// How many diagnostics a list of reports holds.
pub open spec fn count_in_reports(reports: Seq<ReportView>) -> nat
    decreases reports.len(),
{
    if reports.len() == 0 {
        0
    } else {
        count_in_reports(reports.drop_last()) + reports.last().diagnostics.len()
    }
}

/// How many diagnostics the reports of a list of files hold.
pub open spec fn count_in_files(files: Seq<FileReportView>) -> nat
    decreases files.len(),
{
    if files.len() == 0 {
        0
    } else {
        count_in_files(files.drop_last()) + count_in_reports(files.last().reports)
    }
}

/// The first reports of a list hold no more diagnostics than all of them.
pub proof fn lemma_reports_prefix(reports: Seq<ReportView>, n: int)
    requires
        0 <= n <= reports.len(),
    ensures
        count_in_reports(reports.take(n)) <= count_in_reports(reports),
    decreases reports.len(),
{
    if n < reports.len() {
        assert(reports.drop_last().take(n) =~= reports.take(n));
        lemma_reports_prefix(reports.drop_last(), n);
    } else {
        assert(reports.take(n) =~= reports);
    }
}

/// The first files of a list hold no more diagnostics than all of them.
pub proof fn lemma_files_prefix(files: Seq<FileReportView>, n: int)
    requires
        0 <= n <= files.len(),
    ensures
        count_in_files(files.take(n)) <= count_in_files(files),
    decreases files.len(),
{
    if n < files.len() {
        assert(files.drop_last().take(n) =~= files.take(n));
        lemma_files_prefix(files.drop_last(), n);
    } else {
        assert(files.take(n) =~= files);
    }
}

impl SummaryReport {
    /// How many diagnostics the report holds: those of every report of
    /// every file. The count must fit the result.
    pub fn diagnostics_count(&self) -> (n: isize)
        requires
            count_in_files(self@.files) <= isize::MAX,
        ensures
            n == count_in_files(self@.files),
    {
        let mut n: isize = 0;
        let mut i: usize = 0;
        let ghost files = self@.files;
        assert(files.take(0) =~= Seq::<FileReportView>::empty());
        while i < self.files.len()
            invariant
                i <= self.files.len(),
                files == self.files.deep_view(),
                count_in_files(files) <= isize::MAX,
                n == count_in_files(files.take(i as int)),
            decreases self.files.len() - i,
        {
            let file = &self.files[i];
            let ghost reports = file@.reports;
            let ghost base = n as int;
            let mut j: usize = 0;
            proof {
                assert(files.take(i + 1).drop_last() =~= files.take(i as int));
                assert(files.take(i + 1).last() == file@);
                lemma_files_prefix(files, i + 1);
                assert(reports.take(0) =~= Seq::<ReportView>::empty());
            }
            while j < file.reports.len()
                invariant
                    j <= file.reports.len(),
                    reports == file.reports.deep_view(),
                    base + count_in_reports(reports) <= isize::MAX,
                    0 <= base,
                    n == base + count_in_reports(reports.take(j as int)),
                decreases file.reports.len() - j,
            {
                let report = &file.reports[j];
                proof {
                    assert(reports.take(j + 1).drop_last() =~= reports.take(j as int));
                    assert(reports.take(j + 1).last() == report@);
                    assert(report@.diagnostics.len() == report.diagnostics.len());
                    lemma_reports_prefix(reports, j + 1);
                }
                n = n + report.diagnostics.len() as isize;
                j = j + 1;
            }
            assert(reports.take(j as int) =~= reports);
            i = i + 1;
        }
        assert(files.take(i as int) =~= files);
        n
    }
}

/// The book-keeping row of one applied migration.
#[derive(Debug, Clone, PartialEq, Eq)]
pub struct Revision {
    pub version: String,
    pub description: String,
    pub typ: String,
    pub applied: isize,
    pub total: isize,
    pub executed_at: Timestamp,
    pub execution_time: Duration,
    pub error: String,
    pub error_stmt: String,
    pub operator_version: String,
}

/// A `Revision` with its texts and lists as sequences.
pub ghost struct RevisionView {
    pub version: Seq<char>,
    pub description: Seq<char>,
    pub typ: Seq<char>,
    pub applied: isize,
    pub total: isize,
    pub executed_at: Timestamp,
    pub execution_time: Duration,
    pub error: Seq<char>,
    pub error_stmt: Seq<char>,
    pub operator_version: Seq<char>,
}

impl View for Revision {
    type V = RevisionView;

    open spec fn view(&self) -> RevisionView {
        RevisionView {
            version: self.version@,
            description: self.description@,
            typ: self.typ@,
            applied: self.applied,
            total: self.total,
            executed_at: self.executed_at,
            execution_time: self.execution_time,
            error: self.error@,
            error_stmt: self.error_stmt@,
            operator_version: self.operator_version@,
        }
    }
}

impl DeepView for Revision {
    type V = RevisionView;

    open spec fn deep_view(&self) -> RevisionView {
        self@
    }
}

impl Record for Revision {
    open spec fn from_members(members: Seq<(Seq<char>, JsonView)>) -> Option<RevisionView> {
        let version = text_field(members, "Version"@, true);
        let description = text_field(members, "Description"@, true);
        let typ = text_field(members, "Type"@, true);
        let applied = integer_field(members, "Applied"@, true);
        let total = integer_field(members, "Total"@, true);
        let executed_at = time_field(members, "ExecutedAt"@);
        let execution_time = duration_field(members, "ExecutionTime"@);
        let error = text_field(members, "Error"@, false);
        let error_stmt = text_field(members, "ErrorStmt"@, false);
        let operator_version = text_field(members, "OperatorVersion"@, true);
        if version is Some && description is Some && typ is Some && applied is Some && total is Some
            && executed_at is Some && execution_time is Some && error is Some && error_stmt is Some
            && operator_version is Some {
            Some(
                RevisionView {
                    version: version->0,
                    description: description->0,
                    typ: typ->0,
                    applied: applied->0,
                    total: total->0,
                    executed_at: executed_at->0,
                    execution_time: execution_time->0,
                    error: error->0,
                    error_stmt: error_stmt->0,
                    operator_version: operator_version->0,
                },
            )
        } else {
            None
        }
    }

    open spec fn to_members(value: RevisionView) -> Seq<(Seq<char>, JsonView)> {
        text_member("Version"@, value.version, false)
            + text_member("Description"@, value.description, false)
            + text_member("Type"@, value.typ, false)
            + integer_member("Applied"@, value.applied, false)
            + integer_member("Total"@, value.total, false)
            + time_member("ExecutedAt"@, value.executed_at)
            + duration_member("ExecutionTime"@, value.execution_time)
            + text_member("Error"@, value.error, true)
            + text_member("ErrorStmt"@, value.error_stmt, true)
            + text_member("OperatorVersion"@, value.operator_version, false)
    }

    fn decode_members(members: &Vec<(String, Json)>) -> (r: Option<Revision>) {
        let version = read_text(members, "Version", true)?;
        let description = read_text(members, "Description", true)?;
        let typ = read_text(members, "Type", true)?;
        let applied = read_integer(members, "Applied", true)?;
        let total = read_integer(members, "Total", true)?;
        let executed_at = read_time(members, "ExecutedAt")?;
        let execution_time = read_duration(members, "ExecutionTime")?;
        let error = read_text(members, "Error", false)?;
        let error_stmt = read_text(members, "ErrorStmt", false)?;
        let operator_version = read_text(members, "OperatorVersion", true)?;
        Some(
            Revision {
                version,
                description,
                typ,
                applied,
                total,
                executed_at,
                execution_time,
                error,
                error_stmt,
                operator_version,
            },
        )
    }

    fn encode_members(&self, out: &mut Vec<(String, Json)>) {
        let ghost start = members_view(*out);
        let ghost value = self.deep_view();
        put_text(out, "Version", &self.version, false);
        let ghost written = text_member("Version"@, value.version, false);
        put_text(out, "Description", &self.description, false);
        let ghost written = written + text_member("Description"@, value.description, false);
        assert(members_view(*out) =~= start + written);
        put_text(out, "Type", &self.typ, false);
        let ghost written = written + text_member("Type"@, value.typ, false);
        assert(members_view(*out) =~= start + written);
        put_integer(out, "Applied", self.applied, false);
        let ghost written = written + integer_member("Applied"@, value.applied, false);
        assert(members_view(*out) =~= start + written);
        put_integer(out, "Total", self.total, false);
        let ghost written = written + integer_member("Total"@, value.total, false);
        assert(members_view(*out) =~= start + written);
        put_time(out, "ExecutedAt", self.executed_at);
        let ghost written = written + time_member("ExecutedAt"@, value.executed_at);
        assert(members_view(*out) =~= start + written);
        put_duration(out, "ExecutionTime", self.execution_time);
        let ghost written = written + duration_member("ExecutionTime"@, value.execution_time);
        assert(members_view(*out) =~= start + written);
        put_text(out, "Error", &self.error, true);
        let ghost written = written + text_member("Error"@, value.error, true);
        assert(members_view(*out) =~= start + written);
        put_text(out, "ErrorStmt", &self.error_stmt, true);
        let ghost written = written + text_member("ErrorStmt"@, value.error_stmt, true);
        assert(members_view(*out) =~= start + written);
        put_text(out, "OperatorVersion", &self.operator_version, false);
        let ghost written = written
            + text_member("OperatorVersion"@, value.operator_version, false);
        assert(members_view(*out) =~= start + written);
    }
}

/// The status of a migration directory against a database.
#[derive(Debug, Clone, PartialEq, Eq)]
pub struct MigrateStatus {
    pub available: Vec<File>,
    pub pending: Vec<File>,
    pub applied: Vec<Revision>,
    pub current: String,
    pub next: String,
    pub count: isize,
    pub total: isize,
    pub status: String,
    pub error: String,
    pub sql: String,
}

/// A `MigrateStatus` with its texts and lists as sequences.
pub ghost struct MigrateStatusView {
    pub available: Seq<FileView>,
    pub pending: Seq<FileView>,
    pub applied: Seq<RevisionView>,
    pub current: Seq<char>,
    pub next: Seq<char>,
    pub count: isize,
    pub total: isize,
    pub status: Seq<char>,
    pub error: Seq<char>,
    pub sql: Seq<char>,
}

impl View for MigrateStatus {
    type V = MigrateStatusView;

    open spec fn view(&self) -> MigrateStatusView {
        MigrateStatusView {
            available: self.available.deep_view(),
            pending: self.pending.deep_view(),
            applied: self.applied.deep_view(),
            current: self.current@,
            next: self.next@,
            count: self.count,
            total: self.total,
            status: self.status@,
            error: self.error@,
            sql: self.sql@,
        }
    }
}

impl DeepView for MigrateStatus {
    type V = MigrateStatusView;

    open spec fn deep_view(&self) -> MigrateStatusView {
        self@
    }
}

impl Record for MigrateStatus {
    open spec fn from_members(members: Seq<(Seq<char>, JsonView)>) -> Option<MigrateStatusView> {
        let available = records_field::<File>(members, "Available"@);
        let pending = records_field::<File>(members, "Pending"@);
        let applied = records_field::<Revision>(members, "Applied"@);
        let current = text_field(members, "Current"@, false);
        let next = text_field(members, "Next"@, false);
        let count = integer_field(members, "Count"@, false);
        let total = integer_field(members, "Total"@, false);
        let status = text_field(members, "Status"@, false);
        let error = text_field(members, "Error"@, false);
        let sql = text_field(members, "SQL"@, false);
        if available is Some && pending is Some && applied is Some && current is Some && next is Some
            && count is Some && total is Some && status is Some && error is Some && sql is Some {
            Some(
                MigrateStatusView {
                    available: available->0,
                    pending: pending->0,
                    applied: applied->0,
                    current: current->0,
                    next: next->0,
                    count: count->0,
                    total: total->0,
                    status: status->0,
                    error: error->0,
                    sql: sql->0,
                },
            )
        } else {
            None
        }
    }

    open spec fn to_members(value: MigrateStatusView) -> Seq<(Seq<char>, JsonView)> {
        records_member::<File>("Available"@, value.available)
            + records_member::<File>("Pending"@, value.pending)
            + records_member::<Revision>("Applied"@, value.applied)
            + text_member("Current"@, value.current, true)
            + text_member("Next"@, value.next, true)
            + integer_member("Count"@, value.count, true)
            + integer_member("Total"@, value.total, true)
            + text_member("Status"@, value.status, true)
            + text_member("Error"@, value.error, true)
            + text_member("SQL"@, value.sql, true)
    }

    fn decode_members(members: &Vec<(String, Json)>) -> (r: Option<MigrateStatus>) {
        let available = read_records::<File>(members, "Available")?;
        let pending = read_records::<File>(members, "Pending")?;
        let applied = read_records::<Revision>(members, "Applied")?;
        let current = read_text(members, "Current", false)?;
        let next = read_text(members, "Next", false)?;
        let count = read_integer(members, "Count", false)?;
        let total = read_integer(members, "Total", false)?;
        let status = read_text(members, "Status", false)?;
        let error = read_text(members, "Error", false)?;
        let sql = read_text(members, "SQL", false)?;
        Some(
            MigrateStatus {
                available,
                pending,
                applied,
                current,
                next,
                count,
                total,
                status,
                error,
                sql,
            },
        )
    }

    fn encode_members(&self, out: &mut Vec<(String, Json)>) {
        let ghost start = members_view(*out);
        let ghost value = self.deep_view();
        put_records::<File>(out, "Available", &self.available);
        let ghost written = records_member::<File>("Available"@, value.available);
        put_records::<File>(out, "Pending", &self.pending);
        let ghost written = written + records_member::<File>("Pending"@, value.pending);
        assert(members_view(*out) =~= start + written);
        put_records::<Revision>(out, "Applied", &self.applied);
        let ghost written = written + records_member::<Revision>("Applied"@, value.applied);
        assert(members_view(*out) =~= start + written);
        put_text(out, "Current", &self.current, true);
        let ghost written = written + text_member("Current"@, value.current, true);
        assert(members_view(*out) =~= start + written);
        put_text(out, "Next", &self.next, true);
        let ghost written = written + text_member("Next"@, value.next, true);
        assert(members_view(*out) =~= start + written);
        put_integer(out, "Count", self.count, true);
        let ghost written = written + integer_member("Count"@, value.count, true);
        assert(members_view(*out) =~= start + written);
        put_integer(out, "Total", self.total, true);
        let ghost written = written + integer_member("Total"@, value.total, true);
        assert(members_view(*out) =~= start + written);
        put_text(out, "Status", &self.status, true);
        let ghost written = written + text_member("Status"@, value.status, true);
        assert(members_view(*out) =~= start + written);
        put_text(out, "Error", &self.error, true);
        let ghost written = written + text_member("Error"@, value.error, true);
        assert(members_view(*out) =~= start + written);
        put_text(out, "SQL", &self.sql, true);
        let ghost written = written + text_member("SQL"@, value.sql, true);
        assert(members_view(*out) =~= start + written);
    }
}

/// The version of the tool.
#[derive(Debug, Clone, PartialEq, Eq)]
pub struct Version {
    pub version: String,
    pub sha: String,
    pub canary: bool,
}

/// A `Version` with its texts and lists as sequences.
pub ghost struct VersionView {
    pub version: Seq<char>,
    pub sha: Seq<char>,
    pub canary: bool,
}

impl View for Version {
    type V = VersionView;

    open spec fn view(&self) -> VersionView {
        VersionView { version: self.version@, sha: self.sha@, canary: self.canary }
    }
}

impl DeepView for Version {
    type V = VersionView;

    open spec fn deep_view(&self) -> VersionView {
        self@
    }
}

impl Record for Version {
    open spec fn from_members(members: Seq<(Seq<char>, JsonView)>) -> Option<VersionView> {
        let version = text_field(members, "Version"@, true);
        let sha = text_field(members, "SHA"@, false);
        let canary = flag_field(members, "Canary"@);
        if version is Some && sha is Some && canary is Some {
            Some(VersionView { version: version->0, sha: sha->0, canary: canary->0 })
        } else {
            None
        }
    }

    open spec fn to_members(value: VersionView) -> Seq<(Seq<char>, JsonView)> {
        text_member("Version"@, value.version, false)
            + text_member("SHA"@, value.sha, true)
            + flag_member("Canary"@, value.canary)
    }

    fn decode_members(members: &Vec<(String, Json)>) -> (r: Option<Version>) {
        let version = read_text(members, "Version", true)?;
        let sha = read_text(members, "SHA", false)?;
        let canary = read_flag(members, "Canary")?;
        Some(Version { version, sha, canary })
    }

    fn encode_members(&self, out: &mut Vec<(String, Json)>) {
        let ghost start = members_view(*out);
        let ghost value = self.deep_view();
        put_text(out, "Version", &self.version, false);
        let ghost written = text_member("Version"@, value.version, false);
        put_text(out, "SHA", &self.sha, true);
        let ghost written = written + text_member("SHA"@, value.sha, true);
        assert(members_view(*out) =~= start + written);
        put_flag(out, "Canary", self.canary);
        let ghost written = written + flag_member("Canary"@, value.canary);
        assert(members_view(*out) =~= start + written);
    }
}

} // verus!
