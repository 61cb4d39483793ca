//! The results of the migration and schema operations.

use crate::json::lacks;
use crate::json::lemma_member_concat;
use crate::json::lookup;
use crate::json::member;
use crate::json::members_view;
use crate::json::Json;
use crate::json::JsonView;
use crate::timestamp::sentinel;
use crate::timestamp::Timestamp;
use crate::wire::decode;
use crate::wire::integer_field;
use crate::wire::integer_member;
use crate::wire::lemma_missing_time;
use crate::wire::lemma_optional_member;
use crate::wire::lemma_text_member;
use crate::wire::lemma_texts_member;
use crate::wire::lemma_texts_round_trip;
use crate::wire::optional_field;
use crate::wire::optional_member;
use crate::wire::put_integer;
use crate::wire::put_nothing;
use crate::wire::put_optional;
use crate::wire::put_record;
use crate::wire::put_records;
use crate::wire::put_text;
use crate::wire::put_texts;
use crate::wire::put_time;
use crate::wire::read_integer;
use crate::wire::read_optional;
use crate::wire::read_records;
use crate::wire::read_text;
use crate::wire::read_texts;
use crate::wire::read_time;
use crate::wire::record_member;
use crate::wire::record_of;
use crate::wire::records_field;
use crate::wire::records_member;
use crate::wire::text_field;
use crate::wire::text_member;
use crate::wire::texts_field;
use crate::wire::texts_member;
use crate::wire::time_field;
use crate::wire::time_member;
use crate::wire::Record;
use vstd::prelude::*;

verus! {

/// A migration file: each of its fields is left out of the JSON when it is
/// empty.
#[derive(Debug, Clone, PartialEq, Eq)]
pub struct File {
    pub name: String,
    pub version: String,
    pub description: String,
}

/// A `File` with its texts and lists as sequences.
pub ghost struct FileView {
    pub name: Seq<char>,
    pub version: Seq<char>,
    pub description: Seq<char>,
}

impl View for File {
    type V = FileView;

    open spec fn view(&self) -> FileView {
        FileView { name: self.name@, version: self.version@, description: self.description@ }
    }
}

impl DeepView for File {
    type V = FileView;

    open spec fn deep_view(&self) -> FileView {
        self@
    }
}

impl Default for File {
    fn default() -> (r: File)
        ensures
            r@ == (FileView { name: Seq::empty(), version: Seq::empty(), description: Seq::empty() }),
    {
        File { name: String::new(), version: String::new(), description: String::new() }
    }
}

impl Record for File {
    open spec fn from_members(members: Seq<(Seq<char>, JsonView)>) -> Option<FileView> {
        let name = text_field(members, "Name"@, false);
        let version = text_field(members, "Version"@, false);
        let description = text_field(members, "Description"@, false);
        if name is Some && version is Some && description is Some {
            Some(FileView { name: name->0, version: version->0, description: description->0 })
        } else {
            None
        }
    }

    open spec fn to_members(value: FileView) -> Seq<(Seq<char>, JsonView)> {
        text_member("Name"@, value.name, true)
            + text_member("Version"@, value.version, true)
            + text_member("Description"@, value.description, true)
    }

    fn decode_members(members: &Vec<(String, Json)>) -> (r: Option<File>) {
        let name = read_text(members, "Name", false)?;
        let version = read_text(members, "Version", false)?;
        let description = read_text(members, "Description", false)?;
        Some(File { name, version, description })
    }

    fn encode_members(&self, out: &mut Vec<(String, Json)>) {
        let ghost start = members_view(*out);
        let ghost value = self.deep_view();
        put_text(out, "Name", &self.name, true);
        let ghost written = text_member("Name"@, value.name, true);
        put_text(out, "Version", &self.version, true);
        let ghost written = written + text_member("Version"@, value.version, true);
        assert(members_view(*out) =~= start + written);
        put_text(out, "Description", &self.description, true);
        let ghost written = written + text_member("Description"@, value.description, true);
        assert(members_view(*out) =~= start + written);
    }
}

/// The three members of a record of three texts that are left out when
/// empty are read back as the three texts, where the names differ.
pub proof fn lemma_three_texts(
    k1: Seq<char>,
    v1: Seq<char>,
    k2: Seq<char>,
    v2: Seq<char>,
    k3: Seq<char>,
    v3: Seq<char>,
)
    requires
        k1 != k2,
        k1 != k3,
        k2 != k3,
    ensures
        ({
            let members = text_member(k1, v1, true) + text_member(k2, v2, true) + text_member(
                k3,
                v3,
                true,
            );
            &&& text_field(members, k1, false) == Some(v1)
            &&& text_field(members, k2, false) == Some(v2)
            &&& text_field(members, k3, false) == Some(v3)
        }),
{
    let a = text_member(k1, v1, true);
    let b = text_member(k2, v2, true);
    let c = text_member(k3, v3, true);
    lemma_member_concat(a + b, c, k1);
    lemma_member_concat(a, b, k1);
    lemma_member_concat(a + b, c, k2);
    lemma_member_concat(a, b, k2);
    lemma_member_concat(a + b, c, k3);
    lemma_member_concat(a, b, k3);
    lemma_text_member(k1, v1, true, k1);
    lemma_text_member(k1, v1, true, k2);
    lemma_text_member(k1, v1, true, k3);
    lemma_text_member(k2, v2, true, k1);
    lemma_text_member(k2, v2, true, k2);
    lemma_text_member(k2, v2, true, k3);
    lemma_text_member(k3, v3, true, k1);
    lemma_text_member(k3, v3, true, k2);
    lemma_text_member(k3, v3, true, k3);
    assert(v1.len() == 0 ==> v1 =~= Seq::<char>::empty());
    assert(v2.len() == 0 ==> v2 =~= Seq::<char>::empty());
    assert(v3.len() == 0 ==> v3 =~= Seq::<char>::empty());
}

/// Writing a file and reading it back gives the file: what was left out
/// because it was empty is read as empty. A file with nothing in it is
/// written as no member at all.
pub proof fn lemma_file_round_trip(file: FileView)
    ensures
        File::from_members(File::to_members(file)) == Some(file),
        file.name.len() == 0 && file.version.len() == 0 && file.description.len() == 0
            ==> File::to_members(file) == Seq::<(Seq<char>, JsonView)>::empty(),
{
    reveal_strlit("Name");
    reveal_strlit("Version");
    reveal_strlit("Description");
    assert("Name"@.len() == 4 && "Version"@.len() == 7 && "Description"@.len() == 11);
    lemma_three_texts(
        "Name"@,
        file.name,
        "Version"@,
        file.version,
        "Description"@,
        file.description,
    );
    assert(File::to_members(file) =~= text_member("Name"@, file.name, true) + text_member(
        "Version"@,
        file.version,
        true,
    ) + text_member("Description"@, file.description, true));
}

/// A statement that failed, and why.
#[derive(Debug, Clone, PartialEq, Eq)]
pub struct SqlError {
    pub sql: String,
    pub error: String,
}

/// A `SqlError` with its texts and lists as sequences.
pub ghost struct SqlErrorView {
    pub sql: Seq<char>,
    pub error: Seq<char>,
}

impl View for SqlError {
    type V = SqlErrorView;

    open spec fn view(&self) -> SqlErrorView {
        SqlErrorView { sql: self.sql@, error: self.error@ }
    }
}

impl DeepView for SqlError {
    type V = SqlErrorView;

    open spec fn deep_view(&self) -> SqlErrorView {
        self@
    }
}

impl Default for SqlError {
    fn default() -> (r: SqlError)
        ensures
            r@ == (SqlErrorView { sql: Seq::empty(), error: Seq::empty() }),
    {
        SqlError { sql: String::new(), error: String::new() }
    }
}

impl Record for SqlError {
    open spec fn from_members(members: Seq<(Seq<char>, JsonView)>) -> Option<SqlErrorView> {
        let sql = text_field(members, "SQL"@, true);
        let error = text_field(members, "Error"@, true);
        if sql is Some && error is Some {
            Some(SqlErrorView { sql: sql->0, error: error->0 })
        } else {
            None
        }
    }

    open spec fn to_members(value: SqlErrorView) -> Seq<(Seq<char>, JsonView)> {
        text_member("SQL"@, value.sql, false)
            + text_member("Error"@, value.error, false)
    }

    fn decode_members(members: &Vec<(String, Json)>) -> (r: Option<SqlError>) {
        let sql = read_text(members, "SQL", true)?;
        let error = read_text(members, "Error", true)?;
        Some(SqlError { sql, error })
    }

    fn encode_members(&self, out: &mut Vec<(String, Json)>) {
        let ghost start = members_view(*out);
        let ghost value = self.deep_view();
        put_text(out, "SQL", &self.sql, false);
        let ghost written = text_member("SQL"@, value.sql, false);
        put_text(out, "Error", &self.error, false);
        let ghost written = written + text_member("Error"@, value.error, false);
        assert(members_view(*out) =~= start + written);
    }
}

/// A file that was applied: the file's own fields stand beside the others
/// in one object.
#[derive(Debug, Clone, PartialEq, Eq)]
pub struct AppliedFile {
    pub file: File,
    pub start: Timestamp,
    pub end: Timestamp,
    pub skipped: isize,
    pub applied: Vec<String>,
    pub error: Option<SqlError>,
}

/// An `AppliedFile` with its texts and lists as sequences.
pub ghost struct AppliedFileView {
    pub file: FileView,
    pub start: Timestamp,
    pub end: Timestamp,
    pub skipped: isize,
    pub applied: Seq<Seq<char>>,
    pub error: Option<SqlErrorView>,
}

impl View for AppliedFile {
    type V = AppliedFileView;

    open spec fn view(&self) -> AppliedFileView {
        AppliedFileView {
            file: self.file@,
            start: self.start,
            end: self.end,
            skipped: self.skipped,
            applied: self.applied.deep_view(),
            error: self.error.deep_view(),
        }
    }
}

impl DeepView for AppliedFile {
    type V = AppliedFileView;

    open spec fn deep_view(&self) -> AppliedFileView {
        self@
    }
}

impl Record for AppliedFile {
    open spec fn from_members(members: Seq<(Seq<char>, JsonView)>) -> Option<AppliedFileView> {
        let file = File::from_members(members);
        let start = time_field(members, "Start"@);
        let end = time_field(members, "End"@);
        let skipped = integer_field(members, "Skipped"@, true);
        let applied = texts_field(members, "Applied"@, true);
        let error = optional_field::<SqlError>(members, "Error"@);
        if file is Some && start is Some && end is Some && skipped is Some && applied is Some
            && error is Some {
            Some(
                AppliedFileView {
                    file: file->0,
                    start: start->0,
                    end: end->0,
                    skipped: skipped->0,
                    applied: applied->0,
                    error: error->0,
                },
            )
        } else {
            None
        }
    }

    open spec fn to_members(value: AppliedFileView) -> Seq<(Seq<char>, JsonView)> {
        File::to_members(value.file)
            + time_member("Start"@, value.start)
            + time_member("End"@, value.end)
            + integer_member("Skipped"@, value.skipped, false)
            + texts_member("Applied"@, value.applied, false)
            + optional_member::<SqlError>("Error"@, value.error, false)
    }

    fn decode_members(members: &Vec<(String, Json)>) -> (r: Option<AppliedFile>) {
        let file = File::decode_members(members)?;
        let start = read_time(members, "Start")?;
        let end = read_time(members, "End")?;
        let skipped = read_integer(members, "Skipped", true)?;
        let applied = read_texts(members, "Applied", true)?;
        let error = read_optional::<SqlError>(members, "Error")?;
        Some(AppliedFile { file, start, end, skipped, applied, error })
    }

    fn encode_members(&self, out: &mut Vec<(String, Json)>) {
        let ghost start = members_view(*out);
        let ghost value = self.deep_view();
        self.file.encode_members(out);
        let ghost written = File::to_members(value.file);
        put_time(out, "Start", self.start);
        let ghost written = written + time_member("Start"@, value.start);
        assert(members_view(*out) =~= start + written);
        put_time(out, "End", self.end);
        let ghost written = written + time_member("End"@, value.end);
        assert(members_view(*out) =~= start + written);
        put_integer(out, "Skipped", self.skipped, false);
        let ghost written = written + integer_member("Skipped"@, value.skipped, false);
        assert(members_view(*out) =~= start + written);
        put_texts(out, "Applied", &self.applied, false);
        let ghost written = written + texts_member("Applied"@, value.applied, false);
        assert(members_view(*out) =~= start + written);
        put_optional::<SqlError>(out, "Error", &self.error, false);
        let ghost written = written + optional_member::<SqlError>("Error"@, value.error, false);
        assert(members_view(*out) =~= start + written);
    }
}

/// The result of `migrate apply`.
#[derive(Debug, Clone, PartialEq, Eq)]
pub struct MigrateApply {
    pub pending: Vec<File>,
    pub applied: Vec<AppliedFile>,
    pub current: String,
    pub target: String,
    pub start: Timestamp,
    pub end: Timestamp,
    pub error: String,
}

/// A `MigrateApply` with its texts and lists as sequences.
pub ghost struct MigrateApplyView {
    pub pending: Seq<FileView>,
    pub applied: Seq<AppliedFileView>,
    pub current: Seq<char>,
    pub target: Seq<char>,
    pub start: Timestamp,
    pub end: Timestamp,
    pub error: Seq<char>,
}

impl View for MigrateApply {
    type V = MigrateApplyView;

    open spec fn view(&self) -> MigrateApplyView {
        MigrateApplyView {
            pending: self.pending.deep_view(),
            applied: self.applied.deep_view(),
            current: self.current@,
            target: self.target@,
            start: self.start,
            end: self.end,
            error: self.error@,
        }
    }
}

impl DeepView for MigrateApply {
    type V = MigrateApplyView;

    open spec fn deep_view(&self) -> MigrateApplyView {
        self@
    }
}

impl Record for MigrateApply {
    open spec fn from_members(members: Seq<(Seq<char>, JsonView)>) -> Option<MigrateApplyView> {
        let pending = records_field::<File>(members, "Pending"@);
        let applied = records_field::<AppliedFile>(members, "Applied"@);
        let current = text_field(members, "Current"@, false);
        let target = text_field(members, "Target"@, false);
        let start = time_field(members, "Start"@);
        let end = time_field(members, "End"@);
        let error = text_field(members, "Error"@, false);
        if pending is Some && applied is Some && current is Some && target is Some && start is Some
            && end is Some && error is Some {
            Some(
                MigrateApplyView {
                    pending: pending->0,
                    applied: applied->0,
                    current: current->0,
                    target: target->0,
                    start: start->0,
                    end: end->0,
                    error: error->0,
                },
            )
        } else {
            None
        }
    }

    open spec fn to_members(value: MigrateApplyView) -> Seq<(Seq<char>, JsonView)> {
        records_member::<File>("Pending"@, value.pending)
            + records_member::<AppliedFile>("Applied"@, value.applied)
            + text_member("Current"@, value.current, true)
            + text_member("Target"@, value.target, true)
            + time_member("Start"@, value.start)
            + time_member("End"@, value.end)
            + text_member("Error"@, value.error, true)
    }

    fn decode_members(members: &Vec<(String, Json)>) -> (r: Option<MigrateApply>) {
        let pending = read_records::<File>(members, "Pending")?;
        let applied = read_records::<AppliedFile>(members, "Applied")?;
        let current = read_text(members, "Current", false)?;
        let target = read_text(members, "Target", false)?;
        let start = read_time(members, "Start")?;
        let end = read_time(members, "End")?;
        let error = read_text(members, "Error", false)?;
        Some(MigrateApply { pending, applied, current, target, start, end, error })
    }

    fn encode_members(&self, out: &mut Vec<(String, Json)>) {
        let ghost start = members_view(*out);
        let ghost value = self.deep_view();
        put_records::<File>(out, "Pending", &self.pending);
        let ghost written = records_member::<File>("Pending"@, value.pending);
        put_records::<AppliedFile>(out, "Applied", &self.applied);
        let ghost written = written + records_member::<AppliedFile>("Applied"@, value.applied);
        assert(members_view(*out) =~= start + written);
        put_text(out, "Current", &self.current, true);
        let ghost written = written + text_member("Current"@, value.current, true);
        assert(members_view(*out) =~= start + written);
        put_text(out, "Target", &self.target, true);
        let ghost written = written + text_member("Target"@, value.target, true);
        assert(members_view(*out) =~= start + written);
        put_time(out, "Start", self.start);
        let ghost written = written + time_member("Start"@, value.start);
        assert(members_view(*out) =~= start + written);
        put_time(out, "End", self.end);
        let ghost written = written + time_member("End"@, value.end);
        assert(members_view(*out) =~= start + written);
        put_text(out, "Error", &self.error, true);
        let ghost written = written + text_member("Error"@, value.error, true);
        assert(members_view(*out) =~= start + written);
    }
}

/// A result of `migrate apply` without its two times is no error: it is
/// read exactly where its other fields are, and its times are then the
/// time that stands for "not known".
pub proof fn lemma_migrate_apply_without_times(members: Seq<(Seq<char>, JsonView)>)
    requires
        lacks(members, "Start"@),
        lacks(members, "End"@),
    ensures
        MigrateApply::from_members(members) is Some <==> {
            &&& records_field::<File>(members, "Pending"@) is Some
            &&& records_field::<AppliedFile>(members, "Applied"@) is Some
            &&& text_field(members, "Current"@, false) is Some
            &&& text_field(members, "Target"@, false) is Some
            &&& text_field(members, "Error"@, false) is Some
        },
        MigrateApply::from_members(members) is Some ==> {
            &&& MigrateApply::from_members(members)->0.start == sentinel()
            &&& MigrateApply::from_members(members)->0.end == sentinel()
        },
{
    lemma_missing_time(members, "Start"@);
    lemma_missing_time(members, "End"@);
}

/// A file that was reverted.
#[derive(Debug, Clone, PartialEq, Eq)]
pub struct RevertedFile {
    pub file: File,
    pub start: Timestamp,
    pub end: Timestamp,
    pub skipped: isize,
    pub applied: Vec<String>,
    pub scope: String,
    pub error: Option<SqlError>,
}

/// A `RevertedFile` with its texts and lists as sequences.
pub ghost struct RevertedFileView {
    pub file: FileView,
    pub start: Timestamp,
    pub end: Timestamp,
    pub skipped: isize,
    pub applied: Seq<Seq<char>>,
    pub scope: Seq<char>,
    pub error: Option<SqlErrorView>,
}

impl View for RevertedFile {
    type V = RevertedFileView;

    open spec fn view(&self) -> RevertedFileView {
        RevertedFileView {
            file: self.file@,
            start: self.start,
            end: self.end,
            skipped: self.skipped,
            applied: self.applied.deep_view(),
            scope: self.scope@,
            error: self.error.deep_view(),
        }
    }
}

impl DeepView for RevertedFile {
    type V = RevertedFileView;

    open spec fn deep_view(&self) -> RevertedFileView {
        self@
    }
}

impl Record for RevertedFile {
    open spec fn from_members(members: Seq<(Seq<char>, JsonView)>) -> Option<RevertedFileView> {
        let file = File::from_members(members);
        let start = time_field(members, "Start"@);
        let end = time_field(members, "End"@);
        let skipped = integer_field(members, "Skipped"@, true);
        let applied = texts_field(members, "Applied"@, true);
        let scope = text_field(members, "Scope"@, true);
        let error = optional_field::<SqlError>(members, "Error"@);
        if file is Some && start is Some && end is Some && skipped is Some && applied is Some
            && scope is Some && error is Some {
            Some(
                RevertedFileView {
                    file: file->0,
                    start: start->0,
                    end: end->0,
                    skipped: skipped->0,
                    applied: applied->0,
                    scope: scope->0,
                    error: error->0,
                },
            )
        } else {
            None
        }
    }

    open spec fn to_members(value: RevertedFileView) -> Seq<(Seq<char>, JsonView)> {
        File::to_members(value.file)
            + time_member("Start"@, value.start)
            + time_member("End"@, value.end)
            + integer_member("Skipped"@, value.skipped, false)
            + texts_member("Applied"@, value.applied, false)
            + text_member("Scope"@, value.scope, false)
            + optional_member::<SqlError>("Error"@, value.error, false)
    }

    fn decode_members(members: &Vec<(String, Json)>) -> (r: Option<RevertedFile>) {
        let file = File::decode_members(members)?;
        let start = read_time(members, "Start")?;
        let end = read_time(members, "End")?;
        let skipped = read_integer(members, "Skipped", true)?;
        let applied = read_texts(members, "Applied", true)?;
        let scope = read_text(members, "Scope", true)?;
        let error = read_optional::<SqlError>(members, "Error")?;
        Some(RevertedFile { file, start, end, skipped, applied, scope, error })
    }

    fn encode_members(&self, out: &mut Vec<(String, Json)>) {
        let ghost start = members_view(*out);
        let ghost value = self.deep_view();
        self.file.encode_members(out);
        let ghost written = File::to_members(value.file);
        put_time(out, "Start", self.start);
        let ghost written = written + time_member("Start"@, value.start);
        assert(members_view(*out) =~= start + written);
        put_time(out, "End", self.end);
        let ghost written = written + time_member("End"@, value.end);
        assert(members_view(*out) =~= start + written);
        put_integer(out, "Skipped", self.skipped, false);
        let ghost written = written + integer_member("Skipped"@, value.skipped, false);
        assert(members_view(*out) =~= start + written);
        put_texts(out, "Applied", &self.applied, false);
        let ghost written = written + texts_member("Applied"@, value.applied, false);
        assert(members_view(*out) =~= start + written);
        put_text(out, "Scope", &self.scope, false);
        let ghost written = written + text_member("Scope"@, value.scope, false);
        assert(members_view(*out) =~= start + written);
        put_optional::<SqlError>(out, "Error", &self.error, false);
        let ghost written = written + optional_member::<SqlError>("Error"@, value.error, false);
        assert(members_view(*out) =~= start + written);
    }
}

/// The result of `migrate down`.
#[derive(Debug, Clone, PartialEq, Eq)]
pub struct MigrateDown {
    pub planned: Vec<File>,
    pub reverted: Vec<RevertedFile>,
    pub current: String,
    pub target: String,
    pub total: isize,
    pub start: Timestamp,
    pub end: Timestamp,
    pub url: String,
    pub status: String,
    pub error: String,
}

/// A `MigrateDown` with its texts and lists as sequences.
pub ghost struct MigrateDownView {
    pub planned: Seq<FileView>,
    pub reverted: Seq<RevertedFileView>,
    pub current: Seq<char>,
    pub target: Seq<char>,
    pub total: isize,
    pub start: Timestamp,
    pub end: Timestamp,
    pub url: Seq<char>,
    pub status: Seq<char>,
    pub error: Seq<char>,
}

impl View for MigrateDown {
    type V = MigrateDownView;

    open spec fn view(&self) -> MigrateDownView {
        MigrateDownView {
            planned: self.planned.deep_view(),
            reverted: self.reverted.deep_view(),
            current: self.current@,
            target: self.target@,
            total: self.total,
            start: self.start,
            end: self.end,
            url: self.url@,
            status: self.status@,
            error: self.error@,
        }
    }
}

impl DeepView for MigrateDown {
    type V = MigrateDownView;

    open spec fn deep_view(&self) -> MigrateDownView {
        self@
    }
}

impl Record for MigrateDown {
    open spec fn from_members(members: Seq<(Seq<char>, JsonView)>) -> Option<MigrateDownView> {
        let planned = records_field::<File>(members, "Planned"@);
        let reverted = records_field::<RevertedFile>(members, "Reverted"@);
        let current = text_field(members, "Current"@, false);
        let target = text_field(members, "Target"@, false);
        let total = integer_field(members, "Total"@, false);
        let start = time_field(members, "Start"@);
        let end = time_field(members, "End"@);
        let url = text_field(members, "URL"@, false);
        let status = text_field(members, "Status"@, false);
        let error = text_field(members, "Error"@, false);
        if planned is Some && reverted is Some && current is Some && target is Some && total is Some
            && start is Some && end is Some && url is Some && status is Some && error is Some {
            Some(
                MigrateDownView {
                    planned: planned->0,
                    reverted: reverted->0,
                    current: current->0,
                    target: target->0,
                    total: total->0,
                    start: start->0,
                    end: end->0,
                    url: url->0,
                    status: status->0,
                    error: error->0,
                },
            )
        } else {
            None
        }
    }

    open spec fn to_members(value: MigrateDownView) -> Seq<(Seq<char>, JsonView)> {
        records_member::<File>("Planned"@, value.planned)
            + records_member::<RevertedFile>("Reverted"@, value.reverted)
            + text_member("Current"@, value.current, true)
            + text_member("Target"@, value.target, true)
            + integer_member("Total"@, value.total, true)
            + time_member("Start"@, value.start)
            + time_member("End"@, value.end)
            + text_member("URL"@, value.url, true)
            + text_member("Status"@, value.status, true)
            + text_member("Error"@, value.error, true)
    }

    fn decode_members(members: &Vec<(String, Json)>) -> (r: Option<MigrateDown>) {
        let planned = read_records::<File>(members, "Planned")?;
        let reverted = read_records::<RevertedFile>(members, "Reverted")?;
        let current = read_text(members, "Current", false)?;
        let target = read_text(members, "Target", false)?;
        let total = read_integer(members, "Total", false)?;
        let start = read_time(members, "Start")?;
        let end = read_time(members, "End")?;
        let url = read_text(members, "URL", false)?;
        let status = read_text(members, "Status", false)?;
        let error = read_text(members, "Error", false)?;
        Some(
            MigrateDown { planned, reverted, current, target, total, start, end, url, status, error },
        )
    }

    fn encode_members(&self, out: &mut Vec<(String, Json)>) {
        let ghost start = members_view(*out);
        let ghost value = self.deep_view();
        put_records::<File>(out, "Planned", &self.planned);
        let ghost written = records_member::<File>("Planned"@, value.planned);
        put_records::<RevertedFile>(out, "Reverted", &self.reverted);
        let ghost written = written + records_member::<RevertedFile>("Reverted"@, value.reverted);
        assert(members_view(*out) =~= start + written);
        put_text(out, "Current", &self.current, true);
        let ghost written = written + text_member("Current"@, value.current, true);
        assert(members_view(*out) =~= start + written);
        put_text(out, "Target", &self.target, true);
        let ghost written = written + text_member("Target"@, value.target, true);
        assert(members_view(*out) =~= start + written);
        put_integer(out, "Total", self.total, true);
        let ghost written = written + integer_member("Total"@, value.total, true);
        assert(members_view(*out) =~= start + written);
        put_time(out, "Start", self.start);
        let ghost written = written + time_member("Start"@, value.start);
        assert(members_view(*out) =~= start + written);
        put_time(out, "End", self.end);
        let ghost written = written + time_member("End"@, value.end);
        assert(members_view(*out) =~= start + written);
        put_text(out, "URL", &self.url, true);
        let ghost written = written + text_member("URL"@, value.url, true);
        assert(members_view(*out) =~= start + written);
        put_text(out, "Status", &self.status, true);
        let ghost written = written + text_member("Status"@, value.status, true);
        assert(members_view(*out) =~= start + written);
        put_text(out, "Error", &self.error, true);
        let ghost written = written + text_member("Error"@, value.error, true);
        assert(members_view(*out) =~= start + written);
    }
}

/// The database that an operation worked on.
#[derive(Debug, Clone, PartialEq, Eq)]
pub struct Env {
    pub driver: String,
    pub url: String,
    pub dir: String,
}

/// An `Env` with its texts and lists as sequences.
pub ghost struct EnvView {
    pub driver: Seq<char>,
    pub url: Seq<char>,
    pub dir: Seq<char>,
}

impl View for Env {
    type V = EnvView;

    open spec fn view(&self) -> EnvView {
        EnvView { driver: self.driver@, url: self.url@, dir: self.dir@ }
    }
}

impl DeepView for Env {
    type V = EnvView;

    open spec fn deep_view(&self) -> EnvView {
        self@
    }
}

impl Record for Env {
    open spec fn from_members(members: Seq<(Seq<char>, JsonView)>) -> Option<EnvView> {
        let driver = text_field(members, "Driver"@, false);
        let url = text_field(members, "URL"@, false);
        let dir = text_field(members, "Dir"@, false);
        if driver is Some && url is Some && dir is Some {
            Some(EnvView { driver: driver->0, url: url->0, dir: dir->0 })
        } else {
            None
        }
    }

    open spec fn to_members(value: EnvView) -> Seq<(Seq<char>, JsonView)> {
        text_member("Driver"@, value.driver, true)
            + text_member("URL"@, value.url, true)
            + text_member("Dir"@, value.dir, true)
    }

    fn decode_members(members: &Vec<(String, Json)>) -> (r: Option<Env>) {
        let driver = read_text(members, "Driver", false)?;
        let url = read_text(members, "URL", false)?;
        let dir = read_text(members, "Dir", false)?;
        Some(Env { driver, url, dir })
    }

    fn encode_members(&self, out: &mut Vec<(String, Json)>) {
        let ghost start = members_view(*out);
        let ghost value = self.deep_view();
        put_text(out, "Driver", &self.driver, true);
        let ghost written = text_member("Driver"@, value.driver, true);
        put_text(out, "URL", &self.url, true);
        let ghost written = written + text_member("URL"@, value.url, true);
        assert(members_view(*out) =~= start + written);
        put_text(out, "Dir", &self.dir, true);
        let ghost written = written + text_member("Dir"@, value.dir, true);
        assert(members_view(*out) =~= start + written);
    }
}

/// Writing the fields of a database and reading them back gives the same
/// fields; with nothing in them they are written as no member at all.
pub proof fn lemma_env_round_trip(env: EnvView)
    ensures
        Env::from_members(Env::to_members(env)) == Some(env),
        env.driver.len() == 0 && env.url.len() == 0 && env.dir.len() == 0 ==> Env::to_members(env)
            == Seq::<(Seq<char>, JsonView)>::empty(),
{
    reveal_strlit("Driver");
    reveal_strlit("URL");
    reveal_strlit("Dir");
    assert("Driver"@.len() == 6 && "URL"@.len() == 3 && "Dir"@.len() == 3);
    assert("URL"@[0] == 'U' && "Dir"@[0] == 'D');
    lemma_three_texts("Driver"@, env.driver, "URL"@, env.url, "Dir"@, env.dir);
    assert(Env::to_members(env) =~= text_member("Driver"@, env.driver, true) + text_member(
        "URL"@,
        env.url,
        true,
    ) + text_member("Dir"@, env.dir, true));
}

/// A statement of a schema change that failed, and why.
#[derive(Debug, Clone, PartialEq, Eq)]
pub struct StmtError {
    pub stmt: String,
    pub text: String,
}

/// A `StmtError` with its texts and lists as sequences.
pub ghost struct StmtErrorView {
    pub stmt: Seq<char>,
    pub text: Seq<char>,
}

impl View for StmtError {
    type V = StmtErrorView;

    open spec fn view(&self) -> StmtErrorView {
        StmtErrorView { stmt: self.stmt@, text: self.text@ }
    }
}

impl DeepView for StmtError {
    type V = StmtErrorView;

    open spec fn deep_view(&self) -> StmtErrorView {
        self@
    }
}

impl Record for StmtError {
    open spec fn from_members(members: Seq<(Seq<char>, JsonView)>) -> Option<StmtErrorView> {
        let stmt = text_field(members, "Stmt"@, false);
        let text = text_field(members, "Text"@, false);
        if stmt is Some && text is Some {
            Some(StmtErrorView { stmt: stmt->0, text: text->0 })
        } else {
            None
        }
    }

    open spec fn to_members(value: StmtErrorView) -> Seq<(Seq<char>, JsonView)> {
        text_member("Stmt"@, value.stmt, true)
            + text_member("Text"@, value.text, true)
    }

    fn decode_members(members: &Vec<(String, Json)>) -> (r: Option<StmtError>) {
        let stmt = read_text(members, "Stmt", false)?;
        let text = read_text(members, "Text", false)?;
        Some(StmtError { stmt, text })
    }

    fn encode_members(&self, out: &mut Vec<(String, Json)>) {
        let ghost start = members_view(*out);
        let ghost value = self.deep_view();
        put_text(out, "Stmt", &self.stmt, true);
        let ghost written = text_member("Stmt"@, value.stmt, true);
        put_text(out, "Text", &self.text, true);
        let ghost written = written + text_member("Text"@, value.text, true);
        assert(members_view(*out) =~= start + written);
    }
}

/// The changes of a schema apply: those made, those still to make, and
/// the statement that failed, if one did.
#[derive(Debug, Clone, PartialEq, Eq)]
pub struct Changes {
    pub applied: Vec<String>,
    pub pending: Vec<String>,
    pub error: Option<StmtError>,
}

/// A `Changes` with its texts and lists as sequences.
pub ghost struct ChangesView {
    pub applied: Seq<Seq<char>>,
    pub pending: Seq<Seq<char>>,
    pub error: Option<StmtErrorView>,
}

impl View for Changes {
    type V = ChangesView;

    open spec fn view(&self) -> ChangesView {
        ChangesView {
            applied: self.applied.deep_view(),
            pending: self.pending.deep_view(),
            error: self.error.deep_view(),
        }
    }
}

impl DeepView for Changes {
    type V = ChangesView;

    open spec fn deep_view(&self) -> ChangesView {
        self@
    }
}

/// No changes at all.
pub open spec fn no_changes() -> ChangesView {
    ChangesView { applied: Seq::empty(), pending: Seq::empty(), error: None }
}

impl Record for Changes {
    open spec fn from_members(members: Seq<(Seq<char>, JsonView)>) -> Option<ChangesView> {
        let applied = texts_field(members, "Applied"@, false);
        let pending = texts_field(members, "Pending"@, false);
        let error = optional_field::<StmtError>(members, "Error"@);
        if applied is Some && pending is Some && error is Some {
            Some(ChangesView { applied: applied->0, pending: pending->0, error: error->0 })
        } else {
            None
        }
    }

    open spec fn to_members(value: ChangesView) -> Seq<(Seq<char>, JsonView)> {
        texts_member("Applied"@, value.applied, true)
            + texts_member("Pending"@, value.pending, true)
            + optional_member::<StmtError>("Error"@, value.error, true)
    }

    fn decode_members(members: &Vec<(String, Json)>) -> (r: Option<Changes>) {
        let applied = read_texts(members, "Applied", false)?;
        let pending = read_texts(members, "Pending", false)?;
        let error = read_optional::<StmtError>(members, "Error")?;
        Some(Changes { applied, pending, error })
    }

    fn encode_members(&self, out: &mut Vec<(String, Json)>) {
        let ghost start = members_view(*out);
        let ghost value = self.deep_view();
        put_texts(out, "Applied", &self.applied, true);
        let ghost written = texts_member("Applied"@, value.applied, true);
        put_texts(out, "Pending", &self.pending, true);
        let ghost written = written + texts_member("Pending"@, value.pending, true);
        assert(members_view(*out) =~= start + written);
        put_optional::<StmtError>(out, "Error", &self.error, true);
        let ghost written = written + optional_member::<StmtError>("Error"@, value.error, true);
        assert(members_view(*out) =~= start + written);
    }
}

/// Writing a failed statement and reading it back gives the same
/// statement.
pub proof fn lemma_stmt_error_round_trip(error: StmtErrorView)
    ensures
        StmtError::from_members(StmtError::to_members(error)) == Some(error),
{
    reveal_strlit("Stmt");
    reveal_strlit("Text");
    assert("Stmt"@[0] == 'S' && "Text"@[0] == 'T');
    let a = text_member("Stmt"@, error.stmt, true);
    let b = text_member("Text"@, error.text, true);
    lemma_member_concat(a, b, "Stmt"@);
    lemma_member_concat(a, b, "Text"@);
    lemma_text_member("Stmt"@, error.stmt, true, "Stmt"@);
    lemma_text_member("Stmt"@, error.stmt, true, "Text"@);
    lemma_text_member("Text"@, error.text, true, "Stmt"@);
    lemma_text_member("Text"@, error.text, true, "Text"@);
    assert(error.stmt.len() == 0 ==> error.stmt =~= Seq::<char>::empty());
    assert(error.text.len() == 0 ==> error.text =~= Seq::<char>::empty());
}

/// Writing changes and reading them back gives the same changes; no
/// changes at all are written as no member at all.
pub proof fn lemma_changes_round_trip(changes: ChangesView)
    ensures
        Changes::from_members(Changes::to_members(changes)) == Some(changes),
        changes == no_changes() ==> Changes::to_members(changes) == Seq::<
            (Seq<char>, JsonView),
        >::empty(),
{
    reveal_strlit("Applied");
    reveal_strlit("Pending");
    reveal_strlit("Error");
    assert("Applied"@.len() == 7 && "Pending"@.len() == 7 && "Error"@.len() == 5);
    assert("Applied"@[0] == 'A' && "Pending"@[0] == 'P');
    let a = texts_member("Applied"@, changes.applied, true);
    let b = texts_member("Pending"@, changes.pending, true);
    let c = optional_member::<StmtError>("Error"@, changes.error, true);
    lemma_member_concat(a + b, c, "Applied"@);
    lemma_member_concat(a, b, "Applied"@);
    lemma_member_concat(a + b, c, "Pending"@);
    lemma_member_concat(a, b, "Pending"@);
    lemma_member_concat(a + b, c, "Error"@);
    lemma_member_concat(a, b, "Error"@);
    lemma_texts_member("Applied"@, changes.applied, true, "Applied"@);
    lemma_texts_member("Applied"@, changes.applied, true, "Pending"@);
    lemma_texts_member("Applied"@, changes.applied, true, "Error"@);
    lemma_texts_member("Pending"@, changes.pending, true, "Applied"@);
    lemma_texts_member("Pending"@, changes.pending, true, "Pending"@);
    lemma_texts_member("Pending"@, changes.pending, true, "Error"@);
    lemma_optional_member::<StmtError>("Error"@, changes.error, true, "Applied"@);
    lemma_optional_member::<StmtError>("Error"@, changes.error, true, "Pending"@);
    lemma_optional_member::<StmtError>("Error"@, changes.error, true, "Error"@);
    lemma_texts_round_trip(changes.applied);
    lemma_texts_round_trip(changes.pending);
    if changes.error is Some {
        lemma_stmt_error_round_trip(changes.error->0);
    }
    assert(changes.applied.len() == 0 ==> changes.applied =~= Seq::<Seq<char>>::empty());
    assert(changes.pending.len() == 0 ==> changes.pending =~= Seq::<Seq<char>>::empty());
    assert(changes == no_changes() ==> Changes::to_members(changes) =~= Seq::<
        (Seq<char>, JsonView),
    >::empty());
}

impl Changes {
    /// No changes at all.
    pub fn none() -> (r: Changes)
        ensures
            r@ == no_changes(),
    {
        let r = Changes { applied: Vec::new(), pending: Vec::new(), error: None };
        assert(r.applied.deep_view() =~= Seq::<Seq<char>>::empty());
        assert(r.pending.deep_view() =~= Seq::<Seq<char>>::empty());
        r
    }
}

/// Whether a count is zero: such a count is left out of the JSON.
pub fn isize_is_zero(val: &isize) -> (r: bool)
    ensures
        r == (*val == 0),
{
    *val == 0
}

/// Whether a flag is off: such a flag is left out of the JSON.
pub fn bool_is_zero(b: &bool) -> (r: bool)
    ensures
        r == !*b,
{
    !*b
}

/// Whether there are no changes at all: such changes are left out of the
/// JSON.
pub fn changes_all_zero(changes: &Changes) -> (r: bool)
    ensures
        r == (changes@ == no_changes()),
{
    let r = changes.applied.len() == 0 && changes.pending.len() == 0 && changes.error.is_none();
    proof {
        if r {
            assert(changes@.applied =~= Seq::<Seq<char>>::empty());
            assert(changes@.pending =~= Seq::<Seq<char>>::empty());
        } else {
            assert(changes@.applied.len() == changes.applied.len());
            assert(changes@.pending.len() == changes.pending.len());
        }
    }
    r
}

/// The result of `schema apply`: the fields of the database stand beside
/// the others in one object.
#[derive(Debug, Clone, PartialEq, Eq)]
pub struct SchemaApply {
    pub env: Env,
    pub changes: Changes,
    pub error: String,
}

/// A `SchemaApply` with its texts and lists as sequences.
pub ghost struct SchemaApplyView {
    pub env: EnvView,
    pub changes: ChangesView,
    pub error: Seq<char>,
}

impl View for SchemaApply {
    type V = SchemaApplyView;

    open spec fn view(&self) -> SchemaApplyView {
        SchemaApplyView { env: self.env@, changes: self.changes@, error: self.error@ }
    }
}

impl DeepView for SchemaApply {
    type V = SchemaApplyView;

    open spec fn deep_view(&self) -> SchemaApplyView {
        self@
    }
}

/// The changes of a schema apply: a missing member stands for no changes.
pub open spec fn changes_field(members: Seq<(Seq<char>, JsonView)>) -> Option<ChangesView> {
    match member(members, "Changes"@) {
        Some(j) => record_of::<Changes>(j),
        None => Some(no_changes()),
    }
}

/// The member of the changes of a schema apply: none where there are no
/// changes at all.
pub open spec fn changes_member(changes: ChangesView) -> Seq<(Seq<char>, JsonView)> {
    if changes == no_changes() {
        Seq::empty()
    } else {
        record_member::<Changes>("Changes"@, changes)
    }
}

impl Record for SchemaApply {
    open spec fn from_members(members: Seq<(Seq<char>, JsonView)>) -> Option<SchemaApplyView> {
        let env = Env::from_members(members);
        let changes = changes_field(members);
        let error = text_field(members, "Error"@, false);
        if env is Some && changes is Some && error is Some {
            Some(SchemaApplyView { env: env->0, changes: changes->0, error: error->0 })
        } else {
            None
        }
    }

    open spec fn to_members(value: SchemaApplyView) -> Seq<(Seq<char>, JsonView)> {
        Env::to_members(value.env)
            + changes_member(value.changes)
            + text_member("Error"@, value.error, true)
    }

    fn decode_members(members: &Vec<(String, Json)>) -> (r: Option<SchemaApply>) {
        let env = Env::decode_members(members)?;
        let changes = match lookup(members, "Changes") {
            Some(j) => decode::<Changes>(j)?,
            None => Changes::none(),
        };
        let error = read_text(members, "Error", false)?;
        Some(SchemaApply { env, changes, error })
    }

    fn encode_members(&self, out: &mut Vec<(String, Json)>) {
        let ghost start = members_view(*out);
        let ghost value = self.deep_view();
        self.env.encode_members(out);
        let ghost written = Env::to_members(value.env);
        if changes_all_zero(&self.changes) {
            put_nothing(out);
        } else {
            put_record::<Changes>(out, "Changes", &self.changes);
        }
        let ghost written = written + changes_member(value.changes);
        assert(members_view(*out) =~= start + written);
        put_text(out, "Error", &self.error, true);
        let ghost written = written + text_member("Error"@, value.error, true);
        assert(members_view(*out) =~= start + written);
    }
}

/// A `migrate apply` that failed, with all that it returned.
#[derive(Debug)]
pub struct MigrateApplyError {
    pub result: Vec<MigrateApply>,
}

impl MigrateApplyError {
    pub fn new(result: Vec<MigrateApply>) -> (r: MigrateApplyError)
        ensures
            r.result == result,
    {
        MigrateApplyError { result }
    }

    /// The error of the last result.
    pub fn err_string(&self) -> (r: String)
        ensures
            r@ == if self.result@.len() == 0 {
                Seq::<char>::empty()
            } else {
                self.result@.last().error@
            },
    {
        let n = self.result.len();
        if n == 0 {
            String::new()
        } else {
            self.result[n - 1].error.clone()
        }
    }
}

/// A `schema apply` that failed, with all that it returned.
#[derive(Debug)]
pub struct SchemaApplyError {
    pub result: Vec<SchemaApply>,
}

impl SchemaApplyError {
    pub fn new(result: Vec<SchemaApply>) -> (r: SchemaApplyError)
        ensures
            r.result == result,
    {
        SchemaApplyError { result }
    }

    /// The error of the last result.
    pub fn err_string(&self) -> (r: String)
        ensures
            r@ == if self.result@.len() == 0 {
                Seq::<char>::empty()
            } else {
                self.result@.last().error@
            },
    {
        let n = self.result.len();
        if n == 0 {
            String::new()
        } else {
            self.result[n - 1].error.clone()
        }
    }
}

} // verus!
