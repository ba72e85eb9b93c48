//! Building one error record field by field and committing it.
use vstd::prelude::*;

use crate::bridge::Diversion;
use crate::severity::{diverting, is_diverting, is_visible, visible};

verus! {

/// One report: where it comes from, how severe it is, and its fields.
pub struct ErrorRecord {
    pub severity: i32,
    pub file: String,
    pub line: u32,
    pub message: Option<String>,
    pub detail: Option<String>,
    pub hint: Option<String>,
    pub code: Option<i32>,
}

/// What an [`ErrorRecord`] holds, with its text as characters.
pub struct RecordView {
    pub severity: i32,
    pub file: Seq<char>,
    pub line: u32,
    pub message: Option<Seq<char>>,
    pub detail: Option<Seq<char>>,
    pub hint: Option<Seq<char>>,
    pub code: Option<i32>,
}

pub open spec fn text_view(t: Option<String>) -> Option<Seq<char>> {
    match t {
        Some(s) => Some(s@),
        None => None,
    }
}

impl View for ErrorRecord {
    type V = RecordView;

    open spec fn view(&self) -> RecordView {
        RecordView {
            severity: self.severity,
            file: self.file@,
            line: self.line,
            message: text_view(self.message),
            detail: text_view(self.detail),
            hint: text_view(self.hint),
            code: self.code,
        }
    }
}

/// Why a field could not be attached.
#[derive(PartialEq, Eq, Structural, Debug, Clone, Copy)]
pub enum ReportError {
    /// No record is open: none was begun, or it was suppressed.
    NotOpen,
    /// The open record already has this field.
    AlreadyAttached,
    /// The text holds a NUL character, which the engine's strings cannot carry.
    Format,
}

/// The text fields of a record.
#[derive(PartialEq, Eq, Structural, Debug, Clone, Copy)]
pub enum TextField {
    Message,
    Detail,
    Hint,
}

/// The side of the engine that receives reports: the lowest level it shows,
/// the record being built, and the records committed so far.
pub struct Reporter {
    min_level: i32,
    open: Option<ErrorRecord>,
    committed: Vec<ErrorRecord>,
}

pub struct ReporterView {
    pub min_level: i32,
    pub open: Option<RecordView>,
    pub committed: Seq<RecordView>,
}

impl View for Reporter {
    type V = ReporterView;

    closed spec fn view(&self) -> ReporterView {
        ReporterView {
            min_level: self.min_level,
            open: match self.open {
                Some(r) => Some(r@),
                None => None,
            },
            committed: self.committed@.map_values(|r: ErrorRecord| r@),
        }
    }
}

/// A record just begun, with no field attached.
pub open spec fn fresh_record(severity: i32, file: Seq<char>, line: u32) -> RecordView {
    RecordView {
        severity,
        file,
        line,
        message: None,
        detail: None,
        hint: None,
        code: None,
    }
}

pub open spec fn has_nul(s: Seq<char>) -> bool {
    s.contains('\0')
}

pub open spec fn text_field(r: RecordView, which: TextField) -> Option<Seq<char>> {
    match which {
        TextField::Message => r.message,
        TextField::Detail => r.detail,
        TextField::Hint => r.hint,
    }
}

pub open spec fn with_text_field(r: RecordView, which: TextField, text: Seq<char>) -> RecordView {
    match which {
        TextField::Message => RecordView { message: Some(text), ..r },
        TextField::Detail => RecordView { detail: Some(text), ..r },
        TextField::Hint => RecordView { hint: Some(text), ..r },
    }
}

/// `begin`: a visible report opens a fresh record; a suppressed one changes nothing.
pub open spec fn begin_spec(m: ReporterView, severity: i32, file: Seq<char>, line: u32) -> (
    ReporterView,
    bool,
) {
    if visible(severity, m.min_level) {
        (ReporterView { open: Some(fresh_record(severity, file, line)), ..m }, true)
    } else {
        (m, false)
    }
}

/// Attaching a text field: it must be the first of its kind and free of NUL.
pub open spec fn attach_text_spec(m: ReporterView, which: TextField, text: Seq<char>) -> (
    ReporterView,
    Result<(), ReportError>,
) {
    match m.open {
        None => (m, Err(ReportError::NotOpen)),
        Some(r) => if text_field(r, which) is Some {
            (m, Err(ReportError::AlreadyAttached))
        } else if has_nul(text) {
            (m, Err(ReportError::Format))
        } else {
            (ReporterView { open: Some(with_text_field(r, which, text)), ..m }, Ok(()))
        },
    }
}

/// Attaching the status code: it must be the first one.
pub open spec fn attach_code_spec(m: ReporterView, code: i32) -> (
    ReporterView,
    Result<(), ReportError>,
) {
    match m.open {
        None => (m, Err(ReportError::NotOpen)),
        Some(r) => if r.code is Some {
            (m, Err(ReportError::AlreadyAttached))
        } else {
            (ReporterView { open: Some(RecordView { code: Some(code), ..r }), ..m }, Ok(()))
        },
    }
}

/// `finish`: the open record is committed once; at a diverting level the
/// caller gets a diversion raised here instead of a normal return.
pub open spec fn finish_spec(m: ReporterView) -> (ReporterView, Result<(), Diversion>) {
    match m.open {
        None => (m, Ok(())),
        Some(r) => (
            ReporterView { open: None, committed: m.committed.push(r), ..m },
            if diverting(r.severity) {
                Err(Diversion::RaisedHere)
            } else {
                Ok(())
            },
        ),
    }
}

/// The hint that every plain message report carries.
pub open spec fn elog_hint() -> Seq<char> {
    "thehint"@
}

/// Reporting one plain message: a suppressed report changes nothing, whatever
/// its text; a visible one whose file name or message holds NUL is refused
/// with a format error before anything is opened; otherwise the report is
/// begun, given the message and the hint, and finished.
pub open spec fn elog_spec(m: ReporterView, file: Seq<char>, line: u32, severity: i32, message: Seq<char>) -> (
    ReporterView,
    Result<Result<(), Diversion>, ReportError>,
) {
    if !visible(severity, m.min_level) {
        (m, Ok(Ok(())))
    } else if has_nul(file) || has_nul(message) {
        (m, Err(ReportError::Format))
    } else {
        let opened = begin_spec(m, severity, file, line).0;
        let with_message = attach_text_spec(opened, TextField::Message, message).0;
        let with_hint = attach_text_spec(with_message, TextField::Hint, elog_hint()).0;
        let (done, r) = finish_spec(with_hint);
        (done, Ok(r))
    }
}

/// Attaches each field that is given, in the order message, detail, hint, code.
pub open spec fn attach_all(
    m: ReporterView,
    message: Option<Seq<char>>,
    detail: Option<Seq<char>>,
    hint: Option<Seq<char>>,
    code: Option<i32>,
) -> ReporterView {
    let m1 = match message {
        Some(t) => attach_text_spec(m, TextField::Message, t).0,
        None => m,
    };
    let m2 = match detail {
        Some(t) => attach_text_spec(m1, TextField::Detail, t).0,
        None => m1,
    };
    let m3 = match hint {
        Some(t) => attach_text_spec(m2, TextField::Hint, t).0,
        None => m2,
    };
    match code {
        Some(c) => attach_code_spec(m3, c).0,
        None => m3,
    }
}

pub open spec fn encodable(t: Option<Seq<char>>) -> bool {
    match t {
        Some(s) => !has_nul(s),
        None => true,
    }
}

/// A visible report below the diverting threshold, begun, given any fields
/// that can be encoded and finished, commits exactly one record holding
/// exactly those fields, and returns normally.
pub proof fn lemma_report_commits_once(
    m: ReporterView,
    severity: i32,
    file: Seq<char>,
    line: u32,
    message: Option<Seq<char>>,
    detail: Option<Seq<char>>,
    hint: Option<Seq<char>>,
    code: Option<i32>,
)
    requires
        m.open is None,
        visible(severity, m.min_level),
        !diverting(severity),
        encodable(message),
        encodable(detail),
        encodable(hint),
    ensures
        ({
            let (opened, proceeds) = begin_spec(m, severity, file, line);
            let (done, r) = finish_spec(attach_all(opened, message, detail, hint, code));
            &&& proceeds
            &&& r == Ok::<(), Diversion>(())
            &&& done.open is None
            &&& done.min_level == m.min_level
            &&& done.committed == m.committed.push(
                RecordView { severity, file, line, message, detail, hint, code },
            )
        }),
{
    let opened = begin_spec(m, severity, file, line).0;
    let done = attach_all(opened, message, detail, hint, code);
    assert(done.open == Some(RecordView { severity, file, line, message, detail, hint, code }));
}

/// A report at or above the diverting threshold always proceeds, and
/// whatever fields are attached, or fail to attach, finishing it commits it
/// and ends in a diversion raised here, never in a normal return.
pub proof fn lemma_diverting_report_raises(
    m: ReporterView,
    severity: i32,
    file: Seq<char>,
    line: u32,
    message: Option<Seq<char>>,
    detail: Option<Seq<char>>,
    hint: Option<Seq<char>>,
    code: Option<i32>,
)
    requires
        m.open is None,
        diverting(severity),
    ensures
        ({
            let (opened, proceeds) = begin_spec(m, severity, file, line);
            let built = attach_all(opened, message, detail, hint, code);
            let (done, r) = finish_spec(built);
            &&& proceeds
            &&& r == Err::<(), Diversion>(Diversion::RaisedHere)
            &&& done.open is None
            &&& done.committed == m.committed.push(built.open->Some_0)
        }),
{
    let opened = begin_spec(m, severity, file, line).0;
    let built = attach_all(opened, message, detail, hint, code);
    assert(built.open is Some && built.open->Some_0.severity == severity);
}

/// Beginning a suppressed report, any number of times, leaves the reporter
/// as it was: nothing is opened or committed.
pub proof fn lemma_suppressed_begin_is_inert(
    m: ReporterView,
    severity: i32,
    file: Seq<char>,
    line: u32,
    times: nat,
)
    requires
        m.open is None,
        !visible(severity, m.min_level),
    ensures
        begin_repeated(m, severity, file, line, times) == m,
    decreases times,
{
    if times > 0 {
        lemma_suppressed_begin_is_inert(m, severity, file, line, (times - 1) as nat);
    }
}

/// Beginning the same report `times` times over, with no finish between.
pub open spec fn begin_repeated(m: ReporterView, severity: i32, file: Seq<char>, line: u32, times: nat) -> ReporterView
    decreases times,
{
    if times == 0 {
        m
    } else {
        begin_spec(begin_repeated(m, severity, file, line, (times - 1) as nat), severity, file, line).0
    }
}

/// Reports `fmt` at `elevel` from `filename` and `lineno`, with the fixed
/// hint: begins the report, attaches the message and the hint, and finishes
/// it. A suppressed report does nothing. Text holding NUL is refused with
/// `ReportError::Format`, leaving no record open or committed.
pub fn elog_internal(reporter: &mut Reporter, filename: String, lineno: u32, elevel: i32, fmt: String) -> (r: Result<Result<(), Diversion>, ReportError>)
    requires
        old(reporter)@.open is None,
    ensures
        (final(reporter)@, r) == elog_spec(old(reporter)@, filename@, lineno, elevel, fmt@),
{
    if !is_visible(elevel, reporter.min_level()) {
        return Ok(Ok(()));
    }
    if contains_nul(filename.as_str()) || contains_nul(fmt.as_str()) {
        return Err(ReportError::Format);
    }
    let proceeds = reporter.begin(elevel, filename, lineno);
    assert(proceeds);
    let with_message = reporter.attach_message(fmt);
    assert(with_message is Ok);
    let hint = String::from_str("thehint");
    proof {
        reveal_strlit("thehint");
        assert(!has_nul(hint@));
    }
    let with_hint = reporter.attach_hint(hint);
    assert(with_hint is Ok);
    Ok(reporter.finish())
}

/// A plain message report below the diverting threshold that is shown and
/// holds no NUL returns normally, committing exactly one record with the
/// message and the hint; at a diverting level it commits that record and
/// ends in a diversion raised here.
pub proof fn lemma_elog_outcome(
    m: ReporterView,
    file: Seq<char>,
    line: u32,
    severity: i32,
    message: Seq<char>,
)
    requires
        m.open is None,
        visible(severity, m.min_level),
        !has_nul(file),
        !has_nul(message),
    ensures
        ({
            let (done, r) = elog_spec(m, file, line, severity, message);
            &&& done.open is None
            &&& done.committed == m.committed.push(
                RecordView {
                    severity,
                    file,
                    line,
                    message: Some(message),
                    detail: None,
                    hint: Some(elog_hint()),
                    code: None,
                },
            )
            &&& r == if diverting(severity) {
                Ok::<Result<(), Diversion>, ReportError>(Err(Diversion::RaisedHere))
            } else {
                Ok(Ok(()))
            }
        }),
{
    reveal_strlit("thehint");
    assert(!has_nul(elog_hint()));
}

/// Whether `s` holds a NUL character.
fn contains_nul(s: &str) -> (r: bool)
    ensures
        r == has_nul(s@),
{
    let n = s.unicode_len();
    let mut i: usize = 0;
    while i < n
        invariant
            n == s@.len(),
            i <= n,
            forall|j: int| 0 <= j < i ==> s@[j] != '\0',
        decreases n - i,
    {
        if s.get_char(i) == '\0' {
            return true;
        }
        i += 1;
    }
    false
}

impl Reporter {
    /// A reporter that shows levels from `min_level` up, with nothing open or committed.
    pub fn new(min_level: i32) -> (r: Reporter)
        ensures
            r@.min_level == min_level,
            r@.open is None,
            r@.committed == Seq::<RecordView>::empty(),
    {
        let r = Reporter { min_level, open: None, committed: Vec::new() };
        assert(r@.committed =~= Seq::<RecordView>::empty());
        r
    }

    pub fn min_level(&self) -> (r: i32)
        ensures
            r == self@.min_level,
    {
        self.min_level
    }

    /// Whether a record is being built.
    pub fn is_open(&self) -> (r: bool)
        ensures
            r == self@.open is Some,
    {
        self.open.is_some()
    }

    /// The records committed so far, oldest first.
    pub fn committed(&self) -> (r: &Vec<ErrorRecord>)
        ensures
            r@.map_values(|e: ErrorRecord| e@) == self@.committed,
    {
        &self.committed
    }

    /// Hands over the records committed so far, oldest first, and forgets them.
    pub fn take_committed(&mut self) -> (r: Vec<ErrorRecord>)
        ensures
            r@.map_values(|e: ErrorRecord| e@) == old(self)@.committed,
            final(self)@.committed == Seq::<RecordView>::empty(),
            final(self)@.open == old(self)@.open,
            final(self)@.min_level == old(self)@.min_level,
    {
        let mut out: Vec<ErrorRecord> = Vec::new();
        std::mem::swap(&mut out, &mut self.committed);
        assert(self.committed@.map_values(|e: ErrorRecord| e@) =~= Seq::<RecordView>::empty());
        out
    }

    /// Starts a report at `severity` from `file` and `line`. Returns whether it
    /// proceeds; a suppressed report allocates nothing and needs no further call.
    /// The engine's strings cannot carry NUL, so the file name must hold none.
    pub fn begin(&mut self, severity: i32, file: String, line: u32) -> (r: bool)
        requires
            old(self)@.open is None,
            !has_nul(file@),
        ensures
            (final(self)@, r) == begin_spec(old(self)@, severity, file@, line),
    {
        if is_visible(severity, self.min_level) {
            self.open = Some(
                ErrorRecord {
                    severity,
                    file,
                    line,
                    message: None,
                    detail: None,
                    hint: None,
                    code: None,
                },
            );
            true
        } else {
            false
        }
    }
    /// Attaches a text field to the open record.
    fn attach_text(&mut self, which: TextField, text: String) -> (r: Result<(), ReportError>)
        ensures
            (final(self)@, r) == attach_text_spec(old(self)@, which, text@),
    {
        let opened = self.open.take();
        match opened {
            None => Err(ReportError::NotOpen),
            Some(mut rec) => {
                let taken = match which {
                    TextField::Message => rec.message.is_some(),
                    TextField::Detail => rec.detail.is_some(),
                    TextField::Hint => rec.hint.is_some(),
                };
                if taken {
                    self.open = Some(rec);
                    Err(ReportError::AlreadyAttached)
                } else if contains_nul(text.as_str()) {
                    self.open = Some(rec);
                    Err(ReportError::Format)
                } else {
                    match which {
                        TextField::Message => rec.message = Some(text),
                        TextField::Detail => rec.detail = Some(text),
                        TextField::Hint => rec.hint = Some(text),
                    }
                    self.open = Some(rec);
                    Ok(())
                }
            },
        }
    }

    /// Attaches the primary message, already formatted.
    pub fn attach_message(&mut self, text: String) -> (r: Result<(), ReportError>)
        ensures
            (final(self)@, r) == attach_text_spec(old(self)@, TextField::Message, text@),
    {
        self.attach_text(TextField::Message, text)
    }

    /// Attaches the detail text, already formatted.
    pub fn attach_detail(&mut self, text: String) -> (r: Result<(), ReportError>)
        ensures
            (final(self)@, r) == attach_text_spec(old(self)@, TextField::Detail, text@),
    {
        self.attach_text(TextField::Detail, text)
    }

    /// Attaches the hint text, already formatted.
    pub fn attach_hint(&mut self, text: String) -> (r: Result<(), ReportError>)
        ensures
            (final(self)@, r) == attach_text_spec(old(self)@, TextField::Hint, text@),
    {
        self.attach_text(TextField::Hint, text)
    }

    /// Attaches a packed status code.
    pub fn attach_code(&mut self, code: i32) -> (r: Result<(), ReportError>)
        ensures
            (final(self)@, r) == attach_code_spec(old(self)@, code),
    {
        let opened = self.open.take();
        match opened {
            None => Err(ReportError::NotOpen),
            Some(mut rec) => {
                if rec.code.is_some() {
                    self.open = Some(rec);
                    Err(ReportError::AlreadyAttached)
                } else {
                    rec.code = Some(code);
                    self.open = Some(rec);
                    Ok(())
                }
            },
        }
    }

    /// Commits the open record. Below the diverting threshold this returns
    /// normally; at or above it the caller gets `Err(Diversion::RaisedHere)`
    /// and must leave its region at once.
    pub fn finish(&mut self) -> (r: Result<(), Diversion>)
        ensures
            (final(self)@, r) == finish_spec(old(self)@),
    {
        let opened = self.open.take();
        match opened {
            None => Ok(()),
            Some(rec) => {
                let severity = rec.severity;
                let ghost before = self.committed@;
                self.committed.push(rec);
                assert(self.committed@.map_values(|e: ErrorRecord| e@) =~= before.map_values(
                    |e: ErrorRecord| e@,
                ).push(rec@));
                if is_diverting(severity) {
                    Err(Diversion::RaisedHere)
                } else {
                    Ok(())
                }
            },
        }
    }
}

} // verus!
