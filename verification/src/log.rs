//! Structured log records and the fan-in of a service's output streams.

use vstd::prelude::*;
use vstd::string::StringExecFns;

verus! {

/// Severity of a record.
#[derive(Clone, Copy, Debug, PartialEq, Eq, Structural)]
pub enum Level {
    Info,
    Warning,
    Error,
}

/// Which of a service's two output streams a line came from.
#[derive(Clone, Copy, Debug, PartialEq, Eq, Structural)]
pub enum Fd {
    Stdout,
    Stderr,
}

/// One call to the log sink: a severity, a message, and the structured
/// fields `name`, `code` and `error` where they apply.
#[derive(Clone, Debug, PartialEq, Eq)]
pub struct LogRecord {
    pub level: Level,
    pub message: String,
    pub name: Option<String>,
    pub code: Option<String>,
    pub error: Option<String>,
}

/// Mathematical value of a [`LogRecord`].
pub ghost struct LogRecordModel {
    pub level: Level,
    pub message: Seq<char>,
    pub name: Option<Seq<char>>,
    pub code: Option<Seq<char>>,
    pub error: Option<Seq<char>>,
}

/// View of an optional string.
pub open spec fn text_of(field: Option<String>) -> Option<Seq<char>> {
    match field {
        Some(s) => Some(s@),
        None => None,
    }
}

impl View for LogRecord {
    type V = LogRecordModel;

    open spec fn view(&self) -> LogRecordModel {
        LogRecordModel {
            level: self.level,
            message: self.message@,
            name: text_of(self.name),
            code: text_of(self.code),
            error: text_of(self.error),
        }
    }
}

/// Severity under which a line of the given stream is logged.
pub open spec fn stream_level(fd: Fd) -> Level {
    match fd {
        Fd::Stdout => Level::Info,
        Fd::Stderr => Level::Warning,
    }
}

/// The record for one line of output: the line is the message, the service
/// is the `name` field, the stream decides the severity.
pub open spec fn line_record(name: Seq<char>, fd: Fd, text: Seq<char>) -> LogRecordModel {
    LogRecordModel { level: stream_level(fd), message: text, name: Some(name), code: None, error: None }
}

/// What one read of a stream yields to the log: a record for a line, nothing
/// for a failed read.
pub open spec fn read_record(name: Seq<char>, fd: Fd, item: Result<String, String>) -> Option<
    LogRecordModel,
> {
    match item {
        Ok(text) => Some(line_record(name, fd, text@)),
        Err(_) => None,
    }
}

/// Tags one read of a service's stream. A line becomes a record; a failed
/// read yields `None`, after which the stream is read no further.
pub fn log_line(name: &str, fd: Fd, item: &Result<String, String>) -> (out: Option<LogRecord>)
    ensures
        text_of_record(out) == read_record(name@, fd, *item),
{
    match item {
        Ok(text) => {
            let level = match fd {
                Fd::Stdout => Level::Info,
                Fd::Stderr => Level::Warning,
            };
            Some(
                LogRecord {
                    level,
                    message: text.clone(),
                    name: Some(String::from_str(name)),
                    code: None,
                    error: None,
                },
            )
        },
        Err(_) => None,
    }
}

/// View of an optional record.
pub open spec fn text_of_record(record: Option<LogRecord>) -> Option<LogRecordModel> {
    match record {
        Some(r) => Some(r@),
        None => None,
    }
}

/// Whether `count` is where the reading of `items` ends: every read before it
/// yielded a line, and it is the end of the stream or its first failed read.
pub open spec fn stream_end(items: Seq<Result<String, String>>, count: int) -> bool {
    &&& 0 <= count <= items.len()
    &&& forall|i: int| 0 <= i < count ==> (#[trigger] items[i]) is Ok
    &&& count < items.len() ==> items[count] is Err
}

/// Fans one stream of a service into the log: one record per line, in the
/// order in which the lines were read, up to the end of the stream or the
/// first failed read.
pub fn log_stream(items: &Vec<Result<String, String>>, name: &str, fd: Fd) -> (out: Vec<LogRecord>)
    ensures
        stream_end(items@, out@.len() as int),
        forall|i: int|
            0 <= i < out@.len() ==> (#[trigger] out@[i])@ == line_record(
                name@,
                fd,
                items@[i]->Ok_0@,
            ),
{
    let mut out: Vec<LogRecord> = Vec::new();
    let mut at: usize = 0;
    while at < items.len()
        invariant
            at == out@.len(),
            at <= items@.len(),
            forall|i: int| 0 <= i < at ==> (#[trigger] items@[i]) is Ok,
            forall|i: int|
                0 <= i < at ==> (#[trigger] out@[i])@ == line_record(name@, fd, items@[i]->Ok_0@),
        decreases items@.len() - at,
    {
        match log_line(name, fd, &items[at]) {
            Some(record) => {
                out.push(record);
                at = at + 1;
            },
            None => {
                return out;
            },
        }
    }
    out
}

/// The lines of a stream that reach the log: those read before its end.
pub open spec fn logged_lines(items: Seq<Result<String, String>>, count: int) -> Seq<Seq<char>> {
    Seq::new(count as nat, |i: int| items[i]->Ok_0@)
}

/// The reading of a stream ends in one place only, so what `log_stream`
/// returns is determined by what was read.
pub proof fn lemma_stream_end_unique(items: Seq<Result<String, String>>, a: int, b: int)
    requires
        stream_end(items, a),
        stream_end(items, b),
    ensures
        a == b,
{
    if a < b {
        assert(items[a] is Ok);
    } else if b < a {
        assert(items[b] is Ok);
    }
}

/// Within one stream of one service, the records come in the order in
/// which the lines were read: the messages of the records are the lines
/// read before the end of the stream, one for one, each under the name of
/// the service and the severity of the stream.
pub proof fn lemma_stream_order(
    items: Seq<Result<String, String>>,
    name: Seq<char>,
    fd: Fd,
    records: Seq<LogRecordModel>,
)
    requires
        stream_end(items, records.len() as int),
        forall|i: int|
            0 <= i < records.len() ==> #[trigger] records[i] == line_record(
                name,
                fd,
                items[i]->Ok_0@,
            ),
    ensures
        Seq::new(records.len(), |i: int| records[i].message) == logged_lines(
            items,
            records.len() as int,
        ),
        forall|i: int, j: int|
            0 <= i < j < records.len() ==> (#[trigger] records[i]).message == items[i]->Ok_0@ && (
            #[trigger] records[j]).message == items[j]->Ok_0@,
        forall|i: int|
            0 <= i < records.len() ==> (#[trigger] records[i]).name == Some(name) && records[i].level
                == stream_level(fd),
{
    assert(Seq::new(records.len(), |i: int| records[i].message) =~= logged_lines(
        items,
        records.len() as int,
    ));
}

} // verus!
