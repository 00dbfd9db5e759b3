//! The logging side of the exchange: levels and their files, the per-level batching of
//! records, retention, the record format, and the per-auction bid log.
use vstd::prelude::*;
use crate::json::{json_quoted, json_string};

verus! {

/// The severity of a log record.
#[derive(PartialEq, Eq, Structural, Clone, Copy, Debug)]
pub enum Level {
    Trace,
    Debug,
    Info,
    Warn,
    Error,
}

/// How many levels there are.
pub const LEVEL_COUNT: usize = 5;

/// How long log files are kept, in hours.
pub const RETENTION_HOURS: u64 = 72;

/// The offset of the exchange's clock from UTC, in seconds (UTC+08:00).
pub const CLOCK_OFFSET_SECS: i32 = 28_800;

pub open spec fn level_index(l: Level) -> int {
    match l {
        Level::Trace => 0,
        Level::Debug => 1,
        Level::Info => 2,
        Level::Warn => 3,
        Level::Error => 4,
    }
}

pub open spec fn level_name(l: Level) -> Seq<char> {
    match l {
        Level::Trace => "TRACE"@,
        Level::Debug => "DEBUG"@,
        Level::Info => "INFO"@,
        Level::Warn => "WARN"@,
        Level::Error => "ERROR"@,
    }
}

pub open spec fn level_file_stem(l: Level) -> Seq<char> {
    match l {
        Level::Trace => "trace"@,
        Level::Debug => "debug"@,
        Level::Info => "info"@,
        Level::Warn => "warn"@,
        Level::Error => "error"@,
    }
}

impl Level {
    /// The level's position, from `Trace` (0) to `Error` (4).
    pub fn index(&self) -> (r: usize)
        ensures
            r == level_index(*self),
    {
        match self {
            Level::Trace => 0,
            Level::Debug => 1,
            Level::Info => 2,
            Level::Warn => 3,
            Level::Error => 4,
        }
    }

    /// The level at position `i`.
    pub fn from_index(i: usize) -> (r: Option<Level>)
        ensures
            r is Some <==> i < LEVEL_COUNT,
            r matches Some(l) ==> level_index(l) == i,
    {
        if i == 0 {
            Some(Level::Trace)
        } else if i == 1 {
            Some(Level::Debug)
        } else if i == 2 {
            Some(Level::Info)
        } else if i == 3 {
            Some(Level::Warn)
        } else if i == 4 {
            Some(Level::Error)
        } else {
            None
        }
    }

    /// The level's name, in capitals.
    pub fn name(&self) -> (r: &'static str)
        ensures
            r@ == level_name(*self),
    {
        match self {
            Level::Trace => "TRACE",
            Level::Debug => "DEBUG",
            Level::Info => "INFO",
            Level::Warn => "WARN",
            Level::Error => "ERROR",
        }
    }

    /// The level named `s` (in capitals), if any.
    pub fn parse(s: &str) -> (r: Option<Level>)
        ensures
            r matches Some(l) ==> level_name(l) == s@,
            r is None ==> forall|l: Level| level_name(l) != s@,
    {
        proof {
            reveal_strlit("TRACE");
            reveal_strlit("DEBUG");
            reveal_strlit("INFO");
            reveal_strlit("WARN");
            reveal_strlit("ERROR");
        }
        let t = String::from_str(s);
        if t == String::from_str("TRACE") {
            Some(Level::Trace)
        } else if t == String::from_str("DEBUG") {
            Some(Level::Debug)
        } else if t == String::from_str("INFO") {
            Some(Level::Info)
        } else if t == String::from_str("WARN") {
            Some(Level::Warn)
        } else if t == String::from_str("ERROR") {
            Some(Level::Error)
        } else {
            None
        }
    }

    /// The level's name in lower case, as it appears in file names.
    pub fn file_stem(&self) -> (r: &'static str)
        ensures
            r@ == level_file_stem(*self),
    {
        match self {
            Level::Trace => "trace",
            Level::Debug => "debug",
            Level::Info => "info",
            Level::Warn => "warn",
            Level::Error => "error",
        }
    }
}

/// The file of a level's records: `<prefix>_<level>.json`.
pub fn log_file_name(prefix: &str, level: Level) -> (r: String)
    ensures
        r@ == prefix@ + "_"@ + level_file_stem(level) + ".json"@,
{
    let mut s = String::from_str(prefix);
    s.append("_");
    s.append(level.file_stem());
    s.append(".json");
    s
}

/// A record as queued for the writer.
pub struct LogEntry {
    pub level: String,
    pub content: String,
}

/// The JSON line of a record.
pub open spec fn record_text(timestamp: Seq<char>, level: Level, message: Seq<char>) -> Seq<char> {
    "{\"timestamp\":"@ + json_quoted(timestamp) + ",\"level\":"@ + json_quoted(level_name(level))
        + ",\"message\":"@ + json_quoted(message) + "}"@
}

/// The JSON line of a record: its timestamp, level and message as string members.
pub fn format_record(timestamp: &str, level: Level, message: &str) -> (r: String)
    ensures
        r@ == record_text(timestamp@, level, message@),
{
    let ts = json_string(timestamp);
    let lv = json_string(level.name());
    let msg = json_string(message);
    let mut s = String::from_str("{\"timestamp\":");
    s.append(ts.as_str());
    s.append(",\"level\":");
    s.append(lv.as_str());
    s.append(",\"message\":");
    s.append(msg.as_str());
    s.append("}");
    s
}

/// The JSON line of a call-chain record.
pub open spec fn message_record_text(timestamp: Seq<char>, message: Seq<char>) -> Seq<char> {
    "{\"timestamp\":"@ + json_quoted(timestamp) + ",\"message\":"@ + json_quoted(message) + "}"@
}

/// The JSON line of a call-chain record: its timestamp and message as string members.
pub fn format_message_record(timestamp: &str, message: &str) -> (r: String)
    ensures
        r@ == message_record_text(timestamp@, message@),
{
    let ts = json_string(timestamp);
    let msg = json_string(message);
    let mut s = String::from_str("{\"timestamp\":");
    s.append(ts.as_str());
    s.append(",\"message\":");
    s.append(msg.as_str());
    s.append("}");
    s
}

/// The lines joined, each ended by a newline.
pub open spec fn batch_text(lines: Seq<String>) -> Seq<char>
    decreases lines.len(),
{
    if lines.len() == 0 {
        Seq::empty()
    } else {
        batch_text(lines.drop_last()) + lines.last()@ + seq!['\n']
    }
}

/// The text written for a batch: every line followed by a newline.
pub fn join_batch(lines: &Vec<String>) -> (r: String)
    ensures
        r@ == batch_text(lines@),
{
    let mut out = String::new();
    let mut i: usize = 0;
    while i < lines.len()
        invariant
            i <= lines@.len(),
            out@ == batch_text(lines@.take(i as int)),
        decreases lines.len() - i,
    {
        assert(lines@.take(i + 1).drop_last() =~= lines@.take(i as int));
        assert(lines@.take(i + 1).last() == lines@[i as int]);
        proof {
            reveal_strlit("\n");
        }
        out.append(lines[i].as_str());
        out.append("\n");
        assert(out@ =~= batch_text(lines@.take(i + 1)));
        i = i + 1;
    }
    assert(lines@.take(i as int) =~= lines@);
    out
}

/// Whether a file last changed `age_secs` seconds ago is past a retention of
/// `retention_hours` hours.
pub fn is_expired(age_secs: u64, retention_hours: u64) -> (r: bool)
    ensures
        r == (age_secs as int > retention_hours as int * 3600),
{
    (age_secs as u128) > (retention_hours as u128) * 3600
}

/// Records waiting to be written, one buffer per level; a buffer is handed out whole as
/// soon as it holds `batch_size` records.
pub struct LevelBuffers {
    pub batch_size: usize,
    pub pending: Vec<Vec<String>>,
}

impl LevelBuffers {
    /// One buffer per level, each shorter than a batch.
    pub open spec fn wf(&self) -> bool {
        &&& self.batch_size >= 1
        &&& self.pending@.len() == LEVEL_COUNT
        &&& forall|i: int| 0 <= i < LEVEL_COUNT ==> #[trigger] self.pending@[i]@.len() < self.batch_size
    }

    pub fn new(batch_size: usize) -> (r: LevelBuffers)
        requires
            batch_size >= 1,
        ensures
            r.wf(),
            r.batch_size == batch_size,
            forall|i: int| 0 <= i < LEVEL_COUNT ==> #[trigger] r.pending@[i]@.len() == 0,
    {
        let mut pending: Vec<Vec<String>> = Vec::new();
        let mut i: usize = 0;
        while i < LEVEL_COUNT
            invariant
                i <= LEVEL_COUNT,
                pending@.len() == i,
                forall|j: int| 0 <= j < i ==> #[trigger] pending@[j]@.len() == 0,
            decreases LEVEL_COUNT - i,
        {
            pending.push(Vec::new());
            i = i + 1;
        }
        LevelBuffers { batch_size, pending }
    }

    /// Queues `line` at `level`; when that level's buffer reaches a full batch, the batch is
    /// handed back and the buffer starts over.
    pub fn push(&mut self, level: Level, line: String) -> (r: Option<Vec<String>>)
        requires
            old(self).wf(),
        ensures
            final(self).wf(),
            final(self).batch_size == old(self).batch_size,
            ({
                let i = level_index(level);
                let grown = old(self).pending@[i]@.push(line);
                &&& grown.len() >= old(self).batch_size ==> (r matches Some(b) && b@ == grown
                    && final(self).pending@[i]@.len() == 0)
                &&& grown.len() < old(self).batch_size ==> r is None && final(self).pending@[i]@
                    == grown
                &&& forall|j: int|
                    0 <= j < LEVEL_COUNT && j != i ==> #[trigger] final(self).pending@[j] == old(
                        self,
                    ).pending@[j]
            }),
    {
        let i = level.index();
        let mut buf = self.pending.remove(i);
        buf.push(line);
        if buf.len() >= self.batch_size {
            self.pending.insert(i, Vec::new());
            Some(buf)
        } else {
            self.pending.insert(i, buf);
            None
        }
    }

    /// Hands back every buffer (in level order, empty ones included) and empties them all.
    pub fn drain(&mut self) -> (r: Vec<Vec<String>>)
        requires
            old(self).wf(),
        ensures
            final(self).wf(),
            final(self).batch_size == old(self).batch_size,
            r@ == old(self).pending@,
            forall|i: int| 0 <= i < LEVEL_COUNT ==> #[trigger] final(self).pending@[i]@.len() == 0,
    {
        let mut taken = LevelBuffers::new(self.batch_size).pending;
        core::mem::swap(&mut self.pending, &mut taken);
        taken
    }
}

/// Relies on chrono's `FixedOffset::east_opt`, `Utc::now`, `with_timezone` and `to_rfc3339`:
/// the current time at UTC offset `offset_secs`, in RFC 3339, when the offset is valid.
#[verifier::external_body]
fn now_rfc3339(offset_secs: i32) -> (r: Option<String>)
    ensures
        -86_400 < offset_secs < 86_400 <==> r is Some,
        r matches Some(t) ==> t@.len() > 0,
{
    match chrono::FixedOffset::east_opt(offset_secs) {
        Some(tz) => Some(chrono::Utc::now().with_timezone(&tz).to_rfc3339()),
        None => None,
    }
}

/// The current time on the exchange's clock (UTC+08:00), in RFC 3339.
pub fn timestamp_now() -> (r: String)
    ensures
        r@.len() > 0,
{
    match now_rfc3339(CLOCK_OFFSET_SECS) {
        Some(t) => t,
        None => String::new(),
    }
}

/// One DSP's part in an auction, as the bid log records it.
pub struct DspBidLog {
    pub dsp_name: String,
    pub dsp_url: String,
    /// In micro-units.
    pub bid_price: u64,
    pub status: String,
}

/// The log of one auction for one SSP request.
pub struct AdxLog {
    pub timestamp: String,
    pub log_type: String,
    pub ssp_uuid: String,
    pub request_id: String,
    pub bid_attempts: usize,
    pub status: String,
    pub winning_dsp: Option<String>,
    /// In micro-units.
    pub winning_price: u64,
    pub dsp_bidding_log: Vec<DspBidLog>,
}

impl AdxLog {
    /// A failed auction with no attempts yet, stamped now.
    pub fn new(ssp_uuid: &str, request_id: &str) -> (r: AdxLog)
        ensures
            r.log_type@ == "adx_bid_request"@,
            r.ssp_uuid@ == ssp_uuid@,
            r.request_id@ == request_id@,
            r.bid_attempts == 0,
            r.status@ == "failure"@,
            r.winning_dsp is None,
            r.winning_price == 0,
            r.dsp_bidding_log@.len() == 0,
    {
        AdxLog {
            timestamp: timestamp_now(),
            log_type: String::from_str("adx_bid_request"),
            ssp_uuid: String::from_str(ssp_uuid),
            request_id: String::from_str(request_id),
            bid_attempts: 0,
            status: String::from_str("failure"),
            winning_dsp: None,
            winning_price: 0,
            dsp_bidding_log: Vec::new(),
        }
    }

    /// Records one DSP's bid and counts the attempt.
    pub fn add_dsp_bid_log(&mut self, dsp_name: &str, dsp_url: &str, bid_price: u64, status: &str)
        requires
            old(self).bid_attempts < usize::MAX,
        ensures
            final(self).bid_attempts == old(self).bid_attempts + 1,
            final(self).dsp_bidding_log@.len() == old(self).dsp_bidding_log@.len() + 1,
            final(self).dsp_bidding_log@.drop_last() == old(self).dsp_bidding_log@,
            final(self).dsp_bidding_log@.last().dsp_name@ == dsp_name@,
            final(self).dsp_bidding_log@.last().dsp_url@ == dsp_url@,
            final(self).dsp_bidding_log@.last().bid_price == bid_price,
            final(self).dsp_bidding_log@.last().status@ == status@,
            final(self).timestamp == old(self).timestamp,
            final(self).log_type == old(self).log_type,
            final(self).ssp_uuid == old(self).ssp_uuid,
            final(self).request_id == old(self).request_id,
            final(self).status == old(self).status,
            final(self).winning_dsp == old(self).winning_dsp,
            final(self).winning_price == old(self).winning_price,
    {
        self.dsp_bidding_log.push(
            DspBidLog {
                dsp_name: String::from_str(dsp_name),
                dsp_url: String::from_str(dsp_url),
                bid_price,
                status: String::from_str(status),
            },
        );
        self.bid_attempts = self.bid_attempts + 1;
        assert(self.dsp_bidding_log@.drop_last() =~= old(self).dsp_bidding_log@);
    }

    /// Marks the auction won by `dsp_name` at `price`.
    pub fn set_winner(&mut self, dsp_name: &str, price: u64)
        ensures
            final(self).status@ == "success"@,
            final(self).winning_dsp matches Some(d) && d@ == dsp_name@,
            final(self).winning_price == price,
            final(self).bid_attempts == old(self).bid_attempts,
            final(self).dsp_bidding_log == old(self).dsp_bidding_log,
            final(self).timestamp == old(self).timestamp,
            final(self).log_type == old(self).log_type,
            final(self).ssp_uuid == old(self).ssp_uuid,
            final(self).request_id == old(self).request_id,
    {
        self.status = String::from_str("success");
        self.winning_dsp = Some(String::from_str(dsp_name));
        self.winning_price = price;
    }
}

} // verus!
