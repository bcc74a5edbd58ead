use vstd::prelude::*;
use crate::error::{detailed, detailed_message, Error, ErrorView};

verus! {

/// A Redis command on a delta counter.
pub enum CounterCommand {
    /// `INCRBY key by`, answered by the new count.
    Increment { key: String, by: u32 },
    /// `EXPIRE key seconds`, answered by an acknowledgement.
    Expire { key: String, seconds: i64 },
    /// `SET key value`, answered by an acknowledgement.
    Write { key: String, value: u32 },
    /// `DEL key`, answered by an acknowledgement.
    Delete { key: String },
    /// `GET key`, answered by the stored count, if any.
    Get { key: String },
}

/// A `CounterCommand` with its key taken as characters.
pub enum CounterCommandView {
    Increment { key: Seq<char>, by: u32 },
    Expire { key: Seq<char>, seconds: i64 },
    Write { key: Seq<char>, value: u32 },
    Delete { key: Seq<char> },
    Get { key: Seq<char> },
}

impl View for CounterCommand {
    type V = CounterCommandView;

    open spec fn view(&self) -> CounterCommandView {
        match self {
            CounterCommand::Increment { key, by } => CounterCommandView::Increment {
                key: key@,
                by: *by,
            },
            CounterCommand::Expire { key, seconds } => CounterCommandView::Expire {
                key: key@,
                seconds: *seconds,
            },
            CounterCommand::Write { key, value } => CounterCommandView::Write {
                key: key@,
                value: *value,
            },
            CounterCommand::Delete { key } => CounterCommandView::Delete { key: key@ },
            CounterCommand::Get { key } => CounterCommandView::Get { key: key@ },
        }
    }
}

/// A successful reply to a `CounterCommand`.
#[derive(Clone, Copy, Debug, PartialEq, Eq, Structural)]
pub enum CommandReply {
    /// The count that an increment left.
    Count(u32),
    /// The command took effect.
    Done,
    /// The count that a read found, if the key exists.
    Value(Option<u32>),
}

/// A reply, or the text of the Redis error that came instead, taken as characters.
pub open spec fn reply_view(reply: Result<CommandReply, String>) -> Result<CommandReply, Seq<char>> {
    match reply {
        Ok(r) => Ok(r),
        Err(e) => Err(e@),
    }
}

/// The steps of the counter protocol whose Redis calls can fail, each with
/// the context that its error message starts with.
#[derive(Clone, Copy, Debug, PartialEq, Eq, Structural)]
pub enum CounterFailure {
    Increment,
    SetTtl,
    ResetCounter,
    RefreshTtl,
    DeleteCounter,
    GetCounter,
}

/// The context of a failure's message.
pub open spec fn failure_context(failure: CounterFailure) -> Seq<char> {
    match failure {
        CounterFailure::Increment => "Failed to increment counter"@,
        CounterFailure::SetTtl => "Failed to set TTL"@,
        CounterFailure::ResetCounter => "Failed to reset counter"@,
        CounterFailure::RefreshTtl => "Failed to refresh TTL"@,
        CounterFailure::DeleteCounter => "Failed to delete counter"@,
        CounterFailure::GetCounter => "Failed to get counter"@,
    }
}

/// The error reported when `failure` comes with the Redis error text `detail`.
pub open spec fn failure_error(failure: CounterFailure, detail: Seq<char>) -> ErrorView {
    ErrorView::Redis(detailed_message(failure_context(failure), detail))
}

impl CounterFailure {
    /// The context of the failure's message.
    pub fn context(&self) -> (text: &'static str)
        ensures
            text@ == failure_context(*self),
    {
        match self {
            CounterFailure::Increment => "Failed to increment counter",
            CounterFailure::SetTtl => "Failed to set TTL",
            CounterFailure::ResetCounter => "Failed to reset counter",
            CounterFailure::RefreshTtl => "Failed to refresh TTL",
            CounterFailure::DeleteCounter => "Failed to delete counter",
            CounterFailure::GetCounter => "Failed to get counter",
        }
    }

    /// The error reported when this failure comes with the Redis error text `detail`.
    pub fn error(&self, detail: &str) -> (e: Error)
        ensures
            e@ == failure_error(*self, detail@),
    {
        Error::Redis(detailed(self.context(), detail))
    }
}

/// Where an increment-and-check stands: which reply it waits for.
#[derive(Clone, Copy, Debug, PartialEq, Eq, Structural)]
pub enum IncrementPhase {
    /// Waits for the count that the increment left.
    AwaitingCount,
    /// The count was 1: waits for the TTL of the new key to be set.
    SettingFirstTtl { count: u32 },
    /// The interval was reached: waits for the counter to be set back to 0.
    Resetting,
    /// Waits for the TTL of the reset counter to be refreshed.
    RefreshingTtl,
}

/// One increment-and-check of a delta counter, in progress.
///
/// It bumps the counter of `key` by one; the first bump of a key gives it
/// its TTL. When the count reaches `interval`, the counter is set back to 0,
/// its TTL refreshed, and a full message is due: the outcome is
/// `(true, interval)`. Otherwise a delta is due: `(false, count)`.
pub struct IncrementAndCheck {
    key: String,
    interval: u32,
    ttl_seconds: i64,
    phase: IncrementPhase,
}

/// An `IncrementAndCheck` with its key taken as characters.
pub struct IncrementView {
    pub key: Seq<char>,
    pub interval: u32,
    pub ttl_seconds: i64,
    pub phase: IncrementPhase,
}

impl View for IncrementAndCheck {
    type V = IncrementView;

    closed spec fn view(&self) -> IncrementView {
        IncrementView {
            key: self.key@,
            interval: self.interval,
            ttl_seconds: self.ttl_seconds,
            phase: self.phase,
        }
    }
}

/// What an increment-and-check asks for next.
pub enum Progress {
    /// Run the command and hand its reply to the increment-and-check.
    Send(IncrementAndCheck, CounterCommand),
    /// Done: whether a full message is due, and the count (the interval when
    /// a full message is due).
    Finished(Result<(bool, u32), Error>),
}

/// A `Progress` taken by views.
pub enum ProgressView {
    Send(IncrementView, CounterCommandView),
    Finished(Result<(bool, u32), ErrorView>),
}

impl View for Progress {
    type V = ProgressView;

    open spec fn view(&self) -> ProgressView {
        match self {
            Progress::Send(m, c) => ProgressView::Send(m@, c@),
            Progress::Finished(Ok(r)) => ProgressView::Finished(Ok(*r)),
            Progress::Finished(Err(e)) => ProgressView::Finished(Err(e@)),
        }
    }
}

/// The state in which an increment-and-check of `key` starts.
pub open spec fn increment_start(key: Seq<char>, interval: u32, ttl_seconds: i64) -> IncrementView {
    IncrementView { key, interval, ttl_seconds, phase: IncrementPhase::AwaitingCount }
}

/// Whether `reply` has the shape that the command awaited in `phase` answers with.
pub open spec fn reply_fits(phase: IncrementPhase, reply: Result<CommandReply, Seq<char>>) -> bool {
    match reply {
        Err(_) => true,
        Ok(CommandReply::Count(_)) => phase == IncrementPhase::AwaitingCount,
        Ok(CommandReply::Done) => phase != IncrementPhase::AwaitingCount,
        Ok(CommandReply::Value(_)) => false,
    }
}

/// What follows once the increment left `count`: a reset when the count
/// reached the interval, else the delta outcome.
pub open spec fn after_count(m: IncrementView, count: u32) -> ProgressView {
    if count >= m.interval {
        ProgressView::Send(
            IncrementView { phase: IncrementPhase::Resetting, ..m },
            CounterCommandView::Write { key: m.key, value: 0 },
        )
    } else {
        ProgressView::Finished(Ok((false, count)))
    }
}

/// The step of an increment-and-check in state `m` on `reply`.
pub open spec fn increment_next(m: IncrementView, reply: Result<CommandReply, Seq<char>>) -> ProgressView {
    match m.phase {
        IncrementPhase::AwaitingCount => match reply {
            Err(e) => ProgressView::Finished(Err(failure_error(CounterFailure::Increment, e))),
            Ok(CommandReply::Count(count)) => if count == 1 {
                ProgressView::Send(
                    IncrementView { phase: IncrementPhase::SettingFirstTtl { count }, ..m },
                    CounterCommandView::Expire { key: m.key, seconds: m.ttl_seconds },
                )
            } else {
                after_count(m, count)
            },
            Ok(_) => ProgressView::Finished(Err(failure_error(CounterFailure::Increment, Seq::empty()))),
        },
        IncrementPhase::SettingFirstTtl { count } => match reply {
            Err(e) => ProgressView::Finished(Err(failure_error(CounterFailure::SetTtl, e))),
            Ok(_) => after_count(m, count),
        },
        IncrementPhase::Resetting => match reply {
            Err(e) => ProgressView::Finished(Err(failure_error(CounterFailure::ResetCounter, e))),
            Ok(_) => ProgressView::Send(
                IncrementView { phase: IncrementPhase::RefreshingTtl, ..m },
                CounterCommandView::Expire { key: m.key, seconds: m.ttl_seconds },
            ),
        },
        IncrementPhase::RefreshingTtl => match reply {
            Err(e) => ProgressView::Finished(Err(failure_error(CounterFailure::RefreshTtl, e))),
            Ok(_) => ProgressView::Finished(Ok((true, m.interval))),
        },
    }
}

/// How far an increment-and-check has come: each command it sends moves it on.
pub open spec fn phase_rank(phase: IncrementPhase) -> nat {
    match phase {
        IncrementPhase::AwaitingCount => 0,
        IncrementPhase::SettingFirstTtl { .. } => 1,
        IncrementPhase::Resetting => 2,
        IncrementPhase::RefreshingTtl => 3,
    }
}

/// Whatever the replies, an increment-and-check moves to a later phase with
/// every command it sends, so it finishes after at most four commands; and
/// it keeps its key, interval and TTL throughout, sending commands on its
/// own key only.
pub proof fn lemma_increment_progresses(m: IncrementView, reply: Result<CommandReply, Seq<char>>)
    ensures
        increment_next(m, reply) matches ProgressView::Send(next, command) ==> {
            &&& phase_rank(next.phase) > phase_rank(m.phase)
            &&& phase_rank(next.phase) <= 3
            &&& next.key == m.key
            &&& next.interval == m.interval
            &&& next.ttl_seconds == m.ttl_seconds
            &&& match command {
                CounterCommandView::Expire { key, seconds } => key == m.key && seconds
                    == m.ttl_seconds,
                CounterCommandView::Write { key, value } => key == m.key && value == 0,
                _ => false,
            }
        },
{
}

impl IncrementAndCheck {
    /// Starts an increment-and-check of `key`: its first command bumps the
    /// counter by one.
    pub fn start(key: String, interval: u32, ttl_seconds: i64) -> (r: (IncrementAndCheck, CounterCommand))
        ensures
            r.0@ == increment_start(key@, interval, ttl_seconds),
            r.1@ == (CounterCommandView::Increment { key: key@, by: 1 }),
    {
        let command = CounterCommand::Increment { key: key.clone(), by: 1 };
        (IncrementAndCheck { key, interval, ttl_seconds, phase: IncrementPhase::AwaitingCount }, command)
    }

    /// Whether `reply` answers the command this increment-and-check waits for.
    pub fn accepts(&self, reply: &Result<CommandReply, String>) -> (b: bool)
        ensures
            b == reply_fits(self@.phase, reply_view(*reply)),
    {
        match reply {
            Err(_) => true,
            Ok(CommandReply::Count(_)) => self.phase == IncrementPhase::AwaitingCount,
            Ok(CommandReply::Done) => self.phase != IncrementPhase::AwaitingCount,
            Ok(CommandReply::Value(_)) => false,
        }
    }

    fn after_count(self, count: u32) -> (p: Progress)
        ensures
            p@ == after_count(self@, count),
    {
        if count >= self.interval {
            let command = CounterCommand::Write { key: self.key.clone(), value: 0 };
            Progress::Send(IncrementAndCheck { phase: IncrementPhase::Resetting, ..self }, command)
        } else {
            Progress::Finished(Ok((false, count)))
        }
    }

    /// Takes the reply to the command last asked for, and says what comes next.
    pub fn on_reply(self, reply: Result<CommandReply, String>) -> (p: Progress)
        requires
            reply_fits(self@.phase, reply_view(reply)),
        ensures
            p@ == increment_next(self@, reply_view(reply)),
    {
        match self.phase {
            IncrementPhase::AwaitingCount => match reply {
                Err(e) => Progress::Finished(Err(CounterFailure::Increment.error(e.as_str()))),
                Ok(CommandReply::Count(count)) => if count == 1 {
                    let command = CounterCommand::Expire {
                        key: self.key.clone(),
                        seconds: self.ttl_seconds,
                    };
                    Progress::Send(
                        IncrementAndCheck { phase: IncrementPhase::SettingFirstTtl { count }, ..self },
                        command,
                    )
                } else {
                    self.after_count(count)
                },
                Ok(_) => Progress::Finished(Err(CounterFailure::Increment.error(""))),
            },
            IncrementPhase::SettingFirstTtl { count } => match reply {
                Err(e) => Progress::Finished(Err(CounterFailure::SetTtl.error(e.as_str()))),
                Ok(_) => self.after_count(count),
            },
            IncrementPhase::Resetting => match reply {
                Err(e) => Progress::Finished(Err(CounterFailure::ResetCounter.error(e.as_str()))),
                Ok(_) => {
                    let command = CounterCommand::Expire {
                        key: self.key.clone(),
                        seconds: self.ttl_seconds,
                    };
                    Progress::Send(IncrementAndCheck { phase: IncrementPhase::RefreshingTtl, ..self }, command)
                },
            },
            IncrementPhase::RefreshingTtl => match reply {
                Err(e) => Progress::Finished(Err(CounterFailure::RefreshTtl.error(e.as_str()))),
                Ok(_) => Progress::Finished(Ok((true, self.interval))),
            },
        }
    }
}

} // verus!
