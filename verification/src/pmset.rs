//! Wake scheduler: builds the exact argument sequences understood by the
//! system power-management tool and drives a privileged command executor.

use vstd::prelude::*;
use vstd::string::StringExecFns;

verus! {

/// Errors from driving the power-management tool.
#[derive(Debug)]
pub enum PmsetError {
    /// The privileged process could not be started at all; carries the
    /// rendered operating-system error.
    ExecutionFailed(String),
    /// The command ran but exited non-zero; carries the captured standard
    /// error text verbatim.
    CommandFailed(String),
}

/// A wall-clock timestamp in local time, second precision, as the
/// power-management tool expects it.  Valid values are calendar dates with a
/// four-digit year.
#[derive(Clone, Copy, Debug, PartialEq, Eq, Structural)]
pub struct WakeTime {
    pub year: u32,
    pub month: u32,
    pub day: u32,
    pub hour: u32,
    pub minute: u32,
    pub second: u32,
}

pub open spec fn is_leap_year(y: int) -> bool {
    (y % 4 == 0 && y % 100 != 0) || y % 400 == 0
}

pub open spec fn days_in_month(y: int, m: int) -> int {
    if m == 2 {
        if is_leap_year(y) {
            29
        } else {
            28
        }
    } else if m == 4 || m == 6 || m == 9 || m == 11 {
        30
    } else {
        31
    }
}

impl WakeTime {
    /// A well-formed time is a real calendar date with a four-digit year and
    /// an in-range time of day.
    pub open spec fn wf(self) -> bool {
        &&& 1 <= self.year <= 9999
        &&& 1 <= self.month <= 12
        &&& 1 <= self.day <= days_in_month(self.year as int, self.month as int)
        &&& self.hour <= 23
        &&& self.minute <= 59
        &&& self.second <= 59
    }

    /// Builds a time from its fields, rejecting anything that is not a real
    /// calendar date or not a valid time of day.
    pub fn new(year: u32, month: u32, day: u32, hour: u32, minute: u32, second: u32) -> (r: Option<
        WakeTime,
    >)
        ensures
            r matches Some(t) ==> t == (WakeTime { year, month, day, hour, minute, second })
                && t.wf(),
            r is None ==> !(WakeTime { year, month, day, hour, minute, second }).wf(),
    {
        let t = WakeTime { year, month, day, hour, minute, second };
        if 1 <= year && year <= 9999 && 1 <= month && month <= 12 && hour <= 23 && minute <= 59
            && second <= 59 {
            let leap = (year % 4 == 0 && year % 100 != 0) || year % 400 == 0;
            let max_day: u32 = if month == 2 {
                if leap {
                    29
                } else {
                    28
                }
            } else if month == 4 || month == 6 || month == 9 || month == 11 {
                30
            } else {
                31
            };
            if 1 <= day && day <= max_day {
                Some(t)
            } else {
                None
            }
        } else {
            None
        }
    }
}

pub open spec fn digit_char(d: int) -> char {
    if d == 0 {
        '0'
    } else if d == 1 {
        '1'
    } else if d == 2 {
        '2'
    } else if d == 3 {
        '3'
    } else if d == 4 {
        '4'
    } else if d == 5 {
        '5'
    } else if d == 6 {
        '6'
    } else if d == 7 {
        '7'
    } else if d == 8 {
        '8'
    } else {
        '9'
    }
}

/// A number under 100 rendered as exactly two decimal digits.
pub open spec fn two_digit_text(n: int) -> Seq<char>
    recommends
        0 <= n < 100,
{
    seq![digit_char(n / 10), digit_char(n % 10)]
}

/// A number under 10000 rendered as exactly four decimal digits.
pub open spec fn four_digit_text(n: int) -> Seq<char>
    recommends
        0 <= n < 10000,
{
    seq![digit_char(n / 1000), digit_char((n / 100) % 10), digit_char((n / 10) % 10), digit_char(
        n % 10,
    )]
}

/// The fixed textual pattern the power-management tool expects:
/// `MM/DD/YYYY HH:MM:SS`.
pub open spec fn wake_time_text(t: WakeTime) -> Seq<char>
    recommends
        t.wf(),
{
    two_digit_text(t.month as int) + seq!['/'] + two_digit_text(t.day as int) + seq!['/']
        + four_digit_text(t.year as int) + seq![' '] + two_digit_text(t.hour as int) + seq![':']
        + two_digit_text(t.minute as int) + seq![':'] + two_digit_text(t.second as int)
}

fn digit_str(d: u32) -> (r: &'static str)
    requires
        d < 10,
    ensures
        r@ == seq![digit_char(d as int)],
{
    let r: &'static str = if d == 0 {
        "0"
    } else if d == 1 {
        "1"
    } else if d == 2 {
        "2"
    } else if d == 3 {
        "3"
    } else if d == 4 {
        "4"
    } else if d == 5 {
        "5"
    } else if d == 6 {
        "6"
    } else if d == 7 {
        "7"
    } else if d == 8 {
        "8"
    } else {
        "9"
    };
    proof {
        reveal_strlit("0");
        reveal_strlit("1");
        reveal_strlit("2");
        reveal_strlit("3");
        reveal_strlit("4");
        reveal_strlit("5");
        reveal_strlit("6");
        reveal_strlit("7");
        reveal_strlit("8");
        reveal_strlit("9");
        assert(r@ =~= seq![digit_char(d as int)]);
    }
    r
}

fn push_two_digits(out: &mut String, n: u32)
    requires
        n < 100,
    ensures
        final(out)@ == old(out)@ + two_digit_text(n as int),
{
    out.append(digit_str(n / 10));
    out.append(digit_str(n % 10));
    proof {
        assert(out@ =~= old(out)@ + two_digit_text(n as int));
    }
}

fn push_four_digits(out: &mut String, n: u32)
    requires
        n < 10000,
    ensures
        final(out)@ == old(out)@ + four_digit_text(n as int),
{
    out.append(digit_str(n / 1000));
    out.append(digit_str((n / 100) % 10));
    out.append(digit_str((n / 10) % 10));
    out.append(digit_str(n % 10));
    proof {
        assert(out@ =~= old(out)@ + four_digit_text(n as int));
    }
}

/// Renders a time in the tool's input grammar, `MM/DD/YYYY HH:MM:SS`:
/// two-digit month, day, hour, minute and second, four-digit year.
pub fn format_wake_time(t: &WakeTime) -> (r: String)
    requires
        t.wf(),
    ensures
        r@ == wake_time_text(*t),
{
    let mut s = String::new();
    push_two_digits(&mut s, t.month);
    s.append("/");
    push_two_digits(&mut s, t.day);
    s.append("/");
    push_four_digits(&mut s, t.year);
    s.append(" ");
    push_two_digits(&mut s, t.hour);
    s.append(":");
    push_two_digits(&mut s, t.minute);
    s.append(":");
    push_two_digits(&mut s, t.second);
    proof {
        reveal_strlit("/");
        reveal_strlit(" ");
        reveal_strlit(":");
        assert(s@ =~= wake_time_text(*t));
    }
    s
}

/// A command name and its arguments joined into one line by single spaces.
pub open spec fn joined_line(command: Seq<char>, args: Seq<Seq<char>>) -> Seq<char>
    decreases args.len(),
{
    if args.len() == 0 {
        command
    } else {
        joined_line(command, args.drop_last()) + seq![' '] + args.last()
    }
}

/// The scripting line that runs the joined command in a privileged shell
/// after prompting the interactive user.
pub open spec fn applescript_line(command: Seq<char>, args: Seq<Seq<char>>) -> Seq<char> {
    "do shell script \""@ + joined_line(command, args) + "\" with administrator privileges"@
}

/// Builds the exact process invocation that hands a command to the system
/// scripting facility for privileged execution: the facility's name, and the
/// inline-script arguments carrying the joined command line.
pub fn applescript_invocation(command: &str, args: &Vec<String>) -> (r: (String, Vec<String>))
    ensures
        r.0@ == "osascript"@,
        r.1.deep_view() == seq!["-e"@, applescript_line(command@, args.deep_view())],
{
    let ghost dv = args.deep_view();
    let mut line = String::from_str(command);
    proof {
        assert(dv.take(0) =~= Seq::<Seq<char>>::empty());
    }
    let mut i: usize = 0;
    while i < args.len()
        invariant
            i <= args.len(),
            dv == args.deep_view(),
            line@ == joined_line(command@, dv.take(i as int)),
        decreases args.len() - i,
    {
        line.append(" ");
        line.append(args[i].as_str());
        proof {
            reveal_strlit(" ");
            assert(dv.take(i + 1).drop_last() =~= dv.take(i as int));
            assert(dv.take(i + 1).last() == dv[i as int]);
            assert(line@ =~= joined_line(command@, dv.take(i + 1)));
        }
        i += 1;
    }
    proof {
        assert(dv.take(args.len() as int) =~= dv);
    }
    let mut script = String::from_str("do shell script \"");
    script.append(line.as_str());
    script.append("\" with administrator privileges");
    proof {
        assert(script@ =~= applescript_line(command@, dv));
    }
    let mut osargs: Vec<String> = Vec::new();
    osargs.push(String::from_str("-e"));
    osargs.push(script);
    proof {
        assert(osargs.deep_view() =~= seq!["-e"@, applescript_line(command@, dv)]);
    }
    (String::from_str("osascript"), osargs)
}

/// One command carried out by an executor: a command name and its ordered
/// positional arguments.
pub ghost struct Invocation {
    pub command: Seq<char>,
    pub args: Seq<Seq<char>>,
}

/// The specification-level record of the invocations an executor has
/// accepted, oldest first.
pub type InvocationLog = Seq<Invocation>;

/// Runs commands at administrator privilege.  Abstract, so that the
/// scheduling logic can be exercised against a recording double instead of
/// the operating system.
pub trait CommandExecutor {
    /// The invocations this executor has accepted so far, oldest first.
    spec fn history(&self) -> InvocationLog;

    /// Runs `command` with the given arguments at administrator privilege; a
    /// run reported successful is appended to the history, a failed one
    /// leaves it unchanged.
    fn execute(&mut self, command: &str, args: &Vec<String>) -> (r: Result<(), PmsetError>)
        ensures
            r is Ok ==> final(self).history() == old(self).history().push(
                Invocation { command: command@, args: args.deep_view() },
            ),
            r is Err ==> final(self).history() == old(self).history(),
    ;
}

/// One command as captured by the recording executor.
pub struct RecordedCommand {
    pub name: String,
    pub args: Vec<String>,
}

/// The test double of the executor: records every command and reports
/// success, so that scheduling behaviour can be checked without touching the
/// operating system.
pub struct RecordingExecutor {
    pub commands: Vec<RecordedCommand>,
}

impl RecordingExecutor {
    pub open spec fn history_of(cs: Seq<RecordedCommand>) -> Seq<Invocation> {
        cs.map_values(
            |c: RecordedCommand| Invocation { command: c.name@, args: c.args.deep_view() },
        )
    }

    pub fn new() -> (r: Self)
        ensures
            r.history() == Seq::<Invocation>::empty(),
            r.commands@.len() == 0,
    {
        let r = RecordingExecutor { commands: Vec::new() };
        proof {
            assert(r.history() =~= Seq::<Invocation>::empty());
        }
        r
    }
}

impl CommandExecutor for RecordingExecutor {
    open spec fn history(&self) -> InvocationLog {
        Self::history_of(self.commands@)
    }

    fn execute(&mut self, command: &str, args: &Vec<String>) -> (r: Result<(), PmsetError>)
        ensures
            r is Ok,
            final(self).history() == old(self).history().push(
                Invocation { command: command@, args: args.deep_view() },
            ),
    {
        let mut copied: Vec<String> = Vec::new();
        let mut i: usize = 0;
        while i < args.len()
            invariant
                i <= args.len(),
                copied@.len() == i,
                forall|j: int| 0 <= j < i ==> copied@[j] == args@[j],
            decreases args.len() - i,
        {
            copied.push(args[i].clone());
            i += 1;
        }
        proof {
            assert(copied@ =~= args@);
        }
        let rc = RecordedCommand { name: String::from_str(command), args: copied };
        self.commands.push(rc);
        proof {
            assert(self.history() =~= old(self).history().push(
                Invocation { command: command@, args: args.deep_view() },
            ));
        }
        Ok(())
    }
}

/// The invocation that registers a wake event for `t`.
pub open spec fn schedule_invocation(t: WakeTime) -> Invocation {
    Invocation {
        command: "pmset"@,
        args: seq!["schedule"@, "wakeorpoweron"@, wake_time_text(t)],
    }
}

/// The invocation that cancels the wake event registered for `t`.
pub open spec fn cancel_invocation(t: WakeTime) -> Invocation {
    Invocation {
        command: "pmset"@,
        args: seq!["schedule"@, "cancel"@, "wakeorpoweron"@, wake_time_text(t)],
    }
}

/// Law: for any well-formed time, the schedule invocation runs `pmset` with
/// exactly three arguments, and its third argument is the time rendered as
/// `MM/DD/YYYY HH:MM:SS`.
pub proof fn lemma_schedule_invocation_form(t: WakeTime)
    ensures
        schedule_invocation(t).command == "pmset"@,
        schedule_invocation(t).args.len() == 3,
        schedule_invocation(t).args[0] == "schedule"@,
        schedule_invocation(t).args[1] == "wakeorpoweron"@,
        schedule_invocation(t).args[2] == wake_time_text(t),
{
}

/// Law: cancelling the time that was scheduled runs `pmset` with exactly
/// `schedule cancel wakeorpoweron` and the very text the schedule
/// invocation carried, so the tool matches the registered entry.
pub proof fn lemma_cancel_invocation_form(t: WakeTime)
    ensures
        cancel_invocation(t).command == "pmset"@,
        cancel_invocation(t).args.len() == 4,
        cancel_invocation(t).args[0] == "schedule"@,
        cancel_invocation(t).args[1] == "cancel"@,
        cancel_invocation(t).args[2] == "wakeorpoweron"@,
        cancel_invocation(t).args[3] == schedule_invocation(t).args[2],
{
}

/// Law: the rendered time is nineteen characters, slash-separated two-digit
/// month and day then a four-digit year, one space, and colon-separated
/// two-digit hour, minute and second.
pub proof fn lemma_wake_time_text_form(t: WakeTime)
    requires
        t.wf(),
    ensures
        wake_time_text(t).len() == 19,
        wake_time_text(t).subrange(0, 2) == two_digit_text(t.month as int),
        wake_time_text(t)[2] == '/',
        wake_time_text(t).subrange(3, 5) == two_digit_text(t.day as int),
        wake_time_text(t)[5] == '/',
        wake_time_text(t).subrange(6, 10) == four_digit_text(t.year as int),
        wake_time_text(t)[10] == ' ',
        wake_time_text(t).subrange(11, 13) == two_digit_text(t.hour as int),
        wake_time_text(t)[13] == ':',
        wake_time_text(t).subrange(14, 16) == two_digit_text(t.minute as int),
        wake_time_text(t)[16] == ':',
        wake_time_text(t).subrange(17, 19) == two_digit_text(t.second as int),
{
    assert(wake_time_text(t).subrange(0, 2) =~= two_digit_text(t.month as int));
    assert(wake_time_text(t).subrange(3, 5) =~= two_digit_text(t.day as int));
    assert(wake_time_text(t).subrange(6, 10) =~= four_digit_text(t.year as int));
    assert(wake_time_text(t).subrange(11, 13) =~= two_digit_text(t.hour as int));
    assert(wake_time_text(t).subrange(14, 16) =~= two_digit_text(t.minute as int));
    assert(wake_time_text(t).subrange(17, 19) =~= two_digit_text(t.second as int));
}

/// Registers a wake event with the provided executor:
/// `pmset schedule wakeorpoweron <time>`.
pub fn schedule_wake_with<E: CommandExecutor>(executor: &mut E, time: &WakeTime) -> (r: Result<
    (),
    PmsetError,
>)
    requires
        time.wf(),
    ensures
        r is Ok ==> final(executor).history() == old(executor).history().push(
            schedule_invocation(*time),
        ),
        r is Err ==> final(executor).history() == old(executor).history(),
{
    let mut args: Vec<String> = Vec::new();
    args.push(String::from_str("schedule"));
    args.push(String::from_str("wakeorpoweron"));
    args.push(format_wake_time(time));
    proof {
        assert(args.deep_view() =~~= schedule_invocation(*time).args);
    }
    executor.execute("pmset", &args)
}

/// Cancels the wake event previously registered for exactly this time:
/// `pmset schedule cancel wakeorpoweron <time>`.  A time that matches no
/// registered event is the tool's concern; this function only issues the
/// exact cancellation.
pub fn cancel_wake_with<E: CommandExecutor>(executor: &mut E, time: &WakeTime) -> (r: Result<
    (),
    PmsetError,
>)
    requires
        time.wf(),
    ensures
        r is Ok ==> final(executor).history() == old(executor).history().push(cancel_invocation(*time)),
        r is Err ==> final(executor).history() == old(executor).history(),
{
    let mut args: Vec<String> = Vec::new();
    args.push(String::from_str("schedule"));
    args.push(String::from_str("cancel"));
    args.push(String::from_str("wakeorpoweron"));
    args.push(format_wake_time(time));
    proof {
        assert(args.deep_view() =~~= cancel_invocation(*time).args);
    }
    executor.execute("pmset", &args)
}

} // verus!
