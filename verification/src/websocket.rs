//! The command protocol of the counter server: which text message does what
//! to the three counters, and what the server answers.
use vstd::prelude::*;
use crate::crdt::{CrdtCounter, GCounter, PNCounter};

verus! {

// ---------------------------------------------------------------------------
// Reading the command out of a JSON message
// ---------------------------------------------------------------------------

#[verifier::external_type_specification]
#[verifier::external_body]
pub struct ExJsonError(serde_json::Error);

/// What `serde_json` reads out of `text` when it parses the text as a JSON
/// value and asks that value for the string member named `key`:
/// `None` where `serde_json` does not accept the text as JSON; `Some(None)`
/// where it does, but the value is not an object, has no member `key`, or
/// that member is not a string; `Some(Some(s))` where the member is the
/// string `s`.
pub uninterp spec fn json_string_member(text: Seq<char>, key: Seq<char>) -> Option<Option<Seq<char>>>;

/// The characters of an optional string.
pub open spec fn chars_of(s: Option<String>) -> Option<Seq<char>> {
    match s {
        Some(s) => Some(s@),
        None => None,
    }
}

/// Parses `text` with `serde_json::from_str` into a `serde_json::Value`, then
/// reads the member `key` with `Value::get` and `Value::as_str`.
/// The contract claims only that the outcome is the one that
/// `json_string_member` names for the text and the key: the parse fails on
/// exactly the texts that `serde_json` rejects, and otherwise the string
/// member (if any) is handed back unchanged.
#[verifier::external_body]
fn read_string_member(text: &str, key: &str) -> (r: Result<Option<String>, serde_json::Error>)
    ensures
        match r {
            Ok(member) => json_string_member(text@, key@) == Some(chars_of(member)),
            Err(_) => json_string_member(text@, key@) is None,
        },
{
    let value: serde_json::Value = serde_json::from_str(text)?;
    Ok(value.get(key).and_then(serde_json::Value::as_str).map(str::to_owned))
}

// ---------------------------------------------------------------------------
// Commands, answers and errors
// ---------------------------------------------------------------------------

/// A request that a client sends in the `command` member of a JSON message.
#[derive(Debug, Clone, Copy, PartialEq, Eq, Structural)]
pub enum Command {
    IncrementCrdt,
    ResetCrdt,
    GetCrdt,
    IncrementGCounter,
    GetGCounter,
    IncrementPNCounter,
    DecrementPNCounter,
    GetPNCounter,
    /// Any other `command` member, or none at all.
    Unknown,
}

/// What the server answers to a command: the state of the counter that the
/// command concerns, or an error message.
#[derive(Debug, Clone)]
pub enum Response {
    Crdt(CrdtCounter),
    GCounter(GCounter),
    PNCounter(PNCounter),
    Error(String),
}

/// Why a message was not processed.
#[derive(Debug, Clone, Copy, PartialEq, Eq, Structural)]
pub enum MessageError {
    /// The message is not JSON.
    InvalidJson,
}

/// The command that the `command` member names.
pub open spec fn command_named(member: Option<Seq<char>>) -> Command {
    match member {
        Some(name) => if name == "increment_crdt"@ {
            Command::IncrementCrdt
        } else if name == "reset_crdt"@ {
            Command::ResetCrdt
        } else if name == "get_crdt"@ {
            Command::GetCrdt
        } else if name == "increment_gcounter"@ {
            Command::IncrementGCounter
        } else if name == "get_gcounter"@ {
            Command::GetGCounter
        } else if name == "increment_pncounter"@ {
            Command::IncrementPNCounter
        } else if name == "decrement_pncounter"@ {
            Command::DecrementPNCounter
        } else if name == "get_pncounter"@ {
            Command::GetPNCounter
        } else {
            Command::Unknown
        },
        None => Command::Unknown,
    }
}

/// The command that the message `text` carries, or why it carries none.
pub open spec fn command_of_message(text: Seq<char>) -> Result<Command, MessageError> {
    match json_string_member(text, "command"@) {
        Some(member) => Ok(command_named(member)),
        None => Err(MessageError::InvalidJson),
    }
}

/// Tells whether `s` holds exactly the characters of `name`.
fn is_named(s: &String, name: &str) -> (b: bool)
    ensures
        b == (s@ == name@),
{
    *s == name.to_owned()
}

/// The command that a `command` member names.
pub fn command_from_member(member: Option<String>) -> (c: Command)
    ensures
        c == command_named(chars_of(member)),
{
    match member {
        Some(name) => if is_named(&name, "increment_crdt") {
            Command::IncrementCrdt
        } else if is_named(&name, "reset_crdt") {
            Command::ResetCrdt
        } else if is_named(&name, "get_crdt") {
            Command::GetCrdt
        } else if is_named(&name, "increment_gcounter") {
            Command::IncrementGCounter
        } else if is_named(&name, "get_gcounter") {
            Command::GetGCounter
        } else if is_named(&name, "increment_pncounter") {
            Command::IncrementPNCounter
        } else if is_named(&name, "decrement_pncounter") {
            Command::DecrementPNCounter
        } else if is_named(&name, "get_pncounter") {
            Command::GetPNCounter
        } else {
            Command::Unknown
        },
        None => Command::Unknown,
    }
}

/// Reads the command that a JSON message carries in its `command` member.
pub fn parse_command(text: &str) -> (r: Result<Command, MessageError>)
    ensures
        r == command_of_message(text@),
{
    match read_string_member(text, "command") {
        Ok(member) => Ok(command_from_member(member)),
        Err(_) => Err(MessageError::InvalidJson),
    }
}

// ---------------------------------------------------------------------------
// What a command does to the counters
// ---------------------------------------------------------------------------

/// The three counters that the server keeps.
#[derive(Debug, Clone, Copy)]
pub struct CounterSet {
    pub crdt: CrdtCounter,
    pub gcounter: GCounter,
    pub pncounter: PNCounter,
}

/// The three counters taken together.
pub open spec fn counters(crdt: CrdtCounter, gcounter: GCounter, pncounter: PNCounter) -> CounterSet {
    CounterSet { crdt, gcounter, pncounter }
}

/// The counters after `cmd`.
pub open spec fn step(s: CounterSet, cmd: Command) -> CounterSet {
    match cmd {
        Command::IncrementCrdt => CounterSet { crdt: s.crdt.incremented(), ..s },
        Command::ResetCrdt => CounterSet { crdt: CrdtCounter { count: 0 }, ..s },
        Command::IncrementGCounter => CounterSet { gcounter: s.gcounter.incremented(), ..s },
        Command::IncrementPNCounter => CounterSet { pncounter: s.pncounter.incremented(), ..s },
        Command::DecrementPNCounter => CounterSet { pncounter: s.pncounter.decremented(), ..s },
        _ => s,
    }
}

/// `cmd` keeps every count of `s` within `i32`.
pub open spec fn step_fits(s: CounterSet, cmd: Command) -> bool {
    match cmd {
        Command::IncrementCrdt => s.crdt.count < i32::MAX,
        Command::IncrementGCounter => s.gcounter.count < i32::MAX,
        Command::IncrementPNCounter => s.pncounter.positive < i32::MAX,
        Command::DecrementPNCounter => s.pncounter.negative < i32::MAX,
        _ => true,
    }
}

/// `r` is what the server answers to `cmd` when the counters, after it, are `s`.
pub open spec fn answers(r: Response, cmd: Command, s: CounterSet) -> bool {
    match cmd {
        Command::IncrementCrdt | Command::ResetCrdt | Command::GetCrdt => r == Response::Crdt(s.crdt),
        Command::IncrementGCounter | Command::GetGCounter => r == Response::GCounter(s.gcounter),
        Command::IncrementPNCounter | Command::DecrementPNCounter | Command::GetPNCounter => r
            == Response::PNCounter(s.pncounter),
        Command::Unknown => r matches Response::Error(m) && m@ == "Unknown command"@,
    }
}

/// Increments the counter, or resets it to zero, and hands back its new state.
pub fn handle_crdt(counter: &mut CrdtCounter, increment: bool) -> (r: CrdtCounter)
    requires
        increment ==> old(counter).count < i32::MAX,
    ensures
        *final(counter) == (if increment {
            old(counter).incremented()
        } else {
            CrdtCounter { count: 0 }
        }),
        r == *final(counter),
{
    if increment {
        counter.increment();
    } else {
        counter.count = 0;
    }
    *counter
}

/// Increments the counter and hands back its new state.
pub fn handle_gcounter(counter: &mut GCounter) -> (r: GCounter)
    requires
        old(counter).count < i32::MAX,
    ensures
        *final(counter) == old(counter).incremented(),
        r == *final(counter),
{
    counter.increment();
    *counter
}

/// Increments or decrements the counter and hands back its new state.
pub fn handle_pncounter(counter: &mut PNCounter, increment: bool) -> (r: PNCounter)
    requires
        increment ==> old(counter).positive < i32::MAX,
        !increment ==> old(counter).negative < i32::MAX,
    ensures
        *final(counter) == (if increment {
            old(counter).incremented()
        } else {
            old(counter).decremented()
        }),
        r == *final(counter),
{
    if increment {
        counter.increment();
    } else {
        counter.decrement();
    }
    *counter
}

/// Tells whether `cmd` keeps every count within `i32`.
pub fn command_fits(cmd: Command, crdt: &CrdtCounter, gcounter: &GCounter, pncounter: &PNCounter) -> (b: bool)
    ensures
        b == step_fits(counters(*crdt, *gcounter, *pncounter), cmd),
{
    match cmd {
        Command::IncrementCrdt => crdt.count < i32::MAX,
        Command::IncrementGCounter => gcounter.count < i32::MAX,
        Command::IncrementPNCounter => pncounter.positive < i32::MAX,
        Command::DecrementPNCounter => pncounter.negative < i32::MAX,
        _ => true,
    }
}

/// Carries out `cmd` on the counters and answers it.
pub fn apply_command(
    cmd: Command,
    crdt: &mut CrdtCounter,
    gcounter: &mut GCounter,
    pncounter: &mut PNCounter,
) -> (r: Response)
    requires
        step_fits(counters(*old(crdt), *old(gcounter), *old(pncounter)), cmd),
    ensures
        counters(*final(crdt), *final(gcounter), *final(pncounter)) == step(
            counters(*old(crdt), *old(gcounter), *old(pncounter)),
            cmd,
        ),
        answers(r, cmd, counters(*final(crdt), *final(gcounter), *final(pncounter))),
{
    match cmd {
        Command::IncrementCrdt => Response::Crdt(handle_crdt(crdt, true)),
        Command::ResetCrdt => Response::Crdt(handle_crdt(crdt, false)),
        Command::GetCrdt => Response::Crdt(*crdt),
        Command::IncrementGCounter => Response::GCounter(handle_gcounter(gcounter)),
        Command::GetGCounter => Response::GCounter(*gcounter),
        Command::IncrementPNCounter => Response::PNCounter(handle_pncounter(pncounter, true)),
        Command::DecrementPNCounter => Response::PNCounter(handle_pncounter(pncounter, false)),
        Command::GetPNCounter => Response::PNCounter(*pncounter),
        Command::Unknown => Response::Error("Unknown command".to_owned()),
    }
}

/// Processes one JSON message: reads its `command` member, carries the
/// command out on the counters and answers it. A message that is not JSON is
/// refused and changes nothing; one whose `command` member names no known
/// command is answered with the error "Unknown command".
pub fn process_message(
    text: &str,
    crdt: &mut CrdtCounter,
    gcounter: &mut GCounter,
    pncounter: &mut PNCounter,
) -> (r: Result<Response, MessageError>)
    requires
        command_of_message(text@) matches Ok(cmd) ==> step_fits(
            counters(*old(crdt), *old(gcounter), *old(pncounter)),
            cmd,
        ),
    ensures
        match command_of_message(text@) {
            Ok(cmd) => {
                &&& counters(*final(crdt), *final(gcounter), *final(pncounter)) == step(
                    counters(*old(crdt), *old(gcounter), *old(pncounter)),
                    cmd,
                )
                &&& r matches Ok(resp) && answers(
                    resp,
                    cmd,
                    counters(*final(crdt), *final(gcounter), *final(pncounter)),
                )
            },
            Err(e) => {
                &&& r == Err::<Response, MessageError>(e)
                &&& *final(crdt) == *old(crdt)
                &&& *final(gcounter) == *old(gcounter)
                &&& *final(pncounter) == *old(pncounter)
            },
        },
{
    let cmd = parse_command(text)?;
    Ok(apply_command(cmd, crdt, gcounter, pncounter))
}

/// What became of a text message.
#[derive(Debug)]
pub enum Handling {
    /// The message was empty and was left alone.
    Ignored,
    /// The message was processed, with this outcome.
    Processed(Result<Response, MessageError>),
    /// The command would take a count past `i32::MAX`; nothing was changed.
    Overflow(Command),
}

/// Handles one text message as the server does: an empty message is ignored,
/// a command that would take a count past `i32::MAX` is held back, and every
/// other message goes to [`process_message`].
pub fn handle_text_message(
    text: &str,
    crdt: &mut CrdtCounter,
    gcounter: &mut GCounter,
    pncounter: &mut PNCounter,
) -> (h: Handling)
    ensures
        text@.len() == 0 ==> h is Ignored,
        text@.len() != 0 ==> match command_of_message(text@) {
            Ok(cmd) => if step_fits(counters(*old(crdt), *old(gcounter), *old(pncounter)), cmd) {
                &&& counters(*final(crdt), *final(gcounter), *final(pncounter)) == step(
                    counters(*old(crdt), *old(gcounter), *old(pncounter)),
                    cmd,
                )
                &&& h matches Handling::Processed(Ok(resp)) && answers(
                    resp,
                    cmd,
                    counters(*final(crdt), *final(gcounter), *final(pncounter)),
                )
            } else {
                h == Handling::Overflow(cmd)
            },
            Err(e) => h == Handling::Processed(Err(e)),
        },
        !(h matches Handling::Processed(Ok(_))) ==> {
            &&& *final(crdt) == *old(crdt)
            &&& *final(gcounter) == *old(gcounter)
            &&& *final(pncounter) == *old(pncounter)
        },
{
    if text.is_empty() {
        return Handling::Ignored;
    }
    if let Ok(cmd) = parse_command(text) {
        if !command_fits(cmd, crdt, gcounter, pncounter) {
            return Handling::Overflow(cmd);
        }
    }
    Handling::Processed(process_message(text, crdt, gcounter, pncounter))
}

// ---------------------------------------------------------------------------
// Laws of the protocol
// ---------------------------------------------------------------------------

/// The counters after the commands `cmds`, carried out in order from `s`.
pub open spec fn run(s: CounterSet, cmds: Seq<Command>) -> CounterSet
    decreases cmds.len(),
{
    if cmds.len() == 0 {
        s
    } else {
        step(run(s, cmds.drop_last()), cmds.last())
    }
}

/// How often `cmd` occurs in `cmds`.
pub open spec fn occurrences(cmds: Seq<Command>, cmd: Command) -> nat {
    cmds.to_multiset().count(cmd)
}

/// Carrying out two commands in either order leaves the same counters,
/// unless one resets the `CrdtCounter` and the other increments it.
pub proof fn lemma_commands_commute(s: CounterSet, a: Command, b: Command)
    requires
        !(a == Command::ResetCrdt && b == Command::IncrementCrdt),
        !(a == Command::IncrementCrdt && b == Command::ResetCrdt),
        step_fits(s, a) && step_fits(step(s, a), b),
        step_fits(s, b) && step_fits(step(s, b), a),
    ensures
        step(step(s, a), b) == step(step(s, b), a),
{
}

/// The name under which the protocol sends each command; `Unknown` has none
/// of its own and is given the empty name.
pub open spec fn protocol_name(cmd: Command) -> Seq<char> {
    match cmd {
        Command::IncrementCrdt => "increment_crdt"@,
        Command::ResetCrdt => "reset_crdt"@,
        Command::GetCrdt => "get_crdt"@,
        Command::IncrementGCounter => "increment_gcounter"@,
        Command::GetGCounter => "get_gcounter"@,
        Command::IncrementPNCounter => "increment_pncounter"@,
        Command::DecrementPNCounter => "decrement_pncounter"@,
        Command::GetPNCounter => "get_pncounter"@,
        Command::Unknown => Seq::empty(),
    }
}

/// A `command` member names a known command exactly when it is that
/// command's protocol name: every known command is read back from its own
/// name, every name that reads as a known command is that command's name,
/// and every other name (or a missing member) reads as `Unknown`.
pub proof fn lemma_command_names_round_trip(cmd: Command, name: Seq<char>)
    ensures
        cmd != Command::Unknown ==> command_named(Some(protocol_name(cmd))) == cmd,
        command_named(Some(name)) != Command::Unknown ==> name == protocol_name(
            command_named(Some(name)),
        ),
        (forall|c: Command| c != Command::Unknown ==> name != #[trigger] protocol_name(c))
            ==> command_named(Some(name)) == Command::Unknown,
        command_named(None) == Command::Unknown,
{
    reveal_strlit("increment_crdt");
    reveal_strlit("reset_crdt");
    reveal_strlit("get_crdt");
    reveal_strlit("increment_gcounter");
    reveal_strlit("get_gcounter");
    reveal_strlit("increment_pncounter");
    reveal_strlit("decrement_pncounter");
    reveal_strlit("get_pncounter");
    // The names are pairwise different: all but two differ in length, and
    // those two differ in their first character.
    assert("increment_crdt"@.len() == 14);
    assert("reset_crdt"@.len() == 10);
    assert("get_crdt"@.len() == 8);
    assert("increment_gcounter"@.len() == 18);
    assert("get_gcounter"@.len() == 12);
    assert("increment_pncounter"@.len() == 19);
    assert("decrement_pncounter"@.len() == 19);
    assert("get_pncounter"@.len() == 13);
    assert("increment_pncounter"@[0] != "decrement_pncounter"@[0]);
    if command_named(Some(name)) != Command::Unknown {
        let c = command_named(Some(name));
        assert(name == protocol_name(c));
    }
    if forall|c: Command| c != Command::Unknown ==> name != #[trigger] protocol_name(c) {
        assert(name != protocol_name(Command::IncrementCrdt));
        assert(name != protocol_name(Command::ResetCrdt));
        assert(name != protocol_name(Command::GetCrdt));
        assert(name != protocol_name(Command::IncrementGCounter));
        assert(name != protocol_name(Command::GetGCounter));
        assert(name != protocol_name(Command::IncrementPNCounter));
        assert(name != protocol_name(Command::DecrementPNCounter));
        assert(name != protocol_name(Command::GetPNCounter));
    }
}

/// A command is held back as overflowing exactly when it would add one to a
/// count that already stands at `i32::MAX`; every other command on every
/// state is carried out.
pub proof fn lemma_held_back_only_at_max(s: CounterSet, cmd: Command)
    ensures
        !step_fits(s, cmd) <==> {
            ||| cmd == Command::IncrementCrdt && s.crdt.count == i32::MAX
            ||| cmd == Command::IncrementGCounter && s.gcounter.count == i32::MAX
            ||| cmd == Command::IncrementPNCounter && s.pncounter.positive == i32::MAX
            ||| cmd == Command::DecrementPNCounter && s.pncounter.negative == i32::MAX
        },
        cmd == Command::ResetCrdt || cmd == Command::GetCrdt || cmd == Command::GetGCounter
            || cmd == Command::GetPNCounter || cmd == Command::Unknown ==> step_fits(s, cmd),
{
}

/// A command that is carried out moves each count by exactly what it says,
/// computed in unbounded integers: an increment adds one to its count, a
/// decrement adds one to the count of decrements, a reset brings the
/// `CrdtCounter` to zero, and every other count stays as it was.
pub proof fn lemma_step_counts(s: CounterSet, cmd: Command)
    requires
        step_fits(s, cmd),
    ensures
        step(s, cmd).crdt.count == (if cmd == Command::IncrementCrdt {
            s.crdt.count + 1
        } else if cmd == Command::ResetCrdt {
            0
        } else {
            s.crdt.count as int
        }),
        step(s, cmd).gcounter.count == s.gcounter.count + (if cmd == Command::IncrementGCounter {
            1int
        } else {
            0
        }),
        step(s, cmd).pncounter.positive == s.pncounter.positive + (if cmd
            == Command::IncrementPNCounter {
            1int
        } else {
            0
        }),
        step(s, cmd).pncounter.negative == s.pncounter.negative + (if cmd
            == Command::DecrementPNCounter {
            1int
        } else {
            0
        }),
{
}

/// The answer to a command reports the counter it concerns as it stands after
/// the command; a read reports the stored counter unchanged, a write reports
/// its new state, and an unknown command is answered with the error
/// "Unknown command".
pub proof fn lemma_answer_reports_the_counter(r: Response, s: CounterSet)
    ensures
        answers(r, Command::GetCrdt, s) <==> r == Response::Crdt(s.crdt),
        answers(r, Command::IncrementCrdt, s) <==> r == Response::Crdt(s.crdt),
        answers(r, Command::ResetCrdt, s) <==> r == Response::Crdt(s.crdt),
        answers(r, Command::GetGCounter, s) <==> r == Response::GCounter(s.gcounter),
        answers(r, Command::IncrementGCounter, s) <==> r == Response::GCounter(s.gcounter),
        answers(r, Command::GetPNCounter, s) <==> r == Response::PNCounter(s.pncounter),
        answers(r, Command::IncrementPNCounter, s) <==> r == Response::PNCounter(s.pncounter),
        answers(r, Command::DecrementPNCounter, s) <==> r == Response::PNCounter(s.pncounter),
        answers(r, Command::Unknown, s) <==> (r matches Response::Error(m) && m@
            == "Unknown command"@),
{
}

/// What a write answers is what a read right after it answers, and it is the
/// old state moved by exactly one: the answer to an increment of the
/// `CrdtCounter` or the `GCounter` carries the old count plus one, and the
/// answer to an increment or decrement of the `PNCounter` carries its old
/// counts with the one concerned raised by one.
pub proof fn lemma_write_answer_is_new_state(
    s: CounterSet,
    write: Command,
    read: Command,
    written: Response,
    read_back: Response,
)
    requires
        step_fits(s, write),
        write == Command::IncrementCrdt && read == Command::GetCrdt
            || write == Command::ResetCrdt && read == Command::GetCrdt
            || write == Command::IncrementGCounter && read == Command::GetGCounter
            || write == Command::IncrementPNCounter && read == Command::GetPNCounter
            || write == Command::DecrementPNCounter && read == Command::GetPNCounter,
        answers(written, write, step(s, write)),
        answers(read_back, read, step(step(s, write), read)),
    ensures
        written == read_back,
        write == Command::IncrementCrdt ==> (written matches Response::Crdt(c) && c.count
            == s.crdt.count + 1),
        write == Command::ResetCrdt ==> (written matches Response::Crdt(c) && c.count == 0),
        write == Command::IncrementGCounter ==> (written matches Response::GCounter(g) && g.count
            == s.gcounter.count + 1),
        write == Command::IncrementPNCounter ==> (written matches Response::PNCounter(p)
            && p.positive == s.pncounter.positive + 1 && p.negative == s.pncounter.negative),
        write == Command::DecrementPNCounter ==> (written matches Response::PNCounter(p)
            && p.positive == s.pncounter.positive && p.negative == s.pncounter.negative + 1),
{
}

/// A read answers the stored state of the counter it names, whatever state
/// the counters are in, and leaves that state as it was.
pub proof fn lemma_read_answers_stored_state(s: CounterSet, r: Response)
    ensures
        answers(r, Command::GetCrdt, step(s, Command::GetCrdt)) ==> r == Response::Crdt(s.crdt),
        answers(r, Command::GetGCounter, step(s, Command::GetGCounter)) ==> r
            == Response::GCounter(s.gcounter),
        answers(r, Command::GetPNCounter, step(s, Command::GetPNCounter)) ==> r
            == Response::PNCounter(s.pncounter),
{
}

/// Reading a counter, or sending an unknown command, changes no counter; so
/// a read answers what the last write to that counter left.
pub proof fn lemma_reads_change_nothing(s: CounterSet, write: Command)
    ensures
        step(s, Command::GetCrdt) == s,
        step(s, Command::GetGCounter) == s,
        step(s, Command::GetPNCounter) == s,
        step(s, Command::Unknown) == s,
        step(step(s, write), Command::GetCrdt).crdt == step(s, write).crdt,
        step(step(s, write), Command::GetGCounter).gcounter == step(s, write).gcounter,
        step(step(s, write), Command::GetPNCounter).pncounter == step(s, write).pncounter,
{
}

/// Without resets, what a run of commands leaves depends only on how often
/// each command occurs in it: every increment adds one to its count and
/// every decrement one to the count of decrements, whatever their order.
pub proof fn lemma_run_counts(s: CounterSet, cmds: Seq<Command>)
    requires
        occurrences(cmds, Command::ResetCrdt) == 0,
        s.crdt.count + occurrences(cmds, Command::IncrementCrdt) <= i32::MAX,
        s.gcounter.count + occurrences(cmds, Command::IncrementGCounter) <= i32::MAX,
        s.pncounter.positive + occurrences(cmds, Command::IncrementPNCounter) <= i32::MAX,
        s.pncounter.negative + occurrences(cmds, Command::DecrementPNCounter) <= i32::MAX,
    ensures
        run(s, cmds).crdt.count == s.crdt.count + occurrences(cmds, Command::IncrementCrdt),
        run(s, cmds).gcounter.count == s.gcounter.count + occurrences(
            cmds,
            Command::IncrementGCounter,
        ),
        run(s, cmds).pncounter.positive == s.pncounter.positive + occurrences(
            cmds,
            Command::IncrementPNCounter,
        ),
        run(s, cmds).pncounter.negative == s.pncounter.negative + occurrences(
            cmds,
            Command::DecrementPNCounter,
        ),
        run(s, cmds).pncounter.spec_value() == s.pncounter.spec_value() + occurrences(
            cmds,
            Command::IncrementPNCounter,
        ) - occurrences(cmds, Command::DecrementPNCounter),
    decreases cmds.len(),
{
    broadcast use vstd::seq_lib::group_to_multiset_ensures;

    if cmds.len() == 0 {
        assert(cmds.to_multiset() =~= vstd::multiset::Multiset::empty());
    } else {
        let prefix = cmds.drop_last();
        let last = cmds.last();
        assert(cmds =~= prefix.push(last));
        assert(cmds.to_multiset() =~= prefix.to_multiset().insert(last));
        lemma_run_counts(s, prefix);
    }
}

/// Clients whose commands reach the server in different interleavings leave
/// the same counters, as long as no command resets the `CrdtCounter`: two
/// runs that hold the same commands, in any order, end in the same state.
pub proof fn lemma_run_order_independent(s: CounterSet, cmds1: Seq<Command>, cmds2: Seq<Command>)
    requires
        cmds1.to_multiset() == cmds2.to_multiset(),
        occurrences(cmds1, Command::ResetCrdt) == 0,
        s.crdt.count + occurrences(cmds1, Command::IncrementCrdt) <= i32::MAX,
        s.gcounter.count + occurrences(cmds1, Command::IncrementGCounter) <= i32::MAX,
        s.pncounter.positive + occurrences(cmds1, Command::IncrementPNCounter) <= i32::MAX,
        s.pncounter.negative + occurrences(cmds1, Command::DecrementPNCounter) <= i32::MAX,
    ensures
        run(s, cmds1) == run(s, cmds2),
{
    lemma_run_counts(s, cmds1);
    lemma_run_counts(s, cmds2);
}

} // verus!
