use vstd::prelude::*;
use crate::decimal::{parse_usize, parsed_usize};
use crate::text::{contains, contains_seq};

verus! {

/// The schema version this build brings the database to: the number of
/// upgrade scripts it carries.
pub const SCHEMA_VERSION: usize = 29;

/// The first schema version whose number is kept in `local_settings`
/// rather than in the `version` row of `settings`.
pub const LOCAL_SETTINGS_SINCE: usize = 24;

/// Where a schema version number is recorded.
#[derive(Clone, Copy, Debug, PartialEq, Eq, Structural)]
pub enum VersionTable {
    /// `UPDATE settings SET value=? WHERE key='version'`
    Settings,
    /// `UPDATE local_settings SET schema_version=?`
    LocalSettings,
}

/// Why the upgrade cannot go on at all (the program stops).
#[derive(Clone, Copy, Debug, PartialEq, Eq, Structural)]
pub enum AbortReason {
    /// The database was written by a newer build.
    NewerThanBinary { found: usize, expected: usize },
    /// The legacy `settings` version row does not hold a number.
    UnreadableVersion,
}

/// What the caller is to do next against the database.
#[derive(Clone, Copy, Debug, PartialEq, Eq, Structural)]
pub enum Command {
    /// Run `SELECT schema_version FROM local_settings LIMIT 1`.
    QuerySchemaVersion,
    /// Run `SELECT value FROM settings WHERE key='version'`.
    QueryLegacyVersion,
    /// Note that this is the program's first run.
    MarkFirstRun,
    /// Execute the upgrade script at this index (it brings the schema from
    /// version `index` to `index + 1`).
    RunScript(usize),
    /// Record this schema version in this table.
    RecordVersion(VersionTable, usize),
    /// The schema is current, at this version: return success.
    Finish(usize),
    /// Return the database error that the last command produced.
    PropagateError,
    /// Stop the program.
    Abort(AbortReason),
}

/// What happened to the last command.
#[derive(Debug)]
pub enum Event {
    /// Nothing has been done yet.
    Start,
    /// The schema version query answered this version.
    SchemaVersion(usize),
    /// The schema version query failed; the database's own failure message,
    /// when the error carried one.
    SchemaQueryFailed(Option<String>),
    /// The legacy version query answered this text.
    LegacyVersion(String),
    /// The legacy version query failed.
    LegacyQueryFailed,
    /// The last command succeeded.
    Succeeded,
    /// The last command failed with a database error.
    Failed,
}

/// Where the check stands.
#[derive(Clone, Copy, Debug, PartialEq, Eq, Structural)]
pub enum Phase {
    Idle,
    AwaitingSchemaVersion,
    AwaitingLegacyVersion,
    /// First run being noted; the upgrade then starts from this version.
    MarkingFirstRun(usize),
    /// The script bringing the schema from this version is running.
    RunningScript(usize),
    /// This (new) version is being recorded.
    RecordingVersion(usize),
    Finished,
    Failed,
}

/// Which table records `version`.
pub open spec fn version_table(version: nat) -> VersionTable {
    if version < LOCAL_SETTINGS_SINCE {
        VersionTable::Settings
    } else {
        VersionTable::LocalSettings
    }
}

/// The database failure says that the table asked for does not exist.
pub open spec fn reports_missing_table(message: Option<String>) -> bool {
    match message {
        Some(m) => contains_seq(m@, "no such table"@),
        None => false,
    }
}

/// Starting the upgrade from `version`.
pub open spec fn spec_upgrade(version: usize) -> (Phase, Command) {
    if version > SCHEMA_VERSION {
        (
            Phase::Failed,
            Command::Abort(AbortReason::NewerThanBinary { found: version, expected: SCHEMA_VERSION }),
        )
    } else if version == SCHEMA_VERSION {
        (Phase::Finished, Command::Finish(version))
    } else {
        (Phase::RunningScript(version), Command::RunScript(version))
    }
}

/// The answer to the legacy version query.
pub open spec fn spec_old_check(answer: Option<Seq<char>>) -> (Phase, Command) {
    match answer {
        Some(text) => match parsed_usize(text) {
            None => (Phase::Failed, Command::Abort(AbortReason::UnreadableVersion)),
            Some(v) => if v < 2 {
                (Phase::MarkingFirstRun(v), Command::MarkFirstRun)
            } else {
                spec_upgrade(v)
            },
        },
        None => (Phase::MarkingFirstRun(0), Command::MarkFirstRun),
    }
}

/// The answer to the schema version query.
pub open spec fn spec_check(answer: Result<usize, Option<String>>) -> (Phase, Command) {
    match answer {
        Ok(v) => spec_upgrade(v),
        Err(message) => if reports_missing_table(message) {
            (Phase::AwaitingLegacyVersion, Command::QueryLegacyVersion)
        } else {
            (Phase::Failed, Command::PropagateError)
        },
    }
}

/// The events that each phase waits for.
pub open spec fn accepts(phase: Phase, event: Event) -> bool {
    match phase {
        Phase::Idle => event is Start,
        Phase::AwaitingSchemaVersion => event is SchemaVersion || event is SchemaQueryFailed,
        Phase::AwaitingLegacyVersion => event is LegacyVersion || event is LegacyQueryFailed,
        Phase::MarkingFirstRun(_) => event is Succeeded,
        Phase::RunningScript(_) => event is Succeeded || event is Failed,
        Phase::RecordingVersion(_) => event is Succeeded || event is Failed,
        Phase::Finished => false,
        Phase::Failed => false,
    }
}

/// The transition: the next phase and the command to carry out, for an
/// event that the phase waits for.
pub open spec fn next(phase: Phase, event: Event) -> (Phase, Command) {
    match phase {
        Phase::Idle => (Phase::AwaitingSchemaVersion, Command::QuerySchemaVersion),
        Phase::AwaitingSchemaVersion => match event {
            Event::SchemaVersion(v) => spec_check(Ok(v)),
            Event::SchemaQueryFailed(m) => spec_check(Err(m)),
            _ => (phase, Command::PropagateError),
        },
        Phase::AwaitingLegacyVersion => match event {
            Event::LegacyVersion(text) => spec_old_check(Some(text@)),
            _ => spec_old_check(None),
        },
        Phase::MarkingFirstRun(v) => spec_upgrade(v),
        Phase::RunningScript(v) => match event {
            Event::Succeeded => (
                Phase::RecordingVersion((v + 1) as usize),
                Command::RecordVersion(version_table((v + 1) as nat), (v + 1) as usize),
            ),
            _ => (Phase::Failed, Command::PropagateError),
        },
        Phase::RecordingVersion(v) => match event {
            Event::Succeeded => if v < SCHEMA_VERSION {
                (Phase::RunningScript(v), Command::RunScript(v))
            } else {
                (Phase::Finished, Command::Finish(v))
            },
            _ => (Phase::Failed, Command::PropagateError),
        },
        _ => (phase, Command::PropagateError),
    }
}

/// The phases that the check can be in: script indexes and recorded
/// versions stay within the scripts this build carries.
pub open spec fn phase_ok(phase: Phase) -> bool {
    match phase {
        Phase::MarkingFirstRun(v) => v < 2,
        Phase::RunningScript(v) => v < SCHEMA_VERSION,
        Phase::RecordingVersion(v) => 1 <= v <= SCHEMA_VERSION,
        _ => true,
    }
}

/// A command names only scripts and versions that this build has.
pub open spec fn command_ok(command: Command) -> bool {
    match command {
        Command::RunScript(i) => i < SCHEMA_VERSION,
        Command::RecordVersion(t, v) => 1 <= v <= SCHEMA_VERSION && t == version_table(v as nat),
        Command::Finish(v) => v == SCHEMA_VERSION,
        _ => true,
    }
}

/// Every step keeps the check within the scripts this build carries: from a
/// phase in range, an awaited event leads to a phase in range, and the
/// command it answers names only an existing script, a version from 1 to
/// [`SCHEMA_VERSION`] recorded in the table for that version, or success at
/// exactly [`SCHEMA_VERSION`].
pub proof fn law_step_stays_in_range(phase: Phase, event: Event)
    requires
        phase_ok(phase),
        accepts(phase, event),
    ensures
        phase_ok(next(phase, event).0),
        command_ok(next(phase, event).1),
{
}

/// The commands that a successful upgrade from `from` issues, in order:
/// for each version `w` from `from` below [`SCHEMA_VERSION`], the script
/// for `w` and then the recording of `w + 1`; and last, success at
/// [`SCHEMA_VERSION`].
pub open spec fn upgrade_plan(from: nat) -> Seq<Command>
    decreases SCHEMA_VERSION - from,
{
    if from >= SCHEMA_VERSION {
        seq![Command::Finish(SCHEMA_VERSION)]
    } else {
        seq![
            Command::RunScript(from as usize),
            Command::RecordVersion(version_table(from + 1), (from + 1) as usize),
        ] + upgrade_plan(from + 1)
    }
}

/// The phase reached, and the commands answered, when each of the next `n`
/// commands succeeds.
pub open spec fn run_succeeding(phase: Phase, n: nat) -> (Phase, Seq<Command>)
    decreases n,
{
    if n == 0 {
        (phase, Seq::empty())
    } else {
        let (p, c) = next(phase, Event::Succeeded);
        let (q, cs) = run_succeeding(p, (n - 1) as nat);
        (q, seq![c] + cs)
    }
}

proof fn lemma_running_to_end(v: nat)
    requires
        v < SCHEMA_VERSION,
    ensures
        run_succeeding(Phase::RunningScript(v as usize), (2 * (SCHEMA_VERSION - v)) as nat)
            == (Phase::Finished, upgrade_plan(v).drop_first()),
    decreases SCHEMA_VERSION - v,
{
    let n: nat = (2 * (SCHEMA_VERSION - v)) as nat;
    let w: usize = (v + 1) as usize;
    let rec = Command::RecordVersion(version_table(v + 1), w);
    assert(next(Phase::RunningScript(v as usize), Event::Succeeded) == (Phase::RecordingVersion(w), rec));
    let tail = run_succeeding(Phase::RecordingVersion(w), (n - 1) as nat);
    assert(run_succeeding(Phase::RunningScript(v as usize), n) == (tail.0, seq![rec] + tail.1));
    if v + 1 < SCHEMA_VERSION {
        lemma_running_to_end(v + 1);
        let rest = run_succeeding(Phase::RunningScript(w), (n - 2) as nat);
        assert(tail == (rest.0, seq![Command::RunScript(w)] + rest.1));
        assert(upgrade_plan(v + 1) =~= seq![Command::RunScript(w)] + upgrade_plan(v + 1).drop_first());
        assert(upgrade_plan(v).drop_first() =~= seq![rec] + upgrade_plan(v + 1));
    } else {
        assert(run_succeeding(Phase::Finished, 0) == (Phase::Finished, Seq::<Command>::empty()));
        assert(tail == (Phase::Finished, seq![Command::Finish(SCHEMA_VERSION)] + Seq::<Command>::empty()));
        assert(upgrade_plan(v).drop_first() =~= seq![rec, Command::Finish(SCHEMA_VERSION)]);
    }
}

/// A successful upgrade from any version the build knows runs exactly the
/// scripts from that version up, once each and in order, records every new
/// version right after its script (in `settings` below
/// [`LOCAL_SETTINGS_SINCE`], in `local_settings` from there on), and ends in
/// success at [`SCHEMA_VERSION`], after two commands per script.
pub proof fn law_upgrade_runs_each_script_once(version: usize)
    requires
        version <= SCHEMA_VERSION,
    ensures
        ({
            let (start, first) = spec_upgrade(version);
            let (end, rest) = run_succeeding(start, (2 * (SCHEMA_VERSION - version)) as nat);
            &&& seq![first] + rest == upgrade_plan(version as nat)
            &&& end == Phase::Finished
        }),
{
    if version < SCHEMA_VERSION {
        lemma_running_to_end(version as nat);
        let plan = upgrade_plan(version as nat);
        assert(plan =~= seq![Command::RunScript(version)] + plan.drop_first());
    } else {
        assert(run_succeeding(Phase::Finished, 0) == (Phase::Finished, Seq::<Command>::empty()));
        assert(seq![Command::Finish(SCHEMA_VERSION)] + Seq::<Command>::empty() =~= upgrade_plan(version as nat));
    }
}

/// A database error ends the check: once a script or a version record
/// fails, that error is handed back and nothing more is run; and a check
/// that has finished or failed waits for nothing further.
pub proof fn law_failure_ends_the_check(v: usize, event: Event)
    ensures
        next(Phase::RunningScript(v), Event::Failed) == (Phase::Failed, Command::PropagateError),
        next(Phase::RecordingVersion(v), Event::Failed) == (Phase::Failed, Command::PropagateError),
        !accepts(Phase::Finished, event),
        !accepts(Phase::Failed, event),
{
}

/// On a database without the schema version table, the first run is noted
/// exactly when the legacy version row is missing or holds a version below
/// 2; an unreadable version stops the program, and any other version goes
/// straight to the upgrade.
pub proof fn law_first_run_is_noted_for_old_databases(answer: Option<Seq<char>>)
    ensures
        (spec_old_check(answer).1 == Command::MarkFirstRun) <==> (match answer {
            None => true,
            Some(text) => parsed_usize(text) matches Some(v) && v < 2,
        }),
        match answer {
            None => true,
            Some(text) => match parsed_usize(text) {
                None => spec_old_check(answer).1 == Command::Abort(AbortReason::UnreadableVersion),
                Some(v) => v >= 2 ==> spec_old_check(answer) == spec_upgrade(v),
            },
        },
{
}

/// The shape of a successful upgrade from `from`: one script and one
/// version record per missing version, in increasing order, and then
/// success at [`SCHEMA_VERSION`]. The `k`-th script is the one for version
/// `from + k`, and the record after it stores `from + k + 1`, in `settings`
/// below [`LOCAL_SETTINGS_SINCE`] and in `local_settings` from there on.
pub proof fn law_upgrade_plan_shape(from: nat)
    requires
        from <= SCHEMA_VERSION,
    ensures
        upgrade_plan(from).len() == 2 * (SCHEMA_VERSION - from) + 1,
        forall|k: int|
            0 <= k < SCHEMA_VERSION - from ==> {
                &&& #[trigger] upgrade_plan(from)[2 * k] == Command::RunScript((from + k) as usize)
                &&& upgrade_plan(from)[2 * k + 1] == Command::RecordVersion(
                    if from + k + 1 < 24 {
                        VersionTable::Settings
                    } else {
                        VersionTable::LocalSettings
                    },
                    (from + k + 1) as usize,
                )
            },
        upgrade_plan(from).last() == Command::Finish(29),
    decreases SCHEMA_VERSION - from,
{
    if from < SCHEMA_VERSION {
        law_upgrade_plan_shape(from + 1);
        let p = upgrade_plan(from);
        let q = upgrade_plan(from + 1);
        assert(p =~= seq![
            Command::RunScript(from as usize),
            Command::RecordVersion(version_table(from + 1), (from + 1) as usize),
        ] + q);
        assert forall|k: int| 0 <= k < SCHEMA_VERSION - from implies {
            &&& #[trigger] p[2 * k] == Command::RunScript((from + k) as usize)
            &&& p[2 * k + 1] == Command::RecordVersion(
                if from + k + 1 < 24 {
                    VersionTable::Settings
                } else {
                    VersionTable::LocalSettings
                },
                (from + k + 1) as usize,
            )
        } by {
            if k > 0 {
                let j = k - 1;
                assert(p[2 * k] == q[2 * j]);
                assert(p[2 * k + 1] == q[2 * j + 1]);
                assert(q[2 * j] == Command::RunScript((from + 1 + j) as usize));
            }
        }
    }
}

/// The answer of the schema version query decides where the upgrade
/// starts: a version behind this build runs the script for exactly that
/// version first (and then, on success, all later ones as the plan says);
/// this build's version finishes at once; a later version stops the program.
pub proof fn law_schema_version_answer_starts_upgrade_there(v: usize)
    ensures
        v < 29 ==> next(Phase::AwaitingSchemaVersion, Event::SchemaVersion(v)) == (
            Phase::RunningScript(v),
            Command::RunScript(v),
        ),
        v == 29 ==> next(Phase::AwaitingSchemaVersion, Event::SchemaVersion(v)) == (
            Phase::Finished,
            Command::Finish(29),
        ),
        v > 29 ==> next(Phase::AwaitingSchemaVersion, Event::SchemaVersion(v)).1 == Command::Abort(
            AbortReason::NewerThanBinary { found: v, expected: 29 },
        ),
        v <= 29 ==> ({
            let (start, first) = next(Phase::AwaitingSchemaVersion, Event::SchemaVersion(v));
            let (end, rest) = run_succeeding(start, (2 * (29 - v)) as nat);
            &&& seq![first] + rest == upgrade_plan(v as nat)
            &&& end == Phase::Finished
        }),
{
    if v <= 29 {
        law_upgrade_runs_each_script_once(v);
    }
}

/// On a database that only has the legacy version row, the upgrade starts
/// from the version that row holds: after a first run is noted (version
/// below 2, or no row at all, which counts as version 0) the next command
/// is the script for that same version, and the whole successful run is the
/// first-run note followed by the plan from that version.
pub proof fn law_legacy_version_resumes_there(text: String, v: usize)
    requires
        parsed_usize(text@) == Some(v),
    ensures
        v < 2 ==> next(Phase::AwaitingLegacyVersion, Event::LegacyVersion(text)) == (
            Phase::MarkingFirstRun(v),
            Command::MarkFirstRun,
        ),
        v < 2 ==> next(Phase::MarkingFirstRun(v), Event::Succeeded) == (
            Phase::RunningScript(v),
            Command::RunScript(v),
        ),
        v < 2 ==> run_succeeding(Phase::MarkingFirstRun(v), (2 * (29 - v) + 1) as nat) == (
            Phase::Finished,
            upgrade_plan(v as nat),
        ),
        2 <= v < 29 ==> next(Phase::AwaitingLegacyVersion, Event::LegacyVersion(text)) == (
            Phase::RunningScript(v),
            Command::RunScript(v),
        ),
        next(Phase::AwaitingLegacyVersion, Event::LegacyQueryFailed) == (
            Phase::MarkingFirstRun(0),
            Command::MarkFirstRun,
        ),
        next(Phase::MarkingFirstRun(0), Event::Succeeded) == (
            Phase::RunningScript(0),
            Command::RunScript(0),
        ),
{
    if v < 2 {
        lemma_running_to_end(v as nat);
        let n: nat = (2 * (29 - v) + 1) as nat;
        let rest = run_succeeding(Phase::RunningScript(v), (n - 1) as nat);
        assert(run_succeeding(Phase::MarkingFirstRun(v), n) == (rest.0, seq![Command::RunScript(v)] + rest.1));
        let plan = upgrade_plan(v as nat);
        assert(plan =~= seq![Command::RunScript(v)] + plan.drop_first());
    }
}

/// Which table records `version`.
pub fn version_table_for(version: usize) -> (t: VersionTable)
    ensures
        t == version_table(version as nat),
{
    if version < LOCAL_SETTINGS_SINCE {
        VersionTable::Settings
    } else {
        VersionTable::LocalSettings
    }
}

/// Whether a database failure message says that a table is missing.
pub fn is_missing_table(message: &Option<String>) -> (r: bool)
    ensures
        r == reports_missing_table(*message),
{
    match message {
        Some(m) => contains(m.as_str(), "no such table"),
        None => false,
    }
}

/// Starts bringing the schema from `version` to [`SCHEMA_VERSION`]: refuses
/// a database newer than this build, finishes at once when it is current,
/// and otherwise runs the script for the next version.
pub fn upgrade(version: usize) -> (r: (Phase, Command))
    ensures
        r == spec_upgrade(version),
{
    if version > SCHEMA_VERSION {
        (
            Phase::Failed,
            Command::Abort(AbortReason::NewerThanBinary { found: version, expected: SCHEMA_VERSION }),
        )
    } else if version == SCHEMA_VERSION {
        (Phase::Finished, Command::Finish(version))
    } else {
        (Phase::RunningScript(version), Command::RunScript(version))
    }
}

/// Decides on the answer of the legacy `settings` version query (`None` when
/// the query failed): a failed query or a version below 2 means a first run;
/// text that is not a number stops the program.
pub fn old_check_and_upgrade(answer: Option<&str>) -> (r: (Phase, Command))
    ensures
        r == spec_old_check(
            match answer {
                Some(t) => Some(t@),
                None => None,
            },
        ),
{
    match answer {
        Some(text) => match parse_usize(text) {
            None => (Phase::Failed, Command::Abort(AbortReason::UnreadableVersion)),
            Some(v) => if v < 2 {
                (Phase::MarkingFirstRun(v), Command::MarkFirstRun)
            } else {
                upgrade(v)
            },
        },
        None => (Phase::MarkingFirstRun(0), Command::MarkFirstRun),
    }
}

/// Decides on the answer of the schema version query: a version starts the
/// upgrade; a failure that reports a missing table falls back to the legacy
/// version row; any other failure is returned.
pub fn check_and_upgrade(answer: &Result<usize, Option<String>>) -> (r: (Phase, Command))
    ensures
        r == spec_check(*answer),
{
    match answer {
        Ok(v) => upgrade(*v),
        Err(message) => if is_missing_table(message) {
            (Phase::AwaitingLegacyVersion, Command::QueryLegacyVersion)
        } else {
            (Phase::Failed, Command::PropagateError)
        },
    }
}

/// The schema check and upgrade, one database command at a time.
pub struct SchemaUpgrade {
    phase: Phase,
}

impl SchemaUpgrade {
    #[verifier::type_invariant]
    spec fn inv(self) -> bool {
        phase_ok(self.phase)
    }
}

impl View for SchemaUpgrade {
    type V = Phase;

    closed spec fn view(&self) -> Phase {
        self.phase
    }
}

impl SchemaUpgrade {
    /// A check that has not started.
    pub fn new() -> (s: Self)
        ensures
            s@ == Phase::Idle,
    {
        SchemaUpgrade { phase: Phase::Idle }
    }

    /// Where the check stands.
    pub fn phase(&self) -> (p: Phase)
        ensures
            p == self@,
            phase_ok(p),
    {
        proof { use_type_invariant(self); }
        self.phase
    }

    /// Whether the check is waiting for `event`.
    pub fn accepts(&self, event: &Event) -> (r: bool)
        ensures
            r == accepts(self@, *event),
    {
        match self.phase {
            Phase::Idle => event.is_start(),
            Phase::AwaitingSchemaVersion => match event {
                Event::SchemaVersion(_) => true,
                Event::SchemaQueryFailed(_) => true,
                _ => false,
            },
            Phase::AwaitingLegacyVersion => match event {
                Event::LegacyVersion(_) => true,
                Event::LegacyQueryFailed => true,
                _ => false,
            },
            Phase::MarkingFirstRun(_) => match event {
                Event::Succeeded => true,
                _ => false,
            },
            Phase::RunningScript(_) | Phase::RecordingVersion(_) => match event {
                Event::Succeeded => true,
                Event::Failed => true,
                _ => false,
            },
            Phase::Finished | Phase::Failed => false,
        }
    }

    /// Takes in what happened to the last command and answers the next one.
    pub fn step(&mut self, event: Event) -> (command: Command)
        requires
            accepts(old(self)@, event),
        ensures
            (final(self)@, command) == next(old(self)@, event),
            phase_ok(final(self)@),
            command_ok(command),
    {
        proof {
            use_type_invariant(&*self);
            law_step_stays_in_range(self.phase, event);
        }
        let (phase, command) = match self.phase {
            Phase::Idle => (Phase::AwaitingSchemaVersion, Command::QuerySchemaVersion),
            Phase::AwaitingSchemaVersion => match event {
                Event::SchemaVersion(v) => check_and_upgrade(&Ok(v)),
                Event::SchemaQueryFailed(m) => check_and_upgrade(&Err(m)),
                _ => (self.phase, Command::PropagateError),
            },
            Phase::AwaitingLegacyVersion => match event {
                Event::LegacyVersion(text) => old_check_and_upgrade(Some(text.as_str())),
                _ => old_check_and_upgrade(None),
            },
            Phase::MarkingFirstRun(v) => upgrade(v),
            Phase::RunningScript(v) => match event {
                Event::Succeeded => (
                    Phase::RecordingVersion(v + 1),
                    Command::RecordVersion(version_table_for(v + 1), v + 1),
                ),
                _ => (Phase::Failed, Command::PropagateError),
            },
            Phase::RecordingVersion(v) => match event {
                Event::Succeeded => if v < SCHEMA_VERSION {
                    (Phase::RunningScript(v), Command::RunScript(v))
                } else {
                    (Phase::Finished, Command::Finish(v))
                },
                _ => (Phase::Failed, Command::PropagateError),
            },
            _ => (self.phase, Command::PropagateError),
        };
        self.phase = phase;
        command
    }
}

impl Event {
    /// Whether this is the start event.
    pub fn is_start(&self) -> (r: bool)
        ensures
            r == (*self is Start),
    {
        match self {
            Event::Start => true,
            _ => false,
        }
    }
}

} // verus!
