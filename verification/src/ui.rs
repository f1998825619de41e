//! The state of the interface: what the render loop keeps between ticks,
//! and how keys, readings and the clock change it.

use crate::clock::seconds_between;
use crate::handoff::{CellView, LatestCell};
use crate::humanize::{decimal, format_bytes, human_size, push_decimal};
use crate::input::{intent_of, intent_of_key, Input, Intent, Key, KeyInput, KeyKind};
use crate::memory::MemoryView;
pub use crate::memory::RamUsage;
use crate::snapshot::{CpuView, Snapshot, SnapshotView};
use crate::system::get_ram_info;
use std::time::Instant;
use vstd::prelude::*;
use vstd::string::StringExecFns;

verus! {

/// Seconds without a change after which the shown character moves on.
pub const TICKER_PERIOD_SECS: u64 = 2;

/// What the render loop can fail with.
#[derive(Debug)]
pub enum UiErrors {
    GenericError(String),
}

/// The text of the error that a failed frame gives.
pub open spec fn drawing_failure() -> Seq<char> {
    "error drawing to frame"@
}

impl UiErrors {
    /// What the error says of itself.
    pub open spec fn text(self) -> Seq<char> {
        match self {
            UiErrors::GenericError(what) => "error "@ + what@,
        }
    }

    /// The error as a line for the user: the word "error" and what failed.
    pub fn message(&self) -> (line: String)
        ensures
            line@ == self.text(),
    {
        match self {
            UiErrors::GenericError(what) => {
                let mut line = String::from_str("error ");
                line.append(what.as_str());
                line
            },
        }
    }
}

/// The character that the ticker shows in phase `phase`.
pub open spec fn ticker_char(phase: nat) -> char {
    let step = phase % 4;
    if step == 0 {
        'A'
    } else if step == 1 {
        'B'
    } else if step == 2 {
        'C'
    } else {
        'D'
    }
}

/// The line that reports the usage: the percentage, or a placeholder where
/// there is none to report.
pub open spec fn usage_line(percent: Option<nat>) -> Seq<char> {
    match percent {
        Some(p) => "Usage: "@ + decimal(p) + "%"@,
        None => "Usage: n/a"@,
    }
}

/// What stands in place of a size where there is none to report.
pub open spec fn no_size() -> Seq<char> {
    "n/a"@
}

/// What a frame shows, ready to be laid out.
#[derive(Debug)]
pub struct Dashboard {
    /// The character on show.
    pub pressed: char,
    /// Bytes in use, for the chart.
    pub used_bytes: u64,
    /// Bytes not in use, for the chart.
    pub free_bytes: u64,
    /// The total, written for a reader.
    pub total_text: String,
    /// The used part, written for a reader.
    pub used_text: String,
    /// The free part, written for a reader.
    pub free_text: String,
    /// The line that reports the usage.
    pub usage_text: String,
}

/// The state as plain values.
pub struct AppView {
    /// Whether the user asked to leave.
    pub exit: bool,
    /// The character on show: the last key, or the ticker's.
    pub value: char,
    /// The newest snapshot taken in, none before the first.
    pub snapshot: Option<SnapshotView>,
    /// The version, in the sampler's cell, of the last snapshot taken from it.
    pub seen: nat,
    /// When the shown character last moved on by the clock.
    pub last_update: Instant,
}

impl AppView {
    /// The state after an intent was applied.
    pub open spec fn apply(self, intent: Intent) -> AppView {
        match intent {
            Intent::Quit => AppView { exit: true, ..self },
            Intent::Show(c) => AppView { value: c, ..self },
            Intent::Ignore => self,
        }
    }

    /// The state after the sampler's cell was looked at: the newest snapshot
    /// is taken in where it is newer than all seen, unless the user has
    /// asked to leave.
    pub open spec fn consume(self, newer: Option<(nat, SnapshotView)>) -> AppView {
        if !self.exit && newer.is_some() {
            AppView { snapshot: Some(newer.unwrap().1), seen: newer.unwrap().0, ..self }
        } else {
            self
        }
    }

    /// The state after a reading of memory came in directly: it becomes the
    /// snapshot where it says something, unless the user has asked to leave.
    pub open spec fn take_reading(self, total: nat, used: nat) -> AppView {
        if !self.exit && total > 0 && used <= total {
            AppView {
                snapshot: Some(
                    SnapshotView {
                        cpus: Seq::<CpuView>::empty(),
                        memory: MemoryView { total, used },
                    },
                ),
                ..self
            }
        } else {
            self
        }
    }

    /// Whether `frame` is what this state shows: the character on show, and
    /// of the newest snapshot the used and the free bytes, the three sizes
    /// written out and the usage in percent; before the first snapshot no
    /// bytes, and placeholders for the texts.
    pub open spec fn shown_by(self, frame: Dashboard) -> bool {
        &&& frame.pressed == self.value
        &&& match self.snapshot {
            Some(snapshot) => {
                &&& frame.used_bytes == snapshot.memory.used
                &&& frame.free_bytes == snapshot.memory.free()
                &&& frame.total_text@ == human_size(snapshot.memory.total)
                &&& frame.used_text@ == human_size(snapshot.memory.used)
                &&& frame.free_text@ == human_size(snapshot.memory.free())
                &&& frame.usage_text@ == usage_line(snapshot.memory.usage_percent())
            },
            None => {
                &&& frame.used_bytes == 0
                &&& frame.free_bytes == 0
                &&& frame.total_text@ == no_size()
                &&& frame.used_text@ == no_size()
                &&& frame.free_text@ == no_size()
                &&& frame.usage_text@ == usage_line(None)
            },
        }
    }

    /// The state after one pass of the render loop that follows a frame:
    /// the cell is looked at, then the intent is applied. The clock's part
    /// is not in it.
    pub open spec fn pass(self, cell: CellView, input: Input) -> AppView {
        self.consume(cell.newer_than(self.seen)).apply(intent_of(input))
    }

    /// The state at the opening of the render loop, at the moment `now`: a
    /// first reading is taken in and the ticker's period starts.
    pub open spec fn begin(self, total: nat, used: nat, now: Instant) -> AppView {
        AppView { last_update: now, ..self.take_reading(total, used) }
    }

    /// The state after the clock was looked at, `since_update` whole seconds
    /// after the last move and in phase `phase`: the shown character moves on
    /// once the period has passed.
    pub open spec fn indicate(self, since_update: nat, phase: nat, now: Instant) -> AppView {
        if since_update >= TICKER_PERIOD_SECS {
            AppView { value: ticker_char(phase), last_update: now, ..self }
        } else {
            self
        }
    }
}

/// What the interface keeps from tick to tick.
pub struct AppState {
    exit: bool,
    value: char,
    snapshot: Option<Snapshot>,
    seen: u64,
    last_update: Instant,
}

impl View for AppState {
    type V = AppView;

    closed spec fn view(&self) -> AppView {
        AppView {
            exit: self.exit,
            value: self.value,
            snapshot: match self.snapshot {
                Some(snapshot) => Some(snapshot@),
                None => None,
            },
            seen: self.seen as nat,
            last_update: self.last_update,
        }
    }
}

impl Clone for AppState {
    /// A second state with the same values.
    fn clone(&self) -> (copy: AppState)
        ensures
            copy@ == self@,
    {
        AppState {
            exit: self.exit,
            value: self.value,
            snapshot: match &self.snapshot {
                Some(snapshot) => Some(snapshot.clone()),
                None => None,
            },
            seen: self.seen,
            last_update: self.last_update,
        }
    }
}

impl AppState {
    /// The state at startup: not leaving, a blank on show, no snapshot yet.
    pub fn new() -> (state: AppState)
        ensures
            !state@.exit,
            state@.value == ' ',
            state@.snapshot.is_none(),
            state@.seen == 0,
    {
        AppState { exit: false, value: ' ', snapshot: None, seen: 0, last_update: Instant::now() }
    }

    /// Whether the user asked to leave.
    pub fn should_exit(&self) -> (exit: bool)
        ensures
            exit == self@.exit,
    {
        self.exit
    }

    /// The character on show.
    pub fn value(&self) -> (value: char)
        ensures
            value == self@.value,
    {
        self.value
    }

    /// The newest snapshot taken in.
    pub fn snapshot(&self) -> (snapshot: Option<&Snapshot>)
        ensures
            snapshot.is_some() <==> self@.snapshot.is_some(),
            snapshot.is_some() ==> snapshot.unwrap()@ == self@.snapshot.unwrap(),
    {
        self.snapshot.as_ref()
    }

    /// The memory reading of the newest snapshot; the empty reading before
    /// the first.
    pub fn ram_usage(&self) -> (reading: RamUsage)
        ensures
            self@.snapshot.is_some() ==> reading@ == self@.snapshot.unwrap().memory,
            self@.snapshot.is_none() ==> reading@ == (MemoryView { total: 0, used: 0 }),
    {
        match &self.snapshot {
            Some(snapshot) => snapshot.memory(),
            None => RamUsage::default(),
        }
    }

    /// The version of the last snapshot taken from the sampler's cell.
    pub fn seen(&self) -> (seen: u64)
        ensures
            seen == self@.seen,
    {
        self.seen
    }

    /// Records that the user asked to leave. Nothing takes this back.
    pub fn exit(&mut self)
        ensures
            final(self)@ == old(self)@.apply(Intent::Quit),
    {
        self.exit = true;
    }

    /// Puts a character on show.
    pub fn handle_char(&mut self, value: char)
        ensures
            final(self)@ == old(self)@.apply(Intent::Show(value)),
    {
        self.value = value;
    }

    /// Acts on a pressed key: `q` asks to leave, another character goes on
    /// show, any other key changes nothing.
    pub fn handle_key_events(&mut self, key_event: KeyInput)
        ensures
            final(self)@ == old(self)@.apply(intent_of_key(key_event.key)),
    {
        match key_event.key.intent() {
            Intent::Quit => self.exit(),
            Intent::Show(c) => self.handle_char(c),
            Intent::Ignore => {},
        }
    }

    /// Acts on what one poll of the terminal gave: on a key that was
    /// pressed, and on nothing else. It never fails.
    pub fn handle_events(&mut self, input: Input) -> (done: Result<(), UiErrors>)
        ensures
            done.is_ok(),
            final(self)@ == old(self)@.apply(intent_of(input)),
    {
        match input.intent() {
            Intent::Quit => self.exit(),
            Intent::Show(c) => self.handle_char(c),
            Intent::Ignore => {},
        }
        Ok(())
    }

    /// Looks at the sampler's cell and takes in its snapshot where that is
    /// newer than all seen. It takes nothing once the user has asked to
    /// leave, and keeps the snapshot it has where the cell holds no newer.
    pub fn consume(&mut self, cell: &LatestCell)
        ensures
            final(self)@ == old(self)@.consume(cell@.newer_than(old(self)@.seen)),
    {
        if !self.exit {
            match cell.read_newer(self.seen) {
                Some((version, snapshot)) => {
                    self.snapshot = Some(snapshot);
                    self.seen = version;
                },
                None => {},
            }
        }
    }

    /// Takes a reading of memory in as the snapshot, with no core read. A
    /// reading that says nothing, or more in use than there is, is left out,
    /// and so is any once the user has asked to leave.
    pub fn take_reading(&mut self, total_memory: u64, used_memory: u64)
        ensures
            final(self)@ == old(self)@.take_reading(total_memory as nat, used_memory as nat),
    {
        if !self.exit {
            match RamUsage::new(total_memory, used_memory) {
                Some(reading) => {
                    match Snapshot::of_memory(reading) {
                        Some(snapshot) => {
                            self.snapshot = Some(snapshot);
                        },
                        None => {},
                    }
                },
                None => {},
            }
        }
    }

    /// Reads the host's memory and takes the reading in. Whatever the host
    /// reports, the state is what taking in some reading makes of it; in
    /// particular it stays as it is once the user has asked to leave.
    pub fn update_ram_usage(&mut self)
        ensures
            exists|total: nat, used: nat|
                used <= total && final(self)@ == #[trigger] old(self)@.take_reading(total, used),
    {
        let (total_memory, used_memory) = get_ram_info();
        self.take_reading(total_memory, used_memory);
    }

    /// Opens the render loop: reads the host's memory for the first frame
    /// and starts the ticker's period at the present moment.
    pub fn begin(&mut self)
        ensures
            exists|total: nat, used: nat, now: Instant|
                used <= total && final(self)@ == #[trigger] old(self)@.begin(total, used, now),
    {
        self.update_ram_usage();
        let ghost taken = self@;
        let now = Instant::now();
        self.last_update = now;
        proof {
            let (total, used) = choose|total: nat, used: nat|
                used <= total && taken == #[trigger] old(self)@.take_reading(total, used);
            assert(self@ == old(self)@.begin(total, used, now));
        }
    }

    /// What a frame of this state shows.
    pub fn dashboard(&self) -> (frame: Dashboard)
        ensures
            self@.shown_by(frame),
    {
        match &self.snapshot {
            Some(snapshot) => {
                let memory = snapshot.memory();
                let total = memory.total_memory();
                let used = memory.used_memory();
                let free = memory.free_memory();
                let usage_text = match memory.usage_percent() {
                    Some(percent) => {
                        let mut line = String::from_str("Usage: ");
                        push_decimal(&mut line, percent);
                        line.append("%");
                        line
                    },
                    None => String::from_str("Usage: n/a"),
                };
                Dashboard {
                    pressed: self.value,
                    used_bytes: used,
                    free_bytes: free,
                    total_text: format_bytes(total),
                    used_text: format_bytes(used),
                    free_text: format_bytes(free),
                    usage_text,
                }
            },
            None => Dashboard {
                pressed: self.value,
                used_bytes: 0,
                free_bytes: 0,
                total_text: String::from_str("n/a"),
                used_text: String::from_str("n/a"),
                free_text: String::from_str("n/a"),
                usage_text: String::from_str("Usage: n/a"),
            },
        }
    }

    /// One pass of the render loop, after a frame was tried: where the frame
    /// could not be drawn, the error that says so, and nothing changes; else
    /// the state looks at the sampler's cell, acts on what the terminal gave
    /// and looks at the clock, and the result says whether the loop goes on,
    /// which it does until the user has asked to leave.
    pub fn step(&mut self, drawn: bool, cell: &LatestCell, input: Input) -> (more: Result<
        bool,
        UiErrors,
    >)
        ensures
            more.is_ok() <==> drawn,
            !drawn ==> final(self)@ == old(self)@,
            !drawn ==> (more matches Err(UiErrors::GenericError(what)) && what@
                == drawing_failure()),
            drawn ==> more == Ok::<bool, UiErrors>(!old(self)@.pass(cell@, input).exit),
            drawn ==> exists|since_update: nat, phase: nat, now: Instant|
                final(self)@ == #[trigger] old(self)@.pass(cell@, input).indicate(
                    since_update,
                    phase,
                    now,
                ),
    {
        if !drawn {
            return Err(UiErrors::GenericError(String::from_str("error drawing to frame")));
        }
        self.consume(cell);
        match self.handle_events(input) {
            Ok(()) => {},
            Err(error) => {
                return Err(error);
            },
        }
        self.update_value();
        Ok(!self.exit)
    }

    /// Moves the shown character on by the clock: `since_update` whole
    /// seconds after the last move, in phase `phase`, at the moment `now`.
    pub fn indicate(&mut self, since_update: u64, phase: u64, now: Instant)
        ensures
            final(self)@ == old(self)@.indicate(since_update as nat, phase as nat, now),
    {
        if since_update >= TICKER_PERIOD_SECS {
            let step: u64 = phase % 4;
            self.value = if step == 0 {
                'A'
            } else if step == 1 {
                'B'
            } else if step == 2 {
                'C'
            } else {
                'D'
            };
            self.last_update = now;
        }
    }

    /// Looks at the clock and moves the shown character on where the period
    /// has passed since the last move. Whatever the clock says, the state is
    /// what some number of seconds since the last move, some phase and some
    /// moment make of it.
    pub fn update_value(&mut self)
        ensures
            exists|since_update: nat, phase: nat, now: Instant|
                final(self)@ == #[trigger] old(self)@.indicate(since_update, phase, now),
    {
        let now = Instant::now();
        let since_update = seconds_between(now, self.last_update);
        let phase = seconds_between(Instant::now(), now);
        self.indicate(since_update, phase, now);
    }
}

/// Once the user has asked to leave, the answer stays, whatever comes
/// after, and no snapshot is taken in any more, from the cell or directly.
pub proof fn leaving_is_final(
    state: AppView,
    intent: Intent,
    newer: Option<(nat, SnapshotView)>,
    total: nat,
    used: nat,
    since_update: nat,
    phase: nat,
    now: Instant,
)
    requires
        state.exit,
    ensures
        state.apply(intent).exit,
        state.indicate(since_update, phase, now).exit,
        state.consume(newer) == state,
        state.take_reading(total, used) == state,
{
}

/// A press of `q` asks to leave and changes nothing else, and a second ask
/// adds nothing to the first; a press of any other character puts it on show
/// and changes nothing else, so that the user has not asked to leave unless
/// they had before.
pub proof fn keys_mean_what_they_say(state: AppView, c: char)
    ensures
        c == 'q' ==> state.apply(
            intent_of(Input::Key(KeyInput { key: Key::Char(c), kind: KeyKind::Press })),
        ) == (AppView { exit: true, ..state }),
        c != 'q' ==> state.apply(
            intent_of(Input::Key(KeyInput { key: Key::Char(c), kind: KeyKind::Press })),
        ) == (AppView { value: c, ..state }),
        state.apply(Intent::Quit).apply(Intent::Quit) == state.apply(Intent::Quit),
{
}

/// Only a pressed key changes the state: a repeat, a release, any other
/// event and none at all leave it as it is.
pub proof fn other_input_is_ignored(state: AppView, input: Input)
    requires
        !(input matches Input::Key(event) && event.kind == KeyKind::Press),
    ensures
        state.apply(intent_of(input)) == state,
{
}

/// A render loop does not wait for the sampler: looking at a cell that holds
/// nothing newer leaves the state as it is, snapshot included, and after one
/// look a second look at the same cell finds nothing newer.
pub proof fn stale_cell_changes_nothing(state: AppView, cell: CellView)
    ensures
        cell.version() <= state.seen ==> state.consume(cell.newer_than(state.seen)) == state,
        state.consume(cell.newer_than(state.seen)).consume(
            cell.newer_than(state.consume(cell.newer_than(state.seen)).seen),
        ) == state.consume(cell.newer_than(state.seen)),
{
}

/// What a look at the cell takes in is the newest snapshot published, with
/// its version, whatever was published before it.
pub proof fn consume_takes_the_newest(state: AppView, cell: CellView)
    requires
        !state.exit,
        cell.version() > state.seen,
    ensures
        state.consume(cell.newer_than(state.seen)).snapshot == Some(cell.history.last()),
        state.consume(cell.newer_than(state.seen)).seen == cell.version(),
{
}

} // verus!
